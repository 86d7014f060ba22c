//! The countdown session: it fixes a deadline at construction and, on each
//! poll of the clock, decides whether the countdown is over and otherwise
//! renders the remaining time, reporting whether the rendering changed since
//! the last one so that an unchanged rendering need not be written again.

use vstd::prelude::*;
use vstd::arithmetic::div_mod::{lemma_div_by_multiple, lemma_div_is_ordered};
use crate::config::WritePolicy;
use crate::render::render_remaining;
use crate::render::render_spec;

verus! {

/// Milliseconds of one minute.
pub const MILLIS_PER_MINUTE: i128 = 60_000;

/// The whole seconds remaining at `now_millis` before `end_millis` (both in
/// milliseconds); meaningful while `now_millis` is before `end_millis`.
pub open spec fn remaining_secs(end_millis: int, now_millis: int) -> int {
    (end_millis - now_millis) / 1000
}

/// What one poll of the clock decides for a session.
#[derive(Debug, PartialEq)]
pub enum Tick {
    /// The deadline has been reached or passed: the countdown is over.
    Complete,
    /// The remaining time renders to these bytes, which differ from the last
    /// rendering written, and should replace the target's contents.
    Write(Vec<u8>),
    /// The remaining time renders to the same bytes as the last write:
    /// nothing needs to be written.
    Unchanged,
}

/// One countdown: a deadline, fixed at construction and never mutated, the
/// last rendering handed out for writing, kept to skip redundant writes, and
/// the policy that says whether an unchanged rendering is written again.
pub struct CountdownSession {
    end_time_millis: i128,
    last_rendered: Option<Vec<u8>>,
    policy: WritePolicy,
}

impl CountdownSession {
    /// The deadline in milliseconds since the Unix epoch.
    pub closed spec fn end_millis(self) -> int {
        self.end_time_millis as int
    }

    /// The last rendering handed out for writing, if any.
    pub closed spec fn last(self) -> Option<Seq<u8>> {
        match self.last_rendered {
            Option::Some(v) => Option::Some(v@),
            Option::None => Option::None,
        }
    }

    /// The session's write policy.
    pub closed spec fn policy(self) -> WritePolicy {
        self.policy
    }

    /// The deadline lies at most one maximal duration past some clock
    /// reading, so the arithmetic of a step stays in bounds.
    #[verifier::type_invariant]
    spec fn wf(self) -> bool {
        i64::MIN as int <= self.end_time_millis as int
            <= i64::MAX as int + 255 * MILLIS_PER_MINUTE as int
    }

    /// Starts a session whose deadline is `duration_minutes` whole minutes
    /// after the clock reading `now_millis`, writing under `policy`; nothing
    /// has been rendered yet.
    pub fn new(now_millis: i64, duration_minutes: u8, policy: WritePolicy) -> (s: CountdownSession)
        ensures
            s.end_millis() == now_millis as int
                + duration_minutes as int * MILLIS_PER_MINUTE as int,
            s.last() is None,
            s.policy() == policy,
    {
        CountdownSession {
            end_time_millis: now_millis as i128
                + duration_minutes as i128 * MILLIS_PER_MINUTE,
            last_rendered: Option::None,
            policy,
        }
    }

    /// How one step at clock reading `now` takes the session from `pre` to
    /// `post` and decides `t`: at or past the deadline it completes and
    /// changes nothing; before the deadline it renders the remaining whole
    /// seconds, remembers that rendering, and asks for a write exactly when
    /// the policy says to write on every poll or the rendering differs from
    /// the last one written.
    pub open spec fn step_rel(
        pre: CountdownSession,
        now: int,
        post: CountdownSession,
        t: Tick,
    ) -> bool {
        &&& post.end_millis() == pre.end_millis()
        &&& post.policy() == pre.policy()
        &&& if now >= pre.end_millis() {
            &&& t is Complete
            &&& post.last() == pre.last()
        } else {
            let r = render_spec(remaining_secs(pre.end_millis(), now) as nat);
            &&& post.last() == Option::Some(r)
            &&& match t {
                Tick::Complete => false,
                Tick::Write(v) => v@ == r && (pre.policy() is Always || pre.last()
                    != Option::Some(r)),
                Tick::Unchanged => pre.policy() is OnChange && pre.last() == Option::Some(r),
            }
        }
    }

    /// One step of the countdown at clock reading `now_millis`.
    pub fn step(&mut self, now_millis: i64) -> (t: Tick)
        ensures
            CountdownSession::step_rel(*old(self), now_millis as int, *final(self), t),
    {
        proof {
            use_type_invariant(&*self);
        }
        let now: i128 = now_millis as i128;
        if now >= self.end_time_millis {
            return Tick::Complete;
        }
        let remaining_ms: i128 = self.end_time_millis - now;
        let secs_wide: i128 = remaining_ms / 1000;
        proof {
            lemma_div_is_ordered(0, remaining_ms as int, 1000);
            lemma_div_is_ordered(remaining_ms as int, u64::MAX as int * 1000, 1000);
            lemma_div_by_multiple(u64::MAX as int, 1000);
        }
        let secs: u64 = secs_wide as u64;
        let rendered = render_remaining(secs);
        let same_as_last = match &self.last_rendered {
            Option::Some(prev) => bytes_eq(prev, &rendered),
            Option::None => false,
        };
        let debounced = match self.policy {
            WritePolicy::OnChange => true,
            WritePolicy::Always => false,
        };
        if same_as_last && debounced {
            Tick::Unchanged
        } else {
            let stored = render_remaining(secs);
            self.last_rendered = Option::Some(stored);
            Tick::Write(rendered)
        }
    }
}

/// Whether session `s` was begun at clock reading `now` for
/// `duration_minutes` whole minutes: its deadline lies that duration past
/// `now`.
pub open spec fn started_at(s: CountdownSession, now: int, duration_minutes: u8) -> bool {
    s.end_millis() == now + duration_minutes as int * MILLIS_PER_MINUTE as int
}

impl CountdownSession {
    /// Starts a session whose deadline is `duration_minutes` whole minutes
    /// after the current clock reading, writing under `policy`.
    pub fn begin(duration_minutes: u8, policy: WritePolicy) -> (s: CountdownSession)
        ensures
            s.last() is None,
            s.policy() == policy,
            exists|now: int|
                #[trigger] started_at(s, now, duration_minutes) && i64::MIN <= now <= i64::MAX,
    {
        let now = now_unix_millis();
        let s = CountdownSession::new(now, duration_minutes, policy);
        proof {
            assert(started_at(s, now as int, duration_minutes));
        }
        s
    }

    /// One step of the countdown at the current clock reading. The clock may
    /// move arbitrarily between calls, so all that is known is that the step
    /// was taken at some instant.
    pub fn tick(&mut self) -> (t: Tick)
        ensures
            exists|now: int|
                #[trigger] CountdownSession::step_rel(*old(self), now, *final(self), t)
                    && i64::MIN <= now <= i64::MAX,
    {
        let now = now_unix_millis();
        self.step(now)
    }
}

/// Relies on `chrono::Local::now` and `chrono::DateTime::timestamp_millis`:
/// the current local date and time, given as non-leap milliseconds since the
/// Unix epoch. Nothing is assumed of the value: the clock may stand anywhere
/// and may move backwards between calls.
#[verifier::external_body]
fn now_unix_millis() -> i64 {
    chrono::Local::now().timestamp_millis()
}

/// Law: once the clock reaches or passes the deadline, a step decides
/// `Complete` and leaves the session as it was; nothing further is ever
/// rendered or written. A loop that polls at least once every bounded
/// interval therefore finishes within the configured duration plus one
/// interval.
pub proof fn lemma_expiry_completes(
    pre: CountdownSession,
    now: int,
    post: CountdownSession,
    t: Tick,
)
    requires
        CountdownSession::step_rel(pre, now, post, t),
        now >= pre.end_millis(),
    ensures
        t is Complete,
        post.last() == pre.last(),
        post.end_millis() == pre.end_millis(),
{
}

/// Law: the remaining time never exceeds the configured duration: at any
/// instant no earlier than the session's start, at most
/// `duration_minutes * 60` whole seconds remain before the deadline.
pub proof fn lemma_remaining_bounded(start: int, duration_minutes: u8, now: int)
    requires
        start <= now,
    ensures
        remaining_secs(start + duration_minutes as int * MILLIS_PER_MINUTE as int, now)
            <= duration_minutes as int * 60,
{
    let end = start + duration_minutes as int * MILLIS_PER_MINUTE as int;
    lemma_div_is_ordered(end - now, duration_minutes as int * MILLIS_PER_MINUTE as int, 1000);
    assert(duration_minutes as int * MILLIS_PER_MINUTE as int == (duration_minutes as int * 60)
        * 1000) by (nonlinear_arith);
    lemma_div_by_multiple(duration_minutes as int * 60, 1000);
}

/// Law: the remaining time is non-increasing as the clock advances: with the
/// deadline fixed, a later instant leaves no more remaining whole seconds,
/// so successive renderings of one session are non-increasing in remaining
/// seconds whenever the clock itself does not move backwards.
pub proof fn lemma_remaining_monotonic(end_millis: int, now1: int, now2: int)
    requires
        now1 <= now2,
    ensures
        remaining_secs(end_millis, now2) <= remaining_secs(end_millis, now1),
{
    lemma_div_is_ordered(end_millis - now2, end_millis - now1, 1000);
}

/// Law: under the on-change policy, writing is debounced: if a step wrote
/// some rendering, and at a later poll before the deadline the remaining
/// time renders to the same bytes, that step decides `Unchanged`, so the
/// same bytes are never written twice in a row.
pub proof fn lemma_debounce(
    s1: CountdownSession,
    now1: int,
    s2: CountdownSession,
    v: Vec<u8>,
    now2: int,
    s3: CountdownSession,
    t2: Tick,
)
    requires
        s1.policy() is OnChange,
        CountdownSession::step_rel(s1, now1, s2, Tick::Write(v)),
        CountdownSession::step_rel(s2, now2, s3, t2),
        now2 < s2.end_millis(),
        render_spec(remaining_secs(s2.end_millis(), now2) as nat) == v@,
    ensures
        t2 is Unchanged,
{
}

/// Law: under the always policy, every poll before the deadline asks for a
/// write, whether or not the rendering changed.
pub proof fn lemma_always_writes(
    pre: CountdownSession,
    now: int,
    post: CountdownSession,
    t: Tick,
)
    requires
        pre.policy() is Always,
        CountdownSession::step_rel(pre, now, post, t),
        now < pre.end_millis(),
    ensures
        t is Write,
{
}

/// Whether two byte vectors hold the same bytes.
fn bytes_eq(a: &Vec<u8>, b: &Vec<u8>) -> (r: bool)
    ensures
        r == (a@ == b@),
{
    if a.len() != b.len() {
        return false;
    }
    let mut i: usize = 0;
    while i < a.len()
        invariant
            i <= a@.len(),
            a@.len() == b@.len(),
            forall|j: int| 0 <= j < i ==> a@[j] == b@[j],
        decreases a@.len() - i,
    {
        if a[i] != b[i] {
            return false;
        }
        i = i + 1;
    }
    proof {
        assert(a@ =~= b@);
    }
    true
}

} // verus!
