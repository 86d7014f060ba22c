//! The configuration that unifies the two behaviours of the countdown: a
//! write policy (write only on change, or on every poll), the interval slept
//! between polls, and whether the target file must already exist. The
//! default is the debounced behaviour: write on change, poll every 100
//! milliseconds, create the target if absent.

use vstd::prelude::*;

verus! {

/// When the loop writes the rendered remaining time: only when it changed
/// since the last write, or unconditionally on every poll before expiry.
#[derive(Clone, Copy, PartialEq, Eq, Structural, Debug)]
pub enum WritePolicy {
    OnChange,
    Always,
}

/// One countdown's configuration.
#[derive(Clone, Copy, PartialEq, Eq, Structural, Debug)]
pub struct CountdownConfig {
    /// When a rendered remaining time is written.
    pub write_policy: WritePolicy,
    /// Milliseconds slept between polls of the clock.
    pub poll_interval_ms: u64,
    /// Whether the target file must exist already, rather than be created.
    pub require_existing_file: bool,
}

impl Default for CountdownConfig {
    /// The debounced behaviour: write on change, poll every 100
    /// milliseconds, create the target file if it is absent.
    fn default() -> (c: CountdownConfig)
        ensures
            c.write_policy is OnChange,
            c.poll_interval_ms == 100,
            c.require_existing_file == false,
    {
        CountdownConfig {
            write_policy: WritePolicy::OnChange,
            poll_interval_ms: 100,
            require_existing_file: false,
        }
    }
}

/// The unconditional behaviour of the countdown: write on every poll before
/// expiry, poll every 250 milliseconds, and require the target file to
/// exist.
pub fn unconditional_config() -> (c: CountdownConfig)
    ensures
        c.write_policy is Always,
        c.poll_interval_ms == 250,
        c.require_existing_file == true,
{
    CountdownConfig {
        write_policy: WritePolicy::Always,
        poll_interval_ms: 250,
        require_existing_file: true,
    }
}

} // verus!
