//! Rendering of a remaining time, given in whole seconds, as the ASCII byte
//! string `MM:SS`: the whole minutes zero-padded to at least two digits and
//! never truncated, a colon, then the leftover seconds zero-padded to two
//! digits.

use vstd::prelude::*;

verus! {

/// The ASCII byte for the decimal digit `d`.
pub open spec fn digit_byte(d: nat) -> u8 {
    (48 + d) as u8
}

/// The decimal digits of `n` as ASCII bytes, most significant first, with no
/// leading zeros (a single `0` digit when `n` is zero).
pub open spec fn dec_digits(n: nat) -> Seq<u8>
    decreases n,
{
    if n < 10 {
        seq![digit_byte(n)]
    } else {
        dec_digits(n / 10) + seq![digit_byte(n % 10)]
    }
}

/// The decimal digits of `n`, zero-padded on the left to at least two digits.
pub open spec fn padded2(n: nat) -> Seq<u8> {
    if n < 10 {
        seq![48u8] + dec_digits(n)
    } else {
        dec_digits(n)
    }
}

/// The `MM:SS` rendering of `secs` whole remaining seconds: whole minutes,
/// padded to at least two digits but never truncated, then `:` (ASCII 58),
/// then the leftover seconds, always exactly two digits.
pub open spec fn render_spec(secs: nat) -> Seq<u8> {
    padded2(secs / 60) + seq![58u8] + padded2(secs % 60)
}

/// Appends the decimal digits of `n`, most significant first, to `out`.
fn push_dec_digits(n: u64, out: &mut Vec<u8>)
    ensures
        final(out)@ == old(out)@ + dec_digits(n as nat),
    decreases n,
{
    if n < 10 {
        out.push(48 + n as u8);
    } else {
        push_dec_digits(n / 10, out);
        out.push(48 + (n % 10) as u8);
        proof {
            assert(out@ =~= old(out)@ + dec_digits(n as nat));
        }
    }
}

/// Renders `total_secs` remaining seconds as the `MM:SS` byte string.
pub fn render_remaining(total_secs: u64) -> (out: Vec<u8>)
    ensures
        out@ == render_spec(total_secs as nat),
{
    let minutes = total_secs / 60;
    let seconds = total_secs % 60;
    let mut out: Vec<u8> = Vec::new();
    if minutes < 10 {
        out.push(48u8);
    }
    push_dec_digits(minutes, &mut out);
    out.push(58u8);
    if seconds < 10 {
        out.push(48u8);
    }
    push_dec_digits(seconds, &mut out);
    proof {
        assert(out@ =~= render_spec(total_secs as nat));
    }
    out
}

} // verus!
