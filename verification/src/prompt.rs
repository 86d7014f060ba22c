//! The decision behind the directory-creation prompt: the operator's answer,
//! read as one line of bytes, consents exactly when it is `y` or `Y` once
//! surrounding whitespace (the trailing line break included) is ignored; any
//! other answer, the empty one included, is a refusal.

use vstd::prelude::*;

verus! {

/// ASCII whitespace, as ignored around the operator's answer: horizontal
/// tab through carriage return (9 to 13) and the space (32).
pub open spec fn is_ascii_whitespace(b: u8) -> bool {
    b == 32 || (9 <= b <= 13)
}

/// Whether the answer consents to directory creation: exactly one of its
/// bytes is not whitespace, and that byte is `y` (ASCII 121) or `Y` (ASCII
/// 89). Equivalently, the answer with surrounding whitespace trimmed is
/// exactly `y` or `Y`.
pub open spec fn accepts_creation(s: Seq<u8>) -> bool {
    exists|i: int|
        0 <= i < s.len() && (s[i] == 121 || s[i] == 89) && (forall|j: int|
            0 <= j < s.len() && j != i ==> is_ascii_whitespace(#[trigger] s[j]))
}

/// Decides the directory-creation prompt: `true` exactly when the operator's
/// answer, with surrounding whitespace trimmed, is `y` or `Y`.
pub fn prompt_accepts(input: &[u8]) -> (r: bool)
    ensures
        r == accepts_creation(input@),
{
    let mut i: usize = 0;
    let mut seen: usize = 0;
    let mut ok: bool = false;
    let ghost mut g1: int = 0;
    let ghost mut g2: int = 0;
    while i < input.len()
        invariant
            i <= input@.len(),
            seen == 0 ==> forall|j: int| 0 <= j < i ==> is_ascii_whitespace(#[trigger] input@[j]),
            seen == 1 ==> 0 <= g1 < i && !is_ascii_whitespace(input@[g1]) && (ok <==> (input@[g1]
                == 121 || input@[g1] == 89)) && (forall|j: int|
                0 <= j < i && j != g1 ==> is_ascii_whitespace(#[trigger] input@[j])),
            seen >= 2 ==> 0 <= g1 < i && 0 <= g2 < i && g1 != g2 && !is_ascii_whitespace(
                input@[g1],
            ) && !is_ascii_whitespace(input@[g2]),
        decreases input@.len() - i,
    {
        let b = input[i];
        if !(b == 32 || (9 <= b && b <= 13)) {
            if seen == 0 {
                proof {
                    g1 = i as int;
                }
                ok = b == 121 || b == 89;
            } else if seen == 1 {
                proof {
                    g2 = i as int;
                }
            }
            if seen < 2 {
                seen = seen + 1;
            }
        }
        i = i + 1;
    }
    if seen == 1 && ok {
        proof {
            assert(forall|j: int|
                0 <= j < input@.len() && j != g1 ==> is_ascii_whitespace(#[trigger] input@[j]));
            assert(accepts_creation(input@));
        }
        true
    } else {
        proof {
            if accepts_creation(input@) {
                let i0 = choose|i0: int|
                    0 <= i0 < input@.len() && (input@[i0] == 121 || input@[i0] == 89) && (
                    forall|j: int|
                        0 <= j < input@.len() && j != i0 ==> is_ascii_whitespace(
                            #[trigger] input@[j],
                        ));
                if seen == 0 {
                    assert(is_ascii_whitespace(input@[i0]));
                } else if seen == 1 {
                    if i0 != g1 {
                        assert(is_ascii_whitespace(input@[i0]));
                    }
                } else {
                    if g1 != i0 {
                        assert(is_ascii_whitespace(input@[g1]));
                    } else {
                        assert(is_ascii_whitespace(input@[g2]));
                    }
                }
                assert(false);
            }
        }
        false
    }
}

} // verus!
