//! Decimal numbers in query strings.
//!
//! Numeric query parameters travel as ASCII decimal digit strings. This
//! module gives the mathematical reading of such a string (`dec_val`), the
//! canonical rendering of a number (`dec_repr`), and verified executable
//! parsing and rendering against those definitions.

use vstd::prelude::*;

verus! {

/// An ASCII decimal digit byte, `'0'` through `'9'`.
pub open spec fn is_dec_digit(b: u8) -> bool {
    48 <= b <= 57
}

/// A well-formed decimal numeral: non-empty and made of digit bytes only.
pub open spec fn is_dec_bytes(s: Seq<u8>) -> bool {
    s.len() > 0 && forall|i: int| 0 <= i < s.len() ==> is_dec_digit(#[trigger] s[i])
}

/// The number a digit string denotes, read left to right.
pub open spec fn dec_val(s: Seq<u8>) -> nat
    decreases s.len(),
{
    if s.len() == 0 {
        0
    } else {
        (dec_val(s.drop_last()) * 10 + (s.last() - 48)) as nat
    }
}

/// The canonical decimal rendering of a number: no sign, no leading zeros
/// (except for the single digit `0` itself).
pub open spec fn dec_repr(n: nat) -> Seq<u8>
    decreases n,
{
    if n < 10 {
        seq![(48 + n) as u8]
    } else {
        dec_repr(n / 10).push((48 + n % 10) as u8)
    }
}

/// A prefix of a digit string never denotes more than the whole string.
pub proof fn lemma_dec_val_take_le(s: Seq<u8>, i: int)
    requires
        0 <= i <= s.len(),
        forall|j: int| 0 <= j < s.len() ==> is_dec_digit(#[trigger] s[j]),
    ensures
        dec_val(s.take(i)) <= dec_val(s),
    decreases s.len(),
{
    if i < s.len() {
        assert(s.drop_last().take(i) =~= s.take(i));
        lemma_dec_val_take_le(s.drop_last(), i);
        assert(dec_val(s) >= dec_val(s.drop_last()));
    } else {
        assert(s.take(i) =~= s);
    }
}

/// Parse a non-negative decimal numeral. Returns the denoted value exactly
/// when the input is a well-formed numeral whose value fits in `usize`;
/// returns `None` on an empty string, a non-digit byte, or overflow.
pub fn parse_uint(s: &[u8]) -> (r: Option<usize>)
    ensures
        r is Some <==> is_dec_bytes(s@) && dec_val(s@) <= usize::MAX,
        r is Some ==> r->0 == dec_val(s@),
{
    if s.len() == 0 {
        return None;
    }
    let mut acc: usize = 0;
    let mut i: usize = 0;
    while i < s.len()
        invariant
            0 <= i <= s@.len(),
            s@.len() > 0,
            forall|j: int| 0 <= j < i ==> is_dec_digit(#[trigger] s@[j]),
            acc == dec_val(s@.take(i as int)),
        decreases s@.len() - i,
    {
        let b = s[i];
        if b < 48 || b > 57 {
            return None;
        }
        let d: usize = (b - 48) as usize;
        let step = match acc.checked_mul(10) {
            Some(m) => m.checked_add(d),
            None => None,
        };
        match step {
            Some(next) => {
                proof {
                    assert(s@.take(i + 1).drop_last() =~= s@.take(i as int));
                    assert(s@.take(i + 1).last() == s@[i as int]);
                }
                acc = next;
            },
            None => {
                proof {
                    assert(s@.take(i + 1).drop_last() =~= s@.take(i as int));
                    assert(s@.take(i + 1).last() == s@[i as int]);
                    assert(dec_val(s@.take(i + 1)) > usize::MAX);
                    if is_dec_bytes(s@) {
                        lemma_dec_val_take_le(s@, i + 1);
                    }
                }
                return None;
            },
        }
        i = i + 1;
    }
    proof {
        assert(s@.take(i as int) =~= s@);
    }
    Some(acc)
}

/// Render a number as its canonical decimal numeral.
pub fn render_uint(n: usize) -> (r: Vec<u8>)
    ensures
        r@ == dec_repr(n as nat),
    decreases n,
{
    if n < 10 {
        let mut v: Vec<u8> = Vec::new();
        v.push(48 + n as u8);
        proof {
            assert(v@ =~= dec_repr(n as nat));
        }
        v
    } else {
        let mut v = render_uint(n / 10);
        v.push(48 + (n % 10) as u8);
        proof {
            assert(v@ =~= dec_repr(n as nat));
        }
        v
    }
}

} // verus!
