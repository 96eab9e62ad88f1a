//! Unsigned integers as ASCII decimal text, written and read.

use vstd::prelude::*;

verus! {

/// The ASCII byte of the decimal digit `d`.
pub open spec fn digit_byte(d: nat) -> u8
    recommends
        d < 10,
{
    (48 + d) as u8
}

/// `n` in decimal, most significant digit first, without leading zeros.
pub open spec fn decimal_bytes(n: nat) -> Seq<u8>
    decreases n,
{
    if n < 10 {
        seq![digit_byte(n)]
    } else {
        decimal_bytes(n / 10).push(digit_byte(n % 10))
    }
}

/// `b` is an ASCII decimal digit.
pub open spec fn is_digit(b: u8) -> bool {
    48 <= b <= 57
}

/// Every byte of `s` is an ASCII decimal digit.
pub open spec fn all_digits(s: Seq<u8>) -> bool {
    forall|i: int| 0 <= i < s.len() ==> is_digit(#[trigger] s[i])
}

/// The number that the decimal digits `s` write; leading zeros count for nothing.
pub open spec fn digits_value(s: Seq<u8>) -> nat
    decreases s.len(),
{
    if s.len() == 0 {
        0
    } else {
        digits_value(s.drop_last()) * 10 + (s.last() - 48) as nat
    }
}

/// `s` without one leading plus sign.
pub open spec fn strip_plus(s: Seq<u8>) -> Seq<u8> {
    if s.len() > 0 && s[0] == 43 {
        s.subrange(1, s.len() as int)
    } else {
        s
    }
}

/// The number that `s` writes: an optional plus sign, then one or more decimal
/// digits whose value fits in 64 bits. Anything else writes no number.
pub open spec fn parse_u64_spec(s: Seq<u8>) -> Option<u64> {
    let digits = strip_plus(s);
    if digits.len() > 0 && all_digits(digits) && digits_value(digits) <= u64::MAX {
        Some(digits_value(digits) as u64)
    } else {
        None
    }
}

/// A longer digit string is worth at least as much as any of its prefixes.
pub proof fn lemma_digits_value_prefix(s: Seq<u8>, k: int)
    requires
        0 <= k <= s.len(),
        all_digits(s),
    ensures
        digits_value(s.subrange(0, k)) <= digits_value(s),
    decreases s.len() - k,
{
    if k == s.len() {
        assert(s.subrange(0, k) =~= s);
    } else {
        lemma_digits_value_prefix(s, k + 1);
        let longer = s.subrange(0, k + 1);
        assert(longer.drop_last() =~= s.subrange(0, k));
    }
}

/// Appends `value` in decimal to `out`.
pub fn push_decimal(out: &mut Vec<u8>, value: u64)
    ensures
        final(out)@ == old(out)@ + decimal_bytes(value as nat),
{
    // The digits come out lowest first; they are written in the other order.
    let mut low_first: Vec<u8> = Vec::new();
    let mut rest: u64 = value;
    while rest >= 10
        invariant
            decimal_bytes(value as nat) == decimal_bytes(rest as nat) + low_first@.reverse(),
        decreases rest,
    {
        let digit: u8 = (rest % 10) as u8;
        low_first.push(48 + digit);
        rest = rest / 10;
    }
    low_first.push(48 + (rest as u8));
    let ghost start = out@;
    let mut i: usize = low_first.len();
    while i > 0
        invariant
            i <= low_first.len(),
            out@ == start + low_first@.reverse().subrange(0, low_first.len() - i),
        decreases i,
    {
        i -= 1;
        out.push(low_first[i]);
    }
}

/// Reads an unsigned decimal number: an optional plus sign, then digits only.
pub fn parse_u64(text: &[u8]) -> (number: Option<u64>)
    ensures
        number == parse_u64_spec(text@),
{
    let first: usize = if text.len() > 0 && text[0] == 43 {
        1
    } else {
        0
    };
    let ghost digits = strip_plus(text@);
    if first == text.len() {
        return None;
    }
    let mut value: u64 = 0;
    let mut i: usize = first;
    while i < text.len()
        invariant
            first <= i <= text.len(),
            digits == strip_plus(text@),
            digits == text@.subrange(first as int, text.len() as int),
            all_digits(digits.subrange(0, i - first)),
            value == digits_value(digits.subrange(0, i - first)),
        decreases text.len() - i,
    {
        let b: u8 = text[i];
        let ghost seen = digits.subrange(0, i - first);
        let ghost next = digits.subrange(0, i + 1 - first);
        proof {
            assert(next.drop_last() =~= seen);
        }
        if b < 48 || b > 57 {
            proof {
                assert(!is_digit(digits[i - first]));
            }
            return None;
        }
        proof {
            assert forall|j: int| 0 <= j < next.len() implies is_digit(#[trigger] next[j]) by {
                if j < seen.len() {
                    assert(next[j] == seen[j]);
                }
            }
        }
        let scaled: u64 = match value.checked_mul(10) {
            Some(v) => v,
            None => {
                proof {
                    if all_digits(digits) {
                        lemma_digits_value_prefix(digits, i + 1 - first);
                    }
                }
                return None;
            },
        };
        value = match scaled.checked_add((b - 48) as u64) {
            Some(v) => v,
            None => {
                proof {
                    if all_digits(digits) {
                        lemma_digits_value_prefix(digits, i + 1 - first);
                    }
                }
                return None;
            },
        };
        i += 1;
    }
    proof {
        assert(digits.subrange(0, i - first) =~= digits);
    }
    Some(value)
}

} // verus!
