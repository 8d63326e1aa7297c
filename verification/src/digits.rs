//! Decimal parsing of build numbers: an unsigned integer read from a string
//! of digits, with an optional leading plus sign.

use vstd::prelude::*;
use vstd::string::StrSliceExecFns;

verus! {

/// A decimal digit.
pub open spec fn is_decimal_digit(c: char) -> bool {
    '0' <= c && c <= '9'
}

/// The value of one decimal digit.
pub open spec fn digit_value(c: char) -> int {
    c as int - '0' as int
}

/// Every character of `s` is a decimal digit.
pub open spec fn all_digits(s: Seq<char>) -> bool {
    forall|i: int| 0 <= i < s.len() ==> is_decimal_digit(s[i])
}

/// The number a digit string denotes, most significant digit first.
pub open spec fn decimal_value(s: Seq<char>) -> int
    decreases s.len(),
{
    if s.len() == 0 {
        0
    } else {
        decimal_value(s.drop_last()) * 10 + digit_value(s.last())
    }
}

/// The digits of `s`: everything after an optional leading plus sign.
pub open spec fn digits_part(s: Seq<char>) -> Seq<char> {
    if s.len() > 0 && s[0] == '+' {
        s.skip(1)
    } else {
        s
    }
}

/// Whether `s` denotes an unsigned 32-bit integer: a non-empty run of
/// decimal digits after an optional plus sign, whose value fits in `u32`.
pub open spec fn is_valid_u32(s: Seq<char>) -> bool {
    let d = digits_part(s);
    d.len() > 0 && all_digits(d) && decimal_value(d) <= u32::MAX
}

/// A digit string's value never goes down when digits are appended.
proof fn lemma_decimal_value_prefix_le(s: Seq<char>, i: int)
    requires
        0 <= i <= s.len(),
        all_digits(s),
    ensures
        0 <= decimal_value(s.subrange(0, i)) <= decimal_value(s),
    decreases s.len() - i,
{
    if i == s.len() {
        assert(s.subrange(0, i) =~= s);
        lemma_decimal_value_nonneg(s);
    } else {
        lemma_decimal_value_prefix_le(s, i + 1);
        let p = s.subrange(0, i);
        let q = s.subrange(0, i + 1);
        assert(q.drop_last() =~= p);
        lemma_decimal_value_nonneg(p);
        assert(decimal_value(q) == decimal_value(p) * 10 + digit_value(s[i]));
        assert(decimal_value(p) <= decimal_value(p) * 10) by (nonlinear_arith)
            requires 0 <= decimal_value(p);
    }
}

/// A digit string's value is not negative.
proof fn lemma_decimal_value_nonneg(s: Seq<char>)
    requires
        all_digits(s),
    ensures
        decimal_value(s) >= 0,
    decreases s.len(),
{
    if s.len() > 0 {
        assert(all_digits(s.drop_last()));
        lemma_decimal_value_nonneg(s.drop_last());
    }
}

/// Parses `s` as an unsigned 32-bit decimal integer; `None` when `s` is
/// empty, holds a character that is no digit, or denotes a value above
/// `u32::MAX`.
pub fn parse_u32(s: &str) -> (r: Option<u32>)
    ensures
        r is Some <==> is_valid_u32(s@),
        r matches Some(n) ==> n == decimal_value(digits_part(s@)),
{
    let len = s.unicode_len();
    let offset: usize = if len > 0 && s.get_char(0) == '+' {
        1
    } else {
        0
    };
    let ghost d = digits_part(s@);
    assert(d =~= s@.skip(offset as int));
    if len == offset {
        return None;
    }
    let mut acc: u32 = 0;
    let mut i: usize = offset;
    while i < len
        invariant
            offset <= i <= len,
            len == s@.len(),
            d == s@.skip(offset as int),
            d == digits_part(s@),
            all_digits(d.subrange(0, i - offset)),
            acc == decimal_value(d.subrange(0, i - offset)),
        decreases len - i,
    {
        let c = s.get_char(i);
        let code = c as u32;
        if code < 48 || code > 57 {
            proof {
                let j = i - offset;
                assert(d[j] == s@[i as int]);
                assert(!is_decimal_digit(d[j]));
                assert(!all_digits(d));
            }
            return None;
        }
        let digit = code - 48;
        let ghost j = i - offset;
        let ghost p = d.subrange(0, j);
        let ghost q = d.subrange(0, j + 1);
        proof {
            assert(q.drop_last() =~= p);
            assert(d[j] == s@[i as int]);
            assert(decimal_value(q) == decimal_value(p) * 10 + digit_value(d[j]));
        }
        if acc > (u32::MAX - digit) / 10 {
            proof {
                assert(acc * 10 + digit > u32::MAX) by (nonlinear_arith)
                    requires acc > (u32::MAX - digit) / 10, digit <= 9;
                assert(all_digits(q));
                if is_valid_u32(s@) {
                    assert(all_digits(d));
                    lemma_decimal_value_prefix_le(d, j + 1);
                    assert(false);
                }
            }
            return None;
        }
        proof {
            assert(acc * 10 + digit <= u32::MAX) by (nonlinear_arith)
                requires acc <= (u32::MAX - digit) / 10, digit <= 9;
        }
        acc = acc * 10 + digit;
        i = i + 1;
        assert(d.subrange(0, i - offset) =~= q);
    }
    assert(d.subrange(0, i - offset) =~= d);
    Some(acc)
}

} // verus!
