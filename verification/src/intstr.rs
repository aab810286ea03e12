//! Exact conversion between decimal text and 128-bit signed integers.
//!
//! All monetary fields travel as decimal strings; this module parses them
//! into `i128` values and renders `i128` values back as canonical decimal
//! text (no leading zeros, a leading `-` exactly for negative values).

use vstd::prelude::*;
use vstd::string::StrSliceExecFns;
use vstd::string::StringExecFns;

verus! {

/// True for the ten ASCII decimal digit characters.
pub open spec fn is_digit(c: char) -> bool {
    48 <= c as int <= 57
}

/// Numeric value of a decimal digit character.
pub open spec fn digit_val(c: char) -> int {
    c as int - 48
}

/// Every character of `s` is a decimal digit.
pub open spec fn all_digits(s: Seq<char>) -> bool {
    forall|i: int| 0 <= i < s.len() ==> is_digit(#[trigger] s[i])
}

/// Value of a digit sequence read in base 10, most significant digit first.
pub open spec fn digits_val(s: Seq<char>) -> int
    decreases s.len(),
{
    if s.len() == 0 {
        0
    } else {
        digits_val(s.drop_last()) * 10 + digit_val(s.last())
    }
}

/// Length of the optional leading sign of an integer literal.
pub open spec fn sign_len(s: Seq<char>) -> int {
    if s.len() > 0 && (s[0] == '-' || s[0] == '+') {
        1
    } else {
        0
    }
}

/// The digit part of an integer literal, after the optional sign.
pub open spec fn digits_part(s: Seq<char>) -> Seq<char> {
    s.subrange(sign_len(s), s.len() as int)
}

/// The literal denotes a negative value.
pub open spec fn is_negative_literal(s: Seq<char>) -> bool {
    s.len() > 0 && s[0] == '-'
}

/// Mathematical value of a base-10 signed integer literal: an optional
/// `+` or `-` followed by one or more digits; anything else is rejected.
pub open spec fn spec_parse_int(s: Seq<char>) -> Option<int> {
    if digits_part(s).len() > 0 && all_digits(digits_part(s)) {
        if is_negative_literal(s) {
            Some(-digits_val(digits_part(s)))
        } else {
            Some(digits_val(digits_part(s)))
        }
    } else {
        None
    }
}

/// The value fits the supported signed 128-bit range.
pub open spec fn in_i128_range(v: int) -> bool {
    i128::MIN <= v <= i128::MAX
}

/// Parsing to `i128`: the literal must be well formed and its value in range.
pub open spec fn spec_parse_i128(s: Seq<char>) -> Option<i128> {
    match spec_parse_int(s) {
        Some(v) => if in_i128_range(v) {
            Some(v as i128)
        } else {
            None
        },
        None => None,
    }
}

/// A digit sequence never denotes a negative value.
pub proof fn lemma_digits_val_nonneg(s: Seq<char>)
    requires
        all_digits(s),
    ensures
        digits_val(s) >= 0,
    decreases s.len(),
{
    if s.len() > 0 {
        assert(all_digits(s.drop_last()));
        lemma_digits_val_nonneg(s.drop_last());
    }
}

/// The value of a prefix of a digit sequence never exceeds the value of
/// the whole sequence.
pub proof fn lemma_digits_val_prefix_le(s: Seq<char>, j: int)
    requires
        all_digits(s),
        0 <= j <= s.len(),
    ensures
        digits_val(s.take(j)) <= digits_val(s),
    decreases s.len(),
{
    if j == s.len() {
        assert(s.take(j) =~= s);
    } else {
        assert(all_digits(s.drop_last()));
        assert(s.drop_last().take(j) =~= s.take(j));
        lemma_digits_val_prefix_le(s.drop_last(), j);
        lemma_digits_val_nonneg(s.drop_last());
    }
}

/// Parse a base-10 signed integer literal into an `i128`.
///
/// Returns `Some` exactly when the string is an optional sign followed by
/// one or more decimal digits and the value fits the signed 128-bit range.
pub fn parse_i128(s: &str) -> (r: Option<i128>)
    ensures
        r == spec_parse_i128(s@),
{
    let n: usize = s.unicode_len();
    if n == 0 {
        return None;
    }
    let first = s.get_char(0);
    let start: usize = if first == '-' || first == '+' {
        1
    } else {
        0
    };
    let neg = first == '-';
    if n == start {
        return None;
    }
    let ghost digits = digits_part(s@);
    proof {
        assert(sign_len(s@) == start as int);
        assert(digits =~= s@.subrange(start as int, n as int));
    }
    let mut i: usize = start;
    let mut acc: i128 = 0;
    while i < n
        invariant
            start <= i <= n,
            n as int == s@.len(),
            start as int == sign_len(s@),
            digits == digits_part(s@),
            digits =~= s@.subrange(start as int, n as int),
            all_digits(digits.take(i - start)),
            acc == -digits_val(digits.take(i - start)),
        decreases n - i,
    {
        let c = s.get_char(i);
        let u = c as u32;
        proof {
            assert(digits[i - start] == c);
        }
        if u < 48 || u > 57 {
            proof {
                assert(!is_digit(digits[i - start]));
                assert(!all_digits(digits));
            }
            return None;
        }
        let d: i128 = (u - 48) as i128;
        proof {
            assert(is_digit(c));
            assert(d == digit_val(c));
            assert(digits.take(i + 1 - start).drop_last() =~= digits.take(i - start));
            assert(digits.take(i + 1 - start).last() == c);
            assert(all_digits(digits.take(i + 1 - start)));
        }
        let ghost prefix_val = digits_val(digits.take(i - start));
        let ghost next_val = digits_val(digits.take(i + 1 - start));
        proof {
            assert(next_val == prefix_val * 10 + digit_val(c));
            lemma_digits_val_nonneg(digits.take(i - start));
        }
        acc = match acc.checked_mul(10) {
            Some(a) => a,
            None => {
                proof {
                    assert(acc <= 0);
                    assert(acc * 10 < i128::MIN);
                    assert(prefix_val * 10 > i128::MAX as int + 1);
                    assert(next_val > i128::MAX as int + 1);
                    out_of_range_from_prefix(digits, i + 1 - start);
                }
                return None;
            },
        };
        acc = match acc.checked_sub(d) {
            Some(a) => a,
            None => {
                proof {
                    assert(acc == -(prefix_val * 10));
                    assert(acc - d < i128::MIN);
                    assert(next_val > i128::MAX as int + 1);
                    out_of_range_from_prefix(digits, i + 1 - start);
                }
                return None;
            },
        };
        i = i + 1;
    }
    proof {
        assert(digits.take(n - start) =~= digits);
    }
    if neg {
        Some(acc)
    } else {
        if acc == i128::MIN {
            proof {
                assert(digits_val(digits) == i128::MAX + 1);
            }
            None
        } else {
            Some(-acc)
        }
    }
}

/// The digit character for a value between 0 and 9.
pub open spec fn digit_char(d: int) -> char {
    if d == 0 {
        '0'
    } else if d == 1 {
        '1'
    } else if d == 2 {
        '2'
    } else if d == 3 {
        '3'
    } else if d == 4 {
        '4'
    } else if d == 5 {
        '5'
    } else if d == 6 {
        '6'
    } else if d == 7 {
        '7'
    } else if d == 8 {
        '8'
    } else {
        '9'
    }
}

/// Canonical decimal digits of a nonnegative value, most significant
/// digit first, without leading zeros (a lone `0` for zero).
pub open spec fn dec_digits(n: nat) -> Seq<char>
    decreases n,
{
    if n < 10 {
        seq![digit_char(n as int)]
    } else {
        dec_digits(n / 10) + seq![digit_char(n as int % 10)]
    }
}

/// Canonical decimal text of a signed value: the digits of its magnitude,
/// preceded by `-` exactly when the value is negative.
pub open spec fn dec_text(v: int) -> Seq<char> {
    if v >= 0 {
        dec_digits(v as nat)
    } else {
        seq!['-'] + dec_digits((-v) as nat)
    }
}

/// One-character string for a decimal digit value.
fn digit_str(d: u128) -> (r: &'static str)
    requires
        d < 10,
    ensures
        r@ =~= seq![digit_char(d as int)],
{
    proof {
        reveal_strlit("0");
        reveal_strlit("1");
        reveal_strlit("2");
        reveal_strlit("3");
        reveal_strlit("4");
        reveal_strlit("5");
        reveal_strlit("6");
        reveal_strlit("7");
        reveal_strlit("8");
        reveal_strlit("9");
    }
    if d == 0 {
        "0"
    } else if d == 1 {
        "1"
    } else if d == 2 {
        "2"
    } else if d == 3 {
        "3"
    } else if d == 4 {
        "4"
    } else if d == 5 {
        "5"
    } else if d == 6 {
        "6"
    } else if d == 7 {
        "7"
    } else if d == 8 {
        "8"
    } else {
        "9"
    }
}

/// Render a nonnegative value as decimal digits.
fn u128_to_dec(n: u128) -> (r: String)
    ensures
        r@ == dec_digits(n as nat),
    decreases n,
{
    if n < 10 {
        let s = String::from_str(digit_str(n));
        proof {
            assert(s@ =~= dec_digits(n as nat));
        }
        s
    } else {
        let mut s = u128_to_dec(n / 10);
        s.append(digit_str(n % 10));
        proof {
            assert((n / 10) as nat == n as nat / 10);
            assert((n % 10) as int == n as int % 10);
            assert(s@ =~= dec_digits(n as nat));
        }
        s
    }
}

/// Render a signed value as canonical decimal text.
pub fn i128_to_dec(n: i128) -> (r: String)
    ensures
        r@ == dec_text(n as int),
{
    if n >= 0 {
        let s = u128_to_dec(n as u128);
        s
    } else {
        let mag: u128 = ((-(n + 1)) as u128) + 1;
        proof {
            assert(mag as int == -(n as int));
        }
        let mut s = String::from_str("-");
        let d = u128_to_dec(mag);
        s.append(d.as_str());
        proof {
            reveal_strlit("-");
            assert(s@ =~= dec_text(n as int));
        }
        s
    }
}

/// Law: canonical decimal text has at least one character, its digits are
/// decimal digits, a negative value and only a negative value starts with
/// `-`, and there is no leading zero other than a lone `0` for zero.
pub proof fn lemma_dec_digits_canonical(n: nat)
    ensures
        dec_digits(n).len() >= 1,
        all_digits(dec_digits(n)),
        n == 0 ==> dec_digits(n) == seq!['0'],
        n > 0 ==> dec_digits(n)[0] != '0',
    decreases n,
{
    if n < 10 {
        assert(dec_digits(n) =~= seq![digit_char(n as int)]);
    } else {
        lemma_dec_digits_canonical(n / 10);
        assert(dec_digits(n) == dec_digits(n / 10) + seq![digit_char(n as int % 10)]);
        assert(dec_digits(n)[0] == dec_digits(n / 10)[0]);
        assert forall|i: int| 0 <= i < dec_digits(n).len() implies is_digit(
            #[trigger] dec_digits(n)[i],
        ) by {
            if i < dec_digits(n / 10).len() {
                assert(dec_digits(n)[i] == dec_digits(n / 10)[i]);
            } else {
                assert(dec_digits(n)[i] == digit_char(n as int % 10));
            }
        }
    }
}

/// Law: the canonical decimal digits of a value denote that value; text
/// produced by the renderer reads back to the number it came from.
pub proof fn lemma_dec_digits_val(n: nat)
    ensures
        digits_val(dec_digits(n)) == n,
    decreases n,
{
    if n < 10 {
        let s = seq![digit_char(n as int)];
        assert(dec_digits(n) == s);
        assert(s.drop_last() =~= Seq::<char>::empty());
        assert(digits_val(Seq::<char>::empty()) == 0);
        assert(digits_val(s) == digits_val(s.drop_last()) * 10 + digit_val(s.last()));
        assert(s.last() == digit_char(n as int));
    } else {
        lemma_dec_digits_val(n / 10);
        assert(dec_digits(n).drop_last() =~= dec_digits(n / 10));
        assert(dec_digits(n).last() == digit_char(n as int % 10));
        assert(digit_val(digit_char(n as int % 10)) == n as int % 10);
        assert(n as int / 10 * 10 + n as int % 10 == n as int) by (nonlinear_arith);
    }
}

/// Law: rendering and parsing round-trip; the canonical decimal text of
/// any `i128` parses back to exactly that value, so the figures embedded
/// in an encoded response read back as the numbers they came from.
pub proof fn lemma_dec_text_round_trip(v: i128)
    ensures
        spec_parse_i128(dec_text(v as int)) == Some(v),
{
    let s = dec_text(v as int);
    if v >= 0 {
        lemma_dec_digits_canonical(v as nat);
        lemma_dec_digits_val(v as nat);
        assert(s == dec_digits(v as nat));
        assert(is_digit(s[0]));
        assert(s[0] != '-' && s[0] != '+');
        assert(sign_len(s) == 0);
        assert(digits_part(s) =~= s);
    } else {
        let m = (-(v as int)) as nat;
        lemma_dec_digits_canonical(m);
        lemma_dec_digits_val(m);
        assert(s == seq!['-'] + dec_digits(m));
        assert(s[0] == '-');
        assert(sign_len(s) == 1);
        assert(digits_part(s) =~= dec_digits(m));
        assert(digits_val(digits_part(s)) == m);
    }
}

/// Once a prefix of the digit part is already too large in magnitude for
/// the signed 128-bit range, the whole literal is out of range under
/// either sign.
proof fn out_of_range_from_prefix(digits: Seq<char>, j: int)
    requires
        0 < j <= digits.len(),
        all_digits(digits.take(j)),
        digits_val(digits.take(j)) > i128::MAX as int + 1,
    ensures
        all_digits(digits) ==> !in_i128_range(digits_val(digits)),
        all_digits(digits) ==> !in_i128_range(-digits_val(digits)),
{
    if all_digits(digits) {
        lemma_digits_val_prefix_le(digits, j);
    }
}

} // verus!
