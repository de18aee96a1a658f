//! Textual parsing of scalar values.
//!
//! The string-value of a selected node is turned into an integer or a
//! boolean here.  The grammar is the standard one for integers: an
//! optional sign followed by one or more decimal digits, with the
//! resulting value required to fit the target type's range, and with a
//! minus sign accepted only by the signed types.  Booleans are exactly
//! the texts `true` and `false`.

use vstd::prelude::*;

verus! {

/// Whether `c` is a decimal digit.
pub open spec fn is_digit_char(c: char) -> bool {
    48 <= c as int && c as int <= 57
}

/// The value of the digit `c`.
pub open spec fn digit_of(c: char) -> int {
    c as int - 48
}

/// Whether every character of `s` is a decimal digit.
pub open spec fn all_digits(s: Seq<char>) -> bool {
    forall|i: int| 0 <= i < s.len() ==> is_digit_char(s[i])
}

/// The value of the digit string `s`, most significant digit first.
pub open spec fn digits_value(s: Seq<char>) -> int
    decreases s.len(),
{
    if s.len() == 0 {
        0
    } else {
        digits_value(s.drop_last()) * 10 + digit_of(s.last())
    }
}

/// The digits of an integer text: everything after an optional sign.
pub open spec fn int_text_body(s: Seq<char>) -> Seq<char> {
    if s.len() > 0 && (s[0] == '+' || s[0] == '-') {
        s.drop_first()
    } else {
        s
    }
}

/// Whether the integer text `s` carries a minus sign.
pub open spec fn int_text_negative(s: Seq<char>) -> bool {
    s.len() > 0 && s[0] == '-'
}

/// Whether `s` has the shape of an integer text: an optional sign
/// followed by one or more decimal digits.
pub open spec fn int_text_shape_ok(s: Seq<char>) -> bool {
    int_text_body(s).len() > 0 && all_digits(int_text_body(s))
}

/// The mathematical value denoted by the integer text `s`.
pub open spec fn int_text_value(s: Seq<char>) -> int {
    if int_text_negative(s) {
        -digits_value(int_text_body(s))
    } else {
        digits_value(int_text_body(s))
    }
}

/// Whether `s` denotes an integer within `[lo, hi]`.
pub open spec fn int_text_in_range(s: Seq<char>, lo: int, hi: int) -> bool {
    int_text_shape_ok(s) && lo <= int_text_value(s) && int_text_value(s) <= hi
}

/// The digits of an unsigned integer text: everything after an
/// optional `+` sign; a `-` sign is not part of the grammar.
pub open spec fn uint_text_body(s: Seq<char>) -> Seq<char> {
    if s.len() > 0 && s[0] == '+' {
        s.drop_first()
    } else {
        s
    }
}

/// Whether `s` has the shape of an unsigned integer text: an optional
/// `+` sign followed by one or more decimal digits.
pub open spec fn uint_text_shape_ok(s: Seq<char>) -> bool {
    uint_text_body(s).len() > 0 && all_digits(uint_text_body(s))
}

/// The value denoted by the unsigned integer text `s`.
pub open spec fn uint_text_value(s: Seq<char>) -> int {
    digits_value(uint_text_body(s))
}

/// Whether `s` denotes an unsigned integer of value at most `hi`.
pub open spec fn uint_text_in_range(s: Seq<char>, hi: int) -> bool {
    uint_text_shape_ok(s) && uint_text_value(s) <= hi
}

/// The boolean denoted by `s`, if any: exactly `true` or `false`.
pub open spec fn bool_text_value(s: Seq<char>) -> Option<bool> {
    if s == "true"@ {
        Some(true)
    } else if s == "false"@ {
        Some(false)
    } else {
        None
    }
}

proof fn lemma_digits_value_nonneg(s: Seq<char>)
    requires
        all_digits(s),
    ensures
        digits_value(s) >= 0,
    decreases s.len(),
{
    if s.len() > 0 {
        assert(all_digits(s.drop_last()));
        lemma_digits_value_nonneg(s.drop_last());
    }
}

proof fn lemma_digits_value_prefix(s: Seq<char>, j: int)
    requires
        all_digits(s),
        0 <= j <= s.len(),
    ensures
        digits_value(s.take(j)) <= digits_value(s),
    decreases s.len() - j,
{
    if j == s.len() {
        assert(s.take(j) =~= s);
    } else {
        assert(s.take(j + 1).drop_last() =~= s.take(j));
        assert(s.take(j + 1).last() == s[j]);
        assert(all_digits(s.take(j)));
        lemma_digits_value_nonneg(s.take(j));
        assert(digits_value(s.take(j + 1)) == digits_value(s.take(j)) * 10 + digit_of(s[j]));
        assert(digits_value(s.take(j)) * 10 >= digits_value(s.take(j))) by (nonlinear_arith)
            requires digits_value(s.take(j)) >= 0;
        lemma_digits_value_prefix(s, j + 1);
    }
}

/// Scan an integer text: the sign and the digit value, if the shape is
/// right and the digit value fits a machine word.
fn scan_int(s: &str) -> (r: Option<(bool, u64)>)
    ensures
        r is Some <==> int_text_shape_ok(s@) && digits_value(int_text_body(s@)) <= u64::MAX,
        r matches Some(p) ==> p.0 == int_text_negative(s@) && p.1 as int == digits_value(
            int_text_body(s@),
        ),
{
    let n = s.unicode_len();
    if n == 0 {
        return None;
    }
    let first = s.get_char(0);
    let neg = first == '-';
    let start: usize = if first == '-' || first == '+' {
        1
    } else {
        0
    };
    let ghost body = int_text_body(s@);
    proof {
        assert(body =~= s@.subrange(start as int, n as int));
    }
    if start == 1 && n == 1 {
        return None;
    }
    let mut acc: u64 = 0;
    let mut i: usize = start;
    while i < n
        invariant
            start <= i <= n,
            n == s@.len(),
            start <= 1,
            n >= 1,
            start == 1 ==> n >= 2,
            body == s@.subrange(start as int, n as int),
            body == int_text_body(s@),
            all_digits(body.take(i - start)),
            acc as int == digits_value(body.take(i - start)),
        decreases n - i,
    {
        let c = s.get_char(i);
        let d32 = c as u32;
        proof {
            assert(body.take(i + 1 - start).drop_last() =~= body.take(i - start));
            assert(body.take(i + 1 - start).last() == body[i - start]);
            assert(body[i - start] == s@[i as int]);
        }
        if d32 < 48 || d32 > 57 {
            proof {
                assert(!is_digit_char(body[i - start]));
            }
            return None;
        }
        let d = (d32 - 48) as u64;
        if acc > (u64::MAX - d) / 10 {
            proof {
                let taken = body.take(i + 1 - start);
                assert(acc * 10 + d > u64::MAX) by (nonlinear_arith)
                    requires
                        acc > (u64::MAX - d) / 10,
                        0 <= d <= 9,
                        acc >= 0;
                assert(digits_value(taken) == acc * 10 + d);
                assert(all_digits(taken));
                if all_digits(body) {
                    lemma_digits_value_prefix(body, i + 1 - start);
                    assert(body.take(body.len() as int) =~= body);
                }
            }
            return None;
        }
        proof {
            assert(acc * 10 + d <= u64::MAX) by (nonlinear_arith)
                requires
                    acc <= (u64::MAX - d) / 10,
                    0 <= d <= 9,
                    acc >= 0;
        }
        acc = acc * 10 + d;
        i += 1;
    }
    proof {
        assert(body.take(n - start) =~= body);
        assert(body.len() == n - start >= 1);
    }
    Some((neg, acc))
}

/// Parse `s` as an unsigned 64-bit integer; a minus sign is refused.
pub fn text_to_u64(s: &str) -> (r: Option<u64>)
    ensures
        r is Some <==> uint_text_in_range(s@, u64::MAX as int),
        r matches Some(v) ==> v as int == uint_text_value(s@),
{
    proof {
        if s@.len() > 0 && s@[0] == '-' {
            assert(uint_text_body(s@) == s@);
            assert(!is_digit_char(s@[0]));
        } else {
            assert(uint_text_body(s@) == int_text_body(s@));
        }
    }
    match scan_int(s) {
        Some((neg, mag)) => {
            if !neg {
                Some(mag)
            } else {
                None
            }
        },
        None => None,
    }
}

/// Parse `s` as a signed 64-bit integer.
pub fn text_to_i64(s: &str) -> (r: Option<i64>)
    ensures
        r is Some <==> int_text_in_range(s@, i64::MIN as int, i64::MAX as int),
        r matches Some(v) ==> v as int == int_text_value(s@),
{
    match scan_int(s) {
        Some((neg, mag)) => {
            if !neg {
                if mag <= 0x7fff_ffff_ffff_ffffu64 {
                    Some(mag as i64)
                } else {
                    None
                }
            } else {
                if mag <= 0x7fff_ffff_ffff_ffffu64 {
                    Some(-(mag as i64))
                } else if mag == 0x8000_0000_0000_0000u64 {
                    Some(i64::MIN)
                } else {
                    None
                }
            }
        },
        None => {
            proof {
                if int_text_shape_ok(s@) {
                    lemma_digits_value_nonneg(int_text_body(s@));
                }
            }
            None
        },
    }
}

/// Parse `s` as an unsigned integer of the width of `u8`; a minus
/// sign is refused.
pub fn text_to_u8(s: &str) -> (r: Option<u8>)
    ensures
        r is Some <==> uint_text_in_range(s@, u8::MAX as int),
        r matches Some(v) ==> v as int == uint_text_value(s@),
{
    match text_to_u64(s) {
        Some(v) => {
            if v <= u8::MAX as u64 {
                Some(v as u8)
            } else {
                None
            }
        },
        None => None,
    }
}

/// Parse `s` as an unsigned integer of the width of `u16`; a minus
/// sign is refused.
pub fn text_to_u16(s: &str) -> (r: Option<u16>)
    ensures
        r is Some <==> uint_text_in_range(s@, u16::MAX as int),
        r matches Some(v) ==> v as int == uint_text_value(s@),
{
    match text_to_u64(s) {
        Some(v) => {
            if v <= u16::MAX as u64 {
                Some(v as u16)
            } else {
                None
            }
        },
        None => None,
    }
}

/// Parse `s` as an unsigned integer of the width of `u32`; a minus
/// sign is refused.
pub fn text_to_u32(s: &str) -> (r: Option<u32>)
    ensures
        r is Some <==> uint_text_in_range(s@, u32::MAX as int),
        r matches Some(v) ==> v as int == uint_text_value(s@),
{
    match text_to_u64(s) {
        Some(v) => {
            if v <= u32::MAX as u64 {
                Some(v as u32)
            } else {
                None
            }
        },
        None => None,
    }
}

/// Parse `s` as a signed integer of the width of `i8`.
pub fn text_to_i8(s: &str) -> (r: Option<i8>)
    ensures
        r is Some <==> int_text_in_range(s@, i8::MIN as int, i8::MAX as int),
        r matches Some(v) ==> v as int == int_text_value(s@),
{
    match text_to_i64(s) {
        Some(v) => {
            if i8::MIN as i64 <= v && v <= i8::MAX as i64 {
                Some(v as i8)
            } else {
                None
            }
        },
        None => None,
    }
}

/// Parse `s` as a signed integer of the width of `i16`.
pub fn text_to_i16(s: &str) -> (r: Option<i16>)
    ensures
        r is Some <==> int_text_in_range(s@, i16::MIN as int, i16::MAX as int),
        r matches Some(v) ==> v as int == int_text_value(s@),
{
    match text_to_i64(s) {
        Some(v) => {
            if i16::MIN as i64 <= v && v <= i16::MAX as i64 {
                Some(v as i16)
            } else {
                None
            }
        },
        None => None,
    }
}

/// Parse `s` as a signed integer of the width of `i32`.
pub fn text_to_i32(s: &str) -> (r: Option<i32>)
    ensures
        r is Some <==> int_text_in_range(s@, i32::MIN as int, i32::MAX as int),
        r matches Some(v) ==> v as int == int_text_value(s@),
{
    match text_to_i64(s) {
        Some(v) => {
            if i32::MIN as i64 <= v && v <= i32::MAX as i64 {
                Some(v as i32)
            } else {
                None
            }
        },
        None => None,
    }
}

/// Parse `s` as a boolean: exactly the texts `true` and `false`.
pub fn text_to_bool(s: &str) -> (r: Option<bool>)
    ensures
        r == bool_text_value(s@),
{
    let t: String = "true".to_owned();
    let f: String = "false".to_owned();
    let own: String = s.to_owned();
    if own == t {
        Some(true)
    } else if own == f {
        Some(false)
    } else {
        None
    }
}

} // verus!
