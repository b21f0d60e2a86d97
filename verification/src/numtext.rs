//! Decimal text for signed 64-bit values.
//!
//! Watermarks are persisted as decimal strings; this module gives both
//! directions an exact specification and proves that formatting followed by
//! parsing returns the value that was formatted.

use vstd::prelude::*;
use vstd::string::*;
use crate::text::push_char;

verus! {

/// Whether `c` is a decimal digit.
pub open spec fn is_digit_char(c: char) -> bool {
    48 <= c as u32 && c as u32 <= 57
}

/// Numeric value of a digit character.
pub open spec fn digit_val(c: char) -> int {
    c as u32 - 48
}

/// Whether every character of `s` is a decimal digit.
pub open spec fn all_digits(s: Seq<char>) -> bool {
    forall|i: int| 0 <= i < s.len() ==> is_digit_char(s[i])
}

/// Value of a digit sequence read in base ten.
pub open spec fn digits_val(s: Seq<char>) -> int
    decreases s.len(),
{
    if s.len() == 0 {
        0
    } else {
        digits_val(s.drop_last()) * 10 + digit_val(s.last())
    }
}

/// Mathematical value of a decimal string: an optional sign followed by at
/// least one digit.  Anything else has no value.
pub open spec fn dec_val_spec(s: Seq<char>) -> Option<int> {
    if s.len() > 0 && (s[0] == '-' || s[0] == '+') {
        let rest = s.subrange(1, s.len() as int);
        if rest.len() > 0 && all_digits(rest) {
            if s[0] == '-' {
                Some(-digits_val(rest))
            } else {
                Some(digits_val(rest))
            }
        } else {
            None
        }
    } else if s.len() > 0 && all_digits(s) {
        Some(digits_val(s))
    } else {
        None
    }
}

/// What parsing `s` as an `i64` returns: the decimal value when it is well
/// formed and representable, nothing otherwise.
pub open spec fn parse_i64_spec(s: Seq<char>) -> Option<int> {
    match dec_val_spec(s) {
        Some(v) => if i64::MIN <= v <= i64::MAX {
            Some(v)
        } else {
            None
        },
        None => None,
    }
}

proof fn lemma_digits_val_bounds(s: Seq<char>)
    requires
        all_digits(s),
    ensures
        digits_val(s) >= 0,
    decreases s.len(),
{
    if s.len() > 0 {
        assert(all_digits(s.drop_last())) by {
            assert(forall|i: int|
                0 <= i < s.len() - 1 ==> s.drop_last()[i] == s[i] && is_digit_char(s[i]));
        }
        lemma_digits_val_bounds(s.drop_last());
    }
}

proof fn lemma_digits_val_grows(s: Seq<char>, k: int)
    requires
        all_digits(s),
        0 <= k <= s.len(),
    ensures
        digits_val(s) >= digits_val(s.subrange(0, k)),
    decreases s.len() - k,
{
    if k < s.len() {
        lemma_digits_val_grows(s, k + 1);
        let p = s.subrange(0, k);
        let q = s.subrange(0, k + 1);
        assert(q.drop_last() =~= p);
        assert(all_digits(p));
        lemma_digits_val_bounds(p);
        assert(digits_val(q) == digits_val(p) * 10 + digit_val(q.last()));
        assert(is_digit_char(q.last()));
    } else {
        assert(s.subrange(0, k) =~= s);
    }
}

proof fn lemma_dec_val_shape(s: Seq<char>, lo: int)
    requires
        0 <= lo <= 1,
        lo < s.len(),
        lo == 1 <==> (s[0] == '-' || s[0] == '+'),
    ensures
        ({
            let digits = s.subrange(lo, s.len() as int);
            dec_val_spec(s) == if all_digits(digits) {
                if s[0] == '-' {
                    Some(-digits_val(digits))
                } else {
                    Some(digits_val(digits))
                }
            } else {
                None::<int>
            }
        }),
{
    let digits = s.subrange(lo, s.len() as int);
    if lo == 0 {
        assert(digits =~= s);
    }
}

/// Parse a decimal string as an `i64`; exactly the well-formed, representable
/// strings succeed.
pub fn parse_dec_i64(s: &str) -> (r: Option<i64>)
    ensures
        match r {
            Some(v) => parse_i64_spec(s@) == Some(v as int),
            None => parse_i64_spec(s@) is None,
        },
{
    let n = s.unicode_len();
    if n == 0 {
        return None;
    }
    let first = s.get_char(0);
    let has_sign = first == '-' || first == '+';
    let neg = first == '-';
    let lo: usize = if has_sign {
        1
    } else {
        0
    };
    if lo == n {
        return None;
    }
    let ghost digits = s@.subrange(lo as int, n as int);
    // Largest magnitude representable with the given sign.
    let limit: u64 = if neg {
        9_223_372_036_854_775_808u64
    } else {
        9_223_372_036_854_775_807u64
    };
    let mut mag: u64 = 0;
    let mut i: usize = lo;
    while i < n
        invariant
            n == s@.len(),
            lo <= i <= n,
            lo < n,
            lo <= 1,
            (lo == 1) <==> (s@[0] == '-' || s@[0] == '+'),
            neg <==> s@[0] == '-',
            digits == s@.subrange(lo as int, n as int),
            forall|j: int| 0 <= j < i - lo ==> is_digit_char(digits[j]),
            mag as int == digits_val(digits.subrange(0, i - lo)),
            mag <= limit,
            limit == if neg {
                9_223_372_036_854_775_808u64
            } else {
                9_223_372_036_854_775_807u64
            },
        decreases n - i,
    {
        let c = s.get_char(i);
        let u = c as u32;
        if u < 48 || u > 57 {
            // Not a digit: the string has no decimal value.
            proof {
                assert(digits[i - lo] == s@[i as int]);
                assert(!all_digits(digits));
                lemma_dec_val_shape(s@, lo as int);
            }
            return None;
        }
        let d = (u - 48) as u64;
        if mag > (limit - d) / 10 {
            // The value exceeds the representable range whatever follows.
            proof {
                let pre = digits.subrange(0, i - lo);
                let ext = digits.subrange(0, i + 1 - lo);
                assert(ext.drop_last() =~= pre);
                assert(ext.last() == digits[i - lo]);
                assert(digits[i - lo] == s@[i as int]);
                assert(digits_val(ext) == mag as int * 10 + d) by {
                    assert(digit_val(ext.last()) == d);
                }
                assert(mag as int * 10 + d > limit as int) by (nonlinear_arith)
                    requires
                        mag as int > (limit as int - d) / 10,
                        0 <= d <= 9,
                        limit as int >= d,
                ;
                if all_digits(digits) {
                    assert(all_digits(ext)) by {
                        assert(forall|j: int|
                            0 <= j < ext.len() ==> ext[j] == digits[j] && is_digit_char(
                                digits[j],
                            ));
                    }
                    lemma_digits_val_grows(digits, i + 1 - lo);
                    assert(digits_val(digits) > limit as int);
                    if neg {
                        assert(-digits_val(digits) < i64::MIN as int);
                    } else {
                        assert(digits_val(digits) > i64::MAX as int);
                    }
                }
                lemma_dec_val_shape(s@, lo as int);
            }
            return None;
        }
        proof {
            let pre = digits.subrange(0, i - lo);
            let ext = digits.subrange(0, i + 1 - lo);
            assert(ext.drop_last() =~= pre);
            assert(ext.last() == digits[i - lo]);
            assert(digits[i - lo] == s@[i as int]);
            assert(digit_val(ext.last()) == d);
            assert(mag as int * 10 + d <= limit as int) by (nonlinear_arith)
                requires
                    mag as int <= (limit as int - d) / 10,
                    0 <= d <= 9,
                    limit as int >= d,
            ;
        }
        mag = mag * 10 + d;
        i = i + 1;
    }
    proof {
        assert(digits.subrange(0, n - lo) =~= digits);
        assert(all_digits(digits));
        lemma_dec_val_shape(s@, lo as int);
    }
    if neg {
        let v: i64 = if mag == 9_223_372_036_854_775_808u64 {
            i64::MIN
        } else {
            -(mag as i64)
        };
        Some(v)
    } else {
        Some(mag as i64)
    }
}

/// Digit character for a value below ten.
pub open spec fn digit_char_spec(d: int) -> char {
    ((48 + d) as u32) as char
}

/// Decimal digits of a non-negative value, most significant first.
pub open spec fn dec_digits_spec(n: int) -> Seq<char>
    decreases n,
{
    if n < 10 {
        seq![digit_char_spec(if n >= 0 {
            n
        } else {
            0
        })]
    } else {
        dec_digits_spec(n / 10).push(digit_char_spec(n % 10))
    }
}

/// Decimal text of a signed value: a minus sign for negative values, then
/// the digits of the magnitude.
pub open spec fn dec_i64_spec(v: int) -> Seq<char> {
    if v < 0 {
        seq!['-'] + dec_digits_spec(-v)
    } else {
        dec_digits_spec(v)
    }
}

fn push_digit(out: &mut String, d: u64)
    requires
        d < 10,
    ensures
        final(out)@ == old(out)@.push(digit_char_spec(d as int)),
{
    let c = ((48 + d) as u8) as char;
    proof {
        assert(c == digit_char_spec(d as int));
    }
    push_char(out, c);
}

fn push_dec_u64(out: &mut String, n: u64)
    ensures
        final(out)@ == old(out)@ + dec_digits_spec(n as int),
    decreases n,
{
    if n < 10 {
        push_digit(out, n);
        proof {
            assert(old(out)@.push(digit_char_spec(n as int)) =~= old(out)@ + dec_digits_spec(
                n as int,
            ));
        }
    } else {
        push_dec_u64(out, n / 10);
        push_digit(out, n % 10);
        proof {
            assert((old(out)@ + dec_digits_spec(n as int / 10)).push(
                digit_char_spec(n as int % 10),
            ) =~= old(out)@ + dec_digits_spec(n as int));
        }
    }
}

/// Decimal text of `v`.
pub fn i64_to_dec(v: i64) -> (r: String)
    ensures
        r@ == dec_i64_spec(v as int),
{
    let mut out = String::new();
    if v >= 0 {
        push_dec_u64(&mut out, v as u64);
    } else {
        push_char(&mut out, '-');
        let mag: u64 = ((-(v + 1)) as u64) + 1;
        proof {
            assert(mag as int == -(v as int));
        }
        push_dec_u64(&mut out, mag);
        proof {
            assert(Seq::<char>::empty().push('-') + dec_digits_spec(mag as int) =~= dec_i64_spec(
                v as int,
            ));
        }
    }
    out
}

proof fn lemma_dec_digits_wf(n: int)
    requires
        n >= 0,
    ensures
        dec_digits_spec(n).len() >= 1,
        all_digits(dec_digits_spec(n)),
        digits_val(dec_digits_spec(n)) == n,
    decreases n,
{
    if n < 10 {
        let s = dec_digits_spec(n);
        assert(s.len() == 1);
        assert(s[0] == digit_char_spec(n));
        assert(is_digit_char(digit_char_spec(n)));
        assert(s.drop_last() =~= Seq::<char>::empty());
        assert(digits_val(Seq::<char>::empty()) == 0);
        assert(digits_val(s) == digits_val(s.drop_last()) * 10 + digit_val(s.last()));
        assert(digit_val(digit_char_spec(n)) == n);
    } else {
        lemma_dec_digits_wf(n / 10);
        let p = dec_digits_spec(n / 10);
        let s = dec_digits_spec(n);
        assert(s == p.push(digit_char_spec(n % 10)));
        assert(s.drop_last() =~= p);
        assert(is_digit_char(digit_char_spec(n % 10)));
        assert(forall|i: int| 0 <= i < s.len() - 1 ==> s[i] == p[i]);
        assert(s.last() == digit_char_spec(n % 10));
        assert(digit_val(digit_char_spec(n % 10)) == n % 10);
        assert(digits_val(s) == (n / 10) * 10 + n % 10);
    }
}

/// Formatting a value and parsing the result returns the value.
///
/// This is what lets the watermark store read back exactly the timestamp it
/// persisted.
pub proof fn lemma_dec_parse_roundtrip(v: i64)
    ensures
        parse_i64_spec(dec_i64_spec(v as int)) == Some(v as int),
{
    if v >= 0 {
        lemma_dec_digits_wf(v as int);
        let s = dec_i64_spec(v as int);
        assert(s == dec_digits_spec(v as int));
        assert(!(s[0] == '-' || s[0] == '+')) by {
            assert(is_digit_char(s[0]));
        }
        assert(dec_val_spec(s) == Some(digits_val(s)));
    } else {
        lemma_dec_digits_wf(-(v as int));
        let s = dec_i64_spec(v as int);
        let rest = s.subrange(1, s.len() as int);
        assert(rest =~= dec_digits_spec(-(v as int)));
        assert(s[0] == '-');
        assert(dec_val_spec(s) == Some(-digits_val(rest)));
    }
}

} // verus!
