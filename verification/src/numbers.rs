//! Decimal numbers: writing non-negative and signed integers in base ten, and reading
//! them back the way `str::parse` does for Rust's integer types.

use vstd::prelude::*;
use crate::text::push_char;

verus! {

/// The character of a decimal digit.
pub open spec fn digit_char(d: int) -> char {
    if d == 0 { '0' }
    else if d == 1 { '1' }
    else if d == 2 { '2' }
    else if d == 3 { '3' }
    else if d == 4 { '4' }
    else if d == 5 { '5' }
    else if d == 6 { '6' }
    else if d == 7 { '7' }
    else if d == 8 { '8' }
    else { '9' }
}

/// `n` written in base ten, most significant digit first, without leading zeros.
pub open spec fn decimal(n: nat) -> Seq<char>
    decreases n,
{
    if n < 10 {
        seq![digit_char(n as int)]
    } else {
        decimal(n / 10).push(digit_char((n % 10) as int))
    }
}

/// `n` written in base ten with a leading `-` when negative.
pub open spec fn signed_decimal(n: int) -> Seq<char> {
    if n < 0 {
        seq!['-'] + decimal((-n) as nat)
    } else {
        decimal(n as nat)
    }
}

/// An ASCII decimal digit.
pub open spec fn is_digit(c: char) -> bool {
    '0' <= c && c <= '9'
}

/// Every character of `s` is an ASCII decimal digit.
pub open spec fn all_digits(s: Seq<char>) -> bool {
    forall|i: int| 0 <= i < s.len() ==> is_digit(#[trigger] s[i])
}

/// The number that the digits of `s` spell in base ten.
pub open spec fn digits_value(s: Seq<char>) -> int
    decreases s.len(),
{
    if s.len() == 0 {
        0
    } else {
        digits_value(s.drop_last()) * 10 + (s.last() as int - '0' as int)
    }
}

/// What `str::parse` gives for an integer type whose values are `min..=max` (a signed
/// type when `min < 0`): an optional `+` (or `-` for a signed type), then one or more
/// ASCII digits whose value must lie in the range.
pub open spec fn parse_integer(s: Seq<char>, min: int, max: int) -> Option<int> {
    if s.len() == 0 {
        None
    } else {
        let negative = min < 0 && s[0] == '-';
        let body = if s[0] == '+' || negative {
            s.drop_first()
        } else {
            s
        };
        if body.len() == 0 || !all_digits(body) {
            None
        } else {
            let v = if negative {
                -digits_value(body)
            } else {
                digits_value(body)
            };
            if min <= v && v <= max {
                Some(v)
            } else {
                None
            }
        }
    }
}

/// The digit character of `d`.
pub fn digit(d: u8) -> (c: char)
    requires
        d < 10,
    ensures
        c == digit_char(d as int),
{
    match d {
        0 => '0',
        1 => '1',
        2 => '2',
        3 => '3',
        4 => '4',
        5 => '5',
        6 => '6',
        7 => '7',
        8 => '8',
        _ => '9',
    }
}

/// Appends `n` in base ten to `out`.
pub fn push_decimal(out: &mut String, n: u128)
    ensures
        final(out)@ == old(out)@ + decimal(n as nat),
    decreases n,
{
    if n >= 10 {
        push_decimal(out, n / 10);
    }
    let ghost before = out@;
    push_char(out, digit((n % 10) as u8));
    proof {
        if n >= 10 {
            assert(before == old(out)@ + decimal((n / 10) as nat));
            assert(out@ =~= old(out)@ + decimal(n as nat));
        } else {
            assert(out@ =~= old(out)@ + decimal(n as nat));
        }
    }
}

/// `n` in base ten, with a `-` in front when negative.
pub fn format_i64(n: i64) -> (s: String)
    ensures
        s@ == signed_decimal(n as int),
{
    let mut s = String::new();
    if n < 0 {
        push_char(&mut s, '-');
        let magnitude: u128 = (0i128 - n as i128) as u128;
        push_decimal(&mut s, magnitude);
    } else {
        push_decimal(&mut s, n as u128);
    }
    s
}

/// `n` in base ten.
pub fn format_u128(n: u128) -> (s: String)
    ensures
        s@ == decimal(n as nat),
{
    let mut s = String::new();
    push_decimal(&mut s, n);
    assert(s@ =~= decimal(n as nat));
    s
}

/// The base-ten writing of a number is never empty and holds digits only.
pub proof fn lemma_decimal_digits(n: nat)
    ensures
        decimal(n).len() >= 1,
        all_digits(decimal(n)),
    decreases n,
{
    if n >= 10 {
        lemma_decimal_digits(n / 10);
        let d = decimal(n / 10);
        assert forall|i: int| 0 <= i < decimal(n).len() implies is_digit(#[trigger] decimal(n)[i]) by {
            if i < d.len() {
                assert(decimal(n)[i] == d[i]);
            }
        }
    }
}

/// The code of a digit character.
pub proof fn lemma_digit_char(d: int)
    requires
        0 <= d < 10,
    ensures
        digit_char(d) as int == '0' as int + d,
        is_digit(digit_char(d)),
{
}

/// Reading back the base-ten writing of a number gives the number.
pub proof fn lemma_decimal_value(n: nat)
    ensures
        digits_value(decimal(n)) == n,
    decreases n,
{
    lemma_digit_char((n % 10) as int);
    if n >= 10 {
        lemma_decimal_value(n / 10);
        assert(decimal(n).drop_last() =~= decimal(n / 10));
        assert((n / 10) * 10 + n % 10 == n) by (nonlinear_arith);
    } else {
        assert(decimal(n).drop_last() =~= Seq::<char>::empty());
        assert(digits_value(Seq::<char>::empty()) == 0);
        assert(n % 10 == n);
    }
}

/// Law: different numbers are written differently.
pub proof fn law_decimal_injective(a: nat, b: nat)
    requires
        decimal(a) == decimal(b),
    ensures
        a == b,
{
    lemma_decimal_value(a);
    lemma_decimal_value(b);
}

/// Digits are worth nothing negative.
proof fn lemma_digits_nonneg(t: Seq<char>)
    requires
        all_digits(t),
    ensures
        digits_value(t) >= 0,
    decreases t.len(),
{
    if t.len() > 0 {
        assert(is_digit(t[t.len() - 1]));
        assert forall|k: int| 0 <= k < t.drop_last().len() implies is_digit(#[trigger] t.drop_last()[k]) by {
            assert(t.drop_last()[k] == t[k]);
        }
        lemma_digits_nonneg(t.drop_last());
    }
}

/// A longer run of digits is worth at least as much as its beginning.
proof fn lemma_digits_value_grows(s: Seq<char>, i: int, j: int)
    requires
        0 <= i <= j <= s.len(),
        all_digits(s),
    ensures
        digits_value(s.take(i)) <= digits_value(s.take(j)),
    decreases j - i,
{
    if i < j {
        lemma_digits_value_grows(s, i, j - 1);
        assert(s.take(j).drop_last() =~= s.take(j - 1));
        assert(s.take(j).last() == s[j - 1]);
        assert(is_digit(s[j - 1]));
        assert forall|k: int| 0 <= k < s.take(j - 1).len() implies is_digit(#[trigger] s.take(j - 1)[k]) by {
            assert(s.take(j - 1)[k] == s[k]);
        }
        lemma_digits_nonneg(s.take(j - 1));
    }
}

/// Reads `s` as an integer of the type whose values are `min..=max`, as `str::parse`
/// does.
pub fn parse_integer_chars(s: &Vec<char>, min: i128, max: i128) -> (r: Option<i128>)
    requires
        -0x1_0000_0000_0000_0000 <= min <= 0 <= max <= 0x1_0000_0000_0000_0000,
    ensures
        match r {
            Some(v) => parse_integer(s@, min as int, max as int) == Some(v as int),
            None => parse_integer(s@, min as int, max as int) is None,
        },
{
    let n = s.len();
    if n == 0 {
        return None;
    }
    let negative = min < 0 && s[0] == '-';
    let start: usize = if s[0] == '+' || negative {
        1
    } else {
        0
    };
    let ghost body = if s@[0] == '+' || negative {
        s@.drop_first()
    } else {
        s@
    };
    assert(body =~= s@.subrange(start as int, n as int));
    if start == n {
        return None;
    }
    let mut acc: i128 = 0;
    let mut i = start;
    while i < n
        invariant
            start <= i <= n,
            n == s.len(),
            body == s@.subrange(start as int, n as int),
            n > 0,
            negative == (min < 0 && s@[0] == '-'),
            body == (if s@[0] == '+' || negative {
                s@.drop_first()
            } else {
                s@
            }),
            -0x1_0000_0000_0000_0000 <= min <= 0 <= max <= 0x1_0000_0000_0000_0000,
            all_digits(body.take(i - start)),
            acc == digits_value(body.take(i - start)),
            0 <= acc <= 0x1_0000_0000_0000_0000,
        decreases n - i,
    {
        let c = s[i];
        if !('0' <= c && c <= '9') {
            assert(body[i - start] == c);
            assert(!is_digit(body[i - start]));
            assert(!all_digits(body));
            return None;
        }
        let d: i128 = (c as u32 - '0' as u32) as i128;
        let next = acc * 10 + d;
        proof {
            assert(body.take(i - start + 1).drop_last() =~= body.take(i - start));
            assert(body.take(i - start + 1).last() == c);
        }
        if next > 0x1_0000_0000_0000_0000 {
            proof {
                assert(all_digits(body.take(i - start + 1))) by {
                    assert forall|t: int| 0 <= t < i - start + 1 implies is_digit(#[trigger] body.take(i - start + 1)[t]) by {
                        if t < i - start {
                            assert(body.take(i - start + 1)[t] == body.take(i - start)[t]);
                        }
                    }
                }
                let rest = body.take(i - start + 1);
                // the whole body, if it is all digits, is worth at least as much
                if all_digits(body) {
                    lemma_digits_value_grows(body, i - start + 1, body.len() as int);
                    assert(body.take(body.len() as int) =~= body);
                    assert(digits_value(body) >= next);
                }
                assert(parse_integer(s@, min as int, max as int) is None);
            }
            return None;
        }
        acc = next;
        i += 1;
        proof {
            assert forall|t: int| 0 <= t < i - start implies is_digit(#[trigger] body.take(i - start)[t]) by {
                if t < i - 1 - start {
                    assert(body.take(i - start)[t] == body.take(i - 1 - start)[t]);
                }
            }
        }
    }
    assert(body.take(n - start) =~= body);
    let v = if negative {
        0 - acc
    } else {
        acc
    };
    if min <= v && v <= max {
        Some(v)
    } else {
        None
    }
}

/// Reads a signed 64-bit integer as `str::parse::<i64>` does.
pub fn parse_i64(s: &Vec<char>) -> (r: Option<i64>)
    ensures
        match r {
            Some(v) => parse_integer(s@, i64::MIN as int, i64::MAX as int) == Some(v as int),
            None => parse_integer(s@, i64::MIN as int, i64::MAX as int) is None,
        },
{
    match parse_integer_chars(s, -0x8000_0000_0000_0000, 0x7fff_ffff_ffff_ffff) {
        Some(v) => Some(v as i64),
        None => None,
    }
}

/// Reads an unsigned 16-bit integer as `str::parse::<u16>` does.
pub fn parse_u16(s: &Vec<char>) -> (r: Option<u16>)
    ensures
        match r {
            Some(v) => parse_integer(s@, 0, u16::MAX as int) == Some(v as int),
            None => parse_integer(s@, 0, u16::MAX as int) is None,
        },
{
    match parse_integer_chars(s, 0, 0xffff) {
        Some(v) => Some(v as u16),
        None => None,
    }
}

/// Reads an unsigned 64-bit integer as `str::parse::<u64>` does.
pub fn parse_u64(s: &Vec<char>) -> (r: Option<u64>)
    ensures
        match r {
            Some(v) => parse_integer(s@, 0, u64::MAX as int) == Some(v as int),
            None => parse_integer(s@, 0, u64::MAX as int) is None,
        },
{
    match parse_integer_chars(s, 0, 0xffff_ffff_ffff_ffff) {
        Some(v) => Some(v as u64),
        None => None,
    }
}

} // verus!
