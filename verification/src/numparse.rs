//! Verified numeric-token validation.
//!
//! Unsigned decimal integers are parsed here, with the same acceptance and
//! error behaviour that the standard library documents for `from_str`:
//! an optional leading `+`, then one or more ASCII digits, scanned left to
//! right, reporting the first failure (invalid digit or overflow).
//!
//! Floating-point value tokens are not converted in this crate; they are
//! checked against the literal grammar that the standard library documents
//! for `f64` parsing (optional sign, then `inf`, `infinity`, `nan`
//! case-insensitively, or a decimal number with optional fraction and
//! exponent).

use vstd::prelude::*;

verus! {

/// Why an integer token was rejected.
#[derive(Debug, Clone, Copy, PartialEq, Eq, Structural)]
pub enum IntParseError {
    /// The token was empty.
    Empty,
    /// A character that is not an ASCII digit was found.
    InvalidDigit,
    /// The value does not fit in the target type.
    PosOverflow,
}

pub open spec fn is_digit(c: char) -> bool {
    '0' <= c && c <= '9'
}

pub open spec fn digit_of(c: char) -> int {
    c as int - '0' as int
}

/// Value of the digits of `t` from index `i` on, accumulated onto `acc`,
/// stopping at the first failure as the standard library's scan does.
pub open spec fn scan_digits(t: Seq<char>, i: int, acc: int, max: int) -> Result<int, IntParseError>
    decreases t.len() - i,
{
    if i < 0 || i >= t.len() {
        Ok(acc)
    } else if !is_digit(t[i]) {
        Err(IntParseError::InvalidDigit)
    } else if acc * 10 + digit_of(t[i]) > max {
        Err(IntParseError::PosOverflow)
    } else {
        scan_digits(t, i + 1, acc * 10 + digit_of(t[i]), max)
    }
}

/// What parsing `s` as an unsigned integer bounded by `max` yields.
pub open spec fn parse_uint_spec(s: Seq<char>, max: int) -> Result<int, IntParseError> {
    if s.len() == 0 {
        Err(IntParseError::Empty)
    } else if s[0] == '+' {
        if s.len() == 1 {
            Err(IntParseError::InvalidDigit)
        } else {
            scan_digits(s, 1, 0, max)
        }
    } else {
        scan_digits(s, 0, 0, max)
    }
}

/// Parses `s` as an unsigned decimal integer no greater than `max`.
pub fn parse_uint(s: &str, max: u64) -> (r: Result<u64, IntParseError>)
    ensures
        r matches Ok(v) ==> parse_uint_spec(s@, max as int) == Ok::<int, IntParseError>(v as int)
            && v <= max,
        r matches Err(e) ==> parse_uint_spec(s@, max as int) == Err::<int, IntParseError>(e),
{
    let n = s.unicode_len();
    if n == 0 {
        return Err(IntParseError::Empty);
    }
    let start: usize = if s.get_char(0) == '+' {
        1
    } else {
        0
    };
    if start == 1 && n == 1 {
        return Err(IntParseError::InvalidDigit);
    }
    let mut acc: u64 = 0;
    let mut i: usize = start;
    while i < n
        invariant
            n == s@.len(),
            start <= i <= n,
            0 <= acc <= max,
            parse_uint_spec(s@, max as int) == scan_digits(s@, i as int, acc as int, max as int),
        decreases n - i,
    {
        let c = s.get_char(i);
        if !(c >= '0' && c <= '9') {
            return Err(IntParseError::InvalidDigit);
        }
        let d: u64 = (c as u64) - ('0' as u64);
        assert(d == digit_of(c));
        if acc > max / 10 {
            proof {
                assert(max / 10 * 10 + max % 10 == max);
                assert(acc * 10 >= (max / 10 + 1) * 10) by (nonlinear_arith)
                    requires
                        acc >= max / 10 + 1,
                ;
            }
            return Err(IntParseError::PosOverflow);
        }
        proof {
            assert(max / 10 * 10 + max % 10 == max);
            assert(acc * 10 <= (max / 10) * 10) by (nonlinear_arith)
                requires
                    acc <= max / 10,
            ;
        }
        let acc2: u64 = acc * 10;
        if d > max - acc2 {
            return Err(IntParseError::PosOverflow);
        }
        acc = acc2 + d;
        i = i + 1;
    }
    Ok(acc)
}

/// The description the standard library's integer parse errors print.
pub open spec fn int_err_desc(e: IntParseError) -> Seq<char> {
    match e {
        IntParseError::Empty => "cannot parse integer from empty string"@,
        IntParseError::InvalidDigit => "invalid digit found in string"@,
        IntParseError::PosOverflow => "number too large to fit in target type"@,
    }
}

/// Returns the description of an integer parse error.
pub fn int_err_desc_str(e: IntParseError) -> (r: &'static str)
    ensures
        r@ == int_err_desc(e),
{
    match e {
        IntParseError::Empty => "cannot parse integer from empty string",
        IntParseError::InvalidDigit => "invalid digit found in string",
        IntParseError::PosOverflow => "number too large to fit in target type",
    }
}

/// Case-insensitive match of `c` against a lower-case ASCII letter `l`.
pub open spec fn ci(c: char, l: char) -> bool {
    c == l || c as int + 32 == l as int
}

fn eq_ci(c: char, l: char) -> (r: bool)
    requires
        'a' <= l && l <= 'z',
    ensures
        r == ci(c, l),
{
    c == l || (c as u32) + 32 == (l as u32)
}

pub open spec fn digits_in(s: Seq<char>, a: int, b: int) -> bool {
    forall|i: int| a <= i < b ==> is_digit(s[i])
}

/// Index of the first exponent marker at or after `i`, or the length.
pub open spec fn find_e_from(s: Seq<char>, i: int) -> int
    decreases s.len() - i,
{
    if i < 0 || i >= s.len() {
        s.len() as int
    } else if s[i] == 'e' || s[i] == 'E' {
        i
    } else {
        find_e_from(s, i + 1)
    }
}

/// Index of the first `.` in `[i, end)`, or `end`.
pub open spec fn find_dot_between(s: Seq<char>, i: int, end: int) -> int
    decreases end - i,
{
    if i < 0 || i >= end || i >= s.len() {
        end
    } else if s[i] == '.' {
        i
    } else {
        find_dot_between(s, i + 1, end)
    }
}

/// `s[start..]` spells `inf`, `infinity` or `nan`, case-insensitively.
pub open spec fn is_special_from(s: Seq<char>, start: int) -> bool {
    (s.len() - start == 3 && ci(s[start], 'i') && ci(s[start + 1], 'n') && ci(s[start + 2], 'f'))
        || (s.len() - start == 8 && ci(s[start], 'i') && ci(s[start + 1], 'n') && ci(
        s[start + 2],
        'f',
    ) && ci(s[start + 3], 'i') && ci(s[start + 4], 'n') && ci(s[start + 5], 'i') && ci(
        s[start + 6],
        't',
    ) && ci(s[start + 7], 'y')) || (s.len() - start == 3 && ci(s[start], 'n') && ci(
        s[start + 1],
        'a',
    ) && ci(s[start + 2], 'n'))
}

/// `s[start..]` spells a decimal number: digits with an optional dot and an
/// optional exponent, with at least one digit in the mantissa and, if an
/// exponent marker is present, at least one digit after it.
pub open spec fn is_number_from(s: Seq<char>, start: int) -> bool {
    let e = find_e_from(s, start);
    let d = find_dot_between(s, start, e);
    let mant_ok = if d == e {
        e > start && digits_in(s, start, e)
    } else {
        digits_in(s, start, d) && digits_in(s, d + 1, e) && e - start > 1
    };
    let exp_ok = if e == s.len() {
        true
    } else {
        let x = if e + 1 < s.len() && (s[e + 1] == '+' || s[e + 1] == '-') {
            e + 2
        } else {
            e + 1
        };
        x < s.len() && digits_in(s, x, s.len() as int)
    };
    mant_ok && exp_ok
}

/// `s` matches the grammar the standard library documents for `f64` parsing.
pub open spec fn is_f64_literal(s: Seq<char>) -> bool {
    let start: int = if s.len() > 0 && (s[0] == '+' || s[0] == '-') {
        1
    } else {
        0
    };
    is_special_from(s, start) || is_number_from(s, start)
}

fn find_e_exec(s: &str, start: usize, n: usize) -> (r: usize)
    requires
        n == s@.len(),
        start <= n,
    ensures
        start <= r <= n,
        r == find_e_from(s@, start as int),
{
    let mut i: usize = start;
    while i < n
        invariant
            n == s@.len(),
            start <= i <= n,
            find_e_from(s@, start as int) == find_e_from(s@, i as int),
        decreases n - i,
    {
        let c = s.get_char(i);
        if c == 'e' || c == 'E' {
            return i;
        }
        i = i + 1;
    }
    n
}

fn find_dot_exec(s: &str, start: usize, end: usize) -> (r: usize)
    requires
        end <= s@.len(),
        start <= end,
    ensures
        start <= r <= end,
        r == find_dot_between(s@, start as int, end as int),
{
    let mut i: usize = start;
    while i < end
        invariant
            end <= s@.len(),
            start <= i <= end,
            find_dot_between(s@, start as int, end as int) == find_dot_between(
                s@,
                i as int,
                end as int,
            ),
        decreases end - i,
    {
        if s.get_char(i) == '.' {
            return i;
        }
        i = i + 1;
    }
    end
}

fn digits_in_exec(s: &str, a: usize, b: usize) -> (r: bool)
    requires
        b <= s@.len(),
    ensures
        r == digits_in(s@, a as int, b as int),
{
    let mut i: usize = a;
    if a >= b {
        return true;
    }
    while i < b
        invariant
            b <= s@.len(),
            a <= i <= b,
            forall|j: int| a <= j < i ==> is_digit(s@[j]),
        decreases b - i,
    {
        let c = s.get_char(i);
        if !(c >= '0' && c <= '9') {
            return false;
        }
        i = i + 1;
    }
    true
}

/// Checks a token against the `f64` literal grammar.
pub fn check_f64_literal(s: &str) -> (r: bool)
    ensures
        r == is_f64_literal(s@),
{
    let n = s.unicode_len();
    let start: usize = if n > 0 && {
        let c = s.get_char(0);
        c == '+' || c == '-'
    } {
        1
    } else {
        0
    };
    let rem = n - start;
    if rem == 3 && eq_ci(s.get_char(start), 'i') && eq_ci(s.get_char(start + 1), 'n') && eq_ci(
        s.get_char(start + 2),
        'f',
    ) {
        return true;
    }
    if rem == 8 && eq_ci(s.get_char(start), 'i') && eq_ci(s.get_char(start + 1), 'n') && eq_ci(
        s.get_char(start + 2),
        'f',
    ) && eq_ci(s.get_char(start + 3), 'i') && eq_ci(s.get_char(start + 4), 'n') && eq_ci(
        s.get_char(start + 5),
        'i',
    ) && eq_ci(s.get_char(start + 6), 't') && eq_ci(s.get_char(start + 7), 'y') {
        return true;
    }
    if rem == 3 && eq_ci(s.get_char(start), 'n') && eq_ci(s.get_char(start + 1), 'a') && eq_ci(
        s.get_char(start + 2),
        'n',
    ) {
        return true;
    }
    let e = find_e_exec(s, start, n);
    let d = find_dot_exec(s, start, e);
    let mant_ok = if d == e {
        e > start && digits_in_exec(s, start, e)
    } else {
        digits_in_exec(s, start, d) && digits_in_exec(s, d + 1, e) && e - start > 1
    };
    if !mant_ok {
        return false;
    }
    if e == n {
        return true;
    }
    let x: usize = if e + 1 < n && {
        let c = s.get_char(e + 1);
        c == '+' || c == '-'
    } {
        e + 2
    } else {
        e + 1
    };
    x < n && digits_in_exec(s, x, n)
}

/// The description the standard library's float parse error prints.
pub open spec fn float_err_desc() -> Seq<char> {
    "invalid float literal"@
}

} // verus!
