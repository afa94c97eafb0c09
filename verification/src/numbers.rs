//! Decimal numbers in text: writing them, and reading them as `str::parse` does.

use vstd::prelude::*;

use crate::chars::string_from_chars;

verus! {

/// The character of a decimal digit.
pub open spec fn spec_digit_char(d: int) -> char {
    (48 + d) as char
}

/// The decimal digits of `n`, without leading zeros.
pub open spec fn spec_decimal(n: nat) -> Seq<char>
    decreases n,
{
    if n < 10 {
        seq![spec_digit_char(n as int)]
    } else {
        spec_decimal(n / 10).push(spec_digit_char((n % 10) as int))
    }
}

/// `n` in decimal, with a leading `-` when negative.
pub open spec fn spec_signed_decimal(n: int) -> Seq<char> {
    if n < 0 {
        seq!['-'] + spec_decimal((-n) as nat)
    } else {
        spec_decimal(n as nat)
    }
}

/// `n` in decimal, padded with a zero to at least two digits.
pub open spec fn spec_decimal_2(n: nat) -> Seq<char> {
    if n < 10 {
        seq!['0'] + spec_decimal(n)
    } else {
        spec_decimal(n)
    }
}

fn digit_char(d: u128) -> (c: char)
    requires
        d < 10,
    ensures
        c == spec_digit_char(d as int),
{
    let b: u8 = d as u8;
    (48 + b) as char
}

/// The decimal digits of `n`.
pub fn decimal_chars(n: u128) -> (v: Vec<char>)
    ensures
        v@ == spec_decimal(n as nat),
    decreases n,
{
    if n < 10 {
        let mut v: Vec<char> = Vec::new();
        v.push(digit_char(n));
        assert(v@ =~= seq![spec_digit_char(n as int)]);
        v
    } else {
        let mut v = decimal_chars(n / 10);
        v.push(digit_char(n % 10));
        v
    }
}

/// `n` written in decimal.
pub fn decimal_text(n: u128) -> (s: String)
    ensures
        s@ == spec_decimal(n as nat),
{
    string_from_chars(&decimal_chars(n))
}

/// `n` written in decimal, with a leading `-` when negative.
pub fn signed_decimal_chars(n: i64) -> (v: Vec<char>)
    ensures
        v@ == spec_signed_decimal(n as int),
{
    if n < 0 {
        let magnitude: u128 = if n == i64::MIN {
            9223372036854775808u128
        } else {
            (-n) as u128
        };
        let digits = decimal_chars(magnitude);
        let mut v: Vec<char> = Vec::new();
        v.push('-');
        let mut i: usize = 0;
        while i < digits.len()
            invariant
                0 <= i <= digits.len(),
                v@ == seq!['-'] + digits@.take(i as int),
            decreases digits.len() - i,
        {
            v.push(digits[i]);
            i = i + 1;
            assert(v@ =~= seq!['-'] + digits@.take(i as int));
        }
        assert(digits@.take(i as int) =~= digits@);
        v
    } else {
        decimal_chars(n as u128)
    }
}

/// `n` in decimal, padded with a zero to at least two digits.
pub fn decimal_2_chars(n: u128) -> (v: Vec<char>)
    ensures
        v@ == spec_decimal_2(n as nat),
{
    if n < 10 {
        let mut v: Vec<char> = Vec::new();
        v.push('0');
        v.push(digit_char(n));
        assert(v@ =~= seq!['0'] + spec_decimal(n as nat));
        v
    } else {
        decimal_chars(n)
    }
}

/// Why text does not read as an integer, as `std::num::IntErrorKind` tells it.
#[derive(Debug, Clone, Copy, PartialEq, Eq, Structural)]
pub enum IntParseError {
    Empty,
    InvalidDigit,
    PosOverflow,
    NegOverflow,
}

/// The message `std::num::ParseIntError` shows for each kind.
pub open spec fn spec_int_error_text(e: IntParseError) -> Seq<char> {
    match e {
        IntParseError::Empty => "cannot parse integer from empty string"@,
        IntParseError::InvalidDigit => "invalid digit found in string"@,
        IntParseError::PosOverflow => "number too large to fit in target type"@,
        IntParseError::NegOverflow => "number too small to fit in target type"@,
    }
}

pub fn int_error_text(e: IntParseError) -> (s: String)
    ensures
        s@ == spec_int_error_text(e),
{
    match e {
        IntParseError::Empty => String::from_str("cannot parse integer from empty string"),
        IntParseError::InvalidDigit => String::from_str("invalid digit found in string"),
        IntParseError::PosOverflow => String::from_str("number too large to fit in target type"),
        IntParseError::NegOverflow => String::from_str("number too small to fit in target type"),
    }
}

pub open spec fn spec_is_digit(c: char) -> bool {
    '0' <= c <= '9'
}

/// Reads the digits `d` onto `acc`, adding each digit when `positive` and subtracting it
/// otherwise, failing on a non-digit or once the value leaves `min..=max`.
pub open spec fn spec_read_digits(
    d: Seq<char>,
    positive: bool,
    min: int,
    max: int,
    acc: int,
) -> Result<int, IntParseError>
    decreases d.len(),
{
    if d.len() == 0 {
        Ok(acc)
    } else if !spec_is_digit(d[0]) {
        Err(IntParseError::InvalidDigit)
    } else {
        let v = d[0] as int - 48;
        let next = if positive {
            acc * 10 + v
        } else {
            acc * 10 - v
        };
        if next > max {
            Err(IntParseError::PosOverflow)
        } else if next < min {
            Err(IntParseError::NegOverflow)
        } else {
            spec_read_digits(d.drop_first(), positive, min, max, next)
        }
    }
}

/// Reads `s` as a decimal integer in `min..=max` the way `str::parse` does for an integer
/// type with that range: an optional `+` (or `-` for a signed type) and at least one digit.
pub open spec fn spec_parse_int(s: Seq<char>, signed: bool, min: int, max: int) -> Result<
    int,
    IntParseError,
> {
    if s.len() == 0 {
        Err(IntParseError::Empty)
    } else if (s[0] == '+' || s[0] == '-') && s.len() == 1 {
        Err(IntParseError::InvalidDigit)
    } else if s[0] == '+' {
        spec_read_digits(s.drop_first(), true, min, max, 0)
    } else if s[0] == '-' && signed {
        spec_read_digits(s.drop_first(), false, min, max, 0)
    } else {
        spec_read_digits(s, true, min, max, 0)
    }
}

/// Reads `s` as a decimal integer in `min..=max`, as `str::parse` does for the integer type
/// with that range (`signed` telling whether it has negative values).
pub fn parse_int(s: &Vec<char>, signed: bool, min: i64, max: i64) -> (r: Result<i64, IntParseError>)
    requires
        -0x1_0000_0000 <= min <= 0 <= max <= 0x1_0000_0000,
    ensures
        match spec_parse_int(s@, signed, min as int, max as int) {
            Ok(v) => r matches Ok(x) && x as int == v,
            Err(e) => r == Err::<i64, IntParseError>(e),
        },
        r matches Ok(v) ==> min <= v <= max,
{
    if s.len() == 0 {
        return Err(IntParseError::Empty);
    }
    if (s[0] == '+' || s[0] == '-') && s.len() == 1 {
        return Err(IntParseError::InvalidDigit);
    }
    let positive = !(s[0] == '-' && signed);
    let start: usize = if s[0] == '+' || (s[0] == '-' && signed) { 1 } else { 0 };
    let ghost digits = s@.skip(start as int);
    proof {
        if start == 0 {
            assert(digits =~= s@);
        } else {
            assert(digits =~= s@.drop_first());
        }
    }
    assert(spec_parse_int(s@, signed, min as int, max as int) == spec_read_digits(
        digits,
        positive,
        min as int,
        max as int,
        0,
    ));
    let mut acc: i64 = 0;
    let mut i: usize = start;
    while i < s.len()
        invariant
            start <= i <= s.len(),
            -0x1_0000_0000 <= min <= 0 <= max <= 0x1_0000_0000,
            min <= acc <= max,
            digits == s@.skip(start as int),
            spec_parse_int(s@, signed, min as int, max as int) == spec_read_digits(
                digits,
                positive,
                min as int,
                max as int,
                0,
            ),
            spec_read_digits(digits, positive, min as int, max as int, 0) == spec_read_digits(
                s@.skip(i as int),
                positive,
                min as int,
                max as int,
                acc as int,
            ),
        decreases s.len() - i,
    {
        let c = s[i];
        let ghost rest = s@.skip(i as int);
        assert(rest[0] == c);
        assert(rest.drop_first() =~= s@.skip(i + 1));
        if !('0' <= c && c <= '9') {
            return Err(IntParseError::InvalidDigit);
        }
        let v: i64 = (c as u32 - 48) as i64;
        let next: i64 = if positive {
            acc * 10 + v
        } else {
            acc * 10 - v
        };
        if next > max {
            return Err(IntParseError::PosOverflow);
        }
        if next < min {
            return Err(IntParseError::NegOverflow);
        }
        acc = next;
        i = i + 1;
    }
    assert(s@.skip(i as int).len() == 0);
    Ok(acc)
}

/// One step of reading: the digit `c` taken onto `acc`.
pub open spec fn spec_read_step(c: char, positive: bool, min: int, max: int, acc: int) -> Result<
    int,
    IntParseError,
> {
    if !spec_is_digit(c) {
        Err(IntParseError::InvalidDigit)
    } else {
        let v = c as int - 48;
        let next = if positive {
            acc * 10 + v
        } else {
            acc * 10 - v
        };
        if next > max {
            Err(IntParseError::PosOverflow)
        } else if next < min {
            Err(IntParseError::NegOverflow)
        } else {
            Ok(next)
        }
    }
}

proof fn lemma_read_digits_push(s: Seq<char>, c: char, positive: bool, min: int, max: int, acc: int)
    ensures
        spec_read_digits(s.push(c), positive, min, max, acc) == match spec_read_digits(
            s,
            positive,
            min,
            max,
            acc,
        ) {
            Ok(v) => spec_read_step(c, positive, min, max, v),
            Err(e) => Err(e),
        },
    decreases s.len(),
{
    let t = s.push(c);
    if s.len() == 0 {
        assert(t[0] == c);
        assert(t.drop_first() =~= Seq::<char>::empty());
        assert(spec_read_digits(s, positive, min, max, acc) == Ok::<int, IntParseError>(acc));
        if spec_is_digit(c) {
            let v = c as int - 48;
            let next = if positive {
                acc * 10 + v
            } else {
                acc * 10 - v
            };
            assert(spec_read_digits(t.drop_first(), positive, min, max, next) == Ok::<
                int,
                IntParseError,
            >(next));
        }
    } else {
        assert(t[0] == s[0]);
        assert(t.drop_first() =~= s.drop_first().push(c));
        if spec_is_digit(s[0]) {
            let v = s[0] as int - 48;
            let next = if positive {
                acc * 10 + v
            } else {
                acc * 10 - v
            };
            lemma_read_digits_push(s.drop_first(), c, positive, min, max, next);
        }
    }
}

/// The decimal digits of `n`: at least one, all digits.
pub proof fn lemma_decimal_digits(n: nat)
    ensures
        spec_decimal(n).len() >= 1,
        forall|i: int| 0 <= i < spec_decimal(n).len() ==> spec_is_digit(#[trigger] spec_decimal(n)[i]),
    decreases n,
{
    if n >= 10 {
        lemma_decimal_digits(n / 10);
    }
}

/// The digits of `n` read back as `n` (or as `-n`, read as a negative number), within range.
proof fn lemma_read_decimal(n: nat, positive: bool, min: int, max: int)
    requires
        min <= 0 <= max,
        positive ==> n <= max,
        !positive ==> -n >= min,
    ensures
        spec_read_digits(spec_decimal(n), positive, min, max, 0) == Ok::<int, IntParseError>(
            if positive {
                n as int
            } else {
                -n
            },
        ),
    decreases n,
{
    if n < 10 {
        let s = spec_decimal(n);
        assert(s == seq![spec_digit_char(n as int)]);
        assert(s =~= Seq::<char>::empty().push(spec_digit_char(n as int)));
        lemma_read_digits_push(Seq::empty(), spec_digit_char(n as int), positive, min, max, 0);
    } else {
        lemma_read_decimal(n / 10, positive, min, max);
        lemma_read_digits_push(
            spec_decimal(n / 10),
            spec_digit_char((n % 10) as int),
            positive,
            min,
            max,
            0,
        );
    }
}

/// A number written in decimal reads back as that number, as `str::parse` reads it for an
/// integer type whose range holds it.
pub proof fn lemma_decimal_reads_back(n: int, signed: bool, min: int, max: int)
    requires
        min <= n <= max,
        min <= 0 <= max,
        !signed ==> n >= 0,
    ensures
        spec_parse_int(spec_signed_decimal(n), signed, min, max) == Ok::<int, IntParseError>(n),
{
    if n >= 0 {
        lemma_decimal_digits(n as nat);
        lemma_read_decimal(n as nat, true, min, max);
        assert(spec_is_digit(spec_decimal(n as nat)[0]));
    } else {
        let m = (-n) as nat;
        lemma_decimal_digits(m);
        lemma_read_decimal(m, false, min, max);
        let s = spec_signed_decimal(n);
        assert(s[0] == '-');
        assert(s.len() >= 2);
        assert(s.drop_first() =~= spec_decimal(m));
    }
}

} // verus!
