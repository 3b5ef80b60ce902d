//! Decimal integers as text: the grammar accepted for numeric request fields
//! and the rendering of numbers in messages and headers.

use vstd::prelude::*;
use vstd::string::*;

verus! {

/// Why a text is not a decimal integer of the wanted range.
#[derive(Clone, Copy, Debug, PartialEq, Eq, Structural)]
pub enum IntErrorKind {
    /// The text is empty.
    Empty,
    /// A character is not a decimal digit, or the text is a lone sign.
    InvalidDigit,
    /// The number is above the range.
    PosOverflow,
    /// The number is below the range.
    NegOverflow,
}

pub open spec fn is_digit(c: char) -> bool {
    48 <= c as u32 <= 57
}

pub open spec fn digit_value(c: char) -> int {
    c as u32 - 48
}

/// The value of a run of digits read from the left, as far as it stays
/// within `min..=max`. The first character that is no digit, or at which the
/// value leaves the range, decides the error.
pub open spec fn scan_digits(digits: Seq<char>, negative: bool, min: int, max: int) -> Result<
    int,
    IntErrorKind,
>
    decreases digits.len(),
{
    if digits.len() == 0 {
        Ok(0)
    } else {
        match scan_digits(digits.drop_last(), negative, min, max) {
            Err(e) => Err(e),
            Ok(acc) => {
                let c = digits.last();
                let v = if negative {
                    acc * 10 - digit_value(c)
                } else {
                    acc * 10 + digit_value(c)
                };
                if !is_digit(c) {
                    Err(IntErrorKind::InvalidDigit)
                } else if v > max {
                    Err(IntErrorKind::PosOverflow)
                } else if v < min {
                    Err(IntErrorKind::NegOverflow)
                } else {
                    Ok(v)
                }
            },
        }
    }
}

/// The decimal integer that a text denotes: an optional `+` (or, for a
/// signed range, `-`) followed by at least one digit, with a value within
/// `min..=max`.
pub open spec fn parse_decimal(s: Seq<char>, signed: bool, min: int, max: int) -> Result<
    int,
    IntErrorKind,
> {
    if s.len() == 0 {
        Err(IntErrorKind::Empty)
    } else if s[0] == '+' || (signed && s[0] == '-') {
        if s.len() == 1 {
            Err(IntErrorKind::InvalidDigit)
        } else {
            scan_digits(s.subrange(1, s.len() as int), s[0] == '-', min, max)
        }
    } else {
        scan_digits(s, false, min, max)
    }
}

pub open spec fn spec_parse_i32(s: Seq<char>) -> Result<i32, IntErrorKind> {
    match parse_decimal(s, true, i32::MIN as int, i32::MAX as int) {
        Ok(v) => Ok(v as i32),
        Err(e) => Err(e),
    }
}

pub open spec fn spec_parse_i64(s: Seq<char>) -> Result<i64, IntErrorKind> {
    match parse_decimal(s, true, i64::MIN as int, i64::MAX as int) {
        Ok(v) => Ok(v as i64),
        Err(e) => Err(e),
    }
}

pub open spec fn spec_parse_u64(s: Seq<char>) -> Result<u64, IntErrorKind> {
    match parse_decimal(s, false, 0, u64::MAX as int) {
        Ok(v) => Ok(v as u64),
        Err(e) => Err(e),
    }
}

/// Description of each way in which a text fails to be a number.
pub open spec fn error_text(kind: IntErrorKind) -> Seq<char> {
    match kind {
        IntErrorKind::Empty => "cannot parse integer from empty string"@,
        IntErrorKind::InvalidDigit => "invalid digit found in string"@,
        IntErrorKind::PosOverflow => "number too large to fit in target type"@,
        IntErrorKind::NegOverflow => "number too small to fit in target type"@,
    }
}

/// Text that says why a field is no number.
pub fn describe_int_error(kind: IntErrorKind) -> (text: &'static str)
    ensures
        text@ == error_text(kind),
{
    match kind {
        IntErrorKind::Empty => "cannot parse integer from empty string",
        IntErrorKind::InvalidDigit => "invalid digit found in string",
        IntErrorKind::PosOverflow => "number too large to fit in target type",
        IntErrorKind::NegOverflow => "number too small to fit in target type",
    }
}

/// A successfully scanned value lies within the range.
pub proof fn lemma_scan_in_range(digits: Seq<char>, negative: bool, min: int, max: int)
    requires
        min <= 0 <= max,
    ensures
        match scan_digits(digits, negative, min, max) {
            Ok(v) => min <= v <= max,
            Err(_) => true,
        },
    decreases digits.len(),
{
    if digits.len() > 0 {
        lemma_scan_in_range(digits.drop_last(), negative, min, max);
    }
}

/// Reads the characters `from..to` of `chars` as a decimal integer within
/// `min..=max`.
#[verifier::loop_isolation(false)]
pub fn parse_range(
    chars: &Vec<char>,
    from: usize,
    to: usize,
    signed: bool,
    min: i128,
    max: i128,
) -> (res: Result<i128, IntErrorKind>)
    requires
        from <= to <= chars.len(),
        -0x1_0000_0000_0000_0000 <= min <= 0 <= max <= 0x1_0000_0000_0000_0000,
    ensures
        match res {
            Ok(v) => parse_decimal(chars@.subrange(from as int, to as int), signed, min as int, max as int)
                == Ok::<int, IntErrorKind>(v as int),
            Err(e) => parse_decimal(chars@.subrange(from as int, to as int), signed, min as int, max as int)
                == Err::<int, IntErrorKind>(e),
        },
{
    let ghost s = chars@.subrange(from as int, to as int);
    if from == to {
        return Err(IntErrorKind::Empty);
    }
    let first = chars[from];
    assert(s[0] == first);
    let has_sign = first == '+' || (signed && first == '-');
    let negative = has_sign && first == '-';
    if has_sign && to - from == 1 {
        return Err(IntErrorKind::InvalidDigit);
    }
    let start: usize = if has_sign { from + 1 } else { from };
    let ghost digits = chars@.subrange(start as int, to as int);
    assert(digits =~= if has_sign { s.subrange(1, s.len() as int) } else { s });
    let mut acc: i128 = 0;
    let mut i: usize = start;
    while i < to
        invariant
            start <= i <= to <= chars.len(),
            min <= 0 <= max,
            -0x1_0000_0000_0000_0000 <= min,
            max <= 0x1_0000_0000_0000_0000,
            min <= acc <= max,
            scan_digits(chars@.subrange(start as int, i as int), negative, min as int, max as int)
                == Ok::<int, IntErrorKind>(acc as int),
            digits == chars@.subrange(start as int, to as int),
        decreases to - i,
    {
        let c = chars[i];
        let u = c as u32;
        let ghost next = chars@.subrange(start as int, i + 1);
        assert(next.drop_last() =~= chars@.subrange(start as int, i as int));
        assert(next.last() == c);
        proof {
            lemma_scan_error_sticks(digits, (i + 1 - start) as int, negative, min as int, max as int);
            assert(digits.subrange(0, (i + 1 - start) as int) =~= next);
        }
        if u < 48 || u > 57 {
            return Err(IntErrorKind::InvalidDigit);
        }
        let d: i128 = (u - 48) as i128;
        let v: i128 = if negative { acc * 10 - d } else { acc * 10 + d };
        if v > max {
            return Err(IntErrorKind::PosOverflow);
        }
        if v < min {
            return Err(IntErrorKind::NegOverflow);
        }
        acc = v;
        i = i + 1;
    }
    assert(chars@.subrange(start as int, to as int) =~= digits);
    Ok(acc)
}

/// Once a prefix of the digits fails, the whole run fails in the same way.
pub proof fn lemma_scan_error_sticks(digits: Seq<char>, k: int, negative: bool, min: int, max: int)
    requires
        0 <= k <= digits.len(),
    ensures
        match scan_digits(digits.subrange(0, k), negative, min, max) {
            Err(e) => scan_digits(digits, negative, min, max) == Err::<int, IntErrorKind>(e),
            Ok(_) => true,
        },
    decreases digits.len() - k,
{
    if k < digits.len() {
        lemma_scan_error_sticks(digits, k + 1, negative, min, max);
        assert(digits.subrange(0, k + 1).drop_last() =~= digits.subrange(0, k));
    } else {
        assert(digits.subrange(0, k) =~= digits);
    }
}

/// Reads the characters `from..to` of `chars` as an `i32`.
pub fn parse_i32(chars: &Vec<char>, from: usize, to: usize) -> (res: Result<i32, IntErrorKind>)
    requires
        from <= to <= chars.len(),
    ensures
        res == spec_parse_i32(chars@.subrange(from as int, to as int)),
{
    proof {
        lemma_parse_in_range(chars@.subrange(from as int, to as int), true, i32::MIN as int, i32::MAX as int);
    }
    match parse_range(chars, from, to, true, -0x8000_0000, 0x7fff_ffff) {
        Ok(v) => Ok(v as i32),
        Err(e) => Err(e),
    }
}

/// Reads the characters `from..to` of `chars` as an `i64`.
pub fn parse_i64(chars: &Vec<char>, from: usize, to: usize) -> (res: Result<i64, IntErrorKind>)
    requires
        from <= to <= chars.len(),
    ensures
        res == spec_parse_i64(chars@.subrange(from as int, to as int)),
{
    proof {
        lemma_parse_in_range(chars@.subrange(from as int, to as int), true, i64::MIN as int, i64::MAX as int);
    }
    match parse_range(chars, from, to, true, -0x8000_0000_0000_0000, 0x7fff_ffff_ffff_ffff) {
        Ok(v) => Ok(v as i64),
        Err(e) => Err(e),
    }
}

/// Reads the characters `from..to` of `chars` as a `u64`.
pub fn parse_u64(chars: &Vec<char>, from: usize, to: usize) -> (res: Result<u64, IntErrorKind>)
    requires
        from <= to <= chars.len(),
    ensures
        res == spec_parse_u64(chars@.subrange(from as int, to as int)),
{
    proof {
        lemma_parse_in_range(chars@.subrange(from as int, to as int), false, 0, u64::MAX as int);
    }
    match parse_range(chars, from, to, false, 0, 0xffff_ffff_ffff_ffff) {
        Ok(v) => Ok(v as u64),
        Err(e) => Err(e),
    }
}

/// A successfully parsed value lies within the range.
pub proof fn lemma_parse_in_range(s: Seq<char>, signed: bool, min: int, max: int)
    requires
        min <= 0 <= max,
    ensures
        match parse_decimal(s, signed, min, max) {
            Ok(v) => min <= v <= max,
            Err(_) => true,
        },
{
    if s.len() > 0 {
        lemma_scan_in_range(s, false, min, max);
        lemma_scan_in_range(s.subrange(1, s.len() as int), true, min, max);
        lemma_scan_in_range(s.subrange(1, s.len() as int), false, min, max);
    }
}

/// The character of a decimal digit.
pub open spec fn digit_char(d: int) -> char {
    if d == 0 {
        '0'
    } else if d == 1 {
        '1'
    } else if d == 2 {
        '2'
    } else if d == 3 {
        '3'
    } else if d == 4 {
        '4'
    } else if d == 5 {
        '5'
    } else if d == 6 {
        '6'
    } else if d == 7 {
        '7'
    } else if d == 8 {
        '8'
    } else {
        '9'
    }
}

/// The decimal digits of a natural number, without leading zeros.
pub open spec fn decimal_nat(n: nat) -> Seq<char>
    decreases n,
{
    if n < 10 {
        seq![digit_char(n as int)]
    } else {
        decimal_nat(n / 10).push(digit_char((n % 10) as int))
    }
}

/// The decimal rendering of an integer, with `-` before a negative one.
pub open spec fn decimal(v: int) -> Seq<char> {
    if v < 0 {
        seq!['-'] + decimal_nat((-v) as nat)
    } else {
        decimal_nat(v as nat)
    }
}

/// The digits of a number read back give the number, or its negative
/// where they are read as a negative number.
pub proof fn lemma_scan_decimal(n: nat, negative: bool, min: int, max: int)
    requires
        min <= 0 <= max,
        if negative {
            min <= -n
        } else {
            n <= max
        },
    ensures
        scan_digits(decimal_nat(n), negative, min, max) == Ok::<int, IntErrorKind>(
            if negative {
                -n
            } else {
                n as int
            },
        ),
        decimal_nat(n).len() >= 1,
        is_digit(decimal_nat(n)[0]),
    decreases n,
{
    let digits = decimal_nat(n);
    let d = (n % 10) as int;
    assert(is_digit(digit_char(d)) && digit_value(digit_char(d)) == d);
    assert(scan_digits(Seq::<char>::empty(), negative, min, max) == Ok::<int, IntErrorKind>(0));
    if n < 10 {
        assert(digits.drop_last() =~= Seq::<char>::empty());
    } else {
        lemma_scan_decimal(n / 10, negative, min, max);
        assert(digits.drop_last() =~= decimal_nat(n / 10));
        assert(digits[0] == decimal_nat(n / 10)[0]);
    }
}

/// Round trip: the decimal rendering of a number within the range reads
/// back as that number.
pub proof fn lemma_parse_decimal_round_trip(v: int, signed: bool, min: int, max: int)
    requires
        min <= 0 <= max,
        min <= v <= max,
        signed || v >= 0,
    ensures
        parse_decimal(decimal(v), signed, min, max) == Ok::<int, IntErrorKind>(v),
{
    if v < 0 {
        let digits = decimal_nat((-v) as nat);
        lemma_scan_decimal((-v) as nat, true, min, max);
        let s = decimal(v);
        assert(s[0] == '-');
        assert(s.subrange(1, s.len() as int) =~= digits);
    } else {
        lemma_scan_decimal(v as nat, false, min, max);
    }
}

fn digit_str(d: u64) -> (text: &'static str)
    requires
        d < 10,
    ensures
        text@ == seq![digit_char(d as int)],
{
    proof {
        reveal_strlit("0");
        reveal_strlit("1");
        reveal_strlit("2");
        reveal_strlit("3");
        reveal_strlit("4");
        reveal_strlit("5");
        reveal_strlit("6");
        reveal_strlit("7");
        reveal_strlit("8");
        reveal_strlit("9");
    }
    let text = if d == 0 {
        "0"
    } else if d == 1 {
        "1"
    } else if d == 2 {
        "2"
    } else if d == 3 {
        "3"
    } else if d == 4 {
        "4"
    } else if d == 5 {
        "5"
    } else if d == 6 {
        "6"
    } else if d == 7 {
        "7"
    } else if d == 8 {
        "8"
    } else {
        "9"
    };
    assert(text@ =~= seq![digit_char(d as int)]);
    text
}

/// Appends the decimal digits of `n` to `out`.
pub fn push_decimal(n: u64, out: &mut String)
    ensures
        final(out)@ == old(out)@ + decimal_nat(n as nat),
    decreases n,
{
    if n >= 10 {
        push_decimal(n / 10, out);
    }
    out.append(digit_str(n % 10));
    assert(out@ =~= old(out)@ + decimal_nat(n as nat));
}

/// The decimal rendering of an unsigned number.
pub fn format_u64(n: u64) -> (text: String)
    ensures
        text@ == decimal(n as int),
{
    let mut text = String::new();
    push_decimal(n, &mut text);
    assert(text@ =~= decimal(n as int));
    text
}

/// The decimal rendering of a signed number.
pub fn format_i64(v: i64) -> (text: String)
    ensures
        text@ == decimal(v as int),
{
    let mut text = String::new();
    if v < 0 {
        proof {
            reveal_strlit("-");
        }
        text.append("-");
        let magnitude: u64 = ((-(v + 1)) as u64) + 1;
        push_decimal(magnitude, &mut text);
        assert(text@ =~= decimal(v as int));
    } else {
        push_decimal(v as u64, &mut text);
        assert(text@ =~= decimal(v as int));
    }
    text
}

} // verus!
