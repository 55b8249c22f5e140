//! Reading whole numbers from text, digit by digit.

use vstd::prelude::*;
use vstd::slice::*;
use vstd::string::*;

verus! {

/// Why a text is not read as a number.
#[derive(Clone, Copy, Debug, PartialEq, Eq, Structural)]
pub enum ParseError {
    /// The text is empty.
    Empty,
    /// The text holds something that is no digit, or nothing but a sign.
    InvalidDigit,
    /// The number is too large.
    PosOverflow,
    /// The number is too small.
    NegOverflow,
}

impl ParseError {
    /// What the error says.
    pub open spec fn text(self) -> Seq<char> {
        match self {
            ParseError::Empty => "cannot parse integer from empty string"@,
            ParseError::InvalidDigit => "invalid digit found in string"@,
            ParseError::PosOverflow => "number too large to fit in target type"@,
            ParseError::NegOverflow => "number too small to fit in target type"@,
        }
    }

    /// What the error says.
    pub fn message(&self) -> (text: String)
        ensures
            text@ == self.text(),
    {
        match self {
            ParseError::Empty => String::from_str("cannot parse integer from empty string"),
            ParseError::InvalidDigit => String::from_str("invalid digit found in string"),
            ParseError::PosOverflow => String::from_str("number too large to fit in target type"),
            ParseError::NegOverflow => String::from_str("number too small to fit in target type"),
        }
    }
}

/// The number that a digit stands for, given as a byte of text: a decimal
/// digit, or, with `hex`, a hexadecimal digit in either case.
pub open spec fn digit_value(digit: u8, hex: bool) -> Option<u8> {
    if 48 <= digit <= 57 {
        Some((digit - 48) as u8)
    } else if hex && 65 <= digit <= 70 {
        Some((digit - 55) as u8)
    } else if hex && 97 <= digit <= 102 {
        Some((digit - 87) as u8)
    } else {
        None
    }
}

/// The base of the notation: sixteen with `hex`, and else ten.
pub open spec fn radix(hex: bool) -> int {
    if hex {
        16
    } else {
        10
    }
}

/// The kind of number that is read: in which notation, whether below
/// zero, and within which bounds.
pub struct Reading {
    pub hex: bool,
    pub negative: bool,
    pub least: int,
    pub most: int,
}

/// The number that `digits` stand for, read from the left. The first
/// digit that is none, or that takes the number out of its bounds, ends
/// the reading with an error; a byte that is no digit counts before the
/// bounds do.
pub open spec fn scanned(digits: Seq<u8>, reading: Reading) -> Result<int, ParseError>
    decreases digits.len(),
{
    if digits.len() == 0 {
        Ok(0)
    } else {
        match scanned(digits.drop_last(), reading) {
            Err(e) => Err(e),
            Ok(before) => match digit_value(digits.last(), reading.hex) {
                None => Err(ParseError::InvalidDigit),
                Some(digit) => {
                    let number = if reading.negative {
                        before * radix(reading.hex) - digit
                    } else {
                        before * radix(reading.hex) + digit
                    };
                    if number > reading.most {
                        Err(ParseError::PosOverflow)
                    } else if number < reading.least {
                        Err(ParseError::NegOverflow)
                    } else {
                        Ok(number)
                    }
                },
            },
        }
    }
}

/// The number that `text` stands for: digits, after a plus sign or, where
/// the number may be `signed`, a minus sign, if there is a sign.
pub open spec fn parsed(text: Seq<u8>, hex: bool, signed: bool, least: int, most: int) -> Result<
    int,
    ParseError,
> {
    if text.len() == 0 {
        Err(ParseError::Empty)
    } else if text.len() == 1 && (text[0] == 43 || text[0] == 45) {
        Err(ParseError::InvalidDigit)
    } else if text[0] == 43 {
        scanned(text.skip(1), Reading { hex, negative: false, least, most })
    } else if text[0] == 45 && signed {
        scanned(text.skip(1), Reading { hex, negative: true, least, most })
    } else {
        scanned(text, Reading { hex, negative: false, least, most })
    }
}

/// Reads one digit.
pub fn read_digit(digit: u8, hex: bool) -> (value: Option<u8>)
    ensures
        value == digit_value(digit, hex),
{
    if 48 <= digit && digit <= 57 {
        Some(digit - 48)
    } else if hex && 65 <= digit && digit <= 70 {
        Some(digit - 55)
    } else if hex && 97 <= digit && digit <= 102 {
        Some(digit - 87)
    } else {
        None
    }
}

/// Reads the digits of `text` from `from` on.
fn scan(text: &[u8], from: usize, hex: bool, negative: bool, least: i128, most: i128) -> (number:
    Result<i128, ParseError>)
    requires
        from <= text@.len(),
        -0x1_0000_0000_0000_0000 <= least <= 0 <= most <= 0x1_0000_0000_0000_0000,
    ensures
        match scanned(
            text@.skip(from as int),
            Reading { hex, negative, least: least as int, most: most as int },
        ) {
            Ok(n) => number == Ok::<i128, ParseError>(n as i128),
            Err(e) => number == Err::<i128, ParseError>(e),
        },
{
    let ghost reading = Reading { hex, negative, least: least as int, most: most as int };
    let ghost digits = text@.skip(from as int);
    let base: i128 = if hex {
        16
    } else {
        10
    };
    let mut number: i128 = 0;
    let mut i: usize = from;
    while i < text.len()
        invariant
            from <= i <= text@.len(),
            digits == text@.skip(from as int),
            reading == (Reading { hex, negative, least: least as int, most: most as int }),
            base == radix(hex),
            -0x1_0000_0000_0000_0000 <= least <= 0 <= most <= 0x1_0000_0000_0000_0000,
            scanned(digits.take(i - from), reading) == Ok::<int, ParseError>(number as int),
            least <= number <= most,
        decreases text.len() - i,
    {
        proof {
            assert(digits.take(i - from + 1).drop_last() =~= digits.take(i - from));
            assert(digits.take(i - from + 1).last() == text@[i as int]);
            lemma_scan_error_stays(digits, (i - from + 1) as int, reading);
        }
        let digit = match read_digit(text[i], hex) {
            Some(digit) => digit,
            None => {
                return Err(ParseError::InvalidDigit);
            },
        };
        let next: i128 = if negative {
            number * base - digit as i128
        } else {
            number * base + digit as i128
        };
        if next > most {
            return Err(ParseError::PosOverflow);
        }
        if next < least {
            return Err(ParseError::NegOverflow);
        }
        number = next;
        i = i + 1;
    }
    assert(digits.take(i - from) =~= digits);
    Ok(number)
}

/// Once the reading of some leading digits has failed, the reading of
/// all digits fails in the same way.
proof fn lemma_scan_error_stays(digits: Seq<u8>, n: int, reading: Reading)
    requires
        0 <= n <= digits.len(),
    ensures
        scanned(digits.take(n), reading) matches Err(e) ==> scanned(digits, reading) == Err::<
            int,
            ParseError,
        >(e),
    decreases digits.len() - n,
{
    if n < digits.len() {
        lemma_scan_error_stays(digits, n + 1, reading);
        assert(digits.take(n + 1).drop_last() =~= digits.take(n));
    } else {
        assert(digits.take(n) =~= digits);
    }
}

/// Reads a number in the given notation and bounds from `text`.
fn parse(text: &[u8], hex: bool, signed: bool, least: i128, most: i128) -> (number: Result<
    i128,
    ParseError,
>)
    requires
        -0x1_0000_0000_0000_0000 <= least <= 0 <= most <= 0x1_0000_0000_0000_0000,
    ensures
        match parsed(text@, hex, signed, least as int, most as int) {
            Ok(n) => number == Ok::<i128, ParseError>(n as i128),
            Err(e) => number == Err::<i128, ParseError>(e),
        },
        number matches Ok(n) ==> least <= n <= most,
{
    if text.len() == 0 {
        return Err(ParseError::Empty);
    }
    let first = text[0];
    if text.len() == 1 && (first == 43 || first == 45) {
        return Err(ParseError::InvalidDigit);
    }
    let number = if first == 43 {
        scan(text, 1, hex, false, least, most)
    } else if first == 45 && signed {
        scan(text, 1, hex, true, least, most)
    } else {
        assert(text@.skip(0) =~= text@);
        scan(text, 0, hex, false, least, most)
    };
    proof {
        lemma_scanned_in_bounds(
            if first == 43 || (first == 45 && signed) {
                text@.skip(1)
            } else {
                text@
            },
            Reading {
                hex,
                negative: first == 45 && signed,
                least: least as int,
                most: most as int,
            },
        );
    }
    number
}

/// A number that was read lies within the bounds of the reading.
proof fn lemma_scanned_in_bounds(digits: Seq<u8>, reading: Reading)
    requires
        reading.least <= 0 <= reading.most,
    ensures
        scanned(digits, reading) matches Ok(n) ==> reading.least <= n <= reading.most,
{
}

/// The number of 64 bits, with a sign, that the bytes `text` write in
/// decimal notation.
pub open spec fn decimal_i64(text: Seq<u8>) -> Result<int, ParseError> {
    parsed(text, false, true, i64::MIN as int, i64::MAX as int)
}

/// The number of 32 bits, without a sign, that the bytes `text` write in
/// hexadecimal notation.
pub open spec fn hex_u32(text: Seq<u8>) -> Result<int, ParseError> {
    parsed(text, true, false, 0, u32::MAX as int)
}

/// Reads a number in decimal notation: digits, after a sign if there is
/// one. Nothing else may stand in the text, not even white space.
pub fn parse_i64(text: &str) -> (number: Result<i64, ParseError>)
    ensures
        match decimal_i64(text.spec_bytes()) {
            Ok(n) => number == Ok::<i64, ParseError>(n as i64) && i64::MIN <= n <= i64::MAX,
            Err(e) => number == Err::<i64, ParseError>(e),
        },
{
    match parse(text.as_bytes(), false, true, i64::MIN as i128, i64::MAX as i128) {
        Ok(n) => Ok(n as i64),
        Err(e) => Err(e),
    }
}

/// Reads a number in hexadecimal notation: digits in either case, after
/// a plus sign if there is one. Nothing else may stand in the text.
pub fn parse_hex_u32(text: &str) -> (number: Result<u32, ParseError>)
    ensures
        match hex_u32(text.spec_bytes()) {
            Ok(n) => number == Ok::<u32, ParseError>(n as u32) && 0 <= n <= u32::MAX,
            Err(e) => number == Err::<u32, ParseError>(e),
        },
{
    match parse(text.as_bytes(), true, false, 0, u32::MAX as i128) {
        Ok(n) => Ok(n as u32),
        Err(e) => Err(e),
    }
}

} // verus!
