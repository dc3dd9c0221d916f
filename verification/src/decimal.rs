//! Decimal text for 16-bit unsigned integers: a parser with the exact
//! acceptance and failure behaviour of integer parsing from a string, and a
//! formatter producing the canonical digit sequence.

use vstd::prelude::*;
use vstd::string::StrSliceExecFns;
use vstd::string::StringExecFns;

verus! {

/// Why a string failed to parse as a 16-bit unsigned integer.
#[derive(Clone, Copy, Debug, PartialEq, Eq, Structural)]
pub enum ParseError {
    /// The string was empty.
    Empty,
    /// A character other than an ASCII digit was found (a lone sign counts).
    InvalidDigit,
    /// The digits denote a value above the 16-bit maximum.
    PosOverflow,
}

/// The wording that accompanies each parse failure.
pub open spec fn parse_error_text(e: ParseError) -> Seq<char> {
    match e {
        ParseError::Empty => "cannot parse integer from empty string"@,
        ParseError::InvalidDigit => "invalid digit found in string"@,
        ParseError::PosOverflow => "number too large to fit in target type"@,
    }
}

/// The wording that accompanies each parse failure.
pub fn parse_error_message(e: ParseError) -> (r: &'static str)
    ensures
        r@ == parse_error_text(e),
{
    match e {
        ParseError::Empty => "cannot parse integer from empty string",
        ParseError::InvalidDigit => "invalid digit found in string",
        ParseError::PosOverflow => "number too large to fit in target type",
    }
}

/// Whether `c` is one of the ten ASCII decimal digits.
pub open spec fn is_ascii_digit(c: char) -> bool {
    48 <= c as int <= 57
}

/// The numeric value of an ASCII decimal digit.
pub open spec fn digit_value(c: char) -> int
    recommends
        is_ascii_digit(c),
{
    c as int - 48
}

/// The ASCII character for a single decimal digit.
pub open spec fn digit_char(d: nat) -> char
    recommends
        d < 10,
{
    if d == 0 {
        '0'
    } else if d == 1 {
        '1'
    } else if d == 2 {
        '2'
    } else if d == 3 {
        '3'
    } else if d == 4 {
        '4'
    } else if d == 5 {
        '5'
    } else if d == 6 {
        '6'
    } else if d == 7 {
        '7'
    } else if d == 8 {
        '8'
    } else {
        '9'
    }
}

/// The canonical decimal digits of `n`, most significant first, with no
/// leading zero except for `n == 0` itself.
pub open spec fn dec_chars(n: nat) -> Seq<char>
    decreases n,
{
    if n < 10 {
        seq![digit_char(n)]
    } else {
        dec_chars(n / 10).push(digit_char(n % 10))
    }
}

/// Left-to-right consumption of a digit run, starting from the accumulated
/// value `acc`: stops at the first non-digit, or as soon as the accumulated
/// value would exceed the 16-bit maximum, exactly as the standard unsigned
/// integer parser does.
pub open spec fn parse_digits(s: Seq<char>, acc: int) -> Result<u16, ParseError>
    recommends
        0 <= acc <= 65535,
    decreases s.len(),
{
    if s.len() == 0 {
        Ok(acc as u16)
    } else if !is_ascii_digit(s[0]) {
        Err(ParseError::InvalidDigit)
    } else if acc * 10 + digit_value(s[0]) > 65535 {
        Err(ParseError::PosOverflow)
    } else {
        parse_digits(s.subrange(1, s.len() as int), acc * 10 + digit_value(s[0]))
    }
}

/// What parsing a whole string as a 16-bit unsigned integer yields: an
/// optional leading `+`, then at least one ASCII digit, with the value at
/// most 65535. A minus sign is not a digit for an unsigned type.
pub open spec fn parse_u16_chars(s: Seq<char>) -> Result<u16, ParseError> {
    if s.len() == 0 {
        Err(ParseError::Empty)
    } else if s[0] == '+' {
        if s.len() == 1 {
            Err(ParseError::InvalidDigit)
        } else {
            parse_digits(s.subrange(1, s.len() as int), 0)
        }
    } else {
        parse_digits(s, 0)
    }
}

/// Parses `s` as a 16-bit unsigned integer, reporting on failure whether the
/// string was empty, held a non-digit, or denoted too large a value.
pub fn parse_u16(s: &str) -> (r: Result<u16, ParseError>)
    ensures
        r == parse_u16_chars(s@),
{
    let n: usize = s.unicode_len();
    if n == 0 {
        return Err(ParseError::Empty);
    }
    let first: char = s.get_char(0);
    let start: usize = if first == '+' {
        1
    } else {
        0
    };
    if start == 1 && n == 1 {
        return Err(ParseError::InvalidDigit);
    }
    proof {
        if start == 0 {
            assert(s@.subrange(0, n as int) =~= s@);
        }
    }
    let mut i: usize = start;
    let mut acc: u32 = 0;
    while i < n
        invariant
            start <= i <= n,
            n == s@.len(),
            start == 0 || start == 1,
            start == 1 ==> s@[0] == '+' && n > 1,
            start == 0 ==> s@[0] != '+',
            acc <= 65535,
            parse_digits(s@.subrange(start as int, n as int), 0) == parse_digits(
                s@.subrange(i as int, n as int),
                acc as int,
            ),
        decreases n - i,
    {
        let c: char = s.get_char(i);
        let u: u32 = c as u32;
        proof {
            assert(s@.subrange(i as int, n as int)[0] == s@[i as int]);
        }
        if u < 48 || u > 57 {
            proof {
                if start == 0 {
                    assert(s@.subrange(0, n as int) =~= s@);
                }
            }
            return Err(ParseError::InvalidDigit);
        }
        let d: u32 = u - 48;
        let next: u32 = acc * 10 + d;
        if next > 65535 {
            proof {
                if start == 0 {
                    assert(s@.subrange(0, n as int) =~= s@);
                }
            }
            return Err(ParseError::PosOverflow);
        }
        proof {
            assert(s@.subrange(i as int, n as int).subrange(
                1,
                s@.subrange(i as int, n as int).len() as int,
            ) =~= s@.subrange(i as int + 1, n as int));
        }
        acc = next;
        i = i + 1;
    }
    proof {
        assert(s@.subrange(n as int, n as int) =~= Seq::<char>::empty());
    }
    Ok(acc as u16)
}

/// The ASCII string for a single decimal digit.
fn digit_str(d: u16) -> (r: &'static str)
    requires
        d < 10,
    ensures
        r@ == seq![digit_char(d as nat)],
{
    match d {
        0 => {
            proof {
                reveal_strlit("0");
                assert("0"@ =~= seq![digit_char(0)]);
            }
            "0"
        },
        1 => {
            proof {
                reveal_strlit("1");
                assert("1"@ =~= seq![digit_char(1)]);
            }
            "1"
        },
        2 => {
            proof {
                reveal_strlit("2");
                assert("2"@ =~= seq![digit_char(2)]);
            }
            "2"
        },
        3 => {
            proof {
                reveal_strlit("3");
                assert("3"@ =~= seq![digit_char(3)]);
            }
            "3"
        },
        4 => {
            proof {
                reveal_strlit("4");
                assert("4"@ =~= seq![digit_char(4)]);
            }
            "4"
        },
        5 => {
            proof {
                reveal_strlit("5");
                assert("5"@ =~= seq![digit_char(5)]);
            }
            "5"
        },
        6 => {
            proof {
                reveal_strlit("6");
                assert("6"@ =~= seq![digit_char(6)]);
            }
            "6"
        },
        7 => {
            proof {
                reveal_strlit("7");
                assert("7"@ =~= seq![digit_char(7)]);
            }
            "7"
        },
        8 => {
            proof {
                reveal_strlit("8");
                assert("8"@ =~= seq![digit_char(8)]);
            }
            "8"
        },
        _ => {
            proof {
                reveal_strlit("9");
                assert("9"@ =~= seq![digit_char(9)]);
            }
            "9"
        },
    }
}

/// Renders `n` as its canonical decimal digits.
pub fn u16_to_string(n: u16) -> (r: String)
    ensures
        r@ == dec_chars(n as nat),
    decreases n,
{
    if n < 10 {
        let mut s = String::new();
        s.append(digit_str(n));
        proof {
            assert(s@ =~= dec_chars(n as nat));
        }
        s
    } else {
        let mut s = u16_to_string(n / 10);
        s.append(digit_str(n % 10));
        proof {
            assert(s@ =~= dec_chars(n as nat));
        }
        s
    }
}

} // verus!
