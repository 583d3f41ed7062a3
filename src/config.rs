use vstd::prelude::*;
use vstd::string::{StrSliceExecFns, StringExecFns};

verus! {

/// Why a command-line number was refused.
#[derive(Debug, Clone, Copy, PartialEq, Eq, Structural)]
pub enum NumberError {
    /// Nothing to parse.
    Empty,
    /// A character that is not a decimal digit.
    InvalidDigit,
    /// The value does not fit the target type.
    TooLarge,
    /// The value is zero.
    NotPositive,
}

pub open spec fn number_error_message(e: NumberError) -> Seq<char> {
    match e {
        NumberError::Empty => "cannot parse integer from empty string"@,
        NumberError::InvalidDigit => "invalid digit found in string"@,
        NumberError::TooLarge => "number too large to fit in target type"@,
        NumberError::NotPositive => "Must be a positive number"@,
    }
}

impl NumberError {
    pub fn message(&self) -> (r: &'static str)
        ensures
            r@ == number_error_message(*self),
    {
        match self {
            NumberError::Empty => "cannot parse integer from empty string",
            NumberError::InvalidDigit => "invalid digit found in string",
            NumberError::TooLarge => "number too large to fit in target type",
            NumberError::NotPositive => "Must be a positive number",
        }
    }
}

pub open spec fn is_decimal_digit(c: char) -> bool {
    '0' <= c && c <= '9'
}

pub open spec fn decimal_digit_value(c: char) -> int {
    c as int - '0' as int
}

/// Reads the digits of `d` after `acc` has been read, left to right; the
/// first character that is no digit, or the first digit that takes the value
/// past `max`, decides the error.
pub open spec fn scan_decimal(d: Seq<char>, acc: int, max: int) -> Result<int, NumberError>
    decreases d.len(),
{
    if d.len() == 0 {
        Ok(acc)
    } else if !is_decimal_digit(d[0]) {
        Err(NumberError::InvalidDigit)
    } else if acc * 10 + decimal_digit_value(d[0]) > max {
        Err(NumberError::TooLarge)
    } else {
        scan_decimal(d.drop_first(), acc * 10 + decimal_digit_value(d[0]), max)
    }
}

/// An unsigned decimal number of at most `max`, with an optional leading `+`.
pub open spec fn parse_decimal(s: Seq<char>, max: int) -> Result<int, NumberError> {
    if s.len() == 0 {
        Err(NumberError::Empty)
    } else if s == "+"@ || s == "-"@ {
        Err(NumberError::InvalidDigit)
    } else if s[0] == '+' {
        scan_decimal(s.drop_first(), 0, max)
    } else {
        scan_decimal(s, 0, max)
    }
}

/// A positive decimal number of at most `max`.
pub open spec fn parse_positive(s: Seq<char>, max: int) -> Result<int, NumberError> {
    match parse_decimal(s, max) {
        Ok(v) => if v > 0 {
            Ok(v)
        } else {
            Err(NumberError::NotPositive)
        },
        Err(e) => Err(e),
    }
}

/// Reads a command-line number that must be positive and at most `max` (the
/// largest value of the option's type).
pub fn parse_positive_number(s: &str, max: u64) -> (r: Result<u64, NumberError>)
    ensures
        r matches Ok(v) ==> parse_positive(s@, max as int) == Ok::<int, NumberError>(v as int),
        r matches Err(e) ==> parse_positive(s@, max as int) == Err::<int, NumberError>(e),
{
    let n = s.unicode_len();
    if n == 0 {
        return Err(NumberError::Empty);
    }
    let first = s.get_char(0);
    if n == 1 && (first == '+' || first == '-') {
        proof {
            reveal_strlit("+");
            reveal_strlit("-");
            if first == '+' {
                assert(s@ =~= "+"@);
            } else {
                assert(s@ =~= "-"@);
            }
        }
        return Err(NumberError::InvalidDigit);
    }
    proof {
        reveal_strlit("+");
        reveal_strlit("-");
        if n == 1 {
            assert(s@ != "+"@ && s@ != "-"@) by {
                assert("+"@[0] == '+');
                assert("-"@[0] == '-');
            }
        } else {
            assert(s@.len() != "+"@.len());
        }
    }
    let mut i: usize = if first == '+' {
        1
    } else {
        0
    };
    proof {
        if first == '+' {
            assert(s@.drop_first() =~= s@.subrange(1, n as int));
        } else {
            assert(s@ =~= s@.subrange(0, n as int));
        }
    }
    let mut acc: u64 = 0;
    while i < n
        invariant
            n == s@.len(),
            0 <= i <= n,
            acc <= max,
            parse_decimal(s@, max as int) == scan_decimal(
                s@.subrange(i as int, n as int),
                acc as int,
                max as int,
            ),
        decreases n - i,
    {
        let c = s.get_char(i);
        let ghost rest = s@.subrange(i as int, n as int);
        assert(rest[0] == c);
        assert(rest.drop_first() =~= s@.subrange(i + 1, n as int));
        if !('0' <= c && c <= '9') {
            return Err(NumberError::InvalidDigit);
        }
        let d: u64 = (c as u32 - '0' as u32) as u64;
        if acc > max / 10 {
            assert(acc * 10 + d > max);
            return Err(NumberError::TooLarge);
        }
        assert(acc * 10 <= max);
        let t: u64 = acc * 10;
        if d > max - t {
            return Err(NumberError::TooLarge);
        }
        acc = t + d;
        i = i + 1;
    }
    assert(s@.subrange(n as int, n as int) =~= Seq::<char>::empty());
    if acc == 0 {
        Err(NumberError::NotPositive)
    } else {
        Ok(acc)
    }
}

/// Checks the database folder given on the command line, from whether the
/// path exists and whether it is a directory.
pub fn validate_db_folder(exists: bool, is_dir: bool) -> (r: Result<(), String>)
    ensures
        r is Ok <==> exists && is_dir,
        !exists ==> (r matches Err(m) && m@ == "Database folder does not exist"@),
        exists && !is_dir ==> (r matches Err(m) && m@ == "Database folder is not a directory"@),
{
    if !exists {
        Err(String::from_str("Database folder does not exist"))
    } else if !is_dir {
        Err(String::from_str("Database folder is not a directory"))
    } else {
        Ok(())
    }
}

} // verus!
