//! A verified decimal integer parser.
//!
//! Accepts an optional leading `+` or `-` sign followed by one or more
//! ASCII digits, and rejects everything else, reporting the same error
//! classes a standard-library integer parse distinguishes.

use vstd::prelude::*;

verus! {

use vstd::string::StringSliceAdditionalSpecFns;

/// The ASCII digit zero.
pub const DIGIT_ZERO: u8 = 0x30;

/// The ASCII digit nine.
pub const DIGIT_NINE: u8 = 0x39;

/// The ASCII plus sign.
pub const PLUS_SIGN: u8 = 0x2b;

/// The ASCII minus sign.
pub const MINUS_SIGN: u8 = 0x2d;

/// Why a string failed to parse as an integer.
#[derive(Clone, Copy, PartialEq, Eq, Structural, Debug)]
pub enum ParseIntError {
    /// The string was empty.
    Empty,
    /// A character other than a digit (or a lone sign) was found.
    InvalidDigit,
    /// The value exceeds the largest representable value.
    PosOverflow,
    /// The value is below the smallest representable value.
    NegOverflow,
}

/// Whether a byte is an ASCII decimal digit.
pub open spec fn is_digit(b: u8) -> bool {
    DIGIT_ZERO <= b <= DIGIT_NINE
}

/// Whether every byte of the sequence is an ASCII decimal digit.
pub open spec fn all_digits(s: Seq<u8>) -> bool {
    forall|i: int| 0 <= i < s.len() ==> is_digit(#[trigger] s[i])
}

/// The value of a digit sequence read in base ten.
pub open spec fn dec_value(s: Seq<u8>) -> int
    decreases s.len(),
{
    if s.len() == 0 {
        0
    } else {
        dec_value(s.drop_last()) * 10 + (s.last() - DIGIT_ZERO)
    }
}

/// Whether the literal starts with a minus sign.
pub open spec fn is_negative(s: Seq<u8>) -> bool {
    s.len() > 0 && s[0] == MINUS_SIGN
}

/// The digit part of the literal: everything after an optional sign.
pub open spec fn digit_part(s: Seq<u8>) -> Seq<u8> {
    if s.len() > 0 && (s[0] == PLUS_SIGN || s[0] == MINUS_SIGN) {
        s.subrange(1, s.len() as int)
    } else {
        s
    }
}

/// Whether the bytes form a decimal integer literal: an optional sign
/// followed by at least one digit and nothing else.
pub open spec fn well_formed_int(s: Seq<u8>) -> bool {
    digit_part(s).len() > 0 && all_digits(digit_part(s))
}

/// The mathematical value of a well-formed literal.
pub open spec fn int_value(s: Seq<u8>) -> int {
    if is_negative(s) {
        -dec_value(digit_part(s))
    } else {
        dec_value(digit_part(s))
    }
}

/// A digit sequence has a non-negative value.
pub proof fn lemma_dec_value_nonneg(s: Seq<u8>)
    requires
        all_digits(s),
    ensures
        dec_value(s) >= 0,
    decreases s.len(),
{
    if s.len() > 0 {
        assert(all_digits(s.drop_last()));
        lemma_dec_value_nonneg(s.drop_last());
    }
}

/// Parses a decimal integer literal.  Returns the exact value when the
/// bytes form a literal whose value is representable; otherwise says
/// which of the four error classes applies, if and only if it does.
pub fn parse_number(s: &str) -> (r: Result<i32, ParseIntError>)
    ensures
        match r {
            Ok(n) => {
                &&& well_formed_int(s.spec_bytes())
                &&& i32::MIN <= int_value(s.spec_bytes()) <= i32::MAX
                &&& n == int_value(s.spec_bytes())
            },
            Err(e) => match e {
                ParseIntError::Empty => s.spec_bytes().len() == 0,
                ParseIntError::InvalidDigit => s.spec_bytes().len() > 0 && !well_formed_int(
                    s.spec_bytes(),
                ),
                ParseIntError::PosOverflow => well_formed_int(s.spec_bytes()) && int_value(
                    s.spec_bytes(),
                ) > i32::MAX,
                ParseIntError::NegOverflow => well_formed_int(s.spec_bytes()) && int_value(
                    s.spec_bytes(),
                ) < i32::MIN,
            },
        },
{
    let bytes = s.as_bytes();
    let ghost whole = s.spec_bytes();
    if bytes.len() == 0 {
        return Err(ParseIntError::Empty);
    }
    let first = bytes[0];
    let negative = first == MINUS_SIGN;
    let start: usize = if first == PLUS_SIGN || first == MINUS_SIGN {
        1
    } else {
        0
    };
    let ghost digits = digit_part(whole);
    proof {
        assert(digits =~= whole.subrange(start as int, whole.len() as int));
    }
    if start == bytes.len() {
        // A lone sign has no digits.
        return Err(ParseIntError::InvalidDigit);
    }

    let mut acc: u64 = 0;
    let mut overflowed = false;
    let mut i = start;
    while i < bytes.len()
        invariant
            whole == s.spec_bytes(),
            bytes@ == whole,
            start <= i <= whole.len(),
            start <= 1,
            digits == digit_part(whole),
            digits =~= whole.subrange(start as int, whole.len() as int),
            forall|j: int| 0 <= j < i - start ==> is_digit(#[trigger] digits[j]),
            !overflowed ==> acc == dec_value(digits.subrange(0, i - start)) && acc <= 0x80000000,
            overflowed ==> dec_value(digits.subrange(0, i - start)) > 0x80000000,
        decreases whole.len() - i,
    {
        let b = bytes[i];
        if b < DIGIT_ZERO || b > DIGIT_NINE {
            // The byte at position i - start of the digit part is no digit.
            proof {
                assert(0 <= i - start < digits.len());
                assert(digits[i - start] == whole[i as int]);
                assert(!is_digit(digit_part(whole)[i - start]));
                assert(!all_digits(digit_part(whole)));
            }
            return Err(ParseIntError::InvalidDigit);
        }
        proof {
            let k = i - start;
            let pre = digits.subrange(0, k);
            let next = digits.subrange(0, k + 1);
            assert(next.drop_last() =~= pre);
            assert(next.last() == digits[k]);
            assert(all_digits(pre));
            lemma_dec_value_nonneg(pre);
        }
        if overflowed {
            // Keep scanning for invalid digits; the value only grows.
        } else {
            acc = acc * 10 + (b - DIGIT_ZERO) as u64;
            if acc > 0x80000000 {
                overflowed = true;
            }
        }
        i = i + 1;
    }
    proof {
        assert(digits.subrange(0, whole.len() - start) =~= digits);
        assert(all_digits(digits));
        assert(well_formed_int(whole));
    }

    if overflowed {
        if negative {
            Err(ParseIntError::NegOverflow)
        } else {
            Err(ParseIntError::PosOverflow)
        }
    } else if negative {
        let v: i64 = -(acc as i64);
        Ok(v as i32)
    } else {
        if acc > 0x7fffffff {
            Err(ParseIntError::PosOverflow)
        } else {
            Ok(acc as i32)
        }
    }
}

} // verus!
