//! A minimal custom error enum, and two ways of propagating a parse error:
//! an explicit match and the question-mark operator.

use vstd::prelude::*;

use crate::parsing::{int_value, parse_number, well_formed_int, ParseIntError};

verus! {

use vstd::string::StringSliceAdditionalSpecFns;

/// A minimal custom error type.
#[derive(Debug)]
pub enum MyError {
    /// The resource does not exist.
    NotFound,
    /// The input was invalid, with a description.
    BadInput(String),
}

/// The largest value whose square is representable in 32 bits.
pub const MAX_SQUARE_ROOT: i32 = 46340;

/// Parses a number and squares it, handling the parse result with an
/// explicit match.
pub fn square(val: &str) -> (r: Result<i32, ParseIntError>)
    requires
        well_formed_int(val.spec_bytes()) ==> -(MAX_SQUARE_ROOT as int) <= int_value(
            val.spec_bytes(),
        ) <= MAX_SQUARE_ROOT as int,
    ensures
        match r {
            Ok(n) => well_formed_int(val.spec_bytes()) && n == int_value(val.spec_bytes())
                * int_value(val.spec_bytes()),
            Err(_) => !well_formed_int(val.spec_bytes()),
        },
{
    match parse_number(val) {
        Ok(num) => {
            proof {
                assert(num * num <= MAX_SQUARE_ROOT as int * MAX_SQUARE_ROOT as int && num * num
                    >= 0) by (nonlinear_arith)
                    requires
                        -(MAX_SQUARE_ROOT as int) <= num <= MAX_SQUARE_ROOT as int,
                ;
            }
            Ok(num * num)
        },
        Err(e) => Err(e),
    }
}

/// Parses a number, propagating a failure with the question-mark operator,
/// and returns the parsed value unchanged.
#[allow(non_snake_case)]
pub fn squareDealErr(val: &str) -> (r: Result<i32, ParseIntError>)
    ensures
        match r {
            Ok(n) => well_formed_int(val.spec_bytes()) && i32::MIN <= int_value(val.spec_bytes())
                <= i32::MAX && n == int_value(val.spec_bytes()),
            Err(_) => !well_formed_int(val.spec_bytes()) || int_value(val.spec_bytes()) > i32::MAX
                || int_value(val.spec_bytes()) < i32::MIN,
        },
{
    let num = parse_number(val)?;
    Ok(num)
}

} // verus!
