//! Reading the dimensions of a shape as a fixed number of values.
//!
//! Each conversion succeeds exactly when the shape has the number of
//! dimensions asked for, and otherwise reports the number asked for, the
//! number found and the dimensions themselves.
//!
//! An error holds a vector, and a vector is known to a contract only by its
//! view, so no spec function can name the exact result of a conversion: the
//! `ensures` of each `try_from` states it instead.

use crate::error::Error;
use crate::shape::Shape;
use vstd::prelude::*;
use vstd::slice::slice_to_vec;
use vstd::std_specs::convert::TryFromSpecImpl;

verus! {

/// The dimensions of `shape` where there are exactly `expected` of them, and
/// the error that reports the mismatch where there are not.
pub fn dims_of_arity(shape: &Shape, expected: usize) -> (dims: Result<&[i64], Error>)
    ensures
        match dims {
            Ok(found) => shape@.dimensions.len() == expected && found@ == shape@.dimensions,
            Err(e) => shape@.dimensions.len() != expected && e@ == shape@.arity_mismatch(
                expected as nat,
            ),
        },
{
    let found = shape.dimensions();
    if found.len() != expected {
        Err(
            Error::UnexpectedNumberOfDims {
                expected,
                got: found.len(),
                dims: slice_to_vec(found),
            },
        )
    } else {
        Ok(found)
    }
}

/// Reads a shape as one dimension.
impl TryFrom<&Shape> for i64 {
    type Error = Error;

    fn try_from(value: &Shape) -> (dims: Result<i64, Error>)
        ensures
            match dims {
                Ok(d) => value@.dimensions.len() == 1 && d == value@.dimensions[0],
                Err(e) => value@.dimensions.len() != 1 && e@ == value@.arity_mismatch(1),
            },
    {
        match dims_of_arity(value, 1) {
            Ok(d) => Ok(d[0]),
            Err(e) => Err(e),
        }
    }
}

/// The result is stated by the `ensures` of `try_from`.
impl TryFromSpecImpl<&Shape> for i64 {
    open spec fn obeys_try_from_spec() -> bool {
        false
    }

    open spec fn try_from_spec(value: &Shape) -> Result<i64, Error> {
        arbitrary()
    }
}

/// Reads a shape as two dimensions.
impl TryFrom<&Shape> for (i64, i64) {
    type Error = Error;

    fn try_from(value: &Shape) -> (dims: Result<(i64, i64), Error>)
        ensures
            match dims {
                Ok(d) => value@.dimensions.len() == 2 && d == (
                    value@.dimensions[0],
                    value@.dimensions[1],
                ),
                Err(e) => value@.dimensions.len() != 2 && e@ == value@.arity_mismatch(2),
            },
    {
        match dims_of_arity(value, 2) {
            Ok(d) => Ok((d[0], d[1])),
            Err(e) => Err(e),
        }
    }
}

/// The result is stated by the `ensures` of `try_from`.
impl TryFromSpecImpl<&Shape> for (i64, i64) {
    open spec fn obeys_try_from_spec() -> bool {
        false
    }

    open spec fn try_from_spec(value: &Shape) -> Result<(i64, i64), Error> {
        arbitrary()
    }
}

/// Reads a shape as three dimensions.
impl TryFrom<&Shape> for (i64, i64, i64) {
    type Error = Error;

    fn try_from(value: &Shape) -> (dims: Result<(i64, i64, i64), Error>)
        ensures
            match dims {
                Ok(d) => value@.dimensions.len() == 3 && d == (
                    value@.dimensions[0],
                    value@.dimensions[1],
                    value@.dimensions[2],
                ),
                Err(e) => value@.dimensions.len() != 3 && e@ == value@.arity_mismatch(3),
            },
    {
        match dims_of_arity(value, 3) {
            Ok(d) => Ok((d[0], d[1], d[2])),
            Err(e) => Err(e),
        }
    }
}

/// The result is stated by the `ensures` of `try_from`.
impl TryFromSpecImpl<&Shape> for (i64, i64, i64) {
    open spec fn obeys_try_from_spec() -> bool {
        false
    }

    open spec fn try_from_spec(value: &Shape) -> Result<(i64, i64, i64), Error> {
        arbitrary()
    }
}

/// Reads a shape as four dimensions.
impl TryFrom<&Shape> for (i64, i64, i64, i64) {
    type Error = Error;

    fn try_from(value: &Shape) -> (dims: Result<(i64, i64, i64, i64), Error>)
        ensures
            match dims {
                Ok(d) => value@.dimensions.len() == 4 && d == (
                    value@.dimensions[0],
                    value@.dimensions[1],
                    value@.dimensions[2],
                    value@.dimensions[3],
                ),
                Err(e) => value@.dimensions.len() != 4 && e@ == value@.arity_mismatch(4),
            },
    {
        match dims_of_arity(value, 4) {
            Ok(d) => Ok((d[0], d[1], d[2], d[3])),
            Err(e) => Err(e),
        }
    }
}

/// The result is stated by the `ensures` of `try_from`.
impl TryFromSpecImpl<&Shape> for (i64, i64, i64, i64) {
    open spec fn obeys_try_from_spec() -> bool {
        false
    }

    open spec fn try_from_spec(value: &Shape) -> Result<(i64, i64, i64, i64), Error> {
        arbitrary()
    }
}

/// Reads a shape as five dimensions.
impl TryFrom<&Shape> for (i64, i64, i64, i64, i64) {
    type Error = Error;

    fn try_from(value: &Shape) -> (dims: Result<(i64, i64, i64, i64, i64), Error>)
        ensures
            match dims {
                Ok(d) => value@.dimensions.len() == 5 && d == (
                    value@.dimensions[0],
                    value@.dimensions[1],
                    value@.dimensions[2],
                    value@.dimensions[3],
                    value@.dimensions[4],
                ),
                Err(e) => value@.dimensions.len() != 5 && e@ == value@.arity_mismatch(5),
            },
    {
        match dims_of_arity(value, 5) {
            Ok(d) => Ok((d[0], d[1], d[2], d[3], d[4])),
            Err(e) => Err(e),
        }
    }
}

/// The result is stated by the `ensures` of `try_from`.
impl TryFromSpecImpl<&Shape> for (i64, i64, i64, i64, i64) {
    open spec fn obeys_try_from_spec() -> bool {
        false
    }

    open spec fn try_from_spec(value: &Shape) -> Result<(i64, i64, i64, i64, i64), Error> {
        arbitrary()
    }
}

} // verus!
