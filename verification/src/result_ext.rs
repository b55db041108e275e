//! Unwrapping results that cannot be errors.
use vstd::prelude::*;
use core::convert::Infallible;

verus! {

/// Taking the value out of a result whose error type has no values.
pub trait ResultExt<T> {
    fn get(self) -> T;
}

impl<T> ResultExt<T> for Result<T, Infallible> {
    /// The value held by `Ok`. (`Err` cannot occur at run time: `Infallible`
    /// has no values.)
    fn get(self) -> (v: T)
        ensures
            self is Ok ==> self == Ok::<T, Infallible>(v),
    {
        match self {
            Ok(v) => v,
        }
    }
}

} // verus!
