//! Pairing two results, keeping the first error.
use vstd::prelude::*;

verus! {

/// The first error of two results, else both values.
pub open spec fn zipped<T, U, E>(first: Result<T, E>, second: Result<U, E>) -> Result<(T, U), E> {
    match first {
        Err(e) => Err(e),
        Ok(a) => match second {
            Err(e) => Err(e),
            Ok(b) => Ok((a, b)),
        },
    }
}

/// Pairs two results: the first error if either failed, else both values.
pub trait ZipResult<T, E>: Sized {
    spec fn as_result(self) -> Result<T, E>;

    fn zip_result<U>(self, second: Result<U, E>) -> (r: Result<(T, U), E>)
        ensures
            r == zipped(self.as_result(), second),
    ;
}

impl<T, E> ZipResult<T, E> for Result<T, E> {
    open spec fn as_result(self) -> Result<T, E> {
        self
    }

    fn zip_result<U>(self, second: Result<U, E>) -> (r: Result<(T, U), E>) {
        match self {
            Err(e) => Err(e),
            Ok(first) => match second {
                Err(e) => Err(e),
                Ok(s) => Ok((first, s)),
            },
        }
    }
}

} // verus!
