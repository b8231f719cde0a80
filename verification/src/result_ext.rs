//! Functional helpers around `Result`.

use vstd::prelude::*;

verus! {

/// A type that represents either success (`Ok`) or failure (`Err`).
pub type BrikResult<T, E> = Result<T, E>;

/// Convenience function to create an `Ok` result.
pub fn ok<T, E>(value: T) -> (r: BrikResult<T, E>)
    ensures
        r == BrikResult::<T, E>::Ok(value),
{
    Ok(value)
}

/// Convenience function to create an `Err` result.
pub fn err<T, E>(error: E) -> (r: BrikResult<T, E>)
    ensures
        r == BrikResult::<T, E>::Err(error),
{
    Err(error)
}

/// Extension trait for `Result` with a few combinators. The spec method
/// `spec_result` gives the `Result` value that the combinators act on; for
/// `Result` itself it is the identity.
pub trait ResultExt<T, E>: Sized {
    spec fn spec_result(self) -> BrikResult<T, E>;

    /// Maps an `Ok` value through `f`, leaving an `Err` untouched.
    fn map_ok<U, F: FnOnce(T) -> U>(self, f: F) -> (r: BrikResult<U, E>)
        requires
            self.spec_result() is Ok ==> call_requires(f, (self.spec_result()->Ok_0,)),
        ensures
            self.spec_result() is Ok ==> r is Ok && call_ensures(
                f,
                (self.spec_result()->Ok_0,),
                r->Ok_0,
            ),
            self.spec_result() is Err ==> r == BrikResult::<U, E>::Err(self.spec_result()->Err_0),
    ;

    /// Maps an `Err` value through `f`, leaving an `Ok` untouched.
    fn map_err_to<F, G: FnOnce(E) -> F>(self, f: G) -> (r: BrikResult<T, F>)
        requires
            self.spec_result() is Err ==> call_requires(f, (self.spec_result()->Err_0,)),
        ensures
            self.spec_result() is Err ==> r is Err && call_ensures(
                f,
                (self.spec_result()->Err_0,),
                r->Err_0,
            ),
            self.spec_result() is Ok ==> r == BrikResult::<T, F>::Ok(self.spec_result()->Ok_0),
    ;

    /// Returns the contained `Ok` value or computes one from the error.
    fn unwrap_or_else<F: FnOnce(E) -> T>(self, f: F) -> (r: T)
        requires
            self.spec_result() is Err ==> call_requires(f, (self.spec_result()->Err_0,)),
        ensures
            self.spec_result() is Ok ==> r == self.spec_result()->Ok_0,
            self.spec_result() is Err ==> call_ensures(f, (self.spec_result()->Err_0,), r),
    ;

    /// Pairs two `Ok` values, or returns the first error, `self`'s first.
    fn and_then_combine<U, F: FnOnce() -> BrikResult<(T, U), E>>(
        self,
        other: BrikResult<U, E>,
        f: F,
    ) -> (r: BrikResult<(T, U), E>) where E: Clone
        ensures
            self.spec_result() is Ok && other is Ok ==> r == BrikResult::<(T, U), E>::Ok(
                (self.spec_result()->Ok_0, other->Ok_0),
            ),
            self.spec_result() is Err ==> r == BrikResult::<(T, U), E>::Err(
                self.spec_result()->Err_0,
            ),
            self.spec_result() is Ok && other is Err ==> r == BrikResult::<(T, U), E>::Err(
                other->Err_0,
            ),
    ;
}

impl<T, E> ResultExt<T, E> for BrikResult<T, E> {
    open spec fn spec_result(self) -> BrikResult<T, E> {
        self
    }

    fn map_ok<U, F: FnOnce(T) -> U>(self, f: F) -> (r: BrikResult<U, E>) {
        self.map(f)
    }

    fn map_err_to<F, G: FnOnce(E) -> F>(self, f: G) -> (r: BrikResult<T, F>) {
        self.map_err(f)
    }

    fn unwrap_or_else<F: FnOnce(E) -> T>(self, f: F) -> (r: T) {
        match self {
            Ok(value) => value,
            Err(error) => f(error),
        }
    }

    fn and_then_combine<U, F: FnOnce() -> BrikResult<(T, U), E>>(
        self,
        other: BrikResult<U, E>,
        _f: F,
    ) -> (r: BrikResult<(T, U), E>) where E: Clone {
        match (self, other) {
            (Ok(a), Ok(b)) => Ok((a, b)),
            (Err(e), _) => Err(e),
            (_, Err(e)) => Err(e),
        }
    }
}

} // verus!
