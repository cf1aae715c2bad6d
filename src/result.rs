use vstd::prelude::*;

use core::fmt::Debug;
use core::ops::ControlFlow;

use crate::call_site::CallSite;
use crate::error::TracedError;

verus! {

/// The outcome of a fallible computation whose error carries a call-site trace.
///
/// Forwarding a failure to the caller goes through [`TracedResult::branch`],
/// which appends the forwarding site, and [`TracedResult::from_residual`],
/// which widens the error type without touching the trace:
///
/// ```ignore
/// let v = match step().branch(CallSite::new(file!(), line!(), column!())) {
///     ControlFlow::Continue(v) => v,
///     ControlFlow::Break(residual) => return TracedResult::from_residual(residual),
/// };
/// ```
#[derive(Debug)]
pub enum TracedResult<T, E> {
    Success(T),
    Failure(TracedError<E>),
}

impl<T, E> TracedResult<T, E> {
    /// The same outcome as a standard `Result`.
    pub open spec fn as_result(self) -> Result<T, TracedError<E>> {
        match self {
            TracedResult::Success(v) => Ok(v),
            TracedResult::Failure(e) => Err(e),
        }
    }

    /// The traced outcome holding what the standard `Result` holds.
    pub open spec fn of_result(r: Result<T, TracedError<E>>) -> TracedResult<T, E> {
        match r {
            Ok(v) => TracedResult::Success(v),
            Err(e) => TracedResult::Failure(e),
        }
    }

    /// Converts into a standard `Result`. The trace is frozen as it stands:
    /// no later step of this type can append to it.
    pub fn into_result(self) -> (r: Result<T, TracedError<E>>)
        ensures
            r == self.as_result(),
    {
        match self {
            TracedResult::Success(v) => Ok(v),
            TracedResult::Failure(e) => Err(e),
        }
    }

    /// Takes a standard `Result` whose error already carries a trace, losing nothing.
    pub fn from_result(r: Result<T, TracedError<E>>) -> (t: TracedResult<T, E>)
        ensures
            t == Self::of_result(r),
    {
        match r {
            Ok(v) => TracedResult::Success(v),
            Err(e) => TracedResult::Failure(e),
        }
    }

    /// Takes a standard `Result` with a bare error, which is wrapped with `at`
    /// as the site of construction.
    pub fn from_plain(r: Result<T, E>, at: CallSite) -> (t: TracedResult<T, E>)
        ensures
            match r {
                Ok(v) => t == TracedResult::<T, E>::Success(v),
                Err(e) => match t {
                    TracedResult::Failure(f) => f.error() == e && f.sites() == seq![at],
                    TracedResult::Success(_) => false,
                },
            },
    {
        match r {
            Ok(v) => TracedResult::Success(v),
            Err(e) => TracedResult::Failure(TracedError::new(e, at)),
        }
    }

    /// Converts into a standard `Result` with the bare error, dropping the trace.
    pub fn discard_call_stack(self) -> (r: Result<T, E>)
        ensures
            match self {
                TracedResult::Success(v) => r == Ok::<T, E>(v),
                TracedResult::Failure(e) => r == Err::<T, E>(e.error()),
            },
    {
        match self {
            TracedResult::Success(v) => Ok(v),
            TracedResult::Failure(e) => Err(e.into_inner()),
        }
    }

    pub fn is_ok(&self) -> (r: bool)
        ensures
            r == self is Success,
    {
        match self {
            TracedResult::Success(_) => true,
            TracedResult::Failure(_) => false,
        }
    }

    pub fn is_err(&self) -> (r: bool)
        ensures
            r == self is Failure,
    {
        match self {
            TracedResult::Success(_) => false,
            TracedResult::Failure(_) => true,
        }
    }
    /// Wraps a success value.
    pub fn from_output(output: T) -> (r: TracedResult<T, E>)
        ensures
            r == TracedResult::<T, E>::Success(output),
    {
        TracedResult::Success(output)
    }

    /// Transforms the success value; a failure passes through untouched,
    /// trace included. This is a local step and records no site.
    pub fn map<U, M: FnOnce(T) -> U>(self, map: M) -> (r: TracedResult<U, E>)
        requires
            self is Success ==> map.requires((self->Success_0,)),
        ensures
            match self {
                TracedResult::Success(v) => match r {
                    TracedResult::Success(u) => map.ensures((v,), u),
                    TracedResult::Failure(_) => false,
                },
                TracedResult::Failure(e) => r == TracedResult::<U, E>::Failure(e),
            },
    {
        match self {
            TracedResult::Success(v) => TracedResult::Success(map(v)),
            TracedResult::Failure(e) => TracedResult::Failure(e),
        }
    }

    /// Transforms the error value of a failure. The trace is left exactly as
    /// it was: no site is recorded for this call.
    pub fn map_err<F, M: FnOnce(E) -> F>(self, map: M) -> (r: TracedResult<T, F>)
        requires
            self is Failure ==> map.requires((self->Failure_0.error(),)),
        ensures
            match self {
                TracedResult::Success(v) => r == TracedResult::<T, F>::Success(v),
                TracedResult::Failure(e) => match r {
                    TracedResult::Failure(f) => map.ensures((e.error(),), f.error())
                        && f.sites() == e.sites(),
                    TracedResult::Success(_) => false,
                },
            },
    {
        match self {
            TracedResult::Success(v) => TracedResult::Success(v),
            TracedResult::Failure(e) => TracedResult::Failure(e.map_inner(map)),
        }
    }

    /// `map` of the success value, or `default` on a failure.
    pub fn map_or<U, M: FnOnce(T) -> U>(self, map: M, default: U) -> (r: U)
        requires
            self is Success ==> map.requires((self->Success_0,)),
        ensures
            match self {
                TracedResult::Success(v) => map.ensures((v,), r),
                TracedResult::Failure(_) => r == default,
            },
    {
        match self {
            TracedResult::Success(v) => map(v),
            TracedResult::Failure(_) => default,
        }
    }

    /// `map` of the success value, or `op` of the traced error.
    pub fn map_or_else<U, D: FnOnce(TracedError<E>) -> U, M: FnOnce(T) -> U>(
        self,
        op: D,
        map: M,
    ) -> (r: U)
        requires
            match self {
                TracedResult::Success(v) => map.requires((v,)),
                TracedResult::Failure(e) => op.requires((e,)),
            },
        ensures
            match self {
                TracedResult::Success(v) => map.ensures((v,), r),
                TracedResult::Failure(e) => op.ensures((e,), r),
            },
    {
        match self {
            TracedResult::Success(v) => map(v),
            TracedResult::Failure(e) => op(e),
        }
    }

    /// The success value, or `T::default()` on a failure.
    pub fn unwrap_or_default(self) -> (r: T) where T: Default
        ensures
            match self {
                TracedResult::Success(v) => r == v,
                TracedResult::Failure(_) => call_ensures(T::default, (), r),
            },
    {
        match self {
            TracedResult::Success(v) => v,
            TracedResult::Failure(_) => T::default(),
        }
    }

    /// The success value, or `default` on a failure.
    pub fn unwrap_or(self, default: T) -> (r: T)
        ensures
            match self {
                TracedResult::Success(v) => r == v,
                TracedResult::Failure(_) => r == default,
            },
    {
        match self {
            TracedResult::Success(v) => v,
            TracedResult::Failure(_) => default,
        }
    }

    /// The success value, or `op` of the traced error.
    pub fn unwrap_or_else<D: FnOnce(TracedError<E>) -> T>(self, op: D) -> (r: T)
        requires
            self is Failure ==> op.requires((self->Failure_0,)),
        ensures
            match self {
                TracedResult::Success(v) => r == v,
                TracedResult::Failure(e) => op.ensures((e,), r),
            },
    {
        match self {
            TracedResult::Success(v) => v,
            TracedResult::Failure(e) => op(e),
        }
    }

    /// The forward-or-continue step. A success hands its value on; a failure
    /// gets `at`, the site of this step, appended to its trace and is handed
    /// back to be returned to the caller (see `from_residual`).
    pub fn branch(self, at: CallSite) -> (r: ControlFlow<TracedError<E>, T>)
        ensures
            match self {
                TracedResult::Success(v) => r == ControlFlow::<TracedError<E>, T>::Continue(v),
                TracedResult::Failure(e) => match r {
                    ControlFlow::Break(f) => f.error() == e.error()
                        && f.sites() == e.sites().push(at),
                    ControlFlow::Continue(_) => false,
                },
            },
    {
        match self {
            TracedResult::Success(v) => ControlFlow::Continue(v),
            TracedResult::Failure(e) => ControlFlow::Break(e.record(at)),
        }
    }

    /// Turns what `branch` handed back into this function's own outcome,
    /// widening the error with `From`. The trace is carried over as it is:
    /// widening records no site.
    pub fn from_residual<R>(residual: TracedError<R>) -> (r: TracedResult<T, E>)
        where E: From<R>
        ensures
            match r {
                TracedResult::Failure(f) => call_ensures(E::from, (residual.error(),), f.error())
                    && f.sites() == residual.sites(),
                TracedResult::Success(_) => false,
            },
    {
        TracedResult::Failure(residual.widen())
    }
}

impl<T: Debug, E: Debug> TracedResult<T, E> {
    /// The success value; a failure is not allowed here.
    pub fn unwrap(self) -> (r: T)
        requires
            self is Success,
        ensures
            r == self->Success_0,
    {
        self.into_result().unwrap()
    }

    /// The traced error; a success is not allowed here.
    pub fn unwrap_err(self) -> (r: TracedError<E>)
        requires
            self is Failure,
        ensures
            r == self->Failure_0,
    {
        self.into_result().unwrap_err()
    }

    /// The success value; a failure is not allowed here. `msg` is the text
    /// the standard `Result::expect` would report.
    pub fn expect(self, msg: &'static str) -> (r: T)
        requires
            self is Success,
        ensures
            r == self->Success_0,
    {
        self.into_result().expect(msg)
    }

    /// The success value of an outcome known to be a success. The
    /// precondition stands where the standard method leaves the failure case
    /// undefined.
    pub fn unwrap_unchecked(self) -> (r: T)
        requires
            self is Success,
        ensures
            r == self->Success_0,
    {
        self.unwrap()
    }

    /// The traced error of an outcome known to be a failure.
    pub fn unwrap_err_unchecked(self) -> (r: TracedError<E>)
        requires
            self is Failure,
        ensures
            r == self->Failure_0,
    {
        self.unwrap_err()
    }
}

impl<T, E> From<TracedResult<T, E>> for Result<T, TracedError<E>> {
    fn from(value: TracedResult<T, E>) -> (r: Result<T, TracedError<E>>) {
        value.into_result()
    }
}

impl<T, E> vstd::std_specs::convert::FromSpecImpl<TracedResult<T, E>> for Result<T, TracedError<E>> {
    open spec fn obeys_from_spec() -> bool {
        true
    }

    open spec fn from_spec(v: TracedResult<T, E>) -> Result<T, TracedError<E>> {
        v.as_result()
    }
}

impl<T, E> From<Result<T, TracedError<E>>> for TracedResult<T, E> {
    fn from(value: Result<T, TracedError<E>>) -> (r: TracedResult<T, E>) {
        TracedResult::from_result(value)
    }
}

impl<T, E> vstd::std_specs::convert::FromSpecImpl<Result<T, TracedError<E>>> for TracedResult<T, E> {
    open spec fn obeys_from_spec() -> bool {
        true
    }

    open spec fn from_spec(v: Result<T, TracedError<E>>) -> TracedResult<T, E> {
        TracedResult::of_result(v)
    }
}

} // verus!
