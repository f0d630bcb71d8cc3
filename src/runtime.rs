//! What the synthesized methods return, and how they complete.
use vstd::prelude::*;
use tokio::task::JoinError;

verus! {

/// A failed join on a blocking worker: the task panicked or was cancelled.
#[verifier::external_type_specification]
#[verifier::external_body]
pub struct ExJoinError(JoinError);

/// The error of a synthesized method whose blocking source method returns a
/// `Result`.
#[derive(Debug)]
pub enum AsyncWrapError<E> {
    /// The blocking operation returned this error.
    Inner(E),
    /// The worker task panicked or was cancelled.
    TaskFailed(JoinError),
}

impl<E> From<JoinError> for AsyncWrapError<E> {
    fn from(err: JoinError) -> (r: Self) {
        AsyncWrapError::TaskFailed(err)
    }
}

impl<E> vstd::std_specs::convert::FromSpecImpl<JoinError> for AsyncWrapError<E> {
    open spec fn obeys_from_spec() -> bool {
        true
    }

    open spec fn from_spec(err: JoinError) -> Self {
        AsyncWrapError::TaskFailed(err)
    }
}

/// Names the success and error types of a result type.
pub trait ResultType {
    type Ok;
    type Err;
}

impl<T, E> ResultType for Result<T, E> {
    type Ok = T;
    type Err = E;
}

/// What a synthesized method returns when its source method returns `R`, a
/// `Result`.
pub type AsyncWrapResult<R> = Result<<R as ResultType>::Ok, AsyncWrapError<<R as ResultType>::Err>>;

/// The outcome of a synthesized method whose source method returns a `Result`,
/// from the outcome of the join: a failed join becomes `TaskFailed`, an inner
/// error becomes `Inner`, and a success value is handed on.
pub fn complete_result<S, F>(joined: Result<Result<S, F>, JoinError>) -> (r: Result<S, AsyncWrapError<F>>)
    ensures
        (match joined {
            Err(e) => r == Err::<S, AsyncWrapError<F>>(AsyncWrapError::TaskFailed(e)),
            Ok(Err(f)) => r == Err::<S, AsyncWrapError<F>>(AsyncWrapError::Inner(f)),
            Ok(Ok(s)) => r == Ok::<S, AsyncWrapError<F>>(s),
        }),
{
    match joined {
        Err(e) => Err(AsyncWrapError::from(e)),
        Ok(Err(f)) => Err(AsyncWrapError::Inner(f)),
        Ok(Ok(s)) => Ok(s),
    }
}

/// The outcome of a synthesized method whose source method returns a plain value:
/// the outcome of the join itself, with no remapping.
pub fn complete_plain<T>(joined: Result<T, JoinError>) -> (r: Result<T, JoinError>)
    ensures
        r == joined,
{
    joined
}

} // verus!
