use vstd::prelude::*;

verus! {

/// The state of an asynchronous operation.
#[derive(Clone, Debug, PartialEq)]
pub enum AsyncState<T, E> {
    /// The operation has not started yet
    Idle,
    /// The operation is in progress
    Loading,
    /// The operation completed successfully with a result
    Success(T),
    /// The operation failed with an error
    Error(E),
}

impl<T, E> Default for AsyncState<T, E> {
    fn default() -> (s: Self)
        ensures
            s is Idle,
    {
        AsyncState::Idle
    }
}

impl<T, E> AsyncState<T, E> {
    /// Returns true if the state is Idle
    pub fn is_idle(&self) -> (b: bool)
        ensures
            b == (*self is Idle),
    {
        matches!(self, AsyncState::Idle)
    }

    /// Returns true if the state is Loading
    pub fn is_loading(&self) -> (b: bool)
        ensures
            b == (*self is Loading),
    {
        matches!(self, AsyncState::Loading)
    }

    /// Returns true if the state is Success
    pub fn is_success(&self) -> (b: bool)
        ensures
            b == (*self is Success),
    {
        matches!(self, AsyncState::Success(_))
    }

    /// Returns true if the state is Error
    pub fn is_error(&self) -> (b: bool)
        ensures
            b == (*self is Error),
    {
        matches!(self, AsyncState::Error(_))
    }

    /// Returns the success value if present
    pub fn value(&self) -> (v: Option<&T>)
        ensures
            match self {
                AsyncState::Success(x) => v == Some(x),
                _ => v is None,
            },
    {
        match self {
            AsyncState::Success(value) => Some(value),
            _ => None,
        }
    }

    /// Returns the error value if present
    pub fn error(&self) -> (e: Option<&E>)
        ensures
            match self {
                AsyncState::Error(x) => e == Some(x),
                _ => e is None,
            },
    {
        match self {
            AsyncState::Error(err) => Some(err),
            _ => None,
        }
    }

    /// The state once the operation finished with `result`.
    pub fn finished(result: Result<T, E>) -> (s: Self)
        ensures
            match result {
                Ok(v) => s == AsyncState::<T, E>::Success(v),
                Err(e) => s == AsyncState::<T, E>::Error(e),
            },
    {
        match result {
            Ok(data) => AsyncState::Success(data),
            Err(error) => AsyncState::Error(error),
        }
    }
}

/// Exactly one of the four state tests holds for any state.
pub proof fn lemma_async_state_exclusive<T, E>(s: AsyncState<T, E>)
    ensures
        (s is Idle) as int + (s is Loading) as int + (s is Success) as int + (s is Error) as int == 1,
{
}

} // verus!
