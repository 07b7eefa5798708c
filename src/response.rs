use vstd::prelude::*;

verus! {

/// Outcome of a portal call, the only shape that crosses the remote boundary.
#[derive(Debug, Clone, PartialEq, Eq)]
pub enum Response<T> {
    /// The call succeeded with the given results.
    Success(T),
    /// The user cancelled the interaction.
    Cancelled,
    /// The call ended in some other way.
    Other,
}

impl<T> Response<T> {
    pub fn ok(value: T) -> (r: Self)
        ensures
            r == Response::Success(value),
    {
        Response::Success(value)
    }

    pub fn cancelled() -> (r: Self)
        ensures
            r == Response::<T>::Cancelled,
    {
        Response::Cancelled
    }

    pub fn other() -> (r: Self)
        ensures
            r == Response::<T>::Other,
    {
        Response::Other
    }

    pub fn is_ok(&self) -> (r: bool)
        ensures
            r == (self is Success),
    {
        match self {
            Response::Success(_) => true,
            _ => false,
        }
    }

    /// The code that the wire protocol uses for this outcome: 0 for success,
    /// 1 for a cancellation, 2 for anything else.
    pub fn code(&self) -> (r: u32)
        ensures
            r == response_code(*self),
    {
        match self {
            Response::Success(_) => 0,
            Response::Cancelled => 1,
            Response::Other => 2,
        }
    }
}

pub open spec fn response_code<T>(r: Response<T>) -> u32 {
    match r {
        Response::Success(_) => 0,
        Response::Cancelled => 1,
        Response::Other => 2,
    }
}

} // verus!
