//! Errors of the operations on a time stamp.
use crate::moment::Moment;
use vstd::prelude::*;

verus! {

/// A refused operation: a message for people and a kind for programs.
#[derive(Debug)]
pub struct StampOperationError<T> {
    pub error_message: &'static str,
    pub error_kind: T,
}

impl<T> StampOperationError<T> {
    pub fn get_error_msg(&self) -> (r: &'static str)
        ensures
            r == self.error_message,
    {
        self.error_message
    }

    pub fn new(error_message: &'static str, error_kind: T) -> (r: Self)
        ensures
            r.error_message == error_message,
            r.error_kind == error_kind,
    {
        StampOperationError { error_message, error_kind }
    }
}

/// Why a time stamp could not be paused, with the moment that blocked it.
#[derive(Clone, Copy, Debug, PartialEq, Eq, Structural)]
pub enum StopError {
    /// It was finished at this moment.
    IsFinishedAlready(Moment),
    /// It has been paused since this moment.
    IsStoppedAlready(Moment),
}

/// Why a time stamp could not be resumed.
#[derive(Clone, Copy, Debug, PartialEq, Eq, Structural)]
pub enum ResumeError {
    /// It was finished at this moment.
    IsFinishedAlready(Moment),
    /// It is running: there is no pause to end.
    IsRunningAlready,
}

} // verus!
