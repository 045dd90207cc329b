//! The server that runs an agent over standard input and output.
use vstd::prelude::*;
use crate::io::{IoError, IoErrorKind};

verus! {

/// A UDF server: made from a handler, it processes requests until the
/// stream ends or fails.
pub trait Server<H> {
    /// Makes a server that passes requests to `handler`.
    fn new(handler: H) -> Result<Self, IoError> where Self: Sized;

    /// Processes requests until the stream ends or fails.
    fn run(&mut self) -> Result<(), IoError>;
}

/// What `run` returns for the result of waiting on the agent: a failure
/// becomes an error of kind `Other` with the same text.
pub fn run_result(waited: Result<(), String>) -> (r: Result<(), IoError>)
    ensures
        match waited {
            Ok(()) => r is Ok,
            Err(m) => r matches Err(e) && e.kind == IoErrorKind::Other && e.message@ == m@,
        },
{
    match waited {
        Ok(()) => Ok(()),
        Err(m) => Err(IoError { kind: IoErrorKind::Other, message: m }),
    }
}

} // verus!
