//! The server interface that users of the library implement.
use vstd::prelude::*;
use crate::io::IoError;

verus! {

/// A UDF server: made from a handler, it processes requests until the
/// stream ends or fails.
pub trait Server<H> {
    /// Makes a server that passes requests to `handler`.
    fn new(handler: H) -> Result<Self, IoError> where Self: Sized;

    /// Processes requests until the stream ends or fails.
    fn run(&mut self) -> Result<(), IoError>;
}

} // verus!
