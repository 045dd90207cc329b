//! Kapacitor user-defined functions: the wire format of the UDF stream, the
//! dispatch of requests to a handler, and the lifecycle decisions of the
//! agent and the servers.
use vstd::prelude::*;

pub mod agent;
pub mod io;
pub mod proto;
pub mod socket_server;
pub mod stdio_server;
pub mod traits;
pub mod varint;

verus! {

} // verus!
