//! The envelope of the Kapacitor UDF protocol.
//!
//! A request from Kapacitor and a response from the UDF each carry one of a
//! fixed set of messages.  The agent's decisions depend on which message
//! arrived and on the time of a keepalive; every other message is handed to
//! the handler as it is.  The message types themselves are supplied through
//! [`Messages`], so that the envelope and the decisions over it stand apart
//! from the encoding of the messages.
use vstd::prelude::*;

verus! {

/// The message types that travel inside the envelope.
pub trait Messages {
    /// What the UDF says about itself.
    type InfoResponse;
    /// The options that Kapacitor configures the UDF with.
    type InitRequest;
    /// Whether the options were accepted.
    type InitResponse;
    /// The saved state of the UDF.
    type SnapshotResponse;
    /// A saved state to restore.
    type RestoreRequest;
    /// Whether the restore succeeded.
    type RestoreResponse;
    /// The start of a batch.
    type BeginBatch;
    /// One data point.
    type Point;
    /// The end of a batch.
    type EndBatch;
}

/// A keepalive from Kapacitor, stamped with its time.
#[derive(Debug, Clone, Copy, PartialEq, Eq, Structural)]
pub struct KeepaliveRequest {
    pub time: i64,
}

/// The answer to a keepalive: the same time.
#[derive(Debug, Clone, Copy, PartialEq, Eq, Structural)]
pub struct KeepaliveResponse {
    pub time: i64,
}

/// An error that the UDF reports to Kapacitor.
pub struct ErrorResponse {
    pub error: String,
}

/// The messages that Kapacitor sends.
pub enum RequestMessage<M: Messages> {
    Info,
    Init(M::InitRequest),
    Keepalive(KeepaliveRequest),
    Snapshot,
    Restore(M::RestoreRequest),
    Begin(M::BeginBatch),
    Point(M::Point),
    End(M::EndBatch),
}

/// A request from Kapacitor; an empty envelope carries no message.
pub struct Request<M: Messages> {
    pub message: Option<RequestMessage<M>>,
}

/// The messages that the UDF sends.
pub enum ResponseMessage<M: Messages> {
    Info(M::InfoResponse),
    Init(M::InitResponse),
    Keepalive(KeepaliveResponse),
    Snapshot(M::SnapshotResponse),
    Restore(M::RestoreResponse),
    Error(ErrorResponse),
    Begin(M::BeginBatch),
    Point(M::Point),
    End(M::EndBatch),
}

/// A response to Kapacitor.
pub struct Response<M: Messages> {
    pub message: Option<ResponseMessage<M>>,
}

} // verus!
