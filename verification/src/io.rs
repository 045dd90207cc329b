//! Message framing on the UDF stream: every encoded message is preceded by
//! its length in bytes, written as a varint.
use vstd::prelude::*;
use crate::varint::{
    decode_spec, decode_uvarint, encode_spec, encode_uvarint, lemma_decode_encode, VarintError,
};

verus! {

/// The kinds of I/O failure; the agent and the servers decide on
/// `UnexpectedEof` (the stream ended in the middle of a message),
/// `ConnectionAborted` (the listener was closed while accepting) and
/// `InvalidData` (the bytes on the stream are not a valid message), and
/// carry the others through.
#[derive(Debug, Clone, Copy, PartialEq, Eq, Structural)]
pub enum IoErrorKind {
    NotFound,
    PermissionDenied,
    ConnectionRefused,
    ConnectionReset,
    ConnectionAborted,
    NotConnected,
    AddrInUse,
    AddrNotAvailable,
    BrokenPipe,
    AlreadyExists,
    WouldBlock,
    InvalidInput,
    InvalidData,
    TimedOut,
    WriteZero,
    Interrupted,
    Unsupported,
    UnexpectedEof,
    OutOfMemory,
    /// Any other failure.
    Other,
}

/// An I/O failure: its kind and the text that describes it.
#[derive(Debug, Clone)]
pub struct IoError {
    pub kind: IoErrorKind,
    pub message: String,
}

impl IoError {
    pub fn new(kind: IoErrorKind, message: String) -> (e: IoError)
        ensures
            e.kind == kind,
            e.message@ == message@,
    {
        IoError { kind, message }
    }
}

impl VarintError {
    /// The failure that reading a length prefix reports: a stream that ends
    /// early is an unexpected end, a malformed prefix is invalid data.
    pub fn to_io_error(&self) -> (e: IoError)
        ensures
            e.kind == (if *self == VarintError::Incomplete {
                IoErrorKind::UnexpectedEof
            } else {
                IoErrorKind::InvalidData
            }),
            e.message@ == self.message_spec(),
    {
        let kind = match self {
            VarintError::Incomplete => IoErrorKind::UnexpectedEof,
            _ => IoErrorKind::InvalidData,
        };
        IoError { kind, message: self.message() }
    }
}

/// The bytes that a writer puts on the stream for one encoded message.
pub open spec fn frame_spec(payload: Seq<u8>) -> Seq<u8> {
    encode_spec(payload.len()) + payload
}

/// What a reader makes of the start of a stream: where the encoded message
/// starts and ends, or why it cannot be read.  `Incomplete` means that the
/// stream ends before the length prefix or before the message does.
pub open spec fn unframe_spec(s: Seq<u8>) -> Result<(nat, nat), VarintError> {
    match decode_spec(s) {
        Ok((size, n)) => if n + size <= s.len() {
            Ok((n, n + size))
        } else {
            Err(VarintError::Incomplete)
        },
        Err(e) => Err(e),
    }
}

/// Frames an encoded message: its length as a varint, then its bytes.
pub fn encode_frame(payload: &[u8]) -> (frame: Vec<u8>)
    ensures
        frame@ == frame_spec(payload@),
{
    let len = payload.len() as u64;
    let mut frame = encode_uvarint(len);
    let ghost header = frame@;
    let mut i: usize = 0;
    while i < payload.len()
        invariant
            i <= payload.len(),
            frame@ == header + payload@.take(i as int),
        decreases payload.len() - i,
    {
        frame.push(payload[i]);
        assert(payload@.take(i + 1 as int) =~= payload@.take(i as int).push(payload@[i as int]));
        i = i + 1;
    }
    assert(payload@.take(i as int) =~= payload@);
    frame
}

/// Finds the encoded message at the start of `bytes`: the range of its bytes.
pub fn decode_frame(bytes: &[u8]) -> (res: Result<(usize, usize), VarintError>)
    ensures
        match unframe_spec(bytes@) {
            Ok((start, end)) => res == Ok::<(usize, usize), VarintError>(
                (start as usize, end as usize),
            ) && start <= end <= bytes@.len(),
            Err(e) => res == Err::<(usize, usize), VarintError>(e),
        },
        res matches Ok((start, end)) ==> (decode_spec(bytes@) matches Ok((size, n)) && start == n
            && end == n + size && end <= bytes@.len()),
        decode_spec(bytes@) matches Ok((size, n)) ==> (n + size > bytes@.len() ==> res
            == Err::<(usize, usize), VarintError>(VarintError::Incomplete)),
{
    match decode_uvarint(bytes) {
        Err(e) => Err(e),
        Ok((size, n)) => {
            let available = bytes.len() - n;
            if size <= available as u64 {
                Ok((n, n + size as usize))
            } else {
                Err(VarintError::Incomplete)
            }
        },
    }
}

/// Law: a reader finds a message only when all of it is there, and then
/// exactly the bytes that its length prefix announces: the message starts
/// right after the prefix and is as long as the prefix says; when fewer bytes
/// follow the prefix than it announces, the message is incomplete.  A
/// malformed prefix is reported as it is.
pub proof fn lemma_unframe_spans_announced_length(s: Seq<u8>)
    ensures
        unframe_spec(s) matches Ok((start, end)) ==> (decode_spec(s) matches Ok((size, n))
            && start == n && end == n + size && end <= s.len()),
        decode_spec(s) matches Ok((size, n)) ==> (n + size > s.len() ==> unframe_spec(s)
            == Err::<(nat, nat), VarintError>(VarintError::Incomplete)),
        decode_spec(s) matches Err(e) ==> unframe_spec(s) == Err::<(nat, nat), VarintError>(e),
{
}

/// Law: a reader finds exactly the message that a writer framed, whatever
/// follows it on the stream.
pub proof fn lemma_unframe_frame(payload: Seq<u8>, rest: Seq<u8>)
    requires
        payload.len() <= u64::MAX,
    ensures
        ({
            let s = frame_spec(payload) + rest;
            let h = encode_spec(payload.len()).len();
            &&& unframe_spec(s) == Ok::<(nat, nat), VarintError>((h, h + payload.len()))
            &&& s.subrange(h as int, (h + payload.len()) as int) == payload
        }),
{
    let e = encode_spec(payload.len());
    let s = frame_spec(payload) + rest;
    assert(s =~= e + (payload + rest));
    lemma_decode_encode(payload.len() as u64, payload + rest);
    assert(s.subrange(e.len() as int, (e.len() + payload.len()) as int) =~= payload);
}

} // verus!
