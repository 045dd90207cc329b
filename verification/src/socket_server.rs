//! The decisions of the Unix-socket server: whether it serves, how it
//! stops, which signals stop it, and how its accept loop reacts to what
//! accepting gives.
use vstd::prelude::*;
use crate::io::{IoError, IoErrorKind};

verus! {

/// How many failures the accept loop can report before it waits.
pub const ACCEPT_ERROR_CHANNEL_CAPACITY: usize = 1;

/// What the signal task does with a signal.
#[derive(Debug, Clone, Copy, PartialEq, Eq, Structural)]
pub enum SignalAction {
    /// Stop the server and end the signal task.
    Stop,
    /// Wait for the next signal.
    Ignore,
}

/// Decides what the signal task does with a signal it received: any of the
/// signals that the server was asked to watch stops it.
pub fn signal_action(signal: i32, watched: &[i32]) -> (a: SignalAction)
    ensures
        a == (if watched@.contains(signal) {
            SignalAction::Stop
        } else {
            SignalAction::Ignore
        }),
{
    let mut i: usize = 0;
    while i < watched.len()
        invariant
            i <= watched.len(),
            forall|j: int| 0 <= j < i ==> watched@[j] != signal,
        decreases watched.len() - i,
    {
        if watched[i] == signal {
            assert(watched@[i as int] == signal);
            return SignalAction::Stop;
        }
        i = i + 1;
    }
    SignalAction::Ignore
}

/// What the accept loop does after one attempt to accept a connection.
pub enum AcceptStep {
    /// Hand the connection to the accepter and accept the next one.
    Accepted,
    /// The server was stopped meanwhile: drop the connection and end the loop.
    Stopped,
    /// The listener was closed: end the loop quietly.
    Closed,
    /// Report this failure to the server and end the loop.
    Failed(IoError),
}

/// Decides what the accept loop does with the outcome of accepting, given
/// whether the server has been stopped by then: a connection reaches the
/// accepter only while the server is not stopped.
pub fn accept_step(stopped: bool, accepted: Result<(), IoError>) -> (s: AcceptStep)
    ensures
        match accepted {
            Ok(()) => if stopped {
                s is Stopped
            } else {
                s is Accepted
            },
            Err(e) => if e.kind == IoErrorKind::ConnectionAborted {
                s is Closed
            } else {
                s == AcceptStep::Failed(e)
            },
        },
        s is Accepted ==> !stopped,
{
    match accepted {
        Ok(()) => if stopped {
            AcceptStep::Stopped
        } else {
            AcceptStep::Accepted
        },
        Err(e) => if e.kind == IoErrorKind::ConnectionAborted {
            AcceptStep::Closed
        } else {
            AcceptStep::Failed(e)
        },
    }
}

/// What `serve` returns once the accept loop has reported: success when the
/// server was stopped in the meantime, else what the loop reported.
pub fn serve_result(stopped: bool, reported: Result<(), IoError>) -> (r: Result<(), IoError>)
    ensures
        stopped ==> r is Ok,
        !stopped ==> r == reported,
{
    if stopped {
        Ok(())
    } else {
        reported
    }
}

/// The stop state of a socket server.
#[derive(Debug)]
pub struct SocketServer {
    stopped: bool,
}

impl View for SocketServer {
    /// Whether the server has been stopped.
    type V = bool;

    closed spec fn view(&self) -> bool {
        self.stopped
    }
}

/// Whether `serve` (and `stop_on_signals`) go on for a server in this state:
/// only one that has not been stopped does.
pub open spec fn serves(stopped: bool) -> bool {
    !stopped
}

/// What `stop` does to a server in this state: it ends up stopped, and the
/// call did the stopping when it was not stopped before.
pub open spec fn stop_spec(stopped: bool) -> (bool, bool) {
    (true, !stopped)
}

impl SocketServer {
    /// A server that has not been stopped.
    pub fn new() -> (s: Self)
        ensures
            s@ == false,
    {
        SocketServer { stopped: false }
    }

    /// Whether the server has been stopped.
    pub fn is_stopped(&self) -> (b: bool)
        ensures
            b == self@,
    {
        self.stopped
    }

    /// Whether `serve` runs the accept loop; a stopped server returns at once
    /// without error.
    pub fn serve(&self) -> (run: bool)
        ensures
            run == serves(self@),
    {
        !self.stopped
    }

    /// Whether `stop_on_signals` sets up the signal task; for a stopped server
    /// it does nothing and succeeds.
    pub fn stop_on_signals(&self) -> (set_up: bool)
        ensures
            set_up == serves(self@),
    {
        !self.stopped
    }

    /// Stops the server.  Returns whether this call stopped it; a server that
    /// was already stopped stays so, and the call does nothing more.
    pub fn stop(&mut self) -> (stopped_now: bool)
        ensures
            (final(self)@, stopped_now) == stop_spec(old(self)@),
    {
        let was = self.stopped;
        self.stopped = true;
        !was
    }
}

/// Law: stopping is idempotent: a second stop finds the server stopped and
/// does nothing, and a stopped server neither serves nor sets up signal
/// handling again.
pub proof fn lemma_stop_idempotent(stopped: bool)
    ensures
        stop_spec(stop_spec(stopped).0) == (true, false),
        !serves(stop_spec(stopped).0),
{
}

} // verus!
