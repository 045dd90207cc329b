//! The agent between Kapacitor and a UDF handler: which handler method a
//! request calls and what goes back, how the read and write loops react to
//! what happens on the streams, the lifecycle of the agent, and how the
//! errors of its loops are reported when it is waited on.
use vstd::prelude::*;
use crate::io::{IoError, IoErrorKind};
use crate::proto::{
    ErrorResponse, KeepaliveResponse, Messages, Request, RequestMessage, Response, ResponseMessage,
};

verus! {

/// How many responses wait to be written before senders wait.
pub const RESPONSE_CHANNEL_CAPACITY: usize = 100;

/// How many errors each loop of a started agent can report.
pub const ERROR_CHANNEL_CAPACITY: usize = 1;

/// What a handler call gave back, by the request that caused it.
pub enum HandlerReply<M: Messages> {
    Info(Result<M::InfoResponse, IoError>),
    Init(Result<M::InitResponse, IoError>),
    Snapshot(Result<M::SnapshotResponse, IoError>),
    Restore(Result<M::RestoreResponse, IoError>),
    /// The reply of `begin_batch`, `point` or `end_batch`, which send nothing back.
    Accepted(Result<(), IoError>),
}

/// The response that a handler reply turns into: a successful info, init,
/// snapshot or restore reply is sent back in a response of its own kind; a
/// batch or point reply sends nothing; a failed reply is the error.
pub open spec fn response_of<M: Messages>(reply: HandlerReply<M>) -> Result<Option<Response<M>>, IoError> {
    match reply {
        HandlerReply::Info(Ok(x)) => Ok(Some(Response { message: Some(ResponseMessage::Info(x)) })),
        HandlerReply::Init(Ok(x)) => Ok(Some(Response { message: Some(ResponseMessage::Init(x)) })),
        HandlerReply::Snapshot(Ok(x)) => Ok(
            Some(Response { message: Some(ResponseMessage::Snapshot(x)) }),
        ),
        HandlerReply::Restore(Ok(x)) => Ok(
            Some(Response { message: Some(ResponseMessage::Restore(x)) }),
        ),
        HandlerReply::Accepted(Ok(())) => Ok(None),
        HandlerReply::Info(Err(e)) => Err(e),
        HandlerReply::Init(Err(e)) => Err(e),
        HandlerReply::Snapshot(Err(e)) => Err(e),
        HandlerReply::Restore(Err(e)) => Err(e),
        HandlerReply::Accepted(Err(e)) => Err(e),
    }
}

/// Turns a handler reply into the response to send back, as [`response_of`] says.
pub fn reply_to_response<M: Messages>(reply: HandlerReply<M>) -> (res: Result<
    Option<Response<M>>,
    IoError,
>)
    ensures
        res == response_of(reply),
{
    match reply {
        HandlerReply::Info(Ok(x)) => Ok(Some(Response { message: Some(ResponseMessage::Info(x)) })),
        HandlerReply::Init(Ok(x)) => Ok(Some(Response { message: Some(ResponseMessage::Init(x)) })),
        HandlerReply::Snapshot(Ok(x)) => Ok(
            Some(Response { message: Some(ResponseMessage::Snapshot(x)) }),
        ),
        HandlerReply::Restore(Ok(x)) => Ok(
            Some(Response { message: Some(ResponseMessage::Restore(x)) }),
        ),
        HandlerReply::Accepted(Ok(())) => Ok(None),
        HandlerReply::Info(Err(e)) => Err(e),
        HandlerReply::Init(Err(e)) => Err(e),
        HandlerReply::Snapshot(Err(e)) => Err(e),
        HandlerReply::Restore(Err(e)) => Err(e),
        HandlerReply::Accepted(Err(e)) => Err(e),
    }
}

/// A call of a handler method, with the message that it takes.
pub enum HandlerCall<'a, M: Messages> {
    Info,
    Init(&'a M::InitRequest),
    Snapshot,
    Restore(&'a M::RestoreRequest),
    BeginBatch(&'a M::BeginBatch),
    Point(&'a M::Point),
    EndBatch(&'a M::EndBatch),
}

/// What the agent does with a request.
pub enum RequestPlan<'a, M: Messages> {
    /// Call a handler method and send back what its reply turns into.
    Call(HandlerCall<'a, M>),
    /// Send back this response without calling the handler.
    Reply(Response<M>),
    /// Do nothing.
    Ignore,
}

/// What the agent does with a request: each message calls the handler
/// method of its name with its content; a keepalive is answered with the
/// same time and calls nothing; an empty request is ignored.
pub open spec fn plan_spec<'a, M: Messages>(request: &'a Request<M>) -> RequestPlan<'a, M> {
    match request.message {
        None => RequestPlan::Ignore,
        Some(RequestMessage::Keepalive(k)) => RequestPlan::Reply(
            Response {
                message: Some(ResponseMessage::Keepalive(KeepaliveResponse { time: k.time })),
            },
        ),
        Some(RequestMessage::Info) => RequestPlan::Call(HandlerCall::Info),
        Some(RequestMessage::Init(x)) => RequestPlan::Call(HandlerCall::Init(&x)),
        Some(RequestMessage::Snapshot) => RequestPlan::Call(HandlerCall::Snapshot),
        Some(RequestMessage::Restore(x)) => RequestPlan::Call(HandlerCall::Restore(&x)),
        Some(RequestMessage::Begin(x)) => RequestPlan::Call(HandlerCall::BeginBatch(&x)),
        Some(RequestMessage::Point(x)) => RequestPlan::Call(HandlerCall::Point(&x)),
        Some(RequestMessage::End(x)) => RequestPlan::Call(HandlerCall::EndBatch(&x)),
    }
}

/// Decides what the agent does with a request (the dispatch of processing a
/// request), as [`plan_spec`] says; the reply of a planned call becomes the
/// response through [`answer_call`].
pub fn plan_request<'a, M: Messages>(request: &'a Request<M>) -> (p: RequestPlan<'a, M>)
    ensures
        p == plan_spec(request),
{
    match &request.message {
        None => RequestPlan::Ignore,
        Some(RequestMessage::Keepalive(k)) => RequestPlan::Reply(
            Response {
                message: Some(ResponseMessage::Keepalive(KeepaliveResponse { time: k.time })),
            },
        ),
        Some(RequestMessage::Info) => RequestPlan::Call(HandlerCall::Info),
        Some(RequestMessage::Init(x)) => RequestPlan::Call(HandlerCall::Init(x)),
        Some(RequestMessage::Snapshot) => RequestPlan::Call(HandlerCall::Snapshot),
        Some(RequestMessage::Restore(x)) => RequestPlan::Call(HandlerCall::Restore(x)),
        Some(RequestMessage::Begin(x)) => RequestPlan::Call(HandlerCall::BeginBatch(x)),
        Some(RequestMessage::Point(x)) => RequestPlan::Call(HandlerCall::Point(x)),
        Some(RequestMessage::End(x)) => RequestPlan::Call(HandlerCall::EndBatch(x)),
    }
}

/// Whether a reply is of the kind that answers a call: info, init, snapshot
/// and restore are answered by replies of their own kind, the batch and
/// point calls by a reply that carries nothing.
pub open spec fn reply_answers<'a, M: Messages>(call: HandlerCall<'a, M>, reply: HandlerReply<M>) -> bool {
    match call {
        HandlerCall::Info => reply is Info,
        HandlerCall::Init(_) => reply is Init,
        HandlerCall::Snapshot => reply is Snapshot,
        HandlerCall::Restore(_) => reply is Restore,
        _ => reply is Accepted,
    }
}

/// What [`answer_call`] returns: the response of a reply that answers the
/// call, else an error of kind `Other`.
pub open spec fn answer_post<'a, M: Messages>(
    call: HandlerCall<'a, M>,
    reply: HandlerReply<M>,
    res: Result<Option<Response<M>>, IoError>,
) -> bool {
    if reply_answers(call, reply) {
        res == response_of(reply)
    } else {
        res matches Err(e) && e.kind == IoErrorKind::Other
    }
}

/// What answering a call gives for a reply that the call asked for, stated
/// without reference to how the kinds are paired: a successful reply of
/// the call's own kind is sent back as the response of that kind (nothing
/// for the batch and point calls), and a failed one is its error.
pub open spec fn answers_own_reply<'a, M: Messages>(
    call: HandlerCall<'a, M>,
    reply: HandlerReply<M>,
    res: Result<Option<Response<M>>, IoError>,
) -> bool {
    match reply {
        HandlerReply::Info(Ok(x)) => call is Info ==> res == Ok::<Option<Response<M>>, IoError>(
            Some(Response { message: Some(ResponseMessage::Info(x)) }),
        ),
        HandlerReply::Init(Ok(x)) => call is Init ==> res == Ok::<Option<Response<M>>, IoError>(
            Some(Response { message: Some(ResponseMessage::Init(x)) }),
        ),
        HandlerReply::Snapshot(Ok(x)) => call is Snapshot ==> res == Ok::<
            Option<Response<M>>,
            IoError,
        >(Some(Response { message: Some(ResponseMessage::Snapshot(x)) })),
        HandlerReply::Restore(Ok(x)) => call is Restore ==> res == Ok::<
            Option<Response<M>>,
            IoError,
        >(Some(Response { message: Some(ResponseMessage::Restore(x)) })),
        HandlerReply::Accepted(Ok(_)) => (call is BeginBatch || call is Point || call is EndBatch)
            ==> res == Ok::<Option<Response<M>>, IoError>(None),
        HandlerReply::Info(Err(e)) => call is Info ==> res == Err::<Option<Response<M>>, IoError>(e),
        HandlerReply::Init(Err(e)) => call is Init ==> res == Err::<Option<Response<M>>, IoError>(e),
        HandlerReply::Snapshot(Err(e)) => call is Snapshot ==> res == Err::<
            Option<Response<M>>,
            IoError,
        >(e),
        HandlerReply::Restore(Err(e)) => call is Restore ==> res == Err::<
            Option<Response<M>>,
            IoError,
        >(e),
        HandlerReply::Accepted(Err(e)) => (call is BeginBatch || call is Point || call is EndBatch)
            ==> res == Err::<Option<Response<M>>, IoError>(e),
    }
}

/// Law: every call accepts the reply of its own kind.  Whatever
/// [`answer_call`] may return for a call and a reply, a successful info,
/// init, snapshot or restore reply to the call of that name comes back as
/// the response of that name with the handler's value, a successful reply
/// to a begin, point or end call comes back as no response, and a failed
/// reply of the call's kind comes back as the handler's error.
pub proof fn lemma_answer_own_reply<'a, M: Messages>(
    call: HandlerCall<'a, M>,
    reply: HandlerReply<M>,
    res: Result<Option<Response<M>>, IoError>,
)
    requires
        answer_post(call, reply, res),
    ensures
        answers_own_reply(call, reply, res),
{
}

/// Turns the reply of a planned call into the response to send back; a
/// reply of another kind than the call is refused as an error.
pub fn answer_call<'a, M: Messages>(call: &HandlerCall<'a, M>, reply: HandlerReply<M>) -> (res:
    Result<Option<Response<M>>, IoError>)
    ensures
        answer_post(*call, reply, res),
        answers_own_reply(*call, reply, res),
{
    let fits = match (call, &reply) {
        (HandlerCall::Info, HandlerReply::Info(_)) => true,
        (HandlerCall::Init(_), HandlerReply::Init(_)) => true,
        (HandlerCall::Snapshot, HandlerReply::Snapshot(_)) => true,
        (HandlerCall::Restore(_), HandlerReply::Restore(_)) => true,
        (HandlerCall::BeginBatch(_), HandlerReply::Accepted(_)) => true,
        (HandlerCall::Point(_), HandlerReply::Accepted(_)) => true,
        (HandlerCall::EndBatch(_), HandlerReply::Accepted(_)) => true,
        _ => false,
    };
    if fits {
        reply_to_response(reply)
    } else {
        Err(
            IoError {
                kind: IoErrorKind::Other,
                message: String::from_str("the handler reply does not answer the request"),
            },
        )
    }
}

/// The outcomes that processing a request can have: an empty request
/// gives nothing; a keepalive gives a keepalive response with its time;
/// info, init, snapshot and restore give a response of their own kind or an
/// error; begin, point and end give nothing or an error.  No outcome is an
/// error response.
pub open spec fn request_outcome<M: Messages>(
    request: Request<M>,
    res: Result<Option<Response<M>>, IoError>,
) -> bool {
    match request.message {
        None => res == Ok::<Option<Response<M>>, IoError>(None),
        Some(RequestMessage::Keepalive(k)) => res == Ok::<Option<Response<M>>, IoError>(
            Some(
                Response {
                    message: Some(ResponseMessage::Keepalive(KeepaliveResponse { time: k.time })),
                },
            ),
        ),
        Some(RequestMessage::Info) => res is Err || res matches Ok(
            Some(Response { message: Some(ResponseMessage::Info(_)) }),
        ),
        Some(RequestMessage::Init(_)) => res is Err || res matches Ok(
            Some(Response { message: Some(ResponseMessage::Init(_)) }),
        ),
        Some(RequestMessage::Snapshot) => res is Err || res matches Ok(
            Some(Response { message: Some(ResponseMessage::Snapshot(_)) }),
        ),
        Some(RequestMessage::Restore(_)) => res is Err || res matches Ok(
            Some(Response { message: Some(ResponseMessage::Restore(_)) }),
        ),
        _ => res is Err || res == Ok::<Option<Response<M>>, IoError>(None),
    }
}

/// Law: processing a request, planned by [`plan_request`] and answered by
/// [`answer_call`] (or by the planned reply, or by nothing), has an outcome
/// of the request's own kind: a response of the same name, nothing for an
/// empty request and for the batch and point messages, or an error.
pub proof fn lemma_request_outcome<'a, M: Messages>(
    request: &'a Request<M>,
    reply: HandlerReply<M>,
    res: Result<Option<Response<M>>, IoError>,
)
    requires
        match plan_spec(request) {
            RequestPlan::Call(c) => answer_post(c, reply, res),
            RequestPlan::Reply(r) => res == Ok::<Option<Response<M>>, IoError>(Some(r)),
            RequestPlan::Ignore => res == Ok::<Option<Response<M>>, IoError>(None),
        },
    ensures
        request_outcome(*request, res),
{
}

/// The response that reports a failure of the read loop to Kapacitor: an
/// error message with the failure's text.
pub fn error_response<M: Messages>(err: &IoError) -> (res: Response<M>)
    ensures
        res.message matches Some(ResponseMessage::Error(e)) && e.error@ == err.message@,
{
    Response {
        message: Some(ResponseMessage::Error(ErrorResponse { error: err.message.clone() })),
    }
}

/// What the read loop does with the outcome of reading one request.
pub enum ReadDecision<M: Messages> {
    /// Process the request.
    Process(Request<M>),
    /// The stream has ended: stop the handler and end the loop without error.
    Finish,
    /// End the loop with this failure; the handler is not stopped.
    Fail(IoError),
}

/// Decides what the read loop does with a read: a request is processed, an
/// unexpected end of the stream ends the loop normally, and any other
/// failure ends it with that failure.
pub fn classify_read<M: Messages>(read: Result<Request<M>, IoError>) -> (d: ReadDecision<M>)
    ensures
        match read {
            Ok(req) => d == ReadDecision::Process(req),
            Err(e) => if e.kind == IoErrorKind::UnexpectedEof {
                d is Finish
            } else {
                d == ReadDecision::<M>::Fail(e)
            },
        },
{
    match read {
        Ok(req) => ReadDecision::Process(req),
        Err(e) => if e.kind == IoErrorKind::UnexpectedEof {
            ReadDecision::Finish
        } else {
            ReadDecision::Fail(e)
        },
    }
}

/// What the read loop does once a request is processed.
pub enum ReadStep<M: Messages> {
    /// Send this response, then read the next request; if it cannot be
    /// sent, end the loop without error.
    Respond(Response<M>),
    /// Read the next request.
    Continue,
    /// End the loop with this failure; the handler is not stopped.
    Fail(IoError),
}

/// Decides what the read loop does with the outcome of processing a request.
pub fn after_processing<M: Messages>(processed: Result<Option<Response<M>>, IoError>) -> (s:
    ReadStep<M>)
    ensures
        match processed {
            Ok(Some(r)) => s == ReadStep::Respond(r),
            Ok(None) => s is Continue,
            Err(e) => s == ReadStep::<M>::Fail(e),
        },
{
    match processed {
        Ok(Some(r)) => ReadStep::Respond(r),
        Ok(None) => ReadStep::Continue,
        Err(e) => ReadStep::Fail(e),
    }
}

/// What the write loop and the forwarding loop do after waiting on their channel.
pub enum RelayStep<T> {
    /// Pass the item on.
    Deliver(T),
    /// The channel is closed: end the loop.
    Exit,
}

/// Decides what a relaying loop does with what its channel gave: an item is
/// passed on, a closed channel ends the loop.
pub fn relay_step<T>(received: Option<T>) -> (s: RelayStep<T>)
    ensures
        match received {
            Some(x) => s == RelayStep::Deliver(x),
            None => s is Exit,
        },
{
    match received {
        Some(x) => RelayStep::Deliver(x),
        None => RelayStep::Exit,
    }
}

/// How the read loop came to an end.
pub enum LoopEnd {
    /// The agent was told to stop.
    NotRunning,
    /// The stream of requests ended.
    EndOfStream,
    /// A response could not be passed on.
    SendFailed,
    /// Reading or processing a request failed.
    Failed(IoError),
}

/// What happens when the read loop ends: whether the handler is stopped,
/// and what the loop returns.  The handler is stopped, and the loop
/// succeeds, unless a failure ended it; a failure is returned and the
/// handler is left as it is.
pub fn finish_read_loop(end: LoopEnd) -> (r: (bool, Result<(), IoError>))
    ensures
        match end {
            LoopEnd::Failed(e) => r == (false, Err::<(), IoError>(e)),
            _ => r == (true, Ok::<(), IoError>(())),
        },
{
    match end {
        LoopEnd::Failed(e) => (false, Err(e)),
        _ => (true, Ok(())),
    }
}

/// The state of an agent: its handler until it starts, whether its loops
/// should go on, which of its loops may still report, and the errors that
/// its loops have reported.
pub struct Agent<H> {
    handler: Option<H>,
    is_running: bool,
    read_err_open: bool,
    write_err_open: bool,
    read_error: Option<IoError>,
    write_error: Option<IoError>,
}

/// The observable state of an agent.
pub struct AgentView {
    pub has_handler: bool,
    pub is_running: bool,
    pub read_err_open: bool,
    pub write_err_open: bool,
    /// The error that the read loop reported, if any.
    pub read_error: Option<(IoErrorKind, Seq<char>)>,
    /// The error that the write loop reported, if any.
    pub write_error: Option<(IoErrorKind, Seq<char>)>,
}

/// The view of an error: its kind and its text.
pub open spec fn error_view(e: IoError) -> (IoErrorKind, Seq<char>) {
    (e.kind, e.message@)
}

/// The view of an error that may be absent.
pub open spec fn opt_error_view(e: Option<IoError>) -> Option<(IoErrorKind, Seq<char>)> {
    match e {
        Some(e) => Some(error_view(e)),
        None => None,
    }
}

impl<H> View for Agent<H> {
    type V = AgentView;

    closed spec fn view(&self) -> AgentView {
        AgentView {
            has_handler: self.handler is Some,
            is_running: self.is_running,
            read_err_open: self.read_err_open,
            write_err_open: self.write_err_open,
            read_error: opt_error_view(self.read_error),
            write_error: opt_error_view(self.write_error),
        }
    }
}

/// A report of one of the agent's loops: which loop, and the error it
/// reported; `None` when the loop ended without error and its report
/// channel closed.
pub enum WaitEvent {
    Read(Option<IoError>),
    Write(Option<IoError>),
}

/// The result of waiting on an agent whose loops reported these errors: a
/// read error first, then a write error, each with its prefix; success when
/// neither loop failed.
pub open spec fn wait_result_spec(
    read_error: Option<(IoErrorKind, Seq<char>)>,
    write_error: Option<(IoErrorKind, Seq<char>)>,
) -> Result<(), Seq<char>> {
    match read_error {
        Some((_, m)) => Err("read error: "@ + m),
        None => match write_error {
            Some((_, m)) => Err("write error: "@ + m),
            None => Ok(()),
        },
    }
}

/// What starting an agent returns once its loops have reported these
/// errors: the read loop's error first, then the write loop's, else success.
pub open spec fn start_result_spec(
    read_error: Option<(IoErrorKind, Seq<char>)>,
    write_error: Option<(IoErrorKind, Seq<char>)>,
) -> Result<(), (IoErrorKind, Seq<char>)> {
    match read_error {
        Some(e) => Err(e),
        None => match write_error {
            Some(e) => Err(e),
            None => Ok(()),
        },
    }
}

/// The view of a result of waiting: its message as characters.
pub open spec fn result_view(r: Result<(), String>) -> Result<(), Seq<char>> {
    match r {
        Ok(()) => Ok(()),
        Err(s) => Err(s@),
    }
}

/// The view of a result of starting.
pub open spec fn start_view(r: Result<(), IoError>) -> Result<(), (IoErrorKind, Seq<char>)> {
    match r {
        Ok(()) => Ok(()),
        Err(e) => Err(error_view(e)),
    }
}

/// The text of a `Some`/`None` line of the agent's description.
pub open spec fn presence_text(present: bool, what: Seq<char>) -> Seq<char> {
    if present {
        "Some("@ + what + ")"@
    } else {
        "None"@
    }
}

/// The text of a boolean.
pub open spec fn bool_text(b: bool) -> Seq<char> {
    if b {
        "true"@
    } else {
        "false"@
    }
}

/// The multi-line description of an agent.
pub open spec fn display_spec(v: AgentView) -> Seq<char> {
    "Agent {\n"@ + "    in_reader: <Box<dyn io::Read + Send + Unpin>>\n"@
        + "    out_writer: <Box<dyn io::Write + Send + Unpin>>\n"@
        + "    responses: <Arc<Mutex<Sender<Response>>>>\n"@ + "    in_responses: <Receiver<Response>>\n"@
        + "    write_err_c: "@ + presence_text(v.write_err_open, "<Receiver<io::Error>>"@) + "\n"@
        + "    read_err_c: "@ + presence_text(v.read_err_open, "<Receiver<io::Error>>"@) + "\n"@
        + "    handler: "@ + presence_text(v.has_handler, "<Box<dyn Handler>>"@) + "\n"@
        + "    is_running: "@ + bool_text(v.is_running) + "\n"@ + "}"@
}

fn push_presence(s: &mut String, present: bool, what: &str)
    ensures
        final(s)@ == old(s)@ + presence_text(present, what@),
{
    if present {
        s.append("Some(");
        s.append(what);
        s.append(")");
    } else {
        s.append("None");
    }
}

fn push_bool(s: &mut String, b: bool)
    ensures
        final(s)@ == old(s)@ + bool_text(b),
{
    if b {
        s.append("true");
    } else {
        s.append("false");
    }
}

fn copy_error(e: &IoError) -> (c: IoError)
    ensures
        error_view(c) == error_view(*e),
{
    IoError { kind: e.kind, message: e.message.clone() }
}

impl<H> Agent<H> {
    /// A new agent: running, with no handler, no loop started and no error.
    pub fn new() -> (a: Self)
        ensures
            a@ == (AgentView {
                has_handler: false,
                is_running: true,
                read_err_open: false,
                write_err_open: false,
                read_error: None,
                write_error: None,
            }),
            a.handler_spec() is None,
    {
        Agent {
            handler: None,
            is_running: true,
            read_err_open: false,
            write_err_open: false,
            read_error: None,
            write_error: None,
        }
    }

    /// Sets or clears the handler.
    pub fn set_handler(&mut self, handler: Option<H>)
        ensures
            final(self)@ == (AgentView { has_handler: handler is Some, ..old(self)@ }),
            final(self).handler_spec() == handler,
    {
        self.handler = handler;
    }

    /// The handler that the agent holds.
    pub closed spec fn handler_spec(&self) -> Option<H> {
        self.handler
    }

    /// Whether the agent holds a handler.
    pub fn has_handler(&self) -> (b: bool)
        ensures
            b == self@.has_handler,
    {
        self.handler.is_some()
    }

    /// Starts the agent: hands out the handler for the read loop and opens
    /// the reports of both loops.  Fails, and changes nothing, when no
    /// handler is set.  Failures of the started loops are reported through
    /// [`Agent::record`], and [`Agent::start_result`] gives what starting
    /// returns once the reports that arrived by then are recorded.
    pub fn start(&mut self) -> (res: Result<H, IoError>)
        ensures
            old(self)@.has_handler ==> (old(self).handler_spec() matches Some(h) && res == Ok::<
                H,
                IoError,
            >(h)) && final(self)@ == (AgentView {
                has_handler: false,
                read_err_open: true,
                write_err_open: true,
                ..old(self)@
            }),
            !old(self)@.has_handler ==> (res matches Err(e) && e.kind == IoErrorKind::Other
                && e.message@ == "Must set a Handler on the agent before starting"@)
                && final(self)@ == old(self)@,
            final(self).handler_spec() is None,
    {
        match self.handler.take() {
            None => Err(
                IoError {
                    kind: IoErrorKind::Other,
                    message: String::from_str("Must set a Handler on the agent before starting"),
                },
            ),
            Some(h) => {
                self.read_err_open = true;
                self.write_err_open = true;
                Ok(h)
            },
        }
    }

    /// What starting returns: the failure that a loop has reported, the
    /// read loop's first, else success.
    pub fn start_result(&self) -> (r: Result<(), IoError>)
        ensures
            start_view(r) == start_result_spec(self@.read_error, self@.write_error),
    {
        match &self.read_error {
            Some(e) => Err(copy_error(e)),
            None => match &self.write_error {
                Some(e) => Err(copy_error(e)),
                None => Ok(()),
            },
        }
    }

    /// Whether the loops of the agent should go on.
    pub fn is_running(&self) -> (b: bool)
        ensures
            b == self@.is_running,
    {
        self.is_running
    }

    /// The first step of waiting: tells the loops to stop.
    pub fn stop_running(&mut self)
        ensures
            final(self)@ == (AgentView { is_running: false, ..old(self)@ }),
            final(self).handler_spec() == old(self).handler_spec(),
    {
        self.is_running = false;
    }

    /// Whether the read loop's and the write loop's reports are still awaited.
    pub fn pending_reports(&self) -> (p: (bool, bool))
        ensures
            p == (self@.read_err_open, self@.write_err_open),
    {
        (self.read_err_open, self.write_err_open)
    }

    /// Takes one report of a loop: closes that loop's report and keeps the
    /// error it carries; a loop that ended without error leaves no error.
    pub fn record(&mut self, event: WaitEvent)
        requires
            match event {
                WaitEvent::Read(_) => old(self)@.read_err_open,
                WaitEvent::Write(_) => old(self)@.write_err_open,
            },
        ensures
            final(self).handler_spec() == old(self).handler_spec(),
            match event {
                WaitEvent::Read(e) => final(self)@ == (AgentView {
                    read_err_open: false,
                    read_error: opt_error_view(e),
                    ..old(self)@
                }),
                WaitEvent::Write(e) => final(self)@ == (AgentView {
                    write_err_open: false,
                    write_error: opt_error_view(e),
                    ..old(self)@
                }),
            },
    {
        match event {
            WaitEvent::Read(e) => {
                self.read_err_open = false;
                self.read_error = e;
            },
            WaitEvent::Write(e) => {
                self.write_err_open = false;
                self.write_error = e;
            },
        }
    }

    /// What waiting returns: the read loop's error, else the write loop's,
    /// each with its prefix, else success.  The errors are taken out, so a
    /// later wait does not report them again.
    pub fn wait_result(&mut self) -> (r: Result<(), String>)
        ensures
            result_view(r) == wait_result_spec(old(self)@.read_error, old(self)@.write_error),
            final(self)@ == (AgentView { read_error: None, write_error: None, ..old(self)@ }),
            final(self).handler_spec() == old(self).handler_spec(),
    {
        let read_error = self.read_error.take();
        let write_error = self.write_error.take();
        match &read_error {
            Some(e) => {
                let mut s = String::from_str("read error: ");
                s.append(e.message.as_str());
                Err(s)
            },
            None => match &write_error {
                Some(e) => {
                    let mut s = String::from_str("write error: ");
                    s.append(e.message.as_str());
                    Err(s)
                },
                None => Ok(()),
            },
        }
    }

    /// The multi-line description of the agent.
    pub fn display(&self) -> (s: String)
        ensures
            s@ == display_spec(self@),
    {
        let mut s = String::from_str("Agent {\n");
        s.append("    in_reader: <Box<dyn io::Read + Send + Unpin>>\n");
        s.append("    out_writer: <Box<dyn io::Write + Send + Unpin>>\n");
        s.append("    responses: <Arc<Mutex<Sender<Response>>>>\n");
        s.append("    in_responses: <Receiver<Response>>\n");
        s.append("    write_err_c: ");
        push_presence(&mut s, self.write_err_open, "<Receiver<io::Error>>");
        s.append("\n");
        s.append("    read_err_c: ");
        push_presence(&mut s, self.read_err_open, "<Receiver<io::Error>>");
        s.append("\n");
        s.append("    handler: ");
        push_presence(&mut s, self.handler.is_some(), "<Box<dyn Handler>>");
        s.append("\n");
        s.append("    is_running: ");
        push_bool(&mut s, self.is_running);
        s.append("\n");
        s.append("}");
        s
    }
}

/// Law: waiting fails exactly when a loop reported an error, and the read
/// loop's error comes first.  Loops that both ended without error make
/// waiting succeed; a write error shows only when the read loop did not fail.
pub proof fn lemma_wait_result(
    read_error: Option<(IoErrorKind, Seq<char>)>,
    write_error: Option<(IoErrorKind, Seq<char>)>,
)
    ensures
        wait_result_spec(read_error, write_error) is Ok <==> (read_error is None && write_error is None),
        read_error matches Some((_, m)) ==> wait_result_spec(read_error, write_error) == Err::<(), Seq<char>>("read error: "@ + m),
        read_error is None ==> (write_error matches Some((_, m)) ==> wait_result_spec(read_error, write_error) == Err::<(), Seq<char>>("write error: "@ + m)),
{
}

/// Law: starting and waiting agree on failure: both fail exactly when a loop
/// reported an error, and both put the read loop's error first.
pub proof fn lemma_start_and_wait_agree(
    read_error: Option<(IoErrorKind, Seq<char>)>,
    write_error: Option<(IoErrorKind, Seq<char>)>,
)
    ensures
        start_result_spec(read_error, write_error) is Ok <==> wait_result_spec(read_error, write_error) is Ok,
        start_result_spec(read_error, write_error) matches Err((_, m)) ==> wait_result_spec(read_error, write_error) == Err::<(), Seq<char>>(
            (if read_error is Some { "read error: "@ } else { "write error: "@ }) + m),
{
}

} // verus!
