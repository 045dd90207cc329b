use kapacitor_udf::agent::{
    after_processing, answer_call, classify_read, error_response, finish_read_loop, plan_request, relay_step,
    reply_to_response, Agent, HandlerCall, HandlerReply, LoopEnd, ReadDecision, ReadStep, RelayStep,
    RequestPlan, WaitEvent,
};
use kapacitor_udf::io::{IoError, IoErrorKind};
use kapacitor_udf::proto::{KeepaliveRequest, Messages, Request, RequestMessage, Response, ResponseMessage};
use kapacitor_udf::stdio_server::run_result;

struct Msgs;

impl Messages for Msgs {
    type InfoResponse = String;
    type InitRequest = u32;
    type InitResponse = bool;
    type SnapshotResponse = Vec<u8>;
    type RestoreRequest = Vec<u8>;
    type RestoreResponse = bool;
    type BeginBatch = String;
    type Point = i64;
    type EndBatch = String;
}

fn failure(msg: &str) -> IoError {
    IoError { kind: IoErrorKind::Other, message: msg.to_string() }
}

fn req(m: RequestMessage<Msgs>) -> Request<Msgs> {
    Request { message: Some(m) }
}

#[test]
fn plans_name_the_handler_method_and_its_message() {
    let r = req(RequestMessage::Init(17));
    assert!(matches!(plan_request(&r), RequestPlan::Call(HandlerCall::Init(17))));
    let r = req(RequestMessage::Point(-4));
    assert!(matches!(plan_request(&r), RequestPlan::Call(HandlerCall::Point(-4))));
    let r = req(RequestMessage::Begin("g".to_string()));
    match plan_request(&r) {
        RequestPlan::Call(HandlerCall::BeginBatch(b)) => assert_eq!(b, "g"),
        _ => panic!("expected a begin_batch call"),
    }
    let r = req(RequestMessage::End("h".to_string()));
    assert!(matches!(plan_request(&r), RequestPlan::Call(HandlerCall::EndBatch(_))));
    let r = req(RequestMessage::Restore(vec![1]));
    match plan_request(&r) {
        RequestPlan::Call(HandlerCall::Restore(x)) => assert_eq!(x, &vec![1u8]),
        _ => panic!("expected a restore call"),
    }
    assert!(matches!(plan_request(&req(RequestMessage::Info)), RequestPlan::Call(HandlerCall::Info)));
    assert!(matches!(plan_request(&req(RequestMessage::Snapshot)), RequestPlan::Call(HandlerCall::Snapshot)));
}

#[test]
fn keepalive_echoes_time_without_a_handler_call() {
    match plan_request(&req(RequestMessage::Keepalive(KeepaliveRequest { time: 42 }))) {
        RequestPlan::Reply(Response { message: Some(ResponseMessage::Keepalive(k)) }) => assert_eq!(k.time, 42),
        _ => panic!("expected a keepalive reply"),
    }
}

#[test]
fn empty_request_is_ignored() {
    assert!(matches!(plan_request(&Request::<Msgs> { message: None }), RequestPlan::Ignore));
}

#[test]
fn replies_become_responses() {
    match reply_to_response::<Msgs>(HandlerReply::Info(Ok("me".to_string()))) {
        Ok(Some(Response { message: Some(ResponseMessage::Info(s)) })) => assert_eq!(s, "me"),
        _ => panic!("expected info"),
    }
    match reply_to_response::<Msgs>(HandlerReply::Init(Ok(true))) {
        Ok(Some(Response { message: Some(ResponseMessage::Init(b)) })) => assert!(b),
        _ => panic!("expected init"),
    }
    match reply_to_response::<Msgs>(HandlerReply::Snapshot(Ok(vec![7, 8]))) {
        Ok(Some(Response { message: Some(ResponseMessage::Snapshot(s)) })) => assert_eq!(s, vec![7, 8]),
        _ => panic!("expected snapshot"),
    }
    match reply_to_response::<Msgs>(HandlerReply::Restore(Ok(false))) {
        Ok(Some(Response { message: Some(ResponseMessage::Restore(b)) })) => assert!(!b),
        _ => panic!("expected restore"),
    }
    assert!(matches!(reply_to_response::<Msgs>(HandlerReply::Accepted(Ok(()))), Ok(None)));
    match reply_to_response::<Msgs>(HandlerReply::Init(Err(failure("bad")))) {
        Err(e) => assert_eq!(e.message, "bad"),
        _ => panic!("expected an error"),
    }
    match reply_to_response::<Msgs>(HandlerReply::Accepted(Err(failure("point failed")))) {
        Err(e) => assert_eq!(e.message, "point failed"),
        _ => panic!("expected an error"),
    }
}

#[test]
fn error_response_carries_message() {
    let r: Response<Msgs> = error_response(&failure("boom"));
    match r.message {
        Some(ResponseMessage::Error(e)) => assert_eq!(e.error, "boom"),
        _ => panic!("expected an error response"),
    }
}

#[test]
fn read_decisions() {
    assert!(matches!(classify_read::<Msgs>(Ok(Request { message: None })), ReadDecision::Process(_)));
    let eof = IoError { kind: IoErrorKind::UnexpectedEof, message: "eof".to_string() };
    assert!(matches!(classify_read::<Msgs>(Err(eof)), ReadDecision::Finish));
    let bad = IoError { kind: IoErrorKind::InvalidData, message: "bad".to_string() };
    match classify_read::<Msgs>(Err(bad)) {
        ReadDecision::Fail(e) => assert_eq!(e.message, "bad"),
        _ => panic!("expected a failure"),
    }
    assert!(matches!(after_processing::<Msgs>(Ok(None)), ReadStep::Continue));
    assert!(matches!(after_processing::<Msgs>(Ok(Some(Response { message: None }))), ReadStep::Respond(_)));
    assert!(matches!(after_processing::<Msgs>(Err(failure("x"))), ReadStep::Fail(_)));
    assert!(matches!(relay_step(Some(3)), RelayStep::Deliver(3)));
    assert!(matches!(relay_step::<u8>(None), RelayStep::Exit));
}

#[test]
fn read_loop_end_stops_the_handler_unless_it_failed() {
    assert!(matches!(finish_read_loop(LoopEnd::EndOfStream), (true, Ok(()))));
    assert!(matches!(finish_read_loop(LoopEnd::NotRunning), (true, Ok(()))));
    assert!(matches!(finish_read_loop(LoopEnd::SendFailed), (true, Ok(()))));
    match finish_read_loop(LoopEnd::Failed(failure("varint too long"))) {
        (false, Err(e)) => assert_eq!(e.message, "varint too long"),
        _ => panic!("expected a failure without stopping"),
    }
}

#[test]
fn start_requires_a_handler() {
    let mut a: Agent<u8> = Agent::new();
    match a.start() {
        Err(e) => {
            assert_eq!(e.kind, IoErrorKind::Other);
            assert_eq!(e.message, "Must set a Handler on the agent before starting");
        }
        Ok(_) => panic!("started without a handler"),
    }
    assert_eq!(a.pending_reports(), (false, false));
    a.set_handler(Some(5));
    assert!(a.has_handler());
    assert_eq!(a.start().ok(), Some(5));
    assert!(!a.has_handler());
    assert_eq!(a.pending_reports(), (true, true));
    assert!(a.start_result().is_ok());
    assert!(a.start().is_err());
}

#[test]
fn start_reports_an_early_loop_failure() {
    let mut a: Agent<u8> = Agent::new();
    a.set_handler(Some(1));
    a.start().ok();
    a.record(WaitEvent::Write(Some(failure("broken pipe"))));
    match a.start_result() {
        Err(e) => assert_eq!(e.message, "broken pipe"),
        Ok(()) => panic!("expected the write loop's failure"),
    }
    a.record(WaitEvent::Read(Some(IoError { kind: IoErrorKind::InvalidData, message: "varint too long".to_string() })));
    match a.start_result() {
        Err(e) => {
            assert_eq!(e.kind, IoErrorKind::InvalidData);
            assert_eq!(e.message, "varint too long");
        }
        Ok(()) => panic!("expected the read loop's failure"),
    }
}

#[test]
fn wait_before_start_succeeds() {
    let mut a: Agent<u8> = Agent::new();
    a.stop_running();
    assert!(!a.is_running());
    assert_eq!(a.pending_reports(), (false, false));
    assert_eq!(a.wait_result(), Ok(()));
}

#[test]
fn wait_succeeds_when_both_loops_end_normally() {
    let mut a: Agent<u8> = Agent::new();
    a.set_handler(Some(1));
    a.start().ok();
    a.stop_running();
    a.record(WaitEvent::Read(None));
    a.record(WaitEvent::Write(None));
    assert_eq!(a.pending_reports(), (false, false));
    assert_eq!(a.wait_result(), Ok(()));
}

#[test]
fn wait_reports_write_error_after_normal_read_end() {
    let mut a: Agent<u8> = Agent::new();
    a.set_handler(Some(1));
    a.start().ok();
    a.stop_running();
    a.record(WaitEvent::Read(None));
    a.record(WaitEvent::Write(Some(failure("disk full"))));
    assert_eq!(a.wait_result(), Err("write error: disk full".to_string()));
}

#[test]
fn wait_reports_read_error_first() {
    let mut a: Agent<u8> = Agent::new();
    a.set_handler(Some(1));
    a.start().ok();
    a.stop_running();
    a.record(WaitEvent::Write(Some(failure("disk full"))));
    assert_eq!(a.wait_result(), Err("write error: disk full".to_string()));
    assert_eq!(a.pending_reports(), (true, false));
    a.record(WaitEvent::Read(Some(failure("varint too long"))));
    assert_eq!(a.pending_reports(), (false, false));
    assert_eq!(a.wait_result(), Err("read error: varint too long".to_string()));
}

#[test]
fn stdio_run_result_maps_error() {
    assert!(run_result(Ok(())).is_ok());
    match run_result(Err("read error: x".to_string())) {
        Err(e) => {
            assert_eq!(e.kind, IoErrorKind::Other);
            assert_eq!(e.message, "read error: x");
        }
        Ok(()) => panic!("expected an error"),
    }
}

#[test]
fn agent_description() {
    let mut a: Agent<u8> = Agent::new();
    assert_eq!(
        a.display(),
        "Agent {\n    in_reader: <Box<dyn io::Read + Send + Unpin>>\n    out_writer: <Box<dyn io::Write + Send + Unpin>>\n    responses: <Arc<Mutex<Sender<Response>>>>\n    in_responses: <Receiver<Response>>\n    write_err_c: None\n    read_err_c: None\n    handler: None\n    is_running: true\n}"
    );
    a.set_handler(Some(1));
    assert!(a.display().contains("handler: Some(<Box<dyn Handler>>)\n"));
    a.start().ok();
    a.stop_running();
    assert!(a.display().contains("write_err_c: Some(<Receiver<io::Error>>)\n    read_err_c: Some(<Receiver<io::Error>>)\n    handler: None\n    is_running: false\n}"));
}

#[test]
fn a_second_wait_succeeds() {
    let mut a: Agent<u8> = Agent::new();
    a.set_handler(Some(1));
    a.start().ok();
    a.stop_running();
    a.record(WaitEvent::Read(Some(failure("varint too long"))));
    a.record(WaitEvent::Write(None));
    assert_eq!(a.wait_result(), Err("read error: varint too long".to_string()));
    a.stop_running();
    assert_eq!(a.pending_reports(), (false, false));
    assert_eq!(a.wait_result(), Ok(()));
}

#[test]
fn answers_of_planned_calls() {
    let r = req(RequestMessage::Init(2));
    match plan_request(&r) {
        RequestPlan::Call(call) => {
            match answer_call(&call, HandlerReply::Init(Ok(true))) {
                Ok(Some(Response { message: Some(ResponseMessage::Init(b)) })) => assert!(b),
                _ => panic!("expected an init response"),
            }
            match answer_call(&call, HandlerReply::Info(Ok("x".to_string()))) {
                Err(e) => {
                    assert_eq!(e.kind, IoErrorKind::Other);
                    assert_eq!(e.message, "the handler reply does not answer the request");
                }
                Ok(_) => panic!("a reply of another kind was accepted"),
            }
        }
        _ => panic!("expected a call"),
    }
    let r = req(RequestMessage::Point(1));
    match plan_request(&r) {
        RequestPlan::Call(call) => {
            assert!(matches!(answer_call(&call, HandlerReply::Accepted(Ok(()))), Ok(None)));
            match answer_call(&call, HandlerReply::Accepted(Err(failure("no")))) {
                Err(e) => assert_eq!(e.message, "no"),
                Ok(_) => panic!("expected the handler's error"),
            }
        }
        _ => panic!("expected a call"),
    }
}
