use kapacitor_udf::io::{IoError, IoErrorKind};
use kapacitor_udf::socket_server::{accept_step, serve_result, signal_action, AcceptStep, SignalAction, SocketServer};

#[test]
fn watched_signals_stop() {
    assert_eq!(signal_action(2, &[2, 15]), SignalAction::Stop);
    assert_eq!(signal_action(15, &[2, 15]), SignalAction::Stop);
    assert_eq!(signal_action(1, &[2, 15]), SignalAction::Ignore);
    assert_eq!(signal_action(1, &[1]), SignalAction::Stop);
    assert_eq!(signal_action(2, &[]), SignalAction::Ignore);
}

#[test]
fn stop_is_idempotent() {
    let mut s = SocketServer::new();
    assert!(!s.is_stopped());
    assert!(s.serve());
    assert!(s.stop_on_signals());
    assert!(s.stop());
    assert!(s.is_stopped());
    assert!(!s.stop());
    assert!(s.is_stopped());
    assert!(!s.serve());
    assert!(!s.stop_on_signals());
}

#[test]
fn accept_outcomes() {
    assert!(matches!(accept_step(false, Ok(())), AcceptStep::Accepted));
    assert!(matches!(accept_step(true, Ok(())), AcceptStep::Stopped));
    let aborted = IoError { kind: IoErrorKind::ConnectionAborted, message: "closed".to_string() };
    assert!(matches!(accept_step(false, Err(aborted)), AcceptStep::Closed));
    let other = IoError { kind: IoErrorKind::Other, message: "bad fd".to_string() };
    match accept_step(false, Err(other)) {
        AcceptStep::Failed(e) => assert_eq!(e.message, "bad fd"),
        _ => panic!("expected a failure"),
    }
}

#[test]
fn serve_result_after_stop_is_ok() {
    let err = IoError { kind: IoErrorKind::Other, message: "bad".to_string() };
    assert!(serve_result(true, Err(err.clone())).is_ok());
    match serve_result(false, Err(err)) {
        Err(e) => assert_eq!(e.message, "bad"),
        Ok(()) => panic!("expected the reported error"),
    }
}
