use sc_core::codec::DecodeError;
use sc_core::protocol::decode_echo_response;
use sc_core::protocol::encode_request;
use sc_core::protocol::EchoRequest;
use sc_core::protocol::RequestHeader;
use sc_core::protocol::RequestMessage;
use sc_core::protocol::SaveRequest;
use sc_core::protocol::TestApiRequest;
use sc_core::protocol::ECHO_API_KEY;
use sc_core::protocol::SAVE_API_KEY;
use sc_core::service::ConnEvent;
use sc_core::service::ConnState;
use sc_core::service::DispatchOutcome;
use sc_core::service::SessionEnd;
use sc_core::service::TestContext;
use sc_core::service::TestService;

fn echo_frame(correlation_id: i32, msg: &str) -> Vec<u8> {
    let header = RequestHeader::new(ECHO_API_KEY, 0, correlation_id, "test-client".to_string());
    encode_request(&TestApiRequest::EchoRequest(RequestMessage::new(
        header,
        EchoRequest::new(msg.to_string()),
    )))
}

fn save_frame(correlation_id: i32) -> Vec<u8> {
    let header = RequestHeader::new(SAVE_API_KEY, 0, correlation_id, "test-client".to_string());
    encode_request(&TestApiRequest::SaveRequest(RequestMessage::new(header, SaveRequest {})))
}

#[test]
fn echo_is_answered_with_its_own_payload_and_correlation_id() {
    let service = TestService::new();
    let ctx = TestContext::new();
    match service.process_frame(&ctx, &echo_frame(77, "hello")) {
        DispatchOutcome::Respond(frame) => {
            let resp = decode_echo_response(&frame).unwrap();
            assert_eq!(resp.correlation_id, 77);
            assert_eq!(resp.response.msg, "hello");
        }
        other => panic!("expected a response, got {:?}", other),
    }
}

#[test]
fn save_is_terminal() {
    let service = TestService::new();
    let ctx = TestContext::new();
    assert!(matches!(service.process_frame(&ctx, &save_frame(1)), DispatchOutcome::Terminate));
}

#[test]
fn garbage_fails_the_connection() {
    let service = TestService::new();
    let ctx = TestContext::new();
    match service.process_frame(&ctx, &vec![1, 2, 3]) {
        DispatchOutcome::Fail(e) => assert_eq!(e, DecodeError::Truncated),
        other => panic!("expected a failure, got {:?}", other),
    }
}

#[test]
fn session_answers_in_request_order_until_eof() {
    let service = TestService::new();
    let ctx = TestContext::new();
    let frames = vec![echo_frame(1, "a"), echo_frame(2, "b"), echo_frame(3, "c")];
    let (outs, end) = service.respond(&ctx, &frames);
    assert_eq!(end, SessionEnd::CleanEof);
    assert_eq!(outs.len(), 3);
    for (i, (corr, msg)) in [(1, "a"), (2, "b"), (3, "c")].iter().enumerate() {
        let resp = decode_echo_response(&outs[i]).unwrap();
        assert_eq!(resp.correlation_id, *corr);
        assert_eq!(resp.response.msg, *msg);
    }
}

#[test]
fn terminal_request_stops_the_session() {
    let service = TestService::new();
    let ctx = TestContext::new();
    let frames = vec![
        echo_frame(1, "before"),
        save_frame(2),
        echo_frame(3, "after"),
        save_frame(4),
    ];
    let (outs, end) = service.respond(&ctx, &frames);
    // Only the frame before the terminal request is answered; nothing after
    // the terminal request is dispatched.
    assert_eq!(end, SessionEnd::Terminated);
    assert_eq!(outs.len(), 1);
    let resp = decode_echo_response(&outs[0]).unwrap();
    assert_eq!(resp.correlation_id, 1);
    assert_eq!(resp.response.msg, "before");
}

#[test]
fn decode_error_stops_the_session_and_surfaces() {
    let service = TestService::new();
    let ctx = TestContext::new();
    let frames = vec![echo_frame(1, "ok"), vec![0xFF], echo_frame(2, "never")];
    let (outs, end) = service.respond(&ctx, &frames);
    assert_eq!(end, SessionEnd::Failed(DecodeError::Truncated));
    assert_eq!(outs.len(), 1);
}

#[test]
fn empty_session_ends_clean() {
    let service = TestService::new();
    let ctx = TestContext::new();
    let (outs, end) = service.respond(&ctx, &Vec::new());
    assert_eq!(end, SessionEnd::CleanEof);
    assert!(outs.is_empty());
}

#[test]
fn state_machine_listens_responds_and_closes() {
    let service = TestService::new();
    let ctx = TestContext::new();
    let (state, out) = service.step(&ctx, ConnState::Listening, ConnEvent::Frame(echo_frame(5, "x")));
    assert_eq!(state, ConnState::Listening);
    let resp = decode_echo_response(&out.unwrap()).unwrap();
    assert_eq!(resp.correlation_id, 5);
    assert_eq!(resp.response.msg, "x");
    let (state, out) = service.step(&ctx, state, ConnEvent::Frame(save_frame(6)));
    assert_eq!(state, ConnState::Closed(SessionEnd::Terminated));
    assert!(out.is_none());
}

#[test]
fn state_machine_closes_cleanly_on_stream_end() {
    let service = TestService::new();
    let ctx = TestContext::new();
    let (state, out) = service.step(&ctx, ConnState::Listening, ConnEvent::StreamEnd);
    assert_eq!(state, ConnState::Closed(SessionEnd::CleanEof));
    assert!(out.is_none());
}

#[test]
fn closed_connection_ignores_further_events() {
    let service = TestService::new();
    let ctx = TestContext::new();
    let closed = ConnState::Closed(SessionEnd::Terminated);
    let (state, out) = service.step(&ctx, closed, ConnEvent::Frame(echo_frame(9, "late")));
    assert_eq!(state, closed);
    assert!(out.is_none());
    let (state, out) = service.step(&ctx, closed, ConnEvent::StreamEnd);
    assert_eq!(state, closed);
    assert!(out.is_none());
}
