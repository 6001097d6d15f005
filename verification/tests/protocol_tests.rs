use sc_core::codec::DecodeError;
use sc_core::protocol::decode_echo_response;
use sc_core::protocol::decode_request;
use sc_core::protocol::encode_echo_response;
use sc_core::protocol::encode_request;
use sc_core::protocol::EchoRequest;
use sc_core::protocol::EchoResponse;
use sc_core::protocol::RequestHeader;
use sc_core::protocol::RequestMessage;
use sc_core::protocol::ResponseMessage;
use sc_core::protocol::TestApiRequest;
use sc_core::protocol::TestKafkaApiEnum;
use sc_core::protocol::ECHO_API_KEY;
use sc_core::protocol::SAVE_API_KEY;
use sc_core::protocol::SaveRequest;
use sc_core::protocol::SaveResponse;
use sc_core::protocol::decode_save_response;
use sc_core::protocol::encode_save_response;

fn build_echo_frame(api_version: i16, correlation_id: i32, client_id: &str, msg: &str) -> Vec<u8> {
    let header = RequestHeader::new(ECHO_API_KEY, api_version, correlation_id, client_id.to_string());
    let req = TestApiRequest::EchoRequest(RequestMessage::new(header, EchoRequest::new(msg.to_string())));
    encode_request(&req)
}

#[test]
fn api_keys_number_the_family() {
    assert_eq!(TestKafkaApiEnum::Echo.as_u16(), 1000);
    assert_eq!(TestKafkaApiEnum::Save.as_u16(), 1001);
    assert_eq!(TestKafkaApiEnum::from_u16(1000), Some(TestKafkaApiEnum::Echo));
    assert_eq!(TestKafkaApiEnum::from_u16(1001), Some(TestKafkaApiEnum::Save));
    assert_eq!(TestKafkaApiEnum::from_u16(0), None);
    assert_eq!(TestKafkaApiEnum::default(), TestKafkaApiEnum::Echo);
}

#[test]
fn echo_request_round_trips() {
    let frame = build_echo_frame(7, 42, "client-a", "hello");
    match decode_request(&frame).unwrap() {
        TestApiRequest::EchoRequest(m) => {
            assert_eq!(m.header.api_key, ECHO_API_KEY);
            assert_eq!(m.header.api_version, 7);
            assert_eq!(m.header.correlation_id, 42);
            assert_eq!(m.header.client_id, "client-a");
            assert_eq!(m.request.msg, "hello");
        }
        other => panic!("decoded the wrong variant: {:?}", other),
    }
}

#[test]
fn echo_request_round_trips_boundary_values() {
    let frame = build_echo_frame(i16::MIN, i32::MIN, "", "");
    match decode_request(&frame).unwrap() {
        TestApiRequest::EchoRequest(m) => {
            assert_eq!(m.header.api_version, i16::MIN);
            assert_eq!(m.header.correlation_id, i32::MIN);
            assert_eq!(m.header.client_id, "");
            assert_eq!(m.request.msg, "");
        }
        other => panic!("decoded the wrong variant: {:?}", other),
    }
    let frame = build_echo_frame(i16::MAX, i32::MAX, "c", "\u{10FFFF}");
    match decode_request(&frame).unwrap() {
        TestApiRequest::EchoRequest(m) => {
            assert_eq!(m.header.api_version, i16::MAX);
            assert_eq!(m.header.correlation_id, i32::MAX);
            assert_eq!(m.request.msg, "\u{10FFFF}");
        }
        other => panic!("decoded the wrong variant: {:?}", other),
    }
}

#[test]
fn save_request_round_trips() {
    let header = RequestHeader::new(SAVE_API_KEY, 0, -5, "c".to_string());
    let req = TestApiRequest::SaveRequest(RequestMessage::new(header, SaveRequest {}));
    let frame = encode_request(&req);
    match decode_request(&frame).unwrap() {
        TestApiRequest::SaveRequest(m) => {
            assert_eq!(m.header.api_key, SAVE_API_KEY);
            assert_eq!(m.header.correlation_id, -5);
        }
        other => panic!("decoded the wrong variant: {:?}", other),
    }
}

#[test]
fn unknown_api_key_is_a_decode_error() {
    // A header whose key is outside the family, with an empty client id and
    // an empty body.
    let header = RequestHeader::new(999, 0, 1, String::new());
    let req = TestApiRequest::SaveRequest(RequestMessage::new(header, SaveRequest {}));
    let mut frame = encode_request(&req);
    // encode_request writes the header as given; the body is empty.
    assert_eq!(decode_request(&frame).unwrap_err(), DecodeError::UnknownApiKey(999));
    // Extra bytes after an unknown key still name the unknown key first.
    frame.push(0);
    assert_eq!(decode_request(&frame).unwrap_err(), DecodeError::UnknownApiKey(999));
}

#[test]
fn trailing_bytes_are_a_decode_error() {
    let mut frame = build_echo_frame(0, 1, "c", "m");
    frame.push(0xAB);
    assert_eq!(decode_request(&frame).unwrap_err(), DecodeError::TrailingBytes);
}

#[test]
fn truncated_frames_are_a_decode_error() {
    let frame = build_echo_frame(0, 1, "c", "m");
    for cut in [0, 1, 7, frame.len() - 1] {
        let prefix: Vec<u8> = frame[..cut].to_vec();
        assert_eq!(decode_request(&prefix).unwrap_err(), DecodeError::Truncated);
    }
}

#[test]
fn response_echoes_correlation_id() {
    let header = RequestHeader::new(ECHO_API_KEY, 3, 987654, "c".to_string());
    let m = RequestMessage::new(header, EchoRequest::new("payload".to_string()));
    let resp = m.new_response(EchoResponse { msg: m.request.msg.clone() });
    assert_eq!(resp.correlation_id, 987654);
    assert_eq!(resp.response.msg, "payload");
}

#[test]
fn echo_response_round_trips() {
    let resp = ResponseMessage { correlation_id: -7, response: EchoResponse { msg: "hello".to_string() } };
    let frame = encode_echo_response(&resp);
    let decoded = decode_echo_response(&frame).unwrap();
    assert_eq!(decoded.correlation_id, -7);
    assert_eq!(decoded.response.msg, "hello");
}

#[test]
fn echo_response_decode_rejects_bad_frames() {
    assert_eq!(
        decode_echo_response(&vec![0, 0, 0]).map(|r| r.correlation_id),
        Err(DecodeError::Truncated)
    );
    let resp = ResponseMessage { correlation_id: 0, response: EchoResponse { msg: String::new() } };
    let mut frame = encode_echo_response(&resp);
    frame.push(1);
    assert_eq!(
        decode_echo_response(&frame).map(|r| r.correlation_id),
        Err(DecodeError::TrailingBytes)
    );
}

#[test]
fn default_request_is_an_empty_echo() {
    match TestApiRequest::default() {
        TestApiRequest::EchoRequest(m) => {
            assert_eq!(m.header.api_key, ECHO_API_KEY);
            assert_eq!(m.header.api_version, 0);
            assert_eq!(m.header.correlation_id, 0);
            assert_eq!(m.header.client_id, "");
            assert_eq!(m.request.msg, "");
        }
        other => panic!("default is the wrong variant: {:?}", other),
    }
}

#[test]
fn save_response_round_trips() {
    for corr in [i32::MIN, -1, 0, 1, i32::MAX] {
        let resp = ResponseMessage { correlation_id: corr, response: SaveResponse {} };
        let frame = encode_save_response(&resp);
        assert_eq!(frame.len(), 4);
        assert_eq!(decode_save_response(&frame).unwrap().correlation_id, corr);
    }
    assert_eq!(
        decode_save_response(&vec![0, 0, 0]).map(|r| r.correlation_id),
        Err(DecodeError::Truncated)
    );
    assert_eq!(
        decode_save_response(&vec![0, 0, 0, 0, 0]).map(|r| r.correlation_id),
        Err(DecodeError::TrailingBytes)
    );
}
