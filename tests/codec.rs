use causeway::codec::{classify, decode, encode, Command, DecodeError, FrameFields, InboundFrame};
use causeway::CdpErrorData;

#[test]
fn encode_writes_id_method_params() {
    let cmd = Command { id: 42, method: "Page.navigate".to_string(), params: "{\"url\":\"x\"}".to_string() };
    assert_eq!(encode(&cmd), "{\"id\":42,\"method\":\"Page.navigate\",\"params\":{\"url\":\"x\"}}");
}

#[test]
fn encode_escapes_method() {
    let cmd = Command { id: 1, method: "a\"b".to_string(), params: "{}".to_string() };
    assert_eq!(encode(&cmd), "{\"id\":1,\"method\":\"a\\\"b\",\"params\":{}}");
}

#[test]
fn encode_largest_id() {
    let cmd = Command { id: u64::MAX, method: "M".to_string(), params: "null".to_string() };
    assert_eq!(encode(&cmd), "{\"id\":18446744073709551615,\"method\":\"M\",\"params\":null}");
}

#[test]
fn decode_response_with_result() {
    match decode("{\"id\":5,\"result\":{\"a\":[1,2]}}") {
        Ok(InboundFrame::Response { id, outcome }) => {
            assert_eq!(id, 5);
            assert_eq!(outcome.ok().unwrap(), "{\"a\":[1,2]}");
        }
        _ => panic!("expected a response"),
    }
}

#[test]
fn decode_response_without_result_is_null() {
    match decode("{\"id\":6}") {
        Ok(InboundFrame::Response { id, outcome }) => {
            assert_eq!(id, 6);
            assert_eq!(outcome.ok().unwrap(), "null");
        }
        _ => panic!("expected a response"),
    }
}

#[test]
fn decode_error_response() {
    match decode("{\"id\":2,\"error\":{\"code\":-32000,\"message\":\"boom\"},\"result\":1}") {
        Ok(InboundFrame::Response { id, outcome: Err(e) }) => {
            assert_eq!(id, 2);
            assert_eq!(e.code, -32000);
            assert_eq!(e.message, "boom");
        }
        _ => panic!("expected an error response"),
    }
}

#[test]
fn decode_event() {
    match decode("{\"method\":\"Target.targetCreated\",\"params\":{\"x\":1}}") {
        Ok(InboundFrame::Event(ev)) => {
            assert_eq!(ev.method, "Target.targetCreated");
            assert_eq!(ev.params, "{\"x\":1}");
        }
        _ => panic!("expected an event"),
    }
}

#[test]
fn decode_event_without_params() {
    match decode("{\"method\":\"Page.frameStoppedLoading\"}") {
        Ok(InboundFrame::Event(ev)) => assert_eq!(ev.params, "null"),
        _ => panic!("expected an event"),
    }
}

#[test]
fn decode_not_json_is_malformed() {
    assert!(matches!(decode("{oops"), Err(DecodeError::Malformed)));
    assert!(matches!(decode("[1,2]"), Err(DecodeError::Malformed)));
}

#[test]
fn decode_wrong_field_type_is_malformed() {
    assert!(matches!(decode("{\"id\":\"seven\"}"), Err(DecodeError::Malformed)));
    assert!(matches!(decode("{\"method\":3}"), Err(DecodeError::Malformed)));
    assert!(matches!(decode("{\"id\":1,\"error\":{\"code\":1}}"), Err(DecodeError::Malformed)));
}

#[test]
fn decode_id_and_method_is_unclassified() {
    assert!(matches!(decode("{\"id\":1,\"method\":\"X\"}"), Err(DecodeError::Unclassified)));
}

#[test]
fn decode_neither_id_nor_method_is_unclassified() {
    assert!(matches!(decode("{}"), Err(DecodeError::Unclassified)));
    assert!(matches!(decode("{\"id\":null,\"result\":1}"), Err(DecodeError::Unclassified)));
}

#[test]
fn classify_prefers_error_over_result() {
    let f = FrameFields {
        id: Some(3),
        method: None,
        result: Some("1".to_string()),
        error: Some(CdpErrorData { code: 4, message: "bad".to_string() }),
        params: None,
    };
    match classify(f) {
        Ok(InboundFrame::Response { id: 3, outcome: Err(e) }) => assert_eq!(e.code, 4),
        _ => panic!("expected an error response"),
    }
}

#[test]
fn classify_event_and_refusal() {
    let ev = FrameFields { id: None, method: Some("E".to_string()), result: None, error: None, params: None };
    assert!(matches!(classify(ev), Ok(InboundFrame::Event(_))));
    let none = FrameFields { id: None, method: None, result: Some("1".to_string()), error: None, params: None };
    assert!(matches!(classify(none), Err(DecodeError::Unclassified)));
}
