use mcp_rust_sdk::error::{Error, ErrorCode};
use mcp_rust_sdk::protocol::{
    Notification, Request, RequestId, Response, ResponseError, JSONRPC_VERSION,
    LATEST_PROTOCOL_VERSION, SUPPORTED_PROTOCOL_VERSIONS,
};
use serde_json::Value;

const ALL_CODES: [ErrorCode; 8] = [
    ErrorCode::ParseError,
    ErrorCode::InvalidRequest,
    ErrorCode::MethodNotFound,
    ErrorCode::InvalidParams,
    ErrorCode::InternalError,
    ErrorCode::ServerNotInitialized,
    ErrorCode::UnknownErrorCode,
    ErrorCode::RequestFailed,
];

#[test]
fn error_code_numbers() {
    assert_eq!(ErrorCode::ParseError.code(), -32700);
    assert_eq!(ErrorCode::InvalidRequest.code(), -32600);
    assert_eq!(ErrorCode::MethodNotFound.code(), -32601);
    assert_eq!(ErrorCode::InvalidParams.code(), -32602);
    assert_eq!(ErrorCode::InternalError.code(), -32603);
    assert_eq!(ErrorCode::ServerNotInitialized.code(), -32002);
    assert_eq!(ErrorCode::UnknownErrorCode.code(), -32001);
    assert_eq!(ErrorCode::RequestFailed.code(), -32000);
    assert_eq!(i32::from(ErrorCode::ParseError), -32700);
    let n: i32 = ErrorCode::InternalError.into();
    assert_eq!(n, -32603);
}

#[test]
fn error_code_roundtrip() {
    for c in ALL_CODES {
        assert_eq!(ErrorCode::from_code(c.code()), c);
    }
}

#[test]
fn unknown_numbers_read_as_unknown_error_code() {
    assert_eq!(ErrorCode::from_code(0), ErrorCode::UnknownErrorCode);
    assert_eq!(ErrorCode::from_code(-32099), ErrorCode::UnknownErrorCode);
    assert_eq!(ErrorCode::from_code(i32::MIN), ErrorCode::UnknownErrorCode);
    assert_ne!(ErrorCode::from_code(0).code(), 0);
    assert_eq!(ErrorCode::from_code(-32000), ErrorCode::RequestFailed);
}

#[test]
fn error_code_names() {
    assert_eq!(ErrorCode::ParseError.name(), "ParseError");
    assert_eq!(ErrorCode::ServerNotInitialized.name(), "ServerNotInitialized");
    assert_eq!(ErrorCode::RequestFailed.name(), "RequestFailed");
}

#[test]
fn protocol_error_has_no_data() {
    match Error::protocol(ErrorCode::InvalidParams, "bad params") {
        Error::Protocol { code, message, data } => {
            assert_eq!(code, ErrorCode::InvalidParams);
            assert_eq!(message, "bad params");
            assert!(data.is_none());
        }
        _ => panic!("expected a protocol error"),
    }
}

#[test]
fn with_data_attaches_to_protocol_errors_only() {
    let e = Error::protocol(ErrorCode::InternalError, "boom").with_data(Value::Bool(true));
    match e {
        Error::Protocol { code, message, data } => {
            assert_eq!(code, ErrorCode::InternalError);
            assert_eq!(message, "boom");
            assert_eq!(data, Some(Value::Bool(true)));
        }
        _ => panic!("expected a protocol error"),
    }
    let replaced = Error::protocol(ErrorCode::InternalError, "boom")
        .with_data(Value::Bool(true))
        .with_data(Value::Bool(false));
    assert!(matches!(replaced, Error::Protocol { data: Some(Value::Bool(false)), .. }));
    let other = Error::Transport("down".to_string()).with_data(Value::Bool(true));
    assert!(matches!(other, Error::Transport(ref s) if s == "down"));
}

#[test]
fn constants() {
    assert_eq!(JSONRPC_VERSION, "2.0");
    assert_eq!(LATEST_PROTOCOL_VERSION, "2024-11-05");
    assert_eq!(SUPPORTED_PROTOCOL_VERSIONS, ["2024-11-05", "2024-10-07"]);
    assert_eq!(mcp_rust_sdk::JSONRPC_VERSION, "2.0");
}

#[test]
fn request_new() {
    let r = Request::new("tools/list", Some(Value::Bool(true)), RequestId::Number(3));
    assert_eq!(r.jsonrpc, "2.0");
    assert_eq!(r.method, "tools/list");
    assert_eq!(r.params, Some(Value::Bool(true)));
    assert!(matches!(r.id, RequestId::Number(3)));
}

#[test]
fn notification_new() {
    let n = Notification::new("initialized", None);
    assert_eq!(n.jsonrpc, "2.0");
    assert_eq!(n.method, "initialized");
    assert!(n.params.is_none());
}

#[test]
fn response_success_and_error() {
    let ok = Response::success(RequestId::String("a".to_string()), Some(Value::Null));
    assert_eq!(ok.jsonrpc, "2.0");
    assert!(matches!(ok.id, RequestId::String(ref s) if s == "a"));
    assert_eq!(ok.result, Some(Value::Null));
    assert!(ok.error.is_none());

    let err = ResponseError { code: -32601, message: "no such method".to_string(), data: None };
    let bad = Response::error(RequestId::Number(9), err);
    assert_eq!(bad.jsonrpc, "2.0");
    assert!(matches!(bad.id, RequestId::Number(9)));
    assert!(bad.result.is_none());
    let e = bad.error.unwrap();
    assert_eq!(e.code, -32601);
    assert_eq!(e.message, "no such method");
}

#[test]
fn response_error_from_protocol_error_keeps_everything() {
    let e = Error::protocol(ErrorCode::MethodNotFound, "nope").with_data(Value::Bool(false));
    let r = ResponseError::from(e);
    assert_eq!(r.code, -32601);
    assert_eq!(r.message, "nope");
    assert_eq!(r.data, Some(Value::Bool(false)));
}

#[test]
fn response_error_from_other_errors() {
    let t = ResponseError::from(Error::Transport("socket closed".to_string()));
    assert_eq!(t.code, -32603);
    assert_eq!(t.message, "Transport error: socket closed");
    assert!(t.data.is_none());

    let s = ResponseError::from_error(Error::Serialization("expected value".to_string()));
    assert_eq!(s.code, -32700);
    assert_eq!(s.message, "expected value");

    let i = ResponseError::from_error(Error::Io("broken pipe".to_string()));
    assert_eq!(i.code, -32603);
    assert_eq!(i.message, "broken pipe");

    let o = ResponseError::from_error(Error::Other("whatever".to_string()));
    assert_eq!(o.code, -32603);
    assert_eq!(o.message, "whatever");
    assert!(o.data.is_none());
}

#[test]
fn request_id_display() {
    assert_eq!(RequestId::Number(0).to_string(), "0");
    assert_eq!(RequestId::Number(42).to_string(), "42");
    assert_eq!(RequestId::Number(-7).to_string(), "-7");
    assert_eq!(RequestId::Number(1000).to_string(), "1000");
    assert_eq!(RequestId::Number(i64::MAX).to_string(), "9223372036854775807");
    assert_eq!(RequestId::Number(i64::MIN).to_string(), "-9223372036854775808");
    assert_eq!(RequestId::String("req-1".to_string()).to_string(), "req-1");
}

#[test]
fn request_id_equality() {
    assert!(RequestId::Number(5).same_as(&RequestId::Number(5)));
    assert!(!RequestId::Number(5).same_as(&RequestId::Number(6)));
    assert!(RequestId::String("x".to_string()).same_as(&RequestId::String("x".to_string())));
    assert!(!RequestId::String("5".to_string()).same_as(&RequestId::Number(5)));
}

#[test]
fn request_id_operator_equality() {
    assert_eq!(RequestId::Number(5), RequestId::Number(5));
    assert_ne!(RequestId::Number(5), RequestId::Number(6));
    assert_eq!(RequestId::String("x".to_string()), RequestId::String("x".to_string()));
    assert_ne!(RequestId::String("5".to_string()), RequestId::Number(5));
}
