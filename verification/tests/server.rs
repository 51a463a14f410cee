use mcp_rust_sdk::error::{Error, ErrorCode};
use mcp_rust_sdk::protocol::{Notification, Request, RequestId, Response, ResponseError};
use mcp_rust_sdk::server::{ServerSession, ServerStep};
use mcp_rust_sdk::transport::Message;
use serde_json::Value;

fn object(entries: &[(&str, Value)]) -> Value {
    let mut m = serde_json::Map::new();
    for (k, v) in entries {
        m.insert(k.to_string(), v.clone());
    }
    Value::Object(m)
}

fn initialize_request(id: i64) -> Request {
    Request::new(
        "initialize",
        Some(object(&[
            (
                "implementation",
                object(&[
                    ("name", Value::String("test-client".to_string())),
                    ("version", Value::String("0.1.0".to_string())),
                ]),
            ),
            ("capabilities", object(&[])),
            ("protocolVersion", Value::String("2024-11-05".to_string())),
        ])),
        RequestId::Number(id),
    )
}

fn expect_response(step: ServerStep) -> Response {
    match step {
        ServerStep::Respond(r) => r,
        other => panic!("expected a response, got {:?}", other),
    }
}

#[test]
fn test_server_error_handling() {
    let mut server = ServerSession::new();
    let method_request = Request::new(
        "test_method",
        Some(object(&[("key", Value::String("value".to_string()))])),
        RequestId::Number(1),
    );
    let response = expect_response(server.on_item(Ok(Message::Request(method_request))));
    assert!(response.error.is_some(), "Response should contain error");
    assert_eq!(
        response.error.as_ref().unwrap().code,
        ErrorCode::ServerNotInitialized.code(),
        "Should receive server not initialized error"
    );
    assert_eq!(response.error.as_ref().unwrap().message, "Server not initialized");
    assert!(matches!(response.id, RequestId::Number(1)));
    assert!(matches!(
        server.on_item(Ok(Message::Notification(Notification::new("exit", None)))),
        ServerStep::Stop
    ));
}

#[test]
fn test_server_fast_operation() {
    let mut server = ServerSession::new();

    // initialize reaches the handler, whose capabilities become the result
    let step = server.on_item(Ok(Message::Request(initialize_request(1))));
    let (id, params) = match step {
        ServerStep::Initialize { id, params } => (id, params),
        other => panic!("expected initialize, got {:?}", other),
    };
    assert!(matches!(id, RequestId::Number(1)));
    let (implementation, capabilities) = ServerSession::initialize_arguments(params);
    assert_eq!(
        implementation,
        object(&[
            ("name", Value::String("test-client".to_string())),
            ("version", Value::String("0.1.0".to_string())),
        ])
    );
    assert_eq!(capabilities, object(&[]));
    let response = ServerSession::answer(id, Ok(object(&[])));
    assert!(response.error.is_none(), "Response should not contain error");
    assert!(response.result.is_some(), "Response should contain result");

    // initialized notification
    assert!(matches!(
        server.on_item(Ok(Message::Notification(Notification::new("initialized", None)))),
        ServerStep::Continue
    ));

    // a custom method reaches the handler
    let method_request = Request::new(
        "test_method",
        Some(object(&[("key", Value::String("value".to_string()))])),
        RequestId::Number(2),
    );
    let step = server.on_item(Ok(Message::Request(method_request)));
    let (id, method, params) = match step {
        ServerStep::Method { id, method, params } => (id, method, params),
        other => panic!("expected a method call, got {:?}", other),
    };
    assert_eq!(method, "test_method");
    assert_eq!(params, Some(object(&[("key", Value::String("value".to_string()))])));
    let handler_result = object(&[("status", Value::String("ok".to_string()))]);
    let response = ServerSession::answer(id, Ok(handler_result));
    assert!(response.error.is_none(), "Response should not contain error");
    assert_eq!(
        response.result,
        Some(object(&[("status", Value::String("ok".to_string()))])),
        "Response should match handler result"
    );
    assert!(matches!(response.id, RequestId::Number(2)));

    assert!(matches!(
        server.on_item(Ok(Message::Notification(Notification::new("exit", None)))),
        ServerStep::Stop
    ));
}

#[test]
fn second_initialize_is_refused() {
    let mut server = ServerSession::new();
    server.on_item(Ok(Message::Notification(Notification::new("initialized", None))));
    let response = expect_response(server.on_item(Ok(Message::Request(initialize_request(7)))));
    let e = response.error.unwrap();
    assert_eq!(e.code, ErrorCode::InvalidRequest.code());
    assert_eq!(e.message, "Server already initialized");
    assert!(matches!(response.id, RequestId::Number(7)));
}

#[test]
fn shutdown_needs_initialization() {
    let mut server = ServerSession::new();
    let r = expect_response(
        server.on_item(Ok(Message::Request(Request::new("shutdown", None, RequestId::Number(3))))),
    );
    assert_eq!(r.error.unwrap().code, -32002);
    server.on_item(Ok(Message::Notification(Notification::new("initialized", None))));
    let step = server.on_item(Ok(Message::Request(Request::new("shutdown", None, RequestId::Number(4)))));
    assert!(matches!(step, ServerStep::Shutdown { id: RequestId::Number(4) }));
    let ok = ServerSession::answer_shutdown(RequestId::Number(4), Ok(()));
    assert!(ok.result.is_none());
    assert!(ok.error.is_none());
    let failed = ServerSession::answer_shutdown(RequestId::Number(4), Err(Error::Other("busy".to_string())));
    assert!(failed.result.is_none());
    assert_eq!(failed.error.unwrap().code, -32603);
}

#[test]
fn other_notifications_change_nothing() {
    let mut server = ServerSession::new();
    let step = server.on_item(Ok(Message::Notification(Notification::new("progress", None))));
    assert!(matches!(step, ServerStep::Continue));
    let refused = server.on_item(Ok(Message::Request(Request::new("tools/list", None, RequestId::Number(1)))));
    assert_eq!(expect_response(refused).error.unwrap().code, -32002);
}

#[test]
fn a_response_stops_the_server_with_an_error() {
    let mut server = ServerSession::new();
    let step = server.on_item(Ok(Message::Response(Response::success(RequestId::Number(1), None))));
    match step {
        ServerStep::Fail(Error::Protocol { code, message, .. }) => {
            assert_eq!(code, ErrorCode::InvalidRequest);
            assert_eq!(message, "Server received unexpected response");
        }
        other => panic!("expected a failure, got {:?}", other),
    }
}

#[test]
fn a_transport_error_stops_the_server_with_that_error() {
    let mut server = ServerSession::new();
    let step = server.on_item(Err(Error::Io("eof".to_string())));
    assert!(matches!(step, ServerStep::Fail(Error::Io(ref s)) if s == "eof"));
}

#[test]
fn handler_errors_become_error_responses() {
    let r = ServerSession::answer(
        RequestId::String("x".to_string()),
        Err(Error::protocol(ErrorCode::InvalidParams, "missing name")),
    );
    assert!(r.result.is_none());
    let e: ResponseError = r.error.unwrap();
    assert_eq!(e.code, -32602);
    assert_eq!(e.message, "missing name");
    assert!(matches!(r.id, RequestId::String(ref s) if s == "x"));
}

#[test]
fn initialize_arguments_default_to_null() {
    let (i, c) = ServerSession::initialize_arguments(None);
    assert_eq!(i, Value::Null);
    assert_eq!(c, Value::Null);
    let (i, c) = ServerSession::initialize_arguments(Some(object(&[("capabilities", Value::Bool(true))])));
    assert_eq!(i, Value::Null);
    assert_eq!(c, Value::Bool(true));
    let (i, c) = ServerSession::initialize_arguments(Some(Value::Bool(true)));
    assert_eq!(i, Value::Null);
    assert_eq!(c, Value::Null);
}
