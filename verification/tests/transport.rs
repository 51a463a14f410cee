use mcp_rust_sdk::error::Error;
use mcp_rust_sdk::transport::stdio::{line_step, LineStep};
use mcp_rust_sdk::transport::websocket::{
    close_step, closing_frame, handle_ws_message, parse_ws_message, receive_step, transport_error,
    CloseInfo, CloseStep, Handled, Parsed, ReceiveStep, WsFailure, WsFrame,
};
use mcp_rust_sdk::transport::Message;

fn failure(closed: bool, text: &str) -> WsFailure {
    WsFailure { connection_closed: closed, description: text.to_string() }
}

#[test]
fn text_frames_are_decoded() {
    let text = "{\"type\":\"notification\",\"jsonrpc\":\"2.0\",\"method\":\"test/method\"}";
    match parse_ws_message(WsFrame::Text(text.to_string())) {
        Parsed::Decode(t) => assert_eq!(t, text),
        other => panic!("expected text to decode, got {:?}", other),
    }
}

#[test]
fn control_frames_parse_to_notifications() {
    match parse_ws_message(WsFrame::Ping(vec![1, 2])) {
        Parsed::Ready(Ok(Message::Notification(n))) => {
            assert_eq!(n.method, "ping");
            assert_eq!(n.jsonrpc, "2.0");
            assert!(n.params.is_none());
        }
        other => panic!("unexpected {:?}", other),
    }
    match parse_ws_message(WsFrame::Pong(vec![])) {
        Parsed::Ready(Ok(Message::Notification(n))) => assert_eq!(n.method, "pong"),
        other => panic!("unexpected {:?}", other),
    }
}

#[test]
fn unsupported_frames_are_transport_errors() {
    assert!(matches!(parse_ws_message(WsFrame::Binary(vec![0])),
        Parsed::Ready(Err(Error::Transport(ref s))) if s == "Binary messages not supported"));
    assert!(matches!(parse_ws_message(WsFrame::Close(None)),
        Parsed::Ready(Err(Error::Transport(ref s))) if s == "Connection closed"));
    assert!(matches!(parse_ws_message(WsFrame::Frame),
        Parsed::Ready(Err(Error::Transport(ref s))) if s == "Raw frames not supported"));
}

#[test]
fn pings_are_answered_with_the_same_payload() {
    match handle_ws_message(WsFrame::Ping(vec![7, 8, 9])) {
        Handled::Reply(WsFrame::Pong(data)) => assert_eq!(data, vec![7, 8, 9]),
        other => panic!("unexpected {:?}", other),
    }
    assert!(matches!(handle_ws_message(WsFrame::Pong(vec![1])), Handled::Skip));
    assert!(matches!(handle_ws_message(WsFrame::Text("x".to_string())), Handled::Yield(Parsed::Decode(_))));
}

#[test]
fn receiving_steps() {
    assert!(matches!(receive_step(None), ReceiveStep::End));
    assert!(matches!(receive_step(Some(Err(failure(false, "reset")))),
        ReceiveStep::Yield(Err(Error::Transport(ref s))) if s == "reset"));
    assert!(matches!(receive_step(Some(Ok(WsFrame::Ping(vec![1])))), ReceiveStep::Reply(WsFrame::Pong(_))));
    assert!(matches!(receive_step(Some(Ok(WsFrame::Pong(vec![1])))), ReceiveStep::Continue));
    assert!(matches!(receive_step(Some(Ok(WsFrame::Text("{}".to_string())))), ReceiveStep::Decode(ref t) if t == "{}"));
    assert!(matches!(receive_step(Some(Ok(WsFrame::Binary(vec![])))), ReceiveStep::Yield(Err(Error::Transport(_)))));
}

#[test]
fn closing_handshake() {
    match closing_frame() {
        WsFrame::Close(Some(CloseInfo { code, reason })) => {
            assert_eq!(code, 1000);
            assert_eq!(reason, "Client initiated close");
        }
        other => panic!("unexpected {:?}", other),
    }
    assert!(matches!(close_step(None), CloseStep::Done(Ok(()))));
    assert!(matches!(close_step(Some(Ok(WsFrame::Close(None)))), CloseStep::Done(Ok(()))));
    assert!(matches!(close_step(Some(Ok(WsFrame::Text("late".to_string())))), CloseStep::Continue));
    assert!(matches!(close_step(Some(Err(failure(true, "closed")))), CloseStep::Done(Ok(()))));
    assert!(matches!(close_step(Some(Err(failure(false, "io")))),
        CloseStep::Done(Err(Error::Transport(ref s))) if s == "io"));
}

#[test]
fn failures_are_transport_errors() {
    assert!(matches!(transport_error(failure(false, "timed out")), Error::Transport(ref s) if s == "timed out"));
}

#[test]
fn stdin_lines() {
    assert!(matches!(line_step(Ok(0)), LineStep::Stop));
    assert!(matches!(line_step(Ok(12)), LineStep::Decode));
    assert!(matches!(line_step(Err("bad fd".to_string())), LineStep::Fail(Error::Io(ref s)) if s == "bad fd"));
}

#[test]
fn endpoints_parse_ws_and_wss_urls() {
    let plain = mcp_rust_sdk::transport::websocket::endpoint("ws://127.0.0.1:8780").unwrap();
    assert_eq!(plain.as_str(), "ws://127.0.0.1:8780/");
    assert_eq!(plain.scheme(), "ws");
    let secure = mcp_rust_sdk::transport::websocket::endpoint("wss://example.com/mcp").unwrap();
    assert_eq!(secure.scheme(), "wss");
    assert_eq!(secure.path(), "/mcp");
}

#[test]
fn unparsable_endpoints_are_transport_errors() {
    match mcp_rust_sdk::transport::websocket::endpoint("not a url") {
        Err(Error::Transport(message)) => assert_eq!(message, "relative URL without a base"),
        other => panic!("unexpected {:?}", other),
    }
    match mcp_rust_sdk::transport::websocket::endpoint("ws://[::1") {
        Err(Error::Transport(message)) => assert_eq!(message, "invalid IPv6 address"),
        other => panic!("unexpected {:?}", other),
    }
}
