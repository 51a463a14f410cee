//! Messages that travel over a transport, and the decisions that the stdio
//! and WebSocket transports make about what they read.
use vstd::prelude::*;

use crate::protocol::{
    Notification, NotificationView, Request, RequestView, Response, ResponseView,
};

pub mod stdio;
pub mod websocket;

verus! {

/// A message that can be sent over a transport.
#[derive(Debug, Clone)]
pub enum Message {
    Request(Request),
    Response(Response),
    Notification(Notification),
}

/// What a message holds.
pub enum MessageView {
    Request(RequestView),
    Response(ResponseView),
    Notification(NotificationView),
}

impl View for Message {
    type V = MessageView;

    open spec fn view(&self) -> MessageView {
        match self {
            Message::Request(r) => MessageView::Request(r@),
            Message::Response(r) => MessageView::Response(r@),
            Message::Notification(n) => MessageView::Notification(n@),
        }
    }
}

} // verus!
