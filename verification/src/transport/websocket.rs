//! What the WebSocket transport decides about the frames it reads: which
//! become messages, which are answered at once, which end the connection.
//! The frames themselves are read and written by the transport's I/O; here
//! a frame is held as the plain values that these decisions read.
use vstd::prelude::*;

use crate::error::{Error, ErrorView};
use crate::protocol::{notification_view, Notification};
use crate::transport::{Message, MessageView};

verus! {

/// `url::Url`, held opaquely.
#[verifier::external_type_specification]
#[verifier::external_body]
pub struct ExUrl(url::Url);

/// What `url::Url::parse` makes of a text that it accepts.
pub uninterp spec fn parsed_url(text: Seq<char>) -> url::Url;

/// Why `url::Url::parse` refuses a text, as its error displays itself, or
/// `None` when it accepts the text.
pub uninterp spec fn url_parse_error(text: Seq<char>) -> Option<Seq<char>>;

/// `url::Url::parse`, its error turned into the text it displays.
#[verifier::external_body]
fn parse_url(text: &str) -> (r: Result<url::Url, String>)
    ensures
        match url_parse_error(text@) {
            None => r == Ok::<url::Url, String>(parsed_url(text@)),
            Some(m) => r matches Err(s) && s@ == m,
        },
{
    url::Url::parse(text).map_err(|e| e.to_string())
}

/// The address a WebSocket client connects to: the URL that `text`
/// parses to (`ws://` or `wss://`), or a transport error that says why it
/// does not parse.
pub fn endpoint(text: &str) -> (r: Result<url::Url, Error>)
    ensures
        match url_parse_error(text@) {
            None => r == Ok::<url::Url, Error>(parsed_url(text@)),
            Some(m) => r matches Err(e) && e@ == ErrorView::Transport(m),
        },
{
    match parse_url(text) {
        Ok(url) => Ok(url),
        Err(message) => Err(Error::Transport(message)),
    }
}

/// The status code and reason of a close frame.
#[derive(Debug, Clone)]
pub struct CloseInfo {
    pub code: u16,
    pub reason: String,
}

/// A WebSocket frame, as the transport's decisions see it.
#[derive(Debug, Clone)]
pub enum WsFrame {
    Text(String),
    Binary(Vec<u8>),
    Ping(Vec<u8>),
    Pong(Vec<u8>),
    Close(Option<CloseInfo>),
    /// A raw frame; its contents are never read.
    Frame,
}

/// What a frame holds.
pub enum WsFrameView {
    Text(Seq<char>),
    Binary(Seq<u8>),
    Ping(Seq<u8>),
    Pong(Seq<u8>),
    Close(Option<(u16, Seq<char>)>),
    Frame,
}

impl View for WsFrame {
    type V = WsFrameView;

    open spec fn view(&self) -> WsFrameView {
        match self {
            WsFrame::Text(t) => WsFrameView::Text(t@),
            WsFrame::Binary(b) => WsFrameView::Binary(b@),
            WsFrame::Ping(b) => WsFrameView::Ping(b@),
            WsFrame::Pong(b) => WsFrameView::Pong(b@),
            WsFrame::Close(c) => WsFrameView::Close(
                match c {
                    Some(info) => Some((info.code, info.reason@)),
                    None => None,
                },
            ),
            WsFrame::Frame => WsFrameView::Frame,
        }
    }
}

/// A failure of the WebSocket connection: whether it is the error that
/// reports an already closed connection, and how it describes itself.
#[derive(Debug, Clone)]
pub struct WsFailure {
    pub connection_closed: bool,
    pub description: String,
}

/// What a frame yields once parsed: a text to decode as a JSON message, or
/// a message or an error at once.
#[derive(Debug)]
pub enum Parsed {
    Decode(String),
    Ready(Result<Message, Error>),
}

/// What a parsed frame holds.
pub enum ParsedView {
    Decode(Seq<char>),
    Ready(Result<MessageView, ErrorView>),
}

impl View for Parsed {
    type V = ParsedView;

    open spec fn view(&self) -> ParsedView {
        match self {
            Parsed::Decode(t) => ParsedView::Decode(t@),
            Parsed::Ready(Ok(m)) => ParsedView::Ready(Ok(m@)),
            Parsed::Ready(Err(e)) => ParsedView::Ready(Err(e@)),
        }
    }
}

/// A notification of `method` with no parameters.
pub open spec fn bare_notification(method: Seq<char>) -> MessageView {
    MessageView::Notification(notification_view(method, None))
}

/// How a frame is parsed: text is a JSON message to decode; a ping or pong
/// becomes a `ping` or `pong` notification; binary data, a close frame and
/// a raw frame are transport errors.
pub open spec fn parse_spec(frame: WsFrameView) -> ParsedView {
    match frame {
        WsFrameView::Text(t) => ParsedView::Decode(t),
        WsFrameView::Binary(_) => ParsedView::Ready(
            Err(ErrorView::Transport("Binary messages not supported"@)),
        ),
        WsFrameView::Ping(_) => ParsedView::Ready(Ok(bare_notification("ping"@))),
        WsFrameView::Pong(_) => ParsedView::Ready(Ok(bare_notification("pong"@))),
        WsFrameView::Close(_) => ParsedView::Ready(Err(ErrorView::Transport("Connection closed"@))),
        WsFrameView::Frame => ParsedView::Ready(Err(ErrorView::Transport("Raw frames not supported"@))),
    }
}

/// Parses a frame into a message.
pub fn parse_ws_message(frame: WsFrame) -> (r: Parsed)
    ensures
        r@ == parse_spec(frame@),
{
    match frame {
        WsFrame::Text(text) => Parsed::Decode(text),
        WsFrame::Binary(_) => Parsed::Ready(
            Err(Error::Transport("Binary messages not supported".to_owned())),
        ),
        WsFrame::Ping(_) => Parsed::Ready(Ok(Message::Notification(Notification::new("ping", None)))),
        WsFrame::Pong(_) => Parsed::Ready(Ok(Message::Notification(Notification::new("pong", None)))),
        WsFrame::Close(_) => Parsed::Ready(Err(Error::Transport("Connection closed".to_owned()))),
        WsFrame::Frame => Parsed::Ready(Err(Error::Transport("Raw frames not supported".to_owned()))),
    }
}

/// What the transport does with a frame it reads.
#[derive(Debug)]
pub enum Handled {
    /// Send this frame back, and yield nothing.
    Reply(WsFrame),
    /// Yield nothing.
    Skip,
    /// Yield what the frame parses to.
    Yield(Parsed),
}

/// What a handled frame holds.
pub enum HandledView {
    Reply(WsFrameView),
    Skip,
    Yield(ParsedView),
}

impl View for Handled {
    type V = HandledView;

    open spec fn view(&self) -> HandledView {
        match self {
            Handled::Reply(f) => HandledView::Reply(f@),
            Handled::Skip => HandledView::Skip,
            Handled::Yield(p) => HandledView::Yield(p@),
        }
    }
}

/// How the transport handles a frame: a ping is answered with a pong that
/// carries the same payload, a pong is ignored, any other frame is parsed.
pub open spec fn handle_spec(frame: WsFrameView) -> HandledView {
    match frame {
        WsFrameView::Ping(data) => HandledView::Reply(WsFrameView::Pong(data)),
        WsFrameView::Pong(_) => HandledView::Skip,
        _ => HandledView::Yield(parse_spec(frame)),
    }
}

/// Handles a frame, answering control frames.
pub fn handle_ws_message(frame: WsFrame) -> (r: Handled)
    ensures
        r@ == handle_spec(frame@),
        frame matches WsFrame::Ping(d) ==> (r matches Handled::Reply(WsFrame::Pong(p)) && p@ == d@),
{
    match frame {
        WsFrame::Ping(data) => Handled::Reply(WsFrame::Pong(data)),
        WsFrame::Pong(_) => Handled::Skip,
        _ => Handled::Yield(parse_ws_message(frame)),
    }
}

/// The transport error that reports a failure of the connection.
pub open spec fn failure_error(f: WsFailure) -> ErrorView {
    ErrorView::Transport(f.description@)
}

/// The transport error that reports a failure of the connection.
pub fn transport_error(failure: WsFailure) -> (r: Error)
    ensures
        r@ == failure_error(failure),
{
    Error::Transport(failure.description)
}

/// What the receiving stream does with one item read from the connection.
#[derive(Debug)]
pub enum ReceiveStep {
    /// The connection has ended: the stream ends.
    End,
    /// Yield this item.
    Yield(Result<Message, Error>),
    /// Decode this text as a message and yield the outcome.
    Decode(String),
    /// Send this frame back, then read on.
    Reply(WsFrame),
    /// Read on.
    Continue,
}

/// What a receive step holds.
pub enum ReceiveStepView {
    End,
    Yield(Result<MessageView, ErrorView>),
    Decode(Seq<char>),
    Reply(WsFrameView),
    Continue,
}

impl View for ReceiveStep {
    type V = ReceiveStepView;

    open spec fn view(&self) -> ReceiveStepView {
        match self {
            ReceiveStep::End => ReceiveStepView::End,
            ReceiveStep::Yield(Ok(m)) => ReceiveStepView::Yield(Ok(m@)),
            ReceiveStep::Yield(Err(e)) => ReceiveStepView::Yield(Err(e@)),
            ReceiveStep::Decode(t) => ReceiveStepView::Decode(t@),
            ReceiveStep::Reply(f) => ReceiveStepView::Reply(f@),
            ReceiveStep::Continue => ReceiveStepView::Continue,
        }
    }
}

/// What was read from the connection: nothing more, a frame, or a failure.
pub open spec fn read_view(item: Option<Result<WsFrame, WsFailure>>) -> Option<Result<WsFrameView, WsFailure>> {
    match item {
        None => None,
        Some(Ok(f)) => Some(Ok(f@)),
        Some(Err(e)) => Some(Err(e)),
    }
}

/// How the receiving stream treats what it reads: the end of the connection
/// ends the stream, a failure is yielded as a transport error, and a frame
/// is handled.
pub open spec fn receive_spec(item: Option<Result<WsFrameView, WsFailure>>) -> ReceiveStepView {
    match item {
        None => ReceiveStepView::End,
        Some(Err(f)) => ReceiveStepView::Yield(Err(failure_error(f))),
        Some(Ok(frame)) => match handle_spec(frame) {
            HandledView::Reply(reply) => ReceiveStepView::Reply(reply),
            HandledView::Skip => ReceiveStepView::Continue,
            HandledView::Yield(ParsedView::Decode(t)) => ReceiveStepView::Decode(t),
            HandledView::Yield(ParsedView::Ready(r)) => ReceiveStepView::Yield(r),
        },
    }
}

/// What the receiving stream does with one item read from the connection.
pub fn receive_step(item: Option<Result<WsFrame, WsFailure>>) -> (r: ReceiveStep)
    ensures
        r@ == receive_spec(read_view(item)),
        // A ping is answered with a pong that carries the same payload.
        item matches Some(Ok(WsFrame::Ping(d))) ==> (r matches ReceiveStep::Reply(WsFrame::Pong(p))
            && p@ == d@),
{
    match item {
        None => ReceiveStep::End,
        Some(Err(failure)) => ReceiveStep::Yield(Err(transport_error(failure))),
        Some(Ok(frame)) => match handle_ws_message(frame) {
            Handled::Reply(reply) => ReceiveStep::Reply(reply),
            Handled::Skip => ReceiveStep::Continue,
            Handled::Yield(Parsed::Decode(text)) => ReceiveStep::Decode(text),
            Handled::Yield(Parsed::Ready(r)) => ReceiveStep::Yield(r),
        },
    }
}

/// A ping of any payload is answered with a pong of the same payload, and
/// nothing is yielded for it.
pub proof fn lemma_ping_answered_with_same_payload(d: Seq<u8>)
    ensures
        receive_spec(Some(Ok(WsFrameView::Ping(d)))) == ReceiveStepView::Reply(WsFrameView::Pong(d)),
{
}

/// The frame that opens the closing handshake: a normal closure.
pub open spec fn closing_frame_spec() -> WsFrameView {
    WsFrameView::Close(Some((1000u16, "Client initiated close"@)))
}

/// The frame that opens the closing handshake: a normal closure.
pub fn closing_frame() -> (r: WsFrame)
    ensures
        r@ == closing_frame_spec(),
{
    WsFrame::Close(Some(CloseInfo { code: 1000, reason: "Client initiated close".to_owned() }))
}

/// Whether the closing handshake goes on reading after `item`, and if not,
/// how closing ends.
#[derive(Debug)]
pub enum CloseStep {
    Done(Result<(), Error>),
    Continue,
}

/// What a close step holds.
pub enum CloseStepView {
    Done(Result<(), ErrorView>),
    Continue,
}

impl View for CloseStep {
    type V = CloseStepView;

    open spec fn view(&self) -> CloseStepView {
        match self {
            CloseStep::Done(Ok(())) => CloseStepView::Done(Ok(())),
            CloseStep::Done(Err(e)) => CloseStepView::Done(Err(e@)),
            CloseStep::Continue => CloseStepView::Continue,
        }
    }
}

/// How the closing handshake treats what it reads after sending its close
/// frame: the peer's close frame, the end of the connection, or the error
/// of an already closed connection end it successfully; any other failure
/// ends it with a transport error; any other frame is skipped.
pub open spec fn close_spec(item: Option<Result<WsFrameView, WsFailure>>) -> CloseStepView {
    match item {
        None => CloseStepView::Done(Ok(())),
        Some(Ok(WsFrameView::Close(_))) => CloseStepView::Done(Ok(())),
        Some(Ok(_)) => CloseStepView::Continue,
        Some(Err(f)) => if f.connection_closed {
            CloseStepView::Done(Ok(()))
        } else {
            CloseStepView::Done(Err(failure_error(f)))
        },
    }
}

/// Any close frame from the peer, with or without a status and reason, ends
/// the closing handshake successfully.
pub proof fn lemma_peer_close_ends_closing(c: Option<(u16, Seq<char>)>)
    ensures
        close_spec(Some(Ok(WsFrameView::Close(c)))) == CloseStepView::Done(Ok::<(), ErrorView>(())),
{
}

/// Whether the closing handshake goes on reading after `item`.
pub fn close_step(item: Option<Result<WsFrame, WsFailure>>) -> (r: CloseStep)
    ensures
        r@ == close_spec(read_view(item)),
        // The peer's close frame, with or without a status, ends closing
        // successfully.
        item matches Some(Ok(WsFrame::Close(_))) ==> r matches CloseStep::Done(Ok(())),
{
    match item {
        None => CloseStep::Done(Ok(())),
        Some(Ok(WsFrame::Close(_))) => CloseStep::Done(Ok(())),
        Some(Ok(_)) => CloseStep::Continue,
        Some(Err(failure)) => {
            if failure.connection_closed {
                CloseStep::Done(Ok(()))
            } else {
                CloseStep::Done(Err(transport_error(failure)))
            }
        },
    }
}

} // verus!
