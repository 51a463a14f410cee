use vstd::prelude::*;

use crate::error::{code_number, Error, ErrorCode, ErrorView};

verus! {

/// The protocol version this library speaks by preference.
pub const LATEST_PROTOCOL_VERSION: &'static str = "2024-11-05";

/// The protocol versions this library can speak, latest first.
pub const SUPPORTED_PROTOCOL_VERSIONS: [&'static str; 2] = [LATEST_PROTOCOL_VERSION, "2024-10-07"];

/// The JSON-RPC version written into every message.
pub const JSONRPC_VERSION: &'static str = "2.0";

/// A unique identifier for a request.
#[derive(Debug, Clone, Hash)]
pub enum RequestId {
    String(String),
    Number(i64),
}

/// What a request id holds.
pub enum RequestIdView {
    String(Seq<char>),
    Number(i64),
}

impl View for RequestId {
    type V = RequestIdView;

    open spec fn view(&self) -> RequestIdView {
        match self {
            RequestId::String(s) => RequestIdView::String(s@),
            RequestId::Number(n) => RequestIdView::Number(*n),
        }
    }
}

impl PartialEq for RequestId {
    fn eq(&self, other: &RequestId) -> (r: bool) {
        self.same_as(other)
    }
}

impl Eq for RequestId {
}

impl vstd::std_specs::cmp::PartialEqSpecImpl for RequestId {
    open spec fn obeys_eq_spec() -> bool {
        true
    }

    open spec fn eq_spec(&self, other: &RequestId) -> bool {
        self@ == other@
    }
}

impl RequestId {
    /// Whether two ids are the same id.
    pub fn same_as(&self, other: &RequestId) -> (r: bool)
        ensures
            r == (self@ == other@),
    {
        match (self, other) {
            (RequestId::String(a), RequestId::String(b)) => a.eq(b),
            (RequestId::Number(a), RequestId::Number(b)) => *a == *b,
            _ => false,
        }
    }
}

/// Base JSON-RPC request structure.
#[derive(Debug, Clone)]
pub struct Request {
    pub jsonrpc: String,
    pub method: String,
    pub params: Option<serde_json::Value>,
    pub id: RequestId,
}

/// Base JSON-RPC notification structure.
#[derive(Debug, Clone)]
pub struct Notification {
    pub jsonrpc: String,
    pub method: String,
    pub params: Option<serde_json::Value>,
}

/// Base JSON-RPC response structure.
#[derive(Debug, Clone)]
pub struct Response {
    pub jsonrpc: String,
    pub id: RequestId,
    pub result: Option<serde_json::Value>,
    pub error: Option<ResponseError>,
}

/// JSON-RPC error object.
#[derive(Debug, Clone)]
pub struct ResponseError {
    pub code: i32,
    pub message: String,
    pub data: Option<serde_json::Value>,
}

/// What a request holds.
pub struct RequestView {
    pub jsonrpc: Seq<char>,
    pub method: Seq<char>,
    pub params: Option<serde_json::Value>,
    pub id: RequestIdView,
}

/// What a notification holds.
pub struct NotificationView {
    pub jsonrpc: Seq<char>,
    pub method: Seq<char>,
    pub params: Option<serde_json::Value>,
}

/// What a JSON-RPC error object holds.
pub struct ResponseErrorView {
    pub code: i32,
    pub message: Seq<char>,
    pub data: Option<serde_json::Value>,
}

/// What a response holds.
pub struct ResponseView {
    pub jsonrpc: Seq<char>,
    pub id: RequestIdView,
    pub result: Option<serde_json::Value>,
    pub error: Option<ResponseErrorView>,
}

impl View for Request {
    type V = RequestView;

    open spec fn view(&self) -> RequestView {
        RequestView {
            jsonrpc: self.jsonrpc@,
            method: self.method@,
            params: self.params,
            id: self.id@,
        }
    }
}

impl View for Notification {
    type V = NotificationView;

    open spec fn view(&self) -> NotificationView {
        NotificationView { jsonrpc: self.jsonrpc@, method: self.method@, params: self.params }
    }
}

impl View for ResponseError {
    type V = ResponseErrorView;

    open spec fn view(&self) -> ResponseErrorView {
        ResponseErrorView { code: self.code, message: self.message@, data: self.data }
    }
}

/// The view of an optional error object.
pub open spec fn opt_error_view(e: Option<ResponseError>) -> Option<ResponseErrorView> {
    match e {
        Some(e) => Some(e@),
        None => None,
    }
}

impl View for Response {
    type V = ResponseView;

    open spec fn view(&self) -> ResponseView {
        ResponseView {
            jsonrpc: self.jsonrpc@,
            id: self.id@,
            result: self.result,
            error: opt_error_view(self.error),
        }
    }
}

/// A request for `method` with `params` under `id`, in JSON-RPC 2.0.
pub open spec fn request_view(
    method: Seq<char>,
    params: Option<serde_json::Value>,
    id: RequestIdView,
) -> RequestView {
    RequestView { jsonrpc: JSONRPC_VERSION@, method, params, id }
}

/// A notification of `method` with `params`, in JSON-RPC 2.0.
pub open spec fn notification_view(
    method: Seq<char>,
    params: Option<serde_json::Value>,
) -> NotificationView {
    NotificationView { jsonrpc: JSONRPC_VERSION@, method, params }
}

/// A successful response to `id` carrying `result`.
pub open spec fn success_view(id: RequestIdView, result: Option<serde_json::Value>) -> ResponseView {
    ResponseView { jsonrpc: JSONRPC_VERSION@, id, result, error: None }
}

/// An error response to `id` carrying `error`.
pub open spec fn error_response_view(id: RequestIdView, error: ResponseErrorView) -> ResponseView {
    ResponseView { jsonrpc: JSONRPC_VERSION@, id, result: None, error: Some(error) }
}

/// The JSON-RPC error object that reports an error: a protocol error keeps
/// its code, message and data; a transport failure is an internal error whose
/// message is prefixed with "Transport error: "; a serialization failure is a
/// parse error; I/O and other failures are internal errors; none of these
/// carries data.
pub open spec fn response_error_of(e: ErrorView) -> ResponseErrorView {
    match e {
        ErrorView::Protocol { code, message, data } => ResponseErrorView {
            code: code_number(code),
            message,
            data,
        },
        ErrorView::Transport(msg) => ResponseErrorView {
            code: code_number(ErrorCode::InternalError),
            message: "Transport error: "@ + msg,
            data: None,
        },
        ErrorView::Serialization(msg) => ResponseErrorView {
            code: code_number(ErrorCode::ParseError),
            message: msg,
            data: None,
        },
        ErrorView::Io(msg) => ResponseErrorView {
            code: code_number(ErrorCode::InternalError),
            message: msg,
            data: None,
        },
        ErrorView::Other(msg) => ResponseErrorView {
            code: code_number(ErrorCode::InternalError),
            message: msg,
            data: None,
        },
    }
}

/// The error object of a protocol error carries that error code's own
/// number (the one `ErrorCode::code` gives), its message and its data.
pub proof fn lemma_protocol_error_keeps_code(
    code: ErrorCode,
    message: Seq<char>,
    data: Option<serde_json::Value>,
)
    ensures
        response_error_of(ErrorView::Protocol { code, message, data }) == (ResponseErrorView {
            code: code_number(code),
            message,
            data,
        }),
        code == ErrorCode::UnknownErrorCode ==> response_error_of(
            ErrorView::Protocol { code, message, data },
        ).code == -32001i32,
        code == ErrorCode::ServerNotInitialized ==> response_error_of(
            ErrorView::Protocol { code, message, data },
        ).code == -32002i32,
{
}

impl Request {
    /// A JSON-RPC 2.0 request for `method` with `params` under `id`.
    pub fn new(method: &str, params: Option<serde_json::Value>, id: RequestId) -> (r: Self)
        ensures
            r@ == request_view(method@, params, id@),
    {
        Request { jsonrpc: JSONRPC_VERSION.to_owned(), method: method.to_owned(), params, id }
    }
}

impl Notification {
    /// A JSON-RPC 2.0 notification of `method` with `params`.
    pub fn new(method: &str, params: Option<serde_json::Value>) -> (r: Self)
        ensures
            r@ == notification_view(method@, params),
    {
        Notification { jsonrpc: JSONRPC_VERSION.to_owned(), method: method.to_owned(), params }
    }
}

impl Response {
    /// A successful response to `id` carrying `result`.
    pub fn success(id: RequestId, result: Option<serde_json::Value>) -> (r: Self)
        ensures
            r@ == success_view(id@, result),
    {
        Response { jsonrpc: JSONRPC_VERSION.to_owned(), id, result, error: None }
    }

    /// An error response to `id` carrying `error`.
    pub fn error(id: RequestId, error: ResponseError) -> (r: Self)
        ensures
            r@ == error_response_view(id@, error@),
    {
        Response { jsonrpc: JSONRPC_VERSION.to_owned(), id, result: None, error: Some(error) }
    }
}

impl ResponseError {
    /// The JSON-RPC error object that reports `err`.
    pub fn from_error(err: Error) -> (r: Self)
        ensures
            r@ == response_error_of(err@),
            // A protocol error is sent under its own code's number, with its
            // message and data.
            err matches Error::Protocol { code, message, data } ==> r.code == code_number(code)
                && r.message@ == message@ && r.data == data,
            err matches Error::Protocol { code: ErrorCode::UnknownErrorCode, .. } ==> r.code
                == -32001i32,
    {
        match err {
            Error::Protocol { code, message, data } => ResponseError {
                code: code.code(),
                message,
                data,
            },
            Error::Transport(msg) => {
                let mut message = "Transport error: ".to_owned();
                message.append(msg.as_str());
                ResponseError { code: ErrorCode::InternalError.code(), message, data: None }
            },
            Error::Serialization(msg) => ResponseError {
                code: ErrorCode::ParseError.code(),
                message: msg,
                data: None,
            },
            Error::Io(msg) => ResponseError {
                code: ErrorCode::InternalError.code(),
                message: msg,
                data: None,
            },
            Error::Other(msg) => ResponseError {
                code: ErrorCode::InternalError.code(),
                message: msg,
                data: None,
            },
        }
    }
}

impl From<Error> for ResponseError {
    fn from(err: Error) -> (r: ResponseError)
        ensures
            r@ == response_error_of(err@),
    {
        ResponseError::from_error(err)
    }
}

/// `ResponseError::from` is described by its view (`response_error_of`), not by
/// an equality of values: two strings with the same characters are not known
/// to be the same value, so `obeys_from_spec` is false here.
impl vstd::std_specs::convert::FromSpecImpl<Error> for ResponseError {
    open spec fn obeys_from_spec() -> bool {
        false
    }

    open spec fn from_spec(err: Error) -> ResponseError {
        choose|r: ResponseError| r@ == response_error_of(err@)
    }
}

/// The decimal digit character for `d`, for `d` below ten.
pub open spec fn digit_char(d: nat) -> char {
    if d == 0 {
        '0'
    } else if d == 1 {
        '1'
    } else if d == 2 {
        '2'
    } else if d == 3 {
        '3'
    } else if d == 4 {
        '4'
    } else if d == 5 {
        '5'
    } else if d == 6 {
        '6'
    } else if d == 7 {
        '7'
    } else if d == 8 {
        '8'
    } else {
        '9'
    }
}

/// The decimal numeral of a natural number, without leading zeros.
pub open spec fn nat_text(n: nat) -> Seq<char>
    decreases n,
{
    if n < 10 {
        seq![digit_char(n)]
    } else {
        nat_text(n / 10).push(digit_char(n % 10))
    }
}

/// The decimal numeral of an integer, with a leading `-` when it is negative.
pub open spec fn int_text(i: int) -> Seq<char> {
    if i < 0 {
        seq!['-'] + nat_text((-i) as nat)
    } else {
        nat_text(i as nat)
    }
}

/// How a request id is displayed: a string id as itself, a number in decimal.
pub open spec fn request_id_text(id: RequestIdView) -> Seq<char> {
    match id {
        RequestIdView::String(s) => s,
        RequestIdView::Number(n) => int_text(n as int),
    }
}

fn append_digit(out: &mut String, d: u64)
    requires
        d < 10,
    ensures
        final(out)@ == old(out)@.push(digit_char(d as nat)),
{
    let text: &str = match d {
        0 => "0",
        1 => "1",
        2 => "2",
        3 => "3",
        4 => "4",
        5 => "5",
        6 => "6",
        7 => "7",
        8 => "8",
        _ => "9",
    };
    proof {
        reveal_strlit("0");
        reveal_strlit("1");
        reveal_strlit("2");
        reveal_strlit("3");
        reveal_strlit("4");
        reveal_strlit("5");
        reveal_strlit("6");
        reveal_strlit("7");
        reveal_strlit("8");
        reveal_strlit("9");
    }
    out.append(text);
}

fn append_decimal(out: &mut String, n: u64)
    ensures
        final(out)@ == old(out)@ + nat_text(n as nat),
    decreases n,
{
    if n >= 10 {
        append_decimal(out, n / 10);
        append_digit(out, n % 10);
        assert(old(out)@ + nat_text(n as nat) =~= old(out)@ + nat_text((n / 10) as nat) + seq![
            digit_char((n % 10) as nat),
        ]);
    } else {
        append_digit(out, n);
        assert(old(out)@ + nat_text(n as nat) =~= old(out)@.push(digit_char(n as nat)));
    }
}

impl RequestId {
    /// The id as it is displayed: a string id as itself, a number in decimal.
    pub fn to_string(&self) -> (r: String)
        ensures
            r@ == request_id_text(self@),
    {
        match self {
            RequestId::String(s) => s.clone(),
            RequestId::Number(n) => {
                let mut out = String::new();
                if *n < 0 {
                    out.append("-");
                    let magnitude: u64 = if *n == i64::MIN {
                        9223372036854775808u64
                    } else {
                        (-*n) as u64
                    };
                    append_decimal(&mut out, magnitude);
                    proof {
                        reveal_strlit("-");
                    }
                    assert(out@ =~= seq!['-'] + nat_text((-(*n as int)) as nat));
                } else {
                    append_decimal(&mut out, *n as u64);
                    assert(out@ =~= nat_text(*n as nat));
                }
                out
            },
        }
    }
}

} // verus!
