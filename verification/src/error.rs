use vstd::prelude::*;

verus! {

/// MCP error codes, as carried in the `code` field of a JSON-RPC error.
#[derive(Debug, Clone, Copy, PartialEq, Eq, Structural)]
pub enum ErrorCode {
    ParseError,
    InvalidRequest,
    MethodNotFound,
    InvalidParams,
    InternalError,
    ServerNotInitialized,
    UnknownErrorCode,
    RequestFailed,
}

/// The numeric JSON-RPC code of each error code.
pub open spec fn code_number(code: ErrorCode) -> i32 {
    match code {
        ErrorCode::ParseError => -32700i32,
        ErrorCode::InvalidRequest => -32600i32,
        ErrorCode::MethodNotFound => -32601i32,
        ErrorCode::InvalidParams => -32602i32,
        ErrorCode::InternalError => -32603i32,
        ErrorCode::ServerNotInitialized => -32002i32,
        ErrorCode::UnknownErrorCode => -32001i32,
        ErrorCode::RequestFailed => -32000i32,
    }
}

/// The error code that a numeric JSON-RPC code stands for; a number that
/// is no MCP code stands for `UnknownErrorCode`.
pub open spec fn code_of_number(n: i32) -> ErrorCode {
    if n == -32700 {
        ErrorCode::ParseError
    } else if n == -32600 {
        ErrorCode::InvalidRequest
    } else if n == -32601 {
        ErrorCode::MethodNotFound
    } else if n == -32602 {
        ErrorCode::InvalidParams
    } else if n == -32603 {
        ErrorCode::InternalError
    } else if n == -32002 {
        ErrorCode::ServerNotInitialized
    } else if n == -32001 {
        ErrorCode::UnknownErrorCode
    } else if n == -32000 {
        ErrorCode::RequestFailed
    } else {
        ErrorCode::UnknownErrorCode
    }
}

/// Whether `n` is the numeric code of some MCP error code.
pub open spec fn is_known_code(n: i32) -> bool {
    exists|c: ErrorCode| code_number(c) == n
}

/// Reading back the number of an error code gives the same error code.
pub proof fn lemma_code_roundtrip(c: ErrorCode)
    ensures
        code_of_number(code_number(c)) == c,
{
}

/// A number reads as an error code whose number is that number exactly when
/// it is the number of some MCP error code; every other number reads as
/// `UnknownErrorCode`.
pub proof fn lemma_number_roundtrip(n: i32)
    ensures
        (code_number(code_of_number(n)) == n) <==> is_known_code(n),
        !is_known_code(n) ==> code_of_number(n) == ErrorCode::UnknownErrorCode,
{
    if code_number(code_of_number(n)) == n {
        assert(is_known_code(n));
    }
    if is_known_code(n) {
        let c = choose|c: ErrorCode| code_number(c) == n;
        lemma_code_roundtrip(c);
    }
}

/// The displayed name of each error code: the variant's own name.
pub open spec fn code_name(code: ErrorCode) -> Seq<char> {
    match code {
        ErrorCode::ParseError => "ParseError"@,
        ErrorCode::InvalidRequest => "InvalidRequest"@,
        ErrorCode::MethodNotFound => "MethodNotFound"@,
        ErrorCode::InvalidParams => "InvalidParams"@,
        ErrorCode::InternalError => "InternalError"@,
        ErrorCode::ServerNotInitialized => "ServerNotInitialized"@,
        ErrorCode::UnknownErrorCode => "UnknownErrorCode"@,
        ErrorCode::RequestFailed => "RequestFailed"@,
    }
}

impl ErrorCode {
    /// The error code that a numeric JSON-RPC code stands for.
    pub fn from_code(n: i32) -> (r: ErrorCode)
        ensures
            r == code_of_number(n),
    {
        match n {
            -32700 => ErrorCode::ParseError,
            -32600 => ErrorCode::InvalidRequest,
            -32601 => ErrorCode::MethodNotFound,
            -32602 => ErrorCode::InvalidParams,
            -32603 => ErrorCode::InternalError,
            -32002 => ErrorCode::ServerNotInitialized,
            -32001 => ErrorCode::UnknownErrorCode,
            -32000 => ErrorCode::RequestFailed,
            _ => ErrorCode::UnknownErrorCode,
        }
    }

    /// The name of the error code, as it is displayed.
    pub fn name(&self) -> (r: &'static str)
        ensures
            r@ == code_name(*self),
    {
        match self {
            ErrorCode::ParseError => "ParseError",
            ErrorCode::InvalidRequest => "InvalidRequest",
            ErrorCode::MethodNotFound => "MethodNotFound",
            ErrorCode::InvalidParams => "InvalidParams",
            ErrorCode::InternalError => "InternalError",
            ErrorCode::ServerNotInitialized => "ServerNotInitialized",
            ErrorCode::UnknownErrorCode => "UnknownErrorCode",
            ErrorCode::RequestFailed => "RequestFailed",
        }
    }

    /// The numeric JSON-RPC code of this error code.
    pub fn code(&self) -> (r: i32)
        ensures
            r == code_number(*self),
    {
        match self {
            ErrorCode::ParseError => -32700,
            ErrorCode::InvalidRequest => -32600,
            ErrorCode::MethodNotFound => -32601,
            ErrorCode::InvalidParams => -32602,
            ErrorCode::InternalError => -32603,
            ErrorCode::ServerNotInitialized => -32002,
            ErrorCode::UnknownErrorCode => -32001,
            ErrorCode::RequestFailed => -32000,
        }
    }
}

impl From<ErrorCode> for i32 {
    fn from(code: ErrorCode) -> (r: i32) {
        code.code()
    }
}

impl vstd::std_specs::convert::FromSpecImpl<ErrorCode> for i32 {
    open spec fn obeys_from_spec() -> bool {
        true
    }

    open spec fn from_spec(code: ErrorCode) -> i32 {
        code_number(code)
    }
}

/// Main error type for MCP operations.
#[derive(Debug, Clone)]
pub enum Error {
    Protocol { code: ErrorCode, message: String, data: Option<serde_json::Value> },
    Transport(String),
    Serialization(String),
    Io(String),
    Other(String),
}

/// What an error holds, with its texts as character sequences.
pub enum ErrorView {
    Protocol { code: ErrorCode, message: Seq<char>, data: Option<serde_json::Value> },
    Transport(Seq<char>),
    Serialization(Seq<char>),
    Io(Seq<char>),
    Other(Seq<char>),
}

impl View for Error {
    type V = ErrorView;

    open spec fn view(&self) -> ErrorView {
        match self {
            Error::Protocol { code, message, data } => ErrorView::Protocol {
                code: *code,
                message: message@,
                data: *data,
            },
            Error::Transport(s) => ErrorView::Transport(s@),
            Error::Serialization(s) => ErrorView::Serialization(s@),
            Error::Io(s) => ErrorView::Io(s@),
            Error::Other(s) => ErrorView::Other(s@),
        }
    }
}

/// The error that `with_data` makes of `e`: a protocol error gets `data`
/// attached, any other error stays as it is.
pub open spec fn with_data_view(e: ErrorView, data: serde_json::Value) -> ErrorView {
    match e {
        ErrorView::Protocol { code, message, data: _ } => ErrorView::Protocol {
            code,
            message,
            data: Some(data),
        },
        _ => e,
    }
}

/// Attaching data twice keeps only the second: `with_data` replaces a
/// protocol error's data and leaves its code and message alone.
pub proof fn lemma_with_data_replaces(e: ErrorView, first: serde_json::Value, second: serde_json::Value)
    ensures
        with_data_view(with_data_view(e, first), second) == with_data_view(e, second),
{
}

impl Error {
    /// A protocol error with the given code and message and no data.
    pub fn protocol(code: ErrorCode, message: &str) -> (r: Self)
        ensures
            r@ == (ErrorView::Protocol { code, message: message@, data: None }),
    {
        Error::Protocol { code, message: message.to_owned(), data: None }
    }

    /// Attaches `data` to a protocol error; any other error is returned unchanged.
    pub fn with_data(self, data: serde_json::Value) -> (r: Self)
        ensures
            r@ == with_data_view(self@, data),
    {
        match self {
            Error::Protocol { code, message, data: _ } => Error::Protocol {
                code,
                message,
                data: Some(data),
            },
            _ => self,
        }
    }
}

} // verus!
