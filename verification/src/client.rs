//! The decisions of an MCP client: which id each request gets, which message
//! answers a pending request, and what the answer means to the caller.  The
//! client's event loop (sending over the transport, waiting for messages)
//! runs these decisions.
use vstd::prelude::*;

use crate::error::{code_of_number, lemma_code_roundtrip, Error, ErrorCode, ErrorView};
use crate::json::{
    entry, insert_member, json_member, json_string, new_object_map, object_value, string_value,
};
use crate::protocol::{
    error_response_view, request_view, response_error_of, success_view, Request, RequestId,
    RequestIdView, ResponseView, LATEST_PROTOCOL_VERSION,
};
use crate::transport::{Message, MessageView};

verus! {

/// The error of a response that carries neither a result nor an error.
pub open spec fn missing_result_error() -> ErrorView {
    ErrorView::Protocol {
        code: ErrorCode::InternalError,
        message: "Response missing result"@,
        data: None,
    }
}

/// The error of a request whose answer never came because the connection
/// closed.
pub open spec fn connection_closed_error() -> ErrorView {
    ErrorView::Protocol {
        code: ErrorCode::InternalError,
        message: "Connection closed while waiting for response"@,
        data: None,
    }
}

/// What a response means to the caller of the request it answers: the
/// server's error as a protocol error (its code read back as an MCP error
/// code, its message kept, its data dropped), else the result, else an
/// internal error.
pub open spec fn response_outcome(resp: ResponseView) -> Result<serde_json::Value, ErrorView> {
    match resp.error {
        Some(e) => Err(ErrorView::Protocol { code: code_of_number(e.code), message: e.message, data: None }),
        None => match resp.result {
            Some(v) => Ok(v),
            None => Err(missing_result_error()),
        },
    }
}

/// What a message means to a request pending under `pending`: a response to
/// that id settles it; anything else leaves it pending.
pub open spec fn reply_outcome(pending: RequestIdView, m: MessageView) -> Option<
    Result<serde_json::Value, ErrorView>,
> {
    match m {
        MessageView::Response(resp) => if resp.id == pending {
            Some(response_outcome(resp))
        } else {
            None
        },
        _ => None,
    }
}

/// A protocol error that a server reports in its response reaches the
/// caller of the request as the same protocol error: same code, same
/// message (its data stays behind); a successful response hands the caller
/// its result.
pub proof fn lemma_reply_reaches_caller(
    id: RequestIdView,
    code: ErrorCode,
    message: Seq<char>,
    data: Option<serde_json::Value>,
    result: serde_json::Value,
)
    ensures
        response_outcome(
            error_response_view(id, response_error_of(ErrorView::Protocol { code, message, data })),
        ) == Err::<serde_json::Value, ErrorView>(ErrorView::Protocol { code, message, data: None }),
        response_outcome(success_view(id, Some(result))) == Ok::<serde_json::Value, ErrorView>(
            result,
        ),
{
    lemma_code_roundtrip(code);
}

/// A response to an earlier request never settles a later one: a client
/// waiting on request `pending` ignores a response to any other number.
pub proof fn lemma_other_responses_ignored(pending: i64, other: i64, resp: ResponseView)
    requires
        pending != other,
        resp.id == RequestIdView::Number(other),
    ensures
        reply_outcome(RequestIdView::Number(pending), MessageView::Response(resp)) is None,
{
}

/// What a response means to a caller that waits only for the server to
/// acknowledge its request (as `shutdown` does): the server's error as a
/// protocol error, as for any request, and otherwise success, whether or
/// not the response carries a result.
pub open spec fn response_ack(resp: ResponseView) -> Result<(), ErrorView> {
    match resp.error {
        Some(e) => Err(ErrorView::Protocol { code: code_of_number(e.code), message: e.message, data: None }),
        None => Ok(()),
    }
}

/// What a message means to an acknowledgement pending under `pending`.
pub open spec fn ack_outcome(pending: RequestIdView, m: MessageView) -> Option<Result<(), ErrorView>> {
    match m {
        MessageView::Response(resp) => if resp.id == pending {
            Some(response_ack(resp))
        } else {
            None
        },
        _ => None,
    }
}

/// A server's answer to `shutdown` is acknowledged by the client that sent
/// it: a success, which carries no result, completes the client's shutdown,
/// and a failure reaches it as the same protocol error.
pub proof fn lemma_shutdown_answer_acknowledged(
    id: RequestIdView,
    code: ErrorCode,
    message: Seq<char>,
    data: Option<serde_json::Value>,
)
    ensures
        response_ack(success_view(id, None)) == Ok::<(), ErrorView>(()),
        response_ack(
            error_response_view(id, response_error_of(ErrorView::Protocol { code, message, data })),
        ) == Err::<(), ErrorView>(ErrorView::Protocol { code, message, data: None }),
{
    lemma_code_roundtrip(code);
}

/// A successful response to the pending request acknowledges it whether or
/// not it carries a result.
pub proof fn lemma_success_acknowledged(pending: RequestIdView, resp: ResponseView)
    requires
        resp.id == pending,
        resp.error is None,
    ensures
        ack_outcome(pending, MessageView::Response(resp)) == Some(Ok::<(), ErrorView>(())),
{
}

/// What the client's forwarding task does with an item its transport
/// yields: a message is passed on to the waiting requests, and the first
/// error ends the forwarding.
pub fn forwarded(item: Result<Message, Error>) -> (r: Option<Message>)
    ensures
        match item {
            Ok(m) => r == Some(m),
            Err(_) => r is None,
        },
{
    match item {
        Ok(message) => Some(message),
        Err(_) => None,
    }
}

/// The view of an acknowledged or pending request.
pub open spec fn ack_view(r: Option<Result<(), Error>>) -> Option<Result<(), ErrorView>> {
    match r {
        Some(Ok(())) => Some(Ok(())),
        Some(Err(e)) => Some(Err(e@)),
        None => None,
    }
}

/// The view of a settled or pending request.
pub open spec fn outcome_view(r: Option<Result<serde_json::Value, Error>>) -> Option<
    Result<serde_json::Value, ErrorView>,
> {
    match r {
        Some(Ok(v)) => Some(Ok(v)),
        Some(Err(e)) => Some(Err(e@)),
        None => None,
    }
}

/// The members of the parameters of an `initialize` request: the client's
/// implementation, its capabilities, and the protocol version it speaks.
pub open spec fn initialize_params_entries(
    implementation: serde_json::Value,
    capabilities: serde_json::Value,
) -> Map<Seq<char>, serde_json::Value> {
    Map::empty().insert("implementation"@, implementation).insert(
        "capabilities"@,
        capabilities,
    ).insert("protocolVersion"@, json_string(LATEST_PROTOCOL_VERSION@))
}

/// The parameters of an `initialize` request: an object whose members are
/// the client's implementation and capabilities and the latest protocol
/// version.
pub fn initialize_params(implementation: serde_json::Value, capabilities: serde_json::Value) -> (r:
    serde_json::Value)
    ensures
        forall|k: Seq<char>| #[trigger]
            json_member(r, k) == entry(initialize_params_entries(implementation, capabilities), k),
{
    let mut members = new_object_map();
    insert_member(&mut members, "implementation".to_owned(), implementation);
    insert_member(&mut members, "capabilities".to_owned(), capabilities);
    insert_member(
        &mut members,
        "protocolVersion".to_owned(),
        string_value(LATEST_PROTOCOL_VERSION.to_owned()),
    );
    object_value(members)
}

/// The state of an MCP client: how many requests it has issued.  Requests
/// are numbered from 1; the latest one is the one awaiting its answer.
pub struct ClientSession {
    request_counter: i64,
}

impl ClientSession {
    /// The number of requests issued so far, which is also the id of the latest.
    pub closed spec fn counter(&self) -> int {
        self.request_counter as int
    }

    /// A client that has issued no request.
    pub fn new() -> (r: Self)
        ensures
            r.counter() == 0,
    {
        ClientSession { request_counter: 0 }
    }

    /// Whether another request can be numbered.
    pub fn can_issue(&self) -> (r: bool)
        ensures
            r == (self.counter() < i64::MAX),
    {
        self.request_counter < i64::MAX
    }

    /// Issues a request for `method` with `params` under the next number.
    pub fn begin_request(&mut self, method: &str, params: Option<serde_json::Value>) -> (r: Request)
        requires
            old(self).counter() < i64::MAX,
        ensures
            final(self).counter() == old(self).counter() + 1,
            r@ == request_view(method@, params, RequestIdView::Number(final(self).counter() as i64)),
    {
        self.request_counter = self.request_counter + 1;
        Request::new(method, params, RequestId::Number(self.request_counter))
    }

    /// What `message` means to the latest request: `Some` with its outcome
    /// when the message is the response to it, `None` when it is not.
    pub fn on_message(&self, message: Message) -> (r: Option<Result<serde_json::Value, Error>>)
        ensures
            outcome_view(r) == reply_outcome(RequestIdView::Number(self.counter() as i64), message@),
    {
        match message {
            Message::Response(response) => {
                let pending = RequestId::Number(self.request_counter);
                if response.id.same_as(&pending) {
                    match response.error {
                        Some(error) => Some(
                            Err(Error::protocol(ErrorCode::from_code(error.code), error.message.as_str())),
                        ),
                        None => match response.result {
                            Some(v) => Some(Ok(v)),
                            None => Some(
                                Err(Error::protocol(ErrorCode::InternalError, "Response missing result")),
                            ),
                        },
                    }
                } else {
                    None
                }
            },
            _ => None,
        }
    }

    /// What `message` means to the latest request when its caller waits only
    /// for an acknowledgement: `Some` when the message is the response to it,
    /// `None` when it is not.
    pub fn on_acknowledgement(&self, message: Message) -> (r: Option<Result<(), Error>>)
        ensures
            ack_view(r) == ack_outcome(RequestIdView::Number(self.counter() as i64), message@),
            // A successful response to the pending request acknowledges it,
            // whatever its result; an error response fails it with the
            // server's code and message; anything else leaves it pending.
            message matches Message::Response(resp) ==> (resp.id@ == RequestIdView::Number(
                self.counter() as i64,
            ) && resp.error is None ==> r matches Some(Ok(()))),
            message matches Message::Response(resp) ==> (resp.id@ == RequestIdView::Number(
                self.counter() as i64,
            ) ==> (resp.error matches Some(e) ==> (r matches Some(Err(err)) && err@ == (
            ErrorView::Protocol { code: code_of_number(e.code), message: e.message@, data: None })))),
            !(message matches Message::Response(resp) && resp.id@ == RequestIdView::Number(
                self.counter() as i64,
            )) ==> r is None,
    {
        match message {
            Message::Response(response) => {
                let pending = RequestId::Number(self.request_counter);
                if response.id.same_as(&pending) {
                    match response.error {
                        Some(error) => Some(
                            Err(Error::protocol(ErrorCode::from_code(error.code), error.message.as_str())),
                        ),
                        None => Some(Ok(())),
                    }
                } else {
                    None
                }
            },
            _ => None,
        }
    }

    /// The error of the latest request if the stream of incoming messages
    /// ends before its answer arrives.  (A client that keeps a sender of
    /// that stream itself never sees it end, and goes on waiting.)
    pub fn connection_closed(&self) -> (r: Error)
        ensures
            r@ == connection_closed_error(),
    {
        Error::protocol(ErrorCode::InternalError, "Connection closed while waiting for response")
    }
}

} // verus!
