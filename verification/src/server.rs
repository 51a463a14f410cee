//! The decisions of an MCP server: which requests reach the handler, what
//! each request is answered, and when the server stops.  The server's event
//! loop (reading the transport, awaiting the handler, sending responses)
//! runs these decisions one message at a time.
use vstd::prelude::*;

use crate::error::{Error, ErrorCode, ErrorView};
use crate::protocol::{
    error_response_view, response_error_of, success_view, RequestIdView, RequestView, Request,
    RequestId, Response, ResponseError, ResponseView,
};
use crate::client::initialize_params_entries;
use crate::json::{empty_object, entry, json_is_null, json_member, member_or_null};
use crate::text::text_is;
use crate::transport::{Message, MessageView};

verus! {

/// What a server does with one item read from its transport.
#[derive(Debug)]
pub enum ServerStep {
    /// Send this response; no handler is called.
    Respond(Response),
    /// Call the handler's `initialize` with these parameters, then answer `id`.
    Initialize { id: RequestId, params: Option<serde_json::Value> },
    /// Call the handler's `shutdown`, then answer `id`.
    Shutdown { id: RequestId },
    /// Call the handler's `handle_method`, then answer `id`.
    Method { id: RequestId, method: String, params: Option<serde_json::Value> },
    /// Nothing to send; read the next item.
    Continue,
    /// Stop serving, successfully.
    Stop,
    /// Stop serving with this error.
    Fail(Error),
}

/// What a server step holds.
pub enum ServerStepView {
    Respond(ResponseView),
    Initialize { id: RequestIdView, params: Option<serde_json::Value> },
    Shutdown { id: RequestIdView },
    Method { id: RequestIdView, method: Seq<char>, params: Option<serde_json::Value> },
    Continue,
    Stop,
    Fail(ErrorView),
}

impl View for ServerStep {
    type V = ServerStepView;

    open spec fn view(&self) -> ServerStepView {
        match self {
            ServerStep::Respond(r) => ServerStepView::Respond(r@),
            ServerStep::Initialize { id, params } => ServerStepView::Initialize {
                id: id@,
                params: *params,
            },
            ServerStep::Shutdown { id } => ServerStepView::Shutdown { id: id@ },
            ServerStep::Method { id, method, params } => ServerStepView::Method {
                id: id@,
                method: method@,
                params: *params,
            },
            ServerStep::Continue => ServerStepView::Continue,
            ServerStep::Stop => ServerStepView::Stop,
            ServerStep::Fail(e) => ServerStepView::Fail(e@),
        }
    }
}

/// An item read from a transport: a message, or the error the transport gave.
pub open spec fn item_view(item: Result<Message, Error>) -> Result<MessageView, ErrorView> {
    match item {
        Ok(m) => Ok(m@),
        Err(e) => Err(e@),
    }
}

/// The error that refuses a request made before the client announced that
/// it is initialized.
pub open spec fn not_initialized_error() -> ErrorView {
    ErrorView::Protocol {
        code: ErrorCode::ServerNotInitialized,
        message: "Server not initialized"@,
        data: None,
    }
}

/// The error that refuses a second `initialize`.
pub open spec fn already_initialized_error() -> ErrorView {
    ErrorView::Protocol {
        code: ErrorCode::InvalidRequest,
        message: "Server already initialized"@,
        data: None,
    }
}

/// The error with which a server stops when it is sent a response.
pub open spec fn unexpected_response_error() -> ErrorView {
    ErrorView::Protocol {
        code: ErrorCode::InvalidRequest,
        message: "Server received unexpected response"@,
        data: None,
    }
}

/// The response that refuses request `id` with `error`.
pub open spec fn refusal(id: RequestIdView, error: ErrorView) -> ServerStepView {
    ServerStepView::Respond(error_response_view(id, response_error_of(error)))
}

/// What a server does with a request: `initialize` reaches the handler only
/// before initialization, every other method only after it; a request that
/// does not reach the handler is answered at once with an error.
pub open spec fn route_spec(initialized: bool, req: RequestView) -> ServerStepView {
    if req.method == "initialize"@ {
        if initialized {
            refusal(req.id, already_initialized_error())
        } else {
            ServerStepView::Initialize { id: req.id, params: req.params }
        }
    } else if !initialized {
        refusal(req.id, not_initialized_error())
    } else if req.method == "shutdown"@ {
        ServerStepView::Shutdown { id: req.id }
    } else {
        ServerStepView::Method { id: req.id, method: req.method, params: req.params }
    }
}

/// What a server does with one item read from its transport.
pub open spec fn step_spec(initialized: bool, item: Result<MessageView, ErrorView>) -> ServerStepView {
    match item {
        Err(e) => ServerStepView::Fail(e),
        Ok(MessageView::Request(req)) => route_spec(initialized, req),
        Ok(MessageView::Notification(n)) => if n.method == "exit"@ {
            ServerStepView::Stop
        } else {
            ServerStepView::Continue
        },
        Ok(MessageView::Response(_)) => ServerStepView::Fail(unexpected_response_error()),
    }
}

/// Whether the item is the client's notification that it is initialized.
pub open spec fn announces_initialized(item: Result<MessageView, ErrorView>) -> bool {
    match item {
        Ok(MessageView::Notification(n)) => n.method == "initialized"@,
        _ => false,
    }
}

/// Whether the server is initialized after reading `item`.
pub open spec fn flag_after_item(initialized: bool, item: Result<MessageView, ErrorView>) -> bool {
    initialized || announces_initialized(item)
}

/// Whether the server is initialized after reading `items` in order.
pub open spec fn flag_after(initialized: bool, items: Seq<Result<MessageView, ErrorView>>) -> bool
    decreases items.len(),
{
    if items.len() == 0 {
        initialized
    } else {
        flag_after_item(flag_after(initialized, items.drop_last()), items.last())
    }
}

/// Whether a step calls one of the handler's methods other than `initialize`.
pub open spec fn calls_handler_after_init(step: ServerStepView) -> bool {
    match step {
        ServerStepView::Shutdown { .. } => true,
        ServerStepView::Method { .. } => true,
        _ => false,
    }
}

/// The request id that a step answers, if it answers one.
pub open spec fn answered_id(step: ServerStepView) -> Option<RequestIdView> {
    match step {
        ServerStepView::Respond(r) => Some(r.id),
        ServerStepView::Initialize { id, .. } => Some(id),
        ServerStepView::Shutdown { id } => Some(id),
        ServerStepView::Method { id, .. } => Some(id),
        _ => None,
    }
}

/// A server is initialized after reading a sequence of items exactly when it
/// was initialized before, or one of the items is the client's `initialized`
/// notification: nothing but that notification initializes a server, and
/// nothing makes it uninitialized again.
pub proof fn lemma_initialized_iff_announced(
    initialized: bool,
    items: Seq<Result<MessageView, ErrorView>>,
)
    ensures
        flag_after(initialized, items) <==> (initialized || exists|j: int|
            0 <= j < items.len() && #[trigger] announces_initialized(items[j])),
    decreases items.len(),
{
    if items.len() > 0 {
        let prefix = items.drop_last();
        lemma_initialized_iff_announced(initialized, prefix);
        if flag_after(initialized, items) && !initialized {
            if flag_after(initialized, prefix) {
                let j = choose|j: int| 0 <= j < prefix.len() && #[trigger] announces_initialized(prefix[j]);
                assert(announces_initialized(items[j]));
            } else {
                assert(announces_initialized(items[items.len() - 1]));
            }
        }
        if exists|j: int| 0 <= j < items.len() && #[trigger] announces_initialized(items[j]) {
            let j = choose|j: int| 0 <= j < items.len() && #[trigger] announces_initialized(items[j]);
            if j < items.len() - 1 {
                assert(announces_initialized(prefix[j]));
            }
        }
    }
}

/// Reading a request, whatever its method (`initialize` included), never
/// changes whether the server is initialized; reading a notification
/// initializes it exactly when its method is `initialized`.
pub proof fn lemma_requests_never_initialize(initialized: bool, req: RequestView, n: crate::protocol::NotificationView)
    ensures
        flag_after_item(initialized, Ok(MessageView::Request(req))) == initialized,
        flag_after_item(initialized, Ok(MessageView::Notification(n))) == (initialized || n.method
            == "initialized"@),
        !initialized && req.method != "initialize"@ ==> (step_spec(
            initialized,
            Ok(MessageView::Request(req)),
        ) matches ServerStepView::Respond(resp) && resp.id == req.id && (resp.error matches Some(e)
            && e.code == -32002i32)),
{
}

/// No request other than `initialize` reaches the handler before the client
/// has announced that it is initialized: when the server, having read
/// `items[..i]` from the start, hands `items[i]` to the handler's `shutdown`
/// or `handle_method`, some earlier item is the `initialized` notification.
pub proof fn lemma_no_handler_call_before_initialized(
    items: Seq<Result<MessageView, ErrorView>>,
    i: int,
)
    requires
        0 <= i < items.len(),
        calls_handler_after_init(step_spec(flag_after(false, items.take(i)), items[i])),
    ensures
        exists|j: int| 0 <= j < i && #[trigger] announces_initialized(items[j]),
{
    let prefix = items.take(i);
    lemma_initialized_iff_announced(false, prefix);
    let j = choose|j: int| 0 <= j < prefix.len() && #[trigger] announces_initialized(prefix[j]);
    assert(prefix[j] == items[j]);
}

/// Every request is answered under its own id: either the server responds at
/// once with a response to that id, or it hands the request to the handler
/// and answers that id when the handler returns.
pub proof fn lemma_request_answered_under_its_id(initialized: bool, req: RequestView)
    ensures
        answered_id(step_spec(initialized, Ok(MessageView::Request(req)))) == Some(req.id),
{
}

/// Whether `out` is the argument that the handler's `initialize` gets for
/// member `key` of the request's parameters: that member when there is one,
/// else null (missing parameters count as an empty object).
pub open spec fn initialize_argument(
    params: Option<serde_json::Value>,
    key: Seq<char>,
    out: serde_json::Value,
) -> bool {
    match params {
        Some(p) => match json_member(p, key) {
            Some(x) => out == x,
            None => json_is_null(out),
        },
        None => json_is_null(out),
    }
}

/// What the server hands its handler is what the client sent: when the
/// parameters of `initialize` are those that a client builds from its
/// implementation and capabilities, the handler gets that implementation
/// and those capabilities.
pub proof fn lemma_server_reads_client_initialize(
    implementation: serde_json::Value,
    capabilities: serde_json::Value,
    params: serde_json::Value,
    implementation_arg: serde_json::Value,
    capabilities_arg: serde_json::Value,
)
    requires
        forall|k: Seq<char>| #[trigger]
            json_member(params, k) == entry(initialize_params_entries(implementation, capabilities), k),
        initialize_argument(Some(params), "implementation"@, implementation_arg),
        initialize_argument(Some(params), "capabilities"@, capabilities_arg),
    ensures
        implementation_arg == implementation,
        capabilities_arg == capabilities,
{
    reveal_strlit("implementation");
    reveal_strlit("capabilities");
    reveal_strlit("protocolVersion");
    assert("implementation"@ != "capabilities"@) by {
        assert("implementation"@.len() != "capabilities"@.len());
    }
    assert("implementation"@ != "protocolVersion"@) by {
        assert("implementation"@[0] != "protocolVersion"@[0]);
    }
    assert("capabilities"@ != "protocolVersion"@) by {
        assert("capabilities"@[0] != "protocolVersion"@[0]);
    }
    assert(json_member(params, "implementation"@) == Some(implementation));
    assert(json_member(params, "capabilities"@) == Some(capabilities));
}

/// The state of an MCP server: whether the client has announced that it is
/// initialized.
pub struct ServerSession {
    initialized: bool,
}

impl ServerSession {
    /// Whether the client has announced that it is initialized.
    pub closed spec fn is_initialized(&self) -> bool {
        self.initialized
    }

    /// A server that has not been initialized.
    pub fn new() -> (r: Self)
        ensures
            !r.is_initialized(),
    {
        ServerSession { initialized: false }
    }

    /// What the server does with a request.
    pub fn route(&self, request: Request) -> (r: ServerStep)
        ensures
            r@ == route_spec(self.is_initialized(), request@),
    {
        let Request { jsonrpc: _, method, params, id } = request;
        if text_is(&method, "initialize") {
            if self.initialized {
                let err = Error::protocol(ErrorCode::InvalidRequest, "Server already initialized");
                ServerStep::Respond(Response::error(id, ResponseError::from_error(err)))
            } else {
                ServerStep::Initialize { id, params }
            }
        } else if !self.initialized {
            let err = Error::protocol(ErrorCode::ServerNotInitialized, "Server not initialized");
            ServerStep::Respond(Response::error(id, ResponseError::from_error(err)))
        } else if text_is(&method, "shutdown") {
            ServerStep::Shutdown { id }
        } else {
            ServerStep::Method { id, method, params }
        }
    }

    /// What the server does with one item read from its transport; the
    /// `initialized` notification marks the server initialized.
    pub fn on_item(&mut self, item: Result<Message, Error>) -> (r: ServerStep)
        ensures
            r@ == step_spec(old(self).is_initialized(), item_view(item)),
            final(self).is_initialized() == flag_after_item(old(self).is_initialized(), item_view(item)),
            // Only the client's `initialized` notification initializes the
            // server; a request of any method, `initialize` included, a
            // response and a transport error leave the flag as it was.
            item matches Ok(Message::Notification(n)) ==> final(self).is_initialized() == (old(
                self,
            ).is_initialized() || n.method@ == "initialized"@),
            !(item matches Ok(Message::Notification(_))) ==> final(self).is_initialized() == old(
                self,
            ).is_initialized(),
            // Before initialization, a request for any method other than
            // `initialize` is refused at once under its own id with
            // ServerNotInitialized (-32002).
            item matches Ok(Message::Request(req)) ==> (!old(self).is_initialized() && req.method@
                != "initialize"@ ==> (r matches ServerStep::Respond(resp) && resp.id@ == req.id@
                && resp.result is None && (resp.error matches Some(e) && e.code == -32002i32
                && e.message@ == "Server not initialized"@))),
            // After initialization, a second `initialize` is refused with
            // InvalidRequest (-32600).
            item matches Ok(Message::Request(req)) ==> (old(self).is_initialized() && req.method@
                == "initialize"@ ==> (r matches ServerStep::Respond(resp) && resp.id@ == req.id@
                && (resp.error matches Some(e) && e.code == -32600i32))),
    {
        match item {
            Err(e) => ServerStep::Fail(e),
            Ok(Message::Request(request)) => self.route(request),
            Ok(Message::Notification(notification)) => {
                if text_is(&notification.method, "exit") {
                    proof {
                        reveal_strlit("exit");
                        reveal_strlit("initialized");
                        assert("exit"@.len() != "initialized"@.len());
                    }
                    ServerStep::Stop
                } else {
                    if text_is(&notification.method, "initialized") {
                        self.initialized = true;
                    }
                    ServerStep::Continue
                }
            },
            Ok(Message::Response(_)) => ServerStep::Fail(
                Error::protocol(ErrorCode::InvalidRequest, "Server received unexpected response"),
            ),
        }
    }

    /// The arguments that the handler's `initialize` gets from the request's
    /// parameters: their `implementation` and `capabilities` members.
    pub fn initialize_arguments(params: Option<serde_json::Value>) -> (r: (
        serde_json::Value,
        serde_json::Value,
    ))
        ensures
            initialize_argument(params, "implementation"@, r.0),
            initialize_argument(params, "capabilities"@, r.1),
    {
        let params = match params {
            Some(p) => p,
            None => empty_object(),
        };
        let implementation = member_or_null(&params, "implementation");
        let capabilities = member_or_null(&params, "capabilities");
        (implementation, capabilities)
    }

    /// The response to request `id` once the handler's `initialize` or
    /// `handle_method` has produced `outcome`.
    pub fn answer(id: RequestId, outcome: Result<serde_json::Value, Error>) -> (r: Response)
        ensures
            r@ == match outcome {
                Ok(v) => success_view(id@, Some(v)),
                Err(e) => error_response_view(id@, response_error_of(e@)),
            },
    {
        match outcome {
            Ok(v) => Response::success(id, Some(v)),
            Err(e) => Response::error(id, ResponseError::from_error(e)),
        }
    }

    /// The response to request `id` once the handler's `shutdown` has
    /// produced `outcome`: a success carries no result.
    pub fn answer_shutdown(id: RequestId, outcome: Result<(), Error>) -> (r: Response)
        ensures
            r@ == match outcome {
                Ok(_) => success_view(id@, None),
                Err(e) => error_response_view(id@, response_error_of(e@)),
            },
    {
        match outcome {
            Ok(_) => Response::success(id, None),
            Err(e) => Response::error(id, ResponseError::from_error(e)),
        }
    }
}

} // verus!
