//! How the server answers each message it reads: which requests and
//! notifications it hands to their handlers, which requests it refuses, and
//! what it reports about them.
use vstd::prelude::*;

use crate::lsp_any::{spec_json_get, JsonValue, LSPAny};
use crate::lsp_json::{error_codes, IdModel, Integer, IntegerOrString};
use crate::message_manager::{
    concat, spec_note_model, spec_trace_note, trace_note, MessageManager, TraceNote,
};
use crate::lsp_json::TraceValue;
use crate::text::{int_to_decimal, spec_int_decimal};

verus! {

/// The requests that the server hands to a handler.
#[derive(Clone, Copy, Debug, PartialEq, Eq, Structural)]
pub enum RequestKind {
    Initialize,
    Shutdown,
    WillRenameFiles,
}

/// The notifications that the server hands to a handler.
#[derive(Clone, Copy, Debug, PartialEq, Eq, Structural)]
pub enum NotificationKind {
    Initialized,
    SetTrace,
    DidChangeWatchedFiles,
    DidChangeWorkspaceFolders,
}

/// What is left to do for a message once the server has decided on it.
#[derive(Debug)]
pub enum ServerAction {
    /// Nothing.
    Done,
    /// Answer the request `id` with an error response.
    RespondError { id: IntegerOrString, code: Integer, message: String },
    /// Start a new workspace that knows the client capabilities `capabilities`,
    /// then hand the `initialize` request `id` with `params` to its handler.
    Initialize { id: IntegerOrString, params: LSPAny, capabilities: LSPAny },
    /// Hand the request `id` with `params` to the handler of `request_kind`.
    Request { request_kind: RequestKind, id: IntegerOrString, params: LSPAny },
    /// Hand `params` to the handler of the notification `notification_kind`.
    Notification { notification_kind: NotificationKind, params: LSPAny },
    /// End the process with exit code `exit_code`.
    Exit { exit_code: i32 },
    /// Hand the response `response` to the `client/registerCapability` request
    /// `request`, held under `request_id`, to its handler, which frees the request.
    RegisterCapabilityResponse { request_id: String, response: LSPAny, request: LSPAny },
}

/// The value of a [`ServerAction`].
pub enum ActionModel {
    Done,
    RespondError { id: IdModel, code: Integer, message: Seq<char> },
    Initialize { id: IdModel, params: JsonValue, capabilities: JsonValue },
    Request { request_kind: RequestKind, id: IdModel, params: JsonValue },
    Notification { notification_kind: NotificationKind, params: JsonValue },
    Exit { exit_code: i32 },
    RegisterCapabilityResponse { request_id: Seq<char>, response: JsonValue, request: JsonValue },
}

impl ServerAction {
    pub open spec fn model(&self) -> ActionModel {
        match self {
            ServerAction::Done => ActionModel::Done,
            ServerAction::RespondError { id, code, message } => ActionModel::RespondError {
                id: id.model(),
                code: *code,
                message: message@,
            },
            ServerAction::Initialize { id, params, capabilities } => ActionModel::Initialize {
                id: id.model(),
                params: params.model(),
                capabilities: capabilities.model(),
            },
            ServerAction::Request { request_kind, id, params } => ActionModel::Request {
                request_kind: *request_kind,
                id: id.model(),
                params: params.model(),
            },
            ServerAction::Notification { notification_kind, params } => ActionModel::Notification {
                notification_kind: *notification_kind,
                params: params.model(),
            },
            ServerAction::Exit { exit_code } => ActionModel::Exit { exit_code: *exit_code },
            ServerAction::RegisterCapabilityResponse { request_id, response, request } =>
                ActionModel::RegisterCapabilityResponse {
                request_id: request_id@,
                response: response.model(),
                request: request.model(),
            },
        }
    }
}

/// What the server decided on one message: the trace notification reporting it,
/// and what is left to do, or why the message is in error.
#[derive(Debug)]
pub struct Handled {
    pub trace: Option<TraceNote>,
    pub outcome: Result<ServerAction, String>,
}

/// Whether an `initialize` request was handed to its handler, whether the server
/// was initialized (the `initialized` notification came after that request), and
/// whether it was shut down.
pub struct ServerModel {
    pub initialize_requested: bool,
    pub initialized: bool,
    pub shutdown: bool,
}

/// The value of a [`Handled`].
pub struct HandledModel {
    pub trace: Option<(Seq<char>, bool)>,
    pub outcome: Result<ActionModel, Seq<char>>,
}

impl Handled {
    pub open spec fn model(&self) -> HandledModel {
        HandledModel {
            trace: spec_note_model(self.trace),
            outcome: match self.outcome {
                Ok(a) => Ok(a.model()),
                Err(e) => Err(e@),
            },
        }
    }
}

/// The id of a request or a response: a string, or a number that is an `i64`.
pub open spec fn spec_request_id(v: JsonValue) -> Option<IdModel> {
    match v {
        JsonValue::UInteger(u) => if u <= i64::MAX {
            Some(IdModel::Integer(u as i64))
        } else {
            None
        },
        JsonValue::Integer(i) => Some(IdModel::Integer(i)),
        JsonValue::String(s) => Some(IdModel::String(s)),
        _ => None,
    }
}

pub open spec fn spec_bad_id_message() -> Seq<char> {
    "Id should be a string or an integer."@
}

/// The params of a request or notification: `null` where the message has none.
pub open spec fn spec_params(msg: JsonValue) -> JsonValue {
    match spec_json_get(msg, "params"@) {
        Some(p) => p,
        None => JsonValue::Null,
    }
}

/// What the server decides on a request of method `method`, id `id` and params
/// `params`, in state `st`. Every request is answered: handed to a handler, which
/// answers it, or answered with an error.
pub open spec fn spec_request_action(
    st: ServerModel,
    method: Seq<char>,
    id: IdModel,
    params: JsonValue,
) -> ActionModel {
    if st.shutdown {
        ActionModel::RespondError {
            id,
            code: error_codes::INVALID_REQUEST,
            message: "Server was shut down."@,
        }
    } else if !st.initialized {
        if method == "initialize"@ {
            match spec_json_get(params, "capabilities"@) {
                None => ActionModel::RespondError {
                    id,
                    code: error_codes::INVALID_PARAMS,
                    message: "Missing field capabilities."@,
                },
                Some(c) => ActionModel::Initialize { id, params, capabilities: c },
            }
        } else {
            ActionModel::RespondError {
                id,
                code: error_codes::SERVER_NOT_INITIALIZED,
                message: "Server was not initialized."@,
            }
        }
    } else if method == "shutdown"@ {
        ActionModel::Request { request_kind: RequestKind::Shutdown, id, params }
    } else if method == "workspace/willRenameFiles"@ {
        ActionModel::Request { request_kind: RequestKind::WillRenameFiles, id, params }
    } else {
        ActionModel::RespondError {
            id,
            code: error_codes::METHOD_NOT_FOUND,
            message: "Couldn't find function bound for method "@ + method + "."@,
        }
    }
}

/// What the server decides on a notification of method `method` with `params`,
/// in state `st`. Until an `initialize` request came, every notification but
/// `exit` is dropped.
pub open spec fn spec_notification_action(
    st: ServerModel,
    method: Seq<char>,
    params: JsonValue,
) -> ActionModel {
    if method == "exit"@ {
        ActionModel::Exit {
            exit_code: if st.shutdown {
                0
            } else {
                1
            },
        }
    } else if !st.initialize_requested {
        ActionModel::Done
    } else if method == "initialized"@ {
        ActionModel::Notification { notification_kind: NotificationKind::Initialized, params }
    } else if method == "$/setTrace"@ {
        ActionModel::Notification { notification_kind: NotificationKind::SetTrace, params }
    } else if method == "workspace/didChangeWatchedFiles"@ {
        ActionModel::Notification { notification_kind: NotificationKind::DidChangeWatchedFiles, params }
    } else if method == "workspace/didChangeWorkspaceFolders"@ {
        ActionModel::Notification { notification_kind: NotificationKind::DidChangeWorkspaceFolders, params }
    } else {
        ActionModel::Done
    }
}

/// The state after the notification of method `method` in state `st`: the
/// `initialized` notification initializes a server that had an `initialize` request.
pub open spec fn spec_after_notification(st: ServerModel, method: Seq<char>) -> ServerModel {
    ServerModel {
        initialized: st.initialized || (st.initialize_requested && method == "initialized"@),
        ..st
    }
}

/// What the server decides on the response `msg` with id `id`, given the
/// requests `held` that await a response.
pub open spec fn spec_response_action(
    held: Map<Seq<char>, (Seq<char>, JsonValue)>,
    id: IdModel,
    msg: JsonValue,
) -> Result<ActionModel, Seq<char>> {
    match id {
        IdModel::String(s) => if held.contains_key(s) {
            if held[s].0 == "client/registerCapability"@ {
                Ok(
                    ActionModel::RegisterCapabilityResponse {
                        request_id: s,
                        response: msg,
                        request: held[s].1,
                    },
                )
            } else {
                Ok(ActionModel::Done)
            }
        } else {
            Err("Request with the specified id "@ + s + " was not found."@)
        },
        IdModel::Integer(i) => Err(
            "Request with the specified id "@ + spec_int_decimal(i as int) + " was not found."@,
        ),
    }
}

/// What the server does with the message `msg` in state `st`, with trace level
/// `trace` and the requests `held` awaiting a response: its next state, the trace
/// notification reporting the message, and what is left to do or why the message
/// is in error.
///
/// A message with a `method` is a request when it has an `id` and a notification
/// otherwise, its params `null` where it has none; a message without a `method`
/// is a response when it has an `id` and no `params`, and is passed over when it
/// has neither.
pub open spec fn spec_handle_message(
    st: ServerModel,
    trace: TraceValue,
    held: Map<Seq<char>, (Seq<char>, JsonValue)>,
    msg: JsonValue,
) -> (ServerModel, HandledModel) {
    match spec_json_get(msg, "method"@) {
        Some(JsonValue::String(method)) => match spec_json_get(msg, "id"@) {
            Some(idv) => match spec_request_id(idv) {
                None => (st, HandledModel { trace: None, outcome: Err(spec_bad_id_message()) }),
                Some(id) => (
                    st,
                    HandledModel {
                        trace: spec_trace_note(
                            trace,
                            "Received request "@ + id.spec_display() + " "@ + method + "."@,
                        ),
                        outcome: Ok(spec_request_action(st, method, id, spec_params(msg))),
                    },
                ),
            },
            None => (
                spec_after_notification(st, method),
                HandledModel {
                    trace: spec_trace_note(trace, "Received notification "@ + method + "."@),
                    outcome: Ok(spec_notification_action(st, method, spec_params(msg))),
                },
            ),
        },
        Some(_) => (st, HandledModel { trace: None, outcome: Err("Method should be a string."@) }),
        None => if spec_json_get(msg, "params"@) is Some {
            (st, HandledModel { trace: None, outcome: Err("Missing field method."@) })
        } else {
            match spec_json_get(msg, "id"@) {
                None => (st, HandledModel { trace: None, outcome: Ok(ActionModel::Done) }),
                Some(idv) => match spec_request_id(idv) {
                    None => (st, HandledModel { trace: None, outcome: Err(spec_bad_id_message()) }),
                    Some(id) => (
                        st,
                        HandledModel {
                            trace: spec_trace_note(
                                trace,
                                "Received response "@ + id.spec_display() + "."@,
                            ),
                            outcome: spec_response_action(held, id, msg),
                        },
                    ),
                },
            }
        },
    }
}

/// Whether `s` spells `lit`.
pub fn string_is(s: &String, lit: &str) -> (b: bool)
    ensures
        b == (s@ == lit@),
{
    *s == String::from_str(lit)
}

/// The dispatch state of the language server: whether an `initialize` request was
/// handed on, whether it was initialized, and whether it was shut down.
pub struct Server {
    initialize_requested: bool,
    initialized: bool,
    shutdown: bool,
}

impl View for Server {
    type V = ServerModel;

    closed spec fn view(&self) -> ServerModel {
        ServerModel {
            initialize_requested: self.initialize_requested,
            initialized: self.initialized,
            shutdown: self.shutdown,
        }
    }
}

impl Server {
    /// A server that has had no `initialize` request, is not initialized and is
    /// not shut down.
    pub fn new() -> (s: Server)
        ensures
            !s@.initialize_requested,
            !s@.initialized,
            !s@.shutdown,
    {
        Server { initialize_requested: false, initialized: false, shutdown: false }
    }

    /// Records that the request `kind` was handed to its handler: after an
    /// `initialize` request the server takes notifications, after a `shutdown`
    /// request it is shut down.
    pub fn request_handled(&mut self, kind: RequestKind)
        ensures
            final(self)@.initialize_requested == (old(self)@.initialize_requested || kind
                == RequestKind::Initialize),
            final(self)@.initialized == old(self)@.initialized,
            final(self)@.shutdown == (old(self)@.shutdown || kind == RequestKind::Shutdown),
    {
        if kind == RequestKind::Initialize {
            self.initialize_requested = true;
        }
        if kind == RequestKind::Shutdown {
            self.shutdown = true;
        }
    }
}

/// The id of a request or a response.
fn request_id_of(v: &LSPAny) -> (r: Option<IntegerOrString>)
    ensures
        match r {
            Some(id) => spec_request_id(v.model()) == Some(id.model()),
            None => spec_request_id(v.model()) is None,
        },
{
    match v {
        LSPAny::UInteger(u) => if *u <= i64::MAX as u64 {
            Some(IntegerOrString::Integer(*u as i64))
        } else {
            None
        },
        LSPAny::Integer(i) => Some(IntegerOrString::Integer(*i)),
        LSPAny::String(s) => Some(IntegerOrString::String(s.clone())),
        _ => None,
    }
}

/// The model of a decision.
pub open spec fn spec_outcome_model(r: Result<ServerAction, String>) -> Result<ActionModel, Seq<char>> {
    match r {
        Ok(a) => Ok(a.model()),
        Err(e) => Err(e@),
    }
}

impl Server {
    fn request_action(&self, method: &String, id: IntegerOrString, params: LSPAny) -> (r: ServerAction)
        ensures
            r.model() == spec_request_action(self@, method@, id.model(), params.model()),
    {
        if self.shutdown {
            ServerAction::RespondError {
                id,
                code: error_codes::INVALID_REQUEST,
                message: String::from_str("Server was shut down."),
            }
        } else if !self.initialized {
            if string_is(method, "initialize") {
                match params.get("capabilities") {
                    None => ServerAction::RespondError {
                        id,
                        code: error_codes::INVALID_PARAMS,
                        message: String::from_str("Missing field capabilities."),
                    },
                    Some(c) => {
                        let capabilities = c.clone_value();
                        ServerAction::Initialize { id, params, capabilities }
                    },
                }
            } else {
                ServerAction::RespondError {
                    id,
                    code: error_codes::SERVER_NOT_INITIALIZED,
                    message: String::from_str("Server was not initialized."),
                }
            }
        } else if string_is(method, "shutdown") {
            ServerAction::Request { request_kind: RequestKind::Shutdown, id, params }
        } else if string_is(method, "workspace/willRenameFiles") {
            ServerAction::Request { request_kind: RequestKind::WillRenameFiles, id, params }
        } else {
            let m = concat("Couldn't find function bound for method ", method.as_str());
            let m = concat(m.as_str(), ".");
            ServerAction::RespondError { id, code: error_codes::METHOD_NOT_FOUND, message: m }
        }
    }

    fn notification_action(&self, method: &String, params: LSPAny) -> (a: ServerAction)
        ensures
            a.model() == spec_notification_action(self@, method@, params.model()),
    {
        if string_is(method, "exit") {
            ServerAction::Exit {
                exit_code: if self.shutdown {
                    0
                } else {
                    1
                },
            }
        } else if !self.initialize_requested {
            ServerAction::Done
        } else if string_is(method, "initialized") {
            ServerAction::Notification { notification_kind: NotificationKind::Initialized, params }
        } else if string_is(method, "$/setTrace") {
            ServerAction::Notification { notification_kind: NotificationKind::SetTrace, params }
        } else if string_is(method, "workspace/didChangeWatchedFiles") {
            ServerAction::Notification { notification_kind: NotificationKind::DidChangeWatchedFiles, params }
        } else if string_is(method, "workspace/didChangeWorkspaceFolders") {
            ServerAction::Notification { notification_kind: NotificationKind::DidChangeWorkspaceFolders, params }
        } else {
            ServerAction::Done
        }
    }
}

fn response_action(mm: &MessageManager, id: IntegerOrString, msg: LSPAny) -> (r: Result<
    ServerAction,
    String,
>)
    ensures
        spec_outcome_model(r) == spec_response_action(mm.held(), id.model(), msg.model()),
{
    match id {
        IntegerOrString::String(s) => match mm.request_method(&s) {
            Some(method) => {
                if string_is(&method, "client/registerCapability") {
                    match mm.get_request(&s) {
                        Some(request) => Ok(
                            ServerAction::RegisterCapabilityResponse { request_id: s, response: msg, request },
                        ),
                        None => Ok(ServerAction::Done),
                    }
                } else {
                    Ok(ServerAction::Done)
                }
            },
            None => {
                let m = concat("Request with the specified id ", s.as_str());
                Err(concat(m.as_str(), " was not found."))
            },
        },
        IntegerOrString::Integer(i) => {
            let d = int_to_decimal(i);
            let m = concat("Request with the specified id ", d.as_str());
            Err(concat(m.as_str(), " was not found."))
        },
    }
}

/// The params of `msg`: `null` where it has none.
fn params_of(msg: &LSPAny) -> (p: LSPAny)
    ensures
        p.model() == spec_params(msg.model()),
{
    match msg.get("params") {
        Some(p) => p.clone_value(),
        None => LSPAny::Null,
    }
}

impl Server {
    /// Decides what to do with the message `msg` (see `spec_handle_message`).
    pub fn handle_message(&mut self, msg: LSPAny, mm: &MessageManager) -> (h: Handled)
        ensures
            (final(self)@, h.model()) == spec_handle_message(
                old(self)@,
                mm.trace(),
                mm.held(),
                msg.model(),
            ),
    {
        let method = match msg.get("method") {
            Some(m) => match m {
                LSPAny::String(s) => Some(s.clone()),
                _ => {
                    return Handled {
                        trace: None,
                        outcome: Err(String::from_str("Method should be a string.")),
                    };
                },
            },
            None => None,
        };
        match method {
            Some(method) => {
                let params = params_of(&msg);
                match msg.get("id") {
                    Some(idv) => match request_id_of(idv) {
                        None => Handled {
                            trace: None,
                            outcome: Err(String::from_str("Id should be a string or an integer.")),
                        },
                        Some(id) => {
                            let d = id.to_display_string();
                            let t = concat("Received request ", d.as_str());
                            let t = concat(t.as_str(), " ");
                            let t = concat(t.as_str(), method.as_str());
                            let t = concat(t.as_str(), ".");
                            let trace = trace_note(mm.get_trace(), t);
                            let action = self.request_action(&method, id, params);
                            Handled { trace, outcome: Ok(action) }
                        },
                    },
                    None => {
                        let t = concat("Received notification ", method.as_str());
                        let t = concat(t.as_str(), ".");
                        let trace = trace_note(mm.get_trace(), t);
                        let action = self.notification_action(&method, params);
                        if !self.initialized && self.initialize_requested && string_is(
                            &method,
                            "initialized",
                        ) {
                            self.initialized = true;
                        }
                        Handled { trace, outcome: Ok(action) }
                    },
                }
            },
            None => {
                if msg.get("params").is_some() {
                    return Handled {
                        trace: None,
                        outcome: Err(String::from_str("Missing field method.")),
                    };
                }
                let id = match msg.get("id") {
                    None => {
                        return Handled { trace: None, outcome: Ok(ServerAction::Done) };
                    },
                    Some(idv) => request_id_of(idv),
                };
                match id {
                    None => Handled {
                        trace: None,
                        outcome: Err(String::from_str("Id should be a string or an integer.")),
                    },
                    Some(id) => {
                        let d = id.to_display_string();
                        let t = concat("Received response ", d.as_str());
                        let t = concat(t.as_str(), ".");
                        let trace = trace_note(mm.get_trace(), t);
                        let outcome = response_action(mm, id, msg);
                        Handled { trace, outcome }
                    },
                }
            },
        }
    }
}

/// The message `msg` is a request of method `method` with id `id`.
pub open spec fn spec_is_request(msg: JsonValue, method: Seq<char>, id: IdModel) -> bool {
    &&& spec_json_get(msg, "method"@) == Some(JsonValue::String(method))
    &&& spec_json_get(msg, "id"@) matches Some(idv)
    &&& spec_request_id(idv) == Some(id)
}

/// The message `msg` is a notification of method `method`.
pub open spec fn spec_is_notification(msg: JsonValue, method: Seq<char>) -> bool {
    &&& spec_json_get(msg, "method"@) == Some(JsonValue::String(method))
    &&& spec_json_get(msg, "id"@) is None
}

/// The message `msg` is a response with id `id`: no method, no params.
pub open spec fn spec_is_response(msg: JsonValue, id: Seq<char>) -> bool {
    &&& spec_json_get(msg, "method"@) is None
    &&& spec_json_get(msg, "params"@) is None
    &&& spec_json_get(msg, "id"@) == Some(JsonValue::String(id))
}

/// Whether `a` answers the request `id`: an error response to it, or its hand-over
/// to the handler that answers it.
pub open spec fn spec_answers(a: ActionModel, id: IdModel) -> bool {
    match a {
        ActionModel::RespondError { id: i, .. } => i == id,
        ActionModel::Initialize { id: i, .. } => i == id,
        ActionModel::Request { id: i, .. } => i == id,
        _ => false,
    }
}

/// Every request is answered, whatever its method, its params (present or not) and
/// the server's state; the server stays as it was.
pub proof fn law_every_request_answered(
    st: ServerModel,
    trace: TraceValue,
    held: Map<Seq<char>, (Seq<char>, JsonValue)>,
    msg: JsonValue,
    method: Seq<char>,
    id: IdModel,
)
    requires
        spec_is_request(msg, method, id),
    ensures
        spec_handle_message(st, trace, held, msg).0 == st,
        spec_handle_message(st, trace, held, msg).1.outcome matches Ok(a) && spec_answers(a, id),
{
}

/// Before the server is initialized, every request but `initialize` is answered
/// with a `SERVER_NOT_INITIALIZED` error, and the server stays as it was.
pub proof fn law_requests_before_initialize_refused(
    st: ServerModel,
    trace: TraceValue,
    held: Map<Seq<char>, (Seq<char>, JsonValue)>,
    msg: JsonValue,
    method: Seq<char>,
    id: IdModel,
)
    requires
        !st.initialized,
        !st.shutdown,
        spec_is_request(msg, method, id),
        method != "initialize"@,
    ensures
        spec_handle_message(st, trace, held, msg).0 == st,
        spec_handle_message(st, trace, held, msg).1.outcome == Ok::<ActionModel, Seq<char>>(
            ActionModel::RespondError {
                id,
                code: error_codes::SERVER_NOT_INITIALIZED,
                message: "Server was not initialized."@,
            },
        ),
{
}

/// Until an `initialize` request came, every notification but `exit` is dropped:
/// no handler gets it and the server stays as it was.
pub proof fn law_notifications_before_initialize_dropped(
    st: ServerModel,
    trace: TraceValue,
    held: Map<Seq<char>, (Seq<char>, JsonValue)>,
    msg: JsonValue,
    method: Seq<char>,
)
    requires
        !st.initialize_requested,
        spec_is_notification(msg, method),
        method != "exit"@,
    ensures
        spec_handle_message(st, trace, held, msg).0 == st,
        spec_handle_message(st, trace, held, msg).1.outcome == Ok::<ActionModel, Seq<char>>(
            ActionModel::Done,
        ),
{
}

/// After a `shutdown` request, every request is answered with an
/// `INVALID_REQUEST` error, and the server stays as it was.
pub proof fn law_requests_after_shutdown_refused(
    st: ServerModel,
    trace: TraceValue,
    held: Map<Seq<char>, (Seq<char>, JsonValue)>,
    msg: JsonValue,
    method: Seq<char>,
    id: IdModel,
)
    requires
        st.shutdown,
        spec_is_request(msg, method, id),
    ensures
        spec_handle_message(st, trace, held, msg).0 == st,
        spec_handle_message(st, trace, held, msg).1.outcome == Ok::<ActionModel, Seq<char>>(
            ActionModel::RespondError {
                id,
                code: error_codes::INVALID_REQUEST,
                message: "Server was shut down."@,
            },
        ),
{
}

/// The `exit` notification, in any state, ends the process with code 0 when the
/// server was shut down, and with code 1 otherwise.
pub proof fn law_exit_code(
    st: ServerModel,
    trace: TraceValue,
    held: Map<Seq<char>, (Seq<char>, JsonValue)>,
    msg: JsonValue,
)
    requires
        spec_is_notification(msg, "exit"@),
    ensures
        spec_handle_message(st, trace, held, msg).1.outcome == Ok::<ActionModel, Seq<char>>(
            ActionModel::Exit {
                exit_code: if st.shutdown {
                    0
                } else {
                    1
                },
            },
        ),
{
}

/// The `initialized` notification, after an `initialize` request, initializes the
/// server, which from then on hands requests to their handlers.
pub proof fn law_initialized_notification(
    st: ServerModel,
    trace: TraceValue,
    held: Map<Seq<char>, (Seq<char>, JsonValue)>,
    msg: JsonValue,
)
    requires
        st.initialize_requested,
        spec_is_notification(msg, "initialized"@),
    ensures
        spec_handle_message(st, trace, held, msg).0 == (ServerModel {
            initialize_requested: true,
            initialized: true,
            shutdown: st.shutdown,
        }),
{
}

/// A response whose id names no request that awaits one is in error.
pub proof fn law_unknown_response_refused(
    st: ServerModel,
    trace: TraceValue,
    held: Map<Seq<char>, (Seq<char>, JsonValue)>,
    msg: JsonValue,
    id: Seq<char>,
)
    requires
        spec_is_response(msg, id),
        !held.contains_key(id),
    ensures
        spec_handle_message(st, trace, held, msg).0 == st,
        spec_handle_message(st, trace, held, msg).1.outcome == Err::<ActionModel, Seq<char>>(
            "Request with the specified id "@ + id + " was not found."@,
        ),
{
}

/// A response to a `client/registerCapability` request that awaits one hands the
/// response and the held request on to the handler, and leaves the server as it was.
pub proof fn law_response_reaches_held_request(
    st: ServerModel,
    trace: TraceValue,
    held: Map<Seq<char>, (Seq<char>, JsonValue)>,
    msg: JsonValue,
    id: Seq<char>,
)
    requires
        spec_is_response(msg, id),
        held.contains_key(id),
        held[id].0 == "client/registerCapability"@,
    ensures
        spec_handle_message(st, trace, held, msg).0 == st,
        spec_handle_message(st, trace, held, msg).1.outcome == Ok::<ActionModel, Seq<char>>(
            ActionModel::RegisterCapabilityResponse { request_id: id, response: msg, request: held[id].1 },
        ),
{
}

/// When tracing is off, the server reports none of the messages it reads.
pub proof fn law_no_trace_when_off(
    st: ServerModel,
    held: Map<Seq<char>, (Seq<char>, JsonValue)>,
    msg: JsonValue,
)
    ensures
        spec_handle_message(st, TraceValue::Off, held, msg).1.trace is None,
{
}

/// A `client/registerCapability` request that the server sent and holds is what
/// the response with its id is handed on with: after `make_request(id,
/// "client/registerCapability", ..)` gave `request`, the response `msg` with id
/// `id` reaches the handler together with `request`.
pub proof fn law_sent_request_meets_its_response(
    before: MessageManager,
    after: MessageManager,
    st: ServerModel,
    id: Seq<char>,
    request: JsonValue,
    msg: JsonValue,
)
    requires
        after.held() == before.held().insert(id, ("client/registerCapability"@, request)),
        spec_is_response(msg, id),
    ensures
        spec_handle_message(st, after.trace(), after.held(), msg).1.outcome == Ok::<
            ActionModel,
            Seq<char>,
        >(ActionModel::RegisterCapabilityResponse { request_id: id, response: msg, request }),
{
    law_response_reaches_held_request(st, after.trace(), after.held(), msg, id);
}

/// The JSON form of a message id, as a JSON writer gives it: a string, a
/// non-negative integer as an unsigned number, a negative one as a signed number.
pub open spec fn spec_id_json(id: IdModel) -> JsonValue {
    match id {
        IdModel::Integer(i) => if i >= 0 {
            JsonValue::UInteger(i as u64)
        } else {
            JsonValue::Integer(i)
        },
        IdModel::String(s) => JsonValue::String(s),
    }
}

/// A message id, integer or string, reads back as itself from its JSON form.
pub proof fn law_id_read_back(id: IdModel)
    ensures
        spec_request_id(spec_id_json(id)) == Some(id),
{
}

} // verus!
