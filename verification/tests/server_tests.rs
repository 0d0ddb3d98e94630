use fmodsilo::lsp_any::LSPAny;
use fmodsilo::lsp_json::error_codes;
use fmodsilo::lsp_json::{IntegerOrString, TraceValue};
use fmodsilo::message_manager::MessageManager;
use fmodsilo::server::{Handled, NotificationKind, RequestKind, Server, ServerAction};

fn s(x: &str) -> String {
    x.to_string()
}

fn obj(entries: Vec<(&str, LSPAny)>) -> LSPAny {
    LSPAny::Object(entries.into_iter().map(|(k, v)| (k.to_string(), v)).collect())
}

fn request(id: LSPAny, method: &str, params: LSPAny) -> LSPAny {
    obj(vec![
        ("jsonrpc", LSPAny::String(s("2.0"))),
        ("id", id),
        ("method", LSPAny::String(s(method))),
        ("params", params),
    ])
}

fn notification(method: &str, params: LSPAny) -> LSPAny {
    obj(vec![
        ("jsonrpc", LSPAny::String(s("2.0"))),
        ("method", LSPAny::String(s(method))),
        ("params", params),
    ])
}

fn response(id: LSPAny) -> LSPAny {
    obj(vec![("jsonrpc", LSPAny::String(s("2.0"))), ("id", id), ("result", LSPAny::Null)])
}

fn error_of(h: &Handled) -> (IntegerOrString, i64, String) {
    match &h.outcome {
        Ok(ServerAction::RespondError { id, code, message }) => (id.duplicate(), *code, message.clone()),
        other => panic!("expected an error response, got {:?}", other),
    }
}

fn initialized_server(mm: &MessageManager) -> Server {
    let mut server = Server::new();
    let h = server.handle_message(
        request(LSPAny::UInteger(0), "initialize", obj(vec![("capabilities", obj(vec![]))])),
        mm,
    );
    assert!(matches!(h.outcome, Ok(ServerAction::Initialize { .. })));
    server.request_handled(RequestKind::Initialize);
    let h = server.handle_message(notification("initialized", obj(vec![])), mm);
    assert!(matches!(
        h.outcome,
        Ok(ServerAction::Notification { notification_kind: NotificationKind::Initialized, .. })
    ));
    server
}

#[test]
fn request_before_initialize_is_refused() {
    let mm = MessageManager::new();
    let mut server = Server::new();
    let h = server.handle_message(request(LSPAny::UInteger(1), "shutdown", LSPAny::Null), &mm);
    assert!(h.trace.is_none());
    assert_eq!(
        error_of(&h),
        (IntegerOrString::Integer(1), error_codes::SERVER_NOT_INITIALIZED, s("Server was not initialized."))
    );
}

#[test]
fn initialize_request_is_handed_on_with_its_capabilities() {
    let mm = MessageManager::new();
    let mut server = Server::new();
    let caps = obj(vec![("workspace", obj(vec![]))]);
    let params = obj(vec![("processId", LSPAny::Null), ("capabilities", caps.clone_value())]);
    let h = server.handle_message(request(LSPAny::String(s("init")), "initialize", params.clone_value()), &mm);
    match h.outcome {
        Ok(ServerAction::Initialize { id, params: p, capabilities }) => {
            assert_eq!(id, IntegerOrString::String(s("init")));
            assert_eq!(p, params);
            assert_eq!(capabilities, caps);
        },
        other => panic!("unexpected {:?}", other),
    }
}

#[test]
fn initialize_without_capabilities_is_an_error() {
    let mm = MessageManager::new();
    let mut server = Server::new();
    let h = server.handle_message(request(LSPAny::UInteger(1), "initialize", obj(vec![])), &mm);
    assert_eq!(
        error_of(&h),
        (IntegerOrString::Integer(1), error_codes::INVALID_PARAMS, s("Missing field capabilities."))
    );
}

#[test]
fn message_without_method_or_with_bad_method() {
    let mm = MessageManager::new();
    let mut server = Server::new();
    let h = server.handle_message(obj(vec![("params", LSPAny::Null)]), &mm);
    assert!(matches!(h.outcome, Err(ref e) if e == "Missing field method."));
    let h = server.handle_message(obj(vec![("params", LSPAny::Null), ("method", LSPAny::UInteger(3))]), &mm);
    assert!(matches!(h.outcome, Err(ref e) if e == "Method should be a string."));
}

#[test]
fn request_with_bad_id_is_an_error() {
    let mm = MessageManager::new();
    let mut server = Server::new();
    let h = server.handle_message(request(LSPAny::Boolean(true), "shutdown", LSPAny::Null), &mm);
    assert!(matches!(h.outcome, Err(ref e) if e == "Id should be a string or an integer."));
    let h = server.handle_message(request(LSPAny::UInteger(u64::MAX), "shutdown", LSPAny::Null), &mm);
    assert!(matches!(h.outcome, Err(ref e) if e == "Id should be a string or an integer."));
}

#[test]
fn message_without_params_or_id_is_passed_over() {
    let mm = MessageManager::new();
    let mut server = Server::new();
    let h = server.handle_message(obj(vec![("jsonrpc", LSPAny::String(s("2.0")))]), &mm);
    assert!(matches!(h.outcome, Ok(ServerAction::Done)));
    assert!(h.trace.is_none());
}

#[test]
fn requests_after_initialized() {
    let mm = MessageManager::new();
    let mut server = initialized_server(&mm);
    let h = server.handle_message(request(LSPAny::Integer(-7), "shutdown", LSPAny::Null), &mm);
    assert!(matches!(
        h.outcome,
        Ok(ServerAction::Request { request_kind: RequestKind::Shutdown, id: IntegerOrString::Integer(-7), .. })
    ));
    let h = server.handle_message(
        request(LSPAny::UInteger(2), "workspace/willRenameFiles", obj(vec![("files", LSPAny::Array(vec![]))])),
        &mm,
    );
    assert!(matches!(
        h.outcome,
        Ok(ServerAction::Request { request_kind: RequestKind::WillRenameFiles, id: IntegerOrString::Integer(2), .. })
    ));
    let h = server.handle_message(request(LSPAny::UInteger(3), "textDocument/hover", LSPAny::Null), &mm);
    assert_eq!(
        error_of(&h),
        (
            IntegerOrString::Integer(3),
            error_codes::METHOD_NOT_FOUND,
            s("Couldn't find function bound for method textDocument/hover.")
        )
    );
}

#[test]
fn requests_after_shutdown_are_refused() {
    let mm = MessageManager::new();
    let mut server = initialized_server(&mm);
    server.request_handled(RequestKind::Shutdown);
    let h = server.handle_message(request(LSPAny::UInteger(4), "shutdown", LSPAny::Null), &mm);
    assert_eq!(
        error_of(&h),
        (IntegerOrString::Integer(4), error_codes::INVALID_REQUEST, s("Server was shut down."))
    );
}

#[test]
fn exit_code_depends_on_shutdown() {
    let mm = MessageManager::new();
    let mut server = initialized_server(&mm);
    let h = server.handle_message(notification("exit", LSPAny::Null), &mm);
    assert!(matches!(h.outcome, Ok(ServerAction::Exit { exit_code: 1 })));
    server.request_handled(RequestKind::WillRenameFiles);
    let h = server.handle_message(notification("exit", LSPAny::Null), &mm);
    assert!(matches!(h.outcome, Ok(ServerAction::Exit { exit_code: 1 })));
    server.request_handled(RequestKind::Shutdown);
    let h = server.handle_message(notification("exit", LSPAny::Null), &mm);
    assert!(matches!(h.outcome, Ok(ServerAction::Exit { exit_code: 0 })));
}

#[test]
fn notifications_are_handed_to_their_handlers() {
    let mm = MessageManager::new();
    let mut server = Server::new();
    server.request_handled(RequestKind::Initialize);
    let cases = vec![
        ("$/setTrace", NotificationKind::SetTrace),
        ("workspace/didChangeWatchedFiles", NotificationKind::DidChangeWatchedFiles),
        ("workspace/didChangeWorkspaceFolders", NotificationKind::DidChangeWorkspaceFolders),
    ];
    for (method, kind) in cases {
        let h = server.handle_message(notification(method, obj(vec![("x", LSPAny::UInteger(1))])), &mm);
        match h.outcome {
            Ok(ServerAction::Notification { notification_kind, params }) => {
                assert_eq!(notification_kind, kind);
                assert_eq!(params, obj(vec![("x", LSPAny::UInteger(1))]));
            },
            other => panic!("unexpected {:?}", other),
        }
    }
    let h = server.handle_message(notification("$/cancelRequest", LSPAny::Null), &mm);
    assert!(matches!(h.outcome, Ok(ServerAction::Done)));
}

#[test]
fn responses_to_unknown_requests_are_errors() {
    let mm = MessageManager::new();
    let mut server = Server::new();
    let h = server.handle_message(response(LSPAny::String(s("abc"))), &mm);
    assert!(matches!(h.outcome, Err(ref e) if e == "Request with the specified id abc was not found."));
    let h = server.handle_message(response(LSPAny::Integer(-5)), &mm);
    assert!(matches!(h.outcome, Err(ref e) if e == "Request with the specified id -5 was not found."));
    let h = server.handle_message(response(LSPAny::UInteger(5)), &mm);
    assert!(matches!(h.outcome, Err(ref e) if e == "Request with the specified id 5 was not found."));
    let h = server.handle_message(response(LSPAny::Boolean(false)), &mm);
    assert!(matches!(h.outcome, Err(ref e) if e == "Id should be a string or an integer."));
}

#[test]
fn response_to_held_register_capability_request() {
    let mut mm = MessageManager::new();
    let req = obj(vec![("method", LSPAny::String(s("client/registerCapability")))]);
    mm.hold_request(s("r1"), s("client/registerCapability"), req.clone_value());
    mm.hold_request(s("r2"), s("window/showMessageRequest"), LSPAny::Null);
    let mut server = Server::new();
    let msg = response(LSPAny::String(s("r1")));
    let h = server.handle_message(msg.clone_value(), &mm);
    match h.outcome {
        Ok(ServerAction::RegisterCapabilityResponse { request_id, response, request }) => {
            assert_eq!(request_id, s("r1"));
            assert_eq!(response, msg);
            assert_eq!(request, req);
        },
        other => panic!("unexpected {:?}", other),
    }
    let h = server.handle_message(response(LSPAny::String(s("r2"))), &mm);
    assert!(matches!(h.outcome, Ok(ServerAction::Done)));
}

#[test]
fn received_messages_are_traced() {
    let mut mm = MessageManager::new();
    mm.set_trace(TraceValue::Messages);
    let mut server = Server::new();
    let h = server.handle_message(request(LSPAny::UInteger(1), "shutdown", LSPAny::Null), &mm);
    let t = h.trace.unwrap();
    assert_eq!(t.message, "Received request 1 shutdown.");
    assert!(!t.with_detail);
    mm.set_trace(TraceValue::Verbose);
    let h = server.handle_message(request(LSPAny::String(s("q")), "shutdown", LSPAny::Null), &mm);
    let t = h.trace.unwrap();
    assert_eq!(t.message, "Received request \"q\" shutdown.");
    assert!(t.with_detail);
    let h = server.handle_message(notification("initialized", LSPAny::Null), &mm);
    assert_eq!(h.trace.unwrap().message, "Received notification initialized.");
    let h = server.handle_message(response(LSPAny::Integer(-2)), &mm);
    assert_eq!(h.trace.unwrap().message, "Received response -2.");
}

#[test]
fn requests_without_params_are_answered() {
    let mm = MessageManager::new();
    let mut server = Server::new();
    let msg = obj(vec![("id", LSPAny::String(s("x"))), ("method", LSPAny::String(s("shutdown")))]);
    let h = server.handle_message(msg, &mm);
    assert_eq!(
        error_of(&h),
        (IntegerOrString::String(s("x")), error_codes::SERVER_NOT_INITIALIZED, s("Server was not initialized."))
    );
    let mut server = initialized_server(&mm);
    let msg = obj(vec![("id", LSPAny::UInteger(9)), ("method", LSPAny::String(s("shutdown")))]);
    let h = server.handle_message(msg, &mm);
    match h.outcome {
        Ok(ServerAction::Request { request_kind: RequestKind::Shutdown, id, params }) => {
            assert_eq!(id, IntegerOrString::Integer(9));
            assert_eq!(params, LSPAny::Null);
        },
        other => panic!("unexpected {:?}", other),
    }
}

#[test]
fn notifications_before_initialize_are_dropped() {
    let mm = MessageManager::new();
    let mut server = Server::new();
    for method in ["initialized", "$/setTrace", "workspace/didChangeWatchedFiles", "workspace/didChangeWorkspaceFolders"] {
        let h = server.handle_message(notification(method, obj(vec![])), &mm);
        assert!(matches!(h.outcome, Ok(ServerAction::Done)));
    }
    let h = server.handle_message(request(LSPAny::UInteger(1), "shutdown", LSPAny::Null), &mm);
    assert_eq!(error_of(&h).1, error_codes::SERVER_NOT_INITIALIZED);
    let h = server.handle_message(notification("exit", LSPAny::Null), &mm);
    assert!(matches!(h.outcome, Ok(ServerAction::Exit { exit_code: 1 })));
}

#[test]
fn ids_read_back_as_themselves() {
    let mm = MessageManager::new();
    let mut server = Server::new();
    for (json, id) in [
        (LSPAny::UInteger(7), IntegerOrString::Integer(7)),
        (LSPAny::Integer(-7), IntegerOrString::Integer(-7)),
        (LSPAny::String(s("a")), IntegerOrString::String(s("a"))),
    ] {
        let h = server.handle_message(request(json, "shutdown", LSPAny::Null), &mm);
        assert_eq!(error_of(&h).0, id);
    }
}
