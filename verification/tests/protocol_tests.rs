use fmodsilo::lsp_json::error_codes;
use fmodsilo::lsp_json::{
    ClientCapabilities, DidChangeWatchedFilesClientCapabilities, DidChangeWatchedFilesParams,
    DidChangeWorkspaceFoldersParams, FileChangeType, FileEvent, GlobPattern, InitializeParams,
    RenameFilesParams, SetTraceParams, StringOrBoolean, TraceValue, WorkspaceClientCapabilities,
    WorkspaceFolder, WorkspaceFolderOrURI, WorkspaceFoldersChangeEvent,
};
use fmodsilo::message_manager::MessageManager;
use fmodsilo::lsp_any::LSPAny;
use fmodsilo::lsp_json::FileSystemWatcher;
use fmodsilo::paths::FileUri;
use fmodsilo::protocol::{
    add_folder_at, add_workspace_folders, apply_path_change, registration_request, remove_workspace_folders, watch_registration_params, watcher_json, checked_did_change_watched_files, init_folder_at, Effects, initialize, on_did_change_watched_files, on_did_change_workspace_folders, on_initialized,
    on_set_trace, server_capabilities, shutdown, will_rename_files,
};
use fmodsilo::workspace::Workspace;

fn s(x: &str) -> String {
    x.to_string()
}

fn folder(uri: &str, name: &str) -> WorkspaceFolder {
    WorkspaceFolder { uri: s(uri), name: s(name) }
}

fn params(trace: Option<TraceValue>, folders: Option<Option<Vec<WorkspaceFolder>>>) -> InitializeParams {
    InitializeParams {
        process_id: None,
        client_info: None,
        locale: None,
        root_path: None,
        root_uri: None,
        initialization_options: None,
        capabilities: ClientCapabilities { workspace: None },
        trace,
        workspace_folders: folders,
    }
}

fn watching(dynamic: Option<bool>, relative: Option<bool>) -> ClientCapabilities {
    ClientCapabilities {
        workspace: Some(WorkspaceClientCapabilities {
            file_operations: None,
            did_change_watched_files: Some(DidChangeWatchedFilesClientCapabilities {
                dynamic_registration: dynamic,
                relative_pattern_support: relative,
            }),
        }),
    }
}

#[test]
fn initialize_adds_a_mod_per_folder() {
    let mut w = Workspace::new();
    let mut mm = MessageManager::new();
    let p = params(
        Some(TraceValue::Verbose),
        Some(Some(vec![folder("file:///tmp/modA", "modA"), folder("file:///tmp/modB", "modB")])),
    );
    let (r, e) = initialize(&mut w, p, &mut mm, s("1.2.3"));
    let res = r.unwrap();
    let info = res.server_info.unwrap();
    assert_eq!(info.name, "fmodsilo");
    assert_eq!(info.version, Some(s("1.2.3")));
    let ws = res.capabilities.workspace.unwrap();
    let wf = ws.workspace_folders.unwrap();
    assert_eq!(wf.supported, Some(true));
    assert!(matches!(wf.change_notifications, Some(StringOrBoolean::Boolean(true))));
    assert_eq!(mm.get_trace(), TraceValue::Verbose);
    assert_eq!(w.get_mod(&s("modA")).unwrap().get_root(), "/tmp/modA");
    assert_eq!(w.get_mod(&s("modB")).unwrap().get_root(), "/tmp/modB");
    assert_eq!(e.scan, vec![s("/tmp/modA"), s("/tmp/modB")]);
    assert_eq!(
        e.logs,
        vec![
            s("Adding mod modA with path /tmp/modA."),
            s("Adding mod modB with path /tmp/modB."),
            s("Server initialized."),
        ]
    );
    assert!(e.errors.is_empty());
}

#[test]
fn initialize_without_folders_or_trace() {
    let mut w = Workspace::new();
    let mut mm = MessageManager::new();
    mm.set_trace(TraceValue::Verbose);
    let (r, e) = initialize(&mut w, params(None, Some(None)), &mut mm, s("0.1.0"));
    assert!(r.is_ok());
    assert_eq!(mm.get_trace(), TraceValue::Off);
    assert_eq!(e.logs, vec![s("Setting trace value to \"off\"")]);
    assert!(e.scan.is_empty());
}

#[test]
fn initialize_refuses_a_bad_uri() {
    let mut w = Workspace::new();
    let mut mm = MessageManager::new();
    let p = params(None, Some(Some(vec![folder("file:///tmp/ok", "ok"), folder("not a uri", "bad")])));
    let (r, e) = initialize(&mut w, p, &mut mm, s("1"));
    let err = r.unwrap_err();
    assert_eq!(err.code, error_codes::INVALID_PARAMS);
    assert_eq!(err.message, "Invalid uri not a uri: relative URL without a base.");
    assert!(err.data.is_none());
    assert!(w.get_mod(&s("ok")).is_some());
    assert_eq!(e.scan, vec![s("/tmp/ok")]);
}

#[test]
fn initialize_refuses_a_uri_that_names_no_file() {
    let mut w = Workspace::new();
    let mut mm = MessageManager::new();
    let p = params(None, Some(Some(vec![folder("http://example.com/x", "web")])));
    let (r, _) = initialize(&mut w, p, &mut mm, s("1"));
    let err = r.unwrap_err();
    assert_eq!(err.code, error_codes::INVALID_PARAMS);
    assert_eq!(err.message, "Invalid file uri: http://example.com/x.");
    assert!(w.get_mod(&s("web")).is_none());
}

#[test]
fn shutdown_and_rename_and_set_trace() {
    let mut mm = MessageManager::new();
    let (r, log) = shutdown(&mm);
    assert!(r.is_ok());
    assert!(log.is_none());
    mm.set_trace(TraceValue::Verbose);
    let (_, log) = shutdown(&mm);
    assert_eq!(log, Some(s("Server shut down.")));
    assert!(matches!(will_rename_files(RenameFilesParams { files: vec![] }), Ok(None)));
    assert_eq!(
        on_set_trace(&mut mm, SetTraceParams { value: TraceValue::Messages }),
        Some(s("Setting trace value to \"messages\""))
    );
    assert_eq!(mm.get_trace(), TraceValue::Messages);
    assert_eq!(on_set_trace(&mut mm, SetTraceParams { value: TraceValue::Off }), None);
}

#[test]
fn announced_capabilities() {
    let c = server_capabilities();
    let fo = c.workspace.unwrap().file_operations.unwrap();
    assert!(fo.did_create.is_none());
    let wr = fo.will_rename.unwrap();
    assert_eq!(wr.filters.len(), 1);
    assert_eq!(wr.filters[0].scheme, Some(s("file")));
    assert_eq!(wr.filters[0].pattern.glob, "**/*");
    assert_eq!(wr.filters[0].pattern.options.as_ref().unwrap().ignore_case, Some(true));
}

#[test]
fn watched_files_keep_lua_files_in_step() {
    let mut w = Workspace::new();
    let mut mm = MessageManager::new();
    mm.set_trace(TraceValue::Verbose);
    let created = DidChangeWatchedFilesParams {
        changes: vec![
            FileEvent { uri: s("file:///m/a.lua"), change_type: FileChangeType::Created },
            FileEvent { uri: s("file:///m/sub/b.lua"), change_type: FileChangeType::Created },
            FileEvent { uri: s("file:///m/readme.txt"), change_type: FileChangeType::Created },
            FileEvent { uri: s("file:///m/a.lua"), change_type: FileChangeType::Changed },
        ],
    };
    let logs = on_did_change_watched_files(&mut w, created, &mm);
    assert_eq!(logs, vec![s("Adding lua file: /m/a.lua."), s("Adding lua file: /m/sub/b.lua.")]);
    let deleted = DidChangeWatchedFilesParams {
        changes: vec![
            FileEvent { uri: s("file:///m/a.lua"), change_type: FileChangeType::Deleted },
            FileEvent { uri: s("file:///m/sub"), change_type: FileChangeType::Deleted },
        ],
    };
    let logs = on_did_change_watched_files(&mut w, deleted, &mm);
    assert_eq!(logs, vec![s("Deleting lua file: /m/a.lua.")]);
    assert!(w.delete_lua_file(&s("/m/a.lua")).is_none());
    assert!(w.delete_lua_file(&s("/m/sub/b.lua")).is_none());
}

#[test]
fn workspace_folders_change() {
    let mut w = Workspace::new();
    let mut mm = MessageManager::new();
    mm.set_trace(TraceValue::Verbose);
    let p = DidChangeWorkspaceFoldersParams {
        event: WorkspaceFoldersChangeEvent {
            added: vec![folder("file:///w/one", "one"), folder("http://h/x", "web"), folder("::", "bad")],
            removed: vec![],
        },
    };
    let e = on_did_change_workspace_folders(&mut w, p, &mm);
    assert_eq!(e.scan, vec![s("/w/one")]);
    assert_eq!(
        e.errors,
        vec![
            s("Failed to convert uri http://h/x to file path."),
            s("Failed to parse uri ::: relative URL without a base."),
        ]
    );
    assert_eq!(e.logs.len(), 3);
    assert_eq!(e.logs[0], "Adding mod one with path /w/one.");
    w.add_lua_file(s("/w/one/a.lua"));
    w.add_lua_file(s("/w/two/b.lua"));
    let p = DidChangeWorkspaceFoldersParams {
        event: WorkspaceFoldersChangeEvent { added: vec![], removed: vec![folder("file:///w/one", "one")] },
    };
    let e = on_did_change_workspace_folders(&mut w, p, &mm);
    assert_eq!(e.logs, vec![s("Removing mod one with path /w/one.")]);
    assert!(w.get_mod(&s("one")).is_none());
    assert!(w.delete_lua_file(&s("/w/one/a.lua")).is_none());
    assert!(w.delete_lua_file(&s("/w/two/b.lua")).is_some());
}

#[test]
fn initialized_registers_watchers_when_the_client_can() {
    let mut w = Workspace::new();
    let mut mm = MessageManager::new();
    w.add_mod(s("m"), s("/root/m"));
    let (watchers, logs) = on_initialized(&w, &mm);
    assert!(watchers.is_none());
    assert!(logs.is_empty());

    w.set_client_capabilities(watching(Some(true), None));
    mm.set_trace(TraceValue::Verbose);
    let (watchers, logs) = on_initialized(&w, &mm);
    let watchers = watchers.unwrap();
    assert_eq!(watchers.len(), 1);
    assert!(watchers[0].kind.is_none());
    assert!(matches!(&watchers[0].glob_pattern, GlobPattern::Pattern(p) if p == "/root/m/**/*"));
    assert_eq!(logs, vec![s("Registering for file events in m")]);

    w.set_client_capabilities(watching(Some(true), Some(true)));
    let (watchers, _) = on_initialized(&w, &mm);
    let watchers = watchers.unwrap();
    match &watchers[0].glob_pattern {
        GlobPattern::RelativePattern { base_uri: WorkspaceFolderOrURI::WorkspaceFolder(f), pattern } => {
            assert_eq!(f.uri, "file:///root/m");
            assert_eq!(f.name, "m");
            assert_eq!(pattern, "**/*");
        },
        other => panic!("unexpected {:?}", other),
    }

    w.set_client_capabilities(watching(Some(false), Some(true)));
    assert!(on_initialized(&w, &mm).0.is_none());
}

#[test]
fn path_changes_follow_the_extension() {
    let mut w = Workspace::new();
    assert_eq!(
        apply_path_change(&mut w, FileChangeType::Created, s("/a/x.lua"), Some(s("lua")), true),
        Some(s("Adding lua file: /a/x.lua."))
    );
    assert_eq!(apply_path_change(&mut w, FileChangeType::Created, s("/a/y.txt"), Some(s("txt")), true), None);
    assert_eq!(apply_path_change(&mut w, FileChangeType::Created, s("/a/z.lua"), Some(s("lua")), false), None);
    assert_eq!(apply_path_change(&mut w, FileChangeType::Changed, s("/a/x.lua"), Some(s("lua")), true), None);
    assert_eq!(
        apply_path_change(&mut w, FileChangeType::Deleted, s("/a/x.lua"), Some(s("lua")), true),
        Some(s("Deleting lua file: /a/x.lua."))
    );
    assert!(w.delete_lua_file(&s("/a/x.lua")).is_none());
    assert_eq!(apply_path_change(&mut w, FileChangeType::Deleted, s("/a"), None, true), None);
    assert!(w.delete_lua_file(&s("/a/z.lua")).is_none());
}

#[test]
fn folders_are_added_by_location() {
    let mut w = Workspace::new();
    let mut e = Effects { logs: vec![], errors: vec![], scan: vec![] };
    add_folder_at(&mut w, &folder("file:///r/a", "a"), FileUri::Path(s("/r/a")), true, &mut e);
    add_folder_at(&mut w, &folder("ftp://h/b", "b"), FileUri::NotAFile(s("ftp://h/b")), false, &mut e);
    add_folder_at(&mut w, &folder("::", "c"), FileUri::Invalid(s("why")), false, &mut e);
    assert_eq!(w.get_mod(&s("a")).unwrap().get_root(), "/r/a");
    assert!(w.get_mod(&s("b")).is_none());
    assert_eq!(e.logs, vec![s("Adding mod a with path /r/a.")]);
    assert_eq!(e.scan, vec![s("/r/a")]);
    assert_eq!(e.errors, vec![s("Failed to convert uri ftp://h/b to file path."), s("Failed to parse uri ::: why.")]);

    let mut w = Workspace::new();
    let mut e = Effects { logs: vec![], errors: vec![], scan: vec![] };
    assert_eq!(init_folder_at(&mut w, &folder("file:///r/a", "a"), FileUri::Path(s("/r/a")), false, &mut e), None);
    assert_eq!(e.scan, vec![s("/r/a")]);
    assert!(e.logs.is_empty());
    assert_eq!(
        init_folder_at(&mut w, &folder("ftp://h/b", "b"), FileUri::NotAFile(s("ftp://h/b")), true, &mut e),
        Some(s("Invalid file uri: ftp://h/b."))
    );
    assert_eq!(
        init_folder_at(&mut w, &folder("::", "c"), FileUri::Invalid(s("why")), true, &mut e),
        Some(s("Invalid uri ::: why."))
    );
    assert!(e.logs.is_empty());
    assert!(e.errors.is_empty());
}

#[test]
fn watched_files_must_name_local_files() {
    let mut w = Workspace::new();
    let mm = MessageManager::new();
    let bad = DidChangeWatchedFilesParams {
        changes: vec![
            FileEvent { uri: s("file:///m/a.lua"), change_type: FileChangeType::Created },
            FileEvent { uri: s("http://h/b.lua"), change_type: FileChangeType::Created },
        ],
    };
    assert!(checked_did_change_watched_files(&mut w, bad, &mm).is_none());
    assert!(w.delete_lua_file(&s("/m/a.lua")).is_none());
    let good = DidChangeWatchedFilesParams {
        changes: vec![FileEvent { uri: s("file:///m/a.lua"), change_type: FileChangeType::Created }],
    };
    assert_eq!(checked_did_change_watched_files(&mut w, good, &mm), Some(vec![]));
    assert!(w.delete_lua_file(&s("/m/a.lua")).is_some());
}

fn o(entries: Vec<(&str, LSPAny)>) -> LSPAny {
    LSPAny::Object(entries.into_iter().map(|(k, v)| (k.to_string(), v)).collect())
}

fn st(x: &str) -> LSPAny {
    LSPAny::String(s(x))
}

#[test]
fn watchers_as_json() {
    let w = FileSystemWatcher { glob_pattern: GlobPattern::Pattern(s("/m/**/*")), kind: Some(7) };
    assert_eq!(watcher_json(&w), o(vec![("globPattern", st("/m/**/*")), ("kind", LSPAny::UInteger(7))]));
    let w = FileSystemWatcher {
        glob_pattern: GlobPattern::RelativePattern {
            base_uri: WorkspaceFolderOrURI::WorkspaceFolder(folder("file:///m", "m")),
            pattern: s("**/*"),
        },
        kind: None,
    };
    let expected = o(vec![(
        "globPattern",
        o(vec![("baseUri", o(vec![("name", st("m")), ("uri", st("file:///m"))])), ("pattern", st("**/*"))]),
    )]);
    assert_eq!(watcher_json(&w), expected);
    let p = watch_registration_params(Some(vec![w]), s("reg"));
    assert_eq!(
        p,
        o(vec![(
            "registrations",
            LSPAny::Array(vec![o(vec![
                ("id", st("reg")),
                ("method", st("workspace/didChangeWatchedFiles")),
                ("registerOptions", o(vec![("watchers", LSPAny::Array(vec![expected]))])),
            ])]),
        )])
    );
    assert_eq!(watch_registration_params(None, s("reg")), o(vec![("registrations", LSPAny::Array(vec![]))]));
}

#[test]
fn registration_request_is_held() {
    let mut mm = MessageManager::new();
    mm.set_trace(TraceValue::Messages);
    let (request, note) = registration_request(&mut mm, None, s("reg"), s("req"));
    assert_eq!(
        request,
        o(vec![
            ("id", st("req")),
            ("jsonrpc", st("2.0")),
            ("method", st("client/registerCapability")),
            ("params", o(vec![("registrations", LSPAny::Array(vec![]))])),
        ])
    );
    assert_eq!(note.unwrap().message, "Sending request client/registerCapability \"req\"");
    assert_eq!(mm.request_method(&s("req")), Some(s("client/registerCapability")));
}

#[test]
fn folders_added_then_removed_in_steps() {
    let mut w = Workspace::new();
    let mut mm = MessageManager::new();
    mm.set_trace(TraceValue::Verbose);
    let mut e = Effects { logs: vec![], errors: vec![], scan: vec![] };
    add_workspace_folders(&mut w, vec![folder("file:///w/a/b", "b")], &mm, &mut e);
    assert_eq!(e.scan, vec![s("/w/a/b")]);
    w.add_lua_file(s("/w/a/b/x.lua"));
    w.add_mod(s("a"), s("/w/a"));
    remove_workspace_folders(&mut w, vec![folder("file:///w/a", "a")], &mm, &mut e);
    assert!(w.delete_lua_file(&s("/w/a/b/x.lua")).is_none());
    assert!(w.get_mod(&s("b")).is_some());
    assert_eq!(e.logs, vec![s("Adding mod b with path /w/a/b."), s("Removing mod a with path /w/a.")]);
}
