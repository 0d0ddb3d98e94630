//! The handlers of the requests and notifications that the server serves.
//!
//! Each handler changes the workspace and the trace level itself. What it
//! reports to the client in `$/logTrace` notifications, what it prints on the
//! error stream, and which directories are to be read for Lua files come back
//! in its result, in the order the handler meets them.
use vstd::prelude::*;

use crate::lsp_json::{
    error_codes, DidChangeWatchedFilesParams, DidChangeWorkspaceFoldersParams, FileChangeType,
    FileEvent, FileSystemWatcher, GlobPattern, WorkspaceFolderOrURI, FileOperationFilter, FileOperationPattern, FileOperationPatternOptions,
    FileOperationRegistrationOptions, FileOperationsOptions, InitializeParams, InitializeResult,
    RegisterCapabilityRequest, RegisterCapabilityResponse, RenameFilesParams, ResponseError,
    ServerCapabilities, ServerInfo, SetTraceParams, StringOrBoolean, TraceValue,
    WillRenameFilesResult, WorkspaceFolder, WorkspaceFoldersServerCapabilities,
    WorkspaceServerCapabilities,
};
use crate::lsp_any::{JsonValue, LSPAny};
use crate::message_manager::{
    concat, spec_note_model, spec_request_json, spec_trace_note, MessageManager, TraceNote,
};
use std::sync::Arc;

use crate::fmod::Mod;
use crate::paths::{
    file_uri_path, path_extension, path_file_uri, path_join, spec_path_file_uri, spec_path_join, spec_file_uri, spec_path_extension, spec_path_starts_with,
    FileUri, FileUriModel,
};
use crate::server::string_is;
use crate::workspace::Workspace;

verus! {

/// The text of each string of `v`.
pub open spec fn spec_texts(v: Seq<String>) -> Seq<Seq<char>> {
    v.map_values(|s: String| s@)
}

proof fn lemma_texts_push(v: Seq<String>, s: String)
    ensures
        spec_texts(v.push(s)) == spec_texts(v).push(s@),
{
    assert(spec_texts(v.push(s)) =~= spec_texts(v).push(s@));
}

/// The path that a watched-file event names.
pub open spec fn spec_event_path(e: FileEvent) -> Seq<char> {
    spec_file_uri(e.uri@)->Path_0
}

/// What a change of kind `kind` to the file at `path`, whose extension is `ext`,
/// does to the Lua files `lua`, and the message it logs when tracing is verbose:
/// a new `.lua` file is added, a deleted `.lua` file removed, a deleted path
/// without extension taken for a directory and every file under it removed.
pub open spec fn spec_path_change(
    lua: Set<Seq<char>>,
    verbose: bool,
    kind: FileChangeType,
    path: Seq<char>,
    ext: Option<Seq<char>>,
) -> (Set<Seq<char>>, Option<Seq<char>>) {
    match kind {
        FileChangeType::Created => if ext == Some("lua"@) {
            (
                lua.insert(path),
                if verbose {
                    Some("Adding lua file: "@ + path + "."@)
                } else {
                    None
                },
            )
        } else {
            (lua, None)
        },
        FileChangeType::Changed => (lua, None),
        FileChangeType::Deleted => match ext {
            Some(e) => if e == "lua"@ {
                (
                    lua.remove(path),
                    if verbose {
                        Some("Deleting lua file: "@ + path + "."@)
                    } else {
                        None
                    },
                )
            } else {
                (lua, None)
            },
            None => (lua.filter(|p: Seq<char>| !spec_path_starts_with(p, path)), None),
        },
    }
}

/// What one file event does to the Lua files `lua`, and the message it logs when
/// tracing is verbose (see `spec_path_change`).
pub open spec fn spec_file_event(lua: Set<Seq<char>>, verbose: bool, e: FileEvent) -> (
    Set<Seq<char>>,
    Option<Seq<char>>,
) {
    let path = spec_event_path(e);
    spec_path_change(lua, verbose, e.change_type, path, spec_path_extension(path))
}

/// The text of an optional string.
pub open spec fn spec_opt_text(s: Option<String>) -> Option<Seq<char>> {
    match s {
        Some(t) => Some(t@),
        None => None,
    }
}

/// Applies a change of kind `kind` to the file at `path`, whose extension is
/// `extension` (see `spec_path_change`). Gives back the message to log.
pub fn apply_path_change(
    workspace: &mut Workspace,
    kind: FileChangeType,
    path: String,
    extension: Option<String>,
    verbose: bool,
) -> (log: Option<String>)
    ensures
        (final(workspace).lua_files(), spec_opt_text(log)) == spec_path_change(
            old(workspace).lua_files(),
            verbose,
            kind,
            path@,
            spec_opt_text(extension),
        ),
        kind == FileChangeType::Changed ==> final(workspace).lua_files() == old(workspace).lua_files()
            && log is None,
        final(workspace).mods() == old(workspace).mods(),
        final(workspace).client_capabilities() == old(workspace).client_capabilities(),
{
    let is_lua = match &extension {
        Some(ext) => string_is(ext, "lua"),
        None => false,
    };
    match kind {
        FileChangeType::Created => {
            if is_lua {
                let log = if verbose {
                    let m = concat("Adding lua file: ", path.as_str());
                    Some(concat(m.as_str(), "."))
                } else {
                    None
                };
                workspace.add_lua_file(path);
                log
            } else {
                None
            }
        },
        FileChangeType::Changed => None,
        FileChangeType::Deleted => {
            if is_lua {
                let log = if verbose {
                    let m = concat("Deleting lua file: ", path.as_str());
                    Some(concat(m.as_str(), "."))
                } else {
                    None
                };
                let _ = workspace.delete_lua_file(&path);
                log
            } else {
                if extension.is_none() {
                    workspace.remove_directory(&path);
                }
                None
            }
        },
    }
}

/// What the file events `es`, in order, do to the Lua files `lua`, and the
/// messages they log.
pub open spec fn spec_file_events(lua: Set<Seq<char>>, verbose: bool, es: Seq<FileEvent>) -> (
    Set<Seq<char>>,
    Seq<Seq<char>>,
)
    decreases es.len(),
{
    if es.len() == 0 {
        (lua, Seq::empty())
    } else {
        let (l1, logs) = spec_file_events(lua, verbose, es.drop_last());
        let (l2, log) = spec_file_event(l1, verbose, es.last());
        (
            l2,
            match log {
                Some(m) => logs.push(m),
                None => logs,
            },
        )
    }
}

/// Whether every event of `es` names a URI of a local file.
pub open spec fn spec_events_name_files(es: Seq<FileEvent>) -> bool {
    forall|i: int| 0 <= i < es.len() ==> #[trigger] spec_file_uri(es[i].uri@) is Path
}

/// Handles `workspace/didChangeWatchedFiles`: keeps the Lua files of the
/// workspace in step with the files the client reports. Gives back the messages
/// to log.
pub fn on_did_change_watched_files(
    workspace: &mut Workspace,
    params: DidChangeWatchedFilesParams,
    message_manager: &MessageManager,
) -> (logs: Vec<String>)
    requires
        spec_events_name_files(params.changes@),
    ensures
        (final(workspace).lua_files(), spec_texts(logs@)) == spec_file_events(
            old(workspace).lua_files(),
            message_manager.trace() == TraceValue::Verbose,
            params.changes@,
        ),
        final(workspace).mods() == old(workspace).mods(),
        final(workspace).client_capabilities() == old(workspace).client_capabilities(),
{
    let verbose = message_manager.get_trace() == TraceValue::Verbose;
    let changes = params.changes;
    let mut logs: Vec<String> = Vec::new();
    let n = changes.len();
    let mut i: usize = 0;
    assert(changes@.take(0) =~= Seq::<FileEvent>::empty());
    assert(spec_texts(logs@) =~= Seq::<Seq<char>>::empty());
    while i < n
        invariant
            n == changes@.len(),
            0 <= i <= n,
            spec_events_name_files(changes@),
            verbose == (message_manager.trace() == TraceValue::Verbose),
            (workspace.lua_files(), spec_texts(logs@)) == spec_file_events(
                old(workspace).lua_files(),
                verbose,
                changes@.take(i as int),
            ),
            workspace.mods() == old(workspace).mods(),
            workspace.client_capabilities() == old(workspace).client_capabilities(),
        decreases n - i,
    {
        let change = &changes[i];
        assert(changes@.take(i + 1).drop_last() =~= changes@.take(i as int));
        assert(changes@.take(i + 1).last() == changes@[i as int]);
        assert(spec_file_uri(changes@[i as int].uri@) is Path);
        let path = match file_uri_path(change.uri.as_str()) {
            FileUri::Path(p) => p,
            FileUri::NotAFile(u) => u,
            FileUri::Invalid(e) => e,
        };
        let extension = path_extension(path.as_str());
        let ghost before = logs@;
        match apply_path_change(workspace, change.change_type, path, extension, verbose) {
            Some(m) => {
                logs.push(m);
                proof {
                    lemma_texts_push(before, logs@.last());
                    assert(logs@ =~= before.push(logs@.last()));
                }
            },
            None => {},
        }
        i = i + 1;
    }
    assert(changes@.take(n as int) =~= changes@);
    logs
}

/// Handles `workspace/didChangeWatchedFiles` (see `on_did_change_watched_files`)
/// where every event names a URI of a local file. Gives `None`, and changes
/// nothing, where one does not.
pub fn checked_did_change_watched_files(
    workspace: &mut Workspace,
    params: DidChangeWatchedFilesParams,
    message_manager: &MessageManager,
) -> (r: Option<Vec<String>>)
    ensures
        match r {
            Some(logs) => {
                &&& spec_events_name_files(params.changes@)
                &&& (final(workspace).lua_files(), spec_texts(logs@)) == spec_file_events(
                    old(workspace).lua_files(),
                    message_manager.trace() == TraceValue::Verbose,
                    params.changes@,
                )
                &&& final(workspace).mods() == old(workspace).mods()
                &&& final(workspace).client_capabilities() == old(workspace).client_capabilities()
            },
            None => !spec_events_name_files(params.changes@) && *final(workspace) == *old(workspace),
        },
{
    let n = params.changes.len();
    let mut i: usize = 0;
    while i < n
        invariant
            n == params.changes@.len(),
            0 <= i <= n,
            forall|j: int| 0 <= j < i ==> #[trigger] spec_file_uri(params.changes@[j].uri@) is Path,
        decreases n - i,
    {
        match file_uri_path(params.changes[i].uri.as_str()) {
            FileUri::Path(_) => {},
            _ => {
                return None;
            },
        }
        i = i + 1;
    }
    Some(on_did_change_watched_files(workspace, params, message_manager))
}

/// What a handler leaves to be done besides its result: the messages to log in
/// `$/logTrace` notifications, the lines to print on the error stream, and the
/// directories to read for Lua files, each in the order the handler met them.
#[derive(Debug)]
pub struct Effects {
    pub logs: Vec<String>,
    pub errors: Vec<String>,
    pub scan: Vec<String>,
}

/// The workspace and the effects while workspace folders change.
pub struct FoldersModel {
    pub mods: Map<Seq<char>, Seq<char>>,
    pub lua: Set<Seq<char>>,
    pub logs: Seq<Seq<char>>,
    pub errors: Seq<Seq<char>>,
    pub scan: Seq<Seq<char>>,
}

/// `logs` with `m` appended when tracing is verbose.
pub open spec fn spec_log_if(logs: Seq<Seq<char>>, verbose: bool, m: Seq<char>) -> Seq<Seq<char>> {
    if verbose {
        logs.push(m)
    } else {
        logs
    }
}

/// What adding the workspace folder `f`, whose URI names `location`, does: the mod
/// named after it, with the path that its URI names as root, is added and the
/// root is to be read for Lua files; a URI that names no local path is reported
/// instead.
pub open spec fn spec_add_folder_at(
    s: FoldersModel,
    verbose: bool,
    f: WorkspaceFolder,
    location: FileUriModel,
) -> FoldersModel {
    match location {
        FileUriModel::Path(root) => FoldersModel {
            mods: s.mods.insert(f.name@, root),
            logs: spec_log_if(s.logs, verbose, "Adding mod "@ + f.name@ + " with path "@ + root + "."@),
            scan: s.scan.push(root),
            ..s
        },
        FileUriModel::NotAFile(u) => {
            let m = "Failed to convert uri "@ + u + " to file path."@;
            FoldersModel { logs: spec_log_if(s.logs, verbose, m), errors: s.errors.push(m), ..s }
        },
        FileUriModel::Invalid(e) => {
            let m = "Failed to parse uri "@ + f.uri@ + ": "@ + e + "."@;
            FoldersModel { logs: spec_log_if(s.logs, verbose, m), errors: s.errors.push(m), ..s }
        },
    }
}

/// What adding the workspace folder `f` does (see `spec_add_folder_at`).
pub open spec fn spec_add_folder(s: FoldersModel, verbose: bool, f: WorkspaceFolder) -> FoldersModel {
    spec_add_folder_at(s, verbose, f, spec_file_uri(f.uri@))
}

/// What removing the workspace folder `f` does: the mod of its name goes, with
/// the Lua files under its root.
pub open spec fn spec_remove_folder(s: FoldersModel, verbose: bool, f: WorkspaceFolder) -> FoldersModel {
    if s.mods.contains_key(f.name@) {
        let root = s.mods[f.name@];
        FoldersModel {
            mods: s.mods.remove(f.name@),
            lua: s.lua.filter(|p: Seq<char>| !spec_path_starts_with(p, root)),
            logs: spec_log_if(
                s.logs,
                verbose,
                "Removing mod "@ + f.name@ + " with path "@ + root + "."@,
            ),
            ..s
        }
    } else {
        s
    }
}

/// Adding the folders `fs` in order.
pub open spec fn spec_add_folders(s: FoldersModel, verbose: bool, fs: Seq<WorkspaceFolder>) -> FoldersModel
    decreases fs.len(),
{
    if fs.len() == 0 {
        s
    } else {
        spec_add_folder(spec_add_folders(s, verbose, fs.drop_last()), verbose, fs.last())
    }
}

/// Removing the folders `fs` in order.
pub open spec fn spec_remove_folders(s: FoldersModel, verbose: bool, fs: Seq<WorkspaceFolder>) -> FoldersModel
    decreases fs.len(),
{
    if fs.len() == 0 {
        s
    } else {
        spec_remove_folder(spec_remove_folders(s, verbose, fs.drop_last()), verbose, fs.last())
    }
}

/// The state of `w` with the effects `logs`, `errors`, `scan`.
pub open spec fn spec_folders_state(
    w: Workspace,
    logs: Seq<String>,
    errors: Seq<String>,
    scan: Seq<String>,
) -> FoldersModel {
    FoldersModel {
        mods: w.mods(),
        lua: w.lua_files(),
        logs: spec_texts(logs),
        errors: spec_texts(errors),
        scan: spec_texts(scan),
    }
}

/// Pushes `m` onto `logs` when `verbose`.
fn log_if(logs: &mut Vec<String>, verbose: bool, m: String)
    ensures
        spec_texts(final(logs)@) == spec_log_if(spec_texts(old(logs)@), verbose, m@),
{
    if verbose {
        let ghost before = logs@;
        logs.push(m);
        proof {
            lemma_texts_push(before, m);
        }
    }
}

/// The state of `w` with the effects `e`.
pub open spec fn spec_effects_state(w: Workspace, e: Effects) -> FoldersModel {
    spec_folders_state(w, e.logs@, e.errors@, e.scan@)
}

/// Pushes `m` onto `v`.
fn push_text(v: &mut Vec<String>, m: String)
    ensures
        spec_texts(final(v)@) == spec_texts(old(v)@).push(m@),
{
    let ghost before = v@;
    v.push(m);
    proof {
        lemma_texts_push(before, m);
    }
}

/// Adds the workspace folder `folder`, whose URI names `location` (see
/// `spec_add_folder_at`), recording what is to be logged, reported and read.
pub fn add_folder_at(
    workspace: &mut Workspace,
    folder: &WorkspaceFolder,
    location: FileUri,
    verbose: bool,
    effects: &mut Effects,
)
    ensures
        spec_effects_state(*final(workspace), *final(effects)) == spec_add_folder_at(
            spec_effects_state(*old(workspace), *old(effects)),
            verbose,
            *folder,
            location.model(),
        ),
        location matches FileUri::Path(root) ==> spec_texts(final(effects).scan@) == spec_texts(
            old(effects).scan@,
        ).push(root@) && final(workspace).mods() == old(workspace).mods().insert(folder.name@, root@),
        final(workspace).client_capabilities() == old(workspace).client_capabilities(),
{
    match location {
        FileUri::Path(root) => {
            let m = concat("Adding mod ", folder.name.as_str());
            let m = concat(m.as_str(), " with path ");
            let m = concat(m.as_str(), root.as_str());
            let m = concat(m.as_str(), ".");
            log_if(&mut effects.logs, verbose, m);
            push_text(&mut effects.scan, root.clone());
            workspace.add_mod(folder.name.clone(), root);
        },
        FileUri::NotAFile(u) => {
            let m = concat("Failed to convert uri ", u.as_str());
            let m = concat(m.as_str(), " to file path.");
            log_if(&mut effects.logs, verbose, m.clone());
            push_text(&mut effects.errors, m);
        },
        FileUri::Invalid(e) => {
            let m = concat("Failed to parse uri ", folder.uri.as_str());
            let m = concat(m.as_str(), ": ");
            let m = concat(m.as_str(), e.as_str());
            let m = concat(m.as_str(), ".");
            log_if(&mut effects.logs, verbose, m.clone());
            push_text(&mut effects.errors, m);
        },
    }
}

/// Adds the workspace folders `added`, in order (see `spec_add_folder_at`),
/// recording what is to be logged, reported and read after what `effects` holds.
pub fn add_workspace_folders(
    workspace: &mut Workspace,
    added: Vec<WorkspaceFolder>,
    message_manager: &MessageManager,
    effects: &mut Effects,
)
    ensures
        spec_effects_state(*final(workspace), *final(effects)) == spec_add_folders(
            spec_effects_state(*old(workspace), *old(effects)),
            message_manager.trace() == TraceValue::Verbose,
            added@,
        ),
        final(workspace).client_capabilities() == old(workspace).client_capabilities(),
{
    let verbose = message_manager.get_trace() == TraceValue::Verbose;
    let ghost s0 = spec_effects_state(*workspace, *effects);
    let n = added.len();
    let mut i: usize = 0;
    assert(added@.take(0) =~= Seq::<WorkspaceFolder>::empty());
    while i < n
        invariant
            n == added@.len(),
            0 <= i <= n,
            verbose == (message_manager.trace() == TraceValue::Verbose),
            s0 == spec_effects_state(*old(workspace), *old(effects)),
            spec_effects_state(*workspace, *effects) == spec_add_folders(
                s0,
                verbose,
                added@.take(i as int),
            ),
            workspace.client_capabilities() == old(workspace).client_capabilities(),
        decreases n - i,
    {
        let f = &added[i];
        assert(added@.take(i + 1).drop_last() =~= added@.take(i as int));
        assert(added@.take(i + 1).last() == added@[i as int]);
        let location = file_uri_path(f.uri.as_str());
        add_folder_at(workspace, f, location, verbose, effects);
        i = i + 1;
    }
    assert(added@.take(n as int) =~= added@);
}

/// Removes the workspace folders `removed`, in order (see `spec_remove_folder`),
/// recording what is to be logged after what `effects` holds.
pub fn remove_workspace_folders(
    workspace: &mut Workspace,
    removed: Vec<WorkspaceFolder>,
    message_manager: &MessageManager,
    effects: &mut Effects,
)
    ensures
        spec_effects_state(*final(workspace), *final(effects)) == spec_remove_folders(
            spec_effects_state(*old(workspace), *old(effects)),
            message_manager.trace() == TraceValue::Verbose,
            removed@,
        ),
        final(workspace).client_capabilities() == old(workspace).client_capabilities(),
{
    let verbose = message_manager.get_trace() == TraceValue::Verbose;
    let ghost s1 = spec_effects_state(*workspace, *effects);
    let n = removed.len();
    let mut i: usize = 0;
    assert(removed@.take(0) =~= Seq::<WorkspaceFolder>::empty());
    while i < n
        invariant
            n == removed@.len(),
            0 <= i <= n,
            verbose == (message_manager.trace() == TraceValue::Verbose),
            s1 == spec_effects_state(*old(workspace), *old(effects)),
            spec_effects_state(*workspace, *effects) == spec_remove_folders(
                s1,
                verbose,
                removed@.take(i as int),
            ),
            workspace.client_capabilities() == old(workspace).client_capabilities(),
        decreases n - i,
    {
        let f = &removed[i];
        assert(removed@.take(i + 1).drop_last() =~= removed@.take(i as int));
        assert(removed@.take(i + 1).last() == removed@[i as int]);
        let ghost st = spec_effects_state(*workspace, *effects);
        match workspace.remove_mod(&f.name) {
            Some(md) => {
                let m = concat("Removing mod ", f.name.as_str());
                let m = concat(m.as_str(), " with path ");
                let m = concat(m.as_str(), md.get_root().as_str());
                let m = concat(m.as_str(), ".");
                log_if(&mut effects.logs, verbose, m);
                proof {
                    let want = spec_remove_folder(st, verbose, removed@[i as int]);
                    assert(workspace.lua_files() =~= want.lua);
                    assert(workspace.mods() =~= want.mods);
                    assert(spec_texts(effects.logs@) =~= want.logs);
                }
            },
            None => {
                assert(workspace.mods() =~= st.mods);
                assert(spec_effects_state(*workspace, *effects) == st);
            },
        }
        i = i + 1;
    }
    assert(removed@.take(n as int) =~= removed@);
}

/// Handles `workspace/didChangeWorkspaceFolders`: adds a mod for each added folder
/// and removes the mod of each removed one. The roots to read come back in
/// `scan`; they are to be read before the removals, which `add_workspace_folders`
/// and `remove_workspace_folders` allow.
pub fn on_did_change_workspace_folders(
    workspace: &mut Workspace,
    params: DidChangeWorkspaceFoldersParams,
    message_manager: &MessageManager,
) -> (e: Effects)
    ensures
        spec_effects_state(*final(workspace), e) == spec_remove_folders(
            spec_add_folders(
                spec_folders_state(*old(workspace), Seq::empty(), Seq::empty(), Seq::empty()),
                message_manager.trace() == TraceValue::Verbose,
                params.event.added@,
            ),
            message_manager.trace() == TraceValue::Verbose,
            params.event.removed@,
        ),
        final(workspace).client_capabilities() == old(workspace).client_capabilities(),
{
    let mut effects = Effects { logs: Vec::new(), errors: Vec::new(), scan: Vec::new() };
    assert(spec_effects_state(*workspace, effects) == spec_folders_state(
        *workspace,
        Seq::empty(),
        Seq::empty(),
        Seq::empty(),
    )) by {
        assert(spec_texts(effects.logs@) =~= spec_texts(Seq::<String>::empty()));
    }
    add_workspace_folders(workspace, params.event.added, message_manager, &mut effects);
    remove_workspace_folders(workspace, params.event.removed, message_manager, &mut effects);
    effects
}

/// Whether `c` holds the capabilities that this server announces: workspace
/// folders, with change notifications, and `workspace/willRenameFiles` requests
/// for every file of the `file` scheme, ignoring case.
pub open spec fn spec_is_server_capabilities(c: ServerCapabilities) -> bool {
    &&& c.workspace matches Some(ws)
    &&& ws.workspace_folders matches Some(wf)
    &&& wf.supported == Some(true)
    &&& wf.change_notifications matches Some(StringOrBoolean::Boolean(true))
    &&& ws.file_operations matches Some(fo)
    &&& fo.did_create is None
    &&& fo.will_create is None
    &&& fo.did_rename is None
    &&& fo.did_delete is None
    &&& fo.will_delete is None
    &&& fo.will_rename matches Some(wr)
    &&& wr.filters@.len() == 1
    &&& wr.filters@[0].scheme matches Some(scheme)
    &&& scheme@ == "file"@
    &&& wr.filters@[0].pattern.glob@ == "**/*"@
    &&& wr.filters@[0].pattern.matches is None
    &&& wr.filters@[0].pattern.options matches Some(o)
    &&& o.ignore_case == Some(true)
}

/// The capabilities that this server announces.
pub fn server_capabilities() -> (c: ServerCapabilities)
    ensures
        spec_is_server_capabilities(c),
{
    let filter = FileOperationFilter {
        scheme: Some(String::from_str("file")),
        pattern: FileOperationPattern {
            glob: String::from_str("**/*"),
            matches: None,
            options: Some(FileOperationPatternOptions { ignore_case: Some(true) }),
        },
    };
    let mut filters = Vec::new();
    filters.push(filter);
    ServerCapabilities {
        workspace: Some(
            WorkspaceServerCapabilities {
                workspace_folders: Some(
                    WorkspaceFoldersServerCapabilities {
                        supported: Some(true),
                        change_notifications: Some(StringOrBoolean::Boolean(true)),
                    },
                ),
                file_operations: Some(
                    FileOperationsOptions {
                        did_create: None,
                        will_create: None,
                        did_rename: None,
                        will_rename: Some(FileOperationRegistrationOptions { filters }),
                        did_delete: None,
                        will_delete: None,
                    },
                ),
            },
        ),
    }
}

/// The trace level that `initialize` sets: the one asked for, else `off`.
pub open spec fn spec_initial_trace(params: InitializeParams) -> TraceValue {
    match params.trace {
        Some(t) => t,
        None => TraceValue::Off,
    }
}

/// The workspace folders of `initialize` params.
pub open spec fn spec_initial_folders(params: InitializeParams) -> Seq<WorkspaceFolder> {
    match params.workspace_folders {
        Some(Some(v)) => v@,
        _ => Seq::empty(),
    }
}

/// The message logged when the trace level goes from `old` to `new`.
pub open spec fn spec_set_trace_logs(old: TraceValue, new: TraceValue) -> Seq<Seq<char>> {
    if old == TraceValue::Verbose {
        seq!["Setting trace value to \""@ + new.spec_name() + "\""@]
    } else {
        Seq::empty()
    }
}

/// What `initialize` does with the workspace folder `f`, whose URI names
/// `location`: the mod named after it is added with the path that its URI names
/// as root, which is to be read for Lua files; a URI that names no local path
/// fails the request with this message.
pub open spec fn spec_init_folder_at(
    s: FoldersModel,
    verbose: bool,
    f: WorkspaceFolder,
    location: FileUriModel,
) -> (FoldersModel, Option<Seq<char>>) {
    match location {
        FileUriModel::Path(root) => (
            FoldersModel {
                mods: s.mods.insert(f.name@, root),
                logs: spec_log_if(
                    s.logs,
                    verbose,
                    "Adding mod "@ + f.name@ + " with path "@ + root + "."@,
                ),
                scan: s.scan.push(root),
                ..s
            },
            None,
        ),
        FileUriModel::NotAFile(_) => (s, Some("Invalid file uri: "@ + f.uri@ + "."@)),
        FileUriModel::Invalid(e) => (s, Some("Invalid uri "@ + f.uri@ + ": "@ + e + "."@)),
    }
}

/// What `initialize` does with the workspace folder `f` (see `spec_init_folder_at`).
pub open spec fn spec_init_folder(s: FoldersModel, verbose: bool, f: WorkspaceFolder) -> (
    FoldersModel,
    Option<Seq<char>>,
) {
    spec_init_folder_at(s, verbose, f, spec_file_uri(f.uri@))
}

/// Adds the mod of the workspace folder `folder` for `initialize`, its URI naming
/// `location` (see `spec_init_folder_at`): gives back the message of the error
/// that fails the request, if it fails.
pub fn init_folder_at(
    workspace: &mut Workspace,
    folder: &WorkspaceFolder,
    location: FileUri,
    verbose: bool,
    effects: &mut Effects,
) -> (err: Option<String>)
    ensures
        (spec_effects_state(*final(workspace), *final(effects)), spec_opt_text(err))
            == spec_init_folder_at(
            spec_effects_state(*old(workspace), *old(effects)),
            verbose,
            *folder,
            location.model(),
        ),
        final(workspace).client_capabilities() == old(workspace).client_capabilities(),
{
    match location {
        FileUri::Path(root) => {
            let m = concat("Adding mod ", folder.name.as_str());
            let m = concat(m.as_str(), " with path ");
            let m = concat(m.as_str(), root.as_str());
            let m = concat(m.as_str(), ".");
            log_if(&mut effects.logs, verbose, m);
            push_text(&mut effects.scan, root.clone());
            workspace.add_mod(folder.name.clone(), root);
            None
        },
        FileUri::NotAFile(_) => {
            let m = concat("Invalid file uri: ", folder.uri.as_str());
            Some(concat(m.as_str(), "."))
        },
        FileUri::Invalid(e) => {
            let m = concat("Invalid uri ", folder.uri.as_str());
            let m = concat(m.as_str(), ": ");
            let m = concat(m.as_str(), e.as_str());
            Some(concat(m.as_str(), "."))
        },
    }
}

/// What `initialize` does with the folders `fs`, in order, up to the first that fails.
pub open spec fn spec_init_folders(s: FoldersModel, verbose: bool, fs: Seq<WorkspaceFolder>) -> (
    FoldersModel,
    Option<Seq<char>>,
)
    decreases fs.len(),
{
    if fs.len() == 0 {
        (s, None)
    } else {
        let (s1, e1) = spec_init_folders(s, verbose, fs.drop_last());
        if e1 is Some {
            (s1, e1)
        } else {
            spec_init_folder(s1, verbose, fs.last())
        }
    }
}

proof fn lemma_init_folders_stop(s: FoldersModel, verbose: bool, fs: Seq<WorkspaceFolder>, k: int)
    requires
        0 <= k <= fs.len(),
        spec_init_folders(s, verbose, fs.take(k)).1 is Some,
    ensures
        spec_init_folders(s, verbose, fs) == spec_init_folders(s, verbose, fs.take(k)),
    decreases fs.len() - k,
{
    if k < fs.len() {
        assert(fs.take(k + 1).drop_last() =~= fs.take(k));
        lemma_init_folders_stop(s, verbose, fs, k + 1);
    } else {
        assert(fs.take(k) =~= fs);
    }
}

/// Handles the `initialize` request: sets the trace level, adds a mod for each
/// workspace folder, and answers with the server's capabilities and its name
/// `fmodsilo` at version `version`. A folder whose URI names no local path fails
/// the request with an `INVALID_PARAMS` error; the folders before it stay added.
pub fn initialize(
    workspace: &mut Workspace,
    params: InitializeParams,
    message_manager: &mut MessageManager,
    version: String,
) -> (r: (Result<InitializeResult, ResponseError>, Effects))
    ensures
        final(message_manager).trace() == spec_initial_trace(params),
        params.trace matches Some(t) ==> final(message_manager).trace() == t,
        params.trace is None ==> final(message_manager).trace() == TraceValue::Off,
        final(message_manager).held() == old(message_manager).held(),
        final(workspace).client_capabilities() == old(workspace).client_capabilities(),
        ({
            let verbose = spec_initial_trace(params) == TraceValue::Verbose;
            let s0 = FoldersModel {
                mods: old(workspace).mods(),
                lua: old(workspace).lua_files(),
                logs: spec_set_trace_logs(old(message_manager).trace(), spec_initial_trace(params)),
                errors: Seq::empty(),
                scan: Seq::empty(),
            };
            let (s1, err) = spec_init_folders(s0, verbose, spec_initial_folders(params));
            let now = spec_folders_state(*final(workspace), r.1.logs@, r.1.errors@, r.1.scan@);
            match r.0 {
                Ok(res) => {
                    &&& err is None
                    &&& now == FoldersModel {
                        logs: spec_log_if(s1.logs, verbose, "Server initialized."@),
                        ..s1
                    }
                    &&& spec_is_server_capabilities(res.capabilities)
                    &&& res.server_info matches Some(info)
                    &&& info.name@ == "fmodsilo"@
                    &&& info.version matches Some(v)
                    &&& v@ == version@
                },
                Err(e) => {
                    &&& err == Some(e.message@)
                    &&& e.code == error_codes::INVALID_PARAMS
                    &&& e.data is None
                    &&& now == s1
                },
            }
        }),
{
    let trace = match params.trace {
        Some(t) => t,
        None => TraceValue::Off,
    };
    let ghost old_trace = message_manager.trace();
    let mut effects = Effects { logs: Vec::new(), errors: Vec::new(), scan: Vec::new() };
    match message_manager.set_trace(trace) {
        Some(m) => {
            effects.logs.push(m);
        },
        None => {},
    }
    let verbose = trace == TraceValue::Verbose;
    let ghost s0 = FoldersModel {
        mods: old(workspace).mods(),
        lua: old(workspace).lua_files(),
        logs: spec_set_trace_logs(old_trace, trace),
        errors: Seq::empty(),
        scan: Seq::empty(),
    };
    assert(spec_effects_state(*workspace, effects) == s0) by {
        assert(spec_texts(effects.logs@) =~= spec_set_trace_logs(old_trace, trace));
        assert(spec_texts(effects.errors@) =~= Seq::<Seq<char>>::empty());
        assert(spec_texts(effects.scan@) =~= Seq::<Seq<char>>::empty());
    }
    let list: Vec<WorkspaceFolder> = match params.workspace_folders {
        Some(Some(v)) => v,
        _ => Vec::new(),
    };
    let n = list.len();
    let mut i: usize = 0;
    assert(list@.take(0) =~= Seq::<WorkspaceFolder>::empty());
    while i < n
        invariant
            n == list@.len(),
            list@ == spec_initial_folders(params),
            0 <= i <= n,
            message_manager.trace() == spec_initial_trace(params),
            message_manager.held() == old(message_manager).held(),
            verbose == (spec_initial_trace(params) == TraceValue::Verbose),
            s0 == (FoldersModel {
                mods: old(workspace).mods(),
                lua: old(workspace).lua_files(),
                logs: spec_set_trace_logs(old(message_manager).trace(), spec_initial_trace(params)),
                errors: Seq::empty(),
                scan: Seq::empty(),
            }),
            (spec_effects_state(*workspace, effects), None::<Seq<char>>) == spec_init_folders(
                s0,
                verbose,
                list@.take(i as int),
            ),
            workspace.client_capabilities() == old(workspace).client_capabilities(),
        decreases n - i,
    {
        let f = &list[i];
        assert(list@.take(i + 1).drop_last() =~= list@.take(i as int));
        assert(list@.take(i + 1).last() == list@[i as int]);
        let location = file_uri_path(f.uri.as_str());
        match init_folder_at(workspace, f, location, verbose, &mut effects) {
            Some(m) => {
                proof {
                    lemma_init_folders_stop(s0, verbose, list@, i + 1);
                    assert(list@.take(n as int) =~= list@);
                }
                let e = ResponseError { code: error_codes::INVALID_PARAMS, message: m, data: None };
                return (Err(e), effects);
            },
            None => {},
        }
        i = i + 1;
    }
    assert(list@.take(n as int) =~= list@);
    log_if(&mut effects.logs, verbose, String::from_str("Server initialized."));
    let result = InitializeResult {
        capabilities: server_capabilities(),
        server_info: Some(ServerInfo { name: String::from_str("fmodsilo"), version: Some(version) }),
    };
    (Ok(result), effects)
}

/// Handles the `shutdown` request. Gives back the message to log.
pub fn shutdown(message_manager: &MessageManager) -> (r: (Result<(), ResponseError>, Option<String>))
    ensures
        r.0 is Ok,
        match r.1 {
            Some(m) => message_manager.trace() == TraceValue::Verbose && m@ == "Server shut down."@,
            None => message_manager.trace() != TraceValue::Verbose,
        },
{
    if message_manager.get_trace() == TraceValue::Verbose {
        (Ok(()), Some(String::from_str("Server shut down.")))
    } else {
        (Ok(()), None)
    }
}

/// Handles the `workspace/willRenameFiles` request: no edit.
pub fn will_rename_files(params: RenameFilesParams) -> (r: Result<WillRenameFilesResult, ResponseError>)
    ensures
        r matches Ok(None),
{
    Ok(None)
}

/// Handles the `$/setTrace` notification. Gives back the message to log.
pub fn on_set_trace(message_manager: &mut MessageManager, params: SetTraceParams) -> (log: Option<String>)
    ensures
        final(message_manager).trace() == params.value,
        final(message_manager).held() == old(message_manager).held(),
        match log {
            Some(m) => seq![m@] == spec_set_trace_logs(old(message_manager).trace(), params.value),
            None => spec_set_trace_logs(old(message_manager).trace(), params.value).len() == 0,
        },
{
    message_manager.set_trace(params.value)
}

/// Handles the response to a `client/registerCapability` request; the request
/// can always be freed.
pub fn on_register_capability_response(
    response: RegisterCapabilityResponse,
    request: RegisterCapabilityRequest,
) -> (free: bool)
    ensures
        free,
{
    true
}

/// The URI of the folder at `root`: its `file:` URL, or the path itself where
/// `url::Url::from_file_path` refuses it.
pub open spec fn spec_folder_uri(root: Seq<char>) -> Seq<char> {
    match spec_path_file_uri(root) {
        Some(u) => u,
        None => root,
    }
}

/// Whether `w` watches every file under `root` for the mod `name`: as a pattern
/// relative to the workspace folder named `name` whose URI is that of `root` when `relative`, else as the
/// glob of `root` joined with `**/*`.
pub open spec fn spec_is_watcher_for(
    w: FileSystemWatcher,
    relative: bool,
    name: Seq<char>,
    root: Seq<char>,
) -> bool {
    &&& w.kind is None
    &&& if relative {
        &&& w.glob_pattern matches GlobPattern::RelativePattern { base_uri, pattern }
        &&& base_uri matches WorkspaceFolderOrURI::WorkspaceFolder(f)
        &&& f.uri@ == spec_folder_uri(root)
        &&& f.name@ == name
        &&& pattern@ == "**/*"@
    } else {
        &&& w.glob_pattern matches GlobPattern::Pattern(p)
        &&& p@ == spec_path_join(root, "**/*"@)
    }
}

/// Whether the client registers file watchers dynamically, and whether it
/// understands relative patterns, as its capabilities `caps` say.
pub open spec fn spec_watch_registration(caps: Option<crate::lsp_json::ClientCapabilities>) -> Option<bool> {
    match caps {
        Some(c) => match c.workspace {
            Some(ws) => match ws.did_change_watched_files {
                Some(wf) => if wf.dynamic_registration == Some(true) {
                    Some(wf.relative_pattern_support == Some(true))
                } else {
                    None
                },
                None => None,
            },
            None => None,
        },
        None => None,
    }
}

/// The watcher for one mod, by a pattern relative to its workspace folder.
fn relative_watcher(v: (&String, &Arc<Mod>)) -> (w: FileSystemWatcher)
    ensures
        spec_is_watcher_for(w, true, v.0@, v.1@),
{
    let root = v.1.get_root();
    let uri = match path_file_uri(root.as_str()) {
        Some(u) => u,
        None => root.clone(),
    };
    let glob_pattern = GlobPattern::RelativePattern {
        base_uri: WorkspaceFolderOrURI::WorkspaceFolder(WorkspaceFolder { uri, name: v.0.clone() }),
        pattern: String::from_str("**/*"),
    };
    FileSystemWatcher { glob_pattern, kind: None }
}

/// The watcher for one mod, by the glob of its root joined with `**/*`.
fn pattern_watcher(v: (&String, &Arc<Mod>)) -> (w: FileSystemWatcher)
    ensures
        spec_is_watcher_for(w, false, v.0@, v.1@),
{
    let root = v.1.get_root();
    FileSystemWatcher { glob_pattern: GlobPattern::Pattern(path_join(root.as_str(), "**/*")), kind: None }
}

/// The message that logs the registration of the watcher for one mod.
fn registration_log(v: (&String, &Arc<Mod>)) -> (m: String)
    ensures
        m@ == "Registering for file events in "@ + v.0@,
{
    concat("Registering for file events in ", v.0.as_str())
}

/// Handles the `initialized` notification: when the client registers file
/// watchers dynamically, gives one watcher for each mod, in the order of
/// `mod_entries`, to be registered for `workspace/didChangeWatchedFiles`. Gives back
/// the messages to log as well.
pub fn on_initialized(workspace: &Workspace, message_manager: &MessageManager) -> (r: (
    Option<Vec<FileSystemWatcher>>,
    Vec<String>,
))
    ensures
        match spec_watch_registration(workspace.client_capabilities()) {
            None => r.0 is None && r.1@.len() == 0,
            Some(relative) => {
                &&& r.0 matches Some(ws)
                &&& ws@.len() == workspace.mod_entries().len()
                &&& forall|i: int|
                    0 <= i < ws@.len() ==> spec_is_watcher_for(
                        #[trigger] ws@[i],
                        relative,
                        workspace.mod_entries()[i].0,
                        workspace.mod_entries()[i].1,
                    )
                &&& spec_texts(r.1@) == if message_manager.trace() == TraceValue::Verbose {
                    workspace.mod_entries().map_values(
                        |e: (Seq<char>, Seq<char>)| "Registering for file events in "@ + e.0,
                    )
                } else {
                    Seq::empty()
                }
            },
        },
{
    let relative = match workspace.get_client_capabilities() {
        Some(caps) => match &caps.workspace {
            Some(ws) => match &ws.did_change_watched_files {
                Some(wf) => match wf.dynamic_registration {
                    Some(true) => match wf.relative_pattern_support {
                        Some(v) => Some(v),
                        None => Some(false),
                    },
                    _ => None,
                },
                None => None,
            },
            None => None,
        },
        None => None,
    };
    let relative = match relative {
        Some(v) => v,
        None => {
            return (None, Vec::new());
        },
    };
    let verbose = message_manager.get_trace() == TraceValue::Verbose;
    let watchers = if relative {
        workspace.map_mods(relative_watcher)
    } else {
        workspace.map_mods(pattern_watcher)
    };
    let logs = if verbose {
        let logs = workspace.map_mods(registration_log);
        assert(spec_texts(logs@) =~= workspace.mod_entries().map_values(
            |e: (Seq<char>, Seq<char>)| "Registering for file events in "@ + e.0,
        ));
        logs
    } else {
        let logs: Vec<String> = Vec::new();
        assert(spec_texts(logs@) =~= Seq::<Seq<char>>::empty());
        logs
    };
    (Some(watchers), logs)
}

/// The JSON of a base URI or workspace folder, its members in sorted order.
pub open spec fn spec_base_uri_json(b: WorkspaceFolderOrURI) -> JsonValue {
    match b {
        WorkspaceFolderOrURI::URI(u) => JsonValue::String(u@),
        WorkspaceFolderOrURI::WorkspaceFolder(f) => JsonValue::Object(
            seq![("name"@, JsonValue::String(f.name@)), ("uri"@, JsonValue::String(f.uri@))],
        ),
    }
}

/// The JSON of a glob pattern: a string, or a relative pattern object.
pub open spec fn spec_glob_json(g: GlobPattern) -> JsonValue {
    match g {
        GlobPattern::Pattern(p) => JsonValue::String(p@),
        GlobPattern::RelativePattern { base_uri, pattern } => JsonValue::Object(
            seq![("baseUri"@, spec_base_uri_json(base_uri)), ("pattern"@, JsonValue::String(pattern@))],
        ),
    }
}

/// The JSON of a file system watcher, its members in sorted order and `kind` left
/// out where there is none.
pub open spec fn spec_watcher_json(w: FileSystemWatcher) -> JsonValue {
    match w.kind {
        None => JsonValue::Object(seq![("globPattern"@, spec_glob_json(w.glob_pattern))]),
        Some(k) => JsonValue::Object(
            seq![
                ("globPattern"@, spec_glob_json(w.glob_pattern)),
                ("kind"@, JsonValue::UInteger(k as u64)),
            ],
        ),
    }
}

/// The params of the `client/registerCapability` request sent on `initialized`:
/// one registration with id `id` of the watchers `watchers` for
/// `workspace/didChangeWatchedFiles` where there are watchers to register, and no
/// registration otherwise.
pub open spec fn spec_registration_params(watchers: Option<Seq<FileSystemWatcher>>, id: Seq<char>) -> JsonValue {
    match watchers {
        None => JsonValue::Object(seq![("registrations"@, JsonValue::Array(Seq::empty()))]),
        Some(ws) => JsonValue::Object(
            seq![
                (
                    "registrations"@,
                    JsonValue::Array(
                        seq![
                            JsonValue::Object(
                                seq![
                                    ("id"@, JsonValue::String(id)),
                                    ("method"@, JsonValue::String("workspace/didChangeWatchedFiles"@)),
                                    (
                                        "registerOptions"@,
                                        JsonValue::Object(
                                            seq![
                                                (
                                                    "watchers"@,
                                                    JsonValue::Array(
                                                        ws.map_values(
                                                            |w: FileSystemWatcher| spec_watcher_json(w),
                                                        ),
                                                    ),
                                                ),
                                            ],
                                        ),
                                    ),
                                ],
                            ),
                        ],
                    ),
                ),
            ],
        ),
    }
}

/// The optional watchers as a sequence.
pub open spec fn spec_watchers(w: Option<Vec<FileSystemWatcher>>) -> Option<Seq<FileSystemWatcher>> {
    match w {
        Some(v) => Some(v@),
        None => None,
    }
}

/// A JSON string.
fn json_string(s: &str) -> (r: LSPAny)
    ensures
        r.model() == JsonValue::String(s@),
{
    LSPAny::String(String::from_str(s))
}

/// A JSON object of one member.
fn object1(k: &str, v: LSPAny) -> (r: LSPAny)
    ensures
        r.model() == JsonValue::Object(seq![(k@, v.model())]),
{
    let ghost vm = v.model();
    let mut ms: Vec<(String, LSPAny)> = Vec::new();
    ms.push((String::from_str(k), v));
    let r = LSPAny::Object(ms);
    assert(r.model()->Object_0 =~= seq![(k@, vm)]);
    r
}

/// A JSON object of two members.
fn object2(k1: &str, v1: LSPAny, k2: &str, v2: LSPAny) -> (r: LSPAny)
    ensures
        r.model() == JsonValue::Object(seq![(k1@, v1.model()), (k2@, v2.model())]),
{
    let ghost m1 = v1.model();
    let ghost m2 = v2.model();
    let mut ms: Vec<(String, LSPAny)> = Vec::new();
    ms.push((String::from_str(k1), v1));
    ms.push((String::from_str(k2), v2));
    let r = LSPAny::Object(ms);
    assert(r.model()->Object_0 =~= seq![(k1@, m1), (k2@, m2)]);
    r
}

/// A JSON object of three members.
fn object3(k1: &str, v1: LSPAny, k2: &str, v2: LSPAny, k3: &str, v3: LSPAny) -> (r: LSPAny)
    ensures
        r.model() == JsonValue::Object(
            seq![(k1@, v1.model()), (k2@, v2.model()), (k3@, v3.model())],
        ),
{
    let ghost m1 = v1.model();
    let ghost m2 = v2.model();
    let ghost m3 = v3.model();
    let mut ms: Vec<(String, LSPAny)> = Vec::new();
    ms.push((String::from_str(k1), v1));
    ms.push((String::from_str(k2), v2));
    ms.push((String::from_str(k3), v3));
    let r = LSPAny::Object(ms);
    assert(r.model()->Object_0 =~= seq![(k1@, m1), (k2@, m2), (k3@, m3)]);
    r
}

/// The JSON of the watcher `w` (see `spec_watcher_json`).
pub fn watcher_json(w: &FileSystemWatcher) -> (j: LSPAny)
    ensures
        j.model() == spec_watcher_json(*w),
{
    let glob = match &w.glob_pattern {
        GlobPattern::Pattern(p) => json_string(p.as_str()),
        GlobPattern::RelativePattern { base_uri, pattern } => {
            let base = match base_uri {
                WorkspaceFolderOrURI::URI(u) => json_string(u.as_str()),
                WorkspaceFolderOrURI::WorkspaceFolder(f) => object2(
                    "name",
                    json_string(f.name.as_str()),
                    "uri",
                    json_string(f.uri.as_str()),
                ),
            };
            object2("baseUri", base, "pattern", json_string(pattern.as_str()))
        },
    };
    match w.kind {
        None => object1("globPattern", glob),
        Some(k) => object2("globPattern", glob, "kind", LSPAny::UInteger(k as u64)),
    }
}

/// The params of the `client/registerCapability` request sent on `initialized`
/// (see `spec_registration_params`), the registration of the watchers, where there
/// are any, under the id `registration_id`.
pub fn watch_registration_params(watchers: Option<Vec<FileSystemWatcher>>, registration_id: String) -> (p: LSPAny)
    ensures
        p.model() == spec_registration_params(spec_watchers(watchers), registration_id@),
{
    match watchers {
        None => {
            let empty = LSPAny::Array(Vec::new());
            assert(empty.model()->Array_0 =~= Seq::<JsonValue>::empty());
            object1("registrations", empty)
        },
        Some(ws) => {
            let ghost wsv = ws@;
            let mut items: Vec<LSPAny> = Vec::new();
            let n = ws.len();
            let mut i: usize = 0;
            while i < n
                invariant
                    n == ws@.len(),
                    0 <= i <= n,
                    items@.len() == i,
                    forall|j: int| 0 <= j < i ==> (#[trigger] items@[j]).model() == spec_watcher_json(ws@[j]),
                decreases n - i,
            {
                items.push(watcher_json(&ws[i]));
                i = i + 1;
            }
            let ghost im = items@;
            let list = LSPAny::Array(items);
            assert(list.model()->Array_0 =~= wsv.map_values(|w: FileSystemWatcher| spec_watcher_json(w))) by {
                assert forall|j: int| 0 <= j < n implies list.model()->Array_0[j] == spec_watcher_json(wsv[j]) by {
                    assert(list.model()->Array_0[j] == im[j].model());
                }
            }
            let options = object1("watchers", list);
            let registration = object3(
                "id",
                LSPAny::String(registration_id),
                "method",
                json_string("workspace/didChangeWatchedFiles"),
                "registerOptions",
                options,
            );
            let ghost rm = registration.model();
            let mut regs: Vec<LSPAny> = Vec::new();
            regs.push(registration);
            let regs = LSPAny::Array(regs);
            assert(regs.model()->Array_0 =~= seq![rm]);
            object1("registrations", regs)
        },
    }
}

/// Makes the `client/registerCapability` request `request_id` that registers the
/// watchers `watchers` (see `spec_registration_params`), and holds it until its
/// response comes. Gives back the request as JSON and the `$/logTrace` notification
/// that reports sending it. The request is made whether or not there are watchers.
pub fn registration_request(
    message_manager: &mut MessageManager,
    watchers: Option<Vec<FileSystemWatcher>>,
    registration_id: String,
    request_id: String,
) -> (r: (LSPAny, Option<TraceNote>))
    ensures
        r.0.model() == spec_request_json(
            request_id@,
            "client/registerCapability"@,
            Some(spec_registration_params(spec_watchers(watchers), registration_id@)),
        ),
        final(message_manager).held() == old(message_manager).held().insert(
            request_id@,
            ("client/registerCapability"@, r.0.model()),
        ),
        final(message_manager).trace() == old(message_manager).trace(),
        spec_note_model(r.1) == spec_trace_note(
            old(message_manager).trace(),
            "Sending request client/registerCapability \""@ + request_id@ + "\""@,
        ),
{
    let params = watch_registration_params(watchers, registration_id);
    let (request, note) = message_manager.make_request(request_id, "client/registerCapability", Some(params));
    proof {
        reveal_strlit("Sending request client/registerCapability \"");
        reveal_strlit("Sending request ");
        reveal_strlit("client/registerCapability");
        reveal_strlit(" \"");
        assert("Sending request "@ + "client/registerCapability"@ + " \""@ =~= "Sending request client/registerCapability \""@);
    }
    (request, note)
}

/// A change of kind `Changed` leaves the Lua files as they were and logs nothing,
/// whatever the path, its extension and the trace level.
pub proof fn law_changed_file_keeps_lua_files(
    lua: Set<Seq<char>>,
    verbose: bool,
    path: Seq<char>,
    ext: Option<Seq<char>>,
)
    ensures
        spec_path_change(lua, verbose, FileChangeType::Changed, path, ext) == (lua, None::<Seq<char>>),
{
}

/// Events that are all of kind `Changed` leave the Lua files as they were and log
/// nothing.
pub proof fn law_changed_events_keep_lua_files(lua: Set<Seq<char>>, verbose: bool, es: Seq<FileEvent>)
    requires
        forall|i: int| 0 <= i < es.len() ==> (#[trigger] es[i]).change_type == FileChangeType::Changed,
    ensures
        spec_file_events(lua, verbose, es) == (lua, Seq::<Seq<char>>::empty()),
    decreases es.len(),
{
    if es.len() > 0 {
        let init = es.drop_last();
        assert forall|i: int| 0 <= i < init.len() implies (#[trigger] init[i]).change_type
            == FileChangeType::Changed by {
            assert(init[i] == es[i]);
        }
        law_changed_events_keep_lua_files(lua, verbose, init);
        assert(es.last() == es[es.len() - 1]);
    }
}

/// Adding a workspace folder whose URI names the local path `root` adds the mod
/// with that root and puts the root among the directories to read, whatever the
/// trace level; the trace level changes only the logs.
pub proof fn law_added_folder_is_read(s: FoldersModel, f: WorkspaceFolder, root: Seq<char>)
    ensures
        spec_add_folder_at(s, false, f, FileUriModel::Path(root)).scan == s.scan.push(root),
        spec_add_folder_at(s, true, f, FileUriModel::Path(root)).scan == s.scan.push(root),
        spec_add_folder_at(s, false, f, FileUriModel::Path(root)).mods == s.mods.insert(f.name@, root),
        spec_add_folder_at(s, true, f, FileUriModel::Path(root)).mods == s.mods.insert(f.name@, root),
        spec_add_folder_at(s, false, f, FileUriModel::Path(root)).lua == s.lua,
        spec_add_folder_at(s, true, f, FileUriModel::Path(root)).lua == s.lua,
        spec_add_folder_at(s, false, f, FileUriModel::Path(root)).errors == s.errors,
        spec_add_folder_at(s, true, f, FileUriModel::Path(root)).errors == s.errors,
        spec_add_folder_at(s, false, f, FileUriModel::Path(root)).logs == s.logs,
{
}

/// At `initialize`, a workspace folder whose URI names the local path `root` adds
/// the mod with that root and puts the root among the directories to read,
/// whatever the trace level, and fails nothing.
pub proof fn law_initial_folder_is_read(s: FoldersModel, verbose: bool, f: WorkspaceFolder, root: Seq<char>)
    ensures
        spec_init_folder_at(s, verbose, f, FileUriModel::Path(root)).0.scan == s.scan.push(root),
        spec_init_folder_at(s, verbose, f, FileUriModel::Path(root)).0.mods == s.mods.insert(
            f.name@,
            root,
        ),
        spec_init_folder_at(s, verbose, f, FileUriModel::Path(root)).0.lua == s.lua,
        spec_init_folder_at(s, verbose, f, FileUriModel::Path(root)).1 is None,
{
}

/// Whether `w` is the plain glob of `root` joined with `**/*`.
pub open spec fn spec_is_plain_glob(w: FileSystemWatcher, root: Seq<char>) -> bool {
    w.glob_pattern matches GlobPattern::Pattern(p) && p@ == spec_path_join(root, "**/*"@)
}

/// Whether `w` is the pattern `**/*` relative to the workspace folder named `name`.
pub open spec fn spec_is_relative_glob(w: FileSystemWatcher, name: Seq<char>) -> bool {
    &&& w.glob_pattern matches GlobPattern::RelativePattern { base_uri, pattern }
    &&& pattern@ == "**/*"@
    &&& base_uri matches WorkspaceFolderOrURI::WorkspaceFolder(f)
    &&& f.name@ == name
}

/// Watchers follow the client's `relativePatternSupport`: where the client
/// registers watchers dynamically, a watcher is a pattern relative to the mod's
/// folder only when relative patterns are supported (`Some(true)`), and otherwise
/// the plain glob of the mod's root joined with `**/*`.
pub proof fn law_watchers_follow_relative_support(
    c: crate::lsp_json::ClientCapabilities,
    w: FileSystemWatcher,
    name: Seq<char>,
    root: Seq<char>,
)
    requires
        c.workspace matches Some(ws) && ws.did_change_watched_files matches Some(wf)
            && wf.dynamic_registration == Some(true),
        spec_watch_registration(Some(c)) matches Some(r) && spec_is_watcher_for(w, r, name, root),
    ensures
        w.kind is None,
        c.workspace->0.did_change_watched_files->0.relative_pattern_support != Some(true)
            ==> spec_is_plain_glob(w, root),
        c.workspace->0.did_change_watched_files->0.relative_pattern_support == Some(true)
            ==> spec_is_relative_glob(w, name),
{
}

/// Where the client registers watched files dynamically, the watchers are
/// registered.
pub proof fn law_watchers_with_dynamic_registration(c: crate::lsp_json::ClientCapabilities)
    requires
        c.workspace matches Some(ws) && ws.did_change_watched_files matches Some(wf)
            && wf.dynamic_registration == Some(true),
    ensures
        spec_watch_registration(Some(c)) is Some,
{
}

/// Without dynamic registration of watched files, no watcher is registered.
pub proof fn law_no_watchers_without_dynamic_registration(c: crate::lsp_json::ClientCapabilities)
    requires
        !(c.workspace matches Some(ws) && ws.did_change_watched_files matches Some(wf)
            && wf.dynamic_registration == Some(true)),
    ensures
        spec_watch_registration(Some(c)) is None,
{
}

/// `initialize` sets the trace level that its params ask for, and `off` where they
/// ask for none.
pub proof fn law_initial_trace_is_requested(params: InitializeParams)
    ensures
        params.trace matches Some(t) ==> spec_initial_trace(params) == t,
        params.trace is None ==> spec_initial_trace(params) == TraceValue::Off,
{
}

} // verus!
