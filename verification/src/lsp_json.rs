//! The messages and structures of the language server protocol.
use vstd::prelude::*;

use crate::lsp_any::LSPAny;
use crate::text::{append_str, int_to_decimal, push_char, spec_int_decimal};

pub mod error_codes;
pub mod watch_kind;

verus! {

/// Defines an integer number in the range of -2^31 to 2^31 - 1.
pub type Integer = i64;

/// Defines an unsigned integer number in the range of 0 to 2^31 - 1.
pub type Uinteger = u64;

/// LSP object definition.
pub type LSPObject = Vec<(String, LSPAny)>;

/// LSP arrays.
pub type LSPArray = Vec<LSPAny>;

/// Message id type
#[derive(Debug, PartialEq, Eq, Hash)]
pub enum IntegerOrString {
    Integer(Integer),
    String(String),
}

/// The value of an [`IntegerOrString`].
pub enum IdModel {
    Integer(Integer),
    String(Seq<char>),
}

impl IdModel {
    /// The text that `Display` prints for the id.
    pub open spec fn spec_display(self) -> Seq<char> {
        match self {
            IdModel::Integer(i) => spec_int_decimal(i as int),
            IdModel::String(s) => seq!['"'] + s + seq!['"'],
        }
    }
}

impl IntegerOrString {
    /// The text that `Display` prints: an integer as its decimal digits, a string
    /// between double quotes.
    pub open spec fn spec_display(&self) -> Seq<char> {
        match self {
            IntegerOrString::Integer(i) => spec_int_decimal(*i as int),
            IntegerOrString::String(s) => seq!['"'] + s@ + seq!['"'],
        }
    }

    /// The text that `Display` prints: an integer as its decimal digits, a string
    /// between double quotes.
    pub fn to_display_string(&self) -> (r: String)
        ensures
            r@ == self.spec_display(),
    {
        match self {
            IntegerOrString::Integer(i) => int_to_decimal(*i),
            IntegerOrString::String(s) => {
                let mut r = String::new();
                push_char(&mut r, '"');
                append_str(&mut r, s.as_str());
                push_char(&mut r, '"');
                assert(r@ =~= self.spec_display());
                r
            },
        }
    }

    /// The value of this id.
    pub open spec fn model(&self) -> IdModel {
        match self {
            IntegerOrString::Integer(i) => IdModel::Integer(*i),
            IntegerOrString::String(s) => IdModel::String(s@),
        }
    }

    /// A copy of this id.
    pub fn duplicate(&self) -> (r: IntegerOrString)
        ensures
            r == *self,
    {
        match self {
            IntegerOrString::Integer(i) => IntegerOrString::Integer(*i),
            IntegerOrString::String(s) => IntegerOrString::String(s.clone()),
        }
    }
}

/// A request message to describe a request between the client and the server.
/// Every processed request must send a response back to the sender of the request.
#[derive(Debug)]
pub struct RequestMessage<T> {
    /// jsonrpc version. LSP uses 2.0
    pub jsonrpc: String,
    /// The request id.
    pub id: IntegerOrString,
    /// The method to be invoked.
    pub method: String,
    /// The method's params
    pub params: Option<T>,
}

/// A Response Message sent as a result of a request. If a request doesn’t provide a result value
/// the receiver of a request still needs to return a response message to conform to the JSON-RPC specification.
/// The result property of the ResponseMessage should be set to null in this case to signal a successful request.
#[derive(Debug)]
pub struct ResponseMessage<T> {
    /// jsonrpc version. LSP uses 2.0
    pub jsonrpc: String,
    /// The request id.
    pub id: Option<IntegerOrString>,
    /// The result of a request. This member is REQUIRED on success.
    /// This member MUST NOT exist if there was an error invoking the method.
    pub result: Option<T>,
    /// The error object in case a request fails.
    pub error: Option<ResponseError>,
}

#[derive(Debug)]
pub struct ResponseError {
    /// A number indicating the error type that occured.
    pub code: Integer,
    /// A string providing a short description of the error.
    pub message: String,
    /// A primitive or structured value that contains additional
    /// information about the error. Can be omitted.
    pub data: Option<LSPAny>,
}

pub type DocumentUri = String;

pub type URI = String;

/// A notification message. A processed notification message must not send a response back. They work like events.
#[derive(Debug)]
pub struct NotificationMessage<T> {
    /// jsonrpc version. LSP uses 2.0
    pub jsonrpc: String,
    /// The method to be invoked.
    pub method: String,
    /// The notification's params
    pub params: Option<T>,
}

#[derive(Debug)]
pub struct CancelParams {
    /// The request id to cancel.
    pub id: IntegerOrString,
}

/// The base protocol offers support for request cancellation.
/// To cancel a request, a notification message with the method `$/cancelRequest`
/// and `CancelParams` is sent.
pub type CancelNotification = NotificationMessage<CancelParams>;

pub type ProgressToken = IntegerOrString;

#[derive(Debug)]
pub struct ProgressParams<T> {
    /// The progress token provided by the client or server.
    pub token: ProgressToken,
    /// The progress data.
    pub value: T,
}

/// A progress notification: method `$/progress`, params `ProgressParams`.
pub type ProgressNotification<T> = NotificationMessage<ProgressParams<T>>;

/// Client capabilities specific to regular expressions
#[derive(Debug)]
pub struct RegularExpressionsClientCapabilities {
    /// The engine's name
    pub engine: String,
    /// The engine's version
    pub version: Option<String>,
}

pub const EOL: [&'static str; 3] = ["\n", "\r\n", "\r"];

/// Position in a text document expressed as zero-based line and zero-based character offset.
/// A position is between two characters like an 'insert' cursor in an editor.
#[derive(Debug)]
pub struct Position {
    /// Line position in a document (zero-based).
    pub line: Uinteger,
    /// Character offset on a line in a document (zero-based). The meaning of this
    /// offset is determined by the negotiated `PositionEncodingKind`.
    pub character: Uinteger,
}

/// A type indicating how positions are encoded, specifically what column offsets mean.
#[derive(Debug)]
pub enum PositionEncodingKind {
    /// Character offsets count UTF-8 code units.
    UTF8,
    /// Character offsets count UTF-16 code units.
    ///
    /// This is the default and must always be supported by servers.
    UTF16,
    /// Character offsets count UTF-32 code units.
    UTF32,
}

/// A range in a text document expressed as (zero-based) start and end positions.
/// The end position is exclusive.
#[derive(Debug)]
pub struct Range {
    /// The range's start position.
    pub start: Position,
    /// The range's end position.
    pub end: Position,
}

/// Information about the client
#[derive(Debug)]
pub struct ClientInfo {
    /// The name of the client as defined by the client.
    pub name: String,
    /// The client's version as defined by the client.
    pub version: Option<String>,
}

#[derive(Debug)]
pub struct InitializeParams {
    /// The process Id of the parent process that started the server. Is null if the process has not been started by another process.
    pub process_id: Option<Integer>,
    /// Information about the client
    pub client_info: Option<ClientInfo>,
    /// The locale the client is currently showing the user interface in.
    pub locale: Option<String>,
    /// The root path of the workspace. Is null if no folder is open.
    /// Deprecated in favour of `root_uri`.
    pub root_path: Option<Option<String>>,
    /// The rootUri of the workspace. Is null if no folder is open.
    /// Deprecated in favour of `workspace_folders`.
    pub root_uri: Option<DocumentUri>,
    /// User provided initialization options.
    pub initialization_options: Option<LSPAny>,
    /// The capabilities provided by the client.
    pub capabilities: ClientCapabilities,
    /// The initial trace setting. If omitted trace is disabled (`'off'`).
    pub trace: Option<TraceValue>,
    /// The workspace folders configured in the client when the server starts.
    /// It can be `null` if the client supports workspace folders but none are
    /// configured.
    pub workspace_folders: Option<Option<Vec<WorkspaceFolder>>>,
}

/// Information about the server.
#[derive(Debug)]
pub struct ServerInfo {
    /// The name of the server as defined by the server.
    pub name: String,
    /// The server's version as defined by the server.
    pub version: Option<String>,
}

#[derive(Debug)]
pub struct InitializeResult {
    /// The capabilities the language server provides.
    pub capabilities: ServerCapabilities,
    /// Information about the server
    pub server_info: Option<ServerInfo>,
}

#[derive(Debug)]
pub struct InitializedParams {}

/// The initialize request: method `initialize`, params `InitializeParams`.
pub type InitializeRequest = RequestMessage<InitializeParams>;

/// The response to the initialize request.
pub type InitializeResponse = ResponseMessage<InitializeResult>;

/// The initialized notification: method `initialized`, params `InitializedParams`.
pub type InitializedNotification = NotificationMessage<InitializedParams>;

/// `ClientCapabilities` define capabilities for dynamic registration, workspace and text document features the client supports.
/// A missing property should be interpreted as an absence of the capability.
#[derive(Debug)]
pub struct ClientCapabilities {
    pub workspace: Option<WorkspaceClientCapabilities>,
}

/// Workspace specific capabilities.
#[derive(Debug)]
pub struct WorkspaceClientCapabilities {
    /// The client has support for file requests/notifications.
    pub file_operations: Option<FileOperationsCapabilities>,
    /// Capabilities specific to the `workspace/didChangeWatchedFiles` notification.
    pub did_change_watched_files: Option<DidChangeWatchedFilesClientCapabilities>,
}

/// A `TraceValue` represents the level of verbosity with which the server systematically reports its execution
/// trace using `$/logTrace` notifications.
#[derive(Clone, Copy, Debug, PartialEq, Eq, Structural)]
pub enum TraceValue {
    Off,
    Messages,
    Verbose,
}

impl TraceValue {
    /// The name of this value on the wire: `off`, `messages` or `verbose`.
    pub open spec fn spec_name(self) -> Seq<char> {
        match self {
            TraceValue::Off => "off"@,
            TraceValue::Messages => "messages"@,
            TraceValue::Verbose => "verbose"@,
        }
    }

    /// The name of this value on the wire: `off`, `messages` or `verbose`.
    pub fn name(&self) -> (r: &'static str)
        ensures
            r@ == self.spec_name(),
    {
        match self {
            TraceValue::Off => "off",
            TraceValue::Messages => "messages",
            TraceValue::Verbose => "verbose",
        }
    }
}

#[derive(Debug)]
pub struct WorkspaceFolder {
    /// The associated URI for this workspace folder.
    pub uri: DocumentUri,
    /// The name of the workspace folder. Used to refer to this workspace folder in the user interface.
    pub name: String,
}

#[derive(Debug)]
pub struct SetTraceParams {
    /// The new value that should be assigned to the trace setting.
    pub value: TraceValue,
}

/// A notification that should be used by the client to modify the trace setting of the server:
/// method `$/setTrace`, params `SetTraceParams`.
pub type SetTraceNotification = NotificationMessage<SetTraceParams>;

#[derive(Debug)]
pub struct LogTraceParams {
    /// The message to be logged.
    pub message: String,
    /// Additional information that can be computed if the `trace` configuration is set to `'verbose'`.
    pub verbose: Option<String>,
}

/// A notification to log the trace of the server’s execution: method `$/logTrace`, params `LogTraceParams`.
pub type LogTraceNotification = NotificationMessage<LogTraceParams>;

/// The server can signal the following capabilities
#[derive(Debug)]
pub struct ServerCapabilities {
    /// Workspace specific server capabilities
    pub workspace: Option<WorkspaceServerCapabilities>,
}

pub type ShutdownParams = ();

pub type ShutdownResult = ();

/// The `shutdown` request: method `shutdown`, no params.
pub type ShutdownRequest = RequestMessage<()>;

/// The response to the `shutdown` request.
pub type ShutdownResponse = ResponseMessage<()>;

/// The client has support for file requests/notifications.
#[derive(Debug)]
pub struct FileOperationsCapabilities {
    /// The client has support for sending didCreateFiles notifications.
    pub did_create: Option<bool>,
    /// The client has support for sending didRenameFiles notifications.
    pub did_rename: Option<bool>,
    /// The client has support for sending didDeleteFiles notifications.
    pub did_delete: Option<bool>,
}

/// The server is interested in file requests/notifications.
#[derive(Debug)]
pub struct FileOperationsOptions {
    /// The server is interested in sending didCreateFiles notifications.
    pub did_create: Option<FileOperationRegistrationOptions>,
    /// The server is interested in sending willCreateFiles requests.
    pub will_create: Option<FileOperationRegistrationOptions>,
    /// The server is interested in sending didRenameFiles notifications.
    pub did_rename: Option<FileOperationRegistrationOptions>,
    /// The server is interested in sending willRenameFiles requests.
    pub will_rename: Option<FileOperationRegistrationOptions>,
    /// The server is interested in sending didDeleteFiles notifications.
    pub did_delete: Option<FileOperationRegistrationOptions>,
    /// The server is interested in sending willDeleteFiles requests.
    pub will_delete: Option<FileOperationRegistrationOptions>,
}

/// The options to register for file operations.
#[derive(Debug)]
pub struct FileOperationRegistrationOptions {
    /// The actual filters
    pub filters: Vec<FileOperationFilter>,
}

/// A filter to describe in which file operation requests or notifications the server is interested in.
#[derive(Debug)]
pub struct FileOperationFilter {
    /// A Uri like `file` or `untitled`
    pub scheme: Option<String>,
    /// The actual file operation pattern.
    pub pattern: FileOperationPattern,
}

/// A pattern to describe in which file operation requests or notifications the server is interested in.
#[derive(Debug)]
pub struct FileOperationPattern {
    /// The glob pattern to match.
    pub glob: String,
    /// Wether to match files or folders with this pattern.
    ///
    /// Matches both if undefined.
    pub matches: Option<FileOperationPatternKind>,
    /// Additional options used during matching.
    pub options: Option<FileOperationPatternOptions>,
}

/// Matching options for file operation pattern.
#[derive(Debug)]
pub struct FileOperationPatternOptions {
    /// The pattern should me matched ignoring casing.
    pub ignore_case: Option<bool>,
}

/// A pattern kind describing if a glob pattern matches a file, a folder or both.
#[derive(Debug)]
pub enum FileOperationPatternKind {
    /// The pattern matches a file only.
    File,
    /// The pattern matches a folder only.
    Folder,
}

/// Workspace specific server capabilities.
#[derive(Debug)]
pub struct WorkspaceServerCapabilities {
    /// The server supports workspace folders.
    pub workspace_folders: Option<WorkspaceFoldersServerCapabilities>,
    /// The server is interested in file notifications/requests.
    pub file_operations: Option<FileOperationsOptions>,
}

/// String or boolean
#[derive(Debug)]
pub enum StringOrBoolean {
    String(String),
    Boolean(bool),
}

/// Workspace folders server capabilities.
#[derive(Debug)]
pub struct WorkspaceFoldersServerCapabilities {
    /// The server has support for workspace folders
    pub supported: Option<bool>,
    /// Whether the server wants to receive workspace folder
    /// change notifications.
    pub change_notifications: Option<StringOrBoolean>,
}

/// The parameters sent in notifications/request for user-initiated creation of files.
#[derive(Debug)]
pub struct CreateFilesParams {
    /// An array of all files/folders created in this operation.
    pub files: Vec<FileCreate>,
}

/// Represents information on a file/folder create.
#[derive(Debug)]
pub struct FileCreate {
    /// A file:// URI for the location of the file/folder being created.
    pub uri: String,
}

/// The did create files notification: method `workspace/didCreateFiles`, params `CreateFilesParams`.
pub type DidCreateFilesNotification = NotificationMessage<CreateFilesParams>;

/// The parameters sent in notifications/request for user-initiated renames of files.
#[derive(Debug)]
pub struct RenameFilesParams {
    /// An array of all files/folders renamed in this operation.
    pub files: Vec<FileRename>,
}

/// Represents information on a file/folder rename.
#[derive(Debug)]
pub struct FileRename {
    /// A file:// URI for the original location of the file/folder being rename.
    pub old_uri: String,
    /// A file:// URI for the new location of the file/folder being rename.
    pub new_uri: String,
}

/// The did rename files notification: method `workspace/didRenameFiles`, params `RenameFilesParams`.
pub type DidRenameFilesNotification = NotificationMessage<RenameFilesParams>;

/// The parameters sent in notifications/request for user-initiated deletion of files.
#[derive(Debug)]
pub struct DeleteFilesParams {
    /// An array of all files/folders deleted in this operation.
    pub files: Vec<FileDelete>,
}

/// Represents information on a file/folder delete.
#[derive(Debug)]
pub struct FileDelete {
    /// A file:// URI for the location of the file/folder being deleted.
    pub uri: String,
}

/// The did delete files notification: method `workspace/didDeleteFiles`, params `DeleteFilesParams`.
pub type DidDeleteFilesNotification = NotificationMessage<DeleteFilesParams>;

/// The will rename files request: method `workspace/willRenameFiles`, params `RenameFilesParams`.
pub type WillRenameFilesRequest = RequestMessage<RenameFilesParams>;

pub type WillRenameFilesResult = Option<WorkspaceEdit>;

/// A workspace edit represents changes to many resources managed in the workspace.
#[derive(Debug)]
pub struct WorkspaceEdit {}

/// General parameters to register for a capability.
#[derive(Debug)]
pub struct Registration {
    /// The id used to register the request. The id can be used to deregister the request again.
    pub id: String,
    /// The method / capability to register for.
    pub method: String,
    /// Options necessary for registration.
    pub register_options: Option<LSPAny>,
}

#[derive(Debug)]
pub struct RegistrationParams {
    pub registrations: Vec<Registration>,
}

pub type RegistrationResult = ();

/// The `client/registerCapability` request, sent from the server to the client to register for
/// a new capability on the client side.
pub type RegisterCapabilityRequest = RequestMessage<RegistrationParams>;

/// The response to `client/registerCapability`.
pub type RegisterCapabilityResponse = ResponseMessage<RegistrationResult>;

#[derive(Debug)]
pub struct DidChangeWatchedFilesClientCapabilities {
    /// Did change watched files notification supports dynamic registration.
    pub dynamic_registration: Option<bool>,
    /// Whether the client has support for relative pattern or not.
    pub relative_pattern_support: Option<bool>,
}

/// Describe options to be used when registering for file system change events.
#[derive(Debug)]
pub struct DidChangeWatchedFilesRegistrationOptions {
    /// The watchers to register.
    pub watchers: Vec<FileSystemWatcher>,
}

#[derive(Debug)]
pub struct FileSystemWatcher {
    /// The glob pattern to watch.
    pub glob_pattern: GlobPattern,
    /// The kind of events of interest. If omitted it defaults to
    /// watch_kind::CREATE | watch_kind::CHANGE | watch_kind::DELETE which is 7.
    pub kind: Option<WatchKind>,
}

/// The glob pattern Either a string pattern or a relative pattern.
#[derive(Debug)]
pub enum GlobPattern {
    /// The glob pattern to watch relative to the base path.
    Pattern(String),
    /// A relative pattern is a helper to construct glob patterns that are matched
    /// relatively to a base URI.
    RelativePattern {
        /// A workspace folder or a base URI to which this pattern will be matched against relatively.
        base_uri: WorkspaceFolderOrURI,
        /// The actual glob pattern
        pattern: String,
    },
}

#[derive(Debug)]
pub enum WorkspaceFolderOrURI {
    URI(URI),
    WorkspaceFolder(WorkspaceFolder),
}

pub type WatchKind = u8;

#[derive(Debug)]
pub struct DidChangeWatchedFilesParams {
    /// The actual file events.
    pub changes: Vec<FileEvent>,
}

/// An event describing a file change.
#[derive(Debug)]
pub struct FileEvent {
    /// The file's URI
    pub uri: DocumentUri,
    /// The change type
    pub change_type: FileChangeType,
}

/// The file event type; on the wire the numbers 1, 2 and 3.
#[derive(Clone, Copy, Debug, PartialEq, Eq, Structural)]
pub enum FileChangeType {
    /// The file got created.
    Created,
    /// The file got changed.
    Changed,
    /// The file got deleted.
    Deleted,
}

/// The watched files notification is sent from the client to the server when the client detects changes to
/// files and folders watched by the language client.
pub type DidChangeWatchedFilesNotification = NotificationMessage<DidChangeWatchedFilesParams>;

#[derive(Debug)]
pub struct DidChangeWorkspaceFoldersParams {
    /// The actual workspace folder change event.
    pub event: WorkspaceFoldersChangeEvent,
}

/// The workspace folder change event.
#[derive(Debug)]
pub struct WorkspaceFoldersChangeEvent {
    /// The array of added workspace folders.
    pub added: Vec<WorkspaceFolder>,
    /// The array of removed workspace folders.
    pub removed: Vec<WorkspaceFolder>,
}

/// The `workspace/didChangeWorkspaceFolders` notification informs the server
/// about workspace folder configuration changes.
pub type DidChangeWorkspaceFoldersNotification = NotificationMessage<
    DidChangeWorkspaceFoldersParams,
>;

} // verus!
