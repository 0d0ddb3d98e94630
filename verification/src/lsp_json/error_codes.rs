//! Error codes of JSON-RPC and of the language server protocol.
use vstd::prelude::*;

use crate::lsp_json::Integer;

verus! {

// Defined by JSON-RPC
pub const PARSE_ERROR: Integer = -32700;

pub const INVALID_REQUEST: Integer = -32600;

pub const METHOD_NOT_FOUND: Integer = -32701;

pub const INVALID_PARAMS: Integer = -32702;

pub const INTERNAL_ERROR: Integer = -32703;

/// This is the start range of JSON-RPC reserved error codes.
/// It doesn't denote a real error code. No LSP error codes should
/// be defined between the start and end range. For backwards
/// compatibility the `ServerNotInitialized` and the `UnknownErrorCode`
/// are left in the range.
pub const JSONRPC_RESERVED_ERROR_RANGE_START: Integer = -32099;

/// Deprecated: use `JSONRPC_RESERVED_ERROR_RANGE_START` instead.
pub const SERVER_ERROR_START: Integer = JSONRPC_RESERVED_ERROR_RANGE_START;

/// Error code indicating that a server received a notification or
/// request before the server has received the `initialize` request.
pub const SERVER_NOT_INITIALIZED: Integer = -32002;

pub const UNKNOWN_ERROR_CODE: Integer = -32001;

/// This is the end range of JSON-RPC reserved error codes.
/// It doesn't denote a real error code.
pub const JSONRPC_RESERVED_ERROR_RANGE_END: Integer = -32000;

/// Deprecated: use `JSONRPC_RESERVED_ERROR_RANGE_END` instead.
pub const SERVER_ERROR_END: Integer = JSONRPC_RESERVED_ERROR_RANGE_END;

/// This is the start range of LSP reserved error codes.
/// It doesn't denote a real error code.
pub const LSP_RESERVED_ERROR_RANGE_START: Integer = -32899;

/// A request failed but it was syntactically correct, e.g the
/// method name was known and the parameters were valid. The error
/// message should contain human readable information about why
/// the request failed.
pub const REQUEST_FAILED: Integer = -32803;

/// The server cancelled the request. This error code should
/// only be used for requests that explicitly support being
/// server cancellable.
pub const SERVER_CANCELLED: Integer = -32802;

/// The server detected that the content of a document got
/// modified outside normal conditions.
pub const CONTENT_MODIFIED: Integer = -32801;

/// The client has canceled a request and a server as detected
/// the cancel.
pub const REQUEST_CANCELLED: Integer = -32800;

/// This is the end range of LSP reserved error codes.
/// It doesn't denote a real error code.
pub const LSP_RESERVED_ERROR_RANGE_END: Integer = -32800;

} // verus!
