//! Message structures of the tool-call protocol and its error codes.

use vstd::prelude::*;
use vstd::string::StringExecFns;
use crate::storage::StorageError;

verus! {

/// Protocol version supported.
pub const MCP_VERSION: &'static str = "2024-11-05";

/// Invalid JSON was received.
pub const PARSE_ERROR: i32 = -32700;
/// The JSON sent is not a valid request object.
pub const INVALID_REQUEST: i32 = -32600;
/// The requested method does not exist.
pub const METHOD_NOT_FOUND: i32 = -32601;
/// The method exists but its parameters are wrong.
pub const INVALID_PARAMS: i32 = -32602;
/// Internal error.
pub const INTERNAL_ERROR: i32 = -32603;
/// The specified habit does not exist.
pub const HABIT_NOT_FOUND: i32 = -32001;
/// An entry already exists for this habit on this date.
pub const DUPLICATE_ENTRY: i32 = -32002;
/// Input validation failed.
pub const VALIDATION_ERROR: i32 = -32003;
/// A database or storage operation failed.
pub const STORAGE_ERROR: i32 = -32004;

/// Content returned by a tool.
#[derive(Debug)]
pub struct ToolContent {
    /// Type of content (usually "text").
    pub content_type: String,
    /// The content itself.
    pub text: String,
}

/// The result of executing a tool.
#[derive(Debug)]
pub struct ToolCallResult {
    pub content: Vec<ToolContent>,
    pub is_error: bool,
}

/// Tools capability information.
#[derive(Debug)]
pub struct ToolsCapability {
    pub list_changed: bool,
}

/// Features the server supports.
#[derive(Debug)]
pub struct ServerCapabilities {
    pub tools: Option<ToolsCapability>,
}

/// Information about the client.
#[derive(Debug)]
pub struct ClientInfo {
    pub name: String,
    pub version: String,
}

/// Information about this server.
#[derive(Debug)]
pub struct ServerInfo {
    pub name: String,
    pub version: String,
}

/// Response to an initialization request.
#[derive(Debug)]
pub struct InitializeResult {
    pub protocol_version: String,
    pub capabilities: ServerCapabilities,
    pub server_info: ServerInfo,
}

impl ToolCallResult {
    /// A successful result holding one text item.
    pub fn success(text: String) -> (r: ToolCallResult)
        ensures
            !r.is_error,
            r.content@.len() == 1,
            r.content@[0].content_type@ == "text"@,
            r.content@[0].text@ == text@,
    {
        ToolCallResult {
            content: vec![ToolContent { content_type: String::from_str("text"), text }],
            is_error: false,
        }
    }

    /// An error result holding one text item, the message after "Error: ".
    pub fn error(error_message: String) -> (r: ToolCallResult)
        ensures
            r.is_error,
            r.content@.len() == 1,
            r.content@[0].content_type@ == "text"@,
            r.content@[0].text@ == "Error: "@ + error_message@,
    {
        let text = String::from_str("Error: ").concat(error_message.as_str());
        ToolCallResult {
            content: vec![ToolContent { content_type: String::from_str("text"), text }],
            is_error: true,
        }
    }
}

/// The protocol error code for each storage error.
pub open spec fn spec_error_code(error: StorageError) -> i32 {
    match error {
        StorageError::HabitNotFound { .. } => HABIT_NOT_FOUND,
        StorageError::EntryNotFound { .. } => HABIT_NOT_FOUND,
        StorageError::DuplicateEntry { .. } => DUPLICATE_ENTRY,
        StorageError::Serialization(_) => INTERNAL_ERROR,
        _ => STORAGE_ERROR,
    }
}

/// Map a storage error to its protocol error code.
pub fn storage_error_to_json_rpc_code(error: &StorageError) -> (r: i32)
    ensures
        r == spec_error_code(*error),
{
    match error {
        StorageError::HabitNotFound { .. } => HABIT_NOT_FOUND,
        StorageError::EntryNotFound { .. } => HABIT_NOT_FOUND,
        StorageError::DuplicateEntry { .. } => DUPLICATE_ENTRY,
        StorageError::Query(_) => STORAGE_ERROR,
        StorageError::Connection(_) => STORAGE_ERROR,
        StorageError::Serialization(_) => INTERNAL_ERROR,
        StorageError::Migration(_) => STORAGE_ERROR,
    }
}

} // verus!
