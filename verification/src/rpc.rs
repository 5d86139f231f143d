//! Wire protocol model for the agent RPC channel.
//!
//! The wire format is newline-delimited JSON, one message per line: requests
//! carry `id`, `method` and `params`; responses carry `id` and exactly one of
//! `result` or `error`; notifications carry `method` and `params` but no
//! `id`.  Alongside the envelope, this module fixes the error-code space and
//! the parameter and result shapes of the supported remote methods.

use vstd::prelude::*;

verus! {

/// JSON values are carried through opaquely; the transport core never looks
/// inside a payload.
#[verifier::external_type_specification]
#[verifier::external_body]
pub struct ExJsonValue(serde_json::Value);

// JSON-RPC style generic error codes.
pub const ERR_INVALID_PARAMS: i32 = -32602;

pub const ERR_METHOD_NOT_FOUND: i32 = -32601;

pub const ERR_INTERNAL: i32 = -32603;

// Domain-specific codes for I/O outcomes.
pub const ERR_IO: i32 = -1;

pub const ERR_NOT_FOUND: i32 = -2;

pub const ERR_PERMISSION: i32 = -3;

pub const ERR_ALREADY_EXISTS: i32 = -4;

pub const ERR_CONFLICT: i32 = -5;

/// JSON-RPC error object.
#[derive(Debug, Clone, PartialEq, Eq)]
pub struct RpcError {
    pub code: i32,
    pub message: String,
}

/// Outgoing request.
#[derive(Debug)]
pub struct Request {
    pub id: u64,
    pub method: String,
    pub params: serde_json::Value,
}

/// Incoming response; exactly one of `result`/`error` is present on the wire.
#[derive(Debug)]
pub struct Response {
    pub id: u64,
    pub result: Option<serde_json::Value>,
    pub error: Option<RpcError>,
}

/// Server-initiated notification (no `id`).
#[derive(Debug)]
pub struct Notification {
    pub method: String,
    pub params: serde_json::Value,
}

impl Response {
    /// A success response: `result` present, `error` absent.
    pub fn ok(id: u64, result: serde_json::Value) -> (r: Self)
        ensures
            r.id == id,
            r.result == Some(result),
            r.error is None,
    {
        Response { id, result: Some(result), error: None }
    }

    /// An error response: `error` present, `result` absent.
    pub fn err(id: u64, code: i32, message: String) -> (r: Self)
        ensures
            r.id == id,
            r.result is None,
            r.error == Some(RpcError { code, message }),
    {
        Response { id, result: None, error: Some(RpcError { code, message }) }
    }
}

// fs/readFile

/// Default cap on a readable file: 10 MiB.
pub fn default_max_size() -> (r: u64)
    ensures
        r == 10 * 1024 * 1024,
{
    10 * 1024 * 1024
}

/// fs/readFile params.
#[derive(Debug, Clone, PartialEq, Eq)]
pub struct ReadFileParams {
    pub path: String,
    /// Max file size in bytes; the call errors above it.
    pub max_size: u64,
}

/// fs/readFile result.
#[derive(Debug, Clone, PartialEq, Eq)]
pub struct ReadFileResult {
    pub content: String,
    /// SHA-256 hex digest of the raw bytes.
    pub hash: String,
    pub size: u64,
    pub mtime: u64,
}

/// fs/writeFile params.
#[derive(Debug, Clone, PartialEq, Eq)]
pub struct WriteFileParams {
    pub path: String,
    pub content: String,
    /// If present, only write when the remote hash matches (optimistic lock).
    pub expect_hash: Option<String>,
}

/// fs/writeFile result.
#[derive(Debug, Clone, PartialEq, Eq)]
pub struct WriteFileResult {
    pub hash: String,
    pub size: u64,
    pub mtime: u64,
    /// Always true: the agent writes through an atomic rename.
    pub atomic: bool,
}

/// fs/stat params.
#[derive(Debug, Clone, PartialEq, Eq)]
pub struct StatParams {
    pub path: String,
}

/// fs/stat result; absent fields mean "not applicable", never "unknown".
#[derive(Debug, Clone, PartialEq, Eq)]
pub struct StatResult {
    pub exists: bool,
    pub file_type: Option<String>,
    pub size: Option<u64>,
    pub mtime: Option<u64>,
    /// Octal permission string, e.g. "755".
    pub permissions: Option<String>,
}

/// fs/listDir params.
#[derive(Debug, Clone, PartialEq, Eq)]
pub struct ListDirParams {
    pub path: String,
}

/// Default recursion depth for fs/listTree.
pub fn default_max_depth() -> (r: u32)
    ensures
        r == 3,
{
    3
}

/// Default entry cap for fs/listTree.
pub fn default_max_entries() -> (r: u32)
    ensures
        r == 5000,
{
    5000
}

/// fs/listTree params: recursive listing bounded by depth and entry count.
#[derive(Debug, Clone, PartialEq, Eq)]
pub struct ListTreeParams {
    pub path: String,
    pub max_depth: u32,
    pub max_entries: u32,
}

/// A single file or directory entry.
#[derive(Debug)]
pub struct FileEntry {
    pub name: String,
    pub path: String,
    pub file_type: String,
    pub size: u64,
    pub mtime: Option<u64>,
    pub permissions: Option<String>,
    /// Children entries, only for directories in a tree listing.
    pub children: Option<Vec<FileEntry>>,
}

/// fs/mkdir params.
#[derive(Debug, Clone, PartialEq, Eq)]
pub struct MkdirParams {
    pub path: String,
    /// Create parent directories as needed.
    pub recursive: bool,
}

/// fs/remove params.
#[derive(Debug, Clone, PartialEq, Eq)]
pub struct RemoveParams {
    pub path: String,
    /// Recursively remove directories.
    pub recursive: bool,
}

/// fs/rename params.
#[derive(Debug, Clone, PartialEq, Eq)]
pub struct RenameParams {
    pub old_path: String,
    pub new_path: String,
}

/// fs/chmod params.
#[derive(Debug, Clone, PartialEq, Eq)]
pub struct ChmodParams {
    pub path: String,
    /// Octal permission string, e.g. "755".
    pub mode: String,
}

// watch/*

/// watch/start params.
#[derive(Debug, Clone, PartialEq, Eq)]
pub struct WatchStartParams {
    pub path: String,
    /// Glob patterns to ignore.
    pub ignore: Vec<String>,
}

/// watch/stop params.
#[derive(Debug, Clone, PartialEq, Eq)]
pub struct WatchStopParams {
    pub path: String,
}

/// watch/event notification payload: a path and a change kind
/// ("create", "modify", "delete", "rename").
#[derive(Debug, Clone, PartialEq, Eq)]
pub struct WatchEvent {
    pub path: String,
    pub kind: String,
}

// search/*

/// Default result cap for search/grep.
pub fn default_grep_max() -> (r: u32)
    ensures
        r == 500,
{
    500
}

/// search/grep params.
#[derive(Debug, Clone, PartialEq, Eq)]
pub struct GrepParams {
    pub pattern: String,
    pub path: String,
    pub is_regex: bool,
    pub case_sensitive: bool,
    pub max_results: u32,
    /// Glob patterns to ignore.
    pub ignore: Vec<String>,
}

/// One search match.
#[derive(Debug, Clone, PartialEq, Eq)]
pub struct GrepMatch {
    pub path: String,
    pub line: u32,
    pub column: u32,
    pub text: String,
}

// git/*

/// git/status params.
#[derive(Debug, Clone, PartialEq, Eq)]
pub struct GitStatusParams {
    pub path: String,
}

/// git/status result.
#[derive(Debug, Clone, PartialEq, Eq)]
pub struct GitStatusResult {
    pub branch: String,
    pub files: Vec<GitFileEntry>,
}

/// One changed file in a git status.
#[derive(Debug, Clone, PartialEq, Eq)]
pub struct GitFileEntry {
    pub path: String,
    /// Status letter: "M", "A", "D", "?", "R" and the like.
    pub status: String,
}

// sys/*

/// sys/info result: the agent's identity.
#[derive(Debug, Clone, PartialEq, Eq)]
pub struct SysInfoResult {
    pub version: String,
    pub arch: String,
    pub os: String,
    pub pid: u32,
}

} // verus!
