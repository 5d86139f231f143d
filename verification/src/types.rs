//! Small shared data shapes of the surrounding application.

use vstd::prelude::*;

verus! {

/// Information about an active terminal bridge; times are milliseconds
/// since the Unix epoch.
#[derive(Debug, Clone)]
pub struct BridgeInfo {
    pub session_id: String,
    pub port: u16,
    /// One-time authentication token against local process hijacking.
    pub token: String,
    pub created_at_ms: u64,
    pub last_activity_ms: u64,
}

/// Result of importing connections from an exported file.
#[derive(Debug, Clone)]
pub struct ImportResult {
    pub imported: usize,
    pub skipped: usize,
    pub errors: Vec<String>,
}

/// Network status payload.
#[derive(Debug, Clone, Copy, PartialEq, Eq, Structural)]
pub struct NetworkStatusPayload {
    pub online: bool,
}

/// A single launchable application entry.
#[derive(Debug, Clone)]
pub struct AppEntry {
    /// Display name.
    pub name: String,
    /// Full path to the application bundle.
    pub path: String,
    /// Bundle identifier, if known.
    pub bundle_id: Option<String>,
    /// Cached icon path, if one was rendered.
    pub icon_path: Option<String>,
}

/// Response of the application listing.
#[derive(Debug, Clone)]
pub struct LauncherListResponse {
    /// All discovered application entries.
    pub apps: Vec<AppEntry>,
    /// The icon cache directory, when icons were rendered.
    pub icon_dir: Option<String>,
}

/// Forward type for persistence.
#[derive(Debug, Clone, Copy, PartialEq, Eq, Structural)]
pub enum ForwardType {
    Local,
    Remote,
    Dynamic,
}

/// Default line cap of a terminal buffer.
pub fn default_max_lines() -> (r: usize)
    ensures
        r == 100000,
{
    100000
}

/// By default the buffer is saved on disconnect.
pub fn default_save_on_disconnect() -> (r: bool)
    ensures
        r,
{
    true
}

/// Terminal buffer configuration.
#[derive(Debug, Clone, Copy, PartialEq, Eq, Structural)]
pub struct BufferConfig {
    /// Maximum lines kept in the buffer.
    pub max_lines: usize,
    /// Whether to save the buffer on disconnect.
    pub save_on_disconnect: bool,
}

impl Default for BufferConfig {
    /// The default cap with saving on.
    fn default() -> (r: Self)
        ensures
            r.max_lines == 100000,
            r.save_on_disconnect,
    {
        BufferConfig { max_lines: 100000, save_on_disconnect: true }
    }
}

/// Counts of the persisted state.
#[derive(Debug, Clone, Copy, PartialEq, Eq, Structural)]
pub struct StateStats {
    pub session_count: usize,
    pub forward_count: usize,
}

} // verus!
