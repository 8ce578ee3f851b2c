//! Data model of the synchronization engine: requests, results, progress
//! records, and the error taxonomy.

use vstd::prelude::*;
use crate::text::concat2;

verus! {

/// Error taxonomy of the engine.  Failures of the embedded library are
/// carried as `Git` with the extracted message and whether the error was
/// of the SSH class; conflicts are not errors (they are reported inside
/// `SyncResult`).
#[derive(Debug, Clone)]
pub enum GitError {
    /// A failure reported by the embedded Git library.
    Git { message: String, ssh_class: bool },
    /// A host input/output failure.
    Io { message: String },
    AuthenticationFailed { message: String },
    InvalidUrl { url: String },
    DirectoryExists { path: String },
    Unknown { message: String },
    /// The external command-line tool is not installed or not runnable.
    SystemGitNotFound,
    /// The external command-line tool ran and failed.
    SystemGitFailed { message: String },
    /// The external command-line tool exceeded its wall-clock budget.
    Timeout,
}

impl GitError {
    /// The machine-readable kind of the error.
    pub fn error_type(&self) -> (r: &'static str)
        ensures
            r@ == match self {
                GitError::Git { .. } => "git"@,
                GitError::Io { .. } => "io"@,
                GitError::AuthenticationFailed { .. } => "authentication"@,
                GitError::InvalidUrl { .. } => "invalid_url"@,
                GitError::DirectoryExists { .. } => "directory_exists"@,
                GitError::Unknown { .. } => "unknown"@,
                GitError::SystemGitNotFound => "system_git_not_found"@,
                GitError::SystemGitFailed { .. } => "system_git_failed"@,
                GitError::Timeout => "timeout"@,
            },
    {
        match self {
            GitError::Git { .. } => "git",
            GitError::Io { .. } => "io",
            GitError::AuthenticationFailed { .. } => "authentication",
            GitError::InvalidUrl { .. } => "invalid_url",
            GitError::DirectoryExists { .. } => "directory_exists",
            GitError::Unknown { .. } => "unknown",
            GitError::SystemGitNotFound => "system_git_not_found",
            GitError::SystemGitFailed { .. } => "system_git_failed",
            GitError::Timeout => "timeout",
        }
    }

    /// A human-readable rendering, in place of `Display`.
    pub fn message_text(&self) -> (r: String)
        ensures
            r@ == match self {
                GitError::Git { message, .. } => "Git operation failed: "@ + message@,
                GitError::Io { message } => "IO error: "@ + message@,
                GitError::AuthenticationFailed { message } => "Authentication failed: "@
                    + message@,
                GitError::InvalidUrl { url } => "Invalid repository URL: "@ + url@,
                GitError::DirectoryExists { path } => "Target directory already exists: "@
                    + path@,
                GitError::Unknown { message } => "Unknown error: "@ + message@,
                GitError::SystemGitNotFound => "System Git not found"@,
                GitError::SystemGitFailed { message } => "System Git failed: "@ + message@,
                GitError::Timeout => "Operation timed out"@,
            },
    {
        match self {
            GitError::Git { message, .. } => concat2("Git operation failed: ", message.as_str()),
            GitError::Io { message } => concat2("IO error: ", message.as_str()),
            GitError::AuthenticationFailed { message } => concat2(
                "Authentication failed: ",
                message.as_str(),
            ),
            GitError::InvalidUrl { url } => concat2("Invalid repository URL: ", url.as_str()),
            GitError::DirectoryExists { path } => concat2(
                "Target directory already exists: ",
                path.as_str(),
            ),
            GitError::Unknown { message } => concat2("Unknown error: ", message.as_str()),
            GitError::SystemGitNotFound => String::from_str("System Git not found"),
            GitError::SystemGitFailed { message } => concat2(
                "System Git failed: ",
                message.as_str(),
            ),
            GitError::Timeout => String::from_str("Operation timed out"),
        }
    }
}

/// Authentication modes for a repository URL.
#[derive(Debug, Clone, Copy, PartialEq, Eq, Structural)]
pub enum AuthType {
    /// Plain username / password over HTTP.
    Password,
    /// A personal access token.
    Token,
    /// An SSH key or the SSH agent.
    Ssh,
    /// No authentication (public repository).
    Anonymous,
}

/// Authentication material for one operation.
#[derive(Debug, Clone)]
pub struct AuthConfig {
    pub auth_type: AuthType,
    pub username: Option<String>,
    pub password: Option<String>,
    pub token: Option<String>,
    pub ssh_key_path: Option<String>,
    pub ssh_key_passphrase: Option<String>,
}

/// A clone request.  The destination must not exist, or must be empty,
/// when the clone begins.
#[derive(Debug, Clone)]
pub struct CloneOptions {
    pub url: String,
    pub directory: String,
    pub branch: Option<String>,
    pub depth: Option<u32>,
    pub recursive: bool,
    pub auth: Option<AuthConfig>,
}

/// Stages of a clone operation; `Completed` and `Error` are terminal.
#[derive(Debug, Clone, Copy, PartialEq, Eq, Structural)]
pub enum CloneStage {
    Initializing,
    Connecting,
    Downloading,
    Unpacking,
    CheckingOut,
    Completed,
    Error,
}

/// Network transfer counters of a clone in flight.
#[derive(Debug, Clone)]
pub struct NetworkProgress {
    pub received_bytes: usize,
    pub received_objects: usize,
    pub total_objects: usize,
    pub indexed_objects: usize,
}

/// Checkout counters of a clone in flight.
#[derive(Debug, Clone)]
pub struct CheckoutProgress {
    pub completed_steps: usize,
    pub total_steps: usize,
    pub current_path: Option<String>,
}

/// One progress record, emitted to the progress sink.
#[derive(Debug, Clone)]
pub struct CloneProgress {
    pub id: String,
    pub stage: CloneStage,
    pub progress: u32,
    pub message: String,
    pub network_progress: Option<NetworkProgress>,
    pub checkout_progress: Option<CheckoutProgress>,
}

/// Statistics of a finished clone.
#[derive(Debug, Clone)]
pub struct CloneStats {
    pub duration_ms: u64,
    pub downloaded_bytes: usize,
    pub object_count: usize,
    pub file_count: usize,
}

/// The outcome of a clone.
#[derive(Debug, Clone)]
pub struct CloneResult {
    pub success: bool,
    pub repository_path: Option<String>,
    pub error: Option<String>,
    pub branch: Option<String>,
    pub last_commit_sha: Option<String>,
    pub stats: Option<CloneStats>,
}

/// One file of the repository status; a path with both staged and
/// unstaged changes appears twice, once with each `staged` flag.
#[derive(Debug, Clone)]
pub struct FileStatus {
    pub path: String,
    pub status: String,
    pub staged: bool,
    pub additions: u32,
    pub deletions: u32,
}

/// The status of the working tree and index.
#[derive(Debug, Clone)]
pub struct RepositoryStatus {
    pub current_branch: String,
    pub files: Vec<FileStatus>,
    pub ahead: u32,
    pub behind: u32,
    pub is_clean: bool,
}

/// `RepositoryStatus` is well formed when `is_clean` reflects the file
/// list.
pub open spec fn repository_status_wf(s: &RepositoryStatus) -> bool {
    s.is_clean <==> s.files@.len() == 0
}

/// Options for creating a commit.
#[derive(Debug, Clone)]
pub struct CommitOptions {
    pub message: String,
    pub description: Option<String>,
    pub author_name: Option<String>,
    pub author_email: Option<String>,
    pub amend: bool,
    pub signoff: bool,
}

/// One entry of the commit history.
#[derive(Debug, Clone)]
pub struct CommitHistoryItem {
    pub sha: String,
    pub message: String,
    pub author_name: String,
    pub author_email: String,
    pub author_date: i64,
    pub committer_name: String,
    pub committer_email: String,
    pub committer_date: i64,
    pub parent_count: usize,
}

/// The outcome of a fetch, pull or push.  Conflicts are a successful
/// return describing an unresolved state, never an error.
#[derive(Debug, Clone)]
pub struct SyncResult {
    pub success: bool,
    pub message: String,
    pub has_conflicts: bool,
    pub conflict_files: Vec<String>,
    pub ahead: u32,
    pub behind: u32,
}

/// `SyncResult` is well formed when conflicts imply failure with zeroed
/// counters, and success implies an empty conflict list.
pub open spec fn sync_result_wf(r: &SyncResult) -> bool {
    &&& r.has_conflicts ==> (!r.success && r.ahead == 0 && r.behind == 0)
    &&& r.success ==> r.conflict_files@.len() == 0
}

/// How `pull` integrates upstream commits.
#[derive(Debug, Clone, Copy, PartialEq, Eq, Structural)]
pub enum PullStrategy {
    Merge,
    Rebase,
}

/// The tracking relation of the current branch.
#[derive(Debug, Clone)]
pub struct RemoteBranchInfo {
    pub remote_name: String,
    pub branch_name: String,
    pub ahead: u32,
    pub behind: u32,
    pub last_sync: Option<i64>,
}

/// Summary facts about a freshly cloned repository.  Timestamps are
/// seconds since the epoch.
#[derive(Debug, Clone)]
pub struct RepositoryInfo {
    pub id: String,
    pub name: String,
    pub path: String,
    pub remote_url: Option<String>,
    pub current_branch: String,
    pub created_at: i64,
    pub updated_at: i64,
}

/// One branch, local or remote, with its tracking state.
#[derive(Debug, Clone)]
pub struct BranchInfo {
    pub name: String,
    pub is_current: bool,
    pub is_remote: bool,
    pub upstream: Option<String>,
    pub ahead: u32,
    pub behind: u32,
    pub last_commit: Option<CommitInfo>,
}

/// The last commit of a branch.
#[derive(Debug, Clone)]
pub struct CommitInfo {
    pub sha: String,
    pub message: String,
    pub author_name: String,
    pub author_email: String,
    pub timestamp: i64,
}

/// The outcome of a branch switch (or of an operation that ends in one).
#[derive(Debug, Clone)]
pub struct SwitchResult {
    pub success: bool,
    pub message: String,
    pub has_uncommitted_changes: bool,
    pub uncommitted_files: Vec<String>,
}

/// `SwitchResult` is well formed when success precludes blocking files.
pub open spec fn switch_result_wf(r: &SwitchResult) -> bool {
    r.success ==> (!r.has_uncommitted_changes && r.uncommitted_files@.len() == 0)
}

/// A cached access token for one host domain.
#[derive(Debug, Clone)]
pub struct TokenConfig {
    pub domain: String,
    pub token: String,
    pub username: Option<String>,
    pub created_at: i64,
    pub last_used: Option<i64>,
}

} // verus!
