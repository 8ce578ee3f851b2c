//! The verified residue of the command layer: the operation
//! cancellation table, URL and protocol classification, clone-directory
//! validation, token-record bookkeeping, and the argument construction
//! and output classification for operations run through the external
//! command-line tool.

use vstd::prelude::*;
use vstd::map::*;
use crate::gitio::{find_remote, remote_names, remote_url, repo_head_info, repo_open, branch_names};
use crate::hostio::{path_exists, url_host_of, url_host};
use crate::auth::{is_scp_style_url, scp_style_at, spec_is_scp_style};
use crate::operations::map_git_err;
use crate::text::{
    concat2, concat3, dec_val, find_char, is_digit, is_prefix_of, parse_u32, str_contains,
    str_eq, str_starts_with, str_trim, substring_of, contains_seq,
};
use crate::types::{GitError, PullStrategy, SyncResult, TokenConfig, sync_result_wf};

verus! {

broadcast use vstd::string::group_string_axioms;

// ---- the clone-operation cancellation table ----

/// The table as a map from operation id to its cancelled flag; later
/// entries override earlier ones.
pub open spec fn ops_view(s: Seq<(String, bool)>) -> Map<Seq<char>, bool>
    decreases s.len(),
{
    if s.len() == 0 {
        Map::<Seq<char>, bool>::empty()
    } else {
        ops_view(s.drop_last()).insert(s.last().0@, s.last().1)
    }
}

/// Shared state of the command layer: which clone operations have been
/// marked cancelled.  Cancellation is advisory: the flag is consulted
/// between stages, never interrupting a transfer in flight.
pub struct GitState {
    pub clone_operations: Vec<(String, bool)>,
}

impl GitState {
    /// The table's map view.
    pub open spec fn view_ops(&self) -> Map<Seq<char>, bool> {
        ops_view(self.clone_operations@)
    }

    pub fn new() -> (r: GitState)
        ensures
            r.view_ops() == Map::<Seq<char>, bool>::empty(),
    {
        GitState { clone_operations: Vec::new() }
    }

    /// Marks an operation cancelled.
    pub fn cancel_clone_operation(&mut self, operation_id: &str)
        ensures
            final(self).view_ops() == old(self).view_ops().insert(operation_id@, true),
    {
        let ghost before = self.clone_operations@;
        self.clone_operations.push((String::from_str(operation_id), true));
        proof {
            assert(self.clone_operations@.drop_last() =~= before);
        }
    }

    /// Whether an operation has been marked cancelled; unknown
    /// operations count as not cancelled.
    pub fn get_clone_operation_status(&self, operation_id: &str) -> (r: bool)
        ensures
            r == if self.view_ops().contains_key(operation_id@) {
                self.view_ops()[operation_id@]
            } else {
                false
            },
    {
        let mut k: usize = self.clone_operations.len();
        proof {
            assert(self.clone_operations@.subrange(0, k as int) =~= self.clone_operations@);
        }
        while k > 0
            invariant
                k <= self.clone_operations@.len(),
                ({
                    let full = ops_view(self.clone_operations@);
                    let pre = ops_view(self.clone_operations@.subrange(0, k as int));
                    &&& full.contains_key(operation_id@) == pre.contains_key(operation_id@)
                    &&& (full.contains_key(operation_id@) ==> full[operation_id@]
                        == pre[operation_id@])
                }),
            decreases k,
        {
            let ghost all = self.clone_operations@;
            let ghost cur = all.subrange(0, k as int);
            let ghost shorter = all.subrange(0, k - 1);
            proof {
                assert(cur.drop_last() =~= shorter);
                assert(cur.last() == all[k - 1]);
            }
            if str_eq(self.clone_operations[k - 1].0.as_str(), operation_id) {
                return self.clone_operations[k - 1].1;
            }
            k = k - 1;
        }
        let ghost all = self.clone_operations@;
        proof {
            assert(all.subrange(0, 0) =~= Seq::<(String, bool)>::empty());
        }
        false
    }

    /// Drops every record of an operation from the table.
    pub fn cleanup_clone_operation(&mut self, operation_id: &str)
        ensures
            final(self).view_ops() == old(self).view_ops().remove(operation_id@),
    {
        let mut kept: Vec<(String, bool)> = Vec::new();
        let mut i: usize = 0;
        while i < self.clone_operations.len()
            invariant
                i <= self.clone_operations@.len(),
                ops_view(kept@) == ops_view(self.clone_operations@.subrange(0, i as int)).remove(
                    operation_id@,
                ),
            decreases self.clone_operations@.len() - i,
        {
            let ghost all = self.clone_operations@;
            let ghost pre = all.subrange(0, i as int);
            let ghost ext = all.subrange(0, i + 1);
            let ghost entry = all[i as int];
            proof {
                assert(ext.drop_last() =~= pre);
                assert(ext.last() == entry);
            }
            let entry_matches = str_eq(
                self.clone_operations[i].0.as_str(),
                operation_id,
            );
            if !entry_matches {
                let ghost kept_before = kept@;
                kept.push(
                    (self.clone_operations[i].0.clone(), self.clone_operations[i].1),
                );
                proof {
                    assert(kept@.drop_last() =~= kept_before);
                    assert(ops_view(kept@) == ops_view(kept_before).insert(entry.0@, entry.1));
                    assert(ops_view(ext).remove(operation_id@) =~= ops_view(kept@));
                }
            } else {
                proof {
                    assert(ops_view(ext).remove(operation_id@) =~= ops_view(kept@));
                }
            }
            i = i + 1;
        }
        let ghost all = self.clone_operations@;
        proof {
            assert(all.subrange(0, all.len() as int) =~= all);
        }
        self.clone_operations = kept;
    }
}

impl Default for GitState {
    /// An empty table: no operation is cancelled.
    fn default() -> (r: GitState)
        ensures
            r.view_ops() == Map::<Seq<char>, bool>::empty(),
    {
        GitState::new()
    }
}

// ---- URL classification ----

/// Whether a repository URL is well formed enough to try: non-empty
/// and naming a supported scheme.
pub fn validate_repository_url(url: &str) -> (r: bool)
    ensures
        r == (is_prefix_of("http://"@, url@) || is_prefix_of("https://"@, url@) || is_prefix_of(
            "git@"@,
            url@,
        ) || is_prefix_of("ssh://"@, url@)),
{
    str_starts_with(url, "http://") || str_starts_with(url, "https://") || str_starts_with(
        url,
        "git@",
    ) || str_starts_with(url, "ssh://")
}

/// The transport protocols a remote may speak.
#[derive(Debug, Clone, Copy, PartialEq, Eq, Structural)]
pub enum ProtocolType {
    Https,
    Ssh,
}

/// The transport protocol named by a remote URL: `https`, `ssh`, or
/// `unknown`.
pub fn detect_protocol_from_url(url: &str) -> (r: String)
    ensures
        (is_prefix_of("https://"@, url@) || is_prefix_of("http://"@, url@)) ==> r@ == "https"@,
        (!is_prefix_of("https://"@, url@) && !is_prefix_of("http://"@, url@) && (is_prefix_of(
            "git@"@,
            url@,
        ) || is_prefix_of("ssh://"@, url@))) ==> r@ == "ssh"@,
        (!is_prefix_of("https://"@, url@) && !is_prefix_of("http://"@, url@) && !is_prefix_of(
            "git@"@,
            url@,
        ) && !is_prefix_of("ssh://"@, url@)) ==> r@ == "unknown"@,
{
    if str_starts_with(url, "https://") || str_starts_with(url, "http://") {
        String::from_str("https")
    } else if str_starts_with(url, "git@") || str_starts_with(url, "ssh://") {
        String::from_str("ssh")
    } else {
        String::from_str("unknown")
    }
}

/// Extracts the host domain from a repository URL: for an scp-style
/// `user@host:path` address - which a standard parser does not take -
/// the text between the first `@` and the following `:`; for an
/// `http(s)://` or `ssh://` URL, the parsed host.
pub fn extract_domain_from_url(url: &str) -> (r: Result<String, String>)
    ensures
        spec_is_scp_style(url@) ==> (r matches Ok(d) && exists|a: int, c: int|
            0 <= a < c < url@.len() && url@[a] == '@' && url@[c] == ':' && (forall|j: int|
                0 <= j < a ==> url@[j] != '@') && (forall|j: int| a < j < c ==> url@[j] != ':')
                && d@ == url@.subrange(a + 1, c)),
        !spec_is_scp_style(url@) && (is_prefix_of("https://"@, url@) || is_prefix_of(
            "http://"@,
            url@,
        ) || is_prefix_of("ssh://"@, url@)) ==> (match url_host_of(url@) {
            Some(h) => r matches Ok(d) && d@ == h,
            None => r is Err,
        }),
        !spec_is_scp_style(url@) && !is_prefix_of("https://"@, url@) && !is_prefix_of(
            "http://"@,
            url@,
        ) && !is_prefix_of("ssh://"@, url@) ==> r is Err,
{
    if is_scp_style_url(url) {
        match find_char(url, '@') {
            Some(a) => {
                let sl = url.unicode_len();
                let rest = substring_of(url, a + 1, sl);
                match find_char(rest.as_str(), ':') {
                    Some(p) => {
                        let domain = substring_of(rest.as_str(), 0, p);
                        proof {
                            assert(url@[a + 1 + p] == rest@[p as int]);
                            assert(domain@ =~= url@.subrange(a + 1, a + 1 + p));
                            assert(forall|j: int|
                                a < j < a + 1 + p ==> url@[j] == rest@[j - (a + 1)] && rest@[j - (a
                                    + 1)] != ':');
                        }
                        return Ok(domain);
                    },
                    None => {
                        // unreachable: an scp-style address holds a ':'
                        // after its first '@'
                        proof {
                            let (wa, wc) = choose|wa: int, wc: int| scp_style_at(url@, wa, wc);
                            assert(url@[wa] == '@');
                            assert(wa == a as int);
                            assert(rest@[wc - (a + 1)] == url@[wc]);
                            assert(false);
                        }
                        return Err(String::from_str("cannot extract a domain from the URL"));
                    },
                }
            },
            None => {
                // unreachable: an scp-style address holds an '@'
                proof {
                    let (wa, wc) = choose|wa: int, wc: int| scp_style_at(url@, wa, wc);
                    assert(url@[wa] == '@');
                    assert(false);
                }
                return Err(String::from_str("cannot extract a domain from the URL"));
            },
        }
    }
    if str_starts_with(url, "https://") || str_starts_with(url, "http://") || str_starts_with(
        url,
        "ssh://",
    ) {
        match url_host(url) {
            Some(host) => {
                return Ok(host);
            },
            None => {
                return Err(String::from_str("cannot extract a domain from the URL"));
            },
        }
    }
    Err(String::from_str("cannot extract a domain from the URL"))
}

/// The token-cache domain to consult for a remote, if any: only
/// HTTP(S) remotes use token authentication.
pub fn token_domain_for_remote(remote_url: &str) -> (r: Option<String>)
    ensures
        (!is_prefix_of("https://"@, remote_url@) && !is_prefix_of("http://"@, remote_url@))
            ==> r is None,
{
    if !str_starts_with(remote_url, "https://") && !str_starts_with(remote_url, "http://") {
        return None;
    }
    match extract_domain_from_url(remote_url) {
        Ok(d) => Some(d),
        Err(_) => None,
    }
}

// ---- token records ----

/// A fresh token record for a domain, created now and never used yet.
pub fn new_token_config(domain: String, token: String, username: Option<String>, now: i64) -> (r:
    TokenConfig)
    ensures
        r.domain == domain,
        r.token == token,
        r.username == username,
        r.created_at == now,
        r.last_used is None,
{
    TokenConfig { domain, token, username, created_at: now, last_used: None }
}

/// Records a use of the token now; everything else is untouched.
pub fn touch_token(config: &mut TokenConfig, now: i64)
    ensures
        final(config).last_used == Some(now),
        final(config).domain == old(config).domain,
        final(config).token == old(config).token,
        final(config).username == old(config).username,
        final(config).created_at == old(config).created_at,
{
    config.last_used = Some(now);
}

// ---- repository inspection ----

/// Whether the path holds an openable repository.
pub fn is_git_repository(path: &str) -> (r: bool) {
    if !path_exists(path) {
        return false;
    }
    match repo_open(path) {
        Ok(_) => true,
        Err(_) => false,
    }
}

/// The URL of the default remote, else of the first remote that has
/// one.
pub fn get_remote_url_of(repo: &git2::Repository) -> (r: Option<String>) {
    match crate::operations::get_default_remote_name(repo) {
        Ok(name) => {
            match find_remote(repo, name.as_str()) {
                Ok(remote) => {
                    match remote_url(&remote) {
                        Some(u) => {
                            return Some(u);
                        },
                        None => (),
                    }
                },
                Err(_) => (),
            }
        },
        Err(_) => (),
    }
    let names = match remote_names(repo) {
        Ok(n) => n,
        Err(_) => {
            return None;
        },
    };
    let mut i: usize = 0;
    while i < names.len()
        invariant
            i <= names@.len(),
        decreases names@.len() - i,
    {
        match find_remote(repo, names[i].as_str()) {
            Ok(remote) => {
                match remote_url(&remote) {
                    Some(u) => {
                        return Some(u);
                    },
                    None => (),
                }
            },
            Err(_) => (),
        }
        i = i + 1;
    }
    None
}

/// The current branch name; for a repository whose head is unreadable,
/// the first local branch, if any.
pub fn get_current_branch_of(repo: &git2::Repository) -> (r: Option<String>) {
    match repo_head_info(repo) {
        Ok((Some(name), _)) => {
            return Some(name);
        },
        Ok((None, _)) => {
            return None;
        },
        Err(_) => (),
    }
    match branch_names(repo, true) {
        Ok(names) => {
            if names.len() > 0 {
                Some(names[0].clone())
            } else {
                None
            }
        },
        Err(_) => None,
    }
}

/// Basic facts about a repository path, for display.
#[derive(Debug, Clone)]
pub struct RepositoryInfo {
    pub name: String,
    pub remote_url: Option<String>,
    pub current_branch: Option<String>,
    pub is_valid: bool,
}

/// Inspects a path: its last segment as the display name, and — when
/// it opens as a repository — its remote URL and current branch.
pub fn get_repository_info(path: &str) -> (r: RepositoryInfo) {
    let segment = crate::text::last_path_segment(path);
    let name = if segment.as_str().unicode_len() == 0 {
        String::from_str("Unknown Repository")
    } else {
        segment
    };
    match repo_open(path) {
        Ok(repo) => {
            let remote = get_remote_url_of(&repo);
            let branch = get_current_branch_of(&repo);
            RepositoryInfo { name, remote_url: remote, current_branch: branch, is_valid: true }
        },
        Err(_) => RepositoryInfo {
            name,
            remote_url: None,
            current_branch: None,
            is_valid: false,
        },
    }
}

// ---- clone-directory validation ----

/// The verdict on a directory proposed as a clone destination.
#[derive(Debug, Clone)]
pub struct DirectoryValidation {
    pub is_valid: bool,
    pub is_empty: bool,
    pub is_writable: bool,
    pub message: String,
}

/// Classifies a clone destination from the probes the caller made: a
/// missing directory is valid exactly when it could be created; an
/// existing one must be a directory, and is valid exactly when it is
/// empty and writable.
pub fn classify_clone_directory(
    exists: bool,
    create_error: Option<&String>,
    is_dir: bool,
    is_empty: bool,
    is_writable: bool,
) -> (r: DirectoryValidation)
    ensures
        !exists && create_error is None ==> (r.is_valid && r.is_empty && r.is_writable),
        !exists && create_error is Some ==> (!r.is_valid && !r.is_empty && !r.is_writable),
        exists && !is_dir ==> !r.is_valid,
        exists && is_dir ==> (r.is_valid == (is_empty && is_writable) && r.is_empty == is_empty
            && r.is_writable == is_writable),
{
    if !exists {
        match create_error {
            None => DirectoryValidation {
                is_valid: true,
                is_empty: true,
                is_writable: true,
                message: String::from_str("directory created"),
            },
            Some(e) => DirectoryValidation {
                is_valid: false,
                is_empty: false,
                is_writable: false,
                message: concat2("cannot create the directory: ", e.as_str()),
            },
        }
    } else if !is_dir {
        DirectoryValidation {
            is_valid: false,
            is_empty: false,
            is_writable: false,
            message: String::from_str("the path is not a directory"),
        }
    } else {
        let message = if !is_empty {
            String::from_str("the directory is not empty; cloning may overwrite files")
        } else if !is_writable {
            String::from_str("the directory is not writable")
        } else {
            String::from_str("the directory is usable")
        };
        DirectoryValidation { is_valid: is_empty && is_writable, is_empty, is_writable, message }
    }
}

// ---- the external tool's sync operations (case: outside work in
// app, decisions here) ----

/// The SSH command injected for external-tool network operations:
/// non-interactive, with a connect timeout; an explicit key when one
/// is configured.
pub fn ssh_env_command(ssh_key_path: Option<&String>) -> (r: String)
    ensures
        match ssh_key_path {
            Some(k) => r@ == "ssh -i \""@ + k@
                + "\" -o StrictHostKeyChecking=no -o ConnectTimeout=10 -o BatchMode=yes"@,
            None => r@ == "ssh -o ConnectTimeout=10 -o BatchMode=yes"@,
        },
{
    match ssh_key_path {
        Some(k) => concat3(
            "ssh -i \"",
            k.as_str(),
            "\" -o StrictHostKeyChecking=no -o ConnectTimeout=10 -o BatchMode=yes",
        ),
        None => String::from_str("ssh -o ConnectTimeout=10 -o BatchMode=yes"),
    }
}

/// The external tool's fetch invocation.
pub fn fetch_system_args(remote: &str) -> (r: Vec<String>)
    ensures
        r.deep_view() =~= seq!["fetch"@, remote@],
{
    let mut args: Vec<String> = Vec::new();
    args.push(String::from_str("fetch"));
    args.push(String::from_str(remote));
    args
}

/// The external tool's push invocation: `--force` before the remote
/// and branch exactly when forcing.
pub fn push_system_args(remote: &str, branch: &str, force: bool) -> (r: Vec<String>)
    ensures
        force ==> r.deep_view() =~= seq!["push"@, "--force"@, remote@, branch@],
        !force ==> r.deep_view() =~= seq!["push"@, remote@, branch@],
{
    let mut args: Vec<String> = Vec::new();
    args.push(String::from_str("push"));
    if force {
        args.push(String::from_str("--force"));
    }
    args.push(String::from_str(remote));
    args.push(String::from_str(branch));
    args
}

/// The external tool's pull invocation for a strategy.
pub fn pull_system_args(strategy: PullStrategy) -> (r: Vec<String>)
    ensures
        strategy == PullStrategy::Rebase ==> r.deep_view() =~= seq!["pull"@, "--rebase"@],
        strategy == PullStrategy::Merge ==> r.deep_view() =~= seq!["pull"@],
{
    let mut args: Vec<String> = Vec::new();
    args.push(String::from_str("pull"));
    match strategy {
        PullStrategy::Rebase => {
            args.push(String::from_str("--rebase"));
        },
        PullStrategy::Merge => (),
    }
    args
}

/// Parses a pull strategy name; only `merge` and `rebase` exist.
pub fn parse_pull_strategy(s: &str) -> (r: Result<PullStrategy, String>)
    ensures
        s@ == "merge"@ ==> r matches Ok(PullStrategy::Merge),
        s@ == "rebase"@ ==> r matches Ok(PullStrategy::Rebase),
        s@ != "merge"@ && s@ != "rebase"@ ==> r is Err,
{
    proof {
        reveal_strlit("merge");
        reveal_strlit("rebase");
        assert("merge"@.len() == 5);
        assert("rebase"@.len() == 6);
    }
    if str_eq(s, "merge") {
        Ok(PullStrategy::Merge)
    } else if str_eq(s, "rebase") {
        Ok(PullStrategy::Rebase)
    } else {
        Err(String::from_str("invalid pull strategy; supported: merge, rebase"))
    }
}

/// The numeric value of one side of the ahead/behind output, 0 when it
/// is not a clean number in range.
pub open spec fn count_field(s: Seq<char>) -> int {
    if s.len() > 0 && (forall|j: int| 0 <= j < s.len() ==> is_digit(s[j])) && dec_val(s)
        <= u32::MAX {
        dec_val(s)
    } else {
        0
    }
}

/// Parses the external tool's `<ahead>TAB<behind>` counts; anything
/// that is not exactly two fields yields zero counts, and so does a
/// field that is not a clean number.
pub fn parse_ahead_behind(stdout: &str) -> (r: (u32, u32))
    ensures
        ({
            let t = stdout@;
            forall|p: int|
                (0 <= p < t.len() && t[p] == '\t' && (forall|j: int| 0 <= j < p ==> t[j] != '\t')
                    && (forall|j: int| p < j < t.len() ==> t[j] != '\t')) ==> r.0 == count_field(
                    t.subrange(0, p),
                ) && r.1 == count_field(t.subrange(p + 1, t.len() as int))
        }),
        (forall|j: int| 0 <= j < stdout@.len() ==> stdout@[j] != '\t') ==> r == (0u32, 0u32),
{
    let sl = stdout.unicode_len();
    let p = match find_char(stdout, '\t') {
        Some(p) => p,
        None => {
            return (0, 0);
        },
    };
    let left = substring_of(stdout, 0, p);
    let right = substring_of(stdout, p + 1, sl);
    match find_char(right.as_str(), '\t') {
        Some(q) => {
            proof {
                assert(stdout@[p + 1 + q] == right@[q as int]);
            }
            return (0, 0);
        },
        None => (),
    }
    let ahead = match parse_u32(left.as_str()) {
        Some(v) => v,
        None => 0,
    };
    let behind = match parse_u32(right.as_str()) {
        Some(v) => v,
        None => 0,
    };
    proof {
        assert(forall|j: int|
            p < j < stdout@.len() ==> stdout@[j] == right@[j - (p + 1)] && right@[j - (p + 1)]
                != '\t');
    }
    (ahead, behind)
}

/// How a pull run by the external tool ended.
#[derive(Debug, Clone, Copy, PartialEq, Eq, Structural)]
pub enum PullOutcome {
    /// The tool exited cleanly.
    Success,
    /// The tool failed with conflict markers in its diagnostics.
    Conflicts,
    /// The tool failed for another reason.
    Failed,
}

/// Classifies the external tool's pull output: failure with a conflict
/// marker in the diagnostics is the conflict outcome, not an error.
pub fn classify_pull_output(success: bool, stderr: &str) -> (r: PullOutcome)
    ensures
        success ==> r == PullOutcome::Success,
        !success && (contains_seq(stderr@, "CONFLICT"@) || contains_seq(stderr@, "conflict"@))
            ==> r == PullOutcome::Conflicts,
        !success && !contains_seq(stderr@, "CONFLICT"@) && !contains_seq(stderr@, "conflict"@)
            ==> r == PullOutcome::Failed,
{
    if success {
        PullOutcome::Success
    } else if str_contains(stderr, "CONFLICT") || str_contains(stderr, "conflict") {
        PullOutcome::Conflicts
    } else {
        PullOutcome::Failed
    }
}

/// The conflict-file list from the external tool's unmerged-path
/// output: one non-empty trimmed line each.
pub fn parse_conflict_file_list(stdout: &str) -> (r: Vec<String>)
    ensures
        forall|i: int| 0 <= i < r.deep_view().len() ==> (#[trigger] r.deep_view()[i]).len() > 0,
{
    let mut files: Vec<String> = Vec::new();
    let sl = stdout.unicode_len();
    let mut start: usize = 0;
    let mut i: usize = 0;
    while i < sl
        invariant
            start <= i,
            i <= sl,
            sl == stdout@.len(),
            forall|k: int|
                0 <= k < files.deep_view().len() ==> (#[trigger] files.deep_view()[k]).len() > 0,
        decreases sl - i,
    {
        if stdout.get_char(i) == '\n' {
            let line = substring_of(stdout, start, i);
            let trimmed = str_trim(line.as_str());
            if trimmed.as_str().unicode_len() > 0 {
                let ghost before = files.deep_view();
                files.push(trimmed);
                proof {
                    assert(files.deep_view() =~= before.push(trimmed@));
                }
            }
            start = i + 1;
        }
        i = i + 1;
    }
    let line = substring_of(stdout, start, sl);
    let trimmed = str_trim(line.as_str());
    if trimmed.as_str().unicode_len() > 0 {
        let ghost before = files.deep_view();
        files.push(trimmed);
        proof {
            assert(files.deep_view() =~= before.push(trimmed@));
        }
    }
    files
}

/// The conflict result for a pull that the external tool ended with
/// conflicts.
pub fn conflict_sync_result(conflict_files: Vec<String>) -> (r: SyncResult)
    ensures
        sync_result_wf(&r),
        r.has_conflicts && !r.success && r.ahead == 0 && r.behind == 0,
        r.conflict_files == conflict_files,
{
    SyncResult {
        success: false,
        message: String::from_str("the pull found conflicts"),
        has_conflicts: true,
        conflict_files,
        ahead: 0,
        behind: 0,
    }
}

/// The success result for a sync operation the external tool ran, with
/// the counts recomputed afterwards.
pub fn system_sync_success(message: &str, ahead: u32, behind: u32) -> (r: SyncResult)
    ensures
        sync_result_wf(&r),
        r.success && !r.has_conflicts && r.ahead == ahead && r.behind == behind,
        r.message@ == message@,
{
    SyncResult {
        success: true,
        message: String::from_str(message),
        has_conflicts: false,
        conflict_files: Vec::new(),
        ahead,
        behind,
    }
}

/// Classifies the external tool's current-branch output: a clean run
/// with a non-empty trimmed name yields the branch.
pub fn classify_current_branch_output(success: bool, stdout: &str) -> (r: Result<String, GitError>)
    ensures
        !success ==> r is Err,
        r matches Ok(b) ==> success && b@.len() > 0,
{
    if !success {
        return Err(GitError::SystemGitFailed {
            message: String::from_str("cannot read the current branch"),
        });
    }
    let trimmed = str_trim(stdout);
    if trimmed.as_str().unicode_len() == 0 {
        Err(GitError::SystemGitFailed {
            message: String::from_str("the current branch is empty"),
        })
    } else {
        Ok(trimmed)
    }
}

/// The protocol of the repository's remote, as the command layer
/// reports it: `https`, `ssh` or `unknown`; an error when the
/// repository has no readable remote URL.
pub fn detect_repository_protocol(repo_path: &str) -> (r: Result<String, GitError>)
    ensures
        r matches Ok(p) ==> (p@ == "https"@ || p@ == "ssh"@ || p@ == "unknown"@),
        r matches Err(e) ==> (e matches GitError::Git { .. } || e matches GitError::Unknown {
            ..
        }),
{
    let repo = match repo_open(repo_path) {
        Ok(r) => r,
        Err(e) => {
            return Err(map_git_err(&e));
        },
    };
    match get_remote_url_of(&repo) {
        Some(url) => Ok(detect_protocol_from_url(url.as_str())),
        None => Err(GitError::Unknown { message: String::from_str("no remote URL found") }),
    }
}

/// The configured remote names; an empty list is an error, as the
/// command layer reports it.
pub fn detect_repository_remotes(repo_path: &str) -> (r: Result<Vec<String>, GitError>)
    ensures
        r matches Ok(names) ==> names@.len() > 0,
{
    let repo = match repo_open(repo_path) {
        Ok(r) => r,
        Err(e) => {
            return Err(map_git_err(&e));
        },
    };
    let names = match remote_names(&repo) {
        Ok(n) => n,
        Err(e) => {
            return Err(map_git_err(&e));
        },
    };
    if names.len() == 0 {
        Err(GitError::Unknown {
            message: String::from_str("the repository has no configured remotes"),
        })
    } else {
        Ok(names)
    }
}

} // verus!
