//! The clone engine: request validation, the embedded clone with staged
//! progress, submodule handling, result statistics, and the decision
//! and command construction for the external-tool fallback path.

use vstd::prelude::*;
use crate::gitio::{
    builder_clone, builder_set_branch, builder_set_fetch_options, callbacks_accept_all_certificates,
    callbacks_new, callbacks_set_auth_credentials, callbacks_set_transfer_progress, clone_sender,
    fetch_options_with, odb_object_count, oid_to_hex, repo_builder_new, repo_head_info, repo_open,
    repo_submodules, repo_workdir, submodule_clone, submodule_name,
};
use crate::hostio::{dir_entry_count, dir_has_entries, new_operation_id, now_timestamp,
    now_timestamp_millis, path_exists};
use crate::operations::map_git_err;
use crate::progress::{ProgressData, ProgressEmitter};
use crate::text::{concat2, concat3, dec_seq, is_prefix_of, last_path_segment, str_contains,
    str_starts_with, str_trim, u64_to_string, contains_seq};
use crate::types::{
    AuthType, CloneOptions, CloneProgress, CloneResult, CloneStage, CloneStats, GitError,
    RepositoryInfo,
};

verus! {

broadcast use vstd::string::group_string_axioms;

/// A clone URL names one of the supported schemes.
pub open spec fn spec_valid_clone_url(url: Seq<char>) -> bool {
    ||| is_prefix_of("http://"@, url)
    ||| is_prefix_of("https://"@, url)
    ||| is_prefix_of("git@"@, url)
    ||| is_prefix_of("ssh://"@, url)
}

/// A library failure that warrants the external-tool fallback: an SSH
/// host-key negotiation signature in the message, or an SSH-class
/// failure.
pub open spec fn spec_ssh_hostkey_error(e: &GitError) -> bool {
    match e {
        GitError::Git { message, ssh_class } => {
            ||| contains_seq(message@, "hostkey preference"@)
            ||| contains_seq(message@, "The requested method(s) are not currently supported"@)
            ||| *ssh_class
        },
        _ => false,
    }
}

/// The arguments handed to the external tool for a clone (after the
/// program name).
pub open spec fn clone_args_spec(options: &CloneOptions) -> Seq<Seq<char>> {
    seq!["clone"@] + (match options.branch {
        Some(b) => seq!["--branch"@, b@],
        None => Seq::<Seq<char>>::empty(),
    }) + (match options.depth {
        Some(d) => seq!["--depth"@, dec_seq(d as nat)],
        None => Seq::<Seq<char>>::empty(),
    }) + (if options.recursive {
        seq!["--recursive"@]
    } else {
        Seq::<Seq<char>>::empty()
    }) + seq![options.url@, options.directory@]
}

/// The SSH command injected for the external tool when an explicit key
/// is configured: the key path, with interactive host-key prompts
/// replaced by accept-new.
pub open spec fn clone_env_spec(options: &CloneOptions) -> Option<Seq<char>> {
    match options.auth {
        Some(a) => if a.auth_type == AuthType::Ssh {
            match a.ssh_key_path {
                Some(k) => Some("ssh -i \""@ + k@ + "\" -o StrictHostKeyChecking=accept-new"@),
                None => None,
            }
        } else {
            None
        },
        None => None,
    }
}

/// The clone engine; progress records go to the sink it was built with.
pub struct CloneManager {
    pub events: std::sync::mpsc::Sender<CloneProgress>,
}

impl CloneManager {
    pub fn new(events: std::sync::mpsc::Sender<CloneProgress>) -> (r: CloneManager) {
        CloneManager { events }
    }

    /// A fresh emitter for one clone operation, with its own id.
    pub fn new_operation_emitter(&self) -> (r: ProgressEmitter)
        ensures
            r.wf(),
            !r.terminal,
            r.last_percent == 0,
    {
        ProgressEmitter::new(clone_sender(&self.events), new_operation_id())
    }

    /// Validates a clone request: the URL must name a supported scheme
    /// and the destination must be named.
    pub fn validate_clone_options(&self, options: &CloneOptions) -> (r: Result<(), GitError>)
        ensures
            options.url@.len() == 0 ==> r matches Err(GitError::InvalidUrl { .. }),
            options.url@.len() > 0 && !spec_valid_clone_url(options.url@) ==> (r matches Err(
                GitError::InvalidUrl { url },
            ) && url@ == options.url@),
            spec_valid_clone_url(options.url@) && options.directory@.len() == 0 ==> r matches Err(
                GitError::Unknown { .. },
            ),
            spec_valid_clone_url(options.url@) && options.directory@.len() > 0 ==> r matches Ok(
                (),
            ),
            r matches Ok(()) ==> spec_valid_clone_url(options.url@) && options.directory@.len()
                > 0,
    {
        if options.url.as_str().unicode_len() == 0 {
            proof {
                reveal_strlit("http://");
                reveal_strlit("https://");
                reveal_strlit("git@");
                reveal_strlit("ssh://");
            }
            return Err(GitError::InvalidUrl {
                url: String::from_str("the URL must not be empty"),
            });
        }
        if !str_starts_with(options.url.as_str(), "http://") && !str_starts_with(
            options.url.as_str(),
            "https://",
        ) && !str_starts_with(options.url.as_str(), "git@") && !str_starts_with(
            options.url.as_str(),
            "ssh://",
        ) {
            return Err(GitError::InvalidUrl { url: options.url.clone() });
        }
        if options.directory.as_str().unicode_len() == 0 {
            return Err(GitError::Unknown {
                message: String::from_str("the target directory must not be empty"),
            });
        }
        Ok(())
    }

    /// Whether a failure warrants the external-tool fallback.
    pub fn is_ssh_hostkey_error(e: &GitError) -> (r: bool)
        ensures
            r == spec_ssh_hostkey_error(e),
    {
        match e {
            GitError::Git { message, ssh_class } => {
                str_contains(message.as_str(), "hostkey preference") || str_contains(
                    message.as_str(),
                    "The requested method(s) are not currently supported",
                ) || *ssh_class
            },
            _ => false,
        }
    }

    /// Clones with the embedded library: validates, refuses a non-empty
    /// existing destination, runs the transfer with live blended
    /// progress, optionally clones submodules, and gathers statistics.
    /// The records of the whole operation flow through `emitter`; on
    /// success the last of them is `Completed` at 100.
    pub fn clone_with_embedded(&self, options: &CloneOptions, emitter: &mut ProgressEmitter) -> (
        r: Result<CloneResult, GitError>)
        requires
            old(emitter).wf(),
            !old(emitter).terminal,
        ensures
            final(emitter).wf(),
            r matches Ok(c) ==> (c.success && c.error is None && (c.repository_path matches Some(
                p,
            ) && p@ == options.directory@) && c.stats is Some),
            r matches Ok(c) ==> final(emitter).terminal && final(emitter).last_percent == 100,
            r matches Err(GitError::DirectoryExists { path }) ==> path@ == options.directory@,
            options.url@.len() == 0 ==> r matches Err(GitError::InvalidUrl { .. }),
            options.url@.len() > 0 && !spec_valid_clone_url(options.url@) ==> r matches Err(
                GitError::InvalidUrl { .. },
            ),
    {
        let start_ms = now_timestamp_millis();
        match self.validate_clone_options(options) {
            Ok(()) => (),
            Err(e) => {
                return Err(e);
            },
        }
        emitter.emit(
            CloneStage::Initializing,
            0,
            String::from_str("preparing to clone the repository"),
            None,
        );
        if path_exists(options.directory.as_str()) && dir_has_entries(options.directory.as_str()) {
            return Err(GitError::DirectoryExists { path: options.directory.clone() });
        }
        let mut callbacks = callbacks_new();
        match &options.auth {
            Some(auth) => {
                callbacks_set_auth_credentials(&mut callbacks, auth.clone());
            },
            None => (),
        }
        callbacks_accept_all_certificates(&mut callbacks);
        callbacks_set_transfer_progress(
            &mut callbacks,
            ProgressData::new(),
            ProgressEmitter::new_with_floor(clone_sender(&emitter.sink), emitter.id.clone(), 10),
        );
        let fetch_options = fetch_options_with(callbacks);
        let mut builder = repo_builder_new();
        builder_set_fetch_options(&mut builder, fetch_options);
        match &options.branch {
            Some(b) => {
                builder_set_branch(&mut builder, b.as_str());
            },
            None => (),
        }
        // shallow clones are not supported by the embedded library: a
        // requested depth is ignored and the clone is full
        emitter.emit(
            CloneStage::Connecting,
            10,
            String::from_str("connecting to the remote repository"),
            None,
        );
        let repo = match builder_clone(
            &mut builder,
            options.url.as_str(),
            options.directory.as_str(),
        ) {
            Ok(repo) => repo,
            Err(e) => {
                let ge = map_git_err(&e);
                let base = ge.message_text();
                let message = if str_contains(base.as_str(), "hostkey") || str_contains(
                    base.as_str(),
                    "SSH",
                ) {
                    concat2(
                        base.as_str(),
                        "\nSSH hint: check the SSH key configuration or try an HTTPS URL",
                    )
                } else {
                    base
                };
                // the transfer callback shares this operation id and may
                // have reported up to 100 already: clamp the error
                // record above everything emitted so far
                emitter.raise_floor(100);
                emitter.emit(CloneStage::Error, 0, message, None);
                return Err(ge);
            },
        };
        // the transfer callback may have reported up to 100 by now
        emitter.raise_floor(100);
        emitter.emit(
            CloneStage::CheckingOut,
            100,
            String::from_str("checking out files"),
            None,
        );
        if options.recursive {
            match self.clone_submodules(&repo, emitter) {
                Ok(()) => (),
                Err(e) => {
                    return Err(e);
                },
            }
        }
        let repo_info = self.get_repository_info(&repo, options);
        let stats = match self.calculate_stats(&repo, start_ms) {
            Ok(s) => s,
            Err(e) => {
                return Err(e);
            },
        };
        let last_commit_sha = self.get_last_commit_sha(&repo);
        emitter.emit(CloneStage::Completed, 100, String::from_str("clone completed"), None);
        Ok(CloneResult {
            success: true,
            repository_path: Some(options.directory.clone()),
            error: None,
            branch: Some(repo_info.current_branch),
            last_commit_sha,
            stats: Some(stats),
        })
    }

    /// Clones each submodule in turn, naming it in the progress stream.
    fn clone_submodules(&self, repo: &git2::Repository, emitter: &mut ProgressEmitter) -> (r:
        Result<(), GitError>)
        requires
            old(emitter).wf(),
            !old(emitter).terminal,
        ensures
            final(emitter).wf(),
            !final(emitter).terminal,
            r matches Err(e) ==> e matches GitError::Git { .. },
    {
        emitter.emit(
            CloneStage::CheckingOut,
            100,
            String::from_str("processing submodules"),
            None,
        );
        let mut submodules = match repo_submodules(repo) {
            Ok(s) => s,
            Err(e) => {
                return Err(map_git_err(&e));
            },
        };
        let mut i: usize = 0;
        while i < submodules.len()
            invariant
                i <= submodules@.len(),
                emitter.wf(),
                !emitter.terminal,
            decreases submodules@.len() - i,
        {
            let name = match submodule_name(&submodules[i]) {
                Some(n) => n,
                None => String::from_str("unknown"),
            };
            emitter.emit(
                CloneStage::CheckingOut,
                100,
                concat2("cloning submodule: ", name.as_str()),
                None,
            );
            let sub = &mut submodules[i];
            match submodule_clone(sub) {
                Ok(()) => (),
                Err(e) => {
                    return Err(map_git_err(&e));
                },
            }
            i = i + 1;
        }
        Ok(())
    }

    /// Summary facts about the repository just cloned; the name is the
    /// destination's last path segment.
    fn get_repository_info(&self, repo: &git2::Repository, options: &CloneOptions) -> (r:
        RepositoryInfo) {
        let branch_name = match repo_head_info(repo) {
            Ok((Some(n), _)) => n,
            _ => String::from_str("main"),
        };
        let segment = last_path_segment(options.directory.as_str());
        let name = if segment.as_str().unicode_len() == 0 {
            String::from_str("repository")
        } else {
            segment
        };
        let now = now_timestamp();
        RepositoryInfo {
            id: new_operation_id(),
            name,
            path: options.directory.clone(),
            remote_url: Some(options.url.clone()),
            current_branch: branch_name,
            created_at: now,
            updated_at: now,
        }
    }

    /// The head commit's hex id, where the repository has one.
    fn get_last_commit_sha(&self, repo: &git2::Repository) -> (r: Option<String>) {
        match repo_head_info(repo) {
            Ok((_, Some(oid))) => Some(oid_to_hex(&oid)),
            _ => None,
        }
    }

    /// Clone statistics: elapsed time, the object count of the object
    /// database, and the entry count of the working directory.
    fn calculate_stats(&self, repo: &git2::Repository, start_ms: i64) -> (r: Result<
        CloneStats,
        GitError,
    >)
        ensures
            r matches Err(e) ==> (e matches GitError::Git { .. } || e matches GitError::Unknown {
                ..
            }),
    {
        let object_count = match odb_object_count(repo) {
            Ok(c) => c,
            Err(e) => {
                return Err(map_git_err(&e));
            },
        };
        let workdir = match repo_workdir(repo) {
            Some(w) => w,
            None => {
                return Err(GitError::Unknown {
                    message: String::from_str("cannot resolve the working directory"),
                });
            },
        };
        let file_count = dir_entry_count(workdir.as_str());
        let end_ms = now_timestamp_millis();
        let diff: i128 = (end_ms as i128) - (start_ms as i128);
        let duration_ms: u64 = if diff <= 0 {
            0
        } else if diff > u64::MAX as i128 {
            u64::MAX
        } else {
            diff as u64
        };
        Ok(CloneStats { duration_ms, downloaded_bytes: 0, object_count, file_count })
    }

    /// The external tool's clone invocation for this request: the
    /// argument list after the program name, and the injected SSH
    /// command when an explicit key is configured.
    pub fn system_git_clone_command(options: &CloneOptions) -> (r: (Vec<String>, Option<String>))
        ensures
            r.0.deep_view() == clone_args_spec(options),
            match (r.1, clone_env_spec(options)) {
                (Some(e), Some(s)) => e@ == s,
                (None, None) => true,
                _ => false,
            },
    {
        let mut args: Vec<String> = Vec::new();
        args.push(String::from_str("clone"));
        match &options.branch {
            Some(b) => {
                args.push(String::from_str("--branch"));
                args.push(b.clone());
            },
            None => (),
        }
        match options.depth {
            Some(d) => {
                args.push(String::from_str("--depth"));
                args.push(u64_to_string(d as u64));
            },
            None => (),
        }
        if options.recursive {
            args.push(String::from_str("--recursive"));
        }
        args.push(options.url.clone());
        args.push(options.directory.clone());
        proof {
            assert(args.deep_view() =~= clone_args_spec(options));
        }
        let env: Option<String> = match &options.auth {
            Some(a) => {
                if matches!(a.auth_type, AuthType::Ssh) {
                    match &a.ssh_key_path {
                        Some(k) => Some(
                            concat3(
                                "ssh -i \"",
                                k.as_str(),
                                "\" -o StrictHostKeyChecking=accept-new",
                            ),
                        ),
                        None => None,
                    }
                } else {
                    None
                }
            },
            None => None,
        };
        (args, env)
    }

    /// Classifies the external tool's clone outcome: a failing exit is
    /// the tool's error with its diagnostic text.
    pub fn classify_system_clone_output(success: bool, stderr: &str) -> (r: Result<(), GitError>)
        ensures
            success ==> r matches Ok(()),
            !success ==> (r matches Err(GitError::SystemGitFailed { message }) && message@
                == stderr@),
    {
        if success {
            Ok(())
        } else {
            Err(GitError::SystemGitFailed { message: String::from_str(stderr) })
        }
    }

    /// Classifies the external tool's version probe: a failing run
    /// means the tool is missing; a successful one yields the trimmed
    /// version text.
    pub fn classify_system_git_version(success: bool, stdout: &str) -> (r: Result<
        String,
        GitError,
    >)
        ensures
            !success ==> r matches Err(GitError::SystemGitNotFound),
            success ==> r is Ok,
    {
        if success {
            Ok(str_trim(stdout))
        } else {
            Err(GitError::SystemGitNotFound)
        }
    }

    /// Opens the external-tool fallback for a clone: emits the opening
    /// records of the fresh operation and hands back the tool's
    /// invocation (the argument list and the injected SSH command).
    pub fn start_system_git_clone(options: &CloneOptions, emitter: &mut ProgressEmitter) -> (r: (
        Vec<String>,
        Option<String>,
    ))
        requires
            old(emitter).wf(),
            !old(emitter).terminal,
        ensures
            final(emitter).wf(),
            !final(emitter).terminal,
            r.0.deep_view() == clone_args_spec(options),
            match (r.1, clone_env_spec(options)) {
                (Some(e), Some(sp)) => e@ == sp,
                (None, None) => true,
                _ => false,
            },
    {
        emitter.emit(
            CloneStage::Initializing,
            0,
            String::from_str("cloning with the system git tool"),
            None,
        );
        emitter.emit(
            CloneStage::Connecting,
            20,
            String::from_str("connecting to the remote repository"),
            None,
        );
        Self::system_git_clone_command(options)
    }

    /// Closes the external-tool fallback: classifies the tool's
    /// outcome, gathers the same summary and statistics as the
    /// embedded path, and ends the operation's record stream — with
    /// `Completed` at 100 exactly when the clone succeeded.
    pub fn complete_system_git_clone(
        &self,
        options: &CloneOptions,
        emitter: &mut ProgressEmitter,
        start_ms: i64,
        success: bool,
        stderr: &str,
    ) -> (r: Result<CloneResult, GitError>)
        requires
            old(emitter).wf(),
            !old(emitter).terminal,
        ensures
            final(emitter).wf(),
            !success ==> (r matches Err(GitError::SystemGitFailed { message }) && message@
                == stderr@),
            r matches Ok(c) ==> (c.success && c.error is None && (c.repository_path matches Some(
                p,
            ) && p@ == options.directory@) && c.stats is Some),
            r matches Ok(c) ==> final(emitter).terminal && final(emitter).last_percent == 100,
    {
        match Self::classify_system_clone_output(success, stderr) {
            Ok(()) => (),
            Err(e) => {
                emitter.emit(CloneStage::Error, 0, e.message_text(), None);
                return Err(e);
            },
        }
        let repo = match repo_open(options.directory.as_str()) {
            Ok(r) => r,
            Err(e) => {
                let ge = map_git_err(&e);
                emitter.emit(CloneStage::Error, 0, ge.message_text(), None);
                return Err(ge);
            },
        };
        let repo_info = self.get_repository_info(&repo, options);
        let stats = match self.calculate_stats(&repo, start_ms) {
            Ok(st) => st,
            Err(e) => {
                emitter.emit(CloneStage::Error, 0, e.message_text(), None);
                return Err(e);
            },
        };
        let last_commit_sha = self.get_last_commit_sha(&repo);
        emitter.emit(CloneStage::Completed, 100, String::from_str("clone completed"), None);
        Ok(CloneResult {
            success: true,
            repository_path: Some(options.directory.clone()),
            error: None,
            branch: Some(repo_info.current_branch),
            last_commit_sha,
            stats: Some(stats),
        })
    }
}

} // verus!
