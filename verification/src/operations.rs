//! Repository operations: status and diff, staging, commits and
//! history, and the sync engine (fetch / pull / push with fast-forward,
//! three-way merge and rebase).

use vstd::prelude::*;
use crate::gitio::{
    branch_upstream_name_str, callbacks_accept_all_certificates, callbacks_new,
    callbacks_set_token_credentials, checkout_head_force, commit_parent_ids,
    commit_history_fields, commit_summary_text, commit_tree, diff_index_to_workdir_for_path,
    diff_patch_lines, diff_tree_to_index_for_path, error_class_is_ssh, error_message,
    fetch_options_with, find_remote, find_tree, find_annotated, graph_ahead_behind,
    head_peel_to_tree, index_add_entry, index_add_path, index_has_conflicts,
    index_conflict_paths, index_remove_path, index_write, index_write_tree,
    index_write_tree_to, merge_base, merge_analysis_for, merge_trees_index, oid_eq,
    oid_to_hex, push_options_with, rebase_abort, rebase_commit_step, rebase_finish,
    rebase_init, rebase_next_step, refname_to_id, remote_fetch, remote_fetch_refspecs,
    remote_names, remote_push, repo_commit, repo_head_info, repo_index,
    repo_open, revwalk_head_time_sorted, revwalk_next, signature_default,
    signature_name_email, signature_now, reference_set_target, tree_entry_mode_id,
    read_status_entries,
};
use crate::hostio::path_exists;
use crate::text::{concat2, concat3, is_prefix_of, str_starts_with, find_char, substring_of};
use crate::types::{
    CommitHistoryItem, CommitOptions, FileStatus, GitError, PullStrategy, RemoteBranchInfo,
    RepositoryStatus, SyncResult, repository_status_wf, sync_result_wf,
};

verus! {

broadcast use vstd::string::group_string_axioms;

/// Maps a failure of the embedded library into the engine's taxonomy,
/// keeping the message and whether it was an SSH-class failure.
pub fn map_git_err(e: &git2::Error) -> (r: GitError)
    ensures
        r matches GitError::Git { .. },
{
    GitError::Git { message: error_message(e), ssh_class: error_class_is_ssh(e) }
}

/// Clamps a machine-size count into a `u32` counter.
pub fn usize_to_u32_sat(x: usize) -> (r: u32)
    ensures
        r as nat == if x as nat <= u32::MAX as nat {
            x as nat
        } else {
            u32::MAX as nat
        },
{
    if x <= u32::MAX as usize {
        x as u32
    } else {
        u32::MAX
    }
}

// ---- status classification (status bits of the embedded library) ----

pub const INDEX_NEW: u32 = 1;

pub const INDEX_MODIFIED: u32 = 2;

pub const INDEX_DELETED: u32 = 4;

pub const INDEX_RENAMED: u32 = 8;

pub const INDEX_TYPECHANGE: u32 = 16;

pub const WT_NEW: u32 = 128;

pub const WT_MODIFIED: u32 = 256;

pub const WT_DELETED: u32 = 512;

pub const WT_TYPECHANGE: u32 = 1024;

pub const WT_RENAMED: u32 = 2048;

/// The entry has changes recorded in the index (staged).
pub open spec fn spec_is_staged(status: u32) -> bool {
    status & INDEX_NEW != 0 || status & INDEX_MODIFIED != 0 || status & INDEX_DELETED != 0
        || status & INDEX_RENAMED != 0 || status & INDEX_TYPECHANGE != 0
}

pub fn is_staged(status: u32) -> (r: bool)
    ensures
        r == spec_is_staged(status),
{
    status & INDEX_NEW != 0 || status & INDEX_MODIFIED != 0 || status & INDEX_DELETED != 0
        || status & INDEX_RENAMED != 0 || status & INDEX_TYPECHANGE != 0
}

/// The entry has changes in the working tree that are not staged.
pub open spec fn spec_has_unstaged_changes(status: u32) -> bool {
    status & WT_NEW != 0 || status & WT_MODIFIED != 0 || status & WT_DELETED != 0 || status
        & WT_RENAMED != 0 || status & WT_TYPECHANGE != 0
}

pub fn has_unstaged_changes(status: u32) -> (r: bool)
    ensures
        r == spec_has_unstaged_changes(status),
{
    status & WT_NEW != 0 || status & WT_MODIFIED != 0 || status & WT_DELETED != 0 || status
        & WT_RENAMED != 0 || status & WT_TYPECHANGE != 0
}

/// The display class of a staged change, by priority: added, modified,
/// deleted, renamed; anything else counts as modified.
pub open spec fn spec_staged_class(status: u32) -> Seq<char> {
    if status & INDEX_NEW != 0 {
        "added"@
    } else if status & INDEX_MODIFIED != 0 {
        "modified"@
    } else if status & INDEX_DELETED != 0 {
        "deleted"@
    } else if status & INDEX_RENAMED != 0 {
        "renamed"@
    } else {
        "modified"@
    }
}

pub fn convert_git_status_staged(status: u32) -> (r: String)
    ensures
        r@ == spec_staged_class(status),
{
    if status & INDEX_NEW != 0 {
        String::from_str("added")
    } else if status & INDEX_MODIFIED != 0 {
        String::from_str("modified")
    } else if status & INDEX_DELETED != 0 {
        String::from_str("deleted")
    } else if status & INDEX_RENAMED != 0 {
        String::from_str("renamed")
    } else {
        String::from_str("modified")
    }
}

/// The display class of an unstaged change, by the same priority over
/// the working-tree bits.
pub open spec fn spec_unstaged_class(status: u32) -> Seq<char> {
    if status & WT_NEW != 0 {
        "added"@
    } else if status & WT_MODIFIED != 0 {
        "modified"@
    } else if status & WT_DELETED != 0 {
        "deleted"@
    } else if status & WT_RENAMED != 0 {
        "renamed"@
    } else {
        "modified"@
    }
}

pub fn convert_git_status_unstaged(status: u32) -> (r: String)
    ensures
        r@ == spec_unstaged_class(status),
{
    if status & WT_NEW != 0 {
        String::from_str("added")
    } else if status & WT_MODIFIED != 0 {
        String::from_str("modified")
    } else if status & WT_DELETED != 0 {
        String::from_str("deleted")
    } else if status & WT_RENAMED != 0 {
        String::from_str("renamed")
    } else {
        String::from_str("modified")
    }
}

// ---- diff line accounting ----

/// How many printed diff lines in the prefix carry this origin marker.
pub open spec fn count_origin(lines: Seq<(char, String)>, c: char) -> nat
    decreases lines.len(),
{
    if lines.len() == 0 {
        0
    } else {
        count_origin(lines.drop_last(), c) + if lines.last().0 == c {
            1nat
        } else {
            0nat
        }
    }
}

/// Counts added and removed lines among printed diff lines, saturating
/// at the counter width.
pub fn count_diff_lines(lines: &Vec<(char, String)>) -> (r: (u32, u32))
    ensures
        r.0 as nat == if count_origin(lines@, '+') <= u32::MAX as nat {
            count_origin(lines@, '+')
        } else {
            u32::MAX as nat
        },
        r.1 as nat == if count_origin(lines@, '-') <= u32::MAX as nat {
            count_origin(lines@, '-')
        } else {
            u32::MAX as nat
        },
{
    let mut additions: u32 = 0;
    let mut deletions: u32 = 0;
    let mut i: usize = 0;
    while i < lines.len()
        invariant
            i <= lines@.len(),
            additions as nat == if count_origin(lines@.subrange(0, i as int), '+') <= u32::MAX
                as nat {
                count_origin(lines@.subrange(0, i as int), '+')
            } else {
                u32::MAX as nat
            },
            deletions as nat == if count_origin(lines@.subrange(0, i as int), '-') <= u32::MAX
                as nat {
                count_origin(lines@.subrange(0, i as int), '-')
            } else {
                u32::MAX as nat
            },
        decreases lines@.len() - i,
    {
        proof {
            assert(lines@.subrange(0, i + 1).drop_last() =~= lines@.subrange(0, i as int));
            assert(lines@.subrange(0, i + 1).last() == lines@[i as int]);
        }
        let c = lines[i].0;
        if c == '+' {
            if additions < u32::MAX {
                additions = additions + 1;
            }
        } else if c == '-' {
            if deletions < u32::MAX {
                deletions = deletions + 1;
            }
        }
        i = i + 1;
    }
    proof {
        assert(lines@.subrange(0, lines@.len() as int) =~= lines@);
    }
    (additions, deletions)
}

/// The patch text kept from printed diff lines: only added, removed and
/// context lines, each as its origin marker followed by its content.
pub open spec fn patch_text_spec(lines: Seq<(char, String)>) -> Seq<char>
    decreases lines.len(),
{
    if lines.len() == 0 {
        Seq::<char>::empty()
    } else {
        patch_text_spec(lines.drop_last()) + patch_line_text(lines.last())
    }
}

pub open spec fn patch_line_text(line: (char, String)) -> Seq<char> {
    if line.0 == '+' || line.0 == '-' || line.0 == ' ' {
        seq![line.0] + line.1@
    } else {
        Seq::<char>::empty()
    }
}

/// Assembles the patch text from printed diff lines.
pub fn assemble_patch_text(lines: &Vec<(char, String)>) -> (r: String)
    ensures
        r@ == patch_text_spec(lines@),
{
    let mut out = String::new();
    let mut i: usize = 0;
    while i < lines.len()
        invariant
            i <= lines@.len(),
            out@ == patch_text_spec(lines@.subrange(0, i as int)),
        decreases lines@.len() - i,
    {
        proof {
            assert(lines@.subrange(0, i + 1).drop_last() =~= lines@.subrange(0, i as int));
            assert(lines@.subrange(0, i + 1).last() == lines@[i as int]);
        }
        let c = lines[i].0;
        if c == '+' {
            proof {
                reveal_strlit("+");
            }
            out.append("+");
            out.append(lines[i].1.as_str());
            proof {
                assert(out@ =~= patch_text_spec(lines@.subrange(0, i + 1)));
            }
        } else if c == '-' {
            proof {
                reveal_strlit("-");
            }
            out.append("-");
            out.append(lines[i].1.as_str());
            proof {
                assert(out@ =~= patch_text_spec(lines@.subrange(0, i + 1)));
            }
        } else if c == ' ' {
            proof {
                reveal_strlit(" ");
            }
            out.append(" ");
            out.append(lines[i].1.as_str());
            proof {
                assert(out@ =~= patch_text_spec(lines@.subrange(0, i + 1)));
            }
        } else {
            proof {
                assert(out@ =~= patch_text_spec(lines@.subrange(0, i + 1)));
            }
        }
        i = i + 1;
    }
    proof {
        assert(lines@.subrange(0, lines@.len() as int) =~= lines@);
    }
    out
}

/// Line-level addition and deletion counts for one file, staged
/// (index against `HEAD`) or unstaged (working tree against index).
/// A repository without a head yields zero counts for the staged side;
/// only a library failure is an error.
pub fn calculate_file_stats(
    repo: &git2::Repository,
    file_path: &String,
    staged: bool,
) -> (r: Result<(u32, u32), GitError>)
    ensures
        r matches Err(e) ==> e matches GitError::Git { .. },
{
    let lines = if staged {
        let head_tree = match head_peel_to_tree(repo) {
            Ok(t) => t,
            Err(_) => {
                return Ok((0, 0));
            },
        };
        let index = match repo_index(repo) {
            Ok(i) => i,
            Err(e) => {
                return Err(map_git_err(&e));
            },
        };
        let diff = match diff_tree_to_index_for_path(repo, &head_tree, &index, Some(file_path)) {
            Ok(d) => d,
            Err(e) => {
                return Err(map_git_err(&e));
            },
        };
        match diff_patch_lines(&diff) {
            Ok(l) => l,
            Err(e) => {
                return Err(map_git_err(&e));
            },
        }
    } else {
        let diff = match diff_index_to_workdir_for_path(repo, Some(file_path)) {
            Ok(d) => d,
            Err(e) => {
                return Err(map_git_err(&e));
            },
        };
        match diff_patch_lines(&diff) {
            Ok(l) => l,
            Err(e) => {
                return Err(map_git_err(&e));
            },
        }
    };
    Ok(count_diff_lines(&lines))
}

/// The current branch's short name: `HEAD` for a detached head, `main`
/// when the repository has no head yet.
pub fn get_current_branch(repo: &git2::Repository) -> (r: String) {
    match repo_head_info(repo) {
        Ok((Some(name), _)) => name,
        Ok((None, _)) => String::from_str("HEAD"),
        Err(_) => String::from_str("main"),
    }
}

/// Ahead/behind of the current branch against its upstream; a missing
/// head, branch name or upstream yields `(0, 0)`.
pub fn get_ahead_behind_count(repo: &git2::Repository) -> (r: Result<(u32, u32), GitError>)
    ensures
        r matches Err(e) ==> (e matches GitError::Git { .. } || e matches GitError::Unknown {
            ..
        }),
{
    let (name, target) = match repo_head_info(repo) {
        Ok(info) => info,
        Err(_) => {
            return Ok((0, 0));
        },
    };
    let branch_name = match name {
        Some(n) => n,
        None => {
            return Ok((0, 0));
        },
    };
    let refname = concat2("refs/heads/", branch_name.as_str());
    let upstream_name = match branch_upstream_name_str(repo, refname.as_str()) {
        Ok(Some(n)) => n,
        Ok(None) => {
            return Ok((0, 0));
        },
        Err(_) => {
            return Ok((0, 0));
        },
    };
    let local_oid = match target {
        Some(o) => o,
        None => {
            return Err(GitError::Unknown {
                message: String::from_str("cannot resolve the local branch id"),
            });
        },
    };
    let upstream_oid = match refname_to_id(repo, upstream_name.as_str()) {
        Ok(o) => o,
        Err(_) => {
            return Err(GitError::Unknown {
                message: String::from_str("cannot find the remote tracking branch"),
            });
        },
    };
    match graph_ahead_behind(repo, local_oid, upstream_oid) {
        Ok((a, b)) => Ok((usize_to_u32_sat(a), usize_to_u32_sat(b))),
        Err(e) => Err(map_git_err(&e)),
    }
}

/// A file record carries one of the four display classes.
pub open spec fn file_class_ok(f: &FileStatus) -> bool {
    ||| f.status@ == "added"@
    ||| f.status@ == "modified"@
    ||| f.status@ == "deleted"@
    ||| f.status@ == "renamed"@
}

/// The working-tree / index status of the repository at `repo_path`: a
/// record per staged change and one per unstaged change (so a path can
/// appear twice), untracked files included, ignored files excluded.
pub fn get_repository_status(repo_path: &str) -> (r: Result<RepositoryStatus, GitError>)
    ensures
        r matches Ok(s) ==> repository_status_wf(&s),
        r matches Err(e) ==> (e matches GitError::Git { .. } || e matches GitError::Unknown {
            ..
        }),
        r matches Ok(s) ==> forall|i: int|
            0 <= i < s.files@.len() ==> file_class_ok(#[trigger] &s.files@[i]),
{
    let repo = match repo_open(repo_path) {
        Ok(r) => r,
        Err(e) => {
            return Err(map_git_err(&e));
        },
    };
    let entries = match read_status_entries(&repo, true, false) {
        Ok(e) => e,
        Err(e) => {
            return Err(map_git_err(&e));
        },
    };
    let mut files: Vec<FileStatus> = Vec::new();
    let mut i: usize = 0;
    while i < entries.len()
        invariant
            i <= entries@.len(),
            forall|k: int| 0 <= k < files@.len() ==> file_class_ok(#[trigger] &files@[k]),
        decreases entries@.len() - i,
    {
        let path = entries[i].0.clone();
        let status_bits = entries[i].1;
        if is_staged(status_bits) {
            let (additions, deletions) = match calculate_file_stats(&repo, &path, true) {
                Ok(s) => s,
                Err(e) => {
                    return Err(e);
                },
            };
            files.push(FileStatus {
                path: path.clone(),
                status: convert_git_status_staged(status_bits),
                staged: true,
                additions,
                deletions,
            });
        }
        if has_unstaged_changes(status_bits) {
            let (additions, deletions) = match calculate_file_stats(&repo, &path, false) {
                Ok(s) => s,
                Err(e) => {
                    return Err(e);
                },
            };
            files.push(FileStatus {
                path,
                status: convert_git_status_unstaged(status_bits),
                staged: false,
                additions,
                deletions,
            });
        }
        i = i + 1;
    }
    let current_branch = get_current_branch(&repo);
    let (ahead, behind) = match get_ahead_behind_count(&repo) {
        Ok(c) => c,
        Err(e) => {
            return Err(e);
        },
    };
    let is_clean = files.len() == 0;
    Ok(RepositoryStatus { current_branch, files, ahead, behind, is_clean })
}

/// Stages each path: files present on disk are added to the index,
/// missing ones are removed from it; only a library failure is an
/// error.
pub fn stage_files(repo_path: &str, file_paths: &Vec<String>) -> (r: Result<(), GitError>)
    ensures
        r matches Err(e) ==> e matches GitError::Git { .. },
{
    let repo = match repo_open(repo_path) {
        Ok(r) => r,
        Err(e) => {
            return Err(map_git_err(&e));
        },
    };
    let mut index = match repo_index(&repo) {
        Ok(i) => i,
        Err(e) => {
            return Err(map_git_err(&e));
        },
    };
    let mut i: usize = 0;
    while i < file_paths.len()
        invariant
            i <= file_paths@.len(),
        decreases file_paths@.len() - i,
    {
        let full_path = concat3(repo_path, "/", file_paths[i].as_str());
        if path_exists(full_path.as_str()) {
            match index_add_path(&mut index, file_paths[i].as_str()) {
                Ok(()) => (),
                Err(e) => {
                    return Err(map_git_err(&e));
                },
            }
        } else {
            match index_remove_path(&mut index, file_paths[i].as_str()) {
                Ok(()) => (),
                Err(e) => {
                    return Err(map_git_err(&e));
                },
            }
        }
        i = i + 1;
    }
    match index_write(&mut index) {
        Ok(()) => Ok(()),
        Err(e) => Err(map_git_err(&e)),
    }
}

/// Unstages each path by restoring the index entry from `HEAD`'s tree,
/// or removing it from the index when `HEAD` does not hold the path;
/// only a library failure is an error.
pub fn unstage_files(repo_path: &str, file_paths: &Vec<String>) -> (r: Result<(), GitError>)
    ensures
        r matches Err(e) ==> e matches GitError::Git { .. },
{
    let repo = match repo_open(repo_path) {
        Ok(r) => r,
        Err(e) => {
            return Err(map_git_err(&e));
        },
    };
    let head_tree = match head_peel_to_tree(&repo) {
        Ok(t) => t,
        Err(e) => {
            return Err(map_git_err(&e));
        },
    };
    let mut index = match repo_index(&repo) {
        Ok(i) => i,
        Err(e) => {
            return Err(map_git_err(&e));
        },
    };
    let mut i: usize = 0;
    while i < file_paths.len()
        invariant
            i <= file_paths@.len(),
        decreases file_paths@.len() - i,
    {
        match tree_entry_mode_id(&head_tree, file_paths[i].as_str()) {
            Some((mode, id)) => {
                match index_add_entry(&mut index, file_paths[i].as_str(), mode, id) {
                    Ok(()) => (),
                    Err(e) => {
                        return Err(map_git_err(&e));
                    },
                }
            },
            None => {
                // the path is not in HEAD: drop it from the index
                let _ = index_remove_path(&mut index, file_paths[i].as_str());
            },
        }
        i = i + 1;
    }
    match index_write(&mut index) {
        Ok(()) => Ok(()),
        Err(e) => Err(map_git_err(&e)),
    }
}

/// The full commit message: the subject, then a blank-line-separated
/// description when one is given, then a sign-off trailer when asked.
pub open spec fn commit_message_spec(
    message: Seq<char>,
    description: Option<Seq<char>>,
    signoff: bool,
    name: Seq<char>,
    email: Seq<char>,
) -> Seq<char> {
    let base = match description {
        Some(d) => if d.len() > 0 {
            message + "\n\n"@ + d
        } else {
            message
        },
        None => message,
    };
    if signoff {
        base + "\n\nSigned-off-by: "@ + name + " <"@ + email + ">"@
    } else {
        base
    }
}

/// Builds the full commit message.
pub fn build_commit_message(
    message: &str,
    description: &Option<String>,
    signoff: bool,
    name: &str,
    email: &str,
) -> (r: String)
    ensures
        r@ == commit_message_spec(
            message@,
            crate::auth::opt_view(description),
            signoff,
            name@,
            email@,
        ),
{
    let mut out = String::from_str(message);
    match description {
        Some(d) => {
            if d.as_str().unicode_len() > 0 {
                out.append("\n\n");
                out.append(d.as_str());
            }
        },
        None => (),
    }
    if signoff {
        out.append("\n\nSigned-off-by: ");
        out.append(name);
        out.append(" <");
        out.append(email);
        out.append(">");
    }
    out
}

/// Creates a commit from the index: the configured or given author,
/// the assembled message, and — for an amend — the parents of the
/// current head in place of the head itself.  Returns the new commit's
/// forty-character hex id.
pub fn create_commit(repo_path: &str, options: &CommitOptions) -> (r: Result<String, GitError>)
    ensures
        r matches Ok(sha) ==> sha@.len() == 40,
        r matches Err(e) ==> (e matches GitError::Git { .. } || e matches GitError::Unknown {
            ..
        }),
{
    let repo = match repo_open(repo_path) {
        Ok(r) => r,
        Err(e) => {
            return Err(map_git_err(&e));
        },
    };
    let signature = match (&options.author_name, &options.author_email) {
        (Some(name), Some(email)) => match signature_now(name.as_str(), email.as_str()) {
            Ok(s) => s,
            Err(e) => {
                return Err(map_git_err(&e));
            },
        },
        _ => match signature_default(&repo) {
            Ok(s) => s,
            Err(e) => {
                return Err(map_git_err(&e));
            },
        },
    };
    let mut index = match repo_index(&repo) {
        Ok(i) => i,
        Err(e) => {
            return Err(map_git_err(&e));
        },
    };
    let tree_id = match index_write_tree(&mut index) {
        Ok(t) => t,
        Err(e) => {
            return Err(map_git_err(&e));
        },
    };
    let tree = match find_tree(&repo, tree_id) {
        Ok(t) => t,
        Err(e) => {
            return Err(map_git_err(&e));
        },
    };
    let (sig_name, sig_email) = signature_name_email(&signature);
    let message = build_commit_message(
        options.message.as_str(),
        &options.description,
        options.signoff,
        sig_name.as_str(),
        sig_email.as_str(),
    );
    let parents: Vec<git2::Oid> = if options.amend {
        let head_oid = match repo_head_info(&repo) {
            Ok((_, Some(o))) => o,
            Ok((_, None)) => {
                return Err(GitError::Unknown {
                    message: String::from_str("cannot resolve HEAD for amend"),
                });
            },
            Err(e) => {
                return Err(map_git_err(&e));
            },
        };
        match commit_parent_ids(&repo, head_oid) {
            Ok(p) => p,
            Err(e) => {
                return Err(map_git_err(&e));
            },
        }
    } else {
        match repo_head_info(&repo) {
            Ok((_, Some(o))) => {
                let mut v: Vec<git2::Oid> = Vec::new();
                v.push(o);
                v
            },
            Ok((_, None)) => Vec::new(),
            Err(_) => Vec::new(),
        }
    };
    match repo_commit(&repo, Some("HEAD"), &signature, message.as_str(), &tree, &parents) {
        Ok(oid) => Ok(oid_to_hex(&oid)),
        Err(e) => Err(map_git_err(&e)),
    }
}

/// The commit history reachable from `HEAD`, newest first by commit
/// time, skipping `skip` commits and returning at most `limit`.
pub fn get_commit_history(repo_path: &str, limit: usize, skip: usize) -> (r: Result<
    Vec<CommitHistoryItem>,
    GitError,
>)
    ensures
        r matches Ok(commits) ==> commits@.len() <= limit,
        r matches Err(e) ==> e matches GitError::Git { .. },
{
    let repo = match repo_open(repo_path) {
        Ok(r) => r,
        Err(e) => {
            return Err(map_git_err(&e));
        },
    };
    let mut walk = match revwalk_head_time_sorted(&repo) {
        Ok(w) => w,
        Err(e) => {
            return Err(map_git_err(&e));
        },
    };
    let mut commits: Vec<CommitHistoryItem> = Vec::new();
    let mut seen: usize = 0;
    let mut fuel: u64 = u64::MAX;
    while fuel > 0
        invariant
            commits@.len() <= limit,
        decreases fuel,
    {
        fuel = fuel - 1;
        if commits.len() >= limit {
            break;
        }
        let oid = match revwalk_next(&mut walk) {
            None => {
                break;
            },
            Some(Ok(o)) => o,
            Some(Err(e)) => {
                return Err(map_git_err(&e));
            },
        };
        if seen < skip {
            if seen < usize::MAX {
                seen = seen + 1;
            }
        } else {
            if commits.len() < limit {
                let item = match commit_history_fields(&repo, oid) {
                    Ok(i) => i,
                    Err(e) => {
                        return Err(map_git_err(&e));
                    },
                };
                commits.push(item);
            }
        }
    }
    Ok(commits)
}

/// The patch text for one file: the staged diff (index against `HEAD`)
/// or the unstaged diff (working tree against index); only a library
/// failure is an error.
pub fn get_file_diff(repo_path: &str, file_path: &String, staged: bool) -> (r: Result<
    String,
    GitError,
>)
    ensures
        r matches Err(e) ==> e matches GitError::Git { .. },
{
    let repo = match repo_open(repo_path) {
        Ok(r) => r,
        Err(e) => {
            return Err(map_git_err(&e));
        },
    };
    let lines = if staged {
        let head_tree = match head_peel_to_tree(&repo) {
            Ok(t) => t,
            Err(e) => {
                return Err(map_git_err(&e));
            },
        };
        let index = match repo_index(&repo) {
            Ok(i) => i,
            Err(e) => {
                return Err(map_git_err(&e));
            },
        };
        let diff = match diff_tree_to_index_for_path(&repo, &head_tree, &index, Some(file_path)) {
            Ok(d) => d,
            Err(e) => {
                return Err(map_git_err(&e));
            },
        };
        match diff_patch_lines(&diff) {
            Ok(l) => l,
            Err(e) => {
                return Err(map_git_err(&e));
            },
        }
    } else {
        let diff = match diff_index_to_workdir_for_path(&repo, Some(file_path)) {
            Ok(d) => d,
            Err(e) => {
                return Err(map_git_err(&e));
            },
        };
        match diff_patch_lines(&diff) {
            Ok(l) => l,
            Err(e) => {
                return Err(map_git_err(&e));
            },
        }
    };
    Ok(assemble_patch_text(&lines))
}

// ---- default remote detection ----

/// A name occurs in the remote list.
pub open spec fn remotes_contain(remotes: Seq<String>, name: Seq<char>) -> bool {
    exists|i: int| 0 <= i < remotes.len() && remotes[i]@ == name
}

/// Whether the list holds this name.
pub fn vec_contains_str(v: &Vec<String>, s: &str) -> (r: bool)
    ensures
        r == remotes_contain(v@, s@),
{
    let mut i: usize = 0;
    while i < v.len()
        invariant
            i <= v@.len(),
            forall|j: int| 0 <= j < i ==> v@[j]@ != s@,
        decreases v@.len() - i,
    {
        if crate::text::str_eq(v[i].as_str(), s) {
            assert(v@[i as int]@ == s@);
            return true;
        }
        i = i + 1;
    }
    false
}

/// The remote a branch's upstream reference belongs to: for
/// `refs/remotes/<remote>/<branch>`, the text between the prefix and
/// the next separator.
pub fn parse_remote_from_upstream(upstream: &str) -> (r: Option<String>)
    ensures
        r matches Some(n) ==> (is_prefix_of("refs/remotes/"@, upstream@) && {
            let rest = upstream@.subrange("refs/remotes/"@.len() as int, upstream@.len() as int);
            exists|p: int|
                0 <= p < rest.len() && rest[p] == '/' && n@ == rest.subrange(0, p)
        }),
        r is None ==> (!is_prefix_of("refs/remotes/"@, upstream@) || (forall|j: int|
            "refs/remotes/"@.len() <= j < upstream@.len() ==> upstream@[j] != '/')),
{
    if !str_starts_with(upstream, "refs/remotes/") {
        return None;
    }
    let l = "refs/remotes/".unicode_len();
    let sl = upstream.unicode_len();
    let rest = substring_of(upstream, l, sl);
    match find_char(rest.as_str(), '/') {
        Some(p) => {
            let name = substring_of(rest.as_str(), 0, p);
            proof {
                assert(upstream@[l + p] == rest@[p as int]);
            }
            Some(name)
        },
        None => {
            proof {
                assert(forall|j: int|
                    l <= j < upstream@.len() ==> upstream@[j] == rest@[j - l] && rest@[j - l]
                        != '/');
            }
            None
        },
    }
}

/// Picks the default remote: the current branch's upstream remote when
/// one is known; else, among the configured remotes, the first of
/// `origin`, `upstream`, `github`, `gitlab` that is present; else the
/// first remote; an empty remote list is an error.
pub fn pick_default_remote(remotes: &Vec<String>, upstream_remote: Option<String>) -> (r: Result<
    String,
    GitError,
>)
    ensures
        upstream_remote matches Some(u) ==> (r matches Ok(n) && n@ == u@),
        upstream_remote is None && remotes@.len() == 0 ==> r matches Err(
            GitError::Unknown { .. },
        ),
        upstream_remote is None && remotes@.len() > 0 ==> (r matches Ok(n) && n@ == {
            if remotes_contain(remotes@, "origin"@) {
                "origin"@
            } else if remotes_contain(remotes@, "upstream"@) {
                "upstream"@
            } else if remotes_contain(remotes@, "github"@) {
                "github"@
            } else if remotes_contain(remotes@, "gitlab"@) {
                "gitlab"@
            } else {
                remotes@[0]@
            }
        }),
{
    match upstream_remote {
        Some(u) => Ok(u),
        None => {
            if remotes.len() == 0 {
                return Err(GitError::Unknown {
                    message: String::from_str("the repository has no configured remotes"),
                });
            }
            if vec_contains_str(remotes, "origin") {
                Ok(String::from_str("origin"))
            } else if vec_contains_str(remotes, "upstream") {
                Ok(String::from_str("upstream"))
            } else if vec_contains_str(remotes, "github") {
                Ok(String::from_str("github"))
            } else if vec_contains_str(remotes, "gitlab") {
                Ok(String::from_str("gitlab"))
            } else {
                Ok(remotes[0].clone())
            }
        },
    }
}

/// Detects the default remote of the repository: the current branch's
/// upstream remote first, else a conventional name, else the first
/// remote; a repository without remotes is the one input error.
pub fn get_default_remote_name(repo: &git2::Repository) -> (r: Result<String, GitError>)
    ensures
        r matches Err(e) ==> (e matches GitError::Git { .. } || e matches GitError::Unknown {
            ..
        }),
{
    let upstream_remote: Option<String> = match repo_head_info(repo) {
        Ok((Some(branch_name), _)) => {
            let refname = concat2("refs/heads/", branch_name.as_str());
            match branch_upstream_name_str(repo, refname.as_str()) {
                Ok(Some(upstream)) => parse_remote_from_upstream(upstream.as_str()),
                _ => None,
            }
        },
        _ => None,
    };
    let remotes = match remote_names(repo) {
        Ok(r) => r,
        Err(e) => {
            return Err(map_git_err(&e));
        },
    };
    pick_default_remote(&remotes, upstream_remote)
}

// ---- fetch / push ----

/// Callbacks for an authenticated network operation: token-based
/// credentials with a fresh three-attempt budget, and the engine's
/// accept-all certificate policy.
pub fn create_authenticated_callbacks<'a>(token_cache: Option<String>) -> (r:
    git2::RemoteCallbacks<'a>) {
    let mut callbacks = callbacks_new();
    callbacks_set_token_credentials(&mut callbacks, token_cache);
    callbacks_accept_all_certificates(&mut callbacks);
    callbacks
}

/// The refspec pushed for a branch; a `+` prefix permits
/// non-fast-forward updates when force is requested.
pub open spec fn push_refspec_spec(branch: Seq<char>, force: bool) -> Seq<char> {
    let plain = "refs/heads/"@ + branch + ":refs/heads/"@ + branch;
    if force {
        "+"@ + plain
    } else {
        plain
    }
}

pub fn build_push_refspec(branch: &str, force: bool) -> (r: String)
    ensures
        r@ == push_refspec_spec(branch@, force),
{
    let mut out = if force {
        String::from_str("+")
    } else {
        String::new()
    };
    out.append("refs/heads/");
    out.append(branch);
    out.append(":refs/heads/");
    out.append(branch);
    proof {
        assert(out@ =~= push_refspec_spec(branch@, force));
    }
    out
}

fn fetch_with(repo_path: &str, remote_name: Option<&String>, token_cache: Option<String>) -> (r:
    Result<SyncResult, GitError>)
    ensures
        r matches Ok(s) ==> s.success && !s.has_conflicts && s.conflict_files@.len() == 0,
{
    let repo = match repo_open(repo_path) {
        Ok(r) => r,
        Err(e) => {
            return Err(map_git_err(&e));
        },
    };
    let name = match remote_name {
        Some(n) => n.clone(),
        None => match get_default_remote_name(&repo) {
            Ok(n) => n,
            Err(e) => {
                return Err(e);
            },
        },
    };
    let mut remote = match find_remote(&repo, name.as_str()) {
        Ok(r) => r,
        Err(e) => {
            return Err(map_git_err(&e));
        },
    };
    let refspecs = match remote_fetch_refspecs(&remote) {
        Ok(r) => r,
        Err(e) => {
            return Err(map_git_err(&e));
        },
    };
    let callbacks = create_authenticated_callbacks(token_cache);
    let mut options = fetch_options_with(callbacks);
    match remote_fetch(&mut remote, &refspecs, &mut options) {
        Ok(()) => (),
        Err(e) => {
            return Err(map_git_err(&e));
        },
    }
    let (ahead, behind) = match get_ahead_behind_count(&repo) {
        Ok(c) => c,
        Err(e) => {
            return Err(e);
        },
    };
    Ok(SyncResult {
        success: true,
        message: String::from_str("fetched remote changes"),
        has_conflicts: false,
        conflict_files: Vec::new(),
        ahead,
        behind,
    })
}

/// Fetches all configured refspecs of the remote (the default remote
/// when none is named) and recomputes ahead/behind.
pub fn fetch_remote(repo_path: &str, remote_name: Option<&String>) -> (r: Result<
    SyncResult,
    GitError,
>)
    ensures
        r matches Ok(s) ==> sync_result_wf(&s) && s.success && !s.has_conflicts,
{
    fetch_with(repo_path, remote_name, None)
}

/// Like `fetch_remote`, authenticating with a cached access token.
pub fn fetch_remote_with_token(
    repo_path: &str,
    remote_name: Option<&String>,
    token_cache: Option<String>,
) -> (r: Result<SyncResult, GitError>)
    ensures
        r matches Ok(s) ==> sync_result_wf(&s) && s.success && !s.has_conflicts,
{
    fetch_with(repo_path, remote_name, token_cache)
}

fn push_with(
    repo_path: &str,
    remote_name: Option<&String>,
    force: bool,
    token_cache: Option<String>,
) -> (r: Result<SyncResult, GitError>)
    ensures
        r matches Ok(s) ==> s.success && !s.has_conflicts && s.conflict_files@.len() == 0,
{
    let repo = match repo_open(repo_path) {
        Ok(r) => r,
        Err(e) => {
            return Err(map_git_err(&e));
        },
    };
    let name = match remote_name {
        Some(n) => n.clone(),
        None => match get_default_remote_name(&repo) {
            Ok(n) => n,
            Err(e) => {
                return Err(e);
            },
        },
    };
    let mut remote = match find_remote(&repo, name.as_str()) {
        Ok(r) => r,
        Err(e) => {
            return Err(map_git_err(&e));
        },
    };
    let branch_name = match repo_head_info(&repo) {
        Ok((Some(n), _)) => n,
        Ok((None, _)) => String::from_str("HEAD"),
        Err(e) => {
            return Err(map_git_err(&e));
        },
    };
    let refspec = build_push_refspec(branch_name.as_str(), force);
    let callbacks = create_authenticated_callbacks(token_cache);
    let mut options = push_options_with(callbacks);
    match remote_push(&mut remote, refspec.as_str(), &mut options) {
        Ok(()) => (),
        Err(e) => {
            return Err(map_git_err(&e));
        },
    }
    let (ahead, behind) = match get_ahead_behind_count(&repo) {
        Ok(c) => c,
        Err(e) => {
            return Err(e);
        },
    };
    Ok(SyncResult {
        success: true,
        message: String::from_str("pushed to remote"),
        has_conflicts: false,
        conflict_files: Vec::new(),
        ahead,
        behind,
    })
}

/// Pushes the current branch to the remote (the default remote when
/// none is named), with a forcing refspec when asked, and recomputes
/// ahead/behind.
pub fn push_remote(repo_path: &str, remote_name: Option<&String>, force: bool) -> (r: Result<
    SyncResult,
    GitError,
>)
    ensures
        r matches Ok(s) ==> sync_result_wf(&s) && s.success && !s.has_conflicts,
{
    push_with(repo_path, remote_name, force, None)
}

/// Like `push_remote`, authenticating with a cached access token.
pub fn push_remote_with_token(
    repo_path: &str,
    remote_name: Option<&String>,
    force: bool,
    token_cache: Option<String>,
) -> (r: Result<SyncResult, GitError>)
    ensures
        r matches Ok(s) ==> sync_result_wf(&s) && s.success && !s.has_conflicts,
{
    push_with(repo_path, remote_name, force, token_cache)
}

// ---- merge and rebase ----

/// What `pull` does with the upstream commit, decided by the merge
/// analysis.
#[derive(Debug, Clone, Copy, PartialEq, Eq, Structural)]
pub enum MergeAction {
    /// Advance the branch pointer: the upstream commit is a descendant
    /// of the local head.
    FastForward,
    /// A three-way merge is needed.
    NormalMerge,
    /// Nothing to merge.
    NoMerge,
}

/// The merge decision: fast-forward is chosen exactly when the analysis
/// reports the upstream commit as a descendant of the local head
/// (its fast-forward bit); otherwise a normal three-way merge exactly
/// when the analysis allows one.
pub fn merge_decision(is_fast_forward: bool, is_normal: bool) -> (r: MergeAction)
    ensures
        (r == MergeAction::FastForward) <==> is_fast_forward,
        (r == MergeAction::NormalMerge) <==> (!is_fast_forward && is_normal),
        (r == MergeAction::NoMerge) <==> (!is_fast_forward && !is_normal),
{
    if is_fast_forward {
        MergeAction::FastForward
    } else if is_normal {
        MergeAction::NormalMerge
    } else {
        MergeAction::NoMerge
    }
}

/// Merges the upstream commit into the local head: fast-forward when
/// the analysis allows it, else a three-way tree merge that either
/// reports conflicts (making no commit) or writes a two-parent merge
/// commit.
pub fn perform_merge(repo: &git2::Repository, local: git2::Oid, upstream: git2::Oid) -> (r: Result<
    SyncResult,
    GitError,
>)
    ensures
        r matches Ok(s) ==> sync_result_wf(&s),
        r matches Ok(s) ==> (s.has_conflicts ==> !s.success),
{
    let base = match merge_base(repo, local, upstream) {
        Ok(b) => b,
        Err(e) => {
            return Err(map_git_err(&e));
        },
    };
    let (is_ff, is_normal, _up_to_date) = match merge_analysis_for(repo, upstream) {
        Ok(a) => a,
        Err(e) => {
            return Err(map_git_err(&e));
        },
    };
    match merge_decision(is_ff, is_normal) {
        MergeAction::FastForward => {
            let branch_name = match repo_head_info(repo) {
                Ok((Some(n), _)) => n,
                _ => String::from_str("HEAD"),
            };
            let refname = concat2("refs/heads/", branch_name.as_str());
            match reference_set_target(repo, refname.as_str(), upstream, "Fast-forward merge") {
                Ok(()) => (),
                Err(e) => {
                    return Err(map_git_err(&e));
                },
            }
            match checkout_head_force(repo) {
                Ok(()) => (),
                Err(e) => {
                    return Err(map_git_err(&e));
                },
            }
            Ok(SyncResult {
                success: true,
                message: String::from_str("fast-forward merge successful"),
                has_conflicts: false,
                conflict_files: Vec::new(),
                ahead: 0,
                behind: 0,
            })
        },
        MergeAction::NormalMerge => {
            let local_tree = match commit_tree(repo, local) {
                Ok(t) => t,
                Err(e) => {
                    return Err(map_git_err(&e));
                },
            };
            let upstream_tree = match commit_tree(repo, upstream) {
                Ok(t) => t,
                Err(e) => {
                    return Err(map_git_err(&e));
                },
            };
            let ancestor_tree = match commit_tree(repo, base) {
                Ok(t) => t,
                Err(e) => {
                    return Err(map_git_err(&e));
                },
            };
            let mut merged = match merge_trees_index(repo, &ancestor_tree, &local_tree,
                &upstream_tree) {
                Ok(i) => i,
                Err(e) => {
                    return Err(map_git_err(&e));
                },
            };
            if index_has_conflicts(&merged) {
                let conflict_files = match index_conflict_paths(&merged) {
                    Ok(f) => f,
                    Err(e) => {
                        return Err(map_git_err(&e));
                    },
                };
                return Ok(SyncResult {
                    success: false,
                    message: String::from_str("merge produced conflicts; resolve them manually"),
                    has_conflicts: true,
                    conflict_files,
                    ahead: 0,
                    behind: 0,
                });
            }
            let signature = match signature_default(repo) {
                Ok(s) => s,
                Err(e) => {
                    return Err(map_git_err(&e));
                },
            };
            let tree_id = match index_write_tree_to(&mut merged, repo) {
                Ok(t) => t,
                Err(e) => {
                    return Err(map_git_err(&e));
                },
            };
            let tree = match find_tree(repo, tree_id) {
                Ok(t) => t,
                Err(e) => {
                    return Err(map_git_err(&e));
                },
            };
            let summary = match commit_summary_text(repo, upstream) {
                Ok(Some(s)) => s,
                Ok(None) => String::from_str("unknown"),
                Err(e) => {
                    return Err(map_git_err(&e));
                },
            };
            let message = concat3("Merge branch '", summary.as_str(), "'");
            let mut parents: Vec<git2::Oid> = Vec::new();
            parents.push(local);
            parents.push(upstream);
            match repo_commit(repo, Some("HEAD"), &signature, message.as_str(), &tree, &parents) {
                Ok(_) => (),
                Err(e) => {
                    return Err(map_git_err(&e));
                },
            }
            Ok(SyncResult {
                success: true,
                message: String::from_str("merge successful"),
                has_conflicts: false,
                conflict_files: Vec::new(),
                ahead: 0,
                behind: 0,
            })
        },
        MergeAction::NoMerge => Ok(SyncResult {
            success: true,
            message: String::from_str("nothing to merge"),
            has_conflicts: false,
            conflict_files: Vec::new(),
            ahead: 0,
            behind: 0,
        }),
    }
}

/// What a rebase does after applying one step.
#[derive(Debug, Clone, Copy, PartialEq, Eq, Structural)]
pub enum RebaseStepAction {
    /// The step left conflicts in the index: abort the whole rebase,
    /// restoring the pre-rebase state, and report the conflicts.
    Abort,
    /// The step applied cleanly: commit it and continue.
    Commit,
}

/// The rebase step decision: a conflicted index aborts, a clean one is
/// committed.
pub fn rebase_step_decision(has_conflict: bool) -> (r: RebaseStepAction)
    ensures
        (r == RebaseStepAction::Abort) <==> has_conflict,
        (r == RebaseStepAction::Commit) <==> !has_conflict,
{
    if has_conflict {
        RebaseStepAction::Abort
    } else {
        RebaseStepAction::Commit
    }
}

/// Replays the local commits onto the upstream commit one at a time.
/// A conflicted step aborts the entire rebase (the library restores the
/// pre-rebase head and index) and reports the conflicted paths; any
/// step error also aborts and propagates.
pub fn perform_rebase(repo: &git2::Repository, local: git2::Oid, upstream: git2::Oid) -> (r:
    Result<SyncResult, GitError>)
    ensures
        r matches Ok(s) ==> sync_result_wf(&s),
        r matches Ok(s) ==> (s.has_conflicts ==> !s.success),
{
    let signature = match signature_default(repo) {
        Ok(s) => s,
        Err(e) => {
            return Err(map_git_err(&e));
        },
    };
    let local_annotated = match find_annotated(repo, local) {
        Ok(a) => a,
        Err(e) => {
            return Err(map_git_err(&e));
        },
    };
    let upstream_annotated = match find_annotated(repo, upstream) {
        Ok(a) => a,
        Err(e) => {
            return Err(map_git_err(&e));
        },
    };
    let mut rebase = match rebase_init(repo, &local_annotated, &upstream_annotated) {
        Ok(r) => r,
        Err(e) => {
            return Err(map_git_err(&e));
        },
    };
    let mut fuel: u64 = u64::MAX;
    while fuel > 0
        decreases fuel,
    {
        fuel = fuel - 1;
        match rebase_next_step(&mut rebase) {
            None => {
                match rebase_finish(&mut rebase) {
                    Ok(()) => (),
                    Err(e) => {
                        return Err(map_git_err(&e));
                    },
                }
                return Ok(SyncResult {
                    success: true,
                    message: String::from_str("rebase successful"),
                    has_conflicts: false,
                    conflict_files: Vec::new(),
                    ahead: 0,
                    behind: 0,
                });
            },
            Some(Err(e)) => {
                let _ = rebase_abort(&mut rebase);
                return Err(map_git_err(&e));
            },
            Some(Ok(())) => {
                let step_index = match repo_index(repo) {
                    Ok(i) => i,
                    Err(e) => {
                        let _ = rebase_abort(&mut rebase);
                        return Err(map_git_err(&e));
                    },
                };
                match rebase_step_decision(index_has_conflicts(&step_index)) {
                    RebaseStepAction::Abort => {
                        let conflict_files = match index_conflict_paths(&step_index) {
                            Ok(f) => f,
                            Err(_) => Vec::new(),
                        };
                        match rebase_abort(&mut rebase) {
                            Ok(()) => (),
                            Err(e) => {
                                return Err(map_git_err(&e));
                            },
                        }
                        return Ok(SyncResult {
                            success: false,
                            message: String::from_str(
                                "rebase produced conflicts; resolve them manually",
                            ),
                            has_conflicts: true,
                            conflict_files,
                            ahead: 0,
                            behind: 0,
                        });
                    },
                    RebaseStepAction::Commit => {
                        match rebase_commit_step(&mut rebase, &signature) {
                            Ok(_) => (),
                            Err(e) => {
                                let _ = rebase_abort(&mut rebase);
                                return Err(map_git_err(&e));
                            },
                        }
                    },
                }
            },
        }
    }
    let _ = rebase_abort(&mut rebase);
    Err(GitError::Unknown { message: String::from_str("rebase did not terminate") })
}

/// Pulls from the default remote: fetch first (a failed fetch
/// short-circuits the pull as its error), then — unless the head
/// already matches its upstream — merge or rebase the upstream commit
/// per the strategy.  Conflicts are reported in the result, never as an
/// error.
pub fn pull_remote(repo_path: &str, strategy: PullStrategy) -> (r: Result<SyncResult, GitError>)
    ensures
        r matches Ok(s) ==> sync_result_wf(&s),
{
    match fetch_remote(repo_path, None) {
        Ok(_) => (),
        Err(e) => {
            return Err(e);
        },
    }
    let repo = match repo_open(repo_path) {
        Ok(r) => r,
        Err(e) => {
            return Err(map_git_err(&e));
        },
    };
    let (name, target) = match repo_head_info(&repo) {
        Ok(info) => info,
        Err(e) => {
            return Err(map_git_err(&e));
        },
    };
    let branch_name = match name {
        Some(n) => n,
        None => String::from_str("HEAD"),
    };
    let refname = concat2("refs/heads/", branch_name.as_str());
    let upstream_name = match branch_upstream_name_str(&repo, refname.as_str()) {
        Ok(Some(n)) => n,
        Ok(None) => {
            return Err(GitError::Unknown {
                message: String::from_str("the upstream branch name is not readable"),
            });
        },
        Err(e) => {
            return Err(map_git_err(&e));
        },
    };
    let upstream_oid = match refname_to_id(&repo, upstream_name.as_str()) {
        Ok(o) => o,
        Err(e) => {
            return Err(map_git_err(&e));
        },
    };
    let local_oid = match target {
        Some(o) => o,
        None => {
            return Err(GitError::Unknown {
                message: String::from_str("cannot resolve the local head commit"),
            });
        },
    };
    if oid_eq(&local_oid, &upstream_oid) {
        return Ok(SyncResult {
            success: true,
            message: String::from_str("already up to date"),
            has_conflicts: false,
            conflict_files: Vec::new(),
            ahead: 0,
            behind: 0,
        });
    }
    match strategy {
        PullStrategy::Merge => perform_merge(&repo, local_oid, upstream_oid),
        PullStrategy::Rebase => perform_rebase(&repo, local_oid, upstream_oid),
    }
}

/// The tracking relation of the current branch against the default
/// remote; the last-sync stamp is not recorded here.
pub fn get_remote_info(repo_path: &str) -> (r: Result<RemoteBranchInfo, GitError>)
    ensures
        r matches Ok(info) ==> info.last_sync is None,
        r matches Err(e) ==> (e matches GitError::Git { .. } || e matches GitError::Unknown {
            ..
        }),
{
    let repo = match repo_open(repo_path) {
        Ok(r) => r,
        Err(e) => {
            return Err(map_git_err(&e));
        },
    };
    let remote_name = match get_default_remote_name(&repo) {
        Ok(n) => n,
        Err(e) => {
            return Err(e);
        },
    };
    let branch_name = match repo_head_info(&repo) {
        Ok((Some(n), _)) => n,
        Ok((None, _)) => String::from_str("HEAD"),
        Err(e) => {
            return Err(map_git_err(&e));
        },
    };
    let (ahead, behind) = match get_ahead_behind_count(&repo) {
        Ok(c) => c,
        Err(e) => {
            return Err(e);
        },
    };
    Ok(RemoteBranchInfo { remote_name, branch_name, ahead, behind, last_sync: None })
}

} // verus!
