//! Branch lifecycle: listing with tracking state, creation, switching,
//! deletion, and checking out remote branches as local ones.

use vstd::prelude::*;
use crate::gitio::{
    branch_exists, branch_names, branch_upstream_name_str, branch_upstream_shortname,
    checkout_commit_tree, commit_summary_info, config_set_str, create_branch_at,
    delete_branch_ref, find_branch_oid, find_commit, graph_ahead_behind, oid_from_hex,
    refname_to_id, reference_target, repo_head_info, repo_open, set_head_ref,
};
use crate::operations::{get_repository_status, map_git_err, usize_to_u32_sat};
use crate::text::{concat2, concat3, find_char, is_suffix_of, str_eq, str_ends_with,
    substring_of};
use crate::types::{BranchInfo, FileStatus, GitError, SwitchResult, switch_result_wf};

verus! {

broadcast use vstd::string::group_string_axioms;

/// Whether a remote branch name is the remote's `HEAD` pseudo-branch.
pub fn is_remote_head_branch(branch_name: &str) -> (r: bool)
    ensures
        r == is_suffix_of("/HEAD"@, branch_name@),
{
    str_ends_with(branch_name, "/HEAD")
}

/// The local name derived from a remote branch name: the text after
/// the first `/` (dropping the remote), or the whole name when it has
/// no `/`.
pub fn extract_local_branch_name(remote_branch_name: &str) -> (r: String)
    ensures
        (exists|p: int|
            0 <= p < remote_branch_name@.len() && remote_branch_name@[p] == '/' && (forall|j: int|
                0 <= j < p ==> remote_branch_name@[j] != '/') && r@ == remote_branch_name@.subrange(
                p + 1,
                remote_branch_name@.len() as int,
            )) || ((forall|j: int|
            0 <= j < remote_branch_name@.len() ==> remote_branch_name@[j] != '/') && r@
            == remote_branch_name@),
{
    let sl = remote_branch_name.unicode_len();
    match find_char(remote_branch_name, '/') {
        Some(p) => substring_of(remote_branch_name, p + 1, sl),
        None => String::from_str(remote_branch_name),
    }
}

/// Ahead/behind of a local branch against its upstream; branches
/// without a resolvable upstream count as `(0, 0)`.
pub fn calculate_ahead_behind_for_branch(repo: &git2::Repository, branch_name: &str) -> (r: (
    u32,
    u32,
)) {
    let refname = concat2("refs/heads/", branch_name);
    let upstream_name = match branch_upstream_name_str(repo, refname.as_str()) {
        Ok(Some(n)) => n,
        _ => {
            return (0, 0);
        },
    };
    let local_oid = match refname_to_id(repo, refname.as_str()) {
        Ok(o) => o,
        Err(_) => {
            return (0, 0);
        },
    };
    let upstream_oid = match refname_to_id(repo, upstream_name.as_str()) {
        Ok(o) => o,
        Err(_) => {
            return (0, 0);
        },
    };
    match graph_ahead_behind(repo, local_oid, upstream_oid) {
        Ok((a, b)) => (usize_to_u32_sat(a), usize_to_u32_sat(b)),
        Err(_) => (0, 0),
    }
}

/// One branch record: upstream and ahead/behind only for local
/// branches, the last commit where the branch points at one.
pub fn create_branch_info(
    repo: &git2::Repository,
    name: String,
    is_current: bool,
    is_remote: bool,
) -> (r: BranchInfo)
    ensures
        r.name == name,
        r.is_current == is_current,
        r.is_remote == is_remote,
        is_remote ==> r.upstream is None && r.ahead == 0 && r.behind == 0,
{
    let upstream: Option<String> = if !is_remote {
        branch_upstream_shortname(repo, name.as_str())
    } else {
        None
    };
    let last_commit = match find_branch_oid(repo, name.as_str(), !is_remote) {
        Ok(Some(oid)) => match commit_summary_info(repo, oid) {
            Ok(info) => Some(info),
            Err(_) => None,
        },
        _ => None,
    };
    let (ahead, behind) = if !is_remote && upstream.is_some() {
        calculate_ahead_behind_for_branch(repo, name.as_str())
    } else {
        (0, 0)
    };
    BranchInfo { name, is_current, is_remote, upstream, ahead, behind, last_commit }
}

/// Lists local then remote branches.  Remote `HEAD` pseudo-branches are
/// excluded; a record is current only if it is the local branch the
/// head points at.
pub fn list_branches(repo_path: &str) -> (r: Result<Vec<BranchInfo>, GitError>)
    ensures
        r matches Ok(branches) ==> forall|i: int|
            0 <= i < branches@.len() ==> ((#[trigger] branches@[i].is_remote ==> !is_suffix_of(
                "/HEAD"@,
                branches@[i].name@,
            )) && (branches@[i].is_current ==> !branches@[i].is_remote)),
{
    let repo = match repo_open(repo_path) {
        Ok(r) => r,
        Err(e) => {
            return Err(map_git_err(&e));
        },
    };
    let current_branch_name: Option<String> = match repo_head_info(&repo) {
        Ok((n, _)) => n,
        Err(_) => None,
    };
    let mut branches: Vec<BranchInfo> = Vec::new();
    let local_names = match branch_names(&repo, true) {
        Ok(n) => n,
        Err(e) => {
            return Err(map_git_err(&e));
        },
    };
    let mut i: usize = 0;
    while i < local_names.len()
        invariant
            i <= local_names@.len(),
            forall|k: int|
                0 <= k < branches@.len() ==> (!(#[trigger] branches@[k]).is_remote),
        decreases local_names@.len() - i,
    {
        let name = local_names[i].clone();
        let is_current = match &current_branch_name {
            Some(cur) => str_eq(cur.as_str(), name.as_str()),
            None => false,
        };
        let info = create_branch_info(&repo, name, is_current, false);
        branches.push(info);
        i = i + 1;
    }
    let remote_names_list = match branch_names(&repo, false) {
        Ok(n) => n,
        Err(e) => {
            return Err(map_git_err(&e));
        },
    };
    let mut j: usize = 0;
    while j < remote_names_list.len()
        invariant
            j <= remote_names_list@.len(),
            forall|k: int|
                0 <= k < branches@.len() ==> (((#[trigger] branches@[k]).is_remote
                    ==> !is_suffix_of("/HEAD"@, branches@[k].name@)) && (branches@[k].is_current
                    ==> !branches@[k].is_remote)),
        decreases remote_names_list@.len() - j,
    {
        let name = remote_names_list[j].clone();
        if !is_remote_head_branch(name.as_str()) {
            let info = create_branch_info(&repo, name, false, true);
            branches.push(info);
        }
        j = j + 1;
    }
    Ok(branches)
}

/// The blocking answer for a switch attempt: with any uncommitted
/// change (staged or unstaged) the switch is refused — reported, not
/// fatal — listing the blocking paths; with none, the switch may
/// proceed.
pub fn switch_block_decision(files: &Vec<FileStatus>) -> (r: Option<SwitchResult>)
    ensures
        (r is Some) <==> files@.len() > 0,
        r matches Some(s) ==> (!s.success && s.has_uncommitted_changes
            && s.uncommitted_files@.len() == files@.len() && (forall|i: int|
            0 <= i < files@.len() ==> s.uncommitted_files@[i]@ == (#[trigger] files@[i]).path@)),
{
    if files.len() == 0 {
        return None;
    }
    let mut uncommitted_files: Vec<String> = Vec::new();
    let mut i: usize = 0;
    while i < files.len()
        invariant
            i <= files@.len(),
            uncommitted_files@.len() == i,
            forall|k: int|
                0 <= k < i ==> uncommitted_files@[k]@ == (#[trigger] files@[k]).path@,
        decreases files@.len() - i,
    {
        uncommitted_files.push(files[i].path.clone());
        i = i + 1;
    }
    Some(SwitchResult {
        success: false,
        message: String::from_str("there are uncommitted changes; commit or stash them first"),
        has_uncommitted_changes: true,
        uncommitted_files,
    })
}

/// Switches to a local branch.  With any uncommitted change the switch
/// is refused before anything is touched, with the blocking paths in
/// the result; otherwise the head is moved and the working tree
/// checked out safely.
pub fn switch_branch(repo_path: &str, branch_name: &str) -> (r: Result<SwitchResult, GitError>)
    ensures
        r matches Ok(s) ==> switch_result_wf(&s),
        r matches Ok(s) ==> (s.has_uncommitted_changes <==> !s.success),
{
    let status = match get_repository_status(repo_path) {
        Ok(s) => s,
        Err(e) => {
            return Err(e);
        },
    };
    match switch_block_decision(&status.files) {
        Some(blocked) => {
            return Ok(blocked);
        },
        None => (),
    }
    let repo = match repo_open(repo_path) {
        Ok(r) => r,
        Err(e) => {
            return Err(map_git_err(&e));
        },
    };
    let branch_oid = match find_branch_oid(&repo, branch_name, true) {
        Ok(Some(o)) => o,
        Ok(None) => {
            return Err(GitError::Unknown {
                message: concat3("branch '", branch_name, "' has no resolvable target"),
            });
        },
        Err(_) => {
            return Err(GitError::Unknown {
                message: concat3("branch '", branch_name, "' does not exist"),
            });
        },
    };
    let refname = concat2("refs/heads/", branch_name);
    match set_head_ref(&repo, refname.as_str()) {
        Ok(()) => (),
        Err(e) => {
            return Err(map_git_err(&e));
        },
    }
    match checkout_commit_tree(&repo, branch_oid, true) {
        Ok(()) => (),
        Err(e) => {
            return Err(map_git_err(&e));
        },
    }
    Ok(SwitchResult {
        success: true,
        message: concat3("switched to branch '", branch_name, "'"),
        has_uncommitted_changes: false,
        uncommitted_files: Vec::new(),
    })
}

/// Creates a branch.  The target commit is resolved by trying, in
/// order: an existing local branch name, a full commit hash, a short
/// reference name, `refs/heads/<name>`; the head when no target is
/// given.  An existing branch of the same name is refused.  The new
/// branch is optionally checked out at once.
pub fn create_branch(
    repo_path: &str,
    branch_name: &str,
    from_commit: Option<&String>,
    checkout: bool,
) -> (r: Result<SwitchResult, GitError>)
    ensures
        r matches Ok(s) ==> switch_result_wf(&s),
        !checkout ==> (r matches Ok(s) ==> s.success),
{
    let repo = match repo_open(repo_path) {
        Ok(r) => r,
        Err(e) => {
            return Err(map_git_err(&e));
        },
    };
    if branch_exists(&repo, branch_name, true) {
        return Err(GitError::Unknown {
            message: concat3("branch '", branch_name, "' already exists"),
        });
    }
    let target_oid: git2::Oid = match from_commit {
        Some(commit_ref) => {
            match find_branch_oid(&repo, commit_ref.as_str(), true) {
                Ok(Some(o)) => o,
                Ok(None) => {
                    return Err(GitError::Unknown {
                        message: concat3(
                            "cannot resolve the target of branch '",
                            commit_ref.as_str(),
                            "'",
                        ),
                    });
                },
                Err(_) => {
                    // not a branch name: try a commit hash, then references
                    match resolve_commitish(&repo, commit_ref.as_str()) {
                        Some(o) => o,
                        None => {
                            return Err(GitError::Unknown {
                                message: concat3(
                                    "cannot find a branch, commit or reference named '",
                                    commit_ref.as_str(),
                                    "'",
                                ),
                            });
                        },
                    }
                },
            }
        },
        None => {
            match repo_head_info(&repo) {
                Ok((_, Some(o))) => o,
                Ok((_, None)) => {
                    return Err(GitError::Unknown {
                        message: String::from_str("cannot resolve the head target"),
                    });
                },
                Err(e) => {
                    return Err(map_git_err(&e));
                },
            }
        },
    };
    match create_branch_at(&repo, branch_name, target_oid) {
        Ok(()) => (),
        Err(e) => {
            return Err(map_git_err(&e));
        },
    }
    if checkout {
        return switch_branch(repo_path, branch_name);
    }
    Ok(SwitchResult {
        success: true,
        message: concat3("created branch '", branch_name, "'"),
        has_uncommitted_changes: false,
        uncommitted_files: Vec::new(),
    })
}

/// Resolves a commit-ish string: a full commit hash, a reference name,
/// or `refs/heads/<name>`.
fn resolve_commitish(repo: &git2::Repository, commit_ref: &str) -> (r: Option<git2::Oid>) {
    match oid_from_hex(commit_ref) {
        Ok(oid) => {
            match find_commit(repo, oid) {
                Ok(_) => {
                    return Some(oid);
                },
                Err(_) => (),
            }
        },
        Err(_) => (),
    }
    match reference_target(repo, commit_ref) {
        Ok(Some(o)) => {
            return Some(o);
        },
        _ => (),
    }
    let full = concat2("refs/heads/", commit_ref);
    match reference_target(repo, full.as_str()) {
        Ok(Some(o)) => Some(o),
        _ => None,
    }
}

/// Deletes a local branch.  The currently checked-out branch is
/// refused; without force, a branch with unmerged (ahead) commits
/// relative to its upstream is refused too.
pub fn delete_branch(repo_path: &str, branch_name: &str, force: bool) -> (r: Result<
    SwitchResult,
    GitError,
>)
    ensures
        r matches Ok(s) ==> switch_result_wf(&s) && s.success,
{
    let repo = match repo_open(repo_path) {
        Ok(r) => r,
        Err(e) => {
            return Err(map_git_err(&e));
        },
    };
    match repo_head_info(&repo) {
        Ok((Some(current), _)) => {
            if str_eq(current.as_str(), branch_name) {
                return Err(GitError::Unknown {
                    message: String::from_str("cannot delete the current branch"),
                });
            }
        },
        _ => (),
    }
    if !force {
        match branch_upstream_shortname(&repo, branch_name) {
            Some(upstream_short) => {
                let (ahead, _behind) = calculate_ahead_behind_for_branch(&repo, branch_name);
                if ahead > 0 {
                    return Err(GitError::Unknown {
                        message: concat3(
                            "branch '",
                            branch_name,
                            "' has unmerged commits; force-delete or merge it first",
                        ),
                    });
                }
                let _ = upstream_short;
            },
            None => (),
        }
    }
    match delete_branch_ref(&repo, branch_name) {
        Ok(()) => (),
        Err(e) => {
            return Err(map_git_err(&e));
        },
    }
    Ok(SwitchResult {
        success: true,
        message: concat3("deleted branch '", branch_name, "'"),
        has_uncommitted_changes: false,
        uncommitted_files: Vec::new(),
    })
}

/// Sets a local branch's upstream configuration from a
/// `<remote>/<branch>` name.
fn set_upstream_branch(repo: &git2::Repository, local_branch: &str, remote_branch: &str) -> (r:
    Result<(), GitError>) {
    let sl = remote_branch.unicode_len();
    let pos = match find_char(remote_branch, '/') {
        Some(p) => p,
        None => {
            return Err(GitError::Unknown {
                message: String::from_str("invalid remote branch name format"),
            });
        },
    };
    let remote_name = substring_of(remote_branch, 0, pos);
    let branch_part = substring_of(remote_branch, pos + 1, sl);
    let remote_key = concat3("branch.", local_branch, ".remote");
    match config_set_str(repo, remote_key.as_str(), remote_name.as_str()) {
        Ok(()) => (),
        Err(e) => {
            return Err(map_git_err(&e));
        },
    }
    let merge_key = concat3("branch.", local_branch, ".merge");
    let merge_ref = concat2("refs/heads/", branch_part.as_str());
    match config_set_str(repo, merge_key.as_str(), merge_ref.as_str()) {
        Ok(()) => (),
        Err(e) => {
            return Err(map_git_err(&e));
        },
    }
    Ok(())
}

/// Checks out a remote branch as a local one: derives the local name
/// (unless one is given), refuses an existing local name, creates the
/// branch at the remote head, records the upstream configuration, and
/// switches to it; if the switch fails, the just-created branch is
/// deleted again.
pub fn checkout_remote_branch(
    repo_path: &str,
    remote_branch_name: &str,
    local_branch_name: Option<&String>,
) -> (r: Result<SwitchResult, GitError>)
    ensures
        r matches Ok(s) ==> switch_result_wf(&s) && s.success,
{
    let local_name: String = match local_branch_name {
        Some(n) => n.clone(),
        None => extract_local_branch_name(remote_branch_name),
    };
    let repo = match repo_open(repo_path) {
        Ok(r) => r,
        Err(e) => {
            return Err(map_git_err(&e));
        },
    };
    if branch_exists(&repo, local_name.as_str(), true) {
        return Err(GitError::Unknown {
            message: concat3("local branch '", local_name.as_str(), "' already exists"),
        });
    }
    let remote_oid = match find_branch_oid(&repo, remote_branch_name, false) {
        Ok(Some(o)) => o,
        Ok(None) => {
            return Err(GitError::Unknown {
                message: concat3(
                    "cannot resolve the target of remote branch '",
                    remote_branch_name,
                    "'",
                ),
            });
        },
        Err(_) => {
            return Err(GitError::Unknown {
                message: concat3("remote branch '", remote_branch_name, "' does not exist"),
            });
        },
    };
    match create_branch_at(&repo, local_name.as_str(), remote_oid) {
        Ok(()) => (),
        Err(e) => {
            return Err(map_git_err(&e));
        },
    }
    // best effort: a failure to record the upstream does not block the
    // checkout
    let _ = set_upstream_branch(&repo, local_name.as_str(), remote_branch_name);
    let switch_result = match switch_branch(repo_path, local_name.as_str()) {
        Ok(s) => s,
        Err(e) => {
            return Err(e);
        },
    };
    if switch_result.success {
        Ok(SwitchResult {
            success: true,
            message: concat3(
                "checked out remote branch as local branch '",
                local_name.as_str(),
                "'",
            ),
            has_uncommitted_changes: false,
            uncommitted_files: Vec::new(),
        })
    } else {
        // the switch was blocked: remove the branch we just created
        let _ = delete_branch_ref(&repo, local_name.as_str());
        Err(GitError::Unknown {
            message: concat2(
                "checkout succeeded but the switch failed: ",
                switch_result.message.as_str(),
            ),
        })
    }
}

} // verus!
