//! Trusted boundary to the embedded Git library (`git2`).
//!
//! Every function here is an `external_body` wrapper around one call (or
//! one tight read of several fields of one value).  The repository lives
//! on disk, so results depend on its state: the contracts state only what
//! holds of every outcome, and the verified callers carry the logic.

use vstd::prelude::*;
use crate::types::{CommitHistoryItem, CommitInfo};

verus! {

#[verifier::external_type_specification]
#[verifier::external_body]
pub struct ExRepository(git2::Repository);

#[verifier::external_type_specification]
#[verifier::external_body]
pub struct ExGitError(git2::Error);

#[verifier::external_type_specification]
#[verifier::external_body]
pub struct ExOid(git2::Oid);

#[verifier::external_type_specification]
#[verifier::external_body]
pub struct ExReference<'a>(git2::Reference<'a>);

#[verifier::external_type_specification]
#[verifier::external_body]
pub struct ExCommit<'a>(git2::Commit<'a>);

#[verifier::external_type_specification]
#[verifier::external_body]
pub struct ExRemoteCallbacks<'a>(git2::RemoteCallbacks<'a>);

#[verifier::external_type_specification]
#[verifier::external_body]
#[verifier::reject_recursive_types(T)]
pub struct ExSender<T>(std::sync::mpsc::Sender<T>);

#[verifier::external_type_specification]
#[verifier::external_body]
pub struct ExCred(git2::Cred);

/// Relies on `git2::Cred::default`: a "default" credential, for
/// anonymous or helper-mediated access.
#[verifier::external_body]
pub(crate) fn cred_default() -> Result<git2::Cred, git2::Error> {
    git2::Cred::default()
}

/// Relies on `git2::Cred::userpass_plaintext`: a plaintext
/// username/password credential.
#[verifier::external_body]
pub(crate) fn cred_userpass(username: &str, password: &str) -> Result<git2::Cred, git2::Error> {
    git2::Cred::userpass_plaintext(username, password)
}

/// Relies on `git2::Cred::ssh_key`: an SSH key credential from key files
/// on disk.
#[verifier::external_body]
pub(crate) fn cred_ssh_key(
    username: &str,
    public_key_path: Option<&String>,
    private_key_path: &str,
    passphrase: Option<&String>,
) -> Result<git2::Cred, git2::Error> {
    git2::Cred::ssh_key(
        username,
        public_key_path.map(|p| std::path::Path::new(p.as_str())),
        std::path::Path::new(private_key_path),
        passphrase.map(|p| p.as_str()),
    )
}

/// Relies on `git2::Cred::ssh_key_from_agent`: a credential resolved by
/// the running SSH agent.
#[verifier::external_body]
pub(crate) fn cred_ssh_key_from_agent(username: &str) -> Result<git2::Cred, git2::Error> {
    git2::Cred::ssh_key_from_agent(username)
}

/// Relies on `git2::Error::from_str`: an error carrying this message.
#[verifier::external_body]
pub(crate) fn git_error_from_str(msg: &str) -> git2::Error {
    git2::Error::from_str(msg)
}

/// Relies on `git2::RemoteCallbacks::new`: a fresh, empty callback set.
#[verifier::external_body]
pub(crate) fn callbacks_new<'a>() -> git2::RemoteCallbacks<'a> {
    git2::RemoteCallbacks::new()
}

/// Relies on `git2::Repository::find_commit`: the commit for an id.
#[verifier::external_body]
pub(crate) fn find_commit<'r>(repo: &'r git2::Repository, oid: git2::Oid) -> Result<git2::Commit<'r>, git2::Error> {
    repo.find_commit(oid)
}

/// Relies on `std::sync::mpsc::Sender::send`: hands one record to the
/// progress sink; delivery failure is ignored (fire and forget).
#[verifier::external_body]
pub(crate) fn send_to_sink<T>(tx: &std::sync::mpsc::Sender<T>, value: T) {
    let _ = tx.send(value);
}

/// Relies on `std::sync::mpsc::Sender::clone`: another handle to the
/// same sink.
#[verifier::external_body]
pub(crate) fn clone_sender<T>(tx: &std::sync::mpsc::Sender<T>) -> std::sync::mpsc::Sender<T> {
    tx.clone()
}

/// Relies on `git2::Repository::open`: opens the repository at `path`.
#[verifier::external_body]
pub(crate) fn repo_open(path: &str) -> Result<git2::Repository, git2::Error> {
    git2::Repository::open(path)
}

/// Relies on `git2::Error::message`: the human-readable message of an error.
#[verifier::external_body]
pub(crate) fn error_message(e: &git2::Error) -> String {
    String::from(e.message())
}

/// Relies on `git2::Error::class`: whether the error is of the SSH class.
#[verifier::external_body]
pub(crate) fn error_class_is_ssh(e: &git2::Error) -> bool {
    e.class() == git2::ErrorClass::Ssh
}

/// Relies on `git2::Oid`'s hex rendering: forty hex digits for a full
/// (SHA-1) id, the only kind this build constructs.
#[verifier::external_body]
pub(crate) fn oid_to_hex(oid: &git2::Oid) -> (r: String)
    ensures
        r@.len() == 40,
{
    format!("{}", oid)
}

/// Relies on `git2::Oid::from_str`: parses a hex object id.
#[verifier::external_body]
pub(crate) fn oid_from_hex(s: &str) -> Result<git2::Oid, git2::Error> {
    git2::Oid::from_str(s)
}

/// Relies on `git2::Oid: PartialEq`: object ids compare by value.
#[verifier::external_body]
pub(crate) fn oid_eq(a: &git2::Oid, b: &git2::Oid) -> bool {
    a == b
}

/// Relies on `git2::Repository::head` and `git2::Reference::shorthand` /
/// `target`: the current branch's short name and commit id, where present.
#[verifier::external_body]
pub(crate) fn repo_head_info(repo: &git2::Repository) -> Result<(Option<String>, Option<git2::Oid>), git2::Error> {
    let head = repo.head()?;
    let name = head.shorthand().ok().map(|s| String::from(s));
    Ok((name, head.target()))
}

#[verifier::external_type_specification]
#[verifier::external_body]
pub struct ExTree<'a>(git2::Tree<'a>);

#[verifier::external_type_specification]
#[verifier::external_body]
pub struct ExIndex(git2::Index);

#[verifier::external_type_specification]
#[verifier::external_body]
pub struct ExDiff<'a>(git2::Diff<'a>);

#[verifier::external_type_specification]
#[verifier::external_body]
pub struct ExRevwalk<'a>(git2::Revwalk<'a>);

#[verifier::external_type_specification]
#[verifier::external_body]
pub struct ExSignature<'a>(git2::Signature<'a>);

#[verifier::external_type_specification]
#[verifier::external_body]
pub struct ExAnnotatedCommit<'a>(git2::AnnotatedCommit<'a>);

#[verifier::external_type_specification]
#[verifier::external_body]
pub struct ExRebase<'a>(git2::Rebase<'a>);

#[verifier::external_type_specification]
#[verifier::external_body]
pub struct ExRebaseOperation<'a>(git2::RebaseOperation<'a>);

#[verifier::external_type_specification]
#[verifier::external_body]
pub struct ExRemote<'a>(git2::Remote<'a>);

#[verifier::external_type_specification]
#[verifier::external_body]
pub struct ExFetchOptions<'a>(git2::FetchOptions<'a>);

#[verifier::external_type_specification]
#[verifier::external_body]
pub struct ExPushOptions<'a>(git2::PushOptions<'a>);

#[verifier::external_type_specification]
#[verifier::external_body]
pub struct ExRepoBuilder<'a>(git2::build::RepoBuilder<'a>);

#[verifier::external_type_specification]
#[verifier::external_body]
pub struct ExSubmodule<'a>(git2::Submodule<'a>);

// ---- status and diff ----

/// Relies on `git2::Repository::statuses` with `git2::StatusOptions`:
/// one `(path, status bits)` pair per working-tree / index entry, with
/// untracked and ignored entries included as the flags ask; an entry
/// whose path is not valid text is carried with an empty path.
#[verifier::external_body]
pub(crate) fn read_status_entries(
    repo: &git2::Repository,
    include_untracked: bool,
    include_ignored: bool,
) -> Result<Vec<(String, u32)>, git2::Error> {
    let mut options = git2::StatusOptions::new();
    options.include_untracked(include_untracked);
    options.include_ignored(include_ignored);
    let statuses = repo.statuses(Some(&mut options))?;
    Ok(statuses
        .iter()
        .map(|e| (e.path().map(String::from).unwrap_or_default(), e.status().bits()))
        .collect())
}

/// Relies on `git2::Reference::peel_to_tree` on `HEAD`: the tree of the
/// current head commit.
#[verifier::external_body]
pub(crate) fn head_peel_to_tree(repo: &git2::Repository) -> Result<git2::Tree<'_>, git2::Error> {
    repo.head()?.peel_to_tree()
}

/// Relies on `git2::Repository::index`: the repository's index.
#[verifier::external_body]
pub(crate) fn repo_index(repo: &git2::Repository) -> Result<git2::Index, git2::Error> {
    repo.index()
}

/// Relies on `git2::Repository::diff_tree_to_index`: the staged diff,
/// restricted to `pathspec` when one is given.
#[verifier::external_body]
pub(crate) fn diff_tree_to_index_for_path<'r>(
    repo: &'r git2::Repository,
    old_tree: &git2::Tree<'_>,
    index: &git2::Index,
    pathspec: Option<&String>,
) -> Result<git2::Diff<'r>, git2::Error> {
    let mut options = git2::DiffOptions::new();
    if let Some(p) = pathspec {
        options.pathspec(p.as_str());
    }
    repo.diff_tree_to_index(Some(old_tree), Some(index), Some(&mut options))
}

/// Relies on `git2::Repository::diff_index_to_workdir`: the unstaged
/// diff, restricted to `pathspec` when one is given.
#[verifier::external_body]
pub(crate) fn diff_index_to_workdir_for_path<'r>(
    repo: &'r git2::Repository,
    pathspec: Option<&String>,
) -> Result<git2::Diff<'r>, git2::Error> {
    let mut options = git2::DiffOptions::new();
    if let Some(p) = pathspec {
        options.pathspec(p.as_str());
    }
    repo.diff_index_to_workdir(None, Some(&mut options))
}

/// Relies on `git2::Diff::print` with the patch format: one
/// `(origin, content)` pair per printed line, in print order; content
/// that is not valid text is carried lossily.
#[verifier::external_body]
pub(crate) fn diff_patch_lines(diff: &git2::Diff<'_>) -> Result<Vec<(char, String)>, git2::Error> {
    let mut lines: Vec<(char, String)> = Vec::new();
    diff.print(git2::DiffFormat::Patch, |_delta, _hunk, line| {
        lines.push((line.origin(), String::from_utf8_lossy(line.content()).into_owned()));
        true
    })?;
    Ok(lines)
}

// ---- index ----

/// Relies on `git2::Index::add_path`: stages the file at this
/// repository-relative path.
#[verifier::external_body]
pub(crate) fn index_add_path(index: &mut git2::Index, path: &str) -> Result<(), git2::Error> {
    index.add_path(std::path::Path::new(path))
}

/// Relies on `git2::Index::remove_path`: removes this path from the
/// index.
#[verifier::external_body]
pub(crate) fn index_remove_path(index: &mut git2::Index, path: &str) -> Result<(), git2::Error> {
    index.remove_path(std::path::Path::new(path))
}

/// Relies on `git2::Index::write`: writes the index back to disk.
#[verifier::external_body]
pub(crate) fn index_write(index: &mut git2::Index) -> Result<(), git2::Error> {
    index.write()
}

/// Relies on `git2::Index::write_tree`: writes the index as a tree.
#[verifier::external_body]
pub(crate) fn index_write_tree(index: &mut git2::Index) -> Result<git2::Oid, git2::Error> {
    index.write_tree()
}

/// Relies on `git2::Index::write_tree_to`: writes an in-memory index as
/// a tree into this repository.
#[verifier::external_body]
pub(crate) fn index_write_tree_to(
    index: &mut git2::Index,
    repo: &git2::Repository,
) -> Result<git2::Oid, git2::Error> {
    index.write_tree_to(repo)
}

/// Relies on `git2::Index::has_conflicts`.
#[verifier::external_body]
pub(crate) fn index_has_conflicts(index: &git2::Index) -> bool {
    index.has_conflicts()
}

/// Relies on `git2::Index::conflicts`: the paths of the "our" side of
/// each conflict, in iteration order; conflicts without a readable
/// "our" entry are skipped.
#[verifier::external_body]
pub(crate) fn index_conflict_paths(index: &git2::Index) -> Result<Vec<String>, git2::Error> {
    Ok(index
        .conflicts()?
        .filter_map(|c| {
            c.ok().and_then(|c| {
                c.our.as_ref().and_then(|e| std::str::from_utf8(&e.path).ok().map(String::from))
            })
        })
        .collect())
}

/// Relies on `git2::Tree::get_path`: the file mode and object id of the
/// entry at this path, `None` when the tree has no such entry.
#[verifier::external_body]
pub(crate) fn tree_entry_mode_id(tree: &git2::Tree<'_>, path: &str) -> Option<(u32, git2::Oid)> {
    tree.get_path(std::path::Path::new(path)).ok().map(|e| (e.filemode() as u32, e.id()))
}

/// Relies on `git2::Index::add` with a fresh `git2::IndexEntry` carrying
/// this path, mode and id (all timestamps and stat fields zeroed, as for
/// an entry restored from a tree).
#[verifier::external_body]
pub(crate) fn index_add_entry(
    index: &mut git2::Index,
    path: &str,
    mode: u32,
    id: git2::Oid,
) -> Result<(), git2::Error> {
    let entry = git2::IndexEntry {
        ctime: git2::IndexTime::new(0, 0),
        mtime: git2::IndexTime::new(0, 0),
        dev: 0,
        ino: 0,
        mode,
        uid: 0,
        gid: 0,
        file_size: 0,
        id,
        flags: 0,
        flags_extended: 0,
        path: path.as_bytes().to_vec(),
    };
    index.add(&entry)
}

// ---- commits and history ----

/// Relies on `git2::Repository::signature`: the repository's configured
/// default signature.
#[verifier::external_body]
pub(crate) fn signature_default(repo: &git2::Repository) -> Result<git2::Signature<'static>, git2::Error> {
    repo.signature()
}

/// Relies on `git2::Signature::now`: a signature for this name and
/// email at the current time.
#[verifier::external_body]
pub(crate) fn signature_now(name: &str, email: &str) -> Result<git2::Signature<'static>, git2::Error> {
    git2::Signature::now(name, email)
}

/// Relies on `git2::Signature::name` / `email`: the signature's name
/// and email, lossily empty when not valid text.
#[verifier::external_body]
pub(crate) fn signature_name_email(sig: &git2::Signature<'_>) -> (String, String) {
    (
        String::from(sig.name().ok().unwrap_or("")),
        String::from(sig.email().ok().unwrap_or("")),
    )
}

/// Relies on `git2::Repository::commit`: creates a commit from this
/// tree and these parents, updating `update_ref` when one is given.
#[verifier::external_body]
pub(crate) fn repo_commit(
    repo: &git2::Repository,
    update_ref: Option<&str>,
    author: &git2::Signature<'_>,
    message: &str,
    tree: &git2::Tree<'_>,
    parents: &Vec<git2::Oid>,
) -> Result<git2::Oid, git2::Error> {
    let commits: Vec<git2::Commit<'_>> =
        parents.iter().map(|o| repo.find_commit(*o)).collect::<Result<_, _>>()?;
    let refs: Vec<&git2::Commit<'_>> = commits.iter().collect();
    repo.commit(update_ref, author, author, message, tree, &refs)
}

/// Relies on `git2::Commit::parent_ids`: the parent ids of a commit.
#[verifier::external_body]
pub(crate) fn commit_parent_ids(
    repo: &git2::Repository,
    oid: git2::Oid,
) -> Result<Vec<git2::Oid>, git2::Error> {
    Ok(repo.find_commit(oid)?.parent_ids().collect())
}

/// Relies on `git2::Commit`'s accessors (`message`, `author`,
/// `committer`, `time`, `parent_count`): one history entry for the
/// commit at this id, with text fields lossily empty when invalid.
#[verifier::external_body]
pub(crate) fn commit_history_fields(
    repo: &git2::Repository,
    oid: git2::Oid,
) -> Result<CommitHistoryItem, git2::Error> {
    let commit = repo.find_commit(oid)?;
    let author = commit.author();
    let committer = commit.committer();
    Ok(CommitHistoryItem {
        sha: format!("{}", oid),
        message: String::from(commit.message().ok().unwrap_or("")),
        author_name: String::from(author.name().ok().unwrap_or("")),
        author_email: String::from(author.email().ok().unwrap_or("")),
        author_date: author.when().seconds(),
        committer_name: String::from(committer.name().ok().unwrap_or("")),
        committer_email: String::from(committer.email().ok().unwrap_or("")),
        committer_date: committer.when().seconds(),
        parent_count: commit.parent_count(),
    })
}

/// Relies on `git2::Commit`'s accessors: the summary fields of the
/// commit at this id, for branch listings.
#[verifier::external_body]
pub(crate) fn commit_summary_info(
    repo: &git2::Repository,
    oid: git2::Oid,
) -> Result<CommitInfo, git2::Error> {
    let commit = repo.find_commit(oid)?;
    let author = commit.author();
    Ok(CommitInfo {
        sha: format!("{}", commit.id()),
        message: String::from(commit.message().ok().unwrap_or("")),
        author_name: String::from(author.name().ok().unwrap_or("")),
        author_email: String::from(author.email().ok().unwrap_or("")),
        timestamp: commit.time().seconds(),
    })
}

/// Relies on `git2::Commit::summary`: the first line of the commit's
/// message, where it is valid text.
#[verifier::external_body]
pub(crate) fn commit_summary_text(
    repo: &git2::Repository,
    oid: git2::Oid,
) -> Result<Option<String>, git2::Error> {
    Ok(repo.find_commit(oid)?.summary().ok().flatten().map(String::from))
}

/// Relies on `git2::Repository::revwalk` pushed at `HEAD` and sorted by
/// commit time.
#[verifier::external_body]
pub(crate) fn revwalk_head_time_sorted(repo: &git2::Repository) -> Result<git2::Revwalk<'_>, git2::Error> {
    let mut walk = repo.revwalk()?;
    walk.push_head()?;
    walk.set_sorting(git2::Sort::TIME)?;
    Ok(walk)
}

/// Relies on `git2::Revwalk` as an iterator: the next commit id of the
/// walk, `None` when the walk is done.
#[verifier::external_body]
pub(crate) fn revwalk_next(walk: &mut git2::Revwalk<'_>) -> Option<Result<git2::Oid, git2::Error>> {
    walk.next()
}

/// Relies on `git2::Repository::find_tree`.
#[verifier::external_body]
pub(crate) fn find_tree(repo: &git2::Repository, oid: git2::Oid) -> Result<git2::Tree<'_>, git2::Error> {
    repo.find_tree(oid)
}

/// Relies on `git2::Commit::tree`: the tree of the commit at this id.
#[verifier::external_body]
pub(crate) fn commit_tree(repo: &git2::Repository, oid: git2::Oid) -> Result<git2::Tree<'_>, git2::Error> {
    repo.find_commit(oid)?.tree()
}

// ---- merge and rebase ----

/// Relies on `git2::Repository::merge_base`: the best common ancestor
/// of the two commits.
#[verifier::external_body]
pub(crate) fn merge_base(
    repo: &git2::Repository,
    one: git2::Oid,
    two: git2::Oid,
) -> Result<git2::Oid, git2::Error> {
    repo.merge_base(one, two)
}

/// Relies on `git2::Repository::merge_analysis` over the annotated
/// upstream commit: whether the analysis reports fast-forward, normal
/// merge, and up-to-date opportunities.
#[verifier::external_body]
pub(crate) fn merge_analysis_for(
    repo: &git2::Repository,
    upstream: git2::Oid,
) -> Result<(bool, bool, bool), git2::Error> {
    let annotated = repo.find_annotated_commit(upstream)?;
    let (analysis, _pref) = repo.merge_analysis(&[&annotated])?;
    Ok((analysis.is_fast_forward(), analysis.is_normal(), analysis.is_up_to_date()))
}

/// Relies on `git2::Reference::set_target`: points the reference at
/// this commit, with the given reflog message.
#[verifier::external_body]
pub(crate) fn reference_set_target(
    repo: &git2::Repository,
    refname: &str,
    oid: git2::Oid,
    log_message: &str,
) -> Result<(), git2::Error> {
    let mut reference = repo.find_reference(refname)?;
    reference.set_target(oid, log_message)?;
    Ok(())
}

/// Relies on `git2::Repository::checkout_head` with a forced checkout:
/// makes the working tree match `HEAD`.
#[verifier::external_body]
pub(crate) fn checkout_head_force(repo: &git2::Repository) -> Result<(), git2::Error> {
    repo.checkout_head(Some(git2::build::CheckoutBuilder::default().force()))
}

/// Relies on `git2::Repository::merge_trees`: the merged index of a
/// three-way tree merge; conflicts are left in the returned index.
#[verifier::external_body]
pub(crate) fn merge_trees_index(
    repo: &git2::Repository,
    ancestor: &git2::Tree<'_>,
    ours: &git2::Tree<'_>,
    theirs: &git2::Tree<'_>,
) -> Result<git2::Index, git2::Error> {
    repo.merge_trees(ancestor, ours, theirs, None)
}

/// Relies on `git2::Repository::find_annotated_commit`.
#[verifier::external_body]
pub(crate) fn find_annotated(
    repo: &git2::Repository,
    oid: git2::Oid,
) -> Result<git2::AnnotatedCommit<'_>, git2::Error> {
    repo.find_annotated_commit(oid)
}

/// Relies on `git2::Repository::rebase`: starts a rebase of `branch`
/// onto `upstream`.
#[verifier::external_body]
pub(crate) fn rebase_init<'r>(
    repo: &'r git2::Repository,
    branch: &git2::AnnotatedCommit<'_>,
    upstream: &git2::AnnotatedCommit<'_>,
) -> Result<git2::Rebase<'r>, git2::Error> {
    repo.rebase(Some(branch), Some(upstream), None, None)
}

/// Relies on `git2::Rebase::next`: applies the next rebase step;
/// `None` when no steps remain.
#[verifier::external_body]
pub(crate) fn rebase_next_step(rebase: &mut git2::Rebase<'_>) -> Option<Result<(), git2::Error>> {
    rebase.next().map(|r| r.map(|_op| ()))
}

/// Relies on `git2::Rebase::commit`: commits the applied step with this
/// committer and the step's original message.
#[verifier::external_body]
pub(crate) fn rebase_commit_step(
    rebase: &mut git2::Rebase<'_>,
    committer: &git2::Signature<'_>,
) -> Result<git2::Oid, git2::Error> {
    rebase.commit(None, committer, None)
}

/// Relies on `git2::Rebase::abort`: aborts the rebase, resetting the
/// repository and working directory to their state before it began.
#[verifier::external_body]
pub(crate) fn rebase_abort(rebase: &mut git2::Rebase<'_>) -> Result<(), git2::Error> {
    rebase.abort()
}

/// Relies on `git2::Rebase::finish`: completes the rebase.
#[verifier::external_body]
pub(crate) fn rebase_finish(rebase: &mut git2::Rebase<'_>) -> Result<(), git2::Error> {
    rebase.finish(None)
}

// ---- remotes, fetch, push ----

/// Relies on `git2::Repository::find_remote`.
#[verifier::external_body]
pub(crate) fn find_remote<'r>(
    repo: &'r git2::Repository,
    name: &str,
) -> Result<git2::Remote<'r>, git2::Error> {
    repo.find_remote(name)
}

/// Relies on `git2::Remote::url`: the remote's URL where it is valid
/// text.
#[verifier::external_body]
pub(crate) fn remote_url(remote: &git2::Remote<'_>) -> Option<String> {
    remote.url().ok().map(String::from)
}

/// Relies on `git2::Repository::remotes`: the configured remote names,
/// in configuration order, skipping names that are not valid text.
#[verifier::external_body]
pub(crate) fn remote_names(repo: &git2::Repository) -> Result<Vec<String>, git2::Error> {
    Ok(repo.remotes()?.iter().filter_map(|r| r.ok().flatten().map(String::from)).collect())
}

/// Relies on `git2::Remote::fetch_refspecs`: the remote's configured
/// fetch refspecs, skipping entries that are not valid text.
#[verifier::external_body]
pub(crate) fn remote_fetch_refspecs(remote: &git2::Remote<'_>) -> Result<Vec<String>, git2::Error> {
    Ok(remote.fetch_refspecs()?.iter().filter_map(|r| r.ok().flatten().map(String::from)).collect())
}

/// Relies on `git2::Remote::fetch`: downloads and updates the given
/// refspecs with these options.
#[verifier::external_body]
pub(crate) fn remote_fetch(
    remote: &mut git2::Remote<'_>,
    refspecs: &Vec<String>,
    options: &mut git2::FetchOptions<'_>,
) -> Result<(), git2::Error> {
    let specs: Vec<&str> = refspecs.iter().map(|s| s.as_str()).collect();
    remote.fetch(&specs, Some(options), None)
}

/// Relies on `git2::Remote::push`: pushes the given refspec with these
/// options.
#[verifier::external_body]
pub(crate) fn remote_push(
    remote: &mut git2::Remote<'_>,
    refspec: &str,
    options: &mut git2::PushOptions<'_>,
) -> Result<(), git2::Error> {
    remote.push(&[refspec], Some(options))
}

/// Relies on `git2::Repository::branch_upstream_name`: the full name of
/// the upstream of the branch at `refname`, `None` when it is not
/// valid text.
#[verifier::external_body]
pub(crate) fn branch_upstream_name_str(
    repo: &git2::Repository,
    refname: &str,
) -> Result<Option<String>, git2::Error> {
    Ok(repo.branch_upstream_name(refname)?.as_str().ok().map(String::from))
}

/// Relies on `git2::Repository::refname_to_id`: the id the reference
/// resolves to.
#[verifier::external_body]
pub(crate) fn refname_to_id(repo: &git2::Repository, name: &str) -> Result<git2::Oid, git2::Error> {
    repo.refname_to_id(name)
}

/// Relies on `git2::Reference::target` via `find_reference`: the direct
/// target of the reference, `None` when it is symbolic.
#[verifier::external_body]
pub(crate) fn reference_target(
    repo: &git2::Repository,
    name: &str,
) -> Result<Option<git2::Oid>, git2::Error> {
    Ok(repo.find_reference(name)?.target())
}

/// Relies on `git2::Repository::graph_ahead_behind`: how many commits
/// each side has that the other lacks.
#[verifier::external_body]
pub(crate) fn graph_ahead_behind(
    repo: &git2::Repository,
    local: git2::Oid,
    upstream: git2::Oid,
) -> Result<(usize, usize), git2::Error> {
    repo.graph_ahead_behind(local, upstream)
}

/// Relies on `git2::FetchOptions::new` and `remote_callbacks`: fetch
/// options carrying these callbacks.
#[verifier::external_body]
pub(crate) fn fetch_options_with<'a>(callbacks: git2::RemoteCallbacks<'a>) -> git2::FetchOptions<'a> {
    let mut options = git2::FetchOptions::new();
    options.remote_callbacks(callbacks);
    options
}

/// Relies on `git2::PushOptions::new` and `remote_callbacks`: push
/// options carrying these callbacks.
#[verifier::external_body]
pub(crate) fn push_options_with<'a>(callbacks: git2::RemoteCallbacks<'a>) -> git2::PushOptions<'a> {
    let mut options = git2::PushOptions::new();
    options.remote_callbacks(callbacks);
    options
}

// ---- branches ----

/// Relies on `git2::Repository::branches`: the names of the local or
/// remote branches, skipping those that are not valid text.
#[verifier::external_body]
pub(crate) fn branch_names(repo: &git2::Repository, local: bool) -> Result<Vec<String>, git2::Error> {
    let kind = if local { git2::BranchType::Local } else { git2::BranchType::Remote };
    let mut names: Vec<String> = Vec::new();
    for entry in repo.branches(Some(kind))? {
        if let Ok((branch, _)) = entry {
            if let Ok(Some(name)) = branch.name() {
                names.push(String::from(name));
            }
        }
    }
    Ok(names)
}

/// Relies on `git2::Repository::find_branch`: whether a branch of this
/// name and kind exists.
#[verifier::external_body]
pub(crate) fn branch_exists(repo: &git2::Repository, name: &str, local: bool) -> bool {
    let kind = if local { git2::BranchType::Local } else { git2::BranchType::Remote };
    repo.find_branch(name, kind).is_ok()
}

/// Relies on `git2::Repository::find_branch` and
/// `git2::Reference::target`: the branch's target id; `Err` when the
/// branch does not exist, `Ok(None)` when it has no direct target.
#[verifier::external_body]
pub(crate) fn find_branch_oid(
    repo: &git2::Repository,
    name: &str,
    local: bool,
) -> Result<Option<git2::Oid>, git2::Error> {
    let kind = if local { git2::BranchType::Local } else { git2::BranchType::Remote };
    Ok(repo.find_branch(name, kind)?.get().target())
}

/// Relies on `git2::Branch::upstream` and `name`: the short name of the
/// local branch's upstream, `None` when it has none readable.
#[verifier::external_body]
pub(crate) fn branch_upstream_shortname(repo: &git2::Repository, name: &str) -> Option<String> {
    repo.find_branch(name, git2::BranchType::Local)
        .ok()
        .and_then(|b| b.upstream().ok())
        .and_then(|u| u.name().ok().flatten().map(String::from))
}

/// Relies on `git2::Repository::branch`: creates a branch of this name
/// at this commit, without forcing.
#[verifier::external_body]
pub(crate) fn create_branch_at(
    repo: &git2::Repository,
    name: &str,
    target: git2::Oid,
) -> Result<(), git2::Error> {
    let commit = repo.find_commit(target)?;
    repo.branch(name, &commit, false)?;
    Ok(())
}

/// Relies on `git2::Branch::delete`: deletes the local branch of this
/// name.
#[verifier::external_body]
pub(crate) fn delete_branch_ref(repo: &git2::Repository, name: &str) -> Result<(), git2::Error> {
    repo.find_branch(name, git2::BranchType::Local)?.delete()
}

/// Relies on `git2::Repository::set_head`: points `HEAD` at this
/// reference.
#[verifier::external_body]
pub(crate) fn set_head_ref(repo: &git2::Repository, refname: &str) -> Result<(), git2::Error> {
    repo.set_head(refname)
}

/// Relies on `git2::Repository::checkout_tree` in safe mode: updates
/// the working tree to the tree of the commit at this id, recreating
/// missing files when asked.
#[verifier::external_body]
pub(crate) fn checkout_commit_tree(
    repo: &git2::Repository,
    oid: git2::Oid,
    recreate_missing: bool,
) -> Result<(), git2::Error> {
    let commit = repo.find_commit(oid)?;
    let tree = commit.tree()?;
    let mut builder = git2::build::CheckoutBuilder::new();
    builder.safe().recreate_missing(recreate_missing);
    repo.checkout_tree(tree.as_object(), Some(&mut builder))
}

/// Relies on `git2::Config::set_str` via `git2::Repository::config`:
/// sets one configuration key.
#[verifier::external_body]
pub(crate) fn config_set_str(repo: &git2::Repository, key: &str, value: &str) -> Result<(), git2::Error> {
    repo.config()?.set_str(key, value)
}

// ---- clone ----

/// Relies on `git2::build::RepoBuilder::new`.
#[verifier::external_body]
pub(crate) fn repo_builder_new<'a>() -> git2::build::RepoBuilder<'a> {
    git2::build::RepoBuilder::new()
}

/// Relies on `git2::build::RepoBuilder::fetch_options`.
#[verifier::external_body]
pub(crate) fn builder_set_fetch_options<'a>(
    builder: &mut git2::build::RepoBuilder<'a>,
    options: git2::FetchOptions<'a>,
) {
    builder.fetch_options(options);
}

/// Relies on `git2::build::RepoBuilder::branch`: clone this branch
/// instead of the remote's default.
#[verifier::external_body]
pub(crate) fn builder_set_branch(builder: &mut git2::build::RepoBuilder<'_>, name: &str) {
    builder.branch(name);
}

/// Relies on `git2::build::RepoBuilder::clone`: clones the repository
/// at `url` into `path` (creating the directory path as needed).
#[verifier::external_body]
pub(crate) fn builder_clone(
    builder: &mut git2::build::RepoBuilder<'_>,
    url: &str,
    path: &str,
) -> Result<git2::Repository, git2::Error> {
    builder.clone(url, std::path::Path::new(path))
}

/// Relies on `git2::Repository::submodules`: the repository's
/// submodules.
#[verifier::external_body]
pub(crate) fn repo_submodules(repo: &git2::Repository) -> Result<Vec<git2::Submodule<'_>>, git2::Error> {
    repo.submodules()
}

/// Relies on `git2::Submodule::name`: the submodule's name where it is
/// valid text.
#[verifier::external_body]
pub(crate) fn submodule_name(submodule: &git2::Submodule<'_>) -> Option<String> {
    submodule.name().ok().map(String::from)
}

/// Relies on `git2::Submodule::clone`: clones the submodule with
/// default options.
#[verifier::external_body]
pub(crate) fn submodule_clone(submodule: &mut git2::Submodule<'_>) -> Result<(), git2::Error> {
    git2::Submodule::clone(submodule, None)?;
    Ok(())
}

/// Relies on `git2::Odb::foreach` via `git2::Repository::odb`: counts
/// the objects in the object database by ticking a verified counter.
#[verifier::external_body]
pub(crate) fn odb_object_count(repo: &git2::Repository) -> Result<usize, git2::Error> {
    let odb = repo.odb()?;
    let mut count: usize = 0;
    odb.foreach(|_| crate::gitio::count_tick(&mut count))?;
    Ok(count)
}

/// Relies on `git2::Repository::workdir`: the working directory of a
/// non-bare repository, where it is valid text.
#[verifier::external_body]
pub(crate) fn repo_workdir(repo: &git2::Repository) -> Option<String> {
    repo.workdir().and_then(|p| p.to_str().map(String::from))
}

// ---- callback installation ----

/// Relies on `git2::RemoteCallbacks::credentials`: installs a callback
/// that answers every authentication query through the verified
/// `credential_callback_step` for this configured material.
#[verifier::external_body]
pub(crate) fn callbacks_set_auth_credentials(
    callbacks: &mut git2::RemoteCallbacks<'_>,
    auth: crate::types::AuthConfig,
) {
    callbacks.credentials(move |_url, username_from_url, allowed| {
        crate::auth::credential_callback_step(
            &auth,
            username_from_url,
            allowed.contains(git2::CredentialType::USER_PASS_PLAINTEXT),
            allowed.contains(git2::CredentialType::SSH_KEY),
            allowed.contains(git2::CredentialType::DEFAULT),
        )
    });
}

/// Relies on `git2::RemoteCallbacks::credentials`: installs a callback
/// that answers every authentication query through the verified
/// `token_callback_step`, with a fresh per-operation attempt counter.
#[verifier::external_body]
pub(crate) fn callbacks_set_token_credentials(
    callbacks: &mut git2::RemoteCallbacks<'_>,
    token: Option<String>,
) {
    let mut attempts: u32 = 0;
    callbacks.credentials(move |url, username_from_url, _allowed| {
        crate::auth::token_callback_step(&mut attempts, token.as_ref(), username_from_url, url)
    });
}

/// Relies on `git2::RemoteCallbacks::certificate_check`: installs a
/// callback that accepts every certificate and host key.  This is the
/// engine's deliberate (and questionable) trust policy, working around
/// host-key algorithm mismatches; trust is delegated to the transport
/// layer.
#[verifier::external_body]
pub(crate) fn callbacks_accept_all_certificates(callbacks: &mut git2::RemoteCallbacks<'_>) {
    callbacks.certificate_check(|_cert, _hostname| {
        Ok(git2::CertificateCheckStatus::CertificateOk)
    });
}

/// Relies on `git2::RemoteCallbacks::transfer_progress`: installs a
/// callback that reads the transfer counters and hands them to the
/// verified `on_transfer`, which emits one clamped progress record.
#[verifier::external_body]
pub(crate) fn callbacks_set_transfer_progress(
    callbacks: &mut git2::RemoteCallbacks<'_>,
    data: crate::progress::ProgressData,
    emitter: crate::progress::ProgressEmitter,
) {
    let mut data = data;
    let mut emitter = emitter;
    callbacks.transfer_progress(move |p| {
        crate::progress::on_transfer(
            &mut data,
            &mut emitter,
            p.received_bytes(),
            p.received_objects(),
            p.total_objects(),
            p.indexed_objects(),
        )
    });
}

/// One step of a saturating counter; the object-count callback above
/// calls this.
pub(crate) fn count_tick(n: &mut usize) -> (r: bool)
    ensures
        *final(n) as int == if *old(n) < usize::MAX {
            *old(n) + 1
        } else {
            *old(n) as int
        },
        r == true,
{
    if *n < usize::MAX {
        *n = *n + 1;
    }
    true
}

} // verus!
