//! Integration tests against real repositories, built in-process and
//! driven entirely over the local transport.

use atomdesk::branches::{create_branch, delete_branch, list_branches, switch_branch};
use atomdesk::clone::CloneManager;
use atomdesk::types::CloneStage;
use atomdesk::operations::{
    create_commit, fetch_remote, get_commit_history, get_repository_status, perform_merge,
    perform_rebase, pull_remote,
};
use atomdesk::types::{CloneOptions, CommitOptions, GitError, PullStrategy};

fn fresh_dir(label: &str) -> String {
    format!("/tmp/atomdesk_test_{}_{}", label, uuid::Uuid::new_v4())
}

/// A repository with one commit holding `a.txt`, its working tree and
/// index checked out to match.
fn repo_with_commit(label: &str) -> (git2::Repository, String) {
    let path = fresh_dir(label);
    let repo = git2::Repository::init(&path).unwrap();
    {
        let mut config = repo.config().unwrap();
        config.set_str("user.name", "Tester").unwrap();
        config.set_str("user.email", "tester@example.com").unwrap();
    }
    commit_file(&repo, "a.txt", b"base\n", "initial commit", true);
    repo.checkout_head(Some(git2::build::CheckoutBuilder::default().force()))
        .unwrap();
    (repo, path)
}

/// Commits one file on top of the current head of `refname` (or HEAD),
/// building the tree in the object database.
fn commit_file(
    repo: &git2::Repository,
    name: &str,
    content: &[u8],
    message: &str,
    on_head: bool,
) -> git2::Oid {
    let blob = repo.blob(content).unwrap();
    let parent = repo.head().ok().and_then(|h| h.target());
    let base_tree = parent
        .and_then(|p| repo.find_commit(p).ok())
        .and_then(|c| c.tree().ok());
    let mut builder = repo.treebuilder(base_tree.as_ref()).unwrap();
    builder.insert(name, blob, 0o100644).unwrap();
    let tree_id = builder.write().unwrap();
    let tree = repo.find_tree(tree_id).unwrap();
    let sig = repo.signature().unwrap();
    let parents: Vec<git2::Commit> =
        parent.map(|p| vec![repo.find_commit(p).unwrap()]).unwrap_or_default();
    let parent_refs: Vec<&git2::Commit> = parents.iter().collect();
    let update_ref = if on_head { Some("HEAD") } else { None };
    repo.commit(update_ref, &sig, &sig, message, &tree, &parent_refs)
        .unwrap()
}

fn head_branch_name(repo: &git2::Repository) -> String {
    repo.head().unwrap().shorthand().unwrap().to_string()
}

#[test]
fn status_clean_after_commit() {
    let (_repo, path) = repo_with_commit("status_clean");
    let status = get_repository_status(&path).unwrap();
    assert!(status.is_clean, "unexpected entries: {:?}", status.files);
    assert!(status.files.is_empty());
    assert_eq!((status.ahead, status.behind), (0, 0));
}

#[test]
fn status_shows_staged_change() {
    let (repo, path) = repo_with_commit("status_staged");
    let mut index = repo.index().unwrap();
    let entry = git2::IndexEntry {
        ctime: git2::IndexTime::new(0, 0),
        mtime: git2::IndexTime::new(0, 0),
        dev: 0,
        ino: 0,
        mode: 0o100644,
        uid: 0,
        gid: 0,
        file_size: 0,
        id: git2::Oid::zero(),
        flags: 0,
        flags_extended: 0,
        path: b"a.txt".to_vec(),
    };
    index.add_frombuffer(&entry, b"base\nmore\n").unwrap();
    index.write().unwrap();
    let status = get_repository_status(&path).unwrap();
    assert!(!status.is_clean);
    let staged: Vec<_> = status.files.iter().filter(|f| f.staged).collect();
    assert_eq!(staged.len(), 1);
    assert_eq!(staged[0].path, "a.txt");
    assert_eq!(staged[0].status, "modified");
    assert!(staged[0].additions >= 1);
}

#[test]
fn commit_and_history() {
    let (_repo, path) = repo_with_commit("history");
    let options = CommitOptions {
        message: String::from("empty follow-up"),
        description: Some(String::from("details")),
        author_name: None,
        author_email: None,
        amend: false,
        signoff: false,
    };
    let sha = create_commit(&path, &options).unwrap();
    assert_eq!(sha.len(), 40);
    let history = get_commit_history(&path, 10, 0).unwrap();
    assert_eq!(history.len(), 2);
    assert_eq!(history[0].message, "empty follow-up\n\ndetails");
    assert_eq!(history[0].parent_count, 1);
    assert_eq!(history[1].message, "initial commit");
    let skipped = get_commit_history(&path, 10, 1).unwrap();
    assert_eq!(skipped.len(), 1);
    let limited = get_commit_history(&path, 1, 0).unwrap();
    assert_eq!(limited.len(), 1);
}

#[test]
fn switch_blocked_by_uncommitted_changes() {
    let (repo, path) = repo_with_commit("switch_blocked");
    let before = repo.head().unwrap().target().unwrap();
    assert!(create_branch(&path, "other", None, false).unwrap().success);
    // stage a modification, leaving the tree dirty
    let mut index = repo.index().unwrap();
    let entry = git2::IndexEntry {
        ctime: git2::IndexTime::new(0, 0),
        mtime: git2::IndexTime::new(0, 0),
        dev: 0,
        ino: 0,
        mode: 0o100644,
        uid: 0,
        gid: 0,
        file_size: 0,
        id: git2::Oid::zero(),
        flags: 0,
        flags_extended: 0,
        path: b"a.txt".to_vec(),
    };
    index.add_frombuffer(&entry, b"dirty\n").unwrap();
    index.write().unwrap();

    let result = switch_branch(&path, "other").unwrap();
    assert!(!result.success);
    assert!(result.has_uncommitted_changes);
    assert!(!result.uncommitted_files.is_empty());
    assert!(result.uncommitted_files.iter().all(|f| f == "a.txt"));
    // nothing moved
    let head_after = repo.head().unwrap();
    assert_eq!(head_after.target().unwrap(), before);
}

#[test]
fn create_branch_then_switch() {
    let (repo, path) = repo_with_commit("create_switch");
    let head_hex = repo.head().unwrap().target().unwrap().to_string();
    let created = create_branch(&path, "feature/x", Some(&head_hex), false).unwrap();
    assert!(created.success);
    let branches = list_branches(&path).unwrap();
    let feature = branches.iter().find(|b| b.name == "feature/x").unwrap();
    assert!(!feature.is_remote);
    assert_eq!((feature.ahead, feature.behind), (0, 0));
    let switched = switch_branch(&path, "feature/x").unwrap();
    assert!(switched.success, "switch failed: {}", switched.message);
    assert_eq!(head_branch_name(&repo), "feature/x");
}

#[test]
fn create_branch_duplicate_fails() {
    let (_repo, path) = repo_with_commit("create_dup");
    assert!(create_branch(&path, "dup", None, false).unwrap().success);
    assert!(matches!(
        create_branch(&path, "dup", None, false),
        Err(GitError::Unknown { .. })
    ));
}

#[test]
fn delete_current_branch_refused() {
    let (repo, path) = repo_with_commit("delete_current");
    let current = head_branch_name(&repo);
    let result = delete_branch(&path, &current, false);
    match result {
        Err(GitError::Unknown { message }) => assert!(!message.is_empty()),
        other => panic!("expected a refusal, got {:?}", other),
    }
    // the branch is still there
    assert!(repo.find_branch(&current, git2::BranchType::Local).is_ok());
    // another branch deletes fine
    assert!(create_branch(&path, "doomed", None, false).unwrap().success);
    assert!(delete_branch(&path, "doomed", false).unwrap().success);
}

#[test]
fn merge_fast_forward_moves_branch() {
    let (repo, path) = repo_with_commit("merge_ff");
    let base = repo.head().unwrap().target().unwrap();
    // keep a branch at the base, then advance the original branch
    assert!(create_branch(&path, "behind", None, false).unwrap().success);
    let advanced = commit_file(&repo, "a.txt", b"advanced\n", "advance", true);
    // stand on the stale branch
    repo.set_head("refs/heads/behind").unwrap();
    repo.checkout_head(Some(git2::build::CheckoutBuilder::default().force()))
        .unwrap();
    let result = perform_merge(&repo, base, advanced).unwrap();
    assert!(result.success, "merge failed: {}", result.message);
    assert!(!result.has_conflicts);
    let behind_target = repo
        .find_branch("behind", git2::BranchType::Local)
        .unwrap()
        .get()
        .target()
        .unwrap();
    assert_eq!(behind_target, advanced, "fast-forward must move the branch pointer");
}

#[test]
fn merge_conflict_reported_without_commit() {
    let (repo, _path) = repo_with_commit("merge_conflict");
    let base = repo.head().unwrap().target().unwrap();
    // one side
    let ours = commit_file(&repo, "a.txt", b"ours\n", "our change", true);
    // the other side, branched from the base
    let base_commit = repo.find_commit(base).unwrap();
    repo.branch("theirs-branch", &base_commit, false).unwrap();
    repo.set_head("refs/heads/theirs-branch").unwrap();
    repo.checkout_head(Some(git2::build::CheckoutBuilder::default().force()))
        .unwrap();
    let theirs = commit_file(&repo, "a.txt", b"theirs\n", "their change", true);
    let result = perform_merge(&repo, theirs, ours).unwrap();
    assert!(!result.success);
    assert!(result.has_conflicts);
    assert_eq!(result.conflict_files, vec![String::from("a.txt")]);
    // no merge commit was created on the current branch
    let head_now = repo.head().unwrap().target().unwrap();
    assert_eq!(head_now, theirs);
}

#[test]
fn rebase_conflict_restores_head() {
    let (repo, _path) = repo_with_commit("rebase_conflict");
    let base = repo.head().unwrap().target().unwrap();
    let ours = commit_file(&repo, "a.txt", b"ours\n", "our change", true);
    let base_commit = repo.find_commit(base).unwrap();
    repo.branch("rebase-me", &base_commit, false).unwrap();
    repo.set_head("refs/heads/rebase-me").unwrap();
    repo.checkout_head(Some(git2::build::CheckoutBuilder::default().force()))
        .unwrap();
    let theirs = commit_file(&repo, "a.txt", b"theirs\n", "their change", true);
    repo.checkout_head(Some(git2::build::CheckoutBuilder::default().force()))
        .unwrap();

    let result = perform_rebase(&repo, theirs, ours).unwrap();
    assert!(!result.success);
    assert!(result.has_conflicts);
    assert!(result.conflict_files.contains(&String::from("a.txt")));
    // the abort restored the pre-rebase head and a conflict-free index
    let head_now = repo.head().unwrap().target().unwrap();
    assert_eq!(head_now, theirs, "head must be back at its pre-rebase commit");
    assert!(!repo.index().unwrap().has_conflicts());
}

#[test]
fn fetch_and_pull_over_local_transport() {
    let (repo, path) = repo_with_commit("fetch_pull");
    let branch = head_branch_name(&repo);
    let remote_path = fresh_dir("fetch_pull_remote");
    git2::Repository::init_bare(&remote_path).unwrap();
    repo.remote("origin", &remote_path).unwrap();
    {
        let mut origin = repo.find_remote("origin").unwrap();
        let refspec = format!("refs/heads/{}:refs/heads/{}", branch, branch);
        origin.push(&[refspec.as_str()], None).unwrap();
    }
    {
        let mut config = repo.config().unwrap();
        config
            .set_str(&format!("branch.{}.remote", branch), "origin")
            .unwrap();
        config
            .set_str(
                &format!("branch.{}.merge", branch),
                &format!("refs/heads/{}", branch),
            )
            .unwrap();
    }
    let fetched = fetch_remote(&path, None).unwrap();
    assert!(fetched.success);
    assert!(!fetched.has_conflicts);
    assert_eq!((fetched.ahead, fetched.behind), (0, 0));

    let pulled = pull_remote(&path, PullStrategy::Merge).unwrap();
    assert!(pulled.success);
    assert_eq!(pulled.message, "already up to date");
}

#[test]
fn clone_into_nonempty_directory_refused() {
    // the crate root is a guaranteed non-empty existing directory
    let (tx, _rx) = std::sync::mpsc::channel();
    let manager = CloneManager::new(tx);
    let mut emitter = manager.new_operation_emitter();
    let options = CloneOptions {
        url: String::from("https://example/repo.git"),
        directory: String::from("."),
        branch: None,
        depth: None,
        recursive: false,
        auth: None,
    };
    match manager.clone_with_embedded(&options, &mut emitter) {
        Err(GitError::DirectoryExists { path }) => assert_eq!(path, "."),
        other => panic!("expected DirectoryExists, got {:?}", other),
    }
}

#[test]
fn system_git_fallback_completes_at_one_hundred() {
    // a repository the external tool "has just cloned"
    let (_repo, path) = repo_with_commit("fallback_done");
    let (tx, rx) = std::sync::mpsc::channel();
    let manager = CloneManager::new(tx);
    let options = CloneOptions {
        url: String::from("https://example/repo.git"),
        directory: path,
        branch: None,
        depth: None,
        recursive: false,
        auth: None,
    };
    let mut emitter = manager.new_operation_emitter();
    let (args, env) = CloneManager::start_system_git_clone(&options, &mut emitter);
    assert_eq!(args[0], "clone");
    assert!(env.is_none());
    let result = manager
        .complete_system_git_clone(&options, &mut emitter, 0, true, "")
        .unwrap();
    assert!(result.success);
    drop(emitter);
    drop(manager);
    let events: Vec<_> = rx.iter().collect();
    assert!(events.len() >= 3);
    let mut last = 0;
    for ev in &events {
        assert!(ev.progress >= last && ev.progress <= 100);
        last = ev.progress;
    }
    let final_event = events.last().unwrap();
    assert!(matches!(final_event.stage, CloneStage::Completed));
    assert_eq!(final_event.progress, 100);
}

#[test]
fn system_git_fallback_failure_is_reported() {
    let (tx, rx) = std::sync::mpsc::channel();
    let manager = CloneManager::new(tx);
    let options = CloneOptions {
        url: String::from("https://example/repo.git"),
        directory: fresh_dir("fallback_failed"),
        branch: None,
        depth: None,
        recursive: false,
        auth: None,
    };
    let mut emitter = manager.new_operation_emitter();
    let _ = CloneManager::start_system_git_clone(&options, &mut emitter);
    match manager.complete_system_git_clone(&options, &mut emitter, 0, false, "fatal: no route") {
        Err(GitError::SystemGitFailed { message }) => assert_eq!(message, "fatal: no route"),
        other => panic!("expected SystemGitFailed, got {:?}", other),
    }
    drop(emitter);
    drop(manager);
    let events: Vec<_> = rx.iter().collect();
    assert!(matches!(events.last().unwrap().stage, CloneStage::Error));
}

#[test]
fn open_missing_repository_is_a_library_error() {
    let missing = fresh_dir("missing");
    match get_repository_status(&missing) {
        Err(GitError::Git { message, .. }) => assert!(!message.is_empty()),
        other => panic!("expected a library error, got {:?}", other),
    }
}

#[test]
fn clone_rejects_bad_urls() {
    let (tx, _rx) = std::sync::mpsc::channel();
    let manager = CloneManager::new(tx);
    let mut options = CloneOptions {
        url: String::new(),
        directory: fresh_dir("clone_url"),
        branch: None,
        depth: None,
        recursive: false,
        auth: None,
    };
    let mut emitter = manager.new_operation_emitter();
    assert!(matches!(
        manager.clone_with_embedded(&options, &mut emitter),
        Err(GitError::InvalidUrl { .. })
    ));
    options.url = String::from("ftp://host/repo.git");
    let mut emitter = manager.new_operation_emitter();
    assert!(matches!(
        manager.clone_with_embedded(&options, &mut emitter),
        Err(GitError::InvalidUrl { .. })
    ));
    options.url = String::from("https://example/repo.git");
    options.directory = String::new();
    let mut emitter = manager.new_operation_emitter();
    assert!(matches!(
        manager.clone_with_embedded(&options, &mut emitter),
        Err(GitError::Unknown { .. })
    ));
}
