use atomdesk::commands::{
    classify_clone_directory, classify_current_branch_output, classify_pull_output,
    conflict_sync_result, detect_protocol_from_url, extract_domain_from_url, fetch_system_args,
    parse_ahead_behind, parse_conflict_file_list, parse_pull_strategy, pull_system_args,
    push_system_args, ssh_env_command, system_sync_success, validate_repository_url, GitState,
    PullOutcome,
};
use atomdesk::clone::CloneManager;
use atomdesk::operations::build_push_refspec;
use atomdesk::types::{AuthConfig, AuthType, CloneOptions, PullStrategy};

#[test]
fn url_validation() {
    assert!(validate_repository_url("https://github.com/u/r.git"));
    assert!(validate_repository_url("git@github.com:u/r.git"));
    assert!(validate_repository_url("ssh://git@host/r.git"));
    assert!(validate_repository_url("http://host/r.git"));
    assert!(!validate_repository_url(""));
    assert!(!validate_repository_url("ftp://host/r.git"));
    assert!(!validate_repository_url("github.com/u/r"));
}

#[test]
fn protocol_detection() {
    assert_eq!(detect_protocol_from_url("https://github.com/u/r.git"), "https");
    assert_eq!(detect_protocol_from_url("http://h/r"), "https");
    assert_eq!(detect_protocol_from_url("git@github.com:u/r.git"), "ssh");
    assert_eq!(detect_protocol_from_url("ssh://git@h/r"), "ssh");
    assert_eq!(detect_protocol_from_url("ftp://h/r"), "unknown");
}

#[test]
fn domain_extraction() {
    assert_eq!(
        extract_domain_from_url("https://github.com/u/r.git"),
        Ok(String::from("github.com"))
    );
    assert_eq!(
        extract_domain_from_url("git@gitlab.example.org:team/repo.git"),
        Ok(String::from("gitlab.example.org"))
    );
    // the scp-style fallback takes any user, not only git
    assert_eq!(
        extract_domain_from_url("deploy@code.example.net:apps/site.git"),
        Ok(String::from("code.example.net"))
    );
    assert_eq!(
        extract_domain_from_url("ssh://git@bitbucket.org/team/repo.git"),
        Ok(String::from("bitbucket.org"))
    );
    assert!(extract_domain_from_url("not a url at all").is_err());
}

#[test]
fn cancellation_table() {
    let mut state = GitState::new();
    assert!(!state.get_clone_operation_status("op-1"));
    state.cancel_clone_operation("op-1");
    assert!(state.get_clone_operation_status("op-1"));
    assert!(!state.get_clone_operation_status("op-2"));
    state.cleanup_clone_operation("op-1");
    assert!(!state.get_clone_operation_status("op-1"));
}

#[test]
fn system_command_arguments() {
    assert_eq!(fetch_system_args("origin"), vec!["fetch", "origin"]);
    assert_eq!(push_system_args("origin", "main", false), vec!["push", "origin", "main"]);
    assert_eq!(
        push_system_args("origin", "main", true),
        vec!["push", "--force", "origin", "main"]
    );
    assert_eq!(pull_system_args(PullStrategy::Merge), vec!["pull"]);
    assert_eq!(pull_system_args(PullStrategy::Rebase), vec!["pull", "--rebase"]);
}

#[test]
fn pull_strategy_parsing() {
    assert!(matches!(parse_pull_strategy("merge"), Ok(PullStrategy::Merge)));
    assert!(matches!(parse_pull_strategy("rebase"), Ok(PullStrategy::Rebase)));
    assert!(parse_pull_strategy("fast-forward").is_err());
    assert!(parse_pull_strategy("").is_err());
}

#[test]
fn ssh_environment() {
    assert_eq!(
        ssh_env_command(None),
        "ssh -o ConnectTimeout=10 -o BatchMode=yes"
    );
    let key = String::from("/home/u/.ssh/id_ed25519");
    assert_eq!(
        ssh_env_command(Some(&key)),
        "ssh -i \"/home/u/.ssh/id_ed25519\" -o StrictHostKeyChecking=no -o ConnectTimeout=10 -o BatchMode=yes"
    );
}

#[test]
fn ahead_behind_parsing() {
    assert_eq!(parse_ahead_behind("2\t3"), (2, 3));
    assert_eq!(parse_ahead_behind("0\t0"), (0, 0));
    assert_eq!(parse_ahead_behind("nonsense"), (0, 0));
    assert_eq!(parse_ahead_behind("1\t2\t3"), (0, 0));
    assert_eq!(parse_ahead_behind("x\t7"), (0, 7));
}

#[test]
fn pull_output_classification() {
    assert!(matches!(classify_pull_output(true, ""), PullOutcome::Success));
    assert!(matches!(
        classify_pull_output(false, "CONFLICT (content): merge conflict in a.txt"),
        PullOutcome::Conflicts
    ));
    assert!(matches!(
        classify_pull_output(false, "fatal: could not read from remote"),
        PullOutcome::Failed
    ));
}

#[test]
fn conflict_file_list_parsing() {
    let files = parse_conflict_file_list(" a.txt \nsrc/b.rs\n\n");
    assert_eq!(files, vec!["a.txt", "src/b.rs"]);
    assert!(parse_conflict_file_list("\n\n").is_empty());
}

#[test]
fn sync_result_construction() {
    let conflict = conflict_sync_result(vec![String::from("a.txt")]);
    assert!(!conflict.success);
    assert!(conflict.has_conflicts);
    assert_eq!(conflict.ahead, 0);
    assert_eq!(conflict.behind, 0);
    let ok = system_sync_success("fetched remote changes", 1, 2);
    assert!(ok.success);
    assert!(!ok.has_conflicts);
    assert_eq!((ok.ahead, ok.behind), (1, 2));
}

#[test]
fn current_branch_classification() {
    assert!(classify_current_branch_output(false, "main").is_err());
    assert!(classify_current_branch_output(true, "  \n").is_err());
    assert_eq!(classify_current_branch_output(true, "main\n").unwrap(), "main");
}

#[test]
fn directory_classification() {
    let created = classify_clone_directory(false, None, false, false, false);
    assert!(created.is_valid && created.is_empty && created.is_writable);
    let create_failed =
        classify_clone_directory(false, Some(&String::from("denied")), false, false, false);
    assert!(!create_failed.is_valid);
    let not_dir = classify_clone_directory(true, None, false, true, true);
    assert!(!not_dir.is_valid);
    let usable = classify_clone_directory(true, None, true, true, true);
    assert!(usable.is_valid);
    let full = classify_clone_directory(true, None, true, false, true);
    assert!(!full.is_valid && !full.is_empty);
}

#[test]
fn push_refspec_construction() {
    assert_eq!(build_push_refspec("main", false), "refs/heads/main:refs/heads/main");
    assert_eq!(build_push_refspec("main", true), "+refs/heads/main:refs/heads/main");
}

#[test]
fn system_tool_output_classification() {
    assert!(CloneManager::classify_system_clone_output(true, "").is_ok());
    match CloneManager::classify_system_clone_output(false, "fatal: repository not found") {
        Err(atomdesk::types::GitError::SystemGitFailed { message }) => {
            assert_eq!(message, "fatal: repository not found");
        }
        other => panic!("expected SystemGitFailed, got {:?}", other),
    }
    assert!(matches!(
        CloneManager::classify_system_git_version(false, ""),
        Err(atomdesk::types::GitError::SystemGitNotFound)
    ));
    assert_eq!(
        CloneManager::classify_system_git_version(true, "git version 2.43.0\n").unwrap(),
        "git version 2.43.0"
    );
}

#[test]
fn system_clone_command_construction() {
    let options = CloneOptions {
        url: String::from("git@github.com:u/r.git"),
        directory: String::from("/tmp/dest"),
        branch: Some(String::from("dev")),
        depth: Some(3),
        recursive: true,
        auth: Some(AuthConfig {
            auth_type: AuthType::Ssh,
            username: None,
            password: None,
            token: None,
            ssh_key_path: Some(String::from("/home/u/.ssh/id_ed25519")),
            ssh_key_passphrase: None,
        }),
    };
    let (args, env) = CloneManager::system_git_clone_command(&options);
    assert_eq!(
        args,
        vec![
            "clone",
            "--branch",
            "dev",
            "--depth",
            "3",
            "--recursive",
            "git@github.com:u/r.git",
            "/tmp/dest"
        ]
    );
    assert_eq!(
        env.unwrap(),
        "ssh -i \"/home/u/.ssh/id_ed25519\" -o StrictHostKeyChecking=accept-new"
    );

    let plain = CloneOptions {
        url: String::from("https://github.com/u/r.git"),
        directory: String::from("/tmp/dest"),
        branch: None,
        depth: None,
        recursive: false,
        auth: None,
    };
    let (args, env) = CloneManager::system_git_clone_command(&plain);
    assert_eq!(args, vec!["clone", "https://github.com/u/r.git", "/tmp/dest"]);
    assert!(env.is_none());
}
