use belljar_core::{ensure_worktree, is_git_repo_invocation, worktree_attempts, worktree_dir,
    CoreError};

fn strings(v: &[&str]) -> Vec<String> {
    v.iter().map(|s| s.to_string()).collect()
}

#[test]
fn worktree_dir_is_deterministic() {
    assert_eq!(worktree_dir("/repo", "wt-test"), "/repo/.belljar/worktrees/wt-test");
}

#[test]
fn repo_test_command_is_bit_exact() {
    let inv = is_git_repo_invocation("/repo");
    assert_eq!(inv.program, "git");
    assert_eq!(inv.args, strings(&["-C", "/repo", "rev-parse", "--git-dir"]));
}

#[test]
fn branch_attempts_try_create_then_attach() {
    let attempts = worktree_attempts("/repo", "s1", &Some("feat".to_string()));
    assert_eq!(attempts.len(), 2);
    assert_eq!(attempts[0].program, "git");
    assert_eq!(
        attempts[0].args,
        strings(&[
            "-C",
            "/repo",
            "worktree",
            "add",
            "-b",
            "feat",
            "/repo/.belljar/worktrees/s1",
            "HEAD",
        ])
    );
    assert_eq!(
        attempts[1].args,
        strings(&["-C", "/repo", "worktree", "add", "/repo/.belljar/worktrees/s1", "feat"])
    );
}

#[test]
fn no_branch_attempt_is_plain_add() {
    let attempts = worktree_attempts("/repo", "s1", &None);
    assert_eq!(attempts.len(), 1);
    assert_eq!(
        attempts[0].args,
        strings(&["-C", "/repo", "worktree", "add", "/repo/.belljar/worktrees/s1"])
    );
}

#[test]
fn fallback_success_returns_the_path() {
    // Create-new-branch failed, attach-existing succeeded.
    let r = ensure_worktree("/repo", "s1", true, false).unwrap();
    assert_eq!(r, "/repo/.belljar/worktrees/s1");
}

#[test]
fn existing_directory_outweighs_failed_attempts() {
    let r = ensure_worktree("/repo", "s1", false, true).unwrap();
    assert_eq!(r, "/repo/.belljar/worktrees/s1");
}

#[test]
fn failure_without_directory_is_an_error() {
    let e = ensure_worktree("/repo", "s1", false, false).unwrap_err();
    match e {
        CoreError::Compose(m) => assert_eq!(m, "git worktree add failed"),
        _ => panic!("unexpected error"),
    }
}
