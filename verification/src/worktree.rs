//! Worktree adapter: the exact version-control command lines that give
//! a session a dedicated working tree, and the rule that decides
//! success.
//!
//! The target path is a fixed, deterministic subdirectory of the
//! repository keyed by the session label. With a branch, creating a new
//! branch at the current head is attempted first and attaching the
//! existing branch second; either attempt satisfies the call. Existence
//! of the target path on disk is the final arbiter: a reported failure
//! with the path present still succeeds.

use vstd::prelude::*;

use crate::errors::CoreError;
use crate::invocation::{Invocation, InvocationView};

verus! {

/// The worktree path for `label` under `repo`.
pub open spec fn worktree_dir_spec(repo: Seq<char>, label: Seq<char>) -> Seq<char> {
    repo + "/.belljar/worktrees/"@ + label
}

/// Builds the worktree path for `label` under `repo`.
pub fn worktree_dir(repo: &str, label: &str) -> (r: String)
    ensures
        r@ == worktree_dir_spec(repo@, label@),
{
    let mut r = repo.to_owned();
    r.append("/.belljar/worktrees/");
    r.append(label);
    r
}

/// The repository test: `rev-parse --git-dir` under `-C path`; the
/// caller reads a zero exit status as "inside a managed checkout".
pub fn is_git_repo_invocation(path: &str) -> (r: Invocation)
    ensures
        r@.program == "git"@,
        r@.args == seq!["-C"@, path@, "rev-parse"@, "--git-dir"@],
{
    let mut args: Vec<String> = Vec::new();
    args.push("-C".to_owned());
    args.push(path.to_owned());
    args.push("rev-parse".to_owned());
    args.push("--git-dir".to_owned());
    let r = Invocation { program: "git".to_owned(), args };
    proof {
        assert(r@.args =~= seq!["-C"@, path@, "rev-parse"@, "--git-dir"@]);
    }
    r
}

/// The attempt sequence for `branch`: create a new branch at the
/// current head, then attach the existing branch.
pub open spec fn worktree_attempts_spec(
    repo: Seq<char>,
    label: Seq<char>,
    branch: Option<Seq<char>>,
) -> Seq<InvocationView> {
    let dir = worktree_dir_spec(repo, label);
    match branch {
        Some(b) => seq![
            InvocationView {
                program: "git"@,
                args: seq!["-C"@, repo, "worktree"@, "add"@, "-b"@, b, dir, "HEAD"@],
            },
            InvocationView {
                program: "git"@,
                args: seq!["-C"@, repo, "worktree"@, "add"@, dir, b],
            },
        ],
        None => seq![
            InvocationView {
                program: "git"@,
                args: seq!["-C"@, repo, "worktree"@, "add"@, dir],
            },
        ],
    }
}

/// The commands to try, in order, until one succeeds: with a branch,
/// "create new branch" then "attach existing branch"; without one, a
/// plain worktree creation bound to the collaborator's default
/// branch-naming behaviour.
pub fn worktree_attempts(repo: &str, label: &str, branch: &Option<String>) -> (r: Vec<Invocation>)
    ensures
        r.deep_view() == worktree_attempts_spec(repo@, label@, branch.deep_view()),
{
    let dir = worktree_dir(repo, label);
    let mut r: Vec<Invocation> = Vec::new();
    match branch {
        Some(b) => {
            let mut args1: Vec<String> = Vec::new();
            args1.push("-C".to_owned());
            args1.push(repo.to_owned());
            args1.push("worktree".to_owned());
            args1.push("add".to_owned());
            args1.push("-b".to_owned());
            args1.push(b.clone());
            args1.push(dir.clone());
            args1.push("HEAD".to_owned());
            r.push(Invocation { program: "git".to_owned(), args: args1 });
            let mut args2: Vec<String> = Vec::new();
            args2.push("-C".to_owned());
            args2.push(repo.to_owned());
            args2.push("worktree".to_owned());
            args2.push("add".to_owned());
            args2.push(dir);
            args2.push(b.clone());
            r.push(Invocation { program: "git".to_owned(), args: args2 });
            proof {
                let spec = worktree_attempts_spec(repo@, label@, branch.deep_view());
                assert(r.deep_view().len() == 2);
                assert(r@[0]@.args =~= spec[0].args);
                assert(r@[1]@.args =~= spec[1].args);
                assert(r.deep_view() =~= spec);
            }
        },
        None => {
            let mut args: Vec<String> = Vec::new();
            args.push("-C".to_owned());
            args.push(repo.to_owned());
            args.push("worktree".to_owned());
            args.push("add".to_owned());
            args.push(dir);
            r.push(Invocation { program: "git".to_owned(), args });
            proof {
                let spec = worktree_attempts_spec(repo@, label@, branch.deep_view());
                assert(r.deep_view().len() == 1);
                assert(r@[0]@.args =~= spec[0].args);
                assert(r.deep_view() =~= spec);
            }
        },
    }
    r
}

/// Whether a worktree setup counts as successful: some attempt
/// succeeded, or the target path exists on disk regardless of what the
/// attempts reported.
pub open spec fn worktree_setup_ok(attempt_succeeded: bool, dir_exists: bool) -> bool {
    attempt_succeeded || dir_exists
}

/// The final arbiter of a worktree setup: `attempt_succeeded` is
/// whether any command of [`worktree_attempts`] exited successfully,
/// `dir_exists` whether the target path exists on disk after the
/// attempts. Either one satisfies the call; with neither, the setup
/// failed.
pub fn ensure_worktree(
    repo: &str,
    label: &str,
    attempt_succeeded: bool,
    dir_exists: bool,
) -> (r: Result<String, CoreError>)
    ensures
        worktree_setup_ok(attempt_succeeded, dir_exists) ==> (r matches Ok(p) && p@
            == worktree_dir_spec(repo@, label@)),
        !worktree_setup_ok(attempt_succeeded, dir_exists) ==> (r matches Err(
            CoreError::Compose(m),
        ) && m@ == "git worktree add failed"@),
{
    if attempt_succeeded || dir_exists {
        Ok(worktree_dir(repo, label))
    } else {
        Err(CoreError::Compose("git worktree add failed".to_owned()))
    }
}

} // verus!
