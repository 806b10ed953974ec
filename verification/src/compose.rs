//! Compose invocation: the exact command lines that bring a session's
//! stack up or tear it down, scoped to the session's compose project.
//!
//! Discovery is re-run from the caller's snapshot at invocation time,
//! so a session's compose topology follows the repository's current
//! files. An empty discovery is the distinguished "no compose files"
//! condition, reported before any command is built.

use vstd::prelude::*;

use crate::discovery::{discover_files, discovered_files, RepoSnapshot};
use crate::errors::CoreError;
use crate::invocation::{Invocation, InvocationView};
use crate::model::Session;

verus! {

/// The fixed head of every compose command line: the `compose`
/// subcommand scoped to `project`.
pub open spec fn compose_base_args(project: Seq<char>) -> Seq<Seq<char>> {
    seq!["compose"@, "-p"@, project]
}

/// One `-f` flag per discovered file, in discovery order.
pub open spec fn file_args(files: Seq<Seq<char>>) -> Seq<Seq<char>>
    decreases files.len(),
{
    if files.len() == 0 {
        Seq::<Seq<char>>::empty()
    } else {
        file_args(files.drop_last()) + seq!["-f"@, files.last()]
    }
}

/// The full argument vector for one compose action (`up -d` or
/// `down -v`).
pub open spec fn compose_args(
    project: Seq<char>,
    files: Seq<Seq<char>>,
    tear_down: bool,
) -> Seq<Seq<char>> {
    compose_base_args(project) + file_args(files) + (if tear_down {
        seq!["down"@, "-v"@]
    } else {
        seq!["up"@, "-d"@]
    })
}

/// Assembles the compose command for `project` over `files`.
fn build_compose(project: &String, files: &Vec<String>, tear_down: bool) -> (r: Invocation)
    ensures
        r@.program == "docker"@,
        r@.args == compose_args(project@, files.deep_view(), tear_down),
{
    let mut args: Vec<String> = Vec::new();
    args.push("compose".to_owned());
    args.push("-p".to_owned());
    args.push(project.clone());
    proof {
        assert(args.deep_view() =~= compose_base_args(project@));
        assert(file_args(files.deep_view().take(0)) =~= Seq::<Seq<char>>::empty());
        assert(args.deep_view() =~= compose_base_args(project@) + file_args(
            files.deep_view().take(0),
        ));
    }
    let mut i: usize = 0;
    while i < files.len()
        invariant
            i <= files.len(),
            args.deep_view() =~= compose_base_args(project@) + file_args(
                files.deep_view().take(i as int),
            ),
        decreases files.len() - i,
    {
        let ghost fv = files.deep_view();
        let ghost pre = args.deep_view();
        args.push("-f".to_owned());
        args.push(files[i].clone());
        proof {
            assert(fv.take(i + 1).drop_last() =~= fv.take(i as int));
            assert(fv.take(i + 1).last() == fv[i as int]);
            assert(fv[i as int] == files@[i as int]@);
            assert(args.deep_view() =~= pre + seq!["-f"@, fv[i as int]]);
            assert(file_args(fv.take(i + 1)) == file_args(fv.take(i as int)) + seq![
                "-f"@,
                fv[i as int],
            ]);
            assert(args.deep_view() =~= compose_base_args(project@) + file_args(fv.take(i + 1)));
        }
        i += 1;
    }
    proof {
        assert(files.deep_view().take(files@.len() as int) =~= files.deep_view());
    }
    if tear_down {
        args.push("down".to_owned());
        args.push("-v".to_owned());
    } else {
        args.push("up".to_owned());
        args.push("-d".to_owned());
    }
    let r = Invocation { program: "docker".to_owned(), args };
    proof {
        assert(r@.args =~= compose_args(project@, files.deep_view(), tear_down));
    }
    r
}

/// The "up, detached" command for `session`, or the distinguished
/// "no compose files" condition when discovery over `snap` is empty.
pub fn up(session: &Session, snap: &RepoSnapshot) -> (r: Result<Invocation, CoreError>)
    ensures
        ({
            let files = discovered_files(session@.repo_path, *snap);
            match r {
                Ok(inv) => files.len() > 0 && inv@.program == "docker"@ && inv@.args
                    == compose_args(session@.compose_project, files, false),
                Err(e) => files.len() == 0 && e == CoreError::NoComposeFiles,
            }
        }),
{
    let files = discover_files(session.repo_path.as_str(), snap);
    if files.len() == 0 {
        return Err(CoreError::NoComposeFiles);
    }
    Ok(build_compose(&session.compose_project, &files, false))
}

/// The "down, remove volumes" command for `session`, or the
/// distinguished "no compose files" condition when discovery over
/// `snap` is empty.
pub fn down(session: &Session, snap: &RepoSnapshot) -> (r: Result<Invocation, CoreError>)
    ensures
        ({
            let files = discovered_files(session@.repo_path, *snap);
            match r {
                Ok(inv) => files.len() > 0 && inv@.program == "docker"@ && inv@.args
                    == compose_args(session@.compose_project, files, true),
                Err(e) => files.len() == 0 && e == CoreError::NoComposeFiles,
            }
        }),
{
    let files = discover_files(session.repo_path.as_str(), snap);
    if files.len() == 0 {
        return Err(CoreError::NoComposeFiles);
    }
    Ok(build_compose(&session.compose_project, &files, true))
}

} // verus!
