//! Terminal adapter: the exact multiplexer command lines and the
//! decisions around them.
//!
//! The multiplexer binary is resolved on the search path once per
//! call; when resolution fails, every operation here fails with the
//! same distinguished "tool not found" condition, never the generic
//! failure, so callers can present "tool not installed" guidance
//! uniformly. The "ensure" operations are idempotent at the command
//! level: a session already present triggers no creation, only the
//! best-effort tagging whose failure the caller swallows.

use vstd::prelude::*;

use crate::errors::CoreError;
use crate::invocation::{Invocation, InvocationView};
use crate::model::Session;

verus! {

/// Relies on which's `which`: resolves the multiplexer binary on the
/// search path. The result depends on the environment, so nothing is
/// promised of it.
#[verifier::external_body]
fn which_tmux() -> Option<String> {
    match which::which("tmux") {
        Ok(p) => Some(p.to_string_lossy().into_owned()),
        Err(_) => None,
    }
}

/// Resolves the multiplexer binary, or nothing when it is not
/// installed.
pub fn locate_tmux() -> Option<String> {
    which_tmux()
}

/// The presence probe for a named session.
pub open spec fn has_session_args(name: Seq<char>) -> Seq<Seq<char>> {
    seq!["has-session"@, "-t"@, name]
}

/// Creation of a detached session rooted at `cwd`.
pub open spec fn new_detached_args(name: Seq<char>, cwd: Seq<char>) -> Seq<Seq<char>> {
    seq!["new-session"@, "-d"@, "-s"@, name, "-c"@, cwd]
}

/// Foreground attach; blocks the calling process.
pub open spec fn attach_args(name: Seq<char>) -> Seq<Seq<char>> {
    seq!["attach-session"@, "-t"@, name]
}

/// Injection of a command string followed by an execute keystroke.
pub open spec fn send_keys_args(name: Seq<char>, command: Seq<char>) -> Seq<Seq<char>> {
    seq!["send-keys"@, "-t"@, name, command, "C-m"@]
}

/// A new window bound to `cwd` inside a session.
pub open spec fn new_window_args(
    session_name: Seq<char>,
    window_name: Seq<char>,
    cwd: Seq<char>,
) -> Seq<Seq<char>> {
    seq!["new-window"@, "-t"@, session_name, "-n"@, window_name, "-c"@, cwd]
}

/// Application of a named tiling layout to a session.
pub open spec fn select_layout_args(session_name: Seq<char>, layout: Seq<char>) -> Seq<Seq<char>> {
    seq!["select-layout"@, "-t"@, session_name, layout]
}

/// The best-effort application marker set on a session.
pub open spec fn tag_session_args(name: Seq<char>) -> Seq<Seq<char>> {
    seq!["set-option"@, "-t"@, name, "@belljar"@, "1"@]
}

/// The presence probe for `name`; the caller reads a zero exit status
/// as "present". Fails with the distinguished "tool not found"
/// condition, and with nothing else, when `tool` is absent.
pub fn has_session(tool: &Option<String>, name: &str) -> (r: Result<Invocation, CoreError>)
    ensures
        tool is None ==> (r matches Err(e) && e == CoreError::TmuxNotFound),
        tool matches Some(t) ==> (r matches Ok(inv) && inv@.program == t@ && inv@.args
            == has_session_args(name@)),
{
    match tool {
        None => Err(CoreError::TmuxNotFound),
        Some(t) => {
            let mut args: Vec<String> = Vec::new();
            args.push("has-session".to_owned());
            args.push("-t".to_owned());
            args.push(name.to_owned());
            let inv = Invocation { program: t.clone(), args };
            proof {
                assert(inv@.args =~= has_session_args(name@));
            }
            Ok(inv)
        },
    }
}

/// Creation of a detached session named `name` rooted at `cwd`. Fails
/// only with the distinguished "tool not found" condition.
pub fn new_detached(tool: &Option<String>, name: &str, cwd: &str) -> (r: Result<
    Invocation,
    CoreError,
>)
    ensures
        tool is None ==> (r matches Err(e) && e == CoreError::TmuxNotFound),
        tool matches Some(t) ==> (r matches Ok(inv) && inv@.program == t@ && inv@.args
            == new_detached_args(name@, cwd@)),
{
    match tool {
        None => Err(CoreError::TmuxNotFound),
        Some(t) => {
            let mut args: Vec<String> = Vec::new();
            args.push("new-session".to_owned());
            args.push("-d".to_owned());
            args.push("-s".to_owned());
            args.push(name.to_owned());
            args.push("-c".to_owned());
            args.push(cwd.to_owned());
            let inv = Invocation { program: t.clone(), args };
            proof {
                assert(inv@.args =~= new_detached_args(name@, cwd@));
            }
            Ok(inv)
        },
    }
}

/// Foreground attach to `name`. Fails only with the distinguished
/// "tool not found" condition.
pub fn attach(tool: &Option<String>, name: &str) -> (r: Result<Invocation, CoreError>)
    ensures
        tool is None ==> (r matches Err(e) && e == CoreError::TmuxNotFound),
        tool matches Some(t) ==> (r matches Ok(inv) && inv@.program == t@ && inv@.args
            == attach_args(name@)),
{
    match tool {
        None => Err(CoreError::TmuxNotFound),
        Some(t) => {
            let mut args: Vec<String> = Vec::new();
            args.push("attach-session".to_owned());
            args.push("-t".to_owned());
            args.push(name.to_owned());
            let inv = Invocation { program: t.clone(), args };
            proof {
                assert(inv@.args =~= attach_args(name@));
            }
            Ok(inv)
        },
    }
}

/// Injection of `command` into session `name`, followed by the execute
/// keystroke. Fails only with the distinguished "tool not found"
/// condition.
pub fn send_keys(tool: &Option<String>, name: &str, command: &str) -> (r: Result<
    Invocation,
    CoreError,
>)
    ensures
        tool is None ==> (r matches Err(e) && e == CoreError::TmuxNotFound),
        tool matches Some(t) ==> (r matches Ok(inv) && inv@.program == t@ && inv@.args
            == send_keys_args(name@, command@)),
{
    match tool {
        None => Err(CoreError::TmuxNotFound),
        Some(t) => {
            let mut args: Vec<String> = Vec::new();
            args.push("send-keys".to_owned());
            args.push("-t".to_owned());
            args.push(name.to_owned());
            args.push(command.to_owned());
            args.push("C-m".to_owned());
            let inv = Invocation { program: t.clone(), args };
            proof {
                assert(inv@.args =~= send_keys_args(name@, command@));
            }
            Ok(inv)
        },
    }
}

/// A new window named `window_name` in `session_name`, bound to `cwd`.
/// Fails only with the distinguished "tool not found" condition.
pub fn new_window(tool: &Option<String>, session_name: &str, window_name: &str, cwd: &str) -> (r:
    Result<Invocation, CoreError>)
    ensures
        tool is None ==> (r matches Err(e) && e == CoreError::TmuxNotFound),
        tool matches Some(t) ==> (r matches Ok(inv) && inv@.program == t@ && inv@.args
            == new_window_args(session_name@, window_name@, cwd@)),
{
    match tool {
        None => Err(CoreError::TmuxNotFound),
        Some(t) => {
            let mut args: Vec<String> = Vec::new();
            args.push("new-window".to_owned());
            args.push("-t".to_owned());
            args.push(session_name.to_owned());
            args.push("-n".to_owned());
            args.push(window_name.to_owned());
            args.push("-c".to_owned());
            args.push(cwd.to_owned());
            let inv = Invocation { program: t.clone(), args };
            proof {
                assert(inv@.args =~= new_window_args(session_name@, window_name@, cwd@));
            }
            Ok(inv)
        },
    }
}

/// Application of the named layout to `session_name`. Fails only with
/// the distinguished "tool not found" condition.
pub fn select_layout(tool: &Option<String>, session_name: &str, layout: &str) -> (r: Result<
    Invocation,
    CoreError,
>)
    ensures
        tool is None ==> (r matches Err(e) && e == CoreError::TmuxNotFound),
        tool matches Some(t) ==> (r matches Ok(inv) && inv@.program == t@ && inv@.args
            == select_layout_args(session_name@, layout@)),
{
    match tool {
        None => Err(CoreError::TmuxNotFound),
        Some(t) => {
            let mut args: Vec<String> = Vec::new();
            args.push("select-layout".to_owned());
            args.push("-t".to_owned());
            args.push(session_name.to_owned());
            args.push(layout.to_owned());
            let inv = Invocation { program: t.clone(), args };
            proof {
                assert(inv@.args =~= select_layout_args(session_name@, layout@));
            }
            Ok(inv)
        },
    }
}

/// Mathematical view of an [`EnsurePlan`].
pub struct EnsurePlanView {
    pub create: Option<InvocationView>,
    pub tag: InvocationView,
}

/// What an "ensure" operation asks the caller to run: a creation only
/// when the session is absent, then the best-effort tag whose failure
/// is swallowed and never surfaces.
#[derive(Debug)]
pub struct EnsurePlan {
    /// Present exactly when the session has to be created; its failure
    /// fails the operation.
    pub create: Option<Invocation>,
    /// Always run after creation or presence; its failure is ignored.
    pub tag: Invocation,
}

impl View for EnsurePlan {
    type V = EnsurePlanView;

    open spec fn view(&self) -> EnsurePlanView {
        EnsurePlanView { create: self.create.deep_view(), tag: self.tag@ }
    }
}

/// How many creation commands a plan issues.
pub open spec fn plan_creates(p: EnsurePlanView) -> nat {
    if p.create is Some {
        1nat
    } else {
        0nat
    }
}

/// The plan an "ensure" issues once the presence probe has answered
/// `present`.
pub open spec fn ensure_plan_spec(
    tool: Seq<char>,
    name: Seq<char>,
    cwd: Seq<char>,
    present: bool,
) -> EnsurePlanView {
    EnsurePlanView {
        create: if present {
            None
        } else {
            Some(InvocationView { program: tool, args: new_detached_args(name, cwd) })
        },
        tag: InvocationView { program: tool, args: tag_session_args(name) },
    }
}

/// The idempotent "ensure" for an explicitly named session: `present`
/// is the answer of the presence probe ([`has_session`]) that the
/// caller ran first. A present session triggers no creation; an absent
/// one triggers exactly one. Fails only with the distinguished "tool
/// not found" condition.
pub fn ensure_named_session(tool: &Option<String>, name: &str, cwd: &str, present: bool) -> (r:
    Result<EnsurePlan, CoreError>)
    ensures
        tool is None ==> (r matches Err(e) && e == CoreError::TmuxNotFound),
        tool matches Some(t) ==> (r matches Ok(p) && p@ == ensure_plan_spec(
            t@,
            name@,
            cwd@,
            present,
        )),
{
    match tool {
        None => Err(CoreError::TmuxNotFound),
        Some(t) => {
            let create = if present {
                None
            } else {
                let mut args: Vec<String> = Vec::new();
                args.push("new-session".to_owned());
                args.push("-d".to_owned());
                args.push("-s".to_owned());
                args.push(name.to_owned());
                args.push("-c".to_owned());
                args.push(cwd.to_owned());
                Some(Invocation { program: t.clone(), args })
            };
            let mut tag_args: Vec<String> = Vec::new();
            tag_args.push("set-option".to_owned());
            tag_args.push("-t".to_owned());
            tag_args.push(name.to_owned());
            tag_args.push("@belljar".to_owned());
            tag_args.push("1".to_owned());
            let plan = EnsurePlan {
                create,
                tag: Invocation { program: t.clone(), args: tag_args },
            };
            proof {
                assert(plan@.tag.args =~= tag_session_args(name@));
                if !present {
                    assert(plan@.create.unwrap().args =~= new_detached_args(name@, cwd@));
                }
                assert(plan@ == ensure_plan_spec(t@, name@, cwd@, present));
            }
            Ok(plan)
        },
    }
}

/// The idempotent "ensure" for a session record: the same operation as
/// [`ensure_named_session`], keyed by the record's terminal-session
/// name and rooted at its repository path.
pub fn ensure_session(tool: &Option<String>, session: &Session, present: bool) -> (r: Result<
    EnsurePlan,
    CoreError,
>)
    ensures
        tool is None ==> (r matches Err(e) && e == CoreError::TmuxNotFound),
        tool matches Some(t) ==> (r matches Ok(p) && p@ == ensure_plan_spec(
            t@,
            session@.tmux_session,
            session@.repo_path,
            present,
        )),
{
    ensure_named_session(tool, session.tmux_session.as_str(), session.repo_path.as_str(), present)
}

} // verus!
