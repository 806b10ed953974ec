//! Create, find, remove and mutate the session and workspace records of
//! a registry. Lookups address a record by label or id and resolve to
//! the first structural match, in insertion order.

use vstd::prelude::*;
use vstd::string::StrSliceExecFns;

use crate::errors::CoreError;
use crate::model::{Registry, Session, SessionView, Workspace, WorkspaceView};
use crate::scan::{first_match, has_match, lemma_first_match_at};
use crate::strkit::str_concat;

verus! {

/// Whether `key` addresses `s`: equal to its label or to its id.
pub open spec fn session_matches(s: SessionView, key: Seq<char>) -> bool {
    s.label == key || s.id == key
}

/// The lookup predicate for sessions under `key`.
pub open spec fn session_key_pred(key: Seq<char>) -> spec_fn(SessionView) -> bool {
    |s: SessionView| session_matches(s, key)
}

/// The lookup predicate for a session id alone.
pub open spec fn session_id_pred(id: Seq<char>) -> spec_fn(SessionView) -> bool {
    |s: SessionView| s.id == id
}

/// Whether `key` addresses `w`: equal to its label or to its id.
pub open spec fn workspace_matches(w: WorkspaceView, key: Seq<char>) -> bool {
    w.label == key || w.id == key
}

/// The lookup predicate for workspaces under `key`.
pub open spec fn workspace_key_pred(key: Seq<char>) -> spec_fn(WorkspaceView) -> bool {
    |w: WorkspaceView| workspace_matches(w, key)
}

/// A character of a hyphenated identifier: a lowercase hexadecimal digit
/// or a hyphen.
pub open spec fn is_uuid_char(c: char) -> bool {
    ||| c == '-'
    ||| ('0' as u32) <= (c as u32) <= ('9' as u32)
    ||| ('a' as u32) <= (c as u32) <= ('f' as u32)
}

/// Relies on uuid's `Uuid::new_v4` and its hyphenated rendering through
/// `Display`: 36 characters, lowercase hexadecimal digits with hyphens
/// at positions 8, 13, 18 and 23. The value itself is random, so nothing
/// more is promised.
#[verifier::external_body]
fn fresh_record_id() -> (r: String)
    ensures
        r@.len() == 36,
        forall|i: int| 0 <= i < 36 ==> is_uuid_char(#[trigger] r@[i]),
        r@[8] == '-' && r@[13] == '-' && r@[18] == '-' && r@[23] == '-',
{
    uuid::Uuid::new_v4().to_string()
}

/// Relies on time's `OffsetDateTime::now_utc` and RFC 3339 formatting;
/// the result depends on the clock, so nothing is promised of it. A
/// formatting failure yields the empty string, as
/// `unwrap_or_default` does.
#[verifier::external_body]
fn timestamp_now() -> String {
    time::OffsetDateTime::now_utc()
        .format(&time::format_description::well_known::Rfc3339)
        .unwrap_or_default()
}

/// Creates a session record and appends it to the registry: a fresh
/// unique id, the compose project derived from a fixed prefix plus the
/// first eight characters of the id, the terminal session named after
/// the label, and no worktree yet.
pub fn create_session(
    reg: &mut Registry,
    label: &str,
    repo_path: &str,
    branch: Option<String>,
    services: Vec<String>,
) -> (s: Session)
    ensures
        s@.label == label@,
        s@.repo_path == repo_path@,
        s@.branch == branch.deep_view(),
        s@.worktree_path is None,
        s@.services == services.deep_view(),
        s@.tmux_session == label@,
        s@.id.len() == 36,
        forall|i: int| 0 <= i < 36 ==> is_uuid_char(#[trigger] s@.id[i]),
        s@.compose_project == "parrs_"@ + s@.id.take(8),
        final(reg)@.sessions == old(reg)@.sessions.push(s@),
        final(reg)@.workspaces == old(reg)@.workspaces,
{
    let id = fresh_record_id();
    let id_prefix = id.as_str().substring_char(0, 8);
    let compose_project = str_concat("parrs_", id_prefix);
    let created_at = timestamp_now();
    let s = Session {
        id,
        label: label.to_owned(),
        repo_path: repo_path.to_owned(),
        branch,
        worktree_path: None,
        compose_project,
        services,
        tmux_session: label.to_owned(),
        created_at,
    };
    reg.sessions.push(s.clone());
    proof {
        assert(s@.id.take(8) =~= s@.id.subrange(0, 8));
        assert(reg@.sessions =~= old(reg)@.sessions.push(s@));
        assert(reg@.workspaces =~= old(reg)@.workspaces);
    }
    s
}

/// Returns the first session whose label or id equals `label_or_id`, or
/// nothing when no record matches.
pub fn find_session(reg: &Registry, label_or_id: &str) -> (r: Option<Session>)
    ensures
        ({
            let ss = reg@.sessions;
            let p = session_key_pred(label_or_id@);
            match r {
                Some(s) => has_match(ss, p) && s@ == ss[first_match(ss, p)],
                None => !has_match(ss, p),
            }
        }),
{
    let key = label_or_id.to_owned();
    let mut i: usize = 0;
    while i < reg.sessions.len()
        invariant
            i <= reg.sessions.len(),
            key@ == label_or_id@,
            forall|j: int| 0 <= j < i ==> !session_matches(#[trigger] reg@.sessions[j], label_or_id@),
        decreases reg.sessions.len() - i,
    {
        let s = &reg.sessions[i];
        if s.label == key || s.id == key {
            proof {
                lemma_first_match_at(reg@.sessions, session_key_pred(label_or_id@), i as int);
            }
            return Some(s.clone());
        }
        i += 1;
    }
    proof {
        assert(!has_match(reg@.sessions, session_key_pred(label_or_id@)));
    }
    None
}

/// Removes the first session matching `label_or_id` and returns it;
/// returns nothing, and leaves the registry unchanged, when no record
/// matches. An absent record is not an error.
pub fn remove_session(reg: &mut Registry, label_or_id: &str) -> (r: Option<Session>)
    ensures
        ({
            let ss = old(reg)@.sessions;
            let p = session_key_pred(label_or_id@);
            match r {
                Some(s) => {
                    &&& has_match(ss, p)
                    &&& s@ == ss[first_match(ss, p)]
                    &&& final(reg)@.sessions == ss.remove(first_match(ss, p))
                    &&& final(reg)@.workspaces == old(reg)@.workspaces
                },
                None => !has_match(ss, p) && final(reg)@ == old(reg)@,
            }
        }),
{
    let key = label_or_id.to_owned();
    let mut i: usize = 0;
    while i < reg.sessions.len()
        invariant
            i <= reg.sessions.len(),
            key@ == label_or_id@,
            reg == old(reg),
            forall|j: int| 0 <= j < i ==> !session_matches(#[trigger] reg@.sessions[j], label_or_id@),
        decreases reg.sessions.len() - i,
    {
        let hit = {
            let s = &reg.sessions[i];
            s.label == key || s.id == key
        };
        if hit {
            proof {
                lemma_first_match_at(reg@.sessions, session_key_pred(label_or_id@), i as int);
            }
            let s = reg.sessions.remove(i);
            proof {
                assert(reg@.sessions =~= old(reg)@.sessions.remove(i as int));
                assert(reg@.workspaces =~= old(reg)@.workspaces);
            }
            return Some(s);
        }
        i += 1;
    }
    proof {
        assert(!has_match(reg@.sessions, session_key_pred(label_or_id@)));
    }
    None
}

/// Attaches a worktree path to `session` and to the first registry
/// record carrying the same id (lookup by id, not by label); other
/// records, and the registry when no record matches, stay unchanged.
pub fn set_session_worktree(reg: &mut Registry, session: &mut Session, path: String)
    ensures
        final(session)@ == (SessionView { worktree_path: Some(path@), ..old(session)@ }),
        ({
            let ss = old(reg)@.sessions;
            let p = session_id_pred(old(session)@.id);
            if has_match(ss, p) {
                let i = first_match(ss, p);
                &&& final(reg)@.sessions == ss.update(
                    i,
                    SessionView { worktree_path: Some(path@), ..ss[i] },
                )
                &&& final(reg)@.workspaces == old(reg)@.workspaces
            } else {
                final(reg)@ == old(reg)@
            }
        }),
{
    session.worktree_path = Some(path.clone());
    let mut i: usize = 0;
    while i < reg.sessions.len()
        invariant
            i <= reg.sessions.len(),
            reg == old(reg),
            session.id@ == old(session)@.id,
            session@ == (SessionView { worktree_path: Some(path@), ..old(session)@ }),
            forall|j: int| 0 <= j < i ==> (#[trigger] reg@.sessions[j]).id != old(session)@.id,
        decreases reg.sessions.len() - i,
    {
        let hit = {
            let s = &reg.sessions[i];
            s.id == session.id
        };
        if hit {
            proof {
                lemma_first_match_at(reg@.sessions, session_id_pred(old(session)@.id), i as int);
            }
            let mut s = reg.sessions.remove(i);
            s.worktree_path = Some(path);
            reg.sessions.insert(i, s);
            proof {
                let ss = old(reg)@.sessions;
                assert(reg@.sessions =~= ss.update(
                    i as int,
                    SessionView { worktree_path: Some(path@), ..ss[i as int] },
                ));
                assert(reg@.workspaces =~= old(reg)@.workspaces);
            }
            return ;
        }
        i += 1;
    }
}

/// Creates a workspace record and appends it to the registry: a fresh
/// unique id and a terminal session named by a fixed prefix plus the
/// label.
pub fn create_workspace(
    reg: &mut Registry,
    label: &str,
    root: &str,
    repos: Vec<String>,
) -> (w: Workspace)
    ensures
        w@.label == label@,
        w@.root_path == root@,
        w@.repos == repos.deep_view(),
        w@.id.len() == 36,
        forall|i: int| 0 <= i < 36 ==> is_uuid_char(#[trigger] w@.id[i]),
        w@.tmux_session == "ws-"@ + label@,
        final(reg)@.workspaces == old(reg)@.workspaces.push(w@),
        final(reg)@.sessions == old(reg)@.sessions,
{
    let id = fresh_record_id();
    let tmux_session = str_concat("ws-", label);
    let created_at = timestamp_now();
    let w = Workspace {
        id,
        label: label.to_owned(),
        root_path: root.to_owned(),
        repos,
        tmux_session,
        created_at,
    };
    reg.workspaces.push(w.clone());
    proof {
        assert(reg@.workspaces =~= old(reg)@.workspaces.push(w@));
        assert(reg@.sessions =~= old(reg)@.sessions);
    }
    w
}

/// Returns a copy of every workspace record, in registry order.
pub fn list_workspaces(reg: &Registry) -> (r: Vec<Workspace>)
    ensures
        r@.len() == reg@.workspaces.len(),
        forall|i: int| 0 <= i < r@.len() ==> (#[trigger] r@[i])@ == reg@.workspaces[i],
{
    let mut r: Vec<Workspace> = Vec::new();
    let mut i: usize = 0;
    while i < reg.workspaces.len()
        invariant
            i <= reg.workspaces.len(),
            r@.len() == i,
            forall|j: int| 0 <= j < i ==> (#[trigger] r@[j])@ == reg@.workspaces[j],
        decreases reg.workspaces.len() - i,
    {
        r.push(reg.workspaces[i].clone());
        i += 1;
    }
    r
}

/// Returns the first workspace whose label or id equals `label_or_id`,
/// or nothing when no record matches.
pub fn find_workspace(reg: &Registry, label_or_id: &str) -> (r: Option<Workspace>)
    ensures
        ({
            let ws = reg@.workspaces;
            let p = workspace_key_pred(label_or_id@);
            match r {
                Some(w) => has_match(ws, p) && w@ == ws[first_match(ws, p)],
                None => !has_match(ws, p),
            }
        }),
{
    let key = label_or_id.to_owned();
    let mut i: usize = 0;
    while i < reg.workspaces.len()
        invariant
            i <= reg.workspaces.len(),
            key@ == label_or_id@,
            forall|j: int| 0 <= j < i ==> !workspace_matches(
                #[trigger] reg@.workspaces[j],
                label_or_id@,
            ),
        decreases reg.workspaces.len() - i,
    {
        let w = &reg.workspaces[i];
        if w.label == key || w.id == key {
            proof {
                lemma_first_match_at(reg@.workspaces, workspace_key_pred(label_or_id@), i as int);
            }
            return Some(w.clone());
        }
        i += 1;
    }
    proof {
        assert(!has_match(reg@.workspaces, workspace_key_pred(label_or_id@)));
    }
    None
}

/// Removes the first workspace matching `label_or_id` and returns it;
/// returns nothing, and leaves the registry unchanged, when no record
/// matches.
pub fn remove_workspace(reg: &mut Registry, label_or_id: &str) -> (r: Option<Workspace>)
    ensures
        ({
            let ws = old(reg)@.workspaces;
            let p = workspace_key_pred(label_or_id@);
            match r {
                Some(w) => {
                    &&& has_match(ws, p)
                    &&& w@ == ws[first_match(ws, p)]
                    &&& final(reg)@.workspaces == ws.remove(first_match(ws, p))
                    &&& final(reg)@.sessions == old(reg)@.sessions
                },
                None => !has_match(ws, p) && final(reg)@ == old(reg)@,
            }
        }),
{
    let key = label_or_id.to_owned();
    let mut i: usize = 0;
    while i < reg.workspaces.len()
        invariant
            i <= reg.workspaces.len(),
            key@ == label_or_id@,
            reg == old(reg),
            forall|j: int| 0 <= j < i ==> !workspace_matches(
                #[trigger] reg@.workspaces[j],
                label_or_id@,
            ),
        decreases reg.workspaces.len() - i,
    {
        let hit = {
            let w = &reg.workspaces[i];
            w.label == key || w.id == key
        };
        if hit {
            proof {
                lemma_first_match_at(reg@.workspaces, workspace_key_pred(label_or_id@), i as int);
            }
            let w = reg.workspaces.remove(i);
            proof {
                assert(reg@.workspaces =~= old(reg)@.workspaces.remove(i as int));
                assert(reg@.sessions =~= old(reg)@.sessions);
            }
            return Some(w);
        }
        i += 1;
    }
    proof {
        assert(!has_match(reg@.workspaces, workspace_key_pred(label_or_id@)));
    }
    None
}

} // verus!
