//! The record types held by the registry, with their mathematical views.

use vstd::prelude::*;

verus! {

/// Mathematical view of a [`Session`]: every text field as a sequence of
/// characters.
pub struct SessionView {
    pub id: Seq<char>,
    pub label: Seq<char>,
    pub repo_path: Seq<char>,
    pub branch: Option<Seq<char>>,
    pub worktree_path: Option<Seq<char>>,
    pub compose_project: Seq<char>,
    pub services: Seq<Seq<char>>,
    pub tmux_session: Seq<char>,
    pub created_at: Seq<char>,
}

/// A tracked binding of a label to a repository checkout, an optional
/// worktree, a per-session compose project and a terminal session.
#[derive(Debug)]
pub struct Session {
    /// Process-generated unique identifier; immutable.
    pub id: String,
    /// User-chosen display name; not guaranteed unique.
    pub label: String,
    /// Absolute path to the source checkout.
    pub repo_path: String,
    /// Branch requested at creation, if any.
    pub branch: Option<String>,
    /// Absent until the worktree adapter succeeds.
    pub worktree_path: Option<String>,
    /// Deterministic scope name: a fixed prefix plus a slice of `id`.
    pub compose_project: String,
    /// Ordered list of requested service identifiers.
    pub services: Vec<String>,
    /// Name used for the multiplexer session.
    pub tmux_session: String,
    /// Creation timestamp.
    pub created_at: String,
}

impl View for Session {
    type V = SessionView;

    open spec fn view(&self) -> SessionView {
        SessionView {
            id: self.id@,
            label: self.label@,
            repo_path: self.repo_path@,
            branch: self.branch.deep_view(),
            worktree_path: self.worktree_path.deep_view(),
            compose_project: self.compose_project@,
            services: self.services.deep_view(),
            tmux_session: self.tmux_session@,
            created_at: self.created_at@,
        }
    }
}

/// Mathematical view of a [`Workspace`].
pub struct WorkspaceView {
    pub id: Seq<char>,
    pub label: Seq<char>,
    pub root_path: Seq<char>,
    pub repos: Seq<Seq<char>>,
    pub tmux_session: Seq<char>,
    pub created_at: Seq<char>,
}

/// A session generalized to several repositories sharing one terminal
/// session.
#[derive(Debug)]
pub struct Workspace {
    pub id: String,
    pub label: String,
    pub root_path: String,
    /// Ordered list of repository paths; order determines window creation.
    pub repos: Vec<String>,
    pub tmux_session: String,
    pub created_at: String,
}

impl View for Workspace {
    type V = WorkspaceView;

    open spec fn view(&self) -> WorkspaceView {
        WorkspaceView {
            id: self.id@,
            label: self.label@,
            root_path: self.root_path@,
            repos: self.repos.deep_view(),
            tmux_session: self.tmux_session@,
            created_at: self.created_at@,
        }
    }
}

/// Mathematical view of a [`Registry`].
pub struct RegistryView {
    pub sessions: Seq<SessionView>,
    pub workspaces: Seq<WorkspaceView>,
}

/// The full persisted state: an ordered list of sessions and an ordered
/// list of workspaces. Insertion order is preserved; every lookup is a
/// linear scan.
#[derive(Debug)]
pub struct Registry {
    pub sessions: Vec<Session>,
    pub workspaces: Vec<Workspace>,
}

impl View for Registry {
    type V = RegistryView;

    open spec fn view(&self) -> RegistryView {
        RegistryView {
            sessions: Seq::new(self.sessions@.len(), |i: int| self.sessions@[i]@),
            workspaces: Seq::new(self.workspaces@.len(), |i: int| self.workspaces@[i]@),
        }
    }
}

impl Registry {
    /// An empty registry, the state assumed when no document exists yet.
    pub fn new() -> (r: Registry)
        ensures
            r@.sessions == Seq::<SessionView>::empty(),
            r@.workspaces == Seq::<WorkspaceView>::empty(),
    {
        let r = Registry { sessions: Vec::new(), workspaces: Vec::new() };
        proof {
            assert(r@.sessions =~= Seq::<SessionView>::empty());
            assert(r@.workspaces =~= Seq::<WorkspaceView>::empty());
        }
        r
    }
}

/// Copies a list of strings element by element.
pub fn clone_strings(v: &Vec<String>) -> (r: Vec<String>)
    ensures
        r@ == v@,
{
    let mut r: Vec<String> = Vec::new();
    let mut i: usize = 0;
    while i < v.len()
        invariant
            i <= v.len(),
            r@ =~= v@.subrange(0, i as int),
        decreases v.len() - i,
    {
        r.push(v[i].clone());
        i += 1;
    }
    proof {
        assert(r@ =~= v@);
    }
    r
}

/// Copies an optional string.
pub fn clone_opt_string(v: &Option<String>) -> (r: Option<String>)
    ensures
        r == v,
{
    match v {
        Some(s) => Some(s.clone()),
        None => None,
    }
}

impl Clone for Session {
    fn clone(&self) -> (r: Self)
        ensures
            r@ == self@,
    {
        let r = Session {
            id: self.id.clone(),
            label: self.label.clone(),
            repo_path: self.repo_path.clone(),
            branch: clone_opt_string(&self.branch),
            worktree_path: clone_opt_string(&self.worktree_path),
            compose_project: self.compose_project.clone(),
            services: clone_strings(&self.services),
            tmux_session: self.tmux_session.clone(),
            created_at: self.created_at.clone(),
        };
        proof {
            assert(r@ == self@);
        }
        r
    }
}

impl Clone for Workspace {
    fn clone(&self) -> (r: Self)
        ensures
            r@ == self@,
    {
        let r = Workspace {
            id: self.id.clone(),
            label: self.label.clone(),
            root_path: self.root_path.clone(),
            repos: clone_strings(&self.repos),
            tmux_session: self.tmux_session.clone(),
            created_at: self.created_at.clone(),
        };
        proof {
            assert(r@ == self@);
        }
        r
    }
}

} // verus!
