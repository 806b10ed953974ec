//! Registry and lifecycle orchestrator for developer sessions.
//!
//! A session binds a label to a repository checkout, an optional git
//! worktree, a per-session compose project, and a terminal-multiplexer
//! session; a workspace binds a label to several repositories sharing one
//! terminal session. The library owns the registry of both record kinds
//! and the decision logic that keeps the three external resource planes
//! (worktrees, compose stacks, terminal sessions) consistent with it:
//! compose-file discovery, exact collaborator command construction,
//! idempotent "ensure" steps, and failure-isolating batch removal.
//! Process spawning and file I/O stay with the caller, which feeds the
//! observed outcomes back into the decision functions.

mod compose;
mod datadir;
mod discovery;
mod errors;
mod flows;
mod invocation;
mod laws;
mod model;
mod registry;
mod scan;
mod strkit;
mod terminal;
mod worktree;

pub use compose::{compose_args, compose_base_args, down, file_args, up};
pub use datadir::{
    clear_data_dir_override_for_testing, data_dir, registry_path,
    set_data_dir_override_for_testing, DataDirConfig,
};
pub use discovery::{
    dir_selection, discover_files, discover_files_for_repo, discovered_files, has_yaml_ext,
    is_yaml_name, root_selection, RepoSnapshot,
};
pub use errors::CoreError;
pub use flows::{
    cc_windows_spec, control_center_plan, remove_all_sessions, warn_labels, ControlCenterPlan,
    ControlCenterPlanView, DownOutcome,
};
pub use invocation::{Invocation, InvocationView};
pub use laws::{
    lemma_create_unique_label, lemma_dir_selection_sorted, lemma_ensure_idempotent,
    lemma_worktree_branch_fallback,
};
pub use model::{Registry, RegistryView, Session, SessionView, Workspace, WorkspaceView};
pub use model::{clone_opt_string, clone_strings};
pub use registry::{
    create_session, create_workspace, find_session, find_workspace, is_uuid_char, list_workspaces,
    remove_session, remove_workspace, session_id_pred, session_key_pred, session_matches,
    set_session_worktree, workspace_key_pred, workspace_matches,
};
pub use scan::{first_match, has_match, lemma_first_match, lemma_first_match_at};
pub use strkit::{
    basename_spec, ends_with, insert_sorted, insert_sorted_spec, lemma_insert_sorted_spec,
    lemma_lex_total, lemma_lex_trans, lemma_sort_strs_sorted, lex_leq, path_basename, sort_strings,
    sort_strs, sorted_lex, str_concat, str_ends_with, str_lex_leq,
};
pub use terminal::{
    attach, attach_args, ensure_named_session, ensure_plan_spec, ensure_session, has_session,
    has_session_args, locate_tmux, new_detached, new_detached_args, new_window, new_window_args,
    plan_creates, select_layout, select_layout_args, send_keys, send_keys_args, tag_session_args,
    EnsurePlan, EnsurePlanView,
};
pub use worktree::{
    ensure_worktree, is_git_repo_invocation, worktree_attempts, worktree_attempts_spec,
    worktree_dir, worktree_dir_spec, worktree_setup_ok,
};

use vstd::prelude::*;

verus! {

/// Returns the semantic version of the library.
pub fn version() -> (r: &'static str)
    ensures
        r@ == "0.1.0"@,
{
    "0.1.0"
}

} // verus!
