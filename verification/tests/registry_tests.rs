use belljar_core::{create_session, create_workspace, find_session, find_workspace,
    list_workspaces, remove_session, remove_workspace, set_session_worktree, Registry};

fn strings(v: &[&str]) -> Vec<String> {
    v.iter().map(|s| s.to_string()).collect()
}

#[test]
fn create_session_fields() {
    let mut reg = Registry::new();
    let s = create_session(&mut reg, "s1", "/repo", None, Vec::new());
    assert_eq!(s.label, "s1");
    assert_eq!(s.repo_path, "/repo");
    assert_eq!(s.branch, None);
    assert_eq!(s.worktree_path, None);
    assert_eq!(s.tmux_session, "s1");
    assert!(s.services.is_empty());
    assert_eq!(s.id.len(), 36);
    assert_eq!(s.compose_project.len(), 14);
    assert!(s.compose_project.starts_with("parrs_"));
    assert_eq!(&s.compose_project[6..], &s.id[..8]);
    assert_eq!(reg.sessions.len(), 1);
    assert_eq!(reg.sessions[0].label, "s1");
    assert_eq!(reg.sessions[0].worktree_path, None);
}

#[test]
fn session_id_is_hyphenated_lowercase_hex() {
    let mut reg = Registry::new();
    let s = create_session(&mut reg, "x", "/repo", None, Vec::new());
    for (i, c) in s.id.chars().enumerate() {
        if i == 8 || i == 13 || i == 18 || i == 23 {
            assert_eq!(c, '-');
        } else {
            assert!(c.is_ascii_hexdigit() && !c.is_ascii_uppercase());
        }
    }
}

#[test]
fn create_remove_roundtrip() {
    let mut reg = Registry::new();
    create_session(&mut reg, "s1", "/repo", None, Vec::new());
    assert_eq!(reg.sessions.len(), 1);
    let removed = remove_session(&mut reg, "s1");
    assert!(removed.is_some());
    assert_eq!(removed.unwrap().label, "s1");
    assert_eq!(reg.sessions.len(), 0);
}

#[test]
fn remove_absent_label_leaves_registry_unchanged() {
    let mut reg = Registry::new();
    let s = create_session(&mut reg, "a", "/repo", None, Vec::new());
    let removed = remove_session(&mut reg, "nope");
    assert!(removed.is_none());
    assert_eq!(reg.sessions.len(), 1);
    assert_eq!(reg.sessions[0].label, "a");
    assert_eq!(reg.sessions[0].id, s.id);
    assert_eq!(reg.sessions[0].created_at, s.created_at);
}

#[test]
fn find_session_returns_first_match_on_duplicate_labels() {
    let mut reg = Registry::new();
    let first = create_session(&mut reg, "dup", "/one", None, Vec::new());
    let _second = create_session(&mut reg, "dup", "/two", None, Vec::new());
    let found = find_session(&reg, "dup").unwrap();
    assert_eq!(found.id, first.id);
    assert_eq!(found.repo_path, "/one");
}

#[test]
fn find_session_by_id() {
    let mut reg = Registry::new();
    let a = create_session(&mut reg, "a", "/one", None, Vec::new());
    let b = create_session(&mut reg, "b", "/two", None, Vec::new());
    assert_eq!(find_session(&reg, &b.id).unwrap().label, "b");
    assert_eq!(find_session(&reg, &a.id).unwrap().label, "a");
    assert!(find_session(&reg, "missing").is_none());
}

#[test]
fn attach_worktree_updates_record_by_id() {
    let mut reg = Registry::new();
    let mut s = create_session(&mut reg, "dup", "/one", None, Vec::new());
    create_session(&mut reg, "dup", "/two", None, Vec::new());
    set_session_worktree(&mut reg, &mut s, "/one/.belljar/worktrees/dup".to_string());
    assert_eq!(s.worktree_path.as_deref(), Some("/one/.belljar/worktrees/dup"));
    assert_eq!(
        reg.sessions[0].worktree_path.as_deref(),
        Some("/one/.belljar/worktrees/dup")
    );
    assert_eq!(reg.sessions[1].worktree_path, None);
}

#[test]
fn create_session_keeps_branch_and_services() {
    let mut reg = Registry::new();
    let s = create_session(
        &mut reg,
        "s",
        "/repo",
        Some("feat".to_string()),
        strings(&["db", "web"]),
    );
    assert_eq!(s.branch.as_deref(), Some("feat"));
    assert_eq!(s.services, strings(&["db", "web"]));
}

#[test]
fn workspace_crud_roundtrip() {
    let mut reg = Registry::new();
    assert!(list_workspaces(&reg).is_empty());

    let repos = strings(&["/root-ws/frontend", "/root-ws/backend"]);
    let ws = create_workspace(&mut reg, "dev-ws", "/root-ws", repos.clone());
    assert_eq!(ws.label, "dev-ws");
    assert!(ws.tmux_session.starts_with("ws-"));
    assert_eq!(ws.tmux_session, "ws-dev-ws");
    assert_eq!(ws.repos, repos);
    assert_eq!(ws.id.len(), 36);

    let list = list_workspaces(&reg);
    assert_eq!(list.len(), 1);
    assert_eq!(list[0].label, "dev-ws");

    let found = find_workspace(&reg, "dev-ws");
    assert!(found.is_some());

    let removed = remove_workspace(&mut reg, "dev-ws");
    assert!(removed.is_some());
    assert!(list_workspaces(&reg).is_empty());
}

#[test]
fn remove_workspace_absent_returns_none() {
    let mut reg = Registry::new();
    create_workspace(&mut reg, "w", "/r", Vec::new());
    assert!(remove_workspace(&mut reg, "other").is_none());
    assert_eq!(reg.workspaces.len(), 1);
}
