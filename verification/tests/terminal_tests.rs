use belljar_core::{attach, ensure_named_session, ensure_session, has_session, new_detached,
    new_window, select_layout, send_keys, CoreError, Session};

fn strings(v: &[&str]) -> Vec<String> {
    v.iter().map(|s| s.to_string()).collect()
}

fn stub_session() -> Session {
    Session {
        id: "id".to_string(),
        label: "lab".to_string(),
        repo_path: "/work".to_string(),
        branch: None,
        worktree_path: None,
        compose_project: "proj".to_string(),
        services: Vec::new(),
        tmux_session: "sess".to_string(),
        created_at: "now".to_string(),
    }
}

#[test]
fn tmux_not_found() {
    let s = stub_session();
    let e = ensure_session(&None, &s, false).unwrap_err();
    match e {
        CoreError::TmuxNotFound => {}
        _ => panic!("unexpected error"),
    }
}

#[test]
fn every_operation_fails_with_not_found_when_tool_absent() {
    let tool: Option<String> = None;
    assert_eq!(has_session(&tool, "s").unwrap_err(), CoreError::TmuxNotFound);
    assert_eq!(new_detached(&tool, "s", "/w").unwrap_err(), CoreError::TmuxNotFound);
    assert_eq!(attach(&tool, "s").unwrap_err(), CoreError::TmuxNotFound);
    assert_eq!(send_keys(&tool, "s", "ls").unwrap_err(), CoreError::TmuxNotFound);
    assert_eq!(new_window(&tool, "s", "w", "/w").unwrap_err(), CoreError::TmuxNotFound);
    assert_eq!(select_layout(&tool, "s", "tiled").unwrap_err(), CoreError::TmuxNotFound);
    assert_eq!(
        ensure_named_session(&tool, "s", "/w", false).unwrap_err(),
        CoreError::TmuxNotFound
    );
}

#[test]
fn ensure_is_idempotent_at_the_command_level() {
    let tool = Some("/bin/tmux".to_string());
    let first = ensure_named_session(&tool, "sess", "/work", false).unwrap();
    let creates_first = if first.create.is_some() { 1 } else { 0 };
    // After the first ensure the session exists, so the second probe
    // answers true.
    let second = ensure_named_session(&tool, "sess", "/work", true).unwrap();
    let creates_second = if second.create.is_some() { 1 } else { 0 };
    assert_eq!(creates_first, 1);
    assert_eq!(creates_second, 0);
    assert!(creates_first + creates_second <= 1);
}

#[test]
fn ensure_present_session_only_tags() {
    let tool = Some("/bin/tmux".to_string());
    let plan = ensure_named_session(&tool, "sess", "/work", true).unwrap();
    assert!(plan.create.is_none());
    assert_eq!(plan.tag.program, "/bin/tmux");
    assert_eq!(plan.tag.args, strings(&["set-option", "-t", "sess", "@belljar", "1"]));
}

#[test]
fn ensure_absent_session_creates_detached() {
    let tool = Some("/bin/tmux".to_string());
    let plan = ensure_named_session(&tool, "sess", "/work", false).unwrap();
    let create = plan.create.expect("an absent session is created");
    assert_eq!(create.program, "/bin/tmux");
    assert_eq!(
        create.args,
        strings(&["new-session", "-d", "-s", "sess", "-c", "/work"])
    );
}

#[test]
fn ensure_session_uses_record_name_and_path() {
    let tool = Some("/bin/tmux".to_string());
    let s = stub_session();
    let plan = ensure_session(&tool, &s, false).unwrap();
    let create = plan.create.expect("absent session is created");
    assert_eq!(create.args, strings(&["new-session", "-d", "-s", "sess", "-c", "/work"]));
    assert_eq!(plan.tag.args, strings(&["set-option", "-t", "sess", "@belljar", "1"]));
}

#[test]
fn command_lines_are_bit_exact() {
    let tool = Some("/bin/tmux".to_string());
    let inv = has_session(&tool, "name").unwrap();
    assert_eq!(inv.program, "/bin/tmux");
    assert_eq!(inv.args, strings(&["has-session", "-t", "name"]));

    let inv = attach(&tool, "name").unwrap();
    assert_eq!(inv.args, strings(&["attach-session", "-t", "name"]));

    let inv = send_keys(&tool, "name", "echo hi").unwrap();
    assert_eq!(inv.args, strings(&["send-keys", "-t", "name", "echo hi", "C-m"]));

    let inv = new_window(&tool, "cc", "win", "/cwd").unwrap();
    assert_eq!(inv.args, strings(&["new-window", "-t", "cc", "-n", "win", "-c", "/cwd"]));

    let inv = select_layout(&tool, "cc", "tiled").unwrap();
    assert_eq!(inv.args, strings(&["select-layout", "-t", "cc", "tiled"]));

    let inv = new_detached(&tool, "name", "/cwd").unwrap();
    assert_eq!(inv.args, strings(&["new-session", "-d", "-s", "name", "-c", "/cwd"]));
}
