use belljar_core::{control_center_plan, create_session, create_workspace, remove_all_sessions,
    CoreError, DownOutcome, Registry};

fn strings(v: &[&str]) -> Vec<String> {
    v.iter().map(|s| s.to_string()).collect()
}

#[test]
fn remove_all_tolerates_one_failed_teardown() {
    let mut reg = Registry::new();
    create_session(&mut reg, "a", "/ra", None, Vec::new());
    create_session(&mut reg, "b", "/rb", None, Vec::new());
    let outcomes = vec![DownOutcome::Failed, DownOutcome::Done];
    let warnings = remove_all_sessions(&mut reg, &outcomes);
    assert_eq!(reg.sessions.len(), 0);
    assert_eq!(warnings, strings(&["a"]));
}

#[test]
fn remove_all_treats_no_files_as_benign() {
    let mut reg = Registry::new();
    create_session(&mut reg, "a", "/ra", None, Vec::new());
    create_session(&mut reg, "b", "/rb", None, Vec::new());
    let outcomes = vec![DownOutcome::NoFiles, DownOutcome::NoFiles];
    let warnings = remove_all_sessions(&mut reg, &outcomes);
    assert_eq!(reg.sessions.len(), 0);
    assert!(warnings.is_empty());
}

#[test]
fn remove_all_keeps_workspaces() {
    let mut reg = Registry::new();
    create_session(&mut reg, "a", "/ra", None, Vec::new());
    create_workspace(&mut reg, "w", "/rw", Vec::new());
    let outcomes = vec![DownOutcome::Done];
    remove_all_sessions(&mut reg, &outcomes);
    assert_eq!(reg.sessions.len(), 0);
    assert_eq!(reg.workspaces.len(), 1);
}

#[test]
fn control_center_with_no_sessions_is_a_no_op() {
    let reg = Registry::new();
    let tool = Some("/bin/tmux".to_string());
    let plan = control_center_plan(&reg, &tool, false).unwrap();
    assert!(plan.is_none());
}

#[test]
fn control_center_without_tool_reports_not_found() {
    let mut reg = Registry::new();
    create_session(&mut reg, "a", "/ra", None, Vec::new());
    let e = control_center_plan(&reg, &None, false).unwrap_err();
    assert_eq!(e, CoreError::TmuxNotFound);
}

#[test]
fn control_center_builds_one_window_per_session() {
    let mut reg = Registry::new();
    create_session(&mut reg, "a", "/ra", None, Vec::new());
    create_session(&mut reg, "b", "/rb", None, Vec::new());
    let tool = Some("/bin/tmux".to_string());
    let plan = control_center_plan(&reg, &tool, false).unwrap().unwrap();

    // Rooted at the first session's repository.
    let create = plan.ensure.create.expect("aggregation session is created");
    assert_eq!(
        create.args,
        strings(&["new-session", "-d", "-s", "belljar-cc", "-c", "/ra"])
    );

    assert_eq!(plan.windows.len(), 2);
    assert_eq!(
        plan.windows[0].args,
        strings(&["new-window", "-t", "belljar-cc", "-n", "a", "-c", "/ra"])
    );
    assert_eq!(
        plan.windows[1].args,
        strings(&["new-window", "-t", "belljar-cc", "-n", "b", "-c", "/rb"])
    );

    assert_eq!(plan.layout.args, strings(&["select-layout", "-t", "belljar-cc", "tiled"]));
    assert_eq!(plan.attach.args, strings(&["attach-session", "-t", "belljar-cc"]));
}
