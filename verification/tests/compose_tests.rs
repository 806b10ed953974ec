use belljar_core::{create_session, down as compose_down, up as compose_up, CoreError, Registry,
    RepoSnapshot};

fn strings(v: &[&str]) -> Vec<String> {
    v.iter().map(|s| s.to_string()).collect()
}

fn empty_snapshot() -> RepoSnapshot {
    RepoSnapshot {
        compose_dir_is_dir: false,
        compose_dir_names: Vec::new(),
        has_docker_compose_yml: false,
        has_docker_compose_yaml: false,
        has_compose_yml: false,
        has_compose_yaml: false,
    }
}

#[test]
fn compose_up_down_no_files() {
    let mut reg = Registry::new();
    let s = create_session(&mut reg, "t", "/repo", None, Vec::new());
    let up = compose_up(&s, &empty_snapshot()).unwrap_err();
    match up {
        CoreError::NoComposeFiles => {}
        _ => panic!("unexpected error"),
    }
    let down = compose_down(&s, &empty_snapshot()).unwrap_err();
    match down {
        CoreError::NoComposeFiles => {}
        _ => panic!("unexpected error"),
    }
}

#[test]
fn up_builds_exact_command() {
    let mut reg = Registry::new();
    let s = create_session(&mut reg, "t", "/repo", None, Vec::new());
    let snap = RepoSnapshot {
        compose_dir_is_dir: true,
        compose_dir_names: strings(&["svc.yml"]),
        ..empty_snapshot()
    };
    let inv = compose_up(&s, &snap).unwrap();
    assert_eq!(inv.program, "docker");
    assert_eq!(
        inv.args,
        strings(&[
            "compose",
            "-p",
            &s.compose_project,
            "-f",
            "/repo/.belljar/compose/svc.yml",
            "up",
            "-d",
        ])
    );
}

#[test]
fn down_builds_exact_command_over_every_file() {
    let mut reg = Registry::new();
    let s = create_session(&mut reg, "t", "/repo", None, Vec::new());
    let snap = RepoSnapshot {
        has_docker_compose_yml: true,
        has_compose_yaml: true,
        ..empty_snapshot()
    };
    let inv = compose_down(&s, &snap).unwrap();
    assert_eq!(inv.program, "docker");
    assert_eq!(
        inv.args,
        strings(&[
            "compose",
            "-p",
            &s.compose_project,
            "-f",
            "/repo/docker-compose.yml",
            "-f",
            "/repo/compose.yaml",
            "down",
            "-v",
        ])
    );
}
