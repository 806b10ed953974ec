use belljar_core::{discover_files_for_repo, path_basename, sort_strings, str_ends_with,
    str_lex_leq, RepoSnapshot};

fn strings(v: &[&str]) -> Vec<String> {
    v.iter().map(|s| s.to_string()).collect()
}

fn empty_snapshot() -> RepoSnapshot {
    RepoSnapshot {
        compose_dir_is_dir: false,
        compose_dir_names: Vec::new(),
        has_docker_compose_yml: false,
        has_docker_compose_yaml: false,
        has_compose_yml: false,
        has_compose_yaml: false,
    }
}

#[test]
fn compose_discovery_prefers_belljar_dir() {
    let snap = RepoSnapshot {
        compose_dir_is_dir: true,
        compose_dir_names: strings(&["b.yaml", "a.yml"]),
        has_docker_compose_yml: true,
        ..empty_snapshot()
    };
    let files = discover_files_for_repo("/repo", &snap);
    assert_eq!(
        files,
        strings(&["/repo/.belljar/compose/a.yml", "/repo/.belljar/compose/b.yaml"])
    );
}

#[test]
fn compose_discovery_falls_back_to_root() {
    let snap = RepoSnapshot {
        compose_dir_is_dir: true,
        has_docker_compose_yaml: true,
        ..empty_snapshot()
    };
    let files = discover_files_for_repo("/repo", &snap);
    assert_eq!(files, strings(&["/repo/docker-compose.yaml"]));
}

#[test]
fn discovery_ignores_entries_without_yaml_extension() {
    let snap = RepoSnapshot {
        compose_dir_is_dir: true,
        compose_dir_names: strings(&["notes.txt", ".yml", "a.yml", ".yaml", "y.yaml"]),
        ..empty_snapshot()
    };
    let files = discover_files_for_repo("/repo", &snap);
    assert_eq!(
        files,
        strings(&["/repo/.belljar/compose/a.yml", "/repo/.belljar/compose/y.yaml"])
    );
}

#[test]
fn discovery_probes_all_root_candidates_in_order() {
    let snap = RepoSnapshot {
        has_docker_compose_yml: true,
        has_docker_compose_yaml: true,
        has_compose_yml: true,
        has_compose_yaml: true,
        ..empty_snapshot()
    };
    let files = discover_files_for_repo("/r", &snap);
    assert_eq!(
        files,
        strings(&[
            "/r/docker-compose.yml",
            "/r/docker-compose.yaml",
            "/r/compose.yml",
            "/r/compose.yaml",
        ])
    );
}

#[test]
fn discovery_empty_when_nothing_present() {
    let files = discover_files_for_repo("/repo", &empty_snapshot());
    assert!(files.is_empty());
}

#[test]
fn sort_strings_orders_lexicographically() {
    let sorted = sort_strings(strings(&["b.yaml", "a.yml", "a.yaml", "b.yaml"]));
    assert_eq!(sorted, strings(&["a.yaml", "a.yml", "b.yaml", "b.yaml"]));
}

#[test]
fn lex_order_compares_by_code_point() {
    assert!(str_lex_leq("a", "b"));
    assert!(str_lex_leq("abc", "abd"));
    assert!(str_lex_leq("ab", "abc"));
    assert!(str_lex_leq("x", "x"));
    assert!(!str_lex_leq("b", "a"));
    assert!(!str_lex_leq("abc", "ab"));
    assert!(str_lex_leq("", "anything"));
}

#[test]
fn ends_with_checks_suffix() {
    assert!(str_ends_with("a.yml", ".yml"));
    assert!(str_ends_with(".yml", ".yml"));
    assert!(!str_ends_with("yml", ".yml"));
    assert!(!str_ends_with("a.yaml", ".yml"));
}

#[test]
fn basename_takes_last_component() {
    assert_eq!(path_basename("/root/frontend"), "frontend");
    assert_eq!(path_basename("plain"), "plain");
    assert_eq!(path_basename("/a/b/c.yml"), "c.yml");
    assert_eq!(path_basename("dir/"), "");
}
