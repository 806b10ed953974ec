use belljar_core::{clear_data_dir_override_for_testing, data_dir, registry_path,
    set_data_dir_override_for_testing, version, DataDirConfig};

#[test]
fn version_is_fixed() {
    assert_eq!(version(), "0.1.0");
}

#[test]
fn env_value_wins_over_override() {
    let mut cfg = DataDirConfig::new();
    set_data_dir_override_for_testing(&mut cfg, "/override".to_string());
    let env = Some("/env".to_string());
    assert_eq!(data_dir(&env, &cfg).unwrap(), "/env");
}

#[test]
fn empty_env_value_falls_through_to_override() {
    let mut cfg = DataDirConfig::new();
    set_data_dir_override_for_testing(&mut cfg, "/override".to_string());
    let env = Some(String::new());
    assert_eq!(data_dir(&env, &cfg).unwrap(), "/override");
}

#[test]
fn absent_env_uses_override() {
    let mut cfg = DataDirConfig::new();
    set_data_dir_override_for_testing(&mut cfg, "/override".to_string());
    assert_eq!(data_dir(&None, &cfg).unwrap(), "/override");
}

#[test]
fn clearing_the_override_removes_it() {
    let mut cfg = DataDirConfig::new();
    set_data_dir_override_for_testing(&mut cfg, "/override".to_string());
    clear_data_dir_override_for_testing(&mut cfg);
    assert!(cfg.override_dir.is_none());
}

#[test]
fn registry_path_joins_document_name() {
    let mut cfg = DataDirConfig::new();
    set_data_dir_override_for_testing(&mut cfg, "/data".to_string());
    assert_eq!(registry_path(&None, &cfg).unwrap(), "/data/registry.json");
    let env = Some("/env".to_string());
    assert_eq!(registry_path(&env, &cfg).unwrap(), "/env/registry.json");
}
