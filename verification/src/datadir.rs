//! Resolution of the registry's data directory: a layered lookup where
//! an explicit override (environment or injected configuration) takes
//! precedence over the platform-standard per-application directory.
//! The directory itself is created on demand by the caller.

use vstd::prelude::*;

use crate::errors::CoreError;
use crate::strkit::{ends_with, str_concat};

verus! {

/// Explicit configuration threaded through by the caller instead of
/// hidden process-wide state: an injected data-directory override,
/// used to redirect storage in tests.
#[derive(Debug)]
pub struct DataDirConfig {
    /// Takes precedence over the platform-standard directory.
    pub override_dir: Option<String>,
}

impl DataDirConfig {
    /// A configuration with no override.
    pub fn new() -> (r: DataDirConfig)
        ensures
            r.override_dir is None,
    {
        DataDirConfig { override_dir: None }
    }
}

/// Injects an override data directory, as tests do to redirect
/// storage.
pub fn set_data_dir_override_for_testing(cfg: &mut DataDirConfig, p: String)
    ensures
        final(cfg).override_dir == Some(p),
{
    cfg.override_dir = Some(p);
}

/// Removes the injected override.
pub fn clear_data_dir_override_for_testing(cfg: &mut DataDirConfig)
    ensures
        final(cfg).override_dir is None,
{
    cfg.override_dir = None;
}

/// Relies on directories' `ProjectDirs::from` and `data_dir`: the
/// platform-standard per-application data directory. The result
/// depends on the machine and environment, so nothing is promised of
/// it.
#[verifier::external_body]
fn platform_data_dir() -> Option<String> {
    directories::ProjectDirs::from("dev", "par-rs", "par-rs").map(
        |d| d.data_dir().to_string_lossy().into_owned(),
    )
}

/// Whether the environment value selects the data directory: present
/// and non-empty.
pub open spec fn env_selects(env_dir: Option<String>) -> bool {
    env_dir is Some && env_dir->Some_0@.len() > 0
}

/// Resolves the data directory: a non-empty environment value wins,
/// then the injected override, then the platform-standard directory;
/// with none of the three, no registry location is resolvable.
pub fn data_dir(env_dir: &Option<String>, cfg: &DataDirConfig) -> (r: Result<String, CoreError>)
    ensures
        env_selects(*env_dir) ==> (r matches Ok(d) && d@ == env_dir->Some_0@),
        !env_selects(*env_dir) && cfg.override_dir is Some ==> (r matches Ok(d) && d@
            == cfg.override_dir->Some_0@),
        !env_selects(*env_dir) && cfg.override_dir is None ==> ((r matches Ok(d) ==> d@.len() > 0)
            && (r matches Err(err) ==> err == CoreError::NoRegistryPath)),
{
    match env_dir {
        Some(e) if !e.as_str().is_empty() => {
            return Ok(e.clone());
        },
        _ => {},
    }
    match &cfg.override_dir {
        Some(o) => {
            return Ok(o.clone());
        },
        None => {},
    }
    match platform_data_dir() {
        Some(d) => {
            if d.as_str().is_empty() {
                Err(CoreError::NoRegistryPath)
            } else {
                Ok(d)
            }
        },
        None => Err(CoreError::NoRegistryPath),
    }
}

/// The registry document's path under the resolved data directory.
pub fn registry_path(env_dir: &Option<String>, cfg: &DataDirConfig) -> (r: Result<
    String,
    CoreError,
>)
    ensures
        env_selects(*env_dir) ==> (r matches Ok(p) && p@ == env_dir->Some_0@
            + "/registry.json"@),
        !env_selects(*env_dir) && cfg.override_dir is Some ==> (r matches Ok(p) && p@
            == cfg.override_dir->Some_0@ + "/registry.json"@),
        r matches Ok(p) ==> ends_with(p@, "/registry.json"@),
        r matches Err(err) ==> err == CoreError::NoRegistryPath,
{
    match data_dir(env_dir, cfg) {
        Ok(d) => {
            let p = str_concat(d.as_str(), "/registry.json");
            proof {
                assert(p@.skip(p@.len() - "/registry.json"@.len()) =~= "/registry.json"@);
            }
            Ok(p)
        },
        Err(e) => Err(e),
    }
}

} // verus!
