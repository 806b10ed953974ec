//! Compose-file discovery policy: which compose files apply to a
//! repository.
//!
//! The policy prefers a dedicated compose subdirectory of the
//! repository: when it is a directory holding at least one file whose
//! name has a `yml` or `yaml` extension, exactly those files apply,
//! sorted lexicographically by name, and the root-level candidates are
//! ignored. Otherwise the four canonical root-level names are probed in
//! fixed priority order and every present one applies. An empty result
//! means the repository has no compose configuration.
//!
//! The file-system facts the policy reads are taken as a
//! [`RepoSnapshot`] assembled by the caller at invocation time, so
//! discovery re-runs against the current state of the repository on
//! every call.

use vstd::prelude::*;
use vstd::string::StrSliceExecFns;

use crate::strkit::{ends_with, sort_strs, sort_strings, str_ends_with};

verus! {

/// What discovery reads from a repository: whether the dedicated
/// compose subdirectory exists as a directory, the names of its
/// entries, and which of the four canonical root-level file names are
/// present.
#[derive(Debug)]
pub struct RepoSnapshot {
    /// Whether `<repo>/.belljar/compose` exists and is a directory.
    pub compose_dir_is_dir: bool,
    /// Names of the entries of that directory, in any order.
    pub compose_dir_names: Vec<String>,
    /// Whether `<repo>/docker-compose.yml` exists.
    pub has_docker_compose_yml: bool,
    /// Whether `<repo>/docker-compose.yaml` exists.
    pub has_docker_compose_yaml: bool,
    /// Whether `<repo>/compose.yml` exists.
    pub has_compose_yml: bool,
    /// Whether `<repo>/compose.yaml` exists.
    pub has_compose_yaml: bool,
}

/// Whether `name` has extension `yml` or `yaml`: it ends in `.yml` or
/// `.yaml` with at least one character before the dot, as the
/// file-name extension rule demands.
pub open spec fn has_yaml_ext(name: Seq<char>) -> bool {
    ||| (ends_with(name, ".yml"@) && name.len() > ".yml"@.len())
    ||| (ends_with(name, ".yaml"@) && name.len() > ".yaml"@.len())
}

/// The selection from the dedicated subdirectory: the `yml`/`yaml`
/// entries, sorted lexicographically.
pub open spec fn dir_selection(names: Seq<Seq<char>>) -> Seq<Seq<char>> {
    sort_strs(names.filter(|n: Seq<char>| has_yaml_ext(n)))
}

/// The selection from the repository root: every present canonical
/// name, in fixed priority order.
pub open spec fn root_selection(snap: RepoSnapshot) -> Seq<Seq<char>> {
    (if snap.has_docker_compose_yml {
        seq!["docker-compose.yml"@]
    } else {
        Seq::<Seq<char>>::empty()
    }) + (if snap.has_docker_compose_yaml {
        seq!["docker-compose.yaml"@]
    } else {
        Seq::<Seq<char>>::empty()
    }) + (if snap.has_compose_yml {
        seq!["compose.yml"@]
    } else {
        Seq::<Seq<char>>::empty()
    }) + (if snap.has_compose_yaml {
        seq!["compose.yaml"@]
    } else {
        Seq::<Seq<char>>::empty()
    })
}

/// Each name of `names` prefixed with `prefix`.
pub open spec fn with_prefix(prefix: Seq<char>, names: Seq<Seq<char>>) -> Seq<Seq<char>> {
    names.map_values(|n: Seq<char>| prefix + n)
}

/// The full discovery policy over a snapshot: the paths of the
/// applicable compose files for a repository at `repo`.
pub open spec fn discovered_files(repo: Seq<char>, snap: RepoSnapshot) -> Seq<Seq<char>> {
    let sel = dir_selection(snap.compose_dir_names.deep_view());
    if snap.compose_dir_is_dir && sel.len() > 0 {
        with_prefix(repo + "/.belljar/compose/"@, sel)
    } else {
        with_prefix(repo + "/"@, root_selection(snap))
    }
}

/// Decides [`has_yaml_ext`] on a file name.
pub fn is_yaml_name(name: &str) -> (r: bool)
    ensures
        r == has_yaml_ext(name@),
{
    proof {
        reveal_strlit(".yml");
        reveal_strlit(".yaml");
    }
    let n = name.unicode_len();
    (str_ends_with(name, ".yml") && n > 4) || (str_ends_with(name, ".yaml") && n > 5)
}

/// Appends `c` to the concatenation of `a` and `b`.
fn str_concat3(a: &str, b: &str, c: &str) -> (r: String)
    ensures
        r@ == a@ + b@ + c@,
{
    let mut r = a.to_owned();
    r.append(b);
    r.append(c);
    r
}

/// Applies the discovery policy to a snapshot of the repository at
/// `repo_path`, returning the applicable compose-file paths in the
/// order they are to be passed to the compose tool.
pub fn discover_files(repo_path: &str, snap: &RepoSnapshot) -> (r: Vec<String>)
    ensures
        r.deep_view() == discovered_files(repo_path@, *snap),
{
    if snap.compose_dir_is_dir {
        let mut picked: Vec<String> = Vec::new();
        let mut i: usize = 0;
        proof {
            reveal(Seq::filter);
            assert(snap.compose_dir_names.deep_view().take(0).filter(
                |n: Seq<char>| has_yaml_ext(n),
            ) =~= Seq::<Seq<char>>::empty());
        }
        while i < snap.compose_dir_names.len()
            invariant
                i <= snap.compose_dir_names.len(),
                picked.deep_view() =~= snap.compose_dir_names.deep_view().take(i as int).filter(
                    |n: Seq<char>| has_yaml_ext(n),
                ),
            decreases snap.compose_dir_names.len() - i,
        {
            let ghost names = snap.compose_dir_names.deep_view();
            let ghost pre = picked.deep_view();
            if is_yaml_name(snap.compose_dir_names[i].as_str()) {
                picked.push(snap.compose_dir_names[i].clone());
            }
            proof {
                reveal(Seq::filter);
                assert(names.take(i + 1).drop_last() =~= names.take(i as int));
                assert(names.take(i + 1).last() == names[i as int]);
                if has_yaml_ext(names[i as int]) {
                    assert(picked.deep_view() =~= pre.push(names[i as int]));
                }
                assert(picked.deep_view() =~= names.take(i + 1).filter(
                    |n: Seq<char>| has_yaml_ext(n),
                ));
            }
            i += 1;
        }
        proof {
            assert(snap.compose_dir_names.deep_view().take(
                snap.compose_dir_names@.len() as int,
            ) =~= snap.compose_dir_names.deep_view());
        }
        let sorted = sort_strings(picked);
        if sorted.len() > 0 {
            let ghost sel = dir_selection(snap.compose_dir_names.deep_view());
            let ghost pfx = repo_path@ + "/.belljar/compose/"@;
            let mut out: Vec<String> = Vec::new();
            let mut i: usize = 0;
            while i < sorted.len()
                invariant
                    i <= sorted.len(),
                    sorted.deep_view() == sel,
                    out.deep_view() =~= with_prefix(pfx, sel.take(i as int)),
                    pfx == repo_path@ + "/.belljar/compose/"@,
                decreases sorted.len() - i,
            {
                let ghost pre_out = out.deep_view();
                let s_new = str_concat3(repo_path, "/.belljar/compose/", sorted[i].as_str());
                proof {
                    assert(sorted.deep_view()[i as int] == sorted@[i as int]@);
                    assert(sel[i as int] == sorted@[i as int]@);
                    assert(s_new@ == pfx + sel[i as int]);
                }
                out.push(s_new);
                proof {
                    assert(out.deep_view() =~= pre_out.push(pfx + sel[i as int]));
                    assert(with_prefix(pfx, sel.take(i + 1)) =~= pre_out.push(
                        pfx + sel[i as int],
                    ));
                    assert(out.deep_view() =~= with_prefix(pfx, sel.take(i + 1)));
                }
                i += 1;
            }
            proof {
                assert(sel.take(sel.len() as int) =~= sel);
                assert(out.deep_view() =~= discovered_files(repo_path@, *snap));
            }
            return out;
        }
    }
    let mut out: Vec<String> = Vec::new();
    if snap.has_docker_compose_yml {
        out.push(str_concat3(repo_path, "/", "docker-compose.yml"));
    }
    if snap.has_docker_compose_yaml {
        out.push(str_concat3(repo_path, "/", "docker-compose.yaml"));
    }
    if snap.has_compose_yml {
        out.push(str_concat3(repo_path, "/", "compose.yml"));
    }
    if snap.has_compose_yaml {
        out.push(str_concat3(repo_path, "/", "compose.yaml"));
    }
    proof {
        assert(out.deep_view() =~= with_prefix(repo_path@ + "/"@, root_selection(*snap)));
    }
    out
}

/// Discovery as a caller sees it; an empty result, not an error, when
/// the repository has no compose configuration.
pub fn discover_files_for_repo(repo_path: &str, snap: &RepoSnapshot) -> (r: Vec<String>)
    ensures
        r.deep_view() == discovered_files(repo_path@, *snap),
{
    discover_files(repo_path, snap)
}

} // verus!
