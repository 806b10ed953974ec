//! The library's laws: properties that relate several operations,
//! stated over the same spec functions and views the operations'
//! contracts use, and proved once and for all.

use vstd::prelude::*;

use crate::discovery::{dir_selection, has_yaml_ext};
use crate::model::SessionView;
use crate::strkit::{lemma_sort_strs_sorted, sorted_lex};
use crate::terminal::{ensure_plan_spec, plan_creates};
use crate::worktree::{worktree_attempts_spec, worktree_setup_ok};

verus! {

/// A sequence none of whose elements satisfies `p` filters to nothing.
proof fn lemma_filter_empty<T>(s: Seq<T>, p: spec_fn(T) -> bool)
    requires
        forall|i: int| 0 <= i < s.len() ==> !p(s[i]),
    ensures
        s.filter(p) == Seq::<T>::empty(),
    decreases s.len(),
{
    reveal(Seq::filter);
    if s.len() == 0 {
        assert(s.filter(p) =~= Seq::<T>::empty());
    } else {
        assert(forall|i: int| 0 <= i < s.drop_last().len() ==> s.drop_last()[i] == s[i]);
        lemma_filter_empty(s.drop_last(), p);
        assert(!p(s.last()));
    }
}

/// Creating a session under a label no existing record carries leaves
/// the registry with exactly one record under that label, and that
/// record has no worktree yet, a terminal session named after the
/// label, and the compose project derived from the fixed prefix plus
/// the first eight characters of its id. With `ss` the sessions a
/// load returned before `create` and `s` the record `create`'s
/// contract describes, `ss.push(s)` is what a load returns after.
pub proof fn lemma_create_unique_label(ss: Seq<SessionView>, s: SessionView, label: Seq<char>)
    requires
        forall|i: int| 0 <= i < ss.len() ==> (#[trigger] ss[i]).label != label,
        s.label == label,
        s.worktree_path is None,
        s.tmux_session == label,
        s.compose_project == "parrs_"@ + s.id.take(8),
    ensures
        ({
            let labelled = ss.push(s).filter(|x: SessionView| x.label == label);
            &&& labelled.len() == 1
            &&& labelled[0] == s
            &&& labelled[0].worktree_path is None
            &&& labelled[0].tmux_session == label
            &&& labelled[0].compose_project == "parrs_"@ + s.id.take(8)
        }),
{
    reveal(Seq::filter);
    let p = |x: SessionView| x.label == label;
    let ss2 = ss.push(s);
    assert(ss2.drop_last() =~= ss);
    assert(ss2.last() == s);
    lemma_filter_empty(ss, p);
    assert(ss2.filter(p) =~= Seq::<SessionView>::empty().push(s));
}

/// Ensuring a terminal session is idempotent: however the first
/// ensure found the session, the session exists once its plan has
/// run, so the second ensure's presence probe answers true and its
/// plan issues no creation. Two ensures in sequence issue at most one
/// creation command, and the second issues none.
pub proof fn lemma_ensure_idempotent(
    tool: Seq<char>,
    name: Seq<char>,
    cwd: Seq<char>,
    first_present: bool,
)
    ensures
        ({
            let p1 = ensure_plan_spec(tool, name, cwd, first_present);
            let present_after = first_present || p1.create is Some;
            let p2 = ensure_plan_spec(tool, name, cwd, present_after);
            &&& present_after
            &&& plan_creates(p2) == 0
            &&& plan_creates(p1) + plan_creates(p2) <= 1
        }),
{
}

/// The dedicated-subdirectory selection is sorted lexicographically
/// and holds exactly the entries whose names carry a `yml` or `yaml`
/// extension, each exactly as often as the directory holds it.
pub proof fn lemma_dir_selection_sorted(names: Seq<Seq<char>>)
    ensures
        sorted_lex(dir_selection(names)),
        dir_selection(names).to_multiset() == names.filter(
            |n: Seq<char>| has_yaml_ext(n),
        ).to_multiset(),
{
    lemma_sort_strs_sorted(names.filter(|n: Seq<char>| has_yaml_ext(n)));
}

/// The worktree attempt order and its fallback: with a branch, the
/// "create new branch" command is tried first and "attach existing
/// branch" second; success of either attempt satisfies the setup, so
/// a failed creation followed by a successful attach succeeds, while
/// two failures with no directory on disk fail.
pub proof fn lemma_worktree_branch_fallback(repo: Seq<char>, label: Seq<char>, branch: Seq<char>)
    ensures
        worktree_attempts_spec(repo, label, Some(branch)).len() == 2,
        worktree_attempts_spec(repo, label, Some(branch))[0].args[4] == "-b"@,
        worktree_attempts_spec(repo, label, Some(branch))[1].args.len() == 6,
        worktree_setup_ok(true, false),
        !worktree_setup_ok(false, false),
{
}

} // verus!
