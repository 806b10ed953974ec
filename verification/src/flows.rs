//! Batch orchestration flows: removal of every session with per-entry
//! fault tolerance, and the control-center aggregation plan.
//!
//! Entries are processed strictly in registry order. One entry's
//! teardown failure is recorded as a warning and does not abort the
//! batch or keep the entry's record in the registry; only registry
//! I/O itself, which the caller performs, is fail-fast.

use vstd::prelude::*;

use crate::errors::CoreError;
use crate::invocation::{Invocation, InvocationView};
use crate::model::{Registry, SessionView};
use crate::terminal::{
    attach_args, ensure_plan_spec, new_window_args, select_layout_args, EnsurePlan,
    ensure_named_session, new_window, select_layout, attach,
};

verus! {

/// How one session's compose teardown ended: cleanly, with the benign
/// "no compose files" condition, or with a true failure.
#[derive(Clone, Copy, Debug, PartialEq, Eq, Structural)]
pub enum DownOutcome {
    /// The teardown command ran and exited successfully.
    Done,
    /// Discovery found no compose files; a successful no-op.
    NoFiles,
    /// The teardown command failed; reported, never fatal to the batch.
    Failed,
}

/// The labels deserving a warning: those of the sessions whose
/// teardown truly failed, in registry order.
pub open spec fn warn_labels(ss: Seq<SessionView>, os: Seq<DownOutcome>) -> Seq<Seq<char>>
    decreases ss.len(),
{
    if ss.len() == 0 {
        Seq::<Seq<char>>::empty()
    } else {
        (if os[0] is Failed {
            seq![ss[0].label]
        } else {
            Seq::<Seq<char>>::empty()
        }) + warn_labels(ss.skip(1), os.skip(1))
    }
}

/// Removes every session from the registry, in registry order, given
/// the teardown outcome of each; returns the labels whose teardown
/// failed, each deserving exactly one warning. No outcome, failed or
/// not, keeps a record in the registry or stops the batch; workspaces
/// are untouched.
pub fn remove_all_sessions(reg: &mut Registry, outcomes: &Vec<DownOutcome>) -> (warnings: Vec<
    String,
>)
    requires
        outcomes@.len() == old(reg)@.sessions.len(),
    ensures
        final(reg)@.sessions == Seq::<SessionView>::empty(),
        final(reg)@.workspaces == old(reg)@.workspaces,
        warnings.deep_view() == warn_labels(old(reg)@.sessions, outcomes@),
{
    let ghost ss0 = old(reg)@.sessions;
    let ghost os = outcomes@;
    let mut warnings: Vec<String> = Vec::new();
    let n = reg.sessions.len();
    let mut i: usize = 0;
    proof {
        assert(ss0.skip(0) =~= ss0);
        assert(os.skip(0) =~= os);
        assert(warnings.deep_view() + warn_labels(ss0.skip(0), os.skip(0)) =~= warn_labels(
            ss0,
            os,
        ));
    }
    while i < n
        invariant
            i <= n,
            n == ss0.len(),
            os.len() == n,
            os == outcomes@,
            reg@.sessions =~= ss0.skip(i as int),
            reg@.workspaces == old(reg)@.workspaces,
            warn_labels(ss0, os) =~= warnings.deep_view() + warn_labels(
                ss0.skip(i as int),
                os.skip(i as int),
            ),
        decreases n - i,
    {
        let ghost pre_w = warnings.deep_view();
        let s = reg.sessions.remove(0);
        if outcomes[i] == DownOutcome::Failed {
            warnings.push(s.label.clone());
        }
        proof {
            assert(ss0.skip(i as int)[0] == ss0[i as int]);
            assert(os.skip(i as int)[0] == os[i as int]);
            assert(ss0.skip(i as int).skip(1) =~= ss0.skip(i + 1));
            assert(os.skip(i as int).skip(1) =~= os.skip(i + 1));
            assert(reg@.sessions =~= ss0.skip(i + 1));
            assert(s@ == ss0[i as int]);
            if os[i as int] is Failed {
                assert(warnings.deep_view() =~= pre_w.push(ss0[i as int].label));
            }
            assert(warn_labels(ss0, os) =~= warnings.deep_view() + warn_labels(
                ss0.skip(i + 1),
                os.skip(i + 1),
            ));
        }
        i += 1;
    }
    proof {
        assert(reg@.sessions =~= Seq::<SessionView>::empty());
        assert(warn_labels(ss0.skip(n as int), os.skip(n as int)) =~= Seq::<Seq<char>>::empty());
        assert(warnings.deep_view() =~= warn_labels(ss0, os));
    }
    warnings
}

/// Mathematical view of a [`ControlCenterPlan`].
pub struct ControlCenterPlanView {
    pub ensure: crate::terminal::EnsurePlanView,
    pub windows: Seq<InvocationView>,
    pub layout: InvocationView,
    pub attach: InvocationView,
}

/// The control-center aggregation: ensure one fixed-name session
/// rooted at the first session's repository, one window per session in
/// registry order, a best-effort tiled layout, then attach.
#[derive(Debug)]
pub struct ControlCenterPlan {
    /// Ensure of the fixed-name aggregation session.
    pub ensure: EnsurePlan,
    /// One window per session, named by its label, rooted at its
    /// repository path; each window's failure is reported per entry
    /// without aborting the loop.
    pub windows: Vec<Invocation>,
    /// Best-effort; its failure is swallowed.
    pub layout: Invocation,
    /// The terminal step; blocks until the user detaches.
    pub attach: Invocation,
}

impl View for ControlCenterPlan {
    type V = ControlCenterPlanView;

    open spec fn view(&self) -> ControlCenterPlanView {
        ControlCenterPlanView {
            ensure: self.ensure@,
            windows: self.windows.deep_view(),
            layout: self.layout@,
            attach: self.attach@,
        }
    }
}

/// The windows of the control center: one per session, in registry
/// order.
pub open spec fn cc_windows_spec(tool: Seq<char>, ss: Seq<SessionView>) -> Seq<InvocationView> {
    Seq::new(
        ss.len(),
        |i: int| InvocationView {
            program: tool,
            args: new_window_args("belljar-cc"@, ss[i].label, ss[i].repo_path),
        },
    )
}

/// Builds the control-center plan over the registry's sessions:
/// nothing to do when there are none, the distinguished "tool not
/// found" condition when the multiplexer is absent, and otherwise the
/// full plan, rooted at the first session's repository path. `present`
/// is the presence probe's answer for the aggregation session.
pub fn control_center_plan(reg: &Registry, tool: &Option<String>, present: bool) -> (r: Result<
    Option<ControlCenterPlan>,
    CoreError,
>)
    ensures
        reg@.sessions.len() == 0 ==> (r matches Ok(p) && p is None),
        reg@.sessions.len() > 0 && tool is None ==> (r matches Err(e) && e
            == CoreError::TmuxNotFound),
        reg@.sessions.len() > 0 && tool is Some ==> (r matches Ok(op) && op matches Some(
            plan,
        ) && {
            let t = tool->Some_0@;
            &&& plan@.ensure == ensure_plan_spec(
                t,
                "belljar-cc"@,
                reg@.sessions[0].repo_path,
                present,
            )
            &&& plan@.windows == cc_windows_spec(t, reg@.sessions)
            &&& plan@.layout == InvocationView {
                program: t,
                args: select_layout_args("belljar-cc"@, "tiled"@),
            }
            &&& plan@.attach == InvocationView { program: t, args: attach_args("belljar-cc"@) }
        }),
{
    if reg.sessions.len() == 0 {
        return Ok(None);
    }
    let base = &reg.sessions[0].repo_path;
    let ensure = match ensure_named_session(tool, "belljar-cc", base.as_str(), present) {
        Err(_) => {
            return Err(CoreError::TmuxNotFound);
        },
        Ok(p) => p,
    };
    let mut windows: Vec<Invocation> = Vec::new();
    let ghost t_view = tool->Some_0@;
    let mut i: usize = 0;
    while i < reg.sessions.len()
        invariant
            i <= reg.sessions.len(),
            tool matches Some(t) && t@ == t_view,
            windows.deep_view() =~= cc_windows_spec(t_view, reg@.sessions).take(i as int),
        decreases reg.sessions.len() - i,
    {
        let s = &reg.sessions[i];
        let w = match new_window(tool, "belljar-cc", s.label.as_str(), s.repo_path.as_str()) {
            Err(_) => {
                return Err(CoreError::TmuxNotFound);
            },
            Ok(w) => w,
        };
        proof {
            assert(w@.program == t_view);
            assert(s@ == reg@.sessions[i as int]);
            assert(w@.args == new_window_args(
                "belljar-cc"@,
                reg@.sessions[i as int].label,
                reg@.sessions[i as int].repo_path,
            ));
            assert(cc_windows_spec(t_view, reg@.sessions)[i as int] == w@);
        }
        let ghost pre = windows.deep_view();
        windows.push(w);
        proof {
            assert(windows.deep_view() =~= pre.push(cc_windows_spec(t_view, reg@.sessions)[
                i as int
            ]));
            assert(windows.deep_view() =~= cc_windows_spec(t_view, reg@.sessions).take(i + 1));
        }
        i += 1;
    }
    let layout = match select_layout(tool, "belljar-cc", "tiled") {
        Err(_) => {
            return Err(CoreError::TmuxNotFound);
        },
        Ok(l) => l,
    };
    let attach_inv = match attach(tool, "belljar-cc") {
        Err(_) => {
            return Err(CoreError::TmuxNotFound);
        },
        Ok(a) => a,
    };
    let plan = ControlCenterPlan { ensure, windows, layout, attach: attach_inv };
    proof {
        assert(cc_windows_spec(t_view, reg@.sessions).take(reg@.sessions.len() as int)
            =~= cc_windows_spec(t_view, reg@.sessions));
    }
    Ok(Some(plan))
}

} // verus!
