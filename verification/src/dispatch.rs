//! The execution dispatcher: a state machine per submission. A submission is
//! received, validated, bound to a language entry, materialized into a
//! private workspace, executed, and packaged into exactly one terminal
//! result. Every effectful step (writing the workspace, spawning the
//! process) is performed by the caller between transitions; each transition
//! is a pure, total function of the current state and the reported event.

use vstd::prelude::*;

verus! {

use vstd::string::StringExecFns;
use crate::decode::{decode_lossy, lossy_utf8};
use crate::registry::{
    LangInfo,
    Registry,
    lemma_find_iff_has,
    lemma_find_unique,
    spec_find,
};
use crate::submission::{
    Code,
    CodeView,
    DispatchError,
    ErrorView,
    Return,
    ReturnView,
    RunEvent,
    RunEventView,
};
use crate::workspace::{ExecutionPlan, PlanView, spec_plan};

/// The mathematical content of a [`DispatchState`].
pub enum DispatchStateView {
    Received,
    Validated { code: CodeView },
    WorkspacePlanned { is_ide: bool, plan: PlanView },
    WorkspaceReady { is_ide: bool, plan: PlanView },
    Executing { is_ide: bool },
    Completed { is_ide: bool, result: ReturnView },
    Failed { error: ErrorView },
}

/// Where one submission's dispatch stands. `WorkspacePlanned` awaits the
/// caller's materialization of the plan; `Executing` awaits the process
/// runner's report. `Completed` and `Failed` are the two terminal states,
/// and no transition leaves either.
pub enum DispatchState {
    Received,
    Validated { code: Code },
    WorkspacePlanned { is_ide: bool, plan: ExecutionPlan },
    WorkspaceReady { is_ide: bool, plan: ExecutionPlan },
    Executing { is_ide: bool },
    Completed { is_ide: bool, result: Return },
    Failed { error: DispatchError },
}

impl View for DispatchState {
    type V = DispatchStateView;

    open spec fn view(&self) -> DispatchStateView {
        match self {
            DispatchState::Received => DispatchStateView::Received,
            DispatchState::Validated { code } => DispatchStateView::Validated { code: code@ },
            DispatchState::WorkspacePlanned { is_ide, plan } => DispatchStateView::WorkspacePlanned {
                is_ide: *is_ide,
                plan: plan@,
            },
            DispatchState::WorkspaceReady { is_ide, plan } => DispatchStateView::WorkspaceReady {
                is_ide: *is_ide,
                plan: plan@,
            },
            DispatchState::Executing { is_ide } => DispatchStateView::Executing {
                is_ide: *is_ide,
            },
            DispatchState::Completed { is_ide, result } => DispatchStateView::Completed {
                is_ide: *is_ide,
                result: result@,
            },
            DispatchState::Failed { error } => DispatchStateView::Failed { error: error@ },
        }
    }
}

/// A state from which no transition moves: the dispatch is over and owes
/// the client its single terminal message.
pub open spec fn is_terminal(st: DispatchStateView) -> bool {
    st is Completed || st is Failed
}

/// Receiving a submission: a payload the transport could not interpret
/// fails at once; anything else is validated.
pub open spec fn spec_receive(payload: Option<CodeView>) -> DispatchStateView {
    match payload {
        Some(code) => DispatchStateView::Validated { code },
        None => DispatchStateView::Failed { error: ErrorView::MalformedSubmission },
    }
}

/// Binding a validated submission to its language entry: an identifier
/// outside the registry fails, anything else yields the workspace plan for
/// the submission's own directory.
pub open spec fn spec_lookup_step(reg: Seq<LangInfo>, sid: u64, code: CodeView) -> DispatchStateView {
    match spec_find(reg, code.lang) {
        Some(li) => DispatchStateView::WorkspacePlanned {
            is_ide: code.is_ide,
            plan: spec_plan(li@, code.code, sid),
        },
        None => DispatchStateView::Failed { error: ErrorView::UnsupportedLanguage(code.lang) },
    }
}

/// Consuming the materialization report: the workspace is ready, or the
/// dispatch fails on the filesystem error.
pub open spec fn spec_materialized(st: DispatchStateView, ok: bool) -> DispatchStateView {
    match st {
        DispatchStateView::WorkspacePlanned { is_ide, plan } => {
            if ok {
                DispatchStateView::WorkspaceReady { is_ide, plan }
            } else {
                DispatchStateView::Failed { error: ErrorView::IoError }
            }
        },
        _ => st,
    }
}

/// Selecting the command set for the submission's mode: the run command in
/// interactive mode, the test command otherwise; a language with no test
/// harness fails the test mode.
pub open spec fn spec_select(st: DispatchStateView) -> (DispatchStateView, Option<Seq<Seq<char>>>) {
    match st {
        DispatchStateView::WorkspaceReady { is_ide, plan } => {
            if is_ide {
                (DispatchStateView::Executing { is_ide }, Some(plan.run_args))
            } else if plan.test_args.len() > 0 {
                (DispatchStateView::Executing { is_ide }, Some(plan.test_args))
            } else {
                (DispatchStateView::Failed { error: ErrorView::UnsupportedMode }, None)
            }
        },
        _ => (st, None),
    }
}

/// Consuming the process runner's report: a process that could not be
/// spawned, timed out, or was killed by a signal fails the dispatch; one
/// that terminated completes it, with its output decoded — interactive runs
/// return standard output, test runs standard output followed by standard
/// error — and its exit code, zero or not.
pub open spec fn spec_finish(st: DispatchStateView, ev: RunEventView) -> DispatchStateView {
    match st {
        DispatchStateView::Executing { is_ide } => match ev {
            RunEventView::SpawnFailed => DispatchStateView::Failed {
                error: ErrorView::ProcessSpawnError,
            },
            RunEventView::TimedOut => DispatchStateView::Failed { error: ErrorView::Timeout },
            RunEventView::Finished(o) => match o.exit_code {
                None => DispatchStateView::Failed { error: ErrorView::AbnormalTermination },
                Some(c) => DispatchStateView::Completed {
                    is_ide,
                    result: ReturnView {
                        data: if is_ide {
                            lossy_utf8(o.stdout)
                        } else {
                            lossy_utf8(o.stdout) + lossy_utf8(o.stderr)
                        },
                        code: c as int,
                    },
                },
            },
        },
        _ => st,
    }
}

/// One submission's whole dispatch, as a function of everything the outside
/// world contributes: the registry, the submission identifier, the parsed
/// payload, whether materialization succeeded, and what the process runner
/// reported.
pub open spec fn spec_dispatch(
    reg: Seq<LangInfo>,
    sid: u64,
    payload: Option<CodeView>,
    io_ok: bool,
    ev: RunEventView,
) -> DispatchStateView {
    let validated = spec_receive(payload);
    let planned = match validated {
        DispatchStateView::Validated { code } => spec_lookup_step(reg, sid, code),
        _ => validated,
    };
    spec_finish(spec_select(spec_materialized(planned, io_ok)).0, ev)
}

/// Receives one submission payload, already parsed (or not) by the
/// transport.
pub fn step_receive(payload: Option<Code>) -> (st: DispatchState)
    ensures
        st@ == spec_receive(match payload {
            Some(c) => Some(c@),
            None => None,
        }),
{
    match payload {
        Some(code) => DispatchState::Validated { code },
        None => DispatchState::Failed { error: DispatchError::MalformedSubmission },
    }
}

/// Looks the submission's language up and, when it is supported, plans the
/// submission's workspace.
pub fn step_lookup(reg: &Registry, sid: u64, code: Code) -> (st: DispatchState)
    requires
        reg.wf(),
    ensures
        st@ == spec_lookup_step(reg@, sid, code@),
{
    let ghost cv = code@;
    let (lang, source, is_ide) = code.into_parts();
    match reg.lookup(&lang) {
        Some(li) => {
            proof {
                let i = choose|i: int|
                    0 <= i < reg@.len() && reg@[i] == *li && #[trigger] reg@[i]@.name == cv.lang;
                lemma_find_unique(reg@, cv.lang, i);
            }
            let plan = ExecutionPlan::build(li, source, sid);
            DispatchState::WorkspacePlanned { is_ide, plan }
        },
        None => {
            proof {
                lemma_find_iff_has(reg@, cv.lang);
            }
            DispatchState::Failed { error: DispatchError::UnsupportedLanguage(lang) }
        },
    }
}

/// Consumes the caller's report of the workspace materialization.
pub fn step_materialized(st: DispatchState, ok: bool) -> (r: DispatchState)
    ensures
        r@ == spec_materialized(st@, ok),
{
    match st {
        DispatchState::WorkspacePlanned { is_ide, plan } => {
            if ok {
                DispatchState::WorkspaceReady { is_ide, plan }
            } else {
                DispatchState::Failed { error: DispatchError::IoError }
            }
        },
        other => other,
    }
}

/// Selects the command set for the submission's mode, handing the caller
/// the argument list to spawn, or fails a test-mode submission whose
/// language has no test harness.
pub fn step_select(st: DispatchState) -> (r: (DispatchState, Option<Vec<String>>))
    ensures
        r.0@ == spec_select(st@).0,
        match r.1 {
            Some(args) => spec_select(st@).1 == Some(args.deep_view()),
            None => spec_select(st@).1 is None,
        },
{
    match st {
        DispatchState::WorkspaceReady { is_ide, plan } => {
            if is_ide {
                let args = plan.into_args(true);
                (DispatchState::Executing { is_ide }, Some(args))
            } else if plan.test_args().len() > 0 {
                let args = plan.into_args(false);
                (DispatchState::Executing { is_ide }, Some(args))
            } else {
                (DispatchState::Failed { error: DispatchError::UnsupportedMode }, None)
            }
        },
        other => (other, None),
    }
}

/// Consumes the process runner's report and packages the result.
pub fn step_finish(st: DispatchState, ev: RunEvent) -> (r: DispatchState)
    ensures
        r@ == spec_finish(st@, ev@),
{
    match st {
        DispatchState::Executing { is_ide } => match ev {
            RunEvent::SpawnFailed => DispatchState::Failed {
                error: DispatchError::ProcessSpawnError,
            },
            RunEvent::TimedOut => DispatchState::Failed { error: DispatchError::Timeout },
            RunEvent::Finished(o) => match o.exit_code() {
                None => DispatchState::Failed { error: DispatchError::AbnormalTermination },
                Some(c) => {
                    let mut data = decode_lossy(o.stdout());
                    if !is_ide {
                        let err_text = decode_lossy(o.stderr());
                        data.append(err_text.as_str());
                    }
                    DispatchState::Completed { is_ide, result: Return::new(data, c) }
                },
            },
        },
        other => other,
    }
}

} // verus!
