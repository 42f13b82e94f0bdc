//! The dispatcher's laws: what holds of every submission, proved over the
//! spec-level state machine that the executable transitions are verified
//! against.

use vstd::prelude::*;

verus! {

use crate::dispatch::{
    DispatchStateView,
    is_terminal,
    spec_dispatch,
    spec_lookup_step,
    spec_materialized,
    spec_select,
    spec_finish,
};
use crate::registry::{LangInfo, lemma_find_iff_has, registry_has, spec_find};
use crate::submission::{CodeView, ErrorView, RunEventView};

/// A submission naming a language outside the registry fails as
/// unsupported, and no workspace is ever planned for it — so none of its
/// files is ever written.
pub proof fn lemma_unsupported_language_rejected(reg: Seq<LangInfo>, sid: u64, code: CodeView)
    requires
        !registry_has(reg, code.lang),
    ensures
        spec_lookup_step(reg, sid, code) == (DispatchStateView::Failed {
            error: ErrorView::UnsupportedLanguage(code.lang),
        }),
        !(spec_lookup_step(reg, sid, code) is WorkspacePlanned),
{
    lemma_find_iff_has(reg, code.lang);
}

/// A test-mode submission for a language without a test harness fails as an
/// unsupported mode, after its workspace was materialized and before any
/// process is spawned.
pub proof fn lemma_no_test_harness_rejected(
    reg: Seq<LangInfo>,
    sid: u64,
    code: CodeView,
    li: LangInfo,
)
    requires
        spec_find(reg, code.lang) == Some(li),
        !code.is_ide,
        li@.test_cmds.len() == 0,
    ensures
        spec_select(spec_materialized(spec_lookup_step(reg, sid, code), true)).0
            == (DispatchStateView::Failed { error: ErrorView::UnsupportedMode }),
        spec_select(spec_materialized(spec_lookup_step(reg, sid, code), true)).1 is None,
{
}

/// Terminal states absorb every further event: a finished dispatch can
/// yield no second terminal outcome.
pub proof fn lemma_terminal_absorbing(st: DispatchStateView, ok: bool, ev: RunEventView)
    requires
        is_terminal(st),
    ensures
        spec_materialized(st, ok) == st,
        spec_select(st).0 == st,
        spec_select(st).1 is None,
        spec_finish(st, ev) == st,
{
}

/// Every submission's dispatch reaches a terminal state, whatever the
/// payload, the materialization report and the process report: together
/// with `lemma_terminal_absorbing`, each submission yields exactly one
/// terminal message.
pub proof fn lemma_dispatch_reaches_terminal(
    reg: Seq<LangInfo>,
    sid: u64,
    payload: Option<CodeView>,
    io_ok: bool,
    ev: RunEventView,
)
    ensures
        is_terminal(spec_dispatch(reg, sid, payload, io_ok, ev)),
{
}

/// Dispatch is a function of its inputs alone: resubmitting an identical
/// payload under the same identifier, with identical materialization and
/// process reports, reaches an identical terminal state — so a
/// deterministic program yields byte-identical results on resubmission.
pub proof fn lemma_dispatch_deterministic(
    reg: Seq<LangInfo>,
    sid: u64,
    p1: Option<CodeView>,
    p2: Option<CodeView>,
    ok1: bool,
    ok2: bool,
    ev1: RunEventView,
    ev2: RunEventView,
)
    requires
        p1 == p2,
        ok1 == ok2,
        ev1 == ev2,
    ensures
        spec_dispatch(reg, sid, p1, ok1, ev1) == spec_dispatch(reg, sid, p2, ok2, ev2),
{
}

} // verus!
