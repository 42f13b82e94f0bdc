//! Workspace layout: each submission gets a private directory derived from
//! its submission identifier, so that concurrent submissions can never
//! overwrite one another's source files.

use vstd::prelude::*;

verus! {

use vstd::string::StringExecFns;
use crate::registry::{LangInfo, LangInfoView};
use crate::text::{dec_seq, lemma_dec_seq_injective, resolve_all_seq, resolve_all, u64_string};

/// The path of the workspace directory that submission `sid` owns.
pub open spec fn workspace_dir_seq(sid: u64) -> Seq<char> {
    "tmp/"@ + dec_seq(sid as nat)
}

/// Builds the workspace directory path for submission `sid`.
pub fn workspace_dir(sid: u64) -> (s: String)
    ensures
        s@ == workspace_dir_seq(sid),
{
    let mut s = "tmp/".to_owned();
    let id = u64_string(sid);
    s.append(id.as_str());
    s
}

/// Distinct submissions own distinct workspace directories, so one
/// in-flight submission can never write over another's source.
pub proof fn lemma_workspace_isolation(a: u64, b: u64)
    requires
        a != b,
    ensures
        workspace_dir_seq(a) != workspace_dir_seq(b),
{
    reveal_strlit("tmp/");
    if workspace_dir_seq(a) == workspace_dir_seq(b) {
        assert(workspace_dir_seq(a).skip(4) =~= dec_seq(a as nat));
        assert(workspace_dir_seq(b).skip(4) =~= dec_seq(b as nat));
        lemma_dec_seq_injective(a as nat, b as nat);
    }
}

/// The mathematical content of an [`ExecutionPlan`].
pub struct PlanView {
    pub dir: Seq<char>,
    pub source_path: Seq<char>,
    pub source: Seq<char>,
    pub scaffold_cmds: Seq<Seq<char>>,
    pub run_args: Seq<Seq<char>>,
    pub test_args: Seq<Seq<char>>,
}

/// Everything the dispatcher decides about one submission's on-disk
/// materialization and toolchain invocation: the private workspace
/// directory, the source file to write inside it, the scaffold commands (if
/// the language needs an enclosing project), and the resolved run and test
/// invocations.
pub struct ExecutionPlan {
    dir: String,
    source_path: String,
    source: String,
    scaffold_cmds: Vec<String>,
    run_args: Vec<String>,
    test_args: Vec<String>,
}

impl View for ExecutionPlan {
    type V = PlanView;

    closed spec fn view(&self) -> PlanView {
        PlanView {
            dir: self.dir@,
            source_path: self.source_path@,
            source: self.source@,
            scaffold_cmds: self.scaffold_cmds.deep_view(),
            run_args: self.run_args.deep_view(),
            test_args: self.test_args.deep_view(),
        }
    }
}

/// The plan that the language entry `li` yields for source text `source`
/// under submission identifier `sid`: every `{dir}` placeholder is resolved
/// to the submission's own workspace directory.
pub open spec fn spec_plan(li: LangInfoView, source: Seq<char>, sid: u64) -> PlanView {
    let dir = workspace_dir_seq(sid);
    PlanView {
        dir: dir,
        source_path: dir + "/"@ + li.file_name,
        source: source,
        scaffold_cmds: resolve_all_seq(li.scaffold_cmds, dir),
        run_args: resolve_all_seq(li.cmds, dir),
        test_args: resolve_all_seq(li.test_cmds, dir),
    }
}

/// Two submissions under distinct identifiers are planned into disjoint
/// workspace directories, whatever their languages and sources: concurrent
/// dispatches never write over each other.
pub proof fn lemma_plans_are_isolated(
    li1: LangInfoView,
    s1: Seq<char>,
    sid1: u64,
    li2: LangInfoView,
    s2: Seq<char>,
    sid2: u64,
)
    requires
        sid1 != sid2,
    ensures
        spec_plan(li1, s1, sid1).dir != spec_plan(li2, s2, sid2).dir,
{
    lemma_workspace_isolation(sid1, sid2);
}


impl ExecutionPlan {
    /// Materializes the decisions of [`spec_plan`] for one submission.
    pub fn build(li: &LangInfo, source: String, sid: u64) -> (p: ExecutionPlan)
        ensures
            p@ == spec_plan(li@, source@, sid),
    {
        let dir = workspace_dir(sid);
        let mut source_path = dir.clone();
        source_path.append("/");
        source_path.append(li.file_name().as_str());
        let scaffold_cmds = resolve_all(li.scaffold_cmds(), dir.as_str());
        let run_args = resolve_all(li.cmds(), dir.as_str());
        let test_args = resolve_all(li.test_cmds(), dir.as_str());
        let p = ExecutionPlan { dir, source_path, source, scaffold_cmds, run_args, test_args };
        p
    }

    pub fn dir(&self) -> (r: &String)
        ensures
            r@ == self@.dir,
    {
        &self.dir
    }

    pub fn source_path(&self) -> (r: &String)
        ensures
            r@ == self@.source_path,
    {
        &self.source_path
    }

    pub fn source(&self) -> (r: &String)
        ensures
            r@ == self@.source,
    {
        &self.source
    }

    pub fn scaffold_cmds(&self) -> (r: &Vec<String>)
        ensures
            r.deep_view() == self@.scaffold_cmds,
    {
        &self.scaffold_cmds
    }

    pub fn run_args(&self) -> (r: &Vec<String>)
        ensures
            r.deep_view() == self@.run_args,
    {
        &self.run_args
    }

    pub fn test_args(&self) -> (r: &Vec<String>)
        ensures
            r.deep_view() == self@.test_args,
    {
        &self.test_args
    }

    /// Consumes the plan, keeping the argument list for the selected mode.
    pub fn into_args(self, run: bool) -> (r: Vec<String>)
        ensures
            r.deep_view() == (if run {
                self@.run_args
            } else {
                self@.test_args
            }),
    {
        if run {
            self.run_args
        } else {
            self.test_args
        }
    }
}

} // verus!
