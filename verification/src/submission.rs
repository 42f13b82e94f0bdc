//! The data that crosses one dispatch: the inbound submission, the raw
//! outcome of the spawned toolchain process, the packaged result, and the
//! error taxonomy of a failed dispatch.

use vstd::prelude::*;

verus! {

/// The mathematical content of a [`Code`] submission.
pub struct CodeView {
    pub lang: Seq<char>,
    pub code: Seq<char>,
    pub is_ide: bool,
}

/// One inbound submission: a language identifier, the source text, and the
/// run mode (`is_ide` selects interactive run; otherwise the test harness).
pub struct Code {
    lang: String,
    code: String,
    is_ide: bool,
}

impl View for Code {
    type V = CodeView;

    closed spec fn view(&self) -> CodeView {
        CodeView { lang: self.lang@, code: self.code@, is_ide: self.is_ide }
    }
}

impl Code {
    pub fn new(lang: String, code: String, is_ide: bool) -> (r: Self)
        ensures
            r@.lang == lang@,
            r@.code == code@,
            r@.is_ide == is_ide,
    {
        Self { lang, code, is_ide }
    }

    pub fn lang(&self) -> (r: &String)
        ensures
            r@ == self@.lang,
    {
        &self.lang
    }

    pub fn code(&self) -> (r: &String)
        ensures
            r@ == self@.code,
    {
        &self.code
    }

    pub fn is_ide(&self) -> (r: bool)
        ensures
            r == self@.is_ide,
    {
        self.is_ide
    }

    /// Splits the submission into its fields.
    pub fn into_parts(self) -> (r: (String, String, bool))
        ensures
            r.0@ == self@.lang,
            r.1@ == self@.code,
            r.2 == self@.is_ide,
    {
        (self.lang, self.code, self.is_ide)
    }
}

/// The mathematical content of a [`Return`].
pub struct ReturnView {
    pub data: Seq<char>,
    pub code: int,
}

/// The packaged result of a completed dispatch: the decoded output text and
/// the process exit code.
pub struct Return {
    data: String,
    code: i32,
}

impl View for Return {
    type V = ReturnView;

    closed spec fn view(&self) -> ReturnView {
        ReturnView { data: self.data@, code: self.code as int }
    }
}

impl Return {
    pub fn new(data: String, code: i32) -> (r: Self)
        ensures
            r@.data == data@,
            r@.code == code as int,
    {
        Self { data, code }
    }

    pub fn data(&self) -> (r: &String)
        ensures
            r@ == self@.data,
    {
        &self.data
    }

    pub fn code(&self) -> (r: i32)
        ensures
            r as int == self@.code,
    {
        self.code
    }

    /// Splits the result into its fields.
    pub fn into_parts(self) -> (r: (String, i32))
        ensures
            r.0@ == self@.data,
            r.1 as int == self@.code,
    {
        (self.data, self.code)
    }
}

/// The mathematical content of a [`ProcessOutcome`].
pub struct OutcomeView {
    pub stdout: Seq<u8>,
    pub stderr: Seq<u8>,
    pub exit_code: Option<i32>,
}

/// What the process runner captured from one terminated toolchain process:
/// both output streams as raw bytes, and the exit code, absent when the
/// process was killed by a signal rather than exiting.
pub struct ProcessOutcome {
    stdout: Vec<u8>,
    stderr: Vec<u8>,
    exit_code: Option<i32>,
}

impl View for ProcessOutcome {
    type V = OutcomeView;

    closed spec fn view(&self) -> OutcomeView {
        OutcomeView { stdout: self.stdout@, stderr: self.stderr@, exit_code: self.exit_code }
    }
}

impl ProcessOutcome {
    pub fn new(stdout: Vec<u8>, stderr: Vec<u8>, exit_code: Option<i32>) -> (r: Self)
        ensures
            r@.stdout == stdout@,
            r@.stderr == stderr@,
            r@.exit_code == exit_code,
    {
        Self { stdout, stderr, exit_code }
    }

    pub fn stdout(&self) -> (r: &Vec<u8>)
        ensures
            r@ == self@.stdout,
    {
        &self.stdout
    }

    pub fn stderr(&self) -> (r: &Vec<u8>)
        ensures
            r@ == self@.stderr,
    {
        &self.stderr
    }

    pub fn exit_code(&self) -> (r: Option<i32>)
        ensures
            r == self@.exit_code,
    {
        self.exit_code
    }
}

/// The mathematical content of a [`RunEvent`].
pub enum RunEventView {
    Finished(OutcomeView),
    SpawnFailed,
    TimedOut,
}

/// What the process runner reports back for one invocation: the process ran
/// to termination, it could not be started at all, or it was killed because
/// the execution timeout elapsed.
pub enum RunEvent {
    Finished(ProcessOutcome),
    SpawnFailed,
    TimedOut,
}

impl View for RunEvent {
    type V = RunEventView;

    open spec fn view(&self) -> RunEventView {
        match self {
            RunEvent::Finished(o) => RunEventView::Finished(o@),
            RunEvent::SpawnFailed => RunEventView::SpawnFailed,
            RunEvent::TimedOut => RunEventView::TimedOut,
        }
    }
}

/// The mathematical content of a [`DispatchError`].
pub enum ErrorView {
    MalformedSubmission,
    UnsupportedLanguage(Seq<char>),
    UnsupportedMode,
    IoError,
    ProcessSpawnError,
    Timeout,
    AbnormalTermination,
}

/// Why a dispatch failed, each terminal for its submission and never
/// retried. `UnsupportedLanguage` carries the identifier that resolved to no
/// registry entry. A program that ran and exited non-zero is not a failure:
/// it completes with its exit code.
pub enum DispatchError {
    MalformedSubmission,
    UnsupportedLanguage(String),
    UnsupportedMode,
    IoError,
    ProcessSpawnError,
    Timeout,
    AbnormalTermination,
}

impl View for DispatchError {
    type V = ErrorView;

    open spec fn view(&self) -> ErrorView {
        match self {
            DispatchError::MalformedSubmission => ErrorView::MalformedSubmission,
            DispatchError::UnsupportedLanguage(l) => ErrorView::UnsupportedLanguage(l@),
            DispatchError::UnsupportedMode => ErrorView::UnsupportedMode,
            DispatchError::IoError => ErrorView::IoError,
            DispatchError::ProcessSpawnError => ErrorView::ProcessSpawnError,
            DispatchError::Timeout => ErrorView::Timeout,
            DispatchError::AbnormalTermination => ErrorView::AbnormalTermination,
        }
    }
}

} // verus!
