//! Outbound protocol messages. Each submission yields one acknowledgement,
//! sent before execution begins, and exactly one terminal message once the
//! dispatch reaches a terminal state.

use vstd::prelude::*;

verus! {

use vstd::string::StringExecFns;
use crate::dispatch::{DispatchState, DispatchStateView};
use crate::submission::{DispatchError, ErrorView, Return, ReturnView};

/// The mathematical content of a [`ProtocolMessage`].
pub enum MessageView {
    Ack(Seq<char>),
    RunOutput(Seq<char>),
    TestResult(ReturnView),
    ErrorMsg(Seq<char>),
}

/// One outbound message: the acknowledgement, the interactive run's output
/// text, the test run's structured result, or the failure report.
pub enum ProtocolMessage {
    Ack(String),
    RunOutput(String),
    TestResult(Return),
    ErrorMsg(String),
}

impl View for ProtocolMessage {
    type V = MessageView;

    open spec fn view(&self) -> MessageView {
        match self {
            ProtocolMessage::Ack(s) => MessageView::Ack(s@),
            ProtocolMessage::RunOutput(s) => MessageView::RunOutput(s@),
            ProtocolMessage::TestResult(r) => MessageView::TestResult(r@),
            ProtocolMessage::ErrorMsg(s) => MessageView::ErrorMsg(s@),
        }
    }
}

/// The acknowledgement text sent as soon as a submission is accepted.
pub open spec fn ack_text() -> Seq<char> {
    "Running code..."@
}

/// The acknowledgement message, emitted before execution begins.
pub fn ack_message() -> (m: ProtocolMessage)
    ensures
        m@ == MessageView::Ack(ack_text()),
{
    ProtocolMessage::Ack("Running code...".to_owned())
}

/// The report text for each failure, naming the offending language where
/// one was named.
pub open spec fn error_text(e: ErrorView) -> Seq<char> {
    match e {
        ErrorView::MalformedSubmission => "Failed to process message!"@,
        ErrorView::UnsupportedLanguage(lang) => "Language not found! "@ + lang,
        ErrorView::UnsupportedMode => "No test command for this language!"@,
        ErrorView::IoError => "Failed to write to file."@,
        ErrorView::ProcessSpawnError => "Could not run the command(s)"@,
        ErrorView::Timeout => "Execution timed out."@,
        ErrorView::AbnormalTermination => "Unable to determine status code"@,
    }
}

/// Writes the failure report for `e`.
pub fn error_message(e: DispatchError) -> (s: String)
    ensures
        s@ == error_text(e@),
{
    match e {
        DispatchError::MalformedSubmission => "Failed to process message!".to_owned(),
        DispatchError::UnsupportedLanguage(lang) => {
            let mut s = "Language not found! ".to_owned();
            s.append(lang.as_str());
            s
        },
        DispatchError::UnsupportedMode => "No test command for this language!".to_owned(),
        DispatchError::IoError => "Failed to write to file.".to_owned(),
        DispatchError::ProcessSpawnError => "Could not run the command(s)".to_owned(),
        DispatchError::Timeout => "Execution timed out.".to_owned(),
        DispatchError::AbnormalTermination => "Unable to determine status code".to_owned(),
    }
}

/// The single terminal message a dispatch owes its client, defined exactly
/// on the two terminal states: an interactive run returns its output text,
/// a test run its structured result, a failure its report.
pub open spec fn spec_terminal(st: DispatchStateView) -> Option<MessageView> {
    match st {
        DispatchStateView::Completed { is_ide, result } => Some(
            if is_ide {
                MessageView::RunOutput(result.data)
            } else {
                MessageView::TestResult(result)
            },
        ),
        DispatchStateView::Failed { error } => Some(MessageView::ErrorMsg(error_text(error))),
        _ => None,
    }
}

/// Packages the terminal message for a finished dispatch; `None` exactly
/// when the dispatch has not reached a terminal state yet.
pub fn terminal_message(st: DispatchState) -> (m: Option<ProtocolMessage>)
    ensures
        match m {
            Some(msg) => spec_terminal(st@) == Some(msg@),
            None => spec_terminal(st@) is None,
        },
{
    match st {
        DispatchState::Completed { is_ide, result } => {
            if is_ide {
                let (data, _code) = result.into_parts();
                Some(ProtocolMessage::RunOutput(data))
            } else {
                Some(ProtocolMessage::TestResult(result))
            }
        },
        DispatchState::Failed { error } => Some(ProtocolMessage::ErrorMsg(error_message(error))),
        _ => None,
    }
}

} // verus!
