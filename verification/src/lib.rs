//! Execution dispatch engine for a multi-language code runner.
//!
//! A client submits source text, a language identifier and a run mode; the
//! engine selects the language's toolchain commands, lays out an isolated
//! on-disk workspace for the submission, and packages the toolchain's
//! captured output into a structured response. Every decision — validation,
//! language lookup, workspace layout, command selection, result packaging —
//! is a verified, total function; the caller performs the filesystem and
//! process work between transitions and reports what happened.

pub mod decode;
pub mod dispatch;
pub mod laws;
pub mod protocol;
pub mod registry;
pub mod submission;
pub mod text;
pub mod workspace;

pub use dispatch::DispatchState;
pub use protocol::ProtocolMessage;
pub use registry::{LangInfo, Registry};
pub use submission::{Code, DispatchError, ProcessOutcome, Return, RunEvent};
pub use workspace::ExecutionPlan;
