use code_runner::dispatch::{step_finish, step_lookup, step_materialized, step_receive, step_select, DispatchState};
use code_runner::protocol::{ack_message, terminal_message, ProtocolMessage};
use code_runner::registry::Registry;
use code_runner::submission::{Code, DispatchError, ProcessOutcome, RunEvent};

fn submission(lang: &str, source: &str, is_ide: bool) -> Code {
    Code::new(lang.to_string(), source.to_string(), is_ide)
}

/// Drives one whole dispatch, reporting `io_ok` for the materialization and
/// `event` for the process run, and returns the terminal state.
fn drive(reg: &Registry, sid: u64, code: Code, io_ok: bool, event: RunEvent) -> DispatchState {
    let st = step_receive(Some(code));
    let st = match st {
        DispatchState::Validated { code } => step_lookup(reg, sid, code),
        other => other,
    };
    let st = match st {
        DispatchState::WorkspacePlanned { .. } => step_materialized(st, io_ok),
        other => other,
    };
    let (st, _args) = match st {
        DispatchState::WorkspaceReady { .. } => step_select(st),
        other => (other, None),
    };
    match st {
        DispatchState::Executing { .. } => step_finish(st, event),
        other => other,
    }
}

fn finished(stdout: &[u8], stderr: &[u8], exit_code: Option<i32>) -> RunEvent {
    RunEvent::Finished(ProcessOutcome::new(stdout.to_vec(), stderr.to_vec(), exit_code))
}

#[test]
fn every_supported_language_has_a_run_command() {
    let reg = Registry::new();
    let langs = vec![
        "python",
        "javascript",
        "typescript",
        "cpp",
        "c",
        "rust",
        "kotlin",
        "java",
        "go",
        "elixir",
    ];
    for lang in langs {
        let li = reg.lookup(&lang.to_string()).expect(lang);
        assert!(!li.cmds().is_empty(), "{lang} has no run command");
    }
}

#[test]
fn lookup_unknown_language_is_none() {
    let reg = Registry::new();
    assert!(reg.lookup(&"unknown".to_string()).is_none());
    assert!(reg.lookup(&"".to_string()).is_none());
    assert!(reg.lookup(&"Python".to_string()).is_none());
}

#[test]
fn unsupported_language_fails_without_a_plan() {
    let reg = Registry::new();
    let st = step_receive(Some(submission("unknown", "print(1)", true)));
    let st = match st {
        DispatchState::Validated { code } => step_lookup(&reg, 1, code),
        other => other,
    };
    match &st {
        DispatchState::Failed { error: DispatchError::UnsupportedLanguage(lang) } => {
            assert_eq!(lang, "unknown");
        }
        other => panic!("expected unsupported-language failure, got {:?}", state_name(other)),
    }
}

#[test]
fn unsupported_language_message_names_the_language() {
    let reg = Registry::new();
    let st = drive(&reg, 2, submission("unknown", "x", true), true, RunEvent::SpawnFailed);
    match terminal_message(st) {
        Some(ProtocolMessage::ErrorMsg(text)) => {
            assert_eq!(text, "Language not found! unknown");
            assert!(text.contains("unknown"));
        }
        _ => panic!("expected an error message"),
    }
}

#[test]
fn test_mode_without_harness_is_unsupported_mode() {
    let reg = Registry::new();
    let st = step_receive(Some(submission("javascript", "console.log(1)", false)));
    let st = match st {
        DispatchState::Validated { code } => step_lookup(&reg, 3, code),
        other => other,
    };
    assert!(matches!(st, DispatchState::WorkspacePlanned { .. }));
    let st = step_materialized(st, true);
    assert!(matches!(st, DispatchState::WorkspaceReady { .. }));
    let (st, args) = step_select(st);
    assert!(args.is_none());
    assert!(matches!(st, DispatchState::Failed { error: DispatchError::UnsupportedMode }));
}

#[test]
fn resubmitting_identical_submission_yields_identical_result() {
    let reg = Registry::new();
    let run = || {
        drive(
            &reg,
            4,
            submission("python", "print(\"fixed\")", true),
            true,
            finished(b"fixed\n", b"", Some(0)),
        )
    };
    let first = run();
    let second = run();
    match (first, second) {
        (
            DispatchState::Completed { result: a, .. },
            DispatchState::Completed { result: b, .. },
        ) => {
            assert_eq!(a.data(), b.data());
            assert_eq!(a.code(), b.code());
        }
        _ => panic!("expected two completed dispatches"),
    }
}

#[test]
fn python_run_returns_its_output() {
    let reg = Registry::new();
    let st = drive(
        &reg,
        7,
        submission("python", "print(\"hi\")", true),
        true,
        finished(b"hi\n", b"", Some(0)),
    );
    match terminal_message(st) {
        Some(ProtocolMessage::RunOutput(text)) => assert!(text.contains("hi")),
        _ => panic!("expected run output"),
    }
}

#[test]
fn python_plan_targets_its_own_workspace() {
    let reg = Registry::new();
    let st = step_receive(Some(submission("python", "print(\"hi\")", true)));
    let st = match st {
        DispatchState::Validated { code } => step_lookup(&reg, 7, code),
        other => other,
    };
    let plan = match st {
        DispatchState::WorkspacePlanned { plan, .. } => plan,
        _ => panic!("expected a planned workspace"),
    };
    assert_eq!(plan.dir(), "tmp/7");
    assert_eq!(plan.source_path(), "tmp/7/main.py");
    assert_eq!(plan.source(), "print(\"hi\")");
    assert!(plan.scaffold_cmds().is_empty());
    assert_eq!(plan.run_args().as_slice(), &["-c".to_string(), "python3 tmp/7/main.py".to_string()]);
}

#[test]
fn rust_test_mode_reports_exit_code_zero() {
    let reg = Registry::new();
    let code = "#[test] fn adds() { assert_eq!(1 + 1, 2); }";
    let st = step_receive(Some(submission("rust", code, false)));
    let st = match st {
        DispatchState::Validated { code } => step_lookup(&reg, 9, code),
        other => other,
    };
    let (plan_scaffold, plan_test_args) = match &st {
        DispatchState::WorkspacePlanned { plan, .. } => {
            (plan.scaffold_cmds().clone(), plan.test_args().clone())
        }
        _ => panic!("expected a planned workspace"),
    };
    assert_eq!(
        plan_scaffold.as_slice(),
        &["-c".to_string(), "cargo new tmp/9/rust --name rust".to_string()]
    );
    assert_eq!(
        plan_test_args.as_slice(),
        &["-c".to_string(), "cargo test --manifest-path tmp/9/rust/Cargo.toml".to_string()]
    );
    let st = step_materialized(st, true);
    let (st, args) = step_select(st);
    assert_eq!(args.expect("rust has a test harness").as_slice(), plan_test_args.as_slice());
    let st = step_finish(st, finished(b"test result: ok.\n", b"", Some(0)));
    match terminal_message(st) {
        Some(ProtocolMessage::TestResult(result)) => {
            assert_eq!(result.code(), 0);
            assert!(result.data().contains("ok"));
        }
        _ => panic!("expected a test result"),
    }
}

#[test]
fn run_that_never_ends_fails_with_timeout() {
    let reg = Registry::new();
    let st = drive(
        &reg,
        11,
        submission("python", "while True: pass", true),
        true,
        RunEvent::TimedOut,
    );
    assert!(matches!(&st, DispatchState::Failed { error: DispatchError::Timeout }));
    match terminal_message(st) {
        Some(ProtocolMessage::ErrorMsg(text)) => assert_eq!(text, "Execution timed out."),
        _ => panic!("expected an error message"),
    }
}

#[test]
fn concurrent_submissions_get_disjoint_workspaces() {
    let reg = Registry::new();
    let plan_for = |sid: u64| {
        let st = step_receive(Some(submission("python", "print(sid)", true)));
        let st = match st {
            DispatchState::Validated { code } => step_lookup(&reg, sid, code),
            other => other,
        };
        match st {
            DispatchState::WorkspacePlanned { plan, .. } => plan,
            _ => panic!("expected a planned workspace"),
        }
    };
    let a = plan_for(21);
    let b = plan_for(22);
    assert_ne!(a.dir(), b.dir());
    assert_ne!(a.source_path(), b.source_path());
    assert_ne!(a.run_args().as_slice(), b.run_args().as_slice());
}

#[test]
fn malformed_payload_fails_at_once() {
    let st = step_receive(None);
    assert!(matches!(
        st,
        DispatchState::Failed { error: DispatchError::MalformedSubmission }
    ));
    match terminal_message(st) {
        Some(ProtocolMessage::ErrorMsg(text)) => assert_eq!(text, "Failed to process message!"),
        _ => panic!("expected an error message"),
    }
}

#[test]
fn materialization_failure_is_io_error() {
    let reg = Registry::new();
    let st = drive(&reg, 31, submission("go", "package main", true), false, RunEvent::SpawnFailed);
    assert!(matches!(st, DispatchState::Failed { error: DispatchError::IoError }));
}

#[test]
fn spawn_failure_is_distinct_from_nonzero_exit() {
    let reg = Registry::new();
    let spawn_failed = drive(
        &reg,
        32,
        submission("c", "int main() {}", true),
        true,
        RunEvent::SpawnFailed,
    );
    assert!(matches!(
        spawn_failed,
        DispatchState::Failed { error: DispatchError::ProcessSpawnError }
    ));
    let nonzero = drive(
        &reg,
        33,
        submission("c", "int main() { return 3; }", true),
        true,
        finished(b"", b"", Some(3)),
    );
    match nonzero {
        DispatchState::Completed { result, .. } => assert_eq!(result.code(), 3),
        _ => panic!("a program that ran and exited non-zero still completes"),
    }
}

#[test]
fn killed_process_is_abnormal_termination() {
    let reg = Registry::new();
    let st = drive(
        &reg,
        34,
        submission("python", "import os; os.kill(os.getpid(), 9)", true),
        true,
        finished(b"", b"", None),
    );
    assert!(matches!(
        st,
        DispatchState::Failed { error: DispatchError::AbnormalTermination }
    ));
    match terminal_message(st) {
        Some(ProtocolMessage::ErrorMsg(text)) => {
            assert_eq!(text, "Unable to determine status code")
        }
        _ => panic!("expected an error message"),
    }
}

#[test]
fn test_mode_output_is_stdout_then_stderr() {
    let reg = Registry::new();
    let st = drive(
        &reg,
        41,
        submission("python", "x", false),
        true,
        finished(b"out", b"err", Some(1)),
    );
    match st {
        DispatchState::Completed { result, .. } => {
            assert_eq!(result.data(), "outerr");
            assert_eq!(result.code(), 1);
        }
        _ => panic!("expected a completed dispatch"),
    }
}

#[test]
fn run_mode_output_is_stdout_only() {
    let reg = Registry::new();
    let st = drive(
        &reg,
        42,
        submission("python", "x", true),
        true,
        finished(b"out", b"err", Some(0)),
    );
    match st {
        DispatchState::Completed { result, .. } => assert_eq!(result.data(), "out"),
        _ => panic!("expected a completed dispatch"),
    }
}

#[test]
fn invalid_output_bytes_become_replacement_characters() {
    let reg = Registry::new();
    let st = drive(
        &reg,
        43,
        submission("python", "x", true),
        true,
        finished(&[0xff, b'h', b'i'], b"", Some(0)),
    );
    match st {
        DispatchState::Completed { result, .. } => {
            assert_eq!(result.data(), "\u{fffd}hi");
        }
        _ => panic!("expected a completed dispatch"),
    }
}

#[test]
fn acknowledgement_is_sent_text() {
    match ack_message() {
        ProtocolMessage::Ack(text) => assert_eq!(text, "Running code..."),
        _ => panic!("expected the acknowledgement"),
    }
}

#[test]
fn non_terminal_states_have_no_terminal_message() {
    assert!(terminal_message(DispatchState::Received).is_none());
    let st = step_receive(Some(submission("python", "x", true)));
    assert!(terminal_message(st).is_none());
}

fn state_name(st: &DispatchState) -> &'static str {
    match st {
        DispatchState::Received => "Received",
        DispatchState::Validated { .. } => "Validated",
        DispatchState::WorkspacePlanned { .. } => "WorkspacePlanned",
        DispatchState::WorkspaceReady { .. } => "WorkspaceReady",
        DispatchState::Executing { .. } => "Executing",
        DispatchState::Completed { .. } => "Completed",
        DispatchState::Failed { .. } => "Failed",
    }
}
