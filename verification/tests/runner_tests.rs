use veloxide::errors::ScaffoldError;
use veloxide::runner::{
    execution_message, resolve_capture_outcome, resolve_wait_outcome, CaptureOutcome, WaitOutcome,
};

#[test]
fn run_and_wait_success_is_ok() {
    let outcome = WaitOutcome::Exited { success: true, status: String::from("exit status: 0") };
    assert!(resolve_wait_outcome("git", outcome).is_ok());
}

#[test]
fn run_and_wait_nonzero_exit_carries_command_and_status() {
    let outcome = WaitOutcome::Exited { success: false, status: String::from("exit status: 1") };
    match resolve_wait_outcome("git", outcome) {
        Err(ScaffoldError::ExecutionFailure(cmd, detail)) => {
            assert_eq!(cmd, "git");
            assert_eq!(detail, "Command failed with status exit status: 1");
        }
        _ => panic!("expected ExecutionFailure"),
    }
}

#[test]
fn run_and_wait_spawn_error_carries_error_text() {
    let outcome = WaitOutcome::SpawnFailed(String::from("No such file or directory"));
    match resolve_wait_outcome("no-such-tool", outcome) {
        Err(ScaffoldError::ExecutionFailure(cmd, detail)) => {
            assert_eq!(cmd, "no-such-tool");
            assert_eq!(detail, "No such file or directory");
        }
        _ => panic!("expected ExecutionFailure"),
    }
}

#[test]
fn run_and_capture_success_returns_stdout_text() {
    let outcome =
        CaptureOutcome::Exited { success: true, text: Some(String::from("git version 2.40")) };
    assert_eq!(resolve_capture_outcome("git", outcome).unwrap(), "git version 2.40");
}

#[test]
fn run_and_capture_failure_carries_stderr_text() {
    let outcome =
        CaptureOutcome::Exited { success: false, text: Some(String::from("fatal: bad usage")) };
    match resolve_capture_outcome("git", outcome) {
        Err(ScaffoldError::ExecutionFailure(cmd, detail)) => {
            assert_eq!(cmd, "git");
            assert_eq!(detail, "fatal: bad usage");
        }
        _ => panic!("expected ExecutionFailure"),
    }
}

#[test]
fn run_and_capture_undecodable_output_is_a_decode_failure() {
    let outcome = CaptureOutcome::Exited { success: true, text: None };
    match resolve_capture_outcome("git", outcome) {
        Err(ScaffoldError::OutputDecodeFailure(cmd)) => assert_eq!(cmd, "git"),
        _ => panic!("expected OutputDecodeFailure"),
    }
}

#[test]
fn run_and_capture_spawn_error_is_an_execution_failure() {
    let outcome = CaptureOutcome::SpawnFailed(String::from("permission denied"));
    match resolve_capture_outcome("tool", outcome) {
        Err(ScaffoldError::ExecutionFailure(cmd, detail)) => {
            assert_eq!(cmd, "tool");
            assert_eq!(detail, "permission denied");
        }
        _ => panic!("expected ExecutionFailure"),
    }
}

#[test]
fn execution_message_joins_arguments_with_spaces() {
    let args = vec![String::from("clone"), String::from("--depth"), String::from("1")];
    assert_eq!(execution_message("git", &args), "> executing: git clone --depth 1");
}

#[test]
fn execution_message_with_no_arguments() {
    let args: Vec<String> = Vec::new();
    assert_eq!(execution_message("git", &args), "> executing: git ");
}

#[test]
fn error_descriptions() {
    assert_eq!(
        ScaffoldError::DirAlreadyExists(String::from("demo")).describe(),
        "directory already exists: demo"
    );
    assert_eq!(
        ScaffoldError::PathNotSafeToDelete(String::from("x")).describe(),
        "path does not seem safe to delete: x"
    );
    assert_eq!(
        ScaffoldError::ExecutionFailure(String::from("git"), String::from("boom")).describe(),
        "command failed: git - boom"
    );
    assert_eq!(
        ScaffoldError::OutputDecodeFailure(String::from("git")).describe(),
        "could not decode the output of: git"
    );
    assert_eq!(
        ScaffoldError::FilesystemFailure(String::from("denied")).describe(),
        "filesystem operation failed: denied"
    );
    assert_eq!(
        ScaffoldError::ToolNotPresent.describe(),
        "git does not seem to be installed (git --version failed)"
    );
    assert_eq!(ScaffoldError::InteractionAborted.describe(), "prompt aborted");
}
