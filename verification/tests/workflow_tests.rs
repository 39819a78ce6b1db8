use veloxide::errors::ScaffoldError;
use veloxide::guard::path_safe_to_delete;
use veloxide::runner::CaptureOutcome;
use veloxide::workflow::{
    check_git_is_installed, next_steps, should_remove_variant, step_line, variant_dir, Action,
    Event, Frontend, GitOp, Phase, ScaffoldWorkflow,
};

fn probe_ok() -> Event {
    Event::ProbeChecked(Ok(()))
}

fn done_ok() -> Event {
    Event::StepDone(Ok(()))
}

/// Drive a fresh workflow through preflight, name entry, and the existence
/// guard (target absent), up to the frontend confirmation.
fn reach_confirm_frontend(raw_name: &str) -> ScaffoldWorkflow {
    let w = ScaffoldWorkflow::new();
    let (w, a) = w.step(probe_ok());
    assert!(matches!(a, Action::AskName));
    let (w, a) = w.step(Event::NameEntered(String::from(raw_name)));
    assert!(matches!(a, Action::CheckTarget { .. }));
    let (w, a) = w.step(Event::TargetExists(false));
    assert!(matches!(a, Action::AskFrontendConfirm));
    w
}

#[test]
fn the_first_action_is_the_probe() {
    let w = ScaffoldWorkflow::new();
    assert!(matches!(w.initial_action(), Action::Probe));
}

#[test]
fn preflight_failure_is_terminal() {
    let w = ScaffoldWorkflow::new();
    let (w, a) = w.step(Event::ProbeChecked(Err(ScaffoldError::ToolNotPresent)));
    assert!(matches!(a, Action::Halt));
    assert_eq!(w.phase, Phase::Failed(ScaffoldError::ToolNotPresent));
}

#[test]
fn name_is_sanitized_before_the_target_check() {
    let w = ScaffoldWorkflow::new();
    let (w, _) = w.step(probe_ok());
    let (w, a) = w.step(Event::NameEntered(String::from("My Cool App!!")));
    assert_eq!(w.raw_name, "My Cool App!!");
    assert_eq!(w.sanitized_name, "my-cool-app");
    match a {
        Action::CheckTarget { path } => assert_eq!(path, "my-cool-app"),
        _ => panic!("expected CheckTarget"),
    }
}

#[test]
fn existing_target_aborts_before_any_clone() {
    let w = ScaffoldWorkflow::new();
    let (w, _) = w.step(probe_ok());
    let (w, _) = w.step(Event::NameEntered(String::from("demo")));
    let (w, a) = w.step(Event::TargetExists(true));
    assert!(matches!(a, Action::Halt));
    assert_eq!(w.phase, Phase::Failed(ScaffoldError::DirAlreadyExists(String::from("demo"))));
    // The failed machine only halts: no clone, git, or filesystem action is
    // ever requested afterwards.
    let (w, a) = w.step(done_ok());
    assert!(matches!(a, Action::Halt));
    let (_, a) = w.step(Event::SummaryShown);
    assert!(matches!(a, Action::Halt));
}

#[test]
fn wrong_framework_choice_never_escapes_the_loop() {
    let w = reach_confirm_frontend("demo");
    let (mut w, a) = w.step(Event::FrontendAnswer(true));
    assert!(matches!(a, Action::AskFramework { rejected: false }));
    for _ in 0..100 {
        let (w2, a) = w.step(Event::FrameworkPicked(1));
        assert!(matches!(a, Action::AskFramework { rejected: true }));
        assert_eq!(w2.phase, Phase::ChooseFramework);
        assert_eq!(w2.frontend_choice, Frontend::NoFrontend);
        assert_eq!(w2.sanitized_name, "demo");
        w = w2;
    }
    let (w, a) = w.step(Event::FrameworkPicked(0));
    assert_eq!(w.frontend_choice, Frontend::SvelteKit);
    assert_eq!(w.phase, Phase::AcquireTemplate);
    match a {
        Action::CloneTemplate { dir } => assert_eq!(dir, "demo"),
        _ => panic!("expected CloneTemplate"),
    }
}

#[test]
fn declining_a_frontend_goes_straight_to_the_clone() {
    let w = reach_confirm_frontend("demo");
    let (w, a) = w.step(Event::FrontendAnswer(false));
    assert_eq!(w.frontend_choice, Frontend::NoFrontend);
    assert_eq!(w.phase, Phase::AcquireTemplate);
    match a {
        Action::CloneTemplate { dir } => assert_eq!(dir, "demo"),
        _ => panic!("expected CloneTemplate"),
    }
}

#[test]
fn full_run_requests_every_step_in_order() {
    let w = reach_confirm_frontend("Demo App!");
    assert_eq!(w.sanitized_name, "demo-app");
    let (w, a) = w.step(Event::FrontendAnswer(false));
    assert!(matches!(a, Action::CloneTemplate { .. }));
    let (w, a) = w.step(done_ok());
    match &a {
        Action::DeleteDir { path } => {
            assert_eq!(path, "demo-app/.git");
            // The only recursive deletion of the whole run passes the policy.
            assert!(path_safe_to_delete(path));
        }
        _ => panic!("expected DeleteDir"),
    }
    let (w, a) = w.step(done_ok());
    assert!(matches!(&a, Action::RunGit { op: GitOp::Init, .. }));
    let (w, a) = w.step(done_ok());
    assert!(matches!(&a, Action::RunGit { op: GitOp::StageAll, .. }));
    let (w, a) = w.step(done_ok());
    assert!(matches!(&a, Action::RunGit { op: GitOp::CommitInitial, .. }));
    let (w, a) = w.step(done_ok());
    match &a {
        Action::CopyEnvFiles { root } => assert_eq!(root, "demo-app"),
        _ => panic!("expected CopyEnvFiles"),
    }
    let (w, a) = w.step(done_ok());
    match &a {
        Action::PruneVariants { root, choice } => {
            assert_eq!(root, "demo-app/frontends");
            assert_eq!(*choice, Frontend::NoFrontend);
        }
        _ => panic!("expected PruneVariants"),
    }
    let (w, a) = w.step(done_ok());
    match &a {
        Action::ShowSummary { name } => assert_eq!(name, "demo-app"),
        _ => panic!("expected ShowSummary"),
    }
    let (w, a) = w.step(Event::SummaryShown);
    assert!(matches!(a, Action::Halt));
    assert_eq!(w.phase, Phase::Complete);
}

#[test]
fn a_failed_command_aborts_with_its_error() {
    let w = reach_confirm_frontend("demo");
    let (w, _) = w.step(Event::FrontendAnswer(false));
    let err = ScaffoldError::ExecutionFailure(String::from("git"), String::from("boom"));
    let (w, a) = w.step(Event::StepDone(Err(err.clone())));
    assert!(matches!(a, Action::Halt));
    assert_eq!(w.phase, Phase::Failed(err));
}

#[test]
fn an_aborted_prompt_fails_the_run() {
    let w = ScaffoldWorkflow::new();
    let (w, _) = w.step(probe_ok());
    let (w, a) = w.step(Event::PromptAborted);
    assert!(matches!(a, Action::Halt));
    assert_eq!(w.phase, Phase::Failed(ScaffoldError::InteractionAborted));
}

#[test]
fn probe_outcome_maps_to_tool_presence() {
    let ok = CaptureOutcome::Exited { success: true, text: Some(String::from("git version 2")) };
    assert!(check_git_is_installed(ok).is_ok());
    let bad = CaptureOutcome::SpawnFailed(String::from("not found"));
    assert_eq!(check_git_is_installed(bad), Err(ScaffoldError::ToolNotPresent));
    let nonzero =
        CaptureOutcome::Exited { success: false, text: Some(String::from("usage: git")) };
    assert_eq!(check_git_is_installed(nonzero), Err(ScaffoldError::ToolNotPresent));
}

#[test]
fn variant_pruning_keeps_only_the_selected_directory() {
    assert!(should_remove_variant("react", Frontend::SvelteKit));
    assert!(!should_remove_variant("sveltekit", Frontend::SvelteKit));
    assert!(should_remove_variant("sveltekit", Frontend::NoFrontend));
    assert!(should_remove_variant("react", Frontend::NoFrontend));
    assert_eq!(variant_dir(Frontend::SvelteKit), "sveltekit");
    assert_eq!(variant_dir(Frontend::NoFrontend), "");
}

#[test]
fn step_lines_and_next_steps() {
    assert_eq!(step_line(1, 5, "> cd demo"), "[1/5] > cd demo");
    assert_eq!(step_line(12, 20, "x"), "[12/20] x");
    let lines = next_steps("demo-app");
    assert_eq!(lines.len(), 5);
    assert_eq!(lines[0], "> cd demo-app");
    assert_eq!(lines[1], "> just run-backend");
    assert_eq!(
        lines[2],
        "First compile takes a little while, but future compiles will be faster."
    );
    assert_eq!(lines[3], "Open demo-app in your IDE.");
    assert_eq!(lines[4], "Happy coding!");
}
