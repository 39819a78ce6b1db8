//! The scaffolding workflow as an explicit state machine.
//!
//! Each state awaits one observation from the outside world (a prompt
//! answer, the outcome of an external command, a filesystem fact) and maps
//! it to the next state and the next action to perform. The caller owns the
//! outside world: it performs each requested [`Action`] and feeds the
//! resulting [`Event`] back into [`ScaffoldWorkflow::step`]. Every failure
//! is terminal: the machine moves to a `Failed` phase and only halts from
//! there.

use crate::errors::ScaffoldError;
use crate::runner::CaptureOutcome;
use crate::sanitize::spec_sanitize;
use crate::textops::{spec_decimal, u64_to_decimal};
use vstd::prelude::*;

verus! {

/// The frontend variant retained in the scaffolded project. `React` is
/// listed to the user but is never an accepted terminal choice: picking it
/// only re-opens the selection.
#[derive(Debug, Clone, Copy, PartialEq, Eq, Structural)]
pub enum Frontend {
    NoFrontend,
    SvelteKit,
    React,
}

/// The version-control operations run inside the target directory while
/// re-rooting the template's history.
#[derive(Debug, Clone, Copy, PartialEq, Eq, Structural)]
pub enum GitOp {
    Init,
    StageAll,
    CommitInitial,
}

/// The states of the workflow, in forced order; no state is revisited, and
/// `Complete` and `Failed` are terminal.
#[derive(Debug, Clone, PartialEq, Eq)]
pub enum Phase {
    /// Verifying that the version-control tool is invocable.
    Preflight,
    /// Obtaining the raw application name.
    ResolveName,
    /// Refusing to proceed into an existing target directory.
    GuardTarget,
    /// Asking whether a frontend is wanted at all.
    ConfirmFrontend,
    /// Looping over the framework selection until the sanctioned option.
    ChooseFramework,
    /// Cloning the template repository.
    AcquireTemplate,
    /// Deleting the template's embedded version-control directory.
    DropTemplateHistory,
    /// Re-initializing a fresh repository.
    InitRepository,
    /// Staging every file.
    StageFiles,
    /// Creating the single initial commit.
    CommitInitial,
    /// Copying every example file to its suffix-stripped twin.
    MaterializeEnv,
    /// Removing the frontend variants that were not selected.
    PruneVariants,
    /// Showing the closing summary.
    Summarize,
    /// Terminal success.
    Complete,
    /// Terminal failure, carrying the error to surface.
    Failed(ScaffoldError),
}

/// What the caller observed after performing the previous action.
#[derive(Debug, PartialEq, Eq)]
pub enum Event {
    /// Outcome of [`check_git_is_installed`] on the diagnostic invocation.
    ProbeChecked(Result<(), ScaffoldError>),
    /// The raw application name, from the argument or the prompt.
    NameEntered(String),
    /// The user cancelled an interactive prompt.
    PromptAborted,
    /// Whether the target directory already exists.
    TargetExists(bool),
    /// The answer to "do you want a frontend?".
    FrontendAnswer(bool),
    /// The index picked in the framework selection list.
    FrameworkPicked(usize),
    /// An external command, deletion, copy, or prune step finished.
    StepDone(Result<(), ScaffoldError>),
    /// The closing summary has been displayed.
    SummaryShown,
}

/// What the caller must do next.
#[derive(Debug, Clone, PartialEq, Eq)]
pub enum Action {
    /// Run the diagnostic `git --version` invocation, capturing output.
    Probe,
    /// Obtain the raw name: from the command line if given, else a prompt
    /// with the default application name.
    AskName,
    /// Report whether `path` exists on the filesystem.
    CheckTarget { path: String },
    /// Present the binary "do you want a frontend?" confirmation.
    AskFrontendConfirm,
    /// Present the framework selection; when `rejected`, show the
    /// wrong-choice notice first.
    AskFramework { rejected: bool },
    /// Shallow-clone the template repository into `dir`.
    CloneTemplate { dir: String },
    /// Recursively delete `path`, after the deletion policy accepts it.
    DeleteDir { path: String },
    /// Run the given git operation inside `dir`.
    RunGit { dir: String, op: GitOp },
    /// Walk `root` and copy every example file to its stripped twin.
    CopyEnvFiles { root: String },
    /// Delete every immediate child directory of `root` whose name is not
    /// the selected variant's directory name.
    PruneVariants { root: String, choice: Frontend },
    /// Finalize the progress display and print the next-step list for `name`.
    ShowSummary { name: String },
    /// Nothing further: the run is complete or has failed.
    Halt,
}

/// The workflow state: the current phase and the scaffolding request data
/// accumulated so far.
pub struct ScaffoldWorkflow {
    pub phase: Phase,
    /// The user-supplied name, empty until resolved.
    pub raw_name: String,
    /// The filesystem-safe derivative of `raw_name`; also the target path,
    /// relative to the invocation directory.
    pub sanitized_name: String,
    pub frontend_choice: Frontend,
}

/// The request fields are the same in both states.
pub open spec fn same_request(a: ScaffoldWorkflow, b: ScaffoldWorkflow) -> bool {
    a.raw_name == b.raw_name && a.sanitized_name == b.sanitized_name && a.frontend_choice
        == b.frontend_choice
}

/// The step failed: the machine is in the terminal `Failed` phase carrying
/// `err`, the request is unchanged, and the caller is told to halt.
pub open spec fn failed_with(
    s: ScaffoldWorkflow,
    w: ScaffoldWorkflow,
    a: Action,
    err: ScaffoldError,
) -> bool {
    w.phase == Phase::Failed(err) && same_request(s, w) && a is Halt
}

impl ScaffoldWorkflow {
    /// Data invariant: the sanitized name is always the sanitized form of
    /// the raw name, and `React` is never the accepted frontend choice.
    pub open spec fn inv(self) -> bool {
        self.sanitized_name@ == spec_sanitize(self.raw_name@) && !(self.frontend_choice is React)
    }

    /// Which events a phase can consume: each state awaits the observation
    /// produced by the action it emitted.
    pub open spec fn accepts(self, e: Event) -> bool {
        match self.phase {
            Phase::Preflight => e is ProbeChecked,
            Phase::ResolveName => e is NameEntered || e is PromptAborted,
            Phase::GuardTarget => e is TargetExists,
            Phase::ConfirmFrontend => e is FrontendAnswer || e is PromptAborted,
            Phase::ChooseFramework => e is FrameworkPicked || e is PromptAborted,
            Phase::AcquireTemplate => e is StepDone,
            Phase::DropTemplateHistory => e is StepDone,
            Phase::InitRepository => e is StepDone,
            Phase::StageFiles => e is StepDone,
            Phase::CommitInitial => e is StepDone,
            Phase::MaterializeEnv => e is StepDone,
            Phase::PruneVariants => e is StepDone,
            Phase::Summarize => e is SummaryShown,
            Phase::Complete => true,
            Phase::Failed(_) => true,
        }
    }

    /// A fresh workflow, before any step has run.
    pub fn new() -> (w: ScaffoldWorkflow)
        ensures
            w.phase is Preflight,
            w.raw_name@ == Seq::<char>::empty(),
            w.sanitized_name@ == Seq::<char>::empty(),
            w.frontend_choice is NoFrontend,
            w.inv(),
    {
        let w = ScaffoldWorkflow {
            phase: Phase::Preflight,
            raw_name: String::new(),
            sanitized_name: String::new(),
            frontend_choice: Frontend::NoFrontend,
        };
        proof {
            assert(crate::sanitize::sanitize_map(Seq::<char>::empty()) =~= Seq::<char>::empty());
        }
        w
    }

    /// The first action of every run: probe that the version-control tool
    /// is invocable. The outcome is fed back as the first event.
    pub fn initial_action(&self) -> (a: Action)
        requires
            self.phase is Preflight,
        ensures
            a is Probe,
    {
        Action::Probe
    }

    /// One transition of the state machine: consume the observation for the
    /// current phase, move to the next phase, and name the next action.
    ///
    /// The contract is the workflow design itself, one clause per state.
    /// In particular: an existing target directory fails the run before any
    /// clone or version-control action is ever requested, and only choosing
    /// the sanctioned framework option leaves the selection loop — any other
    /// pick re-presents the selection with the state entirely unchanged.
    /// The terminal phases only halt, so a failed run requests no further
    /// work of any kind.
    pub fn step(self, e: Event) -> (r: (ScaffoldWorkflow, Action))
        requires
            self.accepts(e),
        ensures
            self.inv() ==> r.0.inv(),
            self.phase is Preflight ==> (e matches Event::ProbeChecked(p) ==> ((p is Ok ==> (
            r.0.phase is ResolveName && same_request(self, r.0) && r.1 is AskName)) && (
            p matches Err(err) ==> failed_with(self, r.0, r.1, err)))),
            self.phase is ResolveName ==> (e matches Event::NameEntered(name) ==> (
            r.0.phase is GuardTarget && r.0.raw_name@ == name@ && r.0.sanitized_name@
                == spec_sanitize(name@) && r.0.frontend_choice == self.frontend_choice && (
            r.1 matches Action::CheckTarget { path } && path@ == spec_sanitize(name@)))),
            self.phase is ResolveName ==> (e is PromptAborted ==> failed_with(
                self,
                r.0,
                r.1,
                ScaffoldError::InteractionAborted,
            )),
            self.phase is GuardTarget ==> (e matches Event::TargetExists(ex) ==> ((ex
                ==> failed_with(
                self,
                r.0,
                r.1,
                ScaffoldError::DirAlreadyExists(self.sanitized_name),
            )) && (!ex ==> (r.0.phase is ConfirmFrontend && same_request(self, r.0)
                && r.1 is AskFrontendConfirm)))),
            self.phase is ConfirmFrontend ==> (e matches Event::FrontendAnswer(yes) ==> ((yes ==> (
            r.0.phase is ChooseFramework && same_request(self, r.0) && (
            r.1 matches Action::AskFramework { rejected } && !rejected))) && (!yes ==> (
            r.0.phase is AcquireTemplate && r.0.raw_name == self.raw_name && r.0.sanitized_name
                == self.sanitized_name && r.0.frontend_choice is NoFrontend && (
            r.1 matches Action::CloneTemplate { dir } && dir@ == self.sanitized_name@))))),
            self.phase is ConfirmFrontend ==> (e is PromptAborted ==> failed_with(
                self,
                r.0,
                r.1,
                ScaffoldError::InteractionAborted,
            )),
            self.phase is ChooseFramework ==> (e matches Event::FrameworkPicked(i) ==> ((i == 0
                ==> (r.0.phase is AcquireTemplate && r.0.raw_name == self.raw_name
                && r.0.sanitized_name == self.sanitized_name
                && r.0.frontend_choice is SvelteKit && (r.1 matches Action::CloneTemplate { dir }
                && dir@ == self.sanitized_name@))) && (i != 0 ==> (r.0 == self && (
            r.1 matches Action::AskFramework { rejected } && rejected))))),
            self.phase is ChooseFramework ==> (e is PromptAborted ==> failed_with(
                self,
                r.0,
                r.1,
                ScaffoldError::InteractionAborted,
            )),
            self.phase is AcquireTemplate ==> (e matches Event::StepDone(res) ==> ((res is Ok ==> (
            r.0.phase is DropTemplateHistory && same_request(self, r.0) && (
            r.1 matches Action::DeleteDir { path } && path@ == self.sanitized_name@ + seq!['/']
                + ".git"@))) && (res matches Err(err) ==> failed_with(self, r.0, r.1, err)))),
            self.phase is DropTemplateHistory ==> (e matches Event::StepDone(res) ==> ((res is Ok
                ==> (r.0.phase is InitRepository && same_request(self, r.0) && (
            r.1 matches Action::RunGit { dir, op } && dir@ == self.sanitized_name@ && op is Init)))
                && (res matches Err(err) ==> failed_with(self, r.0, r.1, err)))),
            self.phase is InitRepository ==> (e matches Event::StepDone(res) ==> ((res is Ok ==> (
            r.0.phase is StageFiles && same_request(self, r.0) && (
            r.1 matches Action::RunGit { dir, op } && dir@ == self.sanitized_name@
                && op is StageAll))) && (res matches Err(err) ==> failed_with(
                self,
                r.0,
                r.1,
                err,
            )))),
            self.phase is StageFiles ==> (e matches Event::StepDone(res) ==> ((res is Ok ==> (
            r.0.phase is CommitInitial && same_request(self, r.0) && (
            r.1 matches Action::RunGit { dir, op } && dir@ == self.sanitized_name@
                && op is CommitInitial))) && (res matches Err(err) ==> failed_with(
                self,
                r.0,
                r.1,
                err,
            )))),
            self.phase is CommitInitial ==> (e matches Event::StepDone(res) ==> ((res is Ok ==> (
            r.0.phase is MaterializeEnv && same_request(self, r.0) && (
            r.1 matches Action::CopyEnvFiles { root } && root@ == self.sanitized_name@))) && (
            res matches Err(err) ==> failed_with(self, r.0, r.1, err)))),
            self.phase is MaterializeEnv ==> (e matches Event::StepDone(res) ==> ((res is Ok ==> (
            r.0.phase is PruneVariants && same_request(self, r.0) && (
            r.1 matches Action::PruneVariants { root, choice } && root@ == self.sanitized_name@
                + seq!['/'] + "frontends"@ && choice == self.frontend_choice))) && (
            res matches Err(err) ==> failed_with(self, r.0, r.1, err)))),
            self.phase is PruneVariants ==> (e matches Event::StepDone(res) ==> ((res is Ok ==> (
            r.0.phase is Summarize && same_request(self, r.0) && (
            r.1 matches Action::ShowSummary { name } && name@ == self.sanitized_name@))) && (
            res matches Err(err) ==> failed_with(self, r.0, r.1, err)))),
            self.phase is Summarize ==> (e is SummaryShown ==> (r.0.phase is Complete
                && same_request(self, r.0) && r.1 is Halt)),
            self.phase is Complete ==> (r.0 == self && r.1 is Halt),
            self.phase matches Phase::Failed(err) ==> (r.0 == self && r.1 is Halt),
    {
        let ScaffoldWorkflow { phase, raw_name, sanitized_name, frontend_choice } = self;
        match (phase, e) {
            (Phase::Preflight, Event::ProbeChecked(p)) => match p {
                Ok(_) => (
                    ScaffoldWorkflow {
                        phase: Phase::ResolveName,
                        raw_name,
                        sanitized_name,
                        frontend_choice,
                    },
                    Action::AskName,
                ),
                Err(err) => (
                    ScaffoldWorkflow {
                        phase: Phase::Failed(err),
                        raw_name,
                        sanitized_name,
                        frontend_choice,
                    },
                    Action::Halt,
                ),
            },
            (Phase::ResolveName, Event::NameEntered(name)) => {
                let sanitized = crate::sanitize::sanitize(name.as_str());
                let path = sanitized.clone();
                (
                    ScaffoldWorkflow {
                        phase: Phase::GuardTarget,
                        raw_name: name,
                        sanitized_name: sanitized,
                        frontend_choice,
                    },
                    Action::CheckTarget { path },
                )
            },
            (Phase::ResolveName, Event::PromptAborted) => (
                ScaffoldWorkflow {
                    phase: Phase::Failed(ScaffoldError::InteractionAborted),
                    raw_name,
                    sanitized_name,
                    frontend_choice,
                },
                Action::Halt,
            ),
            (Phase::GuardTarget, Event::TargetExists(ex)) => {
                if ex {
                    let p = sanitized_name.clone();
                    (
                        ScaffoldWorkflow {
                            phase: Phase::Failed(ScaffoldError::DirAlreadyExists(p)),
                            raw_name,
                            sanitized_name,
                            frontend_choice,
                        },
                        Action::Halt,
                    )
                } else {
                    (
                        ScaffoldWorkflow {
                            phase: Phase::ConfirmFrontend,
                            raw_name,
                            sanitized_name,
                            frontend_choice,
                        },
                        Action::AskFrontendConfirm,
                    )
                }
            },
            (Phase::ConfirmFrontend, Event::FrontendAnswer(yes)) => {
                if yes {
                    (
                        ScaffoldWorkflow {
                            phase: Phase::ChooseFramework,
                            raw_name,
                            sanitized_name,
                            frontend_choice,
                        },
                        Action::AskFramework { rejected: false },
                    )
                } else {
                    let dir = sanitized_name.clone();
                    (
                        ScaffoldWorkflow {
                            phase: Phase::AcquireTemplate,
                            raw_name,
                            sanitized_name,
                            frontend_choice: Frontend::NoFrontend,
                        },
                        Action::CloneTemplate { dir },
                    )
                }
            },
            (Phase::ConfirmFrontend, Event::PromptAborted) => (
                ScaffoldWorkflow {
                    phase: Phase::Failed(ScaffoldError::InteractionAborted),
                    raw_name,
                    sanitized_name,
                    frontend_choice,
                },
                Action::Halt,
            ),
            (Phase::ChooseFramework, Event::FrameworkPicked(i)) => {
                if i == 0 {
                    let dir = sanitized_name.clone();
                    (
                        ScaffoldWorkflow {
                            phase: Phase::AcquireTemplate,
                            raw_name,
                            sanitized_name,
                            frontend_choice: Frontend::SvelteKit,
                        },
                        Action::CloneTemplate { dir },
                    )
                } else {
                    (
                        ScaffoldWorkflow {
                            phase: Phase::ChooseFramework,
                            raw_name,
                            sanitized_name,
                            frontend_choice,
                        },
                        Action::AskFramework { rejected: true },
                    )
                }
            },
            (Phase::ChooseFramework, Event::PromptAborted) => (
                ScaffoldWorkflow {
                    phase: Phase::Failed(ScaffoldError::InteractionAborted),
                    raw_name,
                    sanitized_name,
                    frontend_choice,
                },
                Action::Halt,
            ),
            (Phase::AcquireTemplate, Event::StepDone(res)) => match res {
                Ok(_) => {
                    let path = crate::paths::join_paths(sanitized_name.as_str(), ".git");
                    (
                        ScaffoldWorkflow {
                            phase: Phase::DropTemplateHistory,
                            raw_name,
                            sanitized_name,
                            frontend_choice,
                        },
                        Action::DeleteDir { path },
                    )
                },
                Err(err) => (
                    ScaffoldWorkflow {
                        phase: Phase::Failed(err),
                        raw_name,
                        sanitized_name,
                        frontend_choice,
                    },
                    Action::Halt,
                ),
            },
            (Phase::DropTemplateHistory, Event::StepDone(res)) => match res {
                Ok(_) => {
                    let dir = sanitized_name.clone();
                    (
                        ScaffoldWorkflow {
                            phase: Phase::InitRepository,
                            raw_name,
                            sanitized_name,
                            frontend_choice,
                        },
                        Action::RunGit { dir, op: GitOp::Init },
                    )
                },
                Err(err) => (
                    ScaffoldWorkflow {
                        phase: Phase::Failed(err),
                        raw_name,
                        sanitized_name,
                        frontend_choice,
                    },
                    Action::Halt,
                ),
            },
            (Phase::InitRepository, Event::StepDone(res)) => match res {
                Ok(_) => {
                    let dir = sanitized_name.clone();
                    (
                        ScaffoldWorkflow {
                            phase: Phase::StageFiles,
                            raw_name,
                            sanitized_name,
                            frontend_choice,
                        },
                        Action::RunGit { dir, op: GitOp::StageAll },
                    )
                },
                Err(err) => (
                    ScaffoldWorkflow {
                        phase: Phase::Failed(err),
                        raw_name,
                        sanitized_name,
                        frontend_choice,
                    },
                    Action::Halt,
                ),
            },
            (Phase::StageFiles, Event::StepDone(res)) => match res {
                Ok(_) => {
                    let dir = sanitized_name.clone();
                    (
                        ScaffoldWorkflow {
                            phase: Phase::CommitInitial,
                            raw_name,
                            sanitized_name,
                            frontend_choice,
                        },
                        Action::RunGit { dir, op: GitOp::CommitInitial },
                    )
                },
                Err(err) => (
                    ScaffoldWorkflow {
                        phase: Phase::Failed(err),
                        raw_name,
                        sanitized_name,
                        frontend_choice,
                    },
                    Action::Halt,
                ),
            },
            (Phase::CommitInitial, Event::StepDone(res)) => match res {
                Ok(_) => {
                    let root = sanitized_name.clone();
                    (
                        ScaffoldWorkflow {
                            phase: Phase::MaterializeEnv,
                            raw_name,
                            sanitized_name,
                            frontend_choice,
                        },
                        Action::CopyEnvFiles { root },
                    )
                },
                Err(err) => (
                    ScaffoldWorkflow {
                        phase: Phase::Failed(err),
                        raw_name,
                        sanitized_name,
                        frontend_choice,
                    },
                    Action::Halt,
                ),
            },
            (Phase::MaterializeEnv, Event::StepDone(res)) => match res {
                Ok(_) => {
                    let root = crate::paths::join_paths(sanitized_name.as_str(), "frontends");
                    (
                        ScaffoldWorkflow {
                            phase: Phase::PruneVariants,
                            raw_name,
                            sanitized_name,
                            frontend_choice,
                        },
                        Action::PruneVariants { root, choice: frontend_choice },
                    )
                },
                Err(err) => (
                    ScaffoldWorkflow {
                        phase: Phase::Failed(err),
                        raw_name,
                        sanitized_name,
                        frontend_choice,
                    },
                    Action::Halt,
                ),
            },
            (Phase::PruneVariants, Event::StepDone(res)) => match res {
                Ok(_) => {
                    let name = sanitized_name.clone();
                    (
                        ScaffoldWorkflow {
                            phase: Phase::Summarize,
                            raw_name,
                            sanitized_name,
                            frontend_choice,
                        },
                        Action::ShowSummary { name },
                    )
                },
                Err(err) => (
                    ScaffoldWorkflow {
                        phase: Phase::Failed(err),
                        raw_name,
                        sanitized_name,
                        frontend_choice,
                    },
                    Action::Halt,
                ),
            },
            (Phase::Summarize, Event::SummaryShown) => (
                ScaffoldWorkflow {
                    phase: Phase::Complete,
                    raw_name,
                    sanitized_name,
                    frontend_choice,
                },
                Action::Halt,
            ),
            (ph, _) => (
                ScaffoldWorkflow { phase: ph, raw_name, sanitized_name, frontend_choice },
                Action::Halt,
            ),
        }
    }
}

/// Outcome of the preflight diagnostic: `Ok` exactly when the probe
/// invocation spawned, exited zero, and produced decodable output; any
/// failure means the tool is not usable here.
pub fn check_git_is_installed(outcome: CaptureOutcome) -> (r: Result<(), ScaffoldError>)
    ensures
        r is Ok <==> (outcome matches CaptureOutcome::Exited { success, text } && success
            && text is Some),
        r is Err ==> r == Err::<(), ScaffoldError>(ScaffoldError::ToolNotPresent),
{
    match crate::runner::resolve_capture_outcome("git", outcome) {
        Ok(_) => Ok(()),
        Err(_) => Err(ScaffoldError::ToolNotPresent),
    }
}

/// The directory name under `frontends/` belonging to a frontend choice;
/// no directory can match the empty name of `NoFrontend`, so with that
/// choice every variant is pruned.
pub open spec fn spec_variant_dir(f: Frontend) -> Seq<char> {
    match f {
        Frontend::NoFrontend => Seq::empty(),
        Frontend::SvelteKit => "sveltekit"@,
        Frontend::React => "react"@,
    }
}

/// The variant directory name, executable form.
pub fn variant_dir(f: Frontend) -> (r: &'static str)
    ensures
        r@ == spec_variant_dir(f),
{
    match f {
        Frontend::NoFrontend => {
            proof {
                reveal_strlit("");
                assert(""@ =~= Seq::<char>::empty());
            }
            ""
        },
        Frontend::SvelteKit => "sveltekit",
        Frontend::React => "react",
    }
}

/// Whether an immediate child of the variants directory is pruned: exactly
/// those whose name differs from the selected variant's directory name (all
/// of them when no frontend was selected).
pub fn should_remove_variant(child_name: &str, choice: Frontend) -> (r: bool)
    ensures
        r == (child_name@ != spec_variant_dir(choice)),
{
    !crate::textops::str_eq(child_name, variant_dir(choice))
}

/// One line of the closing next-step list: `[current/max] message`.
pub fn step_line(current: u64, max: u64, msg: &str) -> (r: String)
    ensures
        r@ == seq!['['] + spec_decimal(current as nat) + seq!['/'] + spec_decimal(max as nat)
            + seq![']', ' '] + msg@,
{
    let mut r = String::from_str("[");
    r.append(u64_to_decimal(current).as_str());
    r.append("/");
    r.append(u64_to_decimal(max).as_str());
    r.append("] ");
    r.append(msg);
    proof {
        reveal_strlit("[");
        reveal_strlit("/");
        reveal_strlit("] ");
        assert(r@ =~= seq!['['] + spec_decimal(current as nat) + seq!['/'] + spec_decimal(
            max as nat,
        ) + seq![']', ' '] + msg@);
    }
    r
}

/// The fixed closing instructions, referencing the sanitized name.
pub fn next_steps(name: &str) -> (r: Vec<String>)
    ensures
        r@.len() == 5,
        r@[0]@ == "> cd "@ + name@,
        r@[1]@ == "> just run-backend"@,
        r@[2]@ == "First compile takes a little while, but future compiles will be faster."@,
        r@[3]@ == "Open "@ + name@ + " in your IDE."@,
        r@[4]@ == "Happy coding!"@,
{
    let mut v: Vec<String> = Vec::new();
    let mut cd = String::from_str("> cd ");
    cd.append(name);
    v.push(cd);
    v.push(String::from_str("> just run-backend"));
    v.push(
        String::from_str("First compile takes a little while, but future compiles will be faster."),
    );
    let mut open_line = String::from_str("Open ");
    open_line.append(name);
    open_line.append(" in your IDE.");
    v.push(open_line);
    v.push(String::from_str("Happy coding!"));
    v
}

} // verus!
