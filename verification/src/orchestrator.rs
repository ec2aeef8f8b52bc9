//! The orchestrator: the end-to-end generation flow as a state machine.
//!
//! The flow runs `Idle → NameValidated → ToolChecked → (ToolInstalling →)
//! Scaffolded → DependenciesInstalled → TemplatesCopied → Done`, with a
//! terminal `Failed(reason)` reachable from any state. The machine is driven
//! from outside: `step` consumes the event that ended the last outside step
//! and answers with the next state and the next action to perform, so every
//! decision — including the "offer to install the missing tool" recovery
//! path — is verified, while the subprocesses, the terminal and the
//! filesystem stay with the embedding program.
//!
//! Fatality is deliberately asymmetric: an invalid name, an unrecovered
//! missing tool, and a failed creation subcommand are fatal, because they
//! leave no usable artifact; failures of individual dependency installs and
//! of the template merge are warnings only, because they degrade an already
//! usable scaffold.

use vstd::prelude::*;
use crate::cli::{affirmative, Cli};
use crate::error::BunCliError;
use crate::generator::{valid_project_name, ProjectGenerator, SpawnOutcome};

verus! {

/// A state of the generation flow.
#[derive(Debug, Clone, PartialEq, Eq)]
pub enum GenState {
    /// Nothing has happened yet.
    Idle,
    /// The project name passed validation. The run also waits here while the
    /// first tool probe or the install prompt is outstanding.
    NameValidated,
    /// The tool probe succeeded; project creation may proceed.
    ToolChecked,
    /// The user agreed to install the missing tool; the run waits here while
    /// the installer or the re-probe is outstanding.
    ToolInstalling,
    /// The base project exists; `attempted` dependencies have finished, the
    /// next one is being added.
    Scaffolded { attempted: usize },
    /// Every dependency was attempted (failures were warnings only).
    DependenciesInstalled,
    /// The template merge was attempted (its failure is a warning only).
    TemplatesCopied,
    /// The run finished: the project is ready to use.
    Done,
    /// The run failed for the given reason; terminal.
    Failed(BunCliError),
}

/// What an outside step reported back to the machine.
#[derive(Debug, Clone, PartialEq, Eq)]
pub enum GenEvent {
    /// Start the run.
    Begin,
    /// The tool probe ended: whether the version-query subprocess could be
    /// spawned, and whether it exited with status zero.
    ProbeFinished { spawned: bool, exit_ok: bool },
    /// The user answered the install prompt with this raw line.
    ConsentAnswered { response: String },
    /// The tool installer ended, successfully or not.
    InstallerFinished { ok: bool },
    /// The creation subcommand was spawned and ended, or could not be
    /// spawned at all.
    ScaffoldFinished { outcome: SpawnOutcome },
    /// One dependency-add subcommand was spawned and ended, or could not be
    /// spawned at all. The machine continues identically either way.
    DependencyFinished { outcome: SpawnOutcome },
    /// The template merge was attempted, successfully or not, with a
    /// description of any failure. The machine continues identically either
    /// way.
    TemplatesApplied { ok: bool, message: String },
    /// No outside work was requested; continue.
    Proceed,
}

/// The next piece of outside work the driver must perform.
#[derive(Debug, Clone, PartialEq, Eq)]
pub enum GenAction {
    /// Run the tool's version-query subcommand and report `ProbeFinished`.
    RunProbe,
    /// Ask the user whether to install the missing tool and report
    /// `ConsentAnswered`.
    PromptInstall,
    /// Run the tool installer, make the installed executable discoverable to
    /// later subprocesses, and report `InstallerFinished`.
    RunInstaller,
    /// Run the project-creation subcommand for `name` and report
    /// `ScaffoldFinished`.
    RunScaffold { name: String },
    /// Run the dependency-add subcommand for `dependency`, with working
    /// directory `project_dir`, and report `DependencyFinished`.
    AddDependency { dependency: String, project_dir: String },
    /// Merge the template tree into `project_dir` and report
    /// `TemplatesApplied`.
    ApplyTemplates { project_dir: String },
    /// Nothing to do outside; report `Proceed`.
    Advance,
    /// The run is over; stop driving.
    Halt,
}

impl ProjectGenerator {
    /// The transition relation of the generation flow, as a function from
    /// state and event to next state and requested action. Pairs that no
    /// correct driver produces leave the state unchanged and halt.
    pub open spec fn spec_step(self, s: GenState, e: GenEvent) -> (GenState, GenAction) {
        match (s, e) {
            (GenState::Idle, GenEvent::Begin) => {
                if valid_project_name(self.config.name@) {
                    (GenState::NameValidated, GenAction::RunProbe)
                } else {
                    (
                        GenState::Failed(BunCliError::InvalidProjectName(self.config.name)),
                        GenAction::Halt,
                    )
                }
            },
            (GenState::NameValidated, GenEvent::ProbeFinished { spawned, exit_ok }) => {
                if spawned && exit_ok {
                    (GenState::ToolChecked, (GenAction::RunScaffold { name: self.config.name }))
                } else {
                    (GenState::NameValidated, GenAction::PromptInstall)
                }
            },
            (GenState::NameValidated, GenEvent::ConsentAnswered { response }) => {
                if affirmative(response@) {
                    (GenState::ToolInstalling, GenAction::RunInstaller)
                } else {
                    (GenState::Failed(BunCliError::BunNotInstalled), GenAction::Halt)
                }
            },
            (GenState::ToolInstalling, GenEvent::InstallerFinished { ok }) => {
                if ok {
                    (GenState::ToolInstalling, GenAction::RunProbe)
                } else {
                    (GenState::Failed(BunCliError::BunNotInstalled), GenAction::Halt)
                }
            },
            (GenState::ToolInstalling, GenEvent::ProbeFinished { spawned, exit_ok }) => {
                if spawned && exit_ok {
                    (GenState::ToolChecked, (GenAction::RunScaffold { name: self.config.name }))
                } else {
                    (GenState::Failed(BunCliError::BunNotInstalled), GenAction::Halt)
                }
            },
            (GenState::ToolChecked, GenEvent::ScaffoldFinished { outcome }) => {
                match outcome {
                    SpawnOutcome::Completed { exit_ok, stderr } => {
                        if exit_ok {
                            if self.config.dependencies@.len() == 0 {
                                (
                                    GenState::DependenciesInstalled,
                                    (GenAction::ApplyTemplates { project_dir: self.config.name }),
                                )
                            } else {
                                (
                                    (GenState::Scaffolded { attempted: 0 }),
                                    (GenAction::AddDependency {
                                        dependency: self.config.dependencies@[0],
                                        project_dir: self.config.name,
                                    }),
                                )
                            }
                        } else {
                            (
                                GenState::Failed(
                                    (BunCliError::CommandFailed {
                                        command: self.scaffold_command,
                                        message: stderr,
                                    }),
                                ),
                                GenAction::Halt,
                            )
                        }
                    },
                    SpawnOutcome::SpawnFailed { error } => {
                        (GenState::Failed(BunCliError::Io(error)), GenAction::Halt)
                    },
                }
            },
            (GenState::Scaffolded { attempted }, GenEvent::DependencyFinished { .. }) => {
                if attempted < self.config.dependencies@.len() {
                    if attempted + 1 < self.config.dependencies@.len() {
                        (
                            (GenState::Scaffolded { attempted: (attempted + 1) as usize }),
                            (GenAction::AddDependency {
                                dependency: self.config.dependencies@[attempted + 1],
                                project_dir: self.config.name,
                            }),
                        )
                    } else {
                        (
                            GenState::DependenciesInstalled,
                            (GenAction::ApplyTemplates { project_dir: self.config.name }),
                        )
                    }
                } else {
                    ((GenState::Scaffolded { attempted }), GenAction::Halt)
                }
            },
            (GenState::DependenciesInstalled, GenEvent::TemplatesApplied { .. }) => {
                (GenState::TemplatesCopied, GenAction::Advance)
            },
            (GenState::TemplatesCopied, GenEvent::Proceed) => { (GenState::Done, GenAction::Halt)
            },
            (other, _) => (other, GenAction::Halt),
        }
    }

    /// Advance the generation run by one transition: consume the event that
    /// ended the last outside step and return the next state together with
    /// the next action the driver must perform.
    pub fn step(&self, s: GenState, e: GenEvent) -> (r: (GenState, GenAction))
        ensures
            r == self.spec_step(s, e),
    {
        match (s, e) {
            (GenState::Idle, GenEvent::Begin) => {
                match self.validate_project_name() {
                    Ok(()) => (GenState::NameValidated, GenAction::RunProbe),
                    Err(reason) => (GenState::Failed(reason), GenAction::Halt),
                }
            },
            (GenState::NameValidated, GenEvent::ProbeFinished { spawned, exit_ok }) => {
                match self.check_bun_installed(spawned, exit_ok) {
                    Ok(()) => (
                        GenState::ToolChecked,
                        GenAction::RunScaffold { name: self.config.name.clone() },
                    ),
                    Err(_) => (GenState::NameValidated, GenAction::PromptInstall),
                }
            },
            (GenState::NameValidated, GenEvent::ConsentAnswered { response }) => {
                if Cli::consent_is_affirmative(response.as_str()) {
                    (GenState::ToolInstalling, GenAction::RunInstaller)
                } else {
                    (GenState::Failed(BunCliError::BunNotInstalled), GenAction::Halt)
                }
            },
            (GenState::ToolInstalling, GenEvent::InstallerFinished { ok }) => {
                if ok {
                    (GenState::ToolInstalling, GenAction::RunProbe)
                } else {
                    (GenState::Failed(BunCliError::BunNotInstalled), GenAction::Halt)
                }
            },
            (GenState::ToolInstalling, GenEvent::ProbeFinished { spawned, exit_ok }) => {
                match self.check_bun_installed(spawned, exit_ok) {
                    Ok(()) => (
                        GenState::ToolChecked,
                        GenAction::RunScaffold { name: self.config.name.clone() },
                    ),
                    Err(reason) => (GenState::Failed(reason), GenAction::Halt),
                }
            },
            (GenState::ToolChecked, GenEvent::ScaffoldFinished { outcome }) => {
                match self.create_base_project(outcome) {
                    Ok(()) => {
                        if self.config.dependencies.len() == 0 {
                            (
                                GenState::DependenciesInstalled,
                                GenAction::ApplyTemplates {
                                    project_dir: self.config.name.clone(),
                                },
                            )
                        } else {
                            (
                                GenState::Scaffolded { attempted: 0 },
                                GenAction::AddDependency {
                                    dependency: self.config.dependencies[0].clone(),
                                    project_dir: self.config.name.clone(),
                                },
                            )
                        }
                    },
                    Err(reason) => (GenState::Failed(reason), GenAction::Halt),
                }
            },
            (GenState::Scaffolded { attempted }, GenEvent::DependencyFinished { .. }) => {
                if attempted < self.config.dependencies.len() {
                    let next: usize = attempted + 1;
                    if next < self.config.dependencies.len() {
                        (
                            GenState::Scaffolded { attempted: next },
                            GenAction::AddDependency {
                                dependency: self.config.dependencies[next].clone(),
                                project_dir: self.config.name.clone(),
                            },
                        )
                    } else {
                        (
                            GenState::DependenciesInstalled,
                            GenAction::ApplyTemplates { project_dir: self.config.name.clone() },
                        )
                    }
                } else {
                    (GenState::Scaffolded { attempted }, GenAction::Halt)
                }
            },
            (GenState::DependenciesInstalled, GenEvent::TemplatesApplied { .. }) => {
                (GenState::TemplatesCopied, GenAction::Advance)
            },
            (GenState::TemplatesCopied, GenEvent::Proceed) => (GenState::Done, GenAction::Halt),
            (other, _) => (other, GenAction::Halt),
        }
    }

    /// A failed run is terminal: no event moves the machine out of `Failed`,
    /// and no further action is requested — in particular, once a fatal step
    /// has failed, the dependency and template steps never run.
    pub proof fn lemma_failed_is_terminal(self, reason: BunCliError, e: GenEvent)
        ensures
            self.spec_step(GenState::Failed(reason), e) == (
                GenState::Failed(reason),
                GenAction::Halt,
            ),
    {
    }

    /// A creation subprocess is requested only by a successful tool probe:
    /// as long as no probe has reported success, no scaffold subcommand is
    /// ever spawned.
    pub proof fn lemma_scaffold_needs_probe_success(self, s: GenState, e: GenEvent)
        ensures
            self.spec_step(s, e).1 is RunScaffold ==> (e matches GenEvent::ProbeFinished {
                spawned,
                exit_ok,
            } && spawned && exit_ok),
    {
    }

    /// An invalid name is rejected before anything runs: from `Idle`, a name
    /// that fails validation moves straight to `Failed(InvalidProjectName)`
    /// with no action requested, so no subprocess is spawned.
    pub proof fn lemma_invalid_name_is_fatal(self)
        requires
            !valid_project_name(self.config.name@),
        ensures
            self.spec_step(GenState::Idle, GenEvent::Begin) == (
                GenState::Failed(BunCliError::InvalidProjectName(self.config.name)),
                GenAction::Halt,
            ),
    {
    }

    /// Declining the install prompt ends the run as `BunNotInstalled`; with
    /// `lemma_failed_is_terminal` and `lemma_scaffold_needs_probe_success`,
    /// no scaffold subprocess is ever spawned on that path.
    pub proof fn lemma_declined_install_is_fatal(self, response: String)
        requires
            !affirmative(response@),
        ensures
            self.spec_step(
                GenState::NameValidated,
                (GenEvent::ConsentAnswered { response }),
            ) == (GenState::Failed(BunCliError::BunNotInstalled), GenAction::Halt),
    {
    }

    /// The recovery path: affirmative consent runs the installer, a
    /// successful install re-probes, and a successful re-probe requests the
    /// scaffold step again — exactly once, since `ToolChecked` is reached
    /// directly. A successful scaffold then proceeds to dependency
    /// installation.
    pub proof fn lemma_recovery_path_retries_scaffold(self, response: String, stderr: String)
        requires
            affirmative(response@),
            self.config.dependencies@.len() > 0,
        ensures
            self.spec_step(
                GenState::NameValidated,
                (GenEvent::ConsentAnswered { response }),
            ) == (GenState::ToolInstalling, GenAction::RunInstaller),
            self.spec_step(
                GenState::ToolInstalling,
                (GenEvent::InstallerFinished { ok: true }),
            ) == (GenState::ToolInstalling, GenAction::RunProbe),
            self.spec_step(
                GenState::ToolInstalling,
                (GenEvent::ProbeFinished { spawned: true, exit_ok: true }),
            ) == (GenState::ToolChecked, (GenAction::RunScaffold { name: self.config.name })),
            self.spec_step(
                GenState::ToolChecked,
                (GenEvent::ScaffoldFinished {
                    outcome: (SpawnOutcome::Completed { exit_ok: true, stderr }),
                }),
            ) == (
                (GenState::Scaffolded { attempted: 0 }),
                (GenAction::AddDependency {
                    dependency: self.config.dependencies@[0],
                    project_dir: self.config.name,
                }),
            ),
    {
    }

    /// A failed installation, or a re-probe that still fails after it, ends
    /// the run as `BunNotInstalled`.
    pub proof fn lemma_unrecovered_tool_is_fatal(self, spawned: bool, exit_ok: bool)
        requires
            !(spawned && exit_ok),
        ensures
            self.spec_step(
                GenState::ToolInstalling,
                (GenEvent::InstallerFinished { ok: false }),
            ) == (GenState::Failed(BunCliError::BunNotInstalled), GenAction::Halt),
            self.spec_step(
                GenState::ToolInstalling,
                (GenEvent::ProbeFinished { spawned, exit_ok }),
            ) == (GenState::Failed(BunCliError::BunNotInstalled), GenAction::Halt),
    {
    }

    /// A failed scaffold step is fatal: a non-zero exit fails the run as
    /// `CommandFailed`, carrying the literal command line and the captured
    /// standard-error text verbatim, and a spawn failure fails it as `Io`,
    /// preserving the reported cause; `Failed` being terminal, the
    /// dependency and template steps never run.
    pub proof fn lemma_scaffold_failure_is_fatal(self, stderr: String, error: String)
        ensures
            self.spec_step(
                GenState::ToolChecked,
                (GenEvent::ScaffoldFinished {
                    outcome: (SpawnOutcome::Completed { exit_ok: false, stderr }),
                }),
            ) == (
                GenState::Failed(
                    (BunCliError::CommandFailed {
                        command: self.scaffold_command,
                        message: stderr,
                    }),
                ),
                GenAction::Halt,
            ),
            self.spec_step(
                GenState::ToolChecked,
                (GenEvent::ScaffoldFinished { outcome: (SpawnOutcome::SpawnFailed { error }) }),
            ) == (GenState::Failed(BunCliError::Io(error)), GenAction::Halt),
    {
    }

    /// Dependency installation failure is isolated: whatever outcome the
    /// dependency numbered `attempted` reported, the run never fails there;
    /// the next dependency is still requested while one remains, and
    /// otherwise the run moves on to the template merge.
    pub proof fn lemma_dependency_failure_is_isolated(self, attempted: usize, e: GenEvent)
        requires
            e is DependencyFinished,
            attempted < self.config.dependencies@.len(),
        ensures
            attempted + 1 < self.config.dependencies@.len() ==> self.spec_step(
                (GenState::Scaffolded { attempted }),
                e,
            ) == (
                (GenState::Scaffolded { attempted: (attempted + 1) as usize }),
                (GenAction::AddDependency {
                    dependency: self.config.dependencies@[attempted + 1],
                    project_dir: self.config.name,
                }),
            ),
            attempted + 1 == self.config.dependencies@.len() ==> self.spec_step(
                (GenState::Scaffolded { attempted }),
                e,
            ) == (
                GenState::DependenciesInstalled,
                (GenAction::ApplyTemplates { project_dir: self.config.name }),
            ),
            !(self.spec_step((GenState::Scaffolded { attempted }), e).0 is Failed),
    {
    }

    /// The template step never fails the run: whatever the merge reported —
    /// including the silent no-op of an absent template source — the machine
    /// records the step and the run concludes successfully.
    pub proof fn lemma_template_step_is_never_fatal(self, e: GenEvent)
        requires
            e is TemplatesApplied,
        ensures
            self.spec_step(GenState::DependenciesInstalled, e) == (
                GenState::TemplatesCopied,
                GenAction::Advance,
            ),
            self.spec_step(GenState::TemplatesCopied, GenEvent::Proceed) == (
                GenState::Done,
                GenAction::Halt,
            ),
    {
    }
}

} // verus!
