use bun_cli::error::BunCliError;
use bun_cli::generator::{ProjectConfig, ProjectGenerator, SpawnOutcome};
use bun_cli::orchestrator::{GenAction, GenEvent, GenState};

fn generator_with(name: &str, dependencies: Vec<String>) -> ProjectGenerator {
    ProjectGenerator::new(ProjectConfig { name: name.to_string(), dependencies })
}

#[test]
fn test_empty_name_fails_before_any_subprocess() {
    let g = generator_with("", vec!["mongoose".to_string()]);
    let (state, action) = g.step(GenState::Idle, GenEvent::Begin);
    assert_eq!(state, GenState::Failed(BunCliError::InvalidProjectName("".to_string())));
    // Halt requests no outside work: no subprocess is ever spawned.
    assert_eq!(action, GenAction::Halt);
}

#[test]
fn test_slash_name_fails_with_the_offending_name() {
    let g = generator_with("my/app", vec![]);
    let (state, action) = g.step(GenState::Idle, GenEvent::Begin);
    assert_eq!(state, GenState::Failed(BunCliError::InvalidProjectName("my/app".to_string())));
    assert_eq!(action, GenAction::Halt);
}

#[test]
fn test_declined_install_fails_without_scaffolding() {
    let g = generator_with("myapp", vec!["mongoose".to_string()]);
    let (state, action) = g.step(GenState::Idle, GenEvent::Begin);
    assert_eq!((state.clone(), action), (GenState::NameValidated, GenAction::RunProbe));

    // The probe fails: the tool is missing, and the machine asks for consent.
    let (state, action) =
        g.step(state, GenEvent::ProbeFinished { spawned: false, exit_ok: false });
    assert_eq!((state.clone(), action), (GenState::NameValidated, GenAction::PromptInstall));

    // The user declines: the run fails as BunNotInstalled, and the Halt
    // action means the scaffold subcommand was never requested.
    let (state, action) =
        g.step(state, GenEvent::ConsentAnswered { response: "n".to_string() });
    assert_eq!(state, GenState::Failed(BunCliError::BunNotInstalled));
    assert_eq!(action, GenAction::Halt);
}

#[test]
fn test_recovery_path_retries_scaffold_exactly_once() {
    let g = generator_with("myapp", vec!["mongoose".to_string(), "winston".to_string()]);
    let mut scaffolds_requested = 0;

    let (state, action) = g.step(GenState::Idle, GenEvent::Begin);
    assert_eq!(action, GenAction::RunProbe);

    let (state, action) =
        g.step(state, GenEvent::ProbeFinished { spawned: false, exit_ok: false });
    assert_eq!(action, GenAction::PromptInstall);

    // An empty reply counts as consent (default yes).
    let (state, action) = g.step(state, GenEvent::ConsentAnswered { response: "".to_string() });
    assert_eq!((state.clone(), action), (GenState::ToolInstalling, GenAction::RunInstaller));

    let (state, action) = g.step(state, GenEvent::InstallerFinished { ok: true });
    assert_eq!((state.clone(), action), (GenState::ToolInstalling, GenAction::RunProbe));

    let (state, action) = g.step(state, GenEvent::ProbeFinished { spawned: true, exit_ok: true });
    if let GenAction::RunScaffold { ref name } = action {
        scaffolds_requested += 1;
        assert_eq!(name.as_str(), "myapp");
    }
    assert_eq!(state, GenState::ToolChecked);

    // The retried scaffold succeeds, and the run proceeds to dependency
    // installation; no further scaffold is ever requested.
    let (state, action) =
        g.step(state, GenEvent::ScaffoldFinished { outcome: SpawnOutcome::Completed { exit_ok: true, stderr: String::new() } });
    assert_eq!(state, GenState::Scaffolded { attempted: 0 });
    assert_eq!(
        action,
        GenAction::AddDependency {
            dependency: "mongoose".to_string(),
            project_dir: "myapp".to_string()
        }
    );
    assert_eq!(scaffolds_requested, 1);
}

#[test]
fn test_failed_reprobe_after_install_is_fatal() {
    let g = generator_with("myapp", vec![]);
    let (state, action) =
        g.step(GenState::ToolInstalling, GenEvent::ProbeFinished { spawned: true, exit_ok: false });
    assert_eq!(state, GenState::Failed(BunCliError::BunNotInstalled));
    assert_eq!(action, GenAction::Halt);
}

#[test]
fn test_failed_installer_is_fatal() {
    let g = generator_with("myapp", vec![]);
    let (state, action) = g.step(GenState::ToolInstalling, GenEvent::InstallerFinished { ok: false });
    assert_eq!(state, GenState::Failed(BunCliError::BunNotInstalled));
    assert_eq!(action, GenAction::Halt);
}

#[test]
fn test_scaffold_failure_is_fatal_with_verbatim_stderr() {
    let g = generator_with("myapp", vec!["mongoose".to_string()]);
    let (state, action) = g.step(
        GenState::ToolChecked,
        GenEvent::ScaffoldFinished { outcome: SpawnOutcome::Completed { exit_ok: false, stderr: "name already exists".to_string() } },
    );
    assert_eq!(
        state,
        GenState::Failed(BunCliError::CommandFailed {
            command: "create elysia myapp".to_string(),
            message: "name already exists".to_string(),
        })
    );
    // Halt: the dependency and template steps never run.
    assert_eq!(action, GenAction::Halt);

    // And the failed state is terminal, whatever arrives afterwards.
    let (state, action) = g.step(
        state,
        GenEvent::DependencyFinished { outcome: SpawnOutcome::Completed { exit_ok: true, stderr: String::new() } },
    );
    assert!(matches!(state, GenState::Failed(BunCliError::CommandFailed { .. })));
    assert_eq!(action, GenAction::Halt);
}

#[test]
fn test_scaffold_spawn_failure_is_fatal_io() {
    // The create subcommand could not be spawned at all: that is an I/O
    // failure of this machine, preserving the cause, not a CommandFailed.
    let g = generator_with("myapp", vec!["mongoose".to_string()]);
    let (state, action) = g.step(
        GenState::ToolChecked,
        GenEvent::ScaffoldFinished {
            outcome: SpawnOutcome::SpawnFailed { error: "no such file".to_string() },
        },
    );
    assert_eq!(state, GenState::Failed(BunCliError::Io("no such file".to_string())));
    assert_eq!(action, GenAction::Halt);
}

#[test]
fn test_dependency_spawn_failure_is_not_fatal() {
    // A dependency-add subcommand that cannot even be spawned is still only
    // a warning: the next dependency is attempted.
    let g = generator_with("myapp", vec!["a".to_string(), "b".to_string()]);
    let (state, action) = g.step(
        GenState::Scaffolded { attempted: 0 },
        GenEvent::DependencyFinished {
            outcome: SpawnOutcome::SpawnFailed { error: "no such file".to_string() },
        },
    );
    assert_eq!(state, GenState::Scaffolded { attempted: 1 });
    assert_eq!(
        action,
        GenAction::AddDependency { dependency: "b".to_string(), project_dir: "myapp".to_string() }
    );
}

#[test]
fn test_dependency_failure_does_not_stop_the_rest() {
    let deps = vec!["a".to_string(), "b".to_string(), "c".to_string()];
    let g = generator_with("myapp", deps);

    let (state, action) =
        g.step(GenState::ToolChecked, GenEvent::ScaffoldFinished { outcome: SpawnOutcome::Completed { exit_ok: true, stderr: String::new() } });
    assert_eq!(state, GenState::Scaffolded { attempted: 0 });
    assert_eq!(
        action,
        GenAction::AddDependency { dependency: "a".to_string(), project_dir: "myapp".to_string() }
    );

    // Dependency "a" fails; "b" is still attempted.
    let (state, action) = g.step(
        state,
        GenEvent::DependencyFinished { outcome: SpawnOutcome::Completed { exit_ok: false, stderr: "registry down".to_string() } },
    );
    assert_eq!(state, GenState::Scaffolded { attempted: 1 });
    assert_eq!(
        action,
        GenAction::AddDependency { dependency: "b".to_string(), project_dir: "myapp".to_string() }
    );

    // Dependency "b" fails too; "c" is still attempted.
    let (state, action) = g.step(
        state,
        GenEvent::DependencyFinished { outcome: SpawnOutcome::Completed { exit_ok: false, stderr: "registry down".to_string() } },
    );
    assert_eq!(state, GenState::Scaffolded { attempted: 2 });
    assert_eq!(
        action,
        GenAction::AddDependency { dependency: "c".to_string(), project_dir: "myapp".to_string() }
    );

    // After the last dependency the run moves on to the template merge:
    // per-item failures never abort the generation.
    let (state, action) = g.step(
        state,
        GenEvent::DependencyFinished { outcome: SpawnOutcome::Completed { exit_ok: true, stderr: String::new() } },
    );
    assert_eq!(state, GenState::DependenciesInstalled);
    assert_eq!(action, GenAction::ApplyTemplates { project_dir: "myapp".to_string() });
}

#[test]
fn test_template_failure_still_ends_in_success() {
    let g = generator_with("myapp", vec![]);
    let (state, action) = g.step(
        GenState::DependenciesInstalled,
        GenEvent::TemplatesApplied { ok: false, message: "disk full".to_string() },
    );
    assert_eq!((state.clone(), action), (GenState::TemplatesCopied, GenAction::Advance));

    let (state, action) = g.step(state, GenEvent::Proceed);
    assert_eq!((state, action), (GenState::Done, GenAction::Halt));
}

#[test]
fn test_full_run_without_templates_reports_success() {
    // Scaffold and dependencies succeed; the template source is absent, so
    // the merge is a silent no-op and the run still ends in Done.
    let g = generator_with("myapp", vec!["mongoose".to_string()]);

    let (state, action) = g.step(GenState::Idle, GenEvent::Begin);
    assert_eq!(action, GenAction::RunProbe);
    let (state, action) = g.step(state, GenEvent::ProbeFinished { spawned: true, exit_ok: true });
    assert_eq!(action, GenAction::RunScaffold { name: "myapp".to_string() });
    let (state, _) =
        g.step(state, GenEvent::ScaffoldFinished { outcome: SpawnOutcome::Completed { exit_ok: true, stderr: String::new() } });
    let (state, action) =
        g.step(state, GenEvent::DependencyFinished { outcome: SpawnOutcome::Completed { exit_ok: true, stderr: String::new() } });
    assert_eq!(action, GenAction::ApplyTemplates { project_dir: "myapp".to_string() });

    let plan = g.copy_templates(None);
    assert!(plan.is_empty());

    let (state, action) =
        g.step(state, GenEvent::TemplatesApplied { ok: true, message: String::new() });
    assert_eq!(action, GenAction::Advance);
    let (state, _) = g.step(state, GenEvent::Proceed);
    assert_eq!(state, GenState::Done);
}

#[test]
fn test_scaffold_with_no_dependencies_goes_straight_to_templates() {
    let g = generator_with("myapp", vec![]);
    let (state, action) =
        g.step(GenState::ToolChecked, GenEvent::ScaffoldFinished { outcome: SpawnOutcome::Completed { exit_ok: true, stderr: String::new() } });
    assert_eq!(state, GenState::DependenciesInstalled);
    assert_eq!(action, GenAction::ApplyTemplates { project_dir: "myapp".to_string() });
}

#[test]
fn test_done_state_is_terminal() {
    let g = generator_with("myapp", vec![]);
    let (state, action) = g.step(GenState::Done, GenEvent::Begin);
    assert_eq!((state, action), (GenState::Done, GenAction::Halt));
}
