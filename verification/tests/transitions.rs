//! Single transitions of a run, with the engine's answers handed in.

use gasbombe::engine::EngineReport;
use gasbombe::{
    Action, Environment, Event, GenerateError, Materializer, Notice, PackageManager, Phase,
    ProjectOptions, RenderError, Stage, Step, TemplateResource, TemplateType, VcsStep,
    VcsWarning,
};

fn options(name: &str) -> ProjectOptions {
    ProjectOptions {
        project_name: name.to_string(),
        package_manager: PackageManager::Npm,
        template_type: TemplateType::VanillaTs,
    }
}

fn resource(identity: &str, content: &str) -> TemplateResource {
    TemplateResource { identity: identity.to_string(), content: content.to_string() }
}

fn two_templates() -> Vec<TemplateResource> {
    vec![resource("common/a.tera", "A {{ project_name }}"), resource("vanilla-ts/d/b.tera", "B")]
}

/// A run that has been given its templates and waits for the first rendering.
fn run_at_rendering(environment: Environment) -> (Materializer, Step) {
    let (mut run, _) = Materializer::start(options("out"), environment);
    run.advance(Event::TargetProbed { exists: false });
    run.advance(Event::DirectoriesCreated);
    let step = run.advance(Event::TemplatesLoaded { resources: two_templates() });
    (run, step)
}

fn rendered(text: &str) -> Event {
    Event::Rendered { report: EngineReport::Rendered(text.to_string()) }
}

fn finished(launched: bool, succeeded: bool) -> Event {
    Event::CommandFinished { launched, succeeded, detail: "out".to_string() }
}

/// A native run that has written both files and waits for the installer.
fn run_at_install() -> Materializer {
    let (mut run, _) = run_at_rendering(Environment::Native);
    run.advance(rendered("a"));
    run.advance(Event::FileWritten);
    run.advance(rendered("b"));
    let step = run.advance(Event::FileWritten);
    assert!(matches!(step.action, Action::RunCommand { .. }));
    run
}

#[test]
fn a_run_starts_by_probing_its_target() {
    let (run, step) = Materializer::start(options("some/dir"), Environment::Native);
    assert_eq!(run.stage(), Stage::ProbingTarget);
    assert_eq!(run.phase(), Phase::NotStarted);
    assert!(!run.is_over());
    assert!(step.notices.is_empty());
    assert!(matches!(step.action, Action::ProbeTarget { path } if path == "some/dir"));
    assert_eq!(run.files_planned(), 0);
    assert_eq!(run.files_written(), 0);
    assert_eq!(run.environment(), Environment::Native);
}

#[test]
fn a_free_target_gets_its_directories() {
    let (mut run, _) = Materializer::start(options("some/dir"), Environment::Sandboxed);
    let step = run.advance(Event::TargetProbed { exists: false });
    assert_eq!(run.stage(), Stage::CreatingDirectories);
    assert_eq!(run.phase(), Phase::NotStarted);
    match step.action {
        Action::CreateDirectories { directories } => {
            assert_eq!(directories, vec!["some/dir".to_string(), "some/dir/src".to_string()]);
        }
        other => panic!("unexpected action: {:?}", other),
    }
    let step = run.advance(Event::DirectoriesCreated);
    assert_eq!(run.stage(), Stage::LoadingTemplates);
    assert_eq!(run.phase(), Phase::DirectoryCreated);
    assert!(matches!(step.action, Action::LoadTemplates));
}

#[test]
fn directories_that_cannot_be_created_fail_the_run() {
    let (mut run, _) = Materializer::start(options("out"), Environment::Native);
    run.advance(Event::TargetProbed { exists: false });
    let step = run.advance(Event::IoFailed { detail: "read-only".to_string() });
    assert!(matches!(step.action, Action::Finish));
    assert!(matches!(
        run.failure(),
        Some(GenerateError::WriteError { path, detail }) if path == "out" && detail == "read-only"
    ));
}

#[test]
fn a_store_that_cannot_be_read_is_unavailable() {
    let (mut run, _) = Materializer::start(options("out"), Environment::Native);
    run.advance(Event::TargetProbed { exists: false });
    run.advance(Event::DirectoriesCreated);
    let step = run.advance(Event::IoFailed { detail: "permission denied".to_string() });
    assert!(matches!(step.action, Action::Finish));
    assert!(matches!(
        run.failure(),
        Some(GenerateError::TemplateStoreUnavailable { detail }) if detail == "permission denied"
    ));
    assert_eq!(run.phase(), Phase::Failed);
}

#[test]
fn templates_are_rendered_and_written_in_turn() {
    let (mut run, step) = run_at_rendering(Environment::Sandboxed);
    assert_eq!(run.stage(), Stage::Rendering);
    assert_eq!(run.phase(), Phase::TemplatesEnumerated);
    assert_eq!(run.files_planned(), 2);
    assert!(matches!(
        step.action,
        Action::Render { template, source }
            if template == "common/a.tera" && source == "A {{ project_name }}"
    ));

    let step = run.advance(rendered("whatever the engine says"));
    assert_eq!(run.stage(), Stage::Writing);
    match step.action {
        Action::WriteFile { parent, path, content } => {
            assert_eq!(parent, "out");
            assert_eq!(path, "out/a");
            assert_eq!(content, "whatever the engine says");
        }
        other => panic!("unexpected action: {:?}", other),
    }
    assert_eq!(run.files_written(), 0);

    let step = run.advance(Event::FileWritten);
    assert_eq!(run.files_written(), 1);
    assert_eq!(run.stage(), Stage::Rendering);
    assert!(matches!(
        step.action,
        Action::Render { template, source } if template == "vanilla-ts/d/b.tera" && source == "B"
    ));

    let step = run.advance(rendered(""));
    match step.action {
        Action::WriteFile { parent, path, content } => {
            assert_eq!(parent, "out/d");
            assert_eq!(path, "out/d/b");
            assert_eq!(content, "");
        }
        other => panic!("unexpected action: {:?}", other),
    }

    let step = run.advance(Event::FileWritten);
    assert_eq!(run.files_written(), 2);
    assert_eq!(run.stage(), Stage::Finished);
    assert_eq!(run.phase(), Phase::Complete);
    assert!(run.is_over());
    assert!(matches!(step.action, Action::Finish));
    assert_eq!(step.notices, vec![Notice::StructureCreated, Notice::PostStepsSkipped]);
}

#[test]
fn a_failed_rendering_stops_before_the_write() {
    for (report, kind) in [
        (EngineReport::Failed("bad".to_string()), RenderError::MalformedTemplate),
        (EngineReport::Failed(String::new()), RenderError::MalformedTemplate),
    ] {
        let (mut run, _) = run_at_rendering(Environment::Native);
        run.advance(rendered("a"));
        run.advance(Event::FileWritten);
        let step = run.advance(Event::Rendered { report });
        assert!(matches!(step.action, Action::Finish));
        assert!(step.notices.is_empty());
        assert_eq!(run.stage(), Stage::Failed);
        assert_eq!(run.files_written(), 1);
        assert_eq!(run.files_planned(), 2);
        match run.failure() {
            Some(GenerateError::Render { kind: found, template, .. }) => {
                assert_eq!(*found, kind);
                assert_eq!(template, "vanilla-ts/d/b.tera");
            }
            other => panic!("unexpected outcome: {:?}", other),
        }
    }
}

#[test]
fn a_native_run_goes_through_every_phase() {
    let mut run = run_at_install();
    assert_eq!(run.stage(), Stage::Installing);
    assert_eq!(run.phase(), Phase::FilesWritten);

    let step = run.advance(finished(true, true));
    assert_eq!(run.stage(), Stage::Versioning(VcsStep::Probe));
    assert_eq!(run.phase(), Phase::PostStepsRun);
    assert_eq!(step.notices, vec![Notice::InstallSucceeded, Notice::VcsStarting]);

    let mut steps = Vec::new();
    for next in [VcsStep::Init, VcsStep::Stage, VcsStep::Commit] {
        let step = run.advance(finished(true, true));
        assert_eq!(run.stage(), Stage::Versioning(next));
        assert_eq!(run.phase(), Phase::PostStepsRun);
        assert!(step.notices.is_empty());
        steps.push(step.action);
    }
    assert!(steps.iter().all(|action| matches!(action, Action::RunCommand { .. })));

    let step = run.advance(finished(true, true));
    assert_eq!(run.phase(), Phase::Complete);
    assert_eq!(run.warning(), None);
    assert!(run.failure().is_none());
    assert_eq!(step.notices, vec![Notice::VcsInitialized]);
    assert!(matches!(step.action, Action::Finish));
}

#[test]
fn the_install_command_names_the_package_manager() {
    let (mut run, _) = Materializer::start(
        ProjectOptions {
            project_name: "p".to_string(),
            package_manager: PackageManager::Yarn,
            template_type: TemplateType::ReactTsx,
        },
        Environment::Native,
    );
    run.advance(Event::TargetProbed { exists: false });
    run.advance(Event::DirectoriesCreated);
    let step = run.advance(Event::TemplatesLoaded {
        resources: vec![resource("vanilla-ts/not-for-react.tera", "x")],
    });
    assert_eq!(
        step.notices,
        vec![Notice::StructureCreated, Notice::InstallStarting(PackageManager::Yarn)]
    );
    match step.action {
        Action::RunCommand { command } => {
            assert_eq!(command.program, "yarn");
            assert_eq!(command.arguments, vec!["install".to_string()]);
            assert_eq!(command.directory, "p");
            assert!(command.shows_output);
        }
        other => panic!("unexpected action: {:?}", other),
    }
    assert_eq!(run.files_planned(), 0);
}

#[test]
fn a_version_control_step_that_fails_ends_the_run_well() {
    let cases = [
        (0, false, false, VcsWarning::ToolMissing),
        (1, true, false, VcsWarning::InitFailed),
        (2, false, true, VcsWarning::StageFailed),
        (3, true, false, VcsWarning::CommitFailed),
    ];
    for (good_steps, launched, succeeded, warning) in cases {
        let mut run = run_at_install();
        run.advance(finished(true, true));
        for _ in 0..good_steps {
            run.advance(finished(true, true));
        }
        let step = run.advance(finished(launched, succeeded));
        assert!(matches!(step.action, Action::Finish));
        assert_eq!(step.notices, vec![Notice::VcsSkipped(warning)]);
        assert_eq!(run.stage(), Stage::Finished);
        assert_eq!(run.warning(), Some(warning));
        assert!(run.failure().is_none());
    }
}

#[test]
fn an_event_that_is_not_awaited_fails_the_run() {
    let (mut run, _) = Materializer::start(options("out"), Environment::Native);
    let step = run.advance(Event::FileWritten);
    assert!(matches!(step.action, Action::Finish));
    assert!(matches!(run.failure(), Some(GenerateError::UnexpectedEvent)));

    let (mut run, _) = run_at_rendering(Environment::Native);
    run.advance(Event::FileWritten);
    assert!(matches!(run.failure(), Some(GenerateError::UnexpectedEvent)));
    assert_eq!(run.files_written(), 0);

    let (mut run, _) = run_at_rendering(Environment::Native);
    run.advance(rendered("a"));
    run.advance(rendered("again"));
    assert!(matches!(run.failure(), Some(GenerateError::UnexpectedEvent)));

    let mut run = run_at_install();
    run.advance(Event::DirectoriesCreated);
    assert!(matches!(run.failure(), Some(GenerateError::UnexpectedEvent)));

    let mut run = run_at_install();
    run.advance(finished(true, true));
    run.advance(Event::TargetProbed { exists: false });
    assert!(matches!(run.failure(), Some(GenerateError::UnexpectedEvent)));
}

#[test]
fn a_run_that_is_over_stays_as_it_is() {
    let (mut run, _) = Materializer::start(options("out"), Environment::Native);
    run.advance(Event::TargetProbed { exists: true });
    assert_eq!(run.phase(), Phase::Failed);
    for event in [
        Event::TargetProbed { exists: false },
        Event::DirectoriesCreated,
        Event::TemplatesLoaded { resources: two_templates() },
        Event::FileWritten,
        finished(true, true),
    ] {
        let step = run.advance(event);
        assert!(matches!(step.action, Action::Finish));
        assert!(step.notices.is_empty());
        assert!(matches!(
            run.failure(),
            Some(GenerateError::TargetExists { path }) if path == "out"
        ));
    }

    let (mut run, _) = run_at_rendering(Environment::Sandboxed);
    run.advance(rendered("a"));
    run.advance(Event::FileWritten);
    run.advance(rendered("b"));
    run.advance(Event::FileWritten);
    assert_eq!(run.phase(), Phase::Complete);
    let step = run.step(Event::IoFailed { detail: "late".to_string() });
    assert!(matches!(step.action, Action::Finish));
    assert_eq!(run.phase(), Phase::Complete);
    assert!(run.failure().is_none());
    assert_eq!(run.files_written(), 2);
}

#[test]
fn a_step_takes_the_engine_s_answer_in_itself() {
    let (mut run, _) = Materializer::start(options("dir/name"), Environment::Sandboxed);
    run.step(Event::TargetProbed { exists: false });
    run.step(Event::DirectoriesCreated);
    let step = run.step(Event::TemplatesLoaded { resources: two_templates() });
    assert_eq!(run.stage(), Stage::Writing);
    match step.action {
        Action::WriteFile { parent, path, content } => {
            assert_eq!(parent, "dir/name");
            assert_eq!(path, "dir/name/a");
            assert_eq!(content, "A name");
        }
        other => panic!("unexpected action: {:?}", other),
    }
    let step = run.step(Event::FileWritten);
    assert!(matches!(
        step.action,
        Action::WriteFile { path, content, .. } if path == "dir/name/d/b" && content == "B"
    ));
}

#[test]
fn an_unbound_variable_fails_the_run_before_the_engine_is_asked() {
    let (mut run, _) = Materializer::start(options("out"), Environment::Native);
    run.advance(Event::TargetProbed { exists: false });
    run.advance(Event::DirectoriesCreated);
    let step = run.advance(Event::TemplatesLoaded {
        resources: vec![
            resource("common/a.tera", "A {{ project_name }}"),
            resource("common/b.tera", "{{ project_name }} by {{ author }}"),
            resource("common/c.tera", "C"),
        ],
    });
    assert!(matches!(step.action, Action::Render { .. }));
    run.advance(rendered("A out"));
    let step = run.advance(Event::FileWritten);
    assert!(matches!(step.action, Action::Finish));
    assert_eq!(run.stage(), Stage::Failed);
    assert_eq!(run.files_written(), 1);
    assert_eq!(run.files_planned(), 3);
    match run.failure() {
        Some(GenerateError::Render { kind, template, detail }) => {
            assert_eq!(*kind, RenderError::MissingVariable);
            assert_eq!(template, "common/b.tera");
            assert_eq!(detail, "author");
        }
        other => panic!("unexpected outcome: {:?}", other),
    }
}

#[test]
fn a_text_that_is_no_template_fails_the_run_when_its_turn_comes() {
    let (mut run, _) = Materializer::start(options("out"), Environment::Sandboxed);
    run.advance(Event::TargetProbed { exists: false });
    run.advance(Event::DirectoriesCreated);
    let step = run.advance(Event::TemplatesLoaded {
        resources: vec![resource("vanilla-ts/a.tera", "{% if project_name %}x{% endif %}")],
    });
    assert!(matches!(step.action, Action::Finish));
    assert_eq!(run.stage(), Stage::Failed);
    assert_eq!(run.files_written(), 0);
    match run.failure() {
        Some(GenerateError::Render { kind, template, .. }) => {
            assert_eq!(*kind, RenderError::MalformedTemplate);
            assert_eq!(template, "vanilla-ts/a.tera");
        }
        other => panic!("unexpected outcome: {:?}", other),
    }
}

#[test]
fn a_step_renders_with_the_variables_of_the_run() {
    let (mut run, _) = Materializer::start(options("some/dir/out"), Environment::Sandboxed);
    run.step(Event::TargetProbed { exists: false });
    run.step(Event::DirectoriesCreated);
    let step = run.step(Event::TemplatesLoaded {
        resources: vec![resource("common/a.txt.tera", "<{{ project_name }}>")],
    });
    match step.action {
        Action::WriteFile { parent, path, content } => {
            assert_eq!(parent, "some/dir/out");
            assert_eq!(path, "some/dir/out/a.txt");
            assert_eq!(content, "<out>");
        }
        other => panic!("unexpected action: {:?}", other),
    }
}
