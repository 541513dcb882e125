//! Whole runs, carried out against a disk that lives in memory.

use gasbombe::{
    Action, Command, Environment, Event, GenerateError, Materializer, Notice, PackageManager,
    Phase, ProjectOptions, RenderError, Step, TemplateResource, TemplateType, VcsWarning,
};
use std::collections::{BTreeMap, BTreeSet};

fn resource(identity: &str, content: &str) -> TemplateResource {
    TemplateResource { identity: identity.to_string(), content: content.to_string() }
}

fn store() -> Vec<TemplateResource> {
    vec![
        resource("common/.gitignore.tera", "node_modules\ndist\n"),
        resource("common/tsconfig.json.tera", "{ \"compilerOptions\": { \"strict\": true } }\n"),
        resource(
            "vanilla-ts/package.json.tera",
            "{\n  \"name\": \"{{ project_name }}\",\n  \"version\": \"0.1.0\"\n}\n",
        ),
        resource("vanilla-ts/src/index.ts.tera", "console.log(\"{{ project_name }}\");\n"),
        resource(
            "react-tsx/package.json.tera",
            "{\n  \"name\": \"{{ project_name }}\",\n  \"dependencies\": { \"react\": \"*\" }\n}\n",
        ),
        resource("react-tsx/src/main.tsx.tera", "import { App } from \"./App\";\n"),
        resource(
            "react-tsx/src/App.tsx.tera",
            "export const App = () => <h1>{{ project_name }}</h1>;\n",
        ),
    ]
}

/// A disk in memory, and a record of what a run asked of its environment.
struct World {
    directories: BTreeSet<String>,
    files: BTreeMap<String, String>,
    templates: Option<Vec<TemplateResource>>,
    /// The answers to the commands that are run, in order; once they are used
    /// up every command succeeds.
    answers: Vec<(bool, bool)>,
    commands: Vec<Command>,
    notices: Vec<Notice>,
    actions: Vec<String>,
}

impl World {
    fn new(templates: Vec<TemplateResource>) -> World {
        World {
            directories: BTreeSet::new(),
            files: BTreeMap::new(),
            templates: Some(templates),
            answers: Vec::new(),
            commands: Vec::new(),
            notices: Vec::new(),
            actions: Vec::new(),
        }
    }

    fn has(&self, path: &str) -> bool {
        self.directories.contains(path) || self.files.contains_key(path)
    }

    fn create_dir_all(&mut self, path: &str) {
        let mut prefix = String::new();
        for (i, segment) in path.split('/').enumerate() {
            if i > 0 {
                prefix.push('/');
            }
            prefix.push_str(segment);
            if !prefix.is_empty() {
                self.directories.insert(prefix.clone());
            }
        }
    }

    fn perform(&mut self, action: Action) -> Option<Event> {
        match action {
            Action::ProbeTarget { path } => {
                self.actions.push(format!("probe {}", path));
                Some(Event::TargetProbed { exists: self.has(&path) })
            }
            Action::CreateDirectories { directories } => {
                for directory in directories {
                    self.actions.push(format!("mkdir {}", directory));
                    self.create_dir_all(&directory);
                }
                Some(Event::DirectoriesCreated)
            }
            Action::LoadTemplates => {
                self.actions.push("load".to_string());
                match self.templates.take() {
                    Some(resources) => Some(Event::TemplatesLoaded { resources }),
                    None => Some(Event::TemplatesMissing),
                }
            }
            Action::Render { .. } => panic!("a step asked for a rendering"),
            Action::WriteFile { parent, path, content } => {
                self.actions.push(format!("write {}", path));
                if self.directories.contains(&path) {
                    return Some(Event::IoFailed { detail: "Is a directory".to_string() });
                }
                self.create_dir_all(&parent);
                self.files.insert(path, content);
                Some(Event::FileWritten)
            }
            Action::RunCommand { command } => {
                self.actions.push(format!("run {} {}", command.program, command.arguments.join(" ")));
                let (launched, succeeded) = if self.commands.len() < self.answers.len() {
                    self.answers[self.commands.len()]
                } else {
                    (true, true)
                };
                self.commands.push(command);
                Some(Event::CommandFinished { launched, succeeded, detail: "stderr".to_string() })
            }
            Action::Finish => None,
        }
    }

    /// Carries a run out from beginning to end.
    fn generate(&mut self, options: ProjectOptions, environment: Environment) -> Materializer {
        let (mut run, first) = Materializer::start(options, environment);
        let mut step: Step = first;
        loop {
            self.notices.extend(step.notices.iter().copied());
            match self.perform(step.action) {
                Some(event) => step = run.step(event),
                None => return run,
            }
        }
    }
}

fn options(name: &str, manager: PackageManager, variant: TemplateType) -> ProjectOptions {
    ProjectOptions { project_name: name.to_string(), package_manager: manager, template_type: variant }
}

fn file_names(world: &World) -> Vec<String> {
    world.files.keys().cloned().collect()
}

#[test]
fn test_project_name_is_rendered_in_package_json() {
    let project_name = "my-awesome-gas-project";
    let root = format!("/tmp/gasbombe-test-{}", project_name);
    let mut world = World::new(store());

    let run = world.generate(
        options(&root, PackageManager::Yarn, TemplateType::VanillaTs),
        Environment::Sandboxed,
    );
    assert!(run.failure().is_none());

    let package_json_path = format!("{}/package.json", root);
    assert!(world.has(&package_json_path));
    let package_json_content = world.files[&package_json_path].clone();

    let expected_name_line = format!("\"name\": \"{}\"", "gasbombe-test-my-awesome-gas-project");
    assert!(
        package_json_content.contains(&expected_name_line),
        "package.json should contain the correct project name. Got: {}",
        package_json_content
    );
}

#[test]
fn test_generate_vanilla_project_creates_files() {
    let root = "/tmp/gasbombe-test-vanilla-project-files";
    let mut world = World::new(store());

    let run = world.generate(
        options(root, PackageManager::Npm, TemplateType::VanillaTs),
        Environment::Sandboxed,
    );
    assert!(run.failure().is_none());

    assert!(world.has(&format!("{}/.gitignore", root)));
    assert!(world.has(&format!("{}/package.json", root)));
    assert!(world.has(&format!("{}/tsconfig.json", root)));
    assert!(!world.has(&format!("{}/src/App.tsx", root)));
}

#[test]
fn test_generate_react_project_creates_files() {
    let root = "/tmp/gasbombe-test-react-project-files";
    let mut world = World::new(store());

    let run = world.generate(
        options(root, PackageManager::Pnpm, TemplateType::ReactTsx),
        Environment::Sandboxed,
    );
    assert!(run.failure().is_none());

    assert!(world.has(&format!("{}/.gitignore", root)));
    assert!(world.has(&format!("{}/package.json", root)));
    assert!(world.has(&format!("{}/tsconfig.json", root)));
    assert!(world.has(&format!("{}/src/main.tsx", root)));
    assert!(world.has(&format!("{}/src/App.tsx", root)));
}

#[test]
fn minimal_variant_in_my_app() {
    let mut world = World::new(store());
    let run = world.generate(
        options("my-app", PackageManager::Npm, TemplateType::VanillaTs),
        Environment::Native,
    );
    assert!(run.failure().is_none());
    assert_eq!(run.phase(), Phase::Complete);
    assert_eq!(
        file_names(&world),
        vec![
            "my-app/.gitignore".to_string(),
            "my-app/package.json".to_string(),
            "my-app/src/index.ts".to_string(),
            "my-app/tsconfig.json".to_string(),
        ]
    );
    assert!(world.files["my-app/package.json"].contains("\"name\": \"my-app\""));
    assert_eq!(world.files["my-app/src/index.ts"], "console.log(\"my-app\");\n");
    assert_eq!(world.files["my-app/.gitignore"], "node_modules\ndist\n");
    assert!(world.directories.contains("my-app"));
    assert!(world.directories.contains("my-app/src"));
}

#[test]
fn component_variant_in_a_nested_target() {
    let mut world = World::new(store());
    let run = world.generate(
        options("nested/dir/my-app", PackageManager::Yarn, TemplateType::ReactTsx),
        Environment::Native,
    );
    assert!(run.failure().is_none());
    assert_eq!(
        file_names(&world),
        vec![
            "nested/dir/my-app/.gitignore".to_string(),
            "nested/dir/my-app/package.json".to_string(),
            "nested/dir/my-app/src/App.tsx".to_string(),
            "nested/dir/my-app/src/main.tsx".to_string(),
            "nested/dir/my-app/tsconfig.json".to_string(),
        ]
    );
    assert_eq!(
        world.files["nested/dir/my-app/src/App.tsx"],
        "export const App = () => <h1>my-app</h1>;\n"
    );
    assert!(world.files["nested/dir/my-app/package.json"].contains("\"name\": \"my-app\""));
    assert!(!world.files["nested/dir/my-app/package.json"].contains("nested"));
}

#[test]
fn every_variant_gets_common_and_its_own_files_only() {
    for (variant, own, other) in [
        (TemplateType::VanillaTs, "src/index.ts", "src/App.tsx"),
        (TemplateType::ReactTsx, "src/App.tsx", "src/index.ts"),
    ] {
        let mut world = World::new(store());
        let run = world.generate(options("app", PackageManager::Npm, variant), Environment::Sandboxed);
        assert!(run.failure().is_none());
        assert!(world.has("app/.gitignore"));
        assert!(world.has("app/tsconfig.json"));
        assert!(world.has("app/package.json"));
        assert!(world.has(&format!("app/{}", own)));
        assert!(!world.has(&format!("app/{}", other)));
        assert_eq!(run.files_written(), run.files_planned());
        assert_eq!(run.files_written(), world.files.len());
    }
}

#[test]
fn the_actions_of_a_native_run_come_in_order() {
    let mut world = World::new(vec![
        resource("common/a.txt.tera", "a"),
        resource("react-tsx/skipped.tera", "no"),
        resource("vanilla-ts/deep/b.txt.tera", "{{ project_name }}"),
    ]);
    let run = world.generate(
        options("out", PackageManager::Pnpm, TemplateType::VanillaTs),
        Environment::Native,
    );
    assert!(run.failure().is_none());
    assert_eq!(run.warning(), None);
    assert_eq!(
        world.actions,
        vec![
            "probe out",
            "mkdir out",
            "mkdir out/src",
            "load",
            "write out/a.txt",
            "write out/deep/b.txt",
            "run pnpm install",
            "run git --version",
            "run git init",
            "run git add .",
            "run git commit -m Initial commit",
        ]
    );
    assert!(world.commands.iter().all(|command| command.directory == "out"));
    assert!(world.directories.contains("out/deep"));
    assert_eq!(world.files["out/deep/b.txt"], "out");
    assert_eq!(
        world.notices,
        vec![
            Notice::StructureCreated,
            Notice::InstallStarting(PackageManager::Pnpm),
            Notice::InstallSucceeded,
            Notice::VcsStarting,
            Notice::VcsInitialized,
        ]
    );
}

#[test]
fn a_sandboxed_run_starts_no_program() {
    let mut world = World::new(store());
    let run = world.generate(
        options("app", PackageManager::Npm, TemplateType::ReactTsx),
        Environment::Sandboxed,
    );
    assert!(run.failure().is_none());
    assert_eq!(run.phase(), Phase::Complete);
    assert!(world.commands.is_empty());
    assert_eq!(world.notices, vec![Notice::StructureCreated, Notice::PostStepsSkipped]);
}

#[test]
fn a_second_run_on_the_same_target_fails_with_target_exists() {
    for (manager, variant) in [
        (PackageManager::Npm, TemplateType::VanillaTs),
        (PackageManager::Yarn, TemplateType::ReactTsx),
        (PackageManager::Pnpm, TemplateType::VanillaTs),
    ] {
        let mut world = World::new(store());
        let first = world.generate(options("twice", manager, variant), Environment::Sandboxed);
        assert!(first.failure().is_none());
        let files_after_first = world.files.clone();

        for (again, variant_again) in [
            (PackageManager::Npm, TemplateType::ReactTsx),
            (PackageManager::Pnpm, TemplateType::VanillaTs),
        ] {
            world.templates = Some(store());
            let second = world.generate(options("twice", again, variant_again), Environment::Native);
            assert_eq!(second.phase(), Phase::Failed);
            assert!(matches!(
                second.failure(),
                Some(GenerateError::TargetExists { path }) if path == "twice"
            ));
            assert_eq!(second.failure().unwrap().message(), "Directory 'twice' already exists.");
            assert_eq!(world.files, files_after_first);
        }
    }
}

#[test]
fn a_template_outside_every_namespace_is_never_written() {
    let mut world = World::new(vec![
        resource("common/keep.txt.tera", "kept"),
        resource("elsewhere/lost.txt.tera", "lost"),
        resource("commonplace/lost.txt.tera", "lost"),
        resource("vanilla-tsx/lost.txt.tera", "lost"),
        resource("lost.txt.tera", "lost"),
        resource("common", "lost"),
        resource("react-tsx/lost.txt.tera", "{{ not_even_parsed"),
    ]);
    let run = world.generate(
        options("app", PackageManager::Npm, TemplateType::VanillaTs),
        Environment::Sandboxed,
    );
    assert!(run.failure().is_none());
    assert_eq!(file_names(&world), vec!["app/keep.txt".to_string()]);
    assert_eq!(run.files_planned(), 1);
}

#[test]
fn a_missing_variable_stops_the_run_and_leaves_earlier_files() {
    let mut world = World::new(vec![
        resource("common/first.txt.tera", "{{ project_name }}"),
        resource("common/second.txt.tera", "{{ author }}"),
        resource("common/third.txt.tera", "never reached"),
    ]);
    let run = world.generate(
        options("app", PackageManager::Npm, TemplateType::VanillaTs),
        Environment::Native,
    );
    assert_eq!(run.phase(), Phase::Failed);
    match run.failure() {
        Some(GenerateError::Render { kind, template, detail }) => {
            assert_eq!(*kind, RenderError::MissingVariable);
            assert_eq!(template, "common/second.txt.tera");
            assert_eq!(detail, "author");
        }
        other => panic!("unexpected outcome: {:?}", other),
    }
    assert_eq!(file_names(&world), vec!["app/first.txt".to_string()]);
    assert_eq!(world.files["app/first.txt"], "app");
    assert_eq!(run.files_written(), 1);
    assert!(world.commands.is_empty());
    assert!(world.notices.is_empty());
}

#[test]
fn a_malformed_template_stops_the_run() {
    let mut world = World::new(vec![resource("vanilla-ts/bad.txt.tera", "{{ project_name")]);
    let run = world.generate(
        options("app", PackageManager::Npm, TemplateType::VanillaTs),
        Environment::Sandboxed,
    );
    match run.failure() {
        Some(GenerateError::Render { kind, template, .. }) => {
            assert_eq!(*kind, RenderError::MalformedTemplate);
            assert_eq!(template, "vanilla-ts/bad.txt.tera");
        }
        other => panic!("unexpected outcome: {:?}", other),
    }
    assert!(world.files.is_empty());
}

#[test]
fn a_template_that_climbs_out_of_the_root_is_rejected() {
    for identity in [
        "common/../escape.txt.tera",
        "common/..\\escape.txt.tera",
        "common/a\\..\\..\\escape.txt.tera",
        "common/\\escape.txt.tera",
        "common/a/../../escape.txt.tera",
        "vanilla-ts/..",
        "common//etc/passwd.tera",
        "common/.tera",
        "common/",
    ] {
        let mut world = World::new(vec![
            resource("common/fine.txt.tera", "fine"),
            resource(identity, "escaped"),
        ]);
        let run = world.generate(
            options("app", PackageManager::Npm, TemplateType::VanillaTs),
            Environment::Sandboxed,
        );
        assert!(
            matches!(
                run.failure(),
                Some(GenerateError::UnsafeTemplatePath { template }) if template == identity
            ),
            "{} was not rejected",
            identity
        );
        assert!(world.files.is_empty());
    }
}

#[test]
fn dots_inside_names_are_not_parent_segments() {
    let mut world = World::new(vec![
        resource("common/..hidden.tera", "a"),
        resource("common/a..b/c...tera", "b"),
        resource("common/.../d.tera", "c"),
    ]);
    let run = world.generate(
        options("app", PackageManager::Npm, TemplateType::VanillaTs),
        Environment::Sandboxed,
    );
    assert!(run.failure().is_none());
    assert_eq!(
        file_names(&world),
        vec!["app/.../d".to_string(), "app/..hidden".to_string(), "app/a..b/c..".to_string()]
    );
}

#[test]
fn an_empty_store_is_no_templates_found() {
    let mut world = World::new(Vec::new());
    let run = world.generate(
        options("app", PackageManager::Npm, TemplateType::VanillaTs),
        Environment::Native,
    );
    assert!(matches!(run.failure(), Some(GenerateError::NoTemplatesFound)));
    assert_eq!(run.failure().unwrap().message(), "No templates found.");
    assert!(world.directories.contains("app/src"));
}

#[test]
fn a_missing_store_is_no_templates_found() {
    let mut world = World::new(Vec::new());
    world.templates = None;
    let run = world.generate(
        options("app", PackageManager::Npm, TemplateType::VanillaTs),
        Environment::Native,
    );
    assert!(matches!(run.failure(), Some(GenerateError::NoTemplatesFound)));
}

#[test]
fn a_store_with_nothing_for_the_variant_writes_nothing() {
    let mut world = World::new(vec![resource("react-tsx/only.txt.tera", "x")]);
    let run = world.generate(
        options("app", PackageManager::Npm, TemplateType::VanillaTs),
        Environment::Sandboxed,
    );
    assert!(run.failure().is_none());
    assert_eq!(run.phase(), Phase::Complete);
    assert!(world.files.is_empty());
}

#[test]
fn an_empty_project_name_fails_before_anything_is_asked() {
    let mut world = World::new(store());
    let run = world.generate(
        options("", PackageManager::Npm, TemplateType::VanillaTs),
        Environment::Native,
    );
    assert!(matches!(run.failure(), Some(GenerateError::EmptyProjectName)));
    assert!(world.actions.is_empty());
}

#[test]
fn a_failed_install_fails_the_run() {
    for answer in [(false, false), (true, false), (false, true)] {
        let mut world = World::new(store());
        world.answers = vec![answer];
        let run = world.generate(
            options("app", PackageManager::Yarn, TemplateType::VanillaTs),
            Environment::Native,
        );
        match run.failure() {
            Some(GenerateError::InstallFailed { command, detail }) => {
                assert_eq!(command, "yarn install");
                assert_eq!(detail, "stderr");
            }
            other => panic!("unexpected outcome: {:?}", other),
        }
        assert_eq!(run.failure().unwrap().message(), "`yarn install` failed.");
        assert_eq!(world.commands.len(), 1);
        assert_eq!(world.files.len(), 4);
    }
}

#[test]
fn version_control_trouble_is_only_a_warning() {
    let cases: Vec<(Vec<(bool, bool)>, VcsWarning, usize)> = vec![
        (vec![(true, true), (false, false)], VcsWarning::ToolMissing, 2),
        (vec![(true, true), (true, true), (true, false)], VcsWarning::InitFailed, 3),
        (vec![(true, true), (true, true), (false, false)], VcsWarning::InitFailed, 3),
        (vec![(true, true), (true, true), (true, true), (true, false)], VcsWarning::StageFailed, 4),
        (
            vec![(true, true), (true, true), (true, true), (true, true), (true, false)],
            VcsWarning::CommitFailed,
            5,
        ),
    ];
    for (answers, warning, commands) in cases {
        let mut world = World::new(store());
        world.answers = answers;
        let run = world.generate(
            options("app", PackageManager::Npm, TemplateType::ReactTsx),
            Environment::Native,
        );
        assert!(run.failure().is_none());
        assert_eq!(run.phase(), Phase::Complete);
        assert_eq!(run.warning(), Some(warning));
        assert_eq!(world.commands.len(), commands);
        assert_eq!(world.notices.last(), Some(&Notice::VcsSkipped(warning)));
    }
}

#[test]
fn a_version_probe_that_runs_but_reports_failure_goes_on() {
    let mut world = World::new(store());
    world.answers = vec![(true, true), (true, false)];
    let run = world.generate(
        options("app", PackageManager::Npm, TemplateType::ReactTsx),
        Environment::Native,
    );
    assert!(run.failure().is_none());
    assert_eq!(run.warning(), None);
    assert_eq!(world.commands.len(), 5);
}

#[test]
fn a_file_that_cannot_be_written_fails_the_run() {
    let mut world = World::new(vec![
        resource("common/src.tera", "the fixed directory is in the way"),
        resource("common/later.txt.tera", "never reached"),
    ]);
    let run = world.generate(
        options("app", PackageManager::Npm, TemplateType::VanillaTs),
        Environment::Native,
    );
    match run.failure() {
        Some(GenerateError::WriteError { path, detail }) => {
            assert_eq!(path, "app/src");
            assert_eq!(detail, "Is a directory");
        }
        other => panic!("unexpected outcome: {:?}", other),
    }
    assert_eq!(
        run.failure().unwrap().message(),
        "Failed to write file: app/src: Is a directory"
    );
    assert!(world.files.is_empty());
}

#[test]
fn a_root_that_ends_in_a_separator_gets_no_second_one() {
    let mut world = World::new(vec![resource("common/a/b.txt.tera", "x")]);
    let run = world.generate(
        options("out/", PackageManager::Npm, TemplateType::VanillaTs),
        Environment::Sandboxed,
    );
    assert!(run.failure().is_none());
    assert_eq!(file_names(&world), vec!["out/a/b.txt".to_string()]);
    assert!(world.actions.contains(&"mkdir out/src".to_string()));
}
