//! What passes between a run and the environment that carries it out.
//!
//! A run never touches the disk or starts a process. It asks for each such
//! thing with an [`Action`], and is told how it went with an [`Event`]. With
//! every action come the [`Notice`]s that the environment is to pass on to
//! whoever watches the run.

use crate::engine::{EngineReport, EngineReportView};
use crate::options::PackageManager;
use crate::resolver::{views, TemplateResource, TemplateResourceView};
use crate::text::followed_by;
use vstd::prelude::*;

verus! {

/// Where a run is carried out.
#[derive(Debug, Clone, Copy, PartialEq, Eq, Structural)]
pub enum Environment {
    /// With full access to the file system and to other programs.
    Native,
    /// Inside a host runtime, which cannot start other programs.
    Sandboxed,
}

impl Environment {
    /// Whether the steps that follow the writing of the files, installing the
    /// dependencies and initializing version control, can be reached.
    pub open spec fn spec_runs_post_steps(self) -> bool {
        self is Native
    }

    /// Whether the steps that follow the writing of the files can be reached.
    pub fn runs_post_steps(&self) -> (reachable: bool)
        ensures
            reachable == self.spec_runs_post_steps(),
    {
        match self {
            Environment::Native => true,
            Environment::Sandboxed => false,
        }
    }
}

/// The steps of initializing version control, in the order they are taken.
#[derive(Debug, Clone, Copy, PartialEq, Eq, Structural)]
pub enum VcsStep {
    /// Asking the tool for its version, to learn whether it is there at all.
    Probe,
    /// Creating the repository.
    Init,
    /// Staging every generated file.
    Stage,
    /// Recording the initial commit.
    Commit,
}

/// Why version control was not fully initialized. None of these fails a run.
#[derive(Debug, Clone, Copy, PartialEq, Eq, Structural)]
pub enum VcsWarning {
    /// The tool could not be started.
    ToolMissing,
    /// The repository could not be created.
    InitFailed,
    /// The files could not be staged.
    StageFailed,
    /// The initial commit could not be recorded.
    CommitFailed,
}

/// Something to tell whoever watches the run.
#[derive(Debug, Clone, Copy, PartialEq, Eq, Structural)]
pub enum Notice {
    /// Every file of the project has been written.
    StructureCreated,
    /// The dependencies are about to be installed with this package manager.
    InstallStarting(PackageManager),
    /// The dependencies have been installed.
    InstallSucceeded,
    /// Version control is about to be initialized.
    VcsStarting,
    /// Version control was not fully initialized; the run goes on.
    VcsSkipped(VcsWarning),
    /// The repository exists and holds its first commit.
    VcsInitialized,
    /// Installing and version control were left out, and are to be done by
    /// hand.
    PostStepsSkipped,
}

impl Notice {
    /// The text of the notice.
    pub open spec fn spec_message(self) -> Seq<char> {
        match self {
            Notice::StructureCreated => "✅ Project structure created."@,
            Notice::InstallStarting(manager) => "\nInstalling dependencies with "@
                + manager.spec_command_name() + "..."@,
            Notice::InstallSucceeded => "✅ Dependencies installed."@,
            Notice::VcsStarting => "\nInitializing Git repository..."@,
            Notice::VcsSkipped(VcsWarning::ToolMissing) => {
                "⚠️  Git is not installed. Skipping repository initialization."@
            },
            Notice::VcsSkipped(VcsWarning::InitFailed) => {
                "⚠️  `git init` failed. Please initialize the repository manually."@
            },
            Notice::VcsSkipped(VcsWarning::StageFailed) => {
                "⚠️  `git add .` failed. Please stage and commit manually."@
            },
            Notice::VcsSkipped(VcsWarning::CommitFailed) => {
                "⚠️  `git commit` failed. Please configure your git user name and email and commit manually."@
            },
            Notice::VcsInitialized => "✅ Git repository initialized and first commit made."@,
            Notice::PostStepsSkipped => {
                "Skipping dependency installation and git initialization in Wasm environment. Please run them manually."@
            },
        }
    }

    /// The text of the notice.
    pub fn message(&self) -> (text: String)
        ensures
            text@ == self.spec_message(),
    {
        match self {
            Notice::StructureCreated => "✅ Project structure created.".to_owned(),
            Notice::InstallStarting(manager) => {
                let mut text = followed_by(
                    "\nInstalling dependencies with ",
                    manager.command_name(),
                );
                text.append("...");
                text
            },
            Notice::InstallSucceeded => "✅ Dependencies installed.".to_owned(),
            Notice::VcsStarting => "\nInitializing Git repository...".to_owned(),
            Notice::VcsSkipped(VcsWarning::ToolMissing) => {
                "⚠️  Git is not installed. Skipping repository initialization.".to_owned()
            },
            Notice::VcsSkipped(VcsWarning::InitFailed) => {
                "⚠️  `git init` failed. Please initialize the repository manually.".to_owned()
            },
            Notice::VcsSkipped(VcsWarning::StageFailed) => {
                "⚠️  `git add .` failed. Please stage and commit manually.".to_owned()
            },
            Notice::VcsSkipped(VcsWarning::CommitFailed) => {
                "⚠️  `git commit` failed. Please configure your git user name and email and commit manually.".to_owned()
            },
            Notice::VcsInitialized => {
                "✅ Git repository initialized and first commit made.".to_owned()
            },
            Notice::PostStepsSkipped => {
                "Skipping dependency installation and git initialization in Wasm environment. Please run them manually.".to_owned()
            },
        }
    }
}

/// A program to run: its name, its arguments, the directory to run it in,
/// and whether what it prints when it succeeds is shown to the watcher.
#[derive(Debug)]
pub struct Command {
    pub program: String,
    pub arguments: Vec<String>,
    pub directory: String,
    pub shows_output: bool,
}

/// The mathematical content of a [`Command`].
pub struct CommandView {
    pub program: Seq<char>,
    pub arguments: Seq<Seq<char>>,
    pub directory: Seq<char>,
    pub shows_output: bool,
}

impl View for Command {
    type V = CommandView;

    open spec fn view(&self) -> CommandView {
        CommandView {
            program: self.program@,
            arguments: views(self.arguments@),
            directory: self.directory@,
            shows_output: self.shows_output,
        }
    }
}

/// The command that installs the dependencies of the project at `root`. What
/// the installer prints is shown.
pub open spec fn spec_install_command(manager: PackageManager, root: Seq<char>) -> CommandView {
    CommandView {
        program: manager.spec_command_name(),
        arguments: seq!["install"@],
        directory: root,
        shows_output: true,
    }
}

/// The words by which a failed installation is named: the package manager
/// and `install`.
pub open spec fn spec_install_text(manager: PackageManager) -> Seq<char> {
    manager.spec_command_name() + " install"@
}

/// The name of the version control tool.
pub open spec fn vcs_program() -> Seq<char> {
    "git"@
}

/// The arguments of one step of initializing version control.
pub open spec fn spec_vcs_arguments(step: VcsStep) -> Seq<Seq<char>> {
    match step {
        VcsStep::Probe => seq!["--version"@],
        VcsStep::Init => seq!["init"@],
        VcsStep::Stage => seq!["add"@, "."@],
        VcsStep::Commit => seq!["commit"@, "-m"@, "Initial commit"@],
    }
}

/// The command of one step of initializing version control in `root`. What
/// the tool prints is not shown.
pub open spec fn spec_vcs_command(step: VcsStep, root: Seq<char>) -> CommandView {
    CommandView {
        program: vcs_program(),
        arguments: spec_vcs_arguments(step),
        directory: root,
        shows_output: false,
    }
}

/// The command that installs the dependencies of the project at `root`.
pub fn install_command(manager: PackageManager, root: &str) -> (command: Command)
    ensures
        command@ == spec_install_command(manager, root@),
{
    let mut arguments: Vec<String> = Vec::new();
    arguments.push("install".to_owned());
    assert(views(arguments@) =~= seq!["install"@]);
    Command {
        program: manager.command_name().to_owned(),
        arguments,
        directory: root.to_owned(),
        shows_output: true,
    }
}

/// The words by which a failed installation is named.
pub fn install_text(manager: PackageManager) -> (text: String)
    ensures
        text@ == spec_install_text(manager),
{
    followed_by(manager.command_name(), " install")
}

/// The command of one step of initializing version control in `root`.
pub fn vcs_command(step: VcsStep, root: &str) -> (command: Command)
    ensures
        command@ == spec_vcs_command(step, root@),
{
    let mut arguments: Vec<String> = Vec::new();
    match step {
        VcsStep::Probe => {
            arguments.push("--version".to_owned());
            assert(views(arguments@) =~= seq!["--version"@]);
        },
        VcsStep::Init => {
            arguments.push("init".to_owned());
            assert(views(arguments@) =~= seq!["init"@]);
        },
        VcsStep::Stage => {
            arguments.push("add".to_owned());
            arguments.push(".".to_owned());
            assert(views(arguments@) =~= seq!["add"@, "."@]);
        },
        VcsStep::Commit => {
            arguments.push("commit".to_owned());
            arguments.push("-m".to_owned());
            arguments.push("Initial commit".to_owned());
            assert(views(arguments@) =~= seq!["commit"@, "-m"@, "Initial commit"@]);
        },
    }
    Command { program: "git".to_owned(), arguments, directory: root.to_owned(), shows_output: false }
}

/// What a run asks its environment to do next.
#[derive(Debug)]
pub enum Action {
    /// Find out whether anything exists at `path`.
    ProbeTarget { path: String },
    /// Create these directories, each with the directories above it.
    CreateDirectories { directories: Vec<String> },
    /// Read every template of the store.
    LoadTemplates,
    /// Hand this template to the rendering engine.
    Render { template: String, source: String },
    /// Make sure the directory `parent` exists, then write `content` to the
    /// file at `path`.
    WriteFile { parent: String, path: String, content: String },
    /// Run this program and wait for it to end.
    RunCommand { command: Command },
    /// Nothing more: the run is over.
    Finish,
}

/// The mathematical content of an [`Action`].
pub enum ActionView {
    ProbeTarget { path: Seq<char> },
    CreateDirectories { directories: Seq<Seq<char>> },
    LoadTemplates,
    Render { template: Seq<char>, source: Seq<char> },
    WriteFile { parent: Seq<char>, path: Seq<char>, content: Seq<char> },
    RunCommand { command: CommandView },
    Finish,
}

impl View for Action {
    type V = ActionView;

    open spec fn view(&self) -> ActionView {
        match self {
            Action::ProbeTarget { path } => ActionView::ProbeTarget { path: path@ },
            Action::CreateDirectories { directories } => ActionView::CreateDirectories {
                directories: views(directories@),
            },
            Action::LoadTemplates => ActionView::LoadTemplates,
            Action::Render { template, source } => ActionView::Render {
                template: template@,
                source: source@,
            },
            Action::WriteFile { parent, path, content } => ActionView::WriteFile {
                parent: parent@,
                path: path@,
                content: content@,
            },
            Action::RunCommand { command } => ActionView::RunCommand { command: command@ },
            Action::Finish => ActionView::Finish,
        }
    }
}

/// What the environment tells a run about the action it asked for.
#[derive(Debug)]
pub enum Event {
    /// Whether something exists at the probed path.
    TargetProbed { exists: bool },
    /// The directories exist now.
    DirectoriesCreated,
    /// The templates of the store.
    TemplatesLoaded { resources: Vec<TemplateResource> },
    /// There is no template store.
    TemplatesMissing,
    /// The rendering engine's answer.
    Rendered { report: EngineReport },
    /// The file has been written.
    FileWritten,
    /// The action met an input or output failure.
    IoFailed { detail: String },
    /// The program has ended: whether it could be started at all, whether it
    /// reported success, and what it printed when it did not.
    CommandFinished { launched: bool, succeeded: bool, detail: String },
}

/// The mathematical content of an [`Event`].
pub enum EventView {
    TargetProbed { exists: bool },
    DirectoriesCreated,
    TemplatesLoaded { resources: Seq<TemplateResourceView> },
    TemplatesMissing,
    Rendered { report: EngineReportView },
    FileWritten,
    IoFailed { detail: Seq<char> },
    CommandFinished { launched: bool, succeeded: bool, detail: Seq<char> },
}

impl View for Event {
    type V = EventView;

    open spec fn view(&self) -> EventView {
        match self {
            Event::TargetProbed { exists } => EventView::TargetProbed { exists: *exists },
            Event::DirectoriesCreated => EventView::DirectoriesCreated,
            Event::TemplatesLoaded { resources } => EventView::TemplatesLoaded {
                resources: views(resources@),
            },
            Event::TemplatesMissing => EventView::TemplatesMissing,
            Event::Rendered { report } => EventView::Rendered { report: report@ },
            Event::FileWritten => EventView::FileWritten,
            Event::IoFailed { detail } => EventView::IoFailed { detail: detail@ },
            Event::CommandFinished { launched, succeeded, detail } => EventView::CommandFinished {
                launched: *launched,
                succeeded: *succeeded,
                detail: detail@,
            },
        }
    }
}

/// One move of a run: what to tell the watcher, and what to do next.
#[derive(Debug)]
pub struct Step {
    pub notices: Vec<Notice>,
    pub action: Action,
}

/// The mathematical content of a [`Step`].
pub struct StepView {
    pub notices: Seq<Notice>,
    pub action: ActionView,
}

impl View for Step {
    type V = StepView;

    open spec fn view(&self) -> StepView {
        StepView { notices: self.notices@, action: self.action@ }
    }
}

} // verus!
