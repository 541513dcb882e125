//! The materializer: the state machine of a generation run.
//!
//! A run passes through its phases in order: the target is checked and its
//! directories are created, the templates are read and resolved, each one is
//! rendered and written, and, in the native environment, the dependencies are
//! installed and version control is initialized. A failure ends the run from
//! whatever phase it is in.
//!
//! The machine decides; it does not act. `Materializer::start` gives the
//! first [`Action`], and each call of `Materializer::step` takes the
//! [`Event`] that answers the last action and gives the next one, until the
//! action is `Finish`.

use crate::engine::{
    check, evaluate, interpret, is_answer_on, spec_check, spec_interpret, spec_project_context,
    EngineReportView, RenderContext,
};
use crate::error::{failure_view, GenerateError, GenerateErrorView};
use crate::options::{ProjectOptions, ProjectOptionsView, TemplateType};
use crate::paths::{join, parent_dir, spec_join, spec_parent};
use crate::protocol::{
    install_command, install_text, spec_install_command, spec_install_text, spec_vcs_command,
    vcs_command, Action, ActionView, Environment, Event, EventView, Notice, Step, StepView,
    VcsStep, VcsWarning,
};
use crate::resolver::{
    any_rejected, first_rejected, is_rejected, is_resolved, law_accepted_outputs_stay_inside,
    lemma_first_rejected_is_unique, resolve_all, spec_mappings, views, OutputMapping,
    OutputMappingView,
};
use vstd::prelude::*;

verus! {

/// The phases of a run.
#[derive(Debug, Clone, Copy, PartialEq, Eq, Structural)]
pub enum Phase {
    /// Nothing has been created yet.
    NotStarted,
    /// The project root and its fixed subdirectories exist.
    DirectoryCreated,
    /// The templates that apply are known; they are being rendered and
    /// written.
    TemplatesEnumerated,
    /// Every file is written; the dependencies are being installed.
    FilesWritten,
    /// The dependencies are installed; version control, which cannot fail the
    /// run any more, is being initialized.
    PostStepsRun,
    /// The run has ended well.
    Complete,
    /// The run has ended with a failure.
    Failed,
}

/// Where exactly a run stands: its phase, and what it is waiting for.
#[derive(Debug, Clone, Copy, PartialEq, Eq, Structural)]
pub enum Stage {
    /// Waiting to learn whether the target exists.
    ProbingTarget,
    /// Waiting for the directories to be created.
    CreatingDirectories,
    /// Waiting for the templates of the store.
    LoadingTemplates,
    /// Waiting for the rendering of the next template.
    Rendering,
    /// Waiting for the next file to be written.
    Writing,
    /// Waiting for the dependency installer.
    Installing,
    /// Waiting for one step of initializing version control.
    Versioning(VcsStep),
    /// The run has ended well.
    Finished,
    /// The run has ended with a failure.
    Failed,
}

impl Stage {
    /// The phase that a stage belongs to.
    pub open spec fn spec_phase(self) -> Phase {
        match self {
            Stage::ProbingTarget => Phase::NotStarted,
            Stage::CreatingDirectories => Phase::NotStarted,
            Stage::LoadingTemplates => Phase::DirectoryCreated,
            Stage::Rendering => Phase::TemplatesEnumerated,
            Stage::Writing => Phase::TemplatesEnumerated,
            Stage::Installing => Phase::FilesWritten,
            Stage::Versioning(_) => Phase::PostStepsRun,
            Stage::Finished => Phase::Complete,
            Stage::Failed => Phase::Failed,
        }
    }

    /// The phase that a stage belongs to.
    pub fn phase(&self) -> (phase: Phase)
        ensures
            phase == self.spec_phase(),
    {
        match self {
            Stage::ProbingTarget => Phase::NotStarted,
            Stage::CreatingDirectories => Phase::NotStarted,
            Stage::LoadingTemplates => Phase::DirectoryCreated,
            Stage::Rendering => Phase::TemplatesEnumerated,
            Stage::Writing => Phase::TemplatesEnumerated,
            Stage::Installing => Phase::FilesWritten,
            Stage::Versioning(_) => Phase::PostStepsRun,
            Stage::Finished => Phase::Complete,
            Stage::Failed => Phase::Failed,
        }
    }

    /// Whether the run is over.
    pub open spec fn is_terminal(self) -> bool {
        self is Finished || self is Failed
    }
}

impl Phase {
    /// The place of a phase in the order of a run that goes well.
    pub open spec fn rank(self) -> nat {
        match self {
            Phase::NotStarted => 0,
            Phase::DirectoryCreated => 1,
            Phase::TemplatesEnumerated => 2,
            Phase::FilesWritten => 3,
            Phase::PostStepsRun => 4,
            Phase::Complete => 5,
            Phase::Failed => 6,
        }
    }
}

/// The name of the fixed subdirectory that every project has.
pub open spec fn source_directory() -> Seq<char> {
    "src"@
}

/// The mathematical content of a [`Materializer`]: the state of a run.
pub struct MaterializerView {
    pub options: ProjectOptionsView,
    pub environment: Environment,
    /// The variables that templates are rendered with.
    pub variables: Map<Seq<char>, Seq<char>>,
    pub stage: Stage,
    /// The templates that apply, each with its output path, in store order.
    pub plan: Seq<OutputMappingView>,
    /// How many files of the plan have been written.
    pub written: nat,
    pub failure: Option<GenerateErrorView>,
    pub warning: Option<VcsWarning>,
}

impl MaterializerView {
    /// The project root: the target path as it was given.
    pub open spec fn root(self) -> Seq<char> {
        self.options.project_name
    }

    /// The selected variant.
    pub open spec fn variant(self) -> TemplateType {
        self.options.template_type
    }

    /// The phase of the run.
    pub open spec fn phase(self) -> Phase {
        self.stage.spec_phase()
    }

    /// The mapping that is being rendered or written.
    pub open spec fn current(self) -> OutputMappingView {
        self.plan[self.written as int]
    }

    /// The path of the file that is being rendered or written.
    pub open spec fn current_path(self) -> Seq<char> {
        spec_join(self.root(), self.current().relative)
    }

    /// The paths of the files written so far, in the order they were written.
    pub open spec fn written_paths(self) -> Seq<Seq<char>> {
        Seq::new(self.written, |k: int| spec_join(self.root(), self.plan[k].relative))
    }

    /// What holds of every state that a run can be in.
    pub open spec fn well_formed(self) -> bool {
        &&& self.variables == spec_project_context(self.options.project_name)
        &&& (self.failure is Some <==> self.stage is Failed)
        &&& (self.stage !is Failed ==> self.root().len() > 0)
        &&& (self.warning is Some ==> self.stage is Finished)
        &&& self.written <= self.plan.len()
        &&& (self.phase().rank() < 2 ==> self.plan.len() == 0)
        &&& (self.phase() is TemplatesEnumerated ==> self.written < self.plan.len())
        &&& (self.stage is Rendering ==> spec_check(
            self.current().template.content,
            self.variables,
        ) is Ok)
        &&& (2 < self.phase().rank() < 6 ==> self.written == self.plan.len())
        &&& (self.phase() is FilesWritten || self.phase() is PostStepsRun
            ==> self.environment is Native)
        &&& forall|k: int|
            0 <= k < self.plan.len() ==> is_resolved(#[trigger] self.plan[k], self.variant())
    }
}

/// A step that tells the watcher nothing.
pub open spec fn quiet(action: ActionView) -> StepView {
    StepView { notices: Seq::empty(), action }
}

/// The run fails with `error`: nothing more is asked of the environment.
pub open spec fn halt(state: MaterializerView, error: GenerateErrorView) -> (
    MaterializerView,
    StepView,
) {
    (
        MaterializerView { stage: Stage::Failed, failure: Some(error), ..state },
        quiet(ActionView::Finish),
    )
}

/// The run ends well, with these notices.
pub open spec fn conclude(
    state: MaterializerView,
    warning: Option<VcsWarning>,
    notices: Seq<Notice>,
) -> (MaterializerView, StepView) {
    (
        MaterializerView { stage: Stage::Finished, warning, ..state },
        StepView { notices, action: ActionView::Finish },
    )
}

/// The state and first step of a run: an empty project name fails at once,
/// any other is probed.
pub open spec fn spec_start(options: ProjectOptionsView, environment: Environment) -> (
    MaterializerView,
    StepView,
) {
    let state = MaterializerView {
        options,
        environment,
        variables: spec_project_context(options.project_name),
        stage: Stage::ProbingTarget,
        plan: Seq::empty(),
        written: 0,
        failure: None,
        warning: None,
    };
    if options.project_name.len() == 0 {
        halt(state, GenerateErrorView::EmptyProjectName)
    } else {
        (state, quiet(ActionView::ProbeTarget { path: options.project_name }))
    }
}

/// What follows once every file of the plan is written: in the native
/// environment the installer is run; in the sandbox the run is over, and the
/// watcher is told what was left out.
pub open spec fn files_written(state: MaterializerView) -> (MaterializerView, StepView) {
    match state.environment {
        Environment::Native => (
            MaterializerView { stage: Stage::Installing, ..state },
            StepView {
                notices: seq![
                    Notice::StructureCreated,
                    Notice::InstallStarting(state.options.package_manager),
                ],
                action: ActionView::RunCommand {
                    command: spec_install_command(state.options.package_manager, state.root()),
                },
            },
        ),
        Environment::Sandboxed => conclude(
            state,
            None,
            seq![Notice::StructureCreated, Notice::PostStepsSkipped],
        ),
    }
}

/// What follows once `state.written` files are written: the next template of
/// the plan is tested against the variables of the run, and handed to the
/// engine where it passes; a text that is not a template, or a template with
/// a variable that the run does not bind, fails the run there. With no
/// template left, the files are all written.
pub open spec fn next_file(state: MaterializerView) -> (MaterializerView, StepView) {
    if state.written < state.plan.len() {
        match spec_check(state.current().template.content, state.variables) {
            Ok(()) => (
                MaterializerView { stage: Stage::Rendering, ..state },
                quiet(
                    ActionView::Render {
                        template: state.current().template.identity,
                        source: state.current().template.content,
                    },
                ),
            ),
            Err(failure) => halt(
                state,
                GenerateErrorView::Render {
                    kind: failure.kind,
                    template: state.current().template.identity,
                    detail: failure.detail,
                },
            ),
        }
    } else {
        files_written(state)
    }
}

/// What follows the end of one step of initializing version control. Only a
/// tool that cannot be started stops the probe; every later step must also
/// report success. A step that fails ends the run well, with a warning.
pub open spec fn after_vcs(
    state: MaterializerView,
    step: VcsStep,
    launched: bool,
    succeeded: bool,
) -> (MaterializerView, StepView) {
    match step {
        VcsStep::Probe => if launched {
            vcs_goes_on(state, VcsStep::Init)
        } else {
            vcs_gives_up(state, VcsWarning::ToolMissing)
        },
        VcsStep::Init => if launched && succeeded {
            vcs_goes_on(state, VcsStep::Stage)
        } else {
            vcs_gives_up(state, VcsWarning::InitFailed)
        },
        VcsStep::Stage => if launched && succeeded {
            vcs_goes_on(state, VcsStep::Commit)
        } else {
            vcs_gives_up(state, VcsWarning::StageFailed)
        },
        VcsStep::Commit => if launched && succeeded {
            conclude(state, None, seq![Notice::VcsInitialized])
        } else {
            vcs_gives_up(state, VcsWarning::CommitFailed)
        },
    }
}

/// The next step of initializing version control is taken.
pub open spec fn vcs_goes_on(state: MaterializerView, step: VcsStep) -> (
    MaterializerView,
    StepView,
) {
    (
        MaterializerView { stage: Stage::Versioning(step), ..state },
        quiet(ActionView::RunCommand { command: spec_vcs_command(step, state.root()) }),
    )
}

/// Version control is given up; the run ends well all the same.
pub open spec fn vcs_gives_up(state: MaterializerView, warning: VcsWarning) -> (
    MaterializerView,
    StepView,
) {
    conclude(state, Some(warning), seq![Notice::VcsSkipped(warning)])
}

/// The transition function of a run: the state and step that follow `state`
/// when `event` arrives. An event that the stage is not waiting for fails the
/// run. A run that is over stays as it is.
pub open spec fn spec_advance(state: MaterializerView, event: EventView) -> (
    MaterializerView,
    StepView,
) {
    match state.stage {
        Stage::Finished | Stage::Failed => (state, quiet(ActionView::Finish)),
        Stage::ProbingTarget => match event {
            EventView::TargetProbed { exists } => if exists {
                halt(state, GenerateErrorView::TargetExists { path: state.root() })
            } else {
                (
                    MaterializerView { stage: Stage::CreatingDirectories, ..state },
                    quiet(
                        ActionView::CreateDirectories {
                            directories: seq![
                                state.root(),
                                spec_join(state.root(), source_directory()),
                            ],
                        },
                    ),
                )
            },
            _ => halt(state, GenerateErrorView::UnexpectedEvent),
        },
        Stage::CreatingDirectories => match event {
            EventView::DirectoriesCreated => (
                MaterializerView { stage: Stage::LoadingTemplates, ..state },
                quiet(ActionView::LoadTemplates),
            ),
            EventView::IoFailed { detail } => halt(
                state,
                GenerateErrorView::WriteError { path: state.root(), detail },
            ),
            _ => halt(state, GenerateErrorView::UnexpectedEvent),
        },
        Stage::LoadingTemplates => match event {
            EventView::TemplatesLoaded { resources } => if resources.len() == 0 {
                halt(state, GenerateErrorView::NoTemplatesFound)
            } else if any_rejected(resources, state.variant()) {
                halt(
                    state,
                    GenerateErrorView::UnsafeTemplatePath {
                        template: resources[first_rejected(resources, state.variant())].identity,
                    },
                )
            } else {
                next_file(
                    MaterializerView {
                        plan: spec_mappings(resources, state.variant()),
                        written: 0,
                        ..state
                    },
                )
            },
            EventView::TemplatesMissing => halt(state, GenerateErrorView::NoTemplatesFound),
            EventView::IoFailed { detail } => halt(
                state,
                GenerateErrorView::TemplateStoreUnavailable { detail },
            ),
            _ => halt(state, GenerateErrorView::UnexpectedEvent),
        },
        Stage::Rendering => match event {
            EventView::Rendered { report } => match spec_interpret(report) {
                Ok(content) => (
                    MaterializerView { stage: Stage::Writing, ..state },
                    quiet(
                        ActionView::WriteFile {
                            parent: spec_parent(state.current_path()),
                            path: state.current_path(),
                            content,
                        },
                    ),
                ),
                Err(failure) => halt(
                    state,
                    GenerateErrorView::Render {
                        kind: failure.kind,
                        template: state.current().template.identity,
                        detail: failure.detail,
                    },
                ),
            },
            _ => halt(state, GenerateErrorView::UnexpectedEvent),
        },
        Stage::Writing => match event {
            EventView::FileWritten => next_file(
                MaterializerView { written: state.written + 1, ..state },
            ),
            EventView::IoFailed { detail } => halt(
                state,
                GenerateErrorView::WriteError { path: state.current_path(), detail },
            ),
            _ => halt(state, GenerateErrorView::UnexpectedEvent),
        },
        Stage::Installing => match event {
            EventView::CommandFinished { launched, succeeded, detail } => if launched
                && succeeded {
                (
                    MaterializerView { stage: Stage::Versioning(VcsStep::Probe), ..state },
                    StepView {
                        notices: seq![Notice::InstallSucceeded, Notice::VcsStarting],
                        action: ActionView::RunCommand {
                            command: spec_vcs_command(VcsStep::Probe, state.root()),
                        },
                    },
                )
            } else {
                halt(
                    state,
                    GenerateErrorView::InstallFailed {
                        command: spec_install_text(state.options.package_manager),
                        detail,
                    },
                )
            },
            _ => halt(state, GenerateErrorView::UnexpectedEvent),
        },
        Stage::Versioning(step) => match event {
            EventView::CommandFinished { launched, succeeded, detail } => after_vcs(
                state,
                step,
                launched,
                succeeded,
            ),
            _ => halt(state, GenerateErrorView::UnexpectedEvent),
        },
    }
}

/// One move of a run as its environment sees it: the event is taken in, and
/// where the next thing to do is to render a template, the engine's `report`
/// on that template is taken in as well.
pub open spec fn spec_step(state: MaterializerView, event: EventView, report: EngineReportView) -> (
    MaterializerView,
    StepView,
) {
    let first = spec_advance(state, event);
    if first.1.action is Render {
        spec_advance(first.0, EventView::Rendered { report })
    } else {
        first
    }
}

/// `report` is an answer that the engine can give to what `asked` asks of it
/// in a run with `variables`: where `asked` is the rendering of a template,
/// an answer on that template with those variables.
pub open spec fn answers(
    asked: ActionView,
    variables: Map<Seq<char>, Seq<char>>,
    report: EngineReportView,
) -> bool {
    asked matches ActionView::Render { template, source } ==> is_answer_on(
        report,
        source,
        variables,
    )
}

/// A generation run: its options, its environment, and how far it has come.
pub struct Materializer {
    options: ProjectOptions,
    environment: Environment,
    context: RenderContext,
    stage: Stage,
    plan: Vec<OutputMapping>,
    written: usize,
    failure: Option<GenerateError>,
    warning: Option<VcsWarning>,
}

impl View for Materializer {
    type V = MaterializerView;

    closed spec fn view(&self) -> MaterializerView {
        MaterializerView {
            options: self.options@,
            environment: self.environment,
            variables: self.context@,
            stage: self.stage,
            plan: views(self.plan@),
            written: self.written as nat,
            failure: failure_view(self.failure),
            warning: self.warning,
        }
    }
}

/// A step that tells the watcher nothing.
fn quiet_step(action: Action) -> (step: Step)
    ensures
        step@ == quiet(action@),
{
    Step { notices: Vec::new(), action }
}

impl Materializer {
    /// Begins a run: gives its first state and the first thing to do.
    pub fn start(options: ProjectOptions, environment: Environment) -> (begun: (Materializer, Step))
        ensures
            begun.0@.well_formed(),
            (begun.0@, begun.1@) == spec_start(options@, environment),
    {
        let context = RenderContext::for_project(options.project_name.as_str());
        let path = options.project_name.clone();
        let unnamed = options.project_name.as_str().is_empty();
        let mut run = Materializer {
            options,
            environment,
            context,
            stage: Stage::ProbingTarget,
            plan: Vec::new(),
            written: 0,
            failure: None,
            warning: None,
        };
        assert(views(run.plan@) =~= Seq::empty());
        if unnamed {
            let step = run.fail(GenerateError::EmptyProjectName);
            (run, step)
        } else {
            (run, quiet_step(Action::ProbeTarget { path }))
        }
    }

    /// The phase of the run.
    pub fn phase(&self) -> (phase: Phase)
        ensures
            phase == self@.phase(),
    {
        self.stage.phase()
    }

    /// Where exactly the run stands.
    pub fn stage(&self) -> (stage: Stage)
        ensures
            stage == self@.stage,
    {
        self.stage
    }

    /// Whether the run is over.
    pub fn is_over(&self) -> (over: bool)
        ensures
            over == self@.stage.is_terminal(),
    {
        match self.stage {
            Stage::Finished => true,
            Stage::Failed => true,
            _ => false,
        }
    }

    /// The failure that ended the run, if one did.
    pub fn failure(&self) -> (failure: Option<&GenerateError>)
        ensures
            failure is Some == self@.failure is Some,
            failure matches Some(error) ==> self@.failure == Some(error@),
    {
        self.failure.as_ref()
    }

    /// The warning that the run ended with, if it ended with one.
    pub fn warning(&self) -> (warning: Option<VcsWarning>)
        ensures
            warning == self@.warning,
    {
        self.warning
    }

    /// The variables that the run renders its templates with.
    pub fn context(&self) -> (context: &RenderContext)
        ensures
            context@ == self@.variables,
    {
        &self.context
    }

    /// The environment that the run is carried out in.
    pub fn environment(&self) -> (environment: Environment)
        ensures
            environment == self@.environment,
    {
        self.environment
    }

    /// How many files the run has written.
    pub fn files_written(&self) -> (count: usize)
        ensures
            count == self@.written,
    {
        self.written
    }

    /// How many files the run is to write in all; 0 until the templates are
    /// resolved.
    pub fn files_planned(&self) -> (count: usize)
        ensures
            count == self@.plan.len(),
    {
        self.plan.len()
    }

    /// The run fails with `error`.
    fn fail(&mut self, error: GenerateError) -> (step: Step)
        ensures
            (final(self)@, step@) == halt(old(self)@, error@),
    {
        self.stage = Stage::Failed;
        self.failure = Some(error);
        quiet_step(Action::Finish)
    }

    /// The run ends well.
    fn finish(&mut self, warning: Option<VcsWarning>, notices: Vec<Notice>) -> (step: Step)
        ensures
            (final(self)@, step@) == conclude(old(self)@, warning, notices@),
    {
        self.stage = Stage::Finished;
        self.warning = warning;
        Step { notices, action: Action::Finish }
    }

    /// Every file is written: on to the installer, or to the end.
    fn after_files(&mut self) -> (step: Step)
        ensures
            (final(self)@, step@) == files_written(old(self)@),
    {
        let mut notices: Vec<Notice> = Vec::new();
        notices.push(Notice::StructureCreated);
        match self.environment {
            Environment::Native => {
                notices.push(Notice::InstallStarting(self.options.package_manager));
                assert(notices@ =~= seq![
                    Notice::StructureCreated,
                    Notice::InstallStarting(self.options.package_manager),
                ]);
                self.stage = Stage::Installing;
                let command = install_command(
                    self.options.package_manager,
                    self.options.project_name.as_str(),
                );
                Step { notices, action: Action::RunCommand { command } }
            },
            Environment::Sandboxed => {
                notices.push(Notice::PostStepsSkipped);
                assert(notices@ =~= seq![Notice::StructureCreated, Notice::PostStepsSkipped]);
                self.finish(None, notices)
            },
        }
    }

    /// On to the next template of the plan, or past the last one.
    fn begin_next_file(&mut self) -> (step: Step)
        ensures
            (final(self)@, step@) == next_file(old(self)@),
    {
        if self.written < self.plan.len() {
            let mapping = &self.plan[self.written];
            let template = mapping.template.identity.clone();
            let source = mapping.template.content.clone();
            match check(source.as_str(), &self.context) {
                Ok(()) => {
                    self.stage = Stage::Rendering;
                    quiet_step(Action::Render { template, source })
                },
                Err(failure) => self.fail(
                    GenerateError::Render { kind: failure.kind, template, detail: failure.detail },
                ),
            }
        } else {
            self.after_files()
        }
    }

    /// On to the next step of initializing version control.
    fn vcs_continue(&mut self, next: VcsStep) -> (step: Step)
        ensures
            (final(self)@, step@) == vcs_goes_on(old(self)@, next),
    {
        self.stage = Stage::Versioning(next);
        let command = vcs_command(next, self.options.project_name.as_str());
        quiet_step(Action::RunCommand { command })
    }

    /// Version control is given up; the run ends well all the same.
    fn vcs_abandon(&mut self, warning: VcsWarning) -> (step: Step)
        ensures
            (final(self)@, step@) == vcs_gives_up(old(self)@, warning),
    {
        let mut notices: Vec<Notice> = Vec::new();
        notices.push(Notice::VcsSkipped(warning));
        assert(notices@ =~= seq![Notice::VcsSkipped(warning)]);
        self.finish(Some(warning), notices)
    }

    /// Takes in the end of one step of initializing version control.
    fn vcs_finished(&mut self, done: VcsStep, launched: bool, succeeded: bool) -> (step: Step)
        ensures
            (final(self)@, step@) == after_vcs(old(self)@, done, launched, succeeded),
    {
        match done {
            VcsStep::Probe => if launched {
                self.vcs_continue(VcsStep::Init)
            } else {
                self.vcs_abandon(VcsWarning::ToolMissing)
            },
            VcsStep::Init => if launched && succeeded {
                self.vcs_continue(VcsStep::Stage)
            } else {
                self.vcs_abandon(VcsWarning::InitFailed)
            },
            VcsStep::Stage => if launched && succeeded {
                self.vcs_continue(VcsStep::Commit)
            } else {
                self.vcs_abandon(VcsWarning::StageFailed)
            },
            VcsStep::Commit => if launched && succeeded {
                let mut notices: Vec<Notice> = Vec::new();
                notices.push(Notice::VcsInitialized);
                assert(notices@ =~= seq![Notice::VcsInitialized]);
                self.finish(None, notices)
            } else {
                self.vcs_abandon(VcsWarning::CommitFailed)
            },
        }
    }

    /// Takes in the answer to the probe of the target.
    fn target_probed(&mut self, event: Event) -> (step: Step)
        requires
            old(self)@.stage is ProbingTarget,
        ensures
            (final(self)@, step@) == spec_advance(old(self)@, event@),
    {
        match event {
            Event::TargetProbed { exists } => {
                let root = self.options.project_name.clone();
                if exists {
                    self.fail(GenerateError::TargetExists { path: root })
                } else {
                    self.stage = Stage::CreatingDirectories;
                    let sources = join(root.as_str(), "src");
                    let mut directories: Vec<String> = Vec::new();
                    directories.push(root);
                    directories.push(sources);
                    assert(views(directories@) =~= seq![
                        old(self)@.root(),
                        spec_join(old(self)@.root(), source_directory()),
                    ]);
                    quiet_step(Action::CreateDirectories { directories })
                }
            },
            _ => self.fail(GenerateError::UnexpectedEvent),
        }
    }

    /// Takes in the answer to the creation of the directories.
    fn directories_answered(&mut self, event: Event) -> (step: Step)
        requires
            old(self)@.stage is CreatingDirectories,
        ensures
            (final(self)@, step@) == spec_advance(old(self)@, event@),
    {
        match event {
            Event::DirectoriesCreated => {
                self.stage = Stage::LoadingTemplates;
                quiet_step(Action::LoadTemplates)
            },
            Event::IoFailed { detail } => {
                let path = self.options.project_name.clone();
                self.fail(GenerateError::WriteError { path, detail })
            },
            _ => self.fail(GenerateError::UnexpectedEvent),
        }
    }

    /// Takes in the templates of the store, or the lack of them.
    fn templates_answered(&mut self, event: Event) -> (step: Step)
        requires
            old(self)@.stage is LoadingTemplates,
            old(self)@.well_formed(),
        ensures
            (final(self)@, step@) == spec_advance(old(self)@, event@),
            final(self)@.well_formed(),
    {
        match event {
            Event::TemplatesLoaded { resources } => {
                let ghost store = views(resources@);
                let variant = self.options.template_type;
                if resources.len() == 0 {
                    return self.fail(GenerateError::NoTemplatesFound);
                }
                match resolve_all(&resources, variant) {
                    Err(index) => {
                        proof {
                            lemma_first_rejected_is_unique(store, variant, index as int);
                        }
                        let template = resources[index].identity.clone();
                        self.fail(GenerateError::UnsafeTemplatePath { template })
                    },
                    Ok(mappings) => {
                        proof {
                            assert forall|i: int| 0 <= i < store.len() implies !is_rejected(
                                #[trigger] store[i],
                                variant,
                            ) by {
                                assert(store[i] == resources[i]@);
                            }
                            law_accepted_outputs_stay_inside(store, variant);
                        }
                        self.plan = mappings;
                        self.written = 0;
                        self.begin_next_file()
                    },
                }
            },
            Event::TemplatesMissing => self.fail(GenerateError::NoTemplatesFound),
            Event::IoFailed { detail } => self.fail(
                GenerateError::TemplateStoreUnavailable { detail },
            ),
            _ => self.fail(GenerateError::UnexpectedEvent),
        }
    }

    /// Takes in the engine's answer on the current template.
    fn rendering_answered(&mut self, event: Event) -> (step: Step)
        requires
            old(self)@.stage is Rendering,
            old(self)@.written < old(self)@.plan.len(),
        ensures
            (final(self)@, step@) == spec_advance(old(self)@, event@),
    {
        match event {
            Event::Rendered { report } => match interpret(report) {
                Ok(content) => {
                    self.stage = Stage::Writing;
                    let path = join(
                        self.options.project_name.as_str(),
                        self.plan[self.written].relative.as_str(),
                    );
                    let parent = parent_dir(path.as_str());
                    quiet_step(Action::WriteFile { parent, path, content })
                },
                Err(failure) => {
                    let template = self.plan[self.written].template.identity.clone();
                    self.fail(
                        GenerateError::Render {
                            kind: failure.kind,
                            template,
                            detail: failure.detail,
                        },
                    )
                },
            },
            _ => self.fail(GenerateError::UnexpectedEvent),
        }
    }

    /// Takes in the answer to the writing of the current file.
    fn writing_answered(&mut self, event: Event) -> (step: Step)
        requires
            old(self)@.stage is Writing,
            old(self)@.written < old(self)@.plan.len(),
        ensures
            (final(self)@, step@) == spec_advance(old(self)@, event@),
    {
        match event {
            Event::FileWritten => {
                assert(self.written < self.plan.len());
                self.written = self.written + 1;
                self.begin_next_file()
            },
            Event::IoFailed { detail } => {
                let path = join(
                    self.options.project_name.as_str(),
                    self.plan[self.written].relative.as_str(),
                );
                self.fail(GenerateError::WriteError { path, detail })
            },
            _ => self.fail(GenerateError::UnexpectedEvent),
        }
    }

    /// Takes in the end of the dependency installer.
    fn install_answered(&mut self, event: Event) -> (step: Step)
        requires
            old(self)@.stage is Installing,
        ensures
            (final(self)@, step@) == spec_advance(old(self)@, event@),
    {
        match event {
            Event::CommandFinished { launched, succeeded, detail } => {
                if launched && succeeded {
                    let mut notices: Vec<Notice> = Vec::new();
                    notices.push(Notice::InstallSucceeded);
                    notices.push(Notice::VcsStarting);
                    assert(notices@ =~= seq![Notice::InstallSucceeded, Notice::VcsStarting]);
                    self.stage = Stage::Versioning(VcsStep::Probe);
                    let command = vcs_command(VcsStep::Probe, self.options.project_name.as_str());
                    Step { notices, action: Action::RunCommand { command } }
                } else {
                    let command = install_text(self.options.package_manager);
                    self.fail(GenerateError::InstallFailed { command, detail })
                }
            },
            _ => self.fail(GenerateError::UnexpectedEvent),
        }
    }

    /// Takes in the end of one step of initializing version control.
    fn versioning_answered(&mut self, done: VcsStep, event: Event) -> (step: Step)
        requires
            old(self)@.stage == Stage::Versioning(done),
        ensures
            (final(self)@, step@) == spec_advance(old(self)@, event@),
    {
        match event {
            Event::CommandFinished { launched, succeeded, detail } => self.vcs_finished(
                done,
                launched,
                succeeded,
            ),
            _ => self.fail(GenerateError::UnexpectedEvent),
        }
    }

    /// The transition of the run on `event`, the answer to the action that it
    /// asked for last.
    ///
    /// Where the next thing to do is to render a template, the action is
    /// `Render`, and the run then waits for `Event::Rendered`. [`Self::step`]
    /// puts the question to the engine itself.
    pub fn advance(&mut self, event: Event) -> (step: Step)
        requires
            old(self)@.well_formed(),
        ensures
            final(self)@.well_formed(),
            (final(self)@, step@) == spec_advance(old(self)@, event@),
    {
        match self.stage {
            Stage::Finished => quiet_step(Action::Finish),
            Stage::Failed => quiet_step(Action::Finish),
            Stage::ProbingTarget => self.target_probed(event),
            Stage::CreatingDirectories => self.directories_answered(event),
            Stage::LoadingTemplates => self.templates_answered(event),
            Stage::Rendering => self.rendering_answered(event),
            Stage::Writing => self.writing_answered(event),
            Stage::Installing => self.install_answered(event),
            Stage::Versioning(done) => self.versioning_answered(done, event),
        }
    }

    /// One move of the run: takes in `event`, the answer to the action that
    /// the run asked for last, and gives the next action, which is never
    /// `Render`: a template that is due is handed to the engine here, with
    /// the variables of the run, and the engine's answer is taken in as
    /// [`Self::advance`] takes in `Event::Rendered`. Where the engine renders
    /// the template, the text that the run asks to be written is the template
    /// with each variable replaced by the value that the run binds it to.
    pub fn step(&mut self, event: Event) -> (step: Step)
        requires
            old(self)@.well_formed(),
        ensures
            final(self)@.well_formed(),
            step@.action !is Render,
            exists|report: EngineReportView|
                answers(spec_advance(old(self)@, event@).1.action, old(self)@.variables, report)
                    && (final(self)@, step@) == spec_step(old(self)@, event@, report),
    {
        let Step { notices, action } = self.advance(event);
        match action {
            Action::Render { template, source } => {
                let report = evaluate(source.as_str(), &self.context);
                let ghost answer = report@;
                let step = self.advance(Event::Rendered { report });
                assert(answers(
                    spec_advance(old(self)@, event@).1.action,
                    old(self)@.variables,
                    answer,
                ) && (self@, step@) == spec_step(old(self)@, event@, answer));
                step
            },
            other => {
                let step = Step { notices, action: other };
                let ghost none: EngineReportView = arbitrary();
                assert(answers(
                    spec_advance(old(self)@, event@).1.action,
                    old(self)@.variables,
                    none,
                ) && (self@, step@) == spec_step(old(self)@, event@, none));
                step
            },
        }
    }
}

} // verus!
