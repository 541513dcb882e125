//! Laws of a run: what holds of every state that a run can be in and of
//! every event that can reach it.
//!
//! The laws speak of `spec_start`, `spec_advance` and `spec_step`, the
//! functions by which `Materializer::start`, `Materializer::advance` and
//! `Materializer::step` state what they do.

use crate::engine::{
    lemma_check_passes, project_name_variable, spec_check, spec_interpret, EngineReportView,
    RenderError, RenderFailureView,
};
use crate::error::GenerateErrorView;
use crate::materializer::{
    answers, spec_advance, spec_start, spec_step, MaterializerView, Stage,
};
use crate::options::ProjectOptionsView;
use crate::paths::{spec_display_name, spec_join, spec_parent};
use crate::protocol::{
    spec_install_text, ActionView, Environment, EventView, Notice, StepView, VcsStep,
};
use crate::resolver::{
    any_rejected, applies, is_resolved, law_accepted_outputs_stay_inside,
    law_mappings_are_the_applicable_templates, mapping_of, spec_mappings, OutputMappingView,
    TemplateResourceView,
};
use crate::template::{
    is_plain_template, lemma_substituted_holds_value, substituted, variables_of,
};
use crate::text::occurs_in;
use vstd::prelude::*;

verus! {

/// The paths that exist once an action has been carried out and did not
/// exist before.
pub open spec fn created_by(action: ActionView) -> Set<Seq<char>> {
    match action {
        ActionView::CreateDirectories { directories } => directories.to_set(),
        ActionView::WriteFile { parent, path, content } => set![parent, path],
        _ => Set::empty(),
    }
}

/// A run begins in a state that a run can be in.
pub proof fn law_start_is_well_formed(options: ProjectOptionsView, environment: Environment)
    ensures
        spec_start(options, environment).0.well_formed(),
{
}

/// Every event leaves a run in a state that a run can be in.
pub proof fn law_advance_keeps_well_formed(state: MaterializerView, event: EventView)
    requires
        state.well_formed(),
    ensures
        spec_advance(state, event).0.well_formed(),
{
    if state.stage is LoadingTemplates {
        if let EventView::TemplatesLoaded { resources } = event {
            if !any_rejected(resources, state.variant()) {
                law_accepted_outputs_stay_inside(resources, state.variant());
            }
        }
    }
}

/// A run never goes back: no event takes it to an earlier phase, nothing
/// changes its options, its environment or its variables, and once the
/// templates are resolved the plan stays as it is and the count of written
/// files only grows. A run that is over stays exactly as it is and asks for
/// nothing more.
pub proof fn law_run_never_goes_back(state: MaterializerView, event: EventView)
    requires
        state.well_formed(),
    ensures
        state.phase().rank() <= spec_advance(state, event).0.phase().rank(),
        spec_advance(state, event).0.options == state.options,
        spec_advance(state, event).0.environment == state.environment,
        spec_advance(state, event).0.variables == state.variables,
        state.phase().rank() >= 2 ==> spec_advance(state, event).0.plan == state.plan,
        state.written <= spec_advance(state, event).0.written || state.phase().rank() < 2,
        state.stage.is_terminal() ==> spec_advance(state, event) == (
            state,
            StepView { notices: Seq::empty(), action: ActionView::Finish },
        ),
{
}

/// A target that exists is refused, whatever the options and the
/// environment: the run fails with `TargetExists` and asks for nothing to be
/// created.
pub proof fn law_existing_target_is_refused(options: ProjectOptionsView, environment: Environment)
    requires
        options.project_name.len() > 0,
    ensures
        ({
            let begun = spec_start(options, environment);
            let refused = spec_advance(begun.0, EventView::TargetProbed { exists: true });
            &&& begun.1.action == ActionView::ProbeTarget { path: options.project_name }
            &&& refused.0.stage is Failed
            &&& refused.0.failure == Some(
                GenerateErrorView::TargetExists { path: options.project_name },
            )
            &&& refused.1.action is Finish
            &&& created_by(refused.1.action) == Set::<Seq<char>>::empty()
        }),
{
}

/// A second run on the target of a first one fails with `TargetExists`,
/// whatever the variant, the package manager and the environment of either
/// run: the first thing that a run on a free target asks for is the creation
/// of the target itself, so the second run finds it.
pub proof fn law_second_run_is_refused(
    first: ProjectOptionsView,
    first_environment: Environment,
    second: ProjectOptionsView,
    second_environment: Environment,
)
    requires
        first.project_name.len() > 0,
        second.project_name == first.project_name,
    ensures
        ({
            let first_run = spec_advance(
                spec_start(first, first_environment).0,
                EventView::TargetProbed { exists: false },
            );
            let exists_now = created_by(first_run.1.action).contains(second.project_name);
            let second_run = spec_advance(
                spec_start(second, second_environment).0,
                EventView::TargetProbed { exists: exists_now },
            );
            &&& exists_now
            &&& second_run.0.stage is Failed
            &&& second_run.0.failure == Some(
                GenerateErrorView::TargetExists { path: second.project_name },
            )
            &&& second_run.1.action is Finish
        }),
{
    let first_run = spec_advance(
        spec_start(first, first_environment).0,
        EventView::TargetProbed { exists: false },
    );
    let directories = first_run.1.action->CreateDirectories_directories;
    assert(directories[0] == first.project_name);
    assert(directories.contains(first.project_name));
}

/// The plan of a run is what the resolver makes of the store: once the
/// templates are taken in without a rejection, the plan holds one mapping
/// for each template of the store that lies in `common` or in the namespace
/// of the selected variant, in the order of the store, and no mapping for
/// any other template.
pub proof fn law_plan_is_the_applicable_templates(
    state: MaterializerView,
    resources: Seq<TemplateResourceView>,
)
    requires
        state.well_formed(),
        state.stage is LoadingTemplates,
        resources.len() > 0,
        !any_rejected(resources, state.variant()),
    ensures
        ({
            let loaded = spec_advance(state, EventView::TemplatesLoaded { resources }).0;
            &&& loaded.plan == spec_mappings(resources, state.variant())
            &&& forall|i: int|
                0 <= i < resources.len() && applies(resources[i], state.variant())
                    ==> loaded.plan.contains(mapping_of(#[trigger] resources[i], state.variant()))
            &&& forall|i: int, k: int|
                0 <= i < resources.len() && !applies(resources[i], state.variant()) && 0 <= k
                    < loaded.plan.len() ==> (#[trigger] loaded.plan[k]).template.identity
                    != (#[trigger] resources[i]).identity
            &&& forall|k: int|
                0 <= k < loaded.plan.len() ==> resources.contains(
                    (#[trigger] loaded.plan[k]).template,
                )
        }),
{
    law_mappings_are_the_applicable_templates(resources, state.variant());
}

/// Nothing is written but what the plan holds: whenever a run asks for a file
/// to be written, the file is the output of the current mapping of the plan,
/// which comes from a template that applies to the variant, lies under the
/// project root at that template's output path, and has the directory above
/// it named as the one to create.
pub proof fn law_only_planned_files_are_written(state: MaterializerView, event: EventView)
    requires
        state.well_formed(),
    ensures
        spec_advance(state, event).1.action matches ActionView::WriteFile {
            parent,
            path,
            content,
        } ==> {
            &&& state.stage is Rendering
            &&& is_resolved(state.current(), state.variant())
            &&& path == spec_join(state.root(), state.current().relative)
            &&& parent == spec_parent(path)
            &&& event matches EventView::Rendered { report }
            &&& spec_interpret(report) == Ok::<Seq<char>, RenderFailureView>(
                content,
            )
        },
{
}

/// A template is handed to the engine only in its turn: whenever a run asks
/// for a rendering, it is that of the first mapping of the plan that is not
/// yet written, with the text that the store holds for it.
pub proof fn law_rendering_follows_the_plan(state: MaterializerView, event: EventView)
    requires
        state.well_formed(),
    ensures
        spec_advance(state, event).1.action matches ActionView::Render { template, source } ==> {
            let next = spec_advance(state, event).0;
            &&& next.stage is Rendering
            &&& next.written < next.plan.len()
            &&& template == next.current().template.identity
            &&& source == next.current().template.content
            &&& is_resolved(next.current(), next.variant())
        },
{
    law_advance_keeps_well_formed(state, event);
}

/// A template that the engine refuses ends the run before anything is
/// written for it: the run fails with the failure that the engine's answer
/// means, names the template, and asks for nothing more. What was written
/// for the templates before it stays on record: the plan and the count of
/// written files are as they were.
pub proof fn law_render_failure_stops_before_the_write(
    state: MaterializerView,
    report: EngineReportView,
)
    requires
        state.well_formed(),
        state.stage is Rendering,
        spec_interpret(report) is Err,
    ensures
        ({
            let failure = spec_interpret(report)->Err_0;
            let stopped = spec_advance(state, EventView::Rendered { report });
            &&& stopped.0.stage is Failed
            &&& stopped.0.failure == Some(
                GenerateErrorView::Render {
                    kind: failure.kind,
                    template: state.current().template.identity,
                    detail: failure.detail,
                },
            )
            &&& stopped.1.action is Finish
            &&& stopped.0.plan == state.plan
            &&& stopped.0.written == state.written
            &&& stopped.0.written_paths() == state.written_paths()
        }),
{
}

/// The same, for a move of the run as its environment sees it: where an
/// event makes a template due and the engine's answer on it is a failure,
/// the move ends in that failure and not in a request to write.
pub proof fn law_step_with_render_failure_writes_nothing(
    state: MaterializerView,
    event: EventView,
    report: EngineReportView,
)
    requires
        state.well_formed(),
        spec_advance(state, event).1.action is Render,
        spec_interpret(report) is Err,
    ensures
        spec_step(state, event, report).1.action is Finish,
        spec_step(state, event, report).0.stage is Failed,
        spec_step(state, event, report).0.failure matches Some(
            GenerateErrorView::Render { kind, template, detail },
        ) && kind == spec_interpret(report)->Err_0.kind,
        spec_step(state, event, report).0.written == spec_advance(state, event).0.written,
{
    law_advance_keeps_well_formed(state, event);
    law_rendering_follows_the_plan(state, event);
    law_render_failure_stops_before_the_write(spec_advance(state, event).0, report);
}

/// The engine sees nothing but templates whose variables the run binds:
/// whenever a run asks for a rendering, the text is a template of the library
/// and each variable that it names has a value.
pub proof fn law_engine_sees_only_bound_templates(state: MaterializerView, event: EventView)
    requires
        state.well_formed(),
    ensures
        spec_advance(state, event).1.action matches ActionView::Render { template, source } ==> {
            &&& spec_check(source, state.variables) is Ok
            &&& is_plain_template(source)
            &&& variables_of(source).subset_of(state.variables.dom())
        },
{
    law_advance_keeps_well_formed(state, event);
    if let ActionView::Render { template, source } = spec_advance(state, event).1.action {
        lemma_check_passes(source, state.variables);
    }
}

/// A template that names a variable which the run does not bind fails the
/// run with `MissingVariable` when its turn comes, before the engine is asked
/// and before anything is written for it: the failure names the template,
/// nothing more is asked for, and the files written before it stay on record.
/// A text that is not a template at all fails the run as malformed in the
/// same way.
pub proof fn law_unbound_variable_stops_the_run(state: MaterializerView)
    requires
        state.well_formed(),
        state.stage is Writing,
        state.written + 1 < state.plan.len(),
        spec_check(state.plan[state.written as int + 1].template.content, state.variables) is Err,
    ensures
        ({
            let due = state.plan[state.written as int + 1].template;
            let stopped = spec_advance(state, EventView::FileWritten);
            &&& stopped.0.stage is Failed
            &&& stopped.0.failure matches Some(GenerateErrorView::Render { kind, template, detail })
                && template == due.identity && (kind is MissingVariable <==> is_plain_template(
                due.content,
            )) && (kind is MalformedTemplate <==> !is_plain_template(due.content))
            &&& stopped.1.action is Finish
            &&& stopped.0.plan == state.plan
            &&& stopped.0.written == state.written + 1
        }),
{
}

/// The same for the first template of a plan: where it names a variable that
/// the run does not bind, or is no template, the run fails as soon as the
/// templates are taken in, and nothing is written at all.
pub proof fn law_unbound_variable_in_the_first_template_stops_the_run(
    state: MaterializerView,
    resources: Seq<TemplateResourceView>,
)
    requires
        state.well_formed(),
        state.stage is LoadingTemplates,
        resources.len() > 0,
        !any_rejected(resources, state.variant()),
        spec_mappings(resources, state.variant()).len() > 0,
        spec_check(
            spec_mappings(resources, state.variant())[0].template.content,
            state.variables,
        ) is Err,
    ensures
        ({
            let due = spec_mappings(resources, state.variant())[0].template;
            let stopped = spec_advance(state, EventView::TemplatesLoaded { resources });
            &&& stopped.0.stage is Failed
            &&& stopped.0.failure matches Some(GenerateErrorView::Render { kind, template, detail })
                && template == due.identity && (kind is MissingVariable <==> is_plain_template(
                due.content,
            )) && (kind is MalformedTemplate <==> !is_plain_template(due.content))
            &&& stopped.1.action is Finish
            &&& stopped.0.written == 0
        }),
{
}

/// What a run writes for a template is the template with its variables
/// replaced: where an event makes a template due and the engine renders it,
/// the move asks for the file of that template to be written, and its content
/// is the text of the template with each variable replaced by the value that
/// the run binds it to.
pub proof fn law_written_content_is_the_substituted_template(
    state: MaterializerView,
    event: EventView,
    report: EngineReportView,
)
    requires
        state.well_formed(),
        spec_advance(state, event).1.action is Render,
        answers(spec_advance(state, event).1.action, state.variables, report),
        report is Rendered,
    ensures
        ({
            let due = spec_advance(state, event).0;
            spec_step(state, event, report).1.action matches ActionView::WriteFile {
                parent,
                path,
                content,
            } && path == spec_join(state.root(), due.current().relative) && content == substituted(
                due.current().template.content,
                state.variables,
            )
        }),
{
    law_advance_keeps_well_formed(state, event);
    law_rendering_follows_the_plan(state, event);
    law_run_never_goes_back(state, event);
}

/// The display name of the project stands in every file whose template
/// refers to it: where an event makes a template due that names the variable
/// `project_name` and the engine renders it, the content that the move asks
/// to be written holds the final segment of the target path.
pub proof fn law_written_content_holds_the_display_name(
    state: MaterializerView,
    event: EventView,
    report: EngineReportView,
)
    requires
        state.well_formed(),
        spec_advance(state, event).1.action matches ActionView::Render { template, source }
            && variables_of(source).contains(project_name_variable()),
        answers(spec_advance(state, event).1.action, state.variables, report),
        report is Rendered,
    ensures
        spec_step(state, event, report).1.action matches ActionView::WriteFile {
            parent,
            path,
            content,
        } && occurs_in(content, spec_display_name(state.options.project_name)),
{
    law_written_content_is_the_substituted_template(state, event, report);
    law_rendering_follows_the_plan(state, event);
    let source = spec_advance(state, event).1.action->Render_source;
    lemma_substituted_holds_value(source, 0, state.variables, project_name_variable());
}

/// A move of the run never ends in a request to render: the engine is asked
/// within the move.
pub proof fn law_step_never_asks_for_a_rendering(
    state: MaterializerView,
    event: EventView,
    report: EngineReportView,
)
    requires
        state.well_formed(),
    ensures
        spec_step(state, event, report).1.action !is Render,
        spec_step(state, event, report).0.well_formed(),
{
    law_advance_keeps_well_formed(state, event);
    law_rendering_follows_the_plan(state, event);
    law_advance_keeps_well_formed(spec_advance(state, event).0, EventView::Rendered { report });
}

/// A run that has left the writing of files behind has written every file of
/// its plan, each at its output path under the project root.
pub proof fn law_past_writing_every_planned_file_is_written(state: MaterializerView)
    requires
        state.well_formed(),
        state.stage is Installing || state.stage is Versioning || state.stage is Finished,
    ensures
        state.written == state.plan.len(),
        state.written_paths() == state.plan.map_values(
            |mapping: OutputMappingView|
                spec_join(state.root(), mapping.relative),
        ),
{
    assert(state.written_paths() =~= state.plan.map_values(
        |mapping: OutputMappingView| spec_join(state.root(), mapping.relative),
    ));
}

/// In the sandbox no program is ever run, and the move that ends a run well
/// tells the watcher that installing and version control were left out.
pub proof fn law_sandbox_runs_no_program(state: MaterializerView, event: EventView)
    requires
        state.well_formed(),
        state.environment is Sandboxed,
    ensures
        spec_advance(state, event).1.action !is RunCommand,
        !state.stage.is_terminal() && spec_advance(state, event).0.stage is Finished
            ==> spec_advance(state, event).1.notices == seq![
            Notice::StructureCreated,
            Notice::PostStepsSkipped,
        ],
{
}

/// An installer that cannot be started, or that reports a failure, fails the
/// run with `InstallFailed`.
pub proof fn law_installer_failure_is_fatal(
    state: MaterializerView,
    launched: bool,
    succeeded: bool,
    detail: Seq<char>,
)
    requires
        state.well_formed(),
        state.stage is Installing,
        !(launched && succeeded),
    ensures
        ({
            let failed = spec_advance(
                state,
                EventView::CommandFinished { launched, succeeded, detail },
            );
            &&& failed.0.stage is Failed
            &&& failed.0.failure == Some(
                GenerateErrorView::InstallFailed {
                    command: spec_install_text(state.options.package_manager),
                    detail,
                },
            )
            &&& failed.1.action is Finish
        }),
{
}

/// However a step of initializing version control ends, the run does not
/// fail: it either takes the next step or ends well, with a warning where the
/// step went wrong.
pub proof fn law_version_control_never_fails_the_run(
    state: MaterializerView,
    launched: bool,
    succeeded: bool,
    detail: Seq<char>,
)
    requires
        state.well_formed(),
        state.stage is Versioning,
    ensures
        ({
            let next = spec_advance(
                state,
                EventView::CommandFinished { launched, succeeded, detail },
            );
            &&& next.0.stage is Versioning || next.0.stage is Finished
            &&& next.0.failure is None
            &&& next.0.stage is Finished ==> next.1.action is Finish
            &&& next.0.stage is Versioning ==> next.1.action is RunCommand
            &&& !(launched && succeeded) && state.stage != Stage::Versioning(VcsStep::Probe)
                ==> next.0.stage is Finished && next.0.warning is Some
        }),
{
}

/// The engine's answer that a template was rendered to `content`.
pub open spec fn rendered_to(content: Seq<char>) -> EventView {
    EventView::Rendered { report: EngineReportView::Rendered(content) }
}

/// The state of a run after the next templates of its plan have been
/// rendered to `contents`, one text for each template, and each file has
/// been written.
pub open spec fn after_writing(
    state: MaterializerView,
    contents: Seq<Seq<char>>,
) -> MaterializerView
    decreases contents.len(),
{
    if contents.len() == 0 {
        state
    } else {
        let rendered = spec_advance(state, rendered_to(contents.first())).0;
        let written = spec_advance(rendered, EventView::FileWritten).0;
        after_writing(written, contents.drop_first())
    }
}

/// The files that a run asks to be written on the way to
/// `after_writing(state, contents)`: for each one its path and its content,
/// in the order they are asked for.
pub open spec fn writes_of(state: MaterializerView, contents: Seq<Seq<char>>) -> Seq<
    (Seq<char>, Seq<char>),
>
    decreases contents.len(),
{
    if contents.len() == 0 {
        Seq::empty()
    } else {
        let rendered = spec_advance(state, rendered_to(contents.first()));
        let written = spec_advance(rendered.0, EventView::FileWritten).0;
        let asked = match rendered.1.action {
            ActionView::WriteFile { parent, path, content } => seq![(path, content)],
            _ => Seq::empty(),
        };
        asked + writes_of(written, contents.drop_first())
    }
}

/// The files that the rest of the plan of `state` stands for, with
/// `contents` as their texts.
pub open spec fn planned_writes(state: MaterializerView, contents: Seq<Seq<char>>) -> Seq<
    (Seq<char>, Seq<char>),
> {
    Seq::new(
        contents.len(),
        |k: int| (spec_join(state.root(), state.plan[state.written + k].relative), contents[k]),
    )
}

/// Where a run stands once its files are written: waiting for the installer
/// in the native environment, over in the sandbox.
pub open spec fn stage_after_files(environment: Environment) -> Stage {
    match environment {
        Environment::Native => Stage::Installing,
        Environment::Sandboxed => Stage::Finished,
    }
}

/// Every template of the plan that is not written yet is a template whose
/// variables the run binds.
pub open spec fn rest_can_be_rendered(state: MaterializerView) -> bool {
    forall|k: int|
        state.written <= k < state.plan.len() ==> spec_check(
            (#[trigger] state.plan[k]).template.content,
            state.variables,
        ) is Ok
}

/// A run whose templates all render and whose files can all be written
/// writes exactly its plan: from the moment the first template is due, it
/// asks for one file for each mapping that is left, in the order of the
/// plan, at that mapping's path under the project root and with the text
/// that the engine gave; it asks for no other file; and it ends with every
/// file of the plan written.
pub proof fn law_run_writes_exactly_its_plan(state: MaterializerView, contents: Seq<Seq<char>>)
    requires
        state.well_formed(),
        state.stage is Rendering,
        rest_can_be_rendered(state),
        contents.len() == state.plan.len() - state.written,
    ensures
        writes_of(state, contents) == planned_writes(state, contents),
        after_writing(state, contents).well_formed(),
        after_writing(state, contents).plan == state.plan,
        after_writing(state, contents).written == state.plan.len(),
        after_writing(state, contents).stage == stage_after_files(state.environment),
        after_writing(state, contents).failure is None,
    decreases contents.len(),
{
    let rendered = spec_advance(state, rendered_to(contents.first()));
    law_advance_keeps_well_formed(state, rendered_to(contents.first()));
    let written = spec_advance(rendered.0, EventView::FileWritten).0;
    law_advance_keeps_well_formed(rendered.0, EventView::FileWritten);
    let rest = contents.drop_first();
    if rest.len() > 0 {
        assert(spec_check(state.plan[state.written as int + 1].template.content, state.variables) is Ok);
        assert(rest_can_be_rendered(written));
        law_run_writes_exactly_its_plan(written, rest);
        assert(writes_of(state, contents) =~= planned_writes(state, contents)) by {
            assert forall|k: int| 0 <= k < contents.len() implies writes_of(state, contents)[k]
                == planned_writes(state, contents)[k] by {
                if k > 0 {
                    assert(writes_of(written, rest)[k - 1] == planned_writes(written, rest)[k - 1]);
                    assert(rest[k - 1] == contents[k]);
                }
            }
        }
    } else {
        assert(writes_of(written, rest) =~= Seq::empty());
        assert(writes_of(state, contents) =~= planned_writes(state, contents));
    }
}

/// A run on a target that does not exist yet, with a store that holds
/// something, nothing that is rejected and no template that the run cannot
/// render, produces exactly the files of `common` and of the selected
/// variant: once the directories are there and the templates are taken in,
/// the files that it asks to be written are, in store order, the outputs of
/// the templates that apply, each under the project root, and with them
/// written the run is past its writing.
pub proof fn law_fresh_run_writes_common_and_variant_files(
    options: ProjectOptionsView,
    environment: Environment,
    resources: Seq<TemplateResourceView>,
    contents: Seq<Seq<char>>,
)
    requires
        options.project_name.len() > 0,
        resources.len() > 0,
        !any_rejected(resources, options.template_type),
        contents.len() == spec_mappings(resources, options.template_type).len(),
        forall|k: int|
            0 <= k < spec_mappings(resources, options.template_type).len() ==> spec_check(
                (#[trigger] spec_mappings(resources, options.template_type)[k]).template.content,
                spec_start(options, environment).0.variables,
            ) is Ok,
    ensures
        ({
            let probed = spec_advance(
                spec_start(options, environment).0,
                EventView::TargetProbed { exists: false },
            ).0;
            let created = spec_advance(probed, EventView::DirectoriesCreated).0;
            let loaded = spec_advance(created, EventView::TemplatesLoaded { resources }).0;
            let plan = spec_mappings(resources, options.template_type);
            &&& plan.len() > 0 ==> loaded.stage is Rendering
            &&& loaded.plan == plan
            &&& writes_of(loaded, contents) == Seq::new(
                plan.len(),
                |k: int| (spec_join(options.project_name, plan[k].relative), contents[k]),
            )
            &&& after_writing(loaded, contents).stage == stage_after_files(environment)
            &&& after_writing(loaded, contents).written == plan.len()
            &&& after_writing(loaded, contents).failure is None
        }),
{
    let begun = spec_start(options, environment).0;
    let probed = spec_advance(begun, EventView::TargetProbed { exists: false }).0;
    law_advance_keeps_well_formed(begun, EventView::TargetProbed { exists: false });
    let created = spec_advance(probed, EventView::DirectoriesCreated).0;
    law_advance_keeps_well_formed(probed, EventView::DirectoriesCreated);
    let loaded = spec_advance(created, EventView::TemplatesLoaded { resources }).0;
    law_advance_keeps_well_formed(created, EventView::TemplatesLoaded { resources });
    let plan = spec_mappings(resources, options.template_type);
    if plan.len() > 0 {
        assert(spec_check(plan[0].template.content, begun.variables) is Ok);
        assert(rest_can_be_rendered(loaded));
        law_run_writes_exactly_its_plan(loaded, contents);
        assert(planned_writes(loaded, contents) =~= Seq::new(
            plan.len(),
            |k: int| (spec_join(options.project_name, plan[k].relative), contents[k]),
        ));
    } else {
        assert(writes_of(loaded, contents) =~= Seq::new(
            plan.len(),
            |k: int| (spec_join(options.project_name, plan[k].relative), contents[k]),
        ));
    }
}

} // verus!
