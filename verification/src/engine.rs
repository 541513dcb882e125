//! The rendering engine: variable substitution through the `tera` crate.
//!
//! The library decides by itself which texts are templates and whether a
//! context binds every variable of one; both failures of a rendering are its
//! own, found before the engine is called. The engine is handed nothing but
//! templates of the library with all their variables bound, and of what it
//! hands back the library holds that it is the template with each variable
//! replaced by its value.

use crate::paths::{display_name, spec_display_name};
use crate::resolver::views;
use crate::template::{is_plain_template, names_of, scan, substituted, variables_of};
use crate::text::same_text;
use vstd::prelude::*;

verus! {

/// `tera::Context`, the variables of a rendering, as a type whose inside is
/// not looked into.
#[verifier::external_type_specification]
#[verifier::external_body]
pub struct ExTeraContext(tera::Context);

/// `tera::Error`, as a type whose inside is not looked into.
#[verifier::external_type_specification]
#[verifier::external_body]
pub struct ExTeraError(tera::Error);

/// The string variables that a `tera::Context` binds, by name.
pub uninterp spec fn context_vars(ctx: tera::Context) -> Map<Seq<char>, Seq<char>>;

/// The bindings of a context that binds nothing.
pub open spec fn no_vars() -> Map<Seq<char>, Seq<char>> {
    Map::empty()
}

/// `tera::Context::new`: the context it returns binds nothing.
#[verifier::external_body]
fn context_new() -> (ctx: tera::Context)
    ensures
        context_vars(ctx) == no_vars(),
{
    tera::Context::new()
}

/// `tera::Context::insert`, called with a string value: afterwards `key` is
/// bound to `value`, and every other name is bound as it was before.
#[verifier::external_body]
fn context_insert(ctx: &mut tera::Context, key: &str, value: &str)
    ensures
        context_vars(*final(ctx)) == context_vars(*old(ctx)).insert(key@, value@),
{
    ctx.insert(key, value);
}

/// `tera::Tera::one_off` without escaping, called on a template of the
/// library whose variables the context all binds to strings. Such a template
/// holds no tag but those of raw blocks, written without the marks that trim
/// blanks, no comment, no filter, no function call and no literal, and names
/// neither a truth value nor the engine's own context variable: all that the
/// engine finds in it is text and the bodies of raw blocks, which it copies,
/// and names, which it looks up in the context. Where it answers with a text,
/// that text is the template with each variable block replaced by the value
/// bound to its name and each raw block by its body.
///
/// Nothing is claimed of when it answers with a text, nor of the error. The
/// engine's parser, `pest`, gives up with an error where fewer than 64 KiB of
/// the native stack are left at the call, and where the limit that
/// `pest::set_call_limit` sets for the whole process is reached. So whether
/// a template is rendered is not settled by the template and the context:
/// the same call may succeed at one place of a program and fail at another.
#[verifier::external_body]
fn engine_one_off(text: &str, context: &tera::Context) -> (rendered: Result<String, tera::Error>)
    requires
        is_plain_template(text@),
        variables_of(text@).subset_of(context_vars(*context).dom()),
    ensures
        rendered matches Ok(output) ==> output@ == substituted(text@, context_vars(*context)),
{
    tera::Tera::one_off(text, context, false)
}

/// The message of a `tera::Error` and the messages of its causes, outermost
/// first, as their `Display` impls and `source` give them. Nothing is claimed
/// of them.
#[verifier::external_body]
fn error_messages(error: &tera::Error) -> (messages: Vec<String>) {
    let mut messages = vec![error.to_string()];
    let mut cause = std::error::Error::source(error);
    while let Some(inner) = cause {
        messages.push(inner.to_string());
        cause = inner.source();
    }
    messages
}

/// One variable of a context: its name and its value.
#[derive(Debug)]
pub struct Binding {
    pub name: String,
    pub value: String,
}

/// The mathematical content of a [`Binding`].
pub struct BindingView {
    pub name: Seq<char>,
    pub value: Seq<char>,
}

impl View for Binding {
    type V = BindingView;

    open spec fn view(&self) -> BindingView {
        BindingView { name: self.name@, value: self.value@ }
    }
}

/// The map that a sequence of bindings stands for: each name with the value
/// of the last binding that names it.
pub open spec fn map_of(bindings: Seq<BindingView>) -> Map<Seq<char>, Seq<char>>
    decreases bindings.len(),
{
    if bindings.len() == 0 {
        no_vars()
    } else {
        map_of(bindings.drop_last()).insert(bindings.last().name, bindings.last().value)
    }
}

/// A name is bound by a sequence of bindings exactly where one of them names
/// it.
pub proof fn lemma_bound_names(bindings: Seq<BindingView>, name: Seq<char>)
    ensures
        map_of(bindings).dom().contains(name) <==> exists|i: int|
            0 <= i < bindings.len() && (#[trigger] bindings[i]).name == name,
    decreases bindings.len(),
{
    if bindings.len() > 0 {
        let rest = bindings.drop_last();
        lemma_bound_names(rest, name);
        if map_of(bindings).dom().contains(name) {
            if bindings.last().name == name {
                assert(bindings[bindings.len() - 1].name == name);
            } else {
                let i = choose|i: int| 0 <= i < rest.len() && (#[trigger] rest[i]).name == name;
                assert(bindings[i].name == name);
            }
        }
        if exists|i: int| 0 <= i < bindings.len() && (#[trigger] bindings[i]).name == name {
            let i = choose|i: int| 0 <= i < bindings.len() && (#[trigger] bindings[i]).name == name;
            if i < rest.len() {
                assert(rest[i].name == name);
            }
        }
    }
}

/// The variables that templates may refer to, each with its string value.
#[derive(Debug)]
pub struct RenderContext {
    bindings: Vec<Binding>,
}

impl View for RenderContext {
    type V = Map<Seq<char>, Seq<char>>;

    closed spec fn view(&self) -> Map<Seq<char>, Seq<char>> {
        map_of(views(self.bindings@))
    }
}

/// The name of the variable that holds the project's display name.
pub open spec fn project_name_variable() -> Seq<char> {
    "project_name"@
}

/// The context of a run on `project_name`: the one variable `project_name`,
/// bound to the display name, which is the final segment of the target path.
pub open spec fn spec_project_context(project_name: Seq<char>) -> Map<Seq<char>, Seq<char>> {
    no_vars().insert(project_name_variable(), spec_display_name(project_name))
}

impl RenderContext {
    /// A context that binds nothing.
    pub fn new() -> (context: RenderContext)
        ensures
            context@ == no_vars(),
    {
        let context = RenderContext { bindings: Vec::new() };
        assert(views(context.bindings@) =~= Seq::empty());
        context
    }

    /// Binds `name` to `value`, in place of what `name` was bound to before.
    pub fn insert(&mut self, name: &str, value: &str)
        ensures
            final(self)@ == old(self)@.insert(name@, value@),
    {
        let ghost before = views(self.bindings@);
        self.bindings.push(Binding { name: name.to_owned(), value: value.to_owned() });
        assert(views(self.bindings@).drop_last() =~= before);
    }

    /// Whether the context binds `name`.
    pub fn binds(&self, name: &str) -> (bound: bool)
        ensures
            bound == self@.dom().contains(name@),
    {
        let mut i: usize = 0;
        while i < self.bindings.len()
            invariant
                i <= self.bindings.len(),
                forall|j: int| 0 <= j < i ==> (#[trigger] views(self.bindings@)[j]).name != name@,
            decreases self.bindings.len() - i,
        {
            if same_text(self.bindings[i].name.as_str(), name) {
                proof {
                    lemma_bound_names(views(self.bindings@), name@);
                    assert(views(self.bindings@)[i as int].name == name@);
                }
                return true;
            }
            i += 1;
        }
        proof {
            lemma_bound_names(views(self.bindings@), name@);
        }
        false
    }

    /// The context of a run whose target is `project_name`.
    pub fn for_project(project_name: &str) -> (context: RenderContext)
        ensures
            context@ == spec_project_context(project_name@),
    {
        let shown = display_name(project_name);
        let mut context = RenderContext::new();
        context.insert("project_name", shown.as_str());
        context
    }

    /// The context as the engine takes it, with the same bindings.
    fn to_engine(&self) -> (ctx: tera::Context)
        ensures
            context_vars(ctx) == self@,
    {
        let mut ctx = context_new();
        let mut i: usize = 0;
        let ghost all = views(self.bindings@);
        assert(all.take(0) =~= Seq::empty());
        while i < self.bindings.len()
            invariant
                i <= self.bindings.len(),
                all == views(self.bindings@),
                context_vars(ctx) == map_of(all.take(i as int)),
            decreases self.bindings.len() - i,
        {
            let binding = &self.bindings[i];
            context_insert(&mut ctx, binding.name.as_str(), binding.value.as_str());
            proof {
                assert(all.take(i + 1).drop_last() =~= all.take(i as int));
                assert(all.take(i + 1).last() == binding@);
            }
            i += 1;
        }
        assert(all.take(i as int) =~= all);
        ctx
    }
}

/// Why a template could not be rendered.
#[derive(Debug, Clone, Copy, PartialEq, Eq, Structural)]
pub enum RenderError {
    /// The template refers to a variable that the context does not bind.
    MissingVariable,
    /// The text is not a template, or the engine could not take it.
    MalformedTemplate,
}

/// What the engine answered for one template.
#[derive(Debug)]
pub enum EngineReport {
    /// The template was rendered to this text.
    Rendered(String),
    /// The engine refused the template, with this message.
    Failed(String),
}

/// The mathematical content of an [`EngineReport`].
pub enum EngineReportView {
    Rendered(Seq<char>),
    Failed(Seq<char>),
}

impl View for EngineReport {
    type V = EngineReportView;

    open spec fn view(&self) -> EngineReportView {
        match self {
            EngineReport::Rendered(text) => EngineReportView::Rendered(text@),
            EngineReport::Failed(detail) => EngineReportView::Failed(detail@),
        }
    }
}

/// A failed rendering: its kind, and what there is to say of it.
#[derive(Debug)]
pub struct RenderFailure {
    pub kind: RenderError,
    pub detail: String,
}

/// The mathematical content of a [`RenderFailure`].
pub struct RenderFailureView {
    pub kind: RenderError,
    pub detail: Seq<char>,
}

impl View for RenderFailure {
    type V = RenderFailureView;

    open spec fn view(&self) -> RenderFailureView {
        RenderFailureView { kind: self.kind, detail: self.detail@ }
    }
}

/// What is said of a text that is not a template.
pub open spec fn not_plain_detail() -> Seq<char> {
    "the text holds more than text, named variables and raw blocks"@
}

/// The first of `names` that `bound` does not hold, if there is one.
pub open spec fn first_unbound(names: Seq<Seq<char>>, bound: Set<Seq<char>>) -> Option<Seq<char>>
    decreases names.len(),
{
    if names.len() == 0 {
        None
    } else if !bound.contains(names.first()) {
        Some(names.first())
    } else {
        first_unbound(names.drop_first(), bound)
    }
}

/// There is a first unbound name exactly where not every name is bound, and
/// it is one of the names that are not.
pub proof fn lemma_first_unbound(names: Seq<Seq<char>>, bound: Set<Seq<char>>)
    ensures
        first_unbound(names, bound) is None <==> names.to_set().subset_of(bound),
        first_unbound(names, bound) matches Some(name) ==> names.contains(name) && !bound.contains(
            name,
        ),
    decreases names.len(),
{
    if names.len() > 0 {
        let rest = names.drop_first();
        lemma_first_unbound(rest, bound);
        assert(names.contains(names.first()));
        assert(names.to_set().contains(names.first()));
        assert forall|n: Seq<char>| rest.contains(n) implies names.contains(n) by {
            let i = choose|i: int| 0 <= i < rest.len() && rest[i] == n;
            assert(names[i + 1] == n);
        }
        if bound.contains(names.first()) && rest.to_set().subset_of(bound) {
            assert forall|n: Seq<char>| names.to_set().contains(n) implies bound.contains(n) by {
                let i = choose|i: int| 0 <= i < names.len() && names[i] == n;
                if i > 0 {
                    assert(rest[i - 1] == n);
                    assert(rest.to_set().contains(n));
                }
            }
        }
        if names.to_set().subset_of(bound) {
            assert forall|n: Seq<char>| rest.to_set().contains(n) implies bound.contains(n) by {
                assert(names.to_set().contains(n));
            }
        }
    }
}

/// The library's own test of a text before the engine sees it: a text that is
/// not a template is malformed; a template that names a variable which
/// `variables` does not bind misses that variable, the first such in the
/// order of the text; every other template passes.
pub open spec fn spec_check(text: Seq<char>, variables: Map<Seq<char>, Seq<char>>) -> Result<
    (),
    RenderFailureView,
> {
    if !is_plain_template(text) {
        Err(RenderFailureView { kind: RenderError::MalformedTemplate, detail: not_plain_detail() })
    } else {
        match first_unbound(names_of(text), variables.dom()) {
            Some(name) => Err(
                RenderFailureView { kind: RenderError::MissingVariable, detail: name },
            ),
            None => Ok(()),
        }
    }
}

/// A template that passes the library's test is a template whose variables
/// are all bound, and the other way round.
pub proof fn lemma_check_passes(text: Seq<char>, variables: Map<Seq<char>, Seq<char>>)
    ensures
        spec_check(text, variables) is Ok <==> is_plain_template(text) && variables_of(
            text,
        ).subset_of(variables.dom()),
{
    lemma_first_unbound(names_of(text), variables.dom());
}

/// The mathematical content of a test's result.
pub open spec fn checked_view(checked: Result<(), RenderFailure>) -> Result<(), RenderFailureView> {
    match checked {
        Ok(()) => Ok(()),
        Err(failure) => Err(failure@),
    }
}

/// The mathematical content of a rendering's result.
pub open spec fn rendering_view(rendered: Result<String, RenderFailure>) -> Result<
    Seq<char>,
    RenderFailureView,
> {
    match rendered {
        Ok(text) => Ok(text@),
        Err(failure) => Err(failure@),
    }
}

/// Tests `text` against `context` before the engine sees it.
pub fn check(text: &str, context: &RenderContext) -> (checked: Result<(), RenderFailure>)
    ensures
        checked_view(checked) == spec_check(text@, context@),
{
    let names = match scan(text) {
        Some(names) => names,
        None => {
            return Err(
                RenderFailure {
                    kind: RenderError::MalformedTemplate,
                    detail: "the text holds more than text, named variables and raw blocks".to_owned(),
                },
            );
        },
    };
    let ghost all = views(names@);
    let mut i: usize = 0;
    assert(all.skip(0) =~= all);
    while i < names.len()
        invariant
            i <= names.len(),
            is_plain_template(text@),
            all == views(names@),
            all == names_of(text@),
            first_unbound(all, context@.dom()) == first_unbound(all.skip(i as int), context@.dom()),
        decreases names.len() - i,
    {
        proof {
            assert(all.skip(i as int).first() == names[i as int]@);
            assert(all.skip(i as int).drop_first() =~= all.skip(i + 1));
        }
        if !context.binds(names[i].as_str()) {
            let detail = names[i].clone();
            assert(first_unbound(all.skip(i as int), context@.dom()) == Some(detail@));
            return Err(RenderFailure { kind: RenderError::MissingVariable, detail });
        }
        assert(first_unbound(all.skip(i as int), context@.dom()) == first_unbound(
            all.skip(i + 1),
            context@.dom(),
        ));
        i += 1;
    }
    assert(first_unbound(all.skip(i as int), context@.dom()) is None);
    Ok(())
}

/// The messages joined by a colon and a space.
pub open spec fn spec_joined(messages: Seq<Seq<char>>) -> Seq<char>
    decreases messages.len(),
{
    if messages.len() == 0 {
        Seq::empty()
    } else if messages.len() == 1 {
        messages[0]
    } else {
        spec_joined(messages.drop_last()) + ": "@ + messages.last()
    }
}

/// Joins messages into one text, with a colon and a space between them.
pub fn join_messages(messages: &Vec<String>) -> (text: String)
    ensures
        text@ == spec_joined(views(messages@)),
{
    let mut text = String::new();
    let ghost all = views(messages@);
    let mut i: usize = 0;
    assert(all.take(0) =~= Seq::empty());
    while i < messages.len()
        invariant
            i <= messages.len(),
            all == views(messages@),
            text@ == spec_joined(all.take(i as int)),
        decreases messages.len() - i,
    {
        proof {
            assert(all.take(i + 1).drop_last() =~= all.take(i as int));
            assert(all.take(i + 1).last() == messages[i as int]@);
            assert(all.take(1)[0] == all[0]);
        }
        if i > 0 {
            text.append(": ");
        } else {
            assert(text@ + messages[i as int]@ =~= messages[i as int]@);
        }
        text.append(messages[i].as_str());
        i += 1;
    }
    assert(all.take(i as int) =~= all);
    text
}

/// What a report means: the text where there is one, and a template that the
/// engine could not take where there is none.
pub open spec fn spec_interpret(report: EngineReportView) -> Result<Seq<char>, RenderFailureView> {
    match report {
        EngineReportView::Rendered(text) => Ok(text),
        EngineReportView::Failed(detail) => Err(
            RenderFailureView { kind: RenderError::MalformedTemplate, detail },
        ),
    }
}

/// Turns the engine's answer into the result of a rendering.
pub fn interpret(report: EngineReport) -> (rendered: Result<String, RenderFailure>)
    ensures
        rendering_view(rendered) == spec_interpret(report@),
{
    match report {
        EngineReport::Rendered(text) => Ok(text),
        EngineReport::Failed(detail) => Err(
            RenderFailure { kind: RenderError::MalformedTemplate, detail },
        ),
    }
}

/// `report` is an answer that the engine can give on the template `text`
/// with `variables`: a failure, or the text with each variable replaced by
/// its value. Which of the two it gives also depends on the state of the
/// process that asks, so no more can be said of it.
pub open spec fn is_answer_on(
    report: EngineReportView,
    text: Seq<char>,
    variables: Map<Seq<char>, Seq<char>>,
) -> bool {
    report matches EngineReportView::Rendered(output) ==> output == substituted(text, variables)
}

/// Hands the template `text` and `context` to the engine, and reports what it
/// answered. The text must have passed the library's test: the engine is not
/// trusted with anything else. Where the engine renders the template, the
/// text that comes back is `text` with each variable replaced by the value
/// that `context` binds it to. The engine may refuse any template, for want
/// of stack or of parser calls left to the process; [`interpret`] says what
/// becomes of either answer.
pub fn evaluate(text: &str, context: &RenderContext) -> (report: EngineReport)
    requires
        spec_check(text@, context@) is Ok,
    ensures
        is_answer_on(report@, text@, context@),
{
    proof {
        lemma_check_passes(text@, context@);
    }
    let variables = context.to_engine();
    match engine_one_off(text, &variables) {
        Ok(rendered) => EngineReport::Rendered(rendered),
        Err(error) => {
            let messages = error_messages(&error);
            EngineReport::Failed(join_messages(&messages))
        },
    }
}

/// `outcome` is what rendering `text` with `variables` may come to: the
/// failure that the library's test finds, where it finds one; otherwise the
/// text with each variable replaced by its value, or else a failure of the
/// engine, which counts as a malformed template.
pub open spec fn is_rendering_of(
    text: Seq<char>,
    variables: Map<Seq<char>, Seq<char>>,
    outcome: Result<Seq<char>, RenderFailureView>,
) -> bool {
    match spec_check(text, variables) {
        Err(failure) => outcome == Err::<Seq<char>, RenderFailureView>(failure),
        Ok(()) => match outcome {
            Ok(output) => output == substituted(text, variables),
            Err(failure) => failure.kind is MalformedTemplate,
        },
    }
}

/// Renders the template `text` with `context`.
///
/// A text that is not a template fails as malformed, and a template that
/// names a variable which `context` does not bind fails for the missing
/// variable; neither reaches the engine. Every other template is handed to
/// the engine, and what it renders is the template with each variable
/// replaced by its value.
pub fn render(text: &str, context: &RenderContext) -> (rendered: Result<String, RenderFailure>)
    ensures
        is_rendering_of(text@, context@, rendering_view(rendered)),
        !is_plain_template(text@) ==> rendered is Err
            && rendered->Err_0.kind is MalformedTemplate,
        is_plain_template(text@) && !variables_of(text@).subset_of(context@.dom())
            ==> rendered is Err && rendered->Err_0.kind is MissingVariable,
{
    proof {
        lemma_check_passes(text@, context@);
    }
    match check(text, context) {
        Err(failure) => Err(failure),
        Ok(()) => {
            let report = evaluate(text, context);
            interpret(report)
        },
    }
}

} // verus!
