//! The path resolver: which templates apply to a variant, and where the
//! output of each one goes.
//!
//! A template is identified by a namespaced relative path such as
//! `common/tsconfig.json.tera`. Its first segment is its namespace: either
//! `common`, which applies to every variant, or the identifier of one variant.
//! The rest, without the template suffix, is the path of the output file
//! relative to the project root.

use crate::options::TemplateType;
use crate::paths::{is_contained, stays_inside};
use crate::text::{chars_of, has_prefix, has_suffix, slice_of};
use vstd::prelude::*;

verus! {

/// A template of the store: its identity and its raw, unrendered text.
#[derive(Debug)]
pub struct TemplateResource {
    pub identity: String,
    pub content: String,
}

/// The mathematical content of a [`TemplateResource`].
pub struct TemplateResourceView {
    pub identity: Seq<char>,
    pub content: Seq<char>,
}

impl View for TemplateResource {
    type V = TemplateResourceView;

    open spec fn view(&self) -> TemplateResourceView {
        TemplateResourceView { identity: self.identity@, content: self.content@ }
    }
}

/// The namespace that makes a template applicable.
#[derive(Debug, Clone, Copy, PartialEq, Eq, Structural)]
pub enum Namespace {
    /// `common`: applies whatever the variant.
    Common,
    /// The namespace of the selected variant.
    Variant,
}

/// A template that applies to the run, with the place of its output.
#[derive(Debug)]
pub struct OutputMapping {
    pub template: TemplateResource,
    /// The path of the output file, relative to the project root.
    pub relative: String,
}

/// The mathematical content of an [`OutputMapping`].
pub struct OutputMappingView {
    pub template: TemplateResourceView,
    pub relative: Seq<char>,
}

impl View for OutputMapping {
    type V = OutputMappingView;

    open spec fn view(&self) -> OutputMappingView {
        OutputMappingView { template: self.template@, relative: self.relative@ }
    }
}

/// What the resolver makes of one template identity.
#[derive(Debug)]
pub enum Resolution {
    /// The template belongs to no namespace that applies: it is passed over.
    Inapplicable,
    /// The template applies, but its output would not stay inside the
    /// project root.
    Rejected,
    /// The template applies; its output goes to this relative path.
    Output(String),
}

/// The mathematical content of a [`Resolution`].
pub enum ResolutionView {
    Inapplicable,
    Rejected,
    Output(Seq<char>),
}

impl View for Resolution {
    type V = ResolutionView;

    open spec fn view(&self) -> ResolutionView {
        match self {
            Resolution::Inapplicable => ResolutionView::Inapplicable,
            Resolution::Rejected => ResolutionView::Rejected,
            Resolution::Output(relative) => ResolutionView::Output(relative@),
        }
    }
}

/// The name of the namespace that applies to every variant.
pub open spec fn common_namespace() -> Seq<char> {
    "common"@
}

/// The marker that ends the name of a template file.
pub open spec fn template_suffix() -> Seq<char> {
    ".tera"@
}

/// The name of a namespace, for a given variant.
pub open spec fn namespace_name(namespace: Namespace, variant: TemplateType) -> Seq<char> {
    match namespace {
        Namespace::Common => common_namespace(),
        Namespace::Variant => variant.spec_path_str(),
    }
}

/// `identity` lies in the namespace called `name`: it begins with that name
/// and a separator.
pub open spec fn in_namespace(identity: Seq<char>, name: Seq<char>) -> bool {
    (name + seq!['/']).is_prefix_of(identity)
}

/// The namespace through which `identity` applies to `variant`, if any.
pub open spec fn owning_namespace(identity: Seq<char>, variant: TemplateType) -> Option<
    Namespace,
> {
    if in_namespace(identity, common_namespace()) {
        Some(Namespace::Common)
    } else if in_namespace(identity, variant.spec_path_str()) {
        Some(Namespace::Variant)
    } else {
        None
    }
}

/// `identity` applies to `variant`.
pub open spec fn is_applicable(identity: Seq<char>, variant: TemplateType) -> bool {
    owning_namespace(identity, variant) is Some
}

/// `path` without the template suffix, where it ends in one.
pub open spec fn strip_template_suffix(path: Seq<char>) -> Seq<char> {
    if template_suffix().is_suffix_of(path) {
        path.take(path.len() - template_suffix().len())
    } else {
        path
    }
}

/// The output path of an applicable `identity`, relative to the project root:
/// the identity without its namespace segment and without the template suffix.
pub open spec fn output_relative(identity: Seq<char>, variant: TemplateType) -> Seq<char> {
    match owning_namespace(identity, variant) {
        Some(namespace) => strip_template_suffix(
            identity.skip(namespace_name(namespace, variant).len() as int + 1),
        ),
        None => Seq::empty(),
    }
}

/// What the resolver makes of `identity` for `variant`.
pub open spec fn spec_resolve(identity: Seq<char>, variant: TemplateType) -> ResolutionView {
    if !is_applicable(identity, variant) {
        ResolutionView::Inapplicable
    } else if !stays_inside(output_relative(identity, variant)) {
        ResolutionView::Rejected
    } else {
        ResolutionView::Output(output_relative(identity, variant))
    }
}

/// `resource` applies to `variant`.
pub open spec fn applies(resource: TemplateResourceView, variant: TemplateType) -> bool {
    is_applicable(resource.identity, variant)
}

/// `resource` applies to `variant` and is rejected.
pub open spec fn is_rejected(resource: TemplateResourceView, variant: TemplateType) -> bool {
    spec_resolve(resource.identity, variant) is Rejected
}

/// The mapping of an applicable `resource`.
pub open spec fn mapping_of(
    resource: TemplateResourceView,
    variant: TemplateType,
) -> OutputMappingView {
    OutputMappingView { template: resource, relative: output_relative(resource.identity, variant) }
}

/// The mappings of the templates of `resources` that apply to `variant`, in
/// the order of `resources`.
pub open spec fn spec_mappings(
    resources: Seq<TemplateResourceView>,
    variant: TemplateType,
) -> Seq<OutputMappingView> {
    resources.filter(applies_to(variant)).map_values(mapping_for(variant))
}

/// The test that `spec_mappings` filters by.
pub open spec fn applies_to(variant: TemplateType) -> spec_fn(TemplateResourceView) -> bool {
    |r: TemplateResourceView| applies(r, variant)
}

/// The function that `spec_mappings` maps by.
pub open spec fn mapping_for(variant: TemplateType) -> spec_fn(
    TemplateResourceView,
) -> OutputMappingView {
    |r: TemplateResourceView| mapping_of(r, variant)
}

/// Index `i` holds the first template of `resources` that is rejected.
pub open spec fn is_first_rejected(
    resources: Seq<TemplateResourceView>,
    variant: TemplateType,
    i: int,
) -> bool {
    &&& 0 <= i < resources.len()
    &&& is_rejected(resources[i], variant)
    &&& forall|j: int| 0 <= j < i ==> !is_rejected(resources[j], variant)
}

/// Some template of `resources` is rejected.
pub open spec fn any_rejected(
    resources: Seq<TemplateResourceView>,
    variant: TemplateType,
) -> bool {
    exists|i: int| 0 <= i < resources.len() && is_rejected(#[trigger] resources[i], variant)
}

/// The index of the first template of `resources` that is rejected, where
/// there is one.
pub open spec fn first_rejected(
    resources: Seq<TemplateResourceView>,
    variant: TemplateType,
) -> int {
    choose|i: int| is_first_rejected(resources, variant, i)
}

/// A mapping as the resolver makes them for `variant`: from a template that
/// applies, to that template's output path, which stays inside the root.
pub open spec fn is_resolved(mapping: OutputMappingView, variant: TemplateType) -> bool {
    &&& applies(mapping.template, variant)
    &&& mapping == mapping_of(mapping.template, variant)
    &&& stays_inside(mapping.relative)
}

/// The contents of the elements of `items`, element by element.
pub open spec fn views<T: View>(items: Seq<T>) -> Seq<T::V> {
    items.map_values(|item: T| item@)
}

/// The part of `identity` after the namespace called `name`, where it lies in
/// that namespace.
fn strip_namespace(identity: &str, cs: &Vec<char>, name: &str) -> (rest: Option<String>)
    requires
        cs@ == identity@,
    ensures
        rest is Some == in_namespace(identity@, name@),
        rest matches Some(text) ==> text@ == identity@.skip(name@.len() as int + 1),
{
    let mut prefix = chars_of(name);
    prefix.push('/');
    assert(prefix@ =~= name@ + seq!['/']);
    if has_prefix(cs, &prefix) {
        Some(slice_of(identity, prefix.len(), cs.len()))
    } else {
        None
    }
}

/// `path` without the template suffix, where it ends in one.
pub fn without_template_suffix(path: String) -> (stripped: String)
    ensures
        stripped@ == strip_template_suffix(path@),
{
    let cs = chars_of(path.as_str());
    let suffix = chars_of(".tera");
    if has_suffix(&cs, &suffix) {
        slice_of(path.as_str(), 0, cs.len() - suffix.len())
    } else {
        path
    }
}

/// Resolves one template identity for `variant`: whether it applies and, if
/// so, where its output goes.
pub fn resolve(identity: &str, variant: TemplateType) -> (resolution: Resolution)
    ensures
        resolution@ == spec_resolve(identity@, variant),
{
    let cs = chars_of(identity);
    let rest = match strip_namespace(identity, &cs, "common") {
        Some(rest) => rest,
        None => match strip_namespace(identity, &cs, variant.path_str()) {
            Some(rest) => rest,
            None => {
                return Resolution::Inapplicable;
            },
        },
    };
    let relative = without_template_suffix(rest);
    if is_contained(relative.as_str()) {
        Resolution::Output(relative)
    } else {
        Resolution::Rejected
    }
}

/// A copy of `resource`.
pub fn copy_resource(resource: &TemplateResource) -> (copy: TemplateResource)
    ensures
        copy@ == resource@,
{
    TemplateResource { identity: resource.identity.clone(), content: resource.content.clone() }
}

/// Filters the templates of a store for `variant` and maps each one that
/// applies to its output path.
///
/// Templates that do not apply are passed over in silence. The first template
/// that applies but would write outside the project root stops the
/// resolution: its index in `resources` is the error.
pub fn resolve_all(resources: &Vec<TemplateResource>, variant: TemplateType) -> (resolved: Result<
    Vec<OutputMapping>,
    usize,
>)
    ensures
        resolved is Ok <==> forall|i: int|
            0 <= i < resources.len() ==> !is_rejected(#[trigger] resources[i]@, variant),
        resolved matches Ok(mappings) ==> views(mappings@) == spec_mappings(
            views(resources@),
            variant,
        ),
        resolved matches Err(index) ==> is_first_rejected(views(resources@), variant, index as int),
{
    let ghost all = views(resources@);
    let mut mappings: Vec<OutputMapping> = Vec::new();
    let mut i: usize = 0;
    assert(all.take(0) =~= Seq::empty());
    assert(views(mappings@) =~= spec_mappings(all.take(0), variant));
    while i < resources.len()
        invariant
            i <= resources.len(),
            all == views(resources@),
            forall|j: int| 0 <= j < i ==> !is_rejected(#[trigger] resources[j]@, variant),
            views(mappings@) == spec_mappings(all.take(i as int), variant),
        decreases resources.len() - i,
    {
        let resource = &resources[i];
        let resolution = resolve(resource.identity.as_str(), variant);
        proof {
            let before = all.take(i as int);
            let after = all.take(i + 1);
            assert(after =~= before.push(resource@));
            before.lemma_filter_push(resource@, applies_to(variant));
        }
        match resolution {
            Resolution::Inapplicable => {},
            Resolution::Rejected => {
                assert forall|j: int| 0 <= j < i implies !is_rejected(all[j], variant) by {
                    assert(all[j] == resources[j]@);
                }
                assert(all[i as int] == resources[i as int]@);
                return Err(i);
            },
            Resolution::Output(relative) => {
                let ghost old_mappings = mappings@;
                mappings.push(OutputMapping { template: copy_resource(resource), relative });
                assert(views(mappings@) =~= views(old_mappings).push(
                    mapping_of(resource@, variant),
                ));
                assert(spec_mappings(all.take(i + 1), variant) =~= spec_mappings(
                    all.take(i as int),
                    variant,
                ).push(mapping_of(resource@, variant)));
            },
        }
        i += 1;
    }
    assert(all.take(i as int) =~= all);
    Ok(mappings)
}

/// A template in the namespace of one variant applies to no other variant:
/// the namespaces of the variants and `common` have no template in common.
pub proof fn law_namespaces_are_disjoint(
    identity: Seq<char>,
    variant: TemplateType,
    other: TemplateType,
)
    requires
        other != variant,
        in_namespace(identity, other.spec_path_str()),
    ensures
        !is_applicable(identity, variant),
        !in_namespace(identity, common_namespace()),
{
    reveal_strlit("common");
    reveal_strlit("vanilla-ts");
    reveal_strlit("react-tsx");
    let theirs = other.spec_path_str() + seq!['/'];
    let ours = variant.spec_path_str() + seq!['/'];
    let common = common_namespace() + seq!['/'];
    assert(identity.subrange(0, theirs.len() as int)[0] == theirs[0]);
    assert(theirs[0] == other.spec_path_str()[0]);
    if in_namespace(identity, variant.spec_path_str()) {
        assert(identity.subrange(0, ours.len() as int)[0] == ours[0]);
        assert(ours[0] == variant.spec_path_str()[0]);
    }
    if in_namespace(identity, common_namespace()) {
        assert(identity.subrange(0, common.len() as int)[0] == common[0]);
        assert(common[0] == common_namespace()[0]);
    }
}

/// What is resolved for a variant is exactly what applies to it: every
/// mapping comes from a template of the store that lies in `common` or in the
/// variant's own namespace, and goes to that template's output path; every
/// such template of the store has its mapping; and a template that lies in
/// neither namespace has none.
pub proof fn law_mappings_are_the_applicable_templates(
    resources: Seq<TemplateResourceView>,
    variant: TemplateType,
)
    ensures
        forall|k: int|
            0 <= k < spec_mappings(resources, variant).len() ==> {
                let mapping = #[trigger] spec_mappings(resources, variant)[k];
                &&& resources.contains(mapping.template)
                &&& applies(mapping.template, variant)
                &&& mapping == mapping_of(mapping.template, variant)
            },
        forall|i: int|
            0 <= i < resources.len() && applies(resources[i], variant) ==> spec_mappings(
                resources,
                variant,
            ).contains(mapping_of(#[trigger] resources[i], variant)),
        forall|i: int, k: int|
            0 <= i < resources.len() && !applies(resources[i], variant) && 0 <= k < spec_mappings(
                resources,
                variant,
            ).len() ==> (#[trigger] spec_mappings(resources, variant)[k]).template.identity
                != (#[trigger] resources[i]).identity,
{
    let kept = resources.filter(applies_to(variant));
    let mappings = spec_mappings(resources, variant);
    assert forall|k: int| 0 <= k < mappings.len() implies {
        let mapping = #[trigger] mappings[k];
        &&& resources.contains(mapping.template)
        &&& applies(mapping.template, variant)
        &&& mapping == mapping_of(mapping.template, variant)
    } by {
        resources.lemma_filter_pred(applies_to(variant), k);
        assert(kept.contains(kept[k]));
        resources.lemma_filter_contains_rev(applies_to(variant), kept[k]);
    }
    assert forall|i: int|
        0 <= i < resources.len() && applies(resources[i], variant) implies mappings.contains(
        mapping_of(#[trigger] resources[i], variant),
    ) by {
        resources.lemma_filter_contains(applies_to(variant), i);
        let k = choose|k: int| 0 <= k < kept.len() && kept[k] == resources[i];
        assert(mappings[k] == mapping_of(resources[i], variant));
    }
}

/// Only one index can hold the first rejected template.
pub proof fn lemma_first_rejected_is_unique(
    resources: Seq<TemplateResourceView>,
    variant: TemplateType,
    i: int,
)
    requires
        is_first_rejected(resources, variant, i),
    ensures
        first_rejected(resources, variant) == i,
        any_rejected(resources, variant),
{
    let j = first_rejected(resources, variant);
    assert(is_first_rejected(resources, variant, j));
    if j < i {
        assert(!is_rejected(resources[j], variant));
    }
    if i < j {
        assert(!is_rejected(resources[i], variant));
    }
}

/// Where no template of the store is rejected, every mapping keeps its output
/// inside the project root.
pub proof fn law_accepted_outputs_stay_inside(
    resources: Seq<TemplateResourceView>,
    variant: TemplateType,
)
    requires
        !any_rejected(resources, variant),
    ensures
        forall|k: int|
            0 <= k < spec_mappings(resources, variant).len() ==> is_resolved(
                #[trigger] spec_mappings(resources, variant)[k],
                variant,
            ),
{
    law_mappings_are_the_applicable_templates(resources, variant);
    let mappings = spec_mappings(resources, variant);
    assert forall|k: int| 0 <= k < mappings.len() implies is_resolved(
        #[trigger] mappings[k],
        variant,
    ) by {
        let template = mappings[k].template;
        let i = choose|i: int| 0 <= i < resources.len() && resources[i] == template;
        assert(!is_rejected(resources[i], variant));
    }
}

/// No mapping resolved for one variant comes from the namespace of another.
pub proof fn law_no_mapping_from_another_variant(
    resources: Seq<TemplateResourceView>,
    variant: TemplateType,
    other: TemplateType,
)
    requires
        other != variant,
    ensures
        forall|k: int|
            0 <= k < spec_mappings(resources, variant).len() ==> !in_namespace(
                (#[trigger] spec_mappings(resources, variant)[k]).template.identity,
                other.spec_path_str(),
            ),
{
    law_mappings_are_the_applicable_templates(resources, variant);
    let mappings = spec_mappings(resources, variant);
    assert forall|k: int| 0 <= k < mappings.len() implies !in_namespace(
        (#[trigger] mappings[k]).template.identity,
        other.spec_path_str(),
    ) by {
        if in_namespace(mappings[k].template.identity, other.spec_path_str()) {
            law_namespaces_are_disjoint(mappings[k].template.identity, variant, other);
        }
    }
}

} // verus!
