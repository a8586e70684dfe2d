//! Family membership rules: `MLC126`, `MLC127`.
//!
//! `Mobject.add` accepts only mobjects and ignores duplicate children with a
//! warning, and a `VMobject` family (including `VGroup`) must contain only
//! vectorized mobjects; heterogeneous collections need `Group`.
use super::support::{
    candidates_value, candidates_view, class_fact, classify_class, conclusive_receiver,
    conclusive_target, receiver_conclusive, target_of, ClassKind, GROUP, MOBJECT_ADD, VGROUP,
};
use crate::diagnostic::{
    one_edit, push_all, push_found, report_of, reports, single_edit, Confidence, Diagnostic,
    DiagnosticView, Fix, FixApplicability, FixView, MetadataView, RuleMetadata, Severity,
};
use crate::frontend::{
    ArgShape, CallArgument, LiteralFact, ProjectIndex, QualifiedCall, ReceiverKind,
};
use crate::json::{json_text, json_texts, text_list, Evidence, EvidenceView, JsonView};
use crate::knowledge::{KnowledgeProfile, SymbolKind};
use crate::rules::base::{basic_report, build_diagnostic, edit_at, text_edit, Rule, RuleContext};
use crate::source::{slice_in, TextRange};
use crate::text::{cat3, cat5, found, gather, is_whitespace, same_text, texts, white_space};
use vstd::prelude::*;

verus! {

/// A call confirmed to build or extend a Manim family.
#[derive(Clone, Copy, Debug, PartialEq, Eq, Structural)]
pub enum Container {
    /// `.add(...)` on an instance of a vectorized (`VMobject`) family.
    VectorizedAdd,
    /// `.add(...)` on an instance of a plain (non-vectorized) mobject.
    PlainAdd,
    /// A `VGroup(...)` constructor call.
    VGroupCtor,
    /// A `Group(...)` constructor call.
    GroupCtor,
}

impl Container {
    pub open spec fn description(self) -> Seq<char> {
        match self {
            Container::VectorizedAdd => "VMobject-family `.add()`"@,
            Container::PlainAdd => "Mobject `.add()`"@,
            Container::VGroupCtor => "`VGroup(...)`"@,
            Container::GroupCtor => "`Group(...)`"@,
        }
    }

    /// Human-readable description of the call for messages.
    pub fn describe(self) -> (text: &'static str)
        ensures
            text@ == self.description(),
    {
        match self {
            Container::VectorizedAdd => "VMobject-family `.add()`",
            Container::PlainAdd => "Mobject `.add()`",
            Container::VGroupCtor => "`VGroup(...)`",
            Container::GroupCtor => "`Group(...)`",
        }
    }

    pub open spec fn needs_vectorized(self) -> bool {
        self == Container::VectorizedAdd || self == Container::VGroupCtor
    }

    /// Whether the family accepts only vectorized mobjects.
    pub fn vectorized_only(self) -> (only: bool)
        ensures
            only == self.needs_vectorized(),
    {
        self == Container::VectorizedAdd || self == Container::VGroupCtor
    }
}

/// The family a call builds or extends. `Scene.add` resolves to another id
/// than `Mobject.add`, so scene membership is left out.
pub open spec fn container_in(
    profile: KnowledgeProfile,
    index: ProjectIndex,
    call: QualifiedCall,
) -> Option<Container> {
    match target_of(profile, index, call) {
        Some(canonical) => if canonical == VGROUP@ {
            Some(Container::VGroupCtor)
        } else if canonical == GROUP@ {
            Some(Container::GroupCtor)
        } else if canonical == MOBJECT_ADD@ {
            match call.receiver {
                ReceiverKind::KnownInstance(kind) => match class_fact(profile, index, kind@) {
                    Some(fact) => match fact.kind {
                        ClassKind::Vmobject => Some(Container::VectorizedAdd),
                        ClassKind::MobjectOnly => Some(Container::PlainAdd),
                        _ => None,
                    },
                    None => None,
                },
                _ => None,
            }
        } else {
            None
        },
        None => None,
    }
}

/// Classifies a call as a confirmed family container, or `None`.
fn container_of(profile: &KnowledgeProfile, index: &ProjectIndex, call: &QualifiedCall) -> (container:
    Option<Container>)
    ensures
        container == container_in(*profile, *index, *call),
{
    let canonical: String = match conclusive_target(profile, index, call) {
        Some((canonical, _)) => canonical,
        None => {
            return None;
        },
    };
    if same_text(canonical.as_str(), VGROUP) {
        return Some(Container::VGroupCtor);
    }
    if same_text(canonical.as_str(), GROUP) {
        return Some(Container::GroupCtor);
    }
    if !same_text(canonical.as_str(), MOBJECT_ADD) {
        return None;
    }
    match &call.receiver {
        ReceiverKind::KnownInstance(kind) => match classify_class(profile, index, kind.as_str()) {
            Some(fact) => match fact.kind {
                ClassKind::Vmobject => Some(Container::VectorizedAdd),
                ClassKind::MobjectOnly => Some(Container::PlainAdd),
                _ => None,
            },
            None => None,
        },
        _ => None,
    }
}

/// What a child argument's value is confirmed to be.
#[derive(Clone, Copy, Debug, PartialEq, Eq, Structural)]
pub enum ChildKind {
    /// Certainly a vectorized mobject: always a valid child.
    Vectorized,
    /// Certainly a mobject and certainly not vectorized (`ImageMobject`).
    PlainMobject,
    /// Certainly a mobject, vectorization unknown.
    MobjectUnknownVectorization,
    /// Certainly not a mobject of any kind.
    NonMobject,
}

/// What an instance of the class `id` is. Curated functions, methods, and
/// constants say nothing about a value.
pub open spec fn child_of(
    profile: KnowledgeProfile,
    index: ProjectIndex,
    id: Seq<char>,
) -> Option<ChildKind> {
    match profile.spec_symbol(id) {
        Some(entry) => match entry.kind {
            SymbolKind::Vmobject => Some(ChildKind::Vectorized),
            SymbolKind::Mobject => Some(ChildKind::PlainMobject),
            SymbolKind::Scene => Some(ChildKind::NonMobject),
            SymbolKind::Animation => Some(ChildKind::NonMobject),
            SymbolKind::Camera => Some(ChildKind::NonMobject),
            _ => None,
        },
        None => match class_fact(profile, index, id) {
            Some(fact) => match fact.kind {
                ClassKind::Vmobject => Some(ChildKind::Vectorized),
                ClassKind::MobjectOnly => if fact.conclusive {
                    Some(ChildKind::PlainMobject)
                } else {
                    Some(ChildKind::MobjectUnknownVectorization)
                },
                _ => if fact.conclusive {
                    Some(ChildKind::NonMobject)
                } else {
                    None
                },
            },
            None => None,
        },
    }
}

/// Classifies one candidate class id of a child value; `None` is unknown.
fn classify_child_id(profile: &KnowledgeProfile, index: &ProjectIndex, id: &str) -> (child: Option<
    ChildKind,
>)
    ensures
        child == child_of(*profile, *index, id@),
{
    if let Some(entry) = profile.symbol(id) {
        return match entry.kind {
            SymbolKind::Vmobject => Some(ChildKind::Vectorized),
            SymbolKind::Mobject => Some(ChildKind::PlainMobject),
            SymbolKind::Scene => Some(ChildKind::NonMobject),
            SymbolKind::Animation => Some(ChildKind::NonMobject),
            SymbolKind::Camera => Some(ChildKind::NonMobject),
            _ => None,
        };
    }
    match classify_class(profile, index, id) {
        Some(fact) => match fact.kind {
            ClassKind::Vmobject => Some(ChildKind::Vectorized),
            ClassKind::MobjectOnly => if fact.conclusive {
                Some(ChildKind::PlainMobject)
            } else {
                Some(ChildKind::MobjectUnknownVectorization)
            },
            // A negative "not a mobject" claim needs the full base chain.
            _ => if fact.conclusive {
                Some(ChildKind::NonMobject)
            } else {
                None
            },
        },
        None => None,
    }
}

/// Whether all candidates are the same kind of child.
pub open spec fn all_children(
    profile: KnowledgeProfile,
    index: ProjectIndex,
    candidates: Seq<Seq<char>>,
    child: ChildKind,
) -> bool {
    forall|i: int|
        0 <= i < candidates.len() ==> child_of(profile, index, #[trigger] candidates[i]) == Some(
            child,
        )
}

/// The one kind of child that all candidates are.
pub open spec fn uniform_child(
    profile: KnowledgeProfile,
    index: ProjectIndex,
    candidates: Seq<Seq<char>>,
) -> Option<ChildKind> {
    if candidates.len() == 0 {
        None
    } else {
        match child_of(profile, index, candidates[0]) {
            Some(child) => if all_children(profile, index, candidates, child) {
                Some(child)
            } else {
                None
            },
            None => None,
        }
    }
}

/// Uniform child classification over a candidate id set; `None` when the
/// set is empty, mixed, or any candidate is unknown.
fn uniform_child_kind(
    profile: &KnowledgeProfile,
    index: &ProjectIndex,
    candidates: &Vec<String>,
) -> (child: Option<ChildKind>)
    ensures
        child == uniform_child(*profile, *index, texts(candidates@)),
{
    let ghost list = texts(candidates@);
    if candidates.len() == 0 {
        return None;
    }
    assert(list[0] == candidates@[0]@);
    let child: ChildKind = match classify_child_id(profile, index, candidates[0].as_str()) {
        Some(child) => child,
        None => {
            return None;
        },
    };
    let mut i: usize = 1;
    while i < candidates.len()
        invariant
            1 <= i <= candidates@.len(),
            list == texts(candidates@),
            child_of(*profile, *index, list[0]) == Some(child),
            forall|j: int|
                0 <= j < i ==> child_of(*profile, *index, #[trigger] list[j]) == Some(child),
        decreases candidates@.len() - i,
    {
        assert(list[i as int] == candidates@[i as int]@);
        match classify_child_id(profile, index, candidates[i].as_str()) {
            Some(current) => {
                if current != child {
                    return None;
                }
            },
            None => {
                return None;
            },
        }
        i += 1;
    }
    Some(child)
}

// ---------------------------------------------------------------------------
// MLC126: non-mobject child / non-VMobject child in a vectorized family.
// ---------------------------------------------------------------------------

/// What [`MLC126`] declares.
pub open spec fn mlc126() -> MetadataView {
    MetadataView {
        id: "MLC126"@,
        summary: "Family child is not a Mobject, or not a VMobject in a VGroup"@,
        default_enabled: true,
        default_severity: Severity::Error,
        minimum_confidence: Confidence::High,
        implementation_phase: 1,
        required_profiles: seq![],
        required_capabilities: seq!["qualified-calls"@],
        supersedes: seq![],
    }
}

/// Metadata of rule `MLC126`.
#[allow(non_snake_case)]
pub fn MLC126() -> (metadata: &'static RuleMetadata)
    ensures
        metadata@ == mlc126(),
{
    let metadata: &'static RuleMetadata = &RuleMetadata {
        id: "MLC126",
        summary: "Family child is not a Mobject, or not a VMobject in a VGroup",
        default_enabled: true,
        default_severity: Severity::Error,
        minimum_confidence: Confidence::High,
        implementation_phase: 1,
        required_profiles: &[],
        required_capabilities: &["qualified-calls"],
        supersedes: &[],
    };
    assert(metadata@ =~= mlc126());
    metadata
}

/// Non-mobject children of `add` / `Group` / `VGroup`, and plain-Mobject
/// children of vectorized families.
pub struct InvalidFamilyChild;

pub const NON_MOBJECT_END: &'static str = " call: only Mobject instances \
    can join a Manim family, and this value is known not to be one.";

pub const NON_MOBJECT_WHY: &'static str = "`Mobject.add` (and the `Group` / `VGroup` constructors, which call it) \
    validates every child and raises `TypeError` for values that are not \
    Mobject instances; the family is built at construction time, so this \
    fails before anything is rendered (DESIGN §3.4).";

pub const PLAIN_MIDDLE: &'static str = "`: this child is a plain Mobject (not \
    vectorized), and a ";

pub const PLAIN_END: &'static str = " family accepts only VMobject \
    instances.";

pub const PLAIN_WHY: &'static str = "A `VMobject` family stores Bézier point data for every member, so \
    `VGroup` and other vectorized containers reject plain mobjects such \
    as `ImageMobject` with `TypeError`. `Group` is the heterogeneous \
    container that accepts any Mobject (DESIGN §3.4).";

/// Kind of child a literal argument is; `None` literals stay open.
pub open spec fn literal_child(argument: CallArgument) -> Option<ChildKind> {
    match argument.literal {
        Some(LiteralFact::Int(_)) => Some(ChildKind::NonMobject),
        Some(LiteralFact::Float(_)) => Some(ChildKind::NonMobject),
        Some(LiteralFact::Str { value: _, prefix: _, range: _ }) => Some(ChildKind::NonMobject),
        Some(LiteralFact::Bool(_)) => Some(ChildKind::NonMobject),
        _ => None,
    }
}

fn literal_child_kind(argument: &CallArgument) -> (child: Option<ChildKind>)
    ensures
        child == literal_child(*argument),
{
    match &argument.literal {
        Some(LiteralFact::Int(_)) => Some(ChildKind::NonMobject),
        Some(LiteralFact::Float(_)) => Some(ChildKind::NonMobject),
        Some(LiteralFact::Str { value: _, prefix: _, range: _ }) => Some(ChildKind::NonMobject),
        Some(LiteralFact::Bool(_)) => Some(ChildKind::NonMobject),
        _ => None,
    }
}

/// What the value of an argument is confirmed to be.
pub open spec fn argument_child(
    context: RuleContext<'_>,
    profile: KnowledgeProfile,
    argument: CallArgument,
) -> Option<ChildKind> {
    match argument.shape {
        ArgShape::Literal => literal_child(argument),
        ArgShape::Name => uniform_child(
            profile,
            context.project_index,
            texts(argument.kind_candidates@),
        ),
        ArgShape::Call(inner) => if inner < context.qualified_calls.calls@.len()
            && conclusive_receiver(
            context.project_index,
            context.qualified_calls.calls@[inner as int],
        ) {
            uniform_child(
                profile,
                context.project_index,
                texts(context.qualified_calls.calls@[inner as int].candidates@),
            )
        } else {
            None
        },
        _ => None,
    }
}

fn classify_argument(
    context: &RuleContext<'_>,
    profile: &KnowledgeProfile,
    argument: &CallArgument,
) -> (child: Option<ChildKind>)
    ensures
        child == argument_child(*context, *profile, *argument),
{
    let index = &context.project_index;
    match &argument.shape {
        ArgShape::Literal => literal_child_kind(argument),
        ArgShape::Name => uniform_child_kind(profile, index, &argument.kind_candidates),
        ArgShape::Call(inner) => {
            if *inner >= context.qualified_calls.calls.len() {
                return None;
            }
            let call = &context.qualified_calls.calls[*inner];
            if !receiver_conclusive(call, index) {
                return None;
            }
            uniform_child_kind(profile, index, &call.candidates)
        },
        _ => None,
    }
}

/// Evidence about a rejected child.
pub open spec fn child_evidence_of(
    call: QualifiedCall,
    argument: CallArgument,
    kind: Seq<char>,
    container: Container,
) -> EvidenceView {
    let base = EvidenceView::empty().insert("candidates"@, candidates_view(call)).insert(
        "child_kind"@,
        JsonView::Text(kind),
    );
    let listed = if argument.kind_candidates@.len() == 0 {
        base
    } else {
        base.insert("child_candidates"@, text_list(texts(argument.kind_candidates@)))
    };
    listed.insert("container"@, JsonView::Text(container.description()))
}

fn child_evidence(
    call: &QualifiedCall,
    argument: &CallArgument,
    kind: &str,
    container: Container,
) -> (evidence: Evidence)
    ensures
        evidence@ == child_evidence_of(*call, *argument, kind@, container),
{
    let mut evidence = Evidence::new();
    evidence.insert("candidates", candidates_value(call));
    evidence.insert("child_kind", json_text(kind));
    if argument.kind_candidates.len() != 0 {
        evidence.insert("child_candidates", json_texts(&argument.kind_candidates));
    }
    evidence.insert("container", json_text(container.describe()));
    evidence
}

/// The finding for one child argument.
pub open spec fn child_finding(
    context: RuleContext<'_>,
    profile: KnowledgeProfile,
    call: QualifiedCall,
    container: Container,
    argument: CallArgument,
) -> Option<DiagnosticView> {
    let text = slice_in(*context.sources, call.file, argument.range);
    match argument_child(context, profile, argument) {
        Some(ChildKind::NonMobject) => Some(
            basic_report(
                mlc126(),
                context,
                call.file,
                argument.range,
                "Remove `"@ + text + "` from this "@ + container.description() + NON_MOBJECT_END@,
                NON_MOBJECT_WHY@,
                child_evidence_of(call, argument, "non-mobject"@, container),
            ),
        ),
        Some(ChildKind::PlainMobject) => if container.needs_vectorized() {
            Some(
                basic_report(
                    mlc126(),
                    context,
                    call.file,
                    argument.range,
                    "Use `Group(...)` for `"@ + text + PLAIN_MIDDLE@ + container.description()
                        + PLAIN_END@,
                    PLAIN_WHY@,
                    child_evidence_of(
                        call,
                        argument,
                        "non-vmobject-in-vectorized-family"@,
                        container,
                    ),
                ),
            )
        } else {
            None
        },
        _ => None,
    }
}

fn check_child(
    context: &RuleContext<'_>,
    profile: &KnowledgeProfile,
    call: &QualifiedCall,
    container: Container,
    argument: &CallArgument,
) -> (found: Option<Diagnostic>)
    ensures
        report_of(found) == child_finding(*context, *profile, *call, container, *argument),
{
    match classify_argument(context, profile, argument) {
        Some(ChildKind::NonMobject) => {
            let text: String = context.sources.slice(call.file, argument.range);
            Some(
                build_diagnostic(
                    MLC126(),
                    context,
                    call.file,
                    argument.range,
                    cat5(
                        "Remove `",
                        text.as_str(),
                        "` from this ",
                        container.describe(),
                        NON_MOBJECT_END,
                    ),
                    NON_MOBJECT_WHY,
                    child_evidence(call, argument, "non-mobject", container),
                ),
            )
        },
        Some(ChildKind::PlainMobject) => {
            if !container.vectorized_only() {
                return None;
            }
            let text: String = context.sources.slice(call.file, argument.range);
            Some(
                build_diagnostic(
                    MLC126(),
                    context,
                    call.file,
                    argument.range,
                    cat5(
                        "Use `Group(...)` for `",
                        text.as_str(),
                        PLAIN_MIDDLE,
                        container.describe(),
                        PLAIN_END,
                    ),
                    PLAIN_WHY,
                    child_evidence(
                        call,
                        argument,
                        "non-vmobject-in-vectorized-family",
                        container,
                    ),
                ),
            )
        },
        _ => None,
    }
}

/// Findings of a family call, position by position.
pub open spec fn child_finder(
    context: RuleContext<'_>,
    profile: KnowledgeProfile,
    call: QualifiedCall,
    container: Container,
) -> spec_fn(int) -> Seq<DiagnosticView> {
    |p: int|
        match call.spec_positional(p) {
            Some(argument) => found(child_finding(context, profile, call, container, argument)),
            None => Seq::empty(),
        }
}

/// The findings for the call at `i`.
pub open spec fn invalid_children_at(context: RuleContext<'_>, i: int) -> Seq<DiagnosticView> {
    let call = context.qualified_calls.calls@[i];
    match context.knowledge {
        Some(profile) => match container_in(*profile, context.project_index, call) {
            Some(container) => gather(
                call.positional_count as int,
                child_finder(context, *profile, call, container),
            ),
            None => Seq::empty(),
        },
        None => Seq::empty(),
    }
}

fn invalid_children(context: &RuleContext<'_>, i: usize) -> (diagnostics: Vec<Diagnostic>)
    requires
        i < context.qualified_calls.calls@.len(),
    ensures
        reports(diagnostics@) == invalid_children_at(*context, i as int),
{
    let call = &context.qualified_calls.calls[i];
    let mut diagnostics: Vec<Diagnostic> = Vec::new();
    assert(reports(diagnostics@) =~= Seq::empty());
    let profile = match context.knowledge {
        Some(profile) => profile,
        None => {
            return diagnostics;
        },
    };
    let container: Container = match container_of(profile, &context.project_index, call) {
        Some(container) => container,
        None => {
            return diagnostics;
        },
    };
    let mut position: usize = 0;
    while position < call.positional_count
        invariant
            position <= call.positional_count,
            reports(diagnostics@) == gather(
                position as int,
                child_finder(*context, *profile, *call, container),
            ),
        decreases call.positional_count - position,
    {
        let checked: Option<Diagnostic> = match call.positional(position) {
            Some(argument) => check_child(context, profile, call, container, argument),
            None => None,
        };
        push_found(&mut diagnostics, checked);
        position += 1;
    }
    diagnostics
}

/// Findings of [`InvalidFamilyChild`], call by call.
pub open spec fn invalid_children_finder(context: RuleContext<'_>) -> spec_fn(int) -> Seq<DiagnosticView> {
    |i: int| invalid_children_at(context, i)
}

impl Rule for InvalidFamilyChild {
    open spec fn declared(&self) -> MetadataView {
        mlc126()
    }

    open spec fn findings(&self, context: RuleContext<'_>) -> Seq<DiagnosticView> {
        gather(context.qualified_calls.calls@.len() as int, invalid_children_finder(context))
    }

    fn metadata(&self) -> (metadata: &'static RuleMetadata) {
        MLC126()
    }

    fn run(&self, context: &RuleContext<'_>) -> (diagnostics: Vec<Diagnostic>) {
        let calls = &context.qualified_calls.calls;
        let mut diagnostics: Vec<Diagnostic> = Vec::new();
        let mut i: usize = 0;
        assert(reports(diagnostics@) =~= Seq::empty());
        while i < calls.len()
            invariant
                i <= calls@.len(),
                calls@ == context.qualified_calls.calls@,
                reports(diagnostics@) == gather(i as int, invalid_children_finder(*context)),
            decreases calls@.len() - i,
        {
            push_all(&mut diagnostics, invalid_children(context, i));
            i += 1;
        }
        diagnostics
    }
}

// ---------------------------------------------------------------------------
// MLC127: duplicate child in one add() / VGroup() / Group() call.
// ---------------------------------------------------------------------------

/// What [`MLC127`] declares.
pub open spec fn mlc127() -> MetadataView {
    MetadataView {
        id: "MLC127"@,
        summary: "Duplicate child passed twice in one add() / VGroup() / Group()"@,
        default_enabled: true,
        default_severity: Severity::Info,
        minimum_confidence: Confidence::Certain,
        implementation_phase: 1,
        required_profiles: seq![],
        required_capabilities: seq!["qualified-calls"@],
        supersedes: seq![],
    }
}

/// Metadata of rule `MLC127`.
#[allow(non_snake_case)]
pub fn MLC127() -> (metadata: &'static RuleMetadata)
    ensures
        metadata@ == mlc127(),
{
    let metadata: &'static RuleMetadata = &RuleMetadata {
        id: "MLC127",
        summary: "Duplicate child passed twice in one add() / VGroup() / Group()",
        default_enabled: true,
        default_severity: Severity::Info,
        minimum_confidence: Confidence::Certain,
        implementation_phase: 1,
        required_profiles: &[],
        required_capabilities: &["qualified-calls"],
        supersedes: &[],
    };
    assert(metadata@ =~= mlc127());
    metadata
}

/// The same name passed twice to one family call.
pub struct DuplicateChild;

pub const DUPLICATE_END: &'static str = " call: Manim \
    warns and ignores repeated children of a single add.";

pub const DUPLICATE_WHY: &'static str = "`Mobject.add` skips children that are already in the family and only \
    emits a runtime warning, so the second occurrence has no effect; the \
    duplicate argument is dead weight and usually signals a typo \
    (DESIGN §3.4).";

/// The name passed at a position, when it is a plain name.
pub open spec fn name_at(context: RuleContext<'_>, call: QualifiedCall, position: int) -> Option<
    Seq<char>,
> {
    match call.spec_positional(position) {
        Some(argument) => if argument.shape is Name {
            Some(slice_in(*context.sources, call.file, argument.range))
        } else {
            None
        },
        None => None,
    }
}

fn passed_name(context: &RuleContext<'_>, call: &QualifiedCall, position: usize) -> (name: Option<
    String,
>)
    ensures
        match name {
            Some(found) => name_at(*context, *call, position as int) == Some(found@),
            None => name_at(*context, *call, position as int) is None,
        },
{
    match call.positional(position) {
        Some(argument) => match &argument.shape {
            ArgShape::Name => Some(context.sources.slice(call.file, argument.range)),
            _ => None,
        },
        None => None,
    }
}

/// Whether an earlier position passes the same name.
pub open spec fn repeats(
    context: RuleContext<'_>,
    call: QualifiedCall,
    position: int,
    name: Seq<char>,
) -> bool {
    exists|q: int| 0 <= q < position && #[trigger] name_at(context, call, q) == Some(name)
}

fn is_repeated(
    context: &RuleContext<'_>,
    call: &QualifiedCall,
    position: usize,
    name: &str,
) -> (repeated: bool)
    ensures
        repeated == repeats(*context, *call, position as int, name@),
{
    let mut q: usize = 0;
    while q < position
        invariant
            q <= position,
            forall|k: int| 0 <= k < q ==> #[trigger] name_at(*context, *call, k) != Some(name@),
        decreases position - q,
    {
        if let Some(other) = passed_name(context, call, q) {
            if same_text(other.as_str(), name) {
                return true;
            }
        }
        q += 1;
    }
    false
}

/// Number of commas in a text.
pub open spec fn commas(text: Seq<char>) -> nat
    decreases text.len(),
{
    if text.len() == 0 {
        0
    } else {
        commas(text.drop_last()) + if text.last() == ',' {
            1nat
        } else {
            0nat
        }
    }
}

/// Whether a text is one comma with white space around it.
pub open spec fn separator_only(text: Seq<char>) -> bool {
    commas(text) == 1 && forall|i: int|
        0 <= i < text.len() ==> #[trigger] text[i] == ',' || white_space(text[i])
}

fn is_separator(text: &str) -> (separator: bool)
    ensures
        separator == separator_only(text@),
{
    let len: usize = text.unicode_len();
    let mut count: usize = 0;
    let mut i: usize = 0;
    assert(text@.take(0) =~= Seq::empty());
    while i < len
        invariant
            i <= len,
            len == text@.len(),
            count == commas(text@.take(i as int)),
            count <= i,
            forall|j: int| 0 <= j < i ==> #[trigger] text@[j] == ',' || white_space(text@[j]),
        decreases len - i,
    {
        let c: char = text.get_char(i);
        assert(text@.take(i + 1).drop_last() =~= text@.take(i as int));
        if c == ',' {
            count += 1;
        } else if !is_whitespace(c) {
            return false;
        }
        i += 1;
    }
    assert(text@.take(i as int) =~= text@);
    count == 1
}

/// Removal of the argument at `position` with the comma before it.
pub open spec fn removal_fix_of(
    context: RuleContext<'_>,
    call: QualifiedCall,
    position: int,
    argument: CallArgument,
) -> Option<FixView> {
    if 0 < position <= call.arguments@.len() && separator_only(
        slice_in(
            *context.sources,
            call.file,
            TextRange {
                start: call.arguments@[position - 1].range.end,
                end: argument.range.start,
            },
        ),
    ) {
        Some(
            single_edit(
                FixApplicability::Safe,
                "Remove the duplicate `"@ + slice_in(*context.sources, call.file, argument.range)
                    + "` argument"@,
                edit_at(
                    context,
                    call.file,
                    TextRange {
                        start: call.arguments@[position - 1].range.end,
                        end: argument.range.end,
                    },
                    ""@,
                ),
            ),
        )
    } else {
        None
    }
}

/// Safe fix removing the duplicate argument together with its separating
/// comma. Only produced when the text between the previous argument and the
/// duplicate is exactly one comma plus whitespace, so the edit is provably
/// parse-preserving.
fn removal_fix(
    context: &RuleContext<'_>,
    call: &QualifiedCall,
    position: usize,
    argument: &CallArgument,
) -> (fix: Option<Fix>)
    ensures
        match fix {
            Some(found) => removal_fix_of(*context, *call, position as int, *argument) == Some(
                found@,
            ),
            None => removal_fix_of(*context, *call, position as int, *argument) is None,
        },
{
    if position == 0 || position > call.arguments.len() {
        return None;
    }
    let previous = &call.arguments[position - 1];
    let gap: String = context.sources.slice(
        call.file,
        TextRange::new(previous.range.end, argument.range.start),
    );
    if !is_separator(gap.as_str()) {
        return None;
    }
    let name: String = context.sources.slice(call.file, argument.range);
    Some(
        one_edit(
            FixApplicability::Safe,
            cat3("Remove the duplicate `", name.as_str(), "` argument"),
            text_edit(
                context,
                call.file,
                TextRange::new(previous.range.end, argument.range.end),
                "".to_owned(),
            ),
        ),
    )
}

/// The finding for a repeated name.
pub open spec fn duplicate_finding(
    context: RuleContext<'_>,
    call: QualifiedCall,
    container: Container,
    position: int,
) -> Option<DiagnosticView> {
    match (call.spec_positional(position), name_at(context, call, position)) {
        (Some(argument), Some(name)) => if repeats(context, call, position, name) {
            Some(
                DiagnosticView {
                    fix: removal_fix_of(context, call, position, argument),
                    ..basic_report(
                        mlc127(),
                        context,
                        call.file,
                        argument.range,
                        "Remove the duplicate `"@ + name + "` from this "@
                            + container.description() + DUPLICATE_END@,
                        DUPLICATE_WHY@,
                        EvidenceView::empty().insert("candidates"@, candidates_view(call)).insert(
                            "duplicate_name"@,
                            JsonView::Text(name),
                        ),
                    )
                },
            )
        } else {
            None
        },
        _ => None,
    }
}

fn check_duplicate(
    context: &RuleContext<'_>,
    call: &QualifiedCall,
    container: Container,
    position: usize,
) -> (found: Option<Diagnostic>)
    ensures
        report_of(found) == duplicate_finding(*context, *call, container, position as int),
{
    let argument = match call.positional(position) {
        Some(argument) => argument,
        None => {
            return None;
        },
    };
    let name: String = match passed_name(context, call, position) {
        Some(name) => name,
        None => {
            return None;
        },
    };
    if !is_repeated(context, call, position, name.as_str()) {
        return None;
    }
    let mut evidence = Evidence::new();
    evidence.insert("candidates", candidates_value(call));
    evidence.insert("duplicate_name", json_text(name.as_str()));
    let mut diagnostic = build_diagnostic(
        MLC127(),
        context,
        call.file,
        argument.range,
        cat5(
            "Remove the duplicate `",
            name.as_str(),
            "` from this ",
            container.describe(),
            DUPLICATE_END,
        ),
        DUPLICATE_WHY,
        evidence,
    );
    diagnostic.fix = removal_fix(context, call, position, argument);
    Some(diagnostic)
}

/// Findings of a family call, position by position.
pub open spec fn duplicate_finder(
    context: RuleContext<'_>,
    call: QualifiedCall,
    container: Container,
) -> spec_fn(int) -> Seq<DiagnosticView> {
    |p: int| found(duplicate_finding(context, call, container, p))
}

/// The findings for the call at `i`.
pub open spec fn duplicates_at(context: RuleContext<'_>, i: int) -> Seq<DiagnosticView> {
    let call = context.qualified_calls.calls@[i];
    match context.knowledge {
        Some(profile) => match container_in(*profile, context.project_index, call) {
            Some(container) => gather(
                call.positional_count as int,
                duplicate_finder(context, call, container),
            ),
            None => Seq::empty(),
        },
        None => Seq::empty(),
    }
}

fn duplicates(context: &RuleContext<'_>, i: usize) -> (diagnostics: Vec<Diagnostic>)
    requires
        i < context.qualified_calls.calls@.len(),
    ensures
        reports(diagnostics@) == duplicates_at(*context, i as int),
{
    let call = &context.qualified_calls.calls[i];
    let mut diagnostics: Vec<Diagnostic> = Vec::new();
    assert(reports(diagnostics@) =~= Seq::empty());
    let profile = match context.knowledge {
        Some(profile) => profile,
        None => {
            return diagnostics;
        },
    };
    let container: Container = match container_of(profile, &context.project_index, call) {
        Some(container) => container,
        None => {
            return diagnostics;
        },
    };
    let mut position: usize = 0;
    while position < call.positional_count
        invariant
            position <= call.positional_count,
            reports(diagnostics@) == gather(
                position as int,
                duplicate_finder(*context, *call, container),
            ),
        decreases call.positional_count - position,
    {
        push_found(&mut diagnostics, check_duplicate(context, call, container, position));
        position += 1;
    }
    diagnostics
}

/// Findings of [`DuplicateChild`], call by call.
pub open spec fn duplicates_finder(context: RuleContext<'_>) -> spec_fn(int) -> Seq<DiagnosticView> {
    |i: int| duplicates_at(context, i)
}

impl Rule for DuplicateChild {
    open spec fn declared(&self) -> MetadataView {
        mlc127()
    }

    open spec fn findings(&self, context: RuleContext<'_>) -> Seq<DiagnosticView> {
        gather(context.qualified_calls.calls@.len() as int, duplicates_finder(context))
    }

    fn metadata(&self) -> (metadata: &'static RuleMetadata) {
        MLC127()
    }

    fn run(&self, context: &RuleContext<'_>) -> (diagnostics: Vec<Diagnostic>) {
        let calls = &context.qualified_calls.calls;
        let mut diagnostics: Vec<Diagnostic> = Vec::new();
        let mut i: usize = 0;
        assert(reports(diagnostics@) =~= Seq::empty());
        while i < calls.len()
            invariant
                i <= calls@.len(),
                calls@ == context.qualified_calls.calls@,
                reports(diagnostics@) == gather(i as int, duplicates_finder(*context)),
            decreases calls@.len() - i,
        {
            push_all(&mut diagnostics, duplicates(context, i));
            i += 1;
        }
        diagnostics
    }
}

} // verus!
