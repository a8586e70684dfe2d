//! Play-argument rules: `MLC101`, `MLC102`, `MLC103`, `MLC109`, `MLC122`.
//!
//! `Scene.play` compiles its positional arguments: Animation instances pass
//! through, `.animate` builders become animations, and everything else
//! raises `TypeError` at render time. These rules confirm the call target
//! through the knowledge profile before firing.
use super::support::{
    agreed_symbol, all_conclusive_mobjects, all_sure_mobjects, bases_known, bound_receiver,
    candidates_value, candidates_view, class_complete, class_fact, classify_class, common_symbol,
    conclusive_receiver, conclusive_target, dotted_name, is_bound, mobject_method, owned_by_mobject,
    receiver_conclusive, simple_dotted, target_of, targets, ANIMATION_GROUP, APPLY_METHOD,
    ClassKind, SCENE_PLAY, SUCCESSION,
};
use crate::diagnostic::{
    one_edit, push_all, push_found, report_of, reports, single_edit, Confidence, Diagnostic,
    DiagnosticView, Fix, FixApplicability, FixView, MetadataView, RuleMetadata, Severity,
};
use crate::frontend::{
    ArgShape, AttributeFact, CallArgument, LiteralFact, ProjectIndex, QualifiedCall, ReceiverKind,
};
use crate::json::{json_text, json_texts, text_list, Evidence, EvidenceView, JsonView};
use crate::knowledge::{
    member_of, owner_of, resolve_symbol, resolved, rsplit_dot, KnowledgeProfile, SymbolKind,
};
use crate::rules::base::{basic_report, build_diagnostic, edit_at, text_edit, Rule, RuleContext};
use crate::source::{slice_in, TextRange};
use crate::text::{
    cat2, cat3, cat5, cat7, contains_text, found, gather, has_part, join, joined, last_segment,
    same_text, short_name, texts,
};
use vstd::prelude::*;

verus! {

/// Whether a call is confirmed to target `Scene.play` on a bound receiver.
pub open spec fn confirmed_play(context: RuleContext<'_>, call: QualifiedCall) -> bool {
    match context.knowledge {
        Some(profile) => is_bound(call) && target_of(*profile, context.project_index, call)
            == Some(SCENE_PLAY@),
        None => false,
    }
}

fn is_confirmed_play(context: &RuleContext<'_>, call: &QualifiedCall) -> (confirmed: bool)
    ensures
        confirmed == confirmed_play(*context, *call),
{
    match context.knowledge {
        Some(profile) => bound_receiver(call) && targets(
            profile,
            &context.project_index,
            call,
            SCENE_PLAY,
        ),
        None => false,
    }
}

// ---------------------------------------------------------------------------
// MLC101: Scene.play() with zero animations.
// ---------------------------------------------------------------------------

/// What [`MLC101`] declares.
pub open spec fn mlc101() -> MetadataView {
    MetadataView {
        id: "MLC101"@,
        summary: "Scene.play requires at least one animation"@,
        default_enabled: true,
        default_severity: Severity::Error,
        minimum_confidence: Confidence::Certain,
        implementation_phase: 1,
        required_profiles: seq![],
        required_capabilities: seq!["qualified-calls"@],
        supersedes: seq![],
    }
}

/// Metadata of rule `MLC101`.
#[allow(non_snake_case)]
pub fn MLC101() -> (metadata: &'static RuleMetadata)
    ensures
        metadata@ == mlc101(),
{
    let metadata: &'static RuleMetadata = &RuleMetadata {
        id: "MLC101",
        summary: "Scene.play requires at least one animation",
        default_enabled: true,
        default_severity: Severity::Error,
        minimum_confidence: Confidence::Certain,
        implementation_phase: 1,
        required_profiles: &[],
        required_capabilities: &["qualified-calls"],
        supersedes: &[],
    };
    assert(metadata@ =~= mlc101());
    metadata
}

/// `self.play()` with zero positional arguments.
pub struct EmptyPlay;

pub const NO_ARGUMENTS: &'static str = "Pass at least one animation to `Scene.play()`; calling it with no \
    arguments raises `ValueError` at render time.";

pub const KEYWORDS_ALONE: &'static str = "Pass at least one animation to `Scene.play()`; keyword arguments \
    alone (";

pub const KEYWORDS_ALONE_END: &'static str = ") provide zero animations and the call raises \
    `ValueError` at render time.";

pub const EMPTY_PLAY_WHY: &'static str = "`Scene.play` compiles its positional arguments into \
    animations before rendering; play kwargs such as `run_time` only \
    configure animations that were passed, so an argument-less play has \
    nothing to render.";

/// Keyword names as they are listed in a message.
pub open spec fn keyword_items(names: Seq<Seq<char>>) -> Seq<Seq<char>> {
    Seq::new(names.len(), |i: int| "`"@ + names[i] + "=...`"@)
}

fn keyword_list(call: &QualifiedCall) -> (text: String)
    ensures
        text@ == joined(keyword_items(texts(call.keyword_names@)), ", "@),
{
    let mut items: Vec<String> = Vec::new();
    let mut i: usize = 0;
    while i < call.keyword_names.len()
        invariant
            i <= call.keyword_names@.len(),
            items@.len() == i,
            forall|j: int|
                0 <= j < i ==> (#[trigger] items@[j])@ == "`"@ + call.keyword_names@[j]@
                    + "=...`"@,
        decreases call.keyword_names@.len() - i,
    {
        items.push(cat3("`", call.keyword_names[i].as_str(), "=...`"));
        i += 1;
    }
    assert(texts(items@) =~= keyword_items(texts(call.keyword_names@)));
    join(&items, ", ")
}

/// Message for a play without animations.
pub open spec fn empty_play_message(call: QualifiedCall) -> Seq<char> {
    if call.keyword_names@.len() == 0 {
        NO_ARGUMENTS@
    } else {
        KEYWORDS_ALONE@ + joined(keyword_items(texts(call.keyword_names@)), ", "@)
            + KEYWORDS_ALONE_END@
    }
}

/// The finding for the call at `i`.
pub open spec fn empty_play_at(context: RuleContext<'_>, i: int) -> Option<DiagnosticView> {
    let call = context.qualified_calls.calls@[i];
    if confirmed_play(context, call) && !call.has_star_args && call.positional_count == 0 {
        Some(
            basic_report(
                mlc101(),
                context,
                call.file,
                call.call_range,
                empty_play_message(call),
                EMPTY_PLAY_WHY@,
                EvidenceView::empty().insert("resolved"@, JsonView::Text(SCENE_PLAY@)).insert(
                    "candidates"@,
                    candidates_view(call),
                ).insert("keyword_names"@, text_list(texts(call.keyword_names@))),
            ),
        )
    } else {
        None
    }
}

fn empty_play(context: &RuleContext<'_>, i: usize) -> (found: Option<Diagnostic>)
    requires
        i < context.qualified_calls.calls@.len(),
    ensures
        report_of(found) == empty_play_at(*context, i as int),
{
    let call = &context.qualified_calls.calls[i];
    // A `*args` splat may supply animations at runtime.
    if !is_confirmed_play(context, call) || call.has_star_args || call.positional_count != 0 {
        return None;
    }
    let message: String = if call.keyword_names.len() == 0 {
        NO_ARGUMENTS.to_owned()
    } else {
        cat3(KEYWORDS_ALONE, keyword_list(call).as_str(), KEYWORDS_ALONE_END)
    };
    let mut evidence = Evidence::new();
    evidence.insert("resolved", json_text(SCENE_PLAY));
    evidence.insert("candidates", candidates_value(call));
    evidence.insert("keyword_names", json_texts(&call.keyword_names));
    Some(
        build_diagnostic(
            MLC101(),
            context,
            call.file,
            call.call_range,
            message,
            EMPTY_PLAY_WHY,
            evidence,
        ),
    )
}

/// Findings of [`EmptyPlay`], call by call.
pub open spec fn empty_play_finder(context: RuleContext<'_>) -> spec_fn(int) -> Seq<DiagnosticView> {
    |i: int| found(empty_play_at(context, i))
}

impl Rule for EmptyPlay {
    open spec fn declared(&self) -> MetadataView {
        mlc101()
    }

    open spec fn findings(&self, context: RuleContext<'_>) -> Seq<DiagnosticView> {
        gather(context.qualified_calls.calls@.len() as int, empty_play_finder(context))
    }

    fn metadata(&self) -> (metadata: &'static RuleMetadata) {
        MLC101()
    }

    fn run(&self, context: &RuleContext<'_>) -> (diagnostics: Vec<Diagnostic>) {
        let calls = &context.qualified_calls.calls;
        let mut diagnostics: Vec<Diagnostic> = Vec::new();
        let mut i: usize = 0;
        assert(reports(diagnostics@) =~= Seq::empty());
        while i < calls.len()
            invariant
                i <= calls@.len(),
                calls@ == context.qualified_calls.calls@,
                reports(diagnostics@) == gather(i as int, empty_play_finder(*context)),
            decreases calls@.len() - i,
        {
            push_found(&mut diagnostics, empty_play(context, i));
            i += 1;
        }
        diagnostics
    }
}

// ---------------------------------------------------------------------------
// Inner-call classification shared by MLC102 and MLC122.
// ---------------------------------------------------------------------------

/// What a call expression passed as an argument is confirmed to produce.
pub enum InnerVerdict {
    /// The mobject itself, mutated by the method with this canonical id.
    MethodResult(String),
    /// A bare mobject of the class with this id.
    Constructed(String),
    /// An animation: a valid play argument.
    Animation,
}

/// What an [`InnerVerdict`] says.
pub enum InnerView {
    MethodResult(Seq<char>),
    Constructed(Seq<char>),
    Animation,
}

impl View for InnerVerdict {
    type V = InnerView;

    open spec fn view(&self) -> InnerView {
        match self {
            InnerVerdict::MethodResult(id) => InnerView::MethodResult(id@),
            InnerVerdict::Constructed(id) => InnerView::Constructed(id@),
            InnerVerdict::Animation => InnerView::Animation,
        }
    }
}

/// What a call of `candidate` produces; nothing when unknown.
pub open spec fn candidate_verdict(
    profile: KnowledgeProfile,
    index: ProjectIndex,
    candidate: Seq<char>,
) -> Option<InnerView> {
    match resolved(profile, candidate) {
        Some(id) => match profile.spec_symbol(id) {
            Some(entry) => match entry.kind {
                SymbolKind::Method => if entry.returns_self == Some(true) && mobject_method(
                    profile,
                    index,
                    id,
                ) {
                    Some(InnerView::MethodResult(id))
                } else {
                    None
                },
                SymbolKind::Mobject => Some(InnerView::Constructed(id)),
                SymbolKind::Vmobject => Some(InnerView::Constructed(id)),
                SymbolKind::Animation => Some(InnerView::Animation),
                _ => None,
            },
            None => None,
        },
        None => match class_fact(profile, index, candidate) {
            Some(fact) => if fact.kind == ClassKind::Animation {
                Some(InnerView::Animation)
            } else if fact.sure_mobject() {
                Some(InnerView::Constructed(candidate))
            } else {
                None
            },
            None => None,
        },
    }
}

fn classify_inner_candidate(
    profile: &KnowledgeProfile,
    index: &ProjectIndex,
    candidate: &str,
) -> (verdict: Option<InnerVerdict>)
    ensures
        match verdict {
            Some(found) => candidate_verdict(*profile, *index, candidate@) == Some(found@),
            None => candidate_verdict(*profile, *index, candidate@) is None,
        },
{
    if let Some((canonical, entry)) = resolve_symbol(profile, candidate) {
        return match entry.kind {
            SymbolKind::Method => {
                let mutates: bool = match entry.returns_self {
                    Some(value) => value,
                    None => false,
                };
                if mutates && owned_by_mobject(profile, index, canonical.as_str()) {
                    Some(InnerVerdict::MethodResult(canonical))
                } else {
                    None
                }
            },
            SymbolKind::Mobject => Some(InnerVerdict::Constructed(canonical)),
            SymbolKind::Vmobject => Some(InnerVerdict::Constructed(canonical)),
            SymbolKind::Animation => Some(InnerVerdict::Animation),
            _ => None,
        };
    }
    // A project class constructed directly (e.g. a custom Mobject subclass).
    match classify_class(profile, index, candidate) {
        Some(fact) => {
            if fact.kind == ClassKind::Animation {
                Some(InnerVerdict::Animation)
            } else if fact.conclusive_mobject() {
                Some(InnerVerdict::Constructed(candidate.to_owned()))
            } else {
                None
            }
        },
        None => None,
    }
}

/// Whether every candidate of a list produces `verdict`.
pub open spec fn all_produce(
    profile: KnowledgeProfile,
    index: ProjectIndex,
    candidates: Seq<Seq<char>>,
    verdict: InnerView,
) -> bool {
    forall|i: int|
        0 <= i < candidates.len() ==> candidate_verdict(profile, index, #[trigger] candidates[i])
            == Some(verdict)
}

/// What the call `inner` produces, when all its candidates agree. A callee
/// whose text holds `.animate` builds an animation and is left out.
pub open spec fn verdict_of(
    profile: KnowledgeProfile,
    index: ProjectIndex,
    callee_text: Seq<char>,
    inner: QualifiedCall,
) -> Option<InnerView> {
    let candidates = texts(inner.candidates@);
    if contains_text(callee_text, ".animate"@) || candidates.len() == 0 || !conclusive_receiver(
        index,
        inner,
    ) {
        None
    } else {
        match candidate_verdict(profile, index, candidates[0]) {
            Some(verdict) => if all_produce(profile, index, candidates, verdict) {
                Some(verdict)
            } else {
                None
            },
            None => None,
        }
    }
}

fn same_verdict(a: &InnerVerdict, b: &InnerVerdict) -> (same: bool)
    ensures
        same == (a@ == b@),
{
    match (a, b) {
        (InnerVerdict::MethodResult(x), InnerVerdict::MethodResult(y)) => same_text(
            x.as_str(),
            y.as_str(),
        ),
        (InnerVerdict::Constructed(x), InnerVerdict::Constructed(y)) => same_text(
            x.as_str(),
            y.as_str(),
        ),
        (InnerVerdict::Animation, InnerVerdict::Animation) => true,
        _ => false,
    }
}

/// Uniform verdict over every candidate of an inner call expression;
/// `None` when candidates are missing, mixed, or unknown.
fn inner_verdict(
    profile: &KnowledgeProfile,
    index: &ProjectIndex,
    callee_text: &str,
    inner: &QualifiedCall,
) -> (verdict: Option<InnerVerdict>)
    ensures
        match verdict {
            Some(found) => verdict_of(*profile, *index, callee_text@, *inner) == Some(found@),
            None => verdict_of(*profile, *index, callee_text@, *inner) is None,
        },
{
    let ghost candidates = texts(inner.candidates@);
    // `.animate` chains build animations; never classify through them.
    if has_part(callee_text, ".animate") {
        return None;
    }
    if inner.candidates.len() == 0 || !receiver_conclusive(inner, index) {
        return None;
    }
    assert(candidates[0] == inner.candidates@[0]@);
    let verdict = match classify_inner_candidate(profile, index, inner.candidates[0].as_str()) {
        Some(verdict) => verdict,
        None => {
            return None;
        },
    };
    let mut i: usize = 1;
    while i < inner.candidates.len()
        invariant
            1 <= i <= inner.candidates@.len(),
            candidates == texts(inner.candidates@),
            !contains_text(callee_text@, ".animate"@),
            conclusive_receiver(*index, *inner),
            candidate_verdict(*profile, *index, candidates[0]) == Some(verdict@),
            forall|j: int|
                0 <= j < i ==> candidate_verdict(*profile, *index, #[trigger] candidates[j])
                    == Some(verdict@),
        decreases inner.candidates@.len() - i,
    {
        assert(candidates[i as int] == inner.candidates@[i as int]@);
        match classify_inner_candidate(profile, index, inner.candidates[i].as_str()) {
            Some(current) => {
                if !same_verdict(&current, &verdict) {
                    return None;
                }
            },
            None => {
                return None;
            },
        }
        i += 1;
    }
    Some(verdict)
}

// ---------------------------------------------------------------------------
// MLC102: play() argument not convertible to an Animation.
// ---------------------------------------------------------------------------

/// What [`MLC102`] declares.
pub open spec fn mlc102() -> MetadataView {
    MetadataView {
        id: "MLC102"@,
        summary: "Scene.play argument cannot be converted to an Animation"@,
        default_enabled: true,
        default_severity: Severity::Error,
        minimum_confidence: Confidence::High,
        implementation_phase: 1,
        required_profiles: seq![],
        required_capabilities: seq!["qualified-calls"@],
        supersedes: seq![],
    }
}

/// Metadata of rule `MLC102`.
#[allow(non_snake_case)]
pub fn MLC102() -> (metadata: &'static RuleMetadata)
    ensures
        metadata@ == mlc102(),
{
    let metadata: &'static RuleMetadata = &RuleMetadata {
        id: "MLC102",
        summary: "Scene.play argument cannot be converted to an Animation",
        default_enabled: true,
        default_severity: Severity::Error,
        minimum_confidence: Confidence::High,
        implementation_phase: 1,
        required_profiles: &[],
        required_capabilities: &["qualified-calls"],
        supersedes: &[],
    };
    assert(metadata@ =~= mlc102());
    metadata
}

/// `play(mob.shift(...))`, bare mobjects, and literals passed to `play`.
pub struct NonAnimationPlayArgument;

pub const NOT_AN_ANIMATION: &'static str = "`Scene.play` converts each positional argument during compilation: Animation \
    instances pass through and `.animate` builders become animations; every other \
    value raises `TypeError` at render time (DESIGN §3.2).";

pub const LITERAL_END: &'static str = "` from `Scene.play()`: play arguments \
    must be animations or `.animate` builders.";

pub const BARE_END: &'static str = ")`) before passing it to `Scene.play()`.";

pub const MUTATES: &'static str = "(...)` mutates the mobject immediately and returns \
    the mobject itself, not an Animation; use \
    `.animate` (e.g. `";

pub const CONSTRUCTS: &'static str = "` constructs a bare mobject; wrap it in an animation \
    (e.g. `Create(...)` or `FadeIn(...)`) before passing it to \
    `Scene.play()`.";

/// Evidence every finding about a play argument carries.
pub open spec fn play_evidence(call: QualifiedCall) -> EvidenceView {
    EvidenceView::empty().insert("resolved"@, JsonView::Text(SCENE_PLAY@)).insert(
        "candidates"@,
        candidates_view(call),
    )
}

fn base_evidence(call: &QualifiedCall) -> (evidence: Evidence)
    ensures
        evidence@ == play_evidence(*call),
{
    let mut evidence = Evidence::new();
    evidence.insert("resolved", json_text(SCENE_PLAY));
    evidence.insert("candidates", candidates_value(call));
    evidence
}

/// Kind of literal that is no animation.
pub open spec fn literal_kind(argument: CallArgument) -> Option<Seq<char>> {
    match argument.literal {
        Some(LiteralFact::Int(_)) => Some("number"@),
        Some(LiteralFact::Float(_)) => Some("number"@),
        Some(LiteralFact::Str { value: _, prefix: _, range: _ }) => Some("string"@),
        _ => None,
    }
}

/// The finding for a literal argument.
pub open spec fn literal_finding(
    context: RuleContext<'_>,
    call: QualifiedCall,
    argument: CallArgument,
) -> Option<DiagnosticView> {
    match literal_kind(argument) {
        Some(kind) => Some(
            basic_report(
                mlc102(),
                context,
                call.file,
                argument.range,
                "Remove the "@ + kind + " literal `"@ + slice_in(
                    *context.sources,
                    call.file,
                    argument.range,
                ) + LITERAL_END@,
                NOT_AN_ANIMATION@,
                play_evidence(call).insert(
                    "argument_kind"@,
                    JsonView::Text("literal-"@ + kind),
                ),
            ),
        ),
        None => None,
    }
}

fn literal_argument(
    context: &RuleContext<'_>,
    call: &QualifiedCall,
    argument: &CallArgument,
) -> (found: Option<Diagnostic>)
    ensures
        report_of(found) == literal_finding(*context, *call, *argument),
{
    let kind: &'static str = match &argument.literal {
        Some(LiteralFact::Int(_)) => "number",
        Some(LiteralFact::Float(_)) => "number",
        Some(LiteralFact::Str { value: _, prefix: _, range: _ }) => "string",
        _ => {
            return None;
        },
    };
    let text: String = context.sources.slice(call.file, argument.range);
    let mut evidence = base_evidence(call);
    evidence.insert("argument_kind", json_text(cat2("literal-", kind).as_str()));
    Some(
        build_diagnostic(
            MLC102(),
            context,
            call.file,
            argument.range,
            cat5("Remove the ", kind, " literal `", text.as_str(), LITERAL_END),
            NOT_AN_ANIMATION,
            evidence,
        ),
    )
}

/// The finding for a name argument.
pub open spec fn name_finding(
    context: RuleContext<'_>,
    profile: KnowledgeProfile,
    call: QualifiedCall,
    argument: CallArgument,
) -> Option<DiagnosticView> {
    let kinds = texts(argument.kind_candidates@);
    let text = slice_in(*context.sources, call.file, argument.range);
    if kinds.len() > 0 && all_sure_mobjects(profile, context.project_index, kinds) {
        Some(
            basic_report(
                mlc102(),
                context,
                call.file,
                argument.range,
                "Wrap the bare mobject `"@ + text + "` in an animation (e.g. `Create("@ + text
                    + ")` or `FadeIn("@ + text + BARE_END@,
                NOT_AN_ANIMATION@,
                play_evidence(call).insert(
                    "argument_kind"@,
                    JsonView::Text("bare-mobject"@),
                ).insert("kind_candidates"@, text_list(kinds)),
            ),
        )
    } else {
        None
    }
}

fn name_argument(
    context: &RuleContext<'_>,
    profile: &KnowledgeProfile,
    call: &QualifiedCall,
    argument: &CallArgument,
) -> (found: Option<Diagnostic>)
    ensures
        report_of(found) == name_finding(*context, *profile, *call, *argument),
{
    if argument.kind_candidates.len() == 0 || !all_conclusive_mobjects(
        profile,
        &context.project_index,
        &argument.kind_candidates,
    ) {
        return None;
    }
    let text: String = context.sources.slice(call.file, argument.range);
    let mut evidence = base_evidence(call);
    evidence.insert("argument_kind", json_text("bare-mobject"));
    evidence.insert("kind_candidates", json_texts(&argument.kind_candidates));
    Some(
        build_diagnostic(
            MLC102(),
            context,
            call.file,
            argument.range,
            cat7(
                "Wrap the bare mobject `",
                text.as_str(),
                "` in an animation (e.g. `Create(",
                text.as_str(),
                ")` or `FadeIn(",
                text.as_str(),
                BARE_END,
            ),
            NOT_AN_ANIMATION,
            evidence,
        ),
    )
}

/// `sq.animate.shift` for `sq.shift`, when the callee is a dotted name.
pub open spec fn animated(callee_text: Seq<char>) -> Option<Seq<char>> {
    if dotted_name(callee_text) {
        match owner_of(callee_text) {
            Some(base) => Some(base + ".animate."@ + member_of(callee_text)),
            None => None,
        }
    } else {
        None
    }
}

/// `sq.shift` → `sq.animate.shift`, when the callee is a simple dotted name.
fn animate_callee(callee_text: &str) -> (callee: Option<String>)
    ensures
        match callee {
            Some(text) => animated(callee_text@) == Some(text@),
            None => animated(callee_text@) is None,
        },
{
    if !simple_dotted(callee_text) {
        return None;
    }
    match rsplit_dot(callee_text) {
        Some((base, method)) => Some(cat3(base.as_str(), ".animate.", method.as_str())),
        None => None,
    }
}

/// The `.animate` rewrite of one fluent call.
pub open spec fn animate_fix_of(
    context: RuleContext<'_>,
    call: QualifiedCall,
    inner: QualifiedCall,
    callee_text: Seq<char>,
) -> Option<FixView> {
    match animated(callee_text) {
        Some(replacement) => if inner.receiver is KnownInstance {
            Some(
                single_edit(
                    FixApplicability::Unsafe,
                    "Replace `"@ + callee_text + "(...)` with `"@ + replacement + "(...)`"@,
                    edit_at(context, call.file, inner.callee_range, replacement),
                ),
            )
        } else {
            None
        },
        None => None,
    }
}

/// Unsafe suggestion converting `mob.method(args)` to
/// `mob.animate.method(args)` for a single fluent call.
fn animate_fix(
    context: &RuleContext<'_>,
    call: &QualifiedCall,
    inner: &QualifiedCall,
    callee_text: &str,
) -> (fix: Option<Fix>)
    ensures
        match fix {
            Some(found) => animate_fix_of(*context, *call, *inner, callee_text@) == Some(found@),
            None => animate_fix_of(*context, *call, *inner, callee_text@) is None,
        },
{
    let instance: bool = match &inner.receiver {
        ReceiverKind::KnownInstance(_) => true,
        _ => false,
    };
    if !instance {
        return None;
    }
    match animate_callee(callee_text) {
        Some(replacement) => Some(
            one_edit(
                FixApplicability::Unsafe,
                cat5("Replace `", callee_text, "(...)` with `", replacement.as_str(), "(...)`"),
                text_edit(context, call.file, inner.callee_range, replacement),
            ),
        ),
        None => None,
    }
}

/// The finding for a call argument.
pub open spec fn call_finding(
    context: RuleContext<'_>,
    profile: KnowledgeProfile,
    call: QualifiedCall,
    argument: CallArgument,
    inner: QualifiedCall,
) -> Option<DiagnosticView> {
    let callee_text = slice_in(*context.sources, call.file, inner.callee_range);
    match verdict_of(profile, context.project_index, callee_text, inner) {
        Some(InnerView::MethodResult(canonical)) => Some(
            DiagnosticView {
                fix: animate_fix_of(context, call, inner, callee_text),
                ..basic_report(
                    mlc102(),
                    context,
                    call.file,
                    argument.range,
                    "`"@ + callee_text + MUTATES@ + match animated(callee_text) {
                        Some(text) => text,
                        None => callee_text + " via .animate"@,
                    } + "(...)`) inside `Scene.play()`."@,
                    NOT_AN_ANIMATION@,
                    play_evidence(call).insert(
                        "argument_kind"@,
                        JsonView::Text("mobject-method-result"@),
                    ).insert("resolved_argument"@, JsonView::Text(canonical)),
                )
            },
        ),
        Some(InnerView::Constructed(canonical)) => Some(
            basic_report(
                mlc102(),
                context,
                call.file,
                argument.range,
                "`"@ + slice_in(*context.sources, call.file, argument.range) + CONSTRUCTS@,
                NOT_AN_ANIMATION@,
                play_evidence(call).insert(
                    "argument_kind"@,
                    JsonView::Text("constructed-mobject"@),
                ).insert("resolved_argument"@, JsonView::Text(canonical)),
            ),
        ),
        _ => None,
    }
}

fn call_argument(
    context: &RuleContext<'_>,
    profile: &KnowledgeProfile,
    call: &QualifiedCall,
    argument: &CallArgument,
    inner: &QualifiedCall,
) -> (found: Option<Diagnostic>)
    ensures
        report_of(found) == call_finding(*context, *profile, *call, *argument, *inner),
{
    let callee_text: String = context.sources.slice(call.file, inner.callee_range);
    match inner_verdict(profile, &context.project_index, callee_text.as_str(), inner) {
        Some(InnerVerdict::MethodResult(canonical)) => {
            let mut evidence = base_evidence(call);
            evidence.insert("argument_kind", json_text("mobject-method-result"));
            evidence.insert("resolved_argument", json_text(canonical.as_str()));
            let fixed: String = match animate_callee(callee_text.as_str()) {
                Some(text) => text,
                None => cat2(callee_text.as_str(), " via .animate"),
            };
            let mut diagnostic = build_diagnostic(
                MLC102(),
                context,
                call.file,
                argument.range,
                cat5(
                    "`",
                    callee_text.as_str(),
                    MUTATES,
                    fixed.as_str(),
                    "(...)`) inside `Scene.play()`.",
                ),
                NOT_AN_ANIMATION,
                evidence,
            );
            diagnostic.fix = animate_fix(context, call, inner, callee_text.as_str());
            Some(diagnostic)
        },
        Some(InnerVerdict::Constructed(canonical)) => {
            let text: String = context.sources.slice(call.file, argument.range);
            let mut evidence = base_evidence(call);
            evidence.insert("argument_kind", json_text("constructed-mobject"));
            evidence.insert("resolved_argument", json_text(canonical.as_str()));
            Some(
                build_diagnostic(
                    MLC102(),
                    context,
                    call.file,
                    argument.range,
                    cat3("`", text.as_str(), CONSTRUCTS),
                    NOT_AN_ANIMATION,
                    evidence,
                ),
            )
        },
        _ => None,
    }
}

/// The finding for one positional argument of a confirmed play.
pub open spec fn argument_finding(
    context: RuleContext<'_>,
    profile: KnowledgeProfile,
    call: QualifiedCall,
    argument: CallArgument,
) -> Option<DiagnosticView> {
    match argument.shape {
        ArgShape::Literal => literal_finding(context, call, argument),
        ArgShape::Name => name_finding(context, profile, call, argument),
        ArgShape::Call(inner) => if inner < context.qualified_calls.calls@.len() {
            call_finding(
                context,
                profile,
                call,
                argument,
                context.qualified_calls.calls@[inner as int],
            )
        } else {
            None
        },
        _ => None,
    }
}

fn check_argument(
    context: &RuleContext<'_>,
    profile: &KnowledgeProfile,
    call: &QualifiedCall,
    argument: &CallArgument,
) -> (found: Option<Diagnostic>)
    ensures
        report_of(found) == argument_finding(*context, *profile, *call, *argument),
{
    match &argument.shape {
        ArgShape::Literal => literal_argument(context, call, argument),
        ArgShape::Name => name_argument(context, profile, call, argument),
        ArgShape::Call(inner) => if *inner < context.qualified_calls.calls.len() {
            call_argument(
                context,
                profile,
                call,
                argument,
                &context.qualified_calls.calls[*inner],
            )
        } else {
            None
        },
        _ => None,
    }
}

/// Findings of a call, position by position.
pub open spec fn position_finder(
    context: RuleContext<'_>,
    call: QualifiedCall,
) -> spec_fn(int) -> Seq<DiagnosticView> {
    |p: int|
        match (context.knowledge, call.spec_positional(p)) {
            (Some(profile), Some(argument)) => found(
                argument_finding(context, *profile, call, argument),
            ),
            _ => Seq::empty(),
        }
}

/// The findings for the call at `i`.
pub open spec fn non_animation_at(context: RuleContext<'_>, i: int) -> Seq<DiagnosticView> {
    let call = context.qualified_calls.calls@[i];
    if confirmed_play(context, call) {
        gather(call.positional_count as int, position_finder(context, call))
    } else {
        Seq::empty()
    }
}

fn non_animation(context: &RuleContext<'_>, i: usize) -> (diagnostics: Vec<Diagnostic>)
    requires
        i < context.qualified_calls.calls@.len(),
    ensures
        reports(diagnostics@) == non_animation_at(*context, i as int),
{
    let call = &context.qualified_calls.calls[i];
    let mut diagnostics: Vec<Diagnostic> = Vec::new();
    assert(reports(diagnostics@) =~= Seq::empty());
    if !is_confirmed_play(context, call) {
        return diagnostics;
    }
    let mut position: usize = 0;
    while position < call.positional_count
        invariant
            position <= call.positional_count,
            reports(diagnostics@) == gather(position as int, position_finder(*context, *call)),
        decreases call.positional_count - position,
    {
        let checked: Option<Diagnostic> = match (context.knowledge, call.positional(position)) {
            (Some(profile), Some(argument)) => check_argument(context, profile, call, argument),
            _ => None,
        };
        push_found(&mut diagnostics, checked);
        position += 1;
    }
    diagnostics
}

/// Findings of [`NonAnimationPlayArgument`], call by call.
pub open spec fn non_animation_finder(context: RuleContext<'_>) -> spec_fn(int) -> Seq<DiagnosticView> {
    |i: int| non_animation_at(context, i)
}

impl Rule for NonAnimationPlayArgument {
    open spec fn declared(&self) -> MetadataView {
        mlc102()
    }

    open spec fn findings(&self, context: RuleContext<'_>) -> Seq<DiagnosticView> {
        gather(context.qualified_calls.calls@.len() as int, non_animation_finder(context))
    }

    fn metadata(&self) -> (metadata: &'static RuleMetadata) {
        MLC102()
    }

    fn run(&self, context: &RuleContext<'_>) -> (diagnostics: Vec<Diagnostic>) {
        let calls = &context.qualified_calls.calls;
        let mut diagnostics: Vec<Diagnostic> = Vec::new();
        let mut i: usize = 0;
        assert(reports(diagnostics@) =~= Seq::empty());
        while i < calls.len()
            invariant
                i <= calls@.len(),
                calls@ == context.qualified_calls.calls@,
                reports(diagnostics@) == gather(i as int, non_animation_finder(*context)),
            decreases calls@.len() - i,
        {
            push_all(&mut diagnostics, non_animation(context, i));
            i += 1;
        }
        diagnostics
    }
}

// ---------------------------------------------------------------------------
// MLC103: old bound-method play API.
// ---------------------------------------------------------------------------

/// What [`MLC103`] declares.
pub open spec fn mlc103() -> MetadataView {
    MetadataView {
        id: "MLC103"@,
        summary: "Bound mobject method passed to Scene.play (pre-0.6 API)"@,
        default_enabled: true,
        default_severity: Severity::Error,
        minimum_confidence: Confidence::Certain,
        implementation_phase: 1,
        required_profiles: seq![],
        required_capabilities: seq!["qualified-calls"@],
        supersedes: seq![],
    }
}

/// Metadata of rule `MLC103`.
#[allow(non_snake_case)]
pub fn MLC103() -> (metadata: &'static RuleMetadata)
    ensures
        metadata@ == mlc103(),
{
    let metadata: &'static RuleMetadata = &RuleMetadata {
        id: "MLC103",
        summary: "Bound mobject method passed to Scene.play (pre-0.6 API)",
        default_enabled: true,
        default_severity: Severity::Error,
        minimum_confidence: Confidence::Certain,
        implementation_phase: 1,
        required_profiles: &[],
        required_capabilities: &["qualified-calls"],
        supersedes: &[],
    };
    assert(metadata@ =~= mlc103());
    metadata
}

/// `play(mob.shift, RIGHT)`: the removed method-based play API.
pub struct BoundMethodPlayArgument;

pub const BOUND_METHOD_END: &'static str = "` with a `.animate` \
    call: the pre-0.6 `play(mob.method, args)` API was removed and \
    raises `TypeError` in Manim 0.20.";

pub const BOUND_METHOD_WHY: &'static str = "Passing a bound mobject method (plus its arguments) to `Scene.play` \
    was the pre-community-0.6 animation API. Manim 0.20 only accepts \
    Animation instances and `.animate` builders; a bare method object \
    cannot be compiled into an animation (DESIGN §3.2).";

/// The mobject method an attribute is confirmed to name.
pub open spec fn bound_method(
    profile: KnowledgeProfile,
    index: ProjectIndex,
    attribute: AttributeFact,
) -> Option<Seq<char>> {
    match (attribute.receiver, agreed_symbol(profile, texts(attribute.candidates@))) {
        (ReceiverKind::KnownInstance(kind), Some(id)) => match profile.spec_symbol(id) {
            Some(entry) => if bases_known(index, kind@) && entry.kind == SymbolKind::Method && (
            mobject_method(profile, index, id) || entry.returns_self is Some) {
                Some(id)
            } else {
                None
            },
            None => None,
        },
        _ => None,
    }
}

fn named_method(profile: &KnowledgeProfile, index: &ProjectIndex, attribute: &AttributeFact) -> (id:
    Option<String>)
    ensures
        match id {
            Some(found) => bound_method(*profile, *index, *attribute) == Some(found@),
            None => bound_method(*profile, *index, *attribute) is None,
        },
{
    let complete: bool = match &attribute.receiver {
        ReceiverKind::KnownInstance(kind) => class_complete(index, kind.as_str()),
        _ => false,
    };
    if !complete {
        return None;
    }
    match common_symbol(profile, &attribute.candidates) {
        Some((id, entry)) => if entry.kind == SymbolKind::Method && (owned_by_mobject(
            profile,
            index,
            id.as_str(),
        ) || entry.returns_self.is_some()) {
            Some(id)
        } else {
            None
        },
        None => None,
    }
}

/// The finding for one positional argument of a confirmed play.
pub open spec fn bound_method_finding(
    context: RuleContext<'_>,
    profile: KnowledgeProfile,
    call: QualifiedCall,
    argument: CallArgument,
) -> Option<DiagnosticView> {
    match argument.shape {
        ArgShape::Attribute(attribute) => match bound_method(
            profile,
            context.project_index,
            attribute,
        ) {
            Some(canonical) => Some(
                basic_report(
                    mlc103(),
                    context,
                    call.file,
                    argument.range,
                    "Replace the bound-method argument `"@ + slice_in(
                        *context.sources,
                        call.file,
                        argument.range,
                    ) + BOUND_METHOD_END@,
                    BOUND_METHOD_WHY@,
                    EvidenceView::empty().insert("resolved"@, JsonView::Text(SCENE_PLAY@)).insert(
                        "resolved_argument"@,
                        JsonView::Text(canonical),
                    ),
                ),
            ),
            None => None,
        },
        _ => None,
    }
}

fn check_bound_method(
    context: &RuleContext<'_>,
    profile: &KnowledgeProfile,
    call: &QualifiedCall,
    argument: &CallArgument,
) -> (found: Option<Diagnostic>)
    ensures
        report_of(found) == bound_method_finding(*context, *profile, *call, *argument),
{
    match &argument.shape {
        ArgShape::Attribute(attribute) => match named_method(
            profile,
            &context.project_index,
            attribute,
        ) {
            Some(canonical) => {
                let text: String = context.sources.slice(call.file, argument.range);
                let mut evidence = Evidence::new();
                evidence.insert("resolved", json_text(SCENE_PLAY));
                evidence.insert("resolved_argument", json_text(canonical.as_str()));
                Some(
                    build_diagnostic(
                        MLC103(),
                        context,
                        call.file,
                        argument.range,
                        cat3(
                            "Replace the bound-method argument `",
                            text.as_str(),
                            BOUND_METHOD_END,
                        ),
                        BOUND_METHOD_WHY,
                        evidence,
                    ),
                )
            },
            None => None,
        },
        _ => None,
    }
}

/// Findings of a call, position by position.
pub open spec fn bound_method_positions(
    context: RuleContext<'_>,
    call: QualifiedCall,
) -> spec_fn(int) -> Seq<DiagnosticView> {
    |p: int|
        match (context.knowledge, call.spec_positional(p)) {
            (Some(profile), Some(argument)) => found(
                bound_method_finding(context, *profile, call, argument),
            ),
            _ => Seq::empty(),
        }
}

/// The findings for the call at `i`.
pub open spec fn bound_methods_at(context: RuleContext<'_>, i: int) -> Seq<DiagnosticView> {
    let call = context.qualified_calls.calls@[i];
    if confirmed_play(context, call) {
        gather(call.positional_count as int, bound_method_positions(context, call))
    } else {
        Seq::empty()
    }
}

fn bound_methods(context: &RuleContext<'_>, i: usize) -> (diagnostics: Vec<Diagnostic>)
    requires
        i < context.qualified_calls.calls@.len(),
    ensures
        reports(diagnostics@) == bound_methods_at(*context, i as int),
{
    let call = &context.qualified_calls.calls[i];
    let mut diagnostics: Vec<Diagnostic> = Vec::new();
    assert(reports(diagnostics@) =~= Seq::empty());
    if !is_confirmed_play(context, call) {
        return diagnostics;
    }
    let mut position: usize = 0;
    while position < call.positional_count
        invariant
            position <= call.positional_count,
            reports(diagnostics@) == gather(
                position as int,
                bound_method_positions(*context, *call),
            ),
        decreases call.positional_count - position,
    {
        let checked: Option<Diagnostic> = match (context.knowledge, call.positional(position)) {
            (Some(profile), Some(argument)) => check_bound_method(
                context,
                profile,
                call,
                argument,
            ),
            _ => None,
        };
        push_found(&mut diagnostics, checked);
        position += 1;
    }
    diagnostics
}

/// Findings of [`BoundMethodPlayArgument`], call by call.
pub open spec fn bound_methods_finder(context: RuleContext<'_>) -> spec_fn(int) -> Seq<DiagnosticView> {
    |i: int| bound_methods_at(context, i)
}

impl Rule for BoundMethodPlayArgument {
    open spec fn declared(&self) -> MetadataView {
        mlc103()
    }

    open spec fn findings(&self, context: RuleContext<'_>) -> Seq<DiagnosticView> {
        gather(context.qualified_calls.calls@.len() as int, bound_methods_finder(context))
    }

    fn metadata(&self) -> (metadata: &'static RuleMetadata) {
        MLC103()
    }

    fn run(&self, context: &RuleContext<'_>) -> (diagnostics: Vec<Diagnostic>) {
        let calls = &context.qualified_calls.calls;
        let mut diagnostics: Vec<Diagnostic> = Vec::new();
        let mut i: usize = 0;
        assert(reports(diagnostics@) =~= Seq::empty());
        while i < calls.len()
            invariant
                i <= calls@.len(),
                calls@ == context.qualified_calls.calls@,
                reports(diagnostics@) == gather(i as int, bound_methods_finder(*context)),
            decreases calls@.len() - i,
        {
            push_all(&mut diagnostics, bound_methods(context, i));
            i += 1;
        }
        diagnostics
    }
}

// ---------------------------------------------------------------------------
// MLC109: empty AnimationGroup / Succession.
// ---------------------------------------------------------------------------

/// What [`MLC109`] declares.
pub open spec fn mlc109() -> MetadataView {
    MetadataView {
        id: "MLC109"@,
        summary: "AnimationGroup / Succession constructed without animations"@,
        default_enabled: true,
        default_severity: Severity::Error,
        minimum_confidence: Confidence::Certain,
        implementation_phase: 1,
        required_profiles: seq![],
        required_capabilities: seq!["qualified-calls"@],
        supersedes: seq![],
    }
}

/// Metadata of rule `MLC109`.
#[allow(non_snake_case)]
pub fn MLC109() -> (metadata: &'static RuleMetadata)
    ensures
        metadata@ == mlc109(),
{
    let metadata: &'static RuleMetadata = &RuleMetadata {
        id: "MLC109",
        summary: "AnimationGroup / Succession constructed without animations",
        default_enabled: true,
        default_severity: Severity::Error,
        minimum_confidence: Confidence::Certain,
        implementation_phase: 1,
        required_profiles: &[],
        required_capabilities: &["qualified-calls"],
        supersedes: &[],
    };
    assert(metadata@ =~= mlc109());
    metadata
}

/// `AnimationGroup()` / `Succession()` with zero animation arguments.
pub struct EmptyAnimationGroup;

pub const EMPTY_GROUP_END: &'static str = "(...)`: keyword \
    arguments such as `lag_ratio` configure timing but provide no \
    animations, and an empty group fails at render time.";

pub const EMPTY_GROUP_WHY: &'static str = "` derives its run time and interpolation plan from \
    its member animations; with zero members the group cannot be \
    compiled into a playable animation.";

/// The finding for the call at `i`.
pub open spec fn empty_group_at(context: RuleContext<'_>, i: int) -> Option<DiagnosticView> {
    let call = context.qualified_calls.calls@[i];
    match context.knowledge {
        Some(profile) => match target_of(*profile, context.project_index, call) {
            Some(canonical) => if !call.has_star_args && call.positional_count == 0 && (canonical
                == ANIMATION_GROUP@ || canonical == SUCCESSION@) {
                Some(
                    basic_report(
                        mlc109(),
                        context,
                        call.file,
                        call.call_range,
                        "Pass at least one animation to `"@ + last_segment(canonical)
                            + EMPTY_GROUP_END@,
                        "`"@ + last_segment(canonical) + EMPTY_GROUP_WHY@,
                        EvidenceView::empty().insert(
                            "resolved"@,
                            JsonView::Text(canonical),
                        ).insert("candidates"@, candidates_view(call)),
                    ),
                )
            } else {
                None
            },
            None => None,
        },
        None => None,
    }
}

fn empty_group(context: &RuleContext<'_>, i: usize) -> (found: Option<Diagnostic>)
    requires
        i < context.qualified_calls.calls@.len(),
    ensures
        report_of(found) == empty_group_at(*context, i as int),
{
    let call = &context.qualified_calls.calls[i];
    let profile = match context.knowledge {
        Some(profile) => profile,
        None => {
            return None;
        },
    };
    if call.has_star_args || call.positional_count != 0 {
        return None;
    }
    let canonical: String = match conclusive_target(profile, &context.project_index, call) {
        Some((canonical, _)) => canonical,
        None => {
            return None;
        },
    };
    if !same_text(canonical.as_str(), ANIMATION_GROUP) && !same_text(
        canonical.as_str(),
        SUCCESSION,
    ) {
        return None;
    }
    let class_name: String = short_name(canonical.as_str());
    let mut evidence = Evidence::new();
    evidence.insert("resolved", json_text(canonical.as_str()));
    evidence.insert("candidates", candidates_value(call));
    Some(
        build_diagnostic(
            MLC109(),
            context,
            call.file,
            call.call_range,
            cat3("Pass at least one animation to `", class_name.as_str(), EMPTY_GROUP_END),
            cat3("`", class_name.as_str(), EMPTY_GROUP_WHY).as_str(),
            evidence,
        ),
    )
}

/// Findings of [`EmptyAnimationGroup`], call by call.
pub open spec fn empty_group_finder(context: RuleContext<'_>) -> spec_fn(int) -> Seq<DiagnosticView> {
    |i: int| found(empty_group_at(context, i))
}

impl Rule for EmptyAnimationGroup {
    open spec fn declared(&self) -> MetadataView {
        mlc109()
    }

    open spec fn findings(&self, context: RuleContext<'_>) -> Seq<DiagnosticView> {
        gather(context.qualified_calls.calls@.len() as int, empty_group_finder(context))
    }

    fn metadata(&self) -> (metadata: &'static RuleMetadata) {
        MLC109()
    }

    fn run(&self, context: &RuleContext<'_>) -> (diagnostics: Vec<Diagnostic>) {
        let calls = &context.qualified_calls.calls;
        let mut diagnostics: Vec<Diagnostic> = Vec::new();
        let mut i: usize = 0;
        assert(reports(diagnostics@) =~= Seq::empty());
        while i < calls.len()
            invariant
                i <= calls@.len(),
                calls@ == context.qualified_calls.calls@,
                reports(diagnostics@) == gather(i as int, empty_group_finder(*context)),
            decreases calls@.len() - i,
        {
            push_found(&mut diagnostics, empty_group(context, i));
            i += 1;
        }
        diagnostics
    }
}

// ---------------------------------------------------------------------------
// MLC122: ApplyMethod given a call result instead of the bound method.
// ---------------------------------------------------------------------------

/// What [`MLC122`] declares.
pub open spec fn mlc122() -> MetadataView {
    MetadataView {
        id: "MLC122"@,
        summary: "ApplyMethod receives a method call result, not the bound method"@,
        default_enabled: true,
        default_severity: Severity::Error,
        minimum_confidence: Confidence::High,
        implementation_phase: 1,
        required_profiles: seq![],
        required_capabilities: seq!["qualified-calls"@],
        supersedes: seq![],
    }
}

/// Metadata of rule `MLC122`.
#[allow(non_snake_case)]
pub fn MLC122() -> (metadata: &'static RuleMetadata)
    ensures
        metadata@ == mlc122(),
{
    let metadata: &'static RuleMetadata = &RuleMetadata {
        id: "MLC122",
        summary: "ApplyMethod receives a method call result, not the bound method",
        default_enabled: true,
        default_severity: Severity::Error,
        minimum_confidence: Confidence::High,
        implementation_phase: 1,
        required_profiles: &[],
        required_capabilities: &["qualified-calls"],
        supersedes: &[],
    };
    assert(metadata@ =~= mlc122());
    metadata
}

/// `ApplyMethod(mob.shift(...))` instead of `ApplyMethod(mob.shift, ...)`.
pub struct ApplyMethodCallResult;

pub const SEPARATELY: &'static str = "Pass the bound method and its arguments separately: \
    `ApplyMethod(";

pub const SEPARATELY_END: &'static str = "(...)` runs the \
    mutation immediately and hands `ApplyMethod` a mobject, not a \
    method.";

pub const APPLY_METHOD_WHY: &'static str = "`ApplyMethod(method, *args)` expects an uncalled bound mobject method; \
    it calls the method itself during interpolation. Passing the call \
    *result* mutates the mobject before the play starts and raises at \
    animation build time because a mobject is not callable the way \
    `ApplyMethod` requires.";

/// Whether an argument list holds a keyword argument.
pub open spec fn has_keyword(arguments: Seq<CallArgument>) -> bool {
    exists|i: int| 0 <= i < arguments.len() && (#[trigger] arguments[i]).keyword is Some
}

/// The callee followed by the source texts of the arguments.
pub open spec fn unbundled(
    context: RuleContext<'_>,
    call: QualifiedCall,
    inner: QualifiedCall,
    callee_text: Seq<char>,
) -> Seq<Seq<char>> {
    seq![callee_text] + Seq::new(
        inner.arguments@.len(),
        |i: int| slice_in(*context.sources, call.file, inner.arguments@[i].range),
    )
}

/// The split of `ApplyMethod(mob.shift(RIGHT))` into method and arguments.
pub open spec fn unbundle_fix_of(
    context: RuleContext<'_>,
    call: QualifiedCall,
    range: TextRange,
    inner: QualifiedCall,
    callee_text: Seq<char>,
) -> Option<FixView> {
    if dotted_name(callee_text) && !inner.has_star_args && !inner.has_star_star_kwargs
        && !has_keyword(inner.arguments@) {
        let replacement = joined(unbundled(context, call, inner, callee_text), ", "@);
        Some(
            single_edit(
                FixApplicability::Unsafe,
                "Split `"@ + callee_text + "(...)` into `"@ + replacement + "`"@,
                edit_at(context, call.file, range, replacement),
            ),
        )
    } else {
        None
    }
}

fn any_keyword(arguments: &Vec<CallArgument>) -> (found: bool)
    ensures
        found == has_keyword(arguments@),
{
    let mut i: usize = 0;
    while i < arguments.len()
        invariant
            i <= arguments@.len(),
            forall|j: int| 0 <= j < i ==> (#[trigger] arguments@[j]).keyword is None,
        decreases arguments@.len() - i,
    {
        if arguments[i].keyword.is_some() {
            return true;
        }
        i += 1;
    }
    false
}

/// Unsafe suggestion rewriting `ApplyMethod(mob.shift(RIGHT))` to
/// `ApplyMethod(mob.shift, RIGHT)`.
fn unbundle_fix(
    context: &RuleContext<'_>,
    call: &QualifiedCall,
    range: TextRange,
    inner: &QualifiedCall,
    callee_text: &str,
) -> (fix: Option<Fix>)
    ensures
        match fix {
            Some(found) => unbundle_fix_of(*context, *call, range, *inner, callee_text@) == Some(
                found@,
            ),
            None => unbundle_fix_of(*context, *call, range, *inner, callee_text@) is None,
        },
{
    if !simple_dotted(callee_text) || inner.has_star_args || inner.has_star_star_kwargs
        || any_keyword(&inner.arguments) {
        return None;
    }
    let mut parts: Vec<String> = vec![callee_text.to_owned()];
    let mut i: usize = 0;
    while i < inner.arguments.len()
        invariant
            i <= inner.arguments@.len(),
            parts@.len() == i + 1,
            parts@[0]@ == callee_text@,
            forall|j: int|
                0 <= j < i ==> (#[trigger] parts@[j + 1])@ == slice_in(
                    *context.sources,
                    call.file,
                    inner.arguments@[j].range,
                ),
        decreases inner.arguments@.len() - i,
    {
        parts.push(context.sources.slice(call.file, inner.arguments[i].range));
        i += 1;
    }
    proof {
        let wanted = unbundled(*context, *call, *inner, callee_text@);
        assert forall|k: int| 0 <= k < wanted.len() implies texts(parts@)[k] == wanted[k] by {
            if k > 0 {
                assert(parts@[(k - 1) + 1]@ == slice_in(
                    *context.sources,
                    call.file,
                    inner.arguments@[k - 1].range,
                ));
            }
        }
        assert(texts(parts@) =~= wanted);
    }
    let replacement: String = join(&parts, ", ");
    Some(
        one_edit(
            FixApplicability::Unsafe,
            cat5("Split `", callee_text, "(...)` into `", replacement.as_str(), "`"),
            text_edit(context, call.file, range, replacement),
        ),
    )
}

/// The call passed as the first argument of `ApplyMethod`.
pub open spec fn applied_call(context: RuleContext<'_>, call: QualifiedCall) -> Option<
    (CallArgument, QualifiedCall),
> {
    match call.spec_positional(0) {
        Some(argument) => match argument.shape {
            ArgShape::Call(inner) => if inner < context.qualified_calls.calls@.len() {
                Some((argument, context.qualified_calls.calls@[inner as int]))
            } else {
                None
            },
            _ => None,
        },
        None => None,
    }
}

/// The finding for the call at `i`.
pub open spec fn apply_method_at(context: RuleContext<'_>, i: int) -> Option<DiagnosticView> {
    let call = context.qualified_calls.calls@[i];
    match (context.knowledge, applied_call(context, call)) {
        (Some(profile), Some((argument, inner))) => {
            let callee_text = slice_in(*context.sources, call.file, inner.callee_range);
            match verdict_of(*profile, context.project_index, callee_text, inner) {
                Some(InnerView::MethodResult(method)) => if target_of(
                    *profile,
                    context.project_index,
                    call,
                ) == Some(APPLY_METHOD@) {
                    Some(
                        DiagnosticView {
                            fix: unbundle_fix_of(
                                context,
                                call,
                                argument.range,
                                inner,
                                callee_text,
                            ),
                            ..basic_report(
                                mlc122(),
                                context,
                                call.file,
                                argument.range,
                                SEPARATELY@ + callee_text + ", ...)`. `"@ + callee_text
                                    + SEPARATELY_END@,
                                APPLY_METHOD_WHY@,
                                EvidenceView::empty().insert(
                                    "resolved"@,
                                    JsonView::Text(APPLY_METHOD@),
                                ).insert("resolved_argument"@, JsonView::Text(method)),
                            )
                        },
                    )
                } else {
                    None
                },
                _ => None,
            }
        },
        _ => None,
    }
}

fn apply_method(context: &RuleContext<'_>, i: usize) -> (found: Option<Diagnostic>)
    requires
        i < context.qualified_calls.calls@.len(),
    ensures
        report_of(found) == apply_method_at(*context, i as int),
{
    let calls = &context.qualified_calls.calls;
    let call = &calls[i];
    let profile = match context.knowledge {
        Some(profile) => profile,
        None => {
            return None;
        },
    };
    if !targets(profile, &context.project_index, call, APPLY_METHOD) {
        return None;
    }
    let argument = match call.positional(0) {
        Some(argument) => argument,
        None => {
            return None;
        },
    };
    let inner = match &argument.shape {
        ArgShape::Call(inner) => if *inner < calls.len() {
            &calls[*inner]
        } else {
            return None;
        },
        _ => {
            return None;
        },
    };
    let callee_text: String = context.sources.slice(call.file, inner.callee_range);
    match inner_verdict(profile, &context.project_index, callee_text.as_str(), inner) {
        Some(InnerVerdict::MethodResult(method)) => {
            let mut evidence = Evidence::new();
            evidence.insert("resolved", json_text(APPLY_METHOD));
            evidence.insert("resolved_argument", json_text(method.as_str()));
            let mut diagnostic = build_diagnostic(
                MLC122(),
                context,
                call.file,
                argument.range,
                cat5(
                    SEPARATELY,
                    callee_text.as_str(),
                    ", ...)`. `",
                    callee_text.as_str(),
                    SEPARATELY_END,
                ),
                APPLY_METHOD_WHY,
                evidence,
            );
            diagnostic.fix = unbundle_fix(
                context,
                call,
                argument.range,
                inner,
                callee_text.as_str(),
            );
            Some(diagnostic)
        },
        _ => None,
    }
}

/// Findings of [`ApplyMethodCallResult`], call by call.
pub open spec fn apply_method_finder(context: RuleContext<'_>) -> spec_fn(int) -> Seq<DiagnosticView> {
    |i: int| found(apply_method_at(context, i))
}

impl Rule for ApplyMethodCallResult {
    open spec fn declared(&self) -> MetadataView {
        mlc122()
    }

    open spec fn findings(&self, context: RuleContext<'_>) -> Seq<DiagnosticView> {
        gather(context.qualified_calls.calls@.len() as int, apply_method_finder(context))
    }

    fn metadata(&self) -> (metadata: &'static RuleMetadata) {
        MLC122()
    }

    fn run(&self, context: &RuleContext<'_>) -> (diagnostics: Vec<Diagnostic>) {
        let calls = &context.qualified_calls.calls;
        let mut diagnostics: Vec<Diagnostic> = Vec::new();
        let mut i: usize = 0;
        assert(reports(diagnostics@) =~= Seq::empty());
        while i < calls.len()
            invariant
                i <= calls@.len(),
                calls@ == context.qualified_calls.calls@,
                reports(diagnostics@) == gather(i as int, apply_method_finder(*context)),
            decreases calls@.len() - i,
        {
            push_found(&mut diagnostics, apply_method(context, i));
            i += 1;
        }
        diagnostics
    }
}

} // verus!
