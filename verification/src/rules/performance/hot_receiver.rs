//! Receiver-sized hot-callback rules: `MLP202`, `MLP203`, and `MLP224`.
//!
//! All three look at hot calls whose receiver is provably the updater host.
//! `MLP202` needs a confirmed large family or large point count; `MLP203`
//! needs a confirmed large family; `MLP224` claims the
//! `point_from_proportion` entries under the large-points gate and
//! supersedes `MLP203` on them.
use super::redraw_geometry::{claimed, is_claimed};
use crate::cost::{HotSymbol, HotTargetKind, HotTargetSizeFact};
use crate::diagnostic::{
    Confidence, Diagnostic, DiagnosticView, MetadataView, RuleMetadata, Severity,
};
use crate::json::{
    bounds_view, json_items, json_list, json_text, merge_evidence, merged_with, num_bounds_json,
    Evidence, EvidenceView, Json, JsonView,
};
use crate::numbers::Num;
use crate::rules::base::{basic_report, build_diagnostic, Rule, RuleContext};
use crate::rules::dedupe::{
    call_key, candidate_view, candidate_views, keep_first, kept, number_key, offer_found, Candidate,
    CandidateView,
};
use crate::text::{cat3, cat5, cat7, found, gather, same_text};
use crate::thresholds::{large_family, large_family_gate, large_points, large_points_gate};
use vstd::prelude::*;

verus! {

/// The family-walk method that `MLP224` takes.
pub const POINT_FROM_PROPORTION: &'static str = "point_from_proportion";

/// Evidence with the bounds of a number, when it is bounded.
pub open spec fn with_bounds(evidence: EvidenceView, key: Seq<char>, value: Num) -> EvidenceView {
    if value.spec_bounded() {
        evidence.insert(key, bounds_view(value))
    } else {
        evidence
    }
}

/// Adds the bounds of a number; an unknown number is left out.
pub fn insert_bounds(evidence: &mut Evidence, key: &str, value: &Num)
    ensures
        final(evidence)@ == with_bounds(old(evidence)@, key@, *value),
{
    if value.is_bounded() {
        evidence.insert(key, num_bounds_json(value));
    }
}

/// Common evidence of a receiver-sized fact, without its gates.
pub open spec fn receiver_view(context: RuleContext<'_>, fact: HotTargetSizeFact) -> EvidenceView {
    let base = merged_with(
        EvidenceView::empty(),
        context.cost_facts.spec_evidence(fact.call_index as int),
    ).insert("method"@, JsonView::Text(fact.method@)).insert(
        "scene"@,
        JsonView::Text(fact.scene@),
    );
    with_bounds(
        with_bounds(
            with_bounds(base, "family_size"@, fact.sizes.family),
            "points"@,
            fact.sizes.points,
        ),
        "curves"@,
        fact.sizes.curves,
    )
}

/// Common evidence of a receiver-sized fact: the receiver's real size bounds
/// (unknown fields omitted), the method, the hot-context provenance, and the
/// confirmed gates.
fn receiver_evidence(context: &RuleContext<'_>, fact: &HotTargetSizeFact, gates: Vec<Json>) -> (evidence:
    Evidence)
    ensures
        evidence@ == receiver_view(*context, *fact).insert(
            "gates"@,
            JsonView::List(json_items(gates@)),
        ),
{
    let mut evidence = Evidence::new();
    merge_evidence(&mut evidence, &context.cost_facts.evidence_for(fact.call_index));
    evidence.insert("method", json_text(fact.method.as_str()));
    evidence.insert("scene", json_text(fact.scene.as_str()));
    insert_bounds(&mut evidence, "family_size", &fact.sizes.family);
    insert_bounds(&mut evidence, "points", &fact.sizes.points);
    insert_bounds(&mut evidence, "curves", &fact.sizes.curves);
    evidence.insert("gates", json_list(gates));
    evidence
}

/// The size of a receiver in words: the family bound when known, else the
/// point bound.
pub open spec fn size_text(fact: HotTargetSizeFact) -> Seq<char> {
    match (fact.sizes.family.spec_lower_bound(), fact.sizes.points.spec_lower_bound()) {
        (Some(lower), _) => "at least "@ + lower.rounded_text() + " family members"@,
        (None, Some(lower)) => "at least "@ + lower.rounded_text() + " points"@,
        (None, None) => "a confirmed large size"@,
    }
}

fn display_size(fact: &HotTargetSizeFact) -> (text: String)
    ensures
        text@ == size_text(*fact),
{
    if let Some(lower) = fact.sizes.family.lower_bound() {
        return cat3("at least ", lower.format_rounded().as_str(), " family members");
    }
    if let Some(lower) = fact.sizes.points.lower_bound() {
        return cat3("at least ", lower.format_rounded().as_str(), " points");
    }
    "a confirmed large size".to_owned()
}

// ---------------------------------------------------------------------------
// MLP202: hot copy / become / align on a confirmed-large receiver.
// ---------------------------------------------------------------------------

/// What [`MLP202`] declares.
pub open spec fn mlp202() -> MetadataView {
    MetadataView {
        id: "MLP202"@,
        summary: "copy/become/align of a confirmed-large mobject inside a per-frame callback"@,
        default_enabled: true,
        default_severity: Severity::Warning,
        minimum_confidence: Confidence::High,
        implementation_phase: 3,
        required_profiles: seq![],
        required_capabilities: seq!["qualified-calls"@, "lifecycle"@, "cost-facts"@],
        supersedes: seq![],
    }
}

/// Metadata of rule `MLP202`.
#[allow(non_snake_case)]
pub fn MLP202() -> (metadata: &'static RuleMetadata)
    ensures
        metadata@ == mlp202(),
{
    let metadata: &'static RuleMetadata = &RuleMetadata {
        id: "MLP202",
        summary: "copy/become/align of a confirmed-large mobject inside a per-frame callback",
        default_enabled: true,
        default_severity: Severity::Warning,
        minimum_confidence: Confidence::High,
        implementation_phase: 3,
        required_profiles: &[],
        required_capabilities: &["qualified-calls", "lifecycle", "cost-facts"],
        supersedes: &[],
    };
    assert(metadata@ =~= mlp202());
    metadata
}

/// `copy`, `deepcopy`, `become`, or `align_data` in a hot context, emitted
/// only when the receiver's family or point count is confirmed large.
pub struct HotFamilyCopy;

pub const COPY_MIDDLE: &'static str = "()` runs once per rendered frame on an updater \
    host with ";

pub const COPY_WHY_START: &'static str = "The updater contract passes the host mobject itself as \
    the callback parameter, so this `";

pub const COPY_WHY_MIDDLE: &'static str = "` walks the \
    host's entire family every frame — the per-frame cost \
    scales with the family and point counts (";

pub const COPY_WHY_END: &'static str = "). \
    Hoist the copy out of the callback (build it once and \
    mutate it), or operate on the smallest submobject that \
    actually changes.";

/// What one invocation does.
pub open spec fn copy_effect(kind: HotTargetKind) -> Seq<char> {
    match kind {
        HotTargetKind::Copy => "deep-copies the whole family"@,
        HotTargetKind::Become => "rewrites the whole family's points, style, and submobjects"@,
        _ => "re-aligns the whole family's point and curve data"@,
    }
}

fn effect_of(kind: HotTargetKind) -> (text: &'static str)
    ensures
        text@ == copy_effect(kind),
{
    match kind {
        HotTargetKind::Copy => "deep-copies the whole family",
        HotTargetKind::Become => "rewrites the whole family's points, style, and submobjects",
        HotTargetKind::Align => "re-aligns the whole family's point and curve data",
        HotTargetKind::FamilyWalk => "re-aligns the whole family's point and curve data",
    }
}

/// Whether the call constructs something in a hot context.
pub open spec fn constructs(list: Seq<HotSymbol>, call_index: usize) -> bool {
    exists|k: int| 0 <= k < list.len() && (#[trigger] list[k]).call_index == call_index
}

fn is_construction(list: &Vec<HotSymbol>, call_index: usize) -> (found: bool)
    ensures
        found == constructs(list@, call_index),
{
    let mut k: usize = 0;
    while k < list.len()
        invariant
            k <= list@.len(),
            forall|j: int| 0 <= j < k ==> (#[trigger] list@[j]).call_index != call_index,
        decreases list@.len() - k,
    {
        if list[k].call_index == call_index {
            return true;
        }
        k += 1;
    }
    false
}

/// Whether a copy is known to be large.
pub open spec fn large_copy(context: RuleContext<'_>, fact: HotTargetSizeFact) -> bool {
    large_family_gate(context.cost_facts.large_family).passes(fact.sizes.family)
        || large_points_gate(context.cost_facts.large_points).passes(fact.sizes.points)
}

/// The report on a large copy.
pub open spec fn copy_report(context: RuleContext<'_>, fact: HotTargetSizeFact) -> DiagnosticView {
    let call = context.qualified_calls.calls@[fact.call_index as int];
    let family = large_family_gate(context.cost_facts.large_family);
    let points = large_points_gate(context.cost_facts.large_points);
    basic_report(
        mlp202(),
        context,
        call.file,
        call.call_range,
        "`"@ + fact.method@ + COPY_MIDDLE@ + size_text(fact) + ": each invocation "@ + copy_effect(
            fact.kind,
        ) + "."@,
        COPY_WHY_START@ + fact.method@ + COPY_WHY_MIDDLE@ + family.citation() + COPY_WHY_END@,
        receiver_view(context, fact).insert(
            "gates"@,
            JsonView::List(
                seq![family.evidence(fact.sizes.family), points.evidence(fact.sizes.points)],
            ),
        ),
    )
}

/// What the receiver at `i` gives.
///
/// The implicit `become` of an `always_redraw` factory belongs to other
/// rules and is never reported here as well.
pub open spec fn copy_at(context: RuleContext<'_>, i: int) -> Option<CandidateView> {
    let fact = context.cost_facts.hot_target_sizes@[i];
    if context.knowledge is Some && !(fact.kind is FamilyWalk) && fact.call_index
        < context.qualified_calls.calls@.len() && !claimed(context, fact.call_index) && !constructs(
        context.cost_facts.constructions@,
        fact.call_index,
    ) && large_copy(context, fact) {
        Some((number_key(fact.call_index), Some(copy_report(context, fact))))
    } else {
        None
    }
}

fn copy(context: &RuleContext<'_>, i: usize) -> (found: Option<Candidate>)
    requires
        i < context.cost_facts.hot_target_sizes@.len(),
    ensures
        match found {
            Some(candidate) => copy_at(*context, i as int) == Some(candidate_view(candidate)),
            None => copy_at(*context, i as int) is None,
        },
{
    let fact = &context.cost_facts.hot_target_sizes[i];
    if context.knowledge.is_none() || fact.kind == HotTargetKind::FamilyWalk || fact.call_index
        >= context.qualified_calls.calls.len() {
        return None;
    }
    let family = large_family(context.cost_facts.large_family);
    let points = large_points(context.cost_facts.large_points);
    if !family.confirmed_by(&fact.sizes.family) && !points.confirmed_by(&fact.sizes.points) {
        return None;
    }
    if is_construction(&context.cost_facts.constructions, fact.call_index) || is_claimed(
        context,
        fact.call_index,
    ) {
        return None;
    }
    let call = &context.qualified_calls.calls[fact.call_index];
    let gates: Vec<Json> = vec![
        family.evidence(&fact.sizes.family),
        points.evidence(&fact.sizes.points),
    ];
    assert(json_items(gates@) =~= seq![
        family@.evidence(fact.sizes.family),
        points@.evidence(fact.sizes.points),
    ]);
    let evidence = receiver_evidence(context, fact, gates);
    let diagnostic = build_diagnostic(
        MLP202(),
        context,
        call.file,
        call.call_range,
        cat7(
            "`",
            fact.method.as_str(),
            COPY_MIDDLE,
            display_size(fact).as_str(),
            ": each invocation ",
            effect_of(fact.kind),
            ".",
        ),
        cat5(
            COPY_WHY_START,
            fact.method.as_str(),
            COPY_WHY_MIDDLE,
            family.citation().as_str(),
            COPY_WHY_END,
        ).as_str(),
        evidence,
    );
    Some(Candidate { key: call_key(fact.call_index), diagnostic: Some(diagnostic) })
}

/// Candidates of [`HotFamilyCopy`], fact by fact.
pub open spec fn copy_finder(context: RuleContext<'_>) -> spec_fn(int) -> Seq<CandidateView> {
    |i: int| found(copy_at(context, i))
}

impl Rule for HotFamilyCopy {
    open spec fn declared(&self) -> MetadataView {
        mlp202()
    }

    open spec fn findings(&self, context: RuleContext<'_>) -> Seq<DiagnosticView> {
        kept(gather(context.cost_facts.hot_target_sizes@.len() as int, copy_finder(context)))
    }

    fn metadata(&self) -> (metadata: &'static RuleMetadata) {
        MLP202()
    }

    fn run(&self, context: &RuleContext<'_>) -> (diagnostics: Vec<Diagnostic>) {
        let hot_target_sizes = &context.cost_facts.hot_target_sizes;
        let mut candidates: Vec<Candidate> = Vec::new();
        let mut i: usize = 0;
        assert(candidate_views(candidates@) =~= Seq::empty());
        while i < hot_target_sizes.len()
            invariant
                i <= hot_target_sizes@.len(),
                hot_target_sizes@ == context.cost_facts.hot_target_sizes@,
                candidate_views(candidates@) == gather(i as int, copy_finder(*context)),
            decreases hot_target_sizes@.len() - i,
        {
            offer_found(&mut candidates, copy(context, i));
            i += 1;
        }
        keep_first(candidates)
    }
}

// ---------------------------------------------------------------------------
// MLP203: hot family-walk / geometry query on a confirmed-large receiver.
// ---------------------------------------------------------------------------

/// What [`MLP203`] declares.
pub open spec fn mlp203() -> MetadataView {
    MetadataView {
        id: "MLP203"@,
        summary: "Family-walk query of a confirmed-large mobject inside a per-frame callback"@,
        default_enabled: true,
        default_severity: Severity::Info,
        minimum_confidence: Confidence::High,
        implementation_phase: 3,
        required_profiles: seq![],
        required_capabilities: seq!["qualified-calls"@, "lifecycle"@, "cost-facts"@],
        supersedes: seq![],
    }
}

/// Metadata of rule `MLP203`.
#[allow(non_snake_case)]
pub fn MLP203() -> (metadata: &'static RuleMetadata)
    ensures
        metadata@ == mlp203(),
{
    let metadata: &'static RuleMetadata = &RuleMetadata {
        id: "MLP203",
        summary: "Family-walk query of a confirmed-large mobject inside a per-frame callback",
        default_enabled: true,
        default_severity: Severity::Info,
        minimum_confidence: Confidence::High,
        implementation_phase: 3,
        required_profiles: &[],
        required_capabilities: &["qualified-calls", "lifecycle", "cost-facts"],
        supersedes: &[],
    };
    assert(metadata@ =~= mlp203());
    metadata
}

/// `get_family`, `family_members_with_points`, `get_all_points`, or an
/// arc-length query in a hot context on a confirmed large family.
/// `point_from_proportion` entries are routed to `MLP224`.
pub struct HotFamilyWalk;

pub const WALK_MIDDLE: &'static str = "()` runs once per rendered frame on an updater \
    host with ";

pub const WALK_END: &'static str = ": each invocation walks the whole \
    family (and its point arrays) again.";

pub const WALK_WHY_START: &'static str = "Family-walk and geometry queries recompute their result \
    from every family member on each call; inside a \
    per-frame callback that cost is multiplied by the frame \
    count (";

pub const WALK_WHY_END: &'static str = "). Cache the result outside the \
    callback when the family does not change between \
    frames, or query the specific submobject that matters.";

/// The report on a large family walk.
pub open spec fn walk_report(context: RuleContext<'_>, fact: HotTargetSizeFact) -> DiagnosticView {
    let call = context.qualified_calls.calls@[fact.call_index as int];
    let family = large_family_gate(context.cost_facts.large_family);
    basic_report(
        mlp203(),
        context,
        call.file,
        call.call_range,
        "`"@ + fact.method@ + WALK_MIDDLE@ + size_text(fact) + WALK_END@,
        WALK_WHY_START@ + family.citation() + WALK_WHY_END@,
        receiver_view(context, fact).insert(
            "gates"@,
            JsonView::List(seq![family.evidence(fact.sizes.family)]),
        ),
    )
}

/// What the receiver at `i` gives.
pub open spec fn walk_at(context: RuleContext<'_>, i: int) -> Option<CandidateView> {
    let fact = context.cost_facts.hot_target_sizes@[i];
    if context.knowledge is Some && fact.kind is FamilyWalk && fact.method@
        != POINT_FROM_PROPORTION@ && fact.call_index < context.qualified_calls.calls@.len()
        && large_family_gate(context.cost_facts.large_family).passes(fact.sizes.family) {
        Some((number_key(fact.call_index), Some(walk_report(context, fact))))
    } else {
        None
    }
}

fn walk(context: &RuleContext<'_>, i: usize) -> (found: Option<Candidate>)
    requires
        i < context.cost_facts.hot_target_sizes@.len(),
    ensures
        match found {
            Some(candidate) => walk_at(*context, i as int) == Some(candidate_view(candidate)),
            None => walk_at(*context, i as int) is None,
        },
{
    let fact = &context.cost_facts.hot_target_sizes[i];
    let family = large_family(context.cost_facts.large_family);
    if context.knowledge.is_none() || fact.kind != HotTargetKind::FamilyWalk || same_text(
        fact.method.as_str(),
        POINT_FROM_PROPORTION,
    ) || fact.call_index >= context.qualified_calls.calls.len() || !family.confirmed_by(
        &fact.sizes.family,
    ) {
        return None;
    }
    let call = &context.qualified_calls.calls[fact.call_index];
    let gates: Vec<Json> = vec![family.evidence(&fact.sizes.family)];
    assert(json_items(gates@) =~= seq![family@.evidence(fact.sizes.family)]);
    let evidence = receiver_evidence(context, fact, gates);
    let diagnostic = build_diagnostic(
        MLP203(),
        context,
        call.file,
        call.call_range,
        cat5("`", fact.method.as_str(), WALK_MIDDLE, display_size(fact).as_str(), WALK_END),
        cat3(WALK_WHY_START, family.citation().as_str(), WALK_WHY_END).as_str(),
        evidence,
    );
    Some(Candidate { key: call_key(fact.call_index), diagnostic: Some(diagnostic) })
}

/// Candidates of [`HotFamilyWalk`], fact by fact.
pub open spec fn walk_finder(context: RuleContext<'_>) -> spec_fn(int) -> Seq<CandidateView> {
    |i: int| found(walk_at(context, i))
}

impl Rule for HotFamilyWalk {
    open spec fn declared(&self) -> MetadataView {
        mlp203()
    }

    open spec fn findings(&self, context: RuleContext<'_>) -> Seq<DiagnosticView> {
        kept(gather(context.cost_facts.hot_target_sizes@.len() as int, walk_finder(context)))
    }

    fn metadata(&self) -> (metadata: &'static RuleMetadata) {
        MLP203()
    }

    fn run(&self, context: &RuleContext<'_>) -> (diagnostics: Vec<Diagnostic>) {
        let hot_target_sizes = &context.cost_facts.hot_target_sizes;
        let mut candidates: Vec<Candidate> = Vec::new();
        let mut i: usize = 0;
        assert(candidate_views(candidates@) =~= Seq::empty());
        while i < hot_target_sizes.len()
            invariant
                i <= hot_target_sizes@.len(),
                hot_target_sizes@ == context.cost_facts.hot_target_sizes@,
                candidate_views(candidates@) == gather(i as int, walk_finder(*context)),
            decreases hot_target_sizes@.len() - i,
        {
            offer_found(&mut candidates, walk(context, i));
            i += 1;
        }
        keep_first(candidates)
    }
}

// ---------------------------------------------------------------------------
// MLP224: hot point_from_proportion on a confirmed-long path.
// ---------------------------------------------------------------------------

/// What [`MLP224`] declares.
pub open spec fn mlp224() -> MetadataView {
    MetadataView {
        id: "MLP224"@,
        summary: "point_from_proportion on a confirmed-long path inside a per-frame callback"@,
        default_enabled: true,
        default_severity: Severity::Info,
        minimum_confidence: Confidence::High,
        implementation_phase: 3,
        required_profiles: seq![],
        required_capabilities: seq!["qualified-calls"@, "lifecycle"@, "cost-facts"@],
        supersedes: seq!["MLP203"@],
    }
}

/// Metadata of rule `MLP224`.
#[allow(non_snake_case)]
pub fn MLP224() -> (metadata: &'static RuleMetadata)
    ensures
        metadata@ == mlp224(),
{
    let metadata: &'static RuleMetadata = &RuleMetadata {
        id: "MLP224",
        summary: "point_from_proportion on a confirmed-long path inside a per-frame callback",
        default_enabled: true,
        default_severity: Severity::Info,
        minimum_confidence: Confidence::High,
        implementation_phase: 3,
        required_profiles: &[],
        required_capabilities: &["qualified-calls", "lifecycle", "cost-facts"],
        supersedes: &["MLP203"],
    };
    assert(metadata@ =~= mlp224());
    metadata
}

/// `point_from_proportion` in a hot context on a receiver whose point count
/// is confirmed large: each call measures curve lengths across the whole
/// path before interpolating.
pub struct HotPointFromProportion;

pub const PROPORTION_START: &'static str = "`point_from_proportion()` runs once per rendered frame \
    on a path with ";

pub const PROPORTION_END: &'static str = ": every call measures the length \
    of each curve in the path before locating the sample.";

pub const PROPORTION_WHY_START: &'static str = "`point_from_proportion` walks all curves of the \
    receiver to build an arc-length table on every call; \
    per frame on a long path that repeated measurement \
    dominates (";

pub const PROPORTION_WHY_END: &'static str = "). Precompute the proportions \
    outside the callback, or sample a shorter dedicated \
    path object.";

/// The report on a long path.
pub open spec fn proportion_report(context: RuleContext<'_>, fact: HotTargetSizeFact) -> DiagnosticView {
    let call = context.qualified_calls.calls@[fact.call_index as int];
    let points = large_points_gate(context.cost_facts.large_points);
    basic_report(
        mlp224(),
        context,
        call.file,
        call.call_range,
        PROPORTION_START@ + size_text(fact) + PROPORTION_END@,
        PROPORTION_WHY_START@ + points.citation() + PROPORTION_WHY_END@,
        receiver_view(context, fact).insert(
            "gates"@,
            JsonView::List(seq![points.evidence(fact.sizes.points)]),
        ),
    )
}

/// What the receiver at `i` gives.
pub open spec fn proportion_at(context: RuleContext<'_>, i: int) -> Option<CandidateView> {
    let fact = context.cost_facts.hot_target_sizes@[i];
    if context.knowledge is Some && fact.kind is FamilyWalk && fact.method@
        == POINT_FROM_PROPORTION@ && fact.call_index < context.qualified_calls.calls@.len()
        && large_points_gate(context.cost_facts.large_points).passes(fact.sizes.points) {
        Some((number_key(fact.call_index), Some(proportion_report(context, fact))))
    } else {
        None
    }
}

fn proportion(context: &RuleContext<'_>, i: usize) -> (found: Option<Candidate>)
    requires
        i < context.cost_facts.hot_target_sizes@.len(),
    ensures
        match found {
            Some(candidate) => proportion_at(*context, i as int) == Some(
                candidate_view(candidate),
            ),
            None => proportion_at(*context, i as int) is None,
        },
{
    let fact = &context.cost_facts.hot_target_sizes[i];
    let points = large_points(context.cost_facts.large_points);
    if context.knowledge.is_none() || fact.kind != HotTargetKind::FamilyWalk || !same_text(
        fact.method.as_str(),
        POINT_FROM_PROPORTION,
    ) || fact.call_index >= context.qualified_calls.calls.len() || !points.confirmed_by(
        &fact.sizes.points,
    ) {
        return None;
    }
    let call = &context.qualified_calls.calls[fact.call_index];
    let gates: Vec<Json> = vec![points.evidence(&fact.sizes.points)];
    assert(json_items(gates@) =~= seq![points@.evidence(fact.sizes.points)]);
    let evidence = receiver_evidence(context, fact, gates);
    let diagnostic = build_diagnostic(
        MLP224(),
        context,
        call.file,
        call.call_range,
        cat3(PROPORTION_START, display_size(fact).as_str(), PROPORTION_END),
        cat3(PROPORTION_WHY_START, points.citation().as_str(), PROPORTION_WHY_END).as_str(),
        evidence,
    );
    Some(Candidate { key: call_key(fact.call_index), diagnostic: Some(diagnostic) })
}

/// Candidates of [`HotPointFromProportion`], fact by fact.
pub open spec fn proportion_finder(context: RuleContext<'_>) -> spec_fn(int) -> Seq<CandidateView> {
    |i: int| found(proportion_at(context, i))
}

impl Rule for HotPointFromProportion {
    open spec fn declared(&self) -> MetadataView {
        mlp224()
    }

    open spec fn findings(&self, context: RuleContext<'_>) -> Seq<DiagnosticView> {
        kept(gather(context.cost_facts.hot_target_sizes@.len() as int, proportion_finder(context)))
    }

    fn metadata(&self) -> (metadata: &'static RuleMetadata) {
        MLP224()
    }

    fn run(&self, context: &RuleContext<'_>) -> (diagnostics: Vec<Diagnostic>) {
        let hot_target_sizes = &context.cost_facts.hot_target_sizes;
        let mut candidates: Vec<Candidate> = Vec::new();
        let mut i: usize = 0;
        assert(candidate_views(candidates@) =~= Seq::empty());
        while i < hot_target_sizes.len()
            invariant
                i <= hot_target_sizes@.len(),
                hot_target_sizes@ == context.cost_facts.hot_target_sizes@,
                candidate_views(candidates@) == gather(i as int, proportion_finder(*context)),
            decreases hot_target_sizes@.len() - i,
        {
            offer_found(&mut candidates, proportion(context, i));
            i += 1;
        }
        keep_first(candidates)
    }
}

} // verus!
