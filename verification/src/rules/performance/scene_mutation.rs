//! `MLP204`: scene-graph growth inside an updater.
//!
//! The growth claim requires a play that provably executes the callback per
//! frame: an updater suspended during every play, or one that only ever sees
//! static waits, provably never grows the scene.
use super::support::{execution_plays_json, execution_view, find_live_call, live_call};
use crate::cost::{HotCall, HotMutation, SceneMembershipEffect};
use crate::diagnostic::{
    Confidence, Diagnostic, DiagnosticView, MetadataView, RuleMetadata, Severity,
};
use crate::json::{
    json_object2, json_text, merge_evidence, merged_with, Evidence, EvidenceView, Json, JsonView,
};
use crate::rules::base::{basic_report, build_diagnostic, Rule, RuleContext};
use crate::rules::dedupe::{
    call_key, candidate_view, candidate_views, keep_first, kept, number_key, offer_found, Candidate,
    CandidateView,
};
use crate::text::{cat5, found, gather, last_segment, short_name};
use vstd::prelude::*;

verus! {

/// What [`MLP204`] declares.
pub open spec fn mlp204() -> MetadataView {
    MetadataView {
        id: "MLP204"@,
        summary: "Scene graph grows with a fresh mobject every frame inside an updater"@,
        default_enabled: true,
        default_severity: Severity::Warning,
        minimum_confidence: Confidence::High,
        implementation_phase: 3,
        required_profiles: seq![],
        required_capabilities: seq!["qualified-calls"@, "cost-facts"@],
        supersedes: seq![],
    }
}

/// Metadata of rule `MLP204`.
#[allow(non_snake_case)]
pub fn MLP204() -> (metadata: &'static RuleMetadata)
    ensures
        metadata@ == mlp204(),
{
    let metadata: &'static RuleMetadata = &RuleMetadata {
        id: "MLP204",
        summary: "Scene graph grows with a fresh mobject every frame inside an updater",
        default_enabled: true,
        default_severity: Severity::Warning,
        minimum_confidence: Confidence::High,
        implementation_phase: 3,
        required_profiles: &[],
        required_capabilities: &["qualified-calls", "cost-facts"],
        supersedes: &[],
    };
    assert(metadata@ =~= mlp204());
    metadata
}

/// `Scene.add` (and the foreground and fixed-in-frame adders) called inside
/// a per-frame callback with a freshly constructed mobject argument: the
/// scene family grows by one object per frame.
pub struct HotSceneGraphGrowth;

pub const GROWTH_MIDDLE: &'static str = "` runs inside a per-frame callback (";

pub const GROWTH_END: &'static str = ") with a \
    freshly constructed mobject: the scene family grows by one \
    object per rendered frame (`O(F)`), and rasterizing the \
    accumulated members across the play approaches `O(F²)`.";

pub const GROWTH_WHY: &'static str = "Every frame allocates a new mobject and inserts it into the \
    persistent scene graph, so nothing is ever freed while the \
    scene renders: frame N draws N accumulated objects. If a \
    growing trail is intended, `TracedPath` (with a \
    `dissipating_time` bound where possible) expresses it with a \
    single mobject; otherwise create the object once outside the \
    callback and mutate it per frame.";

/// Membership effects that add members.
pub open spec fn grows(effect: SceneMembershipEffect) -> bool {
    !(effect is Other)
}

fn is_growth(effect: SceneMembershipEffect) -> (growth: bool)
    ensures
        growth == grows(effect),
{
    match effect {
        SceneMembershipEffect::Add => true,
        SceneMembershipEffect::AddForeground => true,
        SceneMembershipEffect::AddFixedInFrame => true,
        SceneMembershipEffect::AddFixedOrientation => true,
        SceneMembershipEffect::Other => false,
    }
}

/// The report on a growing scene graph.
pub open spec fn growth_report(
    context: RuleContext<'_>,
    fact: HotMutation,
    entry: HotCall,
) -> DiagnosticView {
    let call = context.qualified_calls.calls@[fact.call_index as int];
    basic_report(
        mlp204(),
        context,
        call.file,
        call.call_range,
        "`"@ + last_segment(fact.symbol@) + GROWTH_MIDDLE@ + entry.contexts@[0].entry.spec_label()
            + GROWTH_END@,
        GROWTH_WHY@,
        merged_with(EvidenceView::empty(), entry.evidence@).insert(
            "symbol"@,
            JsonView::Text(fact.symbol@),
        ).insert("execution"@, execution_view(context, entry.execution)).insert(
            "adds_fresh_allocation"@,
            JsonView::Flag(fact.adds_fresh_allocation),
        ).insert(
            "growth"@,
            JsonView::Object(
                seq![
                    ("family"@, JsonView::Text("O(F)"@)),
                    ("raster"@, JsonView::Text("O(F^2)"@)),
                ],
            ),
        ),
    )
}

fn report_growth(context: &RuleContext<'_>, fact: &HotMutation, entry: &HotCall) -> (diagnostic:
    Diagnostic)
    requires
        fact.call_index < context.qualified_calls.calls@.len(),
        entry.contexts@.len() > 0,
    ensures
        diagnostic@ == growth_report(*context, *fact, *entry),
{
    let call = &context.qualified_calls.calls[fact.call_index];
    let mut evidence = Evidence::new();
    merge_evidence(&mut evidence, &entry.evidence);
    evidence.insert("symbol", json_text(fact.symbol.as_str()));
    evidence.insert("execution", execution_plays_json(context, &entry.execution));
    evidence.insert("adds_fresh_allocation", Json::Flag(fact.adds_fresh_allocation));
    evidence.insert(
        "growth",
        json_object2("family", json_text("O(F)"), "raster", json_text("O(F^2)")),
    );
    build_diagnostic(
        MLP204(),
        context,
        call.file,
        call.call_range,
        cat5(
            "`",
            short_name(fact.symbol.as_str()).as_str(),
            GROWTH_MIDDLE,
            entry.contexts[0].entry.label(),
            GROWTH_END,
        ),
        GROWTH_WHY,
        evidence,
    )
}

/// What the mutation at `i` gives.
pub open spec fn growth_at(context: RuleContext<'_>, i: int) -> Option<CandidateView> {
    let fact = context.cost_facts.scene_mutations@[i];
    if context.knowledge is None || !fact.adds_fresh_allocation || !grows(fact.effect) {
        None
    } else {
        Some(
            (
                number_key(fact.call_index),
                match live_call(context, fact.call_index, fact.symbol@) {
                    Some(entry) => Some(growth_report(context, fact, entry)),
                    None => None,
                },
            ),
        )
    }
}

fn growth(context: &RuleContext<'_>, i: usize) -> (found: Option<Candidate>)
    requires
        i < context.cost_facts.scene_mutations@.len(),
    ensures
        match found {
            Some(candidate) => growth_at(*context, i as int) == Some(candidate_view(candidate)),
            None => growth_at(*context, i as int) is None,
        },
{
    let fact = &context.cost_facts.scene_mutations[i];
    // Without a proven fresh allocation the object may exist already.
    if context.knowledge.is_none() || !fact.adds_fresh_allocation || !is_growth(fact.effect) {
        return None;
    }
    let diagnostic: Option<Diagnostic> = match find_live_call(
        context,
        fact.call_index,
        fact.symbol.as_str(),
    ) {
        Some(entry) => Some(report_growth(context, fact, entry)),
        None => None,
    };
    Some(Candidate { key: call_key(fact.call_index), diagnostic })
}

/// Candidates of [`HotSceneGraphGrowth`], fact by fact.
pub open spec fn growth_finder(context: RuleContext<'_>) -> spec_fn(int) -> Seq<CandidateView> {
    |i: int| found(growth_at(context, i))
}

impl Rule for HotSceneGraphGrowth {
    open spec fn declared(&self) -> MetadataView {
        mlp204()
    }

    open spec fn findings(&self, context: RuleContext<'_>) -> Seq<DiagnosticView> {
        kept(gather(context.cost_facts.scene_mutations@.len() as int, growth_finder(context)))
    }

    fn metadata(&self) -> (metadata: &'static RuleMetadata) {
        MLP204()
    }

    fn run(&self, context: &RuleContext<'_>) -> (diagnostics: Vec<Diagnostic>) {
        let scene_mutations = &context.cost_facts.scene_mutations;
        let mut candidates: Vec<Candidate> = Vec::new();
        let mut i: usize = 0;
        assert(candidate_views(candidates@) =~= Seq::empty());
        while i < scene_mutations.len()
            invariant
                i <= scene_mutations@.len(),
                scene_mutations@ == context.cost_facts.scene_mutations@,
                candidate_views(candidates@) == gather(i as int, growth_finder(*context)),
            decreases scene_mutations@.len() - i,
        {
            offer_found(&mut candidates, growth(context, i));
            i += 1;
        }
        keep_first(candidates)
    }
}

} // verus!
