//! Hot-construction rules: `MLP201` and `MLP226`.
//!
//! `MLP226` supersedes `MLP201` on the same primary span, so the
//! frame-varying call indices are excluded from `MLP201`: the same span
//! never carries both diagnostics.
//!
//! Both rules are liveness-gated: a hot context only proves reachability
//! from a per-frame entry point, so a diagnostic fires only when at least one
//! play provably executes the callback per frame.
use super::support::{
    bounded_frames, execution_plays_json, execution_view, find_bounded_frames, find_live_call,
    frame_count_json, frame_count_view, live_call,
};
use crate::cost::{HotCall, HotSymbol};
use crate::diagnostic::{
    Confidence, Diagnostic, DiagnosticView, MetadataView, RuleMetadata, Severity,
};
use crate::json::{json_text, merge_evidence, merged_with, Evidence, EvidenceView, JsonView};
use crate::numbers::{display_frames, frames_text};
use crate::rules::base::{basic_report, build_diagnostic, Rule, RuleContext};
use crate::rules::dedupe::{
    call_key, candidate_view, candidate_views, keep_first, kept, number_key, offer_found, Candidate,
    CandidateView,
};
use crate::rules::rendering::support::{
    IMAGE_MOBJECT, MARKUP_TEXT, MATH_TEX, SINGLE_MATH_TEX, SVG_MOBJECT, TEX, TEXT,
};
use crate::text::{
    cat3, cat5, cat7, decimal_size, found, gather, last_segment, numeral, same_text, short_name,
};
use super::renderer_cost::SURFACE;
use vstd::prelude::*;

verus! {

/// Classes whose cache key is a Text or TeX resource key.
pub open spec fn text_or_tex(id: Seq<char>) -> bool {
    id == MATH_TEX@ || id == SINGLE_MATH_TEX@ || id == TEX@ || id == MARKUP_TEXT@ || id == TEXT@
}

pub fn is_text_or_tex(id: &str) -> (is: bool)
    ensures
        is == text_or_tex(id@),
{
    same_text(id, MATH_TEX) || same_text(id, SINGLE_MATH_TEX) || same_text(id, TEX) || same_text(
        id,
        MARKUP_TEXT,
    ) || same_text(id, TEXT)
}

/// Classes that are provably expensive to construct. Cheap constructions
/// (`Dot()`, `Square()`) stay out: a hot context alone does not make them
/// diagnostics.
pub open spec fn expensive(id: Seq<char>) -> bool {
    text_or_tex(id) || id == SVG_MOBJECT@ || id == SURFACE@ || id == IMAGE_MOBJECT@
}

fn is_expensive(id: &str) -> (is: bool)
    ensures
        is == expensive(id@),
{
    is_text_or_tex(id) || same_text(id, SVG_MOBJECT) || same_text(id, SURFACE) || same_text(
        id,
        IMAGE_MOBJECT,
    )
}

/// Whether a key of a Text or TeX construction varies at this call.
pub open spec fn varying_text(keys: Seq<HotSymbol>, call_index: usize) -> bool {
    exists|k: int|
        0 <= k < keys.len() && (#[trigger] keys[k]).call_index == call_index && text_or_tex(
            keys[k].symbol@,
        )
}

/// Whether `MLP226` claims the call: it supersedes `MLP201` there.
fn is_varying_text(keys: &Vec<HotSymbol>, call_index: usize) -> (varying: bool)
    ensures
        varying == varying_text(keys@, call_index),
{
    let mut k: usize = 0;
    while k < keys.len()
        invariant
            k <= keys@.len(),
            forall|j: int|
                0 <= j < k ==> !((#[trigger] keys@[j]).call_index == call_index && text_or_tex(
                    keys@[j].symbol@,
                )),
        decreases keys@.len() - k,
    {
        if keys[k].call_index == call_index && is_text_or_tex(keys[k].symbol.as_str()) {
            return true;
        }
        k += 1;
    }
    false
}

// ---------------------------------------------------------------------------
// MLP201: expensive construction inside a hot context.
// ---------------------------------------------------------------------------

/// What [`MLP201`] declares.
pub open spec fn mlp201() -> MetadataView {
    MetadataView {
        id: "MLP201"@,
        summary: "Expensive Text/TeX/SVG/Surface construction inside a per-frame callback"@,
        default_enabled: true,
        default_severity: Severity::Warning,
        minimum_confidence: Confidence::High,
        implementation_phase: 3,
        required_profiles: seq![],
        required_capabilities: seq!["qualified-calls"@, "cost-facts"@],
        supersedes: seq![],
    }
}

/// Metadata of rule `MLP201`.
#[allow(non_snake_case)]
pub fn MLP201() -> (metadata: &'static RuleMetadata)
    ensures
        metadata@ == mlp201(),
{
    let metadata: &'static RuleMetadata = &RuleMetadata {
        id: "MLP201",
        summary: "Expensive Text/TeX/SVG/Surface construction inside a per-frame callback",
        default_enabled: true,
        default_severity: Severity::Warning,
        minimum_confidence: Confidence::High,
        implementation_phase: 3,
        required_profiles: &[],
        required_capabilities: &["qualified-calls", "cost-facts"],
        supersedes: &[],
    };
    assert(metadata@ =~= mlp201());
    metadata
}

/// `Text`, `MathTex`, `Tex`, `SVGMobject`, or `Surface` constructed inside
/// an updater, `always_redraw` factory, or other per-frame callback.
pub struct HotExpensiveConstruction;

pub const HOT_MIDDLE: &'static str = "` is constructed inside a per-frame callback (";

pub const HOT_COUNT: &'static str = "): the full construction cost runs once per \
    rendered frame of ";

pub const HOT_END: &'static str = " play(s) where the callback \
    provably executes.";

pub const HOT_WHY: &'static str = "` includes shaping / parsing / family \
    construction (and for TeX classes a cache lookup whose miss \
    launches an external compiler), so a per-frame construction \
    multiplies that cost by the frame count. If only a numeric \
    value changes per frame, construct a `DecimalNumber` once and \
    drive it with `set_value` from the updater instead of \
    rebuilding `MathTex`/`Text` — the alternative changes \
    typography, so no automatic fix is offered.";

/// The report on a construction.
pub open spec fn construction_report(
    context: RuleContext<'_>,
    fact: HotSymbol,
    entry: HotCall,
) -> DiagnosticView {
    let call = context.qualified_calls.calls@[fact.call_index as int];
    let class = last_segment(fact.symbol@);
    let label = entry.contexts@[0].entry.spec_label();
    basic_report(
        mlp201(),
        context,
        call.file,
        call.call_range,
        "`"@ + class + HOT_MIDDLE@ + label + HOT_COUNT@ + numeral(
            entry.execution.proven@.len(),
        ) + HOT_END@,
        "Constructing `"@ + class + HOT_WHY@,
        merged_with(EvidenceView::empty(), entry.evidence@).insert(
            "symbol"@,
            JsonView::Text(fact.symbol@),
        ).insert("entry"@, JsonView::Text(label)).insert(
            "execution"@,
            execution_view(context, entry.execution),
        ),
    )
}

fn report_construction(context: &RuleContext<'_>, fact: &HotSymbol, entry: &HotCall) -> (diagnostic:
    Diagnostic)
    requires
        fact.call_index < context.qualified_calls.calls@.len(),
        entry.contexts@.len() > 0,
    ensures
        diagnostic@ == construction_report(*context, *fact, *entry),
{
    let call = &context.qualified_calls.calls[fact.call_index];
    let class: String = short_name(fact.symbol.as_str());
    let label: &'static str = entry.contexts[0].entry.label();
    let mut evidence = Evidence::new();
    merge_evidence(&mut evidence, &entry.evidence);
    evidence.insert("symbol", json_text(fact.symbol.as_str()));
    evidence.insert("entry", json_text(label));
    evidence.insert("execution", execution_plays_json(context, &entry.execution));
    build_diagnostic(
        MLP201(),
        context,
        call.file,
        call.call_range,
        cat7(
            "`",
            class.as_str(),
            HOT_MIDDLE,
            label,
            HOT_COUNT,
            decimal_size(entry.execution.proven.len()).as_str(),
            HOT_END,
        ),
        cat3("Constructing `", class.as_str(), HOT_WHY).as_str(),
        evidence,
    )
}

/// What the construction at `i` gives.
pub open spec fn hot_construction_at(context: RuleContext<'_>, i: int) -> Option<CandidateView> {
    let fact = context.cost_facts.constructions@[i];
    if context.knowledge is None || !expensive(fact.symbol@) || varying_text(
        context.cost_facts.frame_varying_keys@,
        fact.call_index,
    ) {
        None
    } else {
        Some(
            (
                number_key(fact.call_index),
                match live_call(context, fact.call_index, fact.symbol@) {
                    Some(entry) => Some(construction_report(context, fact, entry)),
                    None => None,
                },
            ),
        )
    }
}

fn hot_construction(context: &RuleContext<'_>, i: usize) -> (found: Option<Candidate>)
    requires
        i < context.cost_facts.constructions@.len(),
    ensures
        match found {
            Some(candidate) => hot_construction_at(*context, i as int) == Some(
                candidate_view(candidate),
            ),
            None => hot_construction_at(*context, i as int) is None,
        },
{
    let fact = &context.cost_facts.constructions[i];
    if context.knowledge.is_none() || !is_expensive(fact.symbol.as_str()) || is_varying_text(
        &context.cost_facts.frame_varying_keys,
        fact.call_index,
    ) {
        return None;
    }
    let diagnostic: Option<Diagnostic> = match find_live_call(
        context,
        fact.call_index,
        fact.symbol.as_str(),
    ) {
        Some(entry) => Some(report_construction(context, fact, entry)),
        None => None,
    };
    Some(Candidate { key: call_key(fact.call_index), diagnostic })
}

/// Candidates of [`HotExpensiveConstruction`], fact by fact.
pub open spec fn hot_construction_finder(context: RuleContext<'_>) -> spec_fn(int) -> Seq<CandidateView> {
    |i: int| found(hot_construction_at(context, i))
}

impl Rule for HotExpensiveConstruction {
    open spec fn declared(&self) -> MetadataView {
        mlp201()
    }

    open spec fn findings(&self, context: RuleContext<'_>) -> Seq<DiagnosticView> {
        kept(gather(context.cost_facts.constructions@.len() as int, hot_construction_finder(context)))
    }

    fn metadata(&self) -> (metadata: &'static RuleMetadata) {
        MLP201()
    }

    fn run(&self, context: &RuleContext<'_>) -> (diagnostics: Vec<Diagnostic>) {
        let constructions = &context.cost_facts.constructions;
        let mut candidates: Vec<Candidate> = Vec::new();
        let mut i: usize = 0;
        assert(candidate_views(candidates@) =~= Seq::empty());
        while i < constructions.len()
            invariant
                i <= constructions@.len(),
                constructions@ == context.cost_facts.constructions@,
                candidate_views(candidates@) == gather(i as int, hot_construction_finder(*context)),
            decreases constructions@.len() - i,
        {
            offer_found(&mut candidates, hot_construction(context, i));
            i += 1;
        }
        keep_first(candidates)
    }
}

// ---------------------------------------------------------------------------
// MLP226: frame-varying Text / TeX cache key in a hot callback.
// ---------------------------------------------------------------------------

/// What [`MLP226`] declares.
pub open spec fn mlp226() -> MetadataView {
    MetadataView {
        id: "MLP226"@,
        summary: "Frame-varying Text/TeX cache key inside a per-frame callback"@,
        default_enabled: true,
        default_severity: Severity::Warning,
        minimum_confidence: Confidence::High,
        implementation_phase: 3,
        required_profiles: seq![],
        required_capabilities: seq!["qualified-calls"@, "cost-facts"@],
        supersedes: seq!["MLP201"@],
    }
}

/// Metadata of rule `MLP226`.
#[allow(non_snake_case)]
pub fn MLP226() -> (metadata: &'static RuleMetadata)
    ensures
        metadata@ == mlp226(),
{
    let metadata: &'static RuleMetadata = &RuleMetadata {
        id: "MLP226",
        summary: "Frame-varying Text/TeX cache key inside a per-frame callback",
        default_enabled: true,
        default_severity: Severity::Warning,
        minimum_confidence: Confidence::High,
        implementation_phase: 3,
        required_profiles: &[],
        required_capabilities: &["qualified-calls", "cost-facts"],
        supersedes: &["MLP201"],
    };
    assert(metadata@ =~= mlp226());
    metadata
}

/// A hot `Text`, `MathTex`, or `Tex` construction whose cache key is a
/// provably frame-varying f-string, so each frame can mint a distinct disk
/// asset.
pub struct FrameVaryingResourceKey;

pub const KEY_START: &'static str = "Each invocation constructs a `";

pub const KEY_END: &'static str = "` and performs a \
    cache-key lookup, and this f-string key varies per frame: \
    every rendered frame can mint a distinct Text/TeX cache key \
    and disk asset (`K_resource ≈ F`).";

pub const KEY_PLAYS: &'static str = " Across the ";

pub const KEY_COUNT: &'static str = " play(s) where this callback provably \
    executes it may create ";

pub const KEY_WHY_START: &'static str = "A frame-varying key defeats the `";

pub const KEY_WHY_END: &'static str = "` cache: instead of \
    one shaping/compile job reused every frame, each frame pays \
    construction plus a cache miss, and for TeX classes each \
    distinct key also launches the external TeX compiler and \
    `dvisvgm`, leaving one disk asset per key. If only a numeric \
    value changes, construct a `DecimalNumber` once and drive it \
    with `set_value` from the updater; the diagnosed expression \
    stays valid Manim, so no automatic fix is offered.";

/// How many keys a construction can create, when that is bounded.
pub open spec fn key_clause(entry: HotCall) -> Seq<char> {
    match bounded_frames(entry) {
        Some(frames) => KEY_PLAYS@ + numeral(entry.execution.proven@.len()) + KEY_COUNT@
            + frames_text(frames) + " distinct keys."@,
        None => ""@,
    }
}

fn quantify_keys(entry: &HotCall) -> (text: String)
    ensures
        text@ == key_clause(*entry),
{
    match find_bounded_frames(entry) {
        Some(frames) => cat5(
            KEY_PLAYS,
            decimal_size(entry.execution.proven.len()).as_str(),
            KEY_COUNT,
            display_frames(frames).as_str(),
            " distinct keys.",
        ),
        None => "".to_owned(),
    }
}

/// The report on a varying key.
pub open spec fn key_report(context: RuleContext<'_>, fact: HotSymbol, entry: HotCall) -> DiagnosticView {
    let call = context.qualified_calls.calls@[fact.call_index as int];
    let class = last_segment(fact.symbol@);
    basic_report(
        mlp226(),
        context,
        call.file,
        call.call_range,
        KEY_START@ + class + KEY_END@ + key_clause(entry),
        KEY_WHY_START@ + class + KEY_WHY_END@,
        merged_with(EvidenceView::empty(), entry.frame_evidence@).insert(
            "symbol"@,
            JsonView::Text(fact.symbol@),
        ).insert("execution"@, execution_view(context, entry.execution)).insert(
            "distinct_resource_keys"@,
            frame_count_view(bounded_frames(entry)),
        ),
    )
}

fn report_key(context: &RuleContext<'_>, fact: &HotSymbol, entry: &HotCall) -> (diagnostic:
    Diagnostic)
    requires
        fact.call_index < context.qualified_calls.calls@.len(),
    ensures
        diagnostic@ == key_report(*context, *fact, *entry),
{
    let call = &context.qualified_calls.calls[fact.call_index];
    let class: String = short_name(fact.symbol.as_str());
    let mut evidence = Evidence::new();
    merge_evidence(&mut evidence, &entry.frame_evidence);
    evidence.insert("symbol", json_text(fact.symbol.as_str()));
    evidence.insert("execution", execution_plays_json(context, &entry.execution));
    evidence.insert("distinct_resource_keys", frame_count_json(find_bounded_frames(entry)));
    build_diagnostic(
        MLP226(),
        context,
        call.file,
        call.call_range,
        crate::text::cat4(KEY_START, class.as_str(), KEY_END, quantify_keys(entry).as_str()),
        cat3(KEY_WHY_START, class.as_str(), KEY_WHY_END).as_str(),
        evidence,
    )
}

/// What the key at `i` gives.
pub open spec fn varying_key_at(context: RuleContext<'_>, i: int) -> Option<CandidateView> {
    let fact = context.cost_facts.frame_varying_keys@[i];
    if context.knowledge is None || !text_or_tex(fact.symbol@) {
        None
    } else {
        Some(
            (
                number_key(fact.call_index),
                match live_call(context, fact.call_index, fact.symbol@) {
                    Some(entry) => Some(key_report(context, fact, entry)),
                    None => None,
                },
            ),
        )
    }
}

fn varying_key(context: &RuleContext<'_>, i: usize) -> (found: Option<Candidate>)
    requires
        i < context.cost_facts.frame_varying_keys@.len(),
    ensures
        match found {
            Some(candidate) => varying_key_at(*context, i as int) == Some(
                candidate_view(candidate),
            ),
            None => varying_key_at(*context, i as int) is None,
        },
{
    let fact = &context.cost_facts.frame_varying_keys[i];
    if context.knowledge.is_none() || !is_text_or_tex(fact.symbol.as_str()) {
        return None;
    }
    let diagnostic: Option<Diagnostic> = match find_live_call(
        context,
        fact.call_index,
        fact.symbol.as_str(),
    ) {
        Some(entry) => Some(report_key(context, fact, entry)),
        None => None,
    };
    Some(Candidate { key: call_key(fact.call_index), diagnostic })
}

/// Candidates of [`FrameVaryingResourceKey`], fact by fact.
pub open spec fn varying_key_finder(context: RuleContext<'_>) -> spec_fn(int) -> Seq<CandidateView> {
    |i: int| found(varying_key_at(context, i))
}

impl Rule for FrameVaryingResourceKey {
    open spec fn declared(&self) -> MetadataView {
        mlp226()
    }

    open spec fn findings(&self, context: RuleContext<'_>) -> Seq<DiagnosticView> {
        kept(gather(context.cost_facts.frame_varying_keys@.len() as int, varying_key_finder(context)))
    }

    fn metadata(&self) -> (metadata: &'static RuleMetadata) {
        MLP226()
    }

    fn run(&self, context: &RuleContext<'_>) -> (diagnostics: Vec<Diagnostic>) {
        let frame_varying_keys = &context.cost_facts.frame_varying_keys;
        let mut candidates: Vec<Candidate> = Vec::new();
        let mut i: usize = 0;
        assert(candidate_views(candidates@) =~= Seq::empty());
        while i < frame_varying_keys.len()
            invariant
                i <= frame_varying_keys@.len(),
                frame_varying_keys@ == context.cost_facts.frame_varying_keys@,
                candidate_views(candidates@) == gather(i as int, varying_key_finder(*context)),
            decreases frame_varying_keys@.len() - i,
        {
            offer_found(&mut candidates, varying_key(context, i));
            i += 1;
        }
        keep_first(candidates)
    }
}

} // verus!
