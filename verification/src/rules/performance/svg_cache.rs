//! `MLP217`: a frame-varying key with `use_svg_cache=True` in a hot callback
//! grows the process-global SVG cache every frame.
//!
//! The rule is enabled only when the selected knowledge profile declares the
//! process-global, unbounded SVG cache semantics. The cache flag is resolved
//! conservatively: an explicit literal `use_svg_cache` wins; absent, the class
//! default applies; a non-literal flag or a `**kwargs` splat leaves the flag
//! unknown.
use super::support::{
    bounded_frames, execution_plays_json, execution_view, find_bounded_frames, find_live_call,
    frame_count_json, frame_count_view, live_call,
};
use crate::cost::{HotCall, HotSymbol};
use crate::diagnostic::{
    report_of, Confidence, Diagnostic, DiagnosticView, MetadataView, RuleMetadata, Severity,
};
use crate::frontend::{LiteralFact, QualifiedCall};
use crate::json::{
    json_text, json_texts, merge_evidence, merged_with, text_list, Evidence, EvidenceView, JsonView,
};
use crate::knowledge::SvgCacheFacts;
use crate::numbers::{display_frames, frames_text};
use crate::rules::base::{basic_report, build_diagnostic, Rule, RuleContext};
use crate::rules::dedupe::{
    call_key, candidate_view, candidate_views, keep_first, kept, number_key, offer_found, Candidate,
    CandidateView,
};
use crate::rules::rendering::support::{
    MARKUP_TEXT, MATH_TEX, SINGLE_MATH_TEX, SVG_MOBJECT, TEX, TEXT,
};
use crate::text::{
    cat4, cat5, decimal_size, found, gather, last_segment, numeral, same_text, short_name, texts,
};
use vstd::prelude::*;

verus! {

/// What [`MLP217`] declares.
pub open spec fn mlp217() -> MetadataView {
    MetadataView {
        id: "MLP217"@,
        summary: "Frame-varying key with use_svg_cache=True grows the process-global SVG cache every frame"@,
        default_enabled: true,
        default_severity: Severity::Warning,
        minimum_confidence: Confidence::High,
        implementation_phase: 3,
        required_profiles: seq![],
        required_capabilities: seq!["qualified-calls"@, "cost-facts"@, "local-fork-overlay"@],
        supersedes: seq![],
    }
}

/// Metadata of rule `MLP217`.
#[allow(non_snake_case)]
pub fn MLP217() -> (metadata: &'static RuleMetadata)
    ensures
        metadata@ == mlp217(),
{
    let metadata: &'static RuleMetadata = &RuleMetadata {
        id: "MLP217",
        summary: "Frame-varying key with use_svg_cache=True grows the process-global SVG cache every frame",
        default_enabled: true,
        default_severity: Severity::Warning,
        minimum_confidence: Confidence::High,
        implementation_phase: 3,
        required_profiles: &[],
        required_capabilities: &["qualified-calls", "cost-facts", "local-fork-overlay"],
        supersedes: &[],
    };
    assert(metadata@ =~= mlp217());
    metadata
}

/// A hot SVG-cached construction whose key provably varies per frame while
/// the cache flag is provably on: every rendered frame inserts one deep
/// family copy into a never-evicted process-global map.
pub struct FrameVaryingSvgCacheGrowth;

pub const CACHE_MIDDLE: &'static str = "` is constructed per frame with a frame-varying key while \
    `use_svg_cache` is enabled: every rendered frame inserts a new \
    entry — a deep copy of the whole constructed family — into the \
    process-global SVG cache, which is never evicted \
    (memory `O(F × family)`).";

pub const CACHE_WHY: &'static str = "The selected knowledge profile declares the SVG mobject cache as \
    process-global and unbounded, and hits are served as deep copies: \
    a frame-varying key therefore buys no reuse while permanently \
    retaining one family copy per rendered frame for the life of the \
    process. Pass `use_svg_cache=False` for keys that vary per frame, \
    or hoist the construction out of the per-frame callback. The \
    diagnosed expression stays valid Manim, so no automatic fix is \
    offered.";

pub const CACHE_PLAYS: &'static str = " Across the ";

pub const CACHE_COUNT: &'static str = " play(s) where this callback provably executes \
    it may retain ";

pub const CACHE_GROWTH: &'static str = "O(F × family): one retained deep family copy per key";

pub const CACHE_COPIES: &'static str = "hits are served as deep copies, so caching never removes the \
    per-construction copy cost";

/// Default of `use_svg_cache` for the classes that go through the cache.
pub open spec fn cache_default(id: Seq<char>) -> Option<bool> {
    if id == SVG_MOBJECT@ || id == MATH_TEX@ || id == SINGLE_MATH_TEX@ || id == TEX@ || id
        == MARKUP_TEXT@ {
        Some(true)
    } else if id == TEXT@ {
        Some(false)
    } else {
        None
    }
}

fn default_flag(id: &str) -> (flag: Option<bool>)
    ensures
        flag == cache_default(id@),
{
    if same_text(id, SVG_MOBJECT) || same_text(id, MATH_TEX) || same_text(id, SINGLE_MATH_TEX)
        || same_text(id, TEX) || same_text(id, MARKUP_TEXT) {
        Some(true)
    } else if same_text(id, TEXT) {
        Some(false)
    } else {
        None
    }
}

/// The effective `use_svg_cache` of a call, when it is certain.
pub open spec fn cache_flag(call: QualifiedCall, default_enabled: bool) -> Option<bool> {
    match call.spec_keyword("use_svg_cache"@) {
        Some(argument) => match argument.literal {
            Some(LiteralFact::Bool(value)) => Some(value),
            _ => None,
        },
        None => if call.has_star_star_kwargs {
            None
        } else {
            Some(default_enabled)
        },
    }
}

/// Conservative resolution of the effective `use_svg_cache` value: an
/// explicit literal keyword wins; without one a `**kwargs` splat hides the
/// flag; otherwise the class default applies.
fn svg_cache_flag(call: &QualifiedCall, default_enabled: bool) -> (flag: Option<bool>)
    ensures
        flag == cache_flag(*call, default_enabled),
{
    match call.keyword("use_svg_cache") {
        Some(argument) => match &argument.literal {
            Some(LiteralFact::Bool(value)) => Some(*value),
            _ => None,
        },
        None => if call.has_star_star_kwargs {
            None
        } else {
            Some(default_enabled)
        },
    }
}

/// Whether the profile declares a process-global, unbounded cache.
pub open spec fn grows_without_bound(cache: SvgCacheFacts) -> bool {
    cache.process_global == Some(true) && cache.unbounded == Some(true)
}

fn flag_set(flag: Option<bool>) -> (set: bool)
    ensures
        set == (flag == Some(true)),
{
    match flag {
        Some(value) => value,
        None => false,
    }
}

/// The evidence of one cache-growth report, without what the profile says of
/// the cache.
pub open spec fn growth_base(context: RuleContext<'_>, fact: HotSymbol, entry: HotCall) -> EvidenceView {
    merged_with(EvidenceView::empty(), entry.frame_evidence@).insert(
        "symbol"@,
        JsonView::Text(fact.symbol@),
    ).insert("execution"@, execution_view(context, entry.execution)).insert(
        "retained_cache_entries"@,
        frame_count_view(bounded_frames(entry)),
    ).insert("memory_growth"@, JsonView::Text(CACHE_GROWTH@))
}

/// The evidence of one cache-growth report.
pub open spec fn growth_view(
    context: RuleContext<'_>,
    fact: HotSymbol,
    entry: HotCall,
    cache: SvgCacheFacts,
) -> EvidenceView {
    let base = growth_base(context, fact, entry);
    let keyed = if cache.keyed_by@.len() == 0 {
        base
    } else {
        base.insert("cache_keyed_by"@, text_list(texts(cache.keyed_by@)))
    };
    if cache.copies_on_hit == Some(true) {
        keyed.insert("copies_on_hit"@, JsonView::Text(CACHE_COPIES@))
    } else {
        keyed
    }
}

/// The evidence map of one cache-growth diagnostic: the hot context, the
/// liveness plays, the retained-entry bound, and the curated cache semantics
/// the claim rests on.
fn growth_evidence(
    context: &RuleContext<'_>,
    fact: &HotSymbol,
    entry: &HotCall,
    cache: &SvgCacheFacts,
) -> (evidence: Evidence)
    ensures
        evidence@ == growth_view(*context, *fact, *entry, *cache),
{
    let mut evidence = Evidence::new();
    merge_evidence(&mut evidence, &entry.frame_evidence);
    evidence.insert("symbol", json_text(fact.symbol.as_str()));
    evidence.insert("execution", execution_plays_json(context, &entry.execution));
    evidence.insert("retained_cache_entries", frame_count_json(find_bounded_frames(entry)));
    evidence.insert("memory_growth", json_text(CACHE_GROWTH));
    if cache.keyed_by.len() != 0 {
        evidence.insert("cache_keyed_by", json_texts(&cache.keyed_by));
    }
    if flag_set(cache.copies_on_hit) {
        evidence.insert("copies_on_hit", json_text(CACHE_COPIES));
    }
    evidence
}

/// How many entries are retained, when that is bounded.
pub open spec fn retained_clause(entry: HotCall) -> Seq<char> {
    match bounded_frames(entry) {
        Some(frames) => CACHE_PLAYS@ + numeral(entry.execution.proven@.len()) + CACHE_COUNT@
            + frames_text(frames) + " cache entries."@,
        None => ""@,
    }
}

fn quantify_retained(entry: &HotCall) -> (text: String)
    ensures
        text@ == retained_clause(*entry),
{
    match find_bounded_frames(entry) {
        Some(frames) => cat5(
            CACHE_PLAYS,
            decimal_size(entry.execution.proven.len()).as_str(),
            CACHE_COUNT,
            display_frames(frames).as_str(),
            " cache entries.",
        ),
        None => "".to_owned(),
    }
}

/// The report on a growing cache.
pub open spec fn cache_report(
    context: RuleContext<'_>,
    fact: HotSymbol,
    entry: HotCall,
    cache: SvgCacheFacts,
) -> DiagnosticView {
    let call = context.qualified_calls.calls@[fact.call_index as int];
    basic_report(
        mlp217(),
        context,
        call.file,
        call.call_range,
        "`"@ + last_segment(fact.symbol@) + CACHE_MIDDLE@ + retained_clause(entry),
        CACHE_WHY@,
        growth_view(context, fact, entry, cache),
    )
}

/// What the call of a varying key gives.
pub open spec fn cached_call(
    context: RuleContext<'_>,
    fact: HotSymbol,
    default_enabled: bool,
    cache: SvgCacheFacts,
) -> Option<DiagnosticView> {
    if fact.call_index < context.qualified_calls.calls@.len() && cache_flag(
        context.qualified_calls.calls@[fact.call_index as int],
        default_enabled,
    ) == Some(true) {
        match live_call(context, fact.call_index, fact.symbol@) {
            Some(entry) => Some(cache_report(context, fact, entry, cache)),
            None => None,
        }
    } else {
        None
    }
}

fn check_cached_call(
    context: &RuleContext<'_>,
    fact: &HotSymbol,
    default_enabled: bool,
    cache: &SvgCacheFacts,
) -> (found: Option<Diagnostic>)
    ensures
        report_of(found) == cached_call(*context, *fact, default_enabled, *cache),
{
    if fact.call_index >= context.qualified_calls.calls.len() {
        return None;
    }
    let call = &context.qualified_calls.calls[fact.call_index];
    if !flag_set(svg_cache_flag(call, default_enabled)) {
        return None;
    }
    let entry = match find_live_call(context, fact.call_index, fact.symbol.as_str()) {
        Some(entry) => entry,
        None => {
            return None;
        },
    };
    Some(
        build_diagnostic(
            MLP217(),
            context,
            call.file,
            call.call_range,
            cat4(
                "`",
                short_name(fact.symbol.as_str()).as_str(),
                CACHE_MIDDLE,
                quantify_retained(entry).as_str(),
            ),
            CACHE_WHY,
            growth_evidence(context, fact, entry, cache),
        ),
    )
}

/// What the key at `i` gives.
pub open spec fn cache_growth_at(context: RuleContext<'_>, i: int) -> Option<CandidateView> {
    let fact = context.cost_facts.frame_varying_keys@[i];
    match context.knowledge {
        Some(profile) => match (profile.svg_cache, cache_default(fact.symbol@)) {
            (Some(cache), Some(default_enabled)) => if grows_without_bound(cache) {
                Some(
                    (
                        number_key(fact.call_index),
                        cached_call(context, fact, default_enabled, cache),
                    ),
                )
            } else {
                None
            },
            _ => None,
        },
        None => None,
    }
}

fn cache_growth(context: &RuleContext<'_>, i: usize) -> (found: Option<Candidate>)
    requires
        i < context.cost_facts.frame_varying_keys@.len(),
    ensures
        match found {
            Some(candidate) => cache_growth_at(*context, i as int) == Some(
                candidate_view(candidate),
            ),
            None => cache_growth_at(*context, i as int) is None,
        },
{
    let fact = &context.cost_facts.frame_varying_keys[i];
    let profile = match context.knowledge {
        Some(profile) => profile,
        None => {
            return None;
        },
    };
    let cache = match &profile.svg_cache {
        Some(cache) => cache,
        None => {
            return None;
        },
    };
    if !flag_set(cache.process_global) || !flag_set(cache.unbounded) {
        return None;
    }
    match default_flag(fact.symbol.as_str()) {
        Some(default_enabled) => Some(
            Candidate {
                key: call_key(fact.call_index),
                diagnostic: check_cached_call(context, fact, default_enabled, cache),
            },
        ),
        None => None,
    }
}

/// Candidates of [`FrameVaryingSvgCacheGrowth`], fact by fact.
pub open spec fn cache_growth_finder(context: RuleContext<'_>) -> spec_fn(int) -> Seq<CandidateView> {
    |i: int| found(cache_growth_at(context, i))
}

impl Rule for FrameVaryingSvgCacheGrowth {
    open spec fn declared(&self) -> MetadataView {
        mlp217()
    }

    open spec fn findings(&self, context: RuleContext<'_>) -> Seq<DiagnosticView> {
        kept(gather(context.cost_facts.frame_varying_keys@.len() as int, cache_growth_finder(context)))
    }

    fn metadata(&self) -> (metadata: &'static RuleMetadata) {
        MLP217()
    }

    fn run(&self, context: &RuleContext<'_>) -> (diagnostics: Vec<Diagnostic>) {
        let frame_varying_keys = &context.cost_facts.frame_varying_keys;
        let mut candidates: Vec<Candidate> = Vec::new();
        let mut i: usize = 0;
        assert(candidate_views(candidates@) =~= Seq::empty());
        while i < frame_varying_keys.len()
            invariant
                i <= frame_varying_keys@.len(),
                frame_varying_keys@ == context.cost_facts.frame_varying_keys@,
                candidate_views(candidates@) == gather(i as int, cache_growth_finder(*context)),
            decreases frame_varying_keys@.len() - i,
        {
            offer_found(&mut candidates, cache_growth(context, i));
            i += 1;
        }
        keep_first(candidates)
    }
}

} // verus!
