//! `MLP216`: `always_redraw` rebuilding provably stable geometry.
//!
//! Only lambda factories are analyzed, and the factory body must be exactly
//! one curated leaf constructor call with its guards holding. Argument
//! sub-expressions inside the constructor call are fine: they parameterize
//! placement, not topology. Containers own no curated leaf geometry and never
//! qualify.
use super::support::{goal_of, targets};
use crate::cost::{geometry_from, GeometryFact, HotContext, HotEntryKind};
use crate::diagnostic::{
    push_found, report_of, reports, Confidence, Diagnostic, DiagnosticView, MetadataView,
    RuleMetadata, Severity,
};
use crate::frontend::{ArgShape, QualifiedCall};
use crate::json::{
    json_object3, json_text, merge_evidence, merged_with, Evidence, EvidenceView, Json, JsonView,
};
use crate::rules::base::{basic_report, build_diagnostic, Rule, RuleContext};
use crate::semantic::{lambda_return_in, Truth};
use crate::source::{site_of, AllocationSite, TextRange};
use crate::text::{
    cat3, cat7, decimal, found, gather, last_segment, numeral, picked, picked_pass, short_name,
};
use vstd::prelude::*;

verus! {

/// Canonical id of the `always_redraw` factory helper.
pub const ALWAYS_REDRAW: &'static str = "manim.animation.updaters.mobject_update_utils.always_redraw";

/// The lambda that an `always_redraw` call has as factory, when every path
/// of it returns a mobject.
pub open spec fn redraw_factory(context: RuleContext<'_>, i: int) -> Option<TextRange> {
    let call = context.qualified_calls.calls@[i];
    match (context.knowledge, call.spec_positional(0)) {
        (Some(profile), Some(factory)) => match lambda_return_in(
            context.lifecycle_facts.callback_returns.lambdas@,
            site_of(call.file, factory.range),
        ) {
            Some(fact) => if goal_of(*profile, context.project_index, call) == Some(ALWAYS_REDRAW@)
                && factory.shape is Lambda && fact.returns_mobject == Truth::Yes {
                Some(factory.range)
            } else {
                None
            },
            None => None,
        },
        _ => None,
    }
}

fn find_redraw_factory(context: &RuleContext<'_>, i: usize) -> (range: Option<TextRange>)
    requires
        i < context.qualified_calls.calls@.len(),
    ensures
        range == redraw_factory(*context, i as int),
{
    let call = &context.qualified_calls.calls[i];
    let profile = match context.knowledge {
        Some(profile) => profile,
        None => {
            return None;
        },
    };
    if !targets(profile, &context.project_index, call, ALWAYS_REDRAW) {
        return None;
    }
    let factory = match call.positional(0) {
        Some(factory) => factory,
        None => {
            return None;
        },
    };
    let lambda: bool = match &factory.shape {
        ArgShape::Lambda => true,
        _ => false,
    };
    if !lambda {
        return None;
    }
    match context.lifecycle_facts.callback_returns.lambda_at(
        AllocationSite::new(call.file, factory.range),
    ) {
        Some(fact) => if fact.returns_mobject == Truth::Yes {
            Some(factory.range)
        } else {
            None
        },
        None => None,
    }
}

/// Whether the call at `j` lies inside the factory of the call at `i`.
pub open spec fn inside_factory(
    calls: Seq<QualifiedCall>,
    i: int,
    factory: TextRange,
    j: int,
) -> bool {
    j != i && calls[j].file == calls[i].file && factory.covers(calls[j].call_range)
}

fn is_inside_factory(calls: &Vec<QualifiedCall>, i: usize, factory: TextRange, j: usize) -> (inside:
    bool)
    requires
        i < calls@.len(),
        j < calls@.len(),
    ensures
        inside == inside_factory(calls@, i as int, factory, j as int),
{
    j != i && calls[j].file == calls[i].file && factory.encloses(calls[j].call_range)
}

/// The curated geometry of a leaf constructor call, when its guards hold so
/// that the default point-generation path is certain.
pub open spec fn leaf_geometry(context: RuleContext<'_>, j: int) -> Option<GeometryFact> {
    match (context.knowledge, geometry_from(context.cost_facts.geometry@, j as usize, 0)) {
        (Some(profile), Some(fact)) => if goal_of(
            *profile,
            context.project_index,
            context.qualified_calls.calls@[j],
        ) == Some(fact.class@) && fact.curves > 0 && fact.guards_hold {
            Some(fact)
        } else {
            None
        },
        _ => None,
    }
}

fn find_leaf_geometry<'c>(context: &'c RuleContext<'_>, j: usize) -> (fact: Option<
    &'c GeometryFact,
>)
    requires
        j < context.qualified_calls.calls@.len(),
    ensures
        match fact {
            Some(found) => leaf_geometry(*context, j as int) == Some(*found),
            None => leaf_geometry(*context, j as int) is None,
        },
{
    let profile = match context.knowledge {
        Some(profile) => profile,
        None => {
            return None;
        },
    };
    let fact = match context.cost_facts.geometry_of(j) {
        Some(fact) => fact,
        None => {
            return None;
        },
    };
    if targets(
        profile,
        &context.project_index,
        &context.qualified_calls.calls[j],
        fact.class.as_str(),
    ) && fact.curves > 0 && fact.guards_hold {
        Some(fact)
    } else {
        None
    }
}

/// Whether the call at `j` is a leaf constructor inside the factory.
pub open spec fn leaf_inside(context: RuleContext<'_>, i: int, factory: TextRange, j: int) -> bool {
    inside_factory(context.qualified_calls.calls@, i, factory, j) && leaf_geometry(
        context,
        j,
    ) is Some
}

/// The leaf constructors inside the factory.
pub open spec fn leaves(context: RuleContext<'_>, i: int, factory: TextRange) -> Seq<usize> {
    picked(
        context.qualified_calls.calls@.len() as int,
        |j: int| leaf_inside(context, i, factory, j),
    )
}

fn find_leaves(context: &RuleContext<'_>, i: usize, factory: TextRange) -> (list: Vec<usize>)
    requires
        i < context.qualified_calls.calls@.len(),
    ensures
        list@ == leaves(*context, i as int, factory),
        forall|k: int|
            0 <= k < list@.len() ==> #[trigger] list@[k] < context.qualified_calls.calls@.len()
                && leaf_geometry(*context, list@[k] as int) is Some,
{
    let calls = &context.qualified_calls.calls;
    let ghost test = |j: int| leaf_inside(*context, i as int, factory, j);
    let mut list: Vec<usize> = Vec::new();
    let mut j: usize = 0;
    while j < calls.len()
        invariant
            i < calls@.len(),
            j <= calls@.len(),
            calls@ == context.qualified_calls.calls@,
            test == (|j: int| leaf_inside(*context, i as int, factory, j)),
            list@ == picked(j as int, test),
        decreases calls@.len() - j,
    {
        if is_inside_factory(calls, i, factory, j) && find_leaf_geometry(context, j).is_some() {
            list.push(j);
        }
        j += 1;
    }
    proof {
        picked_pass(j as int, test);
    }
    list
}

/// Whether every other call in the factory sits inside the constructor (an
/// argument read). A call wrapping or beside the constructor means the
/// returned object may not be this construction.
pub open spec fn only_reads(
    calls: Seq<QualifiedCall>,
    i: int,
    factory: TextRange,
    constructor: int,
) -> bool {
    forall|j: int|
        0 <= j < calls.len() && #[trigger] inside_factory(calls, i, factory, j) ==> j == constructor
            || (calls[constructor].call_range.covers(calls[j].call_range) && calls[j].call_range
            != calls[constructor].call_range)
}

fn reads_only(calls: &Vec<QualifiedCall>, i: usize, factory: TextRange, constructor: usize) -> (only:
    bool)
    requires
        i < calls@.len(),
        constructor < calls@.len(),
    ensures
        only == only_reads(calls@, i as int, factory, constructor as int),
{
    let range: TextRange = calls[constructor].call_range;
    let mut j: usize = 0;
    while j < calls.len()
        invariant
            i < calls@.len(),
            constructor < calls@.len(),
            j <= calls@.len(),
            range == calls@[constructor as int].call_range,
            forall|k: int|
                0 <= k < j && #[trigger] inside_factory(calls@, i as int, factory, k) ==> k
                    == constructor || (range.covers(calls@[k].call_range) && calls@[k].call_range
                    != range),
        decreases calls@.len() - j,
    {
        if is_inside_factory(calls, i, factory, j) && j != constructor && !(range.encloses(
            calls[j].call_range,
        ) && calls[j].call_range != range) {
            assert(inside_factory(calls@, i as int, factory, j as int));
            return false;
        }
        j += 1;
    }
    true
}

/// Whether some context is an `always_redraw` factory.
pub open spec fn redrawn(contexts: Seq<HotContext>) -> bool {
    exists|k: int|
        0 <= k < contexts.len() && (#[trigger] contexts[k]).entry == HotEntryKind::AlwaysRedraw
}

fn is_redrawn(contexts: &Vec<HotContext>) -> (found: bool)
    ensures
        found == redrawn(contexts@),
{
    let mut k: usize = 0;
    while k < contexts.len()
        invariant
            k <= contexts@.len(),
            forall|j: int|
                0 <= j < k ==> (#[trigger] contexts@[j]).entry != HotEntryKind::AlwaysRedraw,
        decreases contexts@.len() - k,
    {
        if contexts[k].entry == HotEntryKind::AlwaysRedraw {
            return true;
        }
        k += 1;
    }
    false
}

/// The constructor that an `always_redraw` call at `i` provably repeats with
/// stable geometry.
pub open spec fn stable_redraw(context: RuleContext<'_>, i: int) -> Option<usize> {
    match redraw_factory(context, i) {
        Some(factory) => {
            let found = leaves(context, i, factory);
            if found.len() == 1 && only_reads(
                context.qualified_calls.calls@,
                i,
                factory,
                found[0] as int,
            ) && match context.cost_facts.spec_hot(found[0] as int) {
                Some(entry) => redrawn(entry.contexts@),
                None => false,
            } {
                Some(found[0])
            } else {
                None
            }
        },
        None => None,
    }
}

/// Resolves the stable-geometry `always_redraw` at `i`, if it is one.
fn find_stable_redraw(context: &RuleContext<'_>, i: usize) -> (constructor: Option<usize>)
    requires
        i < context.qualified_calls.calls@.len(),
    ensures
        constructor == stable_redraw(*context, i as int),
        constructor is Some ==> constructor->0 < context.qualified_calls.calls@.len()
            && leaf_geometry(*context, constructor->0 as int) is Some,
{
    let factory: TextRange = match find_redraw_factory(context, i) {
        Some(factory) => factory,
        None => {
            return None;
        },
    };
    let list: Vec<usize> = find_leaves(context, i, factory);
    if list.len() != 1 {
        return None;
    }
    let constructor: usize = list[0];
    assert(list@[0] == leaves(*context, i as int, factory)[0]);
    if !reads_only(&context.qualified_calls.calls, i, factory, constructor) {
        return None;
    }
    // The construction must be provably per-frame via this factory.
    let hot: bool = match context.cost_facts.hot(constructor) {
        Some(entry) => is_redrawn(&entry.contexts),
        None => false,
    };
    if hot {
        Some(constructor)
    } else {
        None
    }
}

/// Whether the call is an `always_redraw` with stable geometry or the
/// constructor inside its factory.
pub open spec fn claimed(context: RuleContext<'_>, call_index: usize) -> bool {
    exists|i: int|
        0 <= i < context.qualified_calls.calls@.len() && (#[trigger] stable_redraw(context, i))
            is Some && (call_index == i || stable_redraw(context, i) == Some(call_index))
}

/// Whether `MLP216` claims the call: `MLP202` excludes it so that the
/// implicit per-frame `become` of `always_redraw` is never reported twice.
pub fn is_claimed(context: &RuleContext<'_>, call_index: usize) -> (claims: bool)
    ensures
        claims == claimed(*context, call_index),
{
    let mut i: usize = 0;
    while i < context.qualified_calls.calls.len()
        invariant
            i <= context.qualified_calls.calls@.len(),
            forall|j: int|
                0 <= j < i && (#[trigger] stable_redraw(*context, j)) is Some ==> call_index != j
                    && stable_redraw(*context, j) != Some(call_index),
        decreases context.qualified_calls.calls@.len() - i,
    {
        match find_stable_redraw(context, i) {
            Some(constructor) => {
                if call_index == i || call_index == constructor {
                    assert(stable_redraw(*context, i as int) is Some);
                    return true;
                }
            },
            None => {},
        }
        i += 1;
    }
    false
}

/// What [`MLP216`] declares.
pub open spec fn mlp216() -> MetadataView {
    MetadataView {
        id: "MLP216"@,
        summary: "always_redraw rebuilds identical curated topology every frame"@,
        default_enabled: true,
        default_severity: Severity::Info,
        minimum_confidence: Confidence::Medium,
        implementation_phase: 3,
        required_profiles: seq![],
        required_capabilities: seq!["qualified-calls"@, "lifecycle"@, "cost-facts"@],
        supersedes: seq![],
    }
}

/// Metadata of rule `MLP216`.
#[allow(non_snake_case)]
pub fn MLP216() -> (metadata: &'static RuleMetadata)
    ensures
        metadata@ == mlp216(),
{
    let metadata: &'static RuleMetadata = &RuleMetadata {
        id: "MLP216",
        summary: "always_redraw rebuilds identical curated topology every frame",
        default_enabled: true,
        default_severity: Severity::Info,
        minimum_confidence: Confidence::Medium,
        implementation_phase: 3,
        required_profiles: &[],
        required_capabilities: &["qualified-calls", "lifecycle", "cost-facts"],
        supersedes: &[],
    };
    assert(metadata@ =~= mlp216());
    metadata
}

/// An `always_redraw` whose factory provably reconstructs the same curated
/// topology every frame: only placement or style parameters can change, so
/// each frame pays construction plus the factory's implicit `become`.
pub struct StableGeometryRedraw;

pub const REDRAW_START: &'static str = "This `always_redraw` factory rebuilds a `";

pub const REDRAW_END: &'static str = " points) \
    every frame: only placement or style parameters can \
    differ between reconstructions.";

pub const REDRAW_WHY_START: &'static str = "`always_redraw` calls the factory and `become`s the \
    result on every frame, paying construction plus a full \
    point/style/submobject rewrite for geometry that never \
    changes shape. A persistent `";

pub const REDRAW_WHY_END: &'static str = "` with an \
    `add_updater` applying the placement change avoids the \
    per-frame reconstruction. Note that switching to \
    *relative* affine updates can accumulate drift over many \
    frames — prefer updaters that recompute the absolute \
    placement — so this stays an advisory diagnostic.";

/// The finding for the call at `i`.
pub open spec fn redraw_at(context: RuleContext<'_>, i: int) -> Option<DiagnosticView> {
    let call = context.qualified_calls.calls@[i];
    match stable_redraw(context, i) {
        Some(constructor) => match leaf_geometry(context, constructor as int) {
            Some(fact) => Some(
                basic_report(
                    mlp216(),
                    context,
                    call.file,
                    call.call_range,
                    REDRAW_START@ + last_segment(fact.class@) + "` with identical topology ("@
                        + numeral(fact.curves as nat) + " curves, "@ + numeral(fact.points as nat)
                        + REDRAW_END@,
                    REDRAW_WHY_START@ + last_segment(fact.class@) + REDRAW_WHY_END@,
                    merged_with(
                        EvidenceView::empty(),
                        context.cost_facts.spec_evidence(constructor as int),
                    ).insert("constructed"@, JsonView::Text(fact.class@)).insert(
                        "topology"@,
                        JsonView::Object(
                            seq![
                                ("curves"@, JsonView::Whole(fact.curves as int)),
                                ("points"@, JsonView::Whole(fact.points as int)),
                                ("stable"@, JsonView::Flag(true)),
                            ],
                        ),
                    ),
                ),
            ),
            None => None,
        },
        None => None,
    }
}

fn redraw(context: &RuleContext<'_>, i: usize) -> (found: Option<Diagnostic>)
    requires
        i < context.qualified_calls.calls@.len(),
    ensures
        report_of(found) == redraw_at(*context, i as int),
{
    let call = &context.qualified_calls.calls[i];
    let constructor: usize = match find_stable_redraw(context, i) {
        Some(constructor) => constructor,
        None => {
            return None;
        },
    };
    let fact = match find_leaf_geometry(context, constructor) {
        Some(fact) => fact,
        None => {
            return None;
        },
    };
    let class: String = short_name(fact.class.as_str());
    let mut evidence = Evidence::new();
    merge_evidence(&mut evidence, &context.cost_facts.evidence_for(constructor));
    evidence.insert("constructed", json_text(fact.class.as_str()));
    evidence.insert(
        "topology",
        json_object3(
            "curves",
            Json::Whole(fact.curves as i128),
            "points",
            Json::Whole(fact.points as i128),
            "stable",
            Json::Flag(true),
        ),
    );
    Some(
        build_diagnostic(
            MLP216(),
            context,
            call.file,
            call.call_range,
            cat7(
                REDRAW_START,
                class.as_str(),
                "` with identical topology (",
                decimal(fact.curves).as_str(),
                " curves, ",
                decimal(fact.points).as_str(),
                REDRAW_END,
            ),
            cat3(REDRAW_WHY_START, class.as_str(), REDRAW_WHY_END).as_str(),
            evidence,
        ),
    )
}

/// Findings of [`StableGeometryRedraw`], call by call.
pub open spec fn redraw_finder(context: RuleContext<'_>) -> spec_fn(int) -> Seq<DiagnosticView> {
    |i: int| found(redraw_at(context, i))
}

impl Rule for StableGeometryRedraw {
    open spec fn declared(&self) -> MetadataView {
        mlp216()
    }

    open spec fn findings(&self, context: RuleContext<'_>) -> Seq<DiagnosticView> {
        gather(context.qualified_calls.calls@.len() as int, redraw_finder(context))
    }

    fn metadata(&self) -> (metadata: &'static RuleMetadata) {
        MLP216()
    }

    fn run(&self, context: &RuleContext<'_>) -> (diagnostics: Vec<Diagnostic>) {
        let calls = &context.qualified_calls.calls;
        let mut diagnostics: Vec<Diagnostic> = Vec::new();
        let mut i: usize = 0;
        assert(reports(diagnostics@) =~= Seq::empty());
        while i < calls.len()
            invariant
                i <= calls@.len(),
                calls@ == context.qualified_calls.calls@,
                reports(diagnostics@) == gather(i as int, redraw_finder(*context)),
            decreases calls@.len() - i,
        {
            push_found(&mut diagnostics, redraw(context, i));
            i += 1;
        }
        diagnostics
    }
}

} // verus!
