//! `MLP211`: large per-frame allocation inside a hot context.
//!
//! Two provable arms: an array construction whose literal shape statically
//! proves a large number of bytes per invocation, and a hot call whose
//! resolved target object has a confirmed large point count. Small coordinate
//! vectors are excluded by the byte gate itself.
//!
//! A call whose callback provably never executes per frame stays silent. When
//! execution is proven, the message states the per-frame claim; when it is
//! only possible, the wording stays qualitative.
use super::support::{execution_plays_json, execution_view};
use crate::cost::{HotCall, HotTargetSizeFact};
use crate::diagnostic::{
    push_found, report_of, reports, Confidence, Diagnostic, DiagnosticView, MetadataView,
    RuleMetadata, Severity,
};
use crate::json::{
    bounds_view, json_items, json_list, merge_evidence, merged_with, num_bounds_json, Evidence,
    EvidenceView, Json, JsonView,
};
use crate::numbers::{nearest, nearest_double, round_to_double, Bound, Num};
use crate::rules::base::{basic_report, build_diagnostic, Rule, RuleContext};
use crate::text::{cat2, cat3, cat4, cat5, decimal, found, gather, numeral};
use crate::thresholds::{
    large_points, large_points_gate, per_frame_allocation_gate, PER_FRAME_ALLOCATION_GATE,
};
use vstd::prelude::*;

verus! {

/// What [`MLP211`] declares.
pub open spec fn mlp211() -> MetadataView {
    MetadataView {
        id: "MLP211"@,
        summary: "Large per-frame allocation inside a per-frame callback"@,
        default_enabled: true,
        default_severity: Severity::Info,
        minimum_confidence: Confidence::Medium,
        implementation_phase: 3,
        required_profiles: seq![],
        required_capabilities: seq!["qualified-calls"@, "cost-facts"@],
        supersedes: seq![],
    }
}

/// Metadata of rule `MLP211`.
#[allow(non_snake_case)]
pub fn MLP211() -> (metadata: &'static RuleMetadata)
    ensures
        metadata@ == mlp211(),
{
    let metadata: &'static RuleMetadata = &RuleMetadata {
        id: "MLP211",
        summary: "Large per-frame allocation inside a per-frame callback",
        default_enabled: true,
        default_severity: Severity::Info,
        minimum_confidence: Confidence::Medium,
        implementation_phase: 3,
        required_profiles: &[],
        required_capabilities: &["qualified-calls", "cost-facts"],
        supersedes: &[],
    };
    assert(metadata@ =~= mlp211());
    metadata
}

/// A statically proven large allocation running once per rendered frame.
pub struct HotLargeAllocation;

/// Bytes in a mebibyte.
pub const MEBIBYTE: u64 = 1024 * 1024;

pub const ALLOCATES: &'static str = "This call allocates at least ";

pub const MATERIALIZES: &'static str = "This call materializes an object with at least ";

pub const EVERY_FRAME: &'static str = "runs once per rendered frame";

pub const POSSIBLY: &'static str = "sits in a per-frame callback (though no play provably \
    executes it)";

pub const ALLOCATION_WHY_START: &'static str = "A fresh large buffer per frame multiplies allocator and \
    memory-bandwidth cost by the frame count (";

pub const ALLOCATION_WHY_END: &'static str = "). \
    Allocate the buffer once outside the callback and fill it \
    in place (e.g. `numpy` `out=` parameters or slice \
    assignment), or shrink it to what one frame actually \
    needs.";

/// A whole number of bytes: in KiB below one MiB, in MiB with one decimal
/// from there on, rounded to the nearest with ties to even.
pub open spec fn whole_size_text(bytes: int) -> Seq<char> {
    if bytes >= MEBIBYTE {
        let tenths = nearest(10 * bytes, MEBIBYTE as int);
        numeral((tenths / 10) as nat) + "."@ + numeral((tenths % 10) as nat) + " MiB"@
    } else {
        numeral(nearest(bytes, 1024) as nat) + " KiB"@
    }
}

/// A number of bytes in words.
pub open spec fn size_text(bytes: Bound<'_>) -> Seq<char> {
    match bytes {
        Bound::Whole(n) => whole_size_text(
            if n < 0 {
                0
            } else {
                nearest_double(n as int)
            },
        ),
        Bound::Real(value) => value.size@,
    }
}

fn round_even(m: u128, unit: u128) -> (q: u64)
    requires
        2 <= unit <= 0xFFFF_FFFF,
        (m as int) / (unit as int) < 0xFFFF_FFFF_FFFF_FFFF,
    ensures
        q == nearest(m as int, unit as int),
{
    let q: u128 = m / unit;
    let r: u128 = m % unit;
    assert(r < unit) by (nonlinear_arith)
        requires
            r == m % unit,
            unit >= 2,
    ;
    if 2 * r > unit || (2 * r == unit && q % 2 == 1) {
        (q + 1) as u64
    } else {
        q as u64
    }
}

/// Renders a byte bound (`800 KiB`, `1.2 MiB`).
fn display_bytes(bytes: &Bound<'_>) -> (text: String)
    ensures
        text@ == size_text(*bytes),
{
    match bytes {
        Bound::Whole(n) => {
            let count: u64 = if *n < 0 {
                0
            } else {
                round_to_double(*n as u64)
            };
            if count >= MEBIBYTE {
                let tenths: u64 = round_even(10 * count as u128, MEBIBYTE as u128);
                cat4(decimal(tenths / 10).as_str(), ".", decimal(tenths % 10).as_str(), " MiB")
            } else {
                cat2(decimal(round_even(count as u128, 1024)).as_str(), " KiB")
            }
        },
        Bound::Real(value) => value.size.clone(),
    }
}

/// Whether a receiver-sized rule owns the call.
pub open spec fn receiver_owned(list: Seq<HotTargetSizeFact>, call_index: usize) -> bool {
    exists|k: int| 0 <= k < list.len() && (#[trigger] list[k]).call_index == call_index
}

fn is_receiver_owned(list: &Vec<HotTargetSizeFact>, call_index: usize) -> (owned: bool)
    ensures
        owned == receiver_owned(list@, call_index),
{
    let mut k: usize = 0;
    while k < list.len()
        invariant
            k <= list@.len(),
            forall|j: int| 0 <= j < k ==> (#[trigger] list@[j]).call_index != call_index,
        decreases list@.len() - k,
    {
        if list[k].call_index == call_index {
            return true;
        }
        k += 1;
    }
    false
}

/// How often the call runs.
pub open spec fn frequency(entry: HotCall) -> Seq<char> {
    if entry.execution.is_proven() {
        EVERY_FRAME@
    } else {
        POSSIBLY@
    }
}

/// The report on a large allocation: `by_bytes` tells which of the two
/// quantities is the large one.
pub open spec fn allocation_report(
    context: RuleContext<'_>,
    entry: HotCall,
    by_bytes: bool,
    lower: Bound<'_>,
) -> DiagnosticView {
    let call = context.qualified_calls.calls@[entry.call_index as int];
    let points = large_points_gate(context.cost_facts.large_points);
    let base = merged_with(EvidenceView::empty(), entry.evidence@).insert(
        "execution"@,
        execution_view(context, entry.execution),
    );
    basic_report(
        mlp211(),
        context,
        call.file,
        call.call_range,
        if by_bytes {
            ALLOCATES@ + size_text(lower) + " per invocation and "@ + frequency(entry) + "."@
        } else {
            MATERIALIZES@ + lower.rounded_text() + " points and "@ + frequency(entry) + "."@
        },
        ALLOCATION_WHY_START@ + per_frame_allocation_gate().citation() + ALLOCATION_WHY_END@,
        if by_bytes {
            base.insert("bytes_per_invocation"@, bounds_view(entry.allocation_bytes)).insert(
                "gates"@,
                JsonView::List(
                    seq![per_frame_allocation_gate().evidence(entry.allocation_bytes)],
                ),
            )
        } else {
            base.insert("points"@, bounds_view(entry.target_points)).insert(
                "gates"@,
                JsonView::List(seq![points.evidence(entry.target_points)]),
            )
        },
    )
}

fn report_allocation(
    context: &RuleContext<'_>,
    entry: &HotCall,
    by_bytes: bool,
    lower: &Bound<'_>,
) -> (diagnostic: Diagnostic)
    requires
        entry.call_index < context.qualified_calls.calls@.len(),
    ensures
        diagnostic@ == allocation_report(*context, *entry, by_bytes, *lower),
{
    let call = &context.qualified_calls.calls[entry.call_index];
    let gate = PER_FRAME_ALLOCATION_GATE();
    let often: &'static str = if entry.execution.has_proven() {
        EVERY_FRAME
    } else {
        POSSIBLY
    };
    let mut evidence = Evidence::new();
    merge_evidence(&mut evidence, &entry.evidence);
    evidence.insert("execution", execution_plays_json(context, &entry.execution));
    let mut gates: Vec<Json> = Vec::new();
    let message: String = if by_bytes {
        evidence.insert("bytes_per_invocation", num_bounds_json(&entry.allocation_bytes));
        gates.push(gate.evidence(&entry.allocation_bytes));
        assert(json_items(gates@) =~= seq![gate@.evidence(entry.allocation_bytes)]);
        cat5(ALLOCATES, display_bytes(lower).as_str(), " per invocation and ", often, ".")
    } else {
        let points = large_points(context.cost_facts.large_points);
        evidence.insert("points", num_bounds_json(&entry.target_points));
        gates.push(points.evidence(&entry.target_points));
        assert(json_items(gates@) =~= seq![points@.evidence(entry.target_points)]);
        cat5(MATERIALIZES, lower.format_rounded().as_str(), " points and ", often, ".")
    };
    evidence.insert("gates", json_list(gates));
    build_diagnostic(
        MLP211(),
        context,
        call.file,
        call.call_range,
        message,
        cat3(ALLOCATION_WHY_START, gate.citation().as_str(), ALLOCATION_WHY_END).as_str(),
        evidence,
    )
}

/// The finding for the hot call at `i`.
pub open spec fn allocation_at(context: RuleContext<'_>, i: int) -> Option<DiagnosticView> {
    let entry = context.cost_facts.hot_calls@[i];
    let by_bytes = per_frame_allocation_gate().passes(entry.allocation_bytes);
    let by_points = !receiver_owned(context.cost_facts.hot_target_sizes@, entry.call_index)
        && large_points_gate(context.cost_facts.large_points).passes(entry.target_points);
    if context.knowledge is Some && entry.call_index < context.qualified_calls.calls@.len() && (
    by_bytes || by_points) && (entry.execution.is_proven() || entry.execution.is_possible()) {
        Some(
            allocation_report(
                context,
                entry,
                by_bytes,
                if by_bytes {
                    entry.allocation_bytes.spec_lower_bound()->0
                } else {
                    entry.target_points.spec_lower_bound()->0
                },
            ),
        )
    } else {
        None
    }
}

fn allocation(context: &RuleContext<'_>, i: usize) -> (found: Option<Diagnostic>)
    requires
        i < context.cost_facts.hot_calls@.len(),
    ensures
        report_of(found) == allocation_at(*context, i as int),
{
    let entry = &context.cost_facts.hot_calls[i];
    if context.knowledge.is_none() || entry.call_index >= context.qualified_calls.calls.len() {
        return None;
    }
    let by_bytes: bool = PER_FRAME_ALLOCATION_GATE().confirmed_by(&entry.allocation_bytes);
    // One call must yield one diagnostic: calls owned by the receiver-sized
    // rules also carry large point counts.
    if !by_bytes && (is_receiver_owned(&context.cost_facts.hot_target_sizes, entry.call_index)
        || !large_points(context.cost_facts.large_points).confirmed_by(&entry.target_points)) {
        return None;
    }
    if !entry.execution.has_proven() && !entry.execution.possibly_executes() {
        return None;
    }
    let quantity: &Num = if by_bytes {
        &entry.allocation_bytes
    } else {
        &entry.target_points
    };
    match quantity.lower_bound() {
        Some(lower) => Some(report_allocation(context, entry, by_bytes, &lower)),
        None => None,
    }
}

/// Findings of [`HotLargeAllocation`], fact by fact.
pub open spec fn allocation_finder(context: RuleContext<'_>) -> spec_fn(int) -> Seq<DiagnosticView> {
    |i: int| found(allocation_at(context, i))
}

impl Rule for HotLargeAllocation {
    open spec fn declared(&self) -> MetadataView {
        mlp211()
    }

    open spec fn findings(&self, context: RuleContext<'_>) -> Seq<DiagnosticView> {
        gather(context.cost_facts.hot_calls@.len() as int, allocation_finder(context))
    }

    fn metadata(&self) -> (metadata: &'static RuleMetadata) {
        MLP211()
    }

    fn run(&self, context: &RuleContext<'_>) -> (diagnostics: Vec<Diagnostic>) {
        let hot_calls = &context.cost_facts.hot_calls;
        let mut diagnostics: Vec<Diagnostic> = Vec::new();
        let mut i: usize = 0;
        assert(reports(diagnostics@) =~= Seq::empty());
        while i < hot_calls.len()
            invariant
                i <= hot_calls@.len(),
                hot_calls@ == context.cost_facts.hot_calls@,
                reports(diagnostics@) == gather(i as int, allocation_finder(*context)),
            decreases hot_calls@.len() - i,
        {
            push_found(&mut diagnostics, allocation(context, i));
            i += 1;
        }
        diagnostics
    }
}

} // verus!
