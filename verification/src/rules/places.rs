//! Reports about calls: which call a report is about, and that no call is
//! reported twice.
use crate::diagnostic::DiagnosticView;
use crate::rules::base::{Rule, RuleContext};
use crate::rules::dedupe::{
    kept, kept_entries, kept_from_candidates, kept_keys_distinct, number_key, CandidateView,
};
use crate::rules::performance::hot_construction::{
    hot_construction_at, hot_construction_finder, text_or_tex, varying_key_at, varying_key_finder,
    varying_text, FrameVaryingResourceKey, HotExpensiveConstruction,
};
use crate::rules::performance::hot_receiver::{
    copy_at, copy_finder, proportion_at, proportion_finder, walk_at, walk_finder, HotFamilyCopy,
    HotFamilyWalk, HotPointFromProportion,
};
use crate::source::{path_in, sliceable, span_in, spans_tell_ranges_apart, SourceManager};
use crate::text::{found, gather, gathered_from};
use vstd::prelude::*;
use vstd::utf8::encode_utf8;

verus! {

/// Whether no two files have the same path.
pub open spec fn paths_differ(sources: SourceManager) -> bool {
    forall|a: int, b: int|
        0 <= a < b < sources.files@.len() ==> (#[trigger] sources.files@[a]).relative_path@ != (
        #[trigger] sources.files@[b]).relative_path@
}

/// Whether every call stands in a file of the project, between characters.
pub open spec fn calls_located(context: RuleContext<'_>) -> bool {
    forall|c: int|
        0 <= c < context.qualified_calls.calls@.len() ==> {
            let call = #[trigger] context.qualified_calls.calls@[c];
            call.file.index < context.sources.files@.len() && sliceable(
                encode_utf8(context.sources.files@[call.file.index as int].text@),
                call.call_range,
            )
        }
}

/// Whether no two calls share file and range.
pub open spec fn calls_apart(context: RuleContext<'_>) -> bool {
    let calls = context.qualified_calls.calls@;
    forall|a: int, b: int|
        0 <= a < b < calls.len() ==> !((#[trigger] calls[a]).file == (#[trigger] calls[b]).file
            && calls[a].call_range == calls[b].call_range)
}

/// Whether the calls of a project can be told apart by their places.
pub open spec fn calls_distinct(context: RuleContext<'_>) -> bool {
    paths_differ(*context.sources) && calls_located(context) && calls_apart(context)
}

/// Whether a report is about the call at `c`.
pub open spec fn about_call(context: RuleContext<'_>, report: DiagnosticView, c: usize) -> bool {
    let call = context.qualified_calls.calls@[c as int];
    c < context.qualified_calls.calls@.len() && report.path == path_in(*context.sources, call.file)
        && report.primary_span == span_in(*context.sources, call.file, call.call_range)
}

/// Whether two reports have path and span in common.
pub open spec fn same_place(a: DiagnosticView, b: DiagnosticView) -> bool {
    a.path == b.path && a.primary_span == b.primary_span
}

/// Reports at the same place are about the same call.
pub proof fn place_tells_the_call(
    context: RuleContext<'_>,
    a: DiagnosticView,
    b: DiagnosticView,
    c: usize,
    d: usize,
)
    requires
        calls_distinct(context),
        about_call(context, a, c),
        about_call(context, b, d),
        same_place(a, b),
    ensures
        c == d,
{
    let calls = context.qualified_calls.calls@;
    let first = calls[c as int];
    let second = calls[d as int];
    let files = context.sources.files@;
    let f = first.file.index as int;
    let g = second.file.index as int;
    assert(files[f].relative_path@ == files[g].relative_path@);
    assert(f == g);
    spans_tell_ranges_apart(files[f].text@, first.call_range, second.call_range);
    if c < d {
        assert(calls[c as int].file == calls[d as int].file);
    } else if d < c {
        assert(calls[d as int].file == calls[c as int].file);
    }
}

/// Whether candidates that carry a report have the number of the call as key
/// that the report is about.
pub open spec fn keyed_by_call(context: RuleContext<'_>, candidate: CandidateView) -> bool {
    candidate.1 matches Some(report) ==> exists|c: usize|
        candidate.0 == #[trigger] number_key(c) && about_call(context, report, c)
}

/// Of candidates that are keyed by their calls, the reports that are kept are
/// about different calls, and so at different places.
pub proof fn kept_places_differ(context: RuleContext<'_>, list: Seq<CandidateView>, i: int, j: int)
    requires
        calls_distinct(context),
        forall|k: int| 0 <= k < list.len() ==> keyed_by_call(context, #[trigger] list[k]),
        0 <= i < j < kept(list).len(),
    ensures
        !same_place(kept(list)[i], kept(list)[j]),
{
    let entries = kept_entries(list);
    kept_from_candidates(list, i);
    kept_from_candidates(list, j);
    let p = choose|p: int| 0 <= p < list.len() && list[p] == (entries[i].0, Some(entries[i].1));
    let q = choose|q: int| 0 <= q < list.len() && list[q] == (entries[j].0, Some(entries[j].1));
    assert(keyed_by_call(context, list[p]));
    assert(keyed_by_call(context, list[q]));
    let c = choose|c: usize|
        list[p].0 == #[trigger] number_key(c) && about_call(context, entries[i].1, c);
    let d = choose|d: usize|
        list[q].0 == #[trigger] number_key(d) && about_call(context, entries[j].1, d);
    kept_keys_distinct(list, i, j);
    if same_place(kept(list)[i], kept(list)[j]) {
        place_tells_the_call(context, entries[i].1, entries[j].1, c, d);
    }
}

/// A report that is kept comes from one of the facts.
proof fn report_has_a_fact(
    n: int,
    at: spec_fn(int) -> Option<CandidateView>,
    finder: spec_fn(int) -> Seq<CandidateView>,
    i: int,
) -> (k: int)
    requires
        forall|k: int| #[trigger] finder(k) == found(at(k)),
        0 <= i < kept(gather(n, finder)).len(),
    ensures
        0 <= k < n,
        at(k) == Some(
            (kept_entries(gather(n, finder))[i].0, Some(kept(gather(n, finder))[i])),
        ),
{
    let list = gather(n, finder);
    kept_from_candidates(list, i);
    let entry = kept_entries(list)[i];
    let p = choose|p: int| 0 <= p < list.len() && list[p] == (entry.0, Some(entry.1));
    gathered_from(n, finder, p);
    let k = choose|k: int| 0 <= k < n && (#[trigger] finder(k)).contains(list[p]);
    let part = finder(k);
    assert(part == found(at(k)));
    k
}

/// Candidates that each come from a fact keep what holds of the facts.
proof fn candidates_keyed(
    context: RuleContext<'_>,
    n: int,
    at: spec_fn(int) -> Option<CandidateView>,
    finder: spec_fn(int) -> Seq<CandidateView>,
)
    requires
        forall|k: int| #[trigger] finder(k) == found(at(k)),
        forall|k: int|
            0 <= k < n && (#[trigger] at(k)) is Some ==> keyed_by_call(context, at(k)->0),
    ensures
        forall|p: int|
            0 <= p < gather(n, finder).len() ==> keyed_by_call(
                context,
                #[trigger] gather(n, finder)[p],
            ),
{
    let list = gather(n, finder);
    assert forall|p: int| 0 <= p < list.len() implies keyed_by_call(
        context,
        #[trigger] list[p],
    ) by {
        gathered_from(n, finder, p);
        let k = choose|k: int| 0 <= k < n && (#[trigger] finder(k)).contains(list[p]);
        let part = finder(k);
        assert(part == found(at(k)));
    }
}

proof fn construction_keyed(context: RuleContext<'_>, i: int)
    ensures
        hot_construction_at(context, i) matches Some(candidate) ==> keyed_by_call(
            context,
            candidate,
        ),
{
    let c = context.cost_facts.constructions@[i].call_index;
    assert(number_key(c) == number_key(c));
}

proof fn varying_keyed(context: RuleContext<'_>, i: int)
    ensures
        varying_key_at(context, i) matches Some(candidate) ==> keyed_by_call(context, candidate),
{
    let c = context.cost_facts.frame_varying_keys@[i].call_index;
    assert(number_key(c) == number_key(c));
}

/// Where calls can be told apart, no place carries both the report of the
/// hot-construction rule and that of the varying-key rule.
pub proof fn constructions_are_reported_by_one_rule(context: RuleContext<'_>, i: int, j: int)
    requires
        calls_distinct(context),
        0 <= i < HotExpensiveConstruction.findings(context).len(),
        0 <= j < FrameVaryingResourceKey.findings(context).len(),
    ensures
        !same_place(
            HotExpensiveConstruction.findings(context)[i],
            FrameVaryingResourceKey.findings(context)[j],
        ),
{
    let constructions = context.cost_facts.constructions@;
    let keys = context.cost_facts.frame_varying_keys@;
    let k = report_has_a_fact(
        constructions.len() as int,
        |k: int| hot_construction_at(context, k),
        hot_construction_finder(context),
        i,
    );
    let m = report_has_a_fact(
        keys.len() as int,
        |k: int| varying_key_at(context, k),
        varying_key_finder(context),
        j,
    );
    let a = HotExpensiveConstruction.findings(context)[i];
    let b = FrameVaryingResourceKey.findings(context)[j];
    if same_place(a, b) {
        place_tells_the_call(context, a, b, constructions[k].call_index, keys[m].call_index);
        assert(text_or_tex(keys[m].symbol@));
        assert(varying_text(keys, constructions[k].call_index));
    }
}

/// Where calls can be told apart, the hot-construction rule reports no place
/// twice.
pub proof fn constructions_are_reported_once(context: RuleContext<'_>, i: int, j: int)
    requires
        calls_distinct(context),
        0 <= i < j < HotExpensiveConstruction.findings(context).len(),
    ensures
        !same_place(
            HotExpensiveConstruction.findings(context)[i],
            HotExpensiveConstruction.findings(context)[j],
        ),
{
    let n = context.cost_facts.constructions@.len() as int;
    let at = |k: int| hot_construction_at(context, k);
    assert forall|k: int| 0 <= k < n && (#[trigger] at(k)) is Some implies keyed_by_call(
        context,
        at(k)->0,
    ) by {
        construction_keyed(context, k);
    }
    candidates_keyed(context, n, at, hot_construction_finder(context));
    kept_places_differ(context, gather(n, hot_construction_finder(context)), i, j);
}

/// Where calls can be told apart, the varying-key rule reports no place
/// twice.
pub proof fn varying_keys_are_reported_once(context: RuleContext<'_>, i: int, j: int)
    requires
        calls_distinct(context),
        0 <= i < j < FrameVaryingResourceKey.findings(context).len(),
    ensures
        !same_place(
            FrameVaryingResourceKey.findings(context)[i],
            FrameVaryingResourceKey.findings(context)[j],
        ),
{
    let n = context.cost_facts.frame_varying_keys@.len() as int;
    let at = |k: int| varying_key_at(context, k);
    assert forall|k: int| 0 <= k < n && (#[trigger] at(k)) is Some implies keyed_by_call(
        context,
        at(k)->0,
    ) by {
        varying_keyed(context, k);
    }
    candidates_keyed(context, n, at, varying_key_finder(context));
    kept_places_differ(context, gather(n, varying_key_finder(context)), i, j);
}

/// Whether there is at most one size fact about a call.
pub open spec fn sizes_apart(context: RuleContext<'_>) -> bool {
    let sizes = context.cost_facts.hot_target_sizes@;
    forall|a: int, b: int|
        0 <= a < b < sizes.len() ==> (#[trigger] sizes[a]).call_index != (
        #[trigger] sizes[b]).call_index
}

/// Where calls can be told apart and have one size fact each, no place
/// carries two of the reports on copies, family walks, and proportion
/// queries.
pub proof fn receivers_are_reported_by_one_rule(
    context: RuleContext<'_>,
    copied: int,
    walked: int,
    queried: int,
)
    requires
        calls_distinct(context),
        sizes_apart(context),
    ensures
        0 <= copied < HotFamilyCopy.findings(context).len() && 0 <= walked
            < HotFamilyWalk.findings(context).len() ==> !same_place(
            HotFamilyCopy.findings(context)[copied],
            HotFamilyWalk.findings(context)[walked],
        ),
        0 <= walked < HotFamilyWalk.findings(context).len() && 0 <= queried
            < HotPointFromProportion.findings(context).len() ==> !same_place(
            HotFamilyWalk.findings(context)[walked],
            HotPointFromProportion.findings(context)[queried],
        ),
        0 <= copied < HotFamilyCopy.findings(context).len() && 0 <= queried
            < HotPointFromProportion.findings(context).len() ==> !same_place(
            HotFamilyCopy.findings(context)[copied],
            HotPointFromProportion.findings(context)[queried],
        ),
{
    let sizes = context.cost_facts.hot_target_sizes@;
    let n = sizes.len() as int;
    let copies = HotFamilyCopy.findings(context);
    let walks = HotFamilyWalk.findings(context);
    let queries = HotPointFromProportion.findings(context);
    if 0 <= copied < copies.len() && 0 <= walked < walks.len() {
        let a = report_has_a_fact(n, |k: int| copy_at(context, k), copy_finder(context), copied);
        let b = report_has_a_fact(n, |k: int| walk_at(context, k), walk_finder(context), walked);
        if same_place(copies[copied], walks[walked]) {
            let (c, d) = (sizes[a].call_index, sizes[b].call_index);
            place_tells_the_call(context, copies[copied], walks[walked], c, d);
            assert(a == b);
        }
    }
    if 0 <= walked < walks.len() && 0 <= queried < queries.len() {
        let a = report_has_a_fact(n, |k: int| walk_at(context, k), walk_finder(context), walked);
        let b = report_has_a_fact(
            n,
            |k: int| proportion_at(context, k),
            proportion_finder(context),
            queried,
        );
        if same_place(walks[walked], queries[queried]) {
            let (c, d) = (sizes[a].call_index, sizes[b].call_index);
            place_tells_the_call(context, walks[walked], queries[queried], c, d);
            assert(a == b);
        }
    }
    if 0 <= copied < copies.len() && 0 <= queried < queries.len() {
        let a = report_has_a_fact(n, |k: int| copy_at(context, k), copy_finder(context), copied);
        let b = report_has_a_fact(
            n,
            |k: int| proportion_at(context, k),
            proportion_finder(context),
            queried,
        );
        if same_place(copies[copied], queries[queried]) {
            let (c, d) = (sizes[a].call_index, sizes[b].call_index);
            place_tells_the_call(context, copies[copied], queries[queried], c, d);
            assert(a == b);
        }
    }
}

} // verus!
