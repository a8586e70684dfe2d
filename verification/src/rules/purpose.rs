//! What the rules are for: which facts are owed a diagnostic, and what every
//! diagnostic proves. These laws speak of the facts themselves and of the
//! reports, rule by rule.
pub mod arguments;
pub mod builders;
pub mod children;
pub mod course;
pub mod decisions;
pub mod environment;
pub mod files;
pub mod fixes;
pub mod frames;
pub mod hot;
pub mod identity;
pub mod layers;
pub mod lifecycle;
pub mod lookups;
pub mod meaning;
pub mod performance;
pub mod portability;
pub mod rendering;
pub mod requirements;
pub mod scenes;
pub mod selection;
pub mod typesetting;

use crate::diagnostic::DiagnosticView;
use crate::frontend::{CallArgument, ProjectIndex, QualifiedCall, ReceiverKind};
use crate::knowledge::resolved;
use crate::rules::base::RuleContext;
use crate::rules::dedupe::{kept, kept_entries, kept_from_candidates, met, CandidateView};
use crate::rules::lifecycle::support::target_of;
use crate::rules::performance::support::goal_of;
use crate::source::{path_in, span_in, AllocationSite, FileId, TextRange};
use crate::text::{found, gather, gathered_from, texts};
use vstd::prelude::*;

verus! {

/// Whether a report points at a range of a file.
pub open spec fn points_at(
    context: RuleContext<'_>,
    report: DiagnosticView,
    file: FileId,
    range: TextRange,
) -> bool {
    report.path == path_in(*context.sources, file) && report.primary_span == span_in(
        *context.sources,
        file,
        range,
    )
}

/// Whether some report of a list points at a range of a file.
pub open spec fn reported_at(
    context: RuleContext<'_>,
    list: Seq<DiagnosticView>,
    file: FileId,
    range: TextRange,
) -> bool {
    exists|k: int| 0 <= k < list.len() && points_at(context, #[trigger] list[k], file, range)
}

/// The byte range of a site.
pub open spec fn range_of_site(site: AllocationSite) -> TextRange {
    TextRange { start: site.start, end: site.end }
}

/// Whether the project leaves no base of a class open.
pub open spec fn class_settled(index: ProjectIndex, id: Seq<char>) -> bool {
    index.spec_class(id) matches Some(record) ==> record.bases_fully_resolved
}

/// Whether it is known what the receiver of a call is.
pub open spec fn receiver_settled(index: ProjectIndex, call: QualifiedCall) -> bool {
    match call.receiver {
        ReceiverKind::SelfScene => call.context.class_name matches Some(name) ==> class_settled(
            index,
            name@,
        ),
        ReceiverKind::KnownInstance(kind) => class_settled(index, kind@),
        ReceiverKind::ModuleAlias => true,
        ReceiverKind::Direct => true,
        ReceiverKind::Unknown => false,
    }
}

/// Whether a call certainly calls the curated symbol `id`.
pub open spec fn surely_calls(context: RuleContext<'_>, call: QualifiedCall, id: Seq<char>) -> bool {
    &&& context.knowledge matches Some(profile) && profile.spec_symbol(id) is Some
    &&& call.candidates@.len() > 0
    &&& forall|i: int| 0 <= i < call.candidates@.len() ==> (#[trigger] call.candidates@[i])@ == id
    &&& receiver_settled(context.project_index, call)
}

/// Whether every candidate of a call stands for the curated symbol `id`.
pub open spec fn may_only_call(context: RuleContext<'_>, call: QualifiedCall, id: Seq<char>) -> bool {
    &&& context.knowledge is Some
    &&& call.candidates@.len() > 0
    &&& forall|i: int|
        0 <= i < call.candidates@.len() ==> resolved(
            *context.knowledge->0,
            (#[trigger] call.candidates@[i])@,
        ) == Some(id)
    &&& receiver_settled(context.project_index, call)
}

/// Whether a call has a bound receiver.
pub open spec fn on_an_instance(call: QualifiedCall) -> bool {
    match call.receiver {
        ReceiverKind::SelfScene => true,
        ReceiverKind::KnownInstance(_) => true,
        _ => false,
    }
}

pub(crate) proof fn sure_call_is_the_target(
    context: RuleContext<'_>,
    call: QualifiedCall,
    id: Seq<char>,
)
    requires
        surely_calls(context, call, id),
    ensures
        target_of(*context.knowledge->0, context.project_index, call) == Some(id),
        goal_of(*context.knowledge->0, context.project_index, call) == Some(id),
        may_only_call(context, call, id),
{
    let profile = *context.knowledge->0;
    let list = texts(call.candidates@);
    assert(list[0] == call.candidates@[0]@);
    assert forall|i: int| 0 <= i < list.len() implies #[trigger] list[i] == id by {
        assert(list[i] == call.candidates@[i]@);
    }
    assert forall|i: int| 0 <= i < call.candidates@.len() implies resolved(
        profile,
        (#[trigger] call.candidates@[i])@,
    ) == Some(id) by {
        assert(call.candidates@[i]@ == id);
    }
}

pub(crate) proof fn target_may_only_be_called(
    context: RuleContext<'_>,
    call: QualifiedCall,
    id: Seq<char>,
)
    requires
        context.knowledge is Some,
        target_of(*context.knowledge->0, context.project_index, call) == Some(id),
    ensures
        may_only_call(context, call, id),
{
    let list = texts(call.candidates@);
    assert(list[0] == call.candidates@[0]@);
    assert forall|i: int| 0 <= i < call.candidates@.len() implies resolved(
        *context.knowledge->0,
        (#[trigger] call.candidates@[i])@,
    ) == Some(id) by {
        assert(list[i] == call.candidates@[i]@);
    }
}

/// What a part holds, the whole holds.
pub(crate) proof fn gathered_in<A>(n: int, f: spec_fn(int) -> Seq<A>, k: int, x: A)
    requires
        0 <= k < n,
        f(k).contains(x),
    ensures
        gather(n, f).contains(x),
    decreases n,
{
    let before = gather(n - 1, f);
    let whole = gather(n, f);
    if k == n - 1 {
        let part = f(k);
        let q = choose|q: int| 0 <= q < part.len() && part[q] == x;
        assert(whole[before.len() + q] == x);
    } else {
        gathered_in(n - 1, f, k, x);
        let q = choose|q: int| 0 <= q < before.len() && before[q] == x;
        assert(whole[q] == x);
    }
}

/// A report that a fact gives is in the list.
pub(crate) proof fn fact_is_reported(
    context: RuleContext<'_>,
    n: int,
    finder: spec_fn(int) -> Seq<DiagnosticView>,
    k: int,
    report: DiagnosticView,
    file: FileId,
    range: TextRange,
)
    requires
        0 <= k < n,
        finder(k).contains(report),
        points_at(context, report, file, range),
    ensures
        reported_at(context, gather(n, finder), file, range),
{
    gathered_in(n, finder, k, report);
    let list = gather(n, finder);
    let q = choose|q: int| 0 <= q < list.len() && list[q] == report;
    assert(points_at(context, list[q], file, range));
}

/// A report of the list is what some fact gives.
pub(crate) proof fn report_has_fact(
    n: int,
    at: spec_fn(int) -> Option<DiagnosticView>,
    finder: spec_fn(int) -> Seq<DiagnosticView>,
    p: int,
) -> (k: int)
    requires
        forall|k: int| #[trigger] finder(k) == found(at(k)),
        0 <= p < gather(n, finder).len(),
    ensures
        0 <= k < n,
        at(k) == Some(gather(n, finder)[p]),
{
    gathered_from(n, finder, p);
    let report = gather(n, finder)[p];
    let k = choose|k: int| 0 <= k < n && (#[trigger] finder(k)).contains(report);
    let part = finder(k);
    assert(part == found(at(k)));
    k
}

/// When every candidate of a key brings a report, that key is reported.
pub(crate) proof fn key_is_kept(list: Seq<CandidateView>, p: int)
    requires
        0 <= p < list.len(),
        forall|q: int|
            0 <= q < list.len() && (#[trigger] list[q]).0 == list[p].0 ==> list[q].1 is Some,
    ensures
        exists|i: int|
            0 <= i < kept_entries(list).len() && (#[trigger] kept_entries(list)[i]).0 == list[p].0,
    decreases list.len(),
{
    let rest = list.drop_last();
    let key = list[p].0;
    if exists|q: int| 0 <= q < rest.len() && (#[trigger] rest[q]).0 == key {
        let q = choose|q: int| 0 <= q < rest.len() && (#[trigger] rest[q]).0 == key;
        assert forall|r: int| 0 <= r < rest.len() && (#[trigger] rest[r]).0 == rest[q].0 implies
            rest[r].1 is Some by {
            assert(list[r] == rest[r]);
        }
        key_is_kept(rest, q);
        let i = choose|i: int|
            0 <= i < kept_entries(rest).len() && (#[trigger] kept_entries(rest)[i]).0 == key;
        assert(kept_entries(list)[i] == kept_entries(rest)[i]);
    } else {
        if p < rest.len() {
            assert(rest[p].0 == key);
        }
        assert(list.last().0 == key);
        assert(!met(rest, key));
        let last = kept_entries(list).len() - 1;
        assert(kept_entries(list)[last].0 == key);
    }
}

/// A candidate whose key stands for its place is reported at that place.
pub(crate) proof fn candidate_is_reported(
    context: RuleContext<'_>,
    list: Seq<CandidateView>,
    p: int,
    file: FileId,
    range: TextRange,
)
    requires
        0 <= p < list.len(),
        forall|q: int|
            0 <= q < list.len() && (#[trigger] list[q]).0 == list[p].0 ==> list[q].1 is Some
                && points_at(context, list[q].1->0, file, range),
    ensures
        reported_at(context, kept(list), file, range),
{
    key_is_kept(list, p);
    let i = choose|i: int|
        0 <= i < kept_entries(list).len() && (#[trigger] kept_entries(list)[i]).0 == list[p].0;
    kept_from_candidates(list, i);
    let entry = kept_entries(list)[i];
    let q = choose|q: int| 0 <= q < list.len() && list[q] == (entry.0, Some(entry.1));
    assert(list[q].0 == list[p].0);
    assert(kept(list)[i] == entry.1);
    assert(points_at(context, kept(list)[i], file, range));
}

/// A report that is kept is that of a candidate of some fact.
pub(crate) proof fn kept_report_has_fact(
    n: int,
    at: spec_fn(int) -> Option<CandidateView>,
    finder: spec_fn(int) -> Seq<CandidateView>,
    i: int,
) -> (k: int)
    requires
        forall|k: int| #[trigger] finder(k) == found(at(k)),
        0 <= i < kept(gather(n, finder)).len(),
    ensures
        0 <= k < n,
        at(k) is Some,
        at(k) == Some((kept_entries(gather(n, finder))[i].0, Some(kept(gather(n, finder))[i]))),
{
    let list = gather(n, finder);
    kept_from_candidates(list, i);
    let entry = kept_entries(list)[i];
    let p = choose|p: int| 0 <= p < list.len() && list[p] == (entry.0, Some(entry.1));
    gathered_from(n, finder, p);
    let k = choose|k: int| 0 <= k < n && (#[trigger] finder(k)).contains(list[p]);
    let part = finder(k);
    assert(part == found(at(k)));
    k
}

/// A range of a file.
pub type Place = (FileId, TextRange);

/// The place that is owed a report, where it is owed one.
pub open spec fn owed(due: bool, file: FileId, range: TextRange) -> Seq<Place> {
    if due {
        seq![(file, range)]
    } else {
        Seq::empty()
    }
}

/// Whether a list holds one report for each of these places, in order, and no
/// other.
pub open spec fn stand_at(
    context: RuleContext<'_>,
    list: Seq<DiagnosticView>,
    places: Seq<Place>,
) -> bool {
    list.len() == places.len() && forall|k: int|
        0 <= k < list.len() ==> points_at(context, #[trigger] list[k], places[k].0, places[k].1)
}

/// The places that the calls of a project are owed, in the order of the calls.
pub open spec fn call_places(
    context: RuleContext<'_>,
    of: spec_fn(QualifiedCall) -> Seq<Place>,
) -> Seq<Place> {
    gather(
        context.qualified_calls.calls@.len() as int,
        |i: int| of(context.qualified_calls.calls@[i]),
    )
}

/// The places that the positional arguments of a call are owed.
pub open spec fn argument_places(
    call: QualifiedCall,
    due: spec_fn(int, CallArgument) -> bool,
) -> Seq<Place> {
    gather(
        call.positional_count as int,
        |p: int|
            if p < call.arguments@.len() {
                owed(due(p, call.arguments@[p]), call.file, call.arguments@[p].range)
            } else {
                Seq::empty()
            },
    )
}

/// Where every part stands at its places, so does the whole.
pub(crate) proof fn parts_stand(
    context: RuleContext<'_>,
    n: int,
    finder: spec_fn(int) -> Seq<DiagnosticView>,
    places: spec_fn(int) -> Seq<Place>,
)
    requires
        forall|i: int| 0 <= i < n ==> stand_at(context, #[trigger] finder(i), places(i)),
    ensures
        stand_at(context, gather(n, finder), gather(n, places)),
    decreases n,
{
    if n > 0 {
        parts_stand(context, n - 1, finder, places);
        let last = finder(n - 1);
        assert(stand_at(context, last, places(n - 1)));
        let before = gather(n - 1, finder);
        let list = gather(n, finder);
        let whole = gather(n, places);
        assert forall|k: int| 0 <= k < list.len() implies points_at(
            context,
            #[trigger] list[k],
            whole[k].0,
            whole[k].1,
        ) by {
            if k < before.len() {
                assert(list[k] == before[k]);
            } else {
                assert(list[k] == last[k - before.len()]);
            }
        }
    }
}

/// Where every call stands at its places, so do all.
pub(crate) proof fn calls_stand(
    context: RuleContext<'_>,
    finder: spec_fn(int) -> Seq<DiagnosticView>,
    of: spec_fn(QualifiedCall) -> Seq<Place>,
)
    requires
        forall|i: int|
            0 <= i < context.qualified_calls.calls@.len() ==> stand_at(
                context,
                #[trigger] finder(i),
                of(context.qualified_calls.calls@[i]),
            ),
    ensures
        stand_at(
            context,
            gather(context.qualified_calls.calls@.len() as int, finder),
            call_places(context, of),
        ),
{
    parts_stand(
        context,
        context.qualified_calls.calls@.len() as int,
        finder,
        |i: int| of(context.qualified_calls.calls@[i]),
    );
}

/// Where every positional argument stands at its place, so do all.
pub(crate) proof fn arguments_stand(
    context: RuleContext<'_>,
    call: QualifiedCall,
    finder: spec_fn(int) -> Seq<DiagnosticView>,
    due: spec_fn(int, CallArgument) -> bool,
)
    requires
        forall|p: int|
            0 <= p < call.positional_count && p < call.arguments@.len() ==> stand_at(
                context,
                #[trigger] finder(p),
                owed(due(p, call.arguments@[p]), call.file, call.arguments@[p].range),
            ),
        forall|p: int|
            call.arguments@.len() <= p < call.positional_count ==> (#[trigger] finder(p)).len()
                == 0,
    ensures
        stand_at(
            context,
            gather(call.positional_count as int, finder),
            argument_places(call, due),
        ),
{
    parts_stand(
        context,
        call.positional_count as int,
        finder,
        |p: int|
            if p < call.arguments@.len() {
                owed(due(p, call.arguments@[p]), call.file, call.arguments@[p].range)
            } else {
                Seq::empty()
            },
    );
}

/// A call has one certain target exactly when no candidate stands for another.
pub(crate) proof fn target_is_exact(context: RuleContext<'_>, call: QualifiedCall, id: Seq<char>)
    requires
        context.knowledge is Some,
    ensures
        target_of(*context.knowledge->0, context.project_index, call) == Some(id)
            <==> may_only_call(context, call, id),
{
    let list = texts(call.candidates@);
    if target_of(*context.knowledge->0, context.project_index, call) == Some(id) {
        target_may_only_be_called(context, call, id);
    }
    if may_only_call(context, call, id) {
        assert(list[0] == call.candidates@[0]@);
        assert forall|i: int| 0 <= i < list.len() implies resolved(
            *context.knowledge->0,
            #[trigger] list[i],
        ) == Some(id) by {
            assert(list[i] == call.candidates@[i]@);
        }
    }
}

/// The site that is owed a report, where it is owed one.
pub open spec fn site_owed(due: bool, site: AllocationSite) -> Seq<Place> {
    owed(due, site.file, range_of_site(site))
}

/// Whether candidates stand at these places, one each and in order, under keys
/// that tell the places apart.
pub(crate) open spec fn offered_at(
    context: RuleContext<'_>,
    list: Seq<CandidateView>,
    places: Seq<Place>,
) -> bool {
    list.len() == places.len() && forall|k: int|
        0 <= k < list.len() ==> offered_here(context, #[trigger] list[k], places[k])
}

pub(crate) open spec fn offered_here(
    context: RuleContext<'_>,
    item: CandidateView,
    place: Place,
) -> bool {
    &&& item.1 matches Some(report) && points_at(context, report, place.0, place.1)
    &&& item.0.first.file == place.0
    &&& range_of_site(item.0.first) == place.1
}

/// Whether a list reports these places and no others.
pub open spec fn told(
    context: RuleContext<'_>,
    list: Seq<DiagnosticView>,
    places: Seq<Place>,
) -> bool {
    &&& forall|p: int|
        0 <= p < places.len() ==> reported_at(
            context,
            list,
            (#[trigger] places[p]).0,
            places[p].1,
        )
    &&& forall|k: int| 0 <= k < list.len() ==> at_one_of(context, #[trigger] list[k], places)
}

/// Whether a report points at one of these places.
pub open spec fn at_one_of(
    context: RuleContext<'_>,
    report: DiagnosticView,
    places: Seq<Place>,
) -> bool {
    exists|p: int|
        0 <= p < places.len() && points_at(
            context,
            report,
            (#[trigger] places[p]).0,
            places[p].1,
        )
}

/// Where every part is offered at its places, so is the whole.
pub(crate) proof fn parts_offered(
    context: RuleContext<'_>,
    n: int,
    finder: spec_fn(int) -> Seq<CandidateView>,
    places: spec_fn(int) -> Seq<Place>,
)
    requires
        forall|i: int| 0 <= i < n ==> offered_at(context, #[trigger] finder(i), places(i)),
    ensures
        offered_at(context, gather(n, finder), gather(n, places)),
    decreases n,
{
    if n > 0 {
        parts_offered(context, n - 1, finder, places);
        let last = finder(n - 1);
        assert(offered_at(context, last, places(n - 1)));
        let before = gather(n - 1, finder);
        let list = gather(n, finder);
        let whole = gather(n, places);
        assert forall|k: int| 0 <= k < list.len() implies offered_here(
            context,
            #[trigger] list[k],
            whole[k],
        ) by {
            if k < before.len() {
                assert(list[k] == before[k]);
            } else {
                assert(list[k] == last[k - before.len()]);
            }
        }
    }
}

/// Candidates that are offered at their places are reported there.
pub(crate) proof fn offers_are_told(
    context: RuleContext<'_>,
    list: Seq<CandidateView>,
    places: Seq<Place>,
)
    requires
        offered_at(context, list, places),
    ensures
        told(context, kept(list), places),
{
    assert forall|p: int| 0 <= p < places.len() implies reported_at(
        context,
        kept(list),
        (#[trigger] places[p]).0,
        places[p].1,
    ) by {
        assert(offered_here(context, list[p], places[p]));
        assert forall|q: int| 0 <= q < list.len() && (#[trigger] list[q]).0 == list[p].0 implies
            list[q].1 is Some && points_at(context, list[q].1->0, places[p].0, places[p].1) by {
            assert(offered_here(context, list[q], places[q]));
        }
        candidate_is_reported(context, list, p, places[p].0, places[p].1);
    }
    let reports = kept(list);
    assert forall|k: int| 0 <= k < reports.len() implies at_one_of(
        context,
        #[trigger] reports[k],
        places,
    ) by {
        kept_from_candidates(list, k);
        let entry = kept_entries(list)[k];
        let p = choose|p: int| 0 <= p < list.len() && list[p] == (entry.0, Some(entry.1));
        assert(offered_here(context, list[p], places[p]));
        assert(points_at(context, reports[k], places[p].0, places[p].1));
    }
}

/// Where every part tells its places, so does the whole.
pub(crate) proof fn parts_told(
    context: RuleContext<'_>,
    n: int,
    finder: spec_fn(int) -> Seq<DiagnosticView>,
    places: spec_fn(int) -> Seq<Place>,
)
    requires
        forall|i: int| 0 <= i < n ==> told(context, #[trigger] finder(i), places(i)),
    ensures
        told(context, gather(n, finder), gather(n, places)),
    decreases n,
{
    if n > 0 {
        parts_told(context, n - 1, finder, places);
        let last = finder(n - 1);
        let there = places(n - 1);
        assert(told(context, last, there));
        let before = gather(n - 1, finder);
        let early = gather(n - 1, places);
        let list = gather(n, finder);
        let whole = gather(n, places);
        assert forall|p: int| 0 <= p < whole.len() implies reported_at(
            context,
            list,
            (#[trigger] whole[p]).0,
            whole[p].1,
        ) by {
            if p < early.len() {
                assert(whole[p] == early[p]);
                let k = choose|k: int|
                    0 <= k < before.len() && points_at(
                        context,
                        #[trigger] before[k],
                        early[p].0,
                        early[p].1,
                    );
                assert(list[k] == before[k]);
            } else {
                let r = p - early.len();
                assert(whole[p] == there[r]);
                let k = choose|k: int|
                    0 <= k < last.len() && points_at(
                        context,
                        #[trigger] last[k],
                        there[r].0,
                        there[r].1,
                    );
                assert(list[before.len() + k] == last[k]);
            }
        }
        assert forall|k: int| 0 <= k < list.len() implies at_one_of(
        context,
        #[trigger] list[k],
        whole,
    ) by {
            if k < before.len() {
                assert(list[k] == before[k]);
                let p = choose|p: int|
                    0 <= p < early.len() && points_at(
                        context,
                        before[k],
                        (#[trigger] early[p]).0,
                        early[p].1,
                    );
                assert(whole[p] == early[p]);
            } else {
                let r = k - before.len();
                assert(list[k] == last[r]);
                let p = choose|p: int|
                    0 <= p < there.len() && points_at(
                        context,
                        last[r],
                        (#[trigger] there[p]).0,
                        there[p].1,
                    );
                assert(whole[early.len() + p] == there[p]);
            }
        }
    }
}

/// A list that is empty unless a report is due, and stands at one place, tells
/// that place.
pub(crate) proof fn one_place_is_told(
    context: RuleContext<'_>,
    list: Seq<DiagnosticView>,
    due: bool,
    file: FileId,
    range: TextRange,
)
    requires
        due <==> list.len() > 0,
        forall|k: int| 0 <= k < list.len() ==> points_at(context, #[trigger] list[k], file, range),
    ensures
        told(context, list, owed(due, file, range)),
{
    let places = owed(due, file, range);
    if due {
        assert(points_at(context, list[0], file, range));
        assert(places[0] == (file, range));
        assert forall|k: int| 0 <= k < list.len() implies at_one_of(
        context,
        #[trigger] list[k],
        places,
    ) by {
            assert(points_at(context, list[k], places[0].0, places[0].1));
        }
    }
}

} // verus!
