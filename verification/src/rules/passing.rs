//! Tests that every report of a list passes.
use crate::diagnostic::DiagnosticView;
use crate::rules::dedupe::{kept, kept_entries, CandidateView};
use crate::text::{found, gather};
use vstd::prelude::*;

verus! {

/// Whether every report of a list passes a test.
#[verifier::opaque]
pub open spec fn all_pass(list: Seq<DiagnosticView>, test: spec_fn(DiagnosticView) -> bool) -> bool {
    forall|i: int| 0 <= i < list.len() ==> test(#[trigger] list[i])
}

/// Whether a candidate brings no report, or one that passes.
pub open spec fn candidate_passes(candidate: CandidateView, test: spec_fn(DiagnosticView) -> bool) -> bool {
    match candidate.1 {
        Some(report) => test(report),
        None => true,
    }
}

/// Whether every candidate of a list passes a test.
#[verifier::opaque]
pub open spec fn candidates_pass(list: Seq<CandidateView>, test: spec_fn(DiagnosticView) -> bool) -> bool {
    forall|i: int| 0 <= i < list.len() ==> candidate_passes(#[trigger] list[i], test)
}

pub broadcast proof fn no_report(test: spec_fn(DiagnosticView) -> bool)
    ensures
        #[trigger] all_pass(Seq::empty(), test),
{
    reveal(all_pass);
}

pub broadcast proof fn one_report(report: DiagnosticView, test: spec_fn(DiagnosticView) -> bool)
    requires
        test(report),
    ensures
        #[trigger] all_pass(seq![report], test),
{
    reveal(all_pass);
}

pub broadcast proof fn found_report(item: Option<DiagnosticView>, test: spec_fn(DiagnosticView) -> bool)
    requires
        item matches Some(report) ==> test(report),
    ensures
        #[trigger] all_pass(found(item), test),
{
    reveal(all_pass);
}

pub broadcast proof fn joined_reports(
    a: Seq<DiagnosticView>,
    b: Seq<DiagnosticView>,
    test: spec_fn(DiagnosticView) -> bool,
)
    requires
        all_pass(a, test),
        all_pass(b, test),
    ensures
        #[trigger] all_pass(a + b, test),
{
    reveal(all_pass);
}

pub broadcast proof fn gathered_reports(
    n: int,
    f: spec_fn(int) -> Seq<DiagnosticView>,
    test: spec_fn(DiagnosticView) -> bool,
)
    requires
        forall|i: int| 0 <= i < n ==> all_pass(#[trigger] f(i), test),
    ensures
        #[trigger] all_pass(gather(n, f), test),
    decreases n,
{
    reveal(all_pass);
    if n > 0 {
        gathered_reports(n - 1, f, test);
    }
}

pub broadcast proof fn no_candidate(test: spec_fn(DiagnosticView) -> bool)
    ensures
        #[trigger] candidates_pass(Seq::empty(), test),
{
    reveal(candidates_pass);
}

pub broadcast proof fn one_candidate(candidate: CandidateView, test: spec_fn(DiagnosticView) -> bool)
    requires
        candidate_passes(candidate, test),
    ensures
        #[trigger] candidates_pass(seq![candidate], test),
{
    reveal(candidates_pass);
}

pub broadcast proof fn found_candidate(item: Option<CandidateView>, test: spec_fn(DiagnosticView) -> bool)
    requires
        item matches Some(candidate) ==> candidate_passes(candidate, test),
    ensures
        #[trigger] candidates_pass(found(item), test),
{
    reveal(candidates_pass);
}

pub broadcast proof fn joined_candidates(
    a: Seq<CandidateView>,
    b: Seq<CandidateView>,
    test: spec_fn(DiagnosticView) -> bool,
)
    requires
        candidates_pass(a, test),
        candidates_pass(b, test),
    ensures
        #[trigger] candidates_pass(a + b, test),
{
    reveal(candidates_pass);
}

pub broadcast proof fn gathered_candidates(
    n: int,
    f: spec_fn(int) -> Seq<CandidateView>,
    test: spec_fn(DiagnosticView) -> bool,
)
    requires
        forall|i: int| 0 <= i < n ==> candidates_pass(#[trigger] f(i), test),
    ensures
        #[trigger] candidates_pass(gather(n, f), test),
    decreases n,
{
    reveal(candidates_pass);
    if n > 0 {
        gathered_candidates(n - 1, f, test);
    }
}

proof fn entries_pass(list: Seq<CandidateView>, test: spec_fn(DiagnosticView) -> bool)
    requires
        candidates_pass(list, test),
    ensures
        forall|i: int|
            0 <= i < kept_entries(list).len() ==> test((#[trigger] kept_entries(list)[i]).1),
    decreases list.len(),
{
    reveal(candidates_pass);
    if list.len() > 0 {
        let rest = list.drop_last();
        assert(candidate_passes(list[list.len() - 1], test));
        assert forall|i: int| 0 <= i < rest.len() implies candidate_passes(
            #[trigger] rest[i],
            test,
        ) by {
            assert(rest[i] == list[i]);
        }
        entries_pass(rest, test);
        assert forall|i: int| 0 <= i < kept_entries(list).len() implies test((#[trigger] kept_entries(list)[i]).1) by {
            if i < kept_entries(rest).len() {
                assert(kept_entries(list)[i] == kept_entries(rest)[i]);
            }
        }
    }
}

pub broadcast proof fn kept_reports(list: Seq<CandidateView>, test: spec_fn(DiagnosticView) -> bool)
    requires
        candidates_pass(list, test),
    ensures
        #[trigger] all_pass(kept(list), test),
{
    reveal(all_pass);
    entries_pass(list, test);
}

pub broadcast group passing {
    no_report,
    one_report,
    found_report,
    joined_reports,
    gathered_reports,
    no_candidate,
    one_candidate,
    found_candidate,
    joined_candidates,
    gathered_candidates,
    kept_reports,
}

} // verus!
