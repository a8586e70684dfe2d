//! One report per place: of several findings with the same key only the
//! first counts.
use crate::diagnostic::{push_found, report_of, reports, Diagnostic, DiagnosticView};
use crate::source::{AllocationSite, FileId};
use crate::text::{found, same_text};
use vstd::prelude::*;

verus! {

/// What makes two findings the same defect: one or two places, and a name
/// where places do not tell findings apart. A key of one place names it
/// twice. Facts about calls have the number of the call as key.
pub struct SiteKey {
    pub first: AllocationSite,
    pub second: AllocationSite,
    pub name: String,
    pub number: usize,
}

/// What a [`SiteKey`] says.
#[verifier::ext_equal]
pub struct KeyView {
    pub first: AllocationSite,
    pub second: AllocationSite,
    pub name: Seq<char>,
    pub number: usize,
}

impl View for SiteKey {
    type V = KeyView;

    open spec fn view(&self) -> KeyView {
        KeyView {
            first: self.first,
            second: self.second,
            name: self.name@,
            number: self.number,
        }
    }
}

/// The key of one place.
pub open spec fn key_of(site: AllocationSite) -> KeyView {
    KeyView { first: site, second: site, name: ""@, number: 0 }
}

/// The key of two places.
pub open spec fn pair_key(first: AllocationSite, second: AllocationSite) -> KeyView {
    KeyView { first, second, name: ""@, number: 0 }
}

/// The key of a name at one place.
pub open spec fn named_key(site: AllocationSite, name: Seq<char>) -> KeyView {
    KeyView { first: site, second: site, name, number: 0 }
}

pub fn site_key(site: AllocationSite) -> (key: SiteKey)
    ensures
        key@ == key_of(site),
{
    SiteKey { first: site, second: site, name: "".to_owned(), number: 0 }
}

pub fn site_pair(first: AllocationSite, second: AllocationSite) -> (key: SiteKey)
    ensures
        key@ == pair_key(first, second),
{
    SiteKey { first, second, name: "".to_owned(), number: 0 }
}

pub fn site_name(site: AllocationSite, name: &str) -> (key: SiteKey)
    ensures
        key@ == named_key(site, name@),
{
    SiteKey { first: site, second: site, name: name.to_owned(), number: 0 }
}

/// Place of a key that speaks of no place.
pub open spec fn no_place() -> AllocationSite {
    AllocationSite { file: FileId { index: 0 }, start: 0, end: 0 }
}

/// The key of a fact about the call at `number`.
pub open spec fn number_key(number: usize) -> KeyView {
    KeyView { first: no_place(), second: no_place(), name: ""@, number }
}

pub fn call_key(number: usize) -> (key: SiteKey)
    ensures
        key@ == number_key(number),
{
    let place = AllocationSite { file: FileId { index: 0 }, start: 0, end: 0 };
    SiteKey { first: place, second: place, name: "".to_owned(), number }
}

fn same_key(a: &SiteKey, b: &SiteKey) -> (same: bool)
    ensures
        same == (a@ == b@),
{
    a.first == b.first && a.second == b.second && same_text(a.name.as_str(), b.name.as_str())
        && a.number == b.number
}

/// A defect that was met, with its diagnostic if it is to be reported.
pub struct Candidate {
    pub key: SiteKey,
    pub diagnostic: Option<Diagnostic>,
}

/// What a [`Candidate`] says.
pub type CandidateView = (KeyView, Option<DiagnosticView>);

pub open spec fn candidate_view(candidate: Candidate) -> CandidateView {
    (candidate.key@, report_of(candidate.diagnostic))
}

/// What a list of candidates says, in order.
pub open spec fn candidate_views(list: Seq<Candidate>) -> Seq<CandidateView> {
    Seq::new(list.len(), |i: int| candidate_view(list[i]))
}

/// Whether one of the candidates has this key.
pub open spec fn met(list: Seq<CandidateView>, key: KeyView) -> bool {
    exists|i: int| 0 <= i < list.len() && (#[trigger] list[i]).0 == key
}

/// The candidates that are first with their key and have a diagnostic.
pub open spec fn kept_entries(list: Seq<CandidateView>) -> Seq<(KeyView, DiagnosticView)>
    decreases list.len(),
{
    if list.len() == 0 {
        Seq::empty()
    } else {
        let rest = kept_entries(list.drop_last());
        match list.last().1 {
            Some(report) => if met(list.drop_last(), list.last().0) {
                rest
            } else {
                rest.push((list.last().0, report))
            },
            None => rest,
        }
    }
}

/// The reports of the candidates that are first with their key.
pub open spec fn kept(list: Seq<CandidateView>) -> Seq<DiagnosticView> {
    Seq::new(kept_entries(list).len(), |i: int| kept_entries(list)[i].1)
}

proof fn kept_entries_met(list: Seq<CandidateView>)
    ensures
        forall|i: int|
            0 <= i < kept_entries(list).len() ==> met(list, (#[trigger] kept_entries(list)[i]).0),
    decreases list.len(),
{
    if list.len() > 0 {
        let rest = list.drop_last();
        kept_entries_met(rest);
        assert forall|i: int| 0 <= i < kept_entries(list).len() implies met(
            list,
            (#[trigger] kept_entries(list)[i]).0,
        ) by {
            let key = kept_entries(list)[i].0;
            if i < kept_entries(rest).len() {
                assert(kept_entries(rest)[i].0 == key);
                let j = choose|j: int| 0 <= j < rest.len() && (#[trigger] rest[j]).0 == key;
                assert(list[j].0 == key);
            } else {
                assert(list[list.len() - 1].0 == key);
            }
        }
    }
}

/// Every report that is kept is that of a candidate.
pub proof fn kept_from_candidates(list: Seq<CandidateView>, i: int)
    requires
        0 <= i < kept_entries(list).len(),
    ensures
        exists|p: int|
            0 <= p < list.len() && list[p] == (
                kept_entries(list)[i].0,
                Some(kept_entries(list)[i].1),
            ),
    decreases list.len(),
{
    let rest = list.drop_last();
    let entry = kept_entries(list)[i];
    if i < kept_entries(rest).len() {
        kept_from_candidates(rest, i);
        let p = choose|p: int| 0 <= p < rest.len() && rest[p] == (entry.0, Some(entry.1));
        assert(list[p] == rest[p]);
    } else {
        assert(list[list.len() - 1] == (entry.0, Some(entry.1)));
    }
}

/// No two reports that are kept share a key.
pub proof fn kept_keys_distinct(list: Seq<CandidateView>, i: int, j: int)
    requires
        0 <= i < j < kept_entries(list).len(),
    ensures
        kept_entries(list)[i].0 != kept_entries(list)[j].0,
    decreases list.len(),
{
    let rest = list.drop_last();
    kept_entries_met(rest);
    if j < kept_entries(rest).len() {
        kept_keys_distinct(rest, i, j);
    } else {
        assert(met(rest, kept_entries(rest)[i].0));
    }
}

/// Every key that a candidate brings with a diagnostic, as the first of that
/// key, is reported.
pub proof fn first_is_kept(list: Seq<CandidateView>, i: int)
    requires
        0 <= i < list.len(),
        list[i].1 is Some,
        !met(list.take(i), list[i].0),
    ensures
        kept(list).contains(list[i].1->0),
    decreases list.len(),
{
    let rest = list.drop_last();
    if i == list.len() - 1 {
        assert(rest =~= list.take(i));
        let last = kept_entries(list).len() - 1;
        assert(kept(list)[last] == list[i].1->0);
    } else {
        assert(rest.take(i) =~= list.take(i));
        first_is_kept(rest, i);
        let k = choose|k: int| 0 <= k < kept(rest).len() && kept(rest)[k] == list[i].1->0;
        assert(kept_entries(list)[k] == kept_entries(rest)[k]);
        assert(kept(list)[k] == list[i].1->0);
    }
}

/// Appends a candidate if there is one.
pub fn offer_found(list: &mut Vec<Candidate>, item: Option<Candidate>)
    ensures
        candidate_views(final(list)@) == candidate_views(old(list)@) + found(
            match item {
                Some(candidate) => Some(candidate_view(candidate)),
                None => None,
            },
        ),
{
    match item {
        Some(candidate) => {
            list.push(candidate);
            assert(candidate_views(list@) =~= candidate_views(old(list)@) + seq![
                candidate_view(candidate),
            ]);
        },
        None => {
            assert(candidate_views(list@) =~= candidate_views(old(list)@) + Seq::<
                CandidateView,
            >::empty());
        },
    }
}

/// Appends every candidate of `more`.
pub fn offer_all(list: &mut Vec<Candidate>, more: Vec<Candidate>)
    ensures
        candidate_views(final(list)@) == candidate_views(old(list)@) + candidate_views(more@),
{
    let ghost added = more@;
    let mut rest = more;
    list.append(&mut rest);
    assert(candidate_views(list@) =~= candidate_views(old(list)@) + candidate_views(added));
}

/// What a list of keys says.
spec fn key_views(keys: Seq<SiteKey>) -> Seq<KeyView> {
    Seq::new(keys.len(), |i: int| keys[i]@)
}

fn already_met(seen: &Vec<SiteKey>, key: &SiteKey) -> (found: bool)
    ensures
        found == key_views(seen@).contains(key@),
{
    let mut i: usize = 0;
    while i < seen.len()
        invariant
            i <= seen@.len(),
            forall|j: int| 0 <= j < i ==> (#[trigger] seen@[j])@ != key@,
        decreases seen@.len() - i,
    {
        if same_key(&seen[i], key) {
            assert(key_views(seen@)[i as int] == key@);
            return true;
        }
        i += 1;
    }
    false
}

/// Keeps the first diagnostic of every key, in order.
pub fn keep_first(candidates: Vec<Candidate>) -> (diagnostics: Vec<Diagnostic>)
    ensures
        reports(diagnostics@) == kept(candidate_views(candidates@)),
{
    let ghost all = candidate_views(candidates@);
    let mut rest = candidates;
    let mut seen: Vec<SiteKey> = Vec::new();
    let mut diagnostics: Vec<Diagnostic> = Vec::new();
    let ghost mut done: int = 0;
    assert(all.take(0) =~= Seq::empty());
    assert(reports(diagnostics@) =~= kept(all.take(0)));
    assert(candidate_views(rest@) =~= all.skip(0));
    while rest.len() > 0
        invariant
            0 <= done <= all.len(),
            candidate_views(rest@) == all.skip(done),
            reports(diagnostics@) == kept(all.take(done)),
            forall|key: KeyView|
                #[trigger] key_views(seen@).contains(key) == met(all.take(done), key),
        decreases rest@.len(),
    {
        let ghost before = rest@;
        let ghost seen_before = key_views(seen@);
        let candidate = rest.remove(0);
        proof {
            assert(candidate_views(before).len() == all.skip(done).len());
            assert(candidate_views(before)[0] == candidate_view(candidate));
            assert(all[done] == all.skip(done)[0]);
            assert(all.take(done + 1).drop_last() =~= all.take(done));
            assert(all.take(done + 1).last() == candidate_view(candidate));
            assert forall|k: int| 0 <= k < rest@.len() implies candidate_views(rest@)[k] == all.skip(
                done + 1,
            )[k] by {
                assert(rest@[k] == before[k + 1]);
                assert(candidate_views(before)[k + 1] == all.skip(done)[k + 1]);
            }
            assert(candidate_views(rest@) =~= all.skip(done + 1));
        }
        if !already_met(&seen, &candidate.key) {
            push_found(&mut diagnostics, candidate.diagnostic);
            assert(kept(all.take(done + 1)) =~= kept(all.take(done)) + found(
                report_of(candidate.diagnostic),
            ));
        } else {
            assert(kept(all.take(done + 1)) =~= kept(all.take(done)));
        }
        seen.push(candidate.key);
        proof {
            let seen_after = key_views(seen@);
            assert(seen_after =~= seen_before.push(all[done].0));
            let before_list = all.take(done);
            let after_list = all.take(done + 1);
            assert forall|key: KeyView| #[trigger]
                seen_after.contains(key) == met(after_list, key) by {
                if seen_after.contains(key) {
                    let i = choose|i: int| 0 <= i < seen_after.len() && seen_after[i] == key;
                    if i < seen_before.len() {
                        assert(seen_before[i] == key);
                        assert(seen_before.contains(key));
                        let j = choose|j: int|
                            0 <= j < before_list.len() && (#[trigger] before_list[j]).0 == key;
                        assert(after_list[j].0 == key);
                    } else {
                        assert(after_list[done].0 == key);
                    }
                }
                if met(after_list, key) {
                    let j = choose|j: int|
                        0 <= j < after_list.len() && (#[trigger] after_list[j]).0 == key;
                    if j < done {
                        assert(before_list[j].0 == key);
                        assert(seen_before.contains(key));
                        let i = choose|i: int| 0 <= i < seen_before.len() && seen_before[i] == key;
                        assert(seen_after[i] == key);
                    } else {
                        assert(seen_after[seen_before.len() as int] == key);
                    }
                }
            }
            done = done + 1;
        }
    }
    assert(all.take(done) =~= all);
    diagnostics
}

} // verus!
