//! Rules whose findings come with the context.
//!
//! What these rules look for is decided outside the library. A finding comes
//! as plain facts under the id of its rule, and the rule turns it into a
//! diagnostic: it adds its own id, severity, and confidence, resolves places,
//! and keeps to the active profiles of the renderer that the finding is
//! about. A finding about a renderer that no active profile targets stays
//! silent.
use crate::config::{profile_names, renderer_names};
use crate::diagnostic::{
    push_found, push_related, related_views, report_of, reports, Diagnostic, DiagnosticView,
    EditView, Fix, FixView, MetadataView, RelatedLocation, RelatedView, RuleMetadata, TextEdit,
};
use crate::json::{merge_evidence, merged_with, Evidence, EvidenceView};
use crate::rules::base::{
    basic_report, build_diagnostic, edit_at, related_at, related_site, text_edit, RuleContext,
};
use crate::source::FileId;
use crate::supplied::{SuppliedEdit, SuppliedFinding, SuppliedFix, SuppliedPlace};
use crate::text::{found, gather, same_text, texts};
use vstd::prelude::*;

verus! {

/// Names of the active profiles that a finding is about.
pub open spec fn concerned(context: RuleContext<'_>, finding: SuppliedFinding) -> Seq<Seq<char>> {
    match finding.renderer {
        Some(renderer) => renderer_names(context.config.active_profiles@, renderer),
        None => profile_names(context.config.active_profiles@),
    }
}

/// The places that a finding refers to, in order.
pub open spec fn places_of(context: RuleContext<'_>, places: Seq<SuppliedPlace>) -> Seq<
    RelatedView,
> {
    Seq::new(places.len(), |i: int| related_at(context, places[i].site, places[i].message@))
}

/// The edits of a fix, in order.
pub open spec fn edits_of(
    context: RuleContext<'_>,
    file: FileId,
    edits: Seq<SuppliedEdit>,
) -> Seq<EditView> {
    Seq::new(
        edits.len(),
        |i: int| edit_at(context, file, edits[i].range, edits[i].replacement@),
    )
}

/// The fix of a finding.
pub open spec fn fix_of(context: RuleContext<'_>, finding: SuppliedFinding) -> Option<FixView> {
    match finding.fix {
        Some(fix) => Some(
            FixView {
                applicability: fix.applicability,
                message: fix.message@,
                edits: edits_of(context, finding.file, fix.edits@),
            },
        ),
        None => None,
    }
}

/// The report on a finding.
pub open spec fn supplied_report(
    metadata: MetadataView,
    context: RuleContext<'_>,
    finding: SuppliedFinding,
) -> DiagnosticView {
    DiagnosticView {
        related_locations: places_of(context, finding.places@),
        applicable_profiles: concerned(context, finding),
        fix: fix_of(context, finding),
        ..basic_report(
            metadata,
            context,
            finding.file,
            finding.range,
            finding.message@,
            finding.explanation@,
            merged_with(EvidenceView::empty(), finding.evidence@),
        )
    }
}

/// What the finding at `i` gives a rule.
pub open spec fn supplied_at(metadata: MetadataView, context: RuleContext<'_>, i: int) -> Option<
    DiagnosticView,
> {
    let finding = context.supplied@[i];
    if finding.rule_id@ == metadata.id && (finding.renderer is None || concerned(
        context,
        finding,
    ).len() > 0) {
        Some(supplied_report(metadata, context, finding))
    } else {
        None
    }
}

/// What the findings give a rule, one by one.
pub open spec fn supplied_finder(metadata: MetadataView, context: RuleContext<'_>) -> spec_fn(
    int,
) -> Seq<DiagnosticView> {
    |i: int| found(supplied_at(metadata, context, i))
}

/// What a rule reports of the findings handed in, in order.
pub open spec fn supplied_findings(metadata: MetadataView, context: RuleContext<'_>) -> Seq<
    DiagnosticView,
> {
    gather(context.supplied@.len() as int, supplied_finder(metadata, context))
}

fn list_places(context: &RuleContext<'_>, places: &Vec<SuppliedPlace>) -> (list: Vec<
    RelatedLocation,
>)
    ensures
        related_views(list@) == places_of(*context, places@),
{
    let mut list: Vec<RelatedLocation> = Vec::new();
    let mut i: usize = 0;
    assert(related_views(list@) =~= places_of(*context, places@).take(0));
    while i < places.len()
        invariant
            i <= places@.len(),
            related_views(list@) == places_of(*context, places@).take(i as int),
        decreases places@.len() - i,
    {
        push_related(
            &mut list,
            related_site(context, places[i].site, places[i].message.clone()),
        );
        assert(places_of(*context, places@).take(i + 1) =~= places_of(
            *context,
            places@,
        ).take(i as int).push(places_of(*context, places@)[i as int]));
        i += 1;
    }
    assert(places_of(*context, places@).take(i as int) =~= places_of(*context, places@));
    list
}

fn list_edits(context: &RuleContext<'_>, file: FileId, edits: &Vec<SuppliedEdit>) -> (list: Vec<
    TextEdit,
>)
    ensures
        list@.len() == edits@.len(),
        forall|i: int|
            0 <= i < list@.len() ==> (#[trigger] list@[i])@ == edit_at(
                *context,
                file,
                edits@[i].range,
                edits@[i].replacement@,
            ),
{
    let mut list: Vec<TextEdit> = Vec::new();
    let mut i: usize = 0;
    while i < edits.len()
        invariant
            i <= edits@.len(),
            list@.len() == i,
            forall|j: int|
                0 <= j < i ==> (#[trigger] list@[j])@ == edit_at(
                    *context,
                    file,
                    edits@[j].range,
                    edits@[j].replacement@,
                ),
        decreases edits@.len() - i,
    {
        list.push(text_edit(context, file, edits[i].range, edits[i].replacement.clone()));
        i += 1;
    }
    list
}

fn build_fix(context: &RuleContext<'_>, file: FileId, fix: &SuppliedFix) -> (built: Fix)
    ensures
        built@ == (FixView {
            applicability: fix.applicability,
            message: fix.message@,
            edits: edits_of(*context, file, fix.edits@),
        }),
{
    let built = Fix {
        applicability: fix.applicability,
        message: fix.message.clone(),
        edits: list_edits(context, file, &fix.edits),
    };
    assert(built@.edits =~= edits_of(*context, file, fix.edits@));
    built
}

fn list_concerned(context: &RuleContext<'_>, finding: &SuppliedFinding) -> (names: Vec<String>)
    ensures
        texts(names@) == concerned(*context, *finding),
{
    match finding.renderer {
        Some(renderer) => context.config.renderer_profile_names(renderer),
        None => context.config.active_profile_names(),
    }
}

fn report_supplied(
    metadata: &'static RuleMetadata,
    context: &RuleContext<'_>,
    finding: &SuppliedFinding,
) -> (found: Option<Diagnostic>)
    ensures
        report_of(found) == if finding.rule_id@ == metadata@.id && (finding.renderer is None
            || concerned(*context, *finding).len() > 0) {
            Some(supplied_report(metadata@, *context, *finding))
        } else {
            None
        },
{
    if !same_text(finding.rule_id.as_str(), metadata.id) {
        return None;
    }
    let names: Vec<String> = list_concerned(context, finding);
    assert(texts(names@).len() == names@.len());
    if finding.renderer.is_some() && names.len() == 0 {
        return None;
    }
    let mut evidence = Evidence::new();
    merge_evidence(&mut evidence, &finding.evidence);
    let mut diagnostic = build_diagnostic(
        metadata,
        context,
        finding.file,
        finding.range,
        finding.message.clone(),
        finding.explanation.as_str(),
        evidence,
    );
    diagnostic.related_locations = list_places(context, &finding.places);
    diagnostic.applicable_profiles = names;
    diagnostic.fix = match &finding.fix {
        Some(fix) => Some(build_fix(context, finding.file, fix)),
        None => None,
    };
    Some(diagnostic)
}

/// Reports the findings that were handed in for a rule.
pub fn report_all_supplied(metadata: &'static RuleMetadata, context: &RuleContext<'_>) -> (
diagnostics: Vec<Diagnostic>)
    ensures
        reports(diagnostics@) == supplied_findings(metadata@, *context),
{
    let mut diagnostics: Vec<Diagnostic> = Vec::new();
    let mut i: usize = 0;
    assert(reports(diagnostics@) =~= Seq::empty());
    while i < context.supplied.len()
        invariant
            i <= context.supplied@.len(),
            reports(diagnostics@) == gather(i as int, supplied_finder(metadata@, *context)),
        decreases context.supplied@.len() - i,
    {
        push_found(&mut diagnostics, report_supplied(metadata, context, &context.supplied[i]));
        i += 1;
    }
    diagnostics
}

} // verus!
