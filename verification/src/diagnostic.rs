//! Rule metadata and the diagnostics rules report.
use crate::json::{Evidence, EvidenceView, Json};
use crate::source::SourceSpan;
use crate::text::{texts, words};
use vstd::prelude::*;

verus! {

#[derive(Clone, Copy, Debug, PartialEq, Eq, Structural)]
pub enum Severity {
    Error,
    Warning,
    Info,
}

#[derive(Clone, Copy, Debug, PartialEq, Eq, Structural)]
pub enum Confidence {
    Certain,
    High,
    Medium,
    Low,
}

/// Static description of a rule.
pub struct RuleMetadata {
    pub id: &'static str,
    pub summary: &'static str,
    /// Whether a family prefix selects the rule.
    pub default_enabled: bool,
    pub default_severity: Severity,
    pub minimum_confidence: Confidence,
    pub implementation_phase: u8,
    pub required_profiles: &'static [&'static str],
    /// Fact layers the rule reads.
    pub required_capabilities: &'static [&'static str],
    /// Ids of the generic rules whose diagnostics this rule replaces.
    pub supersedes: &'static [&'static str],
}

/// What [`RuleMetadata`] says.
#[verifier::ext_equal]
pub struct MetadataView {
    pub id: Seq<char>,
    pub summary: Seq<char>,
    pub default_enabled: bool,
    pub default_severity: Severity,
    pub minimum_confidence: Confidence,
    pub implementation_phase: u8,
    pub required_profiles: Seq<Seq<char>>,
    pub required_capabilities: Seq<Seq<char>>,
    pub supersedes: Seq<Seq<char>>,
}

impl View for RuleMetadata {
    type V = MetadataView;

    open spec fn view(&self) -> MetadataView {
        MetadataView {
            id: self.id@,
            summary: self.summary@,
            default_enabled: self.default_enabled,
            default_severity: self.default_severity,
            minimum_confidence: self.minimum_confidence,
            implementation_phase: self.implementation_phase,
            required_profiles: words(self.required_profiles@),
            required_capabilities: words(self.required_capabilities@),
            supersedes: words(self.supersedes@),
        }
    }
}

/// Another place a diagnostic refers to.
pub struct RelatedLocation {
    pub path: String,
    pub span: SourceSpan,
    pub message: String,
}

#[verifier::ext_equal]
pub struct RelatedView {
    pub path: Seq<char>,
    pub span: ((int, int), (int, int)),
    pub message: Seq<char>,
}

impl View for RelatedLocation {
    type V = RelatedView;

    open spec fn view(&self) -> RelatedView {
        RelatedView { path: self.path@, span: self.span.pairs(), message: self.message@ }
    }
}

/// Whether a fix keeps the meaning of the program.
#[derive(Clone, Copy, Debug, PartialEq, Eq, Structural)]
pub enum FixApplicability {
    Safe,
    Unsafe,
}

/// Replacement of one span.
pub struct TextEdit {
    pub path: String,
    pub span: SourceSpan,
    pub replacement: String,
}

#[verifier::ext_equal]
pub struct EditView {
    pub path: Seq<char>,
    pub span: ((int, int), (int, int)),
    pub replacement: Seq<char>,
}

impl View for TextEdit {
    type V = EditView;

    open spec fn view(&self) -> EditView {
        EditView { path: self.path@, span: self.span.pairs(), replacement: self.replacement@ }
    }
}

/// A suggested change.
pub struct Fix {
    pub applicability: FixApplicability,
    pub message: String,
    pub edits: Vec<TextEdit>,
}

#[verifier::ext_equal]
pub struct FixView {
    pub applicability: FixApplicability,
    pub message: Seq<char>,
    pub edits: Seq<EditView>,
}

impl View for Fix {
    type V = FixView;

    open spec fn view(&self) -> FixView {
        FixView {
            applicability: self.applicability,
            message: self.message@,
            edits: Seq::new(self.edits@.len(), |i: int| self.edits@[i]@),
        }
    }
}

/// A reported finding.
pub struct Diagnostic {
    pub rule_id: String,
    pub severity: Severity,
    pub confidence: Confidence,
    pub path: String,
    pub primary_span: SourceSpan,
    pub message: String,
    pub explanation: Option<String>,
    pub related_locations: Vec<RelatedLocation>,
    pub evidence: Evidence,
    pub estimated_cost: Option<Json>,
    pub applicable_profiles: Vec<String>,
    pub fix: Option<Fix>,
}

/// What a [`Diagnostic`] says.
#[verifier::ext_equal]
pub struct DiagnosticView {
    pub rule_id: Seq<char>,
    pub severity: Severity,
    pub confidence: Confidence,
    pub path: Seq<char>,
    pub primary_span: ((int, int), (int, int)),
    pub message: Seq<char>,
    pub explanation: Option<Seq<char>>,
    pub related_locations: Seq<RelatedView>,
    pub evidence: EvidenceView,
    pub estimated: bool,
    pub applicable_profiles: Seq<Seq<char>>,
    pub fix: Option<FixView>,
}

/// The related locations of a list.
pub open spec fn related_views(list: Seq<RelatedLocation>) -> Seq<RelatedView> {
    Seq::new(list.len(), |i: int| list[i]@)
}

impl View for Diagnostic {
    type V = DiagnosticView;

    open spec fn view(&self) -> DiagnosticView {
        DiagnosticView {
            rule_id: self.rule_id@,
            severity: self.severity,
            confidence: self.confidence,
            path: self.path@,
            primary_span: self.primary_span.pairs(),
            message: self.message@,
            explanation: match self.explanation {
                Some(text) => Some(text@),
                None => None,
            },
            related_locations: related_views(self.related_locations@),
            evidence: self.evidence@,
            estimated: self.estimated_cost is Some,
            applicable_profiles: texts(self.applicable_profiles@),
            fix: match self.fix {
                Some(fix) => Some(fix@),
                None => None,
            },
        }
    }
}

/// What a list of diagnostics says, in order.
pub open spec fn reports(list: Seq<Diagnostic>) -> Seq<DiagnosticView> {
    Seq::new(list.len(), |i: int| list[i]@)
}

/// The report of an optional diagnostic.
pub open spec fn report_of(item: Option<Diagnostic>) -> Option<DiagnosticView> {
    match item {
        Some(diagnostic) => Some(diagnostic@),
        None => None,
    }
}

/// Appends a diagnostic.
pub fn push(list: &mut Vec<Diagnostic>, item: Diagnostic)
    ensures
        reports(final(list)@) == reports(old(list)@).push(item@),
{
    list.push(item);
    assert(reports(list@) =~= reports(old(list)@).push(item@));
}

/// Appends a diagnostic if there is one.
pub fn push_found(list: &mut Vec<Diagnostic>, item: Option<Diagnostic>)
    ensures
        reports(final(list)@) == reports(old(list)@) + crate::text::found(report_of(item)),
{
    match item {
        Some(diagnostic) => {
            list.push(diagnostic);
            assert(reports(list@) =~= reports(old(list)@) + seq![diagnostic@]);
        },
        None => {
            assert(reports(list@) =~= reports(old(list)@) + Seq::<DiagnosticView>::empty());
        },
    }
}

/// Appends every diagnostic of `more`.
pub fn push_all(list: &mut Vec<Diagnostic>, more: Vec<Diagnostic>)
    ensures
        reports(final(list)@) == reports(old(list)@) + reports(more@),
{
    let ghost added = more@;
    let mut rest = more;
    list.append(&mut rest);
    assert(reports(list@) =~= reports(old(list)@) + reports(added));
}

/// Appends a related location.
pub fn push_related(list: &mut Vec<RelatedLocation>, item: RelatedLocation)
    ensures
        related_views(final(list)@) == related_views(old(list)@).push(item@),
{
    list.push(item);
    assert(related_views(list@) =~= related_views(old(list)@).push(item@));
}

/// A fix with one edit.
pub open spec fn single_edit(
    applicability: FixApplicability,
    message: Seq<char>,
    edit: EditView,
) -> FixView {
    FixView { applicability, message, edits: seq![edit] }
}

/// Builds a fix with one edit.
pub fn one_edit(applicability: FixApplicability, message: String, edit: TextEdit) -> (fix: Fix)
    ensures
        fix@ == single_edit(applicability, message@, edit@),
{
    let fix = Fix { applicability, message, edits: vec![edit] };
    assert(fix@.edits =~= seq![edit@]);
    fix
}

} // verus!
