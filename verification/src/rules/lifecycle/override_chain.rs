//! `MLC114`: chains on overridden `.animate` methods.
use crate::diagnostic::{
    Confidence, Diagnostic, DiagnosticView, MetadataView, RuleMetadata, Severity,
};
use crate::rules::base::{Rule, RuleContext};
use crate::rules::supplied::{report_all_supplied, supplied_findings};
use vstd::prelude::*;

verus! {

// ---------------------------------------------------------------------------
// MLC114.
// ---------------------------------------------------------------------------

/// What [`MLC114`] declares.
pub open spec fn mlc114() -> MetadataView {
    MetadataView {
        id: "MLC114"@,
        summary: "Unsupported chain after an overridden .animate method"@,
        default_enabled: true,
        default_severity: Severity::Warning,
        minimum_confidence: Confidence::Medium,
        implementation_phase: 2,
        required_profiles: seq![],
        required_capabilities: seq!["lifecycle"@],
        supersedes: seq![],
    }
}

/// Metadata of rule `MLC114`. Id and phase are fixed by the catalog; summary,
/// severity, confidence, and capabilities are open there and chosen here.
#[allow(non_snake_case)]
pub fn MLC114() -> (metadata: &'static RuleMetadata)
    ensures
        metadata@ == mlc114(),
{
    let metadata: &'static RuleMetadata = &RuleMetadata {
        id: "MLC114",
        summary: "Unsupported chain after an overridden .animate method",
        default_enabled: true,
        default_severity: Severity::Warning,
        minimum_confidence: Confidence::Medium,
        implementation_phase: 2,
        required_profiles: &[],
        required_capabilities: &["lifecycle"],
        supersedes: &[],
    };
    assert(metadata@ =~= mlc114());
    metadata
}

/// A chain on an overridden `.animate` method that does not support it. The findings come with the context.
pub struct UnsupportedOverrideAnimateChain;

impl Rule for UnsupportedOverrideAnimateChain {
    open spec fn declared(&self) -> MetadataView {
        mlc114()
    }

    open spec fn findings(&self, context: RuleContext<'_>) -> Seq<DiagnosticView> {
        supplied_findings(mlc114(), context)
    }

    fn metadata(&self) -> (metadata: &'static RuleMetadata) {
        MLC114()
    }

    fn run(&self, context: &RuleContext<'_>) -> (diagnostics: Vec<Diagnostic>) {
        report_all_supplied(MLC114(), context)
    }
}

} // verus!
