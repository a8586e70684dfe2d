//! Findings that an outside analysis hands in, rule by rule.
use crate::config::Renderer;
use crate::diagnostic::FixApplicability;
use crate::json::Json;
use crate::source::{AllocationSite, FileId, TextRange};
use vstd::prelude::*;

verus! {

/// Replacement of one range of the reported file.
pub struct SuppliedEdit {
    pub range: TextRange,
    pub replacement: String,
}

/// A suggested change of the reported file.
pub struct SuppliedFix {
    pub applicability: FixApplicability,
    pub message: String,
    pub edits: Vec<SuppliedEdit>,
}

/// Another place that a finding refers to.
pub struct SuppliedPlace {
    pub site: AllocationSite,
    pub message: String,
}

/// One finding of an outside analysis.
pub struct SuppliedFinding {
    /// Id of the rule that the finding belongs to.
    pub rule_id: String,
    pub file: FileId,
    pub range: TextRange,
    pub message: String,
    pub explanation: String,
    /// Members of the evidence; a value that is no object holds none.
    pub evidence: Json,
    pub places: Vec<SuppliedPlace>,
    /// The one renderer that the finding is about, if it is about one.
    pub renderer: Option<Renderer>,
    pub fix: Option<SuppliedFix>,
}

} // verus!
