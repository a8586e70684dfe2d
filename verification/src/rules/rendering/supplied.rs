//! Rendering rules whose findings come with the context: `MLR102`, `MLR107`,
//! `MLR108`, `MLR110` to `MLR114`, `MLR116`, `MLR119` to `MLR121`, `MLR125`, and
//! `MLR127`.
use crate::diagnostic::{
    Confidence, Diagnostic, DiagnosticView, MetadataView, RuleMetadata, Severity,
};
use crate::rules::base::{Rule, RuleContext};
use crate::rules::supplied::{report_all_supplied, supplied_findings};
use vstd::prelude::*;

verus! {

// ---------------------------------------------------------------------------
// MLR102.
// ---------------------------------------------------------------------------

/// What [`MLR102`] declares.
pub open spec fn mlr102() -> MetadataView {
    MetadataView {
        id: "MLR102"@,
        summary: "Played .animate without a chained method"@,
        default_enabled: true,
        default_severity: Severity::Warning,
        minimum_confidence: Confidence::Medium,
        implementation_phase: 1,
        required_profiles: seq![],
        required_capabilities: seq!["lifecycle"@],
        supersedes: seq![],
    }
}

/// Metadata of rule `MLR102`. Id and phase are fixed by the catalog; summary,
/// severity, confidence, and capabilities are open there and chosen here.
#[allow(non_snake_case)]
pub fn MLR102() -> (metadata: &'static RuleMetadata)
    ensures
        metadata@ == mlr102(),
{
    let metadata: &'static RuleMetadata = &RuleMetadata {
        id: "MLR102",
        summary: "Played .animate without a chained method",
        default_enabled: true,
        default_severity: Severity::Warning,
        minimum_confidence: Confidence::Medium,
        implementation_phase: 1,
        required_profiles: &[],
        required_capabilities: &["lifecycle"],
        supersedes: &[],
    };
    assert(metadata@ =~= mlr102());
    metadata
}

/// A played `.animate` without a chained method. The findings come with the context.
pub struct BarePlayedAnimate;

impl Rule for BarePlayedAnimate {
    open spec fn declared(&self) -> MetadataView {
        mlr102()
    }

    open spec fn findings(&self, context: RuleContext<'_>) -> Seq<DiagnosticView> {
        supplied_findings(mlr102(), context)
    }

    fn metadata(&self) -> (metadata: &'static RuleMetadata) {
        MLR102()
    }

    fn run(&self, context: &RuleContext<'_>) -> (diagnostics: Vec<Diagnostic>) {
        report_all_supplied(MLR102(), context)
    }
}

// ---------------------------------------------------------------------------
// MLR107.
// ---------------------------------------------------------------------------

/// What [`MLR107`] declares.
pub open spec fn mlr107() -> MetadataView {
    MetadataView {
        id: "MLR107"@,
        summary: "API that the renderer does not support"@,
        default_enabled: true,
        default_severity: Severity::Warning,
        minimum_confidence: Confidence::Medium,
        implementation_phase: 4,
        required_profiles: seq![],
        required_capabilities: seq!["qualified-calls"@],
        supersedes: seq![],
    }
}

/// Metadata of rule `MLR107`. Id and phase are fixed by the catalog; summary,
/// severity, confidence, and capabilities are open there and chosen here.
#[allow(non_snake_case)]
pub fn MLR107() -> (metadata: &'static RuleMetadata)
    ensures
        metadata@ == mlr107(),
{
    let metadata: &'static RuleMetadata = &RuleMetadata {
        id: "MLR107",
        summary: "API that the renderer does not support",
        default_enabled: true,
        default_severity: Severity::Warning,
        minimum_confidence: Confidence::Medium,
        implementation_phase: 4,
        required_profiles: &[],
        required_capabilities: &["qualified-calls"],
        supersedes: &[],
    };
    assert(metadata@ =~= mlr107());
    metadata
}

/// An API that the renderer does not support. The findings come with the context.
pub struct UnsupportedRendererApi;

impl Rule for UnsupportedRendererApi {
    open spec fn declared(&self) -> MetadataView {
        mlr107()
    }

    open spec fn findings(&self, context: RuleContext<'_>) -> Seq<DiagnosticView> {
        supplied_findings(mlr107(), context)
    }

    fn metadata(&self) -> (metadata: &'static RuleMetadata) {
        MLR107()
    }

    fn run(&self, context: &RuleContext<'_>) -> (diagnostics: Vec<Diagnostic>) {
        report_all_supplied(MLR107(), context)
    }
}

// ---------------------------------------------------------------------------
// MLR108.
// ---------------------------------------------------------------------------

/// What [`MLR108`] declares.
pub open spec fn mlr108() -> MetadataView {
    MetadataView {
        id: "MLR108"@,
        summary: "Stale visibility of a fixed mobject"@,
        default_enabled: true,
        default_severity: Severity::Warning,
        minimum_confidence: Confidence::Medium,
        implementation_phase: 4,
        required_profiles: seq![],
        required_capabilities: seq!["lifecycle"@],
        supersedes: seq![],
    }
}

/// Metadata of rule `MLR108`. Id and phase are fixed by the catalog; summary,
/// severity, confidence, and capabilities are open there and chosen here.
#[allow(non_snake_case)]
pub fn MLR108() -> (metadata: &'static RuleMetadata)
    ensures
        metadata@ == mlr108(),
{
    let metadata: &'static RuleMetadata = &RuleMetadata {
        id: "MLR108",
        summary: "Stale visibility of a fixed mobject",
        default_enabled: true,
        default_severity: Severity::Warning,
        minimum_confidence: Confidence::Medium,
        implementation_phase: 4,
        required_profiles: &[],
        required_capabilities: &["lifecycle"],
        supersedes: &[],
    };
    assert(metadata@ =~= mlr108());
    metadata
}

/// A fixed mobject with stale visibility. The findings come with the context.
pub struct StaleFixedVisibility;

impl Rule for StaleFixedVisibility {
    open spec fn declared(&self) -> MetadataView {
        mlr108()
    }

    open spec fn findings(&self, context: RuleContext<'_>) -> Seq<DiagnosticView> {
        supplied_findings(mlr108(), context)
    }

    fn metadata(&self) -> (metadata: &'static RuleMetadata) {
        MLR108()
    }

    fn run(&self, context: &RuleContext<'_>) -> (diagnostics: Vec<Diagnostic>) {
        report_all_supplied(MLR108(), context)
    }
}

// ---------------------------------------------------------------------------
// MLR110.
// ---------------------------------------------------------------------------

/// What [`MLR110`] declares.
pub open spec fn mlr110() -> MetadataView {
    MetadataView {
        id: "MLR110"@,
        summary: "Unbalanced TeX literal"@,
        default_enabled: true,
        default_severity: Severity::Warning,
        minimum_confidence: Confidence::Medium,
        implementation_phase: 1,
        required_profiles: seq![],
        required_capabilities: seq!["qualified-calls"@],
        supersedes: seq![],
    }
}

/// Metadata of rule `MLR110`. Id and phase are fixed by the catalog; summary,
/// severity, confidence, and capabilities are open there and chosen here.
#[allow(non_snake_case)]
pub fn MLR110() -> (metadata: &'static RuleMetadata)
    ensures
        metadata@ == mlr110(),
{
    let metadata: &'static RuleMetadata = &RuleMetadata {
        id: "MLR110",
        summary: "Unbalanced TeX literal",
        default_enabled: true,
        default_severity: Severity::Warning,
        minimum_confidence: Confidence::Medium,
        implementation_phase: 1,
        required_profiles: &[],
        required_capabilities: &["qualified-calls"],
        supersedes: &[],
    };
    assert(metadata@ =~= mlr110());
    metadata
}

/// A TeX literal that is not balanced. The findings come with the context.
pub struct UnbalancedTexLiteral;

impl Rule for UnbalancedTexLiteral {
    open spec fn declared(&self) -> MetadataView {
        mlr110()
    }

    open spec fn findings(&self, context: RuleContext<'_>) -> Seq<DiagnosticView> {
        supplied_findings(mlr110(), context)
    }

    fn metadata(&self) -> (metadata: &'static RuleMetadata) {
        MLR110()
    }

    fn run(&self, context: &RuleContext<'_>) -> (diagnostics: Vec<Diagnostic>) {
        report_all_supplied(MLR110(), context)
    }
}

// ---------------------------------------------------------------------------
// MLR111.
// ---------------------------------------------------------------------------

/// What [`MLR111`] declares.
pub open spec fn mlr111() -> MetadataView {
    MetadataView {
        id: "MLR111"@,
        summary: "Scene updater mutates a mobject"@,
        default_enabled: true,
        default_severity: Severity::Warning,
        minimum_confidence: Confidence::Medium,
        implementation_phase: 4,
        required_profiles: seq![],
        required_capabilities: seq!["lifecycle"@],
        supersedes: seq![],
    }
}

/// Metadata of rule `MLR111`. Id and phase are fixed by the catalog; summary,
/// severity, confidence, and capabilities are open there and chosen here.
#[allow(non_snake_case)]
pub fn MLR111() -> (metadata: &'static RuleMetadata)
    ensures
        metadata@ == mlr111(),
{
    let metadata: &'static RuleMetadata = &RuleMetadata {
        id: "MLR111",
        summary: "Scene updater mutates a mobject",
        default_enabled: true,
        default_severity: Severity::Warning,
        minimum_confidence: Confidence::Medium,
        implementation_phase: 4,
        required_profiles: &[],
        required_capabilities: &["lifecycle"],
        supersedes: &[],
    };
    assert(metadata@ =~= mlr111());
    metadata
}

/// A scene updater that mutates a mobject. The findings come with the context.
pub struct SceneUpdaterMutatesMobject;

impl Rule for SceneUpdaterMutatesMobject {
    open spec fn declared(&self) -> MetadataView {
        mlr111()
    }

    open spec fn findings(&self, context: RuleContext<'_>) -> Seq<DiagnosticView> {
        supplied_findings(mlr111(), context)
    }

    fn metadata(&self) -> (metadata: &'static RuleMetadata) {
        MLR111()
    }

    fn run(&self, context: &RuleContext<'_>) -> (diagnostics: Vec<Diagnostic>) {
        report_all_supplied(MLR111(), context)
    }
}

// ---------------------------------------------------------------------------
// MLR112.
// ---------------------------------------------------------------------------

/// What [`MLR112`] declares.
pub open spec fn mlr112() -> MetadataView {
    MetadataView {
        id: "MLR112"@,
        summary: "Assumption of a fixed point layout"@,
        default_enabled: true,
        default_severity: Severity::Warning,
        minimum_confidence: Confidence::Medium,
        implementation_phase: 4,
        required_profiles: seq![],
        required_capabilities: seq!["qualified-calls"@],
        supersedes: seq![],
    }
}

/// Metadata of rule `MLR112`. Id and phase are fixed by the catalog; summary,
/// severity, confidence, and capabilities are open there and chosen here.
#[allow(non_snake_case)]
pub fn MLR112() -> (metadata: &'static RuleMetadata)
    ensures
        metadata@ == mlr112(),
{
    let metadata: &'static RuleMetadata = &RuleMetadata {
        id: "MLR112",
        summary: "Assumption of a fixed point layout",
        default_enabled: true,
        default_severity: Severity::Warning,
        minimum_confidence: Confidence::Medium,
        implementation_phase: 4,
        required_profiles: &[],
        required_capabilities: &["qualified-calls"],
        supersedes: &[],
    };
    assert(metadata@ =~= mlr112());
    metadata
}

/// Code that rests on a fixed point layout. The findings come with the context.
pub struct FixedPointLayoutAssumption;

impl Rule for FixedPointLayoutAssumption {
    open spec fn declared(&self) -> MetadataView {
        mlr112()
    }

    open spec fn findings(&self, context: RuleContext<'_>) -> Seq<DiagnosticView> {
        supplied_findings(mlr112(), context)
    }

    fn metadata(&self) -> (metadata: &'static RuleMetadata) {
        MLR112()
    }

    fn run(&self, context: &RuleContext<'_>) -> (diagnostics: Vec<Diagnostic>) {
        report_all_supplied(MLR112(), context)
    }
}

// ---------------------------------------------------------------------------
// MLR113.
// ---------------------------------------------------------------------------

/// What [`MLR113`] declares.
pub open spec fn mlr113() -> MetadataView {
    MetadataView {
        id: "MLR113"@,
        summary: "Transform of a mobject into itself"@,
        default_enabled: true,
        default_severity: Severity::Warning,
        minimum_confidence: Confidence::Medium,
        implementation_phase: 1,
        required_profiles: seq![],
        required_capabilities: seq!["lifecycle"@],
        supersedes: seq![],
    }
}

/// Metadata of rule `MLR113`. Id and phase are fixed by the catalog; summary,
/// severity, confidence, and capabilities are open there and chosen here.
#[allow(non_snake_case)]
pub fn MLR113() -> (metadata: &'static RuleMetadata)
    ensures
        metadata@ == mlr113(),
{
    let metadata: &'static RuleMetadata = &RuleMetadata {
        id: "MLR113",
        summary: "Transform of a mobject into itself",
        default_enabled: true,
        default_severity: Severity::Warning,
        minimum_confidence: Confidence::Medium,
        implementation_phase: 1,
        required_profiles: &[],
        required_capabilities: &["lifecycle"],
        supersedes: &[],
    };
    assert(metadata@ =~= mlr113());
    metadata
}

/// A transform of a mobject into itself. The findings come with the context.
pub struct SelfTransform;

impl Rule for SelfTransform {
    open spec fn declared(&self) -> MetadataView {
        mlr113()
    }

    open spec fn findings(&self, context: RuleContext<'_>) -> Seq<DiagnosticView> {
        supplied_findings(mlr113(), context)
    }

    fn metadata(&self) -> (metadata: &'static RuleMetadata) {
        MLR113()
    }

    fn run(&self, context: &RuleContext<'_>) -> (diagnostics: Vec<Diagnostic>) {
        report_all_supplied(MLR113(), context)
    }
}

// ---------------------------------------------------------------------------
// MLR114.
// ---------------------------------------------------------------------------

/// What [`MLR114`] declares.
pub open spec fn mlr114() -> MetadataView {
    MetadataView {
        id: "MLR114"@,
        summary: "Literal is no point of three coordinates"@,
        default_enabled: true,
        default_severity: Severity::Warning,
        minimum_confidence: Confidence::Medium,
        implementation_phase: 1,
        required_profiles: seq![],
        required_capabilities: seq!["qualified-calls"@],
        supersedes: seq![],
    }
}

/// Metadata of rule `MLR114`. Id and phase are fixed by the catalog; summary,
/// severity, confidence, and capabilities are open there and chosen here.
#[allow(non_snake_case)]
pub fn MLR114() -> (metadata: &'static RuleMetadata)
    ensures
        metadata@ == mlr114(),
{
    let metadata: &'static RuleMetadata = &RuleMetadata {
        id: "MLR114",
        summary: "Literal is no point of three coordinates",
        default_enabled: true,
        default_severity: Severity::Warning,
        minimum_confidence: Confidence::Medium,
        implementation_phase: 1,
        required_profiles: &[],
        required_capabilities: &["qualified-calls"],
        supersedes: &[],
    };
    assert(metadata@ =~= mlr114());
    metadata
}

/// A literal that is no point of three coordinates. The findings come with the context.
pub struct NonPoint3Literal;

impl Rule for NonPoint3Literal {
    open spec fn declared(&self) -> MetadataView {
        mlr114()
    }

    open spec fn findings(&self, context: RuleContext<'_>) -> Seq<DiagnosticView> {
        supplied_findings(mlr114(), context)
    }

    fn metadata(&self) -> (metadata: &'static RuleMetadata) {
        MLR114()
    }

    fn run(&self, context: &RuleContext<'_>) -> (diagnostics: Vec<Diagnostic>) {
        report_all_supplied(MLR114(), context)
    }
}

// ---------------------------------------------------------------------------
// MLR116.
// ---------------------------------------------------------------------------

/// What [`MLR116`] declares.
pub open spec fn mlr116() -> MetadataView {
    MetadataView {
        id: "MLR116"@,
        summary: "Edit of an empty path"@,
        default_enabled: true,
        default_severity: Severity::Warning,
        minimum_confidence: Confidence::Medium,
        implementation_phase: 1,
        required_profiles: seq![],
        required_capabilities: seq!["lifecycle"@],
        supersedes: seq![],
    }
}

/// Metadata of rule `MLR116`. Id and phase are fixed by the catalog; summary,
/// severity, confidence, and capabilities are open there and chosen here.
#[allow(non_snake_case)]
pub fn MLR116() -> (metadata: &'static RuleMetadata)
    ensures
        metadata@ == mlr116(),
{
    let metadata: &'static RuleMetadata = &RuleMetadata {
        id: "MLR116",
        summary: "Edit of an empty path",
        default_enabled: true,
        default_severity: Severity::Warning,
        minimum_confidence: Confidence::Medium,
        implementation_phase: 1,
        required_profiles: &[],
        required_capabilities: &["lifecycle"],
        supersedes: &[],
    };
    assert(metadata@ =~= mlr116());
    metadata
}

/// An edit of an empty path. The findings come with the context.
pub struct EmptyPathEdit;

impl Rule for EmptyPathEdit {
    open spec fn declared(&self) -> MetadataView {
        mlr116()
    }

    open spec fn findings(&self, context: RuleContext<'_>) -> Seq<DiagnosticView> {
        supplied_findings(mlr116(), context)
    }

    fn metadata(&self) -> (metadata: &'static RuleMetadata) {
        MLR116()
    }

    fn run(&self, context: &RuleContext<'_>) -> (diagnostics: Vec<Diagnostic>) {
        report_all_supplied(MLR116(), context)
    }
}

// ---------------------------------------------------------------------------
// MLR119.
// ---------------------------------------------------------------------------

/// What [`MLR119`] declares.
pub open spec fn mlr119() -> MetadataView {
    MetadataView {
        id: "MLR119"@,
        summary: "Moving camera under OpenGL"@,
        default_enabled: true,
        default_severity: Severity::Warning,
        minimum_confidence: Confidence::Medium,
        implementation_phase: 4,
        required_profiles: seq![],
        required_capabilities: seq!["qualified-calls"@],
        supersedes: seq![],
    }
}

/// Metadata of rule `MLR119`. Id and phase are fixed by the catalog; summary,
/// severity, confidence, and capabilities are open there and chosen here.
#[allow(non_snake_case)]
pub fn MLR119() -> (metadata: &'static RuleMetadata)
    ensures
        metadata@ == mlr119(),
{
    let metadata: &'static RuleMetadata = &RuleMetadata {
        id: "MLR119",
        summary: "Moving camera under OpenGL",
        default_enabled: true,
        default_severity: Severity::Warning,
        minimum_confidence: Confidence::Medium,
        implementation_phase: 4,
        required_profiles: &[],
        required_capabilities: &["qualified-calls"],
        supersedes: &[],
    };
    assert(metadata@ =~= mlr119());
    metadata
}

/// A moving camera under OpenGL. The findings come with the context.
pub struct MovingCameraUnderOpengl;

impl Rule for MovingCameraUnderOpengl {
    open spec fn declared(&self) -> MetadataView {
        mlr119()
    }

    open spec fn findings(&self, context: RuleContext<'_>) -> Seq<DiagnosticView> {
        supplied_findings(mlr119(), context)
    }

    fn metadata(&self) -> (metadata: &'static RuleMetadata) {
        MLR119()
    }

    fn run(&self, context: &RuleContext<'_>) -> (diagnostics: Vec<Diagnostic>) {
        report_all_supplied(MLR119(), context)
    }
}

// ---------------------------------------------------------------------------
// MLR120.
// ---------------------------------------------------------------------------

/// What [`MLR120`] declares.
pub open spec fn mlr120() -> MetadataView {
    MetadataView {
        id: "MLR120"@,
        summary: "Focal distance under OpenGL"@,
        default_enabled: true,
        default_severity: Severity::Warning,
        minimum_confidence: Confidence::Medium,
        implementation_phase: 4,
        required_profiles: seq![],
        required_capabilities: seq!["qualified-calls"@],
        supersedes: seq![],
    }
}

/// Metadata of rule `MLR120`. Id and phase are fixed by the catalog; summary,
/// severity, confidence, and capabilities are open there and chosen here.
#[allow(non_snake_case)]
pub fn MLR120() -> (metadata: &'static RuleMetadata)
    ensures
        metadata@ == mlr120(),
{
    let metadata: &'static RuleMetadata = &RuleMetadata {
        id: "MLR120",
        summary: "Focal distance under OpenGL",
        default_enabled: true,
        default_severity: Severity::Warning,
        minimum_confidence: Confidence::Medium,
        implementation_phase: 4,
        required_profiles: &[],
        required_capabilities: &["qualified-calls"],
        supersedes: &[],
    };
    assert(metadata@ =~= mlr120());
    metadata
}

/// A focal distance under OpenGL. The findings come with the context.
pub struct FocalDistanceUnderOpengl;

impl Rule for FocalDistanceUnderOpengl {
    open spec fn declared(&self) -> MetadataView {
        mlr120()
    }

    open spec fn findings(&self, context: RuleContext<'_>) -> Seq<DiagnosticView> {
        supplied_findings(mlr120(), context)
    }

    fn metadata(&self) -> (metadata: &'static RuleMetadata) {
        MLR120()
    }

    fn run(&self, context: &RuleContext<'_>) -> (diagnostics: Vec<Diagnostic>) {
        report_all_supplied(MLR120(), context)
    }
}

// ---------------------------------------------------------------------------
// MLR121.
// ---------------------------------------------------------------------------

/// What [`MLR121`] declares.
pub open spec fn mlr121() -> MetadataView {
    MetadataView {
        id: "MLR121"@,
        summary: "Shift along z for stacking"@,
        default_enabled: true,
        default_severity: Severity::Warning,
        minimum_confidence: Confidence::Medium,
        implementation_phase: 4,
        required_profiles: seq![],
        required_capabilities: seq!["qualified-calls"@],
        supersedes: seq![],
    }
}

/// Metadata of rule `MLR121`. Id and phase are fixed by the catalog; summary,
/// severity, confidence, and capabilities are open there and chosen here.
#[allow(non_snake_case)]
pub fn MLR121() -> (metadata: &'static RuleMetadata)
    ensures
        metadata@ == mlr121(),
{
    let metadata: &'static RuleMetadata = &RuleMetadata {
        id: "MLR121",
        summary: "Shift along z for stacking",
        default_enabled: true,
        default_severity: Severity::Warning,
        minimum_confidence: Confidence::Medium,
        implementation_phase: 4,
        required_profiles: &[],
        required_capabilities: &["qualified-calls"],
        supersedes: &[],
    };
    assert(metadata@ =~= mlr121());
    metadata
}

/// A shift along z that is meant to stack. The findings come with the context.
pub struct ZShiftForStacking;

impl Rule for ZShiftForStacking {
    open spec fn declared(&self) -> MetadataView {
        mlr121()
    }

    open spec fn findings(&self, context: RuleContext<'_>) -> Seq<DiagnosticView> {
        supplied_findings(mlr121(), context)
    }

    fn metadata(&self) -> (metadata: &'static RuleMetadata) {
        MLR121()
    }

    fn run(&self, context: &RuleContext<'_>) -> (diagnostics: Vec<Diagnostic>) {
        report_all_supplied(MLR121(), context)
    }
}

// ---------------------------------------------------------------------------
// MLR125.
// ---------------------------------------------------------------------------

/// What [`MLR125`] declares.
pub open spec fn mlr125() -> MetadataView {
    MetadataView {
        id: "MLR125"@,
        summary: "Bare Mobject as a leaf"@,
        default_enabled: true,
        default_severity: Severity::Warning,
        minimum_confidence: Confidence::Medium,
        implementation_phase: 1,
        required_profiles: seq![],
        required_capabilities: seq!["lifecycle"@],
        supersedes: seq![],
    }
}

/// Metadata of rule `MLR125`. Id and phase are fixed by the catalog; summary,
/// severity, confidence, and capabilities are open there and chosen here.
#[allow(non_snake_case)]
pub fn MLR125() -> (metadata: &'static RuleMetadata)
    ensures
        metadata@ == mlr125(),
{
    let metadata: &'static RuleMetadata = &RuleMetadata {
        id: "MLR125",
        summary: "Bare Mobject as a leaf",
        default_enabled: true,
        default_severity: Severity::Warning,
        minimum_confidence: Confidence::Medium,
        implementation_phase: 1,
        required_profiles: &[],
        required_capabilities: &["lifecycle"],
        supersedes: &[],
    };
    assert(metadata@ =~= mlr125());
    metadata
}

/// A bare `Mobject` as a leaf. The findings come with the context.
pub struct BareMobjectLeaf;

impl Rule for BareMobjectLeaf {
    open spec fn declared(&self) -> MetadataView {
        mlr125()
    }

    open spec fn findings(&self, context: RuleContext<'_>) -> Seq<DiagnosticView> {
        supplied_findings(mlr125(), context)
    }

    fn metadata(&self) -> (metadata: &'static RuleMetadata) {
        MLR125()
    }

    fn run(&self, context: &RuleContext<'_>) -> (diagnostics: Vec<Diagnostic>) {
        report_all_supplied(MLR125(), context)
    }
}

// ---------------------------------------------------------------------------
// MLR127.
// ---------------------------------------------------------------------------

/// What [`MLR127`] declares.
pub open spec fn mlr127() -> MetadataView {
    MetadataView {
        id: "MLR127"@,
        summary: "TeX key that cannot match"@,
        default_enabled: true,
        default_severity: Severity::Warning,
        minimum_confidence: Confidence::Medium,
        implementation_phase: 1,
        required_profiles: seq![],
        required_capabilities: seq!["qualified-calls"@],
        supersedes: seq![],
    }
}

/// Metadata of rule `MLR127`. Id and phase are fixed by the catalog; summary,
/// severity, confidence, and capabilities are open there and chosen here.
#[allow(non_snake_case)]
pub fn MLR127() -> (metadata: &'static RuleMetadata)
    ensures
        metadata@ == mlr127(),
{
    let metadata: &'static RuleMetadata = &RuleMetadata {
        id: "MLR127",
        summary: "TeX key that cannot match",
        default_enabled: true,
        default_severity: Severity::Warning,
        minimum_confidence: Confidence::Medium,
        implementation_phase: 1,
        required_profiles: &[],
        required_capabilities: &["qualified-calls"],
        supersedes: &[],
    };
    assert(metadata@ =~= mlr127());
    metadata
}

/// A TeX key that cannot match. The findings come with the context.
pub struct UnmatchableTexKey;

impl Rule for UnmatchableTexKey {
    open spec fn declared(&self) -> MetadataView {
        mlr127()
    }

    open spec fn findings(&self, context: RuleContext<'_>) -> Seq<DiagnosticView> {
        supplied_findings(mlr127(), context)
    }

    fn metadata(&self) -> (metadata: &'static RuleMetadata) {
        MLR127()
    }

    fn run(&self, context: &RuleContext<'_>) -> (diagnostics: Vec<Diagnostic>) {
        report_all_supplied(MLR127(), context)
    }
}

} // verus!
