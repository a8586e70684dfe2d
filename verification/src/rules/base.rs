//! The rule contract and the facts a rule may query.
use crate::config::{profile_names, RenderProfile, ResolvedConfig};
use crate::cost::CostFacts;
use crate::diagnostic::{
    reports, Diagnostic, DiagnosticView, EditView, FixView, MetadataView, RelatedLocation,
    RelatedView, RuleMetadata, TextEdit,
};
use crate::frontend::{BindingFacts, ProjectIndex, QualifiedCallFacts, StatementFacts};
use crate::json::{Evidence, EvidenceView};
use crate::knowledge::KnowledgeProfile;
use crate::literals::LiteralFacts;
use crate::semantic::LifecycleFacts;
use crate::source::{path_in, span_in, AllocationSite, FileId, SourceManager, TextRange};
use crate::supplied::SuppliedFinding;
use vstd::prelude::*;

verus! {

/// A single diagnostic rule.
///
/// A rule is deterministic: its diagnostics, order included, are a function
/// of the context.
pub trait Rule {
    /// What the rule declares about itself.
    spec fn declared(&self) -> MetadataView;

    /// The diagnostics the rule owes for a context, in order.
    spec fn findings(&self, context: RuleContext<'_>) -> Seq<DiagnosticView>;

    /// Static metadata (id, severity, phase, capabilities).
    fn metadata(&self) -> (metadata: &'static RuleMetadata)
        ensures
            metadata@ == self.declared(),
    ;

    /// Runs the rule over the whole analyzed project.
    fn run(&self, context: &RuleContext<'_>) -> (diagnostics: Vec<Diagnostic>)
        ensures
            reports(diagnostics@) == self.findings(*context),
    ;
}

/// Everything a rule may query about the analyzed project.
pub struct RuleContext<'a> {
    pub sources: &'a SourceManager,
    pub config: &'a ResolvedConfig,
    pub knowledge: Option<&'a KnowledgeProfile>,
    pub qualified_calls: QualifiedCallFacts,
    pub project_index: ProjectIndex,
    pub lifecycle_facts: LifecycleFacts,
    pub cost_facts: CostFacts,
    pub literal_facts: LiteralFacts,
    pub supplied: Vec<SuppliedFinding>,
}

impl<'a> RuleContext<'a> {
    /// Builds a context over the parsed project and resolved configuration,
    /// with no fact layer attached.
    pub fn new(sources: &'a SourceManager, config: &'a ResolvedConfig) -> (context: RuleContext<'a>)
        ensures
            context.sources == sources,
            context.config == config,
            context.knowledge is None,
            context.qualified_calls.calls@.len() == 0,
            context.qualified_calls.statements.entries@.len() == 0,
            context.qualified_calls.bindings.files@.len() == 0,
            context.project_index.classes@.len() == 0,
            context.project_index.functions@.len() == 0,
            context.project_index.module_tree@.len() == 0,
            context.lifecycle_facts.scenes@.len() == 0,
            context.lifecycle_facts.callback_returns.functions@.len() == 0,
            context.lifecycle_facts.callback_returns.lambdas@.len() == 0,
            context.cost_facts.is_empty(),
            context.cost_facts.large_family == u32::MAX,
            context.cost_facts.large_points == u32::MAX,
            context.cost_facts.fork.fork_measured is None,
            context.cost_facts.fork.static_layers_measured is None,
            context.cost_facts.fork.bulk_measured is None,
            context.literal_facts.tex@.len() == 0,
            context.literal_facts.markup@.len() == 0,
            context.literal_facts.assets@.len() == 0,
            context.supplied@.len() == 0,
    {
        RuleContext {
            sources,
            config,
            knowledge: None,
            qualified_calls: QualifiedCallFacts::empty(),
            project_index: ProjectIndex::empty(),
            lifecycle_facts: LifecycleFacts::empty(),
            cost_facts: CostFacts::empty(),
            literal_facts: LiteralFacts::empty(),
            supplied: Vec::new(),
        }
    }

    /// Attaches the loaded Manim knowledge profile.
    pub fn with_knowledge(self, knowledge: &'a KnowledgeProfile) -> (context: RuleContext<'a>)
        ensures
            context == (RuleContext { knowledge: Some(knowledge), ..self }),
    {
        RuleContext { knowledge: Some(knowledge), ..self }
    }

    /// Attaches frontend facts (project index and qualified calls).
    pub fn with_frontend(self, index: ProjectIndex, calls: QualifiedCallFacts) -> (context:
        RuleContext<'a>)
        ensures
            context == (RuleContext { project_index: index, qualified_calls: calls, ..self }),
    {
        RuleContext { project_index: index, qualified_calls: calls, ..self }
    }

    /// Attaches lifecycle facts.
    pub fn with_lifecycle(self, lifecycle: LifecycleFacts) -> (context: RuleContext<'a>)
        ensures
            context == (RuleContext { lifecycle_facts: lifecycle, ..self }),
    {
        RuleContext { lifecycle_facts: lifecycle, ..self }
    }

    /// Attaches symbolic cost facts.
    pub fn with_cost(self, cost: CostFacts) -> (context: RuleContext<'a>)
        ensures
            context == (RuleContext { cost_facts: cost, ..self }),
    {
        RuleContext { cost_facts: cost, ..self }
    }

    /// Attaches facts about string literals.
    pub fn with_literals(self, literals: LiteralFacts) -> (context: RuleContext<'a>)
        ensures
            context == (RuleContext { literal_facts: literals, ..self }),
    {
        RuleContext { literal_facts: literals, ..self }
    }

    /// Attaches findings of an outside analysis.
    pub fn with_supplied(self, supplied: Vec<SuppliedFinding>) -> (context: RuleContext<'a>)
        ensures
            context == (RuleContext { supplied, ..self }),
    {
        RuleContext { supplied, ..self }
    }

    /// Parsed files and span conversions.
    pub fn sources(&self) -> (sources: &'a SourceManager)
        ensures
            sources == self.sources,
    {
        self.sources
    }

    /// The resolved effective configuration.
    pub fn config(&self) -> (config: &'a ResolvedConfig)
        ensures
            config == self.config,
    {
        self.config
    }

    /// Render profiles analyzed in this run.
    pub fn active_profiles(&self) -> (profiles: &'a [RenderProfile])
        ensures
            profiles@ == self.config.active_profiles@,
    {
        self.config.active_profiles.as_slice()
    }

    /// The loaded Manim knowledge profile, if one was attached.
    pub fn knowledge(&self) -> (knowledge: Option<&'a KnowledgeProfile>)
        ensures
            knowledge == self.knowledge,
    {
        self.knowledge
    }

    /// Resolved qualified Manim call facts.
    pub fn qualified_calls(&self) -> (calls: &QualifiedCallFacts)
        ensures
            *calls == self.qualified_calls,
    {
        &self.qualified_calls
    }

    /// Project-wide symbol and class-hierarchy index.
    pub fn project_index(&self) -> (index: &ProjectIndex)
        ensures
            *index == self.project_index,
    {
        &self.project_index
    }

    /// Enclosing-statement role of every call expression.
    pub fn statement_facts(&self) -> (statements: &StatementFacts)
        ensures
            *statements == self.qualified_calls.statements,
    {
        &self.qualified_calls.statements
    }

    /// Per-file import-derived binding facts.
    pub fn binding_facts(&self) -> (bindings: &BindingFacts)
        ensures
            *bindings == self.qualified_calls.bindings,
    {
        &self.qualified_calls.bindings
    }

    /// Lifecycle events and state snapshots. An empty fact set means that
    /// nothing was analyzed, never that no scene exists.
    pub fn lifecycle_facts(&self) -> (lifecycle: &LifecycleFacts)
        ensures
            *lifecycle == self.lifecycle_facts,
    {
        &self.lifecycle_facts
    }

    /// Symbolic cost facts. An empty fact set means that nothing was
    /// analyzed, never that a call is provably cold.
    pub fn cost_facts(&self) -> (cost: &CostFacts)
        ensures
            *cost == self.cost_facts,
    {
        &self.cost_facts
    }
}

/// A diagnostic at `range` with a rule's default severity and minimum
/// confidence, for every active profile.
pub open spec fn basic_report(
    metadata: MetadataView,
    context: RuleContext<'_>,
    file: FileId,
    range: TextRange,
    message: Seq<char>,
    explanation: Seq<char>,
    evidence: EvidenceView,
) -> DiagnosticView {
    DiagnosticView {
        rule_id: metadata.id,
        severity: metadata.default_severity,
        confidence: metadata.minimum_confidence,
        path: path_in(*context.sources, file),
        primary_span: span_in(*context.sources, file, range),
        message,
        explanation: Some(explanation),
        related_locations: Seq::empty(),
        evidence,
        estimated: false,
        applicable_profiles: profile_names(context.config.active_profiles@),
        fix: None,
    }
}

/// Builds a diagnostic with the rule's default severity and minimum
/// confidence; the caller attaches a fix afterwards when applicable.
pub fn build_diagnostic(
    metadata: &'static RuleMetadata,
    context: &RuleContext<'_>,
    file: FileId,
    range: TextRange,
    message: String,
    explanation: &str,
    evidence: Evidence,
) -> (diagnostic: Diagnostic)
    ensures
        diagnostic@ == basic_report(
            metadata@,
            *context,
            file,
            range,
            message@,
            explanation@,
            evidence@,
        ),
        diagnostic.related_locations@.len() == 0,
{
    let diagnostic = Diagnostic {
        rule_id: metadata.id.to_owned(),
        severity: metadata.default_severity,
        confidence: metadata.minimum_confidence,
        path: context.sources.path(file),
        primary_span: context.sources.span(file, range),
        message,
        explanation: Some(explanation.to_owned()),
        related_locations: Vec::new(),
        evidence,
        estimated_cost: None,
        applicable_profiles: context.config.active_profile_names(),
        fix: None,
    };
    assert(diagnostic@.related_locations =~= Seq::empty());
    diagnostic
}

/// A diagnostic for some profiles, with an optional fix.
pub open spec fn profiled_report(
    report: DiagnosticView,
    profiles: Seq<Seq<char>>,
    fix: Option<FixView>,
) -> DiagnosticView {
    DiagnosticView { applicable_profiles: profiles, fix, ..report }
}

/// A related location at a site.
pub open spec fn related_at(
    context: RuleContext<'_>,
    site: AllocationSite,
    message: Seq<char>,
) -> RelatedView {
    RelatedView {
        path: path_in(*context.sources, site.file),
        span: span_in(*context.sources, site.file, site.spec_range()),
        message,
    }
}

/// A related location pointing at a site.
pub fn related_site(context: &RuleContext<'_>, site: AllocationSite, message: String) -> (related:
    RelatedLocation)
    ensures
        related@ == related_at(*context, site, message@),
{
    RelatedLocation {
        path: context.sources.path(site.file),
        span: context.sources.span(site.file, site.range()),
        message,
    }
}

/// A diagnostic with one related location.
pub open spec fn with_related(report: DiagnosticView, related: RelatedView) -> DiagnosticView {
    DiagnosticView { related_locations: report.related_locations.push(related), ..report }
}

/// Adds a related location to a diagnostic.
pub fn add_related(diagnostic: &mut Diagnostic, related: RelatedLocation)
    ensures
        final(diagnostic)@ == with_related(old(diagnostic)@, related@),
{
    diagnostic.related_locations.push(related);
    assert(diagnostic@.related_locations =~= old(diagnostic)@.related_locations.push(related@));
}

/// Replacement of a byte range.
pub open spec fn edit_at(
    context: RuleContext<'_>,
    file: FileId,
    range: TextRange,
    replacement: Seq<char>,
) -> EditView {
    EditView {
        path: path_in(*context.sources, file),
        span: span_in(*context.sources, file, range),
        replacement,
    }
}

/// An edit that replaces a byte range.
pub fn text_edit(
    context: &RuleContext<'_>,
    file: FileId,
    range: TextRange,
    replacement: String,
) -> (edit: TextEdit)
    ensures
        edit@ == edit_at(*context, file, range, replacement@),
{
    TextEdit {
        path: context.sources.path(file),
        span: context.sources.span(file, range),
        replacement,
    }
}

} // verus!
