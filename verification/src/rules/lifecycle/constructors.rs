//! Constructor chain rule: `MLC128`.
//!
//! A project Scene subclass that defines `__init__` but never calls
//! `super().__init__()` leaves renderer / camera / file-writer state
//! unconfigured and fails at render time. The rule fires only on all-paths
//! absence with a fully linearized class chain.
use super::callbacks::{function_from, function_signature};
use super::structure::{find_method, method_from};
use crate::diagnostic::{
    push_found, report_of, reports, Confidence, Diagnostic, DiagnosticView, MetadataView,
    RuleMetadata, Severity,
};
use crate::frontend::{ClassRecord, ProjectIndex, QualifiedCall, ReceiverKind};
use crate::json::{json_text, json_texts, text_list, Evidence, EvidenceView, JsonView};
use crate::rules::base::{basic_report, build_diagnostic, Rule, RuleContext};
use crate::semantic::{Presence, SuperCallFact};
use crate::source::{slice_in, TextRange};
use crate::text::{cat3, contains_text, found, gather, has_part, same_text, texts};
use vstd::prelude::*;

verus! {

/// What [`MLC128`] declares.
pub open spec fn mlc128() -> MetadataView {
    MetadataView {
        id: "MLC128"@,
        summary: "Scene subclass __init__ never calls super().__init__()"@,
        default_enabled: true,
        default_severity: Severity::Error,
        minimum_confidence: Confidence::High,
        implementation_phase: 2,
        required_profiles: seq![],
        required_capabilities: seq!["lifecycle"@],
        supersedes: seq![],
    }
}

/// Metadata of rule `MLC128`.
#[allow(non_snake_case)]
pub fn MLC128() -> (metadata: &'static RuleMetadata)
    ensures
        metadata@ == mlc128(),
{
    let metadata: &'static RuleMetadata = &RuleMetadata {
        id: "MLC128",
        summary: "Scene subclass __init__ never calls super().__init__()",
        default_enabled: true,
        default_severity: Severity::Error,
        minimum_confidence: Confidence::High,
        implementation_phase: 2,
        required_profiles: &[],
        required_capabilities: &["lifecycle"],
        supersedes: &[],
    };
    assert(metadata@ =~= mlc128());
    metadata
}

/// A project Scene subclass whose own `__init__` calls `super().__init__()`
/// on no path.
///
/// Mobject subclasses have no recorded `super()` fact and are not checked.
pub struct MissingSuperInit;

pub const SUPER_INIT_END: &'static str = ".__init__` never calls `super().__init__()`: the Scene \
    base constructor (renderer, camera, file writer setup) is \
    skipped on every path and rendering fails. Add \
    `super().__init__(**kwargs)` first.";

pub const SUPER_INIT_WHY: &'static str = "`Scene.render` relies on state prepared by `Scene.__init__` \
    (renderer, camera, file writer; DESIGN §3.1). A subclass \
    `__init__` that never reaches the base constructor leaves that \
    state missing, and the scene fails as soon as it renders.";

/// The verdict on `super()` of the first fact, from `i` on, for a method.
pub open spec fn super_call_from(facts: Seq<SuperCallFact>, method: Seq<char>, i: int) -> Option<
    Presence,
>
    decreases facts.len() - i,
{
    if i < 0 || i >= facts.len() {
        None
    } else if facts[i].method@ == method {
        Some(facts[i].presence)
    } else {
        super_call_from(facts, method, i + 1)
    }
}

fn super_call(facts: &Vec<SuperCallFact>, method: &str) -> (presence: Option<Presence>)
    ensures
        presence == super_call_from(facts@, method@, 0),
{
    let mut i: usize = 0;
    while i < facts.len()
        invariant
            i <= facts@.len(),
            super_call_from(facts@, method@, 0) == super_call_from(facts@, method@, i as int),
        decreases facts@.len() - i,
    {
        if same_text(facts[i].method.as_str(), method) {
            return Some(facts[i].presence);
        }
        i += 1;
    }
    None
}

/// Whether a candidate of a call is a project function.
pub open spec fn calls_project(index: ProjectIndex, call: QualifiedCall) -> bool {
    exists|c: int|
        0 <= c < call.candidates@.len() && function_from(
            index.functions@,
            (#[trigger] call.candidates@[c])@,
            0,
        ) is Some
}

fn is_project_call(index: &ProjectIndex, call: &QualifiedCall) -> (is: bool)
    ensures
        is == calls_project(*index, *call),
{
    let mut c: usize = 0;
    while c < call.candidates.len()
        invariant
            c <= call.candidates@.len(),
            forall|d: int|
                0 <= d < c ==> function_from(
                    index.functions@,
                    (#[trigger] call.candidates@[d])@,
                    0,
                ) is None,
        decreases call.candidates@.len() - c,
    {
        if function_signature(&index.functions, call.candidates[c].as_str()).is_some() {
            return true;
        }
        c += 1;
    }
    false
}

/// Whether a call inside `range` of the class file runs a project method on
/// `self`.
pub open spec fn delegating(
    context: RuleContext<'_>,
    record: ClassRecord,
    range: TextRange,
    call: QualifiedCall,
) -> bool {
    call.file == record.file && range.covers(call.call_range) && call.receiver is SelfScene
        && calls_project(context.project_index, call)
}

/// Whether a method body delegates to a project method on `self`.
pub open spec fn delegates(
    context: RuleContext<'_>,
    record: ClassRecord,
    range: TextRange,
) -> bool {
    exists|i: int|
        0 <= i < context.qualified_calls.calls@.len() && delegating(
            context,
            record,
            range,
            #[trigger] context.qualified_calls.calls@[i],
        )
}

/// Whether the `__init__` body calls another method on `self` that the
/// project defines: such a helper could perform the base initialization, so
/// the rule stays silent.
fn delegates_to_project_method(
    context: &RuleContext<'_>,
    record: &ClassRecord,
    range: TextRange,
) -> (found: bool)
    ensures
        found == delegates(*context, *record, range),
{
    let calls = &context.qualified_calls.calls;
    let mut i: usize = 0;
    while i < calls.len()
        invariant
            i <= calls@.len(),
            calls@ == context.qualified_calls.calls@,
            forall|j: int|
                0 <= j < i ==> !delegating(
                    *context,
                    *record,
                    range,
                    #[trigger] context.qualified_calls.calls@[j],
                ),
        decreases calls@.len() - i,
    {
        let call = &calls[i];
        let on_self: bool = match &call.receiver {
            ReceiverKind::SelfScene => true,
            _ => false,
        };
        if call.file == record.file && range.encloses(call.call_range) && on_self
            && is_project_call(&context.project_index, call) {
            assert(delegating(
                *context,
                *record,
                range,
                context.qualified_calls.calls@[i as int],
            ));
            return true;
        }
        i += 1;
    }
    false
}

/// The finding for the scene at `i`. A legacy `super` call, a direct
/// `Base.__init__(...)` call, or delegation to a project method may
/// initialize the base, so each keeps the rule silent.
pub open spec fn super_init_at(context: RuleContext<'_>, i: int) -> Option<DiagnosticView> {
    let scene = context.lifecycle_facts.scenes@[i];
    match context.project_index.spec_class(scene.qualified_name@) {
        Some(record) => match method_from(record.methods@, "__init__"@, 0) {
            Some(range) => {
                let body = slice_in(*context.sources, record.file, range);
                if !scene.constructor_state_unknown && super_call_from(
                    scene.super_calls@,
                    "__init__"@,
                    0,
                ) == Some(Presence::Absent) && !contains_text(body, "super"@) && !contains_text(
                    body,
                    ".__init__("@,
                ) && !delegates(context, record, range) {
                    Some(
                        basic_report(
                            mlc128(),
                            context,
                            record.file,
                            range,
                            "`"@ + record.name@ + SUPER_INIT_END@,
                            SUPER_INIT_WHY@,
                            EvidenceView::empty().insert(
                                "super_init"@,
                                JsonView::Text("absent-on-all-paths"@),
                            ).insert("mro"@, text_list(texts(scene.mro@))),
                        ),
                    )
                } else {
                    None
                }
            },
            None => None,
        },
        None => None,
    }
}

fn super_init(context: &RuleContext<'_>, i: usize) -> (found: Option<Diagnostic>)
    requires
        i < context.lifecycle_facts.scenes@.len(),
    ensures
        report_of(found) == super_init_at(*context, i as int),
{
    let scene = &context.lifecycle_facts.scenes[i];
    // Unresolved or dynamic bases: the constructor state is unknown.
    if scene.constructor_state_unknown {
        return None;
    }
    let absent: bool = match super_call(&scene.super_calls, "__init__") {
        Some(presence) => presence == Presence::Absent,
        None => false,
    };
    if !absent {
        return None;
    }
    // Only the class that defines the `__init__` itself is reported, so a
    // subclass inheriting it does not repeat the diagnostic.
    let record = match context.project_index.class(scene.qualified_name.as_str()) {
        Some(record) => record,
        None => {
            return None;
        },
    };
    let range: TextRange = match find_method(&record.methods, "__init__") {
        Some(range) => range,
        None => {
            return None;
        },
    };
    let body: String = context.sources.slice(record.file, range);
    if has_part(body.as_str(), "super") || has_part(body.as_str(), ".__init__(") {
        return None;
    }
    if delegates_to_project_method(context, record, range) {
        return None;
    }
    let mut evidence = Evidence::new();
    evidence.insert("super_init", json_text("absent-on-all-paths"));
    evidence.insert("mro", json_texts(&scene.mro));
    Some(
        build_diagnostic(
            MLC128(),
            context,
            record.file,
            range,
            cat3("`", record.name.as_str(), SUPER_INIT_END),
            SUPER_INIT_WHY,
            evidence,
        ),
    )
}

/// Findings of [`MissingSuperInit`], scene by scene.
pub open spec fn super_init_finder(context: RuleContext<'_>) -> spec_fn(int) -> Seq<DiagnosticView> {
    |i: int| found(super_init_at(context, i))
}

impl Rule for MissingSuperInit {
    open spec fn declared(&self) -> MetadataView {
        mlc128()
    }

    open spec fn findings(&self, context: RuleContext<'_>) -> Seq<DiagnosticView> {
        gather(context.lifecycle_facts.scenes@.len() as int, super_init_finder(context))
    }

    fn metadata(&self) -> (metadata: &'static RuleMetadata) {
        MLC128()
    }

    fn run(&self, context: &RuleContext<'_>) -> (diagnostics: Vec<Diagnostic>) {
        let scenes = &context.lifecycle_facts.scenes;
        let mut diagnostics: Vec<Diagnostic> = Vec::new();
        let mut i: usize = 0;
        assert(reports(diagnostics@) =~= Seq::empty());
        while i < scenes.len()
            invariant
                i <= scenes@.len(),
                scenes@ == context.lifecycle_facts.scenes@,
                reports(diagnostics@) == gather(i as int, super_init_finder(*context)),
            decreases scenes@.len() - i,
        {
            push_found(&mut diagnostics, super_init(context, i));
            i += 1;
        }
        diagnostics
    }
}

} // verus!
