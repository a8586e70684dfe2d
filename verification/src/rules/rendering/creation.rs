//! `MLR101`: Create/Uncreate/Write/Unwrite/DrawBorderThenFill on a confirmed
//! non-VMobject target.
use super::support::{all_plain, candidates_plain, single_knowledge_symbol, single_symbol};
use crate::diagnostic::{
    push_found, report_of, reports, Confidence, Diagnostic, DiagnosticView, MetadataView,
    RuleMetadata, Severity,
};
use crate::frontend::{ArgShape, CallArgument, QualifiedCall};
use crate::json::{json_text, json_texts, text_list, Evidence, EvidenceView, JsonView};
use crate::knowledge::{AcceptedTarget, KnowledgeProfile, SymbolKind};
use crate::rules::base::{basic_report, build_diagnostic, Rule, RuleContext};
use crate::source::slice_in;
use crate::text::{cat3, cat4, found, gather, join, joined, last_segment, short_name, texts};
use vstd::prelude::*;

verus! {

/// What [`MLR101`] declares.
pub open spec fn mlr101() -> MetadataView {
    MetadataView {
        id: "MLR101"@,
        summary: "Create/Write-style animations require a vectorized (VMobject) target"@,
        default_enabled: true,
        default_severity: Severity::Error,
        minimum_confidence: Confidence::High,
        implementation_phase: 1,
        required_profiles: seq![],
        required_capabilities: seq!["qualified-calls"@],
        supersedes: seq![],
    }
}

/// Metadata of rule `MLR101`.
#[allow(non_snake_case)]
pub fn MLR101() -> (metadata: &'static RuleMetadata)
    ensures
        metadata@ == mlr101(),
{
    let metadata: &'static RuleMetadata = &RuleMetadata {
        id: "MLR101",
        summary: "Create/Write-style animations require a vectorized (VMobject) target",
        default_enabled: true,
        default_severity: Severity::Error,
        minimum_confidence: Confidence::High,
        implementation_phase: 1,
        required_profiles: &[],
        required_capabilities: &["qualified-calls"],
        supersedes: &[],
    };
    assert(metadata@ =~= mlr101());
    metadata
}

/// A creation animation on a literal or a plain mobject.
pub struct NonVmobjectCreationTarget;

pub const NEEDS_VMOBJECT: &'static str = "()` requires a vectorized mobject (VMobject); this target is ";

pub const NEEDS_VMOBJECT_WHY: &'static str = "Create-style animations draw the Bézier outline of a VMobject. \
    A plain Mobject (e.g. ImageMobject or a bare Mobject) has no such \
    curves, so Manim raises a TypeError when the animation begins.";

/// Classes the value of an argument can have.
pub open spec fn value_classes(context: RuleContext<'_>, argument: CallArgument) -> Option<
    Seq<String>,
> {
    match argument.shape {
        ArgShape::Call(inner) => if inner < context.qualified_calls.calls@.len() {
            Some(context.qualified_calls.calls@[inner as int].candidates@)
        } else {
            None
        },
        ArgShape::Name => Some(argument.kind_candidates@),
        _ => None,
    }
}

fn classes_of_value<'c>(context: &'c RuleContext<'_>, argument: &'c CallArgument) -> (classes: Option<
    &'c Vec<String>,
>)
    ensures
        match classes {
            Some(found) => value_classes(*context, *argument) == Some(found@),
            None => value_classes(*context, *argument) is None,
        },
{
    match &argument.shape {
        ArgShape::Call(inner) => if *inner < context.qualified_calls.calls.len() {
            Some(&context.qualified_calls.calls[*inner].candidates)
        } else {
            None
        },
        ArgShape::Name => Some(&argument.kind_candidates),
        _ => None,
    }
}

/// Short names of a list of classes.
pub open spec fn short_names(classes: Seq<String>) -> Seq<Seq<char>> {
    Seq::new(classes.len(), |i: int| last_segment(classes[i]@))
}

fn shorten(classes: &Vec<String>) -> (names: Vec<String>)
    ensures
        texts(names@) == short_names(classes@),
{
    let mut names: Vec<String> = Vec::new();
    let mut i: usize = 0;
    while i < classes.len()
        invariant
            i <= classes@.len(),
            names@.len() == i,
            forall|j: int| 0 <= j < i ==> (#[trigger] names@[j])@ == last_segment(classes@[j]@),
        decreases classes@.len() - i,
    {
        names.push(short_name(classes[i].as_str()));
        i += 1;
    }
    assert(texts(names@) =~= short_names(classes@));
    names
}

/// How a target that is no VMobject is described, with its classes.
pub open spec fn plain_target(
    context: RuleContext<'_>,
    profile: KnowledgeProfile,
    call: QualifiedCall,
    argument: CallArgument,
) -> Option<(Seq<char>, Seq<Seq<char>>)> {
    if argument.literal is Some {
        Some(
            (
                "the literal `"@ + slice_in(*context.sources, call.file, argument.range) + "`"@,
                Seq::empty(),
            ),
        )
    } else {
        match value_classes(context, argument) {
            Some(classes) => if all_plain(profile, context.project_index, classes) {
                Some(
                    (
                        "a plain (non-vectorized) `"@ + joined(short_names(classes), "` / `"@)
                            + "`"@,
                        texts(classes),
                    ),
                )
            } else {
                None
            },
            None => None,
        }
    }
}

fn describe_target(
    context: &RuleContext<'_>,
    profile: &KnowledgeProfile,
    call: &QualifiedCall,
    argument: &CallArgument,
) -> (target: Option<(String, Vec<String>)>)
    ensures
        match target {
            Some((described, kinds)) => plain_target(*context, *profile, *call, *argument) == Some(
                (described@, texts(kinds@)),
            ),
            None => plain_target(*context, *profile, *call, *argument) is None,
        },
{
    if argument.literal.is_some() {
        let text: String = context.sources.slice(call.file, argument.range);
        let kinds: Vec<String> = Vec::new();
        assert(texts(kinds@) =~= Seq::empty());
        return Some((cat3("the literal `", text.as_str(), "`"), kinds));
    }
    let classes = match classes_of_value(context, argument) {
        Some(classes) => classes,
        None => {
            return None;
        },
    };
    if !candidates_plain(profile, &context.project_index, classes) {
        return None;
    }
    let names: String = join(&shorten(classes), "` / `");
    Some(
        (
            cat3("a plain (non-vectorized) `", names.as_str(), "`"),
            crate::text::copy_texts(classes),
        ),
    )
}

/// The finding for the call at `i`.
pub open spec fn creation_at(context: RuleContext<'_>, i: int) -> Option<DiagnosticView> {
    let call = context.qualified_calls.calls@[i];
    match context.knowledge {
        Some(profile) => match (
            single_symbol(*profile, call.candidates@),
            call.spec_positional(0),
        ) {
            (Some(entry), Some(argument)) => match plain_target(
                context,
                *profile,
                call,
                argument,
            ) {
                Some((described, kinds)) => if entry.kind == SymbolKind::Animation
                    && entry.accepted_target == Some(AcceptedTarget::Vmobject) {
                    Some(
                        basic_report(
                            mlr101(),
                            context,
                            call.file,
                            argument.range,
                            "`"@ + last_segment(call.candidates@[0]@) + NEEDS_VMOBJECT@
                                + described,
                            NEEDS_VMOBJECT_WHY@,
                            EvidenceView::empty().insert(
                                "animation"@,
                                JsonView::Text(call.candidates@[0]@),
                            ).insert("target_kinds"@, text_list(kinds)),
                        ),
                    )
                } else {
                    None
                },
                None => None,
            },
            _ => None,
        },
        None => None,
    }
}

fn creation(context: &RuleContext<'_>, i: usize) -> (found: Option<Diagnostic>)
    requires
        i < context.qualified_calls.calls@.len(),
    ensures
        report_of(found) == creation_at(*context, i as int),
{
    let call = &context.qualified_calls.calls[i];
    let profile = match context.knowledge {
        Some(profile) => profile,
        None => {
            return None;
        },
    };
    let entry = match single_knowledge_symbol(profile, &call.candidates) {
        Some(entry) => entry,
        None => {
            return None;
        },
    };
    let needs_vmobject: bool = match entry.accepted_target {
        Some(target) => target == AcceptedTarget::Vmobject,
        None => false,
    };
    if entry.kind != SymbolKind::Animation || !needs_vmobject {
        return None;
    }
    let argument = match call.positional(0) {
        Some(argument) => argument,
        None => {
            return None;
        },
    };
    let (described, kinds) = match describe_target(context, profile, call, argument) {
        Some(target) => target,
        None => {
            return None;
        },
    };
    let animation: String = short_name(call.candidates[0].as_str());
    let mut evidence = Evidence::new();
    evidence.insert("animation", json_text(call.candidates[0].as_str()));
    evidence.insert("target_kinds", json_texts(&kinds));
    Some(
        build_diagnostic(
            MLR101(),
            context,
            call.file,
            argument.range,
            cat4("`", animation.as_str(), NEEDS_VMOBJECT, described.as_str()),
            NEEDS_VMOBJECT_WHY,
            evidence,
        ),
    )
}

/// Findings of [`NonVmobjectCreationTarget`], call by call.
pub open spec fn creation_finder(context: RuleContext<'_>) -> spec_fn(int) -> Seq<DiagnosticView> {
    |i: int| found(creation_at(context, i))
}

impl Rule for NonVmobjectCreationTarget {
    open spec fn declared(&self) -> MetadataView {
        mlr101()
    }

    open spec fn findings(&self, context: RuleContext<'_>) -> Seq<DiagnosticView> {
        gather(context.qualified_calls.calls@.len() as int, creation_finder(context))
    }

    fn metadata(&self) -> (metadata: &'static RuleMetadata) {
        MLR101()
    }

    fn run(&self, context: &RuleContext<'_>) -> (diagnostics: Vec<Diagnostic>) {
        let calls = &context.qualified_calls.calls;
        let mut diagnostics: Vec<Diagnostic> = Vec::new();
        let mut i: usize = 0;
        assert(reports(diagnostics@) =~= Seq::empty());
        while i < calls.len()
            invariant
                i <= calls@.len(),
                calls@ == context.qualified_calls.calls@,
                reports(diagnostics@) == gather(i as int, creation_finder(*context)),
            decreases calls@.len() - i,
        {
            push_found(&mut diagnostics, creation(context, i));
            i += 1;
        }
        diagnostics
    }
}

} // verus!
