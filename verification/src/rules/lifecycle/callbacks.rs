//! `MLC123`: an `ApplyFunction` callback provably returns no mobject.
//!
//! `ApplyFunction.create_target()` calls `function(mobject.copy())` and uses
//! the return value as the transform target; a callback that returns `None`
//! (bare `return` or falling off the end) or a definite non-mobject breaks
//! the transform at play time. Lambdas are found by their exact source span,
//! named arguments by qualified name.
use super::support::{candidates_value, candidates_view, conclusive_target, target_of};
use crate::diagnostic::{
    push_found, report_of, reports, Confidence, Diagnostic, DiagnosticView, MetadataView,
    RuleMetadata, Severity,
};
use crate::frontend::{
    ArgShape, CallArgument, CallableSignature, FunctionRecord, Parameter, QualifiedCall,
};
use crate::json::{json_text, Evidence, EvidenceView, JsonView};
use crate::knowledge::qualified;
use crate::rules::base::{basic_report, build_diagnostic, Rule, RuleContext};
use crate::semantic::{function_return_in, lambda_return_in, ReturnFact, Truth};
use crate::source::{site_of, slice_in, AllocationSite};
use crate::text::{cat3, found, gather, same_text};
use vstd::prelude::*;

verus! {

/// Canonical id of the `ApplyFunction` animation class.
pub const APPLY_FUNCTION: &'static str = "manim.animation.transform.ApplyFunction";

/// What [`MLC123`] declares.
pub open spec fn mlc123() -> MetadataView {
    MetadataView {
        id: "MLC123"@,
        summary: "ApplyFunction callback returns no mobject on some path"@,
        default_enabled: true,
        default_severity: Severity::Error,
        minimum_confidence: Confidence::High,
        implementation_phase: 2,
        required_profiles: seq![],
        required_capabilities: seq!["qualified-calls"@, "lifecycle"@],
        supersedes: seq![],
    }
}

/// Metadata of rule `MLC123`.
#[allow(non_snake_case)]
pub fn MLC123() -> (metadata: &'static RuleMetadata)
    ensures
        metadata@ == mlc123(),
{
    let metadata: &'static RuleMetadata = &RuleMetadata {
        id: "MLC123",
        summary: "ApplyFunction callback returns no mobject on some path",
        default_enabled: true,
        default_severity: Severity::Error,
        minimum_confidence: Confidence::High,
        implementation_phase: 2,
        required_profiles: &[],
        required_capabilities: &["qualified-calls", "lifecycle"],
        supersedes: &[],
    };
    assert(metadata@ =~= mlc123());
    metadata
}

/// `ApplyFunction(callback, ...)` whose callback provably fails to return a
/// mobject on some normal return path.
pub struct ApplyFunctionCallbackNoMobject;

pub const NO_MOBJECT_END: &'static str = "; `ApplyFunction` uses the \
    callback's return value as the transform target, so the play \
    fails. Return the (mutated) mobject from every path.";

pub const NO_MOBJECT_WHY: &'static str = "`ApplyFunction.create_target()` calls `function(mobject.copy())` and \
    raises `TypeError` unless the function returns a Mobject \
    (transform.py `ApplyFunction.create_target`). A callback that \
    mutates its argument but returns `None` — or returns a definite \
    non-mobject such as an Animation — breaks the transform the moment \
    the play begins.";

pub const BARE_RETURN: &'static str = "returns nothing on some path (a bare `return` yields `None`)";

pub const FALLS_OFF: &'static str = "falls off the end without a `return` statement (yielding `None`)";

pub const NON_MOBJECT_VALUE: &'static str = "provably returns a non-mobject value";

/// Whether two signatures declare the same parameters.
pub open spec fn same_signature(a: CallableSignature, b: CallableSignature) -> bool {
    a.params@.len() == b.params@.len() && forall|i: int|
        0 <= i < a.params@.len() ==> same_parameter(#[trigger] a.params@[i], b.params@[i])
}

pub open spec fn same_parameter(a: Parameter, b: Parameter) -> bool {
    a.name@ == b.name@ && a.kind == b.kind && a.has_default == b.has_default
}

fn signatures_equal(a: &CallableSignature, b: &CallableSignature) -> (same: bool)
    ensures
        same == same_signature(*a, *b),
{
    if a.params.len() != b.params.len() {
        return false;
    }
    let mut i: usize = 0;
    while i < a.params.len()
        invariant
            i <= a.params@.len(),
            a.params@.len() == b.params@.len(),
            forall|j: int| 0 <= j < i ==> same_parameter(#[trigger] a.params@[j], b.params@[j]),
        decreases a.params@.len() - i,
    {
        let x = &a.params[i];
        let y = &b.params[i];
        if !same_text(x.name.as_str(), y.name.as_str()) || x.kind != y.kind || x.has_default
            != y.has_default {
            assert(!same_parameter(a.params@[i as int], b.params@[i as int]));
            return false;
        }
        i += 1;
    }
    true
}

/// The first function, from `i` on, with this id.
pub open spec fn function_from(functions: Seq<FunctionRecord>, id: Seq<char>, i: int) -> Option<
    CallableSignature,
>
    decreases functions.len() - i,
{
    if i < 0 || i >= functions.len() {
        None
    } else if functions[i].id@ == id {
        Some(functions[i].signature)
    } else {
        function_from(functions, id, i + 1)
    }
}

/// The signature of the project function with this id.
pub fn function_signature<'f>(functions: &'f Vec<FunctionRecord>, id: &str) -> (signature: Option<
    &'f CallableSignature,
>)
    ensures
        match signature {
            Some(found) => function_from(functions@, id@, 0) == Some(*found),
            None => function_from(functions@, id@, 0) is None,
        },
{
    let mut i: usize = 0;
    while i < functions.len()
        invariant
            i <= functions@.len(),
            function_from(functions@, id@, 0) == function_from(functions@, id@, i as int),
        decreases functions@.len() - i,
    {
        if same_text(functions[i].id.as_str(), id) {
            return Some(&functions[i].signature);
        }
        i += 1;
    }
    None
}

/// The callback argument: the `function` keyword, or the first positional
/// argument when no splat can shift it.
pub open spec fn function_argument(call: QualifiedCall) -> Option<CallArgument> {
    match call.spec_keyword("function"@) {
        Some(argument) => Some(argument),
        None => if call.has_star_args {
            None
        } else {
            call.spec_positional(0)
        },
    }
}

fn callback_argument(call: &QualifiedCall) -> (argument: Option<&CallArgument>)
    ensures
        match argument {
            Some(found) => function_argument(*call) == Some(*found),
            None => function_argument(*call) is None,
        },
{
    if let Some(argument) = call.keyword("function") {
        return Some(argument);
    }
    if call.has_star_args {
        None
    } else {
        call.positional(0)
    }
}

/// What the callback returns, and how it was found. A name counts only when
/// the indexed signature of the qualified name is that of the argument, so a
/// shadowing nested function never borrows the wrong fact.
pub open spec fn callback_fact(
    context: RuleContext<'_>,
    call: QualifiedCall,
    argument: CallArgument,
) -> Option<(ReturnFact, Seq<char>)> {
    let facts = context.lifecycle_facts.callback_returns;
    match argument.shape {
        ArgShape::Lambda => match lambda_return_in(
            facts.lambdas@,
            site_of(call.file, argument.range),
        ) {
            Some(fact) => Some((fact, "lambda"@)),
            None => None,
        },
        ArgShape::Name => {
            let id = qualified(
                call.context.module@,
                slice_in(*context.sources, call.file, argument.range),
            );
            match (
                argument.callable_signature,
                function_from(context.project_index.functions@, id, 0),
                function_return_in(facts.functions@, id),
            ) {
                (Some(signature), Some(indexed), Some(fact)) => if same_signature(
                    indexed,
                    signature,
                ) {
                    Some((fact, "function"@))
                } else {
                    None
                },
                _ => None,
            }
        },
        _ => None,
    }
}

fn find_callback_fact(
    context: &RuleContext<'_>,
    call: &QualifiedCall,
    argument: &CallArgument,
) -> (found: Option<(ReturnFact, &'static str)>)
    ensures
        match found {
            Some((fact, kind)) => callback_fact(*context, *call, *argument) == Some((fact, kind@)),
            None => callback_fact(*context, *call, *argument) is None,
        },
{
    let facts = &context.lifecycle_facts.callback_returns;
    match &argument.shape {
        ArgShape::Lambda => match facts.lambda_at(
            AllocationSite::new(call.file, argument.range),
        ) {
            Some(fact) => Some((fact, "lambda")),
            None => None,
        },
        ArgShape::Name => {
            let signature = match &argument.callable_signature {
                Some(signature) => signature,
                None => {
                    return None;
                },
            };
            let name: String = context.sources.slice(call.file, argument.range);
            let id: String = cat3(call.context.module.as_str(), ".", name.as_str());
            let indexed = match function_signature(&context.project_index.functions, id.as_str()) {
                Some(indexed) => indexed,
                None => {
                    return None;
                },
            };
            if !signatures_equal(indexed, signature) {
                return None;
            }
            match facts.function(id.as_str()) {
                Some(fact) => Some((fact, "function")),
                None => None,
            }
        },
        _ => None,
    }
}

/// The proven defect, phrased for the message.
pub open spec fn reason_of(fact: ReturnFact) -> Seq<char> {
    if fact.has_bare_return_path == Truth::Yes {
        BARE_RETURN@
    } else if fact.has_no_return_path == Truth::Yes {
        FALLS_OFF@
    } else {
        NON_MOBJECT_VALUE@
    }
}

fn failure_reason(fact: ReturnFact) -> (reason: &'static str)
    ensures
        reason@ == reason_of(fact),
{
    if fact.has_bare_return_path == Truth::Yes {
        BARE_RETURN
    } else if fact.has_no_return_path == Truth::Yes {
        FALLS_OFF
    } else {
        NON_MOBJECT_VALUE
    }
}

/// Lowercase label of a truth value.
pub open spec fn truth_text(value: Truth) -> Seq<char> {
    match value {
        Truth::Yes => "yes"@,
        Truth::No => "no"@,
        Truth::Maybe => "maybe"@,
    }
}

fn truth_label(value: Truth) -> (label: &'static str)
    ensures
        label@ == truth_text(value),
{
    match value {
        Truth::Yes => "yes",
        Truth::No => "no",
        Truth::Maybe => "maybe",
    }
}

/// The finding for the call at `i`.
pub open spec fn no_mobject_at(context: RuleContext<'_>, i: int) -> Option<DiagnosticView> {
    let call = context.qualified_calls.calls@[i];
    match (context.knowledge, function_argument(call)) {
        (Some(profile), Some(argument)) => match callback_fact(context, call, argument) {
            Some((fact, kind)) => if target_of(*profile, context.project_index, call) == Some(
                APPLY_FUNCTION@,
            ) && fact.returns_mobject == Truth::No {
                Some(
                    basic_report(
                        mlc123(),
                        context,
                        call.file,
                        argument.range,
                        "This `ApplyFunction` callback "@ + reason_of(fact) + NO_MOBJECT_END@,
                        NO_MOBJECT_WHY@,
                        EvidenceView::empty().insert(
                            "resolved"@,
                            JsonView::Text(APPLY_FUNCTION@),
                        ).insert("candidates"@, candidates_view(call)).insert(
                            "callback"@,
                            JsonView::Text(kind),
                        ).insert("returns_mobject"@, JsonView::Text("no"@)).insert(
                            "bare_return_path"@,
                            JsonView::Text(truth_text(fact.has_bare_return_path)),
                        ).insert(
                            "fall_off_end_path"@,
                            JsonView::Text(truth_text(fact.has_no_return_path)),
                        ),
                    ),
                )
            } else {
                None
            },
            None => None,
        },
        _ => None,
    }
}

fn no_mobject(context: &RuleContext<'_>, i: usize) -> (found: Option<Diagnostic>)
    requires
        i < context.qualified_calls.calls@.len(),
    ensures
        report_of(found) == no_mobject_at(*context, i as int),
{
    let call = &context.qualified_calls.calls[i];
    let profile = match context.knowledge {
        Some(profile) => profile,
        None => {
            return None;
        },
    };
    let canonical: String = match conclusive_target(profile, &context.project_index, call) {
        Some((canonical, _)) => canonical,
        None => {
            return None;
        },
    };
    if !same_text(canonical.as_str(), APPLY_FUNCTION) {
        return None;
    }
    let argument = match callback_argument(call) {
        Some(argument) => argument,
        None => {
            return None;
        },
    };
    let (fact, kind) = match find_callback_fact(context, call, argument) {
        Some(found) => found,
        None => {
            return None;
        },
    };
    if fact.returns_mobject != Truth::No {
        return None;
    }
    let mut evidence = Evidence::new();
    evidence.insert("resolved", json_text(canonical.as_str()));
    evidence.insert("candidates", candidates_value(call));
    evidence.insert("callback", json_text(kind));
    evidence.insert("returns_mobject", json_text("no"));
    evidence.insert("bare_return_path", json_text(truth_label(fact.has_bare_return_path)));
    evidence.insert("fall_off_end_path", json_text(truth_label(fact.has_no_return_path)));
    Some(
        build_diagnostic(
            MLC123(),
            context,
            call.file,
            argument.range,
            cat3("This `ApplyFunction` callback ", failure_reason(fact), NO_MOBJECT_END),
            NO_MOBJECT_WHY,
            evidence,
        ),
    )
}

/// Findings of [`ApplyFunctionCallbackNoMobject`], call by call.
pub open spec fn no_mobject_finder(context: RuleContext<'_>) -> spec_fn(int) -> Seq<DiagnosticView> {
    |i: int| found(no_mobject_at(context, i))
}

impl Rule for ApplyFunctionCallbackNoMobject {
    open spec fn declared(&self) -> MetadataView {
        mlc123()
    }

    open spec fn findings(&self, context: RuleContext<'_>) -> Seq<DiagnosticView> {
        gather(context.qualified_calls.calls@.len() as int, no_mobject_finder(context))
    }

    fn metadata(&self) -> (metadata: &'static RuleMetadata) {
        MLC123()
    }

    fn run(&self, context: &RuleContext<'_>) -> (diagnostics: Vec<Diagnostic>) {
        let calls = &context.qualified_calls.calls;
        let mut diagnostics: Vec<Diagnostic> = Vec::new();
        let mut i: usize = 0;
        assert(reports(diagnostics@) =~= Seq::empty());
        while i < calls.len()
            invariant
                i <= calls@.len(),
                calls@ == context.qualified_calls.calls@,
                reports(diagnostics@) == gather(i as int, no_mobject_finder(*context)),
            decreases calls@.len() - i,
        {
            push_found(&mut diagnostics, no_mobject(context, i));
            i += 1;
        }
        diagnostics
    }
}

} // verus!
