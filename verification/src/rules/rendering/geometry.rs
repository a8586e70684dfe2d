//! `MLR106`: literal NaN / inf flowing into mobject geometry.
use super::support::{
    method_of_call, resolved_method_for_call, single_knowledge_symbol, single_symbol,
};
use crate::diagnostic::{
    push_all, push_found, report_of, reports, Confidence, Diagnostic, DiagnosticView, MetadataView,
    RuleMetadata, Severity,
};
use crate::frontend::{
    ArgShape, CallArgument, FileBindingFacts, LiteralFact, QualifiedCall, ReceiverKind,
};
use crate::json::{json_text, Evidence, EvidenceView, JsonView};
use crate::knowledge::{KnowledgeProfile, SymbolKind};
use crate::rules::base::{basic_report, build_diagnostic, Rule, RuleContext};
use crate::source::{slice_in, FileId};
use crate::text::{
    ascii_lowered, cat2, cat3, found, gather, last_segment, lowers_to, same_text, short_name, texts,
    trim, trimmed,
};
use vstd::prelude::*;

verus! {

/// What [`MLR106`] declares.
pub open spec fn mlr106() -> MetadataView {
    MetadataView {
        id: "MLR106"@,
        summary: "Literal NaN/inf flows into mobject geometry"@,
        default_enabled: true,
        default_severity: Severity::Error,
        minimum_confidence: Confidence::High,
        implementation_phase: 1,
        required_profiles: seq![],
        required_capabilities: seq!["qualified-calls"@],
        supersedes: seq![],
    }
}

/// Metadata of rule `MLR106`.
#[allow(non_snake_case)]
pub fn MLR106() -> (metadata: &'static RuleMetadata)
    ensures
        metadata@ == mlr106(),
{
    let metadata: &'static RuleMetadata = &RuleMetadata {
        id: "MLR106",
        summary: "Literal NaN/inf flows into mobject geometry",
        default_enabled: true,
        default_severity: Severity::Error,
        minimum_confidence: Confidence::High,
        implementation_phase: 1,
        required_profiles: &[],
        required_capabilities: &["qualified-calls"],
        supersedes: &[],
    };
    assert(metadata@ =~= mlr106());
    metadata
}

/// A NaN or an infinity passed to a constructor or geometry method.
pub struct NonFiniteGeometryLiteral;

pub const NON_FINITE_END: &'static str = "` puts a \
    non-finite value into the mobject's geometry";

pub const NON_FINITE_WHY: &'static str = "NaN and infinity propagate through the points array: bounding \
    boxes, alignment, and camera transforms all become non-finite, \
    so the mobject disappears or the renderer crashes with no \
    obvious source location.";

/// A confirmed geometry sink.
pub struct NonFiniteGeometryTarget {
    pub display: String,
    pub canonical: String,
}

/// Curated methods whose arguments are geometry (positions, factors, angles,
/// buffers).
pub open spec fn geometry_method(method: Seq<char>) -> bool {
    method == "move_to"@ || method == "next_to"@ || method == "rotate"@ || method == "scale"@
        || method == "shift"@ || method == "to_edge"@
}

fn is_geometry_method(method: &str) -> (is: bool)
    ensures
        is == geometry_method(method@),
{
    same_text(method, "move_to") || same_text(method, "next_to") || same_text(method, "rotate")
        || same_text(method, "scale") || same_text(method, "shift") || same_text(
        method,
        "to_edge",
    )
}

/// Display and canonical name of the geometry sink a call is: a curated
/// mobject constructor, or a geometry method on a known instance.
pub open spec fn geometry_target(profile: KnowledgeProfile, call: QualifiedCall) -> Option<
    (Seq<char>, Seq<char>),
> {
    let constructs = match single_symbol(profile, call.candidates@) {
        Some(entry) => entry.kind == SymbolKind::Mobject || entry.kind == SymbolKind::Vmobject,
        None => false,
    };
    if constructs {
        Some((last_segment(call.candidates@[0]@) + "()"@, call.candidates@[0]@))
    } else if call.receiver is KnownInstance {
        match method_of_call(profile, texts(call.candidates@)) {
            Some(canonical) => if geometry_method(last_segment(canonical)) {
                Some(("."@ + last_segment(canonical) + "()"@, canonical))
            } else {
                None
            },
            None => None,
        }
    } else {
        None
    }
}

/// The confirmed geometry sink of a call, if any.
fn nonfinite_rule_target(profile: &KnowledgeProfile, call: &QualifiedCall) -> (target: Option<
    NonFiniteGeometryTarget,
>)
    ensures
        match target {
            Some(found) => geometry_target(*profile, *call) == Some(
                (found.display@, found.canonical@),
            ),
            None => geometry_target(*profile, *call) is None,
        },
{
    if let Some(entry) = single_knowledge_symbol(profile, &call.candidates) {
        if entry.kind == SymbolKind::Mobject || entry.kind == SymbolKind::Vmobject {
            return Some(
                NonFiniteGeometryTarget {
                    display: cat2(short_name(call.candidates[0].as_str()).as_str(), "()"),
                    canonical: call.candidates[0].clone(),
                },
            );
        }
        // A directly curated method id falls through to method resolution.
    }
    let instance: bool = match &call.receiver {
        ReceiverKind::KnownInstance(_) => true,
        _ => false,
    };
    if !instance {
        return None;
    }
    match resolved_method_for_call(profile, call) {
        Some(canonical) => {
            let method: String = short_name(canonical.as_str());
            if is_geometry_method(method.as_str()) {
                Some(
                    NonFiniteGeometryTarget {
                        display: cat3(".", method.as_str(), "()"),
                        canonical,
                    },
                )
            } else {
                None
            }
        },
        None => None,
    }
}

/// What a dotted path of the `math` module stands for.
pub open spec fn math_value(path: Seq<char>) -> Option<Seq<char>> {
    if path == "math.inf"@ {
        Some("infinity"@)
    } else if path == "math.nan"@ {
        Some("NaN"@)
    } else {
        None
    }
}

fn math_kind(path: &str) -> (kind: Option<&'static str>)
    ensures
        match kind {
            Some(found) => math_value(path@) == Some(found@),
            None => math_value(path@) is None,
        },
{
    if same_text(path, "math.inf") {
        Some("infinity")
    } else if same_text(path, "math.nan") {
        Some("NaN")
    } else {
        None
    }
}

/// The text without one leading sign.
pub open spec fn unsigned_text(text: Seq<char>) -> Seq<char> {
    if text.len() > 0 && (text[0] == '+' || text[0] == '-') {
        text.skip(1)
    } else {
        text
    }
}

/// What `float` makes of a text, when that is not finite: a sign, then
/// `nan`, `inf`, or `infinity` in any case, with white space around it.
pub open spec fn float_value(text: Seq<char>) -> Option<Seq<char>> {
    let word = ascii_lowered(unsigned_text(trimmed(text)));
    if word == "nan"@ {
        Some("NaN"@)
    } else if word == "inf"@ || word == "infinity"@ {
        Some("infinity"@)
    } else {
        None
    }
}

/// Classifies the string accepted by builtin `float` as NaN / infinity.
fn nonfinite_float_literal(value: &str) -> (kind: Option<&'static str>)
    ensures
        match kind {
            Some(found) => float_value(value@) == Some(found@),
            None => float_value(value@) is None,
        },
{
    let text: String = trim(value);
    let len: usize = text.as_str().unicode_len();
    let signed: bool = len > 0 && (text.as_str().get_char(0) == '+' || text.as_str().get_char(0)
        == '-');
    let word: String = if signed {
        assert(text@.skip(1) =~= text@.subrange(1, len as int));
        text.as_str().substring_char(1, len).to_owned()
    } else {
        text.clone()
    };
    assert(word@ == unsigned_text(trimmed(value@)));
    if lowers_to(word.as_str(), "nan") {
        Some("NaN")
    } else if lowers_to(word.as_str(), "inf") || lowers_to(word.as_str(), "infinity") {
        Some("infinity")
    } else {
        None
    }
}

/// Whether a call is the builtin `float` with one positional argument.
pub open spec fn builtin_float(
    context: RuleContext<'_>,
    file: FileId,
    inner: QualifiedCall,
    bindings: FileBindingFacts,
) -> bool {
    bindings.spec_unshadowed("float"@) && inner.candidates@.len() == 0 && inner.receiver is Direct
        && slice_in(*context.sources, file, inner.callee_range) == "float"@
        && !inner.has_star_args && inner.positional_count == 1 && inner.keyword_names@.len() == 0
        && !inner.has_star_star_kwargs
}

/// What a call of the builtin `float` over a literal yields, when that is
/// not finite.
pub open spec fn float_call_value(
    context: RuleContext<'_>,
    file: FileId,
    inner: QualifiedCall,
    bindings: FileBindingFacts,
) -> Option<Seq<char>> {
    match inner.spec_positional(0) {
        Some(argument) => match argument.literal {
            Some(LiteralFact::Str { value, prefix, range: _ }) => if builtin_float(
                context,
                file,
                inner,
                bindings,
            ) && !prefix.bytes {
                float_value(value@)
            } else {
                None
            },
            _ => None,
        },
        None => None,
    }
}

/// Whether an inner call is the builtin `float(...)` over a non-finite
/// string literal (`float("nan")`, `float("-inf")`, case-insensitive).
fn nonfinite_float_call(
    context: &RuleContext<'_>,
    file: FileId,
    inner: &QualifiedCall,
    bindings: &FileBindingFacts,
) -> (kind: Option<&'static str>)
    ensures
        match kind {
            Some(found) => float_call_value(*context, file, *inner, *bindings) == Some(found@),
            None => float_call_value(*context, file, *inner, *bindings) is None,
        },
{
    let direct: bool = match &inner.receiver {
        ReceiverKind::Direct => true,
        _ => false,
    };
    if !bindings.is_unshadowed_bare("float") || inner.candidates.len() != 0 || !direct
        || inner.has_star_args || inner.positional_count != 1 || inner.keyword_names.len() != 0
        || inner.has_star_star_kwargs {
        return None;
    }
    let callee: String = context.sources.slice(file, inner.callee_range);
    if !same_text(callee.as_str(), "float") {
        return None;
    }
    let argument = match inner.positional(0) {
        Some(argument) => argument,
        None => {
            return None;
        },
    };
    match &argument.literal {
        Some(LiteralFact::Str { value, prefix, range: _ }) => if prefix.bytes {
            None
        } else {
            nonfinite_float_literal(value.as_str())
        },
        _ => None,
    }
}

/// What an argument is confirmed to be, when that is not finite.
pub open spec fn argument_value(
    context: RuleContext<'_>,
    file: FileId,
    bindings: FileBindingFacts,
    argument: CallArgument,
) -> Option<Seq<char>> {
    match argument.shape {
        ArgShape::Call(inner) => if inner < context.qualified_calls.calls@.len() {
            float_call_value(
                context,
                file,
                context.qualified_calls.calls@[inner as int],
                bindings,
            )
        } else {
            None
        },
        ArgShape::Attribute(reference) => if reference.candidates@.len() == 1 {
            math_value(reference.candidates@[0]@)
        } else {
            None
        },
        ArgShape::Name => match bindings.spec_import_target(
            slice_in(*context.sources, file, argument.range),
        ) {
            Some(target) => math_value(target),
            None => None,
        },
        _ => None,
    }
}

/// Classifies one argument value as a confirmed non-finite literal.
fn nonfinite_argument(
    context: &RuleContext<'_>,
    file: FileId,
    bindings: &FileBindingFacts,
    argument: &CallArgument,
) -> (kind: Option<&'static str>)
    ensures
        match kind {
            Some(found) => argument_value(*context, file, *bindings, *argument) == Some(found@),
            None => argument_value(*context, file, *bindings, *argument) is None,
        },
{
    match &argument.shape {
        ArgShape::Call(inner) => if *inner < context.qualified_calls.calls.len() {
            nonfinite_float_call(
                context,
                file,
                &context.qualified_calls.calls[*inner],
                bindings,
            )
        } else {
            None
        },
        ArgShape::Attribute(reference) => if reference.candidates.len() == 1 {
            math_kind(reference.candidates[0].as_str())
        } else {
            None
        },
        ArgShape::Name => {
            let name: String = context.sources.slice(file, argument.range);
            match bindings.import_target(name.as_str()) {
                Some(target) => math_kind(target.as_str()),
                None => None,
            }
        },
        _ => None,
    }
}

/// The finding for the argument at `k`. A `**kwargs` splat stands for no
/// value.
pub open spec fn non_finite_finding(
    context: RuleContext<'_>,
    call: QualifiedCall,
    target: (Seq<char>, Seq<char>),
    bindings: FileBindingFacts,
    k: int,
) -> Option<DiagnosticView> {
    let argument = call.arguments@[k];
    let written = slice_in(*context.sources, call.file, argument.range);
    match argument_value(context, call.file, bindings, argument) {
        Some(kind) => if argument.keyword is None && k >= call.positional_count {
            None
        } else {
            Some(
                basic_report(
                    mlr106(),
                    context,
                    call.file,
                    argument.range,
                    "`"@ + written + "` is "@ + kind + "; passing it to `"@ + target.0
                        + NON_FINITE_END@,
                    NON_FINITE_WHY@,
                    EvidenceView::empty().insert("target"@, JsonView::Text(target.1)).insert(
                        "value"@,
                        JsonView::Text(kind),
                    ).insert("expression"@, JsonView::Text(written)),
                ),
            )
        },
        None => None,
    }
}

fn check_non_finite(
    context: &RuleContext<'_>,
    call: &QualifiedCall,
    target: &NonFiniteGeometryTarget,
    bindings: &FileBindingFacts,
    k: usize,
) -> (found: Option<Diagnostic>)
    requires
        k < call.arguments@.len(),
    ensures
        report_of(found) == non_finite_finding(
            *context,
            *call,
            (target.display@, target.canonical@),
            *bindings,
            k as int,
        ),
{
    let argument = &call.arguments[k];
    if argument.keyword.is_none() && k >= call.positional_count {
        return None;
    }
    let kind: &'static str = match nonfinite_argument(context, call.file, bindings, argument) {
        Some(kind) => kind,
        None => {
            return None;
        },
    };
    let written: String = context.sources.slice(call.file, argument.range);
    let mut evidence = Evidence::new();
    evidence.insert("target", json_text(target.canonical.as_str()));
    evidence.insert("value", json_text(kind));
    evidence.insert("expression", json_text(written.as_str()));
    Some(
        build_diagnostic(
            MLR106(),
            context,
            call.file,
            argument.range,
            crate::text::cat7(
                "`",
                written.as_str(),
                "` is ",
                kind,
                "; passing it to `",
                target.display.as_str(),
                NON_FINITE_END,
            ),
            NON_FINITE_WHY,
            evidence,
        ),
    )
}

/// Findings of a geometry sink, argument by argument.
pub open spec fn non_finite_parts(
    context: RuleContext<'_>,
    call: QualifiedCall,
    target: (Seq<char>, Seq<char>),
    bindings: FileBindingFacts,
) -> spec_fn(int) -> Seq<DiagnosticView> {
    |k: int| found(non_finite_finding(context, call, target, bindings, k))
}

/// The findings for the call at `i`.
pub open spec fn non_finite_at(context: RuleContext<'_>, i: int) -> Seq<DiagnosticView> {
    let call = context.qualified_calls.calls@[i];
    match context.knowledge {
        Some(profile) => match (
            geometry_target(*profile, call),
            context.qualified_calls.bindings.spec_file(call.file),
        ) {
            (Some(target), Some(bindings)) => gather(
                call.arguments@.len() as int,
                non_finite_parts(context, call, target, bindings),
            ),
            _ => Seq::empty(),
        },
        None => Seq::empty(),
    }
}

fn non_finite(context: &RuleContext<'_>, i: usize) -> (diagnostics: Vec<Diagnostic>)
    requires
        i < context.qualified_calls.calls@.len(),
    ensures
        reports(diagnostics@) == non_finite_at(*context, i as int),
{
    let call = &context.qualified_calls.calls[i];
    let mut diagnostics: Vec<Diagnostic> = Vec::new();
    assert(reports(diagnostics@) =~= Seq::empty());
    let profile = match context.knowledge {
        Some(profile) => profile,
        None => {
            return diagnostics;
        },
    };
    let target = match nonfinite_rule_target(profile, call) {
        Some(target) => target,
        None => {
            return diagnostics;
        },
    };
    let bindings = match context.qualified_calls.bindings.file(call.file) {
        Some(bindings) => bindings,
        None => {
            return diagnostics;
        },
    };
    let ghost names = (target.display@, target.canonical@);
    let mut k: usize = 0;
    while k < call.arguments.len()
        invariant
            k <= call.arguments@.len(),
            names == (target.display@, target.canonical@),
            reports(diagnostics@) == gather(
                k as int,
                non_finite_parts(*context, *call, names, *bindings),
            ),
        decreases call.arguments@.len() - k,
    {
        push_found(&mut diagnostics, check_non_finite(context, call, &target, bindings, k));
        k += 1;
    }
    diagnostics
}

/// Findings of [`NonFiniteGeometryLiteral`], call by call.
pub open spec fn non_finite_finder(context: RuleContext<'_>) -> spec_fn(int) -> Seq<DiagnosticView> {
    |i: int| non_finite_at(context, i)
}

impl Rule for NonFiniteGeometryLiteral {
    open spec fn declared(&self) -> MetadataView {
        mlr106()
    }

    open spec fn findings(&self, context: RuleContext<'_>) -> Seq<DiagnosticView> {
        gather(context.qualified_calls.calls@.len() as int, non_finite_finder(context))
    }

    fn metadata(&self) -> (metadata: &'static RuleMetadata) {
        MLR106()
    }

    fn run(&self, context: &RuleContext<'_>) -> (diagnostics: Vec<Diagnostic>) {
        let calls = &context.qualified_calls.calls;
        let mut diagnostics: Vec<Diagnostic> = Vec::new();
        let mut i: usize = 0;
        assert(reports(diagnostics@) =~= Seq::empty());
        while i < calls.len()
            invariant
                i <= calls@.len(),
                calls@ == context.qualified_calls.calls@,
                reports(diagnostics@) == gather(i as int, non_finite_finder(*context)),
            decreases calls@.len() - i,
        {
            push_all(&mut diagnostics, non_finite(context, i));
            i += 1;
        }
        diagnostics
    }
}

} // verus!
