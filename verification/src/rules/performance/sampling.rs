//! `MLP221`: a literal `t_range` or `x_range` step proves an excessive sample
//! count for `ParametricFunction` or `Axes.plot`.
//!
//! A candidate is accepted on two bases only: the knowledge profile resolves
//! it, or the frontend's import resolution produced exactly the canonical
//! module path.
use super::loop_plays::steps;
use super::support::{candidate_symbol, resolve_candidate};
use crate::cost::call_cost_from;
use crate::diagnostic::{
    push_found, report_of, reports, Confidence, Diagnostic, DiagnosticView, MetadataView,
    RuleMetadata, Severity,
};
use crate::frontend::{
    keyword_of, CallArgument, LiteralFact, ProjectIndex, QualifiedCall, ReceiverKind,
};
use crate::json::{
    double_view, json_double, json_object3, json_text, Evidence, EvidenceView, Json, JsonView,
};
use crate::knowledge::KnowledgeProfile;
use crate::numbers::{
    below, finite, is_finite, real_below, Bound, Num, NumLit, Real, EXACT_INT_LIMIT,
};
use crate::rules::base::{basic_report, build_diagnostic, Rule, RuleContext};
use crate::rules::lifecycle::support::{bases_known, class_complete};
use crate::text::{cat3, cat6, cat7, found, gather, same_text, texts};
use crate::thresholds::{GateView, Threshold};
use vstd::prelude::*;

verus! {

/// Canonical id of `ParametricFunction`.
pub const PARAMETRIC_FUNCTION: &'static str = "manim.mobject.graphing.functions.ParametricFunction";

/// Canonical id of `Axes.plot`.
pub const AXES_PLOT: &'static str = "manim.mobject.graphing.coordinate_systems.Axes.plot";

/// What [`MLP221_SAMPLE_GATE`] states.
pub open spec fn mlp221_sample_gate() -> GateView {
    GateView {
        name: "parametric-sample-gate"@,
        quantity: "N_samples"@,
        minimum: 10000,
        rule_ids: seq!["MLP221"@],
    }
}

/// `MLP221` fires only on a provable sample count of at least this many evaluations: the Python callback runs once per sample and every stored point is post-processed, so five-digit counts dominate construction.
#[allow(non_snake_case)]
pub fn MLP221_SAMPLE_GATE() -> (gate: &'static Threshold)
    ensures
        gate@ == mlp221_sample_gate(),
{
    let gate: &'static Threshold = &Threshold {
        name: "parametric-sample-gate",
        quantity: "N_samples",
        minimum: 10000,
        rule_ids: &["MLP221"],
    };
    assert(gate@ =~= mlp221_sample_gate());
    gate
}

/// What [`MLP221`] declares.
pub open spec fn mlp221() -> MetadataView {
    MetadataView {
        id: "MLP221"@,
        summary: "Literal t_range/x_range step proves an excessive sample count"@,
        default_enabled: true,
        default_severity: Severity::Warning,
        minimum_confidence: Confidence::High,
        implementation_phase: 3,
        required_profiles: seq![],
        required_capabilities: seq!["qualified-calls"@, "cost-facts"@],
        supersedes: seq![],
    }
}

/// Metadata of rule `MLP221`.
#[allow(non_snake_case)]
pub fn MLP221() -> (metadata: &'static RuleMetadata)
    ensures
        metadata@ == mlp221(),
{
    let metadata: &'static RuleMetadata = &RuleMetadata {
        id: "MLP221",
        summary: "Literal t_range/x_range step proves an excessive sample count",
        default_enabled: true,
        default_severity: Severity::Warning,
        minimum_confidence: Confidence::High,
        implementation_phase: 3,
        required_profiles: &[],
        required_capabilities: &["qualified-calls", "cost-facts"],
        supersedes: &[],
    };
    assert(metadata@ =~= mlp221());
    metadata
}

/// A `ParametricFunction(...)` or `axes.plot(...)` whose literal
/// three-element range proves a sample count above the threshold. Non-literal
/// ranges are never guessed.
pub struct ExcessiveSampleCount;

/// What the call constructs.
#[derive(Clone, Copy, Debug, PartialEq, Eq, Structural)]
pub enum SampledTarget {
    Parametric,
    AxesPlot,
}

pub const FROM_PROFILE: &'static str = "knowledge-profile";

pub const FROM_IMPORT: &'static str = "canonical-module-import";

/// What a canonical id constructs.
pub open spec fn sampled_id(canonical: Seq<char>) -> Option<SampledTarget> {
    if canonical == PARAMETRIC_FUNCTION@ {
        Some(SampledTarget::Parametric)
    } else if canonical == AXES_PLOT@ {
        Some(SampledTarget::AxesPlot)
    } else {
        None
    }
}

/// What a candidate constructs.
pub open spec fn sampled_candidate(profile: KnowledgeProfile, candidate: Seq<char>) -> Option<
    SampledTarget,
> {
    match candidate_symbol(profile, candidate) {
        Some(canonical) => sampled_id(canonical),
        None => sampled_id(candidate),
    }
}

fn identify(canonical: &str) -> (target: Option<SampledTarget>)
    ensures
        target == sampled_id(canonical@),
{
    if same_text(canonical, PARAMETRIC_FUNCTION) {
        Some(SampledTarget::Parametric)
    } else if same_text(canonical, AXES_PLOT) {
        Some(SampledTarget::AxesPlot)
    } else {
        None
    }
}

fn identify_candidate(profile: &KnowledgeProfile, candidate: &str) -> (target: Option<
    SampledTarget,
>)
    ensures
        target == sampled_candidate(*profile, candidate@),
{
    match resolve_candidate(profile, candidate) {
        Some(canonical) => identify(canonical.as_str()),
        None => identify(candidate),
    }
}

/// Whether the receiver's class can have no override that is out of sight.
pub open spec fn plain_receiver(index: ProjectIndex, call: QualifiedCall) -> bool {
    match call.receiver {
        ReceiverKind::KnownInstance(kind) => bases_known(index, kind@),
        _ => true,
    }
}

/// What every candidate of a call agrees to construct, with the basis of the
/// first one's resolution.
pub open spec fn sampled_call(
    profile: KnowledgeProfile,
    index: ProjectIndex,
    call: QualifiedCall,
) -> Option<(SampledTarget, Seq<char>)> {
    let list = texts(call.candidates@);
    if list.len() == 0 || !plain_receiver(index, call) {
        None
    } else {
        match sampled_candidate(profile, list[0]) {
            Some(target) => if forall|i: int|
                0 <= i < list.len() ==> sampled_candidate(profile, #[trigger] list[i]) == Some(
                    target,
                ) {
                Some(
                    (
                        target,
                        if candidate_symbol(profile, list[0]) is Some {
                            FROM_PROFILE@
                        } else {
                            FROM_IMPORT@
                        },
                    ),
                )
            } else {
                None
            },
            None => None,
        }
    }
}

/// Resolves the call to a sampled-construction target. Every candidate must
/// agree; the knowledge profile wins when it can resolve, the exact
/// canonical module path is accepted otherwise.
fn sampled_target(profile: &KnowledgeProfile, index: &ProjectIndex, call: &QualifiedCall) -> (found:
    Option<(SampledTarget, &'static str)>)
    ensures
        match found {
            Some((target, basis)) => sampled_call(*profile, *index, *call) == Some(
                (target, basis@),
            ),
            None => sampled_call(*profile, *index, *call) is None,
        },
{
    if call.candidates.len() == 0 {
        return None;
    }
    // A project receiver class with unresolved bases may override `plot`.
    let plain: bool = match &call.receiver {
        ReceiverKind::KnownInstance(kind) => class_complete(index, kind.as_str()),
        _ => true,
    };
    if !plain {
        return None;
    }
    let ghost list = texts(call.candidates@);
    assert(list[0] == call.candidates@[0]@);
    let target: SampledTarget = match identify_candidate(profile, call.candidates[0].as_str()) {
        Some(target) => target,
        None => {
            return None;
        },
    };
    let mut i: usize = 1;
    while i < call.candidates.len()
        invariant
            1 <= i <= call.candidates@.len(),
            list == texts(call.candidates@),
            plain_receiver(*index, *call),
            sampled_candidate(*profile, list[0]) == Some(target),
            forall|j: int|
                0 <= j < i ==> sampled_candidate(*profile, #[trigger] list[j]) == Some(target),
        decreases call.candidates@.len() - i,
    {
        assert(list[i as int] == call.candidates@[i as int]@);
        match identify_candidate(profile, call.candidates[i].as_str()) {
            Some(other) => {
                if other != target {
                    return None;
                }
            },
            None => {
                return None;
            },
        }
        i += 1;
    }
    let basis: &'static str = match resolve_candidate(profile, call.candidates[0].as_str()) {
        Some(_) => FROM_PROFILE,
        None => FROM_IMPORT,
    };
    Some((target, basis))
}

/// Keyword of the range argument.
pub open spec fn range_keyword(target: SampledTarget) -> Seq<char> {
    match target {
        SampledTarget::Parametric => "t_range"@,
        SampledTarget::AxesPlot => "x_range"@,
    }
}

fn keyword_of_range(target: SampledTarget) -> (name: &'static str)
    ensures
        name@ == range_keyword(target),
{
    match target {
        SampledTarget::Parametric => "t_range",
        SampledTarget::AxesPlot => "x_range",
    }
}

/// Canonical id of what is sampled.
pub open spec fn sampled_symbol(target: SampledTarget) -> Seq<char> {
    match target {
        SampledTarget::Parametric => PARAMETRIC_FUNCTION@,
        SampledTarget::AxesPlot => AXES_PLOT@,
    }
}

fn symbol_of_target(target: SampledTarget) -> (name: &'static str)
    ensures
        name@ == sampled_symbol(target),
{
    match target {
        SampledTarget::Parametric => PARAMETRIC_FUNCTION,
        SampledTarget::AxesPlot => AXES_PLOT,
    }
}

/// A numeric literal, read as a double.
pub open spec fn literal_bound(literal: LiteralFact) -> Option<Bound<'static>> {
    match literal {
        LiteralFact::Int(value) => Some(Bound::Whole(value)),
        LiteralFact::Float(value) => Some(Bound::Real(&value)),
        _ => None,
    }
}

fn read_literal(literal: &LiteralFact) -> (bound: Option<Bound<'_>>)
    ensures
        bound == literal_bound(*literal),
{
    match literal {
        LiteralFact::Int(value) => Some(Bound::Whole(*value)),
        LiteralFact::Float(value) => Some(Bound::Real(value)),
        _ => None,
    }
}

/// Start, end, and step of three literals.
pub open spec fn three_of(elements: Seq<LiteralFact>) -> Option<
    (Bound<'static>, Bound<'static>, Bound<'static>),
> {
    if elements.len() == 3 {
        match (
            literal_bound(elements[0]),
            literal_bound(elements[1]),
            literal_bound(elements[2]),
        ) {
            (Some(start), Some(end), Some(step)) => Some((start, end, step)),
            _ => None,
        }
    } else {
        None
    }
}

fn read_three(elements: &Vec<LiteralFact>) -> (range: Option<(Bound<'_>, Bound<'_>, Bound<'_>)>)
    ensures
        range == three_of(elements@),
{
    if elements.len() != 3 {
        return None;
    }
    match (
        read_literal(&elements[0]),
        read_literal(&elements[1]),
        read_literal(&elements[2]),
    ) {
        (Some(start), Some(end), Some(step)) => Some((start, end, step)),
        _ => None,
    }
}

/// The literal three-element range of an argument.
pub open spec fn range_of(argument: CallArgument) -> Option<
    (Bound<'static>, Bound<'static>, Bound<'static>),
> {
    match argument.literal {
        Some(LiteralFact::Tuple(elements)) => three_of(elements@),
        Some(LiteralFact::List(elements)) => three_of(elements@),
        _ => None,
    }
}

/// The literal three-element `(start, end, step)` range, when every element
/// is an int or float literal.
fn literal_range3(argument: &CallArgument) -> (range: Option<(Bound<'_>, Bound<'_>, Bound<'_>)>)
    ensures
        range == range_of(*argument),
{
    match &argument.literal {
        Some(LiteralFact::Tuple(elements)) => read_three(elements),
        Some(LiteralFact::List(elements)) => read_three(elements),
        _ => None,
    }
}

/// The range argument of a call: by keyword, or the second positional one.
pub open spec fn range_argument(call: QualifiedCall, keyword: Seq<char>) -> Option<CallArgument> {
    match call.spec_keyword(keyword) {
        Some(argument) => Some(argument),
        None => match call.spec_positional(1) {
            Some(argument) => if argument.keyword is None || keyword_of(argument) == Some(
                keyword,
            ) {
                Some(argument)
            } else {
                None
            },
            None => None,
        },
    }
}

fn find_range<'c>(call: &'c QualifiedCall, keyword: &str) -> (argument: Option<&'c CallArgument>)
    ensures
        match argument {
            Some(found) => range_argument(*call, keyword@) == Some(*found),
            None => range_argument(*call, keyword@) is None,
        },
{
    if let Some(argument) = call.keyword(keyword) {
        return Some(argument);
    }
    match call.positional(1) {
        Some(argument) => {
            let fits: bool = match &argument.keyword {
                Some(name) => same_text(name.as_str(), keyword),
                None => true,
            };
            if fits {
                Some(argument)
            } else {
                None
            }
        },
        None => None,
    }
}

/// Whether a range runs upward in finite steps.
pub open spec fn runs_upward(start: u64, end: u64, step: u64) -> bool {
    real_below(0, step) && real_below(start, end) && is_finite(step) && is_finite(start)
}

/// Whether the call asks for one vectorized evaluation.
pub open spec fn vectorized(call: QualifiedCall) -> bool {
    match call.spec_keyword("use_vectorized"@) {
        Some(argument) => argument.literal == Some(LiteralFact::Bool(true)),
        None => false,
    }
}

fn is_vectorized(call: &QualifiedCall) -> (yes: bool)
    ensures
        yes == vectorized(*call),
{
    match call.keyword("use_vectorized") {
        Some(argument) => match &argument.literal {
            Some(LiteralFact::Bool(value)) => *value,
            _ => false,
        },
        None => false,
    }
}

pub const VECTORIZED_CLAUSE: &'static str = " points are generated and post-processed \
    (the vectorized callback is invoked once over the whole array)";

pub const CALLBACK_CLAUSE: &'static str = " Python callback invocations run at \
    construction, one per sample, before smoothing post-processes \
    every stored point";

pub const STEP_NOTE: &'static str = ". Increase the step (or \
    narrow the range) unless this resolution is intended.";

pub const VECTOR_NOTE: &'static str = " If the function is built from NumPy ufuncs only, \
    `use_vectorized=True` evaluates the whole sample array in one \
    call — do not enable it for arbitrary Python callbacks.";

pub const SAMPLES_WHY: &'static str = "ParametricFunction samples `np.arange(t_min, t_max, t_step)` and \
    calls the plotted function once per sample (functions.py \
    generate_points; Axes.plot builds a ParametricFunction from \
    x_range the same way). The sample count is fixed at construction \
    by the literal range, independent of how large the curve appears \
    on screen.";

pub const HOT_SAMPLES: &'static str = "construction reachable per frame: samples × frames";

/// What the samples cost.
pub open spec fn calls_clause(samples: Seq<char>, vector: bool) -> Seq<char> {
    "about "@ + samples + if vector {
        VECTORIZED_CLAUSE@
    } else {
        CALLBACK_CLAUSE@
    }
}

/// A double as it is displayed.
pub open spec fn plain_text(bound: Bound<'_>) -> Seq<char> {
    match bound {
        Bound::Whole(n) => bound.count_text(),
        Bound::Real(value) => value.shown@,
    }
}

fn show(bound: &Bound<'_>) -> (text: String)
    ensures
        text@ == plain_text(*bound),
{
    match bound {
        Bound::Whole(_) => bound.format_count(),
        Bound::Real(value) => value.shown.clone(),
    }
}

/// The message on a sample count.
pub open spec fn samples_message(
    start: Seq<char>,
    end: Seq<char>,
    step: Seq<char>,
    samples: Seq<char>,
    vector: bool,
) -> Seq<char> {
    "The literal range ("@ + start + ", "@ + end + ", "@ + step + ") proves about "@ + samples
        + " samples: "@ + calls_clause(samples, vector) + STEP_NOTE@ + if vector {
        ""@
    } else {
        VECTOR_NOTE@
    }
}

fn describe_samples(start: &str, end: &str, step: &str, samples: &str, vector: bool) -> (text:
    String)
    ensures
        text@ == samples_message(start@, end@, step@, samples@, vector),
{
    let head: String = cat7("The literal range (", start, ", ", end, ", ", step, ") proves about ");
    let clause: String = cat3(
        "about ",
        samples,
        if vector {
            VECTORIZED_CLAUSE
        } else {
            CALLBACK_CLAUSE
        },
    );
    let text: String = cat6(
        head.as_str(),
        samples,
        " samples: ",
        clause.as_str(),
        STEP_NOTE,
        if vector {
            ""
        } else {
            VECTOR_NOTE
        },
    );
    assert(text@ =~= samples_message(start@, end@, step@, samples@, vector));
    text
}

/// The evidence on a sample count.
pub open spec fn samples_view(
    context: RuleContext<'_>,
    i: int,
    target: SampledTarget,
    basis: Seq<char>,
    start: u64,
    end: u64,
    step: u64,
    samples: NumLit,
) -> EvidenceView {
    let call = context.qualified_calls.calls@[i];
    let count = Num::Exact(samples);
    let base = EvidenceView::empty().insert(
        "resolved"@,
        JsonView::Text(sampled_symbol(target)),
    ).insert("resolution"@, JsonView::Text(basis)).insert(
        "range"@,
        JsonView::Object(
            seq![
                ("start"@, double_view(start)),
                ("end"@, double_view(end)),
                ("step"@, double_view(step)),
            ],
        ),
    ).insert("samples"@, double_view(samples.spec_bound().pattern())).insert(
        "threshold"@,
        mlp221_sample_gate().evidence(count),
    ).insert("citation"@, JsonView::Text(mlp221_sample_gate().citation())).insert(
        "use_vectorized"@,
        JsonView::Flag(vectorized(call)),
    );
    if context.cost_facts.spec_first_hot(i) is Some {
        base.insert("hot_context"@, JsonView::Text(HOT_SAMPLES@))
    } else {
        base
    }
}

/// Whether a whole number and its double are the same.
pub open spec fn exact_double(n: int) -> bool {
    -EXACT_INT_LIMIT <= n <= EXACT_INT_LIMIT
}

/// Whether a range of whole numbers is sampled exactly: the ends and the step
/// are doubles, and the span is below two to the power of 53, where rounding
/// never takes a quotient over a whole number.
pub open spec fn exact_range(start: int, end: int, step: int) -> bool {
    exact_double(start) && exact_double(end) && exact_double(step) && step > 0 && start < end
        && end - start < EXACT_INT_LIMIT
}

/// The samples that a call's literal range gives: for a range of whole
/// numbers the number of its steps, else as estimated.
pub open spec fn samples_of(
    context: RuleContext<'_>,
    i: int,
    start: Bound<'_>,
    end: Bound<'_>,
    step: Bound<'_>,
) -> Option<NumLit> {
    match (start, end, step) {
        (Bound::Whole(a), Bound::Whole(b), Bound::Whole(c)) => if exact_range(
            a as int,
            b as int,
            c as int,
        ) {
            Some(NumLit::Int(steps(a as int, b as int, c as int) as i64))
        } else {
            estimated_samples(context, i)
        },
        _ => estimated_samples(context, i),
    }
}

/// The samples of the call at `i` as the cost facts have them.
pub open spec fn estimated_samples(context: RuleContext<'_>, i: int) -> Option<NumLit> {
    match call_cost_from(context.cost_facts.call_costs@, i as usize, 0) {
        Some(cost) => match cost.samples {
            Some(samples) => Some(NumLit::Float(samples)),
            None => None,
        },
        None => None,
    }
}

/// The number of steps of a range of whole numbers.
fn count_steps(start: i64, end: i64, step: i64) -> (count: i64)
    requires
        exact_range(start as int, end as int, step as int),
    ensures
        count == steps(start as int, end as int, step as int),
        0 < count <= end - start,
{
    let span: i64 = end - start;
    let quotient: i64 = span / step;
    let rest: i64 = span % step;
    assert(span == quotient * step + rest && 0 <= rest < step) by (nonlinear_arith)
        requires
            step > 0,
            span > 0,
            quotient == span as int / step as int,
            rest == span as int % step as int,
    ;
    assert(quotient <= quotient * step) by (nonlinear_arith)
        requires
            step >= 1,
            quotient >= 0,
    ;
    assert(quotient == 0 ==> quotient * step == 0) by (nonlinear_arith);
    if rest > 0 {
        quotient + 1
    } else {
        quotient
    }
}

/// Whether two counts give the same text and the same double.
pub open spec fn same_count(a: NumLit, b: NumLit) -> bool {
    a.spec_bound().pattern() == b.spec_bound().pattern() && a.spec_bound().rounded_text()
        == b.spec_bound().rounded_text()
}

fn is_exact_double(n: i64) -> (exact: bool)
    ensures
        exact == exact_double(n as int),
{
    -0x20_0000_0000_0000 <= n && n <= 0x20_0000_0000_0000
}

fn find_samples(
    context: &RuleContext<'_>,
    i: usize,
    start: &Bound<'_>,
    end: &Bound<'_>,
    step: &Bound<'_>,
) -> (samples: Option<NumLit>)
    ensures
        match samples {
            Some(found) => match samples_of(*context, i as int, *start, *end, *step) {
                Some(count) => same_count(found, count),
                None => false,
            },
            None => samples_of(*context, i as int, *start, *end, *step) is None,
        },
{
    if let Bound::Whole(a) = start {
        if let Bound::Whole(b) = end {
            if let Bound::Whole(c) = step {
                if is_exact_double(*a) && is_exact_double(*b) && is_exact_double(*c) && *c > 0
                    && *a < *b && *b - *a < 0x20_0000_0000_0000 {
                    return Some(NumLit::Int(count_steps(*a, *b, *c)));
                }
            }
        }
    }
    match context.cost_facts.call_cost(i) {
        Some(cost) => match &cost.samples {
            Some(samples) => Some(NumLit::Float(copy_real(samples))),
            None => None,
        },
        None => None,
    }
}

/// The report on a sample count.
pub open spec fn samples_report(
    context: RuleContext<'_>,
    i: int,
    target: SampledTarget,
    basis: Seq<char>,
    range: (Bound<'_>, Bound<'_>, Bound<'_>),
    samples: NumLit,
) -> DiagnosticView {
    let call = context.qualified_calls.calls@[i];
    basic_report(
        mlp221(),
        context,
        call.file,
        call.call_range,
        samples_message(
            plain_text(range.0),
            plain_text(range.1),
            plain_text(range.2),
            samples.spec_bound().rounded_text(),
            vectorized(call),
        ),
        SAMPLES_WHY@,
        samples_view(
            context,
            i,
            target,
            basis,
            range.0.pattern(),
            range.1.pattern(),
            range.2.pattern(),
            samples,
        ),
    )
}

/// The finding for the call at `i`.
pub open spec fn samples_at(context: RuleContext<'_>, i: int) -> Option<DiagnosticView> {
    let call = context.qualified_calls.calls@[i];
    match context.knowledge {
        Some(profile) => match sampled_call(*profile, context.project_index, call) {
            Some((target, basis)) => match range_argument(call, range_keyword(target)) {
                Some(argument) => match range_of(argument) {
                    Some((start, end, step)) => match samples_of(context, i, start, end, step) {
                        Some(samples) => if runs_upward(
                            start.pattern(),
                            end.pattern(),
                            step.pattern(),
                        ) && mlp221_sample_gate().passes(Num::Exact(samples)) {
                            Some(
                                samples_report(
                                    context,
                                    i,
                                    target,
                                    basis,
                                    (start, end, step),
                                    samples,
                                ),
                            )
                        } else {
                            None
                        },
                        None => None,
                    },
                    None => None,
                },
                None => None,
            },
            None => None,
        },
        None => None,
    }
}

fn copy_real(value: &Real) -> (copy: Real)
    ensures
        copy.bits == value.bits,
        copy.rounded@ == value.rounded@,
{
    Real {
        bits: value.bits,
        shown: value.shown.clone(),
        rounded: value.rounded.clone(),
        percent: value.percent.clone(),
        size: value.size.clone(),
    }
}

fn samples(context: &RuleContext<'_>, i: usize) -> (found: Option<Diagnostic>)
    requires
        i < context.qualified_calls.calls@.len(),
    ensures
        report_of(found) == samples_at(*context, i as int),
{
    let call = &context.qualified_calls.calls[i];
    let profile = match context.knowledge {
        Some(profile) => profile,
        None => {
            return None;
        },
    };
    let (target, basis) = match sampled_target(profile, &context.project_index, call) {
        Some(found) => found,
        None => {
            return None;
        },
    };
    let argument = match find_range(call, keyword_of_range(target)) {
        Some(argument) => argument,
        None => {
            return None;
        },
    };
    let (start, end, step) = match literal_range3(argument) {
        Some(range) => range,
        None => {
            return None;
        },
    };
    let start_bits: u64 = start.bits();
    let end_bits: u64 = end.bits();
    let step_bits: u64 = step.bits();
    if !(below(0, step_bits) && below(start_bits, end_bits) && finite(step_bits) && finite(
        start_bits,
    )) {
        return None;
    }
    let samples: NumLit = match find_samples(context, i, &start, &end, &step) {
        Some(samples) => samples,
        None => {
            return None;
        },
    };
    let shown: String = samples.bound().format_rounded();
    let bits: u64 = samples.bound().bits();
    let count = Num::Exact(samples);
    if !MLP221_SAMPLE_GATE().confirmed_by(&count) {
        return None;
    }
    let vector: bool = is_vectorized(call);
    let mut evidence = Evidence::new();
    evidence.insert("resolved", json_text(symbol_of_target(target)));
    evidence.insert("resolution", json_text(basis));
    evidence.insert(
        "range",
        json_object3(
            "start",
            json_double(start_bits),
            "end",
            json_double(end_bits),
            "step",
            json_double(step_bits),
        ),
    );
    evidence.insert("samples", json_double(bits));
    evidence.insert("threshold", MLP221_SAMPLE_GATE().evidence(&count));
    evidence.insert("citation", json_text(MLP221_SAMPLE_GATE().citation().as_str()));
    evidence.insert("use_vectorized", Json::Flag(vector));
    if context.cost_facts.is_call_in_hot_context(i).is_some() {
        evidence.insert("hot_context", json_text(HOT_SAMPLES));
    }
    Some(
        build_diagnostic(
            MLP221(),
            context,
            call.file,
            call.call_range,
            describe_samples(
                show(&start).as_str(),
                show(&end).as_str(),
                show(&step).as_str(),
                shown.as_str(),
                vector,
            ),
            SAMPLES_WHY,
            evidence,
        ),
    )
}

/// Findings of [`ExcessiveSampleCount`], call by call.
pub open spec fn samples_finder(context: RuleContext<'_>) -> spec_fn(int) -> Seq<DiagnosticView> {
    |i: int| found(samples_at(context, i))
}

impl Rule for ExcessiveSampleCount {
    open spec fn declared(&self) -> MetadataView {
        mlp221()
    }

    open spec fn findings(&self, context: RuleContext<'_>) -> Seq<DiagnosticView> {
        gather(context.qualified_calls.calls@.len() as int, samples_finder(context))
    }

    fn metadata(&self) -> (metadata: &'static RuleMetadata) {
        MLP221()
    }

    fn run(&self, context: &RuleContext<'_>) -> (diagnostics: Vec<Diagnostic>) {
        let calls = &context.qualified_calls.calls;
        let mut diagnostics: Vec<Diagnostic> = Vec::new();
        let mut i: usize = 0;
        assert(reports(diagnostics@) =~= Seq::empty());
        while i < calls.len()
            invariant
                i <= calls@.len(),
                calls@ == context.qualified_calls.calls@,
                reports(diagnostics@) == gather(i as int, samples_finder(*context)),
            decreases calls@.len() - i,
        {
            push_found(&mut diagnostics, samples(context, i));
            i += 1;
        }
        diagnostics
    }
}

} // verus!
