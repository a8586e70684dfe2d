//! `MLP210`: many short sequential plays inside a fixed-count loop.
//!
//! Cost claim: per-play begin and hash overhead times the literal trip count.
//! The cost of a per-play output stream is not included, because no fact
//! proves that such a stream exists.
use super::support::{goal_of, targets};
use crate::ast::{
    any_short_circuits, body_may_short_circuit, is_name, named, Expr, Form, Stmt, StmtKind, Syntax,
    UnaryOperator,
};
use crate::cost::call_cost_from;
use crate::diagnostic::{
    push_found, report_of, reports, Confidence, Diagnostic, DiagnosticView, MetadataView,
    RuleMetadata, Severity,
};
use crate::json::{bounds_view, json_text, num_bounds_json, Evidence, EvidenceView, Json, JsonView};
use crate::numbers::{Num, NumLit};
use crate::rules::base::{basic_report, build_diagnostic, Rule, RuleContext};
use crate::rules::lifecycle::support::{bound_receiver, is_bound, SCENE_PLAY};
use crate::source::{syntax_in, TextRange};
use crate::text::{cat5, found, gather, signed_decimal, signed_numeral};
use crate::thresholds::{GateView, Threshold};
use vstd::prelude::*;

verus! {

/// What [`MLP210_LOOP_PLAYS_GATE`] states.
pub open spec fn mlp210_loop_plays_gate() -> GateView {
    GateView {
        name: "loop-plays-gate"@,
        quantity: "N_plays"@,
        minimum: 8,
        rule_ids: seq!["MLP210"@],
    }
}

/// `MLP210` fires only on a literal trip count of at least this many plays.
#[allow(non_snake_case)]
pub fn MLP210_LOOP_PLAYS_GATE() -> (gate: &'static Threshold)
    ensures
        gate@ == mlp210_loop_plays_gate(),
{
    let gate: &'static Threshold = &Threshold {
        name: "loop-plays-gate",
        quantity: "N_plays",
        minimum: 8,
        rule_ids: &["MLP210"],
    };
    assert(gate@ =~= mlp210_loop_plays_gate());
    gate
}

/// What [`MLP210`] declares.
pub open spec fn mlp210() -> MetadataView {
    MetadataView {
        id: "MLP210"@,
        summary: "Fixed-count loop issues many short sequential plays"@,
        default_enabled: true,
        default_severity: Severity::Info,
        minimum_confidence: Confidence::Medium,
        implementation_phase: 3,
        required_profiles: seq![],
        required_capabilities: seq!["qualified-calls"@, "cost-facts"@],
        supersedes: seq![],
    }
}

/// Metadata of rule `MLP210`.
#[allow(non_snake_case)]
pub fn MLP210() -> (metadata: &'static RuleMetadata)
    ensures
        metadata@ == mlp210(),
{
    let metadata: &'static RuleMetadata = &RuleMetadata {
        id: "MLP210",
        summary: "Fixed-count loop issues many short sequential plays",
        default_enabled: true,
        default_severity: Severity::Info,
        minimum_confidence: Confidence::Medium,
        implementation_phase: 3,
        required_profiles: &[],
        required_capabilities: &["qualified-calls", "cost-facts"],
        supersedes: &[],
    };
    assert(metadata@ =~= mlp210());
    metadata
}

/// A `self.play(...)` statement that is a direct child of a `for` loop with
/// a literal trip count that is large: every iteration pays the full play
/// startup once.
pub struct FixedCountLoopPlays;

pub const LOOP_START: &'static str = "This loop issues ";

pub const LOOP_MIDDLE: &'static str = " sequential plays: each one pays the \
    full play startup (animation compile, hash, begin copies, \
    cleanup) before rendering a single frame. If the ";

pub const LOOP_END: &'static str = " \
    animations can run together, one play of an AnimationGroup \
    (or LaggedStart) pays the startup once.";

pub const LOOP_WHY: &'static str = "Every Scene.play compiles its animations, hashes them for the \
    cache, deep-copies the starting mobjects, and runs cleanup — a \
    fixed cost independent of the play's duration (DESIGN 4.3 \
    Animation begin). A literal-count loop multiplies that fixed \
    cost by its trip count. Grouping the animations into one play \
    preserves the visuals when they are meant to run together; when \
    they are meant to run one after another, LaggedStart reproduces \
    the stagger in a single play.";

pub const LOOP_OVERHEAD: &'static str = "animation compile + hash + begin starting copies + cleanup, once \
    per play; per-play partial-stream cost omitted (no per-play \
    output-stream fact)";

/// The value of an int literal, negated ones included.
pub open spec fn int_of(expr: Expr) -> Option<int>
    decreases expr,
{
    match expr.form {
        Form::Int(Some(value)) => Some(value as int),
        Form::Unary(UnaryOperator::Minus) => if expr.parts@.len() == 1 {
            match int_of(expr.parts@[0]) {
                Some(value) => Some(-value),
                None => None,
            }
        } else {
            None
        },
        _ => None,
    }
}

fn read_int(expr: &Expr) -> (value: Option<i128>)
    ensures
        match value {
            Some(found) => int_of(*expr) == Some(found as int) && -0x8000_0000_0000_0000 <= found
                <= 0x8000_0000_0000_0000,
            None => int_of(*expr) is None,
        },
    decreases expr,
{
    match &expr.form {
        Form::Int(Some(value)) => Some(*value as i128),
        Form::Unary(UnaryOperator::Minus) => {
            if expr.parts.len() != 1 {
                return None;
            }
            match read_int(&expr.parts[0]) {
                Some(value) => Some(-value),
                None => None,
            }
        },
        _ => None,
    }
}

/// How often a range from `start` to `stop` steps by `stride`.
pub open spec fn steps(start: int, stop: int, stride: int) -> int {
    (stop - start) / stride + if (stop - start) % stride > 0 {
        1int
    } else {
        0int
    }
}

/// A range that steps `k` times has its last value below `stop` and its next
/// value not below it.
pub proof fn steps_are_exact(start: int, stop: int, stride: int)
    requires
        stride > 0,
        steps(start, stop, stride) > 0,
    ensures
        start + (steps(start, stop, stride) - 1) * stride < stop,
        stop <= start + steps(start, stop, stride) * stride,
{
    let span = stop - start;
    let q = span / stride;
    let r = span % stride;
    assert(span == q * stride + r && 0 <= r < stride) by (nonlinear_arith)
        requires
            stride > 0,
            q == span / stride,
            r == span % stride,
    ;
    assert((q + 1) * stride == q * stride + stride) by (nonlinear_arith);
    assert((q - 1) * stride == q * stride - stride) by (nonlinear_arith);
}

/// The trip count of a `range` call with these arguments.
pub open spec fn range_count(arguments: Seq<Expr>) -> Option<int> {
    if arguments.len() == 1 {
        int_of(arguments[0])
    } else if arguments.len() == 2 {
        match (int_of(arguments[0]), int_of(arguments[1])) {
            (Some(start), Some(stop)) => Some(stop - start),
            _ => None,
        }
    } else if arguments.len() == 3 {
        match (int_of(arguments[0]), int_of(arguments[1]), int_of(arguments[2])) {
            (Some(start), Some(stop), Some(stride)) => if stride > 0 {
                Some(steps(start, stop, stride))
            } else {
                None
            },
            _ => None,
        }
    } else {
        None
    }
}

/// A positive count, as far as it fits.
pub open spec fn positive_count(count: int) -> Option<i64> {
    if 0 < count <= i64::MAX {
        Some(count as i64)
    } else {
        None
    }
}

/// Whether an element of a display is starred.
pub open spec fn any_starred(elements: Seq<Expr>) -> bool {
    exists|i: int| 0 <= i < elements.len() && (#[trigger] elements[i]).form is Starred
}

/// The elements of a display without starred ones.
pub open spec fn display_count(elements: Seq<Expr>) -> Option<i64> {
    if any_starred(elements) {
        None
    } else {
        positive_count(elements.len() as int)
    }
}

/// The literal trip count of a `for` iterable.
pub open spec fn trip_count(iter: Expr) -> Option<i64> {
    match iter.form {
        Form::Call { arguments, keywords } => if keywords@.len() == 0 && iter.parts@.len()
            == arguments + 1 && is_name(iter.parts@[0], "range"@) {
            match range_count(iter.parts@.skip(1)) {
                Some(count) => positive_count(count),
                None => None,
            }
        } else {
            None
        },
        Form::List => display_count(iter.parts@),
        Form::Tuple => display_count(iter.parts@),
        _ => None,
    }
}

fn fit_count(count: i128) -> (fitted: Option<i64>)
    ensures
        fitted == positive_count(count as int),
{
    if 0 < count && count <= 0x7FFF_FFFF_FFFF_FFFF {
        Some(count as i64)
    } else {
        None
    }
}

fn count_steps(start: i128, stop: i128, stride: i128) -> (count: Option<i64>)
    requires
        -0x8000_0000_0000_0000 <= start <= 0x8000_0000_0000_0000,
        -0x8000_0000_0000_0000 <= stop <= 0x8000_0000_0000_0000,
        0 < stride <= 0x8000_0000_0000_0000,
    ensures
        count == positive_count(steps(start as int, stop as int, stride as int)),
{
    let span: i128 = stop - start;
    if span <= 0 {
        assert(steps(start as int, stop as int, stride as int) <= 0) by {
            let s = span as int;
            let t = stride as int;
            assert(s / t + (if s % t > 0 {
                1int
            } else {
                0int
            }) <= 0) by (nonlinear_arith)
                requires
                    s <= 0,
                    t > 0,
            ;
        }
        return None;
    }
    let whole: u128 = span as u128 / stride as u128;
    let part: u128 = span as u128 % stride as u128;
    assert(whole <= span) by (nonlinear_arith)
        requires
            whole == span / stride,
            stride >= 1,
            span > 0,
    ;
    let count: u128 = if part > 0 {
        whole + 1
    } else {
        whole
    };
    fit_count(count as i128)
}

/// Counts the elements of a display without starred ones.
fn display_len(elements: &Vec<Expr>) -> (count: Option<i64>)
    ensures
        count == display_count(elements@),
{
    let mut i: usize = 0;
    while i < elements.len()
        invariant
            i <= elements@.len(),
            forall|j: int| 0 <= j < i ==> !((#[trigger] elements@[j]).form is Starred),
        decreases elements@.len() - i,
    {
        match &elements[i].form {
            Form::Starred => {
                assert(elements@[i as int].form is Starred);
                return None;
            },
            _ => {},
        }
        i += 1;
    }
    fit_count(elements.len() as i128)
}

/// The literal trip count of a `for` iterable: an int-literal `range()`
/// (negative literals via unary minus included) or a display without starred
/// elements. None for everything else.
fn literal_trip_count(iter: &Expr) -> (count: Option<i64>)
    ensures
        count == trip_count(*iter),
{
    match &iter.form {
        Form::Call { arguments, keywords } => {
            let parts = &iter.parts;
            if keywords.len() != 0 || parts.len() == 0 || parts.len() - 1 != *arguments || !named(
                &parts[0],
                "range",
            ) {
                return None;
            }
            if parts.len() == 2 {
                match read_int(&parts[1]) {
                    Some(stop) => fit_count(stop),
                    None => None,
                }
            } else if parts.len() == 3 {
                match (read_int(&parts[1]), read_int(&parts[2])) {
                    (Some(start), Some(stop)) => fit_count(stop - start),
                    _ => None,
                }
            } else if parts.len() == 4 {
                match (read_int(&parts[1]), read_int(&parts[2]), read_int(&parts[3])) {
                    (Some(start), Some(stop), Some(stride)) => if stride > 0 {
                        count_steps(start, stop, stride)
                    } else {
                        None
                    },
                    _ => None,
                }
            } else {
                None
            }
        },
        Form::List => display_len(&iter.parts),
        Form::Tuple => display_len(&iter.parts),
        _ => None,
    }
}

/// Whether the statement is the expression at `range`.
pub open spec fn evaluates(stmt: Stmt, range: TextRange) -> bool {
    stmt.kind == StmtKind::Expr && stmt.values@.len() > 0 && stmt.values@[0].range == range
}

/// Whether a `for` loop has the expression at `range` as a direct statement
/// of its body.
pub open spec fn direct_loop(stmt: Stmt, range: TextRange) -> bool {
    stmt.kind == StmtKind::For && exists|i: int|
        0 <= i < stmt.body@.len() && evaluates(#[trigger] stmt.body@[i], range)
}

fn is_direct_loop(stmt: &Stmt, range: TextRange) -> (direct: bool)
    ensures
        direct == direct_loop(*stmt, range),
{
    if stmt.kind != StmtKind::For {
        return false;
    }
    let mut i: usize = 0;
    while i < stmt.body.len()
        invariant
            i <= stmt.body@.len(),
            stmt.kind == StmtKind::For,
            forall|j: int| 0 <= j < i ==> !evaluates(#[trigger] stmt.body@[j], range),
        decreases stmt.body@.len() - i,
    {
        let inner = &stmt.body[i];
        if inner.kind == StmtKind::Expr && inner.values.len() > 0 && inner.values[0].range
            == range {
            assert(evaluates(stmt.body@[i as int], range));
            return true;
        }
        i += 1;
    }
    false
}

/// The first loop, in source order, that directly contains the expression at
/// `range`: the statement itself, or one nested in it.
pub open spec fn loop_in(stmt: Stmt, range: TextRange) -> Option<Stmt>
    decreases stmt, stmt.body@.len() + stmt.rest@.len() + 1,
{
    if direct_loop(stmt, range) {
        Some(stmt)
    } else {
        loop_from(stmt, range, 0)
    }
}

/// The first such loop nested in a statement, from nested statement `i` on.
pub open spec fn loop_from(stmt: Stmt, range: TextRange, i: int) -> Option<Stmt>
    decreases stmt, stmt.body@.len() + stmt.rest@.len() - i,
{
    if i < 0 || i >= stmt.body@.len() + stmt.rest@.len() {
        None
    } else if i < stmt.body@.len() {
        match loop_in(stmt.body@[i], range) {
            Some(found) => Some(found),
            None => loop_from(stmt, range, i + 1),
        }
    } else {
        match loop_in(stmt.rest@[i - stmt.body@.len()], range) {
            Some(found) => Some(found),
            None => loop_from(stmt, range, i + 1),
        }
    }
}

fn find_loop<'a>(stmt: &'a Stmt, range: TextRange) -> (found: Option<&'a Stmt>)
    ensures
        match found {
            Some(stmt_found) => loop_in(*stmt, range) == Some(*stmt_found),
            None => loop_in(*stmt, range) is None,
        },
    decreases stmt,
{
    if is_direct_loop(stmt, range) {
        return Some(stmt);
    }
    let mut i: usize = 0;
    while i < stmt.body.len()
        invariant
            i <= stmt.body@.len(),
            loop_in(*stmt, range) == loop_from(*stmt, range, i as int),
        decreases stmt.body@.len() - i,
    {
        match find_loop(&stmt.body[i], range) {
            Some(inner) => {
                return Some(inner);
            },
            None => {},
        }
        i += 1;
    }
    let mut k: usize = 0;
    while k < stmt.rest.len()
        invariant
            k <= stmt.rest@.len(),
            loop_in(*stmt, range) == loop_from(*stmt, range, stmt.body@.len() + k),
        decreases stmt.rest@.len() - k,
    {
        match find_loop(&stmt.rest[k], range) {
            Some(inner) => {
                return Some(inner);
            },
            None => {},
        }
        k += 1;
    }
    None
}

/// The first such loop of a list, from position `i` on.
pub open spec fn loop_among(list: Seq<Stmt>, range: TextRange, i: int) -> Option<Stmt>
    decreases list.len() - i,
{
    if i < 0 || i >= list.len() {
        None
    } else {
        match loop_in(list[i], range) {
            Some(found) => Some(found),
            None => loop_among(list, range, i + 1),
        }
    }
}

/// The innermost `for` loop whose body directly contains the expression as
/// an expression statement (a play behind an `if` or in a helper does not run
/// once per iteration provably).
fn enclosing_direct_loop<'a>(module: &'a Vec<Stmt>, range: TextRange) -> (found: Option<&'a Stmt>)
    ensures
        match found {
            Some(stmt) => loop_among(module@, range, 0) == Some(*stmt),
            None => loop_among(module@, range, 0) is None,
        },
{
    let mut i: usize = 0;
    while i < module.len()
        invariant
            i <= module@.len(),
            loop_among(module@, range, 0) == loop_among(module@, range, i as int),
        decreases module@.len() - i,
    {
        match find_loop(&module[i], range) {
            Some(stmt) => {
                return Some(stmt);
            },
            None => {},
        }
        i += 1;
    }
    None
}

/// How often the loop directly around an expression runs it.
pub open spec fn loop_count(syntax: Option<Syntax>, range: TextRange) -> Option<i64> {
    match syntax {
        Some(tree) => match loop_among(tree.module@, range, 0) {
            Some(stmt) => if any_short_circuits(stmt.body@) || stmt.values@.len() == 0 {
                None
            } else {
                trip_count(stmt.values@[0])
            },
            None => None,
        },
        None => None,
    }
}

fn count_loop(syntax: Option<&Syntax>, range: TextRange) -> (count: Option<i64>)
    ensures
        count == loop_count(
            match syntax {
                Some(tree) => Some(*tree),
                None => None,
            },
            range,
        ),
{
    let tree = match syntax {
        Some(tree) => tree,
        None => {
            return None;
        },
    };
    match enclosing_direct_loop(&tree.module, range) {
        Some(stmt) => {
            if body_may_short_circuit(&stmt.body) || stmt.values.len() == 0 {
                None
            } else {
                literal_trip_count(&stmt.values[0])
            }
        },
        None => None,
    }
}

/// The run time of the play at `i`.
pub open spec fn run_time_of(context: RuleContext<'_>, i: int) -> Num {
    match call_cost_from(context.cost_facts.call_costs@, i as usize, 0) {
        Some(cost) => cost.run_time,
        None => Num::Unknown,
    }
}

/// The finding for the call at `i`.
pub open spec fn loop_play_at(context: RuleContext<'_>, i: int) -> Option<DiagnosticView> {
    let call = context.qualified_calls.calls@[i];
    match (
        context.knowledge,
        loop_count(syntax_in(*context.sources, call.file), call.call_range),
    ) {
        (Some(profile), Some(count)) => if is_bound(call) && goal_of(
            *profile,
            context.project_index,
            call,
        ) == Some(SCENE_PLAY@) && mlp210_loop_plays_gate().passes(Num::Exact(NumLit::Int(count))) {
            Some(
                basic_report(
                    mlp210(),
                    context,
                    call.file,
                    call.call_range,
                    LOOP_START@ + signed_numeral(count as int) + LOOP_MIDDLE@ + signed_numeral(
                        count as int,
                    ) + LOOP_END@,
                    LOOP_WHY@,
                    EvidenceView::empty().insert("resolved"@, JsonView::Text(SCENE_PLAY@)).insert(
                        "plays"@,
                        JsonView::Whole(count as int),
                    ).insert(
                        "threshold"@,
                        mlp210_loop_plays_gate().evidence(Num::Exact(NumLit::Int(count))),
                    ).insert(
                        "citation"@,
                        JsonView::Text(mlp210_loop_plays_gate().citation()),
                    ).insert("run_time_seconds"@, bounds_view(run_time_of(context, i))).insert(
                        "per_play_overhead"@,
                        JsonView::Text(LOOP_OVERHEAD@),
                    ),
                ),
            )
        } else {
            None
        },
        _ => None,
    }
}

fn loop_play(context: &RuleContext<'_>, i: usize) -> (found: Option<Diagnostic>)
    requires
        i < context.qualified_calls.calls@.len(),
    ensures
        report_of(found) == loop_play_at(*context, i as int),
{
    let call = &context.qualified_calls.calls[i];
    let profile = match context.knowledge {
        Some(profile) => profile,
        None => {
            return None;
        },
    };
    if !bound_receiver(call) || !targets(profile, &context.project_index, call, SCENE_PLAY) {
        return None;
    }
    let count: i64 = match count_loop(context.sources.syntax(call.file), call.call_range) {
        Some(count) => count,
        None => {
            return None;
        },
    };
    let plays = Num::Exact(NumLit::Int(count));
    let gate = MLP210_LOOP_PLAYS_GATE();
    if !gate.confirmed_by(&plays) {
        return None;
    }
    let run_time: Json = match context.cost_facts.call_cost(i) {
        Some(cost) => num_bounds_json(&cost.run_time),
        None => Json::Null,
    };
    let number: String = signed_decimal(count);
    let mut evidence = Evidence::new();
    evidence.insert("resolved", json_text(SCENE_PLAY));
    evidence.insert("plays", Json::Whole(count as i128));
    evidence.insert("threshold", gate.evidence(&plays));
    evidence.insert("citation", json_text(gate.citation().as_str()));
    evidence.insert("run_time_seconds", run_time);
    evidence.insert("per_play_overhead", json_text(LOOP_OVERHEAD));
    Some(
        build_diagnostic(
            MLP210(),
            context,
            call.file,
            call.call_range,
            cat5(LOOP_START, number.as_str(), LOOP_MIDDLE, number.as_str(), LOOP_END),
            LOOP_WHY,
            evidence,
        ),
    )
}

/// Findings of [`FixedCountLoopPlays`], call by call.
pub open spec fn loop_play_finder(context: RuleContext<'_>) -> spec_fn(int) -> Seq<DiagnosticView> {
    |i: int| found(loop_play_at(context, i))
}

impl Rule for FixedCountLoopPlays {
    open spec fn declared(&self) -> MetadataView {
        mlp210()
    }

    open spec fn findings(&self, context: RuleContext<'_>) -> Seq<DiagnosticView> {
        gather(context.qualified_calls.calls@.len() as int, loop_play_finder(context))
    }

    fn metadata(&self) -> (metadata: &'static RuleMetadata) {
        MLP210()
    }

    fn run(&self, context: &RuleContext<'_>) -> (diagnostics: Vec<Diagnostic>) {
        let calls = &context.qualified_calls.calls;
        let mut diagnostics: Vec<Diagnostic> = Vec::new();
        let mut i: usize = 0;
        assert(reports(diagnostics@) =~= Seq::empty());
        while i < calls.len()
            invariant
                i <= calls@.len(),
                calls@ == context.qualified_calls.calls@,
                reports(diagnostics@) == gather(i as int, loop_play_finder(*context)),
            decreases calls@.len() - i,
        {
            push_found(&mut diagnostics, loop_play(context, i));
            i += 1;
        }
        diagnostics
    }
}

} // verus!
