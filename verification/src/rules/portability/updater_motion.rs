//! `MLD301`: updater applies a fixed per-frame step without `dt` scaling.
//!
//! Manim calls an updater as `(mobject, dt)` only when the callback declares
//! a parameter literally named `dt`; otherwise the callback runs once per
//! frame with no time information. A relative mutation with a fixed step
//! inside such a callback advances per frame, not per second:
//!
//! ```python
//! dot.add_updater(lambda m: m.next_to(driver))       # absolute: fine
//! dot.add_updater(lambda m: m.shift(0.1 * RIGHT))    # fires
//! dot.add_updater(lambda m, dt: m.shift(dt * RIGHT)) # time-based: fine
//! ```
use super::randomness::{after_prefix, strip_prefix};
use crate::ast::{
    dotted, flatten_dotted, lambda_from, BinaryOperator, Expr, Form, FunctionFact, LambdaFact,
    Parameters, Stmt, Syntax, UnaryOperator,
};
use crate::diagnostic::{
    Confidence, Diagnostic, DiagnosticView, MetadataView, RuleMetadata, Severity,
};
use crate::frontend::{ArgShape, CallArgument, FileBindingFacts, QualifiedCall};
use crate::json::{json_text, Evidence, EvidenceView, Json, JsonView};
use crate::knowledge::{KnowledgeProfile, SymbolKind};
use crate::rules::base::{
    add_related, basic_report, build_diagnostic, related_at, related_site, with_related, Rule,
    RuleContext,
};
use crate::rules::dedupe::{
    candidate_view, candidate_views, keep_first, kept, key_of, offer_all, site_key, Candidate,
    CandidateView,
};
use crate::rules::lifecycle::support::MOBJECT_ADD_UPDATER;
use crate::rules::performance::support::{candidate_symbol, resolve_candidate};
use crate::rules::performance::updater_waste::{find_method_of_param, method_of_param};
use crate::source::{site_of, slice_in, syntax_in, AllocationSite, TextRange};
use crate::text::{cat3, cat5, found, gather, has_char, same_text, texts};
use vstd::prelude::*;

verus! {

/// What [`MLD301`] declares.
pub open spec fn mld301() -> MetadataView {
    MetadataView {
        id: "MLD301"@,
        summary: "Updater applies a fixed per-frame step without dt scaling (FPS-dependent motion)"@,
        default_enabled: true,
        default_severity: Severity::Warning,
        minimum_confidence: Confidence::High,
        implementation_phase: 4,
        required_profiles: seq![],
        required_capabilities: seq!["qualified-calls"@],
        supersedes: seq![],
    }
}

/// Metadata of rule `MLD301`.
#[allow(non_snake_case)]
pub fn MLD301() -> (metadata: &'static RuleMetadata)
    ensures
        metadata@ == mld301(),
{
    let metadata: &'static RuleMetadata = &RuleMetadata {
        id: "MLD301",
        summary: "Updater applies a fixed per-frame step without dt scaling (FPS-dependent motion)",
        default_enabled: true,
        default_severity: Severity::Warning,
        minimum_confidence: Confidence::High,
        implementation_phase: 4,
        required_profiles: &[],
        required_capabilities: &["qualified-calls"],
        supersedes: &[],
    };
    assert(metadata@ =~= mld301());
    metadata
}

/// An updater without `dt` that moves its mobject by a fixed step per frame.
pub struct FpsDependentUpdaterMotion;

pub const STEP_MIDDLE: &'static str = "` with a fixed step every frame \
    but declares no `dt` parameter; the motion speed depends on the \
    profile frame rate";

pub const STEP_WHY: &'static str = "Manim calls an updater as (mobject, dt) only when the callback \
    declares a parameter literally named dt; otherwise it runs once per \
    frame with no time information. A relative mutation with a fixed \
    step then advances per frame, so the same scene moves twice as fast \
    at 60 FPS as at 30 FPS. Declare (mobject, dt) and scale the step by \
    dt, or use an absolute update such as next_to.";

/// Whether every candidate of a call is the mobject-level updater
/// registration.
pub open spec fn adds_updater(profile: KnowledgeProfile, candidates: Seq<String>) -> bool {
    candidates.len() > 0 && forall|i: int|
        0 <= i < candidates.len() ==> candidate_symbol(profile, (#[trigger] candidates[i])@)
            == Some(MOBJECT_ADD_UPDATER@)
}

/// Whether every candidate of the call resolves to `Mobject.add_updater`
/// through the curated base chain (scene-level updaters have a different
/// contract and are excluded).
fn is_mobject_add_updater(profile: &KnowledgeProfile, candidates: &Vec<String>) -> (adds: bool)
    ensures
        adds == adds_updater(*profile, candidates@),
{
    if candidates.len() == 0 {
        return false;
    }
    let mut i: usize = 0;
    while i < candidates.len()
        invariant
            i <= candidates@.len(),
            forall|j: int|
                0 <= j < i ==> candidate_symbol(*profile, (#[trigger] candidates@[j])@) == Some(
                    MOBJECT_ADD_UPDATER@,
                ),
        decreases candidates@.len() - i,
    {
        let same: bool = match resolve_candidate(profile, candidates[i].as_str()) {
            Some(canonical) => same_text(canonical.as_str(), MOBJECT_ADD_UPDATER),
            None => false,
        };
        if !same {
            assert(candidate_symbol(*profile, candidates@[i as int]@) != Some(
                MOBJECT_ADD_UPDATER@,
            ));
            return false;
        }
        i += 1;
    }
    true
}

/// The callback argument of a registration.
pub open spec fn callback_argument(call: QualifiedCall) -> Option<CallArgument> {
    match call.spec_keyword("update_function"@) {
        Some(argument) => Some(argument),
        None => if call.has_star_args {
            None
        } else {
            call.spec_positional(0)
        },
    }
}

fn find_callback(call: &QualifiedCall) -> (argument: Option<&CallArgument>)
    ensures
        match argument {
            Some(found) => callback_argument(*call) == Some(*found),
            None => callback_argument(*call) is None,
        },
{
    if let Some(argument) = call.keyword("update_function") {
        return Some(argument);
    }
    if call.has_star_args {
        return None;
    }
    call.positional(0)
}

/// Relative mutators whose fixed-step per-frame application depends on the
/// frame rate.
pub open spec fn relative_mutator(method: Seq<char>) -> bool {
    method == "increment_value"@ || method == "rotate"@ || method == "scale"@ || method == "shift"@
}

fn is_relative_mutator(method: &str) -> (is: bool)
    ensures
        is == relative_mutator(method@),
{
    same_text(method, "increment_value") || same_text(method, "rotate") || same_text(
        method,
        "scale",
    ) || same_text(method, "shift")
}

/// Whether a dotted path below `manim` is an exported constant.
pub open spec fn constant_path(profile: KnowledgeProfile, target: Option<Seq<char>>) -> bool {
    match target {
        Some(path) => match after_prefix(path, "manim."@) {
            Some(name) => constant_export(profile, name),
            None => false,
        },
        None => false,
    }
}

/// Whether an exported name is a constant.
pub open spec fn constant_export(profile: KnowledgeProfile, name: Seq<char>) -> bool {
    !name.contains('.') && match profile.spec_resolve_export(name) {
        Some(entry) => entry.kind == SymbolKind::Constant,
        None => false,
    }
}

fn is_constant_export(profile: &KnowledgeProfile, name: &str) -> (is: bool)
    ensures
        is == constant_export(*profile, name@),
{
    if has_char(name, '.') {
        return false;
    }
    match profile.resolve_export(name) {
        Some(entry) => entry.kind == SymbolKind::Constant,
        None => false,
    }
}

fn is_constant_path(profile: &KnowledgeProfile, target: &Option<String>) -> (is: bool)
    ensures
        is == constant_path(
            *profile,
            match target {
                Some(path) => Some(path@),
                None => None,
            },
        ),
{
    match target {
        Some(path) => match strip_prefix(path.as_str(), "manim.") {
            Some(name) => is_constant_export(profile, name.as_str()),
            None => false,
        },
        None => false,
    }
}

/// Whether a bare name reaches an exported constant through the imports.
pub open spec fn constant_name(
    bindings: FileBindingFacts,
    profile: KnowledgeProfile,
    name: Seq<char>,
) -> bool {
    if bindings.spec_star_from("manim"@) && bindings.spec_unshadowed(name) {
        constant_export(profile, name)
    } else {
        constant_path(profile, bindings.spec_resolve_parts(seq![name]))
    }
}

/// Whether a bare name reaches a curated Manim constant (`RIGHT`, `PI`)
/// through this file's imports.
fn is_manim_constant_name(bindings: &FileBindingFacts, profile: &KnowledgeProfile, name: &String) -> (is:
    bool)
    ensures
        is == constant_name(*bindings, *profile, name@),
{
    if bindings.has_star_from("manim") && bindings.is_unshadowed_bare(name.as_str()) {
        return is_constant_export(profile, name.as_str());
    }
    let parts: Vec<String> = vec![name.clone()];
    assert(texts(parts@) =~= seq![name@]);
    is_constant_path(profile, &bindings.resolve_parts(&parts))
}

/// The dotted path an attribute chain stands for, through the imports.
pub open spec fn chain_target(bindings: FileBindingFacts, expr: Expr) -> Option<Seq<char>> {
    match dotted(expr) {
        Some(parts) => bindings.spec_resolve_parts(parts),
        None => None,
    }
}

/// Whether `mn.RIGHT`-style attribute access reaches a Manim constant.
fn is_manim_constant_attribute(
    bindings: &FileBindingFacts,
    profile: &KnowledgeProfile,
    expr: &Expr,
) -> (is: bool)
    ensures
        is == constant_path(*profile, chain_target(*bindings, *expr)),
{
    match flatten_dotted(expr) {
        Some(parts) => is_constant_path(profile, &bindings.resolve_parts(&parts)),
        None => false,
    }
}

/// Whether an expression is composed of numeric literals and Manim constants
/// with `+ - * /`, unary sign, and tuple or list grouping.
pub open spec fn constant_step(
    expr: Expr,
    bindings: FileBindingFacts,
    profile: KnowledgeProfile,
) -> bool
    decreases expr,
{
    match expr.form {
        Form::Int(_) | Form::Float => true,
        Form::Name(name) => constant_name(bindings, profile, name@),
        Form::Attribute(_) => constant_path(profile, chain_target(bindings, expr)),
        Form::Unary(op) => (op == UnaryOperator::Plus || op == UnaryOperator::Minus) && forall|
            i: int,
        |
            0 <= i < expr.parts@.len() ==> constant_step(
                #[trigger] expr.parts@[i],
                bindings,
                profile,
            ),
        Form::Binary(op) => op != BinaryOperator::Other && forall|i: int|
            0 <= i < expr.parts@.len() ==> constant_step(
                #[trigger] expr.parts@[i],
                bindings,
                profile,
            ),
        Form::Tuple | Form::List => expr.parts@.len() > 0 && forall|i: int|
            0 <= i < expr.parts@.len() ==> constant_step(
                #[trigger] expr.parts@[i],
                bindings,
                profile,
            ),
        _ => false,
    }
}

/// Whether all parts of an expression from `start` on are constant steps.
fn parts_constant(
    expr: &Expr,
    start: usize,
    bindings: &FileBindingFacts,
    profile: &KnowledgeProfile,
) -> (all: bool)
    ensures
        all == (forall|i: int|
            start <= i < expr.parts@.len() ==> constant_step(
                #[trigger] expr.parts@[i],
                *bindings,
                *profile,
            )),
    decreases expr, 0int,
{
    let mut i: usize = start;
    while i < expr.parts.len()
        invariant
            start <= i,
            forall|j: int|
                start <= j < i && j < expr.parts@.len() ==> constant_step(
                    #[trigger] expr.parts@[j],
                    *bindings,
                    *profile,
                ),
        decreases expr.parts@.len() - i,
    {
        if !is_constant_step(&expr.parts[i], bindings, profile) {
            assert(!constant_step(expr.parts@[i as int], *bindings, *profile));
            return false;
        }
        i += 1;
    }
    true
}

/// Whether an argument expression is provably frame-invariant and
/// tracker-independent.
fn is_constant_step(expr: &Expr, bindings: &FileBindingFacts, profile: &KnowledgeProfile) -> (is:
    bool)
    ensures
        is == constant_step(*expr, *bindings, *profile),
    decreases expr, 1int,
{
    match &expr.form {
        Form::Int(_) | Form::Float => true,
        Form::Name(name) => is_manim_constant_name(bindings, profile, name),
        Form::Attribute(_) => is_manim_constant_attribute(bindings, profile, expr),
        Form::Unary(op) => (*op == UnaryOperator::Plus || *op == UnaryOperator::Minus)
            && parts_constant(expr, 0, bindings, profile),
        Form::Binary(op) => *op != BinaryOperator::Other && parts_constant(
            expr,
            0,
            bindings,
            profile,
        ),
        Form::Tuple | Form::List => expr.parts.len() > 0 && parts_constant(
            expr,
            0,
            bindings,
            profile,
        ),
        _ => false,
    }
}

/// Whether every keyword has a name: a `**kwargs` splat has none.
pub open spec fn all_named(keywords: Seq<Option<String>>) -> bool {
    forall|i: int| 0 <= i < keywords.len() ==> (#[trigger] keywords[i]) is Some
}

fn are_named(keywords: &Vec<Option<String>>) -> (all: bool)
    ensures
        all == all_named(keywords@),
{
    let mut i: usize = 0;
    while i < keywords.len()
        invariant
            i <= keywords@.len(),
            forall|j: int| 0 <= j < i ==> (#[trigger] keywords@[j]) is Some,
        decreases keywords@.len() - i,
    {
        if keywords[i].is_none() {
            return false;
        }
        i += 1;
    }
    true
}

/// What a callback body is read with.
pub struct StepReader<'c> {
    /// Name of the mobject parameter.
    pub param: &'c str,
    pub bindings: &'c FileBindingFacts,
    pub profile: &'c KnowledgeProfile,
}

/// What a [`StepReader`] says.
pub struct ReaderView {
    pub param: Seq<char>,
    pub bindings: FileBindingFacts,
    pub profile: KnowledgeProfile,
}

impl<'c> View for StepReader<'c> {
    type V = ReaderView;

    open spec fn view(&self) -> ReaderView {
        ReaderView { param: self.param@, bindings: *self.bindings, profile: *self.profile }
    }
}

/// The relative mutation with a fixed step that an expression is, if it is
/// one.
pub open spec fn step_of(expr: Expr, reader: ReaderView) -> Option<(Seq<char>, TextRange)> {
    match expr.form {
        Form::Call { arguments: _, keywords } => if expr.parts@.len() > 1 && all_named(keywords@) {
            match method_of_param(expr.parts@[0], reader.param) {
                Some(method) => if relative_mutator(method) && forall|i: int|
                    1 <= i < expr.parts@.len() ==> constant_step(
                        #[trigger] expr.parts@[i],
                        reader.bindings,
                        reader.profile,
                    ) {
                    Some((method, expr.range))
                } else {
                    None
                },
                None => None,
            }
        } else {
            None
        },
        _ => None,
    }
}

/// One provably fixed-step relative mutation inside the callback body.
pub struct FixedStepMutation {
    /// The mutator method name.
    pub method: String,
    pub range: TextRange,
}

fn find_step(expr: &Expr, reader: &StepReader<'_>) -> (step: Option<FixedStepMutation>)
    ensures
        match step {
            Some(found) => step_of(*expr, reader@) == Some((found.method@, found.range)),
            None => step_of(*expr, reader@) is None,
        },
{
    match &expr.form {
        Form::Call { arguments: _, keywords } => {
            if expr.parts.len() <= 1 || !are_named(keywords) {
                return None;
            }
            match find_method_of_param(&expr.parts[0], reader.param) {
                Some(method) => if is_relative_mutator(method.as_str()) && parts_constant(
                    expr,
                    1,
                    reader.bindings,
                    reader.profile,
                ) {
                    Some(FixedStepMutation { method: method.clone(), range: expr.range })
                } else {
                    None
                },
                None => None,
            }
        },
        _ => None,
    }
}

/// The fixed-step mutations in an expression, outermost first.
pub open spec fn steps_in(expr: Expr, reader: ReaderView) -> Seq<(Seq<char>, TextRange)>
    decreases expr, 1int,
{
    found(step_of(expr, reader)) + gather(expr.parts@.len() as int, part_steps(expr, reader))
}

/// The fixed-step mutations in the parts of an expression, one by one.
pub open spec fn part_steps(expr: Expr, reader: ReaderView) -> spec_fn(int) -> Seq<
    (Seq<char>, TextRange),
>
    decreases expr, 0int,
{
    |i: int|
        if 0 <= i < expr.parts@.len() {
            steps_in(expr.parts@[i], reader)
        } else {
            Seq::empty()
        }
}

/// The fixed-step mutations in a list of expressions.
pub open spec fn steps_in_list(list: Seq<Expr>, reader: ReaderView) -> Seq<
    (Seq<char>, TextRange),
> {
    gather(list.len() as int, list_steps(list, reader))
}

/// The fixed-step mutations in a list of expressions, one by one.
pub open spec fn list_steps(list: Seq<Expr>, reader: ReaderView) -> spec_fn(int) -> Seq<
    (Seq<char>, TextRange),
> {
    |i: int| steps_in(list[i], reader)
}

/// The fixed-step mutations in a statement and those nested in it, in
/// order.
pub open spec fn steps_in_stmt(stmt: Stmt, reader: ReaderView) -> Seq<(Seq<char>, TextRange)>
    decreases stmt, 1int,
{
    steps_in_list(stmt.values@, reader) + steps_in_list(stmt.targets@, reader) + gather(
        stmt.body@.len() as int,
        body_steps(stmt, reader),
    ) + gather(stmt.rest@.len() as int, rest_steps(stmt, reader))
}

/// The fixed-step mutations in the body of a statement, one by one.
pub open spec fn body_steps(stmt: Stmt, reader: ReaderView) -> spec_fn(int) -> Seq<
    (Seq<char>, TextRange),
>
    decreases stmt, 0int,
{
    |i: int|
        if 0 <= i < stmt.body@.len() {
            steps_in_stmt(stmt.body@[i], reader)
        } else {
            Seq::empty()
        }
}

/// The fixed-step mutations in the other branches, one by one.
pub open spec fn rest_steps(stmt: Stmt, reader: ReaderView) -> spec_fn(int) -> Seq<
    (Seq<char>, TextRange),
>
    decreases stmt, 0int,
{
    |i: int|
        if 0 <= i < stmt.rest@.len() {
            steps_in_stmt(stmt.rest@[i], reader)
        } else {
            Seq::empty()
        }
}

/// What a list of mutations says.
pub open spec fn step_views(list: Seq<FixedStepMutation>) -> Seq<(Seq<char>, TextRange)> {
    Seq::new(list.len(), |i: int| (list[i].method@, list[i].range))
}

fn add_steps(expr: &Expr, reader: &StepReader<'_>, steps: &mut Vec<FixedStepMutation>)
    ensures
        step_views(final(steps)@) == step_views(old(steps)@) + steps_in(*expr, reader@),
    decreases expr,
{
    let ghost start = step_views(steps@);
    match find_step(expr, reader) {
        Some(step) => {
            steps.push(step);
            assert(step_views(steps@) =~= start + found(step_of(*expr, reader@)));
        },
        None => {
            assert(step_views(steps@) =~= start + found(step_of(*expr, reader@)));
        },
    }
    let ghost parts = part_steps(*expr, reader@);
    let ghost base = step_views(steps@);
    let mut i: usize = 0;
    assert(step_views(steps@) =~= base + gather(0, parts));
    while i < expr.parts.len()
        invariant
            i <= expr.parts@.len(),
            parts == part_steps(*expr, reader@),
            step_views(steps@) == base + gather(i as int, parts),
        decreases expr.parts@.len() - i,
    {
        add_steps(&expr.parts[i], reader, steps);
        assert(step_views(steps@) =~= base + gather(i + 1, parts));
        i += 1;
    }
    assert(step_views(steps@) =~= start + steps_in(*expr, reader@));
}

fn add_list_steps(list: &Vec<Expr>, reader: &StepReader<'_>, steps: &mut Vec<FixedStepMutation>)
    ensures
        step_views(final(steps)@) == step_views(old(steps)@) + steps_in_list(list@, reader@),
{
    let ghost base = step_views(steps@);
    let ghost parts = list_steps(list@, reader@);
    let mut i: usize = 0;
    assert(step_views(steps@) =~= base + gather(0, parts));
    while i < list.len()
        invariant
            i <= list@.len(),
            parts == list_steps(list@, reader@),
            step_views(steps@) == base + gather(i as int, parts),
        decreases list@.len() - i,
    {
        add_steps(&list[i], reader, steps);
        assert(step_views(steps@) =~= base + gather(i + 1, parts));
        i += 1;
    }
}

fn add_stmt_steps(stmt: &Stmt, reader: &StepReader<'_>, steps: &mut Vec<FixedStepMutation>)
    ensures
        step_views(final(steps)@) == step_views(old(steps)@) + steps_in_stmt(*stmt, reader@),
    decreases stmt,
{
    let ghost start = step_views(steps@);
    add_list_steps(&stmt.values, reader, steps);
    add_list_steps(&stmt.targets, reader, steps);
    let ghost base = step_views(steps@);
    let ghost body = body_steps(*stmt, reader@);
    let mut i: usize = 0;
    assert(step_views(steps@) =~= base + gather(0, body));
    while i < stmt.body.len()
        invariant
            i <= stmt.body@.len(),
            body == body_steps(*stmt, reader@),
            step_views(steps@) == base + gather(i as int, body),
        decreases stmt.body@.len() - i,
    {
        add_stmt_steps(&stmt.body[i], reader, steps);
        assert(step_views(steps@) =~= base + gather(i + 1, body));
        i += 1;
    }
    let ghost middle = step_views(steps@);
    let ghost rest = rest_steps(*stmt, reader@);
    let mut k: usize = 0;
    assert(step_views(steps@) =~= middle + gather(0, rest));
    while k < stmt.rest.len()
        invariant
            k <= stmt.rest@.len(),
            rest == rest_steps(*stmt, reader@),
            step_views(steps@) == middle + gather(k as int, rest),
        decreases stmt.rest@.len() - k,
    {
        add_stmt_steps(&stmt.rest[k], reader, steps);
        assert(step_views(steps@) =~= middle + gather(k + 1, rest));
        k += 1;
    }
    assert(step_views(steps@) =~= start + steps_in_stmt(*stmt, reader@));
}

/// The fixed-step mutations in a list of statements.
pub open spec fn steps_in_body(body: Seq<Stmt>, reader: ReaderView) -> Seq<
    (Seq<char>, TextRange),
> {
    gather(body.len() as int, block_steps(body, reader))
}

/// The fixed-step mutations in a list of statements, one by one.
pub open spec fn block_steps(body: Seq<Stmt>, reader: ReaderView) -> spec_fn(int) -> Seq<
    (Seq<char>, TextRange),
> {
    |i: int| steps_in_stmt(body[i], reader)
}

fn add_body_steps(body: &Vec<Stmt>, reader: &StepReader<'_>, steps: &mut Vec<FixedStepMutation>)
    ensures
        step_views(final(steps)@) == step_views(old(steps)@) + steps_in_body(body@, reader@),
{
    let ghost base = step_views(steps@);
    let ghost parts = block_steps(body@, reader@);
    let mut i: usize = 0;
    assert(step_views(steps@) =~= base + gather(0, parts));
    while i < body.len()
        invariant
            i <= body@.len(),
            parts == block_steps(body@, reader@),
            step_views(steps@) == base + gather(i as int, parts),
        decreases body@.len() - i,
    {
        add_stmt_steps(&body[i], reader, steps);
        assert(step_views(steps@) =~= base + gather(i + 1, parts));
        i += 1;
    }
}

/// The resolved callback of one registration: a lambda or an unambiguous
/// function.
pub enum CallbackBody<'a> {
    Lambda(&'a LambdaFact),
    Function(&'a FunctionFact),
}

impl<'a> CallbackBody<'a> {
    pub open spec fn spec_parameters(&self) -> Parameters {
        match self {
            CallbackBody::Lambda(lambda) => lambda.parameters,
            CallbackBody::Function(function) => function.parameters,
        }
    }

    fn parameters(&self) -> (parameters: &'a Parameters)
        ensures
            *parameters == self.spec_parameters(),
    {
        match self {
            CallbackBody::Lambda(lambda) => &lambda.parameters,
            CallbackBody::Function(function) => &function.parameters,
        }
    }

    /// Name of the callback in messages.
    pub open spec fn spec_label(&self) -> Seq<char> {
        match self {
            CallbackBody::Lambda(_) => "lambda"@,
            CallbackBody::Function(function) => "`"@ + function.name@ + "`"@,
        }
    }

    fn label(&self) -> (label: String)
        ensures
            label@ == self.spec_label(),
    {
        match self {
            CallbackBody::Lambda(_) => "lambda".to_owned(),
            CallbackBody::Function(function) => cat3("`", function.name.as_str(), "`"),
        }
    }

    /// The fixed-step mutations of the callback.
    pub open spec fn spec_steps(&self, reader: ReaderView) -> Seq<(Seq<char>, TextRange)> {
        match self {
            CallbackBody::Lambda(lambda) => steps_in(lambda.body, reader),
            CallbackBody::Function(function) => steps_in_body(function.body@, reader),
        }
    }
}

/// Collects `param.shift(...)`, `rotate`, `scale`, and `increment_value`
/// calls whose every argument is a literal-and-constant expression.
fn fixed_step_mutations(callback: &CallbackBody<'_>, reader: &StepReader<'_>) -> (steps: Vec<
    FixedStepMutation,
>)
    ensures
        step_views(steps@) == callback.spec_steps(reader@),
{
    let mut steps: Vec<FixedStepMutation> = Vec::new();
    let ghost none = step_views(steps@);
    assert(none =~= Seq::empty());
    match callback {
        CallbackBody::Lambda(lambda) => {
            add_steps(&lambda.body, reader, &mut steps);
        },
        CallbackBody::Function(function) => {
            add_body_steps(&function.body, reader, &mut steps);
        },
    }
    assert(step_views(steps@) =~= callback.spec_steps(reader@));
    steps
}

/// The callback that an argument names.
pub open spec fn callback_of<'a>(
    context: RuleContext<'_>,
    call: QualifiedCall,
    argument: CallArgument,
) -> Option<CallbackBody<'a>> {
    match syntax_in(*context.sources, call.file) {
        Some(syntax) => match argument.shape {
            ArgShape::Lambda => match lambda_from(syntax.lambdas@, argument.range, 0) {
                Some(lambda) => Some(CallbackBody::Lambda(&lambda)),
                None => None,
            },
            ArgShape::Name => match syntax.spec_unique(
                slice_in(*context.sources, call.file, argument.range),
            ) {
                Some(function) => Some(CallbackBody::Function(&function)),
                None => None,
            },
            _ => None,
        },
        None => None,
    }
}

/// Resolves the callback argument to its body. Lambdas are located by their
/// exact byte range; named callbacks are accepted only when exactly one
/// function with that name exists in the whole file.
fn resolve_callback_body<'c>(
    context: &'c RuleContext<'_>,
    call: &QualifiedCall,
    argument: &CallArgument,
) -> (body: Option<CallbackBody<'c>>)
    ensures
        body == callback_of(*context, *call, *argument),
{
    let syntax: &'c Syntax = match context.sources.syntax(call.file) {
        Some(syntax) => syntax,
        None => {
            return None;
        },
    };
    match &argument.shape {
        ArgShape::Lambda => match syntax.lambda_at(argument.range) {
            Some(lambda) => Some(CallbackBody::Lambda(lambda)),
            None => None,
        },
        ArgShape::Name => {
            let name: String = context.sources.slice(call.file, argument.range);
            match syntax.unique_function_def(name.as_str()) {
                Some(function) => Some(CallbackBody::Function(function)),
                None => None,
            }
        },
        _ => None,
    }
}

/// The report on one mutation.
pub open spec fn motion_report(
    context: RuleContext<'_>,
    call: QualifiedCall,
    label: Seq<char>,
    step: (Seq<char>, TextRange),
) -> DiagnosticView {
    with_related(
        basic_report(
            mld301(),
            context,
            call.file,
            step.1,
            "Updater "@ + label + " applies `"@ + step.0 + STEP_MIDDLE@,
            STEP_WHY@,
            EvidenceView::empty().insert("method"@, JsonView::Text(step.0)).insert(
                "callback"@,
                JsonView::Text(label),
            ).insert("declares_dt"@, JsonView::Flag(false)),
        ),
        related_at(context, call.site(), "updater registered here"@),
    )
}

fn report_motion(
    context: &RuleContext<'_>,
    call: &QualifiedCall,
    label: &str,
    step: &FixedStepMutation,
) -> (candidate: Candidate)
    ensures
        candidate_view(candidate) == (
            key_of(site_of(call.file, step.range)),
            Some(motion_report(*context, *call, label@, (step.method@, step.range))),
        ),
{
    let mut evidence = Evidence::new();
    evidence.insert("method", json_text(step.method.as_str()));
    evidence.insert("callback", json_text(label));
    evidence.insert("declares_dt", Json::Flag(false));
    let mut diagnostic = build_diagnostic(
        MLD301(),
        context,
        call.file,
        step.range,
        cat5("Updater ", label, " applies `", step.method.as_str(), STEP_MIDDLE),
        STEP_WHY,
        evidence,
    );
    add_related(
        &mut diagnostic,
        related_site(
            context,
            AllocationSite::new(call.file, call.call_range),
            "updater registered here".to_owned(),
        ),
    );
    Candidate {
        key: site_key(AllocationSite::new(call.file, step.range)),
        diagnostic: Some(diagnostic),
    }
}

/// Candidates of a list of mutations.
pub open spec fn motion_candidates(
    context: RuleContext<'_>,
    call: QualifiedCall,
    label: Seq<char>,
    steps: Seq<(Seq<char>, TextRange)>,
) -> Seq<CandidateView> {
    Seq::new(
        steps.len(),
        |k: int|
            (
                key_of(site_of(call.file, steps[k].1)),
                Some(motion_report(context, call, label, steps[k])),
            ),
    )
}

fn report_motions(
    context: &RuleContext<'_>,
    call: &QualifiedCall,
    label: &str,
    steps: &Vec<FixedStepMutation>,
) -> (candidates: Vec<Candidate>)
    ensures
        candidate_views(candidates@) == motion_candidates(
            *context,
            *call,
            label@,
            step_views(steps@),
        ),
{
    let mut candidates: Vec<Candidate> = Vec::new();
    let ghost wanted = motion_candidates(*context, *call, label@, step_views(steps@));
    let mut k: usize = 0;
    while k < steps.len()
        invariant
            k <= steps@.len(),
            candidates@.len() == k,
            wanted == motion_candidates(*context, *call, label@, step_views(steps@)),
            forall|j: int| 0 <= j < k ==> candidate_view(#[trigger] candidates@[j]) == wanted[j],
        decreases steps@.len() - k,
    {
        assert(step_views(steps@)[k as int] == (steps@[k as int].method@, steps@[k as int].range));
        candidates.push(report_motion(context, call, label, &steps[k]));
        k += 1;
    }
    assert(candidate_views(candidates@) =~= wanted);
    candidates
}

/// What the callback of a registration gives. A `dt` parameter makes Manim
/// pass frame time: the callback owns independence of the frame rate itself.
pub open spec fn callback_motion(
    context: RuleContext<'_>,
    profile: KnowledgeProfile,
    call: QualifiedCall,
    body: CallbackBody<'_>,
) -> Seq<CandidateView> {
    match (
        body.spec_parameters().spec_first(),
        context.qualified_calls.bindings.spec_file(call.file),
    ) {
        (Some(param), Some(bindings)) => if body.spec_parameters().declares("dt"@) {
            Seq::empty()
        } else {
            motion_candidates(
                context,
                call,
                body.spec_label(),
                body.spec_steps(ReaderView { param, bindings, profile }),
            )
        },
        _ => Seq::empty(),
    }
}

/// What the call at `i` gives.
pub open spec fn motion_at(context: RuleContext<'_>, i: int) -> Seq<CandidateView> {
    let call = context.qualified_calls.calls@[i];
    match (context.knowledge, callback_argument(call)) {
        (Some(profile), Some(argument)) => match callback_of(context, call, argument) {
            Some(body) => if adds_updater(*profile, call.candidates@) {
                callback_motion(context, *profile, call, body)
            } else {
                Seq::empty()
            },
            None => Seq::empty(),
        },
        _ => Seq::empty(),
    }
}

fn motion(context: &RuleContext<'_>, i: usize) -> (candidates: Vec<Candidate>)
    requires
        i < context.qualified_calls.calls@.len(),
    ensures
        candidate_views(candidates@) == motion_at(*context, i as int),
{
    let call = &context.qualified_calls.calls[i];
    let none: Vec<Candidate> = Vec::new();
    assert(candidate_views(none@) =~= Seq::empty());
    let profile = match context.knowledge {
        Some(profile) => profile,
        None => {
            return none;
        },
    };
    if !is_mobject_add_updater(profile, &call.candidates) {
        return none;
    }
    let argument = match find_callback(call) {
        Some(argument) => argument,
        None => {
            return none;
        },
    };
    let callback = match resolve_callback_body(context, call, argument) {
        Some(callback) => callback,
        None => {
            return none;
        },
    };
    let parameters = callback.parameters();
    if parameters.has("dt") {
        return none;
    }
    let param: &String = match parameters.first() {
        Some(param) => param,
        None => {
            return none;
        },
    };
    let bindings = match context.qualified_calls.bindings.file(call.file) {
        Some(bindings) => bindings,
        None => {
            return none;
        },
    };
    let reader = StepReader { param: param.as_str(), bindings, profile };
    let steps: Vec<FixedStepMutation> = fixed_step_mutations(&callback, &reader);
    report_motions(context, call, callback.label().as_str(), &steps)
}

/// Candidates of [`FpsDependentUpdaterMotion`], call by call.
pub open spec fn motion_finder(context: RuleContext<'_>) -> spec_fn(int) -> Seq<CandidateView> {
    |i: int| motion_at(context, i)
}

impl Rule for FpsDependentUpdaterMotion {
    open spec fn declared(&self) -> MetadataView {
        mld301()
    }

    open spec fn findings(&self, context: RuleContext<'_>) -> Seq<DiagnosticView> {
        kept(gather(context.qualified_calls.calls@.len() as int, motion_finder(context)))
    }

    fn metadata(&self) -> (metadata: &'static RuleMetadata) {
        MLD301()
    }

    fn run(&self, context: &RuleContext<'_>) -> (diagnostics: Vec<Diagnostic>) {
        let calls = &context.qualified_calls.calls;
        let mut candidates: Vec<Candidate> = Vec::new();
        let mut i: usize = 0;
        assert(candidate_views(candidates@) =~= Seq::empty());
        while i < calls.len()
            invariant
                i <= calls@.len(),
                calls@ == context.qualified_calls.calls@,
                candidate_views(candidates@) == gather(i as int, motion_finder(*context)),
            decreases calls@.len() - i,
        {
            offer_all(&mut candidates, motion(context, i));
            i += 1;
        }
        keep_first(candidates)
    }
}

} // verus!
