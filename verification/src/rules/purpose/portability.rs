//! What the portability rules are for.
use super::{candidate_is_reported, gathered_in, points_at, reported_at};
use crate::ast::{
    dotted, lambda_from, BinaryOperator, Expr, Form, FunctionFact, LambdaFact, Parameters, Stmt,
    UnaryOperator,
};
use crate::frontend::{FileBindingFacts, QualifiedCall};
use crate::json::JsonView;
use crate::knowledge::{KnowledgeProfile, SymbolKind};
use crate::rules::base::{Rule, RuleContext};
use crate::rules::dedupe::{kept_entries, kept_from_candidates, key_of};
use crate::rules::performance::support::candidate_symbol;
use crate::rules::portability::randomness::after_prefix;
use crate::rules::portability::updater_motion::{
    adds_updater, block_steps, body_steps, callback_argument, callback_of, constant_path,
    constant_step, list_steps, motion_at, motion_candidates, motion_finder, part_steps, rest_steps,
    step_of, steps_in, steps_in_body, steps_in_list, steps_in_stmt, CallbackBody,
    FpsDependentUpdaterMotion, ReaderView,
};
use crate::source::{site_of, slice_in, syntax_in, TextRange};
use crate::text::{found, gather, gathered_from, texts};
use vstd::prelude::*;

verus! {

/// Whether an expression stands anywhere in another.
pub open spec fn stands_in(part: Expr, whole: Expr) -> bool
    decreases whole,
{
    part == whole || exists|i: int|
        0 <= i < whole.parts@.len() && stands_in(part, #[trigger] whole.parts@[i])
}

/// Whether the package exports a constant under this name.
pub open spec fn exports_constant(profile: KnowledgeProfile, name: Seq<char>) -> bool {
    !name.contains('.') && (profile.spec_resolve_export(name) matches Some(entry) && entry.kind
        == SymbolKind::Constant)
}

/// Whether the imports of a file lead a dotted chain to a constant of the
/// package.
pub open spec fn leads_to_constant(
    bindings: FileBindingFacts,
    profile: KnowledgeProfile,
    parts: Seq<Seq<char>>,
) -> bool {
    exists|name: Seq<char>|
        bindings.spec_resolve_parts(parts) == Some(#[trigger] ("manim."@ + name))
            && exports_constant(profile, name)
}

/// Whether an expression is made of numbers and constants of the package, with
/// signs, `+ - * /`, tuples, and lists alone.
pub open spec fn number_or_constant(
    expr: Expr,
    bindings: FileBindingFacts,
    profile: KnowledgeProfile,
) -> bool
    decreases expr,
{
    let all_parts = forall|i: int|
        0 <= i < expr.parts@.len() ==> number_or_constant(
            #[trigger] expr.parts@[i],
            bindings,
            profile,
        );
    match expr.form {
        Form::Int(_) => true,
        Form::Float => true,
        Form::Name(name) => if texts(bindings.star_modules@).contains("manim"@) && !texts(
            bindings.bound_names@,
        ).contains(name@) {
            exports_constant(profile, name@)
        } else {
            leads_to_constant(bindings, profile, seq![name@])
        },
        Form::Attribute(_) => dotted(expr) matches Some(parts) && leads_to_constant(
            bindings,
            profile,
            parts,
        ),
        Form::Unary(sign) => (sign == UnaryOperator::Plus || sign == UnaryOperator::Minus)
            && all_parts,
        Form::Binary(operator) => (operator == BinaryOperator::Add || operator
            == BinaryOperator::Sub || operator == BinaryOperator::Mult || operator
            == BinaryOperator::Div) && all_parts,
        Form::Tuple => expr.parts@.len() > 0 && all_parts,
        Form::List => expr.parts@.len() > 0 && all_parts,
        _ => false,
    }
}

/// Whether a method moves, turns, scales, or counts on from where it is.
pub open spec fn moves_on(method: Seq<char>) -> bool {
    method == "shift"@ || method == "rotate"@ || method == "scale"@ || method
        == "increment_value"@
}

/// Whether an expression calls a method of `param` that moves it on, with
/// numbers and constants alone.
pub open spec fn fixed_step_on(
    expr: Expr,
    param: Seq<char>,
    bindings: FileBindingFacts,
    profile: KnowledgeProfile,
) -> bool {
    &&& expr.form matches Form::Call { arguments: _, keywords } && forall|k: int|
        0 <= k < keywords@.len() ==> (#[trigger] keywords@[k]) is Some
    &&& expr.parts@.len() > 1
    &&& expr.parts@[0].form matches Form::Attribute(method) && moves_on(method@)
    &&& expr.parts@[0].parts@.len() == 1
    &&& expr.parts@[0].parts@[0].form matches Form::Name(name) && name@ == param
    &&& forall|i: int|
        1 <= i < expr.parts@.len() ==> number_or_constant(
            #[trigger] expr.parts@[i],
            bindings,
            profile,
        )
}

/// Whether a callback has a first parameter `param` and none that is named
/// `dt`.
pub open spec fn takes_no_time(parameters: Parameters, param: Seq<char>) -> bool {
    &&& parameters.positional@.len() > 0
    &&& parameters.positional@[0]@ == param
    &&& forall|k: int|
        0 <= k < parameters.positional@.len() ==> (
        #[trigger] parameters.positional@[k])@ != "dt"@
    &&& forall|k: int|
        0 <= k < parameters.others@.len() ==> (#[trigger] parameters.others@[k])@
            != "dt"@
}

/// Whether a call can only add an updater to a mobject.
pub open spec fn adds_an_updater(context: RuleContext<'_>, call: QualifiedCall) -> bool {
    let id = "manim.mobject.mobject.Mobject.add_updater"@;
    &&& context.knowledge matches Some(profile) && profile.spec_symbol(id) is Some
    &&& call.candidates@.len() > 0
    &&& forall|c: int| 0 <= c < call.candidates@.len() ==> (#[trigger] call.candidates@[c])@ == id
}

/// Whether a call registers a lambda as updater of a mobject.
pub open spec fn registers_lambda(
    context: RuleContext<'_>,
    call: QualifiedCall,
    lambda: LambdaFact,
) -> bool {
    &&& adds_an_updater(context, call)
    &&& !call.has_star_args
    &&& call.spec_keyword("update_function"@) is None
    &&& call.positional_count > 0
    &&& call.arguments@.len() > 0
    &&& call.arguments@[0].shape is Lambda
    &&& syntax_in(*context.sources, call.file) matches Some(syntax) && exists|l: int|
        0 <= l < syntax.lambdas@.len() && (#[trigger] syntax.lambdas@[l]) == lambda
            && lambda.range == call.arguments@[0].range && forall|m: int|
            0 <= m < l ==> (#[trigger] syntax.lambdas@[m]).range != lambda.range
}

proof fn leading_is_told(
    bindings: FileBindingFacts,
    profile: KnowledgeProfile,
    parts: Seq<Seq<char>>,
)
    ensures
        leads_to_constant(bindings, profile, parts) <==> constant_path(
            profile,
            bindings.spec_resolve_parts(parts),
        ),
{
    match bindings.spec_resolve_parts(parts) {
        Some(path) => {
            match after_prefix(path, "manim."@) {
                Some(name) => {
                    assert(path =~= "manim."@ + name);
                },
                None => {},
            }
            if leads_to_constant(bindings, profile, parts) {
                let name = choose|name: Seq<char>|
                    bindings.spec_resolve_parts(parts) == Some(#[trigger] ("manim."@ + name))
                        && exports_constant(profile, name);
                let prefix = "manim."@;
                assert(path.subrange(0, prefix.len() as int) =~= prefix);
                assert(path.skip(prefix.len() as int) =~= name);
            }
        },
        None => {},
    }
}

proof fn numbers_are_constant_steps(
    expr: Expr,
    bindings: FileBindingFacts,
    profile: KnowledgeProfile,
)
    ensures
        number_or_constant(expr, bindings, profile) <==> constant_step(expr, bindings, profile),
    decreases expr,
{
    assert forall|i: int| 0 <= i < expr.parts@.len() implies (number_or_constant(
        #[trigger] expr.parts@[i],
        bindings,
        profile,
    ) <==> constant_step(expr.parts@[i], bindings, profile)) by {
        numbers_are_constant_steps(expr.parts@[i], bindings, profile);
    }
    match expr.form {
        Form::Name(name) => leading_is_told(bindings, profile, seq![name@]),
        Form::Attribute(_) => match dotted(expr) {
            Some(parts) => leading_is_told(bindings, profile, parts),
            None => {},
        },
        _ => {},
    }
}

proof fn fixed_step_is_found(expr: Expr, reader: ReaderView)
    requires
        fixed_step_on(expr, reader.param, reader.bindings, reader.profile),
    ensures
        step_of(expr, reader) matches Some(step) && step.1 == expr.range,
{
    assert forall|i: int| 1 <= i < expr.parts@.len() implies constant_step(
        #[trigger] expr.parts@[i],
        reader.bindings,
        reader.profile,
    ) by {
        numbers_are_constant_steps(expr.parts@[i], reader.bindings, reader.profile);
    }
}

proof fn inner_step_is_found(part: Expr, whole: Expr, reader: ReaderView)
    requires
        stands_in(part, whole),
        step_of(part, reader) is Some,
    ensures
        steps_in(whole, reader).contains(step_of(part, reader)->0),
    decreases whole,
{
    let step = step_of(part, reader)->0;
    let own = found(step_of(whole, reader));
    let below = gather(whole.parts@.len() as int, part_steps(whole, reader));
    let all = steps_in(whole, reader);
    assert(all == own + below);
    if part == whole {
        assert(own[0] == step);
        assert(all[0] == step);
    } else {
        let i = choose|i: int|
            0 <= i < whole.parts@.len() && stands_in(part, #[trigger] whole.parts@[i]);
        inner_step_is_found(part, whole.parts@[i], reader);
        assert(part_steps(whole, reader)(i) == steps_in(whole.parts@[i], reader));
        gathered_in(whole.parts@.len() as int, part_steps(whole, reader), i, step);
        let q = choose|q: int| 0 <= q < below.len() && below[q] == step;
        assert(all[own.len() + q] == step);
    }
}

proof fn lambda_is_found(lambdas: Seq<LambdaFact>, range: TextRange, l: int, i: int)
    requires
        0 <= i <= l < lambdas.len(),
        lambdas[l].range == range,
        forall|m: int| 0 <= m < l ==> (#[trigger] lambdas[m]).range != range,
    ensures
        lambda_from(lambdas, range, i) == Some(lambdas[l]),
    decreases l - i,
{
    if i < l {
        lambda_is_found(lambdas, range, l, i + 1);
    }
}

/// Whether an expression is a fixed step on the first parameter of the updater
/// that the call at `i` registers, and that updater takes no `dt`.
pub open spec fn is_fixed_step(
    context: RuleContext<'_>,
    i: int,
    param: Seq<char>,
    bindings: FileBindingFacts,
    expr: Expr,
) -> bool {
    let call = context.qualified_calls.calls@[i];
    &&& 0 <= i < context.qualified_calls.calls@.len()
    &&& context.knowledge is Some
    &&& call.candidates@.len() > 0
    &&& forall|c: int|
        0 <= c < call.candidates@.len() ==> candidate_symbol(
            *context.knowledge->0,
            (#[trigger] call.candidates@[c])@,
        ) == Some("manim.mobject.mobject.Mobject.add_updater"@)
    &&& context.qualified_calls.bindings.spec_file(call.file) == Some(bindings)
    &&& callback_argument(call) matches Some(argument) && (callback_of(
        context,
        call,
        argument,
    ) matches Some(body) && takes_no_time(body.spec_parameters(), param))
    &&& fixed_step_on(expr, param, bindings, *context.knowledge->0)
}

proof fn no_time_is_taken(parameters: Parameters)
    requires
        parameters.spec_first() is Some,
        !parameters.declares("dt"@),
    ensures
        takes_no_time(parameters, parameters.spec_first()->0),
{
    let first = texts(parameters.positional@);
    let rest = texts(parameters.others@);
    assert forall|k: int| 0 <= k < parameters.positional@.len() implies (
    #[trigger] parameters.positional@[k])@ != "dt"@ by {
        assert(first[k] == parameters.positional@[k]@);
        assert(first.contains(first[k]));
    }
    assert forall|k: int| 0 <= k < parameters.others@.len() implies (
    #[trigger] parameters.others@[k])@ != "dt"@ by {
        assert(rest[k] == parameters.others@[k]@);
        assert(rest.contains(rest[k]));
    }
}

proof fn steps_are_fixed(expr: Expr, reader: ReaderView)
    requires
        step_of(expr, reader) is Some,
    ensures
        fixed_step_on(expr, reader.param, reader.bindings, reader.profile),
        (step_of(expr, reader)->0).1 == expr.range,
        moves_on((step_of(expr, reader)->0).0),
{
    assert forall|i: int| 1 <= i < expr.parts@.len() implies number_or_constant(
        #[trigger] expr.parts@[i],
        reader.bindings,
        reader.profile,
    ) by {
        assert(constant_step(expr.parts@[i], reader.bindings, reader.profile));
        numbers_are_constant_steps(expr.parts@[i], reader.bindings, reader.profile);
    }
}

/// Every candidate of the rule is about the place that its key names, and
/// about a fixed step.
proof fn motion_is_placed(context: RuleContext<'_>, q: int) -> (w: (
    int,
    Seq<char>,
    FileBindingFacts,
    Expr,
))
    requires
        0 <= q < gather(context.qualified_calls.calls@.len() as int, motion_finder(context)).len(),
    ensures
        is_fixed_step(context, w.0, w.1, w.2, w.3),
        ({
            let item = gather(
                context.qualified_calls.calls@.len() as int,
                motion_finder(context),
            )[q];
            let call = context.qualified_calls.calls@[w.0];
            &&& item.1 is Some
            &&& item.0 == key_of(site_of(call.file, w.3.range))
            &&& points_at(context, item.1->0, call.file, w.3.range)
            &&& item.1->0.evidence["method"@] matches JsonView::Text(method) && moves_on(method)
        }),
{
    let n = context.qualified_calls.calls@.len() as int;
    let item = gather(n, motion_finder(context))[q];
    gathered_from(n, motion_finder(context), q);
    let i = choose|i: int| 0 <= i < n && (#[trigger] motion_finder(context)(i)).contains(item);
    let part = motion_at(context, i);
    assert(motion_finder(context)(i) == part);
    let p = choose|p: int| 0 <= p < part.len() && part[p] == item;
    let call = context.qualified_calls.calls@[i];
    let body = callback_of(context, call, callback_argument(call)->0)->0;
    let reader = ReaderView {
        param: body.spec_parameters().spec_first()->0,
        bindings: context.qualified_calls.bindings.spec_file(call.file)->0,
        profile: *context.knowledge->0,
    };
    let steps = body.spec_steps(reader);
    assert(part == motion_candidates(context, call, body.spec_label(), steps));
    assert(steps.contains(steps[p]));
    let found = match body {
        CallbackBody::Lambda(lambda) => steps_move_on(lambda.body, reader, steps[p]),
        CallbackBody::Function(function) => body_steps_move_on(function.body@, reader, steps[p]),
    };
    steps_are_fixed(found, reader);
    no_time_is_taken(body.spec_parameters());
    reveal_strlit("method");
    reveal_strlit("callback");
    reveal_strlit("declares_dt");
    assert("method"@.len() != "callback"@.len());
    assert("method"@.len() != "declares_dt"@.len());
    (i, reader.param, reader.bindings, found)
}

proof fn steps_move_on(expr: Expr, reader: ReaderView, step: (Seq<char>, TextRange)) -> (found: Expr)
    requires
        steps_in(expr, reader).contains(step),
    ensures
        step_of(found, reader) == Some(step),
        stands_in(found, expr),
    decreases expr,
{
    let own = found(step_of(expr, reader));
    let below = gather(expr.parts@.len() as int, part_steps(expr, reader));
    let all = steps_in(expr, reader);
    assert(all == own + below);
    let k = choose|k: int| 0 <= k < all.len() && all[k] == step;
    if k >= own.len() {
        assert(below[k - own.len()] == step);
        gathered_from(expr.parts@.len() as int, part_steps(expr, reader), k - own.len());
        let i = choose|i: int|
            0 <= i < expr.parts@.len() && (#[trigger] part_steps(expr, reader)(i)).contains(step);
        assert(part_steps(expr, reader)(i) == steps_in(expr.parts@[i], reader));
        let inner = steps_move_on(expr.parts@[i], reader, step);
        assert(stands_in(inner, expr.parts@[i]));
        inner
    } else {
        assert(own[k] == step);
        expr
    }
}

proof fn list_steps_move_on(
    list: Seq<Expr>,
    reader: ReaderView,
    step: (Seq<char>, TextRange),
) -> (found: Expr)
    requires
        steps_in_list(list, reader).contains(step),
    ensures
        step_of(found, reader) == Some(step),
{
    let f = list_steps(list, reader);
    let all = gather(list.len() as int, f);
    let k = choose|k: int| 0 <= k < all.len() && all[k] == step;
    gathered_from(list.len() as int, f, k);
    let i = choose|i: int| 0 <= i < list.len() && (#[trigger] f(i)).contains(step);
    assert(f(i) == steps_in(list[i], reader));
    steps_move_on(list[i], reader, step)
}

proof fn stmt_steps_move_on(
    stmt: Stmt,
    reader: ReaderView,
    step: (Seq<char>, TextRange),
) -> (found: Expr)
    requires
        steps_in_stmt(stmt, reader).contains(step),
    ensures
        step_of(found, reader) == Some(step),
    decreases stmt,
{
    let a = steps_in_list(stmt.values@, reader);
    let b = steps_in_list(stmt.targets@, reader);
    let fc = body_steps(stmt, reader);
    let fd = rest_steps(stmt, reader);
    let c = gather(stmt.body@.len() as int, fc);
    let d = gather(stmt.rest@.len() as int, fd);
    let all = a + b + c + d;
    let k = choose|k: int| 0 <= k < all.len() && all[k] == step;
    if k < a.len() {
        assert(a[k] == step);
        list_steps_move_on(stmt.values@, reader, step)
    } else if k < a.len() + b.len() {
        assert(b[k - a.len()] == step);
        list_steps_move_on(stmt.targets@, reader, step)
    } else if k < a.len() + b.len() + c.len() {
        let m = k - a.len() - b.len();
        assert(c[m] == step);
        gathered_from(stmt.body@.len() as int, fc, m);
        let i = choose|i: int| 0 <= i < stmt.body@.len() && (#[trigger] fc(i)).contains(step);
        stmt_steps_move_on(stmt.body@[i], reader, step)
    } else {
        let m = k - a.len() - b.len() - c.len();
        assert(d[m] == step);
        gathered_from(stmt.rest@.len() as int, fd, m);
        let i = choose|i: int| 0 <= i < stmt.rest@.len() && (#[trigger] fd(i)).contains(step);
        stmt_steps_move_on(stmt.rest@[i], reader, step)
    }
}

proof fn body_steps_move_on(
    body: Seq<Stmt>,
    reader: ReaderView,
    step: (Seq<char>, TextRange),
) -> (found: Expr)
    requires
        steps_in_body(body, reader).contains(step),
    ensures
        step_of(found, reader) == Some(step),
{
    let f = block_steps(body, reader);
    let all = gather(body.len() as int, f);
    let k = choose|k: int| 0 <= k < all.len() && all[k] == step;
    gathered_from(body.len() as int, f, k);
    let i = choose|i: int| 0 <= i < body.len() && (#[trigger] f(i)).contains(step);
    stmt_steps_move_on(body[i], reader, step)
}

proof fn step_is_reported(
    context: RuleContext<'_>,
    i: int,
    body: CallbackBody<'_>,
    bindings: FileBindingFacts,
    param: Seq<char>,
    expr: Expr,
)
    requires
        0 <= i < context.qualified_calls.calls@.len(),
        adds_an_updater(context, context.qualified_calls.calls@[i]),
        callback_argument(context.qualified_calls.calls@[i]) is Some,
        callback_of(
            context,
            context.qualified_calls.calls@[i],
            callback_argument(context.qualified_calls.calls@[i])->0,
        ) == Some(body),
        context.qualified_calls.bindings.spec_file(context.qualified_calls.calls@[i].file) == Some(
            bindings,
        ),
        takes_no_time(body.spec_parameters(), param),
        step_of(expr, (ReaderView { param, bindings, profile: *context.knowledge->0 })) is Some,
        body.spec_steps((ReaderView { param, bindings, profile: *context.knowledge->0 })).contains(
            step_of(expr, (ReaderView { param, bindings, profile: *context.knowledge->0 }))->0,
        ),
    ensures
        reported_at(
            context,
            FpsDependentUpdaterMotion.findings(context),
            context.qualified_calls.calls@[i].file,
            expr.range,
        ),
{
    let n = context.qualified_calls.calls@.len() as int;
    let call = context.qualified_calls.calls@[i];
    let profile = *context.knowledge->0;
    let reader = ReaderView { param, bindings, profile };
    let steps = body.spec_steps(reader);
    let step = step_of(expr, reader)->0;
    let k = choose|k: int| 0 <= k < steps.len() && steps[k] == step;
    assert forall|c: int| 0 <= c < call.candidates@.len() implies candidate_symbol(
        profile,
        (#[trigger] call.candidates@[c])@,
    ) == Some("manim.mobject.mobject.Mobject.add_updater"@) by {
        assert(call.candidates@[c]@ == "manim.mobject.mobject.Mobject.add_updater"@);
    }
    assert(adds_updater(profile, call.candidates@));
    let parameters = body.spec_parameters();
    assert(!parameters.declares("dt"@)) by {
        assert(forall|k: int|
            0 <= k < texts(parameters.positional@).len() ==> #[trigger] texts(
                parameters.positional@,
            )[k] == parameters.positional@[k]@);
        assert(forall|k: int|
            0 <= k < texts(parameters.others@).len() ==> #[trigger] texts(parameters.others@)[k]
                == parameters.others@[k]@);
    }
    let part = motion_at(context, i);
    assert(part == motion_candidates(context, call, body.spec_label(), steps));
    let item = part[k];
    assert(part.contains(item));
    assert(motion_finder(context)(i) == part);
    gathered_in(n, motion_finder(context), i, item);
    let list = gather(n, motion_finder(context));
    let p = choose|p: int| 0 <= p < list.len() && list[p] == item;
    assert(item.0.first == site_of(call.file, expr.range));
    assert forall|q: int| 0 <= q < list.len() && (#[trigger] list[q]).0 == list[p].0 implies
        list[q].1 is Some && points_at(context, list[q].1->0, call.file, expr.range) by {
        let w = motion_is_placed(context, q);
        assert(key_of(site_of(context.qualified_calls.calls@[w.0].file, w.3.range)).first == site_of(
            call.file,
            expr.range,
        ));
    }
    candidate_is_reported(context, list, p, call.file, expr.range);
}

/// A lambda updater without `dt` that anywhere in its body shifts, rotates,
/// scales, or increments its own mobject by numbers and constants alone is
/// reported at that call.
pub proof fn fixed_steps_are_reported(
    context: RuleContext<'_>,
    i: int,
    lambda: LambdaFact,
    bindings: FileBindingFacts,
    param: Seq<char>,
    expr: Expr,
)
    requires
        0 <= i < context.qualified_calls.calls@.len(),
        registers_lambda(context, context.qualified_calls.calls@[i], lambda),
        context.qualified_calls.bindings.spec_file(context.qualified_calls.calls@[i].file) == Some(
            bindings,
        ),
        takes_no_time(lambda.parameters, param),
        stands_in(expr, lambda.body),
        fixed_step_on(expr, param, bindings, *context.knowledge->0),
    ensures
        reported_at(
            context,
            FpsDependentUpdaterMotion.findings(context),
            context.qualified_calls.calls@[i].file,
            expr.range,
        ),
{
    let call = context.qualified_calls.calls@[i];
    let profile = *context.knowledge->0;
    let syntax = syntax_in(*context.sources, call.file)->0;
    let l = choose|l: int|
        0 <= l < syntax.lambdas@.len() && (#[trigger] syntax.lambdas@[l]) == lambda
            && lambda.range == call.arguments@[0].range && forall|m: int|
            0 <= m < l ==> (#[trigger] syntax.lambdas@[m]).range != lambda.range;
    lambda_is_found(syntax.lambdas@, lambda.range, l, 0);
    let argument = call.arguments@[0];
    assert(callback_argument(call) == Some(argument));
    let body = CallbackBody::Lambda(&lambda);
    assert(callback_of(context, call, argument) == Some(body));
    let reader = ReaderView { param, bindings, profile };
    fixed_step_is_found(expr, reader);
    inner_step_is_found(expr, lambda.body, reader);
    step_is_reported(context, i, body, bindings, param, expr);
}

/// Whether a call registers this function of its file as updater of a mobject,
/// by a name that no other function has.
pub open spec fn registers_function(
    context: RuleContext<'_>,
    call: QualifiedCall,
    function: FunctionFact,
) -> bool {
    &&& adds_an_updater(context, call)
    &&& !call.has_star_args
    &&& call.spec_keyword("update_function"@) is None
    &&& call.positional_count > 0
    &&& call.arguments@.len() > 0
    &&& call.arguments@[0].shape is Name
    &&& syntax_in(*context.sources, call.file) matches Some(syntax) && syntax.spec_unique(
        slice_in(*context.sources, call.file, call.arguments@[0].range),
    ) == Some(function)
}

/// A function updater without `dt` takes a fixed step like a lambda does, and
/// is reported like one, wherever a statement of its body takes it.
pub proof fn fixed_steps_of_functions_are_reported(
    context: RuleContext<'_>,
    i: int,
    function: FunctionFact,
    bindings: FileBindingFacts,
    param: Seq<char>,
    b: int,
    v: int,
    expr: Expr,
)
    requires
        0 <= i < context.qualified_calls.calls@.len(),
        registers_function(context, context.qualified_calls.calls@[i], function),
        context.qualified_calls.bindings.spec_file(context.qualified_calls.calls@[i].file) == Some(
            bindings,
        ),
        takes_no_time(function.parameters, param),
        0 <= b < function.body@.len(),
        0 <= v < function.body@[b].values@.len(),
        stands_in(expr, function.body@[b].values@[v]),
        fixed_step_on(expr, param, bindings, *context.knowledge->0),
    ensures
        reported_at(
            context,
            FpsDependentUpdaterMotion.findings(context),
            context.qualified_calls.calls@[i].file,
            expr.range,
        ),
{
    let call = context.qualified_calls.calls@[i];
    let profile = *context.knowledge->0;
    let argument = call.arguments@[0];
    assert(callback_argument(call) == Some(argument));
    let body = CallbackBody::Function(&function);
    assert(callback_of(context, call, argument) == Some(body));
    let reader = ReaderView { param, bindings, profile };
    fixed_step_is_found(expr, reader);
    let stmt = function.body@[b];
    let step = step_of(expr, reader)->0;
    inner_step_is_found(expr, stmt.values@[v], reader);
    let f = list_steps(stmt.values@, reader);
    assert(f(v) == steps_in(stmt.values@[v], reader));
    gathered_in(stmt.values@.len() as int, f, v, step);
    let first = steps_in_list(stmt.values@, reader);
    let whole = steps_in_stmt(stmt, reader);
    let q = choose|q: int| 0 <= q < first.len() && first[q] == step;
    assert(whole[q] == step);
    let blocks = block_steps(function.body@, reader);
    assert(blocks(b) == whole);
    gathered_in(function.body@.len() as int, blocks, b, step);
    step_is_reported(context, i, body, bindings, param, expr);
}

/// Every report on updater motion is about a step by numbers and constants
/// alone, and names the method that takes it.
pub proof fn only_fixed_steps_are_reported(context: RuleContext<'_>, k: int) -> (w: (
    int,
    Seq<char>,
    FileBindingFacts,
    Expr,
))
    requires
        0 <= k < FpsDependentUpdaterMotion.findings(context).len(),
    ensures
        is_fixed_step(context, w.0, w.1, w.2, w.3),
        points_at(
            context,
            FpsDependentUpdaterMotion.findings(context)[k],
            context.qualified_calls.calls@[w.0].file,
            w.3.range,
        ),
        FpsDependentUpdaterMotion.findings(context)[k].evidence["method"@] matches JsonView::Text(
            method,
        ) && moves_on(method),
{
    let list = gather(context.qualified_calls.calls@.len() as int, motion_finder(context));
    kept_from_candidates(list, k);
    let entry = kept_entries(list)[k];
    let r = choose|r: int| 0 <= r < list.len() && list[r] == (entry.0, Some(entry.1));
    motion_is_placed(context, r)
}

} // verus!
