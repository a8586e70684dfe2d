//! What it means that two things are the same, and which one is meant.
use super::requirements::{redraw_is_told, redraws_always, redraws_only};
use crate::ast::{lambda_from, named_from, FunctionFact, Syntax};
use crate::knowledge::{member_of, owner_of, resolved, KnowledgeProfile};
use crate::rules::base::RuleContext;
use crate::rules::performance::redraw_geometry::{claimed, stable_redraw};
use crate::rules::performance::support::candidate_symbol;
use crate::rules::performance::updater_waste::{callback_steady, steady_shape};
use crate::semantic::{same_updater, CallbackRef, Cardinality, ObjectId, Truth, UpdaterFact};
use vstd::prelude::*;

verus! {

/// Two objects are certainly the same when they are equal and single, may be
/// the same when they come from one place, and are certainly different
/// otherwise.
pub proof fn sameness_is_told(a: ObjectId, b: ObjectId)
    ensures
        a.same(b) <==> a.site == b.site && a.cardinality == Cardinality::Singleton && b.cardinality
            == Cardinality::Singleton,
        a.maybe_same(b) == Truth::Yes <==> a.same(b),
        a.maybe_same(b) == Truth::No <==> a.site != b.site,
        a.same(b) == b.same(a),
        a.maybe_same(b) == b.maybe_same(a),
{
}

/// Two updaters are the same when they take the same time step and are one
/// lambda, one function, or both unknown.
pub proof fn updaters_are_told_apart(a: UpdaterFact, b: UpdaterFact)
    ensures
        same_updater(a, a),
        same_updater(a, b) == same_updater(b, a),
        same_updater(a, b) ==> a.time_based == b.time_based,
        same_updater(a, b) && a.callback is Lambda ==> b.callback == a.callback,
        same_updater(a, b) && a.callback is Named ==> b.callback is Named && (a.callback->Named_0)@
            == (b.callback->Named_0)@,
        same_updater(a, b) && a.callback is Unknown ==> b.callback is Unknown,
        a.callback == b.callback && a.time_based == b.time_based ==> same_updater(a, b),
{
}

proof fn name_is_found(list: Seq<FunctionFact>, name: Seq<char>, i: int)
    requires
        0 <= i <= list.len(),
    ensures
        match named_from(list, name, i) {
            Some(k) => i <= k < list.len() && list[k].name@ == name && forall|j: int|
                i <= j < k ==> (#[trigger] list[j]).name@ != name,
            None => forall|j: int| i <= j < list.len() ==> (#[trigger] list[j]).name@ != name,
        },
    decreases list.len() - i,
{
    if i < list.len() {
        name_is_found(list, name, i + 1);
    }
}

/// A name means a function of a file when exactly one function has it.
pub proof fn unique_functions_are_meant(syntax: Syntax, name: Seq<char>, k: int)
    requires
        0 <= k < syntax.functions@.len(),
        syntax.functions@[k].name@ == name,
    ensures
        syntax.spec_unique(name) == if forall|j: int|
            0 <= j < syntax.functions@.len() && (#[trigger] syntax.functions@[j]).name@ == name ==> j
                == k {
            Some(syntax.functions@[k])
        } else {
            None
        },
{
    let list = syntax.functions@;
    name_is_found(list, name, 0);
    let first = named_from(list, name, 0)->0;
    name_is_found(list, name, first + 1);
    match named_from(list, name, first + 1) {
        Some(second) => {
            assert(list[second].name@ == name);
            assert(list[first].name@ == name);
        },
        None => {},
    }
}

/// A candidate below `manim` that stands for nothing by itself stands for what
/// the package exports under its name.
pub proof fn exports_are_meant(profile: KnowledgeProfile, candidate: Seq<char>)
    requires
        resolved(profile, candidate) is None,
    ensures
        owner_of(candidate) == Some("manim"@) ==> (candidate_symbol(profile, candidate)
            == match profile.spec_resolve_export(member_of(candidate)) {
            Some(entry) => Some(entry.id@),
            None => None,
        }),
        owner_of(candidate) != Some("manim"@) ==> candidate_symbol(profile, candidate) is None,
{
}

/// A call belongs to a stable redraw when it is one, or builds the shape of
/// one.
pub proof fn claimed_calls_redraw(context: RuleContext<'_>, call_index: usize)
    requires
        call_index < context.qualified_calls.calls@.len(),
    ensures
        redraws_always(context, call_index as int) && (exists|j: int|
            #[trigger] redraws_only(context, call_index as int, j)) ==> claimed(
            context,
            call_index,
        ),
        claimed(context, call_index) ==> exists|i: int|
            0 <= i < context.qualified_calls.calls@.len() && #[trigger] redraws_always(context, i),
{
    redraw_is_told(context, call_index as int);
    if claimed(context, call_index) {
        let i = choose|i: int|
            0 <= i < context.qualified_calls.calls@.len() && (#[trigger] stable_redraw(
                context,
                i,
            )) is Some && (call_index == i || stable_redraw(context, i) == Some(call_index));
        redraw_is_told(context, i);
        assert(redraws_always(context, i));
    }
    if stable_redraw(context, call_index as int) is Some {
        assert(claimed(context, call_index));
    }
}

/// A lambda is steady exactly when its body is, for its first parameter; what
/// is unknown is not.
pub proof fn steady_callbacks_are_told(syntax: Syntax, callback: CallbackRef)
    ensures
        callback matches CallbackRef::Lambda(site) ==> (callback_steady(syntax, callback) <==> (
        lambda_from(syntax.lambdas@, site.spec_range(), 0) matches Some(lambda)
            && lambda.parameters.positional@.len() > 0 && steady_shape(
            lambda.body,
            lambda.parameters.positional@[0]@,
        ))),
        callback is Unknown ==> !callback_steady(syntax, callback),
{
}

} // verus!
