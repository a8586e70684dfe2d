//! What the lifecycle rules on the arguments of a call are for.
use super::arguments::plays;
use super::lifecycle::{fluent_method, mobject_class};
use super::{
    argument_places, arguments_stand, class_settled, may_only_call, owed, parts_stand,
    receiver_settled, stand_at, target_is_exact, Place,
};
use crate::frontend::{
    ArgShape, AttributeFact, CallArgument, ClassRecord, ManimKind, ProjectIndex, QualifiedCall,
    ReceiverKind,
};
use crate::knowledge::{owner_of, resolved, KnowledgeProfile, SymbolKind};
use crate::rules::base::{Rule, RuleContext};
use crate::rules::lifecycle::callbacks::{
    function_from, no_mobject_at, no_mobject_finder, same_signature, ApplyFunctionCallbackNoMobject,
};
use crate::rules::lifecycle::membership::{
    all_children, argument_child, child_finder, child_of, container_in, duplicate_finder,
    duplicate_finding, duplicates_at, duplicates_finder, invalid_children_at,
    invalid_children_finder, name_at, uniform_child, ChildKind, Container, DuplicateChild,
    InvalidFamilyChild,
};
use crate::rules::lifecycle::play_args::{
    all_produce, apply_method_at, apply_method_finder, argument_finding, bound_method,
    bound_method_positions, bound_methods_at, bound_methods_finder, candidate_verdict,
    non_animation_at, non_animation_finder, position_finder, verdict_of, ApplyMethodCallResult,
    BoundMethodPlayArgument, InnerView, NonAnimationPlayArgument,
};
use crate::rules::lifecycle::support::{
    agreed_symbol, all_sure_mobjects, bases_curated, class_fact, mobject_method, reaches_vectorized,
    ClassKind,
};
use crate::semantic::{function_return_in, lambda_return_in, Truth};
use crate::source::{site_of, slice_in};
use crate::text::{contains_text, found, gather, texts};
use vstd::prelude::*;

verus! {

/// Whether a class of the project has this role and no other.
pub open spec fn only_role(record: ClassRecord, role: ManimKind) -> bool {
    &&& record.kinds@.contains(role)
    &&& role != ManimKind::Scene ==> !record.kinds@.contains(ManimKind::Scene)
    &&& role != ManimKind::Mobject ==> !record.kinds@.contains(ManimKind::Mobject)
    &&& role != ManimKind::Animation ==> !record.kinds@.contains(ManimKind::Animation)
}

/// Whether everything that a class of the project descends from is curated.
pub open spec fn descent_known(profile: KnowledgeProfile, record: ClassRecord) -> bool {
    record.bases_fully_resolved && forall|b: int|
        0 <= b < record.reached_bases@.len() ==> profile.spec_symbol(
            (#[trigger] record.reached_bases@[b])@,
        ) is Some
}

/// Whether a class of the project descends from a vectorized mobject.
pub open spec fn descends_from_vectorized(profile: KnowledgeProfile, record: ClassRecord) -> bool {
    exists|b: int|
        0 <= b < record.reached_bases@.len() && (profile.spec_symbol(
            (#[trigger] record.reached_bases@[b])@,
        ) matches Some(entry) && entry.kind == SymbolKind::Vmobject)
}

/// Whether a class is one of mobjects, curated or of the project.
pub open spec fn mobject_family(
    profile: KnowledgeProfile,
    index: ProjectIndex,
    id: Seq<char>,
) -> bool {
    match profile.spec_symbol(id) {
        Some(entry) => entry.kind == SymbolKind::Mobject || entry.kind == SymbolKind::Vmobject,
        None => index.spec_class(id) matches Some(record) && only_role(record, ManimKind::Mobject),
    }
}

/// Whether a class is certainly one of mobjects.
pub open spec fn sure_mobject_class(
    profile: KnowledgeProfile,
    index: ProjectIndex,
    id: Seq<char>,
) -> bool {
    match profile.spec_symbol(id) {
        Some(entry) => entry.kind == SymbolKind::Mobject || entry.kind == SymbolKind::Vmobject,
        None => index.spec_class(id) matches Some(record) && only_role(record, ManimKind::Mobject)
            && descent_known(profile, record),
    }
}

/// Whether a class is one of vectorized mobjects.
pub open spec fn vectorized_class(
    profile: KnowledgeProfile,
    index: ProjectIndex,
    id: Seq<char>,
) -> bool {
    match profile.spec_symbol(id) {
        Some(entry) => entry.kind == SymbolKind::Vmobject,
        None => index.spec_class(id) matches Some(record) && only_role(record, ManimKind::Mobject)
            && descends_from_vectorized(profile, record),
    }
}

/// Whether a class is certainly one of mobjects that are not vectorized.
pub open spec fn plain_class(
    profile: KnowledgeProfile,
    index: ProjectIndex,
    id: Seq<char>,
) -> bool {
    match profile.spec_symbol(id) {
        Some(entry) => entry.kind == SymbolKind::Mobject,
        None => index.spec_class(id) matches Some(record) && only_role(record, ManimKind::Mobject)
            && descent_known(profile, record) && !descends_from_vectorized(profile, record),
    }
}

/// Whether a class is certainly none of mobjects.
pub open spec fn foreign_class(
    profile: KnowledgeProfile,
    index: ProjectIndex,
    id: Seq<char>,
) -> bool {
    match profile.spec_symbol(id) {
        Some(entry) => entry.kind == SymbolKind::Scene || entry.kind == SymbolKind::Animation
            || entry.kind == SymbolKind::Camera,
        None => index.spec_class(id) matches Some(record) && descent_known(profile, record) && (
        only_role(record, ManimKind::Scene) || only_role(record, ManimKind::Animation) || (
        !record.kinds@.contains(ManimKind::Scene) && !record.kinds@.contains(ManimKind::Mobject)
            && !record.kinds@.contains(ManimKind::Animation))),
    }
}

/// Whether a class is one of mobjects that no known base makes vectorized.
pub open spec fn unvectorized_class(
    profile: KnowledgeProfile,
    index: ProjectIndex,
    id: Seq<char>,
) -> bool {
    mobject_family(profile, index, id) && !vectorized_class(profile, index, id)
}

/// Whether a curated id is a method of a mobject class.
pub open spec fn method_of_mobject(
    profile: KnowledgeProfile,
    index: ProjectIndex,
    id: Seq<char>,
) -> bool {
    owner_of(id) matches Some(class) && mobject_family(profile, index, class)
}

pub(crate) proof fn class_is_told(profile: KnowledgeProfile, index: ProjectIndex, id: Seq<char>)
    ensures
        mobject_family(profile, index, id) <==> (class_fact(profile, index, id) matches Some(fact)
            && (fact.kind == ClassKind::Vmobject || fact.kind == ClassKind::MobjectOnly)),
        sure_mobject_class(profile, index, id) <==> (class_fact(profile, index, id) matches Some(
            fact,
        ) && fact.sure_mobject()),
        vectorized_class(profile, index, id) <==> (class_fact(profile, index, id) matches Some(fact)
            && fact.kind == ClassKind::Vmobject),
        child_of(profile, index, id) == Some(ChildKind::NonMobject) <==> foreign_class(
            profile,
            index,
            id,
        ),
        child_of(profile, index, id) == Some(ChildKind::PlainMobject) <==> plain_class(
            profile,
            index,
            id,
        ),
{
    match index.spec_class(id) {
        Some(record) => {
            assert(bases_curated(profile, record) && record.bases_fully_resolved <==> descent_known(
                profile,
                record,
            ));
            if reaches_vectorized(profile, record) {
                let b = choose|b: int|
                    0 <= b < record.reached_bases@.len() && match profile.spec_symbol(
                        (#[trigger] record.reached_bases@[b])@,
                    ) {
                        Some(entry) => entry.kind == SymbolKind::Vmobject,
                        None => false,
                    };
                assert(descends_from_vectorized(profile, record));
            }
        },
        None => {},
    }
}

proof fn method_owner_is_told(profile: KnowledgeProfile, index: ProjectIndex, id: Seq<char>)
    ensures
        mobject_method(profile, index, id) <==> method_of_mobject(profile, index, id),
{
    match owner_of(id) {
        Some(class) => class_is_told(profile, index, class),
        None => {},
    }
}

/// What a candidate stands for: a curated symbol, or itself.
pub open spec fn stands_for(profile: KnowledgeProfile, candidate: Seq<char>) -> Seq<char> {
    match resolved(profile, candidate) {
        Some(id) => id,
        None => candidate,
    }
}

/// Whether the candidates of a call are known, agree on one symbol, and are
/// called outright, not through `.animate`.
pub open spec fn one_callee(
    context: RuleContext<'_>,
    outer: QualifiedCall,
    inner: QualifiedCall,
) -> bool {
    &&& context.knowledge is Some
    &&& inner.candidates@.len() > 0
    &&& receiver_settled(context.project_index, inner)
    &&& !contains_text(slice_in(*context.sources, outer.file, inner.callee_range), ".animate"@)
    &&& forall|c: int|
        0 <= c < inner.candidates@.len() ==> stands_for(
            *context.knowledge->0,
            (#[trigger] inner.candidates@[c])@,
        ) == stands_for(*context.knowledge->0, inner.candidates@[0]@)
}

/// Whether an argument is a call that can only make a mobject.
pub open spec fn makes_mobject(
    context: RuleContext<'_>,
    outer: QualifiedCall,
    inner: QualifiedCall,
) -> bool {
    one_callee(context, outer, inner) && forall|c: int|
        0 <= c < inner.candidates@.len() ==> mobject_class(
            *context.knowledge->0,
            context.project_index,
            (#[trigger] inner.candidates@[c])@,
        )
}

/// Whether an argument is a call of a mobject method that changes the mobject
/// at once and gives it back.
pub open spec fn changes_at_once(
    context: RuleContext<'_>,
    outer: QualifiedCall,
    inner: QualifiedCall,
) -> bool {
    one_callee(context, outer, inner) && forall|c: int|
        0 <= c < inner.candidates@.len() ==> fluent_method(
            *context.knowledge->0,
            (#[trigger] inner.candidates@[c])@,
        ) && method_of_mobject(
            *context.knowledge->0,
            context.project_index,
            stands_for(*context.knowledge->0, inner.candidates@[c]@),
        )
}

proof fn candidate_is_told(profile: KnowledgeProfile, index: ProjectIndex, candidate: Seq<char>)
    ensures
        candidate_verdict(profile, index, candidate) matches Some(InnerView::Constructed(id)) ==> id
            == stands_for(profile, candidate) && mobject_class(profile, index, candidate),
        mobject_class(profile, index, candidate) ==> candidate_verdict(profile, index, candidate)
            == Some(InnerView::Constructed(stands_for(profile, candidate))),
        candidate_verdict(profile, index, candidate) matches Some(InnerView::MethodResult(id))
            ==> id == stands_for(profile, candidate) && fluent_method(profile, candidate)
            && method_of_mobject(profile, index, id),
        fluent_method(profile, candidate) && method_of_mobject(
            profile,
            index,
            stands_for(profile, candidate),
        ) ==> candidate_verdict(profile, index, candidate) == Some(
            InnerView::MethodResult(stands_for(profile, candidate)),
        ),
{
    class_is_told(profile, index, candidate);
    method_owner_is_told(profile, index, stands_for(profile, candidate));
}

proof fn inner_call_is_told(
    context: RuleContext<'_>,
    outer: QualifiedCall,
    inner: QualifiedCall,
)
    requires
        context.knowledge is Some,
    ensures
        ({
            let verdict = verdict_of(
                *context.knowledge->0,
                context.project_index,
                slice_in(*context.sources, outer.file, inner.callee_range),
                inner,
            );
            &&& makes_mobject(context, outer, inner) <==> (verdict matches Some(
                InnerView::Constructed(_),
            ))
            &&& changes_at_once(context, outer, inner) <==> (verdict matches Some(
                InnerView::MethodResult(_),
            ))
        }),
{
    let profile = *context.knowledge->0;
    let index = context.project_index;
    let list = texts(inner.candidates@);
    assert(forall|c: int| 0 <= c < list.len() ==> #[trigger] list[c] == inner.candidates@[c]@);
    assert forall|c: int| 0 <= c < list.len() implies ({
        let id = #[trigger] inner.candidates@[c]@;
        &&& candidate_verdict(profile, index, id) matches Some(InnerView::Constructed(x)) ==> x
            == stands_for(profile, id) && mobject_class(profile, index, id)
        &&& mobject_class(profile, index, id) ==> candidate_verdict(profile, index, id) == Some(
            InnerView::Constructed(stands_for(profile, id)),
        )
        &&& candidate_verdict(profile, index, id) matches Some(InnerView::MethodResult(x)) ==> x
            == stands_for(profile, id) && fluent_method(profile, id) && method_of_mobject(
            profile,
            index,
            x,
        )
        &&& fluent_method(profile, id) && method_of_mobject(profile, index, stands_for(profile, id))
            ==> candidate_verdict(profile, index, id) == Some(
            InnerView::MethodResult(stands_for(profile, id)),
        )
    }) by {
        candidate_is_told(profile, index, inner.candidates@[c]@);
    }
    if inner.candidates@.len() > 0 {
        assert(list[0] == inner.candidates@[0]@);
        let text = slice_in(*context.sources, outer.file, inner.callee_range);
        match verdict_of(profile, index, text, inner) {
            Some(verdict) => {
                assert forall|c: int| 0 <= c < inner.candidates@.len() implies candidate_verdict(
                    profile,
                    index,
                    (#[trigger] inner.candidates@[c])@,
                ) == Some(verdict) by {
                    assert(list[c] == inner.candidates@[c]@);
                }
            },
            None => {},
        }
        if makes_mobject(context, outer, inner) || changes_at_once(context, outer, inner) {
            let verdict = candidate_verdict(profile, index, list[0])->0;
            assert(mobject_class(profile, index, inner.candidates@[0]@) || fluent_method(
                profile,
                inner.candidates@[0]@,
            ));
            assert forall|c: int| 0 <= c < list.len() implies candidate_verdict(
                profile,
                index,
                #[trigger] list[c],
            ) == Some(verdict) by {
                let id = inner.candidates@[c]@;
                assert(stands_for(profile, id) == stands_for(profile, inner.candidates@[0]@));
            }
            assert(all_produce(profile, index, list, verdict));
        }
    }
}

/// Whether an argument of `play` is a number, a string, a mobject, or what a
/// mobject method gives back.
pub open spec fn no_animation(
    context: RuleContext<'_>,
    call: QualifiedCall,
    argument: CallArgument,
) -> bool {
    let calls = context.qualified_calls.calls@;
    match argument.shape {
        ArgShape::Literal => argument.literal matches Some(literal) && (literal is Int
            || literal is Float || literal is Str),
        ArgShape::Name => argument.kind_candidates@.len() > 0 && forall|c: int|
            0 <= c < argument.kind_candidates@.len() ==> sure_mobject_class(
                *context.knowledge->0,
                context.project_index,
                (#[trigger] argument.kind_candidates@[c])@,
            ),
        ArgShape::Call(inner) => inner < calls.len() && (makes_mobject(
            context,
            call,
            calls[inner as int],
        ) || changes_at_once(context, call, calls[inner as int])),
        _ => false,
    }
}

proof fn argument_is_told(context: RuleContext<'_>, call: QualifiedCall, argument: CallArgument)
    requires
        context.knowledge is Some,
    ensures
        stand_at(
            context,
            found(argument_finding(context, *context.knowledge->0, call, argument)),
            owed(no_animation(context, call, argument), call.file, argument.range),
        ),
{
    let profile = *context.knowledge->0;
    match argument.shape {
        ArgShape::Name => {
            let kinds = texts(argument.kind_candidates@);
            assert(forall|c: int|
                0 <= c < kinds.len() ==> #[trigger] kinds[c] == argument.kind_candidates@[c]@);
            assert forall|c: int| 0 <= c < kinds.len() implies (sure_mobject_class(
                profile,
                context.project_index,
                (#[trigger] argument.kind_candidates@[c])@,
            ) <==> (class_fact(profile, context.project_index, kinds[c]) matches Some(fact)
                && fact.sure_mobject())) by {
                class_is_told(profile, context.project_index, kinds[c]);
            }
            if all_sure_mobjects(profile, context.project_index, kinds) {
                assert forall|c: int|
                    0 <= c < argument.kind_candidates@.len() implies sure_mobject_class(
                    profile,
                    context.project_index,
                    (#[trigger] argument.kind_candidates@[c])@,
                ) by {
                    assert(kinds[c] == argument.kind_candidates@[c]@);
                }
            }
            if no_animation(context, call, argument) {
                assert forall|c: int| 0 <= c < kinds.len() implies match class_fact(
                    profile,
                    context.project_index,
                    #[trigger] kinds[c],
                ) {
                    Some(fact) => fact.sure_mobject(),
                    None => false,
                } by {
                    assert(sure_mobject_class(
                        profile,
                        context.project_index,
                        argument.kind_candidates@[c]@,
                    ));
                }
            }
        },
        ArgShape::Call(inner) => {
            if inner < context.qualified_calls.calls@.len() {
                inner_call_is_told(context, call, context.qualified_calls.calls@[inner as int]);
            }
        },
        _ => {},
    }
}

/// The arguments of a `play` that are no animations.
pub open spec fn unplayable_owed(context: RuleContext<'_>, i: int) -> Seq<Place> {
    let call = context.qualified_calls.calls@[i];
    if plays(context, call) {
        argument_places(
            call,
            |p: int, argument: CallArgument| no_animation(context, call, argument),
        )
    } else {
        Seq::empty()
    }
}

/// Every argument of a `play` that is a number, a string, a mobject, or what a
/// mobject method gives back is reported, and nothing else is.
pub proof fn unplayable_arguments_are_reported(context: RuleContext<'_>)
    ensures
        stand_at(
            context,
            NonAnimationPlayArgument.findings(context),
            gather(
                context.qualified_calls.calls@.len() as int,
                |i: int| unplayable_owed(context, i),
            ),
        ),
{
    let finder = non_animation_finder(context);
    let places = |i: int| unplayable_owed(context, i);
    let n = context.qualified_calls.calls@.len() as int;
    assert forall|i: int| 0 <= i < n implies stand_at(
        context,
        #[trigger] finder(i),
        places(i),
    ) by {
        let call = context.qualified_calls.calls@[i];
        assert(finder(i) == non_animation_at(context, i));
        if context.knowledge is Some {
            target_is_exact(context, call, "manim.scene.scene.Scene.play"@);
            let inner = position_finder(context, call);
            let due = |p: int, argument: CallArgument| no_animation(context, call, argument);
            assert forall|p: int|
                0 <= p < call.positional_count && p < call.arguments@.len() implies stand_at(
                context,
                #[trigger] inner(p),
                owed(due(p, call.arguments@[p]), call.file, call.arguments@[p].range),
            ) by {
                assert(call.spec_positional(p) == Some(call.arguments@[p]));
                argument_is_told(context, call, call.arguments@[p]);
            }
            arguments_stand(context, call, inner, due);
        }
    }
    parts_stand(context, n, finder, places);
}

/// Whether an attribute is a method of a known instance that belongs to a
/// mobject or is known to give something back.
pub open spec fn bound_method_of(context: RuleContext<'_>, attribute: AttributeFact) -> bool {
    &&& attribute.receiver matches ReceiverKind::KnownInstance(kind) && class_settled(
        context.project_index,
        kind@,
    )
    &&& context.knowledge is Some
    &&& attribute.candidates@.len() > 0
    &&& exists|id: Seq<char>|
        {
            &&& forall|c: int|
                0 <= c < attribute.candidates@.len() ==> resolved(
                    *context.knowledge->0,
                    (#[trigger] attribute.candidates@[c])@,
                ) == Some(id)
            &&& (#[trigger] context.knowledge->0.spec_symbol(id)) matches Some(entry) && entry.kind
                == SymbolKind::Method && (entry.returns_self is Some || method_of_mobject(
                *context.knowledge->0,
                context.project_index,
                id,
            ))
        }
}

proof fn bound_method_is_told(context: RuleContext<'_>, attribute: AttributeFact)
    requires
        context.knowledge is Some,
    ensures
        bound_method_of(context, attribute) <==> bound_method(
            *context.knowledge->0,
            context.project_index,
            attribute,
        ) is Some,
{
    let profile = *context.knowledge->0;
    let list = texts(attribute.candidates@);
    assert(forall|c: int| 0 <= c < list.len() ==> #[trigger] list[c] == attribute.candidates@[c]@);
    if attribute.candidates@.len() > 0 {
        assert(list[0] == attribute.candidates@[0]@);
    }
    match agreed_symbol(profile, list) {
        Some(id) => {
            method_owner_is_told(profile, context.project_index, id);
            assert forall|c: int| 0 <= c < attribute.candidates@.len() implies resolved(
                profile,
                (#[trigger] attribute.candidates@[c])@,
            ) == Some(id) by {
                assert(list[c] == attribute.candidates@[c]@);
            }
            assert(profile.spec_symbol(id) is Some || profile.spec_symbol(id) is None);
        },
        None => {},
    }
    if bound_method_of(context, attribute) {
        let id = choose|id: Seq<char>|
            {
                &&& forall|c: int|
                    0 <= c < attribute.candidates@.len() ==> resolved(
                        profile,
                        (#[trigger] attribute.candidates@[c])@,
                    ) == Some(id)
                &&& (#[trigger] context.knowledge->0.spec_symbol(id)) matches Some(entry)
                    && entry.kind == SymbolKind::Method && (entry.returns_self is Some
                    || method_of_mobject(profile, context.project_index, id))
            };
        assert(resolved(profile, attribute.candidates@[0]@) == Some(id));
        assert forall|c: int| 0 <= c < list.len() implies resolved(profile, #[trigger] list[c])
            == Some(id) by {
            assert(list[c] == attribute.candidates@[c]@);
        }
        assert(agreed_symbol(profile, list) == Some(id));
    }
}

/// The arguments of a `play` that are methods.
pub open spec fn bound_methods_owed(context: RuleContext<'_>, i: int) -> Seq<Place> {
    let call = context.qualified_calls.calls@[i];
    if plays(context, call) {
        argument_places(
            call,
            |p: int, argument: CallArgument|
                argument.shape matches ArgShape::Attribute(attribute) && bound_method_of(
                    context,
                    attribute,
                ),
        )
    } else {
        Seq::empty()
    }
}

/// Every argument of a `play` that is a method itself, not a call of it, is
/// reported, and nothing else is.
pub proof fn bound_methods_are_reported(context: RuleContext<'_>)
    ensures
        stand_at(
            context,
            BoundMethodPlayArgument.findings(context),
            gather(
                context.qualified_calls.calls@.len() as int,
                |i: int| bound_methods_owed(context, i),
            ),
        ),
{
    let finder = bound_methods_finder(context);
    let places = |i: int| bound_methods_owed(context, i);
    let n = context.qualified_calls.calls@.len() as int;
    assert forall|i: int| 0 <= i < n implies stand_at(
        context,
        #[trigger] finder(i),
        places(i),
    ) by {
        let call = context.qualified_calls.calls@[i];
        assert(finder(i) == bound_methods_at(context, i));
        if context.knowledge is Some {
            target_is_exact(context, call, "manim.scene.scene.Scene.play"@);
            let inner = bound_method_positions(context, call);
            let due = |p: int, argument: CallArgument|
                argument.shape matches ArgShape::Attribute(attribute) && bound_method_of(
                    context,
                    attribute,
                );
            assert forall|p: int|
                0 <= p < call.positional_count && p < call.arguments@.len() implies stand_at(
                context,
                #[trigger] inner(p),
                owed(due(p, call.arguments@[p]), call.file, call.arguments@[p].range),
            ) by {
                let argument = call.arguments@[p];
                assert(call.spec_positional(p) == Some(argument));
                match argument.shape {
                    ArgShape::Attribute(attribute) => bound_method_is_told(context, attribute),
                    _ => {},
                }
            }
            arguments_stand(context, call, inner, due);
        }
    }
    parts_stand(context, n, finder, places);
}

/// The first argument of an `ApplyMethod`, when it is a call of the method.
pub open spec fn applied_result_owed(context: RuleContext<'_>, i: int) -> Seq<Place> {
    let call = context.qualified_calls.calls@[i];
    let calls = context.qualified_calls.calls@;
    if call.positional_count > 0 && call.arguments@.len() > 0 {
        owed(
            may_only_call(context, call, "manim.animation.transform.ApplyMethod"@) && (
            call.arguments@[0].shape matches ArgShape::Call(inner) && inner < calls.len()
                && changes_at_once(context, call, calls[inner as int])),
            call.file,
            call.arguments@[0].range,
        )
    } else {
        Seq::empty()
    }
}

/// The first argument of an `ApplyMethod` is reported when it is a call that
/// changes its mobject at once, and nothing else is.
pub proof fn applied_results_are_reported(context: RuleContext<'_>)
    ensures
        stand_at(
            context,
            ApplyMethodCallResult.findings(context),
            gather(
                context.qualified_calls.calls@.len() as int,
                |i: int| applied_result_owed(context, i),
            ),
        ),
{
    let finder = apply_method_finder(context);
    let places = |i: int| applied_result_owed(context, i);
    let n = context.qualified_calls.calls@.len() as int;
    assert forall|i: int| 0 <= i < n implies stand_at(
        context,
        #[trigger] finder(i),
        places(i),
    ) by {
        let call = context.qualified_calls.calls@[i];
        assert(finder(i) == found(apply_method_at(context, i)));
        if context.knowledge is Some {
            target_is_exact(context, call, "manim.animation.transform.ApplyMethod"@);
            if call.positional_count > 0 && call.arguments@.len() > 0 {
                assert(call.spec_positional(0) == Some(call.arguments@[0]));
                match call.arguments@[0].shape {
                    ArgShape::Call(inner) => {
                        if inner < context.qualified_calls.calls@.len() {
                            inner_call_is_told(
                                context,
                                call,
                                context.qualified_calls.calls@[inner as int],
                            );
                        }
                    },
                    _ => {},
                }
            }
        }
    }
    parts_stand(context, n, finder, places);
}

/// The callback of an `ApplyFunction` that gives no mobject back.
pub open spec fn no_mobject_owed(context: RuleContext<'_>, i: int) -> Seq<Place> {
    let call = context.qualified_calls.calls@[i];
    let facts = context.lifecycle_facts.callback_returns;
    match (
        match call.spec_keyword("function"@) {
            Some(argument) => Some(argument),
            None => if !call.has_star_args && call.positional_count > 0 && call.arguments@.len() > 0 {
                Some(call.arguments@[0])
            } else {
                None
            },
        }
    ) {
        Some(argument) => owed(
            may_only_call(context, call, "manim.animation.transform.ApplyFunction"@)
                && match argument.shape {
                ArgShape::Lambda => lambda_return_in(
                    facts.lambdas@,
                    site_of(call.file, argument.range),
                ) matches Some(fact) && fact.returns_mobject == Truth::No,
                ArgShape::Name => {
                    let id = call.context.module@ + "."@ + slice_in(
                        *context.sources,
                        call.file,
                        argument.range,
                    );
                    &&& argument.callable_signature matches Some(signature) && function_from(
                        context.project_index.functions@,
                        id,
                        0,
                    ) matches Some(indexed) && same_signature(indexed, signature)
                    &&& function_return_in(facts.functions@, id) matches Some(fact)
                        && fact.returns_mobject == Truth::No
                },
                _ => false,
            },
            call.file,
            argument.range,
        ),
        None => Seq::empty(),
    }
}

/// The callback of an `ApplyFunction` is reported when it is known not to give
/// a mobject back, and nothing else is.
pub proof fn empty_handed_callbacks_are_reported(context: RuleContext<'_>)
    ensures
        stand_at(
            context,
            ApplyFunctionCallbackNoMobject.findings(context),
            gather(
                context.qualified_calls.calls@.len() as int,
                |i: int| no_mobject_owed(context, i),
            ),
        ),
{
    let finder = no_mobject_finder(context);
    let places = |i: int| no_mobject_owed(context, i);
    let n = context.qualified_calls.calls@.len() as int;
    assert forall|i: int| 0 <= i < n implies stand_at(
        context,
        #[trigger] finder(i),
        places(i),
    ) by {
        let call = context.qualified_calls.calls@[i];
        assert(finder(i) == found(no_mobject_at(context, i)));
        if context.knowledge is Some {
            target_is_exact(context, call, "manim.animation.transform.ApplyFunction"@);
        }
    }
    parts_stand(context, n, finder, places);
}

/// Whether every candidate names a class that is certainly none of mobjects.
pub open spec fn all_foreign(context: RuleContext<'_>, candidates: Seq<String>) -> bool {
    candidates.len() > 0 && forall|c: int|
        0 <= c < candidates.len() ==> foreign_class(
            *context.knowledge->0,
            context.project_index,
            (#[trigger] candidates[c])@,
        )
}

/// Whether every candidate names a class of mobjects that are certainly not
/// vectorized.
pub open spec fn all_unvectorized(context: RuleContext<'_>, candidates: Seq<String>) -> bool {
    candidates.len() > 0 && forall|c: int|
        0 <= c < candidates.len() ==> plain_class(
            *context.knowledge->0,
            context.project_index,
            (#[trigger] candidates[c])@,
        )
}

/// Whether an argument is certainly no mobject.
pub open spec fn no_mobject(context: RuleContext<'_>, argument: CallArgument) -> bool {
    let calls = context.qualified_calls.calls@;
    match argument.shape {
        ArgShape::Literal => argument.literal matches Some(literal) && (literal is Int
            || literal is Float || literal is Str || literal is Bool),
        ArgShape::Name => all_foreign(context, argument.kind_candidates@),
        ArgShape::Call(inner) => inner < calls.len() && receiver_settled(
            context.project_index,
            calls[inner as int],
        ) && all_foreign(context, calls[inner as int].candidates@),
        _ => false,
    }
}

/// Whether an argument is certainly a mobject that is not vectorized.
pub open spec fn unvectorized(context: RuleContext<'_>, argument: CallArgument) -> bool {
    let calls = context.qualified_calls.calls@;
    match argument.shape {
        ArgShape::Name => all_unvectorized(context, argument.kind_candidates@),
        ArgShape::Call(inner) => inner < calls.len() && receiver_settled(
            context.project_index,
            calls[inner as int],
        ) && all_unvectorized(context, calls[inner as int].candidates@),
        _ => false,
    }
}

/// Whether a call adds to a family that only takes vectorized mobjects.
pub open spec fn adds_to_vectorized(context: RuleContext<'_>, call: QualifiedCall) -> bool {
    ||| may_only_call(context, call, "manim.mobject.types.vectorized_mobject.VGroup"@)
    ||| may_only_call(context, call, "manim.mobject.mobject.Mobject.add"@) && (
    call.receiver matches ReceiverKind::KnownInstance(kind) && vectorized_class(
        *context.knowledge->0,
        context.project_index,
        kind@,
    ))
}

/// Whether a call adds to a family that takes any mobject.
pub open spec fn adds_to_plain(context: RuleContext<'_>, call: QualifiedCall) -> bool {
    ||| may_only_call(context, call, "manim.mobject.mobject.Group"@)
    ||| may_only_call(context, call, "manim.mobject.mobject.Mobject.add"@) && (
    call.receiver matches ReceiverKind::KnownInstance(kind) && unvectorized_class(
        *context.knowledge->0,
        context.project_index,
        kind@,
    ))
}

proof fn candidates_are_told(context: RuleContext<'_>, candidates: Seq<String>)
    requires
        context.knowledge is Some,
    ensures
        ({
            let child = uniform_child(
                *context.knowledge->0,
                context.project_index,
                texts(candidates),
            );
            &&& child == Some(ChildKind::NonMobject) <==> all_foreign(context, candidates)
            &&& child == Some(ChildKind::PlainMobject) <==> all_unvectorized(context, candidates)
        }),
{
    let profile = *context.knowledge->0;
    let index = context.project_index;
    let list = texts(candidates);
    assert(forall|c: int| 0 <= c < list.len() ==> #[trigger] list[c] == candidates[c]@);
    assert forall|c: int| 0 <= c < candidates.len() implies ({
        let id = #[trigger] candidates[c]@;
        &&& child_of(profile, index, id) == Some(ChildKind::NonMobject) <==> foreign_class(
            profile,
            index,
            id,
        )
        &&& child_of(profile, index, id) == Some(ChildKind::PlainMobject) <==> plain_class(
            profile,
            index,
            id,
        )
    }) by {
        class_is_told(profile, index, candidates[c]@);
    }
    if candidates.len() > 0 {
        assert(list[0] == candidates[0]@);
        match uniform_child(profile, index, list) {
            Some(child) => {
                assert forall|c: int| 0 <= c < candidates.len() implies child_of(
                    profile,
                    index,
                    (#[trigger] candidates[c])@,
                ) == Some(child) by {
                    assert(list[c] == candidates[c]@);
                }
            },
            None => {},
        }
        if all_foreign(context, candidates) {
            assert(foreign_class(profile, index, candidates[0]@));
            assert forall|c: int| 0 <= c < list.len() implies child_of(
                profile,
                index,
                #[trigger] list[c],
            ) == Some(ChildKind::NonMobject) by {
                assert(foreign_class(profile, index, candidates[c]@));
            }
            assert(all_children(profile, index, list, ChildKind::NonMobject));
        }
        if all_unvectorized(context, candidates) {
            assert(plain_class(profile, index, candidates[0]@));
            assert forall|c: int| 0 <= c < list.len() implies child_of(
                profile,
                index,
                #[trigger] list[c],
            ) == Some(ChildKind::PlainMobject) by {
                assert(plain_class(profile, index, candidates[c]@));
            }
            assert(all_children(profile, index, list, ChildKind::PlainMobject));
        }
    }
}

proof fn child_is_told(context: RuleContext<'_>, argument: CallArgument)
    requires
        context.knowledge is Some,
    ensures
        argument_child(context, *context.knowledge->0, argument) == Some(ChildKind::NonMobject)
            <==> no_mobject(context, argument),
        argument_child(context, *context.knowledge->0, argument) == Some(ChildKind::PlainMobject)
            <==> unvectorized(context, argument),
{
    match argument.shape {
        ArgShape::Name => candidates_are_told(context, argument.kind_candidates@),
        ArgShape::Call(inner) => {
            if inner < context.qualified_calls.calls@.len() {
                candidates_are_told(
                    context,
                    context.qualified_calls.calls@[inner as int].candidates@,
                );
            }
        },
        _ => {},
    }
}

proof fn container_is_told(context: RuleContext<'_>, call: QualifiedCall)
    requires
        context.knowledge is Some,
    ensures
        ({
            let container = container_in(*context.knowledge->0, context.project_index, call);
            &&& container is Some <==> adds_to_vectorized(context, call) || adds_to_plain(
                context,
                call,
            )
            &&& container matches Some(family) ==> (family.needs_vectorized()
                <==> adds_to_vectorized(context, call))
        }),
{
    target_is_exact(context, call, "manim.mobject.types.vectorized_mobject.VGroup"@);
    target_is_exact(context, call, "manim.mobject.mobject.Group"@);
    target_is_exact(context, call, "manim.mobject.mobject.Mobject.add"@);
    reveal_strlit("manim.mobject.types.vectorized_mobject.VGroup");
    reveal_strlit("manim.mobject.mobject.Group");
    reveal_strlit("manim.mobject.mobject.Mobject.add");
    assert("manim.mobject.mobject.Group"@.len()
        != "manim.mobject.types.vectorized_mobject.VGroup"@.len());
    assert("manim.mobject.mobject.Group"@.len() != "manim.mobject.mobject.Mobject.add"@.len());
    assert("manim.mobject.types.vectorized_mobject.VGroup"@.len()
        != "manim.mobject.mobject.Mobject.add"@.len());
    match call.receiver {
        ReceiverKind::KnownInstance(kind) => class_is_told(
            *context.knowledge->0,
            context.project_index,
            kind@,
        ),
        _ => {},
    }
}

/// The children that a family cannot hold.
pub open spec fn invalid_children_owed(context: RuleContext<'_>, i: int) -> Seq<Place> {
    let call = context.qualified_calls.calls@[i];
    if adds_to_vectorized(context, call) || adds_to_plain(context, call) {
        argument_places(
            call,
            |p: int, argument: CallArgument|
                no_mobject(context, argument) || (adds_to_vectorized(context, call)
                    && unvectorized(context, argument)),
        )
    } else {
        Seq::empty()
    }
}

/// Every child that is no mobject is reported, and every child of a vectorized
/// family that is not vectorized; nothing else is.
pub proof fn invalid_children_are_reported(context: RuleContext<'_>)
    ensures
        stand_at(
            context,
            InvalidFamilyChild.findings(context),
            gather(
                context.qualified_calls.calls@.len() as int,
                |i: int| invalid_children_owed(context, i),
            ),
        ),
{
    let finder = invalid_children_finder(context);
    let places = |i: int| invalid_children_owed(context, i);
    let n = context.qualified_calls.calls@.len() as int;
    assert forall|i: int| 0 <= i < n implies stand_at(
        context,
        #[trigger] finder(i),
        places(i),
    ) by {
        let call = context.qualified_calls.calls@[i];
        assert(finder(i) == invalid_children_at(context, i));
        if context.knowledge is Some {
            container_is_told(context, call);
            let profile = *context.knowledge->0;
            match container_in(profile, context.project_index, call) {
                Some(container) => {
                    let inner = child_finder(context, profile, call, container);
                    let due = |p: int, argument: CallArgument|
                        no_mobject(context, argument) || (adds_to_vectorized(context, call)
                            && unvectorized(context, argument));
                    assert forall|p: int|
                        0 <= p < call.positional_count && p < call.arguments@.len() implies stand_at(
                        context,
                        #[trigger] inner(p),
                        owed(due(p, call.arguments@[p]), call.file, call.arguments@[p].range),
                    ) by {
                        assert(call.spec_positional(p) == Some(call.arguments@[p]));
                        child_is_told(context, call.arguments@[p]);
                    }
                    arguments_stand(context, call, inner, due);
                },
                None => {},
            }
        }
    }
    parts_stand(context, n, finder, places);
}

/// Whether two arguments of a call are the same name.
pub open spec fn same_name(context: RuleContext<'_>, call: QualifiedCall, q: int, p: int) -> bool {
    &&& call.arguments@[q].shape is Name
    &&& call.arguments@[p].shape is Name
    &&& slice_in(*context.sources, call.file, call.arguments@[q].range) == slice_in(
        *context.sources,
        call.file,
        call.arguments@[p].range,
    )
}

proof fn repeat_is_told(
    context: RuleContext<'_>,
    call: QualifiedCall,
    container: Container,
    p: int,
)
    requires
        0 <= p < call.positional_count,
        p < call.arguments@.len(),
    ensures
        stand_at(
            context,
            found(duplicate_finding(context, call, container, p)),
            owed(
                exists|q: int| 0 <= q < p && #[trigger] same_name(context, call, q, p),
                call.file,
                call.arguments@[p].range,
            ),
        ),
{
    assert(call.spec_positional(p) == Some(call.arguments@[p]));
    if exists|q: int| 0 <= q < p && #[trigger] same_name(context, call, q, p) {
        let q = choose|q: int| 0 <= q < p && #[trigger] same_name(context, call, q, p);
        assert(call.spec_positional(q) == Some(call.arguments@[q]));
        assert(name_at(context, call, q) == name_at(context, call, p));
    }
    if duplicate_finding(context, call, container, p) is Some {
        let name = name_at(context, call, p)->0;
        let q = choose|q: int| 0 <= q < p && #[trigger] name_at(context, call, q) == Some(name);
        assert(same_name(context, call, q, p));
    }
}

/// The children that a call names again.
pub open spec fn repeated_children_owed(context: RuleContext<'_>, i: int) -> Seq<Place> {
    let call = context.qualified_calls.calls@[i];
    if adds_to_vectorized(context, call) || adds_to_plain(context, call) {
        argument_places(
            call,
            |p: int, argument: CallArgument|
                exists|q: int| 0 <= q < p && #[trigger] same_name(context, call, q, p),
        )
    } else {
        Seq::empty()
    }
}

/// Every child that the same call has already named is reported, however far
/// apart the two stand, and nothing else is.
pub proof fn repeated_children_are_reported(context: RuleContext<'_>)
    ensures
        stand_at(
            context,
            DuplicateChild.findings(context),
            gather(
                context.qualified_calls.calls@.len() as int,
                |i: int| repeated_children_owed(context, i),
            ),
        ),
{
    let finder = duplicates_finder(context);
    let places = |i: int| repeated_children_owed(context, i);
    let n = context.qualified_calls.calls@.len() as int;
    assert forall|i: int| 0 <= i < n implies stand_at(
        context,
        #[trigger] finder(i),
        places(i),
    ) by {
        let call = context.qualified_calls.calls@[i];
        assert(finder(i) == duplicates_at(context, i));
        if context.knowledge is Some {
            container_is_told(context, call);
            let profile = *context.knowledge->0;
            match container_in(profile, context.project_index, call) {
                Some(container) => {
                    let inner = duplicate_finder(context, call, container);
                    let due = |p: int, argument: CallArgument|
                        exists|q: int| 0 <= q < p && #[trigger] same_name(context, call, q, p);
                    assert forall|p: int|
                        0 <= p < call.positional_count && p < call.arguments@.len() implies stand_at(
                        context,
                        #[trigger] inner(p),
                        owed(due(p, call.arguments@[p]), call.file, call.arguments@[p].range),
                    ) by {
                        repeat_is_told(context, call, container, p);
                    }
                    arguments_stand(context, call, inner, due);
                },
                None => {},
            }
        }
    }
    parts_stand(context, n, finder, places);
}

} // verus!
