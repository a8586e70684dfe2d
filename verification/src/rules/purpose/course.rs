//! What the lifecycle rules on builders, updaters, and durations are for.
use super::arguments::plays;
use super::children::{class_is_told, sure_mobject_class};
use super::environment::hot;
use super::scenes::nothing_is_owed;
use super::{
    may_only_call, offered_at, offers_are_told, on_an_instance, owed, parts_offered, parts_stand,
    receiver_settled, site_owed, stand_at, target_is_exact, told, Place,
};
use crate::frontend::{ArgShape, Parameter, QualifiedCall};
use crate::knowledge::{qualified, resolved, KnowledgeProfile};
use crate::rules::base::{Rule, RuleContext};
use crate::rules::lifecycle::builder_rules::{
    getter_methods, getters_at, getters_finder, getters_items, getters_of, methods_on, only_returns,
    stale_at, stale_finder, stale_items, stale_mutation, stale_of, target_kinds,
    NonMutatingAnimateMethod, StaleAnimateBuilder,
};
use crate::rules::lifecycle::callbacks::function_from;
use crate::rules::lifecycle::constructors::{
    delegates, delegating, super_call_from, super_init_at, super_init_finder, MissingSuperInit,
};
use crate::rules::lifecycle::ownership::{
    orphaned_at, orphaned_finder, orphaned_intervals, orphaned_items, orphaned_of, play_inside,
    reported_in_run, OrphanedUpdaterObject,
};
use crate::rules::lifecycle::structure::{
    absent_by_kind, fresh_construction, method_from, missing_old_at, missing_old_finder,
    ReplaceMissingOld,
};
use crate::rules::lifecycle::support::class_fact;
use crate::rules::lifecycle::updaters::{
    binds, cannot_bind_at, cannot_bind_finder, reentry_at, reentry_finder, TimelineReentry,
    UpdaterCannotBind,
};
use crate::semantic::{
    Cardinality, OwnershipInterval, PlayFact, Presence, SceneLifecycle, Truth, UpdaterHost,
};
use crate::source::{slice_in, AllocationSite};
use crate::text::{contains_text, found, gather, texts};
use vstd::prelude::*;

verus! {

/// A call on every frame that would advance the timeline.
pub open spec fn reentry_owed(context: RuleContext<'_>, i: int) -> Seq<Place> {
    let call = context.qualified_calls.calls@[i];
    owed(
        hot(context, i) && on_an_instance(call) && (may_only_call(
            context,
            call,
            "manim.scene.scene.Scene.play"@,
        ) || may_only_call(context, call, "manim.scene.scene.Scene.wait"@) || may_only_call(
            context,
            call,
            "manim.scene.scene.Scene.pause"@,
        )),
        call.file,
        call.call_range,
    )
}

/// A `play`, `wait`, or `pause` on every frame is reported, and nothing else
/// is.
pub proof fn reentries_are_reported(context: RuleContext<'_>)
    ensures
        stand_at(
            context,
            TimelineReentry.findings(context),
            gather(
                context.qualified_calls.calls@.len() as int,
                |i: int| reentry_owed(context, i),
            ),
        ),
{
    let finder = reentry_finder(context);
    let places = |i: int| reentry_owed(context, i);
    let n = context.qualified_calls.calls@.len() as int;
    assert forall|i: int| 0 <= i < n implies stand_at(
        context,
        #[trigger] finder(i),
        places(i),
    ) by {
        let call = context.qualified_calls.calls@[i];
        assert(finder(i) == found(reentry_at(context, i)));
        if context.knowledge is Some {
            target_is_exact(context, call, "manim.scene.scene.Scene.play"@);
            target_is_exact(context, call, "manim.scene.scene.Scene.wait"@);
            target_is_exact(context, call, "manim.scene.scene.Scene.pause"@);
        }
    }
    parts_stand(context, n, finder, places);
}

/// Whether a parameter of this name is declared.
pub open spec fn has_parameter(params: Seq<Parameter>, name: Seq<char>) -> bool {
    exists|p: int| 0 <= p < params.len() && (#[trigger] params[p]).name@ == name
}

/// The callback of an updater registration, when it cannot take one argument,
/// or two where `timed` and `dt` is declared.
pub open spec fn unbindable(call: QualifiedCall, keyword: Seq<char>, timed: bool) -> Seq<Place> {
    match (
        if call.positional_count > 0 && call.arguments@.len() > 0 {
            Some(call.arguments@[0])
        } else {
            call.spec_keyword(keyword)
        }
    ) {
        Some(callback) => match callback.callable_signature {
            Some(signature) => owed(
                on_an_instance(call) && !(signature.params@.len() > 0 && signature.params@[0].name@
                    == "self"@) && !binds(
                    signature.params@,
                    if timed && has_parameter(signature.params@, "dt"@) {
                        2
                    } else {
                        1
                    },
                ),
                call.file,
                callback.range,
            ),
            None => Seq::empty(),
        },
        None => Seq::empty(),
    }
}

/// An updater that cannot take its arguments.
pub open spec fn unbindable_owed(context: RuleContext<'_>, i: int) -> Seq<Place> {
    let call = context.qualified_calls.calls@[i];
    if may_only_call(context, call, "manim.mobject.mobject.Mobject.add_updater"@) {
        unbindable(call, "update_function"@, true)
    } else if may_only_call(context, call, "manim.scene.scene.Scene.add_updater"@) {
        unbindable(call, "func"@, false)
    } else {
        Seq::empty()
    }
}

/// An updater that cannot take what it will be called with is reported: on a
/// mobject that is the mobject, with the time step if it declares `dt`; on a
/// scene the time step alone. Nothing else is.
pub proof fn unbindable_updaters_are_reported(context: RuleContext<'_>)
    ensures
        stand_at(
            context,
            UpdaterCannotBind.findings(context),
            gather(
                context.qualified_calls.calls@.len() as int,
                |i: int| unbindable_owed(context, i),
            ),
        ),
{
    let finder = cannot_bind_finder(context);
    let places = |i: int| unbindable_owed(context, i);
    let n = context.qualified_calls.calls@.len() as int;
    assert forall|i: int| 0 <= i < n implies stand_at(
        context,
        #[trigger] finder(i),
        places(i),
    ) by {
        let call = context.qualified_calls.calls@[i];
        assert(finder(i) == found(cannot_bind_at(context, i)));
        if context.knowledge is Some {
            target_is_exact(context, call, "manim.mobject.mobject.Mobject.add_updater"@);
            target_is_exact(context, call, "manim.scene.scene.Scene.add_updater"@);
            reveal_strlit("manim.mobject.mobject.Mobject.add_updater");
            reveal_strlit("manim.scene.scene.Scene.add_updater");
            assert("manim.mobject.mobject.Mobject.add_updater"@.len()
                != "manim.scene.scene.Scene.add_updater"@.len());
        }
    }
    parts_stand(context, n, finder, places);
}

/// Whether a call can only construct a mobject.
pub open spec fn made_here(context: RuleContext<'_>, inner: QualifiedCall) -> bool {
    &&& context.knowledge is Some
    &&& inner.candidates@.len() > 0
    &&& receiver_settled(context.project_index, inner)
    &&& forall|c: int|
        0 <= c < inner.candidates@.len() ==> sure_mobject_class(
            *context.knowledge->0,
            context.project_index,
            (#[trigger] inner.candidates@[c])@,
        )
}

proof fn making_is_told(context: RuleContext<'_>, inner: QualifiedCall)
    requires
        context.knowledge is Some,
    ensures
        made_here(context, inner) <==> fresh_construction(context, *context.knowledge->0, inner),
{
    let profile = *context.knowledge->0;
    let index = context.project_index;
    let list = texts(inner.candidates@);
    assert(forall|c: int| 0 <= c < list.len() ==> #[trigger] list[c] == inner.candidates@[c]@);
    assert forall|c: int| 0 <= c < list.len() implies (sure_mobject_class(
        profile,
        index,
        (#[trigger] inner.candidates@[c])@,
    ) <==> (class_fact(profile, index, list[c]) matches Some(fact) && fact.sure_mobject())) by {
        class_is_told(profile, index, list[c]);
    }
    if fresh_construction(context, profile, inner) {
        assert forall|c: int| 0 <= c < inner.candidates@.len() implies sure_mobject_class(
            profile,
            index,
            (#[trigger] inner.candidates@[c])@,
        ) by {
            assert(list[c] == inner.candidates@[c]@);
        }
    }
    if made_here(context, inner) {
        assert forall|c: int| 0 <= c < list.len() implies match class_fact(
            profile,
            index,
            #[trigger] list[c],
        ) {
            Some(fact) => fact.sure_mobject(),
            None => false,
        } by {
            assert(sure_mobject_class(profile, index, inner.candidates@[c]@));
        }
    }
}

/// What a `replace` cannot find.
pub open spec fn missing_old_owed(context: RuleContext<'_>, i: int) -> Seq<Place> {
    let call = context.qualified_calls.calls@[i];
    let calls = context.qualified_calls.calls@;
    if call.positional_count > 0 && call.arguments@.len() > 0 {
        owed(
            call.receiver is SelfScene && !call.has_star_args && may_only_call(
                context,
                call,
                "manim.scene.scene.Scene.replace"@,
            ) && match call.arguments@[0].shape {
                ArgShape::Call(inner) => inner < calls.len() && made_here(
                    context,
                    calls[inner as int],
                ),
                ArgShape::Name => absent_by_kind(context, call, call.arguments@[0]),
                _ => false,
            },
            call.file,
            call.arguments@[0].range,
        )
    } else {
        Seq::empty()
    }
}

/// The first argument of a `replace` on the scene is reported when it is
/// certainly not there: a mobject made on the spot, or a name whose every
/// candidate is absent. Nothing else is.
pub proof fn missing_originals_are_reported(context: RuleContext<'_>)
    ensures
        stand_at(
            context,
            ReplaceMissingOld.findings(context),
            gather(
                context.qualified_calls.calls@.len() as int,
                |i: int| missing_old_owed(context, i),
            ),
        ),
{
    let finder = missing_old_finder(context);
    let places = |i: int| missing_old_owed(context, i);
    let n = context.qualified_calls.calls@.len() as int;
    assert forall|i: int| 0 <= i < n implies stand_at(
        context,
        #[trigger] finder(i),
        places(i),
    ) by {
        let call = context.qualified_calls.calls@[i];
        assert(finder(i) == found(missing_old_at(context, i)));
        if context.knowledge is Some {
            target_is_exact(context, call, "manim.scene.scene.Scene.replace"@);
            if call.positional_count > 0 && call.arguments@.len() > 0 {
                assert(call.spec_positional(0) == Some(call.arguments@[0]));
                match call.arguments@[0].shape {
                    ArgShape::Call(inner) => {
                        if inner < context.qualified_calls.calls@.len() {
                            making_is_told(context, context.qualified_calls.calls@[inner as int]);
                        }
                    },
                    _ => {},
                }
            }
        }
    }
    parts_stand(context, n, finder, places);
}

/// The `__init__` of a scene class that is known not to call the one it
/// overrides.
pub open spec fn super_init_owed(context: RuleContext<'_>, s: int) -> Seq<Place> {
    let scene = context.lifecycle_facts.scenes@[s];
    match context.project_index.spec_class(scene.qualified_name@) {
        Some(record) => match method_from(record.methods@, "__init__"@, 0) {
            Some(range) => owed(
                !scene.constructor_state_unknown && super_call_from(
                    scene.super_calls@,
                    "__init__"@,
                    0,
                ) == Some(Presence::Absent) && !contains_text(
                    slice_in(*context.sources, record.file, range),
                    "super"@,
                ) && !contains_text(
                    slice_in(*context.sources, record.file, range),
                    ".__init__("@,
                ) && forall|c: int|
                    0 <= c < context.qualified_calls.calls@.len() ==> {
                        let call = #[trigger] context.qualified_calls.calls@[c];
                        call.file == record.file && range.start <= call.call_range.start
                            && call.call_range.end <= range.end && call.receiver is SelfScene
                            ==> forall|d: int|
                            0 <= d < call.candidates@.len() ==> function_from(
                                context.project_index.functions@,
                                (#[trigger] call.candidates@[d])@,
                                0,
                            ) is None
                    },
                record.file,
                range,
            ),
            None => Seq::empty(),
        },
        None => Seq::empty(),
    }
}

/// A scene class whose `__init__` certainly calls no other, neither by name
/// nor through a method of the project, is reported; nothing else is.
pub proof fn missing_super_calls_are_reported(context: RuleContext<'_>)
    ensures
        stand_at(
            context,
            MissingSuperInit.findings(context),
            gather(
                context.lifecycle_facts.scenes@.len() as int,
                |s: int| super_init_owed(context, s),
            ),
        ),
{
    let finder = super_init_finder(context);
    let places = |s: int| super_init_owed(context, s);
    let n = context.lifecycle_facts.scenes@.len() as int;
    assert forall|s: int| 0 <= s < n implies stand_at(
        context,
        #[trigger] finder(s),
        places(s),
    ) by {
        assert(finder(s) == found(super_init_at(context, s)));
        let scene = context.lifecycle_facts.scenes@[s];
        match context.project_index.spec_class(scene.qualified_name@) {
            Some(record) => match method_from(record.methods@, "__init__"@, 0) {
                Some(range) => {
                    assert(delegates(context, record, range) <==> exists|c: int|
                        0 <= c < context.qualified_calls.calls@.len() && delegating(
                            context,
                            record,
                            range,
                            #[trigger] context.qualified_calls.calls@[c],
                        ));
                },
                None => {},
            },
            None => {},
        }
    }
    parts_stand(context, n, finder, places);
}

/// Whether a method is the same curated one for all these classes, and does
/// not give its mobject back.
pub open spec fn returns_other(
    profile: KnowledgeProfile,
    kinds: Seq<Seq<char>>,
    method: Seq<char>,
) -> bool {
    kinds.len() > 0 && exists|id: Seq<char>|
        {
            &&& forall|c: int|
                0 <= c < kinds.len() ==> resolved(profile, (#[trigger] kinds[c]) + "."@ + method)
                    == Some(id)
            &&& (#[trigger] profile.spec_symbol(id)) matches Some(entry) && entry.returns_self
                == Some(false)
        }
}

proof fn returning_is_told(profile: KnowledgeProfile, kinds: Seq<Seq<char>>, method: Seq<char>)
    ensures
        returns_other(profile, kinds, method) <==> only_returns(profile, kinds, method),
{
    let list = methods_on(kinds, method);
    assert(forall|c: int|
        0 <= c < list.len() ==> #[trigger] list[c] == kinds[c] + "."@ + method);
    if only_returns(profile, kinds, method) {
        let id = resolved(profile, qualified(kinds[0], method))->0;
        assert forall|c: int| 0 <= c < kinds.len() implies resolved(
            profile,
            (#[trigger] kinds[c]) + "."@ + method,
        ) == Some(id) by {
            assert(list[c] == kinds[c] + "."@ + method);
        }
        assert(profile.spec_symbol(id) is Some);
    }
    if returns_other(profile, kinds, method) {
        let id = choose|id: Seq<char>|
            {
                &&& forall|c: int|
                    0 <= c < kinds.len() ==> resolved(
                        profile,
                        (#[trigger] kinds[c]) + "."@ + method,
                    ) == Some(id)
                &&& (#[trigger] profile.spec_symbol(id)) matches Some(entry) && entry.returns_self
                    == Some(false)
            };
        assert(resolved(profile, kinds[0] + "."@ + method) == Some(id));
        assert forall|c: int| 0 <= c < list.len() implies resolved(profile, #[trigger] list[c])
            == Some(id) by {
            assert(list[c] == kinds[c] + "."@ + method);
        }
    }
}

proof fn getters_are_told(context: RuleContext<'_>, s: int, k: int)
    ensures
        offered_at(
            context,
            getters_of(context, context.lifecycle_facts.scenes@[s], k),
            getters_owed(context, s, k),
        ),
{
    let scene = context.lifecycle_facts.scenes@[s];
    let builder = scene.builders@[k];
    match target_kinds(scene, builder) {
        Some(kinds) => {
            let m = builder.methods@.len() as int;
            let here = |m: int|
                site_owed(
                    context.knowledge is Some && returns_other(
                        *context.knowledge->0,
                        kinds,
                        builder.methods@[m]@,
                    ),
                    builder.site,
                );
            match context.knowledge {
                Some(profile) => {
                    let parts = getter_methods(context, *profile, scene, builder, kinds);
                    assert forall|j: int| 0 <= j < m implies offered_at(
                        context,
                        #[trigger] parts(j),
                        here(j),
                    ) by {
                        returning_is_told(*profile, kinds, builder.methods@[j]@);
                    }
                    parts_offered(context, m, parts, here);
                },
                None => nothing_is_owed(m, here),
            }
        },
        None => {},
    }
}

/// The methods of a builder that change nothing.
pub open spec fn getters_owed(context: RuleContext<'_>, s: int, k: int) -> Seq<Place> {
    let scene = context.lifecycle_facts.scenes@[s];
    let builder = scene.builders@[k];
    match target_kinds(scene, builder) {
        Some(kinds) => gather(
            builder.methods@.len() as int,
            |m: int|
                site_owed(
                    context.knowledge is Some && returns_other(
                        *context.knowledge->0,
                        kinds,
                        builder.methods@[m]@,
                    ),
                    builder.site,
                ),
        ),
        None => Seq::empty(),
    }
}

/// A method of an `.animate` chain that is known to return something else than
/// its mobject is reported, and nothing else is.
pub proof fn getters_on_builders_are_reported(context: RuleContext<'_>)
    ensures
        told(
            context,
            NonMutatingAnimateMethod.findings(context),
            gather(
                context.lifecycle_facts.scenes@.len() as int,
                |s: int|
                    gather(
                        context.lifecycle_facts.scenes@[s].builders@.len() as int,
                        |k: int| getters_owed(context, s, k),
                    ),
            ),
        ),
{
    let scenes = context.lifecycle_facts.scenes@;
    let n = scenes.len() as int;
    let finder = getters_finder(context);
    let places = |s: int|
        gather(scenes[s].builders@.len() as int, |k: int| getters_owed(context, s, k));
    assert forall|s: int| 0 <= s < n implies offered_at(
        context,
        #[trigger] finder(s),
        places(s),
    ) by {
        let scene = scenes[s];
        let m = scene.builders@.len() as int;
        let items = getters_items(context, scene);
        assert(finder(s) == getters_at(context, s));
        assert(getters_at(context, s) == gather(m, items));
        let here = |k: int| getters_owed(context, s, k);
        assert forall|k: int| 0 <= k < m implies offered_at(
            context,
            #[trigger] items(k),
            here(k),
        ) by {
            assert(items(k) == getters_of(context, scene, k));
            getters_are_told(context, s, k);
        }
        parts_offered(context, m, items, here);
    }
    parts_offered(context, n, finder, places);
    offers_are_told(context, gather(n, finder), gather(n, places));
}

/// A builder whose target is out of date.
pub open spec fn stale_owed(context: RuleContext<'_>, s: int, k: int) -> Seq<Place> {
    let scene = context.lifecycle_facts.scenes@[s];
    let builder = scene.builders@[k];
    site_owed(
        builder.played == Truth::Yes && (builder.target matches Some(target) && target.cardinality
            == Cardinality::Singleton && (builder.overwritten_by_later_builder == Truth::Yes
            || stale_mutation(scene, builder, target) is Some)),
        builder.site,
    )
}

/// A played builder on one mobject is reported when a later builder overwrote
/// it, or when the mobject changed before it was played; nothing else is.
pub proof fn stale_builders_are_reported(context: RuleContext<'_>)
    ensures
        told(
            context,
            StaleAnimateBuilder.findings(context),
            gather(
                context.lifecycle_facts.scenes@.len() as int,
                |s: int|
                    gather(
                        context.lifecycle_facts.scenes@[s].builders@.len() as int,
                        |k: int| stale_owed(context, s, k),
                    ),
            ),
        ),
{
    let scenes = context.lifecycle_facts.scenes@;
    let n = scenes.len() as int;
    let finder = stale_finder(context);
    let places = |s: int|
        gather(scenes[s].builders@.len() as int, |k: int| stale_owed(context, s, k));
    assert forall|s: int| 0 <= s < n implies offered_at(
        context,
        #[trigger] finder(s),
        places(s),
    ) by {
        let scene = scenes[s];
        let m = scene.builders@.len() as int;
        let items = stale_items(context, scene);
        assert(finder(s) == stale_at(context, s));
        assert(stale_at(context, s) == gather(m, items));
        let here = |k: int| stale_owed(context, s, k);
        assert forall|k: int| 0 <= k < m implies offered_at(
            context,
            #[trigger] items(k),
            here(k),
        ) by {
            assert(items(k) == found(stale_of(context, scene, k)));

        }
        parts_offered(context, m, items, here);
    }
    parts_offered(context, n, finder, places);
    offers_are_told(context, gather(n, finder), gather(n, places));
}

/// Whether an object is nowhere while it may still have updaters.
pub open spec fn is_orphaned(interval: OwnershipInterval) -> bool {
    interval.in_family == Presence::Absent && interval.animation_target == Presence::Absent && (
    interval.has_updaters == Truth::Yes || interval.has_updaters == Truth::Maybe)
}

/// Whether some play lies inside a statement.
pub open spec fn plays_in(plays: Seq<PlayFact>, site: AllocationSite) -> bool {
    exists|p: int| 0 <= p < plays.len() && lies_in(#[trigger] plays[p], site)
}

/// Whether an object is orphaned from `m` up to `n`.
pub open spec fn orphaned_through(intervals: Seq<OwnershipInterval>, m: int, n: int) -> bool {
    forall|j: int| m <= j < n ==> is_orphaned(#[trigger] intervals[j])
}

/// Whether the stretch that the interval at `n` belongs to has had a play
/// before it.
pub open spec fn told_before(
    scene: SceneLifecycle,
    intervals: Seq<OwnershipInterval>,
    n: int,
) -> bool {
    exists|m: int|
        0 <= m < n && plays_in(scene.plays@, intervals[m].site) && #[trigger] orphaned_through(
            intervals,
            m,
            n,
        )
}

/// Whether a play lies inside a statement.
pub open spec fn lies_in(play: PlayFact, site: AllocationSite) -> bool {
    play.site.file == site.file && site.start <= play.site.start && play.site.end <= site.end
}

/// Whether the play at `q` is the first from `p` on that lies inside a
/// statement.
pub open spec fn first_inside(plays: Seq<PlayFact>, site: AllocationSite, p: int, q: int) -> bool {
    p <= q < plays.len() && lies_in(plays[q], site) && forall|r: int|
        p <= r < q ==> !lies_in(#[trigger] plays[r], site)
}

/// The play that is found inside a statement is the first there.
pub proof fn first_play_is_found(plays: Seq<PlayFact>, site: AllocationSite, p: int)
    requires
        0 <= p <= plays.len(),
    ensures
        match play_inside(plays, site, p) {
            Some(play) => exists|q: int|
                #[trigger] first_inside(plays, site, p, q) && plays[q].site == play,
            None => forall|r: int| p <= r < plays.len() ==> !lies_in(#[trigger] plays[r], site),
        },
    decreases plays.len() - p,
{
    if p < plays.len() {
        first_play_is_found(plays, site, p + 1);
        if lies_in(plays[p], site) {
            assert(first_inside(plays, site, p, p));
        } else {
            match play_inside(plays, site, p + 1) {
                Some(play) => {
                    let q = choose|q: int|
                        #[trigger] first_inside(plays, site, p + 1, q) && plays[q].site == play;
                    assert(first_inside(plays, site, p, q));
                },
                None => {},
            }
        }
    }
}

proof fn stretch_is_told(scene: SceneLifecycle, intervals: Seq<OwnershipInterval>, n: int)
    requires
        0 <= n <= intervals.len(),
    ensures
        told_before(scene, intervals, n) <==> reported_in_run(scene.plays@, intervals, n),
    decreases n,
{
    if n > 0 {
        stretch_is_told(scene, intervals, n - 1);
        first_play_is_found(scene.plays@, intervals[n - 1].site, 0);
        if told_before(scene, intervals, n) {
            let m = choose|m: int|
                0 <= m < n && plays_in(scene.plays@, intervals[m].site)
                    && #[trigger] orphaned_through(intervals, m, n);
            assert(is_orphaned(intervals[n - 1]));
            if m < n - 1 {
                assert(orphaned_through(intervals, m, n - 1));
                assert(told_before(scene, intervals, n - 1));
            }
        }
        if reported_in_run(scene.plays@, intervals, n) {
            if reported_in_run(scene.plays@, intervals, n - 1) {
                let m = choose|m: int|
                    0 <= m < n - 1 && plays_in(scene.plays@, intervals[m].site)
                        && #[trigger] orphaned_through(intervals, m, n - 1);
                assert(orphaned_through(intervals, m, n));
            } else {
                assert(plays_in(scene.plays@, intervals[n - 1].site));
                assert(orphaned_through(intervals, n - 1, n));
            }
        }
    }
}

proof fn orphans_are_told(context: RuleContext<'_>, s: int, k: int)
    ensures
        offered_at(
            context,
            orphaned_of(context, context.lifecycle_facts.scenes@[s], k),
            orphaned_owed(context, s, k),
        ),
{
    let scene = context.lifecycle_facts.scenes@[s];
    let registration = scene.updaters@[k];
    match registration.host {
        UpdaterHost::Mobject(object) => {
            let intervals = scene.spec_intervals(object);
            let m = intervals.len() as int;
            let here = |n: int|
                match play_inside(scene.plays@, intervals[n].site, 0) {
                    Some(play) => site_owed(
                        registration.certainty == Presence::Present && is_orphaned(intervals[n])
                            && !told_before(scene, intervals, n),
                        play,
                    ),
                    None => Seq::empty(),
                };
            if registration.certainty == Presence::Present {
                let parts = orphaned_intervals(context, scene, registration, object, intervals);
                assert forall|n: int| 0 <= n < m implies offered_at(
                    context,
                    #[trigger] parts(n),
                    here(n),
                ) by {
                    stretch_is_told(scene, intervals, n);
                }
                parts_offered(context, m, parts, here);
            } else {
                nothing_is_owed(m, here);
            }
        },
        _ => {},
    }
}

/// The plays that open a stretch without an owner.
pub open spec fn orphaned_owed(context: RuleContext<'_>, s: int, k: int) -> Seq<Place> {
    let scene = context.lifecycle_facts.scenes@[s];
    let registration = scene.updaters@[k];
    match registration.host {
        UpdaterHost::Mobject(object) => {
            let intervals = scene.spec_intervals(object);
            gather(
                intervals.len() as int,
                |n: int|
                    match play_inside(scene.plays@, intervals[n].site, 0) {
                        Some(play) => site_owed(
                            registration.certainty == Presence::Present && is_orphaned(
                                intervals[n],
                            ) && !told_before(scene, intervals, n),
                            play,
                        ),
                        None => Seq::empty(),
                    },
            )
        },
        UpdaterHost::Scene => Seq::empty(),
    }
}

/// Where frames render while an object with an updater is neither in the scene
/// nor animated, the first play of each such stretch is reported, and nothing
/// else is.
pub proof fn orphaned_updaters_are_reported(context: RuleContext<'_>)
    ensures
        told(
            context,
            OrphanedUpdaterObject.findings(context),
            gather(
                context.lifecycle_facts.scenes@.len() as int,
                |s: int|
                    gather(
                        context.lifecycle_facts.scenes@[s].updaters@.len() as int,
                        |k: int| orphaned_owed(context, s, k),
                    ),
            ),
        ),
{
    let scenes = context.lifecycle_facts.scenes@;
    let n = scenes.len() as int;
    let finder = orphaned_finder(context);
    let places = |s: int|
        gather(scenes[s].updaters@.len() as int, |k: int| orphaned_owed(context, s, k));
    assert forall|s: int| 0 <= s < n implies offered_at(
        context,
        #[trigger] finder(s),
        places(s),
    ) by {
        let scene = scenes[s];
        let m = scene.updaters@.len() as int;
        let items = orphaned_items(context, scene);
        assert(finder(s) == orphaned_at(context, s));
        assert(orphaned_at(context, s) == gather(m, items));
        let here = |k: int| orphaned_owed(context, s, k);
        assert forall|k: int| 0 <= k < m implies offered_at(
            context,
            #[trigger] items(k),
            here(k),
        ) by {
            assert(items(k) == orphaned_of(context, scene, k));
            orphans_are_told(context, s, k);
        }
        parts_offered(context, m, items, here);
    }
    parts_offered(context, n, finder, places);
    offers_are_told(context, gather(n, finder), gather(n, places));
}

} // verus!
