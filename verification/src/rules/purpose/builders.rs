//! What the lifecycle rules on played animations are for.
use super::lifecycle::common_is_held;
use super::scenes::one_host;
use super::{
    gathered_in, may_only_call, offered_at, offers_are_told, owed, parts_offered, site_owed,
    target_is_exact, told, Place,
};
use crate::frontend::{CallArgument, LiteralFact, QualifiedCall};
use crate::graph::{base_step, reachable};
use crate::knowledge::{KnowledgeProfile, SymbolKind};
use crate::numbers::{whole_sign_is_exact, Num, NumLit};
use crate::rules::base::{Rule, RuleContext};
use crate::rules::lifecycle::builder_rules::{
    builder_at, chained_at, late_kwargs_at, late_kwargs_finder, least, project_ends, scene_ends,
    AnimateKwargsAfterMethod,
};
use crate::rules::lifecycle::identity::{
    all_transforms, confused_animations_parts, confused_plays_parts, confused_transform_of,
    confused_transforms_parts, confusions_at, confusions_finder, confusions_items, confusions_of,
    transform_relation, PostTransformTargetConfusion,
};
use crate::rules::lifecycle::support::target_of;
use crate::rules::lifecycle::timing::{
    call_written_at, durations_at, durations_finder, executed_finder, executed_findings,
    not_positive, number_of, played_finder, played_finding, NonPositiveDuration,
};
use crate::rules::lifecycle::updaters::{
    active_overlap, maybe_removed, suspended_animation_of, suspended_animations_parts,
    suspended_registrations_parts, suspended_target_of, suspended_targets_parts, suspends_at,
    suspends_finder, suspends_items, suspends_of, UpdaterSuspendResumeDivergence,
};
use crate::semantic::{
    holds_updater, AnimationState, Cardinality, KindSet, MobjectState, ObjectId, PlayFact, PlayKind,
    PlayedAnimation, Presence, SceneLifecycle, StateSnapshot, SuspendBehavior, Truth, UpdaterHost,
    UpdaterRegistration, WriteChannel,
};
use crate::source::{site_of, TextRange};
use crate::text::{found, gather, gathered_from, texts};
use vstd::prelude::*;

verus! {

/// Whether an argument is a number.
pub open spec fn is_number(argument: CallArgument) -> bool {
    match argument.literal {
        Some(LiteralFact::Int(_)) => true,
        Some(LiteralFact::Float(_)) => true,
        _ => false,
    }
}

/// Whether an argument is a number that is zero or negative.
pub open spec fn at_most_zero(argument: CallArgument) -> bool {
    match argument.literal {
        Some(LiteralFact::Int(n)) => n <= 0,
        Some(LiteralFact::Float(value)) => value.bits == 0 || 0x8000_0000_0000_0000 <= value.bits
            <= 0xFFF0_0000_0000_0000,
        _ => false,
    }
}

/// Whether a duration is a known number that is not greater than zero.
pub open spec fn no_time(duration: Num) -> bool {
    match duration {
        Num::Exact(NumLit::Int(n)) => n <= 0,
        Num::Exact(NumLit::Float(value)) => value.bits == 0 || value.bits > 0x7FF0_0000_0000_0000,
        _ => false,
    }
}

/// The duration of a wait, when it is given as a number and takes no time: the
/// first argument, or `duration`.
pub open spec fn wait_owed(call: QualifiedCall, play: PlayFact) -> Seq<Place> {
    if call.positional_count > 0 && call.arguments@.len() > 0 && is_number(call.arguments@[0]) {
        owed(no_time(play.duration), call.file, call.arguments@[0].range)
    } else {
        match call.spec_keyword("duration"@) {
            Some(argument) => owed(
                is_number(argument) && no_time(play.duration),
                call.file,
                argument.range,
            ),
            None => Seq::empty(),
        }
    }
}

/// Whether a call can only construct an animation of this class.
pub open spec fn makes_animation(context: RuleContext<'_>, call: QualifiedCall, id: Seq<char>) -> bool {
    may_only_call(context, call, id) && (context.knowledge->0.spec_symbol(id) matches Some(entry)
        && entry.kind == SymbolKind::Animation)
}

/// The run time of a played animation, when it is not positive; a `Wait` may
/// take it as its first argument.
pub open spec fn run_time_owed(context: RuleContext<'_>, played: PlayedAnimation) -> Seq<Place> {
    match call_written_at(context, played.site) {
        Some(call) => match call.spec_keyword("run_time"@) {
            Some(argument) => owed(
                (exists|id: Seq<char>| #[trigger] makes_animation(context, call, id))
                    && at_most_zero(argument),
                call.file,
                argument.range,
            ),
            None => if call.positional_count > 0 && call.arguments@.len() > 0 {
                owed(
                    makes_animation(context, call, "manim.animation.animation.Wait"@)
                        && at_most_zero(call.arguments@[0]),
                    call.file,
                    call.arguments@[0].range,
                )
            } else {
                Seq::empty()
            },
        },
        None => Seq::empty(),
    }
}

/// The durations of the play at `k` of a scene that are not positive. A run
/// time of the `play` itself overrides those of its animations.
pub open spec fn duration_owed(context: RuleContext<'_>, s: int, k: int) -> Seq<Place> {
    let play = context.lifecycle_facts.scenes@[s].plays@[k];
    match (context.knowledge, call_written_at(context, play.site)) {
        (Some(profile), Some(call)) => if play.kind == PlayKind::Wait {
            wait_owed(call, play)
        } else {
            match call.spec_keyword("run_time"@) {
                Some(argument) => owed(at_most_zero(argument), call.file, argument.range),
                None => if call.has_star_star_kwargs {
                    Seq::empty()
                } else {
                    gather(
                        play.animations@.len() as int,
                        |a: int| run_time_owed(context, play.animations@[a]),
                    )
                },
            }
        },
        _ => Seq::empty(),
    }
}

proof fn number_is_told(argument: CallArgument)
    ensures
        is_number(argument) <==> number_of(argument) is Some,
        at_most_zero(argument) <==> (number_of(argument) matches Some(value) && not_positive(value)),
{
    match argument.literal {
        Some(LiteralFact::Int(n)) => whole_sign_is_exact(n),
        _ => {},
    }
}

proof fn time_is_told(duration: Num)
    ensures
        no_time(duration) <==> (duration matches Num::Exact(literal)
            && !literal.spec_bound().above_zero()),
{
    match duration {
        Num::Exact(NumLit::Int(n)) => whole_sign_is_exact(n),
        _ => {},
    }
}

proof fn run_time_is_told(context: RuleContext<'_>, played: PlayedAnimation)
    requires
        context.knowledge is Some,
    ensures
        offered_at(
            context,
            found(played_finding(context, *context.knowledge->0, played)),
            run_time_owed(context, played),
        ),
{
    match call_written_at(context, played.site) {
        Some(call) => {
            let profile = *context.knowledge->0;
            target_is_exact(context, call, "manim.animation.animation.Wait"@);
            match target_of(profile, context.project_index, call) {
                Some(id) => {
                    target_is_exact(context, call, id);
                    assert forall|o: Seq<char>| #[trigger] makes_animation(context, call, o) implies o
                        == id by {
                        target_is_exact(context, call, o);
                    }
                    if makes_animation(context, call, id) {
                        assert(exists|o: Seq<char>| #[trigger] makes_animation(context, call, o));
                    }
                    if exists|o: Seq<char>| #[trigger] makes_animation(context, call, o) {
                        assert(makes_animation(context, call, id));
                    }
                },
                None => {
                    assert forall|o: Seq<char>| !#[trigger] makes_animation(context, call, o) by {
                        target_is_exact(context, call, o);
                    }
                },
            }
            match call.spec_keyword("run_time"@) {
                Some(argument) => number_is_told(argument),
                None => {
                    if call.positional_count > 0 && call.arguments@.len() > 0 {
                        number_is_told(call.arguments@[0]);
                    }
                },
            }
        },
        None => {},
    }
}

proof fn duration_is_told(context: RuleContext<'_>, s: int, k: int)
    ensures
        offered_at(
            context,
            executed_findings(context, context.lifecycle_facts.scenes@[s].plays@[k]),
            duration_owed(context, s, k),
        ),
{
    let play = context.lifecycle_facts.scenes@[s].plays@[k];
    match (context.knowledge, call_written_at(context, play.site)) {
        (Some(profile), Some(call)) => {
            if play.kind == PlayKind::Wait {
                time_is_told(play.duration);
                if call.positional_count > 0 && call.arguments@.len() > 0 {
                    number_is_told(call.arguments@[0]);
                }
                match call.spec_keyword("duration"@) {
                    Some(argument) => number_is_told(argument),
                    None => {},
                }
            } else {
                match call.spec_keyword("run_time"@) {
                    Some(argument) => number_is_told(argument),
                    None => {
                        let m = play.animations@.len() as int;
                        let parts = played_finder(context, *profile, play);
                        let here = |a: int| run_time_owed(context, play.animations@[a]);
                        assert forall|a: int| 0 <= a < m implies offered_at(
                            context,
                            #[trigger] parts(a),
                            here(a),
                        ) by {
                            run_time_is_told(context, play.animations@[a]);
                        }
                        parts_offered(context, m, parts, here);
                    },
                }
            }
        },
        _ => {},
    }
}

/// Every duration of an executed `play` or `wait` that is zero or negative is
/// reported where it is written, and nothing else is.
pub proof fn non_positive_durations_are_reported(context: RuleContext<'_>)
    ensures
        told(
            context,
            NonPositiveDuration.findings(context),
            gather(
                context.lifecycle_facts.scenes@.len() as int,
                |s: int|
                    gather(
                        context.lifecycle_facts.scenes@[s].plays@.len() as int,
                        |k: int| duration_owed(context, s, k),
                    ),
            ),
        ),
{
    let scenes = context.lifecycle_facts.scenes@;
    let n = scenes.len() as int;
    let finder = durations_finder(context);
    let places = |s: int|
        gather(scenes[s].plays@.len() as int, |k: int| duration_owed(context, s, k));
    assert forall|s: int| 0 <= s < n implies offered_at(
        context,
        #[trigger] finder(s),
        places(s),
    ) by {
        let plays = scenes[s].plays@;
        let items = executed_finder(context, plays);
        let here = |k: int| duration_owed(context, s, k);
        assert(finder(s) == durations_at(context, s));
        assert forall|k: int| 0 <= k < plays.len() implies offered_at(
            context,
            #[trigger] items(k),
            here(k),
        ) by {
            assert(items(k) == executed_findings(context, plays[k]));
            duration_is_told(context, s, k);
        }
        parts_offered(context, plays.len() as int, items, here);
    }
    parts_offered(context, n, finder, places);
    offers_are_told(context, gather(n, finder), gather(n, places));
}

/// Whether some `.animate` builder with a method starts where a callee does
/// and ends inside it.
pub open spec fn builder_inside(context: RuleContext<'_>, outer: QualifiedCall, inner: QualifiedCall) -> bool {
    exists|s: int, b: int|
        0 <= s < context.lifecycle_facts.scenes@.len() && 0 <= b
            < context.lifecycle_facts.scenes@[s].builders@.len() && {
            let builder = #[trigger] context.lifecycle_facts.scenes@[s].builders@[b];
            &&& builder.methods@.len() > 0
            &&& builder.target is Some
            &&& builder.site.file == outer.file
            &&& builder.site.start == inner.callee_range.start
            &&& builder.site.end <= inner.callee_range.end
        }
}

proof fn least_is_found(ends: Seq<u32>)
    ensures
        least(ends) is Some <==> ends.len() > 0,
    decreases ends.len(),
{
    if ends.len() > 0 {
        least_is_found(ends.drop_last());
    }
}

proof fn builder_is_told(context: RuleContext<'_>, outer: QualifiedCall, inner: QualifiedCall)
    ensures
        builder_inside(context, outer, inner) <==> builder_at(
            context,
            outer.file,
            inner.callee_range,
        ) is Some,
{
    let scenes = context.lifecycle_facts.scenes@;
    let n = scenes.len() as int;
    let start = inner.callee_range.start;
    let limit = inner.callee_range.end;
    let finder = project_ends(scenes, outer.file, start, limit);
    let ends = gather(n, finder);
    least_is_found(ends);
    if builder_inside(context, outer, inner) {
        let (s, b) = choose|s: int, b: int|
            0 <= s < n && 0 <= b < scenes[s].builders@.len() && {
                let builder = #[trigger] scenes[s].builders@[b];
                &&& builder.methods@.len() > 0
                &&& builder.target is Some
                &&& builder.site.file == outer.file
                &&& builder.site.start == start
                &&& builder.site.end <= limit
            };
        let builder = scenes[s].builders@[b];
        let row = scene_ends(scenes[s].builders@, outer.file, start, limit);
        let part = row(b);
        assert(part == seq![builder.site.end]);
        assert(part[0] == builder.site.end);
        gathered_in(scenes[s].builders@.len() as int, row, b, builder.site.end);
        assert(finder(s) == gather(scenes[s].builders@.len() as int, row));
        gathered_in(n, finder, s, builder.site.end);
        assert(ends.len() > 0);
    }
    if ends.len() > 0 {
        let end = ends[0];
        gathered_from(n, finder, 0);
        let s = choose|s: int| 0 <= s < n && (#[trigger] finder(s)).contains(end);
        let row = scene_ends(scenes[s].builders@, outer.file, start, limit);
        let list = gather(scenes[s].builders@.len() as int, row);
        assert(finder(s) == list);
        let q = choose|q: int| 0 <= q < list.len() && list[q] == end;
        gathered_from(scenes[s].builders@.len() as int, row, q);
        let b = choose|b: int|
            0 <= b < scenes[s].builders@.len() && (#[trigger] row(b)).contains(end);
        assert(chained_at(scenes[s].builders@[b], outer.file, start, limit));
        assert(scenes[s].builders@[b].methods@.len() > 0);
    }
}

/// What is written behind a called builder method, where the result is called
/// again.
pub open spec fn late_kwargs_owed(context: RuleContext<'_>, i: int) -> Seq<Place> {
    let outer = context.qualified_calls.calls@[i];
    owed(
        call_written_at(context, site_of(outer.file, outer.callee_range)) matches Some(inner)
            && builder_inside(context, outer, inner),
        outer.file,
        TextRange { start: outer.callee_range.end, end: outer.call_range.end },
    )
}

/// Arguments that are passed to the result of a builder method, not to
/// `.animate` itself, are reported, and nothing else is.
pub proof fn late_kwargs_are_reported(context: RuleContext<'_>)
    ensures
        told(
            context,
            AnimateKwargsAfterMethod.findings(context),
            gather(
                context.qualified_calls.calls@.len() as int,
                |i: int| late_kwargs_owed(context, i),
            ),
        ),
{
    let n = context.qualified_calls.calls@.len() as int;
    let finder = late_kwargs_finder(context);
    let places = |i: int| late_kwargs_owed(context, i);
    assert forall|i: int| 0 <= i < n implies offered_at(
        context,
        #[trigger] finder(i),
        places(i),
    ) by {
        let outer = context.qualified_calls.calls@[i];
        assert(finder(i) == found(late_kwargs_at(context, i)));
        match call_written_at(context, site_of(outer.file, outer.callee_range)) {
            Some(inner) => builder_is_told(context, outer, inner),
            None => {},
        }
    }
    parts_offered(context, n, finder, places);
    offers_are_told(context, gather(n, finder), gather(n, places));
}

/// Whether an updater certainly writes, while it is active, a channel of
/// `target` that an animation writes too.
pub open spec fn works_on(
    scene: SceneLifecycle,
    registration: UpdaterRegistration,
    target: ObjectId,
    held: MobjectState,
    channels: Seq<WriteChannel>,
) -> bool {
    &&& registration.certainty == Presence::Present
    &&& registration.body.mutates_target == Truth::Yes
    &&& registration.body.calls_unknown == Truth::No
    &&& registration.body.channels_known == Truth::Yes
    &&& exists|c: int|
        0 <= c < registration.body.write_channels@.len() && channels.contains(
            #[trigger] registration.body.write_channels@[c],
        )
    &&& target.cardinality == Cardinality::Singleton
    &&& registration.host == UpdaterHost::Mobject(target)
    &&& holds_updater(held.updaters@, registration.fact)
    &&& forall|r: int|
        0 <= r < scene.updater_removals@.len() && one_host(
            (#[trigger] scene.updater_removals@[r]).host,
            UpdaterHost::Mobject(target),
        ) ==> scene.updater_removals@[r].matched == Truth::No
}

proof fn work_is_told(
    scene: SceneLifecycle,
    registration: UpdaterRegistration,
    target: ObjectId,
    held: MobjectState,
    channels: Seq<WriteChannel>,
)
    ensures
        works_on(scene, registration, target, held, channels) <==> active_overlap(
            scene,
            registration,
            target,
            held,
            channels,
        ),
{
    common_is_held(registration.body.write_channels@, channels);
    assert(maybe_removed(scene.updater_removals@, target) <==> exists|r: int|
        0 <= r < scene.updater_removals@.len() && one_host(
            (#[trigger] scene.updater_removals@[r]).host,
            UpdaterHost::Mobject(target),
        ) && scene.updater_removals@[r].matched != Truth::No);
}

/// A target of an animation that suspends active updaters, once for each.
pub open spec fn suspended_target_owed(
    scene: SceneLifecycle,
    snapshot: StateSnapshot,
    animation: PlayedAnimation,
    state: AnimationState,
    target: ObjectId,
) -> Seq<Place> {
    match snapshot.heap.spec_object(target) {
        Some(held) => if held.updating_suspended == Truth::No {
            gather(
                scene.updaters@.len() as int,
                |r: int|
                    site_owed(
                        works_on(
                            scene,
                            scene.updaters@[r],
                            target,
                            held,
                            state.write_channels@,
                        ),
                        animation.site,
                    ),
            )
        } else {
            Seq::empty()
        },
        None => Seq::empty(),
    }
}

/// An animation that suspends its live targets, for each updater that works on
/// them.
pub open spec fn suspended_animation_owed(
    scene: SceneLifecycle,
    snapshot: StateSnapshot,
    animation: PlayedAnimation,
) -> Seq<Place> {
    match animation.state {
        Some(state) => if animation.channels_known == Truth::Yes && state.suspend
            == SuspendBehavior::SuspendsLiveTargets && state.write_channels@.len() > 0 {
            gather(
                state.targets@.len() as int,
                |t: int|
                    suspended_target_owed(scene, snapshot, animation, state, state.targets@[t]),
            )
        } else {
            Seq::empty()
        },
        None => Seq::empty(),
    }
}

proof fn suspended_target_is_told(
    context: RuleContext<'_>,
    scene: SceneLifecycle,
    snapshot: StateSnapshot,
    animation: PlayedAnimation,
    state: AnimationState,
    target: ObjectId,
)
    ensures
        offered_at(
            context,
            suspended_target_of(context, scene, snapshot, animation, state, target),
            suspended_target_owed(scene, snapshot, animation, state, target),
        ),
{
    match snapshot.heap.spec_object(target) {
        Some(held) => {
            let m = scene.updaters@.len() as int;
            let parts = suspended_registrations_parts(
                context,
                scene,
                animation,
                state,
                target,
                held,
            );
            let here = |r: int|
                site_owed(
                    works_on(scene, scene.updaters@[r], target, held, state.write_channels@),
                    animation.site,
                );
            assert forall|r: int| 0 <= r < m implies offered_at(
                context,
                #[trigger] parts(r),
                here(r),
            ) by {
                work_is_told(scene, scene.updaters@[r], target, held, state.write_channels@);
            }
            parts_offered(context, m, parts, here);
        },
        None => {},
    }
}

proof fn suspended_animation_is_told(
    context: RuleContext<'_>,
    scene: SceneLifecycle,
    snapshot: StateSnapshot,
    animation: PlayedAnimation,
)
    ensures
        offered_at(
            context,
            suspended_animation_of(context, scene, snapshot, animation),
            suspended_animation_owed(scene, snapshot, animation),
        ),
{
    match animation.state {
        Some(state) => {
            let m = state.targets@.len() as int;
            let parts = suspended_targets_parts(context, scene, snapshot, animation, state);
            let here = |t: int|
                suspended_target_owed(scene, snapshot, animation, state, state.targets@[t]);
            assert forall|t: int| 0 <= t < m implies offered_at(
                context,
                #[trigger] parts(t),
                here(t),
            ) by {
                suspended_target_is_told(
                    context,
                    scene,
                    snapshot,
                    animation,
                    state,
                    state.targets@[t],
                );
            }
            parts_offered(context, m, parts, here);
        },
        None => {},
    }
}

/// The animations of a play that suspend an active updater.
pub open spec fn suspends_owed(context: RuleContext<'_>, s: int, k: int) -> Seq<Place> {
    let scene = context.lifecycle_facts.scenes@[s];
    let play = scene.plays@[k];
    match scene.spec_state_at(play.site.file, play.site.start) {
        Some(snapshot) => if play.certainty == Presence::Present {
            gather(
                play.animations@.len() as int,
                |a: int| suspended_animation_owed(scene, snapshot, play.animations@[a]),
            )
        } else {
            Seq::empty()
        },
        None => Seq::empty(),
    }
}

/// An animation that suspends an active updater on one of the channels that
/// both write is reported, and nothing else is.
pub proof fn suspended_updaters_are_reported(context: RuleContext<'_>)
    ensures
        told(
            context,
            UpdaterSuspendResumeDivergence.findings(context),
            gather(
                context.lifecycle_facts.scenes@.len() as int,
                |s: int|
                    gather(
                        context.lifecycle_facts.scenes@[s].plays@.len() as int,
                        |k: int| suspends_owed(context, s, k),
                    ),
            ),
        ),
{
    let scenes = context.lifecycle_facts.scenes@;
    let n = scenes.len() as int;
    let finder = suspends_finder(context);
    let places = |s: int|
        gather(scenes[s].plays@.len() as int, |k: int| suspends_owed(context, s, k));
    assert forall|s: int| 0 <= s < n implies offered_at(
        context,
        #[trigger] finder(s),
        places(s),
    ) by {
        let scene = scenes[s];
        let m = scene.plays@.len() as int;
        let items = suspends_items(context, scene);
        assert(finder(s) == suspends_at(context, s));
        assert(suspends_at(context, s) == gather(m, items));
        let here = |k: int| suspends_owed(context, s, k);
        assert forall|k: int| 0 <= k < m implies offered_at(
            context,
            #[trigger] items(k),
            here(k),
        ) by {
            assert(items(k) == suspends_of(context, scene, k));
            let play = scene.plays@[k];
            match scene.spec_state_at(play.site.file, play.site.start) {
                Some(snapshot) => {
                    let c = play.animations@.len() as int;
                    let parts = suspended_animations_parts(context, scene, snapshot, play);
                    let inner = |a: int|
                        suspended_animation_owed(scene, snapshot, play.animations@[a]);
                    assert forall|a: int| 0 <= a < c implies offered_at(
                        context,
                        #[trigger] parts(a),
                        inner(a),
                    ) by {
                        suspended_animation_is_told(
                            context,
                            scene,
                            snapshot,
                            play.animations@[a],
                        );
                    }
                    parts_offered(context, c, parts, inner);
                },
                None => {},
            }
        }
        parts_offered(context, m, items, here);
    }
    parts_offered(context, n, finder, places);
    offers_are_told(context, gather(n, finder), gather(n, places));
}

/// Whether an animation is a plain `Transform`, of a class that descends from
/// it, that turns `source` into a lookalike of `target` and keeps `source`.
pub open spec fn turns_into(
    profile: KnowledgeProfile,
    played: PlayedAnimation,
    source: ObjectId,
    target: ObjectId,
) -> bool {
    &&& played.state matches Some(state) && state.replacement == Truth::No && state.remover
        == Truth::No && state.targets@.len() == 1 && state.targets@[0] == source && (
    state.kind matches KindSet::Known(kinds) && kinds@.len() > 0 && forall|c: int|
        0 <= c < kinds@.len() ==> reachable(
            base_step(profile),
            (#[trigger] kinds@[c])@,
            "manim.animation.transform.Transform"@,
        ))
    &&& played.replacement_target == Some(target)
    &&& played.channels_known == Truth::Yes
    &&& source.cardinality == Cardinality::Singleton
    &&& target.cardinality == Cardinality::Singleton
    &&& source != target
}

proof fn transform_is_told(
    profile: KnowledgeProfile,
    played: PlayedAnimation,
    source: ObjectId,
    target: ObjectId,
)
    ensures
        turns_into(profile, played, source, target) <==> transform_relation(profile, played)
            == Some((source, target)),
{
    if played.state is Some {
        match played.state->0.kind {
            KindSet::Known(kinds) => {
                let list = texts(kinds@);
                assert(forall|c: int| 0 <= c < list.len() ==> #[trigger] list[c] == kinds@[c]@);
                if all_transforms(profile, list) {
                    assert forall|c: int| 0 <= c < kinds@.len() implies reachable(
                        base_step(profile),
                        (#[trigger] kinds@[c])@,
                        "manim.animation.transform.Transform"@,
                    ) by {
                        assert(list[c] == kinds@[c]@);
                    }
                }
                if turns_into(profile, played, source, target) {
                    assert forall|c: int| 0 <= c < list.len() implies reachable(
                        base_step(profile),
                        #[trigger] list[c],
                        "manim.animation.transform.Transform"@,
                    ) by {
                        assert(list[c] == kinds@[c]@);
                    }
                }
            },
            _ => {},
        }
    }
}

/// Whether a builder animates `target`, which is not in the scene while
/// `source` is.
pub open spec fn animates_the_lookalike(
    scene: SceneLifecycle,
    source: ObjectId,
    target: ObjectId,
    play: PlayFact,
    later: PlayedAnimation,
) -> bool {
    &&& later.from_builder
    &&& later.state matches Some(state) && state.introducer == Truth::No && state.targets@.len()
        == 1 && state.targets@[0] == target && target.cardinality == Cardinality::Singleton
    &&& scene.spec_membership_at(source, play.site.file, play.site.start) matches Some(held)
        && held.1 == Presence::Present
    &&& scene.spec_membership_at(target, play.site.file, play.site.start) matches Some(held)
        && held.1 == Presence::Absent
}

/// The animations of the play at `j`, when it follows the transform at `k`.
pub open spec fn confused_play_owed(
    scene: SceneLifecycle,
    source: ObjectId,
    target: ObjectId,
    k: int,
    j: int,
) -> Seq<Place> {
    let play = scene.plays@[j];
    if k < j && play.kind == PlayKind::Play && play.certainty == Presence::Present {
        gather(
            play.animations@.len() as int,
            |b: int|
                site_owed(
                    animates_the_lookalike(scene, source, target, play, play.animations@[b]),
                    play.animations@[b].site,
                ),
        )
    } else {
        Seq::empty()
    }
}

/// What follows a transform at the play `k` and animates its lookalike.
pub open spec fn confused_transform_owed(
    profile: KnowledgeProfile,
    scene: SceneLifecycle,
    k: int,
    transform: PlayedAnimation,
) -> Seq<Place> {
    if exists|source: ObjectId, target: ObjectId|
        #[trigger] turns_into(profile, transform, source, target) {
        let (source, target) = choose|source: ObjectId, target: ObjectId|
            #[trigger] turns_into(profile, transform, source, target);
        gather(
            scene.plays@.len() as int,
            |j: int| confused_play_owed(scene, source, target, k, j),
        )
    } else {
        Seq::empty()
    }
}

proof fn confused_transform_is_told(
    context: RuleContext<'_>,
    profile: KnowledgeProfile,
    scene: SceneLifecycle,
    k: int,
    transform: PlayedAnimation,
)
    requires
        0 <= k < scene.plays@.len(),
    ensures
        offered_at(
            context,
            confused_transform_of(context, profile, scene, k as usize, transform),
            confused_transform_owed(profile, scene, k, transform),
        ),
{
    assert(scene.plays.len() == scene.plays@.len());
    assert forall|source: ObjectId, target: ObjectId|
        #[trigger] turns_into(profile, transform, source, target) <==> transform_relation(
            profile,
            transform,
        ) == Some((source, target)) by {
        transform_is_told(profile, transform, source, target);
    }
    match transform_relation(profile, transform) {
        Some((source, target)) => {
            assert(turns_into(profile, transform, source, target));
            let n = scene.plays@.len() as int;
            let outer = confused_plays_parts(
                context,
                scene,
                transform,
                source,
                target,
                k as usize,
            );
            let there = |j: int| confused_play_owed(scene, source, target, k, j);
            assert forall|j: int| 0 <= j < n implies offered_at(
                context,
                #[trigger] outer(j),
                there(j),
            ) by {
                let play = scene.plays@[j];
                let m = play.animations@.len() as int;
                let parts = confused_animations_parts(
                    context,
                    scene,
                    transform,
                    source,
                    target,
                    play,
                );
                let here = |b: int|
                    site_owed(
                        animates_the_lookalike(scene, source, target, play, play.animations@[b]),
                        play.animations@[b].site,
                    );
                assert forall|b: int| 0 <= b < m implies offered_at(
                    context,
                    #[trigger] parts(b),
                    here(b),
                ) by {}
                parts_offered(context, m, parts, here);
            }
            parts_offered(context, n, outer, there);
        },
        None => {},
    }
}

/// What animates the lookalike of a transform of the play at `k`.
pub open spec fn confusions_owed(context: RuleContext<'_>, s: int, k: int) -> Seq<Place> {
    let scene = context.lifecycle_facts.scenes@[s];
    let play = scene.plays@[k];
    if context.knowledge is Some && play.kind == PlayKind::Play && play.certainty
        == Presence::Present {
        gather(
            play.animations@.len() as int,
            |a: int|
                confused_transform_owed(
                    *context.knowledge->0,
                    scene,
                    k,
                    play.animations@[a],
                ),
        )
    } else {
        Seq::empty()
    }
}

/// After a plain `Transform`, a builder on the object that was only looked alike
/// is reported in every later play, and nothing else is.
pub proof fn lookalikes_are_reported(context: RuleContext<'_>)
    ensures
        told(
            context,
            PostTransformTargetConfusion.findings(context),
            gather(
                context.lifecycle_facts.scenes@.len() as int,
                |s: int|
                    gather(
                        context.lifecycle_facts.scenes@[s].plays@.len() as int,
                        |k: int| confusions_owed(context, s, k),
                    ),
            ),
        ),
{
    let scenes = context.lifecycle_facts.scenes@;
    let n = scenes.len() as int;
    let finder = confusions_finder(context);
    let places = |s: int|
        gather(scenes[s].plays@.len() as int, |k: int| confusions_owed(context, s, k));
    assert forall|s: int| 0 <= s < n implies offered_at(
        context,
        #[trigger] finder(s),
        places(s),
    ) by {
        let scene = scenes[s];
        let m = scene.plays@.len() as int;
        let items = confusions_items(context, scene);
        assert(finder(s) == confusions_at(context, s));
        assert(confusions_at(context, s) == gather(m, items));
        let here = |k: int| confusions_owed(context, s, k);
        assert forall|k: int| 0 <= k < m implies offered_at(
            context,
            #[trigger] items(k),
            here(k),
        ) by {
            assert(items(k) == confusions_of(context, scene, k));
            let play = scene.plays@[k];
            match context.knowledge {
                Some(profile) => {
                    let c = play.animations@.len() as int;
                    let parts = confused_transforms_parts(
                        context,
                        *profile,
                        scene,
                        k as usize,
                        play,
                    );
                    let inner = |a: int|
                        confused_transform_owed(*profile, scene, k, play.animations@[a]);
                    assert forall|a: int| 0 <= a < c implies offered_at(
                        context,
                        #[trigger] parts(a),
                        inner(a),
                    ) by {
                        confused_transform_is_told(
                            context,
                            *profile,
                            scene,
                            k,
                            play.animations@[a],
                        );
                    }
                    parts_offered(context, c, parts, inner);
                },
                None => {},
            }
        }
        parts_offered(context, m, items, here);
    }
    parts_offered(context, n, finder, places);
    offers_are_told(context, gather(n, finder), gather(n, places));
}

} // verus!
