//! What the rules on requirements, redraws, traces, and renderers are for.
use super::frames::{bound_is_exact, not_below};
use super::hot::goal_is_exact;
use super::performance::may_only_reach;
use super::{
    at_one_of, offered_at, offered_here, offers_are_told, owed, parts_offered, parts_stand,
    points_at, range_of_site, reported_at, site_owed, stand_at, told, Place,
};
use crate::config::{RenderProfile, Renderer};
use crate::cost::{geometry_from, HotEntryKind};
use crate::diagnostic::DiagnosticView;
use crate::frontend::{LiteralFact, QualifiedCall};
use crate::ordered::{sorted_sites, sorting_is_exact};
use crate::rules::base::{Rule, RuleContext};
use crate::rules::lifecycle::state_targets::{
    absent_in, absent_parts, absent_scenes, MissingGeneratedTarget, MissingSavedState,
};
use crate::rules::performance::redraw_geometry::{
    inside_factory, leaf_geometry, leaf_inside, leaves, only_reads, redraw_at, redraw_factory,
    redraw_finder, stable_redraw, StableGeometryRedraw,
};
use crate::rules::performance::sums::{sum_of, PlayQuantity};
use crate::rules::performance::traced_path::{
    alive_during, alive_positions, can_target, object_from, traced_at, traced_finder,
    UnboundedTracedPath,
};
use crate::rules::portability::renderer_divergence::{
    both_renderers, camera_candidate, construct_from, construct_use, divergence_at,
    divergence_finder, removal_at, removals_parts, UnguardedRendererDivergence,
};
use crate::semantic::{
    lambda_return_in, CameraKind, Cardinality, Event, ObjectId, PlayFact, PlayKind, Presence,
    RendererRequirementKind, SceneLifecycle, TargetRequirement, Truth,
};
use crate::source::{site_of, AllocationSite};
use crate::text::{found, gather, picked, picked_pass};
use vstd::prelude::*;

verus! {

/// Whether places are those of sites, one each and in order.
spec fn places_of(sites: Seq<AllocationSite>, places: Seq<Place>) -> bool {
    sites.len() == places.len() && forall|k: int|
        0 <= k < sites.len() ==> #[trigger] places[k] == (sites[k].file, range_of_site(sites[k]))
}

proof fn parts_placed(
    n: int,
    sites: spec_fn(int) -> Seq<AllocationSite>,
    places: spec_fn(int) -> Seq<Place>,
)
    requires
        forall|i: int| 0 <= i < n ==> places_of(#[trigger] sites(i), places(i)),
    ensures
        places_of(gather(n, sites), gather(n, places)),
    decreases n,
{
    if n > 0 {
        parts_placed(n - 1, sites, places);
        let last = sites(n - 1);
        assert(places_of(last, places(n - 1)));
        let before = gather(n - 1, sites);
        let whole = gather(n, sites);
        let all = gather(n, places);
        assert forall|k: int| 0 <= k < whole.len() implies #[trigger] all[k] == (
            whole[k].file,
            range_of_site(whole[k]),
        ) by {
            if k < before.len() {
                assert(all[k] == gather(n - 1, places)[k]);
            } else {
                assert(all[k] == places(n - 1)[k - before.len()]);
            }
        }
    }
}

proof fn sorted_reports_are_told(
    context: RuleContext<'_>,
    sites: Seq<AllocationSite>,
    places: Seq<Place>,
    list: Seq<DiagnosticView>,
)
    requires
        places_of(sites, places),
        list.len() == sorted_sites(sites).len(),
        forall|k: int|
            0 <= k < list.len() ==> points_at(
                context,
                #[trigger] list[k],
                sorted_sites(sites)[k].file,
                range_of_site(sorted_sites(sites)[k]),
            ),
    ensures
        told(context, list, places),
{
    let sorted = sorted_sites(sites);
    sorting_is_exact(sites);
    assert forall|p: int| 0 <= p < places.len() implies reported_at(
        context,
        list,
        (#[trigger] places[p]).0,
        places[p].1,
    ) by {
        assert(sites.contains(sites[p]));
        assert(sorted.contains(sites[p]));
        let k = choose|k: int| 0 <= k < sorted.len() && sorted[k] == sites[p];
        let place = places[p];
        assert(place == (sites[p].file, range_of_site(sites[p])));
        assert(points_at(context, list[k], place.0, place.1));
    }
    assert forall|k: int| 0 <= k < list.len() implies at_one_of(
        context,
        #[trigger] list[k],
        places,
    ) by {
        assert(sorted.contains(sorted[k]));
        assert(sites.contains(sorted[k]));
        let p = choose|p: int| 0 <= p < sites.len() && sites[p] == sorted[k];
        let place = places[p];
        assert(place == (sites[p].file, range_of_site(sites[p])));
        assert(points_at(context, list[k], place.0, place.1));
    }
}

/// A use of something that no path has prepared.
pub open spec fn unprepared_owed(
    context: RuleContext<'_>,
    requirement: TargetRequirement,
    s: int,
    k: int,
) -> Seq<Place> {
    let scene = context.lifecycle_facts.scenes@[s];
    let fact = scene.target_requirements@[k];
    site_owed(
        !scene.constructor_state_unknown && fact.requirement == requirement && fact.presence
            == Presence::Absent,
        fact.site,
    )
}

/// All such uses, scene by scene.
pub open spec fn unprepared(context: RuleContext<'_>, requirement: TargetRequirement) -> Seq<Place> {
    gather(
        context.lifecycle_facts.scenes@.len() as int,
        |s: int|
            gather(
                context.lifecycle_facts.scenes@[s].target_requirements@.len() as int,
                |k: int| unprepared_owed(context, requirement, s, k),
            ),
    )
}

proof fn empty_parts(n: int, places: spec_fn(int) -> Seq<Place>)
    requires
        forall|i: int| 0 <= i < n ==> (#[trigger] places(i)).len() == 0,
    ensures
        gather(n, places).len() == 0,
    decreases n,
{
    if n > 0 {
        empty_parts(n - 1, places);
        assert(places(n - 1).len() == 0);
    }
}

proof fn unprepared_sites(context: RuleContext<'_>, requirement: TargetRequirement)
    ensures
        places_of(
            gather(
                context.lifecycle_facts.scenes@.len() as int,
                absent_scenes(context.lifecycle_facts.scenes@, requirement),
            ),
            unprepared(context, requirement),
        ),
{
    let scenes = context.lifecycle_facts.scenes@;
    let n = scenes.len() as int;
    let sites = absent_scenes(scenes, requirement);
    let places = |s: int|
        gather(
            scenes[s].target_requirements@.len() as int,
            |k: int| unprepared_owed(context, requirement, s, k),
        );
    assert forall|s: int| 0 <= s < n implies places_of(#[trigger] sites(s), places(s)) by {
        let scene = scenes[s];
        let m = scene.target_requirements@.len() as int;
        let here = |k: int| unprepared_owed(context, requirement, s, k);
        assert(sites(s) == absent_in(scene, requirement));
        if scene.constructor_state_unknown {
            empty_parts(m, here);
        } else {
            let parts = absent_parts(scene.target_requirements@, requirement);
            assert forall|k: int| 0 <= k < m implies places_of(#[trigger] parts(k), here(k)) by {}
            parts_placed(m, parts, here);
        }
    }
    parts_placed(n, sites, places);
}

/// A `MoveToTarget` on a mobject for which no path generates a target is
/// reported, and nothing else is.
pub proof fn missing_targets_are_reported(context: RuleContext<'_>)
    ensures
        told(
            context,
            MissingGeneratedTarget.findings(context),
            unprepared(context, TargetRequirement::GeneratedTarget),
        ),
{
    let requirement = TargetRequirement::GeneratedTarget;
    let scenes = context.lifecycle_facts.scenes@;
    unprepared_sites(context, requirement);
    sorted_reports_are_told(
        context,
        gather(scenes.len() as int, absent_scenes(scenes, requirement)),
        unprepared(context, requirement),
        MissingGeneratedTarget.findings(context),
    );
}

/// A `Restore` of a mobject for which no path saves a state is reported, and
/// nothing else is.
pub proof fn missing_states_are_reported(context: RuleContext<'_>)
    ensures
        told(
            context,
            MissingSavedState.findings(context),
            unprepared(context, TargetRequirement::SavedState),
        ),
{
    let requirement = TargetRequirement::SavedState;
    let scenes = context.lifecycle_facts.scenes@;
    unprepared_sites(context, requirement);
    sorted_reports_are_told(
        context,
        gather(scenes.len() as int, absent_scenes(scenes, requirement)),
        unprepared(context, requirement),
        MissingSavedState.findings(context),
    );
}

/// Whether a traced path certainly grows while a play renders: it is in the
/// scene, and nothing may animate it.
pub open spec fn grows_during(scene: SceneLifecycle, object: ObjectId, play: PlayFact) -> bool {
    &&& play.certainty == Presence::Present
    &&& play.kind == PlayKind::Play || play.dynamic_wait == Truth::Yes
    &&& scene.spec_membership_at(object, play.site.file, play.site.start) matches Some(held)
        && held.1 == Presence::Present
    &&& forall|a: int|
        0 <= a < play.animations@.len() ==> !((#[trigger] play.animations@[a]).state matches Some(
            state,
        ) && exists|t: int|
            0 <= t < state.targets@.len() && (#[trigger] state.targets@[t]).site == object.site)
}

proof fn growth_is_told(scene: SceneLifecycle, object: ObjectId, play: PlayFact)
    ensures
        grows_during(scene, object, play) <==> alive_during(scene, object, play),
{
    assert forall|a: int| 0 <= a < play.animations@.len() implies (can_target(
        #[trigger] play.animations@[a],
        object,
    ) <==> (play.animations@[a].state matches Some(state) && exists|t: int|
        0 <= t < state.targets@.len() && (#[trigger] state.targets@[t]).site == object.site)) by {
        match play.animations@[a].state {
            Some(state) => {
                assert(forall|t: int|
                    0 <= t < state.targets@.len() ==> ((#[trigger] state.targets@[t]).maybe_same(
                        object,
                    ) != Truth::No <==> state.targets@[t].site == object.site));
            },
            None => {},
        }
    }
}

/// The plays during which a traced path grows.
pub open spec fn growing_plays(scene: SceneLifecycle, object: ObjectId) -> Seq<usize> {
    picked(scene.plays@.len() as int, |p: int| grows_during(scene, object, scene.plays@[p]))
}

pub(crate) proof fn same_picks(n: int, a: spec_fn(int) -> bool, b: spec_fn(int) -> bool)
    requires
        forall|p: int| 0 <= p < n ==> (#[trigger] a(p) <==> b(p)),
    ensures
        picked(n, a) == picked(n, b),
    decreases n,
{
    if n > 0 {
        same_picks(n - 1, a, b);
        assert(a(n - 1) <==> b(n - 1));
    }
}

proof fn growing_is_told(scene: SceneLifecycle, object: ObjectId)
    ensures
        growing_plays(scene, object) == alive_positions(scene, object),
{
    let a = |p: int| grows_during(scene, object, scene.plays@[p]);
    let b = |p: int| alive_during(scene, object, scene.plays@[p]);
    assert forall|p: int| 0 <= p < scene.plays@.len() implies (#[trigger] a(p) <==> b(p)) by {
        growth_is_told(scene, object, scene.plays@[p]);
    }
    same_picks(scene.plays@.len() as int, a, b);
}

/// Whether a call keeps every point that it traces: it gives no dissipating
/// time, or `None`.
pub open spec fn keeps_every_point(call: QualifiedCall) -> bool {
    !call.has_star_star_kwargs && match call.spec_keyword("dissipating_time"@) {
        Some(argument) => argument.literal matches Some(LiteralFact::NoneLit),
        None => true,
    }
}

/// A path that keeps growing.
pub open spec fn traced_owed(context: RuleContext<'_>, i: int) -> Seq<Place> {
    let call = context.qualified_calls.calls@[i];
    owed(
        may_only_reach(context, call, "manim.animation.changing.TracedPath"@) && keeps_every_point(
            call,
        ) && (call.context.class_name matches Some(name) && (context.lifecycle_facts.spec_scene(
            name@,
        ) matches Some(scene) && (object_from(
            scene.final_heap.objects@,
            site_of(call.file, call.call_range),
            0,
        ) matches Some(object) && object.cardinality == Cardinality::Singleton && growing_plays(
            scene,
            object,
        ).len() > 0 && not_below(
            sum_of(context, scene, growing_plays(scene, object), PlayQuantity::Seconds),
            5,
        )))),
        call.file,
        call.call_range,
    )
}

/// A `TracedPath` without dissipation is reported when it certainly grows in
/// some play, and over five seconds or more; nothing else is.
pub proof fn endless_traces_are_reported(context: RuleContext<'_>)
    ensures
        stand_at(
            context,
            UnboundedTracedPath.findings(context),
            gather(
                context.qualified_calls.calls@.len() as int,
                |i: int| traced_owed(context, i),
            ),
        ),
{
    let finder = traced_finder(context);
    let places = |i: int| traced_owed(context, i);
    let n = context.qualified_calls.calls@.len() as int;
    assert forall|i: int| 0 <= i < n implies stand_at(
        context,
        #[trigger] finder(i),
        places(i),
    ) by {
        let call = context.qualified_calls.calls@[i];
        assert(finder(i) == found(traced_at(context, i)));
        if context.knowledge is Some {
            goal_is_exact(context, call, "manim.animation.changing.TracedPath"@);
            if call.context.class_name is Some {
                match context.lifecycle_facts.spec_scene(call.context.class_name->0@) {
                    Some(scene) => match object_from(
                        scene.final_heap.objects@,
                        site_of(call.file, call.call_range),
                        0,
                    ) {
                        Some(object) => {
                            growing_is_told(scene, object);
                            bound_is_exact(
                                sum_of(
                                    context,
                                    scene,
                                    growing_plays(scene, object),
                                    PlayQuantity::Seconds,
                                ),
                                5,
                            );
                        },
                        None => {},
                    },
                    None => {},
                }
            }
        }
    }
    parts_stand(context, n, finder, places);
}

/// Whether the call at `j` stands inside the factory of the call at `i`.
pub open spec fn in_factory(context: RuleContext<'_>, i: int, j: int) -> bool {
    let calls = context.qualified_calls.calls@;
    let factory = calls[i].arguments@[0].range;
    &&& j != i
    &&& calls[j].file == calls[i].file
    &&& factory.start <= calls[j].call_range.start
    &&& calls[j].call_range.end <= factory.end
}

/// Whether the call at `j` constructs a shape with a known number of curves.
pub open spec fn builds_known_shape(context: RuleContext<'_>, j: int) -> bool {
    geometry_from(context.cost_facts.geometry@, j as usize, 0) matches Some(fact) && fact.curves > 0
        && fact.guards_hold && may_only_reach(
        context,
        context.qualified_calls.calls@[j],
        fact.class@,
    )
}

/// Whether the call at `j` is the only shape that the factory of the call at
/// `i` builds, everything else there is an argument of it, and it is known to
/// be redrawn on every frame.
pub open spec fn redraws_only(context: RuleContext<'_>, i: int, j: int) -> bool {
    let calls = context.qualified_calls.calls@;
    &&& 0 <= j < calls.len()
    &&& in_factory(context, i, j)
    &&& builds_known_shape(context, j)
    &&& forall|k: int|
        0 <= k < calls.len() && k != j && #[trigger] in_factory(context, i, k)
            ==> !builds_known_shape(context, k) && calls[j].call_range.start
            <= calls[k].call_range.start && calls[k].call_range.end <= calls[j].call_range.end
            && calls[k].call_range != calls[j].call_range
    &&& context.cost_facts.spec_hot(j) matches Some(entry) && exists|c: int|
        0 <= c < entry.contexts@.len() && (#[trigger] entry.contexts@[c]).entry
            == HotEntryKind::AlwaysRedraw
}

/// Whether a call is an `always_redraw` of a lambda that is known to give a
/// mobject back.
pub open spec fn redraws_always(context: RuleContext<'_>, i: int) -> bool {
    let call = context.qualified_calls.calls@[i];
    &&& may_only_reach(
        context,
        call,
        "manim.animation.updaters.mobject_update_utils.always_redraw"@,
    )
    &&& call.positional_count > 0
    &&& call.arguments@.len() > 0
    &&& call.arguments@[0].shape is Lambda
    &&& lambda_return_in(
        context.lifecycle_facts.callback_returns.lambdas@,
        site_of(call.file, call.arguments@[0].range),
    ) matches Some(fact) && fact.returns_mobject == Truth::Yes
}

proof fn one_pick(n: int, test: spec_fn(int) -> bool)
    requires
        0 <= n <= usize::MAX,
    ensures
        picked(n, test).len() == 1 ==> 0 <= picked(n, test)[0] < n && test(
            picked(n, test)[0] as int,
        ) && forall|k: int| 0 <= k < n && #[trigger] test(k) ==> k == picked(n, test)[0],
        forall|j: int|
            0 <= j < n && #[trigger] test(j) && (forall|k: int|
                0 <= k < n && #[trigger] test(k) ==> k == j) ==> picked(n, test) == seq![
                j as usize,
            ],
    decreases n,
{
    if n > 0 {
        one_pick(n - 1, test);
        no_pick(n - 1, test);
        picked_pass(n, test);
        let rest = picked(n - 1, test);
        if test(n - 1) {
            assert(picked(n, test) == rest.push((n - 1) as usize));
        }
        assert forall|j: int|
            0 <= j < n && #[trigger] test(j) && (forall|k: int|
                0 <= k < n && #[trigger] test(k) ==> k == j) implies picked(n, test) == seq![
            j as usize,
        ] by {
            if j == n - 1 {
                assert forall|k: int| 0 <= k < n - 1 implies !#[trigger] test(k) by {}
                assert(picked(n, test) =~= seq![j as usize]);
            } else {
                assert(!test(n - 1));
            }
        }
    }
}

proof fn no_pick(n: int, test: spec_fn(int) -> bool)
    ensures
        picked(n, test).len() == 0 <==> forall|k: int| 0 <= k < n ==> !#[trigger] test(k),
    decreases n,
{
    if n > 0 {
        no_pick(n - 1, test);
        if forall|k: int| 0 <= k < n ==> !#[trigger] test(k) {
            assert(!test(n - 1));
        }
    }
}

proof fn shape_is_told(context: RuleContext<'_>, j: int)
    requires
        context.knowledge is Some,
    ensures
        builds_known_shape(context, j) <==> leaf_geometry(context, j) is Some,
{
    match geometry_from(context.cost_facts.geometry@, j as usize, 0) {
        Some(fact) => goal_is_exact(context, context.qualified_calls.calls@[j], fact.class@),
        None => {},
    }
}

pub(crate) proof fn redraw_is_told(context: RuleContext<'_>, i: int)
    requires
        0 <= i < context.qualified_calls.calls@.len(),
    ensures
        (redraws_always(context, i) && exists|j: int| #[trigger] redraws_only(context, i, j))
            <==> stable_redraw(context, i) is Some,
        stable_redraw(context, i) matches Some(j) ==> leaf_geometry(context, j as int) is Some,
{
    let calls = context.qualified_calls.calls@;
    let n = calls.len() as int;
    let call = calls[i];
    assert(context.qualified_calls.calls.len() == n);
    if context.knowledge is Some {
        goal_is_exact(
            context,
            call,
            "manim.animation.updaters.mobject_update_utils.always_redraw"@,
        );
        assert(redraws_always(context, i) <==> redraw_factory(context, i) is Some);
        if redraws_always(context, i) {
            let factory = call.arguments@[0].range;
            assert(redraw_factory(context, i) == Some(factory));
            let test = |j: int| leaf_inside(context, i, factory, j);
            assert forall|j: int| 0 <= j < n implies (#[trigger] test(j) <==> in_factory(
                context,
                i,
                j,
            ) && builds_known_shape(context, j)) by {
                shape_is_told(context, j);
            }
            assert(forall|j: int|
                #[trigger] inside_factory(calls, i, factory, j) <==> in_factory(context, i, j));
            one_pick(n, test);
            let list = leaves(context, i, factory);
            assert(list == picked(n, test));
            if exists|j: int| #[trigger] redraws_only(context, i, j) {
                let j = choose|j: int| #[trigger] redraws_only(context, i, j);
                assert(test(j));
                assert forall|k: int| 0 <= k < n && #[trigger] test(k) implies k == j by {
                    assert(in_factory(context, i, k));
                }
                assert(list == seq![j as usize]);
                assert forall|k: int|
                    0 <= k < n && #[trigger] inside_factory(calls, i, factory, k) implies k == j
                    || (calls[j].call_range.covers(calls[k].call_range) && calls[k].call_range
                    != calls[j].call_range) by {
                    assert(in_factory(context, i, k));
                }
                assert(only_reads(calls, i, factory, j));
            }
            if stable_redraw(context, i) is Some {
                let j = list[0] as int;
                assert(test(j));
                assert forall|k: int|
                    0 <= k < n && k != j && #[trigger] in_factory(context, i, k) implies
                    !builds_known_shape(context, k) && calls[j].call_range.start
                    <= calls[k].call_range.start && calls[k].call_range.end
                    <= calls[j].call_range.end && calls[k].call_range != calls[j].call_range by {
                    assert(inside_factory(calls, i, factory, k));
                    assert(test(k) ==> k == j);
                }
                assert(redraws_only(context, i, j));
            }
        }
    }
}

/// A redraw that rebuilds the same geometry.
pub open spec fn redraw_owed(context: RuleContext<'_>, i: int) -> Seq<Place> {
    let call = context.qualified_calls.calls@[i];
    owed(
        redraws_always(context, i) && exists|j: int| #[trigger] redraws_only(context, i, j),
        call.file,
        call.call_range,
    )
}

/// An `always_redraw` whose lambda builds one shape with a known number of
/// curves, and calls nothing but what that shape is built from, is reported;
/// nothing else is.
pub proof fn stable_redraws_are_reported(context: RuleContext<'_>)
    ensures
        stand_at(
            context,
            StableGeometryRedraw.findings(context),
            gather(
                context.qualified_calls.calls@.len() as int,
                |i: int| redraw_owed(context, i),
            ),
        ),
{
    let finder = redraw_finder(context);
    let places = |i: int| redraw_owed(context, i);
    let n = context.qualified_calls.calls@.len() as int;
    assert forall|i: int| 0 <= i < n implies stand_at(
        context,
        #[trigger] finder(i),
        places(i),
    ) by {
        let call = context.qualified_calls.calls@[i];
        assert(finder(i) == found(redraw_at(context, i)));
        redraw_is_told(context, i);
    }
    parts_stand(context, n, finder, places);
}

/// Whether some active profile uses this renderer.
pub open spec fn renders_with(profiles: Seq<RenderProfile>, renderer: Renderer) -> bool {
    exists|p: int| 0 <= p < profiles.len() && (#[trigger] profiles[p]).renderer == renderer
}

/// The certain events of a scene that the renderers treat differently, and its
/// first certain use of a moving camera.
pub open spec fn divergence_owed(context: RuleContext<'_>, s: int) -> Seq<Place> {
    let scene = context.lifecycle_facts.scenes@[s];
    if renders_with(context.config.active_profiles@, Renderer::Cairo) && renders_with(
        context.config.active_profiles@,
        Renderer::OpenGl,
    ) {
        gather(
            scene.events@.len() as int,
            |k: int|
                site_owed(
                    scene.events@[k].certainty == Presence::Present && (
                    scene.events@[k].event matches Event::RendererRequirement {
                        requirement,
                        note: _,
                    } && requirement == RendererRequirementKind::DivergesBetweenRenderers),
                    scene.events@[k].site,
                ),
        ) + camera_owed(context, scene)
    } else {
        Seq::empty()
    }
}

/// The first certain use of the camera of a moving-camera scene, where only
/// Cairo supports one.
pub open spec fn camera_owed(context: RuleContext<'_>, scene: SceneLifecycle) -> Seq<Place> {
    match construct_from(context, scene.mro@, 0) {
        Some((file, construct)) => match construct_use(context, file, construct) {
            Some((_, range)) => owed(
                scene.camera_kind == CameraKind::MovingCamera && (
                context.knowledge matches Some(profile) && (profile.spec_symbol(
                    "manim.scene.moving_camera_scene.MovingCameraScene"@,
                ) matches Some(entry) && (entry.renderer matches Some(support) && support.cairo
                    == Some(true) && support.opengl == Some(false)))),
                file,
                range,
            ),
            None => Seq::empty(),
        },
        None => Seq::empty(),
    }
}

/// Where profiles of both renderers are active, what the two treat differently
/// is reported, and nothing else is.
pub proof fn divergences_are_reported(context: RuleContext<'_>)
    ensures
        told(
            context,
            UnguardedRendererDivergence.findings(context),
            gather(
                context.lifecycle_facts.scenes@.len() as int,
                |s: int| divergence_owed(context, s),
            ),
        ),
{
    let scenes = context.lifecycle_facts.scenes@;
    let n = scenes.len() as int;
    let finder = divergence_finder(context);
    let places = |s: int| divergence_owed(context, s);
    let profiles = context.config.active_profiles@;
    assert(both_renderers(profiles) <==> renders_with(profiles, Renderer::Cairo) && renders_with(
        profiles,
        Renderer::OpenGl,
    ));
    assert forall|s: int| 0 <= s < n implies offered_at(
        context,
        #[trigger] finder(s),
        places(s),
    ) by {
        let scene = scenes[s];
        let m = scene.events@.len() as int;
        assert(finder(s) == divergence_at(context, s));
        let parts = removals_parts(context, scene);
        let here = |k: int|
            site_owed(
                scene.events@[k].certainty == Presence::Present && (
                scene.events@[k].event matches Event::RendererRequirement { requirement, note: _ }
                    && requirement == RendererRequirementKind::DivergesBetweenRenderers),
                scene.events@[k].site,
            );
        assert forall|k: int| 0 <= k < m implies offered_at(
            context,
            #[trigger] parts(k),
            here(k),
        ) by {
            assert(parts(k) == found(removal_at(context, scene, k)));
        }
        parts_offered(context, m, parts, here);
        let first = gather(m, parts);
        let there = gather(m, here);
        let second = found(camera_candidate(context, scene));
        assert(offered_at(context, second, camera_owed(context, scene)));
        let whole = first + second;
        let all = there + camera_owed(context, scene);
        assert forall|k: int| 0 <= k < whole.len() implies offered_here(
            context,
            #[trigger] whole[k],
            all[k],
        ) by {
            if k < first.len() {
                assert(whole[k] == first[k]);
            } else {
                assert(whole[k] == second[k - first.len()]);
            }
        }
    }
    parts_offered(context, n, finder, places);
    offers_are_told(context, gather(n, finder), gather(n, places));
}

} // verus!
