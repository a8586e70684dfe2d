//! What the lifecycle rules on the course of a scene are for.
use super::{offered_at, offers_are_told, parts_offered, site_owed, told, Place};
use crate::graph::{child_step, reachable};
use crate::rules::base::{Rule, RuleContext};
use crate::rules::lifecycle::structure::{
    cyclic_at, cyclic_finder, cyclic_items, cyclic_of, links_after, parent_parts, readd_from,
    reappearance_of, reappears_at, reappears_finder, reappears_items, reappears_of,
    scene_removal_at, RemovedChildReappears, SelfOrCyclicChild,
};
use crate::rules::lifecycle::updaters::{
    freezes, frozen_from, frozen_wait_at, frozen_wait_finder, frozen_wait_items, frozen_wait_of,
    maybe_removed, mismatch_at, mismatch_finder, mismatch_items, mismatch_of, mutates_updaters,
    reliable_mismatch, removal_event, touched_before, unknown_registration, unknown_touch,
    FrozenWaitFrameVaryingUpdater, RemoveUpdaterIdentityMismatch,
};
use crate::semantic::{
    holds_updater, CallbackRef, Cardinality, Event, MutationKind, ObjectId, PlayFact, PlayKind,
    Presence, SceneLifecycle, SceneRemovalFact, TracedEvent, Truth, UpdaterHost,
    UpdaterRegistration, UpdaterRemoval,
};
use crate::source::AllocationSite;
use crate::text::{found, gather};
use vstd::prelude::*;

verus! {

/// Whether two hosts are certainly the same: both the scene, or one single
/// mobject.
pub open spec fn one_host(a: UpdaterHost, b: UpdaterHost) -> bool {
    match (a, b) {
        (UpdaterHost::Scene, UpdaterHost::Scene) => true,
        (UpdaterHost::Mobject(x), UpdaterHost::Mobject(y)) => x == y && x.cardinality
            == Cardinality::Singleton,
        _ => false,
    }
}

/// Whether a removal passes a lambda that it writes itself.
pub open spec fn passes_fresh_lambda(removal: UpdaterRemoval) -> bool {
    removal.callback matches CallbackRef::Lambda(site) && site.file == removal.site.file
        && removal.site.start <= site.start && site.end <= removal.site.end
}

/// Whether an event may have changed the updaters of a host in a way that
/// nobody knows.
pub open spec fn clouds(event: Event, host: UpdaterHost) -> bool {
    match (event, host) {
        (Event::UnknownMutation { values }, UpdaterHost::Mobject(object)) => object.cardinality
            == Cardinality::Singleton && values@.contains(object),
        _ => false,
    }
}

/// Whether the event at `e` is the first in which a removal changes the
/// updaters.
pub open spec fn removes_at(scene: SceneLifecycle, removal: UpdaterRemoval, e: int) -> bool {
    &&& 0 <= e < scene.events@.len()
    &&& scene.events@[e].site == removal.site
    &&& scene.events@[e].event matches Event::Mutate { target: _, kind } && kind
        == MutationKind::Updaters
    &&& forall|i: int|
        0 <= i < e && (#[trigger] scene.events@[i]).site == removal.site ==> !(
        scene.events@[i].event matches Event::Mutate { target: _, kind } && kind
            == MutationKind::Updaters)
}

/// Whether everything that is registered on the host of a removal is known.
pub open spec fn host_is_known(scene: SceneLifecycle, removal: UpdaterRemoval) -> bool {
    &&& forall|r: int|
        0 <= r < scene.updaters@.len() && one_host(
            (#[trigger] scene.updaters@[r]).host,
            removal.host,
        ) ==> !(scene.updaters@[r].fact.callback is Unknown)
    &&& exists|e: int|
        #[trigger] removes_at(scene, removal, e) && forall|i: int|
            0 <= i < e ==> !clouds((#[trigger] scene.events@[i]).event, removal.host)
}

proof fn removal_is_found(events: Seq<TracedEvent>, site: AllocationSite, i: int)
    requires
        0 <= i <= events.len(),
    ensures
        match removal_event(events, site, i) {
            Some(e) => i <= e < events.len() && events[e].site == site && mutates_updaters(
                events[e].event,
            ) && forall|j: int|
                i <= j < e && (#[trigger] events[j]).site == site ==> !mutates_updaters(
                    events[j].event,
                ),
            None => forall|j: int|
                i <= j < events.len() && (#[trigger] events[j]).site == site ==> !mutates_updaters(
                    events[j].event,
                ),
        },
    decreases events.len() - i,
{
    if i < events.len() {
        removal_is_found(events, site, i + 1);
    }
}

proof fn clouding_is_told(event: Event, host: UpdaterHost)
    ensures
        clouds(event, host) <==> unknown_touch(event, host),
{
    match (event, host) {
        (Event::UnknownMutation { values }, UpdaterHost::Mobject(object)) => {
            if values@.contains(object) {
                let k = choose|k: int| 0 <= k < values@.len() && values@[k] == object;
                assert(values@[k].same(object) <==> object.cardinality == Cardinality::Singleton);
            }
        },
        _ => {},
    }
}

proof fn host_is_told(scene: SceneLifecycle, removal: UpdaterRemoval)
    ensures
        host_is_known(scene, removal) <==> reliable_mismatch(scene, removal),
{
    let events = scene.events@;
    removal_is_found(events, removal.site, 0);
    assert forall|i: int| 0 <= i < events.len() implies (clouds(
        (#[trigger] events[i]).event,
        removal.host,
    ) <==> unknown_touch(events[i].event, removal.host)) by {
        clouding_is_told(events[i].event, removal.host);
    }
    match removal_event(events, removal.site, 0) {
        Some(e) => {
            assert(removes_at(scene, removal, e));
            assert(forall|o: int| removes_at(scene, removal, o) ==> o == e);
            assert(touched_before(events, removal.host, e) <==> exists|i: int|
                0 <= i < e && clouds((#[trigger] events[i]).event, removal.host));
        },
        None => {},
    }
    assert(unknown_registration(scene.updaters@, removal.host) <==> exists|r: int|
        0 <= r < scene.updaters@.len() && one_host(
            (#[trigger] scene.updaters@[r]).host,
            removal.host,
        ) && scene.updaters@[r].fact.callback is Unknown);
}

/// A removal that certainly removes nothing.
pub open spec fn mismatch_owed(context: RuleContext<'_>, s: int, k: int) -> Seq<Place> {
    let scene = context.lifecycle_facts.scenes@[s];
    let removal = scene.updater_removals@[k];
    site_owed(
        removal.matched == Truth::No && (passes_fresh_lambda(removal) || host_is_known(
            scene,
            removal,
        )),
        removal.site,
    )
}

/// A removal of an updater that was never registered is reported when it writes
/// a fresh lambda, or when everything on its host is known; nothing else is.
pub proof fn unmatched_removals_are_reported(context: RuleContext<'_>)
    ensures
        told(
            context,
            RemoveUpdaterIdentityMismatch.findings(context),
            gather(
                context.lifecycle_facts.scenes@.len() as int,
                |s: int|
                    gather(
                        context.lifecycle_facts.scenes@[s].updater_removals@.len() as int,
                        |k: int| mismatch_owed(context, s, k),
                    ),
            ),
        ),
{
    let scenes = context.lifecycle_facts.scenes@;
    let n = scenes.len() as int;
    let finder = mismatch_finder(context);
    let places = |s: int|
        gather(scenes[s].updater_removals@.len() as int, |k: int| mismatch_owed(context, s, k));
    assert forall|s: int| 0 <= s < n implies offered_at(
        context,
        #[trigger] finder(s),
        places(s),
    ) by {
        let scene = scenes[s];
        let m = scene.updater_removals@.len() as int;
        let items = mismatch_items(context, scene);
        assert(finder(s) == mismatch_at(context, s));
        assert(mismatch_at(context, s) == gather(m, items));
        let here = |k: int| mismatch_owed(context, s, k);
        assert forall|k: int| 0 <= k < m implies offered_at(
            context,
            #[trigger] items(k),
            here(k),
        ) by {
            assert(items(k) == found(mismatch_of(context, scene, k)));
            host_is_told(scene, scene.updater_removals@[k]);
        }
        parts_offered(context, m, items, here);
    }
    parts_offered(context, n, finder, places);
    offers_are_told(context, gather(n, finder), gather(n, places));
}

/// Whether a registered updater is frozen by a wait: it certainly changes from
/// frame to frame without taking `dt`, is never removed, and sits on a mobject
/// that is in the scene.
pub open spec fn is_frozen_by(
    scene: SceneLifecycle,
    play: PlayFact,
    registration: UpdaterRegistration,
) -> bool {
    &&& registration.certainty == Presence::Present
    &&& registration.body.reads_frame_varying == Truth::Yes
    &&& registration.body.uses_dt == Truth::No
    &&& registration.host matches UpdaterHost::Mobject(object) && (forall|r: int|
        0 <= r < scene.updater_removals@.len() && one_host(
            (#[trigger] scene.updater_removals@[r]).host,
            UpdaterHost::Mobject(object),
        ) ==> scene.updater_removals@[r].matched == Truth::No) && (scene.spec_state_at(
        play.site.file,
        play.site.start,
    ) matches Some(snapshot) && snapshot.heap.spec_object(object) matches Some(state)
        && state.family_membership == Presence::Present && holds_updater(
        state.updaters@,
        registration.fact,
    ))
}

proof fn freezing_is_told(scene: SceneLifecycle, play: PlayFact, registration: UpdaterRegistration)
    ensures
        is_frozen_by(scene, play, registration) <==> freezes(scene, play, registration),
{
    match registration.host {
        UpdaterHost::Mobject(object) => {
            assert(maybe_removed(scene.updater_removals@, object) <==> exists|r: int|
                0 <= r < scene.updater_removals@.len() && one_host(
                    (#[trigger] scene.updater_removals@[r]).host,
                    UpdaterHost::Mobject(object),
                ) && scene.updater_removals@[r].matched != Truth::No);
        },
        _ => {},
    }
}

proof fn frozen_is_found(scene: SceneLifecycle, play: PlayFact, r: int)
    requires
        0 <= r <= scene.updaters@.len(),
    ensures
        frozen_from(scene, play, r) matches Some(f) ==> r <= f < scene.updaters@.len()
            && is_frozen_by(scene, play, scene.updaters@[f]),
        frozen_from(scene, play, r) is None ==> forall|f: int|
            r <= f < scene.updaters@.len() ==> !is_frozen_by(
                scene,
                play,
                #[trigger] scene.updaters@[f],
            ),
    decreases scene.updaters@.len() - r,
{
    if r < scene.updaters@.len() {
        freezing_is_told(scene, play, scene.updaters@[r]);
        frozen_is_found(scene, play, r + 1);
    }
}

/// A wait that freezes a frame-varying updater.
pub open spec fn frozen_wait_owed(context: RuleContext<'_>, s: int, k: int) -> Seq<Place> {
    let scene = context.lifecycle_facts.scenes@[s];
    let play = scene.plays@[k];
    site_owed(
        play.kind == PlayKind::Wait && play.dynamic_wait == Truth::No && play.frozen_frame is None
            && exists|r: int|
            0 <= r < scene.updaters@.len() && is_frozen_by(
                scene,
                play,
                #[trigger] scene.updaters@[r],
            ),
        play.site,
    )
}

/// A wait that freezes an updater which changes from frame to frame is
/// reported, and nothing else is.
pub proof fn frozen_updaters_are_reported(context: RuleContext<'_>)
    ensures
        told(
            context,
            FrozenWaitFrameVaryingUpdater.findings(context),
            gather(
                context.lifecycle_facts.scenes@.len() as int,
                |s: int|
                    gather(
                        context.lifecycle_facts.scenes@[s].plays@.len() as int,
                        |k: int| frozen_wait_owed(context, s, k),
                    ),
            ),
        ),
{
    let scenes = context.lifecycle_facts.scenes@;
    let n = scenes.len() as int;
    let finder = frozen_wait_finder(context);
    let places = |s: int|
        gather(scenes[s].plays@.len() as int, |k: int| frozen_wait_owed(context, s, k));
    assert forall|s: int| 0 <= s < n implies offered_at(
        context,
        #[trigger] finder(s),
        places(s),
    ) by {
        let scene = scenes[s];
        let m = scene.plays@.len() as int;
        let items = frozen_wait_items(context, scene);
        assert(finder(s) == frozen_wait_at(context, s));
        assert(frozen_wait_at(context, s) == gather(m, items));
        let here = |k: int| frozen_wait_owed(context, s, k);
        assert forall|k: int| 0 <= k < m implies offered_at(
            context,
            #[trigger] items(k),
            here(k),
        ) by {
            assert(items(k) == found(frozen_wait_of(context, scene, k)));
            frozen_is_found(scene, scene.plays@[k], 0);
        }
        parts_offered(context, m, items, here);
    }
    parts_offered(context, n, finder, places);
    offers_are_told(context, gather(n, finder), gather(n, places));
}

/// An addition that closes a cycle.
pub open spec fn cyclic_owed(context: RuleContext<'_>, s: int, k: int) -> Seq<Place> {
    let scene = context.lifecycle_facts.scenes@[s];
    let traced = scene.events@[k];
    site_owed(
        traced.event matches Event::AddChild { parent, child } && (parent == child || (
        traced.certainty == Presence::Present && parent.cardinality == Cardinality::Singleton
            && child.cardinality == Cardinality::Singleton && reachable(
            child_step(links_after(scene.events@, k)),
            child,
            parent,
        ))),
        traced.site,
    )
}

/// Adding a mobject to itself is reported, and so is adding one that the parent
/// is already known to descend from; nothing else is.
pub proof fn cycles_are_reported(context: RuleContext<'_>)
    ensures
        told(
            context,
            SelfOrCyclicChild.findings(context),
            gather(
                context.lifecycle_facts.scenes@.len() as int,
                |s: int|
                    gather(
                        context.lifecycle_facts.scenes@[s].events@.len() as int,
                        |k: int| cyclic_owed(context, s, k),
                    ),
            ),
        ),
{
    let scenes = context.lifecycle_facts.scenes@;
    let n = scenes.len() as int;
    let finder = cyclic_finder(context);
    let places = |s: int|
        gather(scenes[s].events@.len() as int, |k: int| cyclic_owed(context, s, k));
    assert forall|s: int| 0 <= s < n implies offered_at(
        context,
        #[trigger] finder(s),
        places(s),
    ) by {
        let scene = scenes[s];
        let m = scene.events@.len() as int;
        let items = cyclic_items(context, scene);
        assert(finder(s) == cyclic_at(context, s));
        assert(cyclic_at(context, s) == gather(m, items));
        let here = |k: int| cyclic_owed(context, s, k);
        assert forall|k: int| 0 <= k < m implies offered_at(
            context,
            #[trigger] items(k),
            here(k),
        ) by {
            assert(items(k) == found(cyclic_of(context, scene, k)));

        }
        parts_offered(context, m, items, here);
    }
    parts_offered(context, n, finder, places);
    offers_are_told(context, gather(n, finder), gather(n, places));
}

/// Whether the event at `e` is the first in which this removal takes something
/// out of the scene.
pub open spec fn takes_out_at(scene: SceneLifecycle, removal: SceneRemovalFact, e: int) -> bool {
    &&& 0 <= e < scene.events@.len()
    &&& scene.events@[e].site == removal.site
    &&& scene.events@[e].event is SceneRemove
    &&& forall|i: int|
        0 <= i < e && (#[trigger] scene.events@[i]).site == removal.site ==> !(
        scene.events@[i].event is SceneRemove)
}

/// Whether a list certainly holds this single object.
pub open spec fn certainly_in(list: Seq<ObjectId>, object: ObjectId) -> bool {
    object.cardinality == Cardinality::Singleton && list.contains(object)
}

/// Whether an event leaves it open, or settles otherwise, that `removed` comes
/// back with `parent`.
pub open spec fn settles(event: Event, parent: ObjectId, removed: ObjectId) -> bool {
    match event {
        Event::Mutate { target, kind } => kind == MutationKind::Membership && target.cardinality
            == Cardinality::Singleton && (target == parent || target == removed),
        Event::UnknownMutation { values } => certainly_in(values@, parent),
        Event::SceneAdd { objects } => certainly_in(objects@, removed) || certainly_in(
            objects@,
            parent,
        ),
        _ => false,
    }
}

/// Whether the event at `e` brings `parent` back, and `removed` with it: the
/// first after `start` that concerns either, and a certain one.
pub open spec fn brings_back_at(
    events: Seq<TracedEvent>,
    parent: ObjectId,
    removed: ObjectId,
    start: int,
    e: int,
) -> bool {
    &&& start <= e < events.len()
    &&& events[e].certainty == Presence::Present
    &&& events[e].event matches Event::SceneAdd { objects } && certainly_in(objects@, parent)
        && !certainly_in(objects@, removed)
    &&& forall|i: int| start <= i < e ==> !settles((#[trigger] events[i]).event, parent, removed)
}

proof fn certainty_is_told(list: Seq<ObjectId>, object: ObjectId)
    ensures
        certainly_in(list, object) <==> crate::semantic::targets_same(list, object),
{
    if list.contains(object) {
        let k = choose|k: int| 0 <= k < list.len() && list[k] == object;
        assert(list[k].same(object) <==> object.cardinality == Cardinality::Singleton);
    }
}

proof fn return_is_found(
    events: Seq<TracedEvent>,
    parent: ObjectId,
    removed: ObjectId,
    i: int,
)
    requires
        0 <= i <= events.len(),
    ensures
        readd_from(events, parent, removed, i) matches Some(site) ==> exists|e: int|
            #[trigger] brings_back_at(events, parent, removed, i, e) && events[e].site == site,
        readd_from(events, parent, removed, i) is None ==> forall|e: int|
            !#[trigger] brings_back_at(events, parent, removed, i, e),
    decreases events.len() - i,
{
    if i < events.len() {
        return_is_found(events, parent, removed, i + 1);
        match events[i].event {
            Event::UnknownMutation { values } => certainty_is_told(values@, parent),
            Event::SceneAdd { objects } => {
                certainty_is_told(objects@, parent);
                certainty_is_told(objects@, removed);
            },
            _ => {},
        }
        if settles(events[i].event, parent, removed) {
            assert forall|e: int| #[trigger] brings_back_at(events, parent, removed, i, e) implies e
                == i by {
                if e > i {
                    assert(!settles(events[i].event, parent, removed));
                }
            }
            if readd_from(events, parent, removed, i) is Some {
                assert(brings_back_at(events, parent, removed, i, i));
            }
        } else {
            assert(readd_from(events, parent, removed, i) == readd_from(
                events,
                parent,
                removed,
                i + 1,
            ));
            assert forall|e: int|
                #[trigger] brings_back_at(events, parent, removed, i, e) <==> brings_back_at(
                    events,
                    parent,
                    removed,
                    i + 1,
                    e,
                ) by {
                if brings_back_at(events, parent, removed, i, e) {
                    match events[i].event {
                        Event::SceneAdd { objects } => {},
                        _ => {},
                    }
                }
            }
            if readd_from(events, parent, removed, i) is Some {
                let site = readd_from(events, parent, removed, i)->0;
                let e = choose|e: int|
                    #[trigger] brings_back_at(events, parent, removed, i + 1, e) && events[e].site
                        == site;
                assert(brings_back_at(events, parent, removed, i, e));
            }
        }
    }
}

proof fn removal_place_is_found(events: Seq<TracedEvent>, site: AllocationSite, i: int)
    requires
        0 <= i <= events.len(),
    ensures
        match scene_removal_at(events, site, i) {
            Some(e) => i <= e < events.len() && events[e].site == site && events[e].event is
                SceneRemove && forall|j: int|
                i <= j < e && (#[trigger] events[j]).site == site ==> !(events[j].event is
                    SceneRemove),
            None => forall|j: int|
                i <= j < events.len() && (#[trigger] events[j]).site == site ==> !(events[j].event is
                    SceneRemove),
        },
    decreases events.len() - i,
{
    if i < events.len() {
        removal_place_is_found(events, site, i + 1);
    }
}

/// Whether `removed` comes back with one of its parents after the event at
/// `e`.
pub open spec fn comes_back_with(
    scene: SceneLifecycle,
    removal: SceneRemovalFact,
    parent: ObjectId,
) -> bool {
    parent.cardinality == Cardinality::Singleton && exists|e: int, a: int|
        #[trigger] takes_out_at(scene, removal, e) && #[trigger] brings_back_at(
            scene.events@,
            parent,
            removal.removed,
            e + 1,
            a,
        )
}

proof fn returns_are_told(context: RuleContext<'_>, s: int, k: int)
    ensures
        offered_at(
            context,
            reappears_of(context, context.lifecycle_facts.scenes@[s], k),
            reappears_owed(context, s, k),
        ),
{
    let scene = context.lifecycle_facts.scenes@[s];
    let removal = scene.scene_removals@[k];
    let m = removal.surviving_parents@.len() as int;
    let here = |p: int|
        site_owed(
            removal.certainty == Presence::Present && removal.removed.cardinality
                == Cardinality::Singleton && comes_back_with(
                scene,
                removal,
                removal.surviving_parents@[p],
            ),
            removal.site,
        );
    removal_place_is_found(scene.events@, removal.site, 0);
    assert(scene.events.len() == scene.events@.len());
    match scene_removal_at(scene.events@, removal.site, 0) {
        Some(index) => {
            assert(takes_out_at(scene, removal, index));
            assert(forall|e: int| takes_out_at(scene, removal, e) ==> e == index);
            if removal.certainty == Presence::Present && removal.removed.cardinality
                == Cardinality::Singleton {
                let parts = parent_parts(context, scene, removal, index as usize);
                assert forall|p: int| 0 <= p < m implies offered_at(
                    context,
                    #[trigger] parts(p),
                    here(p),
                ) by {
                    let parent = removal.surviving_parents@[p];
                    assert(parts(p) == found(
                        reappearance_of(context, scene, removal, index as usize, parent),
                    ));
                    return_is_found(scene.events@, parent, removal.removed, index + 1);
                    if comes_back_with(scene, removal, parent) {
                        let (e, a) = choose|e: int, a: int|
                            #[trigger] takes_out_at(scene, removal, e) && #[trigger] brings_back_at(
                                scene.events@,
                                parent,
                                removal.removed,
                                e + 1,
                                a,
                            );
                        assert(brings_back_at(
                            scene.events@,
                            parent,
                            removal.removed,
                            index + 1,
                            a,
                        ));
                    }
                }
                parts_offered(context, m, parts, here);
            } else {
                nothing_is_owed(m, here);
            }
        },
        None => {
            assert(forall|e: int| !takes_out_at(scene, removal, e));
            nothing_is_owed(m, here);
        },
    }
}

/// Where no part is owed anything, nothing is.
pub(crate) proof fn nothing_is_owed(n: int, places: spec_fn(int) -> Seq<Place>)
    requires
        forall|i: int| 0 <= i < n ==> (#[trigger] places(i)).len() == 0,
    ensures
        gather(n, places).len() == 0,
    decreases n,
{
    if n > 0 {
        nothing_is_owed(n - 1, places);
        assert(places(n - 1).len() == 0);
    }
}

/// A removal that a parent undoes.
pub open spec fn reappears_owed(context: RuleContext<'_>, s: int, k: int) -> Seq<Place> {
    let scene = context.lifecycle_facts.scenes@[s];
    let removal = scene.scene_removals@[k];
    gather(
        removal.surviving_parents@.len() as int,
        |p: int|
            site_owed(
                removal.certainty == Presence::Present && removal.removed.cardinality
                    == Cardinality::Singleton && comes_back_with(
                    scene,
                    removal,
                    removal.surviving_parents@[p],
                ),
                removal.site,
            ),
    )
}

/// A removal is reported once for each parent that keeps the removed mobject and
/// brings it back; nothing else is.
pub proof fn returning_children_are_reported(context: RuleContext<'_>)
    ensures
        told(
            context,
            RemovedChildReappears.findings(context),
            gather(
                context.lifecycle_facts.scenes@.len() as int,
                |s: int|
                    gather(
                        context.lifecycle_facts.scenes@[s].scene_removals@.len() as int,
                        |k: int| reappears_owed(context, s, k),
                    ),
            ),
        ),
{
    let scenes = context.lifecycle_facts.scenes@;
    let n = scenes.len() as int;
    let finder = reappears_finder(context);
    let places = |s: int|
        gather(scenes[s].scene_removals@.len() as int, |k: int| reappears_owed(context, s, k));
    assert forall|s: int| 0 <= s < n implies offered_at(
        context,
        #[trigger] finder(s),
        places(s),
    ) by {
        let scene = scenes[s];
        let m = scene.scene_removals@.len() as int;
        let items = reappears_items(context, scene);
        assert(finder(s) == reappears_at(context, s));
        assert(reappears_at(context, s) == gather(m, items));
        let here = |k: int| reappears_owed(context, s, k);
        assert forall|k: int| 0 <= k < m implies offered_at(
            context,
            #[trigger] items(k),
            here(k),
        ) by {
            assert(items(k) == reappears_of(context, scene, k));
            returns_are_told(context, s, k);
        }
        parts_offered(context, m, items, here);
    }
    parts_offered(context, n, finder, places);
    offers_are_told(context, gather(n, finder), gather(n, places));
}

} // verus!
