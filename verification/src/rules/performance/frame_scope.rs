//! Fact resolution shared by the timing and display-order rules.
//!
//! A proof either holds on all paths from definite facts, or the helper
//! answers "not proven" and the calling rule stays silent.
use crate::frontend::first_index_at;
use crate::knowledge::{KnowledgeProfile, SymbolKind};
use crate::numbers::Num;
use crate::cost::call_cost_from;
use crate::rules::base::RuleContext;
use crate::semantic::{
    has_updater, holds_updater, same_updater, updaters_equal, CameraKind, Heap, HeapEntry, KindSet,
    ObjectId, PlayFact, PlayKind, Presence, SceneLifecycle, SceneState, StateSnapshot, Truth,
    UpdaterFact, UpdaterHost, UpdaterRegistration,
};
use vstd::prelude::*;

verus! {

/// Whether the camera can move the whole scene.
pub open spec fn camera_motion(kind: CameraKind) -> Truth {
    match kind {
        CameraKind::Standard => Truth::No,
        _ => Truth::Maybe,
    }
}

/// Whether the camera can move the whole scene into the moving scope: a
/// plain scene camera provably cannot; every other (or unresolved) camera
/// contract is a maybe.
pub fn camera_truth(kind: CameraKind) -> (truth: Truth)
    ensures
        truth == camera_motion(kind),
{
    match kind {
        CameraKind::Standard => Truth::No,
        CameraKind::MovingCamera => Truth::Maybe,
        CameraKind::ThreeD => Truth::Maybe,
        CameraKind::Unknown => Truth::Maybe,
    }
}

/// Whether the play does work for every frame.
pub open spec fn rendering(play: PlayFact) -> bool {
    play.kind == PlayKind::Play || play.dynamic_wait == Truth::Yes
}

/// Whether the play renders per-frame work at all: a `play` always does; a
/// wait only when provably dynamic.
pub fn renders_frames(play: &PlayFact) -> (renders: bool)
    ensures
        renders == rendering(*play),
{
    play.kind == PlayKind::Play || play.dynamic_wait == Truth::Yes
}

/// The frames of one play: as estimated for its call, else those of its
/// duration across the profiles.
pub open spec fn play_frames(context: RuleContext<'_>, play: PlayFact) -> Num {
    match first_index_at(context.qualified_calls.calls@, play.site) {
        Some(index) => match call_cost_from(
            context.cost_facts.call_costs@,
            index as usize,
            0,
        ) {
            Some(cost) => if cost.frames is Unknown {
                play.cost.frames
            } else {
                cost.frames
            },
            None => play.cost.frames,
        },
        None => play.cost.frames,
    }
}

/// Frame estimate of one play.
pub fn frames_at_play<'c>(context: &'c RuleContext<'_>, play: &'c PlayFact) -> (frames: &'c Num)
    ensures
        *frames == play_frames(*context, *play),
{
    if let Some(index) = context.qualified_calls.first_at(play.site) {
        if let Some(cost) = context.cost_facts.call_cost(index) {
            match &cost.frames {
                Num::Unknown => {},
                frames => {
                    return frames;
                },
            }
        }
    }
    &play.cost.frames
}

/// Whether a class is a mobject that installs a per-frame callback itself.
pub open spec fn intrinsic_kind(profile: KnowledgeProfile, id: Seq<char>) -> bool {
    match profile.spec_symbol(id) {
        Some(entry) => (entry.kind == SymbolKind::Mobject || entry.kind == SymbolKind::Vmobject)
            && match entry.effects {
            Some(effects) => effects.registers_updater == Some(true) || effects.per_frame_callback
                == Some(true),
            None => false,
        },
        None => false,
    }
}

fn is_true(flag: Option<bool>) -> (yes: bool)
    ensures
        yes == (flag == Some(true)),
{
    match flag {
        Some(value) => value,
        None => false,
    }
}

/// Whether a curated mobject class intrinsically installs a per-frame
/// callback: an instance possibly in the family voids any proof that
/// nothing else updates.
pub fn is_intrinsic_kind(profile: &KnowledgeProfile, id: &str) -> (intrinsic: bool)
    ensures
        intrinsic == intrinsic_kind(*profile, id@),
{
    match profile.symbol(id) {
        Some(entry) => (entry.kind == SymbolKind::Mobject || entry.kind == SymbolKind::Vmobject)
            && match &entry.effects {
            Some(effects) => is_true(effects.registers_updater) || is_true(
                effects.per_frame_callback,
            ),
            None => false,
        },
        None => false,
    }
}

/// Whether none of the classes is intrinsically hot.
pub open spec fn none_intrinsic(profile: KnowledgeProfile, candidates: Seq<String>) -> bool {
    forall|i: int|
        0 <= i < candidates.len() ==> !intrinsic_kind(profile, (#[trigger] candidates[i])@)
}

/// Whether the classes are known and none is intrinsically hot.
pub open spec fn inert_kind(profile: KnowledgeProfile, kind: KindSet) -> bool {
    match kind {
        KindSet::Known(candidates) => none_intrinsic(profile, candidates@),
        KindSet::Unknown => false,
    }
}

fn is_none_intrinsic(profile: &KnowledgeProfile, candidates: &Vec<String>) -> (none: bool)
    ensures
        none == none_intrinsic(*profile, candidates@),
{
    let mut i: usize = 0;
    while i < candidates.len()
        invariant
            i <= candidates@.len(),
            forall|j: int| 0 <= j < i ==> !intrinsic_kind(*profile, (#[trigger] candidates@[j])@),
        decreases candidates@.len() - i,
    {
        if is_intrinsic_kind(profile, candidates[i].as_str()) {
            return false;
        }
        i += 1;
    }
    true
}

pub fn is_inert_kind(profile: &KnowledgeProfile, kind: &KindSet) -> (inert: bool)
    ensures
        inert == inert_kind(*profile, *kind),
{
    match kind {
        KindSet::Known(candidates) => is_none_intrinsic(profile, candidates),
        KindSet::Unknown => false,
    }
}

/// Whether an object that can be in the family can change by itself.
pub open spec fn inert_entry(profile: KnowledgeProfile, entry: HeapEntry) -> bool {
    entry.state.family_membership == Presence::Absent || (entry.state.updaters@.len() == 0
        && inert_kind(profile, entry.state.kind))
}

/// Whether nothing that can be in the family can change by itself.
pub open spec fn inert_heap(profile: KnowledgeProfile, heap: Heap) -> bool {
    forall|i: int| 0 <= i < heap.objects@.len() ==> inert_entry(profile, #[trigger] heap.objects@[i])
}

/// Whether every object possibly in the family is provably inert: no
/// registered updaters and a fully known kind with no intrinsic per-frame
/// behavior.
pub fn is_inert_heap(profile: &KnowledgeProfile, heap: &Heap) -> (inert: bool)
    ensures
        inert == inert_heap(*profile, *heap),
{
    let mut i: usize = 0;
    while i < heap.objects.len()
        invariant
            i <= heap.objects@.len(),
            forall|j: int| 0 <= j < i ==> inert_entry(*profile, #[trigger] heap.objects@[j]),
        decreases heap.objects@.len() - i,
    {
        let state = &heap.objects[i].state;
        if state.family_membership != Presence::Absent && (state.updaters.len() != 0
            || !is_inert_kind(profile, &state.kind)) {
            return false;
        }
        i += 1;
    }
    true
}

/// The last statement snapshot before the play (the state the interval
/// starts from).
pub fn snapshot_before<'a>(scene: &'a SceneLifecycle, play: &PlayFact) -> (snapshot: Option<
    &'a StateSnapshot,
>)
    ensures
        match snapshot {
            Some(found) => scene.spec_state_at(play.site.file, play.site.start) == Some(*found),
            None => scene.spec_state_at(play.site.file, play.site.start) is None,
        },
{
    scene.state_at(play.site.file, play.site.start)
}

/// The object an updater is registered on, as the heap knows it.
pub open spec fn host_in(heap: Heap, registration: UpdaterRegistration) -> Option<ObjectId> {
    match registration.host {
        UpdaterHost::Mobject(id) => Some(heap.spec_resolve(id)),
        UpdaterHost::Scene => None,
    }
}

/// Whether an updater of an object does not run on time, or is the
/// registered one on a definite family member.
pub open spec fn tolerated(
    heap: Heap,
    registration: UpdaterRegistration,
    entry: HeapEntry,
    updater: UpdaterFact,
) -> bool {
    updater.time_based == Truth::No || (host_in(heap, registration) == Some(
        heap.spec_resolve(entry.id),
    ) && same_updater(updater, registration.fact) && updater.time_based == Truth::Yes
        && entry.state.family_membership == Presence::Present)
}

/// Whether an object adds no cause for dynamic frames but the registration.
pub open spec fn sole_entry(
    profile: KnowledgeProfile,
    heap: Heap,
    registration: UpdaterRegistration,
    entry: HeapEntry,
) -> bool {
    entry.state.family_membership == Presence::Absent || (inert_kind(profile, entry.state.kind)
        && forall|i: int|
        0 <= i < entry.state.updaters@.len() ==> tolerated(
            heap,
            registration,
            entry,
            #[trigger] entry.state.updaters@[i],
        ))
}

/// Whether an object that can be in the family has an updater on time.
pub open spec fn ticking(entry: HeapEntry) -> bool {
    entry.state.family_membership != Presence::Absent && exists|i: int|
        0 <= i < entry.state.updaters@.len() && (
        #[trigger] entry.state.updaters@[i]).time_based != Truth::No
}

/// Whether the registration is the one thing in the heap that makes a wait
/// dynamic.
pub open spec fn sole_in_heap(
    profile: KnowledgeProfile,
    heap: Heap,
    state: SceneState,
    registration: UpdaterRegistration,
) -> bool {
    &&& match registration.host {
        UpdaterHost::Scene => state.scene_updaters@.len() == 1 && holds_updater(
            state.scene_updaters@,
            registration.fact,
        ),
        UpdaterHost::Mobject(_) => state.scene_updaters@.len() == 0,
    }
    &&& forall|i: int|
        0 <= i < heap.objects@.len() ==> sole_entry(
            profile,
            heap,
            registration,
            #[trigger] heap.objects@[i],
        )
    &&& registration.host is Scene || exists|i: int|
        0 <= i < heap.objects@.len() && ticking(#[trigger] heap.objects@[i])
}

/// Whether the wait is dynamic solely because of the registration.
pub open spec fn sole_cause(
    profile: KnowledgeProfile,
    scene: SceneLifecycle,
    play: PlayFact,
    registration: UpdaterRegistration,
) -> bool {
    &&& play.kind == PlayKind::Wait
    &&& play.dynamic_wait == Truth::Yes
    &&& !play.has_stop_condition
    &&& play.always_update_mobjects == Truth::No
    &&& play.certainty == Presence::Present
    &&& registration.certainty == Presence::Present
    &&& registration.site.file == play.site.file
    &&& registration.site.end <= play.site.start
    &&& match scene.spec_state_at(play.site.file, play.site.start) {
        Some(snapshot) => match snapshot.heap.spec_scene(scene.scene_id) {
            Some(state) => sole_in_heap(profile, snapshot.heap, state, registration),
            None => false,
        },
        None => false,
    }
}

/// Whether the updaters of one object leave the registration as sole cause;
/// and whether one of them runs on time.
fn check_entry(
    profile: &KnowledgeProfile,
    heap: &Heap,
    registration: &UpdaterRegistration,
    entry: &HeapEntry,
) -> (checked: (bool, bool))
    ensures
        checked.0 == sole_entry(*profile, *heap, *registration, *entry),
        checked.0 ==> checked.1 == ticking(*entry),
{
    if entry.state.family_membership == Presence::Absent {
        return (true, false);
    }
    if !is_inert_kind(profile, &entry.state.kind) {
        return (false, false);
    }
    let own: bool = match &registration.host {
        UpdaterHost::Mobject(id) => heap.resolve(id) == heap.resolve(&entry.id),
        UpdaterHost::Scene => false,
    };
    let mut ticks: bool = false;
    let mut i: usize = 0;
    while i < entry.state.updaters.len()
        invariant
            i <= entry.state.updaters@.len(),
            own == (host_in(*heap, *registration) == Some(heap.spec_resolve(entry.id))),
            forall|j: int|
                0 <= j < i ==> tolerated(
                    *heap,
                    *registration,
                    *entry,
                    #[trigger] entry.state.updaters@[j],
                ),
            ticks == exists|j: int|
                0 <= j < i && (#[trigger] entry.state.updaters@[j]).time_based != Truth::No,
            entry.state.family_membership != Presence::Absent,
        decreases entry.state.updaters@.len() - i,
    {
        let updater = &entry.state.updaters[i];
        let ghost before = i;
        if updater.time_based != Truth::No {
            let held: bool = own && updaters_equal(updater, &registration.fact)
                && updater.time_based == Truth::Yes && entry.state.family_membership
                == Presence::Present;
            if !held {
                assert(!tolerated(
                    *heap,
                    *registration,
                    *entry,
                    entry.state.updaters@[before as int],
                ));
                return (false, false);
            }
            ticks = true;
            assert(entry.state.updaters@[before as int].time_based != Truth::No);
        }
        i += 1;
    }
    (true, ticks)
}

/// Proof that the wait `play` is dynamic solely because of `registration`:
/// no stop condition, `always_update_mobjects` provably off, no scene
/// updater other than the registration's own, no other possibly time-based
/// family updater, and every possibly present family member of exactly known
/// kind with no intrinsic per-frame behavior. The registration itself must
/// stand with all-paths certainty and, for a mobject host, definite family
/// membership and a definitely time-based callback.
pub fn wait_solely_dynamicized_by(
    profile: &KnowledgeProfile,
    scene: &SceneLifecycle,
    play: &PlayFact,
    registration: &UpdaterRegistration,
) -> (sole: bool)
    ensures
        sole == sole_cause(*profile, *scene, *play, *registration),
{
    if play.kind != PlayKind::Wait || play.dynamic_wait != Truth::Yes || play.has_stop_condition
        || play.always_update_mobjects != Truth::No || play.certainty != Presence::Present
        || registration.certainty != Presence::Present {
        return false;
    }
    // The registration must precede the wait in the same file.
    if registration.site.file != play.site.file || registration.site.end > play.site.start {
        return false;
    }
    let snapshot = match snapshot_before(scene, play) {
        Some(snapshot) => snapshot,
        None => {
            return false;
        },
    };
    let heap = &snapshot.heap;
    let state = match heap.scene(scene.scene_id) {
        Some(state) => state,
        None => {
            return false;
        },
    };
    let on_scene: bool = match &registration.host {
        UpdaterHost::Scene => {
            if state.scene_updaters.len() != 1 || !has_updater(
                &state.scene_updaters,
                &registration.fact,
            ) {
                return false;
            }
            true
        },
        UpdaterHost::Mobject(_) => {
            if state.scene_updaters.len() != 0 {
                return false;
            }
            false
        },
    };
    // For a scene-level host the scene updater already is the cause; a
    // mobject host must prove it below.
    let mut ticks: bool = false;
    let mut i: usize = 0;
    while i < heap.objects.len()
        invariant
            i <= heap.objects@.len(),
            *heap == snapshot.heap,
            scene.spec_state_at(play.site.file, play.site.start) == Some(*snapshot),
            heap.spec_scene(scene.scene_id) == Some(*state),
            forall|j: int|
                0 <= j < i ==> sole_entry(
                    *profile,
                    *heap,
                    *registration,
                    #[trigger] heap.objects@[j],
                ),
            ticks == exists|j: int| 0 <= j < i && ticking(#[trigger] heap.objects@[j]),
        decreases heap.objects@.len() - i,
    {
        let ghost before = i;
        let (sole, tick) = check_entry(profile, heap, registration, &heap.objects[i]);
        if !sole {
            assert(!sole_entry(*profile, *heap, *registration, heap.objects@[before as int]));
            return false;
        }
        if tick {
            ticks = true;
            assert(ticking(heap.objects@[before as int]));
        }
        i += 1;
    }
    on_scene || ticks
}

} // verus!
