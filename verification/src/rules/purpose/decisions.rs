//! What the decisions mean that the rules take over a whole scene.
use super::frames::certainly_of;
use super::layers::{leaves_style, style_is_told};
use crate::ast::{any_short_circuits, short_circuits, Expr, Form, Stmt, StmtKind};
use crate::frontend::{CallArgument, QualifiedCall};
use crate::numbers::{Num, NumLit};
use crate::render_order::MovingReason;
use crate::rules::base::RuleContext;
use crate::rules::lifecycle::builder_rules::{play_writes, writes};
use crate::rules::lifecycle::structure::{
    absent_by_kind, all_absent, may_be_any, snapshot_before_call,
};
use crate::rules::performance::display_order::{animated_member, caught, members_of};
use crate::rules::performance::renderer_cost::{
    all_steady, begin_from, definite_kind, harmless, steady, style_settled,
};
use crate::rules::performance::traced_path::{any_targets, can_target};
use crate::rules::performance::updater_waste::{
    callback_steady, covered_play, cut_from, invariant_updater, live_from,
};
use crate::rules::portability::renderer_divergence::{
    camera_attribute, camera_use, camera_use_from, certain_parts, first_use, prefix_use,
};
use crate::semantic::{
    Cardinality, Event, HeapEntry, KindSet, MutationKind, ObjectId, PlayFact, PlayKind,
    PlayedAnimation, Presence, SceneLifecycle, StateSnapshot, Truth, UpdaterRegistration,
    WriteChannel,
};
use crate::source::{syntax_in, TextRange};
use crate::text::{found, texts};
use vstd::prelude::*;

verus! {

/// Whether an event leaves the style of an object as it is.
pub open spec fn spares_style(event: Event, object: ObjectId) -> bool {
    match event {
        Event::Mutate { target, kind } => target.site != object.site || (kind
            != MutationKind::Style && kind != MutationKind::Opacity && kind
            != MutationKind::Unknown),
        Event::UnknownMutation { values } => forall|v: int|
            0 <= v < values@.len() ==> (#[trigger] values@[v]).site != object.site,
        Event::RegisterUpdater => false,
        _ => true,
    }
}

/// Whether the event at `b` is the first that begins the play at `p`.
pub open spec fn begins_at(scene: SceneLifecycle, p: int, b: int) -> bool {
    &&& 0 <= b < scene.events@.len()
    &&& scene.events@[b].event matches Event::BeginPlay { play_group } && play_group
        == scene.plays@[p].play_group
    &&& forall|j: int|
        0 <= j < b ==> !((#[trigger] scene.events@[j]).event matches Event::BeginPlay { play_group }
            && play_group == scene.plays@[p].play_group)
}

/// Whether the style of an object stays as it is from the play at `p` on: no
/// animation writes it, and no event after the play begins can.
pub open spec fn style_stays(scene: SceneLifecycle, p: int, object: ObjectId) -> bool {
    &&& forall|i: int|
        p <= i < scene.plays@.len() ==> !(#[trigger] scene.plays@[i]).star_args && forall|a: int|
            0 <= a < scene.plays@[i].animations@.len() ==> leaves_style(
                #[trigger] scene.plays@[i].animations@[a],
                object,
            )
    &&& exists|b: int|
        #[trigger] begins_at(scene, p, b) && forall|e: int|
            b < e < scene.events@.len() ==> spares_style(
                (#[trigger] scene.events@[e]).event,
                object,
            )
}

proof fn beginning_is_found(scene: SceneLifecycle, p: int, i: int)
    requires
        0 <= i <= scene.events@.len(),
        forall|j: int|
            0 <= j < i ==> !((#[trigger] scene.events@[j]).event matches Event::BeginPlay {
                play_group,
            } && play_group == scene.plays@[p].play_group),
    ensures
        begin_from(scene.events@, scene.plays@[p].play_group, i) matches Some(b) ==> begins_at(
            scene,
            p,
            b,
        ),
        begin_from(scene.events@, scene.plays@[p].play_group, i) is None ==> forall|b: int|
            !#[trigger] begins_at(scene, p, b),
    decreases scene.events@.len() - i,
{
    if i < scene.events@.len() {
        let group = scene.plays@[p].play_group;
        assert(scene.events@[i].event == (Event::BeginPlay { play_group: group }) <==> (
        scene.events@[i].event matches Event::BeginPlay { play_group } && play_group == group));
        if scene.events@[i].event == (Event::BeginPlay { play_group: group }) {
            assert(begins_at(scene, p, i));
        } else {
            beginning_is_found(scene, p, i + 1);
        }
    }
}

proof fn sparing_is_told(event: Event, object: ObjectId)
    ensures
        spares_style(event, object) <==> harmless(event, object),
{
    match event {
        Event::UnknownMutation { values } => {
            assert(forall|v: int|
                0 <= v < values@.len() ==> ((#[trigger] values@[v]).maybe_same(object) != Truth::No
                    <==> values@[v].site == object.site));
        },
        _ => {},
    }
}

/// The style of an object counts as settled exactly when it stays as it is.
pub proof fn settled_styles_stay(scene: SceneLifecycle, p: int, object: ObjectId)
    requires
        0 <= p < scene.plays@.len(),
    ensures
        style_settled(scene, p, object) <==> style_stays(scene, p, object),
{
    beginning_is_found(scene, p, 0);
    assert forall|e: int| 0 <= e < scene.events@.len() implies (spares_style(
        (#[trigger] scene.events@[e]).event,
        object,
    ) <==> harmless(scene.events@[e].event, object)) by {
        sparing_is_told(scene.events@[e].event, object);
    }
    assert forall|i: int, a: int|
        0 <= i < scene.plays@.len() && 0 <= a < scene.plays@[i].animations@.len() implies (
    leaves_style(#[trigger] scene.plays@[i].animations@[a], object) <==> steady(
        scene.plays@[i].animations@[a],
        object,
    ) is Some) by {
        style_is_told(scene.plays@[i].animations@[a], object);
    }
    assert forall|i: int| 0 <= i < scene.plays@.len() implies (all_steady(
        (#[trigger] scene.plays@[i]).animations@,
        object,
    ) <==> forall|a: int|
        0 <= a < scene.plays@[i].animations@.len() ==> leaves_style(
            #[trigger] scene.plays@[i].animations@[a],
            object,
        )) by {
        let animations = scene.plays@[i].animations@;
        if all_steady(animations, object) {
            assert forall|a: int| 0 <= a < animations.len() implies leaves_style(
                #[trigger] animations[a],
                object,
            ) by {
                assert(steady(animations[a], object) is Some);
                style_is_told(animations[a], object);
            }
        }
        if forall|a: int|
            0 <= a < animations.len() ==> leaves_style(#[trigger] animations[a], object) {
            assert forall|a: int| 0 <= a < animations.len() implies steady(
                #[trigger] animations[a],
                object,
            ) is Some by {
                style_is_told(animations[a], object);
            }
        }
    }
    match begin_from(scene.events@, scene.plays@[p].play_group, 0) {
        Some(b) => {
            assert(begins_at(scene, p, b));
            assert(forall|o: int| begins_at(scene, p, o) ==> o == b);
        },
        None => {},
    }
}

/// `break`, `continue`, `return`, and `raise` leave a body early, and so does
/// whatever holds one of them, but for a definition; nothing else does.
pub proof fn early_exits_are_told(stmt: Stmt)
    ensures
        stmt.kind == StmtKind::Break || stmt.kind == StmtKind::Continue || stmt.kind
            == StmtKind::Return || stmt.kind == StmtKind::Raise ==> short_circuits(stmt),
        stmt.kind == StmtKind::Definition ==> !short_circuits(stmt),
        short_circuits(stmt) && stmt.kind != StmtKind::Break && stmt.kind != StmtKind::Continue
            && stmt.kind != StmtKind::Return && stmt.kind != StmtKind::Raise ==> any_short_circuits(
            stmt.body@,
        ) || any_short_circuits(stmt.rest@),
        stmt.kind != StmtKind::Definition && (any_short_circuits(stmt.body@) || any_short_circuits(
            stmt.rest@,
        )) ==> short_circuits(stmt),
{
}

/// Whether an animation certainly writes more of `target` than its place in
/// the scene.
pub open spec fn writes_target(animation: PlayedAnimation, target: ObjectId) -> bool {
    &&& animation.channels_known == Truth::Yes
    &&& target.cardinality == Cardinality::Singleton
    &&& animation.state matches Some(state) && state.targets@.contains(target) && exists|c: int|
        0 <= c < state.write_channels@.len() && (#[trigger] state.write_channels@[c]
            == WriteChannel::Points || state.write_channels@[c] == WriteChannel::Style
            || state.write_channels@[c] == WriteChannel::Opacity || state.write_channels@[c]
            == WriteChannel::CameraState)
}

/// A play writes a target exactly when one of its animations does.
pub proof fn writing_plays_are_told(play: PlayFact, target: ObjectId)
    ensures
        play_writes(play, target) <==> exists|a: int|
            0 <= a < play.animations@.len() && writes_target(
                #[trigger] play.animations@[a],
                target,
            ),
{
    assert forall|a: int| 0 <= a < play.animations@.len() implies (writes(
        #[trigger] play.animations@[a],
        target,
    ) <==> writes_target(play.animations@[a], target)) by {
        match play.animations@[a].state {
            Some(state) => {
                if state.targets@.contains(target) {
                    let t = choose|t: int|
                        0 <= t < state.targets@.len() && state.targets@[t] == target;
                    assert(state.targets@[t].same(target) <==> target.cardinality
                        == Cardinality::Singleton);
                }
            },
            None => {},
        }
    }
}

/// Whether the play at `p` certainly runs an updater on `host`: it renders
/// frames after the registration, the host is in the scene, and nothing may
/// animate it.
pub open spec fn runs_updater(
    scene: SceneLifecycle,
    registration: UpdaterRegistration,
    host: ObjectId,
    p: int,
) -> bool {
    let play = scene.plays@[p];
    &&& follows(registration, play)
    &&& scene.spec_membership_at(host, play.site.file, play.site.start) matches Some(held)
        && held.1 == Presence::Present
    &&& forall|a: int|
        0 <= a < play.animations@.len() ==> !((#[trigger] play.animations@[a]).state matches Some(
            state,
        ) && exists|t: int|
            0 <= t < state.targets@.len() && (#[trigger] state.targets@[t]).site == host.site)
}

/// Whether a play certainly renders frames after a registration.
pub open spec fn follows(registration: UpdaterRegistration, play: PlayFact) -> bool {
    &&& play.certainty == Presence::Present
    &&& play.kind == PlayKind::Play || play.dynamic_wait == Truth::Yes
    &&& play.site.file == registration.site.file
    &&& registration.site.end <= play.site.start
}

/// Whether a play starts after the updaters of the host were changed.
pub open spec fn is_cut_off(
    scene: SceneLifecycle,
    registration: UpdaterRegistration,
    host: ObjectId,
    play: PlayFact,
) -> bool {
    cut_from(scene, registration, host, 0) matches Some(cut) && cut <= play.site.start
}

/// Updaters are cut off at the first later change of the updaters of the host.
pub proof fn cuts_are_found(
    scene: SceneLifecycle,
    registration: UpdaterRegistration,
    host: ObjectId,
    i: int,
    e: int,
)
    requires
        0 <= i <= e <= scene.events@.len(),
        e < scene.events@.len() ==> cuts(scene, registration, host, e),
        forall|j: int| i <= j < e ==> !#[trigger] cuts(scene, registration, host, j),
    ensures
        cut_from(scene, registration, host, i) == if e < scene.events@.len() {
            Some(scene.events@[e].site.start)
        } else {
            None
        },
    decreases e - i,
{
    if i < e {
        assert(!cuts(scene, registration, host, i));
        cuts_are_found(scene, registration, host, i + 1, e);
    }
}

/// Whether the event at `e` changes the updaters of a host after a
/// registration.
pub open spec fn cuts(
    scene: SceneLifecycle,
    registration: UpdaterRegistration,
    host: ObjectId,
    e: int,
) -> bool {
    let traced = scene.events@[e];
    &&& traced.site.file == registration.site.file
    &&& registration.site.end <= traced.site.start
    &&& traced.event matches Event::Mutate { target, kind } && kind == MutationKind::Updaters
        && scene.final_heap.spec_resolve(target) == host
}

proof fn running_is_told(
    scene: SceneLifecycle,
    registration: UpdaterRegistration,
    host: ObjectId,
    p: int,
)
    ensures
        runs_updater(scene, registration, host, p) <==> covered_play(
            scene.plays@[p],
            registration,
        ) && (scene.spec_membership_at(
            host,
            scene.plays@[p].site.file,
            scene.plays@[p].site.start,
        ) matches Some(held) && held.1 == Presence::Present) && !any_targets(
            scene.plays@[p].animations@,
            host,
        ),
{
    let play = scene.plays@[p];
    assert forall|a: int| 0 <= a < play.animations@.len() implies (can_target(
        #[trigger] play.animations@[a],
        host,
    ) <==> (play.animations@[a].state matches Some(state) && exists|t: int|
        0 <= t < state.targets@.len() && (#[trigger] state.targets@[t]).site == host.site)) by {
        match play.animations@[a].state {
            Some(state) => {
                assert(forall|t: int|
                    0 <= t < state.targets@.len() ==> ((#[trigger] state.targets@[t]).maybe_same(
                        host,
                    ) != Truth::No <==> state.targets@[t].site == host.site));
            },
            None => {},
        }
    }
}

/// The plays that are counted for an updater are plays that certainly run it,
/// and every one of them before the updater is cut off.
pub proof fn counted_plays_run_the_updater(
    scene: SceneLifecycle,
    registration: UpdaterRegistration,
    host: ObjectId,
    p: int,
    taken: Seq<usize>,
)
    requires
        0 <= p <= scene.plays@.len(),
        live_from(scene, registration, host, p, taken) is Some,
    ensures
        ({
            let list = live_from(scene, registration, host, p, taken)->0;
            &&& taken.len() <= list.len()
            &&& list.take(taken.len() as int) == taken
            &&& forall|k: int|
                taken.len() <= k < list.len() ==> p <= #[trigger] list[k] < scene.plays@.len()
                    && runs_updater(scene, registration, host, list[k] as int) && !is_cut_off(
                    scene,
                    registration,
                    host,
                    scene.plays@[list[k] as int],
                )
            &&& forall|q: int|
                p <= q < scene.plays@.len() && #[trigger] runs_updater(scene, registration, host, q)
                    && none_cut_off(scene, registration, host, p, q) ==> list.contains(q as usize)
        }),
    decreases scene.plays@.len() - p,
{
    let list = live_from(scene, registration, host, p, taken)->0;
    assert(scene.plays.len() == scene.plays@.len());
    if p < scene.plays@.len() {
        let play = scene.plays@[p];
        running_is_told(scene, registration, host, p);
        if covered_play(play, registration) && is_cut_off(scene, registration, host, play) {
            assert(list == taken);
            assert(list.take(taken.len() as int) =~= taken);
            assert forall|q: int|
                p <= q < scene.plays@.len() && #[trigger] runs_updater(
                    scene,
                    registration,
                    host,
                    q,
                ) && none_cut_off(scene, registration, host, p, q) implies list.contains(
                q as usize,
            ) by {
                assert(follows(registration, play));
                assert(!cut_play(scene, registration, host, p));
            }
        } else {
            let next = if runs_updater(scene, registration, host, p) {
                taken.push(p as usize)
            } else {
                taken
            };
            counted_plays_run_the_updater(scene, registration, host, p + 1, next);
            assert(list == live_from(scene, registration, host, p + 1, next)->0);
            assert(list.take(taken.len() as int) =~= list.take(next.len() as int).take(
                taken.len() as int,
            ));
            assert(next.take(taken.len() as int) =~= taken);
            if runs_updater(scene, registration, host, p) {
                assert(list.take(next.len() as int)[taken.len() as int] == p as usize);
                assert(list[taken.len() as int] == p as usize);
            }
            assert forall|q: int|
                p <= q < scene.plays@.len() && #[trigger] runs_updater(
                    scene,
                    registration,
                    host,
                    q,
                ) && none_cut_off(scene, registration, host, p, q) implies list.contains(
                q as usize,
            ) by {
                if q > p {
                    assert(none_cut_off(scene, registration, host, p + 1, q));
                }
            }
        }
    } else {
        assert(list.take(taken.len() as int) =~= taken);
    }
}

/// Whether the play at `p` renders frames for an updater that is cut off.
pub open spec fn cut_play(
    scene: SceneLifecycle,
    registration: UpdaterRegistration,
    host: ObjectId,
    p: int,
) -> bool {
    follows(registration, scene.plays@[p]) && is_cut_off(
        scene,
        registration,
        host,
        scene.plays@[p],
    )
}

/// Whether no play from `p` to `q` is cut off.
pub open spec fn none_cut_off(
    scene: SceneLifecycle,
    registration: UpdaterRegistration,
    host: ObjectId,
    p: int,
    q: int,
) -> bool {
    forall|j: int| p <= j <= q ==> !#[trigger] cut_play(scene, registration, host, j)
}

/// Whether an expression is `self.camera.frame` or `self.camera.auto_zoom`.
pub open spec fn uses_camera(expr: Expr) -> bool {
    &&& expr.form matches Form::Attribute(name) && (name@ == "frame"@ || name@ == "auto_zoom"@)
    &&& expr.parts@.len() == 1
    &&& expr.parts@[0].form matches Form::Attribute(name) && name@ == "camera"@
    &&& expr.parts@[0].parts@.len() == 1
    &&& expr.parts@[0].parts@[0].form matches Form::Name(name) && name@ == "self"@
}

/// Whether such an expression stands at a range.
pub open spec fn camera_at(range: TextRange) -> bool {
    exists|expr: Expr| #[trigger] uses_camera(expr) && expr.range == range
}

proof fn camera_is_told(expr: Expr)
    ensures
        uses_camera(expr) <==> camera_attribute(expr) is Some,
{
}

proof fn camera_use_is_found(expr: Expr)
    ensures
        uses_camera(expr) ==> (camera_use(expr) matches Some(found) && found.1 == expr.range),
        camera_use(expr) matches Some(found) ==> camera_at(found.1),
    decreases expr, expr.parts@.len() + 1,
{
    camera_is_told(expr);
    camera_part_is_found(expr, 0);
}

proof fn camera_part_is_found(expr: Expr, i: int)
    requires
        0 <= i <= expr.parts@.len(),
    ensures
        camera_use_from(expr, i) matches Some(found) ==> camera_at(found.1),
    decreases expr, expr.parts@.len() - i,
{
    if i < certain_parts(expr) && i < expr.parts@.len() {
        camera_use_is_found(expr.parts@[i]);
        camera_part_is_found(expr, i + 1);
    }
}

proof fn first_use_is_found(list: Seq<Expr>, i: int)
    requires
        0 <= i <= list.len(),
    ensures
        first_use(list, i) matches Some(found) ==> camera_at(found.1),
    decreases list.len() - i,
{
    if i < list.len() {
        camera_use_is_found(list[i]);
        first_use_is_found(list, i + 1);
    }
}

/// The camera use that is found at the start of a body is one of the two
/// attributes; where the first statement runs straight and its value is one, it
/// is that; and nothing is found behind a statement that does not run straight.
pub proof fn camera_uses_are_found(body: Seq<Stmt>, i: int)
    requires
        0 <= i <= body.len(),
    ensures
        prefix_use(body, i) matches Some(found) ==> camera_at(found.1),
        i < body.len() && body[i].kind == StmtKind::Expr && body[i].values@.len() > 0
            && uses_camera(body[i].values@[0]) ==> (prefix_use(body, i) matches Some(found)
            && found.1 == body[i].values@[0].range),
        i < body.len() && (body[i].kind == StmtKind::For || body[i].kind == StmtKind::Return
            || body[i].kind == StmtKind::Raise || body[i].kind == StmtKind::Definition)
            ==> prefix_use(body, i) is None,
    decreases body.len() - i,
{
    if i < body.len() {
        first_use_is_found(body[i].values@, 0);
        first_use_is_found(body[i].targets@, 0);
        if body[i].values@.len() > 0 {
            camera_use_is_found(body[i].values@[0]);
        }
        camera_uses_are_found(body, i + 1);
    }
}

/// An updater sets the same state again exactly when it certainly changes its
/// mobject, depends on nothing that varies, and its callback is steady.
pub proof fn invariant_updaters_are_told(
    context: RuleContext<'_>,
    registration: UpdaterRegistration,
)
    ensures
        invariant_updater(context, registration) <==> registration.certainty == Presence::Present
            && registration.body.mutates_target == Truth::Yes && registration.body.uses_dt
            == Truth::No && registration.body.reads_frame_varying == Truth::No
            && registration.body.calls_unknown == Truth::No
            && registration.body.pure_affine_on_target == Truth::Yes && (syntax_in(
            *context.sources,
            registration.site.file,
        ) matches Some(syntax) && callback_steady(syntax, registration.fact.callback)),
{
}

/// Whether an image at position `m` of a certain play is redrawn because
/// something before it moves, though nothing animates it.
pub open spec fn redrawn_behind(scene: SceneLifecycle, p: int, m: int) -> bool {
    let play = scene.plays@[p];
    &&& play.certainty == Presence::Present
    &&& play.kind == PlayKind::Play || play.dynamic_wait == Truth::Yes
    &&& play.display matches Some(display) && (display.suffix matches Some(suffix) && (
    suffix.first_moving_index matches Some(Num::Exact(NumLit::Int(first))) && 0 <= first <= m && (
    forall|e: int|
        0 <= e < suffix.members_evidence@.len() && (#[trigger] suffix.members_evidence@[e]).id
            == members_of(play)[m] ==> suffix.members_evidence@[e].reason
            != MovingReason::AnimationTarget)))
    &&& scene.spec_state_at(play.site.file, play.site.end) matches Some(snapshot)
        && snapshot.heap.spec_object(members_of(play)[m]) matches Some(state) && certainly_of(
        state.kind,
        "manim.mobject.types.image_mobject.ImageMobject"@,
    )
}

/// An image counts as caught exactly when it is redrawn because something
/// before it moves.
pub proof fn caught_images_are_told(scene: SceneLifecycle, p: int, m: int)
    ensures
        caught(scene, p, m) <==> redrawn_behind(scene, p, m),
{
    let play = scene.plays@[p];
    if play.display is Some && play.display->0.suffix is Some {
        let list = play.display->0.suffix->0.members_evidence@;
        assert(animated_member(list, members_of(play)[m]) <==> exists|e: int|
            0 <= e < list.len() && (#[trigger] list[e]).id == members_of(play)[m] && list[e].reason
                == MovingReason::AnimationTarget);
    }
    match scene.spec_state_at(play.site.file, play.site.end) {
        Some(snapshot) => match snapshot.heap.spec_object(members_of(play)[m]) {
            Some(state) => {
                assert(certainly_of(
                    state.kind,
                    "manim.mobject.types.image_mobject.ImageMobject"@,
                ) <==> definite_kind(
                    state.kind,
                    "manim.mobject.types.image_mobject.ImageMobject"@,
                ));
            },
            None => {},
        },
        None => {},
    }
}

/// Whether an object may be of one of these classes.
pub open spec fn may_be_one_of(kind: KindSet, candidates: Seq<String>) -> bool {
    match kind {
        KindSet::Known(kinds) => exists|c: int, k: int|
            0 <= c < candidates.len() && 0 <= k < kinds@.len() && (#[trigger] candidates[c])@ == (
            #[trigger] kinds@[k])@,
        KindSet::Unknown => candidates.len() > 0,
    }
}

proof fn kinds_are_told(kind: KindSet, candidates: Seq<String>)
    ensures
        may_be_one_of(kind, candidates) <==> may_be_any(kind, texts(candidates)),
{
    let list = texts(candidates);
    assert(forall|c: int| 0 <= c < list.len() ==> #[trigger] list[c] == candidates[c]@);
    match kind {
        KindSet::Known(kinds) => {
            let names = texts(kinds@);
            assert(forall|k: int| 0 <= k < names.len() ==> #[trigger] names[k] == kinds@[k]@);
            if may_be_one_of(kind, candidates) {
                let (c, k) = choose|c: int, k: int|
                    0 <= c < candidates.len() && 0 <= k < kinds@.len() && (
                    #[trigger] candidates[c])@ == (#[trigger] kinds@[k])@;
                assert(names[k] == list[c]);
                assert(names.contains(list[c]));
            }
            if may_be_any(kind, list) {
                let c = choose|c: int| 0 <= c < list.len() && names.contains(#[trigger] list[c]);
                let k = choose|k: int| 0 <= k < names.len() && names[k] == list[c];
                assert(candidates[c]@ == kinds@[k]@);
            }
        },
        _ => {},
    }
}

/// A name is certainly not in the scene when every object that it may be is
/// absent, at least one of them of a known class.
pub proof fn absence_is_told(objects: Seq<HeapEntry>, candidates: Seq<String>)
    ensures
        all_absent(objects, texts(candidates)) <==> (forall|o: int|
            0 <= o < objects.len() && may_be_one_of((#[trigger] objects[o]).state.kind, candidates)
                ==> objects[o].state.family_membership == Presence::Absent) && exists|o: int|
            0 <= o < objects.len() && may_be_one_of((#[trigger] objects[o]).state.kind, candidates)
                && objects[o].state.kind is Known,
{
    assert forall|o: int| 0 <= o < objects.len() implies (may_be_one_of(
        (#[trigger] objects[o]).state.kind,
        candidates,
    ) <==> may_be_any(objects[o].state.kind, texts(candidates))) by {
        kinds_are_told(objects[o].state.kind, candidates);
    }
}

/// A name can be told absent only in the four methods that run in a known
/// order.
pub proof fn absence_needs_a_known_order(
    context: RuleContext<'_>,
    call: QualifiedCall,
    argument: CallArgument,
)
    requires
        absent_by_kind(context, call, argument),
    ensures
        call.context.function matches Some(name) && (name@ == "__init__"@ || name@ == "setup"@
            || name@ == "construct"@ || name@ == "tear_down"@),
        argument.kind_candidates@.len() > 0,
        call.context.class_name matches Some(class) && (context.lifecycle_facts.spec_scene(
            class@,
        ) matches Some(scene) && !scene.constructor_state_unknown),
{
}

/// The state before a call is the last snapshot of its method that ends before
/// it.
pub proof fn states_before_calls_are_found(
    snapshots: Seq<StateSnapshot>,
    call: QualifiedCall,
    method: TextRange,
    n: int,
    k: int,
)
    requires
        -1 <= k < n <= snapshots.len(),
        k >= 0 ==> comes_before(snapshots[k], call, method),
        forall|j: int| k < j < n ==> !comes_before(#[trigger] snapshots[j], call, method),
    ensures
        snapshot_before_call(snapshots, call, method, n) == if k >= 0 {
            Some(snapshots[k])
        } else {
            None
        },
    decreases n,
{
    if n > 0 && k < n - 1 {
        assert(!comes_before(snapshots[n - 1], call, method));
        if n - 1 > k {
            if n - 1 > 0 {
                states_before_calls_are_found(snapshots, call, method, n - 1, k);
            }
        }
    }
}

/// Whether a snapshot stands in a method and ends before a call.
pub open spec fn comes_before(
    snapshot: StateSnapshot,
    call: QualifiedCall,
    method: TextRange,
) -> bool {
    &&& snapshot.site.file == call.file
    &&& snapshot.site.end <= call.call_range.start
    &&& method.start <= snapshot.site.start
    &&& snapshot.site.end <= method.end
}

} // verus!
