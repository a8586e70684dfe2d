//! What the performance rules on the course of a scene are for.
use super::hot::{at_least, gate_is_exact, goal_is_exact};
use super::performance::{may_only_reach, typeset};
use super::{
    candidate_is_reported, gathered_in, offered_at, offers_are_told, owed, parts_offered,
    parts_stand, points_at, range_of_site, reported_at, site_owed, stand_at, told, Place,
};
use crate::config::{cairo_names, RenderProfile, Renderer};
use crate::cost::transform_from;
use crate::frontend::{LiteralFact, QualifiedCall};
use crate::knowledge::{KnowledgeProfile, SymbolKind};
use crate::numbers::{double_bits, real_below, whole_threshold_is_exact, Num, NumLit};
use crate::rules::base::{Rule, RuleContext};
use crate::rules::dedupe::{kept_entries, kept_from_candidates, key_of};
use crate::rules::performance::display_order::{
    suffix_of, suffix_report_at, suffix_report_finder, suffix_report_items, suffix_report_of,
    FrontLoadedStaticSuffix,
};
use crate::rules::performance::frame_scope::{
    inert_entry, inert_heap, inert_kind, intrinsic_kind, sole_cause, sole_entry, sole_in_heap,
    ticking, tolerated,
};
use crate::rules::performance::renderer_cost::{
    animates, direct_target, face_product, faces_of, literal_faces, side_faces, surface_at,
    surface_finder, surface_in_scene, surface_positions, surface_scenes_parts, CairoSurfaceMismatch,
};
use crate::rules::performance::sums::{sum_of, PlayQuantity};
use crate::rules::performance::timing::{
    unfrozen_at, unfrozen_finder, unfrozen_items, unfrozen_of, StaticUnfrozenWait,
};
use crate::rules::performance::transform::{
    begin_at, begin_candidate, begin_finder, begin_gate_met, begin_items, begin_of, begins_parts,
    glyph_at, glyph_finder, glyph_items, glyph_of, glyphs_parts, sizes_of, text_claimed, text_kind,
    transform_pair, MismatchedTransformBegin, TextFamilyTransform,
};
use crate::rules::performance::updater_waste::{
    invariant_updater, invariant_waits_parts, legs_of, live_at, live_finder, live_items, live_of,
    live_positions, no_op_at, no_op_finder, no_op_items, no_op_of, same_frame_at, same_frame_finder,
    same_frame_items, same_frame_of, waits_of, FrameInvariantDynamicWait, LongLivedUpdater,
    NoOpUpdaterCost,
};
use crate::rules::performance::wait_updates::{
    forced_at, forced_finder, forced_items, forced_of, ForcedAlwaysUpdateWait,
};
use crate::semantic::{
    holds_updater, same_updater, CameraKind, Cardinality, Heap, HeapEntry, KindSet, ObjectId,
    PlayFact, PlayKind, PlayedAnimation, Presence, SceneLifecycle, SceneState, Truth, UpdaterFact,
    UpdaterHost, UpdaterRegistration,
};
use crate::source::AllocationSite;
use crate::text::{found, gather, gathered_from, picked};
use vstd::prelude::*;

verus! {

/// Whether a number is known not to be below this one.
pub open spec fn not_below(value: Num, minimum: u32) -> bool {
    match value {
        Num::Exact(NumLit::Int(n)) => n >= minimum,
        Num::Exact(NumLit::Float(double)) => !real_below(
            double.bits,
            double_bits(minimum as int) as u64,
        ),
        Num::Interval { lo: Some(lo), hi: _ } => !real_below(
            lo.bits,
            double_bits(minimum as int) as u64,
        ),
        _ => false,
    }
}

pub(crate) proof fn bound_is_exact(value: Num, minimum: u32)
    ensures
        not_below(value, minimum) <==> (value.spec_lower_bound() matches Some(lower)
            && !lower.short_of(minimum)),
{
    match value {
        Num::Exact(NumLit::Int(n)) => whole_threshold_is_exact(n, minimum),
        _ => {},
    }
}

/// Whether a curated class is one of mobjects that do something on every frame
/// by themselves.
pub open spec fn acts_alone(profile: KnowledgeProfile, id: Seq<char>) -> bool {
    profile.spec_symbol(id) matches Some(entry) && (entry.kind == SymbolKind::Mobject || entry.kind
        == SymbolKind::Vmobject) && (entry.effects matches Some(effects) && (
    effects.registers_updater == Some(true) || effects.per_frame_callback == Some(true)))
}

/// Whether an object is known to be of classes that do nothing by themselves.
pub open spec fn passive(profile: KnowledgeProfile, kind: KindSet) -> bool {
    kind matches KindSet::Known(candidates) && forall|c: int|
        0 <= c < candidates@.len() ==> !acts_alone(profile, (#[trigger] candidates@[c])@)
}

/// Whether nothing that may be in the scene changes by itself.
pub open spec fn all_still(profile: KnowledgeProfile, heap: Heap) -> bool {
    forall|o: int|
        0 <= o < heap.objects@.len() ==> (#[trigger] heap.objects@[o]).state.family_membership
            == Presence::Absent || (heap.objects@[o].state.updaters@.len() == 0 && passive(
            profile,
            heap.objects@[o].state.kind,
        ))
}

proof fn passivity_is_told(profile: KnowledgeProfile, kind: KindSet)
    ensures
        passive(profile, kind) <==> inert_kind(profile, kind),
{
    match kind {
        KindSet::Known(candidates) => {
            assert(forall|c: int|
                0 <= c < candidates@.len() ==> (acts_alone(
                    profile,
                    (#[trigger] candidates@[c])@,
                ) <==> intrinsic_kind(profile, candidates@[c]@)));
        },
        _ => {},
    }
}

proof fn stillness_is_told(profile: KnowledgeProfile, heap: Heap)
    ensures
        all_still(profile, heap) <==> inert_heap(profile, heap),
{
    assert forall|o: int| 0 <= o < heap.objects@.len() implies (inert_entry(
        profile,
        #[trigger] heap.objects@[o],
    ) <==> (heap.objects@[o].state.family_membership == Presence::Absent || (
    heap.objects@[o].state.updaters@.len() == 0 && passive(profile, heap.objects@[o].state.kind))))
        by {
        passivity_is_told(profile, heap.objects@[o].state.kind);
    }
}

/// A wait that renders the same frame again and again.
pub open spec fn unfrozen_owed(context: RuleContext<'_>, s: int, k: int) -> Seq<Place> {
    let scene = context.lifecycle_facts.scenes@[s];
    let play = scene.plays@[k];
    let profiles = context.config.active_profiles@;
    site_owed(
        !scene.constructor_state_unknown && play.kind == PlayKind::Wait && play.certainty
            == Presence::Present && play.frozen_frame == Some(false) && !play.has_stop_condition
            && play.dynamic_wait == Truth::No && not_below(play.duration, 2) && profiles.len() > 0
            && (forall|p: int|
            0 <= p < profiles.len() ==> (#[trigger] profiles[p]).pixel_width
                * profiles[p].pixel_height >= 921600) && (context.knowledge matches Some(profile)
            && scene.spec_state_at(play.site.file, play.site.start) matches Some(snapshot)
            && all_still(*profile, snapshot.heap)),
        play.site,
    )
}

/// A certain wait of two seconds or more that is told not to freeze is reported
/// when nothing changes and every active profile has at least 1280 times 720
/// pixels; nothing else is.
pub proof fn unfrozen_waits_are_reported(context: RuleContext<'_>)
    ensures
        stand_at(
            context,
            StaticUnfrozenWait.findings(context),
            gather(
                context.lifecycle_facts.scenes@.len() as int,
                |s: int|
                    gather(
                        context.lifecycle_facts.scenes@[s].plays@.len() as int,
                        |k: int| unfrozen_owed(context, s, k),
                    ),
            ),
        ),
{
    let scenes = context.lifecycle_facts.scenes@;
    let n = scenes.len() as int;
    let finder = unfrozen_finder(context);
    let places = |s: int|
        gather(scenes[s].plays@.len() as int, |k: int| unfrozen_owed(context, s, k));
    assert forall|s: int| 0 <= s < n implies stand_at(
        context,
        #[trigger] finder(s),
        places(s),
    ) by {
        let scene = scenes[s];
        let m = scene.plays@.len() as int;
        let items = unfrozen_items(context, scene);
        assert(finder(s) == unfrozen_at(context, s));
        assert(unfrozen_at(context, s) == gather(m, items));
        let here = |k: int| unfrozen_owed(context, s, k);
        assert forall|k: int| 0 <= k < m implies stand_at(
            context,
            #[trigger] items(k),
            here(k),
        ) by {
            assert(items(k) == found(unfrozen_of(context, scene, k)));
            let play = scene.plays@[k];
            bound_is_exact(play.duration, 2);
            match (context.knowledge, scene.spec_state_at(play.site.file, play.site.start)) {
                (Some(profile), Some(snapshot)) => stillness_is_told(*profile, snapshot.heap),
                _ => {},
            }
        }
        parts_stand(context, m, items, here);
    }
    parts_stand(context, n, finder, places);
}

/// A wait that updates what cannot change.
pub open spec fn forced_owed(context: RuleContext<'_>, s: int, k: int) -> Seq<Place> {
    let scene = context.lifecycle_facts.scenes@[s];
    let play = scene.plays@[k];
    site_owed(
        !scene.constructor_state_unknown && scene.camera_kind == CameraKind::Standard && play.kind
            == PlayKind::Wait && play.certainty == Presence::Present && play.always_update_mobjects
            == Truth::Yes && !play.has_stop_condition && (context.knowledge matches Some(profile)
            && scene.spec_state_at(play.site.file, play.site.start) matches Some(snapshot)
            && snapshot.heap.spec_scene(scene.scene_id) matches Some(state)
            && state.scene_updaters@.len() == 0 && all_still(*profile, snapshot.heap)),
        play.site,
    )
}

/// A certain wait that forces updates is reported when nothing could change: no
/// scene updater, no moving camera, no stop condition; nothing else is.
pub proof fn forced_updates_are_reported(context: RuleContext<'_>)
    ensures
        stand_at(
            context,
            ForcedAlwaysUpdateWait.findings(context),
            gather(
                context.lifecycle_facts.scenes@.len() as int,
                |s: int|
                    gather(
                        context.lifecycle_facts.scenes@[s].plays@.len() as int,
                        |k: int| forced_owed(context, s, k),
                    ),
            ),
        ),
{
    let scenes = context.lifecycle_facts.scenes@;
    let n = scenes.len() as int;
    let finder = forced_finder(context);
    let places = |s: int|
        gather(scenes[s].plays@.len() as int, |k: int| forced_owed(context, s, k));
    assert forall|s: int| 0 <= s < n implies stand_at(
        context,
        #[trigger] finder(s),
        places(s),
    ) by {
        let scene = scenes[s];
        let m = scene.plays@.len() as int;
        let items = forced_items(context, scene);
        assert(finder(s) == forced_at(context, s));
        assert(forced_at(context, s) == gather(m, items));
        let here = |k: int| forced_owed(context, s, k);
        assert forall|k: int| 0 <= k < m implies stand_at(
            context,
            #[trigger] items(k),
            here(k),
        ) by {
            assert(items(k) == found(forced_of(context, scene, k)));
            let play = scene.plays@[k];
            match (context.knowledge, scene.spec_state_at(play.site.file, play.site.start)) {
                (Some(profile), Some(snapshot)) => stillness_is_told(*profile, snapshot.heap),
                _ => {},
            }
        }
        parts_stand(context, m, items, here);
    }
    parts_stand(context, n, finder, places);
}

/// Whether some active profile renders with Cairo.
pub open spec fn with_cairo(profiles: Seq<RenderProfile>) -> bool {
    exists|p: int| 0 <= p < profiles.len() && (#[trigger] profiles[p]).renderer == Renderer::Cairo
}

pub(crate) proof fn cairo_is_told(profiles: Seq<RenderProfile>)
    ensures
        with_cairo(profiles) <==> cairo_names(profiles).len() > 0,
    decreases profiles.len(),
{
    if profiles.len() > 0 {
        let rest = profiles.drop_last();
        cairo_is_told(rest);
        if with_cairo(rest) {
            let p = choose|p: int|
                0 <= p < rest.len() && (#[trigger] rest[p]).renderer == Renderer::Cairo;
            assert(profiles[p] == rest[p]);
        }
        if with_cairo(profiles) {
            let p = choose|p: int|
                0 <= p < profiles.len() && (#[trigger] profiles[p]).renderer == Renderer::Cairo;
            if p < rest.len() {
                assert(rest[p].renderer == Renderer::Cairo);
            }
        }
        assert(profiles.last() == profiles[profiles.len() - 1]);
    }
}

/// A play that redraws a static suffix.
pub open spec fn suffix_report_owed(context: RuleContext<'_>, s: int, k: int) -> Seq<Place> {
    let scene = context.lifecycle_facts.scenes@[s];
    let play = scene.plays@[k];
    site_owed(
        with_cairo(context.config.active_profiles@) && !scene.constructor_state_unknown && (
        play.kind == PlayKind::Play || play.dynamic_wait == Truth::Yes) && play.certainty
            == Presence::Present && (play.display matches Some(display) && display.members is Some
            && (display.suffix matches Some(suffix) && suffix.sentence is Some && (
        suffix.first_moving_index matches Some(Num::Exact(NumLit::Int(_)))) && (
        suffix.suffix_len matches Num::Exact(NumLit::Int(len)) && len >= 8))),
        play.site,
    )
}

/// A certain play under Cairo that draws eight static members or more behind
/// a moving one is reported, and nothing else is.
pub proof fn static_suffixes_are_reported(context: RuleContext<'_>)
    ensures
        stand_at(
            context,
            FrontLoadedStaticSuffix.findings(context),
            gather(
                context.lifecycle_facts.scenes@.len() as int,
                |s: int|
                    gather(
                        context.lifecycle_facts.scenes@[s].plays@.len() as int,
                        |k: int| suffix_report_owed(context, s, k),
                    ),
            ),
        ),
{
    let scenes = context.lifecycle_facts.scenes@;
    let n = scenes.len() as int;
    let finder = suffix_report_finder(context);
    let places = |s: int|
        gather(scenes[s].plays@.len() as int, |k: int| suffix_report_owed(context, s, k));
    assert forall|s: int| 0 <= s < n implies stand_at(
        context,
        #[trigger] finder(s),
        places(s),
    ) by {
        let scene = scenes[s];
        let m = scene.plays@.len() as int;
        let items = suffix_report_items(context, scene);
        assert(finder(s) == suffix_report_at(context, s));
        assert(suffix_report_at(context, s) == gather(m, items));
        let here = |k: int| suffix_report_owed(context, s, k);
        assert forall|k: int| 0 <= k < m implies stand_at(
            context,
            #[trigger] items(k),
            here(k),
        ) by {
            assert(items(k) == found(suffix_report_of(context, scene, k)));
            let play = scene.plays@[k];
            cairo_is_told(context.config.active_profiles@);
            match suffix_of(play) {
                Some((_, len, _, _)) => gate_is_exact(Num::Exact(NumLit::Int(len)), 8),
                None => {},
            }
        }
        parts_stand(context, m, items, here);
    }
    parts_stand(context, n, finder, places);
}

/// Whether a class is one of the transforms that align two families.
pub open spec fn aligns(id: Seq<char>) -> bool {
    ||| id == "manim.animation.transform.ReplacementTransform"@
    ||| id == "manim.animation.transform.Transform"@
    ||| id == "manim.animation.transform_matching_parts.TransformMatchingAbstractBase"@
    ||| id == "manim.animation.transform_matching_parts.TransformMatchingShapes"@
    ||| id == "manim.animation.transform_matching_parts.TransformMatchingTex"@
}

/// Whether an animation certainly aligns `source` with `target`.
pub open spec fn aligns_with(
    animation: PlayedAnimation,
    source: ObjectId,
    target: ObjectId,
) -> bool {
    &&& animation.convertible == Truth::Yes
    &&& animation.replacement_target == Some(target)
    &&& animation.state matches Some(state) && state.targets@.len() == 1 && state.targets@[0]
        == source && (state.kind matches KindSet::Known(kinds) && kinds@.len() > 0 && forall|c: int|
        0 <= c < kinds@.len() ==> aligns((#[trigger] kinds@[c])@))
}

/// Whether an object is certainly a typeset text.
pub open spec fn is_typeset(scene: SceneLifecycle, object: ObjectId) -> bool {
    scene.final_heap.spec_object(scene.final_heap.spec_resolve(object)) matches Some(state) && (
    state.kind matches KindSet::Known(kinds) && kinds@.len() > 0 && forall|c: int|
        0 <= c < kinds@.len() ==> typeset((#[trigger] kinds@[c])@))
}

proof fn alignment_is_told(animation: PlayedAnimation, source: ObjectId, target: ObjectId)
    ensures
        aligns_with(animation, source, target) <==> transform_pair(animation) == Some(
            (source, target),
        ),
{
}

proof fn typesetting_is_told(scene: SceneLifecycle, object: ObjectId)
    ensures
        is_typeset(scene, object) <==> text_kind(scene, object),
{
}

/// Whether an animation of a certain play aligns two families, of which at
/// least one is a typeset text.
pub open spec fn aligns_text(
    context: RuleContext<'_>,
    scene: SceneLifecycle,
    play: PlayFact,
    animation: PlayedAnimation,
) -> bool {
    &&& context.knowledge is Some
    &&& play.certainty == Presence::Present
    &&& exists|source: ObjectId, target: ObjectId|
        #[trigger] aligns_with(animation, source, target) && (is_typeset(scene, source)
            || is_typeset(scene, target))
}

/// Whether an animation of a certain play aligns two families, none of which
/// is known to be a typeset text.
pub open spec fn aligns_shapes(
    context: RuleContext<'_>,
    scene: SceneLifecycle,
    play: PlayFact,
    animation: PlayedAnimation,
) -> bool {
    &&& context.knowledge is Some
    &&& play.certainty == Presence::Present
    &&& exists|source: ObjectId, target: ObjectId|
        #[trigger] aligns_with(animation, source, target) && !is_typeset(scene, source)
            && !is_typeset(scene, target)
}

proof fn pairs_are_told(
    context: RuleContext<'_>,
    scene: SceneLifecycle,
    play: PlayFact,
    animation: PlayedAnimation,
)
    ensures
        aligns_text(context, scene, play, animation) <==> context.knowledge is Some
            && play.certainty == Presence::Present && (transform_pair(animation) matches Some(pair)
            && text_claimed(scene, pair)),
        aligns_shapes(context, scene, play, animation) <==> context.knowledge is Some
            && play.certainty == Presence::Present && (transform_pair(animation) matches Some(pair)
            && !text_claimed(scene, pair)),
{
    assert forall|source: ObjectId, target: ObjectId|
        #[trigger] aligns_with(animation, source, target) <==> transform_pair(animation) == Some(
            (source, target),
        ) by {
        alignment_is_told(animation, source, target);
    }
    match transform_pair(animation) {
        Some((source, target)) => {
            assert(aligns_with(animation, source, target));
            typesetting_is_told(scene, source);
            typesetting_is_told(scene, target);
        },
        None => {},
    }
}

/// The transforms of a play that align glyphs.
pub open spec fn glyph_owed(context: RuleContext<'_>, s: int, k: int) -> Seq<Place> {
    let scene = context.lifecycle_facts.scenes@[s];
    let play = scene.plays@[k];
    gather(
        play.animations@.len() as int,
        |a: int|
            site_owed(
                aligns_text(context, scene, play, play.animations@[a]),
                play.animations@[a].site,
            ),
    )
}

/// A certain transform, of one of the five aligning classes, is reported when
/// its source or its target is a typeset text, and nothing else is.
pub proof fn text_transforms_are_reported(context: RuleContext<'_>)
    ensures
        told(
            context,
            TextFamilyTransform.findings(context),
            gather(
                context.lifecycle_facts.scenes@.len() as int,
                |s: int|
                    gather(
                        context.lifecycle_facts.scenes@[s].plays@.len() as int,
                        |k: int| glyph_owed(context, s, k),
                    ),
            ),
        ),
{
    let scenes = context.lifecycle_facts.scenes@;
    let n = scenes.len() as int;
    let finder = glyph_finder(context);
    let places = |s: int|
        gather(scenes[s].plays@.len() as int, |k: int| glyph_owed(context, s, k));
    assert forall|s: int| 0 <= s < n implies offered_at(
        context,
        #[trigger] finder(s),
        places(s),
    ) by {
        let scene = scenes[s];
        let m = scene.plays@.len() as int;
        let items = glyph_items(context, scene);
        assert(finder(s) == glyph_at(context, s));
        assert(glyph_at(context, s) == gather(m, items));
        let here = |k: int| glyph_owed(context, s, k);
        assert forall|k: int| 0 <= k < m implies offered_at(
            context,
            #[trigger] items(k),
            here(k),
        ) by {
            assert(items(k) == glyph_of(context, scene, k));
            let play = scene.plays@[k];
            let c = play.animations@.len() as int;
            let parts = glyphs_parts(context, scene, play);
            let inner = |a: int|
                site_owed(
                    aligns_text(context, scene, play, play.animations@[a]),
                    play.animations@[a].site,
                );
            assert forall|a: int| 0 <= a < c implies offered_at(
                context,
                #[trigger] parts(a),
                inner(a),
            ) by {
                pairs_are_told(context, scene, play, play.animations@[a]);
            }
            parts_offered(context, c, parts, inner);
        }
        parts_offered(context, m, items, here);
    }
    parts_offered(context, n, finder, places);
    offers_are_told(context, gather(n, finder), gather(n, places));
}

/// Whether the sizes that are known of a transform are large: a family of 32
/// or more, or 256 curves or more to insert.
pub open spec fn large_alignment(
    context: RuleContext<'_>,
    scene: SceneLifecycle,
    play: PlayFact,
    animation: PlayedAnimation,
) -> bool {
    transform_from(
        context.cost_facts.transforms@,
        scene.qualified_name@,
        play.site,
        animation.site,
        0,
    ) matches Some(fact) && (at_least(fact.family, 32) || at_least(fact.curve_delta, 256))
}

/// Whether the animation at `a` of the play at `k` of the scene at `s` exists.
pub open spec fn is_played(context: RuleContext<'_>, s: int, k: int, a: int) -> bool {
    let scenes = context.lifecycle_facts.scenes@;
    0 <= s < scenes.len() && 0 <= k < scenes[s].plays@.len() && 0 <= a
        < scenes[s].plays@[k].animations@.len()
}

/// The animation at `a` of the play at `k` of the scene at `s`.
pub open spec fn played_at(context: RuleContext<'_>, s: int, k: int, a: int) -> PlayedAnimation {
    context.lifecycle_facts.scenes@[s].plays@[k].animations@[a]
}

/// Whether that animation aligns shapes.
pub open spec fn shapes_at(context: RuleContext<'_>, s: int, k: int, a: int) -> bool {
    let scene = context.lifecycle_facts.scenes@[s];
    aligns_shapes(context, scene, scene.plays@[k], played_at(context, s, k, a))
}

/// Whether that alignment is large.
pub open spec fn large_at(context: RuleContext<'_>, s: int, k: int, a: int) -> bool {
    let scene = context.lifecycle_facts.scenes@[s];
    large_alignment(context, scene, scene.plays@[k], played_at(context, s, k, a))
}

proof fn sizes_are_told(
    context: RuleContext<'_>,
    scene: SceneLifecycle,
    play: PlayFact,
    animation: PlayedAnimation,
)
    ensures
        large_alignment(context, scene, play, animation) <==> begin_gate_met(
            sizes_of(context, scene, play, animation).0,
            sizes_of(context, scene, play, animation).1,
        ),
{
    let (family, delta) = sizes_of(context, scene, play, animation);
    gate_is_exact(family, 32);
    gate_is_exact(delta, 256);
}

proof fn begin_is_told(context: RuleContext<'_>, s: int, k: int, a: int)
    requires
        is_played(context, s, k, a),
    ensures
        ({
            let scene = context.lifecycle_facts.scenes@[s];
            let play = scene.plays@[k];
            let animation = play.animations@[a];
            match begin_candidate(context, scene, play, a) {
                Some((key, report)) => {
                    &&& shapes_at(context, s, k, a)
                    &&& key == key_of(animation.site)
                    &&& report is Some <==> large_at(context, s, k, a)
                    &&& report is Some ==> points_at(
                        context,
                        report->0,
                        animation.site.file,
                        range_of_site(animation.site),
                    )
                },
                None => !shapes_at(context, s, k, a),
            }
        }),
{
    let scene = context.lifecycle_facts.scenes@[s];
    let play = scene.plays@[k];
    pairs_are_told(context, scene, play, play.animations@[a]);
    sizes_are_told(context, scene, play, play.animations@[a]);
}

proof fn begin_comes_from(context: RuleContext<'_>, q: int) -> (w: (int, int, int))
    requires
        0 <= q < gather(context.lifecycle_facts.scenes@.len() as int, begin_finder(context)).len(),
    ensures
        is_played(context, w.0, w.1, w.2),
        begin_candidate(
            context,
            context.lifecycle_facts.scenes@[w.0],
            context.lifecycle_facts.scenes@[w.0].plays@[w.1],
            w.2,
        ) == Some(gather(context.lifecycle_facts.scenes@.len() as int, begin_finder(context))[q]),
{
    let scenes = context.lifecycle_facts.scenes@;
    let n = scenes.len() as int;
    let item = gather(n, begin_finder(context))[q];
    gathered_from(n, begin_finder(context), q);
    let s = choose|s: int| 0 <= s < n && (#[trigger] begin_finder(context)(s)).contains(item);
    let scene = scenes[s];
    let first = begin_at(context, s);
    assert(begin_finder(context)(s) == first);
    let q1 = choose|q1: int| 0 <= q1 < first.len() && first[q1] == item;
    gathered_from(scene.plays@.len() as int, begin_items(context, scene), q1);
    let k = choose|k: int|
        0 <= k < scene.plays@.len() && (#[trigger] begin_items(context, scene)(k)).contains(item);
    let play = scene.plays@[k];
    let second = begin_of(context, scene, k);
    assert(begin_items(context, scene)(k) == second);
    let q2 = choose|q2: int| 0 <= q2 < second.len() && second[q2] == item;
    gathered_from(play.animations@.len() as int, begins_parts(context, scene, play), q2);
    let a = choose|a: int|
        0 <= a < play.animations@.len() && (#[trigger] begins_parts(context, scene, play)(
            a,
        )).contains(item);
    let third = begins_parts(context, scene, play)(a);
    assert(third == found(begin_candidate(context, scene, play, a)));
    (s, k, a)
}

/// A large alignment of shapes is reported, when every other that is written
/// at the same site is large too.
pub proof fn large_alignments_are_reported(context: RuleContext<'_>, s: int, k: int, a: int)
    requires
        is_played(context, s, k, a),
        shapes_at(context, s, k, a),
        forall|t: int, l: int, b: int|
            is_played(context, t, l, b) && played_at(context, t, l, b).site == played_at(
                context,
                s,
                k,
                a,
            ).site && #[trigger] shapes_at(context, t, l, b) ==> large_at(context, t, l, b),
    ensures
        reported_at(
            context,
            MismatchedTransformBegin.findings(context),
            played_at(context, s, k, a).site.file,
            range_of_site(played_at(context, s, k, a).site),
        ),
{
    let scenes = context.lifecycle_facts.scenes@;
    let n = scenes.len() as int;
    let scene = scenes[s];
    let play = scene.plays@[k];
    let site = play.animations@[a].site;
    begin_is_told(context, s, k, a);
    let item = begin_candidate(context, scene, play, a)->0;
    let part = begins_parts(context, scene, play)(a);
    assert(part == found(begin_candidate(context, scene, play, a)));
    assert(part[0] == item);
    gathered_in(play.animations@.len() as int, begins_parts(context, scene, play), a, item);
    assert(begin_items(context, scene)(k) == begin_of(context, scene, k));
    gathered_in(scene.plays@.len() as int, begin_items(context, scene), k, item);
    assert(begin_finder(context)(s) == begin_at(context, s));
    gathered_in(n, begin_finder(context), s, item);
    let list = gather(n, begin_finder(context));
    let p = choose|p: int| 0 <= p < list.len() && list[p] == item;
    assert forall|q: int| 0 <= q < list.len() && (#[trigger] list[q]).0 == list[p].0 implies
        list[q].1 is Some && points_at(context, list[q].1->0, site.file, range_of_site(site)) by {
        let w = begin_comes_from(context, q);
        begin_is_told(context, w.0, w.1, w.2);
        assert(shapes_at(context, w.0, w.1, w.2));
        assert(key_of(played_at(context, w.0, w.1, w.2).site).first == key_of(site).first);
    }
    candidate_is_reported(context, list, p, site.file, range_of_site(site));
}

/// Every report on the begin cost of a transform is about a large alignment of
/// shapes.
pub proof fn only_large_alignments_are_reported(context: RuleContext<'_>, k: int) -> (w: (
    int,
    int,
    int,
))
    requires
        0 <= k < MismatchedTransformBegin.findings(context).len(),
    ensures
        is_played(context, w.0, w.1, w.2),
        shapes_at(context, w.0, w.1, w.2),
        large_at(context, w.0, w.1, w.2),
        points_at(
            context,
            MismatchedTransformBegin.findings(context)[k],
            played_at(context, w.0, w.1, w.2).site.file,
            range_of_site(played_at(context, w.0, w.1, w.2).site),
        ),
{
    let list = gather(context.lifecycle_facts.scenes@.len() as int, begin_finder(context));
    kept_from_candidates(list, k);
    let entry = kept_entries(list)[k];
    let q = choose|q: int| 0 <= q < list.len() && list[q] == (entry.0, Some(entry.1));
    let w = begin_comes_from(context, q);
    begin_is_told(context, w.0, w.1, w.2);
    w
}

/// Whether an updater of an object may stay while a wait is otherwise still:
/// one that takes no time, or the one that is looked at, on its own host.
pub open spec fn allowed(
    heap: Heap,
    registration: UpdaterRegistration,
    entry: HeapEntry,
    updater: UpdaterFact,
) -> bool {
    updater.time_based == Truth::No || (updater.time_based == Truth::Yes && same_updater(
        updater,
        registration.fact,
    ) && entry.state.family_membership == Presence::Present && (
    registration.host matches UpdaterHost::Mobject(host) && heap.spec_resolve(host)
        == heap.spec_resolve(entry.id)))
}

/// Whether an updater is the only thing on a heap that can change a frame.
pub open spec fn alone_on(
    profile: KnowledgeProfile,
    heap: Heap,
    state: SceneState,
    registration: UpdaterRegistration,
) -> bool {
    &&& forall|o: int|
        0 <= o < heap.objects@.len() && (#[trigger] heap.objects@[o]).state.family_membership
            != Presence::Absent ==> passive(profile, heap.objects@[o].state.kind) && forall|u: int|
            0 <= u < heap.objects@[o].state.updaters@.len() ==> allowed(
                heap,
                registration,
                heap.objects@[o],
                #[trigger] heap.objects@[o].state.updaters@[u],
            )
    &&& match registration.host {
        UpdaterHost::Scene => state.scene_updaters@.len() == 1 && holds_updater(
            state.scene_updaters@,
            registration.fact,
        ),
        UpdaterHost::Mobject(_) => state.scene_updaters@.len() == 0 && exists|o: int, u: int|
            0 <= o < heap.objects@.len() && heap.objects@[o].state.family_membership
                != Presence::Absent && 0 <= u < heap.objects@[o].state.updaters@.len() && (
            #[trigger] heap.objects@[o].state.updaters@[u]).time_based != Truth::No,
    }
}

/// Whether an updater is the only reason that a certain wait is rendered frame
/// by frame.
pub open spec fn keeps_alive(
    profile: KnowledgeProfile,
    scene: SceneLifecycle,
    play: PlayFact,
    registration: UpdaterRegistration,
) -> bool {
    &&& play.kind == PlayKind::Wait
    &&& play.certainty == Presence::Present
    &&& play.dynamic_wait == Truth::Yes
    &&& play.always_update_mobjects == Truth::No
    &&& !play.has_stop_condition
    &&& registration.certainty == Presence::Present
    &&& registration.site.file == play.site.file
    &&& registration.site.end <= play.site.start
    &&& scene.spec_state_at(play.site.file, play.site.start) matches Some(snapshot)
        && snapshot.heap.spec_scene(scene.scene_id) matches Some(state) && alone_on(
        profile,
        snapshot.heap,
        state,
        registration,
    )
}

proof fn aloneness_is_told(
    profile: KnowledgeProfile,
    heap: Heap,
    state: SceneState,
    registration: UpdaterRegistration,
)
    ensures
        alone_on(profile, heap, state, registration) <==> sole_in_heap(
            profile,
            heap,
            state,
            registration,
        ),
{
    let objects = heap.objects@;
    assert forall|o: int| 0 <= o < objects.len() implies (passive(
        profile,
        (#[trigger] objects[o]).state.kind,
    ) <==> inert_kind(profile, objects[o].state.kind)) by {
        passivity_is_told(profile, objects[o].state.kind);
    }
    assert forall|o: int, u: int|
        0 <= o < objects.len() && 0 <= u < objects[o].state.updaters@.len() implies (allowed(
        heap,
        registration,
        objects[o],
        #[trigger] objects[o].state.updaters@[u],
    ) <==> tolerated(heap, registration, objects[o], objects[o].state.updaters@[u])) by {}
    if sole_in_heap(profile, heap, state, registration) {
        assert forall|o: int|
            0 <= o < objects.len() && (#[trigger] objects[o]).state.family_membership
                != Presence::Absent implies passive(profile, objects[o].state.kind) && forall|
            u: int,
        |
            0 <= u < objects[o].state.updaters@.len() ==> allowed(
                heap,
                registration,
                objects[o],
                #[trigger] objects[o].state.updaters@[u],
            ) by {
            assert(sole_entry(profile, heap, registration, objects[o]));
        }
        if registration.host is Mobject {
            let o = choose|o: int| 0 <= o < objects.len() && ticking(#[trigger] objects[o]);
            let u = choose|u: int|
                0 <= u < objects[o].state.updaters@.len() && (
                #[trigger] objects[o].state.updaters@[u]).time_based != Truth::No;
            assert(objects[o].state.updaters@[u].time_based != Truth::No);
        }
    }
    if alone_on(profile, heap, state, registration) {
        assert forall|o: int| 0 <= o < objects.len() implies sole_entry(
            profile,
            heap,
            registration,
            #[trigger] objects[o],
        ) by {}
        if registration.host is Mobject {
            let (o, u) = choose|o: int, u: int|
                0 <= o < objects.len() && objects[o].state.family_membership != Presence::Absent
                    && 0 <= u < objects[o].state.updaters@.len() && (
                #[trigger] objects[o].state.updaters@[u]).time_based != Truth::No;
            assert(ticking(objects[o]));
        }
    }
}

proof fn cause_is_told(
    profile: KnowledgeProfile,
    scene: SceneLifecycle,
    play: PlayFact,
    registration: UpdaterRegistration,
)
    ensures
        keeps_alive(profile, scene, play, registration) <==> sole_cause(
            profile,
            scene,
            play,
            registration,
        ),
{
    match scene.spec_state_at(play.site.file, play.site.start) {
        Some(snapshot) => match snapshot.heap.spec_scene(scene.scene_id) {
            Some(state) => aloneness_is_told(profile, snapshot.heap, state, registration),
            None => {},
        },
        None => {},
    }
}

/// The waits that an invariant updater keeps rendering.
pub open spec fn same_frame_owed(context: RuleContext<'_>, s: int, k: int) -> Seq<Place> {
    let scene = context.lifecycle_facts.scenes@[s];
    let registration = scene.updaters@[k];
    if context.knowledge is Some && !scene.constructor_state_unknown && invariant_updater(
        context,
        registration,
    ) {
        gather(
            scene.plays@.len() as int,
            |p: int|
                site_owed(
                    keeps_alive(
                        *context.knowledge->0,
                        scene,
                        scene.plays@[p],
                        registration,
                    ),
                    scene.plays@[p].site,
                ),
        )
    } else {
        Seq::empty()
    }
}

/// Every wait that only an updater which sets the same state again keeps
/// rendering is reported, and nothing else is.
pub proof fn invariant_waits_are_reported(context: RuleContext<'_>)
    ensures
        stand_at(
            context,
            FrameInvariantDynamicWait.findings(context),
            gather(
                context.lifecycle_facts.scenes@.len() as int,
                |s: int|
                    gather(
                        context.lifecycle_facts.scenes@[s].updaters@.len() as int,
                        |k: int| same_frame_owed(context, s, k),
                    ),
            ),
        ),
{
    let scenes = context.lifecycle_facts.scenes@;
    let n = scenes.len() as int;
    let finder = same_frame_finder(context);
    let places = |s: int|
        gather(scenes[s].updaters@.len() as int, |k: int| same_frame_owed(context, s, k));
    assert forall|s: int| 0 <= s < n implies stand_at(
        context,
        #[trigger] finder(s),
        places(s),
    ) by {
        let scene = scenes[s];
        let m = scene.updaters@.len() as int;
        let items = same_frame_items(context, scene);
        assert(finder(s) == same_frame_at(context, s));
        assert(same_frame_at(context, s) == gather(m, items));
        let here = |k: int| same_frame_owed(context, s, k);
        assert forall|k: int| 0 <= k < m implies stand_at(
            context,
            #[trigger] items(k),
            here(k),
        ) by {
            assert(items(k) == same_frame_of(context, scene, k));
            let registration = scene.updaters@[k];
            match context.knowledge {
                Some(profile) => {
                    let c = scene.plays@.len() as int;
                    let parts = invariant_waits_parts(context, *profile, scene, registration);
                    let inner = |p: int|
                        site_owed(
                            keeps_alive(*profile, scene, scene.plays@[p], registration),
                            scene.plays@[p].site,
                        );
                    assert forall|p: int| 0 <= p < c implies stand_at(
                        context,
                        #[trigger] parts(p),
                        inner(p),
                    ) by {
                        cause_is_told(*profile, scene, scene.plays@[p], registration);
                    }
                    parts_stand(context, c, parts, inner);
                },
                None => {},
            }
        }
        parts_stand(context, m, items, here);
    }
    parts_stand(context, n, finder, places);
}

proof fn picking_is_told(n: int, test: spec_fn(int) -> bool)
    ensures
        picked(n, test).len() > 0 <==> exists|p: int| 0 <= p < n && #[trigger] test(p),
    decreases n,
{
    if n > 0 {
        picking_is_told(n - 1, test);
        if exists|p: int| 0 <= p < n && #[trigger] test(p) {
            let p = choose|p: int| 0 <= p < n && #[trigger] test(p);
            if p < n - 1 {
                assert(test(p));
            }
        }
        if test(n - 1) {
            assert(exists|p: int| 0 <= p < n && #[trigger] test(p));
        }
    }
}

proof fn waits_are_told(
    profile: KnowledgeProfile,
    scene: SceneLifecycle,
    registration: UpdaterRegistration,
)
    ensures
        waits_of(profile, scene, registration).len() > 0 <==> exists|p: int|
            0 <= p < scene.plays@.len() && keeps_alive(
                profile,
                scene,
                #[trigger] scene.plays@[p],
                registration,
            ),
{
    let test = |p: int| sole_cause(profile, scene, scene.plays@[p], registration);
    let n = scene.plays@.len() as int;
    picking_is_told(n, test);
    assert forall|p: int| 0 <= p < n implies (keeps_alive(
        profile,
        scene,
        #[trigger] scene.plays@[p],
        registration,
    ) <==> test(p)) by {
        cause_is_told(profile, scene, scene.plays@[p], registration);
    }
    if waits_of(profile, scene, registration).len() > 0 {
        let p = choose|p: int| 0 <= p < n && #[trigger] test(p);
        assert(keeps_alive(profile, scene, scene.plays@[p], registration));
    }
    if exists|p: int|
        0 <= p < n && keeps_alive(profile, scene, #[trigger] scene.plays@[p], registration) {
        let p = choose|p: int|
            0 <= p < n && keeps_alive(profile, scene, #[trigger] scene.plays@[p], registration);
        assert(test(p));
    }
}

/// An updater that does nothing and costs something.
pub open spec fn no_op_owed(context: RuleContext<'_>, s: int, k: int) -> Seq<Place> {
    let scene = context.lifecycle_facts.scenes@[s];
    let registration = scene.updaters@[k];
    site_owed(
        context.knowledge is Some && !scene.constructor_state_unknown && registration.certainty
            == Presence::Present && registration.body.mutates_target == Truth::No
            && registration.body.calls_unknown == Truth::No
            && registration.body.pure_affine_on_target == Truth::Yes && (legs_of(
            scene,
            registration,
        ).len() > 0 || exists|p: int|
            0 <= p < scene.plays@.len() && keeps_alive(
                *context.knowledge->0,
                scene,
                #[trigger] scene.plays@[p],
                registration,
            )),
        registration.site,
    )
}

/// A certain updater that does nothing is reported when it alone keeps a wait
/// rendering or makes its host move; nothing else is.
pub proof fn idle_updaters_are_reported(context: RuleContext<'_>)
    ensures
        stand_at(
            context,
            NoOpUpdaterCost.findings(context),
            gather(
                context.lifecycle_facts.scenes@.len() as int,
                |s: int|
                    gather(
                        context.lifecycle_facts.scenes@[s].updaters@.len() as int,
                        |k: int| no_op_owed(context, s, k),
                    ),
            ),
        ),
{
    let scenes = context.lifecycle_facts.scenes@;
    let n = scenes.len() as int;
    let finder = no_op_finder(context);
    let places = |s: int|
        gather(scenes[s].updaters@.len() as int, |k: int| no_op_owed(context, s, k));
    assert forall|s: int| 0 <= s < n implies stand_at(
        context,
        #[trigger] finder(s),
        places(s),
    ) by {
        let scene = scenes[s];
        let m = scene.updaters@.len() as int;
        let items = no_op_items(context, scene);
        assert(finder(s) == no_op_at(context, s));
        assert(no_op_at(context, s) == gather(m, items));
        let here = |k: int| no_op_owed(context, s, k);
        assert forall|k: int| 0 <= k < m implies stand_at(
            context,
            #[trigger] items(k),
            here(k),
        ) by {
            assert(items(k) == found(no_op_of(context, scene, k)));
            let registration = scene.updaters@[k];
            match context.knowledge {
                Some(profile) => waits_are_told(*profile, scene, registration),
                None => {},
            }
        }
        parts_stand(context, m, items, here);
    }
    parts_stand(context, n, finder, places);
}

/// An updater that runs for long.
pub open spec fn live_owed(context: RuleContext<'_>, s: int, k: int) -> Seq<Place> {
    let scene = context.lifecycle_facts.scenes@[s];
    let registration = scene.updaters@[k];
    site_owed(
        !scene.constructor_state_unknown && registration.certainty == Presence::Present && (
        live_positions(scene, registration) matches Some(positions) && positions.len() >= 3
            && not_below(sum_of(context, scene, positions, PlayQuantity::Seconds), 5)),
        registration.site,
    )
}

/// A certain updater that is known to run in three plays or more, for five
/// seconds or more, is reported, and nothing else is.
pub proof fn long_lived_updaters_are_reported(context: RuleContext<'_>)
    ensures
        stand_at(
            context,
            LongLivedUpdater.findings(context),
            gather(
                context.lifecycle_facts.scenes@.len() as int,
                |s: int|
                    gather(
                        context.lifecycle_facts.scenes@[s].updaters@.len() as int,
                        |k: int| live_owed(context, s, k),
                    ),
            ),
        ),
{
    let scenes = context.lifecycle_facts.scenes@;
    let n = scenes.len() as int;
    let finder = live_finder(context);
    let places = |s: int|
        gather(scenes[s].updaters@.len() as int, |k: int| live_owed(context, s, k));
    assert forall|s: int| 0 <= s < n implies stand_at(
        context,
        #[trigger] finder(s),
        places(s),
    ) by {
        let scene = scenes[s];
        let m = scene.updaters@.len() as int;
        let items = live_items(context, scene);
        assert(finder(s) == live_at(context, s));
        assert(live_at(context, s) == gather(m, items));
        let here = |k: int| live_owed(context, s, k);
        assert forall|k: int| 0 <= k < m implies stand_at(
            context,
            #[trigger] items(k),
            here(k),
        ) by {
            assert(items(k) == found(live_of(context, scene, k)));
            match live_positions(scene, scene.updaters@[k]) {
                Some(positions) => bound_is_exact(
                    sum_of(context, scene, positions, PlayQuantity::Seconds),
                    5,
                ),
                None => {},
            }
        }
        parts_stand(context, m, items, here);
    }
    parts_stand(context, n, finder, places);
}

/// How many faces a resolution asks for: a number squared, or the product of
/// two.
pub open spec fn faces_asked(literal: LiteralFact, faces: int) -> bool {
    match literal {
        LiteralFact::Int(n) => n > 0 && faces == n * n,
        LiteralFact::Tuple(sides) => sides@.len() == 2 && (sides@[0] matches LiteralFact::Int(a) && a
            > 0 && (sides@[1] matches LiteralFact::Int(b) && b > 0 && faces == a * b)),
        LiteralFact::List(sides) => sides@.len() == 2 && (sides@[0] matches LiteralFact::Int(a) && a
            > 0 && (sides@[1] matches LiteralFact::Int(b) && b > 0 && faces == a * b)),
        _ => false,
    }
}

/// Whether a resolution asks for 1024 faces or more, as many as can be counted.
pub open spec fn asks_for_many(literal: LiteralFact) -> bool {
    exists|faces: int| #[trigger] faces_asked(literal, faces) && 1024 <= faces <= i64::MAX
}

/// Whether a call asks for 1024 faces or more, as many as can be counted: by
/// `resolution`, or as its fourth argument.
pub open spec fn many_faces(call: QualifiedCall) -> bool {
    &&& !call.has_star_args
    &&& !call.has_star_star_kwargs
    &&& match (
        match call.spec_keyword("resolution"@) {
            Some(argument) => Some(argument),
            None => if call.positional_count > 3 && call.arguments@.len() > 3 {
                Some(call.arguments@[3])
            } else {
                None
            },
        }
    ) {
        Some(argument) => argument.literal matches Some(literal) && asks_for_many(literal),
        None => false,
    }
}

proof fn product_is_told(literal: LiteralFact, faces: int)
    ensures
        faces_asked(literal, faces) && faces <= i64::MAX <==> literal_faces(literal) == Some(faces),
{
    match literal {
        LiteralFact::Int(n) => {
            assert(face_product(literal, literal) == Some(n * n) || n <= 0 || n * n > i64::MAX);
        },
        LiteralFact::Tuple(sides) => {
            assert(literal_faces(literal) == side_faces(sides@));
        },
        LiteralFact::List(sides) => {
            assert(literal_faces(literal) == side_faces(sides@));
        },
        _ => {},
    }
}

proof fn faces_are_told(call: QualifiedCall)
    ensures
        many_faces(call) <==> (faces_of(call) matches Some(faces) && 1024 <= faces <= i64::MAX),
        faces_of(call) matches Some(faces) ==> faces <= i64::MAX,
{
    match (
        match call.spec_keyword("resolution"@) {
            Some(argument) => Some(argument),
            None => call.spec_positional(3),
        }
    ) {
        Some(argument) => match argument.literal {
            Some(literal) => {
                assert forall|faces: int|
                    (#[trigger] faces_asked(literal, faces) && faces <= i64::MAX) <==> literal_faces(
                        literal,
                    ) == Some(faces) by {
                    product_is_told(literal, faces);
                }
                match literal_faces(literal) {
                    Some(faces) => {
                        assert(faces_asked(literal, faces));
                    },
                    None => {},
                }
            },
            None => {},
        },
        None => {},
    }
}

/// Whether an object is certainly of this class.
pub open spec fn certainly_of(kind: KindSet, id: Seq<char>) -> bool {
    kind matches KindSet::Known(kinds) && kinds@.len() > 0 && forall|c: int|
        0 <= c < kinds@.len() ==> (#[trigger] kinds@[c])@ == id
}

/// Whether a certain play animates this single object.
pub open spec fn animated_in(play: PlayFact, object: ObjectId) -> bool {
    &&& play.kind == PlayKind::Play
    &&& play.certainty == Presence::Present
    &&& exists|a: int|
        0 <= a < play.animations@.len() && (#[trigger] play.animations@[a]).convertible == Truth::Yes
            && (play.animations@[a].state matches Some(state) && state.targets@.contains(object))
}

/// A call that makes a surface of many faces, for each scene that animates it.
pub open spec fn surface_scene_owed(
    context: RuleContext<'_>,
    call: QualifiedCall,
    s: int,
) -> Seq<Place> {
    let scene = context.lifecycle_facts.scenes@[s];
    let object = ObjectId {
        site: AllocationSite {
            file: call.file,
            start: call.call_range.start,
            end: call.call_range.end,
        },
        cardinality: Cardinality::Singleton,
    };
    owed(
        (scene.final_heap.spec_object(object) matches Some(state) && certainly_of(
            state.kind,
            "manim.mobject.three_d.three_dimensions.Surface"@,
        )) && exists|p: int|
            0 <= p < scene.plays@.len() && animated_in(#[trigger] scene.plays@[p], object),
        call.file,
        call.call_range,
    )
}

proof fn animation_is_told(play: PlayFact, object: ObjectId)
    requires
        object.cardinality == Cardinality::Singleton,
    ensures
        animated_in(play, object) <==> direct_target(play, object),
{
    assert forall|a: int| 0 <= a < play.animations@.len() implies (animates(
        #[trigger] play.animations@[a],
        object,
    ) <==> play.animations@[a].convertible == Truth::Yes && (
    play.animations@[a].state matches Some(state) && state.targets@.contains(object))) by {
        match play.animations@[a].state {
            Some(state) => {
                if state.targets@.contains(object) {
                    let t = choose|t: int|
                        0 <= t < state.targets@.len() && state.targets@[t] == object;
                    assert(state.targets@[t].same(object));
                }
            },
            None => {},
        }
    }
}

proof fn surface_scene_is_told(context: RuleContext<'_>, call: QualifiedCall, faces: i64, s: int)
    ensures
        stand_at(
            context,
            found(surface_in_scene(context, call, faces, s)),
            surface_scene_owed(context, call, s),
        ),
{
    let scene = context.lifecycle_facts.scenes@[s];
    let object = ObjectId { site: call.site(), cardinality: Cardinality::Singleton };
    let test = |p: int| direct_target(scene.plays@[p], object);
    let n = scene.plays@.len() as int;
    picking_is_told(n, test);
    assert forall|p: int| 0 <= p < n implies (animated_in(#[trigger] scene.plays@[p], object)
        <==> test(p)) by {
        animation_is_told(scene.plays@[p], object);
    }
    if surface_positions(scene, object).len() > 0 {
        let p = choose|p: int| 0 <= p < n && #[trigger] test(p);
        assert(animated_in(scene.plays@[p], object));
    }
    if exists|p: int| 0 <= p < n && animated_in(#[trigger] scene.plays@[p], object) {
        let p = choose|p: int| 0 <= p < n && animated_in(#[trigger] scene.plays@[p], object);
        assert(test(p));
    }
}

/// A surface of many faces, for each scene that animates it.
pub open spec fn surface_owed(context: RuleContext<'_>, i: int) -> Seq<Place> {
    let call = context.qualified_calls.calls@[i];
    if with_cairo(context.config.active_profiles@) && may_only_reach(
        context,
        call,
        "manim.mobject.three_d.three_dimensions.Surface"@,
    ) && many_faces(call) {
        gather(
            context.lifecycle_facts.scenes@.len() as int,
            |s: int| surface_scene_owed(context, call, s),
        )
    } else {
        Seq::empty()
    }
}

/// Under Cairo, a surface of 1024 faces or more is reported once for each scene
/// that animates it, and nothing else is.
pub proof fn heavy_surfaces_are_reported(context: RuleContext<'_>)
    ensures
        stand_at(
            context,
            CairoSurfaceMismatch.findings(context),
            gather(
                context.qualified_calls.calls@.len() as int,
                |i: int| surface_owed(context, i),
            ),
        ),
{
    let finder = surface_finder(context);
    let places = |i: int| surface_owed(context, i);
    let n = context.qualified_calls.calls@.len() as int;
    assert forall|i: int| 0 <= i < n implies stand_at(
        context,
        #[trigger] finder(i),
        places(i),
    ) by {
        let call = context.qualified_calls.calls@[i];
        assert(finder(i) == surface_at(context, i));
        cairo_is_told(context.config.active_profiles@);
        faces_are_told(call);
        if context.knowledge is Some {
            goal_is_exact(context, call, "manim.mobject.three_d.three_dimensions.Surface"@);
            match faces_of(call) {
                Some(faces) => {
                    gate_is_exact(Num::Exact(NumLit::Int(faces as i64)), 1024);
                    let m = context.lifecycle_facts.scenes@.len() as int;
                    let inner = surface_scenes_parts(context, call, faces as i64);
                    let here = |s: int| surface_scene_owed(context, call, s);
                    assert forall|s: int| 0 <= s < m implies stand_at(
                        context,
                        #[trigger] inner(s),
                        here(s),
                    ) by {
                        surface_scene_is_told(context, call, faces as i64, s);
                    }
                    parts_stand(context, m, inner, here);
                },
                None => {},
            }
        }
    }
    parts_stand(context, n, finder, places);
}

} // verus!
