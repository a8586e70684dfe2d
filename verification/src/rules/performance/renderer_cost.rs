//! Renderer and pixel-cost rules: `MLP212`, `MLP213`, and `MLP223`.
//!
//! The three rules share a narrow proof boundary: a run-time object must
//! have singleton allocation identity, a certain play must target it
//! directly, and every numeric claim comes from a literal, a lifecycle
//! snapshot, a render profile, or a gate. Unknown style, target identity,
//! duration, renderer, or future opacity mutation keeps the corresponding
//! rule silent.
use super::frame_scope::{frames_at_play, play_frames, snapshot_before};
use super::support::{goal_of, locate_plays, play_locations, targets};
use super::sums::{add_up, best_sum, sum_of, PlayQuantity};
use crate::config::{cairo_names, RenderProfile};
use crate::diagnostic::{
    push_all, push_found, report_of, reports, Confidence, Diagnostic, DiagnosticView, MetadataView,
    RuleMetadata, Severity,
};
use crate::frontend::{first_index_at, LiteralFact, QualifiedCall};
use crate::json::{
    bounds_view, double_view, json_double, json_items, json_list, json_object3, json_text,
    num_bounds_json, Evidence, EvidenceView, Json, JsonView,
};
use crate::numbers::{
    at_most, below, display_frames, display_seconds, frames_text, magnitude, real_at_most,
    real_below, seconds_text, Bound, Num, NumLit, ONE, Real, SIGN,
};
use crate::rules::base::{
    add_related, basic_report, build_diagnostic, profiled_report, related_at, related_site,
    with_related, Rule, RuleContext,
};
use crate::rules::dedupe::{
    candidate_view, candidate_views, keep_first, kept, key_of, offer_all, offer_found, pair_key,
    site_key, site_pair, Candidate, CandidateView,
};
use crate::semantic::{
    any_definitely_same, has_channel, targets_same, Cardinality, Event, HeapEntry, KindSet,
    MobjectState, MutationKind, ObjectId, PlayFact, PlayKind, PlayedAnimation, Presence,
    SceneLifecycle, TracedEvent, Truth, WriteChannel,
};
use crate::source::AllocationSite;
use crate::text::{
    cat5, cat7, found, gather, picked, picked_pass, same_text, signed_decimal, signed_numeral,
};
use crate::thresholds::{
    cairo_surface_face_gate, full_screen_translucent_seconds_gate, CAIRO_SURFACE_FACE_GATE,
    FULL_SCREEN_TRANSLUCENT_SECONDS_GATE,
};
use vstd::prelude::*;

verus! {

/// Canonical id of the `FullScreenRectangle` class.
pub const FULL_SCREEN_RECTANGLE: &'static str = "manim.mobject.frame.FullScreenRectangle";

/// Canonical id of the `Surface` class.
pub const SURFACE: &'static str = "manim.mobject.three_d.three_dimensions.Surface";

/// Whether every class of a list is `canonical`.
pub open spec fn all_named(candidates: Seq<String>, canonical: Seq<char>) -> bool {
    forall|i: int| 0 <= i < candidates.len() ==> (#[trigger] candidates[i])@ == canonical
}

/// Whether the object is an instance of `canonical` beyond doubt.
pub open spec fn definite_kind(kind: KindSet, canonical: Seq<char>) -> bool {
    match kind {
        KindSet::Known(candidates) => candidates@.len() > 0 && all_named(candidates@, canonical),
        KindSet::Unknown => false,
    }
}

fn is_all_named(candidates: &Vec<String>, canonical: &str) -> (all: bool)
    ensures
        all == all_named(candidates@, canonical@),
{
    let mut i: usize = 0;
    while i < candidates.len()
        invariant
            i <= candidates@.len(),
            forall|j: int| 0 <= j < i ==> (#[trigger] candidates@[j])@ == canonical@,
        decreases candidates@.len() - i,
    {
        if !same_text(candidates[i].as_str(), canonical) {
            return false;
        }
        i += 1;
    }
    true
}

pub fn definitely_kind(kind: &KindSet, canonical: &str) -> (definite: bool)
    ensures
        definite == definite_kind(*kind, canonical@),
{
    match kind {
        KindSet::Known(candidates) => candidates.len() > 0 && is_all_named(candidates, canonical),
        KindSet::Unknown => false,
    }
}

/// The value of an exactly known number.
pub open spec fn exact_bound(value: Num) -> Option<Bound<'static>> {
    match value {
        Num::Exact(NumLit::Int(n)) => Some(Bound::Whole(n)),
        Num::Exact(NumLit::Float(real_value)) => Some(Bound::Real(&real_value)),
        _ => None,
    }
}

fn exact_value(value: &Num) -> (exact: Option<Bound<'_>>)
    ensures
        exact == exact_bound(*value),
{
    match value {
        Num::Exact(NumLit::Int(n)) => Some(Bound::Whole(*n)),
        Num::Exact(NumLit::Float(real_value)) => Some(Bound::Real(real_value)),
        _ => None,
    }
}

/// Whether no object of the list has an updater.
pub open spec fn none_updating(objects: Seq<HeapEntry>) -> bool {
    forall|i: int| 0 <= i < objects.len() ==> (#[trigger] objects[i]).state.updaters@.len() == 0
}

/// Whether nothing updates in the state before a play.
pub open spec fn no_updaters_before(scene: SceneLifecycle, play: PlayFact) -> bool {
    match scene.spec_state_at(play.site.file, play.site.start) {
        Some(snapshot) => none_updating(snapshot.heap.objects@) && match snapshot.heap.spec_scene(
            scene.scene_id,
        ) {
            Some(state) => state.scene_updaters@.len() == 0,
            None => false,
        },
        None => false,
    }
}

fn is_none_updating(objects: &Vec<HeapEntry>) -> (none: bool)
    ensures
        none == none_updating(objects@),
{
    let mut i: usize = 0;
    while i < objects.len()
        invariant
            i <= objects@.len(),
            forall|j: int| 0 <= j < i ==> (#[trigger] objects@[j]).state.updaters@.len() == 0,
        decreases objects@.len() - i,
    {
        if objects[i].state.updaters.len() != 0 {
            return false;
        }
        i += 1;
    }
    true
}

fn no_active_updaters(scene: &SceneLifecycle, play: &PlayFact) -> (none: bool)
    ensures
        none == no_updaters_before(*scene, *play),
{
    match snapshot_before(scene, play) {
        Some(snapshot) => is_none_updating(&snapshot.heap.objects) && match snapshot.heap.scene(
            scene.scene_id,
        ) {
            Some(state) => state.scene_updaters.len() == 0,
            None => false,
        },
        None => false,
    }
}

/// Whether some target possibly but not certainly is the object.
pub open spec fn unsure_target(list: Seq<ObjectId>, object: ObjectId) -> bool {
    exists|i: int|
        0 <= i < list.len() && (#[trigger] list[i]).maybe_same(object) == Truth::Maybe
}

fn any_unsure_target(list: &Vec<ObjectId>, object: &ObjectId) -> (unsure: bool)
    ensures
        unsure == unsure_target(list@, *object),
{
    let mut i: usize = 0;
    while i < list.len()
        invariant
            i <= list@.len(),
            forall|j: int|
                0 <= j < i ==> (#[trigger] list@[j]).maybe_same(*object) != Truth::Maybe,
        decreases list@.len() - i,
    {
        if list[i].may_be_same(object) == Truth::Maybe {
            return true;
        }
        i += 1;
    }
    false
}

/// What an animation does with an object: `Some(true)` when it targets the
/// object without writing its style, `Some(false)` when it does not target
/// it, `None` when a write of its style cannot be excluded.
pub open spec fn steady(animation: PlayedAnimation, object: ObjectId) -> Option<bool> {
    match animation.state {
        Some(state) => if animation.convertible != Truth::Yes || unsure_target(
            state.targets@,
            object,
        ) {
            None
        } else if !targets_same(state.targets@, object) {
            Some(false)
        } else if animation.channels_known != Truth::Yes || state.write_channels@.contains(
            WriteChannel::Style,
        ) || state.write_channels@.contains(WriteChannel::Opacity) {
            None
        } else {
            Some(true)
        },
        None => None,
    }
}

fn is_steady(animation: &PlayedAnimation, object: &ObjectId) -> (found: Option<bool>)
    ensures
        found == steady(*animation, *object),
{
    let state = match &animation.state {
        Some(state) => state,
        None => {
            return None;
        },
    };
    if animation.convertible != Truth::Yes || any_unsure_target(&state.targets, object) {
        return None;
    }
    if !any_definitely_same(&state.targets, object) {
        return Some(false);
    }
    if animation.channels_known != Truth::Yes || has_channel(
        &state.write_channels,
        WriteChannel::Style,
    ) || has_channel(&state.write_channels, WriteChannel::Opacity) {
        return None;
    }
    Some(true)
}

/// Whether no animation of a list can write the style of an object.
pub open spec fn all_steady(animations: Seq<PlayedAnimation>, object: ObjectId) -> bool {
    forall|i: int| 0 <= i < animations.len() ==> steady(#[trigger] animations[i], object) is Some
}

fn is_all_steady(animations: &Vec<PlayedAnimation>, object: &ObjectId) -> (all: bool)
    ensures
        all == all_steady(animations@, *object),
{
    let mut i: usize = 0;
    while i < animations.len()
        invariant
            i <= animations@.len(),
            forall|j: int| 0 <= j < i ==> steady(#[trigger] animations@[j], *object) is Some,
        decreases animations@.len() - i,
    {
        if is_steady(&animations[i], object).is_none() {
            return false;
        }
        i += 1;
    }
    true
}

/// The first animation that targets the object, from position `i` on.
pub open spec fn first_target_from(animations: Seq<PlayedAnimation>, object: ObjectId, i: int) -> Option<
    int,
>
    decreases animations.len() - i,
{
    if i < 0 || i >= animations.len() {
        None
    } else if steady(animations[i], object) == Some(true) {
        Some(i)
    } else {
        first_target_from(animations, object, i + 1)
    }
}

/// The first animation of a certain play that targets the object, when no
/// argument of the play can write the style of the object.
pub open spec fn stable_target(play: PlayFact, object: ObjectId) -> Option<int> {
    if play.kind == PlayKind::Play && play.certainty == Presence::Present && !play.star_args
        && all_steady(play.animations@, object) {
        first_target_from(play.animations@, object, 0)
    } else {
        None
    }
}

/// The first definite animation argument of `play` that targets `object`.
/// Any unresolved sibling argument makes a style-stability proof
/// impossible: it could target the same object and write opacity.
fn stable_target_animation(play: &PlayFact, object: &ObjectId) -> (first: Option<usize>)
    ensures
        match first {
            Some(k) => k < play.animations@.len() && stable_target(*play, *object) == Some(
                k as int,
            ),
            None => stable_target(*play, *object) is None,
        },
{
    if play.kind != PlayKind::Play || play.certainty != Presence::Present || play.star_args
        || !is_all_steady(&play.animations, object) {
        return None;
    }
    let mut i: usize = 0;
    while i < play.animations.len()
        invariant
            i <= play.animations@.len(),
            stable_target(*play, *object) == first_target_from(
                play.animations@,
                *object,
                i as int,
            ),
        decreases play.animations@.len() - i,
    {
        match is_steady(&play.animations[i], object) {
            Some(true) => {
                return Some(i);
            },
            _ => {},
        }
        i += 1;
    }
    None
}

// ---------------------------------------------------------------------------
// MLP212: long animation of a translucent full-screen layer.
// ---------------------------------------------------------------------------

/// What [`MLP212`] declares.
pub open spec fn mlp212() -> MetadataView {
    MetadataView {
        id: "MLP212"@,
        summary: "Long animation of a full-screen translucent object or layer"@,
        default_enabled: true,
        default_severity: Severity::Info,
        minimum_confidence: Confidence::Medium,
        implementation_phase: 3,
        required_profiles: seq![],
        required_capabilities: seq!["lifecycle"@, "cost-facts"@],
        supersedes: seq![],
    }
}

/// Metadata of rule `MLP212`.
#[allow(non_snake_case)]
pub fn MLP212() -> (metadata: &'static RuleMetadata)
    ensures
        metadata@ == mlp212(),
{
    let metadata: &'static RuleMetadata = &RuleMetadata {
        id: "MLP212",
        summary: "Long animation of a full-screen translucent object or layer",
        default_enabled: true,
        default_severity: Severity::Info,
        minimum_confidence: Confidence::Medium,
        implementation_phase: 3,
        required_profiles: &[],
        required_capabilities: &["lifecycle", "cost-facts"],
        supersedes: &[],
    };
    assert(metadata@ =~= mlp212());
    metadata
}

/// A `FullScreenRectangle` whose exact fill opacity stays strictly between
/// zero and one through a certain target animation of at least five seconds.
pub struct LongTranslucentFullScreenAnimation;

pub const TRANSLUCENT_START: &'static str = "This full-screen layer remains ";

pub const TRANSLUCENT_END: &'static str = "): every frame blends the full output area. Consider animating a smaller region or shortening the translucent interval.";

pub const TRANSLUCENT_WHY: &'static str = "FullScreenRectangle is sized to Manim's frame height and aspect ratio. With a fill opacity strictly between zero and one, compositing must read and blend the pixels beneath it instead of replacing them. The diagnostic requires a literal-derived stable opacity, no active updater, a certain direct target animation, and a proven duration of at least five seconds; unknown or opacity-changing plays stay silent.";

pub const LAYER_CREATED: &'static str = "the full-screen translucent layer is created here";

/// Whether a profile has the aspect ratio of a full-screen rectangle.
pub open spec fn wide_screen(profile: RenderProfile) -> bool {
    profile.pixel_width * 9 == profile.pixel_height * 16
}

/// Whether there are profiles and all have that aspect ratio: under any
/// other profile the coverage of the frame is unknown, not full.
pub open spec fn all_wide_screen(profiles: Seq<RenderProfile>) -> bool {
    profiles.len() > 0 && forall|i: int|
        0 <= i < profiles.len() ==> wide_screen(#[trigger] profiles[i])
}

fn is_all_wide_screen(profiles: &Vec<RenderProfile>) -> (all: bool)
    ensures
        all == all_wide_screen(profiles@),
{
    if profiles.len() == 0 {
        return false;
    }
    let mut i: usize = 0;
    while i < profiles.len()
        invariant
            i <= profiles@.len(),
            forall|j: int| 0 <= j < i ==> wide_screen(#[trigger] profiles@[j]),
        decreases profiles@.len() - i,
    {
        let profile = &profiles[i];
        if profile.pixel_width as u64 * 9 != profile.pixel_height as u64 * 16 {
            assert(!wide_screen(profiles@[i as int]));
            return false;
        }
        i += 1;
    }
    true
}

/// Whether a call makes a rectangle of the screen's own shape.
pub open spec fn plain_constructor(call: QualifiedCall) -> bool {
    !call.has_star_args && !call.has_star_star_kwargs && call.positional_count == 0
        && call.spec_keyword("aspect_ratio"@) is None
}

/// The exact opacity of a translucent fill.
pub open spec fn translucency(opacity: Num) -> Option<Real> {
    match opacity {
        Num::Exact(NumLit::Float(value)) => if real_below(0, value.bits) && real_below(
            value.bits,
            ONE,
        ) {
            Some(value)
        } else {
            None
        },
        _ => None,
    }
}

fn find_translucency(opacity: &Num) -> (value: Option<&Real>)
    ensures
        match value {
            Some(found) => translucency(*opacity) == Some(*found),
            None => translucency(*opacity) is None,
        },
{
    match opacity {
        Num::Exact(NumLit::Float(value)) => if below(0, value.bits) && below(value.bits, ONE) {
            Some(value)
        } else {
            None
        },
        _ => None,
    }
}

/// Pixels rendered under one profile.
pub open spec fn pixel_view(profile: RenderProfile, play: PlayFact, i: int) -> JsonView {
    JsonView::Object(
        seq![
            ("profile"@, JsonView::Text(profile.name@)),
            ("frame_pixels"@, JsonView::Whole(profile.spec_pixel_area())),
            (
                "pixel_frames"@,
                if i < play.cost.pixel_frames@.len() {
                    bounds_view(play.cost.pixel_frames@[i])
                } else {
                    JsonView::Null
                },
            ),
        ],
    )
}

/// Pixels rendered under each profile.
pub open spec fn pixel_views(profiles: Seq<RenderProfile>, play: PlayFact) -> JsonView {
    JsonView::List(Seq::new(profiles.len(), |i: int| pixel_view(profiles[i], play, i)))
}

fn pixels_json(profiles: &Vec<RenderProfile>, play: &PlayFact) -> (value: Json)
    ensures
        value@ == pixel_views(profiles@, *play),
{
    let mut pixels: Vec<Json> = Vec::new();
    let mut i: usize = 0;
    while i < profiles.len()
        invariant
            i <= profiles@.len(),
            pixels@.len() == i,
            forall|j: int|
                0 <= j < i ==> (#[trigger] pixels@[j])@ == pixel_view(profiles@[j], *play, j),
        decreases profiles@.len() - i,
    {
        let profile = &profiles[i];
        let frames: Json = if i < play.cost.pixel_frames.len() {
            num_bounds_json(&play.cost.pixel_frames[i])
        } else {
            Json::Null
        };
        pixels.push(
            json_object3(
                "profile",
                json_text(profile.name.as_str()),
                "frame_pixels",
                Json::Whole(profile.pixel_area() as i128),
                "pixel_frames",
                frames,
            ),
        );
        i += 1;
    }
    assert(json_items(pixels@) =~= Seq::new(
        profiles@.len(),
        |i: int| pixel_view(profiles@[i], *play, i),
    ));
    json_list(pixels)
}

/// The report on one translucent layer.
pub open spec fn translucent_report(
    context: RuleContext<'_>,
    scene: SceneLifecycle,
    play: PlayFact,
    object: ObjectId,
    opacity: Real,
    animation: AllocationSite,
) -> DiagnosticView {
    with_related(
        basic_report(
            mlp212(),
            context,
            animation.file,
            animation.spec_range(),
            TRANSLUCENT_START@ + opacity.percent@ + "% opaque for "@ + seconds_text(play.duration)
                + " ("@ + frames_text(play_frames(context, play)) + TRANSLUCENT_END@,
            TRANSLUCENT_WHY@,
            EvidenceView::empty().insert("scene"@, JsonView::Text(scene.qualified_name@)).insert(
                "object_kind"@,
                JsonView::Text(FULL_SCREEN_RECTANGLE@),
            ).insert("fill_opacity"@, double_view(opacity.bits)).insert(
                "duration_gate"@,
                full_screen_translucent_seconds_gate().evidence(play.duration),
            ).insert("frames"@, bounds_view(play_frames(context, play))).insert(
                "profiles"@,
                pixel_views(context.config.active_profiles@, play),
            ),
        ),
        related_at(context, object.site, LAYER_CREATED@),
    )
}

/// The key of an object at the start of a play.
pub open spec fn play_object_key(play: AllocationSite, object: AllocationSite) -> (
    AllocationSite,
    AllocationSite,
) {
    (AllocationSite { file: play.file, start: play.start, end: play.start }, object)
}

/// What one object of the heap before a play gives.
pub open spec fn translucent_object(
    context: RuleContext<'_>,
    scene: SceneLifecycle,
    play: PlayFact,
    entry: HeapEntry,
) -> Option<CandidateView> {
    let constructor = first_index_at(context.qualified_calls.calls@, entry.id.site);
    match (
        constructor,
        translucency(entry.state.fill_opacity),
        stable_target(play, entry.id),
    ) {
        (Some(at), Some(opacity), Some(k)) => if entry.id.cardinality == Cardinality::Singleton
            && definite_kind(entry.state.kind, FULL_SCREEN_RECTANGLE@) && plain_constructor(
            context.qualified_calls.calls@[at],
        ) {
            Some(
                (
                    pair_key(
                        play_object_key(play.site, entry.id.site).0,
                        play_object_key(play.site, entry.id.site).1,
                    ),
                    Some(
                        translucent_report(
                            context,
                            scene,
                            play,
                            entry.id,
                            opacity,
                            play.animations@[k].site,
                        ),
                    ),
                ),
            )
        } else {
            None
        },
        _ => None,
    }
}

fn check_translucent_object(
    context: &RuleContext<'_>,
    scene: &SceneLifecycle,
    play: &PlayFact,
    entry: &HeapEntry,
) -> (found: Option<Candidate>)
    ensures
        match found {
            Some(candidate) => translucent_object(*context, *scene, *play, *entry) == Some(
                candidate_view(candidate),
            ),
            None => translucent_object(*context, *scene, *play, *entry) is None,
        },
{
    if entry.id.cardinality != Cardinality::Singleton || !definitely_kind(
        &entry.state.kind,
        FULL_SCREEN_RECTANGLE,
    ) {
        return None;
    }
    let at: usize = match context.qualified_calls.first_at(entry.id.site) {
        Some(at) => at,
        None => {
            return None;
        },
    };
    let constructor = &context.qualified_calls.calls[at];
    if constructor.has_star_args || constructor.has_star_star_kwargs
        || constructor.positional_count != 0 || constructor.keyword("aspect_ratio").is_some() {
        return None;
    }
    let opacity: &Real = match find_translucency(&entry.state.fill_opacity) {
        Some(opacity) => opacity,
        None => {
            return None;
        },
    };
    let k: usize = match stable_target_animation(play, &entry.id) {
        Some(k) => k,
        None => {
            return None;
        },
    };
    let frames = frames_at_play(context, play);
    let animation: AllocationSite = play.animations[k].site;
    let mut evidence = Evidence::new();
    evidence.insert("scene", json_text(scene.qualified_name.as_str()));
    evidence.insert("object_kind", json_text(FULL_SCREEN_RECTANGLE));
    evidence.insert("fill_opacity", json_double(opacity.bits));
    evidence.insert(
        "duration_gate",
        FULL_SCREEN_TRANSLUCENT_SECONDS_GATE().evidence(&play.duration),
    );
    evidence.insert("frames", num_bounds_json(frames));
    evidence.insert("profiles", pixels_json(&context.config.active_profiles, play));
    let mut diagnostic = build_diagnostic(
        MLP212(),
        context,
        animation.file,
        animation.range(),
        cat7(
            TRANSLUCENT_START,
            opacity.percent.as_str(),
            "% opaque for ",
            display_seconds(&play.duration).as_str(),
            " (",
            display_frames(frames).as_str(),
            TRANSLUCENT_END,
        ),
        TRANSLUCENT_WHY,
        evidence,
    );
    add_related(&mut diagnostic, related_site(context, entry.id.site, LAYER_CREATED.to_owned()));
    let start = AllocationSite {
        file: play.site.file,
        start: play.site.start,
        end: play.site.start,
    };
    Some(Candidate { key: site_pair(start, entry.id.site), diagnostic: Some(diagnostic) })
}

/// What the objects of a heap give, one by one.
pub open spec fn translucent_objects_parts(
    context: RuleContext<'_>,
    scene: SceneLifecycle,
    play: PlayFact,
    objects: Vec<HeapEntry>,
) -> spec_fn(int) -> Seq<CandidateView> {
    |k: int| found(translucent_object(context, scene, play, objects@[k]))
}

/// What the objects of a heap give, in order.
pub open spec fn translucent_objects_all(
    context: RuleContext<'_>,
    scene: SceneLifecycle,
    play: PlayFact,
    objects: Vec<HeapEntry>,
) -> Seq<CandidateView> {
    gather(objects@.len() as int, translucent_objects_parts(context, scene, play, objects))
}

fn translucent_objects(
    context: &RuleContext<'_>,
    scene: &SceneLifecycle,
    play: &PlayFact,
    objects: &Vec<HeapEntry>,
) -> (candidates: Vec<Candidate>)
    ensures
        candidate_views(candidates@) == translucent_objects_all(*context, *scene, *play, *objects),
{
    let mut candidates: Vec<Candidate> = Vec::new();
    let mut k: usize = 0;
    assert(candidate_views(candidates@) =~= Seq::empty());
    while k < objects.len()
        invariant
            k <= objects.len(),
            candidate_views(candidates@) == gather(k as int, translucent_objects_parts(*context, *scene, *play, *objects)),
        decreases objects.len() - k,
    {
        offer_found(&mut candidates, check_translucent_object(context, scene, play, &objects[k]));
        k += 1;
    }
    candidates
}

/// What the play at `k` gives.
pub open spec fn translucent_of(context: RuleContext<'_>, scene: SceneLifecycle, k: int) -> Seq<
    CandidateView,
> {
    let play = scene.plays@[k];
    match scene.spec_state_at(play.site.file, play.site.start) {
        Some(snapshot) => if all_wide_screen(context.config.active_profiles@)
            && !scene.constructor_state_unknown && full_screen_translucent_seconds_gate().passes(
            play.duration,
        ) && no_updaters_before(scene, play) {
            translucent_objects_all(context, scene, play, snapshot.heap.objects)
        } else {
            Seq::empty()
        },
        None => Seq::empty(),
    }
}

fn translucent_check(context: &RuleContext<'_>, scene: &SceneLifecycle, k: usize) -> (candidates: Vec<
    Candidate,
>)
    requires
        k < scene.plays@.len(),
    ensures
        candidate_views(candidates@) == translucent_of(*context, *scene, k as int),
{
    let play = &scene.plays[k];
    let candidates: Vec<Candidate> = Vec::new();
    assert(candidate_views(candidates@) =~= Seq::empty());
    if scene.constructor_state_unknown || !FULL_SCREEN_TRANSLUCENT_SECONDS_GATE().confirmed_by(
        &play.duration,
    ) || !no_active_updaters(scene, play) || !is_all_wide_screen(
        &context.config.active_profiles,
    ) {
        return candidates;
    }
    match snapshot_before(scene, play) {
        Some(snapshot) => translucent_objects(context, scene, play, &snapshot.heap.objects),
        None => candidates,
    }
}

/// The candidates of a scene, in the order of its plays.
pub open spec fn translucent_items(context: RuleContext<'_>, scene: SceneLifecycle) -> spec_fn(
    int,
) -> Seq<CandidateView> {
    |k: int| translucent_of(context, scene, k)
}

/// The candidates of the scene at `i`.
pub open spec fn translucent_at(context: RuleContext<'_>, i: int) -> Seq<CandidateView> {
    let scene = context.lifecycle_facts.scenes@[i];
    gather(scene.plays@.len() as int, translucent_items(context, scene))
}

fn translucent(context: &RuleContext<'_>, i: usize) -> (candidates: Vec<Candidate>)
    requires
        i < context.lifecycle_facts.scenes@.len(),
    ensures
        candidate_views(candidates@) == translucent_at(*context, i as int),
{
    let scene = &context.lifecycle_facts.scenes[i];
    let mut candidates: Vec<Candidate> = Vec::new();
    let mut k: usize = 0;
    assert(candidate_views(candidates@) =~= Seq::empty());
    while k < scene.plays.len()
        invariant
            k <= scene.plays@.len(),
            candidate_views(candidates@) == gather(k as int, translucent_items(*context, *scene)),
        decreases scene.plays@.len() - k,
    {
        offer_all(&mut candidates, translucent_check(context, scene, k));
        k += 1;
    }
    candidates
}

/// Candidates of [`LongTranslucentFullScreenAnimation`], scene by scene.
pub open spec fn translucent_finder(context: RuleContext<'_>) -> spec_fn(int) -> Seq<CandidateView> {
    |i: int| translucent_at(context, i)
}

impl Rule for LongTranslucentFullScreenAnimation {
    open spec fn declared(&self) -> MetadataView {
        mlp212()
    }

    open spec fn findings(&self, context: RuleContext<'_>) -> Seq<DiagnosticView> {
        kept(gather(context.lifecycle_facts.scenes@.len() as int, translucent_finder(context)))
    }

    fn metadata(&self) -> (metadata: &'static RuleMetadata) {
        MLP212()
    }

    fn run(&self, context: &RuleContext<'_>) -> (diagnostics: Vec<Diagnostic>) {
        let scenes = &context.lifecycle_facts.scenes;
        let mut candidates: Vec<Candidate> = Vec::new();
        let mut i: usize = 0;
        assert(candidate_views(candidates@) =~= Seq::empty());
        while i < scenes.len()
            invariant
                i <= scenes@.len(),
                scenes@ == context.lifecycle_facts.scenes@,
                candidate_views(candidates@) == gather(i as int, translucent_finder(*context)),
            decreases scenes@.len() - i,
        {
            offer_all(&mut candidates, translucent(context, i));
            i += 1;
        }
        keep_first(candidates)
    }
}

// ---------------------------------------------------------------------------
// MLP213: large Surface under Cairo.
// ---------------------------------------------------------------------------

/// What [`MLP213`] declares.
pub open spec fn mlp213() -> MetadataView {
    MetadataView {
        id: "MLP213"@,
        summary: "Calibrated large Surface workload rendered under Cairo"@,
        default_enabled: true,
        default_severity: Severity::Info,
        minimum_confidence: Confidence::Medium,
        implementation_phase: 3,
        required_profiles: seq![],
        required_capabilities: seq!["lifecycle"@, "cost-facts"@],
        supersedes: seq![],
    }
}

/// Metadata of rule `MLP213`.
#[allow(non_snake_case)]
pub fn MLP213() -> (metadata: &'static RuleMetadata)
    ensures
        metadata@ == mlp213(),
{
    let metadata: &'static RuleMetadata = &RuleMetadata {
        id: "MLP213",
        summary: "Calibrated large Surface workload rendered under Cairo",
        default_enabled: true,
        default_severity: Severity::Info,
        minimum_confidence: Confidence::Medium,
        implementation_phase: 3,
        required_profiles: &[],
        required_capabilities: &["lifecycle", "cost-facts"],
        supersedes: &[],
    };
    assert(metadata@ =~= mlp213());
    metadata
}

/// A literal-large `Surface` that is directly animated under at least one
/// Cairo profile.
pub struct CairoSurfaceMismatch;

pub const SURFACE_MIDDLE: &'static str = "-face Surface is captured for ";

pub const SURFACE_END: &'static str = " under Cairo. The calibrated workload is renderer-mismatched; consider OpenGL or a lower literal resolution.";

pub const SURFACE_WHY: &'static str = "Cairo represents Surface as one VMobject face per u/v cell and repeatedly sorts, projects, shades, strokes, and rasterizes those faces when the Surface moves. The 1,024-face advisory boundary comes from the versioned calibration evidence, while the diagnostic keeps cost symbolic and never turns the recorded machine's milliseconds into a portable claim. OpenGL uses its mesh path for this workload.";

pub const SURFACE_PLAY: &'static str = "this Cairo play captures the Surface every frame";

/// A literal that is a positive whole number.
pub open spec fn positive_whole(literal: LiteralFact) -> Option<int> {
    match literal {
        LiteralFact::Int(value) => if value > 0 {
            Some(value as int)
        } else {
            None
        },
        _ => None,
    }
}

fn positive_resolution(literal: &LiteralFact) -> (side: Option<i64>)
    ensures
        match side {
            Some(found) => positive_whole(*literal) == Some(found as int) && found > 0,
            None => positive_whole(*literal) is None,
        },
{
    match literal {
        LiteralFact::Int(value) => if *value > 0 {
            Some(*value)
        } else {
            None
        },
        _ => None,
    }
}

/// The product of two literal sides, as far as it fits.
pub open spec fn face_product(a: LiteralFact, b: LiteralFact) -> Option<int> {
    match (positive_whole(a), positive_whole(b)) {
        (Some(x), Some(y)) => if x * y <= i64::MAX {
            Some(x * y)
        } else {
            None
        },
        _ => None,
    }
}

fn multiply_sides(a: &LiteralFact, b: &LiteralFact) -> (faces: Option<i64>)
    ensures
        match faces {
            Some(found) => face_product(*a, *b) == Some(found as int),
            None => face_product(*a, *b) is None,
        },
{
    let x: i64 = match positive_resolution(a) {
        Some(x) => x,
        None => {
            return None;
        },
    };
    let y: i64 = match positive_resolution(b) {
        Some(y) => y,
        None => {
            return None;
        },
    };
    assert(x * y >= 0) by (nonlinear_arith)
        requires
            x > 0,
            y > 0,
    ;
    x.checked_mul(y)
}

/// The faces that two sides of a literal resolution give.
pub open spec fn side_faces(sides: Seq<LiteralFact>) -> Option<int> {
    if sides.len() == 2 {
        face_product(sides[0], sides[1])
    } else {
        None
    }
}

/// The faces of a literal resolution.
pub open spec fn literal_faces(literal: LiteralFact) -> Option<int> {
    match literal {
        LiteralFact::Int(_) => face_product(literal, literal),
        LiteralFact::Tuple(sides) => side_faces(sides@),
        LiteralFact::List(sides) => side_faces(sides@),
        _ => None,
    }
}

fn count_side_faces(sides: &Vec<LiteralFact>) -> (faces: Option<i64>)
    ensures
        match faces {
            Some(found) => side_faces(sides@) == Some(found as int),
            None => side_faces(sides@) is None,
        },
{
    if sides.len() == 2 {
        multiply_sides(&sides[0], &sides[1])
    } else {
        None
    }
}

/// The faces of a literal-sized surface.
pub open spec fn faces_of(call: QualifiedCall) -> Option<int> {
    if call.has_star_args || call.has_star_star_kwargs {
        None
    } else {
        match (
            match call.spec_keyword("resolution"@) {
                Some(argument) => Some(argument),
                None => call.spec_positional(3),
            }
        ) {
            Some(argument) => match argument.literal {
                Some(literal) => literal_faces(literal),
                None => None,
            },
            None => None,
        }
    }
}

fn surface_faces(call: &QualifiedCall) -> (faces: Option<i64>)
    ensures
        match faces {
            Some(found) => faces_of(*call) == Some(found as int),
            None => faces_of(*call) is None,
        },
{
    if call.has_star_args || call.has_star_star_kwargs {
        return None;
    }
    let argument = match call.keyword("resolution") {
        Some(argument) => argument,
        None => match call.positional(3) {
            Some(argument) => argument,
            None => {
                return None;
            },
        },
    };
    let literal = match &argument.literal {
        Some(literal) => literal,
        None => {
            return None;
        },
    };
    match literal {
        LiteralFact::Int(_) => multiply_sides(literal, literal),
        LiteralFact::Tuple(sides) => count_side_faces(sides),
        LiteralFact::List(sides) => count_side_faces(sides),
        _ => None,
    }
}

/// Whether an animation certainly targets the object.
pub open spec fn animates(animation: PlayedAnimation, object: ObjectId) -> bool {
    animation.convertible == Truth::Yes && match animation.state {
        Some(state) => targets_same(state.targets@, object),
        None => false,
    }
}

/// Whether a certain play targets the object directly.
pub open spec fn direct_target(play: PlayFact, object: ObjectId) -> bool {
    play.kind == PlayKind::Play && play.certainty == Presence::Present && exists|i: int|
        0 <= i < play.animations@.len() && animates(#[trigger] play.animations@[i], object)
}

fn direct_target_play(play: &PlayFact, object: &ObjectId) -> (direct: bool)
    ensures
        direct == direct_target(*play, *object),
{
    if play.kind != PlayKind::Play || play.certainty != Presence::Present {
        return false;
    }
    let mut i: usize = 0;
    while i < play.animations.len()
        invariant
            i <= play.animations@.len(),
            play.kind == PlayKind::Play,
            play.certainty == Presence::Present,
            forall|j: int| 0 <= j < i ==> !animates(#[trigger] play.animations@[j], *object),
        decreases play.animations@.len() - i,
    {
        let animation = &play.animations[i];
        let hit: bool = animation.convertible == Truth::Yes && match &animation.state {
            Some(state) => any_definitely_same(&state.targets, object),
            None => false,
        };
        if hit {
            assert(animates(play.animations@[i as int], *object));
            return true;
        }
        i += 1;
    }
    false
}

/// Positions of the plays of a scene that target the object.
pub open spec fn surface_positions(scene: SceneLifecycle, object: ObjectId) -> Seq<usize> {
    picked(scene.plays@.len() as int, |p: int| direct_target(scene.plays@[p], object))
}

/// The plays of a scene that capture an animated object, by position.
pub fn surface_plays(scene: &SceneLifecycle, object: &ObjectId) -> (positions: Vec<usize>)
    ensures
        positions@ == surface_positions(*scene, *object),
        forall|i: int|
            0 <= i < positions@.len() ==> #[trigger] positions@[i] < scene.plays@.len(),
{
    let ghost test = |p: int| direct_target(scene.plays@[p], *object);
    let mut positions: Vec<usize> = Vec::new();
    let mut p: usize = 0;
    while p < scene.plays.len()
        invariant
            p <= scene.plays@.len(),
            test == (|p: int| direct_target(scene.plays@[p], *object)),
            positions@ == picked(p as int, test),
        decreases scene.plays@.len() - p,
    {
        if direct_target_play(&scene.plays[p], object) {
            positions.push(p);
        }
        p += 1;
    }
    proof {
        picked_pass(p as int, test);
    }
    positions
}

/// What the calibration behind the face count was.
pub open spec fn calibration_view() -> JsonView {
    JsonView::Object(
        seq![
            ("source"@, JsonView::Text("docs/research/perf-evidence.md"@)),
            ("workload"@, JsonView::Text("Cairo Surface (32, 32), 1,024 faces"@)),
            ("portable_wall_time_claim"@, JsonView::Flag(false)),
        ],
    )
}

/// The finding for the scene at `s`.
pub open spec fn surface_in_scene(
    context: RuleContext<'_>,
    call: QualifiedCall,
    faces: i64,
    s: int,
) -> Option<DiagnosticView> {
    let scene = context.lifecycle_facts.scenes@[s];
    let object = ObjectId { site: call.site(), cardinality: Cardinality::Singleton };
    let positions = surface_positions(scene, object);
    let frames = sum_of(context, scene, positions, PlayQuantity::CairoFrames);
    match scene.final_heap.spec_object(object) {
        Some(state) => if definite_kind(state.kind, SURFACE@) && positions.len() > 0 {
            let report = basic_report(
                mlp213(),
                context,
                call.file,
                call.call_range,
                "This "@ + signed_numeral(faces as int) + SURFACE_MIDDLE@ + frames_text(frames)
                    + SURFACE_END@,
                SURFACE_WHY@,
                EvidenceView::empty().insert(
                    "scene"@,
                    JsonView::Text(scene.qualified_name@),
                ).insert("object_kind"@, JsonView::Text(SURFACE@)).insert(
                    "face_gate"@,
                    cairo_surface_face_gate().evidence(Num::Exact(NumLit::Int(faces))),
                ).insert("frames"@, bounds_view(frames)).insert(
                    "calibration"@,
                    calibration_view(),
                ),
            );
            Some(
                DiagnosticView {
                    related_locations: play_locations(
                        context,
                        scene.plays@,
                        positions,
                        SURFACE_PLAY@,
                    ),
                    applicable_profiles: cairo_names(context.config.active_profiles@),
                    ..report
                },
            )
        } else {
            None
        },
        None => None,
    }
}

fn check_surface_in_scene(
    context: &RuleContext<'_>,
    call: &QualifiedCall,
    faces: i64,
    s: usize,
) -> (found: Option<Diagnostic>)
    requires
        s < context.lifecycle_facts.scenes@.len(),
    ensures
        report_of(found) == surface_in_scene(*context, *call, faces, s as int),
{
    let scene = &context.lifecycle_facts.scenes[s];
    let object = ObjectId {
        site: AllocationSite::new(call.file, call.call_range),
        cardinality: Cardinality::Singleton,
    };
    let state = match scene.final_heap.object(&object) {
        Some(state) => state,
        None => {
            return None;
        },
    };
    if !definitely_kind(&state.kind, SURFACE) {
        return None;
    }
    let positions: Vec<usize> = surface_plays(scene, &object);
    if positions.len() == 0 {
        return None;
    }
    let what = PlayQuantity::CairoFrames;
    let added: Num = add_up(context, scene, &positions, what);
    let frames: &Num = best_sum(context, scene, &positions, what, &added);
    let face_num = Num::Exact(NumLit::Int(faces));
    let mut evidence = Evidence::new();
    evidence.insert("scene", json_text(scene.qualified_name.as_str()));
    evidence.insert("object_kind", json_text(SURFACE));
    evidence.insert("face_gate", CAIRO_SURFACE_FACE_GATE().evidence(&face_num));
    evidence.insert("frames", num_bounds_json(frames));
    evidence.insert(
        "calibration",
        json_object3(
            "source",
            json_text("docs/research/perf-evidence.md"),
            "workload",
            json_text("Cairo Surface (32, 32), 1,024 faces"),
            "portable_wall_time_claim",
            Json::Flag(false),
        ),
    );
    let mut diagnostic = build_diagnostic(
        MLP213(),
        context,
        call.file,
        call.call_range,
        cat5(
            "This ",
            signed_decimal(faces).as_str(),
            SURFACE_MIDDLE,
            display_frames(frames).as_str(),
            SURFACE_END,
        ),
        SURFACE_WHY,
        evidence,
    );
    diagnostic.related_locations = locate_plays(context, &scene.plays, &positions, SURFACE_PLAY);
    diagnostic.applicable_profiles = context.config.cairo_profile_names();
    Some(diagnostic)
}

/// The findings of one surface in the scenes, one by one.
pub open spec fn surface_scenes_parts(
    context: RuleContext<'_>,
    call: QualifiedCall,
    faces: i64,
) -> spec_fn(int) -> Seq<DiagnosticView> {
    |k: int| found(surface_in_scene(context, call, faces, k))
}

/// The findings of one surface in the scenes, in order.
pub open spec fn surface_scenes_all(
    context: RuleContext<'_>,
    call: QualifiedCall,
    faces: i64,
) -> Seq<DiagnosticView> {
    gather(context.lifecycle_facts.scenes@.len() as int, surface_scenes_parts(context, call, faces))
}

fn surface_scenes(
    context: &RuleContext<'_>,
    call: &QualifiedCall,
    faces: i64,
) -> (diagnostics: Vec<Diagnostic>)
    ensures
        reports(diagnostics@) == surface_scenes_all(*context, *call, faces),
{
    let mut diagnostics: Vec<Diagnostic> = Vec::new();
    let mut k: usize = 0;
    assert(reports(diagnostics@) =~= Seq::empty());
    while k < context.lifecycle_facts.scenes.len()
        invariant
            k <= context.lifecycle_facts.scenes.len(),
            reports(diagnostics@) == gather(k as int, surface_scenes_parts(*context, *call, faces)),
        decreases context.lifecycle_facts.scenes.len() - k,
    {
        push_found(&mut diagnostics, check_surface_in_scene(context, call, faces, k));
        k += 1;
    }
    diagnostics
}

/// The findings for the call at `i`.
pub open spec fn surface_at(context: RuleContext<'_>, i: int) -> Seq<DiagnosticView> {
    let call = context.qualified_calls.calls@[i];
    match (context.knowledge, faces_of(call)) {
        (Some(profile), Some(faces)) => if cairo_names(context.config.active_profiles@).len() > 0
            && goal_of(*profile, context.project_index, call) == Some(SURFACE@)
            && cairo_surface_face_gate().passes(Num::Exact(NumLit::Int(faces as i64))) {
            surface_scenes_all(context, call, faces as i64)
        } else {
            Seq::empty()
        },
        _ => Seq::empty(),
    }
}

fn surface(context: &RuleContext<'_>, i: usize) -> (diagnostics: Vec<Diagnostic>)
    requires
        i < context.qualified_calls.calls@.len(),
    ensures
        reports(diagnostics@) == surface_at(*context, i as int),
{
    let call = &context.qualified_calls.calls[i];
    let diagnostics: Vec<Diagnostic> = Vec::new();
    assert(reports(diagnostics@) =~= Seq::empty());
    let profile = match context.knowledge {
        Some(profile) => profile,
        None => {
            return diagnostics;
        },
    };
    let names: Vec<String> = context.config.cairo_profile_names();
    assert(cairo_names(context.config.active_profiles@).len() == names@.len());
    if names.len() == 0 || !targets(profile, &context.project_index, call, SURFACE) {
        return diagnostics;
    }
    let faces: i64 = match surface_faces(call) {
        Some(faces) => faces,
        None => {
            return diagnostics;
        },
    };
    if !CAIRO_SURFACE_FACE_GATE().confirmed_by(&Num::Exact(NumLit::Int(faces))) {
        return diagnostics;
    }
    surface_scenes(context, call, faces)
}

/// Findings of [`CairoSurfaceMismatch`], call by call.
pub open spec fn surface_finder(context: RuleContext<'_>) -> spec_fn(int) -> Seq<DiagnosticView> {
    |i: int| surface_at(context, i)
}

impl Rule for CairoSurfaceMismatch {
    open spec fn declared(&self) -> MetadataView {
        mlp213()
    }

    open spec fn findings(&self, context: RuleContext<'_>) -> Seq<DiagnosticView> {
        gather(context.qualified_calls.calls@.len() as int, surface_finder(context))
    }

    fn metadata(&self) -> (metadata: &'static RuleMetadata) {
        MLP213()
    }

    fn run(&self, context: &RuleContext<'_>) -> (diagnostics: Vec<Diagnostic>) {
        let calls = &context.qualified_calls.calls;
        let mut diagnostics: Vec<Diagnostic> = Vec::new();
        let mut i: usize = 0;
        assert(reports(diagnostics@) =~= Seq::empty());
        while i < calls.len()
            invariant
                i <= calls@.len(),
                calls@ == context.qualified_calls.calls@,
                reports(diagnostics@) == gather(i as int, surface_finder(*context)),
            decreases calls@.len() - i,
        {
            push_all(&mut diagnostics, surface(context, i));
            i += 1;
        }
        diagnostics
    }
}

// ---------------------------------------------------------------------------
// MLP223: transparent stroke of positive width under Cairo.
// ---------------------------------------------------------------------------

/// What [`MLP223`] declares.
pub open spec fn mlp223() -> MetadataView {
    MetadataView {
        id: "MLP223"@,
        summary: "Fully transparent positive-width stroke processed on every Cairo frame"@,
        default_enabled: true,
        default_severity: Severity::Info,
        minimum_confidence: Confidence::High,
        implementation_phase: 3,
        required_profiles: seq![],
        required_capabilities: seq!["lifecycle"@, "cost-facts"@],
        supersedes: seq![],
    }
}

/// Metadata of rule `MLP223`.
#[allow(non_snake_case)]
pub fn MLP223() -> (metadata: &'static RuleMetadata)
    ensures
        metadata@ == mlp223(),
{
    let metadata: &'static RuleMetadata = &RuleMetadata {
        id: "MLP223",
        summary: "Fully transparent positive-width stroke processed on every Cairo frame",
        default_enabled: true,
        default_severity: Severity::Info,
        minimum_confidence: Confidence::High,
        implementation_phase: 3,
        required_profiles: &[],
        required_capabilities: &["lifecycle", "cost-facts"],
        supersedes: &[],
    };
    assert(metadata@ =~= mlp223());
    metadata
}

/// A visible path whose foreground stroke has exact opacity zero and
/// positive width during a certain Cairo target animation, with every future
/// opacity or style write proven absent.
pub struct TransparentStrokeCapture;

pub const STROKE_START: &'static str = "This Cairo play processes a fully transparent stroke of width ";

pub const STROKE_END: &'static str = ". Set stroke_width=0 when the stroke is intentionally invisible.";

pub const STROKE_WHY: &'static str = "Cairo's VMobject path pipeline still receives positive-width stroke geometry even when its stroke opacity is zero. The rule requires exact zero opacity, exact positive width, a non-empty path, a certain direct target play, no active updater, and proof that no later style or opacity write can make the stroke visible; otherwise it stays silent.";

pub const STROKE_CREATED: &'static str = "the transparent positive-width path is created here";

/// Whether no play from position `p` on can write the style of the object.
pub open spec fn plays_steady(plays: Seq<PlayFact>, object: ObjectId, p: int) -> bool {
    forall|i: int|
        p <= i < plays.len() ==> !(#[trigger] plays[i]).star_args && all_steady(
            plays[i].animations@,
            object,
        )
}

/// Position of the event that begins a play group, from position `i` on.
pub open spec fn begin_from(events: Seq<TracedEvent>, group: u64, i: int) -> Option<int>
    decreases events.len() - i,
{
    if i < 0 || i >= events.len() {
        None
    } else if events[i].event == (Event::BeginPlay { play_group: group }) {
        Some(i)
    } else {
        begin_from(events, group, i + 1)
    }
}

/// Whether some value can be the object.
pub open spec fn can_touch(values: Seq<ObjectId>, object: ObjectId) -> bool {
    crate::semantic::targets_maybe(values, object)
}

/// Whether an event leaves the style of the object alone.
pub open spec fn harmless(event: Event, object: ObjectId) -> bool {
    match event {
        Event::Mutate { target, kind } => target.maybe_same(object) == Truth::No || !(kind
            == MutationKind::Style || kind == MutationKind::Opacity || kind
            == MutationKind::Unknown),
        Event::UnknownMutation { values } => !can_touch(values@, object),
        Event::RegisterUpdater => false,
        _ => true,
    }
}

/// Whether the style of the object provably stays as it is from the play at
/// `p` on.
pub open spec fn style_settled(scene: SceneLifecycle, p: int, object: ObjectId) -> bool {
    plays_steady(scene.plays@, object, p) && match begin_from(
        scene.events@,
        scene.plays@[p].play_group,
        0,
    ) {
        Some(begin) => forall|i: int|
            begin < i < scene.events@.len() ==> harmless(
                (#[trigger] scene.events@[i]).event,
                object,
            ),
        None => false,
    }
}

fn is_harmless(event: &Event, object: &ObjectId) -> (yes: bool)
    ensures
        yes == harmless(*event, *object),
{
    match event {
        Event::Mutate { target, kind } => target.may_be_same(object) == Truth::No || !(*kind
            == MutationKind::Style || *kind == MutationKind::Opacity || *kind
            == MutationKind::Unknown),
        Event::UnknownMutation { values } => !crate::semantic::any_maybe_same(values, object),
        Event::RegisterUpdater => false,
        _ => true,
    }
}

fn find_begin(events: &Vec<TracedEvent>, group: u64) -> (begin: Option<usize>)
    ensures
        match begin {
            Some(found) => found < events@.len() && begin_from(events@, group, 0) == Some(
                found as int,
            ),
            None => begin_from(events@, group, 0) is None,
        },
{
    let mut i: usize = 0;
    while i < events.len()
        invariant
            i <= events@.len(),
            begin_from(events@, group, 0) == begin_from(events@, group, i as int),
        decreases events@.len() - i,
    {
        match &events[i].event {
            Event::BeginPlay { play_group } => {
                if *play_group == group {
                    return Some(i);
                }
            },
            _ => {},
        }
        i += 1;
    }
    None
}

fn future_opacity_unchanged(scene: &SceneLifecycle, p: usize, object: &ObjectId) -> (settled: bool)
    requires
        p < scene.plays@.len(),
    ensures
        settled == style_settled(*scene, p as int, *object),
{
    let mut i: usize = p;
    while i < scene.plays.len()
        invariant
            p <= i <= scene.plays@.len(),
            forall|j: int|
                p <= j < i ==> !(#[trigger] scene.plays@[j]).star_args && all_steady(
                    scene.plays@[j].animations@,
                    *object,
                ),
        decreases scene.plays@.len() - i,
    {
        let play = &scene.plays[i];
        if play.star_args || !is_all_steady(&play.animations, object) {
            assert(scene.plays@[i as int].star_args || !all_steady(
                scene.plays@[i as int].animations@,
                *object,
            ));
            return false;
        }
        i += 1;
    }
    let begin: usize = match find_begin(&scene.events, scene.plays[p].play_group) {
        Some(begin) => begin,
        None => {
            return false;
        },
    };
    assert(begin < scene.events.len());
    let mut e: usize = begin + 1;
    while e < scene.events.len()
        invariant
            begin < e <= scene.events@.len(),
            p < scene.plays@.len(),
            begin_from(scene.events@, scene.plays@[p as int].play_group, 0) == Some(begin as int),
            forall|j: int|
                begin < j < e ==> harmless((#[trigger] scene.events@[j]).event, *object),
        decreases scene.events@.len() - e,
    {
        if !is_harmless(&scene.events[e].event, object) {
            assert(!harmless(scene.events@[e as int].event, *object));
            return false;
        }
        e += 1;
    }
    true
}

/// The width of a transparent stroke on a non-empty path.
pub open spec fn hidden_width(state: MobjectState) -> Option<Bound<'static>> {
    match (
        exact_bound(state.stroke_opacity),
        exact_bound(state.stroke_width),
        state.curve_count.spec_lower_bound(),
    ) {
        (Some(opacity), Some(width), Some(curves)) => if magnitude(opacity.pattern()) == 0
            && !real_at_most(width.pattern(), 0) && !real_below(curves.pattern(), ONE) {
            Some(width)
        } else {
            None
        },
        _ => None,
    }
}

fn find_hidden_width(state: &MobjectState) -> (width: Option<Bound<'_>>)
    ensures
        width == hidden_width(*state),
{
    match (
        exact_value(&state.stroke_opacity),
        exact_value(&state.stroke_width),
        state.curve_count.lower_bound(),
    ) {
        (Some(opacity), Some(width), Some(curves)) => {
            let bits: u64 = opacity.bits();
            if (bits == 0 || bits == SIGN) && !at_most(width.bits(), 0) && !below(
                curves.bits(),
                ONE,
            ) {
                Some(width)
            } else {
                None
            }
        },
        _ => None,
    }
}

/// What one object of the heap before the play at `p` gives.
pub open spec fn stroke_object(
    context: RuleContext<'_>,
    scene: SceneLifecycle,
    p: int,
    entry: HeapEntry,
) -> Option<CandidateView> {
    let play = scene.plays@[p];
    match hidden_width(entry.state) {
        Some(width) => if entry.id.cardinality == Cardinality::Singleton && stable_target(
            play,
            entry.id,
        ) is Some && style_settled(scene, p, entry.id) {
            let report = basic_report(
                mlp223(),
                context,
                play.site.file,
                play.site.spec_range(),
                STROKE_START@ + width.count_text() + " for "@ + frames_text(play.cost.cairo_frames)
                    + STROKE_END@,
                STROKE_WHY@,
                EvidenceView::empty().insert(
                    "scene"@,
                    JsonView::Text(scene.qualified_name@),
                ).insert("stroke_opacity"@, JsonView::Whole(0)).insert(
                    "stroke_width"@,
                    double_view(width.pattern()),
                ).insert("curves"@, bounds_view(entry.state.curve_count)).insert(
                    "frames"@,
                    bounds_view(play.cost.cairo_frames),
                ).insert("future_opacity_unchanged"@, JsonView::Flag(true)),
            );
            Some(
                (
                    key_of(entry.id.site),
                    Some(
                        profiled_report(
                            with_related(
                                report,
                                related_at(context, entry.id.site, STROKE_CREATED@),
                            ),
                            cairo_names(context.config.active_profiles@),
                            None,
                        ),
                    ),
                ),
            )
        } else {
            None
        },
        None => None,
    }
}

fn check_stroke_object(
    context: &RuleContext<'_>,
    scene: &SceneLifecycle,
    p: usize,
    entry: &HeapEntry,
) -> (found: Option<Candidate>)
    requires
        p < scene.plays@.len(),
    ensures
        match found {
            Some(candidate) => stroke_object(*context, *scene, p as int, *entry) == Some(
                candidate_view(candidate),
            ),
            None => stroke_object(*context, *scene, p as int, *entry) is None,
        },
{
    let play = &scene.plays[p];
    if entry.id.cardinality != Cardinality::Singleton || stable_target_animation(
        play,
        &entry.id,
    ).is_none() || !future_opacity_unchanged(scene, p, &entry.id) {
        return None;
    }
    let width = match find_hidden_width(&entry.state) {
        Some(width) => width,
        None => {
            return None;
        },
    };
    let frames = &play.cost.cairo_frames;
    let mut evidence = Evidence::new();
    evidence.insert("scene", json_text(scene.qualified_name.as_str()));
    evidence.insert("stroke_opacity", Json::Whole(0));
    evidence.insert("stroke_width", json_double(width.bits()));
    evidence.insert("curves", num_bounds_json(&entry.state.curve_count));
    evidence.insert("frames", num_bounds_json(frames));
    evidence.insert("future_opacity_unchanged", Json::Flag(true));
    let mut diagnostic = build_diagnostic(
        MLP223(),
        context,
        play.site.file,
        play.site.range(),
        cat5(
            STROKE_START,
            width.format_count().as_str(),
            " for ",
            display_frames(frames).as_str(),
            STROKE_END,
        ),
        STROKE_WHY,
        evidence,
    );
    add_related(&mut diagnostic, related_site(context, entry.id.site, STROKE_CREATED.to_owned()));
    diagnostic.applicable_profiles = context.config.cairo_profile_names();
    Some(Candidate { key: site_key(entry.id.site), diagnostic: Some(diagnostic) })
}

/// What the objects of a heap give, one by one.
pub open spec fn stroke_parts(
    context: RuleContext<'_>,
    scene: SceneLifecycle,
    p: int,
    objects: Seq<HeapEntry>,
) -> spec_fn(int) -> Seq<CandidateView> {
    |k: int| found(stroke_object(context, scene, p, objects[k]))
}

/// What the play at `k` gives.
pub open spec fn stroke_of(context: RuleContext<'_>, scene: SceneLifecycle, k: int) -> Seq<
    CandidateView,
> {
    let play = scene.plays@[k];
    match scene.spec_state_at(play.site.file, play.site.start) {
        Some(snapshot) => if cairo_names(context.config.active_profiles@).len() > 0
            && !scene.constructor_state_unknown && no_updaters_before(scene, play) {
            gather(
                snapshot.heap.objects@.len() as int,
                stroke_parts(context, scene, k, snapshot.heap.objects@),
            )
        } else {
            Seq::empty()
        },
        None => Seq::empty(),
    }
}

fn stroke_check(context: &RuleContext<'_>, scene: &SceneLifecycle, k: usize) -> (candidates: Vec<
    Candidate,
>)
    requires
        k < scene.plays@.len(),
    ensures
        candidate_views(candidates@) == stroke_of(*context, *scene, k as int),
{
    let play = &scene.plays[k];
    let mut candidates: Vec<Candidate> = Vec::new();
    assert(candidate_views(candidates@) =~= Seq::empty());
    let names: Vec<String> = context.config.cairo_profile_names();
    assert(cairo_names(context.config.active_profiles@).len() == names@.len());
    if names.len() == 0 || scene.constructor_state_unknown || !no_active_updaters(scene, play) {
        return candidates;
    }
    let snapshot = match snapshot_before(scene, play) {
        Some(snapshot) => snapshot,
        None => {
            return candidates;
        },
    };
    let objects = &snapshot.heap.objects;
    let mut i: usize = 0;
    while i < objects.len()
        invariant
            i <= objects@.len(),
            k < scene.plays@.len(),
            candidate_views(candidates@) == gather(
                i as int,
                stroke_parts(*context, *scene, k as int, objects@),
            ),
        decreases objects@.len() - i,
    {
        offer_found(&mut candidates, check_stroke_object(context, scene, k, &objects[i]));
        i += 1;
    }
    candidates
}

/// The candidates of a scene, in the order of its plays.
pub open spec fn stroke_items(context: RuleContext<'_>, scene: SceneLifecycle) -> spec_fn(
    int,
) -> Seq<CandidateView> {
    |k: int| stroke_of(context, scene, k)
}

/// The candidates of the scene at `i`.
pub open spec fn stroke_at(context: RuleContext<'_>, i: int) -> Seq<CandidateView> {
    let scene = context.lifecycle_facts.scenes@[i];
    gather(scene.plays@.len() as int, stroke_items(context, scene))
}

fn stroke(context: &RuleContext<'_>, i: usize) -> (candidates: Vec<Candidate>)
    requires
        i < context.lifecycle_facts.scenes@.len(),
    ensures
        candidate_views(candidates@) == stroke_at(*context, i as int),
{
    let scene = &context.lifecycle_facts.scenes[i];
    let mut candidates: Vec<Candidate> = Vec::new();
    let mut k: usize = 0;
    assert(candidate_views(candidates@) =~= Seq::empty());
    while k < scene.plays.len()
        invariant
            k <= scene.plays@.len(),
            candidate_views(candidates@) == gather(k as int, stroke_items(*context, *scene)),
        decreases scene.plays@.len() - k,
    {
        offer_all(&mut candidates, stroke_check(context, scene, k));
        k += 1;
    }
    candidates
}

/// Candidates of [`TransparentStrokeCapture`], scene by scene.
pub open spec fn stroke_finder(context: RuleContext<'_>) -> spec_fn(int) -> Seq<CandidateView> {
    |i: int| stroke_at(context, i)
}

impl Rule for TransparentStrokeCapture {
    open spec fn declared(&self) -> MetadataView {
        mlp223()
    }

    open spec fn findings(&self, context: RuleContext<'_>) -> Seq<DiagnosticView> {
        kept(gather(context.lifecycle_facts.scenes@.len() as int, stroke_finder(context)))
    }

    fn metadata(&self) -> (metadata: &'static RuleMetadata) {
        MLP223()
    }

    fn run(&self, context: &RuleContext<'_>) -> (diagnostics: Vec<Diagnostic>) {
        let scenes = &context.lifecycle_facts.scenes;
        let mut candidates: Vec<Candidate> = Vec::new();
        let mut i: usize = 0;
        assert(candidate_views(candidates@) =~= Seq::empty());
        while i < scenes.len()
            invariant
                i <= scenes@.len(),
                scenes@ == context.lifecycle_facts.scenes@,
                candidate_views(candidates@) == gather(i as int, stroke_finder(*context)),
            decreases scenes@.len() - i,
        {
            offer_all(&mut candidates, stroke(context, i));
            i += 1;
        }
        keep_first(candidates)
    }
}

} // verus!
