//! Cairo display-order rules: `MLP209` (front-loaded static suffix) and
//! `MLP222` (image caught in the moving suffix).
//!
//! Both rules are Cairo-specific, so they apply to the active Cairo profiles
//! and stay silent when the run targets none. Positions and member counts are
//! only reported when the display order is known and the moving-suffix bounds
//! are exact.
use super::frame_scope::{
    camera_motion, camera_truth, frames_at_play, play_frames, rendering, renders_frames,
};
use super::renderer_cost::{definite_kind, definitely_kind};
use super::timing::{area_view, pixel_area_json};
use super::sums::{add_up, best_sum, sum_of, PlayQuantity};
use crate::config::{cairo_names, RenderProfile, Renderer};
use crate::diagnostic::{
    push_all, push_found, related_views, report_of, reports, Confidence, Diagnostic, DiagnosticView,
    MetadataView, RelatedLocation, RelatedView, RuleMetadata, Severity,
};
use crate::json::{
    bounds_view, json_items, json_list, json_object2, json_size, json_text, num_bounds_json,
    Evidence, EvidenceView, Json, JsonView,
};
use crate::numbers::{display_frames, frames_text, Num, NumLit};
use crate::ordered::{place_object, sorted_objects};
use crate::render_order::{MemberEvidence, MovingReason, SuffixFact};
use crate::rules::base::{
    basic_report, build_diagnostic, related_at, related_site, Rule, RuleContext,
};
use crate::rules::rendering::support::IMAGE_MOBJECT;
use crate::semantic::{ObjectId, PlayFact, Presence, SceneLifecycle, Truth};
use crate::text::{cat3, cat4, cat5, decimal_size, found, gather, numeral};
use crate::thresholds::{GateView, Threshold};
use vstd::prelude::*;

verus! {

/// What [`MLP209_STATIC_SUFFIX_GATE`] states.
pub open spec fn mlp209_static_suffix_gate() -> GateView {
    GateView {
        name: "static-suffix-gate"@,
        quantity: "N_moving_suffix"@,
        minimum: 8,
        rule_ids: seq!["MLP209"@],
    }
}

/// `MLP209` fires only on a proven static suffix of at least this many later display-list members.
#[allow(non_snake_case)]
pub fn MLP209_STATIC_SUFFIX_GATE() -> (gate: &'static Threshold)
    ensures
        gate@ == mlp209_static_suffix_gate(),
{
    let gate: &'static Threshold = &Threshold {
        name: "static-suffix-gate",
        quantity: "N_moving_suffix",
        minimum: 8,
        rule_ids: &["MLP209"],
    };
    assert(gate@ =~= mlp209_static_suffix_gate());
    gate
}

/// `MLP222` fires only when every active Cairo profile rasterizes at least
/// this many pixels per frame: below 720p the full-frame composite is cheap.
pub const MLP222_MIN_PIXEL_AREA: u64 = 1280 * 720;

/// What [`MLP209`] declares.
pub open spec fn mlp209() -> MetadataView {
    MetadataView {
        id: "MLP209"@,
        summary: "Animated or updater-bearing object early in Cairo's display order re-rasterizes a large static suffix"@,
        default_enabled: true,
        default_severity: Severity::Info,
        minimum_confidence: Confidence::Medium,
        implementation_phase: 3,
        required_profiles: seq![],
        required_capabilities: seq!["lifecycle"@, "cost-facts"@],
        supersedes: seq![],
    }
}

/// Metadata of rule `MLP209`.
#[allow(non_snake_case)]
pub fn MLP209() -> (metadata: &'static RuleMetadata)
    ensures
        metadata@ == mlp209(),
{
    let metadata: &'static RuleMetadata = &RuleMetadata {
        id: "MLP209",
        summary: "Animated or updater-bearing object early in Cairo's display order re-rasterizes a large static suffix",
        default_enabled: true,
        default_severity: Severity::Info,
        minimum_confidence: Confidence::Medium,
        implementation_phase: 3,
        required_profiles: &[],
        required_capabilities: &["lifecycle", "cost-facts"],
        supersedes: &[],
    };
    assert(metadata@ =~= mlp209());
    metadata
}

/// A moving (animated, updater-bearing, or foreground) member near the front
/// of Cairo's effective display order whose static suffix is re-rasterized
/// every frame of the play.
///
/// Advisory: reordering the display list changes what draws over what, so
/// the suggestion is never an autofix and severity stays `info`.
pub struct FrontLoadedStaticSuffix;

pub const SUFFIX_END: &'static str = " If z-order permits, move the dynamic \
    object later or separate the static layer.";

pub const SUFFIX_WHY: &'static str = "Cairo partitions the effective z-ordered display list at the \
    first moving (animated, foreground, or updater-bearing) member: \
    everything after it is re-rasterized and composited every frame \
    (scene.py get_moving_mobjects), so a dynamic object near the \
    front turns the whole static remainder into per-frame work. \
    Reordering changes what draws over what, so this is advisory — \
    verify the visual stacking before moving anything.";

/// An exactly known whole number.
pub open spec fn exact_whole(value: Num) -> Option<i64> {
    match value {
        Num::Exact(NumLit::Int(n)) => Some(n),
        _ => None,
    }
}

pub fn read_exact_whole(value: &Num) -> (whole: Option<i64>)
    ensures
        whole == exact_whole(*value),
{
    match value {
        Num::Exact(NumLit::Int(n)) => Some(*n),
        _ => None,
    }
}

/// Position of the first moving member, when it is exactly known.
pub open spec fn first_moving(suffix: SuffixFact) -> Option<i64> {
    match suffix.first_moving_index {
        Some(index) => exact_whole(index),
        None => None,
    }
}

pub fn find_first_moving(suffix: &SuffixFact) -> (index: Option<i64>)
    ensures
        index == first_moving(*suffix),
{
    match &suffix.first_moving_index {
        Some(index) => read_exact_whole(index),
        None => None,
    }
}

/// Why the member at a position moves, from entry `i` on.
pub open spec fn reason_from(list: Seq<MemberEvidence>, position: i64, i: int) -> Option<
    MovingReason,
>
    decreases list.len() - i,
{
    if i < 0 || i >= list.len() {
        None
    } else if list[i].index == position {
        Some(list[i].reason)
    } else {
        reason_from(list, position, i + 1)
    }
}

fn find_reason(list: &Vec<MemberEvidence>, position: i64) -> (reason: Option<MovingReason>)
    ensures
        reason == reason_from(list@, position, 0),
{
    let mut i: usize = 0;
    while i < list.len()
        invariant
            i <= list@.len(),
            reason_from(list@, position, 0) == reason_from(list@, position, i as int),
        decreases list@.len() - i,
    {
        if position >= 0 && list[i].index as u64 == position as u64 {
            return Some(list[i].reason);
        }
        i += 1;
    }
    None
}

/// The exact moving suffix of one play.
pub struct ExactSuffix {
    pub first_index: i64,
    pub suffix_len: i64,
    pub reason: Option<MovingReason>,
    pub sentence: String,
}

/// The exact moving suffix of a play: first position, members behind it, why
/// the first one moves, and the suffix in words.
pub open spec fn suffix_of(play: PlayFact) -> Option<
    (i64, i64, Option<MovingReason>, Seq<char>),
> {
    match play.display {
        Some(display) => match display.suffix {
            Some(suffix) => match (
                first_moving(suffix),
                exact_whole(suffix.suffix_len),
                suffix.sentence,
            ) {
                (Some(first), Some(len), Some(text)) => if display.members is Some {
                    Some((first, len, reason_from(suffix.members_evidence@, first, 0), text@))
                } else {
                    None
                },
                _ => None,
            },
            None => None,
        },
        None => None,
    }
}

/// The exact quantification of one play's moving suffix; none when any part
/// of it is not proven (unknown order, interval bounds).
fn exact_suffix_at(play: &PlayFact) -> (exact: Option<ExactSuffix>)
    ensures
        match exact {
            Some(found) => suffix_of(*play) == Some(
                (found.first_index, found.suffix_len, found.reason, found.sentence@),
            ),
            None => suffix_of(*play) is None,
        },
{
    let display = match &play.display {
        Some(display) => display,
        None => {
            return None;
        },
    };
    let suffix = match &display.suffix {
        Some(suffix) => suffix,
        None => {
            return None;
        },
    };
    if display.members.is_none() {
        return None;
    }
    let first_index: i64 = match find_first_moving(suffix) {
        Some(first) => first,
        None => {
            return None;
        },
    };
    let suffix_len: i64 = match read_exact_whole(&suffix.suffix_len) {
        Some(len) => len,
        None => {
            return None;
        },
    };
    match &suffix.sentence {
        Some(sentence) => Some(
            ExactSuffix {
                first_index,
                suffix_len,
                reason: find_reason(&suffix.members_evidence, first_index),
                sentence: sentence.clone(),
            },
        ),
        None => None,
    }
}

/// What moves, in words.
pub open spec fn mover_text(reason: Option<MovingReason>) -> Seq<char> {
    match reason {
        Some(MovingReason::FamilyUpdater) => "An updater-bearing object"@,
        Some(MovingReason::AnimationTarget) => "An animated object"@,
        Some(MovingReason::Foreground) => "A foreground object"@,
        None => "A moving object"@,
    }
}

fn mover_of(reason: Option<MovingReason>) -> (text: &'static str)
    ensures
        text@ == mover_text(reason),
{
    match reason {
        Some(MovingReason::FamilyUpdater) => "An updater-bearing object",
        Some(MovingReason::AnimationTarget) => "An animated object",
        Some(MovingReason::Foreground) => "A foreground object",
        None => "A moving object",
    }
}

/// A truth value by name.
pub open spec fn truth_text(truth: Truth) -> Seq<char> {
    match truth {
        Truth::Yes => "Yes"@,
        Truth::No => "No"@,
        Truth::Maybe => "Maybe"@,
    }
}

fn truth_name(truth: Truth) -> (text: &'static str)
    ensures
        text@ == truth_text(truth),
{
    match truth {
        Truth::Yes => "Yes",
        Truth::No => "No",
        Truth::Maybe => "Maybe",
    }
}

/// The finding for the play at `k`.
pub open spec fn suffix_report_of(context: RuleContext<'_>, scene: SceneLifecycle, k: int) -> Option<
    DiagnosticView,
> {
    let play = scene.plays@[k];
    match suffix_of(play) {
        Some((first, len, reason, sentence)) => if cairo_names(
            context.config.active_profiles@,
        ).len() > 0 && !scene.constructor_state_unknown && rendering(play) && play.certainty
            == Presence::Present && mlp209_static_suffix_gate().passes(
            Num::Exact(NumLit::Int(len)),
        ) {
            let report = basic_report(
                mlp209(),
                context,
                play.site.file,
                play.site.spec_range(),
                mover_text(reason) + " "@ + sentence + SUFFIX_END@,
                SUFFIX_WHY@,
                EvidenceView::empty().insert(
                    "scene"@,
                    JsonView::Text(scene.qualified_name@),
                ).insert(
                    "threshold"@,
                    mlp209_static_suffix_gate().evidence(Num::Exact(NumLit::Int(len))),
                ).insert(
                    "citation"@,
                    JsonView::Text(mlp209_static_suffix_gate().citation()),
                ).insert("first_moving_index"@, JsonView::Whole(first as int)).insert(
                    "static_suffix_members"@,
                    JsonView::Whole(len as int),
                ).insert("frames"@, bounds_view(play_frames(context, play))).insert(
                    "camera_moving"@,
                    JsonView::Text(truth_text(camera_motion(scene.camera_kind))),
                ),
            );
            Some(
                DiagnosticView {
                    confidence: Confidence::High,
                    applicable_profiles: cairo_names(context.config.active_profiles@),
                    ..report
                },
            )
        } else {
            None
        },
        None => None,
    }
}

fn suffix_report_check(context: &RuleContext<'_>, scene: &SceneLifecycle, k: usize) -> (found:
    Option<Diagnostic>)
    requires
        k < scene.plays@.len(),
    ensures
        report_of(found) == suffix_report_of(*context, *scene, k as int),
{
    let play = &scene.plays[k];
    let names: Vec<String> = context.config.cairo_profile_names();
    assert(cairo_names(context.config.active_profiles@).len() == names@.len());
    if names.len() == 0 || scene.constructor_state_unknown || !renders_frames(play)
        || play.certainty != Presence::Present {
        return None;
    }
    let exact: ExactSuffix = match exact_suffix_at(play) {
        Some(exact) => exact,
        None => {
            return None;
        },
    };
    let suffix_len = Num::Exact(NumLit::Int(exact.suffix_len));
    let gate = MLP209_STATIC_SUFFIX_GATE();
    if !gate.confirmed_by(&suffix_len) {
        return None;
    }
    let frames = frames_at_play(context, play);
    let mut evidence = Evidence::new();
    evidence.insert("scene", json_text(scene.qualified_name.as_str()));
    evidence.insert("threshold", gate.evidence(&suffix_len));
    evidence.insert("citation", json_text(gate.citation().as_str()));
    evidence.insert("first_moving_index", Json::Whole(exact.first_index as i128));
    evidence.insert("static_suffix_members", Json::Whole(exact.suffix_len as i128));
    evidence.insert("frames", num_bounds_json(frames));
    evidence.insert("camera_moving", json_text(truth_name(camera_truth(scene.camera_kind))));
    let mut diagnostic = build_diagnostic(
        MLP209(),
        context,
        play.site.file,
        play.site.range(),
        cat4(mover_of(exact.reason), " ", exact.sentence.as_str(), SUFFIX_END),
        SUFFIX_WHY,
        evidence,
    );
    diagnostic.confidence = Confidence::High;
    diagnostic.applicable_profiles = names;
    Some(diagnostic)
}

/// The findings of a scene, in the order of its plays.
pub open spec fn suffix_report_items(context: RuleContext<'_>, scene: SceneLifecycle) -> spec_fn(
    int,
) -> Seq<DiagnosticView> {
    |k: int| found(suffix_report_of(context, scene, k))
}

/// The findings of the scene at `i`.
pub open spec fn suffix_report_at(context: RuleContext<'_>, i: int) -> Seq<DiagnosticView> {
    let scene = context.lifecycle_facts.scenes@[i];
    gather(scene.plays@.len() as int, suffix_report_items(context, scene))
}

fn suffix_report(context: &RuleContext<'_>, i: usize) -> (diagnostics: Vec<Diagnostic>)
    requires
        i < context.lifecycle_facts.scenes@.len(),
    ensures
        reports(diagnostics@) == suffix_report_at(*context, i as int),
{
    let scene = &context.lifecycle_facts.scenes[i];
    let mut diagnostics: Vec<Diagnostic> = Vec::new();
    let mut k: usize = 0;
    assert(reports(diagnostics@) =~= Seq::empty());
    while k < scene.plays.len()
        invariant
            k <= scene.plays@.len(),
            reports(diagnostics@) == gather(k as int, suffix_report_items(*context, *scene)),
        decreases scene.plays@.len() - k,
    {
        push_found(&mut diagnostics, suffix_report_check(context, scene, k));
        k += 1;
    }
    diagnostics
}

/// Findings of [`FrontLoadedStaticSuffix`], scene by scene.
pub open spec fn suffix_report_finder(context: RuleContext<'_>) -> spec_fn(int) -> Seq<DiagnosticView> {
    |i: int| suffix_report_at(context, i)
}

impl Rule for FrontLoadedStaticSuffix {
    open spec fn declared(&self) -> MetadataView {
        mlp209()
    }

    open spec fn findings(&self, context: RuleContext<'_>) -> Seq<DiagnosticView> {
        gather(context.lifecycle_facts.scenes@.len() as int, suffix_report_finder(context))
    }

    fn metadata(&self) -> (metadata: &'static RuleMetadata) {
        MLP209()
    }

    fn run(&self, context: &RuleContext<'_>) -> (diagnostics: Vec<Diagnostic>) {
        let scenes = &context.lifecycle_facts.scenes;
        let mut diagnostics: Vec<Diagnostic> = Vec::new();
        let mut i: usize = 0;
        assert(reports(diagnostics@) =~= Seq::empty());
        while i < scenes.len()
            invariant
                i <= scenes@.len(),
                scenes@ == context.lifecycle_facts.scenes@,
                reports(diagnostics@) == gather(i as int, suffix_report_finder(*context)),
            decreases scenes@.len() - i,
        {
            push_all(&mut diagnostics, suffix_report(context, i));
            i += 1;
        }
        diagnostics
    }
}

// ---------------------------------------------------------------------------
// MLP222: image inside the moving suffix.
// ---------------------------------------------------------------------------

/// What [`MLP222`] declares.
pub open spec fn mlp222() -> MetadataView {
    MetadataView {
        id: "MLP222"@,
        summary: "ImageMobject re-rasterized every frame inside Cairo's moving suffix"@,
        default_enabled: true,
        default_severity: Severity::Warning,
        minimum_confidence: Confidence::High,
        implementation_phase: 3,
        required_profiles: seq![],
        required_capabilities: seq!["lifecycle"@, "cost-facts"@],
        supersedes: seq![],
    }
}

/// Metadata of rule `MLP222`.
#[allow(non_snake_case)]
pub fn MLP222() -> (metadata: &'static RuleMetadata)
    ensures
        metadata@ == mlp222(),
{
    let metadata: &'static RuleMetadata = &RuleMetadata {
        id: "MLP222",
        summary: "ImageMobject re-rasterized every frame inside Cairo's moving suffix",
        default_enabled: true,
        default_severity: Severity::Warning,
        minimum_confidence: Confidence::High,
        implementation_phase: 3,
        required_profiles: &[],
        required_capabilities: &["lifecycle", "cost-facts"],
        supersedes: &[],
    };
    assert(metadata@ =~= mlp222());
    metadata
}

/// An `ImageMobject` that sits at or after the first moving member of Cairo's
/// effective display order during a rendering play: the image is
/// re-rasterized and composited at full frame resolution every frame.
pub struct ImageInMovingSuffix;

pub const IMAGE_START: &'static str = "This ImageMobject sits at position ";

pub const IMAGE_MIDDLE: &'static str = " of \
    Cairo's effective display list, at or after the first moving \
    member: it is re-rasterized and composited ";

pub const IMAGE_END: &'static str = ". If \
    the image is static background, give it a lower z_index (or \
    add it before the moving objects) so it stays in the static \
    base.";

pub const IMAGE_WHY: &'static str = "Cairo re-rasterizes every display-list member from the first \
    moving one onward, each frame, and composites the result over \
    the full frame (scene.py get_moving_mobjects; DESIGN 4.3 \
    Cairo stage). Image rasters pay per-pixel work — expensive \
    for large images — even when the image itself never changes. \
    The image's own pixel size is not statically known; the \
    re-raster claim holds regardless.";

pub const IMAGE_PLAY: &'static str = "this play re-rasterizes the image every frame \
    (display position ";

pub const IMAGE_AREA: &'static str = "unknown (no pixel-area fact; size described qualitatively)";

/// Whether every Cairo profile has at least `area` pixels.
pub open spec fn cairo_large(profiles: Seq<RenderProfile>, area: u64) -> bool {
    forall|i: int|
        0 <= i < profiles.len() && (#[trigger] profiles[i]).renderer == Renderer::Cairo
            ==> profiles[i].spec_pixel_area() >= area
}

fn is_cairo_large(profiles: &Vec<RenderProfile>, area: u64) -> (all: bool)
    ensures
        all == cairo_large(profiles@, area),
{
    let mut i: usize = 0;
    while i < profiles.len()
        invariant
            i <= profiles@.len(),
            forall|j: int|
                0 <= j < i && (#[trigger] profiles@[j]).renderer == Renderer::Cairo
                    ==> profiles@[j].spec_pixel_area() >= area,
        decreases profiles@.len() - i,
    {
        if profiles[i].renderer == Renderer::Cairo && profiles[i].pixel_area() < area {
            return false;
        }
        i += 1;
    }
    true
}

/// Pixel areas of the Cairo profiles.
pub open spec fn cairo_area_views(profiles: Seq<RenderProfile>) -> Seq<JsonView>
    decreases profiles.len(),
{
    if profiles.len() == 0 {
        Seq::empty()
    } else if profiles.last().renderer == Renderer::Cairo {
        cairo_area_views(profiles.drop_last()).push(area_view(profiles.last()))
    } else {
        cairo_area_views(profiles.drop_last())
    }
}

fn cairo_areas_json(profiles: &Vec<RenderProfile>) -> (value: Json)
    ensures
        value@ == JsonView::List(cairo_area_views(profiles@)),
{
    let mut items: Vec<Json> = Vec::new();
    let mut i: usize = 0;
    assert(json_items(items@) =~= cairo_area_views(profiles@.take(0)));
    while i < profiles.len()
        invariant
            i <= profiles@.len(),
            json_items(items@) == cairo_area_views(profiles@.take(i as int)),
        decreases profiles@.len() - i,
    {
        assert(profiles@.take(i + 1).drop_last() =~= profiles@.take(i as int));
        if profiles[i].renderer == Renderer::Cairo {
            let item: Json = pixel_area_json(&profiles[i]);
            let ghost before = items@;
            items.push(item);
            assert(json_items(items@) =~= json_items(before).push(item@));
        }
        i += 1;
    }
    assert(profiles@.take(i as int) =~= profiles@);
    json_list(items)
}

/// Whether the play animates the member: that is the play's purpose, not a
/// re-raster defect.
pub open spec fn animated_member(list: Seq<MemberEvidence>, id: ObjectId) -> bool {
    exists|i: int|
        0 <= i < list.len() && (#[trigger] list[i]).id == id && list[i].reason
            == MovingReason::AnimationTarget
}

fn is_animated_member(list: &Vec<MemberEvidence>, id: ObjectId) -> (animated: bool)
    ensures
        animated == animated_member(list@, id),
{
    let mut i: usize = 0;
    while i < list.len()
        invariant
            i <= list@.len(),
            forall|j: int|
                0 <= j < i ==> !((#[trigger] list@[j]).id == id && list@[j].reason
                    == MovingReason::AnimationTarget),
        decreases list@.len() - i,
    {
        if list[i].id == id && list[i].reason == MovingReason::AnimationTarget {
            return true;
        }
        i += 1;
    }
    false
}

/// Members of the known display list of a play.
pub open spec fn members_of(play: PlayFact) -> Seq<ObjectId> {
    match play.display {
        Some(display) => match display.members {
            Some(members) => members@,
            None => Seq::empty(),
        },
        None => Seq::empty(),
    }
}

/// Whether the member at `m` is an image that the play re-rasterizes.
pub open spec fn caught(scene: SceneLifecycle, p: int, m: int) -> bool {
    let play = scene.plays@[p];
    let member = members_of(play)[m];
    rendering(play) && play.certainty == Presence::Present && match play.display {
        Some(display) => match display.suffix {
            Some(suffix) => match first_moving(suffix) {
                Some(first) => 0 <= first <= m && !animated_member(
                    suffix.members_evidence@,
                    member,
                ) && match scene.spec_state_at(play.site.file, play.site.end) {
                    Some(snapshot) => match snapshot.heap.spec_object(member) {
                        Some(state) => definite_kind(state.kind, IMAGE_MOBJECT@),
                        None => false,
                    },
                    None => false,
                },
                None => false,
            },
            None => false,
        },
        None => false,
    }
}

fn is_caught(scene: &SceneLifecycle, p: usize, m: usize, member: ObjectId) -> (hit: bool)
    requires
        p < scene.plays@.len(),
        m < members_of(scene.plays@[p as int]).len(),
        member == members_of(scene.plays@[p as int])[m as int],
    ensures
        hit == caught(*scene, p as int, m as int),
{
    let play = &scene.plays[p];
    if !renders_frames(play) || play.certainty != Presence::Present {
        return false;
    }
    let display = match &play.display {
        Some(display) => display,
        None => {
            return false;
        },
    };
    let suffix = match &display.suffix {
        Some(suffix) => suffix,
        None => {
            return false;
        },
    };
    let first: i64 = match find_first_moving(suffix) {
        Some(first) => first,
        None => {
            return false;
        },
    };
    if first < 0 || first as u64 > m as u64 || is_animated_member(
        &suffix.members_evidence,
        member,
    ) {
        return false;
    }
    match scene.state_at(play.site.file, play.site.end) {
        Some(snapshot) => match snapshot.heap.object(&member) {
            Some(state) => definitely_kind(&state.kind, IMAGE_MOBJECT),
            None => false,
        },
        None => false,
    }
}

/// An image in the moving suffix of a play.
#[derive(Clone, Copy, Debug, PartialEq, Eq, Structural)]
pub struct ImageHit {
    pub image: ObjectId,
    /// Position of the play in its scene.
    pub play: usize,
    /// Position in the display list, and its length.
    pub index: usize,
    pub total: usize,
}

/// The hit at `m`.
pub open spec fn hit_at(scene: SceneLifecycle, p: int, m: int) -> ImageHit {
    let members = members_of(scene.plays@[p]);
    ImageHit { image: members[m], play: p as usize, index: m as usize, total: members.len() as usize }
}

/// Hits of the play at `p`, member by member.
pub open spec fn member_hits(scene: SceneLifecycle, p: int) -> spec_fn(int) -> Seq<ImageHit> {
    |m: int|
        if caught(scene, p, m) {
            seq![hit_at(scene, p, m)]
        } else {
            Seq::empty()
        }
}

/// Hits of a scene, play by play.
pub open spec fn play_hits(scene: SceneLifecycle) -> spec_fn(int) -> Seq<ImageHit> {
    |p: int| gather(members_of(scene.plays@[p]).len() as int, member_hits(scene, p))
}

/// All images that the plays of a scene re-rasterize, in play order.
pub open spec fn scene_hits(scene: SceneLifecycle) -> Seq<ImageHit> {
    gather(scene.plays@.len() as int, play_hits(scene))
}

/// Whether the hits of a list have positions inside their display lists.
pub open spec fn hits_fit(list: Seq<ImageHit>, plays: int) -> bool {
    forall|i: int|
        0 <= i < list.len() ==> (#[trigger] list[i]).index < list[i].total && list[i].play < plays
}

fn add_play_hits(scene: &SceneLifecycle, p: usize, hits: &mut Vec<ImageHit>)
    requires
        p < scene.plays@.len(),
        hits_fit(old(hits)@, scene.plays@.len() as int),
    ensures
        final(hits)@ == old(hits)@ + play_hits(*scene)(p as int),
        hits_fit(final(hits)@, scene.plays@.len() as int),
{
    let play = &scene.plays[p];
    let ghost start = hits@;
    let none: Vec<ObjectId> = Vec::new();
    let members: &Vec<ObjectId> = match &play.display {
        Some(display) => match &display.members {
            Some(members) => members,
            None => &none,
        },
        None => &none,
    };
    assert(members@ =~= members_of(*play));
    let mut m: usize = 0;
    assert(hits@ =~= start + gather(0, member_hits(*scene, p as int)));
    while m < members.len()
        invariant
            p < scene.plays@.len(),
            m <= members@.len(),
            members@ == members_of(scene.plays@[p as int]),
            hits@ == start + gather(m as int, member_hits(*scene, p as int)),
            hits_fit(hits@, scene.plays@.len() as int),
        decreases members@.len() - m,
    {
        let ghost before = hits@;
        if is_caught(scene, p, m, members[m]) {
            hits.push(ImageHit { image: members[m], play: p, index: m, total: members.len() });
            assert(hits@ =~= before + member_hits(*scene, p as int)(m as int));
        } else {
            assert(hits@ =~= before + member_hits(*scene, p as int)(m as int));
        }
        assert(hits@ =~= start + gather(m + 1, member_hits(*scene, p as int)));
        m += 1;
    }
}

/// Collects the images that the plays of a scene re-rasterize.
fn find_scene_hits(scene: &SceneLifecycle) -> (hits: Vec<ImageHit>)
    ensures
        hits@ == scene_hits(*scene),
        hits_fit(hits@, scene.plays@.len() as int),
{
    let mut hits: Vec<ImageHit> = Vec::new();
    let mut p: usize = 0;
    assert(hits@ =~= gather(0, play_hits(*scene)));
    while p < scene.plays.len()
        invariant
            p <= scene.plays@.len(),
            hits@ == gather(p as int, play_hits(*scene)),
            hits_fit(hits@, scene.plays@.len() as int),
        decreases scene.plays@.len() - p,
    {
        add_play_hits(scene, p, &mut hits);
        p += 1;
    }
    hits
}

/// The images of a list of hits.
pub open spec fn hit_images(hits: Seq<ImageHit>) -> Seq<ObjectId> {
    Seq::new(hits.len(), |i: int| hits[i].image)
}

/// The images of a scene that are re-rasterized, in order, each once.
pub open spec fn images_of(scene: SceneLifecycle) -> Seq<ObjectId> {
    sorted_objects(hit_images(scene_hits(scene)))
}

fn distinct_images(hits: &Vec<ImageHit>) -> (images: Vec<ObjectId>)
    ensures
        images@ == sorted_objects(hit_images(hits@)),
{
    let mut images: Vec<ObjectId> = Vec::new();
    let mut i: usize = 0;
    assert(hit_images(hits@).take(0) =~= Seq::empty());
    while i < hits.len()
        invariant
            i <= hits@.len(),
            images@ == sorted_objects(hit_images(hits@).take(i as int)),
        decreases hits@.len() - i,
    {
        assert(hit_images(hits@).take(i + 1).drop_last() =~= hit_images(hits@).take(i as int));
        assert(hit_images(hits@).take(i + 1).last() == hits@[i as int].image);
        place_object(&mut images, hits[i].image);
        i += 1;
    }
    assert(hit_images(hits@).take(i as int) =~= hit_images(hits@));
    images
}

/// The hits of one image, in play order.
pub open spec fn hits_of(hits: Seq<ImageHit>, image: ObjectId) -> Seq<ImageHit>
    decreases hits.len(),
{
    if hits.len() == 0 {
        Seq::empty()
    } else if hits.last().image == image {
        hits_of(hits.drop_last(), image).push(hits.last())
    } else {
        hits_of(hits.drop_last(), image)
    }
}

fn select_hits(hits: &Vec<ImageHit>, image: ObjectId, Ghost(plays): Ghost<int>) -> (list: Vec<ImageHit>)
    requires
        hits_fit(hits@, plays),
    ensures
        list@ == hits_of(hits@, image),
        hits_fit(list@, plays),
{
    let mut list: Vec<ImageHit> = Vec::new();
    let mut i: usize = 0;
    assert(list@ =~= hits_of(hits@.take(0), image));
    while i < hits.len()
        invariant
            i <= hits@.len(),
            hits_fit(hits@, plays),
            list@ == hits_of(hits@.take(i as int), image),
            hits_fit(list@, plays),
        decreases hits@.len() - i,
    {
        assert(hits@.take(i + 1).drop_last() =~= hits@.take(i as int));
        if hits[i].image == image {
            list.push(hits[i]);
        }
        i += 1;
    }
    assert(hits@.take(i as int) =~= hits@);
    list
}

/// The plays of a list of hits.
pub open spec fn hit_plays(hits: Seq<ImageHit>) -> Seq<usize> {
    Seq::new(hits.len(), |i: int| hits[i].play)
}

fn plays_of_hits(hits: &Vec<ImageHit>) -> (plays: Vec<usize>)
    ensures
        plays@ == hit_plays(hits@),
{
    let mut plays: Vec<usize> = Vec::new();
    let mut i: usize = 0;
    while i < hits.len()
        invariant
            i <= hits@.len(),
            plays@.len() == i,
            forall|j: int| 0 <= j < i ==> #[trigger] plays@[j] == hits@[j].play,
        decreases hits@.len() - i,
    {
        plays.push(hits[i].play);
        i += 1;
    }
    assert(plays@ =~= hit_plays(hits@));
    plays
}

/// For each image of a scene, the plays that re-rasterize it, by position.
pub fn image_plays(scene: &SceneLifecycle) -> (lists: Vec<Vec<usize>>)
    ensures
        lists@.len() == images_of(*scene).len(),
        forall|i: int|
            0 <= i < lists@.len() ==> (#[trigger] lists@[i])@ == hit_plays(
                hits_of(scene_hits(*scene), images_of(*scene)[i]),
            ),
{
    let hits: Vec<ImageHit> = find_scene_hits(scene);
    let images: Vec<ObjectId> = distinct_images(&hits);
    let mut lists: Vec<Vec<usize>> = Vec::new();
    let mut i: usize = 0;
    while i < images.len()
        invariant
            i <= images@.len(),
            images@ == images_of(*scene),
            hits@ == scene_hits(*scene),
            hits_fit(hits@, scene.plays@.len() as int),
            lists@.len() == i,
            forall|j: int|
                0 <= j < i ==> (#[trigger] lists@[j])@ == hit_plays(
                    hits_of(scene_hits(*scene), images_of(*scene)[j]),
                ),
        decreases images@.len() - i,
    {
        let list: Vec<ImageHit> = select_hits(&hits, images[i], Ghost(scene.plays@.len() as int));
        lists.push(plays_of_hits(&list));
        i += 1;
    }
    lists
}

/// `position/total` of a hit.
pub open spec fn position_text(hit: ImageHit) -> Seq<char> {
    numeral((hit.index + 1) as nat) + "/"@ + numeral(hit.total as nat)
}

fn show_position(hit: &ImageHit) -> (text: String)
    requires
        hit.index < hit.total,
    ensures
        text@ == position_text(*hit),
{
    cat3(decimal_size(hit.index + 1).as_str(), "/", decimal_size(hit.total).as_str())
}

/// Related locations at the plays of an image.
pub open spec fn hit_locations(
    context: RuleContext<'_>,
    scene: SceneLifecycle,
    hits: Seq<ImageHit>,
) -> Seq<RelatedView> {
    Seq::new(
        hits.len(),
        |i: int|
            related_at(
                context,
                scene.plays@[hits[i].play as int].site,
                IMAGE_PLAY@ + position_text(hits[i]) + ")"@,
            ),
    )
}

fn locate_hits(context: &RuleContext<'_>, scene: &SceneLifecycle, hits: &Vec<ImageHit>) -> (related:
    Vec<RelatedLocation>)
    requires
        hits_fit(hits@, scene.plays@.len() as int),
    ensures
        related_views(related@) == hit_locations(*context, *scene, hits@),
{
    let mut related: Vec<RelatedLocation> = Vec::new();
    let mut i: usize = 0;
    while i < hits.len()
        invariant
            i <= hits@.len(),
            hits_fit(hits@, scene.plays@.len() as int),
            related@.len() == i,
            forall|j: int|
                0 <= j < i ==> (#[trigger] related@[j])@ == related_at(
                    *context,
                    scene.plays@[hits@[j].play as int].site,
                    IMAGE_PLAY@ + position_text(hits@[j]) + ")"@,
                ),
        decreases hits@.len() - i,
    {
        let hit = &hits[i];
        assert(hits@[i as int].index < hits@[i as int].total);
        related.push(
            related_site(
                context,
                scene.plays[hit.play].site,
                cat3(IMAGE_PLAY, show_position(hit).as_str(), ")"),
            ),
        );
        i += 1;
    }
    assert(related_views(related@) =~= hit_locations(*context, *scene, hits@));
    related
}

/// How long the image is re-rasterized. Without a real bound the clause says
/// "every frame" instead of a zero-looking lower bound.
pub open spec fn span_clause(frames: Num, plays: nat) -> Seq<char> {
    let bounded = frames.spec_upper_bound() is Some || match frames.spec_lower_bound() {
        Some(lower) => lower.above_zero(),
        None => false,
    };
    if bounded {
        "for "@ + frames_text(frames) + " frames across "@ + numeral(plays) + " play(s)"@
    } else {
        "for every frame of "@ + numeral(plays) + " play(s)"@
    }
}

fn describe_span(frames: &Num, plays: usize) -> (text: String)
    ensures
        text@ == span_clause(*frames, plays as nat),
{
    let positive: bool = match frames.lower_bound() {
        Some(lower) => lower.positive(),
        None => false,
    };
    let count: String = decimal_size(plays);
    if frames.upper_bound().is_some() || positive {
        cat5(
            "for ",
            display_frames(frames).as_str(),
            " frames across ",
            count.as_str(),
            " play(s)",
        )
    } else {
        cat3("for every frame of ", count.as_str(), " play(s)")
    }
}

/// The report on one image.
pub open spec fn image_report(
    context: RuleContext<'_>,
    scene: SceneLifecycle,
    image: ObjectId,
    hits: Seq<ImageHit>,
    frames: Num,
) -> DiagnosticView {
    let report = basic_report(
        mlp222(),
        context,
        image.site.file,
        image.site.spec_range(),
        IMAGE_START@ + position_text(hits[0]) + IMAGE_MIDDLE@ + span_clause(frames, hits.len())
            + IMAGE_END@,
        IMAGE_WHY@,
        EvidenceView::empty().insert("scene"@, JsonView::Text(scene.qualified_name@)).insert(
            "resolved"@,
            JsonView::Text(IMAGE_MOBJECT@),
        ).insert(
            "display_position"@,
            JsonView::Object(
                seq![
                    ("index"@, JsonView::Whole(hits[0].index as int)),
                    ("total"@, JsonView::Whole(hits[0].total as int)),
                ],
            ),
        ).insert("plays_in_moving_suffix"@, JsonView::Whole(hits.len() as int)).insert(
            "frames"@,
            bounds_view(frames),
        ).insert(
            "frame_pixels"@,
            JsonView::List(cairo_area_views(context.config.active_profiles@)),
        ).insert("image_area"@, JsonView::Text(IMAGE_AREA@)),
    );
    DiagnosticView {
        related_locations: hit_locations(context, scene, hits),
        applicable_profiles: cairo_names(context.config.active_profiles@),
        ..report
    }
}

/// The finding for one image.
pub open spec fn image_finding(context: RuleContext<'_>, scene: SceneLifecycle, image: ObjectId) -> Option<
    DiagnosticView,
> {
    let hits = hits_of(scene_hits(scene), image);
    if hits.len() > 0 {
        Some(
            image_report(
                context,
                scene,
                image,
                hits,
                sum_of(context, scene, hit_plays(hits), PlayQuantity::EstimatedFrames),
            ),
        )
    } else {
        None
    }
}

fn check_image(
    context: &RuleContext<'_>,
    scene: &SceneLifecycle,
    all: &Vec<ImageHit>,
    image: ObjectId,
) -> (found: Option<Diagnostic>)
    requires
        all@ == scene_hits(*scene),
        hits_fit(all@, scene.plays@.len() as int),
    ensures
        report_of(found) == image_finding(*context, *scene, image),
{
    let hits: Vec<ImageHit> = select_hits(all, image, Ghost(scene.plays@.len() as int));
    if hits.len() == 0 {
        return None;
    }
    let plays: Vec<usize> = plays_of_hits(&hits);
    let what = PlayQuantity::EstimatedFrames;
    let added: Num = add_up(context, scene, &plays, what);
    let frames: &Num = best_sum(context, scene, &plays, what, &added);
    assert(hits@[0].index < hits@[0].total);
    let first = &hits[0];
    let mut evidence = Evidence::new();
    evidence.insert("scene", json_text(scene.qualified_name.as_str()));
    evidence.insert("resolved", json_text(IMAGE_MOBJECT));
    evidence.insert(
        "display_position",
        json_object2("index", json_size(first.index), "total", json_size(first.total)),
    );
    evidence.insert("plays_in_moving_suffix", json_size(hits.len()));
    evidence.insert("frames", num_bounds_json(frames));
    evidence.insert("frame_pixels", cairo_areas_json(&context.config.active_profiles));
    evidence.insert("image_area", json_text(IMAGE_AREA));
    let mut diagnostic = build_diagnostic(
        MLP222(),
        context,
        image.site.file,
        image.site.range(),
        cat5(
            IMAGE_START,
            show_position(first).as_str(),
            IMAGE_MIDDLE,
            describe_span(frames, hits.len()).as_str(),
            IMAGE_END,
        ),
        IMAGE_WHY,
        evidence,
    );
    diagnostic.related_locations = locate_hits(context, scene, &hits);
    diagnostic.applicable_profiles = context.config.cairo_profile_names();
    Some(diagnostic)
}

/// Findings of a scene, image by image.
pub open spec fn image_parts(context: RuleContext<'_>, scene: SceneLifecycle) -> spec_fn(
    int,
) -> Seq<DiagnosticView> {
    |k: int| found(image_finding(context, scene, images_of(scene)[k]))
}

/// The findings of the scene at `i`.
pub open spec fn image_at(context: RuleContext<'_>, i: int) -> Seq<DiagnosticView> {
    let scene = context.lifecycle_facts.scenes@[i];
    if cairo_names(context.config.active_profiles@).len() > 0 && cairo_large(
        context.config.active_profiles@,
        MLP222_MIN_PIXEL_AREA,
    ) && !scene.constructor_state_unknown {
        gather(images_of(scene).len() as int, image_parts(context, scene))
    } else {
        Seq::empty()
    }
}

fn image(context: &RuleContext<'_>, i: usize) -> (diagnostics: Vec<Diagnostic>)
    requires
        i < context.lifecycle_facts.scenes@.len(),
    ensures
        reports(diagnostics@) == image_at(*context, i as int),
{
    let scene = &context.lifecycle_facts.scenes[i];
    let mut diagnostics: Vec<Diagnostic> = Vec::new();
    assert(reports(diagnostics@) =~= Seq::empty());
    let names: Vec<String> = context.config.cairo_profile_names();
    assert(cairo_names(context.config.active_profiles@).len() == names@.len());
    if names.len() == 0 || !is_cairo_large(&context.config.active_profiles, MLP222_MIN_PIXEL_AREA)
        || scene.constructor_state_unknown {
        return diagnostics;
    }
    let hits: Vec<ImageHit> = find_scene_hits(scene);
    let images: Vec<ObjectId> = distinct_images(&hits);
    let mut k: usize = 0;
    while k < images.len()
        invariant
            k <= images@.len(),
            images@ == images_of(*scene),
            hits@ == scene_hits(*scene),
            hits_fit(hits@, scene.plays@.len() as int),
            reports(diagnostics@) == gather(k as int, image_parts(*context, *scene)),
        decreases images@.len() - k,
    {
        push_found(&mut diagnostics, check_image(context, scene, &hits, images[k]));
        k += 1;
    }
    diagnostics
}

/// Findings of [`ImageInMovingSuffix`], scene by scene.
pub open spec fn image_finder(context: RuleContext<'_>) -> spec_fn(int) -> Seq<DiagnosticView> {
    |i: int| image_at(context, i)
}

impl Rule for ImageInMovingSuffix {
    open spec fn declared(&self) -> MetadataView {
        mlp222()
    }

    open spec fn findings(&self, context: RuleContext<'_>) -> Seq<DiagnosticView> {
        gather(context.lifecycle_facts.scenes@.len() as int, image_finder(context))
    }

    fn metadata(&self) -> (metadata: &'static RuleMetadata) {
        MLP222()
    }

    fn run(&self, context: &RuleContext<'_>) -> (diagnostics: Vec<Diagnostic>) {
        let scenes = &context.lifecycle_facts.scenes;
        let mut diagnostics: Vec<Diagnostic> = Vec::new();
        let mut i: usize = 0;
        assert(reports(diagnostics@) =~= Seq::empty());
        while i < scenes.len()
            invariant
                i <= scenes@.len(),
                scenes@ == context.lifecycle_facts.scenes@,
                reports(diagnostics@) == gather(i as int, image_finder(*context)),
            decreases scenes@.len() - i,
        {
            push_all(&mut diagnostics, image(context, i));
            i += 1;
        }
        diagnostics
    }
}

} // verus!
