//! Play-timing rules: `MLP205` and `MLP206`.
use super::frame_scope::{inert_heap, is_inert_heap, snapshot_before};
use super::support::{conclusive_target, goal_of};
use crate::config::RenderProfile;
use crate::cost::call_cost_from;
use crate::diagnostic::{
    push_all, push_found, report_of, reports, Confidence, Diagnostic, DiagnosticView, MetadataView,
    RuleMetadata, Severity,
};
use crate::json::{
    bounds_view, double_view, json_double, json_items, json_list, json_object2, json_text,
    num_bounds_json, Evidence, EvidenceView, Json, JsonView,
};
use crate::knowledge::KnowledgeProfile;
use crate::numbers::{
    at_most, below, display_frames, display_seconds, finite, frames_text, is_finite, real_at_most,
    real_below, seconds_text, Num,
};
use crate::rules::base::{basic_report, build_diagnostic, Rule, RuleContext};
use crate::rules::lifecycle::support::{bound_receiver, is_bound, SCENE_PLAY, SCENE_WAIT};
use crate::semantic::{PlayFact, PlayKind, Presence, SceneLifecycle, Truth};
use crate::text::{cat2, cat3, cat5, found, gather, join, joined, same_text, texts};
use vstd::prelude::*;

verus! {

// ---------------------------------------------------------------------------
// MLP206: literal duration shorter than one frame.
// ---------------------------------------------------------------------------

/// What [`MLP206`] declares.
pub open spec fn mlp206() -> MetadataView {
    MetadataView {
        id: "MLP206"@,
        summary: "Literal play duration shorter than one frame is clamped"@,
        default_enabled: true,
        default_severity: Severity::Warning,
        minimum_confidence: Confidence::Certain,
        implementation_phase: 3,
        required_profiles: seq![],
        required_capabilities: seq!["qualified-calls"@, "cost-facts"@],
        supersedes: seq![],
    }
}

/// Metadata of rule `MLP206`.
#[allow(non_snake_case)]
pub fn MLP206() -> (metadata: &'static RuleMetadata)
    ensures
        metadata@ == mlp206(),
{
    let metadata: &'static RuleMetadata = &RuleMetadata {
        id: "MLP206",
        summary: "Literal play duration shorter than one frame is clamped",
        default_enabled: true,
        default_severity: Severity::Warning,
        minimum_confidence: Confidence::Certain,
        implementation_phase: 3,
        required_profiles: &[],
        required_capabilities: &["qualified-calls", "cost-facts"],
        supersedes: &[],
    };
    assert(metadata@ =~= mlp206());
    metadata
}

/// A `play` or `wait` whose literal duration is provably shorter than one
/// frame at every analyzed profile's frame rate: the play is clamped to a
/// single rendered frame.
pub struct SubFrameDuration;

pub const SUB_FRAME_END: &'static str = ": Manim clamps this to a single rendered frame, so \
    the whole play startup (compile, hash, begin copies, cleanup) \
    is paid for one frame of output.";

pub const SUB_FRAME_WHY: &'static str = "The frame grid is `np.arange(0, run_time, 1/frame_rate)`: a run \
    time below one frame period still renders exactly one frame, so \
    the animation shows only its final state while the per-play \
    fixed costs remain. Either extend the duration to cover the \
    intended motion or apply the final state directly without a \
    play.";

/// Whether there are profiles and all have a usable frame rate.
pub open spec fn rates_usable(profiles: Seq<RenderProfile>) -> bool {
    profiles.len() > 0 && forall|i: int|
        0 <= i < profiles.len() ==> is_finite((#[trigger] profiles[i]).frame_rate.bits)
            && !real_at_most(profiles[i].frame_rate.bits, 0)
}

fn are_rates_usable(profiles: &Vec<RenderProfile>) -> (usable: bool)
    ensures
        usable == rates_usable(profiles@),
{
    if profiles.len() == 0 {
        return false;
    }
    let mut i: usize = 0;
    while i < profiles.len()
        invariant
            i <= profiles@.len(),
            forall|j: int|
                0 <= j < i ==> is_finite((#[trigger] profiles@[j]).frame_rate.bits)
                    && !real_at_most(profiles@[j].frame_rate.bits, 0),
        decreases profiles@.len() - i,
    {
        let rate: u64 = profiles[i].frame_rate.bits;
        if !finite(rate) || at_most(rate, 0) {
            assert(profiles@[i as int].frame_rate.bits == rate);
            return false;
        }
        i += 1;
    }
    true
}

/// Whether a time is below one frame under every profile.
pub open spec fn below_frame(profiles: Seq<RenderProfile>, upper: u64) -> bool {
    forall|i: int|
        0 <= i < profiles.len() ==> real_below(upper, (#[trigger] profiles[i]).frame_seconds.bits)
}

fn is_below_frame(profiles: &Vec<RenderProfile>, upper: u64) -> (all: bool)
    ensures
        all == below_frame(profiles@, upper),
{
    let mut i: usize = 0;
    while i < profiles.len()
        invariant
            i <= profiles@.len(),
            forall|j: int|
                0 <= j < i ==> real_below(upper, (#[trigger] profiles@[j]).frame_seconds.bits),
        decreases profiles@.len() - i,
    {
        if !below(upper, profiles[i].frame_seconds.bits) {
            return false;
        }
        i += 1;
    }
    true
}

/// Frame periods of the profiles.
pub open spec fn frame_views(profiles: Seq<RenderProfile>) -> JsonView {
    JsonView::List(
        Seq::new(
            profiles.len(),
            |i: int|
                JsonView::Object(
                    seq![
                        ("profile"@, JsonView::Text(profiles[i].name@)),
                        ("frame_seconds"@, double_view(profiles[i].frame_seconds.bits)),
                    ],
                ),
        ),
    )
}

fn frames_json(profiles: &Vec<RenderProfile>) -> (value: Json)
    ensures
        value@ == frame_views(profiles@),
{
    let mut items: Vec<Json> = Vec::new();
    let mut i: usize = 0;
    while i < profiles.len()
        invariant
            i <= profiles@.len(),
            items@.len() == i,
            forall|j: int|
                0 <= j < i ==> (#[trigger] items@[j])@ == JsonView::Object(
                    seq![
                        ("profile"@, JsonView::Text(profiles@[j].name@)),
                        ("frame_seconds"@, double_view(profiles@[j].frame_seconds.bits)),
                    ],
                ),
        decreases profiles@.len() - i,
    {
        let profile = &profiles[i];
        items.push(
            json_object2(
                "profile",
                json_text(profile.name.as_str()),
                "frame_seconds",
                json_double(profile.frame_seconds.bits),
            ),
        );
        i += 1;
    }
    assert(json_items(items@) =~= frame_views(profiles@)->List_0);
    json_list(items)
}

/// Frame rates of the profiles in words.
pub open spec fn rate_texts(profiles: Seq<RenderProfile>) -> Seq<Seq<char>> {
    Seq::new(profiles.len(), |i: int| profiles[i].frame_rate.shown@ + " fps"@)
}

fn fps_list(profiles: &Vec<RenderProfile>) -> (text: String)
    ensures
        text@ == joined(rate_texts(profiles@), ", "@),
{
    let mut list: Vec<String> = Vec::new();
    let mut i: usize = 0;
    while i < profiles.len()
        invariant
            i <= profiles@.len(),
            list@.len() == i,
            forall|j: int|
                0 <= j < i ==> (#[trigger] list@[j])@ == profiles@[j].frame_rate.shown@ + " fps"@,
        decreases profiles@.len() - i,
    {
        list.push(cat2(profiles[i].frame_rate.shown.as_str(), " fps"));
        i += 1;
    }
    assert(texts(list@) =~= rate_texts(profiles@));
    join(&list, ", ")
}

/// The duration of a `play` or `wait` call.
pub open spec fn call_duration(context: RuleContext<'_>, i: int, canonical: Seq<char>) -> Num {
    match call_cost_from(context.cost_facts.call_costs@, i as usize, 0) {
        Some(cost) => if canonical == SCENE_PLAY@ {
            cost.run_time
        } else {
            cost.wait_time
        },
        None => Num::Unknown,
    }
}

/// The finding for the call at `i`.
pub open spec fn sub_frame_at(context: RuleContext<'_>, i: int) -> Option<DiagnosticView> {
    let call = context.qualified_calls.calls@[i];
    let profiles = context.config.active_profiles@;
    match context.knowledge {
        Some(profile) => match goal_of(*profile, context.project_index, call) {
            Some(canonical) => {
                let duration = call_duration(context, i, canonical);
                match (duration.spec_lower_bound(), duration.spec_upper_bound()) {
                    (Some(lower), Some(upper)) => if rates_usable(profiles) && is_bound(call) && (
                    canonical == SCENE_PLAY@ || canonical == SCENE_WAIT@) && !real_at_most(
                        lower.pattern(),
                        0,
                    ) && below_frame(profiles, upper.pattern()) {
                        Some(
                            basic_report(
                                mlp206(),
                                context,
                                call.file,
                                call.call_range,
                                "The literal duration "@ + seconds_text(duration)
                                    + " is shorter than one frame at "@ + joined(
                                    rate_texts(profiles),
                                    ", "@,
                                ) + SUB_FRAME_END@,
                                SUB_FRAME_WHY@,
                                EvidenceView::empty().insert(
                                    "resolved"@,
                                    JsonView::Text(canonical),
                                ).insert("duration_seconds"@, bounds_view(duration)).insert(
                                    "profiles"@,
                                    frame_views(profiles),
                                ).insert(
                                    "frames"@,
                                    JsonView::Object(
                                        seq![
                                            ("lower"@, JsonView::Whole(1)),
                                            ("upper"@, JsonView::Whole(1)),
                                        ],
                                    ),
                                ),
                            ),
                        )
                    } else {
                        None
                    },
                    _ => None,
                }
            },
            None => None,
        },
        None => None,
    }
}

fn sub_frame(context: &RuleContext<'_>, i: usize) -> (found: Option<Diagnostic>)
    requires
        i < context.qualified_calls.calls@.len(),
    ensures
        report_of(found) == sub_frame_at(*context, i as int),
{
    let call = &context.qualified_calls.calls[i];
    let profiles = &context.config.active_profiles;
    let profile = match context.knowledge {
        Some(profile) => profile,
        None => {
            return None;
        },
    };
    if !are_rates_usable(profiles) || !bound_receiver(call) {
        return None;
    }
    let canonical: String = match conclusive_target(profile, &context.project_index, call) {
        Some(canonical) => canonical,
        None => {
            return None;
        },
    };
    let plays: bool = same_text(canonical.as_str(), SCENE_PLAY);
    if !plays && !same_text(canonical.as_str(), SCENE_WAIT) {
        return None;
    }
    let cost = match context.cost_facts.call_cost(i) {
        Some(cost) => cost,
        None => {
            return None;
        },
    };
    let duration: &Num = if plays {
        &cost.run_time
    } else {
        &cost.wait_time
    };
    // Both bounds must be literal facts (a positive literal; zero and
    // negative durations are a run-time error).
    let lower = match duration.lower_bound() {
        Some(lower) => lower,
        None => {
            return None;
        },
    };
    let upper = match duration.upper_bound() {
        Some(upper) => upper,
        None => {
            return None;
        },
    };
    if at_most(lower.bits(), 0) || !is_below_frame(profiles, upper.bits()) {
        return None;
    }
    let mut evidence = Evidence::new();
    evidence.insert("resolved", json_text(canonical.as_str()));
    evidence.insert("duration_seconds", num_bounds_json(duration));
    evidence.insert("profiles", frames_json(profiles));
    evidence.insert("frames", json_object2("lower", Json::Whole(1), "upper", Json::Whole(1)));
    Some(
        build_diagnostic(
            MLP206(),
            context,
            call.file,
            call.call_range,
            cat5(
                "The literal duration ",
                display_seconds(duration).as_str(),
                " is shorter than one frame at ",
                fps_list(profiles).as_str(),
                SUB_FRAME_END,
            ),
            SUB_FRAME_WHY,
            evidence,
        ),
    )
}

/// Findings of [`SubFrameDuration`], call by call.
pub open spec fn sub_frame_finder(context: RuleContext<'_>) -> spec_fn(int) -> Seq<DiagnosticView> {
    |i: int| found(sub_frame_at(context, i))
}

impl Rule for SubFrameDuration {
    open spec fn declared(&self) -> MetadataView {
        mlp206()
    }

    open spec fn findings(&self, context: RuleContext<'_>) -> Seq<DiagnosticView> {
        gather(context.qualified_calls.calls@.len() as int, sub_frame_finder(context))
    }

    fn metadata(&self) -> (metadata: &'static RuleMetadata) {
        MLP206()
    }

    fn run(&self, context: &RuleContext<'_>) -> (diagnostics: Vec<Diagnostic>) {
        let calls = &context.qualified_calls.calls;
        let mut diagnostics: Vec<Diagnostic> = Vec::new();
        let mut i: usize = 0;
        assert(reports(diagnostics@) =~= Seq::empty());
        while i < calls.len()
            invariant
                i <= calls@.len(),
                calls@ == context.qualified_calls.calls@,
                reports(diagnostics@) == gather(i as int, sub_frame_finder(*context)),
            decreases calls@.len() - i,
        {
            push_found(&mut diagnostics, sub_frame(context, i));
            i += 1;
        }
        diagnostics
    }
}

// ---------------------------------------------------------------------------
// MLP205: frozen-eligible wait forced dynamic with frozen_frame=False.
// ---------------------------------------------------------------------------

/// What [`MLP205`] declares.
pub open spec fn mlp205() -> MetadataView {
    MetadataView {
        id: "MLP205"@,
        summary: "wait(frozen_frame=False) re-renders provably identical frames"@,
        default_enabled: true,
        default_severity: Severity::Warning,
        minimum_confidence: Confidence::High,
        implementation_phase: 3,
        required_profiles: seq![],
        required_capabilities: seq!["lifecycle"@],
        supersedes: seq![],
    }
}

/// Metadata of rule `MLP205`.
#[allow(non_snake_case)]
pub fn MLP205() -> (metadata: &'static RuleMetadata)
    ensures
        metadata@ == mlp205(),
{
    let metadata: &'static RuleMetadata = &RuleMetadata {
        id: "MLP205",
        summary: "wait(frozen_frame=False) re-renders provably identical frames",
        default_enabled: true,
        default_severity: Severity::Warning,
        minimum_confidence: Confidence::High,
        implementation_phase: 3,
        required_profiles: &[],
        required_capabilities: &["lifecycle"],
        supersedes: &[],
    };
    assert(metadata@ =~= mlp205());
    metadata
}

/// Minimum literal wait duration (seconds) before `MLP205` fires: shorter
/// static waits re-render few frames and are not worth a warning.
pub const MLP205_MIN_WAIT_SECONDS: u32 = 2;

/// Minimum profile pixel area before `MLP205` fires: below 720p the
/// redundant full-frame raster is cheap.
pub const MLP205_MIN_PIXEL_AREA: u64 = 1280 * 720;

/// `wait(frozen_frame=False)` over a span with provably zero dynamic
/// content: no scene updaters, no stop condition, no registered mobject
/// updaters, no unknown callbacks, so every rendered frame is identical.
pub struct StaticUnfrozenWait;

pub const UNFROZEN_START: &'static str = "`frozen_frame=False` forces this wait to re-render ";

pub const UNFROZEN_END: &'static str = " provably identical frames: nothing in the \
    scene can change during the wait. Drop \
    `frozen_frame=False` so Manim freezes the wait and \
    renders the frame once.";

pub const UNFROZEN_WHY: &'static str = "No scene updater, stop condition, or registered mobject \
    updater exists over this wait, so every frame repeats the \
    previous one; the full per-frame pipeline (family walk, \
    raster, readback) runs anyway. Freezing skips that work — \
    the encoder still writes the full wait duration either \
    way, so the video length does not change.";

/// Whether there are profiles and all have at least `area` pixels.
pub open spec fn all_large(profiles: Seq<RenderProfile>, area: u64) -> bool {
    profiles.len() > 0 && forall|i: int|
        0 <= i < profiles.len() ==> (#[trigger] profiles[i]).spec_pixel_area() >= area
}

fn is_all_large(profiles: &Vec<RenderProfile>, area: u64) -> (all: bool)
    ensures
        all == all_large(profiles@, area),
{
    if profiles.len() == 0 {
        return false;
    }
    let mut i: usize = 0;
    while i < profiles.len()
        invariant
            i <= profiles@.len(),
            forall|j: int| 0 <= j < i ==> (#[trigger] profiles@[j]).spec_pixel_area() >= area,
        decreases profiles@.len() - i,
    {
        if profiles[i].pixel_area() < area {
            return false;
        }
        i += 1;
    }
    true
}

/// The pixel area of one profile.
pub open spec fn area_view(profile: RenderProfile) -> JsonView {
    JsonView::Object(
        seq![
            ("profile"@, JsonView::Text(profile.name@)),
            ("pixel_area"@, JsonView::Whole(profile.spec_pixel_area())),
        ],
    )
}

/// Pixel areas of the profiles.
pub open spec fn area_views(profiles: Seq<RenderProfile>) -> JsonView {
    JsonView::List(Seq::new(profiles.len(), |i: int| area_view(profiles[i])))
}

/// `{"profile": .., "pixel_area": ..}` of one profile.
pub fn pixel_area_json(profile: &RenderProfile) -> (value: Json)
    ensures
        value@ == area_view(*profile),
{
    json_object2(
        "profile",
        json_text(profile.name.as_str()),
        "pixel_area",
        Json::Whole(profile.pixel_area() as i128),
    )
}

fn areas_json(profiles: &Vec<RenderProfile>) -> (value: Json)
    ensures
        value@ == area_views(profiles@),
{
    let mut items: Vec<Json> = Vec::new();
    let mut i: usize = 0;
    while i < profiles.len()
        invariant
            i <= profiles@.len(),
            items@.len() == i,
            forall|j: int| 0 <= j < i ==> (#[trigger] items@[j])@ == area_view(profiles@[j]),
        decreases profiles@.len() - i,
    {
        items.push(pixel_area_json(&profiles[i]));
        i += 1;
    }
    assert(json_items(items@) =~= area_views(profiles@)->List_0);
    json_list(items)
}

/// Whether nothing possibly in the family at the wait can change.
pub open spec fn static_content(
    profile: KnowledgeProfile,
    scene: SceneLifecycle,
    play: PlayFact,
) -> bool {
    match scene.spec_state_at(play.site.file, play.site.start) {
        Some(snapshot) => inert_heap(profile, snapshot.heap),
        None => false,
    }
}

/// Whether every object possibly in the scene family at the wait site is
/// provably inert. Anything unknown fails the proof.
fn wait_content_provably_static(
    profile: &KnowledgeProfile,
    scene: &SceneLifecycle,
    play: &PlayFact,
) -> (inert: bool)
    ensures
        inert == static_content(*profile, *scene, *play),
{
    match snapshot_before(scene, play) {
        Some(snapshot) => is_inert_heap(profile, &snapshot.heap),
        None => false,
    }
}

/// Whether a play is a wait that is dynamic only by request.
pub open spec fn unfrozen_wait(play: PlayFact) -> bool {
    play.kind == PlayKind::Wait && play.frozen_frame == Some(false) && !play.has_stop_condition
        && play.dynamic_wait == Truth::No && play.certainty == Presence::Present
        && match play.duration.spec_lower_bound() {
        Some(lower) => !lower.short_of(MLP205_MIN_WAIT_SECONDS),
        None => false,
    }
}

fn is_unfrozen_wait(play: &PlayFact) -> (unfrozen: bool)
    ensures
        unfrozen == unfrozen_wait(*play),
{
    let kept: bool = match play.frozen_frame {
        Some(frozen) => !frozen,
        None => false,
    };
    if play.kind != PlayKind::Wait || !kept || play.has_stop_condition || play.dynamic_wait
        != Truth::No || play.certainty != Presence::Present {
        return false;
    }
    match play.duration.lower_bound() {
        Some(lower) => !lower.less_than(MLP205_MIN_WAIT_SECONDS),
        None => false,
    }
}

/// The finding for the play at `k`.
pub open spec fn unfrozen_of(context: RuleContext<'_>, scene: SceneLifecycle, k: int) -> Option<
    DiagnosticView,
> {
    let play = scene.plays@[k];
    let profiles = context.config.active_profiles@;
    match context.knowledge {
        Some(profile) => if all_large(profiles, MLP205_MIN_PIXEL_AREA)
            && !scene.constructor_state_unknown && unfrozen_wait(play) && static_content(
            *profile,
            scene,
            play,
        ) {
            Some(
                basic_report(
                    mlp205(),
                    context,
                    play.site.file,
                    play.site.spec_range(),
                    UNFROZEN_START@ + frames_text(play.cost.frames) + UNFROZEN_END@,
                    UNFROZEN_WHY@,
                    EvidenceView::empty().insert(
                        "duration_seconds"@,
                        bounds_view(play.duration),
                    ).insert("frames"@, bounds_view(play.cost.frames)).insert(
                        "dynamic_wait"@,
                        JsonView::Text("no"@),
                    ).insert("pixel_area"@, area_views(profiles)),
                ),
            )
        } else {
            None
        },
        None => None,
    }
}

fn unfrozen_check(context: &RuleContext<'_>, scene: &SceneLifecycle, k: usize) -> (found: Option<
    Diagnostic,
>)
    requires
        k < scene.plays@.len(),
    ensures
        report_of(found) == unfrozen_of(*context, *scene, k as int),
{
    let play = &scene.plays[k];
    let profiles = &context.config.active_profiles;
    let profile = match context.knowledge {
        Some(profile) => profile,
        None => {
            return None;
        },
    };
    if !is_all_large(profiles, MLP205_MIN_PIXEL_AREA) || scene.constructor_state_unknown
        || !is_unfrozen_wait(play) || !wait_content_provably_static(profile, scene, play) {
        return None;
    }
    let frames: &Num = &play.cost.frames;
    let mut evidence = Evidence::new();
    evidence.insert("duration_seconds", num_bounds_json(&play.duration));
    evidence.insert("frames", num_bounds_json(frames));
    evidence.insert("dynamic_wait", json_text("no"));
    evidence.insert("pixel_area", areas_json(profiles));
    Some(
        build_diagnostic(
            MLP205(),
            context,
            play.site.file,
            play.site.range(),
            cat3(UNFROZEN_START, display_frames(frames).as_str(), UNFROZEN_END),
            UNFROZEN_WHY,
            evidence,
        ),
    )
}

/// The findings of a scene, in the order of its plays.
pub open spec fn unfrozen_items(context: RuleContext<'_>, scene: SceneLifecycle) -> spec_fn(
    int,
) -> Seq<DiagnosticView> {
    |k: int| found(unfrozen_of(context, scene, k))
}

/// The findings of the scene at `i`.
pub open spec fn unfrozen_at(context: RuleContext<'_>, i: int) -> Seq<DiagnosticView> {
    let scene = context.lifecycle_facts.scenes@[i];
    gather(scene.plays@.len() as int, unfrozen_items(context, scene))
}

fn unfrozen(context: &RuleContext<'_>, i: usize) -> (diagnostics: Vec<Diagnostic>)
    requires
        i < context.lifecycle_facts.scenes@.len(),
    ensures
        reports(diagnostics@) == unfrozen_at(*context, i as int),
{
    let scene = &context.lifecycle_facts.scenes[i];
    let mut diagnostics: Vec<Diagnostic> = Vec::new();
    let mut k: usize = 0;
    assert(reports(diagnostics@) =~= Seq::empty());
    while k < scene.plays.len()
        invariant
            k <= scene.plays@.len(),
            reports(diagnostics@) == gather(k as int, unfrozen_items(*context, *scene)),
        decreases scene.plays@.len() - k,
    {
        push_found(&mut diagnostics, unfrozen_check(context, scene, k));
        k += 1;
    }
    diagnostics
}

/// Findings of [`StaticUnfrozenWait`], scene by scene.
pub open spec fn unfrozen_finder(context: RuleContext<'_>) -> spec_fn(int) -> Seq<DiagnosticView> {
    |i: int| unfrozen_at(context, i)
}

impl Rule for StaticUnfrozenWait {
    open spec fn declared(&self) -> MetadataView {
        mlp205()
    }

    open spec fn findings(&self, context: RuleContext<'_>) -> Seq<DiagnosticView> {
        gather(context.lifecycle_facts.scenes@.len() as int, unfrozen_finder(context))
    }

    fn metadata(&self) -> (metadata: &'static RuleMetadata) {
        MLP205()
    }

    fn run(&self, context: &RuleContext<'_>) -> (diagnostics: Vec<Diagnostic>) {
        let scenes = &context.lifecycle_facts.scenes;
        let mut diagnostics: Vec<Diagnostic> = Vec::new();
        let mut i: usize = 0;
        assert(reports(diagnostics@) =~= Seq::empty());
        while i < scenes.len()
            invariant
                i <= scenes@.len(),
                scenes@ == context.lifecycle_facts.scenes@,
                reports(diagnostics@) == gather(i as int, unfrozen_finder(*context)),
            decreases scenes@.len() - i,
        {
            push_all(&mut diagnostics, unfrozen(context, i));
            i += 1;
        }
        diagnostics
    }
}

} // verus!
