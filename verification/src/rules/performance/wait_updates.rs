//! `MLP227`: `always_update_mobjects=True` forces a provably static wait
//! through the full per-frame pipeline.
use super::frame_scope::{frames_at_play, inert_heap, is_inert_heap, play_frames, snapshot_before};
use crate::diagnostic::{
    push_all, push_found, report_of, reports, Confidence, Diagnostic, DiagnosticView, MetadataView,
    RuleMetadata, Severity,
};
use crate::json::{
    bounds_view, json_object5, json_text, num_bounds_json, Evidence, EvidenceView, Json, JsonView,
};
use crate::knowledge::KnowledgeProfile;
use crate::numbers::{display_frames, frames_text};
use crate::rules::base::{basic_report, build_diagnostic, Rule, RuleContext};
use crate::semantic::{CameraKind, PlayFact, PlayKind, Presence, SceneLifecycle, Truth};
use crate::text::{cat3, found, gather};
use vstd::prelude::*;

verus! {

/// What [`MLP227`] declares.
pub open spec fn mlp227() -> MetadataView {
    MetadataView {
        id: "MLP227"@,
        summary: "always_update_mobjects=True dynamicizes a provably static wait"@,
        default_enabled: true,
        default_severity: Severity::Warning,
        minimum_confidence: Confidence::High,
        implementation_phase: 3,
        required_profiles: seq![],
        required_capabilities: seq!["lifecycle"@, "cost-facts"@],
        supersedes: seq![],
    }
}

/// Metadata of rule `MLP227`.
#[allow(non_snake_case)]
pub fn MLP227() -> (metadata: &'static RuleMetadata)
    ensures
        metadata@ == mlp227(),
{
    let metadata: &'static RuleMetadata = &RuleMetadata {
        id: "MLP227",
        summary: "always_update_mobjects=True dynamicizes a provably static wait",
        default_enabled: true,
        default_severity: Severity::Warning,
        minimum_confidence: Confidence::High,
        implementation_phase: 3,
        required_profiles: &[],
        required_capabilities: &["lifecycle", "cost-facts"],
        supersedes: &[],
    };
    assert(metadata@ =~= mlp227());
    metadata
}

/// A wait made dynamic only by a literal `always_update_mobjects=True` while
/// its interval provably has no time-based updater, no scene updater, no
/// stop condition, and no camera motion: every frame runs the full frame
/// pipeline to reproduce an identical image. A `Maybe` flag value never
/// fires.
///
/// The static proof additionally requires no registered mobject updater of
/// any arity: without the flag a wait with only one-argument updaters
/// freezes and those updaters stop running, so suggesting the flag's removal
/// is only visual-preserving when nothing updates at all.
pub struct ForcedAlwaysUpdateWait;

pub const FORCED_START: &'static str = "`always_update_mobjects=True` is the only reason this wait \
    renders dynamically: its interval provably has no updater of \
    any kind, no stop condition, and no camera motion, so ";

pub const FORCED_END: &'static str = " identical frames run the full frame pipeline. Drop \
    the flag (or scope it to the plays that need it) and let the \
    wait freeze.";

pub const FORCED_WHY: &'static str = "A wait freezes unless always_update_mobjects, a Scene updater, a \
    stop_condition, or a time-based family updater makes it dynamic \
    (DESIGN 3.3). With the flag forced on, every wait frame walks \
    the family, runs the update pass, and re-renders — here provably \
    reproducing the same image each time. The encoder writes the \
    full wait duration either way, so freezing does not shorten the \
    video.";

/// Whether nothing can change over the interval of a wait.
pub open spec fn static_interval(
    profile: KnowledgeProfile,
    scene: SceneLifecycle,
    play: PlayFact,
) -> bool {
    match scene.spec_state_at(play.site.file, play.site.start) {
        Some(snapshot) => match snapshot.heap.spec_scene(scene.scene_id) {
            Some(state) => state.scene_updaters@.len() == 0 && inert_heap(profile, snapshot.heap),
            None => false,
        },
        None => false,
    }
}

/// Whether every object possibly in the family at the wait is provably
/// inert: no registered updaters, an exactly known kind, and no intrinsic
/// per-frame class.
fn interval_provably_static(
    profile: &KnowledgeProfile,
    scene: &SceneLifecycle,
    play: &PlayFact,
) -> (inert: bool)
    ensures
        inert == static_interval(*profile, *scene, *play),
{
    let snapshot = match snapshot_before(scene, play) {
        Some(snapshot) => snapshot,
        None => {
            return false;
        },
    };
    match snapshot.heap.scene(scene.scene_id) {
        Some(state) => state.scene_updaters.len() == 0 && is_inert_heap(profile, &snapshot.heap),
        None => false,
    }
}

/// What the interval of the wait provably lacks.
pub open spec fn interval_view() -> JsonView {
    JsonView::Object(
        seq![
            ("time_based_updaters"@, JsonView::Text("none"@)),
            ("mobject_updaters"@, JsonView::Text("none"@)),
            ("scene_updaters"@, JsonView::Text("none"@)),
            ("stop_condition"@, JsonView::Flag(false)),
            ("camera"@, JsonView::Text("Standard (static)"@)),
        ],
    )
}

/// The finding for the play at `k`.
pub open spec fn forced_of(context: RuleContext<'_>, scene: SceneLifecycle, k: int) -> Option<
    DiagnosticView,
> {
    let play = scene.plays@[k];
    match context.knowledge {
        Some(profile) => if !scene.constructor_state_unknown && scene.camera_kind
            == CameraKind::Standard && play.kind == PlayKind::Wait && play.certainty
            == Presence::Present && play.always_update_mobjects == Truth::Yes
            && !play.has_stop_condition && static_interval(*profile, scene, play) {
            Some(
                basic_report(
                    mlp227(),
                    context,
                    play.site.file,
                    play.site.spec_range(),
                    FORCED_START@ + frames_text(play_frames(context, play)) + FORCED_END@,
                    FORCED_WHY@,
                    EvidenceView::empty().insert(
                        "scene"@,
                        JsonView::Text(scene.qualified_name@),
                    ).insert("always_update_mobjects"@, JsonView::Text("yes (literal)"@)).insert(
                        "frames"@,
                        bounds_view(play_frames(context, play)),
                    ).insert("interval"@, interval_view()),
                ),
            )
        } else {
            None
        },
        None => None,
    }
}

fn forced_check(context: &RuleContext<'_>, scene: &SceneLifecycle, k: usize) -> (found: Option<
    Diagnostic,
>)
    requires
        k < scene.plays@.len(),
    ensures
        report_of(found) == forced_of(*context, *scene, k as int),
{
    let play = &scene.plays[k];
    let profile = match context.knowledge {
        Some(profile) => profile,
        None => {
            return None;
        },
    };
    if scene.constructor_state_unknown || scene.camera_kind != CameraKind::Standard || play.kind
        != PlayKind::Wait || play.certainty != Presence::Present || play.always_update_mobjects
        != Truth::Yes || play.has_stop_condition || !interval_provably_static(
        profile,
        scene,
        play,
    ) {
        return None;
    }
    let frames = frames_at_play(context, play);
    let mut evidence = Evidence::new();
    evidence.insert("scene", json_text(scene.qualified_name.as_str()));
    evidence.insert("always_update_mobjects", json_text("yes (literal)"));
    evidence.insert("frames", num_bounds_json(frames));
    evidence.insert(
        "interval",
        json_object5(
            "time_based_updaters",
            json_text("none"),
            "mobject_updaters",
            json_text("none"),
            "scene_updaters",
            json_text("none"),
            "stop_condition",
            Json::Flag(false),
            "camera",
            json_text("Standard (static)"),
        ),
    );
    Some(
        build_diagnostic(
            MLP227(),
            context,
            play.site.file,
            play.site.range(),
            cat3(FORCED_START, display_frames(frames).as_str(), FORCED_END),
            FORCED_WHY,
            evidence,
        ),
    )
}

/// The findings of a scene, in the order of its plays.
pub open spec fn forced_items(context: RuleContext<'_>, scene: SceneLifecycle) -> spec_fn(
    int,
) -> Seq<DiagnosticView> {
    |k: int| found(forced_of(context, scene, k))
}

/// The findings of the scene at `i`.
pub open spec fn forced_at(context: RuleContext<'_>, i: int) -> Seq<DiagnosticView> {
    let scene = context.lifecycle_facts.scenes@[i];
    gather(scene.plays@.len() as int, forced_items(context, scene))
}

fn forced(context: &RuleContext<'_>, i: usize) -> (diagnostics: Vec<Diagnostic>)
    requires
        i < context.lifecycle_facts.scenes@.len(),
    ensures
        reports(diagnostics@) == forced_at(*context, i as int),
{
    let scene = &context.lifecycle_facts.scenes[i];
    let mut diagnostics: Vec<Diagnostic> = Vec::new();
    let mut k: usize = 0;
    assert(reports(diagnostics@) =~= Seq::empty());
    while k < scene.plays.len()
        invariant
            k <= scene.plays@.len(),
            reports(diagnostics@) == gather(k as int, forced_items(*context, *scene)),
        decreases scene.plays@.len() - k,
    {
        push_found(&mut diagnostics, forced_check(context, scene, k));
        k += 1;
    }
    diagnostics
}

/// Findings of [`ForcedAlwaysUpdateWait`], scene by scene.
pub open spec fn forced_finder(context: RuleContext<'_>) -> spec_fn(int) -> Seq<DiagnosticView> {
    |i: int| forced_at(context, i)
}

impl Rule for ForcedAlwaysUpdateWait {
    open spec fn declared(&self) -> MetadataView {
        mlp227()
    }

    open spec fn findings(&self, context: RuleContext<'_>) -> Seq<DiagnosticView> {
        gather(context.lifecycle_facts.scenes@.len() as int, forced_finder(context))
    }

    fn metadata(&self) -> (metadata: &'static RuleMetadata) {
        MLP227()
    }

    fn run(&self, context: &RuleContext<'_>) -> (diagnostics: Vec<Diagnostic>) {
        let scenes = &context.lifecycle_facts.scenes;
        let mut diagnostics: Vec<Diagnostic> = Vec::new();
        let mut i: usize = 0;
        assert(reports(diagnostics@) =~= Seq::empty());
        while i < scenes.len()
            invariant
                i <= scenes@.len(),
                scenes@ == context.lifecycle_facts.scenes@,
                reports(diagnostics@) == gather(i as int, forced_finder(*context)),
            decreases scenes@.len() - i,
        {
            push_all(&mut diagnostics, forced(context, i));
            i += 1;
        }
        diagnostics
    }
}

} // verus!
