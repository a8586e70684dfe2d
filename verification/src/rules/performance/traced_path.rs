//! `MLP220`: unbounded `TracedPath` alive over a long span.
use super::frame_scope::{rendering, renders_frames};
use super::support::{enclosing_scene, goal_of, scene_around, targets};
use super::sums::{add_up, best_sum, sum_of, PlayQuantity};
use crate::cost::totals_from;
use crate::diagnostic::{
    push_found, report_of, reports, Confidence, Diagnostic, DiagnosticView, MetadataView,
    RuleMetadata, Severity,
};
use crate::frontend::{LiteralFact, QualifiedCall};
use crate::json::{
    bounds_view, json_object2, json_text, num_bounds_json, Evidence, EvidenceView, JsonView,
};
use crate::numbers::{display_frames, display_seconds, frames_text, seconds_text, Num};
use crate::rules::base::{basic_report, build_diagnostic, Rule, RuleContext};
use crate::semantic::{
    any_maybe_same, targets_maybe, Cardinality, HeapEntry, ObjectId, PlayFact, PlayedAnimation,
    Presence, SceneLifecycle,
};
use crate::source::AllocationSite;
use crate::text::{cat3, cat5, found, gather, picked};
use vstd::prelude::*;

verus! {

/// Canonical id of `TracedPath`.
pub const TRACED_PATH: &'static str = "manim.animation.changing.TracedPath";

/// What [`MLP220`] declares.
pub open spec fn mlp220() -> MetadataView {
    MetadataView {
        id: "MLP220"@,
        summary: "TracedPath without dissipating_time accumulates over a long span"@,
        default_enabled: true,
        default_severity: Severity::Warning,
        minimum_confidence: Confidence::High,
        implementation_phase: 3,
        required_profiles: seq![],
        required_capabilities: seq!["qualified-calls"@, "lifecycle"@, "cost-facts"@],
        supersedes: seq!["MLP204"@, "MLP211"@],
    }
}

/// Metadata of rule `MLP220`.
#[allow(non_snake_case)]
pub fn MLP220() -> (metadata: &'static RuleMetadata)
    ensures
        metadata@ == mlp220(),
{
    let metadata: &'static RuleMetadata = &RuleMetadata {
        id: "MLP220",
        summary: "TracedPath without dissipating_time accumulates over a long span",
        default_enabled: true,
        default_severity: Severity::Warning,
        minimum_confidence: Confidence::High,
        implementation_phase: 3,
        required_profiles: &[],
        required_capabilities: &["qualified-calls", "lifecycle", "cost-facts"],
        supersedes: &["MLP204", "MLP211"],
    };
    assert(metadata@ =~= mlp220());
    metadata
}

/// Minimum provable alive span (seconds of subsequent plays with the path in
/// the scene family) before `MLP220` fires.
pub const MLP220_LONG_SPAN_SECONDS: u32 = 5;

/// A `TracedPath` constructed without `dissipating_time` (or with a literal
/// `None`) that provably stays in the scene family across a long span of
/// plays: its point count grows with every frame.
pub struct UnboundedTracedPath;

pub const TRACED_START: &'static str = "This `TracedPath` has no `dissipating_time`, and it stays in \
    the scene for ";

pub const TRACED_MIDDLE: &'static str = " of subsequent plays: the path keeps \
    every point it ever traced";

pub const TRACED_END: &'static str = ", so its geometry grows \
    `O(F)` and rasterizing the accumulated path across the run \
    approaches `O(F²)`.";

pub const TRACED_POINTS: &'static str = " (about one traced point per frame: ";

pub const TRACED_RATES: &'static str = " points at the \
    analyzed frame rates)";

pub const TRACED_WHY: &'static str = "TracedPath appends the traced point every frame and, without \
    `dissipating_time`, never discards history. An unbounded trace \
    is a legitimate effect — if the full history is intended, keep \
    it as written. If only a recent window matters, pass \
    `dissipating_time=<seconds>` so the path length stays bounded.";

/// How a call leaves out `dissipating_time`.
pub open spec fn undissipated(call: QualifiedCall) -> Option<Seq<char>> {
    if call.has_star_star_kwargs {
        None
    } else {
        match call.spec_keyword("dissipating_time"@) {
            None => Some("absent"@),
            Some(argument) => if argument.literal == Some(LiteralFact::NoneLit) {
                Some("None"@)
            } else {
                None
            },
        }
    }
}

fn find_undissipated(call: &QualifiedCall) -> (form: Option<&'static str>)
    ensures
        match form {
            Some(found) => undissipated(*call) == Some(found@),
            None => undissipated(*call) is None,
        },
{
    // A `**kwargs` splat could still pass `dissipating_time`.
    if call.has_star_star_kwargs {
        return None;
    }
    match call.keyword("dissipating_time") {
        None => Some("absent"),
        Some(argument) => match &argument.literal {
            Some(LiteralFact::NoneLit) => Some("None"),
            _ => None,
        },
    }
}

/// The first object allocated at a site, from position `i` on.
pub open spec fn object_from(objects: Seq<HeapEntry>, site: AllocationSite, i: int) -> Option<
    ObjectId,
>
    decreases objects.len() - i,
{
    if i < 0 || i >= objects.len() {
        None
    } else if objects[i].id.site == site {
        Some(objects[i].id)
    } else {
        object_from(objects, site, i + 1)
    }
}

fn find_object(objects: &Vec<HeapEntry>, site: AllocationSite) -> (object: Option<ObjectId>)
    ensures
        object == object_from(objects@, site, 0),
{
    let mut i: usize = 0;
    while i < objects.len()
        invariant
            i <= objects@.len(),
            object_from(objects@, site, 0) == object_from(objects@, site, i as int),
        decreases objects@.len() - i,
    {
        if objects[i].id.site == site {
            return Some(objects[i].id);
        }
        i += 1;
    }
    None
}

/// Whether an animation can target the object.
pub open spec fn can_target(animation: PlayedAnimation, object: ObjectId) -> bool {
    match animation.state {
        Some(state) => targets_maybe(state.targets@, object),
        None => false,
    }
}

/// Whether some animation of a list can target the object.
pub open spec fn any_targets(animations: Seq<PlayedAnimation>, object: ObjectId) -> bool {
    exists|i: int| 0 <= i < animations.len() && can_target(#[trigger] animations[i], object)
}

pub fn any_can_target(animations: &Vec<PlayedAnimation>, object: &ObjectId) -> (found: bool)
    ensures
        found == any_targets(animations@, *object),
{
    let mut i: usize = 0;
    while i < animations.len()
        invariant
            i <= animations@.len(),
            forall|j: int| 0 <= j < i ==> !can_target(#[trigger] animations@[j], *object),
        decreases animations@.len() - i,
    {
        let hit: bool = match &animations[i].state {
            Some(state) => any_maybe_same(&state.targets, object),
            None => false,
        };
        if hit {
            assert(can_target(animations@[i as int], *object));
            return true;
        }
        i += 1;
    }
    false
}

/// Whether the object is provably alive and updating during a play: in the
/// scene family at the play site, not a target of the play's animations
/// (targets get their updaters suspended), and for waits only provably
/// dynamic ones (a frozen wait runs no updaters).
pub open spec fn alive_during(scene: SceneLifecycle, object: ObjectId, play: PlayFact) -> bool {
    play.certainty == Presence::Present && rendering(play) && !any_targets(
        play.animations@,
        object,
    ) && match scene.spec_membership_at(object, play.site.file, play.site.start) {
        Some(membership) => membership.1 == Presence::Present,
        None => false,
    }
}

fn is_alive_during(scene: &SceneLifecycle, object: &ObjectId, play: &PlayFact) -> (alive: bool)
    ensures
        alive == alive_during(*scene, *object, *play),
{
    if play.certainty != Presence::Present || !renders_frames(play) {
        return false;
    }
    match scene.membership_at(object, play.site.file, play.site.start) {
        Some((_, family)) => family == Presence::Present && !any_can_target(
            &play.animations,
            object,
        ),
        None => false,
    }
}

/// Positions of the plays during which the object is alive.
pub open spec fn alive_positions(scene: SceneLifecycle, object: ObjectId) -> Seq<usize> {
    picked(scene.plays@.len() as int, |p: int| alive_during(scene, object, scene.plays@[p]))
}

/// The plays during which the object is provably alive and updating, by
/// position.
pub fn alive_plays(scene: &SceneLifecycle, object: &ObjectId) -> (positions: Vec<usize>)
    ensures
        positions@ == alive_positions(*scene, *object),
{
    let ghost test = |p: int| alive_during(*scene, *object, scene.plays@[p]);
    let mut positions: Vec<usize> = Vec::new();
    let mut p: usize = 0;
    while p < scene.plays.len()
        invariant
            p <= scene.plays@.len(),
            test == (|p: int| alive_during(*scene, *object, scene.plays@[p])),
            positions@ == picked(p as int, test),
        decreases scene.plays@.len() - p,
    {
        if is_alive_during(scene, object, &scene.plays[p]) {
            positions.push(p);
        }
        p += 1;
    }
    positions
}

/// How many points the path traces, when that is bounded.
pub open spec fn point_clause(frames: Num) -> Seq<char> {
    if frames.spec_bounded() {
        TRACED_POINTS@ + frames_text(frames) + TRACED_RATES@
    } else {
        ""@
    }
}

fn quantify_points(frames: &Num) -> (text: String)
    ensures
        text@ == point_clause(*frames),
{
    if frames.is_bounded() {
        cat3(TRACED_POINTS, display_frames(frames).as_str(), TRACED_RATES)
    } else {
        "".to_owned()
    }
}

/// Frames of the seconds of some plays across the profiles: unknown when
/// nobody computed them.
pub open spec fn span_frames(
    context: RuleContext<'_>,
    scene: SceneLifecycle,
    positions: Seq<usize>,
) -> Num {
    match totals_from(context.cost_facts.totals@, scene.qualified_name@, positions, 0) {
        Some(totals) => totals.seconds_frames,
        None => Num::Unknown,
    }
}

/// The finding for the object of a path in its scene.
pub open spec fn traced_object(
    context: RuleContext<'_>,
    call: QualifiedCall,
    form: Seq<char>,
    scene: SceneLifecycle,
    object: ObjectId,
) -> Option<DiagnosticView> {
    let positions = alive_positions(scene, object);
    let seconds = sum_of(context, scene, positions, PlayQuantity::Seconds);
    let frames = span_frames(context, scene, positions);
    match seconds.spec_lower_bound() {
        Some(lower) => if object.cardinality == Cardinality::Singleton && positions.len() > 0
            && !lower.short_of(MLP220_LONG_SPAN_SECONDS) {
            Some(
                basic_report(
                    mlp220(),
                    context,
                    call.file,
                    call.call_range,
                    TRACED_START@ + seconds_text(seconds) + TRACED_MIDDLE@
                        + point_clause(frames) + TRACED_END@,
                    TRACED_WHY@,
                    EvidenceView::empty().insert(
                        "resolved"@,
                        JsonView::Text(TRACED_PATH@),
                    ).insert("dissipating_time"@, JsonView::Text(form)).insert(
                        "alive_span_seconds"@,
                        bounds_view(seconds),
                    ).insert("estimated_points"@, bounds_view(frames)).insert(
                        "growth"@,
                        JsonView::Object(
                            seq![
                                ("points"@, JsonView::Text("O(F)"@)),
                                ("raster"@, JsonView::Text("O(F^2)"@)),
                            ],
                        ),
                    ),
                ),
            )
        } else {
            None
        },
        None => None,
    }
}

fn check_traced_object(
    context: &RuleContext<'_>,
    call: &QualifiedCall,
    form: &str,
    scene: &SceneLifecycle,
    object: &ObjectId,
) -> (found: Option<Diagnostic>)
    ensures
        report_of(found) == traced_object(*context, *call, form@, *scene, *object),
{
    // Only a singleton identity supports a definite lifetime claim.
    if object.cardinality != Cardinality::Singleton {
        return None;
    }
    let positions: Vec<usize> = alive_plays(scene, object);
    if positions.len() == 0 {
        return None;
    }
    let what = PlayQuantity::Seconds;
    let added: Num = add_up(context, scene, &positions, what);
    let seconds: &Num = best_sum(context, scene, &positions, what, &added);
    let unknown = Num::Unknown;
    let frames: &Num = match context.cost_facts.totals_of(
        scene.qualified_name.as_str(),
        &positions,
    ) {
        Some(totals) => &totals.seconds_frames,
        None => &unknown,
    };
    match seconds.lower_bound() {
        Some(lower) => {
            if lower.less_than(MLP220_LONG_SPAN_SECONDS) {
                return None;
            }
        },
        None => {
            return None;
        },
    }
    let mut evidence = Evidence::new();
    evidence.insert("resolved", json_text(TRACED_PATH));
    evidence.insert("dissipating_time", json_text(form));
    evidence.insert("alive_span_seconds", num_bounds_json(seconds));
    evidence.insert("estimated_points", num_bounds_json(frames));
    evidence.insert(
        "growth",
        json_object2("points", json_text("O(F)"), "raster", json_text("O(F^2)")),
    );
    Some(
        build_diagnostic(
            MLP220(),
            context,
            call.file,
            call.call_range,
            cat5(
                TRACED_START,
                display_seconds(seconds).as_str(),
                TRACED_MIDDLE,
                quantify_points(frames).as_str(),
                TRACED_END,
            ),
            TRACED_WHY,
            evidence,
        ),
    )
}

/// The finding for the call at `i`.
pub open spec fn traced_at(context: RuleContext<'_>, i: int) -> Option<DiagnosticView> {
    let call = context.qualified_calls.calls@[i];
    match (context.knowledge, undissipated(call), scene_around(context.lifecycle_facts, call)) {
        (Some(profile), Some(form), Some(scene)) => match object_from(
            scene.final_heap.objects@,
            call.site(),
            0,
        ) {
            Some(object) => if goal_of(*profile, context.project_index, call) == Some(
                TRACED_PATH@,
            ) {
                traced_object(context, call, form, scene, object)
            } else {
                None
            },
            None => None,
        },
        _ => None,
    }
}

fn traced(context: &RuleContext<'_>, i: usize) -> (found: Option<Diagnostic>)
    requires
        i < context.qualified_calls.calls@.len(),
    ensures
        report_of(found) == traced_at(*context, i as int),
{
    let call = &context.qualified_calls.calls[i];
    let profile = match context.knowledge {
        Some(profile) => profile,
        None => {
            return None;
        },
    };
    if !targets(profile, &context.project_index, call, TRACED_PATH) {
        return None;
    }
    let form: &'static str = match find_undissipated(call) {
        Some(form) => form,
        None => {
            return None;
        },
    };
    let scene = match enclosing_scene(&context.lifecycle_facts, call) {
        Some(scene) => scene,
        None => {
            return None;
        },
    };
    let site = AllocationSite::new(call.file, call.call_range);
    match find_object(&scene.final_heap.objects, site) {
        Some(object) => check_traced_object(context, call, form, scene, &object),
        None => None,
    }
}

/// Findings of [`UnboundedTracedPath`], call by call.
pub open spec fn traced_finder(context: RuleContext<'_>) -> spec_fn(int) -> Seq<DiagnosticView> {
    |i: int| found(traced_at(context, i))
}

impl Rule for UnboundedTracedPath {
    open spec fn declared(&self) -> MetadataView {
        mlp220()
    }

    open spec fn findings(&self, context: RuleContext<'_>) -> Seq<DiagnosticView> {
        gather(context.qualified_calls.calls@.len() as int, traced_finder(context))
    }

    fn metadata(&self) -> (metadata: &'static RuleMetadata) {
        MLP220()
    }

    fn run(&self, context: &RuleContext<'_>) -> (diagnostics: Vec<Diagnostic>) {
        let calls = &context.qualified_calls.calls;
        let mut diagnostics: Vec<Diagnostic> = Vec::new();
        let mut i: usize = 0;
        assert(reports(diagnostics@) =~= Seq::empty());
        while i < calls.len()
            invariant
                i <= calls@.len(),
                calls@ == context.qualified_calls.calls@,
                reports(diagnostics@) == gather(i as int, traced_finder(*context)),
            decreases calls@.len() - i,
        {
            push_found(&mut diagnostics, traced(context, i));
            i += 1;
        }
        diagnostics
    }
}

} // verus!
