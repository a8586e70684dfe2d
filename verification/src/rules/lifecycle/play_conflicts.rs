//! Same-play conflict rules: `MLC108`, `MLC129`.
//!
//! `MLC108` fires when two animations of one `play` write the same channel
//! of the definitely-same live mobject: the later interpolation overwrites
//! the earlier one every frame. It requires complete channel classification
//! and definite object identity.
//!
//! `MLC129` flags `play(..., lag_ratio=...)` with multiple animations: the
//! play kwarg is set onto each animation and does not stagger them.
use super::support::{
    bound_receiver, candidates_value, candidates_view, channel_names, is_bound, label_channels,
    target_of, targets, SCENE_PLAY,
};
use crate::diagnostic::{
    push_found, report_of, reports, Confidence, Diagnostic, DiagnosticView, MetadataView,
    RuleMetadata, Severity,
};
use crate::json::{json_size, json_text, json_texts, text_list, Evidence, EvidenceView, JsonView};
use crate::rules::base::{
    add_related, basic_report, build_diagnostic, related_at, related_site, with_related, Rule,
    RuleContext,
};
use crate::rules::dedupe::{
    candidate_view, candidate_views, keep_first, kept, offer_all, offer_found, pair_key, site_pair,
    Candidate, CandidateView,
};
use crate::semantic::{
    common_channels, shared_channels_of, ObjectId, PlayFact, PlayKind, PlayedAnimation,
    SceneLifecycle, Truth, WriteChannel,
};
use crate::source::slice_in;
use crate::text::{cat3, found, gather, join, joined};
use vstd::prelude::*;

verus! {

// ---------------------------------------------------------------------------
// MLC108: conflicting writes to the same live target in one play.
// ---------------------------------------------------------------------------

/// What [`MLC108`] declares.
pub open spec fn mlc108() -> MetadataView {
    MetadataView {
        id: "MLC108"@,
        summary: "Two animations in one play write the same channel of the same mobject"@,
        default_enabled: true,
        default_severity: Severity::Warning,
        minimum_confidence: Confidence::High,
        implementation_phase: 2,
        required_profiles: seq![],
        required_capabilities: seq!["lifecycle"@],
        supersedes: seq![],
    }
}

/// Metadata of rule `MLC108`.
#[allow(non_snake_case)]
pub fn MLC108() -> (metadata: &'static RuleMetadata)
    ensures
        metadata@ == mlc108(),
{
    let metadata: &'static RuleMetadata = &RuleMetadata {
        id: "MLC108",
        summary: "Two animations in one play write the same channel of the same mobject",
        default_enabled: true,
        default_severity: Severity::Warning,
        minimum_confidence: Confidence::High,
        implementation_phase: 2,
        required_profiles: &[],
        required_capabilities: &["lifecycle"],
        supersedes: &[],
    };
    assert(metadata@ =~= mlc108());
    metadata
}

/// Whether a target of `list`, from `i` on, is definitely `object`.
pub open spec fn met_from(list: Seq<ObjectId>, object: ObjectId, i: int) -> bool
    decreases list.len() - i,
{
    if i < 0 || i >= list.len() {
        false
    } else {
        object.same(list[i]) || met_from(list, object, i + 1)
    }
}

fn meets(list: &Vec<ObjectId>, object: &ObjectId) -> (met: bool)
    ensures
        met == met_from(list@, *object, 0),
{
    let mut i: usize = 0;
    while i < list.len()
        invariant
            i <= list@.len(),
            met_from(list@, *object, 0) == met_from(list@, *object, i as int),
        decreases list@.len() - i,
    {
        if object.definitely_same(&list[i]) {
            return true;
        }
        i += 1;
    }
    false
}

/// The first target of `a`, from `i` on, that `b` definitely has too.
pub open spec fn shared_from(a: Seq<ObjectId>, b: Seq<ObjectId>, i: int) -> Option<ObjectId>
    decreases a.len() - i,
{
    if i < 0 || i >= a.len() {
        None
    } else if met_from(b, a[i], 0) {
        Some(a[i])
    } else {
        shared_from(a, b, i + 1)
    }
}

/// The definitely-same live target of two animations.
pub open spec fn common_target(a: PlayedAnimation, b: PlayedAnimation) -> Option<ObjectId> {
    match (a.state, b.state) {
        (Some(x), Some(y)) => shared_from(x.targets@, y.targets@, 0),
        _ => None,
    }
}

/// The definitely-same live target shared by two played animations, if any.
fn shared_target(a: &PlayedAnimation, b: &PlayedAnimation) -> (target: Option<ObjectId>)
    ensures
        target == common_target(*a, *b),
{
    if let Some(x) = &a.state {
        if let Some(y) = &b.state {
            let mut i: usize = 0;
            while i < x.targets.len()
                invariant
                    i <= x.targets@.len(),
                    a.state == Some(*x),
                    b.state == Some(*y),
                    shared_from(x.targets@, y.targets@, 0) == shared_from(
                        x.targets@,
                        y.targets@,
                        i as int,
                    ),
                decreases x.targets@.len() - i,
            {
                if meets(&y.targets, &x.targets[i]) {
                    return Some(x.targets[i]);
                }
                i += 1;
            }
        }
    }
    None
}

/// Channels two animations both write.
pub open spec fn both_write(a: PlayedAnimation, b: PlayedAnimation) -> Seq<WriteChannel> {
    match (a.state, b.state) {
        (Some(x), Some(y)) => common_channels(x.write_channels@, y.write_channels@),
        _ => Seq::empty(),
    }
}

/// Channels both animations definitely write.
fn shared_channels(a: &PlayedAnimation, b: &PlayedAnimation) -> (channels: Vec<WriteChannel>)
    ensures
        channels@ == both_write(*a, *b),
{
    if let Some(x) = &a.state {
        if let Some(y) = &b.state {
            return shared_channels_of(&x.write_channels, &y.write_channels);
        }
    }
    Vec::new()
}

/// Two `.animate` builders (or plain animations) of the same play writing
/// the same channel of the same live mobject.
pub struct ConflictingPlayWrites;

pub const CONFLICT: &'static str = "This animation writes the same channel(s) (";

pub const CONFLICT_END: &'static str = ") of the same \
    live mobject as an earlier animation in the same `play`; the later \
    interpolation overwrites the earlier one every frame. If both effects \
    are wanted, merge them into one `.animate` chain (note the shared rate \
    function and path may change the motion).";

pub const CONFLICT_WHY: &'static str = "Animations of one `Scene.play` interpolate in order on every frame; when \
    two of them write the same channel of the definitely-same live mobject, \
    the last write wins and the first animation's effect is discarded \
    (DESIGN §3.2). A single `.animate` chain such as \
    `mob.animate.shift(...).rotate(...)` applies both effects in one animation.";

pub const CONFLICT_HERE: &'static str = "first animation writing the shared channel(s)";

/// The report for two conflicting animations.
pub open spec fn conflict_report(
    context: RuleContext<'_>,
    scene: SceneLifecycle,
    first: PlayedAnimation,
    second: PlayedAnimation,
    target: ObjectId,
) -> DiagnosticView {
    let names = channel_names(both_write(first, second));
    with_related(
        basic_report(
            mlc108(),
            context,
            second.site.file,
            second.site.spec_range(),
            CONFLICT@ + joined(names, ", "@) + CONFLICT_END@,
            CONFLICT_WHY@,
            EvidenceView::empty().insert("channels"@, text_list(names)).insert(
                "scene"@,
                JsonView::Text(scene.qualified_name@),
            ).insert(
                "target_allocation"@,
                JsonView::Text(
                    slice_in(*context.sources, target.site.file, target.site.spec_range()),
                ),
            ),
        ),
        related_at(context, first.site, CONFLICT_HERE@),
    )
}

fn conflict_diagnostic(
    context: &RuleContext<'_>,
    scene: &SceneLifecycle,
    first: &PlayedAnimation,
    second: &PlayedAnimation,
    target: &ObjectId,
) -> (diagnostic: Diagnostic)
    ensures
        diagnostic@ == conflict_report(*context, *scene, *first, *second, *target),
{
    let names: Vec<String> = label_channels(&shared_channels(first, second));
    let target_text: String = context.sources.slice(target.site.file, target.site.range());
    let mut evidence = Evidence::new();
    evidence.insert("channels", json_texts(&names));
    evidence.insert("scene", json_text(scene.qualified_name.as_str()));
    evidence.insert("target_allocation", json_text(target_text.as_str()));
    let mut diagnostic = build_diagnostic(
        MLC108(),
        context,
        second.site.file,
        second.site.range(),
        cat3(CONFLICT, join(&names, ", ").as_str(), CONFLICT_END),
        CONFLICT_WHY,
        evidence,
    );
    add_related(&mut diagnostic, related_site(context, first.site, CONFLICT_HERE.to_owned()));
    diagnostic
}

/// The candidate of two animations of a play. Only a complete channel
/// classification supports a conflict claim.
pub open spec fn conflict_of(
    context: RuleContext<'_>,
    scene: SceneLifecycle,
    first: PlayedAnimation,
    second: PlayedAnimation,
) -> Option<CandidateView> {
    match common_target(first, second) {
        Some(target) => if first.channels_known == Truth::Yes && second.channels_known
            == Truth::Yes && both_write(first, second).len() > 0 {
            Some(
                (
                    pair_key(first.site, second.site),
                    Some(conflict_report(context, scene, first, second, target)),
                ),
            )
        } else {
            None
        },
        None => None,
    }
}

fn conflict_check(
    context: &RuleContext<'_>,
    scene: &SceneLifecycle,
    first: &PlayedAnimation,
    second: &PlayedAnimation,
) -> (candidate: Option<Candidate>)
    ensures
        match candidate {
            Some(found) => conflict_of(*context, *scene, *first, *second) == Some(
                candidate_view(found),
            ),
            None => conflict_of(*context, *scene, *first, *second) is None,
        },
{
    if first.channels_known != Truth::Yes || second.channels_known != Truth::Yes {
        return None;
    }
    let target: ObjectId = match shared_target(first, second) {
        Some(target) => target,
        None => {
            return None;
        },
    };
    if shared_channels(first, second).len() == 0 {
        return None;
    }
    Some(
        Candidate {
            key: site_pair(first.site, second.site),
            diagnostic: Some(conflict_diagnostic(context, scene, first, second, &target)),
        },
    )
}

/// Candidates of the animation at `first` with each later one.
pub open spec fn later_parts(
    context: RuleContext<'_>,
    scene: SceneLifecycle,
    play: PlayFact,
    first: int,
) -> spec_fn(int) -> Seq<CandidateView> {
    |k: int|
        if k > first {
            found(conflict_of(context, scene, play.animations@[first], play.animations@[k]))
        } else {
            Seq::empty()
        }
}

/// Candidates of the animation at `first` with each later one, in order.
pub open spec fn later_conflicts(
    context: RuleContext<'_>,
    scene: SceneLifecycle,
    play: PlayFact,
    first: int,
) -> Seq<CandidateView> {
    gather(play.animations@.len() as int, later_parts(context, scene, play, first))
}

fn conflicts_with_later(
    context: &RuleContext<'_>,
    scene: &SceneLifecycle,
    play: &PlayFact,
    first: usize,
) -> (candidates: Vec<Candidate>)
    requires
        first < play.animations@.len(),
    ensures
        candidate_views(candidates@) == later_conflicts(*context, *scene, *play, first as int),
{
    let mut candidates: Vec<Candidate> = Vec::new();
    let mut k: usize = 0;
    assert(candidate_views(candidates@) =~= Seq::empty());
    while k < play.animations.len()
        invariant
            k <= play.animations@.len(),
            first < play.animations@.len(),
            candidate_views(candidates@) == gather(
                k as int,
                later_parts(*context, *scene, *play, first as int),
            ),
        decreases play.animations@.len() - k,
    {
        let checked: Option<Candidate> = if k > first {
            conflict_check(context, scene, &play.animations[first], &play.animations[k])
        } else {
            None
        };
        offer_found(&mut candidates, checked);
        k += 1;
    }
    candidates
}

/// Candidates of the animations of a play.
pub open spec fn first_parts(
    context: RuleContext<'_>,
    scene: SceneLifecycle,
    play: PlayFact,
) -> spec_fn(int) -> Seq<CandidateView> {
    |first: int| later_conflicts(context, scene, play, first)
}

/// The candidates of the play at `k`.
pub open spec fn conflicts_of(context: RuleContext<'_>, scene: SceneLifecycle, k: int) -> Seq<
    CandidateView,
> {
    let play = scene.plays@[k];
    if play.kind == PlayKind::Play {
        gather(play.animations@.len() as int, first_parts(context, scene, play))
    } else {
        Seq::empty()
    }
}

fn conflicts_check(context: &RuleContext<'_>, scene: &SceneLifecycle, k: usize) -> (candidates: Vec<
    Candidate,
>)
    requires
        k < scene.plays@.len(),
    ensures
        candidate_views(candidates@) == conflicts_of(*context, *scene, k as int),
{
    let play = &scene.plays[k];
    let mut candidates: Vec<Candidate> = Vec::new();
    assert(candidate_views(candidates@) =~= Seq::empty());
    if play.kind != PlayKind::Play {
        return candidates;
    }
    let mut first: usize = 0;
    while first < play.animations.len()
        invariant
            first <= play.animations@.len(),
            candidate_views(candidates@) == gather(
                first as int,
                first_parts(*context, *scene, *play),
            ),
        decreases play.animations@.len() - first,
    {
        offer_all(&mut candidates, conflicts_with_later(context, scene, play, first));
        first += 1;
    }
    candidates
}

/// The candidates of a scene, in the order of its plays.
pub open spec fn conflicts_items(context: RuleContext<'_>, scene: SceneLifecycle) -> spec_fn(
    int,
) -> Seq<CandidateView> {
    |k: int| conflicts_of(context, scene, k)
}

/// The candidates of the scene at `i`.
pub open spec fn conflicts_at(context: RuleContext<'_>, i: int) -> Seq<CandidateView> {
    let scene = context.lifecycle_facts.scenes@[i];
    gather(scene.plays@.len() as int, conflicts_items(context, scene))
}

fn conflicts(context: &RuleContext<'_>, i: usize) -> (candidates: Vec<Candidate>)
    requires
        i < context.lifecycle_facts.scenes@.len(),
    ensures
        candidate_views(candidates@) == conflicts_at(*context, i as int),
{
    let scene = &context.lifecycle_facts.scenes[i];
    let mut candidates: Vec<Candidate> = Vec::new();
    let mut k: usize = 0;
    assert(candidate_views(candidates@) =~= Seq::empty());
    while k < scene.plays.len()
        invariant
            k <= scene.plays@.len(),
            candidate_views(candidates@) == gather(k as int, conflicts_items(*context, *scene)),
        decreases scene.plays@.len() - k,
    {
        offer_all(&mut candidates, conflicts_check(context, scene, k));
        k += 1;
    }
    candidates
}

/// Candidates of [`ConflictingPlayWrites`], scene by scene.
pub open spec fn conflicts_finder(context: RuleContext<'_>) -> spec_fn(int) -> Seq<CandidateView> {
    |i: int| conflicts_at(context, i)
}

impl Rule for ConflictingPlayWrites {
    open spec fn declared(&self) -> MetadataView {
        mlc108()
    }

    open spec fn findings(&self, context: RuleContext<'_>) -> Seq<DiagnosticView> {
        kept(gather(context.lifecycle_facts.scenes@.len() as int, conflicts_finder(context)))
    }

    fn metadata(&self) -> (metadata: &'static RuleMetadata) {
        MLC108()
    }

    fn run(&self, context: &RuleContext<'_>) -> (diagnostics: Vec<Diagnostic>) {
        let scenes = &context.lifecycle_facts.scenes;
        let mut candidates: Vec<Candidate> = Vec::new();
        let mut i: usize = 0;
        assert(candidate_views(candidates@) =~= Seq::empty());
        while i < scenes.len()
            invariant
                i <= scenes@.len(),
                scenes@ == context.lifecycle_facts.scenes@,
                candidate_views(candidates@) == gather(i as int, conflicts_finder(*context)),
            decreases scenes@.len() - i,
        {
            offer_all(&mut candidates, conflicts(context, i));
            i += 1;
        }
        keep_first(candidates)
    }
}

// ---------------------------------------------------------------------------
// MLC129: play-level lag_ratio with multiple animations.
// ---------------------------------------------------------------------------

/// What [`MLC129`] declares.
pub open spec fn mlc129() -> MetadataView {
    MetadataView {
        id: "MLC129"@,
        summary: "play(..., lag_ratio=...) does not stagger multiple animations"@,
        default_enabled: true,
        default_severity: Severity::Warning,
        minimum_confidence: Confidence::Medium,
        implementation_phase: 2,
        required_profiles: seq![],
        required_capabilities: seq!["qualified-calls"@],
        supersedes: seq![],
    }
}

/// Metadata of rule `MLC129`.
#[allow(non_snake_case)]
pub fn MLC129() -> (metadata: &'static RuleMetadata)
    ensures
        metadata@ == mlc129(),
{
    let metadata: &'static RuleMetadata = &RuleMetadata {
        id: "MLC129",
        summary: "play(..., lag_ratio=...) does not stagger multiple animations",
        default_enabled: true,
        default_severity: Severity::Warning,
        minimum_confidence: Confidence::Medium,
        implementation_phase: 2,
        required_profiles: &[],
        required_capabilities: &["qualified-calls"],
        supersedes: &[],
    };
    assert(metadata@ =~= mlc129());
    metadata
}

/// `play(a, b, lag_ratio=x)` used as an inter-animation stagger.
pub struct PlayLagRatioStagger;

pub const LAG_RATIO: &'static str = "`lag_ratio` passed to `Scene.play` is applied to each animation \
    individually and does not stagger them against each other; wrap the \
    animations in `AnimationGroup(..., lag_ratio=...)` or \
    `LaggedStart(...)` to get a stagger.";

pub const LAG_RATIO_WHY: &'static str = "`Scene.play` copies its keyword arguments onto every compiled \
    animation via `setattr` (scene.py `compile_animations`); each \
    animation's own `lag_ratio` only staggers its internal submobjects. \
    Inter-animation staggering is a property of the animation *group*, \
    so it belongs in the `AnimationGroup` / `LaggedStart` constructor.";

/// The finding for the call at `i`.
pub open spec fn lag_ratio_at(context: RuleContext<'_>, i: int) -> Option<DiagnosticView> {
    let call = context.qualified_calls.calls@[i];
    match (context.knowledge, call.spec_keyword("lag_ratio"@)) {
        (Some(profile), Some(argument)) => if is_bound(call) && !call.has_star_args
            && call.positional_count >= 2 && target_of(*profile, context.project_index, call)
            == Some(SCENE_PLAY@) {
            Some(
                basic_report(
                    mlc129(),
                    context,
                    call.file,
                    argument.range,
                    LAG_RATIO@,
                    LAG_RATIO_WHY@,
                    EvidenceView::empty().insert("resolved"@, JsonView::Text(SCENE_PLAY@)).insert(
                        "candidates"@,
                        candidates_view(call),
                    ).insert(
                        "positional_animations"@,
                        JsonView::Whole(call.positional_count as int),
                    ),
                ),
            )
        } else {
            None
        },
        _ => None,
    }
}

fn lag_ratio(context: &RuleContext<'_>, i: usize) -> (found: Option<Diagnostic>)
    requires
        i < context.qualified_calls.calls@.len(),
    ensures
        report_of(found) == lag_ratio_at(*context, i as int),
{
    let call = &context.qualified_calls.calls[i];
    let profile = match context.knowledge {
        Some(profile) => profile,
        None => {
            return None;
        },
    };
    if !bound_receiver(call) || call.has_star_args || call.positional_count < 2 || !targets(
        profile,
        &context.project_index,
        call,
        SCENE_PLAY,
    ) {
        return None;
    }
    let argument = match call.keyword("lag_ratio") {
        Some(argument) => argument,
        None => {
            return None;
        },
    };
    let mut evidence = Evidence::new();
    evidence.insert("resolved", json_text(SCENE_PLAY));
    evidence.insert("candidates", candidates_value(call));
    evidence.insert("positional_animations", json_size(call.positional_count));
    Some(
        build_diagnostic(
            MLC129(),
            context,
            call.file,
            argument.range,
            LAG_RATIO.to_owned(),
            LAG_RATIO_WHY,
            evidence,
        ),
    )
}

/// Findings of [`PlayLagRatioStagger`], call by call.
pub open spec fn lag_ratio_finder(context: RuleContext<'_>) -> spec_fn(int) -> Seq<DiagnosticView> {
    |i: int| found(lag_ratio_at(context, i))
}

impl Rule for PlayLagRatioStagger {
    open spec fn declared(&self) -> MetadataView {
        mlc129()
    }

    open spec fn findings(&self, context: RuleContext<'_>) -> Seq<DiagnosticView> {
        gather(context.qualified_calls.calls@.len() as int, lag_ratio_finder(context))
    }

    fn metadata(&self) -> (metadata: &'static RuleMetadata) {
        MLC129()
    }

    fn run(&self, context: &RuleContext<'_>) -> (diagnostics: Vec<Diagnostic>) {
        let calls = &context.qualified_calls.calls;
        let mut diagnostics: Vec<Diagnostic> = Vec::new();
        let mut i: usize = 0;
        assert(reports(diagnostics@) =~= Seq::empty());
        while i < calls.len()
            invariant
                i <= calls@.len(),
                calls@ == context.qualified_calls.calls@,
                reports(diagnostics@) == gather(i as int, lag_ratio_finder(*context)),
            decreases calls@.len() - i,
        {
            push_found(&mut diagnostics, lag_ratio(context, i));
            i += 1;
        }
        diagnostics
    }
}

} // verus!
