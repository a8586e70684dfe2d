//! Post-Transform identity rule: `MLC116`.
//!
//! A normal `Transform(source, target)` interpolates the live `source` in
//! place. It neither replaces the Scene root with `target` nor adds
//! `target`. The rule reports only when a later `.animate` definitely
//! targets that absent `target` while the transformed `source` is still in
//! the Scene: `Scene.play` will auto-add a second object at that point.
use crate::diagnostic::{
    Confidence, Diagnostic, DiagnosticView, MetadataView, RuleMetadata, Severity,
};
use crate::graph::{base_step, curated_reaches, reachable};
use crate::json::{json_text, Evidence, EvidenceView, JsonView};
use crate::knowledge::KnowledgeProfile;
use crate::rules::base::{
    add_related, basic_report, build_diagnostic, related_at, related_site, with_related, Rule,
    RuleContext,
};
use crate::rules::dedupe::{
    candidate_view, candidate_views, keep_first, kept, key_of, offer_all, offer_found, site_key,
    Candidate, CandidateView,
};
use crate::semantic::{
    Cardinality, KindSet, ObjectId, PlayFact, PlayKind, PlayedAnimation, Presence, SceneLifecycle,
    Truth,
};
use crate::source::slice_in;
use crate::text::{cat3, found, gather, texts};
use vstd::prelude::*;

verus! {

/// Canonical id of the normal `Transform` class.
pub const TRANSFORM: &'static str = "manim.animation.transform.Transform";

/// What [`MLC116`] declares.
pub open spec fn mlc116() -> MetadataView {
    MetadataView {
        id: "MLC116"@,
        summary: "Later operations confuse post-Transform source/target identity with scene membership"@,
        default_enabled: true,
        default_severity: Severity::Info,
        minimum_confidence: Confidence::Medium,
        implementation_phase: 2,
        required_profiles: seq![],
        required_capabilities: seq!["lifecycle"@],
        supersedes: seq![],
    }
}

/// Metadata of rule `MLC116`.
#[allow(non_snake_case)]
pub fn MLC116() -> (metadata: &'static RuleMetadata)
    ensures
        metadata@ == mlc116(),
{
    let metadata: &'static RuleMetadata = &RuleMetadata {
        id: "MLC116",
        summary: "Later operations confuse post-Transform source/target identity with scene membership",
        default_enabled: true,
        default_severity: Severity::Info,
        minimum_confidence: Confidence::Medium,
        implementation_phase: 2,
        required_profiles: &[],
        required_capabilities: &["lifecycle"],
        supersedes: &[],
    };
    assert(metadata@ =~= mlc116());
    metadata
}

/// A later `.animate` on the absent target of a completed normal Transform
/// while the live source remains displayed.
pub struct PostTransformTargetConfusion;

pub const CONFUSION_END: &'static str = "` animates the target object from an earlier normal \
    `Transform`, but that target is not in the Scene; the transformed \
    source is still the displayed object, so this play auto-adds a second \
    object. Animate the source alias if the intent is to continue moving \
    the transformed object.";

pub const CONFUSION_WHY: &'static str = "A normal `Transform(source, target)` mutates `source` in place to look \
    like `target`; cleanup does not replace it with `target` (unlike \
    `ReplacementTransform`). A later non-introducer animation of the absent \
    target triggers `Scene.play`'s auto-add step and leaves the transformed \
    source present as a separate object (DESIGN §3.2).";

pub const CONFUSION_HERE: &'static str = "normal Transform keeps its source as the live Scene object here";

/// Whether every class of a list is a curated kind of `Transform`.
pub open spec fn all_transforms(profile: KnowledgeProfile, kinds: Seq<Seq<char>>) -> bool {
    kinds.len() > 0 && forall|i: int|
        0 <= i < kinds.len() ==> reachable(
            base_step(profile),
            #[trigger] kinds[i],
            TRANSFORM@,
        )
}

fn are_all_transforms(profile: &KnowledgeProfile, kinds: &Vec<String>) -> (all: bool)
    ensures
        all == all_transforms(*profile, texts(kinds@)),
{
    if kinds.len() == 0 {
        return false;
    }
    let mut i: usize = 0;
    while i < kinds.len()
        invariant
            i <= kinds@.len(),
            forall|j: int|
                0 <= j < i ==> reachable(
                    base_step(*profile),
                    #[trigger] texts(kinds@)[j],
                    TRANSFORM@,
                ),
        decreases kinds@.len() - i,
    {
        assert(texts(kinds@)[i as int] == kinds@[i as int]@);
        if !curated_reaches(profile, kinds[i].as_str(), TRANSFORM) {
            return false;
        }
        i += 1;
    }
    true
}

/// The definite `(source, target)` relation of a curated normal Transform.
/// Replacement transforms are excluded by their positive replacement effect.
pub open spec fn transform_relation(
    profile: KnowledgeProfile,
    played: PlayedAnimation,
) -> Option<(ObjectId, ObjectId)> {
    match (played.state, played.replacement_target) {
        (Some(state), Some(target)) => match state.kind {
            KindSet::Known(kinds) => if state.replacement == Truth::No && state.remover
                == Truth::No && played.channels_known == Truth::Yes && all_transforms(
                profile,
                texts(kinds@),
            ) && state.targets@.len() == 1 && state.targets@[0].cardinality
                == Cardinality::Singleton && target.cardinality == Cardinality::Singleton
                && !state.targets@[0].same(target) {
                Some((state.targets@[0], target))
            } else {
                None
            },
            KindSet::Unknown => None,
        },
        _ => None,
    }
}

fn normal_transform_relation(profile: &KnowledgeProfile, played: &PlayedAnimation) -> (relation:
    Option<(ObjectId, ObjectId)>)
    ensures
        relation == transform_relation(*profile, *played),
{
    let state = match &played.state {
        Some(state) => state,
        None => {
            return None;
        },
    };
    if state.replacement != Truth::No || state.remover != Truth::No || played.channels_known
        != Truth::Yes {
        return None;
    }
    if let KindSet::Known(kinds) = &state.kind {
        if !are_all_transforms(profile, kinds) {
            return None;
        }
    } else {
        return None;
    }
    if state.targets.len() != 1 || state.targets[0].cardinality != Cardinality::Singleton {
        return None;
    }
    let source: ObjectId = state.targets[0];
    match played.replacement_target {
        Some(target) => if target.cardinality != Cardinality::Singleton
            || source.definitely_same(&target) {
            None
        } else {
            Some((source, target))
        },
        None => None,
    }
}

/// Whether an animation has `expected` as its only target.
pub open spec fn only_target(animation: PlayedAnimation, expected: ObjectId) -> bool {
    match animation.state {
        Some(state) => state.targets@.len() == 1 && state.targets@[0].same(expected),
        None => false,
    }
}

fn animation_targets(animation: &PlayedAnimation, expected: &ObjectId) -> (only: bool)
    ensures
        only == only_target(*animation, *expected),
{
    match &animation.state {
        Some(state) => state.targets.len() == 1 && state.targets[0].definitely_same(expected),
        None => false,
    }
}

/// Family membership of an object just before a play.
pub open spec fn family_at(scene: SceneLifecycle, object: ObjectId, play: PlayFact) -> Option<
    Presence,
> {
    match scene.spec_membership_at(object, play.site.file, play.site.start) {
        Some((_, family)) => Some(family),
        None => None,
    }
}

fn family_before(scene: &SceneLifecycle, object: &ObjectId, play: &PlayFact) -> (family: Option<
    Presence,
>)
    ensures
        family == family_at(*scene, *object, *play),
{
    match scene.membership_at(object, play.site.file, play.site.start) {
        Some((_, family)) => Some(family),
        None => None,
    }
}

/// The report for a later animation of an absent Transform target.
pub open spec fn confusion_report(
    context: RuleContext<'_>,
    scene: SceneLifecycle,
    transform: PlayedAnimation,
    later: PlayedAnimation,
) -> DiagnosticView {
    with_related(
        basic_report(
            mlc116(),
            context,
            later.site.file,
            later.site.spec_range(),
            "`"@ + slice_in(*context.sources, later.site.file, later.site.spec_range())
                + CONFUSION_END@,
            CONFUSION_WHY@,
            EvidenceView::empty().insert("scene"@, JsonView::Text(scene.qualified_name@)).insert(
                "source_membership"@,
                JsonView::Text("present"@),
            ).insert("target_membership"@, JsonView::Text("absent"@)).insert(
                "later_effect"@,
                JsonView::Text("non-introducer-auto-add"@),
            ),
        ),
        related_at(context, transform.site, CONFUSION_HERE@),
    )
}

fn post_transform_diagnostic(
    context: &RuleContext<'_>,
    scene: &SceneLifecycle,
    transform: &PlayedAnimation,
    later: &PlayedAnimation,
) -> (diagnostic: Diagnostic)
    ensures
        diagnostic@ == confusion_report(*context, *scene, *transform, *later),
{
    let text: String = context.sources.slice(later.site.file, later.site.range());
    let mut evidence = Evidence::new();
    evidence.insert("scene", json_text(scene.qualified_name.as_str()));
    evidence.insert("source_membership", json_text("present"));
    evidence.insert("target_membership", json_text("absent"));
    evidence.insert("later_effect", json_text("non-introducer-auto-add"));
    let mut diagnostic = build_diagnostic(
        MLC116(),
        context,
        later.site.file,
        later.site.range(),
        cat3("`", text.as_str(), CONFUSION_END),
        CONFUSION_WHY,
        evidence,
    );
    add_related(
        &mut diagnostic,
        related_site(context, transform.site, CONFUSION_HERE.to_owned()),
    );
    diagnostic
}

/// The candidate of one later animation.
pub open spec fn confusion_of(
    context: RuleContext<'_>,
    scene: SceneLifecycle,
    transform: PlayedAnimation,
    source: ObjectId,
    target: ObjectId,
    play: PlayFact,
    later: PlayedAnimation,
) -> Option<CandidateView> {
    match later.state {
        Some(state) => if later.from_builder && only_target(later, target) && state.introducer
            == Truth::No && family_at(scene, source, play) == Some(Presence::Present)
            && family_at(scene, target, play) == Some(Presence::Absent) {
            Some(
                (key_of(later.site), Some(confusion_report(context, scene, transform, later))),
            )
        } else {
            None
        },
        None => None,
    }
}

fn confusion_check(
    context: &RuleContext<'_>,
    scene: &SceneLifecycle,
    transform: &PlayedAnimation,
    source: &ObjectId,
    target: &ObjectId,
    play: &PlayFact,
    later: &PlayedAnimation,
) -> (candidate: Option<Candidate>)
    ensures
        match candidate {
            Some(found) => confusion_of(
                *context,
                *scene,
                *transform,
                *source,
                *target,
                *play,
                *later,
            ) == Some(candidate_view(found)),
            None => confusion_of(
                *context,
                *scene,
                *transform,
                *source,
                *target,
                *play,
                *later,
            ) is None,
        },
{
    if !later.from_builder || !animation_targets(later, target) {
        return None;
    }
    let no_introducer: bool = match &later.state {
        Some(state) => state.introducer == Truth::No,
        None => false,
    };
    if !no_introducer {
        return None;
    }
    let source_present: bool = match family_before(scene, source, play) {
        Some(family) => family == Presence::Present,
        None => false,
    };
    let target_absent: bool = match family_before(scene, target, play) {
        Some(family) => family == Presence::Absent,
        None => false,
    };
    if !source_present || !target_absent {
        return None;
    }
    Some(
        Candidate {
            key: site_key(later.site),
            diagnostic: Some(post_transform_diagnostic(context, scene, transform, later)),
        },
    )
}

/// Candidates of the animations of a later play, one by one.
pub open spec fn confused_animations_parts(
    context: RuleContext<'_>,
    scene: SceneLifecycle,
    transform: PlayedAnimation,
    source: ObjectId,
    target: ObjectId,
    play: PlayFact,
) -> spec_fn(int) -> Seq<CandidateView> {
    |k: int| found(confusion_of(context, scene, transform, source, target, play, play.animations@[k]))
}

/// Candidates of the animations of a later play, in order.
pub open spec fn confused_animations_all(
    context: RuleContext<'_>,
    scene: SceneLifecycle,
    transform: PlayedAnimation,
    source: ObjectId,
    target: ObjectId,
    play: PlayFact,
) -> Seq<CandidateView> {
    gather(play.animations@.len() as int, confused_animations_parts(context, scene, transform, source, target, play))
}

fn confused_animations(
    context: &RuleContext<'_>,
    scene: &SceneLifecycle,
    transform: &PlayedAnimation,
    source: &ObjectId,
    target: &ObjectId,
    play: &PlayFact,
) -> (candidates: Vec<Candidate>)
    ensures
        candidate_views(candidates@) == confused_animations_all(*context, *scene, *transform, *source, *target, *play),
{
    let mut candidates: Vec<Candidate> = Vec::new();
    let mut k: usize = 0;
    assert(candidate_views(candidates@) =~= Seq::empty());
    while k < play.animations.len()
        invariant
            k <= play.animations.len(),
            candidate_views(candidates@) == gather(k as int, confused_animations_parts(*context, *scene, *transform, *source, *target, *play)),
        decreases play.animations.len() - k,
    {
        offer_found(&mut candidates, confusion_check(context, scene, transform, source, target, play, &play.animations[k]));
        k += 1;
    }
    candidates
}

/// The candidates of one later play.
pub open spec fn confused_play_of(
    context: RuleContext<'_>,
    scene: SceneLifecycle,
    transform: PlayedAnimation,
    source: ObjectId,
    target: ObjectId,
    start: usize,
    k: int,
) -> Seq<CandidateView> {
    let play = scene.plays@[k];
    if k > start && play.kind == PlayKind::Play && play.certainty == Presence::Present {
        confused_animations_all(context, scene, transform, source, target, play)
    } else {
        Seq::empty()
    }
}

fn confused_play(
    context: &RuleContext<'_>,
    scene: &SceneLifecycle,
    transform: &PlayedAnimation,
    source: &ObjectId,
    target: &ObjectId,
    start: usize,
    k: usize,
) -> (candidates: Vec<Candidate>)
    requires
        k < scene.plays@.len(),
    ensures
        candidate_views(candidates@) == confused_play_of(
            *context,
            *scene,
            *transform,
            *source,
            *target,
            start,
            k as int,
        ),
{
    let play = &scene.plays[k];
    if k > start && play.kind == PlayKind::Play && play.certainty == Presence::Present {
        return confused_animations(context, scene, transform, source, target, play);
    }
    let none: Vec<Candidate> = Vec::new();
    assert(candidate_views(none@) =~= Seq::empty());
    none
}

/// Candidates of the plays after a Transform, one by one.
pub open spec fn confused_plays_parts(
    context: RuleContext<'_>,
    scene: SceneLifecycle,
    transform: PlayedAnimation,
    source: ObjectId,
    target: ObjectId,
    start: usize,
) -> spec_fn(int) -> Seq<CandidateView> {
    |k: int| confused_play_of(context, scene, transform, source, target, start, k)
}

/// Candidates of the plays after a Transform, in order.
pub open spec fn confused_plays_all(
    context: RuleContext<'_>,
    scene: SceneLifecycle,
    transform: PlayedAnimation,
    source: ObjectId,
    target: ObjectId,
    start: usize,
) -> Seq<CandidateView> {
    gather(scene.plays@.len() as int, confused_plays_parts(context, scene, transform, source, target, start))
}

fn confused_plays(
    context: &RuleContext<'_>,
    scene: &SceneLifecycle,
    transform: &PlayedAnimation,
    source: &ObjectId,
    target: &ObjectId,
    start: usize,
) -> (candidates: Vec<Candidate>)
    ensures
        candidate_views(candidates@) == confused_plays_all(*context, *scene, *transform, *source, *target, start),
{
    let mut candidates: Vec<Candidate> = Vec::new();
    let mut k: usize = 0;
    assert(candidate_views(candidates@) =~= Seq::empty());
    while k < scene.plays.len()
        invariant
            k <= scene.plays.len(),
            candidate_views(candidates@) == gather(k as int, confused_plays_parts(*context, *scene, *transform, *source, *target, start)),
        decreases scene.plays.len() - k,
    {
        offer_all(&mut candidates, confused_play(context, scene, transform, source, target, start, k));
        k += 1;
    }
    candidates
}

/// The candidates of one animation that can be a normal Transform.
pub open spec fn confused_transform_of(
    context: RuleContext<'_>,
    profile: KnowledgeProfile,
    scene: SceneLifecycle,
    start: usize,
    transform: PlayedAnimation,
) -> Seq<CandidateView> {
    match transform_relation(profile, transform) {
        Some((source, target)) => confused_plays_all(
            context,
            scene,
            transform,
            source,
            target,
            start,
        ),
        None => Seq::empty(),
    }
}

fn confused_transform(
    context: &RuleContext<'_>,
    profile: &KnowledgeProfile,
    scene: &SceneLifecycle,
    start: usize,
    transform: &PlayedAnimation,
) -> (candidates: Vec<Candidate>)
    ensures
        candidate_views(candidates@) == confused_transform_of(
            *context,
            *profile,
            *scene,
            start,
            *transform,
        ),
{
    if let Some((source, target)) = normal_transform_relation(profile, transform) {
        return confused_plays(context, scene, transform, &source, &target, start);
    }
    let none: Vec<Candidate> = Vec::new();
    assert(candidate_views(none@) =~= Seq::empty());
    none
}

/// Candidates of the Transforms of a play, one by one.
pub open spec fn confused_transforms_parts(
    context: RuleContext<'_>,
    profile: KnowledgeProfile,
    scene: SceneLifecycle,
    start: usize,
    play: PlayFact,
) -> spec_fn(int) -> Seq<CandidateView> {
    |k: int| confused_transform_of(context, profile, scene, start, play.animations@[k])
}

/// Candidates of the Transforms of a play, in order.
pub open spec fn confused_transforms_all(
    context: RuleContext<'_>,
    profile: KnowledgeProfile,
    scene: SceneLifecycle,
    start: usize,
    play: PlayFact,
) -> Seq<CandidateView> {
    gather(play.animations@.len() as int, confused_transforms_parts(context, profile, scene, start, play))
}

fn confused_transforms(
    context: &RuleContext<'_>,
    profile: &KnowledgeProfile,
    scene: &SceneLifecycle,
    start: usize,
    play: &PlayFact,
) -> (candidates: Vec<Candidate>)
    ensures
        candidate_views(candidates@) == confused_transforms_all(*context, *profile, *scene, start, *play),
{
    let mut candidates: Vec<Candidate> = Vec::new();
    let mut k: usize = 0;
    assert(candidate_views(candidates@) =~= Seq::empty());
    while k < play.animations.len()
        invariant
            k <= play.animations.len(),
            candidate_views(candidates@) == gather(k as int, confused_transforms_parts(*context, *profile, *scene, start, *play)),
        decreases play.animations.len() - k,
    {
        offer_all(&mut candidates, confused_transform(context, profile, scene, start, &play.animations[k]));
        k += 1;
    }
    candidates
}

/// The candidates of the play at `k`.
pub open spec fn confusions_of(context: RuleContext<'_>, scene: SceneLifecycle, k: int) -> Seq<
    CandidateView,
> {
    let play = scene.plays@[k];
    match context.knowledge {
        Some(profile) => if play.kind == PlayKind::Play && play.certainty == Presence::Present {
            confused_transforms_all(context, *profile, scene, k as usize, play)
        } else {
            Seq::empty()
        },
        None => Seq::empty(),
    }
}

fn confusions_check(context: &RuleContext<'_>, scene: &SceneLifecycle, k: usize) -> (candidates: Vec<
    Candidate,
>)
    requires
        k < scene.plays@.len(),
    ensures
        candidate_views(candidates@) == confusions_of(*context, *scene, k as int),
{
    let play = &scene.plays[k];
    if let Some(profile) = context.knowledge {
        if play.kind == PlayKind::Play && play.certainty == Presence::Present {
            return confused_transforms(context, profile, scene, k, play);
        }
    }
    let none: Vec<Candidate> = Vec::new();
    assert(candidate_views(none@) =~= Seq::empty());
    none
}

/// The candidates of a scene, in the order of its plays.
pub open spec fn confusions_items(context: RuleContext<'_>, scene: SceneLifecycle) -> spec_fn(
    int,
) -> Seq<CandidateView> {
    |k: int| confusions_of(context, scene, k)
}

/// The candidates of the scene at `i`.
pub open spec fn confusions_at(context: RuleContext<'_>, i: int) -> Seq<CandidateView> {
    let scene = context.lifecycle_facts.scenes@[i];
    gather(scene.plays@.len() as int, confusions_items(context, scene))
}

fn confusions(context: &RuleContext<'_>, i: usize) -> (candidates: Vec<Candidate>)
    requires
        i < context.lifecycle_facts.scenes@.len(),
    ensures
        candidate_views(candidates@) == confusions_at(*context, i as int),
{
    let scene = &context.lifecycle_facts.scenes[i];
    let mut candidates: Vec<Candidate> = Vec::new();
    let mut k: usize = 0;
    assert(candidate_views(candidates@) =~= Seq::empty());
    while k < scene.plays.len()
        invariant
            k <= scene.plays@.len(),
            candidate_views(candidates@) == gather(k as int, confusions_items(*context, *scene)),
        decreases scene.plays@.len() - k,
    {
        offer_all(&mut candidates, confusions_check(context, scene, k));
        k += 1;
    }
    candidates
}

/// Candidates of [`PostTransformTargetConfusion`], scene by scene.
pub open spec fn confusions_finder(context: RuleContext<'_>) -> spec_fn(int) -> Seq<CandidateView> {
    |i: int| confusions_at(context, i)
}

impl Rule for PostTransformTargetConfusion {
    open spec fn declared(&self) -> MetadataView {
        mlc116()
    }

    open spec fn findings(&self, context: RuleContext<'_>) -> Seq<DiagnosticView> {
        kept(gather(context.lifecycle_facts.scenes@.len() as int, confusions_finder(context)))
    }

    fn metadata(&self) -> (metadata: &'static RuleMetadata) {
        MLC116()
    }

    fn run(&self, context: &RuleContext<'_>) -> (diagnostics: Vec<Diagnostic>) {
        let scenes = &context.lifecycle_facts.scenes;
        let mut candidates: Vec<Candidate> = Vec::new();
        let mut i: usize = 0;
        assert(candidate_views(candidates@) =~= Seq::empty());
        while i < scenes.len()
            invariant
                i <= scenes@.len(),
                scenes@ == context.lifecycle_facts.scenes@,
                candidate_views(candidates@) == gather(i as int, confusions_finder(*context)),
            decreases scenes@.len() - i,
        {
            offer_all(&mut candidates, confusions(context, i));
            i += 1;
        }
        keep_first(candidates)
    }
}

} // verus!
