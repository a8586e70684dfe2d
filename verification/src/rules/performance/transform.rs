//! Transform begin-cost rules: `MLP207` and `MLP208`.
//!
//! Both walk the played animations of every analyzed scene and consider only
//! provable two-mobject Transform-family constructions. `MLP207` needs a
//! numeric gate: a confirmed source family or a confirmed curve insertion
//! that is large, both measured at the play site. `MLP208` is the Text and
//! TeX specialization: the kind test fires it, and it supersedes `MLP207` on
//! the same animation.
use super::hot_construction::{is_text_or_tex, text_or_tex};
use super::hot_receiver::{insert_bounds, with_bounds};
use crate::cost::transform_from;
use crate::diagnostic::{
    report_of, Confidence, Diagnostic, DiagnosticView, MetadataView, RuleMetadata, Severity,
};
use crate::json::{
    json_items, json_list, json_text, json_texts, text_list, Evidence, EvidenceView, Json, JsonView,
};
use crate::numbers::Num;
use crate::rules::base::{basic_report, build_diagnostic, Rule, RuleContext};
use crate::rules::dedupe::{
    candidate_view, candidate_views, keep_first, kept, key_of, offer_all, offer_found, site_key,
    Candidate, CandidateView,
};
use crate::semantic::{
    KindSet, ObjectId, PlayFact, PlayedAnimation, Presence, SceneLifecycle, Truth,
};
use crate::text::{cat3, found, gather, same_text, texts};
use crate::thresholds::{
    transform_curve_insertion_gate, transform_family_gate, TRANSFORM_CURVE_INSERTION_GATE,
    TRANSFORM_FAMILY_GATE,
};
use vstd::prelude::*;

verus! {

/// Two-mobject Transform-family constructors: `Transform(source, target)`
/// and its topology-aligning relatives.
pub open spec fn transform_class(id: Seq<char>) -> bool {
    id == "manim.animation.transform.ReplacementTransform"@ || id
        == "manim.animation.transform.Transform"@ || id
        == "manim.animation.transform_matching_parts.TransformMatchingAbstractBase"@ || id
        == "manim.animation.transform_matching_parts.TransformMatchingShapes"@ || id
        == "manim.animation.transform_matching_parts.TransformMatchingTex"@
}

fn is_transform_class(id: &str) -> (is: bool)
    ensures
        is == transform_class(id@),
{
    same_text(id, "manim.animation.transform.ReplacementTransform") || same_text(
        id,
        "manim.animation.transform.Transform",
    ) || same_text(
        id,
        "manim.animation.transform_matching_parts.TransformMatchingAbstractBase",
    ) || same_text(
        id,
        "manim.animation.transform_matching_parts.TransformMatchingShapes",
    ) || same_text(id, "manim.animation.transform_matching_parts.TransformMatchingTex")
}

/// Whether the list is not empty and holds transform classes only.
pub open spec fn all_transforms(kinds: Seq<String>) -> bool {
    kinds.len() > 0 && forall|i: int|
        0 <= i < kinds.len() ==> transform_class((#[trigger] kinds[i])@)
}

fn are_transforms(kinds: &Vec<String>) -> (all: bool)
    ensures
        all == all_transforms(kinds@),
{
    if kinds.len() == 0 {
        return false;
    }
    let mut i: usize = 0;
    while i < kinds.len()
        invariant
            i <= kinds@.len(),
            forall|j: int| 0 <= j < i ==> transform_class((#[trigger] kinds@[j])@),
        decreases kinds@.len() - i,
    {
        if !is_transform_class(kinds[i].as_str()) {
            return false;
        }
        i += 1;
    }
    true
}

/// The live source and the replacement target of a played animation that is
/// provably a two-mobject transform.
pub open spec fn transform_pair(animation: PlayedAnimation) -> Option<(ObjectId, ObjectId)> {
    match (animation.state, animation.replacement_target) {
        (Some(state), Some(target)) => match state.kind {
            KindSet::Known(kinds) => if animation.convertible == Truth::Yes && all_transforms(
                kinds@,
            ) && state.targets@.len() == 1 {
                Some((state.targets@[0], target))
            } else {
                None
            },
            KindSet::Unknown => None,
        },
        _ => None,
    }
}

fn provable_transform(animation: &PlayedAnimation) -> (pair: Option<(ObjectId, ObjectId)>)
    ensures
        pair == transform_pair(*animation),
{
    if animation.convertible != Truth::Yes {
        return None;
    }
    let state = match &animation.state {
        Some(state) => state,
        None => {
            return None;
        },
    };
    let kinds = match &state.kind {
        KindSet::Known(kinds) => kinds,
        KindSet::Unknown => {
            return None;
        },
    };
    if !are_transforms(kinds) || state.targets.len() != 1 {
        return None;
    }
    match animation.replacement_target {
        Some(target) => Some((state.targets[0], target)),
        None => None,
    }
}

/// The classes an object can be an instance of, in the final heap.
pub open spec fn kinds_of(scene: SceneLifecycle, object: ObjectId) -> Option<Seq<String>> {
    match scene.final_heap.spec_object(scene.final_heap.spec_resolve(object)) {
        Some(state) => match state.kind {
            KindSet::Known(candidates) => if candidates@.len() > 0 {
                Some(candidates@)
            } else {
                None
            },
            KindSet::Unknown => None,
        },
        None => None,
    }
}

/// The class candidates of `object` in the scene's final heap, when the kind
/// is definitely known.
fn known_kinds<'l>(scene: &'l SceneLifecycle, object: &ObjectId) -> (kinds: Option<&'l Vec<String>>)
    ensures
        match kinds {
            Some(found) => kinds_of(*scene, *object) == Some(found@),
            None => kinds_of(*scene, *object) is None,
        },
{
    let resolved: ObjectId = scene.final_heap.resolve(object);
    match scene.final_heap.object(&resolved) {
        Some(state) => match &state.kind {
            KindSet::Known(candidates) => if candidates.len() > 0 {
                Some(candidates)
            } else {
                None
            },
            KindSet::Unknown => None,
        },
        None => None,
    }
}

/// Whether every class of a list is a Text or TeX class.
pub open spec fn all_text(kinds: Seq<String>) -> bool {
    forall|i: int| 0 <= i < kinds.len() ==> text_or_tex((#[trigger] kinds[i])@)
}

fn are_text(kinds: &Vec<String>) -> (all: bool)
    ensures
        all == all_text(kinds@),
{
    let mut i: usize = 0;
    while i < kinds.len()
        invariant
            i <= kinds@.len(),
            forall|j: int| 0 <= j < i ==> text_or_tex((#[trigger] kinds@[j])@),
        decreases kinds@.len() - i,
    {
        if !is_text_or_tex(kinds[i].as_str()) {
            return false;
        }
        i += 1;
    }
    true
}

/// Whether an object definitely is a Text or TeX family.
pub open spec fn text_kind(scene: SceneLifecycle, object: ObjectId) -> bool {
    match kinds_of(scene, object) {
        Some(kinds) => all_text(kinds),
        None => false,
    }
}

fn is_text_kind(scene: &SceneLifecycle, object: &ObjectId) -> (text: bool)
    ensures
        text == text_kind(*scene, *object),
{
    match known_kinds(scene, object) {
        Some(kinds) => are_text(kinds),
        None => false,
    }
}

/// Whether the source or the target of a transform definitely is a Text or
/// TeX family.
pub open spec fn text_claimed(scene: SceneLifecycle, pair: (ObjectId, ObjectId)) -> bool {
    text_kind(scene, pair.0) || text_kind(scene, pair.1)
}

/// Source-family size and estimated curve insertion of a transform.
pub open spec fn sizes_of(
    context: RuleContext<'_>,
    scene: SceneLifecycle,
    play: PlayFact,
    animation: PlayedAnimation,
) -> (Num, Num) {
    match transform_from(
        context.cost_facts.transforms@,
        scene.qualified_name@,
        play.site,
        animation.site,
        0,
    ) {
        Some(fact) => (fact.family, fact.curve_delta),
        None => (Num::Unknown, Num::Unknown),
    }
}

/// Evidence with the classes of an object, when they are known.
pub open spec fn with_kinds(
    evidence: EvidenceView,
    key: Seq<char>,
    kinds: Option<Seq<String>>,
) -> EvidenceView {
    match kinds {
        Some(list) => evidence.insert(key, text_list(texts(list))),
        None => evidence,
    }
}

/// Kind labels plus family and curve-insertion bounds, where known.
pub open spec fn transform_view(
    scene: SceneLifecycle,
    pair: (ObjectId, ObjectId),
    family: Num,
    delta: Num,
) -> EvidenceView {
    with_bounds(
        with_bounds(
            with_kinds(
                with_kinds(
                    EvidenceView::empty().insert("scene"@, JsonView::Text(scene.qualified_name@)),
                    "source_kind"@,
                    kinds_of(scene, pair.0),
                ),
                "target_kind"@,
                kinds_of(scene, pair.1),
            ),
            "family_size"@,
            family,
        ),
        "curve_insertion"@,
        delta,
    )
}

fn insert_kinds(evidence: &mut Evidence, key: &str, kinds: Option<&Vec<String>>)
    ensures
        final(evidence)@ == with_kinds(
            old(evidence)@,
            key@,
            match kinds {
                Some(list) => Some(list@),
                None => None,
            },
        ),
{
    match kinds {
        Some(list) => {
            evidence.insert(key, json_texts(list));
        },
        None => {},
    }
}

/// Shared evidence: kind labels plus family and curve-insertion bounds when
/// real (unknown quantities are omitted).
fn transform_evidence(
    scene: &SceneLifecycle,
    source: &ObjectId,
    target: &ObjectId,
    family: &Num,
    delta: &Num,
) -> (evidence: Evidence)
    ensures
        evidence@ == transform_view(*scene, (*source, *target), *family, *delta),
{
    let mut evidence = Evidence::new();
    evidence.insert("scene", json_text(scene.qualified_name.as_str()));
    insert_kinds(&mut evidence, "source_kind", known_kinds(scene, source));
    insert_kinds(&mut evidence, "target_kind", known_kinds(scene, target));
    insert_bounds(&mut evidence, "family_size", family);
    insert_bounds(&mut evidence, "curve_insertion", delta);
    evidence
}

// ---------------------------------------------------------------------------
// MLP207: confirmed-large topology / family mismatch at Transform begin.
// ---------------------------------------------------------------------------

/// What [`MLP207`] declares.
pub open spec fn mlp207() -> MetadataView {
    MetadataView {
        id: "MLP207"@,
        summary: "Transform whose confirmed family size or curve insertion is large at begin"@,
        default_enabled: true,
        default_severity: Severity::Info,
        minimum_confidence: Confidence::Medium,
        implementation_phase: 3,
        required_profiles: seq![],
        required_capabilities: seq!["lifecycle"@, "cost-facts"@],
        supersedes: seq![],
    }
}

/// Metadata of rule `MLP207`.
#[allow(non_snake_case)]
pub fn MLP207() -> (metadata: &'static RuleMetadata)
    ensures
        metadata@ == mlp207(),
{
    let metadata: &'static RuleMetadata = &RuleMetadata {
        id: "MLP207",
        summary: "Transform whose confirmed family size or curve insertion is large at begin",
        default_enabled: true,
        default_severity: Severity::Info,
        minimum_confidence: Confidence::Medium,
        implementation_phase: 3,
        required_profiles: &[],
        required_capabilities: &["lifecycle", "cost-facts"],
        supersedes: &[],
    };
    assert(metadata@ =~= mlp207());
    metadata
}

/// A played Transform whose begin-time alignment cost is confirmed large.
pub struct MismatchedTransformBegin;

pub const BEGIN_START: &'static str = "This Transform pays a large one-time begin cost: ";

pub const BEGIN_END: &'static str = " \
    must be copied, aligned, and interpolated when the play \
    starts.";

pub const BEGIN_WHY: &'static str = "At `Animation.begin` a Transform copies the source, aligns \
    point and curve topology with the target (inserting curves \
    into the smaller side), and interpolates every family member \
    pair. With a large family or a large topology mismatch that \
    setup cost is paid before the first frame renders. Consider \
    transforming the specific submobjects that change, or using \
    `FadeTransform` when per-curve alignment is not needed.";

/// What is large, in words.
pub open spec fn begin_quantity(family: Num, delta: Num) -> Seq<char> {
    match (family.spec_lower_bound(), delta.spec_lower_bound()) {
        (Some(lower), _) => "a source family of at least "@ + lower.rounded_text() + " members"@,
        (None, Some(lower)) => "an estimated insertion of at least "@ + lower.rounded_text()
            + " curves"@,
        (None, None) => "a confirmed large alignment"@,
    }
}

fn quantify_begin(family: &Num, delta: &Num) -> (text: String)
    ensures
        text@ == begin_quantity(*family, *delta),
{
    if let Some(lower) = family.lower_bound() {
        return cat3("a source family of at least ", lower.format_rounded().as_str(), " members");
    }
    if let Some(lower) = delta.lower_bound() {
        return cat3(
            "an estimated insertion of at least ",
            lower.format_rounded().as_str(),
            " curves",
        );
    }
    "a confirmed large alignment".to_owned()
}

/// Whether a transform is confirmed to be expensive to begin.
pub open spec fn begin_gate_met(family: Num, delta: Num) -> bool {
    transform_family_gate().passes(family) || transform_curve_insertion_gate().passes(delta)
}

/// Whether one of the two quantities passes its gate.
pub fn transform_begin_gate_met(family: &Num, delta: &Num) -> (is_met: bool)
    ensures
        is_met == begin_gate_met(*family, *delta),
{
    TRANSFORM_FAMILY_GATE().confirmed_by(family) || TRANSFORM_CURVE_INSERTION_GATE().confirmed_by(
        delta,
    )
}

/// The report on a large transform.
pub open spec fn begin_report(
    context: RuleContext<'_>,
    scene: SceneLifecycle,
    animation: PlayedAnimation,
    pair: (ObjectId, ObjectId),
    family: Num,
    delta: Num,
) -> DiagnosticView {
    basic_report(
        mlp207(),
        context,
        animation.site.file,
        animation.site.spec_range(),
        BEGIN_START@ + begin_quantity(family, delta) + BEGIN_END@,
        BEGIN_WHY@,
        transform_view(scene, pair, family, delta).insert(
            "gates"@,
            JsonView::List(
                seq![
                    transform_family_gate().evidence(family),
                    transform_curve_insertion_gate().evidence(delta),
                ],
            ),
        ),
    )
}

/// What the animation at `k` of a play gives.
pub open spec fn begin_candidate(
    context: RuleContext<'_>,
    scene: SceneLifecycle,
    play: PlayFact,
    k: int,
) -> Option<CandidateView> {
    let animation = play.animations@[k];
    match transform_pair(animation) {
        Some(pair) => if context.knowledge is Some && play.certainty == Presence::Present
            && !text_claimed(scene, pair) {
            let (family, delta) = sizes_of(context, scene, play, animation);
            Some(
                (
                    key_of(animation.site),
                    if begin_gate_met(family, delta) {
                        Some(begin_report(context, scene, animation, pair, family, delta))
                    } else {
                        None
                    },
                ),
            )
        } else {
            None
        },
        None => None,
    }
}

fn report_begin(
    context: &RuleContext<'_>,
    scene: &SceneLifecycle,
    animation: &PlayedAnimation,
    pair: (ObjectId, ObjectId),
    family: &Num,
    delta: &Num,
) -> (found: Option<Diagnostic>)
    ensures
        report_of(found) == (if begin_gate_met(*family, *delta) {
            Some(begin_report(*context, *scene, *animation, pair, *family, *delta))
        } else {
            None
        }),
{
    if !transform_begin_gate_met(family, delta) {
        return None;
    }
    let mut evidence = transform_evidence(scene, &pair.0, &pair.1, family, delta);
    let gates: Vec<Json> = vec![
        TRANSFORM_FAMILY_GATE().evidence(family),
        TRANSFORM_CURVE_INSERTION_GATE().evidence(delta),
    ];
    assert(json_items(gates@) =~= seq![
        transform_family_gate().evidence(*family),
        transform_curve_insertion_gate().evidence(*delta),
    ]);
    evidence.insert("gates", json_list(gates));
    Some(
        build_diagnostic(
            MLP207(),
            context,
            animation.site.file,
            animation.site.range(),
            cat3(BEGIN_START, quantify_begin(family, delta).as_str(), BEGIN_END),
            BEGIN_WHY,
            evidence,
        ),
    )
}

fn check_begin(context: &RuleContext<'_>, scene: &SceneLifecycle, play: &PlayFact, k: usize) -> (found:
    Option<Candidate>)
    requires
        k < play.animations@.len(),
    ensures
        match found {
            Some(candidate) => begin_candidate(*context, *scene, *play, k as int) == Some(
                candidate_view(candidate),
            ),
            None => begin_candidate(*context, *scene, *play, k as int) is None,
        },
{
    let animation = &play.animations[k];
    if context.knowledge.is_none() || play.certainty != Presence::Present {
        return None;
    }
    let pair = match provable_transform(animation) {
        Some(pair) => pair,
        None => {
            return None;
        },
    };
    if is_text_kind(scene, &pair.0) || is_text_kind(scene, &pair.1) {
        return None;
    }
    let diagnostic: Option<Diagnostic> = match context.cost_facts.transform_at(
        scene.qualified_name.as_str(),
        play.site,
        animation.site,
    ) {
        Some(fact) => report_begin(
            context,
            scene,
            animation,
            pair,
            &fact.family,
            &fact.curve_delta,
        ),
        None => report_begin(context, scene, animation, pair, &Num::Unknown, &Num::Unknown),
    };
    Some(Candidate { key: site_key(animation.site), diagnostic })
}

/// What the animations of a play give, one by one.
pub open spec fn begins_parts(
    context: RuleContext<'_>,
    scene: SceneLifecycle,
    play: PlayFact,
) -> spec_fn(int) -> Seq<CandidateView> {
    |k: int| found(begin_candidate(context, scene, play, k))
}

/// What the animations of a play give, in order.
pub open spec fn begins_all(
    context: RuleContext<'_>,
    scene: SceneLifecycle,
    play: PlayFact,
) -> Seq<CandidateView> {
    gather(play.animations@.len() as int, begins_parts(context, scene, play))
}

fn begins(
    context: &RuleContext<'_>,
    scene: &SceneLifecycle,
    play: &PlayFact,
) -> (candidates: Vec<Candidate>)
    ensures
        candidate_views(candidates@) == begins_all(*context, *scene, *play),
{
    let mut candidates: Vec<Candidate> = Vec::new();
    let mut k: usize = 0;
    assert(candidate_views(candidates@) =~= Seq::empty());
    while k < play.animations.len()
        invariant
            k <= play.animations.len(),
            candidate_views(candidates@) == gather(k as int, begins_parts(*context, *scene, *play)),
        decreases play.animations.len() - k,
    {
        offer_found(&mut candidates, check_begin(context, scene, play, k));
        k += 1;
    }
    candidates
}

/// What the play at `k` gives.
pub open spec fn begin_of(context: RuleContext<'_>, scene: SceneLifecycle, k: int) -> Seq<
    CandidateView,
> {
    begins_all(context, scene, scene.plays@[k])
}

fn begin_check(context: &RuleContext<'_>, scene: &SceneLifecycle, k: usize) -> (candidates: Vec<
    Candidate,
>)
    requires
        k < scene.plays@.len(),
    ensures
        candidate_views(candidates@) == begin_of(*context, *scene, k as int),
{
    begins(context, scene, &scene.plays[k])
}

/// The candidates of a scene, in the order of its plays.
pub open spec fn begin_items(context: RuleContext<'_>, scene: SceneLifecycle) -> spec_fn(
    int,
) -> Seq<CandidateView> {
    |k: int| begin_of(context, scene, k)
}

/// The candidates of the scene at `i`.
pub open spec fn begin_at(context: RuleContext<'_>, i: int) -> Seq<CandidateView> {
    let scene = context.lifecycle_facts.scenes@[i];
    gather(scene.plays@.len() as int, begin_items(context, scene))
}

fn begin(context: &RuleContext<'_>, i: usize) -> (candidates: Vec<Candidate>)
    requires
        i < context.lifecycle_facts.scenes@.len(),
    ensures
        candidate_views(candidates@) == begin_at(*context, i as int),
{
    let scene = &context.lifecycle_facts.scenes[i];
    let mut candidates: Vec<Candidate> = Vec::new();
    let mut k: usize = 0;
    assert(candidate_views(candidates@) =~= Seq::empty());
    while k < scene.plays.len()
        invariant
            k <= scene.plays@.len(),
            candidate_views(candidates@) == gather(k as int, begin_items(*context, *scene)),
        decreases scene.plays@.len() - k,
    {
        offer_all(&mut candidates, begin_check(context, scene, k));
        k += 1;
    }
    candidates
}

/// Candidates of [`MismatchedTransformBegin`], scene by scene.
pub open spec fn begin_finder(context: RuleContext<'_>) -> spec_fn(int) -> Seq<CandidateView> {
    |i: int| begin_at(context, i)
}

impl Rule for MismatchedTransformBegin {
    open spec fn declared(&self) -> MetadataView {
        mlp207()
    }

    open spec fn findings(&self, context: RuleContext<'_>) -> Seq<DiagnosticView> {
        kept(gather(context.lifecycle_facts.scenes@.len() as int, begin_finder(context)))
    }

    fn metadata(&self) -> (metadata: &'static RuleMetadata) {
        MLP207()
    }

    fn run(&self, context: &RuleContext<'_>) -> (diagnostics: Vec<Diagnostic>) {
        let scenes = &context.lifecycle_facts.scenes;
        let mut candidates: Vec<Candidate> = Vec::new();
        let mut i: usize = 0;
        assert(candidate_views(candidates@) =~= Seq::empty());
        while i < scenes.len()
            invariant
                i <= scenes@.len(),
                scenes@ == context.lifecycle_facts.scenes@,
                candidate_views(candidates@) == gather(i as int, begin_finder(*context)),
            decreases scenes@.len() - i,
        {
            offer_all(&mut candidates, begin(context, i));
            i += 1;
        }
        keep_first(candidates)
    }
}

// ---------------------------------------------------------------------------
// MLP208: Transform of a Text / MathTex family.
// ---------------------------------------------------------------------------

/// What [`MLP208`] declares.
pub open spec fn mlp208() -> MetadataView {
    MetadataView {
        id: "MLP208"@,
        summary: "Transform of a Text/MathTex family (copy + align + per-glyph interpolation)"@,
        default_enabled: true,
        default_severity: Severity::Info,
        minimum_confidence: Confidence::High,
        implementation_phase: 3,
        required_profiles: seq![],
        required_capabilities: seq!["lifecycle"@, "cost-facts"@],
        supersedes: seq!["MLP207"@],
    }
}

/// Metadata of rule `MLP208`.
#[allow(non_snake_case)]
pub fn MLP208() -> (metadata: &'static RuleMetadata)
    ensures
        metadata@ == mlp208(),
{
    let metadata: &'static RuleMetadata = &RuleMetadata {
        id: "MLP208",
        summary: "Transform of a Text/MathTex family (copy + align + per-glyph interpolation)",
        default_enabled: true,
        default_severity: Severity::Info,
        minimum_confidence: Confidence::High,
        implementation_phase: 3,
        required_profiles: &[],
        required_capabilities: &["lifecycle", "cost-facts"],
        supersedes: &["MLP207"],
    };
    assert(metadata@ =~= mlp208());
    metadata
}

/// A played Transform whose source or target is definitely a Text or TeX
/// family: glyph families make begin-time copy, alignment, and per-submobject
/// interpolation expensive.
pub struct TextFamilyTransform;

pub const GLYPHS: &'static str = "This Transform operates on a Text/MathTex family: begin \
    copies the whole glyph family, aligns each submobject's \
    point data, and interpolates every glyph pair per frame.";

pub const GLYPHS_WHY: &'static str = "Text and TeX mobjects decompose into one submobject per \
    glyph, so transforming them multiplies the copy / align / \
    interpolate cost by the glyph count. When the old and new \
    content share most glyphs, `TransformMatchingTex` / \
    `TransformMatchingShapes` moves matching glyphs instead of \
    re-aligning everything; when only a numeric value changes, \
    drive a `DecimalNumber` with `set_value`. The glyph count \
    depends on the rendered content and is not statically \
    provable, so this diagnostic quantifies only what is proven.";

/// The family size that counts as evidence: a glyph family has none that the
/// structure would show.
pub open spec fn shown_family(scene: SceneLifecycle, source: ObjectId, family: Num) -> Num {
    if text_kind(scene, source) {
        Num::Unknown
    } else {
        family
    }
}

/// What the animation at `k` of a play gives.
pub open spec fn glyph_candidate(
    context: RuleContext<'_>,
    scene: SceneLifecycle,
    play: PlayFact,
    k: int,
) -> Option<CandidateView> {
    let animation = play.animations@[k];
    match transform_pair(animation) {
        Some(pair) => if context.knowledge is Some && play.certainty == Presence::Present
            && text_claimed(scene, pair) {
            let (family, delta) = sizes_of(context, scene, play, animation);
            Some(
                (
                    key_of(animation.site),
                    Some(
                        basic_report(
                            mlp208(),
                            context,
                            animation.site.file,
                            animation.site.spec_range(),
                            GLYPHS@,
                            GLYPHS_WHY@,
                            transform_view(
                                scene,
                                pair,
                                shown_family(scene, pair.0, family),
                                delta,
                            ),
                        ),
                    ),
                ),
            )
        } else {
            None
        },
        None => None,
    }
}

fn check_glyph(context: &RuleContext<'_>, scene: &SceneLifecycle, play: &PlayFact, k: usize) -> (found:
    Option<Candidate>)
    requires
        k < play.animations@.len(),
    ensures
        match found {
            Some(candidate) => glyph_candidate(*context, *scene, *play, k as int) == Some(
                candidate_view(candidate),
            ),
            None => glyph_candidate(*context, *scene, *play, k as int) is None,
        },
{
    let animation = &play.animations[k];
    if context.knowledge.is_none() || play.certainty != Presence::Present {
        return None;
    }
    let pair = match provable_transform(animation) {
        Some(pair) => pair,
        None => {
            return None;
        },
    };
    let glyphs: bool = is_text_kind(scene, &pair.0);
    if !glyphs && !is_text_kind(scene, &pair.1) {
        return None;
    }
    let evidence: Evidence = match context.cost_facts.transform_at(
        scene.qualified_name.as_str(),
        play.site,
        animation.site,
    ) {
        Some(fact) => if glyphs {
            transform_evidence(scene, &pair.0, &pair.1, &Num::Unknown, &fact.curve_delta)
        } else {
            transform_evidence(scene, &pair.0, &pair.1, &fact.family, &fact.curve_delta)
        },
        None => transform_evidence(scene, &pair.0, &pair.1, &Num::Unknown, &Num::Unknown),
    };
    let diagnostic = build_diagnostic(
        MLP208(),
        context,
        animation.site.file,
        animation.site.range(),
        GLYPHS.to_owned(),
        GLYPHS_WHY,
        evidence,
    );
    Some(Candidate { key: site_key(animation.site), diagnostic: Some(diagnostic) })
}

/// What the animations of a play give, one by one.
pub open spec fn glyphs_parts(
    context: RuleContext<'_>,
    scene: SceneLifecycle,
    play: PlayFact,
) -> spec_fn(int) -> Seq<CandidateView> {
    |k: int| found(glyph_candidate(context, scene, play, k))
}

/// What the animations of a play give, in order.
pub open spec fn glyphs_all(
    context: RuleContext<'_>,
    scene: SceneLifecycle,
    play: PlayFact,
) -> Seq<CandidateView> {
    gather(play.animations@.len() as int, glyphs_parts(context, scene, play))
}

fn glyphs(
    context: &RuleContext<'_>,
    scene: &SceneLifecycle,
    play: &PlayFact,
) -> (candidates: Vec<Candidate>)
    ensures
        candidate_views(candidates@) == glyphs_all(*context, *scene, *play),
{
    let mut candidates: Vec<Candidate> = Vec::new();
    let mut k: usize = 0;
    assert(candidate_views(candidates@) =~= Seq::empty());
    while k < play.animations.len()
        invariant
            k <= play.animations.len(),
            candidate_views(candidates@) == gather(k as int, glyphs_parts(*context, *scene, *play)),
        decreases play.animations.len() - k,
    {
        offer_found(&mut candidates, check_glyph(context, scene, play, k));
        k += 1;
    }
    candidates
}

/// What the play at `k` gives.
pub open spec fn glyph_of(context: RuleContext<'_>, scene: SceneLifecycle, k: int) -> Seq<
    CandidateView,
> {
    glyphs_all(context, scene, scene.plays@[k])
}

fn glyph_check(context: &RuleContext<'_>, scene: &SceneLifecycle, k: usize) -> (candidates: Vec<
    Candidate,
>)
    requires
        k < scene.plays@.len(),
    ensures
        candidate_views(candidates@) == glyph_of(*context, *scene, k as int),
{
    glyphs(context, scene, &scene.plays[k])
}

/// The candidates of a scene, in the order of its plays.
pub open spec fn glyph_items(context: RuleContext<'_>, scene: SceneLifecycle) -> spec_fn(
    int,
) -> Seq<CandidateView> {
    |k: int| glyph_of(context, scene, k)
}

/// The candidates of the scene at `i`.
pub open spec fn glyph_at(context: RuleContext<'_>, i: int) -> Seq<CandidateView> {
    let scene = context.lifecycle_facts.scenes@[i];
    gather(scene.plays@.len() as int, glyph_items(context, scene))
}

fn glyph(context: &RuleContext<'_>, i: usize) -> (candidates: Vec<Candidate>)
    requires
        i < context.lifecycle_facts.scenes@.len(),
    ensures
        candidate_views(candidates@) == glyph_at(*context, i as int),
{
    let scene = &context.lifecycle_facts.scenes[i];
    let mut candidates: Vec<Candidate> = Vec::new();
    let mut k: usize = 0;
    assert(candidate_views(candidates@) =~= Seq::empty());
    while k < scene.plays.len()
        invariant
            k <= scene.plays@.len(),
            candidate_views(candidates@) == gather(k as int, glyph_items(*context, *scene)),
        decreases scene.plays@.len() - k,
    {
        offer_all(&mut candidates, glyph_check(context, scene, k));
        k += 1;
    }
    candidates
}

/// Candidates of [`TextFamilyTransform`], scene by scene.
pub open spec fn glyph_finder(context: RuleContext<'_>) -> spec_fn(int) -> Seq<CandidateView> {
    |i: int| glyph_at(context, i)
}

impl Rule for TextFamilyTransform {
    open spec fn declared(&self) -> MetadataView {
        mlp208()
    }

    open spec fn findings(&self, context: RuleContext<'_>) -> Seq<DiagnosticView> {
        kept(gather(context.lifecycle_facts.scenes@.len() as int, glyph_finder(context)))
    }

    fn metadata(&self) -> (metadata: &'static RuleMetadata) {
        MLP208()
    }

    fn run(&self, context: &RuleContext<'_>) -> (diagnostics: Vec<Diagnostic>) {
        let scenes = &context.lifecycle_facts.scenes;
        let mut candidates: Vec<Candidate> = Vec::new();
        let mut i: usize = 0;
        assert(candidate_views(candidates@) =~= Seq::empty());
        while i < scenes.len()
            invariant
                i <= scenes@.len(),
                scenes@ == context.lifecycle_facts.scenes@,
                candidate_views(candidates@) == gather(i as int, glyph_finder(*context)),
            decreases scenes@.len() - i,
        {
            offer_all(&mut candidates, glyph(context, i));
            i += 1;
        }
        keep_first(candidates)
    }
}

/// A transform that `MLP208` takes is left alone by `MLP207`: one defect
/// yields one diagnostic.
pub proof fn one_report_per_transform(
    context: RuleContext<'_>,
    scene: SceneLifecycle,
    play: PlayFact,
    k: int,
)
    requires
        0 <= k < play.animations@.len(),
        glyph_candidate(context, scene, play, k) is Some,
    ensures
        begin_candidate(context, scene, play, k) is None,
{
}

} // verus!
