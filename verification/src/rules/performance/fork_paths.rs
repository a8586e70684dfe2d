//! `MLP225`: causal fork fast-path explanations.
//!
//! Not a normal warning. The rule explains which feature closes which of a
//! fork's fast paths, and never recommends deleting a feature that may be
//! intentional. It is not enabled by default, and inert unless the loaded
//! knowledge profile declares fork capabilities.
use crate::cost::{
    ForkFacts, GateCause, GateEvaluation, GateKind, GateVerdict, PlayGateOutcome, ProfileForkPaths,
    SceneForkPaths,
};
use crate::diagnostic::{
    push, push_related, related_views, reports, Confidence, Diagnostic, DiagnosticView,
    MetadataView, RelatedLocation, RelatedView, RuleMetadata, Severity,
};
use crate::json::{json_size, json_text, json_texts, text_list, Evidence, EvidenceView, JsonView};
use crate::ordered::{text_before, text_before_total, text_before_transitive, text_precedes};
use crate::rules::base::{
    basic_report, build_diagnostic, related_at, related_site, Rule, RuleContext,
};
use crate::text::{
    cat3, cat4, cat7, copy_texts, decimal_size, found, gather, numeral, same_text, texts,
};
use vstd::prelude::*;

verus! {

/// What [`MLP225`] declares.
pub open spec fn mlp225() -> MetadataView {
    MetadataView {
        id: "MLP225"@,
        summary: "Cost-report-only explanation of features that block local-fork fast paths"@,
        default_enabled: false,
        default_severity: Severity::Info,
        minimum_confidence: Confidence::High,
        implementation_phase: 3,
        required_profiles: seq![],
        required_capabilities: seq!["cost-report"@, "local-fork-overlay"@],
        supersedes: seq![],
    }
}

/// Metadata of rule `MLP225`.
#[allow(non_snake_case)]
pub fn MLP225() -> (metadata: &'static RuleMetadata)
    ensures
        metadata@ == mlp225(),
{
    let metadata: &'static RuleMetadata = &RuleMetadata {
        id: "MLP225",
        summary: "Cost-report-only explanation of features that block local-fork fast paths",
        default_enabled: false,
        default_severity: Severity::Info,
        minimum_confidence: Confidence::High,
        implementation_phase: 3,
        required_profiles: &[],
        required_capabilities: &["cost-report", "local-fork-overlay"],
        supersedes: &[],
    };
    assert(metadata@ =~= mlp225());
    metadata
}

/// Explains which statically proven feature closes which fork fast path for
/// which play. Emits only proven losses (blocked plays and monotonically
/// disabled plays of a requested fast path) with the causal chain; unaudited
/// plays and unrequested pipelines produce nothing.
pub struct ForkFastPathLoss;

/// Place of a fast path in reports.
pub open spec fn gate_rank(gate: GateKind) -> int {
    match gate {
        GateKind::ForkPerPlay => 0,
        GateKind::StaticLayers => 1,
        GateKind::BulkInterpolation => 2,
    }
}

fn rank_of(gate: GateKind) -> (rank: u8)
    ensures
        rank == gate_rank(gate),
{
    match gate {
        GateKind::ForkPerPlay => 0,
        GateKind::StaticLayers => 1,
        GateKind::BulkInterpolation => 2,
    }
}

/// Name of a fast path.
pub open spec fn gate_label(gate: GateKind) -> Seq<char> {
    match gate {
        GateKind::ForkPerPlay => "fork-per-play"@,
        GateKind::StaticLayers => "static-layers"@,
        GateKind::BulkInterpolation => "bulk-interpolation"@,
    }
}

fn label_of(gate: GateKind) -> (label: &'static str)
    ensures
        label@ == gate_label(gate),
{
    match gate {
        GateKind::ForkPerPlay => "fork-per-play",
        GateKind::StaticLayers => "static-layers",
        GateKind::BulkInterpolation => "bulk-interpolation",
    }
}

/// What was measured about a fast path.
pub open spec fn measured(fork: ForkFacts, gate: GateKind) -> Option<Seq<char>> {
    match (
        match gate {
            GateKind::ForkPerPlay => fork.fork_measured,
            GateKind::StaticLayers => fork.static_layers_measured,
            GateKind::BulkInterpolation => fork.bulk_measured,
        }
    ) {
        Some(text) => Some(text@),
        None => None,
    }
}

fn measured_evidence(fork: &ForkFacts, gate: GateKind) -> (text: Option<&String>)
    ensures
        match text {
            Some(found) => measured(*fork, gate) == Some(found@),
            None => measured(*fork, gate) is None,
        },
{
    let field: &Option<String> = match gate {
        GateKind::ForkPerPlay => &fork.fork_measured,
        GateKind::StaticLayers => &fork.static_layers_measured,
        GateKind::BulkInterpolation => &fork.bulk_measured,
    };
    match field {
        Some(text) => Some(text),
        None => None,
    }
}

/// One proven loss under one profile.
#[derive(Clone, Copy)]
pub struct GateLoss<'c> {
    pub scene: &'c String,
    pub gate: GateKind,
    pub outcome: &'c PlayGateOutcome,
    pub profile: &'c String,
}

/// What a [`GateLoss`] says.
pub struct LossView {
    pub scene: Seq<char>,
    pub gate: GateKind,
    pub outcome: PlayGateOutcome,
    pub profile: Seq<char>,
}

impl<'c> View for GateLoss<'c> {
    type V = LossView;

    open spec fn view(&self) -> LossView {
        LossView {
            scene: self.scene@,
            gate: self.gate,
            outcome: *self.outcome,
            profile: self.profile@,
        }
    }
}

/// What a list of losses says.
pub open spec fn loss_views(list: Seq<GateLoss<'_>>) -> Seq<LossView> {
    Seq::new(list.len(), |i: int| list[i]@)
}

/// Whether an outcome is a proven loss.
pub open spec fn is_loss(verdict: GateVerdict) -> bool {
    verdict is Blocked || verdict is MonotonicallyDisabled
}

fn proven_loss(verdict: &GateVerdict) -> (loss: bool)
    ensures
        loss == is_loss(*verdict),
{
    match verdict {
        GateVerdict::Blocked(_) => true,
        GateVerdict::MonotonicallyDisabled {
            first_ordinal: _,
            first_site: _,
            first_blocker: _,
        } => true,
        GateVerdict::Clear => false,
        GateVerdict::NotApplicable => false,
        GateVerdict::Unaudited => false,
    }
}

/// Losses of a list of outcomes, one by one.
pub open spec fn outcome_losses(
    scene: Seq<char>,
    gate: GateKind,
    profile: Seq<char>,
    outcomes: Seq<PlayGateOutcome>,
) -> spec_fn(int) -> Seq<LossView> {
    |k: int|
        if is_loss(outcomes[k].verdict) {
            seq![LossView { scene, gate, outcome: outcomes[k], profile }]
        } else {
            Seq::empty()
        }
}

/// Losses of one fast path.
pub open spec fn gate_losses(
    scene: Seq<char>,
    gate: GateKind,
    profile: Seq<char>,
    evaluation: GateEvaluation,
) -> Seq<LossView> {
    match evaluation {
        GateEvaluation::Plays(outcomes) => gather(
            outcomes@.len() as int,
            outcome_losses(scene, gate, profile, outcomes@),
        ),
        GateEvaluation::Unrequested => Seq::empty(),
    }
}

fn add_gate_losses<'c>(
    list: &mut Vec<GateLoss<'c>>,
    scene: &'c String,
    gate: GateKind,
    profile: &'c String,
    evaluation: &'c GateEvaluation,
)
    ensures
        loss_views(final(list)@) == loss_views(old(list)@) + gate_losses(
            scene@,
            gate,
            profile@,
            *evaluation,
        ),
{
    let ghost start = loss_views(list@);
    match evaluation {
        GateEvaluation::Plays(outcomes) => {
            let ghost parts = outcome_losses(scene@, gate, profile@, outcomes@);
            let mut k: usize = 0;
            assert(loss_views(list@) =~= start + gather(0, parts));
            while k < outcomes.len()
                invariant
                    k <= outcomes@.len(),
                    parts == outcome_losses(scene@, gate, profile@, outcomes@),
                    loss_views(list@) == start + gather(k as int, parts),
                decreases outcomes@.len() - k,
            {
                let ghost before = list@;
                if proven_loss(&outcomes[k].verdict) {
                    let loss = GateLoss { scene, gate, outcome: &outcomes[k], profile };
                    list.push(loss);
                    assert(loss_views(list@) =~= loss_views(before) + parts(k as int));
                } else {
                    assert(loss_views(list@) =~= loss_views(before) + parts(k as int));
                }
                assert(loss_views(list@) =~= start + gather(k + 1, parts));
                k += 1;
            }
        },
        GateEvaluation::Unrequested => {
            assert(loss_views(list@) =~= start + Seq::<LossView>::empty());
        },
    }
}

/// Losses of a scene, profile by profile.
pub open spec fn profile_losses(scene: Seq<char>, profiles: Seq<ProfileForkPaths>) -> spec_fn(
    int,
) -> Seq<LossView> {
    |k: int|
        gate_losses(scene, GateKind::ForkPerPlay, profiles[k].profile@, profiles[k].fork)
            + gate_losses(
            scene,
            GateKind::StaticLayers,
            profiles[k].profile@,
            profiles[k].static_layers,
        ) + gate_losses(
            scene,
            GateKind::BulkInterpolation,
            profiles[k].profile@,
            profiles[k].bulk,
        )
}

/// Losses of all scenes, scene by scene.
pub open spec fn scene_losses(scenes: Seq<SceneForkPaths>) -> spec_fn(int) -> Seq<LossView> {
    |k: int|
        gather(
            scenes[k].profiles@.len() as int,
            profile_losses(scenes[k].scene@, scenes[k].profiles@),
        )
}

/// All proven losses, in order.
pub open spec fn all_losses(fork: ForkFacts) -> Seq<LossView> {
    gather(fork.scenes@.len() as int, scene_losses(fork.scenes@))
}

fn add_scene_losses<'c>(list: &mut Vec<GateLoss<'c>>, paths: &'c SceneForkPaths)
    ensures
        loss_views(final(list)@) == loss_views(old(list)@) + gather(
            paths.profiles@.len() as int,
            profile_losses(paths.scene@, paths.profiles@),
        ),
{
    let ghost start = loss_views(list@);
    let ghost parts = profile_losses(paths.scene@, paths.profiles@);
    let mut k: usize = 0;
    assert(loss_views(list@) =~= start + gather(0, parts));
    while k < paths.profiles.len()
        invariant
            k <= paths.profiles@.len(),
            parts == profile_losses(paths.scene@, paths.profiles@),
            loss_views(list@) == start + gather(k as int, parts),
        decreases paths.profiles@.len() - k,
    {
        let profile = &paths.profiles[k];
        let ghost before = loss_views(list@);
        add_gate_losses(
            list,
            &paths.scene,
            GateKind::ForkPerPlay,
            &profile.profile,
            &profile.fork,
        );
        add_gate_losses(
            list,
            &paths.scene,
            GateKind::StaticLayers,
            &profile.profile,
            &profile.static_layers,
        );
        add_gate_losses(
            list,
            &paths.scene,
            GateKind::BulkInterpolation,
            &profile.profile,
            &profile.bulk,
        );
        assert(loss_views(list@) =~= before + parts(k as int));
        assert(loss_views(list@) =~= start + gather(k + 1, parts));
        k += 1;
    }
}

fn collect_losses<'c>(fork: &'c ForkFacts) -> (list: Vec<GateLoss<'c>>)
    ensures
        loss_views(list@) == all_losses(*fork),
{
    let mut list: Vec<GateLoss<'c>> = Vec::new();
    let ghost parts = scene_losses(fork.scenes@);
    let mut k: usize = 0;
    assert(loss_views(list@) =~= gather(0, parts));
    while k < fork.scenes.len()
        invariant
            k <= fork.scenes@.len(),
            parts == scene_losses(fork.scenes@),
            loss_views(list@) == gather(k as int, parts),
        decreases fork.scenes@.len() - k,
    {
        add_scene_losses(&mut list, &fork.scenes[k]);
        k += 1;
    }
    list
}

/// One loss with all profiles it occurs under.
pub struct MergedLoss<'c> {
    pub scene: &'c String,
    pub gate: GateKind,
    pub outcome: &'c PlayGateOutcome,
    pub profiles: Vec<String>,
}

/// What a [`MergedLoss`] says.
#[verifier::ext_equal]
pub struct MergedView {
    pub scene: Seq<char>,
    pub gate: GateKind,
    pub outcome: PlayGateOutcome,
    pub profiles: Seq<Seq<char>>,
}

impl<'c> View for MergedLoss<'c> {
    type V = MergedView;

    open spec fn view(&self) -> MergedView {
        MergedView {
            scene: self.scene@,
            gate: self.gate,
            outcome: *self.outcome,
            profiles: texts(self.profiles@),
        }
    }
}

/// What a list of merged losses says.
pub open spec fn merged_views(list: Seq<MergedLoss<'_>>) -> Seq<MergedView> {
    Seq::new(list.len(), |i: int| list[i]@)
}

/// Whether one loss comes before another: by scene, fast path, and play.
pub open spec fn loss_before(
    a: (Seq<char>, GateKind, usize),
    b: (Seq<char>, GateKind, usize),
) -> bool {
    text_before(a.0, b.0) || (a.0 == b.0 && (gate_rank(a.1) < gate_rank(b.1) || (a.1 == b.1 && a.2
        < b.2)))
}

/// What makes two losses the same.
pub open spec fn merged_key(entry: MergedView) -> (Seq<char>, GateKind, usize) {
    (entry.scene, entry.gate, entry.outcome.ordinal)
}

/// What makes two losses the same.
pub open spec fn loss_key(loss: LossView) -> (Seq<char>, GateKind, usize) {
    (loss.scene, loss.gate, loss.outcome.ordinal)
}

/// First position, from `i` on, whose loss does not come before the key.
pub open spec fn loss_rank(
    list: Seq<MergedView>,
    key: (Seq<char>, GateKind, usize),
    i: int,
) -> int
    decreases list.len() - i,
{
    if i < 0 || i >= list.len() || !loss_before(merged_key(list[i]), key) {
        i
    } else {
        loss_rank(list, key, i + 1)
    }
}

/// The list with one more loss: the profile joins the entry of the same
/// loss, or the loss gets an entry at its place.
pub open spec fn with_loss(list: Seq<MergedView>, loss: LossView) -> Seq<MergedView> {
    let at = loss_rank(list, loss_key(loss), 0);
    if at < list.len() && merged_key(list[at]) == loss_key(loss) {
        list.update(
            at,
            MergedView { profiles: list[at].profiles.push(loss.profile), ..list[at] },
        )
    } else {
        list.insert(
            at,
            MergedView {
                scene: loss.scene,
                gate: loss.gate,
                outcome: loss.outcome,
                profiles: seq![loss.profile],
            },
        )
    }
}

/// Identical losses merged across profiles, in order.
pub open spec fn merged(list: Seq<LossView>) -> Seq<MergedView>
    decreases list.len(),
{
    if list.len() == 0 {
        Seq::empty()
    } else {
        with_loss(merged(list.drop_last()), list.last())
    }
}

/// Whether the losses of a list come in order, each key once.
pub open spec fn ascending_losses(list: Seq<MergedView>) -> bool {
    forall|i: int, j: int|
        0 <= i < j < list.len() ==> #[trigger] loss_before(merged_key(list[i]), merged_key(list[j]))
}

proof fn loss_rank_splits(list: Seq<MergedView>, key: (Seq<char>, GateKind, usize), i: int)
    requires
        0 <= i <= list.len(),
        forall|j: int| 0 <= j < i ==> loss_before(merged_key(#[trigger] list[j]), key),
    ensures
        i <= loss_rank(list, key, i) <= list.len(),
        forall|j: int|
            0 <= j < loss_rank(list, key, i) ==> loss_before(merged_key(#[trigger] list[j]), key),
        loss_rank(list, key, i) < list.len() ==> !loss_before(
            merged_key(list[loss_rank(list, key, i)]),
            key,
        ),
    decreases list.len() - i,
{
    if i < list.len() && loss_before(merged_key(list[i]), key) {
        loss_rank_splits(list, key, i + 1);
    }
}

proof fn loss_order_is_total(
    a: (Seq<char>, GateKind, usize),
    b: (Seq<char>, GateKind, usize),
)
    requires
        !loss_before(a, b),
        a != b,
    ensures
        loss_before(b, a),
{
    if a.0 != b.0 {
        text_before_total(a.0, b.0);
    }
}

proof fn loss_order_is_transitive(
    a: (Seq<char>, GateKind, usize),
    b: (Seq<char>, GateKind, usize),
    c: (Seq<char>, GateKind, usize),
)
    requires
        loss_before(a, b),
        loss_before(b, c),
    ensures
        loss_before(a, c),
{
    if text_before(a.0, b.0) && text_before(b.0, c.0) {
        text_before_transitive(a.0, b.0, c.0);
    }
}

proof fn adding_keeps_order(list: Seq<MergedView>, loss: LossView)
    requires
        ascending_losses(list),
    ensures
        ascending_losses(with_loss(list, loss)),
{
    let key = loss_key(loss);
    let at = loss_rank(list, key, 0);
    loss_rank_splits(list, key, 0);
    let after = with_loss(list, loss);
    if at < list.len() && merged_key(list[at]) == key {
        assert forall|i: int, j: int| 0 <= i < j < after.len() implies #[trigger] loss_before(
            merged_key(after[i]),
            merged_key(after[j]),
        ) by {
            assert(merged_key(after[i]) == merged_key(list[i]));
            assert(merged_key(after[j]) == merged_key(list[j]));
            assert(loss_before(merged_key(list[i]), merged_key(list[j])));
        }
    } else {
        if at < list.len() {
            loss_order_is_total(merged_key(list[at]), key);
        }
        assert forall|i: int, j: int| 0 <= i < j < after.len() implies #[trigger] loss_before(
            merged_key(after[i]),
            merged_key(after[j]),
        ) by {
            if i < at && j > at {
                assert(loss_before(merged_key(list[i]), merged_key(list[j - 1])));
            } else if i == at {
                if j - 1 > at {
                    assert(loss_before(merged_key(list[at]), merged_key(list[j - 1])));
                    loss_order_is_transitive(key, merged_key(list[at]), merged_key(list[j - 1]));
                }
            } else if j < at {
                assert(loss_before(merged_key(list[i]), merged_key(list[j])));
            } else if i > at {
                assert(loss_before(merged_key(list[i - 1]), merged_key(list[j - 1])));
            }
        }
    }
}

/// Reports of losses come ordered by scene, fast path, and play, and no loss
/// is reported twice.
pub proof fn losses_ordered(list: Seq<LossView>)
    ensures
        ascending_losses(merged(list)),
    decreases list.len(),
{
    if list.len() > 0 {
        losses_ordered(list.drop_last());
        adding_keeps_order(merged(list.drop_last()), list.last());
    }
}

fn precedes(entry: &MergedLoss<'_>, loss: &GateLoss<'_>) -> (before: bool)
    ensures
        before == loss_before(merged_key(entry@), loss_key(loss@)),
{
    text_precedes(entry.scene.as_str(), loss.scene.as_str()) || (same_text(
        entry.scene.as_str(),
        loss.scene.as_str(),
    ) && (rank_of(entry.gate) < rank_of(loss.gate) || (entry.gate == loss.gate
        && entry.outcome.ordinal < loss.outcome.ordinal)))
}

fn merge_loss<'c>(list: &mut Vec<MergedLoss<'c>>, loss: GateLoss<'c>)
    ensures
        merged_views(final(list)@) == with_loss(merged_views(old(list)@), loss@),
{
    let ghost views = merged_views(list@);
    let ghost key = loss_key(loss@);
    let mut at: usize = 0;
    while at < list.len() && precedes(&list[at], &loss)
        invariant
            at <= list@.len(),
            list@ == old(list)@,
            views == merged_views(list@),
            key == loss_key(loss@),
            loss_rank(views, key, 0) == loss_rank(views, key, at as int),
        decreases list@.len() - at,
    {
        assert(views[at as int] == list@[at as int]@);
        at += 1;
    }
    if at < list.len() {
        assert(views[at as int] == list@[at as int]@);
    }
    assert(loss_rank(views, key, 0) == at);
    let same: bool = at < list.len() && same_text(
        list[at].scene.as_str(),
        loss.scene.as_str(),
    ) && list[at].gate == loss.gate && list[at].outcome.ordinal == loss.outcome.ordinal;
    if same {
        let mut entry: MergedLoss<'c> = list.remove(at);
        let ghost profiles = entry.profiles@;
        entry.profiles.push(loss.profile.clone());
        assert(texts(entry.profiles@) =~= texts(profiles).push(loss.profile@));
        list.insert(at, entry);
        assert(merged_views(list@) =~= with_loss(views, loss@));
    } else {
        let entry = MergedLoss {
            scene: loss.scene,
            gate: loss.gate,
            outcome: loss.outcome,
            profiles: vec![loss.profile.clone()],
        };
        assert(texts(entry.profiles@) =~= seq![loss.profile@]);
        list.insert(at, entry);
        assert(merged_views(list@) =~= with_loss(views, loss@));
    }
}

fn merge_losses<'c>(losses: &Vec<GateLoss<'c>>) -> (list: Vec<MergedLoss<'c>>)
    ensures
        merged_views(list@) == merged(loss_views(losses@)),
{
    let mut list: Vec<MergedLoss<'c>> = Vec::new();
    let mut i: usize = 0;
    assert(merged_views(list@) =~= merged(loss_views(losses@).take(0)));
    while i < losses.len()
        invariant
            i <= losses@.len(),
            merged_views(list@) == merged(loss_views(losses@).take(i as int)),
        decreases losses@.len() - i,
    {
        assert(loss_views(losses@).take(i + 1).drop_last() =~= loss_views(losses@).take(i as int));
        assert(loss_views(losses@).take(i + 1).last() == losses@[i as int]@);
        merge_loss(&mut list, losses[i]);
        i += 1;
    }
    assert(loss_views(losses@).take(i as int) =~= loss_views(losses@));
    list
}

/// The blockers of a list of causes.
pub open spec fn blocker_names(causes: Seq<GateCause>) -> Seq<Seq<char>> {
    Seq::new(causes.len(), |i: int| causes[i].blocker@)
}

fn name_blockers(causes: &Vec<GateCause>) -> (names: Vec<String>)
    ensures
        texts(names@) == blocker_names(causes@),
{
    let mut names: Vec<String> = Vec::new();
    let mut i: usize = 0;
    while i < causes.len()
        invariant
            i <= causes@.len(),
            names@.len() == i,
            forall|j: int| 0 <= j < i ==> (#[trigger] names@[j])@ == causes@[j].blocker@,
        decreases causes@.len() - i,
    {
        names.push(causes[i].blocker.clone());
        i += 1;
    }
    assert(texts(names@) =~= blocker_names(causes@));
    names
}

/// Related locations at the causes that have a site, one by one.
pub open spec fn cause_parts(context: RuleContext<'_>, causes: Seq<GateCause>) -> spec_fn(
    int,
) -> Seq<RelatedView> {
    |k: int|
        match causes[k].site {
            Some(site) => seq![related_at(context, site, causes[k].detail@)],
            None => Seq::empty(),
        }
}

fn locate_causes(context: &RuleContext<'_>, causes: &Vec<GateCause>) -> (related: Vec<
    RelatedLocation,
>)
    ensures
        related_views(related@) == gather(causes@.len() as int, cause_parts(*context, causes@)),
{
    let mut related: Vec<RelatedLocation> = Vec::new();
    let ghost parts = cause_parts(*context, causes@);
    let mut k: usize = 0;
    assert(related_views(related@) =~= gather(0, parts));
    while k < causes.len()
        invariant
            k <= causes@.len(),
            parts == cause_parts(*context, causes@),
            related_views(related@) == gather(k as int, parts),
        decreases causes@.len() - k,
    {
        let ghost before = related_views(related@);
        match causes[k].site {
            Some(site) => {
                push_related(&mut related, related_site(context, site, causes[k].detail.clone()));
                assert(related_views(related@) =~= before + parts(k as int));
            },
            None => {
                assert(related_views(related@) =~= before + parts(k as int));
            },
        }
        k += 1;
    }
    related
}

pub const FIRST_SERIAL_START: &'static str = "first serially rendered play (";

pub const FIRST_SERIAL_END: &'static str = "); a rendered serial play \
    opens the parent encoder";

pub const CAUSAL: &'static str = "This is a causal cost explanation, not a defect report: the named feature \
    can be correct expression, and removing it would change the scene's \
    meaning. The report only states which fast path the current fork keeps \
    closed for this play and why.";

/// The evidence of one loss.
pub open spec fn loss_evidence_view(loss: MergedView) -> EvidenceView {
    let base = EvidenceView::empty().insert(
        "fast_path"@,
        JsonView::Text(gate_label(loss.gate)),
    ).insert("scene"@, JsonView::Text(loss.scene)).insert(
        "play_ordinal"@,
        JsonView::Whole(loss.outcome.ordinal as int),
    );
    match loss.outcome.verdict {
        GateVerdict::Blocked(causes) => base.insert(
            "blockers"@,
            text_list(blocker_names(causes@)),
        ),
        GateVerdict::MonotonicallyDisabled { first_ordinal, first_site: _, first_blocker: _ } =>
            base.insert("blockers"@, text_list(seq!["parent_encoder_opened"@])).insert(
            "first_serial_play"@,
            JsonView::Whole(first_ordinal as int),
        ),
        _ => base,
    }
}

/// The places of the causes of one loss.
pub open spec fn loss_locations(context: RuleContext<'_>, loss: MergedView) -> Seq<RelatedView> {
    match loss.outcome.verdict {
        GateVerdict::Blocked(causes) => gather(
            causes@.len() as int,
            cause_parts(context, causes@),
        ),
        GateVerdict::MonotonicallyDisabled { first_ordinal: _, first_site, first_blocker } => seq![
            related_at(
                context,
                first_site,
                FIRST_SERIAL_START@ + first_blocker@ + FIRST_SERIAL_END@,
            ),
        ],
        _ => Seq::empty(),
    }
}

/// The evidence map and cause-span related locations of one loss.
fn loss_evidence(context: &RuleContext<'_>, loss: &MergedLoss<'_>) -> (found: (
    Evidence,
    Vec<RelatedLocation>,
))
    ensures
        found.0@ == loss_evidence_view(loss@),
        related_views(found.1@) == loss_locations(*context, loss@),
{
    let mut evidence = Evidence::new();
    evidence.insert("fast_path", json_text(label_of(loss.gate)));
    evidence.insert("scene", json_text(loss.scene.as_str()));
    evidence.insert("play_ordinal", json_size(loss.outcome.ordinal));
    let mut related: Vec<RelatedLocation> = Vec::new();
    match &loss.outcome.verdict {
        GateVerdict::Blocked(causes) => {
            evidence.insert("blockers", json_texts(&name_blockers(causes)));
            related = locate_causes(context, causes);
        },
        GateVerdict::MonotonicallyDisabled { first_ordinal, first_site, first_blocker } => {
            let names: Vec<String> = vec!["parent_encoder_opened".to_owned()];
            assert(texts(names@) =~= seq!["parent_encoder_opened"@]);
            evidence.insert("blockers", json_texts(&names));
            evidence.insert("first_serial_play", json_size(*first_ordinal));
            related.push(
                related_site(
                    context,
                    *first_site,
                    cat3(FIRST_SERIAL_START, first_blocker.as_str(), FIRST_SERIAL_END),
                ),
            );
            assert(related_views(related@) =~= loss_locations(*context, loss@));
        },
        GateVerdict::Clear => {
            assert(related_views(related@) =~= loss_locations(*context, loss@));
        },
        GateVerdict::NotApplicable => {
            assert(related_views(related@) =~= loss_locations(*context, loss@));
        },
        GateVerdict::Unaudited => {
            assert(related_views(related@) =~= loss_locations(*context, loss@));
        },
    }
    (evidence, related)
}

/// The explanation of a loss.
pub open spec fn causal_text(fork: ForkFacts, gate: GateKind) -> Seq<char> {
    match measured(fork, gate) {
        Some(text) => CAUSAL@ + " Calibration evidence: "@ + text + "."@,
        None => CAUSAL@,
    }
}

fn explain(fork: &ForkFacts, gate: GateKind) -> (text: String)
    ensures
        text@ == causal_text(*fork, gate),
{
    match measured_evidence(fork, gate) {
        Some(measured) => cat4(CAUSAL, " Calibration evidence: ", measured.as_str(), "."),
        None => CAUSAL.to_owned(),
    }
}

/// The report on a loss.
pub open spec fn loss_report(context: RuleContext<'_>, loss: MergedView) -> DiagnosticView {
    let report = basic_report(
        mlp225(),
        context,
        loss.outcome.site.file,
        loss.outcome.site.spec_range(),
        gate_label(loss.gate) + ": play #"@ + numeral(loss.outcome.ordinal as nat) + " of "@
            + loss.scene + ": "@ + loss.outcome.description@,
        causal_text(context.cost_facts.fork, loss.gate),
        loss_evidence_view(loss),
    );
    DiagnosticView {
        related_locations: loss_locations(context, loss),
        applicable_profiles: loss.profiles,
        ..report
    }
}

fn build_loss_diagnostic(context: &RuleContext<'_>, loss: &MergedLoss<'_>) -> (diagnostic:
    Diagnostic)
    ensures
        diagnostic@ == loss_report(*context, loss@),
{
    let (evidence, related) = loss_evidence(context, loss);
    let mut diagnostic = build_diagnostic(
        MLP225(),
        context,
        loss.outcome.site.file,
        loss.outcome.site.range(),
        cat7(
            label_of(loss.gate),
            ": play #",
            decimal_size(loss.outcome.ordinal).as_str(),
            " of ",
            loss.scene.as_str(),
            ": ",
            loss.outcome.description.as_str(),
        ),
        explain(&context.cost_facts.fork, loss.gate).as_str(),
        evidence,
    );
    diagnostic.related_locations = related;
    diagnostic.applicable_profiles = copy_texts(&loss.profiles);
    diagnostic
}

/// Whether the loaded profile declares fork fast paths.
pub open spec fn fork_declared(context: RuleContext<'_>) -> bool {
    match context.knowledge {
        Some(profile) => profile.fork_capabilities,
        None => false,
    }
}

/// The findings of [`ForkFastPathLoss`].
pub open spec fn fork_findings(context: RuleContext<'_>) -> Seq<DiagnosticView> {
    if fork_declared(context) {
        let losses = merged(all_losses(context.cost_facts.fork));
        Seq::new(losses.len(), |k: int| loss_report(context, losses[k]))
    } else {
        Seq::empty()
    }
}

impl Rule for ForkFastPathLoss {
    open spec fn declared(&self) -> MetadataView {
        mlp225()
    }

    open spec fn findings(&self, context: RuleContext<'_>) -> Seq<DiagnosticView> {
        fork_findings(context)
    }

    fn metadata(&self) -> (metadata: &'static RuleMetadata) {
        MLP225()
    }

    fn run(&self, context: &RuleContext<'_>) -> (diagnostics: Vec<Diagnostic>) {
        let mut diagnostics: Vec<Diagnostic> = Vec::new();
        assert(reports(diagnostics@) =~= Seq::empty());
        let declared: bool = match context.knowledge {
            Some(profile) => profile.fork_capabilities,
            None => false,
        };
        if !declared {
            assert(reports(diagnostics@) =~= fork_findings(*context));
            return diagnostics;
        }
        let losses = collect_losses(&context.cost_facts.fork);
        // Identical losses across render profiles become one diagnostic.
        let merged_list = merge_losses(&losses);
        let mut k: usize = 0;
        while k < merged_list.len()
            invariant
                k <= merged_list@.len(),
                reports(diagnostics@) == Seq::new(
                    k as nat,
                    |j: int| loss_report(*context, merged_views(merged_list@)[j]),
                ),
            decreases merged_list@.len() - k,
        {
            push(&mut diagnostics, build_loss_diagnostic(context, &merged_list[k]));
            assert(reports(diagnostics@) =~= Seq::new(
                (k + 1) as nat,
                |j: int| loss_report(*context, merged_views(merged_list@)[j]),
            ));
            k += 1;
        }
        assert(reports(diagnostics@) =~= fork_findings(*context));
        diagnostics
    }
}

} // verus!
