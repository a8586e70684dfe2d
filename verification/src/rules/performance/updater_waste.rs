//! Updater-waste rules: `MLP215` (no-op updater), `MLP218` (frame-invariant
//! updater dynamicizes a wait), `MLP219` (long-lived updater across many
//! plays).
use super::display_order::{find_first_moving, first_moving};
use super::frame_scope::{
    frames_at_play, play_frames, rendering, renders_frames, sole_cause, wait_solely_dynamicized_by,
};
use super::support::{locate_plays, play_locations};
use super::traced_path::{any_can_target, any_targets};
use super::sums::{add_up, best_sum, sum_of, PlayQuantity};
use crate::ast::{
    is_name, lambda_from, mentions, mentions_name, named, Expr, Form, Parameters, Stmt, StmtKind,
    Syntax,
};
use crate::diagnostic::{
    push_all, push_found, push_related, related_views, report_of, reports, Confidence, Diagnostic,
    DiagnosticView, MetadataView, RelatedLocation, RelatedView, RuleMetadata, Severity,
};
use crate::json::{
    bounds_view, double_view, json_double, json_items, json_list, json_object1, json_object2,
    json_object3, json_object4, json_size, json_text, num_bounds_json, Evidence, EvidenceView, Json,
    JsonView,
};
use crate::knowledge::KnowledgeProfile;
use crate::numbers::{display_frames, display_seconds, frames_text, seconds_text, Num};
use crate::render_order::{MemberEvidence, MovingReason, SuffixFact};
use crate::rules::base::{
    add_related, basic_report, build_diagnostic, related_at, related_site, with_related, Rule,
    RuleContext,
};
use crate::semantic::{
    CallbackRef, Event, MutationKind, ObjectId, PlayFact, PlayKind, Presence, SceneLifecycle, Truth,
    UpdaterBodyFact, UpdaterHost, UpdaterRegistration,
};
use crate::source::syntax_in;
use crate::text::{
    cat2, cat3, cat7, decimal_size, found, gather, last_segment, numeral, occurs_at, picked,
    picked_pass, same_text, short_name, starts_with,
};
use vstd::prelude::*;

verus! {

// ---------------------------------------------------------------------------
// MLP215: provably no-op updater.
// ---------------------------------------------------------------------------

/// What [`MLP215`] declares.
pub open spec fn mlp215() -> MetadataView {
    MetadataView {
        id: "MLP215"@,
        summary: "Provably no-op updater widens dynamic waits or the play moving scope"@,
        default_enabled: true,
        default_severity: Severity::Warning,
        minimum_confidence: Confidence::High,
        implementation_phase: 3,
        required_profiles: seq![],
        required_capabilities: seq!["lifecycle"@, "cost-facts"@],
        supersedes: seq![],
    }
}

/// Metadata of rule `MLP215`.
#[allow(non_snake_case)]
pub fn MLP215() -> (metadata: &'static RuleMetadata)
    ensures
        metadata@ == mlp215(),
{
    let metadata: &'static RuleMetadata = &RuleMetadata {
        id: "MLP215",
        summary: "Provably no-op updater widens dynamic waits or the play moving scope",
        default_enabled: true,
        default_severity: Severity::Warning,
        minimum_confidence: Confidence::High,
        implementation_phase: 3,
        required_profiles: &[],
        required_capabilities: &["lifecycle", "cost-facts"],
        supersedes: &[],
    };
    assert(metadata@ =~= mlp215());
    metadata
}

/// An updater whose body provably does nothing, yet costs per-frame work
/// through one of two separate channels: as a `dt`-parameter or scene updater
/// it dynamicizes waits that would otherwise freeze; as a family updater it
/// makes its host a moving member of every play's Cairo moving scope. A
/// one-argument no-op updater does not dynamicize a plain wait, so only the
/// second channel can apply to it.
pub struct NoOpUpdaterCost;

pub const NO_OP_WAIT_START: &'static str = "this wait renders ";

pub const NO_OP_WAIT_END: &'static str = " frames dynamically solely \
    because of the no-op updater";

pub const NO_OP_SCOPE: &'static str = "the updater makes its host a moving member of this \
    play's Cairo scope";

pub const NO_OP_LEADS: &'static str = "the updater-bearing host ";

pub const ONLY_REASON_START: &'static str = "it is the only reason ";

pub const ONLY_REASON_END: &'static str = " wait(s) render dynamically \
    instead of freezing";

pub const MOVING_HOST_START: &'static str = "it makes its host a moving member of ";

pub const MOVING_HOST_END: &'static str = " play(s)' \
    Cairo moving scope";

pub const NO_OP_START: &'static str = "This updater's body provably has no effect (no mutation, no \
    unknown call), yet ";

pub const NO_OP_END: &'static str = ". Remove the updater, or give it \
    its intended effect.";

pub const NO_OP_WHY: &'static str = "A registered updater costs per-frame work even when its body \
    does nothing: a dt-parameter or Scene updater makes waits \
    dynamic (DESIGN 3.3), and any family updater makes its host \
    a moving member of Cairo's per-frame re-raster scope \
    (scene.py get_moving_mobjects). A one-argument no-op updater \
    does not dynamicize a plain wait, so only the moving-scope \
    channel is ever attributed to one.";

/// Whether the body neither mutates its parameter nor performs any effect
/// outside pure reads and local computation.
pub open spec fn does_nothing(body: UpdaterBodyFact) -> bool {
    body.mutates_target == Truth::No && body.calls_unknown == Truth::No
        && body.pure_affine_on_target == Truth::Yes
}

fn provably_no_op(body: &UpdaterBodyFact) -> (nothing: bool)
    ensures
        nothing == does_nothing(*body),
{
    body.mutates_target == Truth::No && body.calls_unknown == Truth::No
        && body.pure_affine_on_target == Truth::Yes
}

/// Position of the entry that says the object certainly moves because of an
/// updater, from entry `i` on.
pub open spec fn updater_entry_from(list: Seq<MemberEvidence>, id: ObjectId, i: int) -> Option<int>
    decreases list.len() - i,
{
    if i < 0 || i >= list.len() {
        None
    } else if list[i].id == id && list[i].reason == MovingReason::FamilyUpdater && list[i].certainty
        == Truth::Yes {
        Some(i)
    } else {
        updater_entry_from(list, id, i + 1)
    }
}

fn find_updater_entry(list: &Vec<MemberEvidence>, id: ObjectId) -> (entry: Option<usize>)
    ensures
        match entry {
            Some(found) => found < list@.len() && updater_entry_from(list@, id, 0) == Some(
                found as int,
            ),
            None => updater_entry_from(list@, id, 0) is None,
        },
{
    let mut i: usize = 0;
    while i < list.len()
        invariant
            i <= list@.len(),
            updater_entry_from(list@, id, 0) == updater_entry_from(list@, id, i as int),
        decreases list@.len() - i,
    {
        if list[i].id == id && list[i].reason == MovingReason::FamilyUpdater && list[i].certainty
            == Truth::Yes {
            return Some(i);
        }
        i += 1;
    }
    None
}

/// The suffix of a play in words, when the member at `index` leads it: the
/// static suffix behind it is then attributable to the updater.
pub open spec fn led_sentence(suffix: SuffixFact, index: usize) -> Option<Seq<char>> {
    match (first_moving(suffix), suffix.sentence) {
        (Some(first), Some(sentence)) => if first == index {
            Some(sentence@)
        } else {
            None
        },
        _ => None,
    }
}

fn find_led_sentence(suffix: &SuffixFact, index: usize) -> (sentence: Option<String>)
    ensures
        match sentence {
            Some(found) => led_sentence(*suffix, index) == Some(found@),
            None => led_sentence(*suffix, index) is None,
        },
{
    match (find_first_moving(suffix), &suffix.sentence) {
        (Some(first), Some(sentence)) => if first >= 0 && first as u64 == index as u64 {
            Some(sentence.clone())
        } else {
            None
        },
        _ => None,
    }
}

/// One play whose moving scope the updater's host provably enters.
pub struct ScopeLeg {
    /// Position of the play.
    pub play: usize,
    /// The suffix in words, where the host leads it.
    pub sentence: Option<String>,
}

/// What a [`ScopeLeg`] says.
#[verifier::ext_equal]
pub struct LegView {
    pub play: int,
    pub sentence: Option<Seq<char>>,
}

impl View for ScopeLeg {
    type V = LegView;

    open spec fn view(&self) -> LegView {
        LegView {
            play: self.play as int,
            sentence: match self.sentence {
                Some(text) => Some(text@),
                None => None,
            },
        }
    }
}

/// What a list of legs says.
pub open spec fn leg_views(list: Seq<ScopeLeg>) -> Seq<LegView> {
    Seq::new(list.len(), |i: int| list[i]@)
}

/// Whether the play at `p` comes after the registration on every path.
pub open spec fn later_play(play: PlayFact, registration: UpdaterRegistration) -> bool {
    play.kind == PlayKind::Play && play.certainty == Presence::Present && play.site.file
        == registration.site.file && play.site.start >= registration.site.end
}

/// The leg of the play at `p`: present where the host is a certainly moving
/// member because of an updater.
pub open spec fn leg_at(
    scene: SceneLifecycle,
    registration: UpdaterRegistration,
    p: int,
) -> Option<LegView> {
    let play = scene.plays@[p];
    match (registration.host, play.display) {
        (UpdaterHost::Mobject(host), Some(display)) => match (
            display.suffix,
            scene.spec_state_at(play.site.file, play.site.end),
        ) {
            (Some(suffix), Some(snapshot)) => match updater_entry_from(
                suffix.members_evidence@,
                snapshot.heap.spec_resolve(host),
                0,
            ) {
                Some(entry) => if later_play(play, registration) {
                    Some(
                        LegView {
                            play: p,
                            sentence: led_sentence(
                                suffix,
                                suffix.members_evidence@[entry].index,
                            ),
                        },
                    )
                } else {
                    None
                },
                None => None,
            },
            _ => None,
        },
        _ => None,
    }
}

fn find_leg(scene: &SceneLifecycle, registration: &UpdaterRegistration, p: usize) -> (leg: Option<
    ScopeLeg,
>)
    requires
        p < scene.plays@.len(),
    ensures
        match leg {
            Some(found) => leg_at(*scene, *registration, p as int) == Some(found@) && found.play
                == p,
            None => leg_at(*scene, *registration, p as int) is None,
        },
{
    let play = &scene.plays[p];
    let host: ObjectId = match registration.host {
        UpdaterHost::Mobject(host) => host,
        UpdaterHost::Scene => {
            return None;
        },
    };
    if play.kind != PlayKind::Play || play.certainty != Presence::Present || play.site.file
        != registration.site.file || play.site.start < registration.site.end {
        return None;
    }
    let display = match &play.display {
        Some(display) => display,
        None => {
            return None;
        },
    };
    // Without a known order no positional claim is possible, and without the
    // member evidence no sound qualitative claim either.
    let suffix = match &display.suffix {
        Some(suffix) => suffix,
        None => {
            return None;
        },
    };
    let snapshot = match scene.state_at(play.site.file, play.site.end) {
        Some(snapshot) => snapshot,
        None => {
            return None;
        },
    };
    match find_updater_entry(&suffix.members_evidence, snapshot.heap.resolve(&host)) {
        Some(entry) => {
            let sentence: Option<String> = find_led_sentence(
                suffix,
                suffix.members_evidence[entry].index,
            );
            Some(ScopeLeg { play: p, sentence })
        },
        None => None,
    }
}

/// Legs of the plays of a scene, one by one.
pub open spec fn leg_parts(scene: SceneLifecycle, registration: UpdaterRegistration) -> spec_fn(
    int,
) -> Seq<LegView> {
    |p: int| found(leg_at(scene, registration, p))
}

/// The moving-scope legs of a registration.
pub open spec fn legs_of(scene: SceneLifecycle, registration: UpdaterRegistration) -> Seq<LegView> {
    gather(scene.plays@.len() as int, leg_parts(scene, registration))
}

/// Whether the legs of a list speak of plays of the scene.
pub open spec fn legs_fit(list: Seq<ScopeLeg>, plays: int) -> bool {
    forall|i: int| 0 <= i < list.len() ==> (#[trigger] list[i]).play < plays
}

/// The moving-scope legs of a mobject-host registration: plays where the
/// host is a certainly moving member because of an updater.
fn scope_legs(scene: &SceneLifecycle, registration: &UpdaterRegistration) -> (legs: Vec<ScopeLeg>)
    ensures
        leg_views(legs@) == legs_of(*scene, *registration),
        legs_fit(legs@, scene.plays@.len() as int),
{
    let mut legs: Vec<ScopeLeg> = Vec::new();
    let ghost parts = leg_parts(*scene, *registration);
    let mut p: usize = 0;
    assert(leg_views(legs@) =~= gather(0, parts));
    while p < scene.plays.len()
        invariant
            p <= scene.plays@.len(),
            parts == leg_parts(*scene, *registration),
            leg_views(legs@) == gather(p as int, parts),
            legs_fit(legs@, scene.plays@.len() as int),
        decreases scene.plays@.len() - p,
    {
        let ghost before = legs@;
        match find_leg(scene, registration, p) {
            Some(leg) => {
                legs.push(leg);
                assert(leg_views(legs@) =~= leg_views(before) + parts(p as int));
            },
            None => {
                assert(leg_views(legs@) =~= leg_views(before) + parts(p as int));
            },
        }
        p += 1;
    }
    legs
}

/// Positions of the waits that the registration alone dynamicizes.
pub open spec fn waits_of(
    profile: KnowledgeProfile,
    scene: SceneLifecycle,
    registration: UpdaterRegistration,
) -> Seq<usize> {
    picked(
        scene.plays@.len() as int,
        |p: int| sole_cause(profile, scene, scene.plays@[p], registration),
    )
}

fn dynamicized_waits(
    profile: &KnowledgeProfile,
    scene: &SceneLifecycle,
    registration: &UpdaterRegistration,
) -> (waits: Vec<usize>)
    ensures
        waits@ == waits_of(*profile, *scene, *registration),
        forall|i: int| 0 <= i < waits@.len() ==> #[trigger] waits@[i] < scene.plays@.len(),
{
    let ghost test = |p: int| sole_cause(*profile, *scene, scene.plays@[p], *registration);
    let mut waits: Vec<usize> = Vec::new();
    let mut p: usize = 0;
    while p < scene.plays.len()
        invariant
            p <= scene.plays@.len(),
            test == (|p: int| sole_cause(*profile, *scene, scene.plays@[p], *registration)),
            waits@ == picked(p as int, test),
        decreases scene.plays@.len() - p,
    {
        if wait_solely_dynamicized_by(profile, scene, &scene.plays[p], registration) {
            waits.push(p);
        }
        p += 1;
    }
    proof {
        picked_pass(p as int, test);
    }
    waits
}

/// The frames of each wait.
pub open spec fn wait_views(context: RuleContext<'_>, plays: Seq<PlayFact>, waits: Seq<usize>) -> Seq<
    JsonView,
> {
    Seq::new(
        waits.len(),
        |i: int|
            JsonView::Object(
                seq![("frames"@, bounds_view(play_frames(context, plays[waits[i] as int])))],
            ),
    )
}

/// Related locations at each wait.
pub open spec fn wait_locations(
    context: RuleContext<'_>,
    plays: Seq<PlayFact>,
    waits: Seq<usize>,
) -> Seq<RelatedView> {
    Seq::new(
        waits.len(),
        |i: int|
            related_at(
                context,
                plays[waits[i] as int].site,
                NO_OP_WAIT_START@ + frames_text(play_frames(context, plays[waits[i] as int]))
                    + NO_OP_WAIT_END@,
            ),
    )
}

fn describe_waits(
    context: &RuleContext<'_>,
    plays: &Vec<PlayFact>,
    waits: &Vec<usize>,
    related: &mut Vec<RelatedLocation>,
) -> (value: Json)
    requires
        old(related)@.len() == 0,
        forall|i: int| 0 <= i < waits@.len() ==> #[trigger] waits@[i] < plays@.len(),
    ensures
        value@ == JsonView::List(wait_views(*context, plays@, waits@)),
        related_views(final(related)@) == wait_locations(*context, plays@, waits@),
{
    let mut items: Vec<Json> = Vec::new();
    let mut i: usize = 0;
    while i < waits.len()
        invariant
            i <= waits@.len(),
            items@.len() == i,
            related@.len() == i,
            forall|j: int| 0 <= j < waits@.len() ==> #[trigger] waits@[j] < plays@.len(),
            forall|j: int|
                0 <= j < i ==> (#[trigger] items@[j])@ == wait_views(*context, plays@, waits@)[j],
            forall|j: int|
                0 <= j < i ==> (#[trigger] related@[j])@ == wait_locations(
                    *context,
                    plays@,
                    waits@,
                )[j],
        decreases waits@.len() - i,
    {
        let at: usize = waits[i];
        let play = &plays[at];
        let frames = frames_at_play(context, play);
        items.push(json_object1("frames", num_bounds_json(frames)));
        related.push(
            related_site(
                context,
                play.site,
                cat3(NO_OP_WAIT_START, display_frames(frames).as_str(), NO_OP_WAIT_END),
            ),
        );
        i += 1;
    }
    assert(json_items(items@) =~= wait_views(*context, plays@, waits@));
    assert(related_views(related@) =~= wait_locations(*context, plays@, waits@));
    json_list(items)
}

/// Whether each leg is quantified.
pub open spec fn scope_views(legs: Seq<LegView>) -> Seq<JsonView> {
    Seq::new(
        legs.len(),
        |i: int|
            JsonView::Object(seq![("quantified"@, JsonView::Flag(legs[i].sentence is Some))]),
    )
}

/// What a leg notes at its play.
pub open spec fn leg_note(sentence: Option<Seq<char>>) -> Seq<char> {
    match sentence {
        Some(text) => NO_OP_LEADS@ + text,
        None => NO_OP_SCOPE@,
    }
}

/// Related locations at each leg.
pub open spec fn leg_locations(
    context: RuleContext<'_>,
    plays: Seq<PlayFact>,
    legs: Seq<LegView>,
) -> Seq<RelatedView> {
    Seq::new(
        legs.len(),
        |i: int| related_at(context, plays[legs[i].play].site, leg_note(legs[i].sentence)),
    )
}

fn describe_legs(
    context: &RuleContext<'_>,
    plays: &Vec<PlayFact>,
    legs: &Vec<ScopeLeg>,
    related: &mut Vec<RelatedLocation>,
) -> (value: Json)
    requires
        legs_fit(legs@, plays@.len() as int),
    ensures
        value@ == JsonView::List(scope_views(leg_views(legs@))),
        related_views(final(related)@) == related_views(old(related)@) + leg_locations(
            *context,
            plays@,
            leg_views(legs@),
        ),
{
    let ghost start = related_views(related@);
    let ghost places = leg_locations(*context, plays@, leg_views(legs@));
    let mut items: Vec<Json> = Vec::new();
    let mut i: usize = 0;
    assert(related_views(related@) =~= start + places.take(0));
    while i < legs.len()
        invariant
            i <= legs@.len(),
            items@.len() == i,
            legs_fit(legs@, plays@.len() as int),
            places == leg_locations(*context, plays@, leg_views(legs@)),
            forall|j: int|
                0 <= j < i ==> (#[trigger] items@[j])@ == scope_views(leg_views(legs@))[j],
            related_views(related@) == start + places.take(i as int),
        decreases legs@.len() - i,
    {
        let leg = &legs[i];
        assert(leg_views(legs@)[i as int] == legs@[i as int]@);
        items.push(json_object1("quantified", Json::Flag(leg.sentence.is_some())));
        let note: String = match &leg.sentence {
            Some(sentence) => cat2(NO_OP_LEADS, sentence.as_str()),
            None => NO_OP_SCOPE.to_owned(),
        };
        push_related(related, related_site(context, plays[leg.play].site, note));
        assert(places.take(i + 1) =~= places.take(i as int).push(places[i as int]));
        assert(related_views(related@) =~= start + places.take(i + 1));
        i += 1;
    }
    assert(json_items(items@) =~= scope_views(leg_views(legs@)));
    assert(places.take(i as int) =~= places);
    json_list(items)
}

/// What the updater costs, in words.
pub open spec fn cost_clause(waits: nat, legs: nat) -> Seq<char> {
    let by_waits = ONLY_REASON_START@ + numeral(waits) + ONLY_REASON_END@;
    let by_scope = MOVING_HOST_START@ + numeral(legs) + MOVING_HOST_END@;
    if waits == 0 {
        by_scope
    } else if legs == 0 {
        by_waits
    } else {
        by_waits + ", and "@ + by_scope
    }
}

fn describe_cost(waits: usize, legs: usize) -> (text: String)
    ensures
        text@ == cost_clause(waits as nat, legs as nat),
{
    let by_waits: String = cat3(ONLY_REASON_START, decimal_size(waits).as_str(), ONLY_REASON_END);
    let by_scope: String = cat3(MOVING_HOST_START, decimal_size(legs).as_str(), MOVING_HOST_END);
    if waits == 0 {
        by_scope
    } else if legs == 0 {
        by_waits
    } else {
        cat3(by_waits.as_str(), ", and ", by_scope.as_str())
    }
}

/// The evidence on a no-op updater.
pub open spec fn no_op_view(
    context: RuleContext<'_>,
    scene: SceneLifecycle,
    waits: Seq<usize>,
    legs: Seq<LegView>,
) -> EvidenceView {
    let base = EvidenceView::empty().insert("scene"@, JsonView::Text(scene.qualified_name@)).insert(
        "body"@,
        JsonView::Object(
            seq![
                ("mutates_target"@, JsonView::Text("no"@)),
                ("calls_unknown"@, JsonView::Text("no"@)),
                ("pure_reads_only"@, JsonView::Flag(true)),
            ],
        ),
    );
    let with_waits = if waits.len() == 0 {
        base
    } else {
        base.insert(
            "dynamicized_waits"@,
            JsonView::List(wait_views(context, scene.plays@, waits)),
        )
    };
    if legs.len() == 0 {
        with_waits
    } else {
        with_waits.insert("moving_scope_plays"@, JsonView::List(scope_views(legs)))
    }
}

/// The finding for the registration at `k`.
pub open spec fn no_op_of(context: RuleContext<'_>, scene: SceneLifecycle, k: int) -> Option<
    DiagnosticView,
> {
    let registration = scene.updaters@[k];
    match context.knowledge {
        Some(profile) => {
            let waits = waits_of(*profile, scene, registration);
            let legs = legs_of(scene, registration);
            if !scene.constructor_state_unknown && registration.certainty == Presence::Present
                && does_nothing(registration.body) && (waits.len() > 0 || legs.len() > 0) {
                let report = basic_report(
                    mlp215(),
                    context,
                    registration.site.file,
                    registration.site.spec_range(),
                    NO_OP_START@ + cost_clause(waits.len(), legs.len()) + NO_OP_END@,
                    NO_OP_WHY@,
                    no_op_view(context, scene, waits, legs),
                );
                Some(
                    DiagnosticView {
                        related_locations: wait_locations(context, scene.plays@, waits)
                            + leg_locations(context, scene.plays@, legs),
                        ..report
                    },
                )
            } else {
                None
            }
        },
        None => None,
    }
}

fn no_op_check(context: &RuleContext<'_>, scene: &SceneLifecycle, k: usize) -> (found: Option<
    Diagnostic,
>)
    requires
        k < scene.updaters@.len(),
    ensures
        report_of(found) == no_op_of(*context, *scene, k as int),
{
    let registration = &scene.updaters[k];
    let profile = match context.knowledge {
        Some(profile) => profile,
        None => {
            return None;
        },
    };
    if scene.constructor_state_unknown || registration.certainty != Presence::Present
        || !provably_no_op(&registration.body) {
        return None;
    }
    // Waits this registration solely dynamicizes.
    let waits: Vec<usize> = dynamicized_waits(profile, scene, registration);
    // Plays whose moving scope the host enters.
    let legs: Vec<ScopeLeg> = scope_legs(scene, registration);
    assert(leg_views(legs@).len() == legs@.len());
    if waits.len() == 0 && legs.len() == 0 {
        return None;
    }
    let mut evidence = Evidence::new();
    evidence.insert("scene", json_text(scene.qualified_name.as_str()));
    evidence.insert(
        "body",
        json_object3(
            "mutates_target",
            json_text("no"),
            "calls_unknown",
            json_text("no"),
            "pure_reads_only",
            Json::Flag(true),
        ),
    );
    let mut related: Vec<RelatedLocation> = Vec::new();
    let wait_json: Json = describe_waits(context, &scene.plays, &waits, &mut related);
    if waits.len() != 0 {
        evidence.insert("dynamicized_waits", wait_json);
    }
    let scope_json: Json = describe_legs(context, &scene.plays, &legs, &mut related);
    if legs.len() != 0 {
        evidence.insert("moving_scope_plays", scope_json);
    }
    let mut diagnostic = build_diagnostic(
        MLP215(),
        context,
        registration.site.file,
        registration.site.range(),
        cat3(NO_OP_START, describe_cost(waits.len(), legs.len()).as_str(), NO_OP_END),
        NO_OP_WHY,
        evidence,
    );
    diagnostic.related_locations = related;
    Some(diagnostic)
}

/// The findings of a scene, in the order of its updaters.
pub open spec fn no_op_items(context: RuleContext<'_>, scene: SceneLifecycle) -> spec_fn(
    int,
) -> Seq<DiagnosticView> {
    |k: int| found(no_op_of(context, scene, k))
}

/// The findings of the scene at `i`.
pub open spec fn no_op_at(context: RuleContext<'_>, i: int) -> Seq<DiagnosticView> {
    let scene = context.lifecycle_facts.scenes@[i];
    gather(scene.updaters@.len() as int, no_op_items(context, scene))
}

fn no_op(context: &RuleContext<'_>, i: usize) -> (diagnostics: Vec<Diagnostic>)
    requires
        i < context.lifecycle_facts.scenes@.len(),
    ensures
        reports(diagnostics@) == no_op_at(*context, i as int),
{
    let scene = &context.lifecycle_facts.scenes[i];
    let mut diagnostics: Vec<Diagnostic> = Vec::new();
    let mut k: usize = 0;
    assert(reports(diagnostics@) =~= Seq::empty());
    while k < scene.updaters.len()
        invariant
            k <= scene.updaters@.len(),
            reports(diagnostics@) == gather(k as int, no_op_items(*context, *scene)),
        decreases scene.updaters@.len() - k,
    {
        push_found(&mut diagnostics, no_op_check(context, scene, k));
        k += 1;
    }
    diagnostics
}

/// Findings of [`NoOpUpdaterCost`], scene by scene.
pub open spec fn no_op_finder(context: RuleContext<'_>) -> spec_fn(int) -> Seq<DiagnosticView> {
    |i: int| no_op_at(context, i)
}

impl Rule for NoOpUpdaterCost {
    open spec fn declared(&self) -> MetadataView {
        mlp215()
    }

    open spec fn findings(&self, context: RuleContext<'_>) -> Seq<DiagnosticView> {
        gather(context.lifecycle_facts.scenes@.len() as int, no_op_finder(context))
    }

    fn metadata(&self) -> (metadata: &'static RuleMetadata) {
        MLP215()
    }

    fn run(&self, context: &RuleContext<'_>) -> (diagnostics: Vec<Diagnostic>) {
        let scenes = &context.lifecycle_facts.scenes;
        let mut diagnostics: Vec<Diagnostic> = Vec::new();
        let mut i: usize = 0;
        assert(reports(diagnostics@) =~= Seq::empty());
        while i < scenes.len()
            invariant
                i <= scenes@.len(),
                scenes@ == context.lifecycle_facts.scenes@,
                reports(diagnostics@) == gather(i as int, no_op_finder(*context)),
            decreases scenes@.len() - i,
        {
            push_all(&mut diagnostics, no_op(context, i));
            i += 1;
        }
        diagnostics
    }
}

// ---------------------------------------------------------------------------
// MLP218: frame-invariant updater dynamicizes a plain wait.
// ---------------------------------------------------------------------------

/// What [`MLP218`] declares.
pub open spec fn mlp218() -> MetadataView {
    MetadataView {
        id: "MLP218"@,
        summary: "Provably frame-invariant updater is the only reason a wait renders dynamically"@,
        default_enabled: true,
        default_severity: Severity::Info,
        minimum_confidence: Confidence::High,
        implementation_phase: 3,
        required_profiles: seq![],
        required_capabilities: seq!["lifecycle"@, "cost-facts"@],
        supersedes: seq![],
    }
}

/// Metadata of rule `MLP218`.
#[allow(non_snake_case)]
pub fn MLP218() -> (metadata: &'static RuleMetadata)
    ensures
        metadata@ == mlp218(),
{
    let metadata: &'static RuleMetadata = &RuleMetadata {
        id: "MLP218",
        summary: "Provably frame-invariant updater is the only reason a wait renders dynamically",
        default_enabled: true,
        default_severity: Severity::Info,
        minimum_confidence: Confidence::High,
        implementation_phase: 3,
        required_profiles: &[],
        required_capabilities: &["lifecycle", "cost-facts"],
        supersedes: &[],
    };
    assert(metadata@ =~= mlp218());
    metadata
}

/// A wait made dynamic solely by an updater whose body provably produces the
/// same result every frame: `dt` is never read, no frame-varying state is
/// read, no unknown call exists, and every effect is an absolute setter on
/// the parameter with parameter-free arguments.
pub struct FrameInvariantDynamicWait;

pub const INVARIANT_START: &'static str = "This wait renders ";

pub const INVARIANT_END: &'static str = " frames dynamically only because \
    of a provably frame-invariant updater: the callback never \
    reads `dt` or frame-varying state and only applies absolute \
    setters, so every rendered frame is identical. Apply the \
    final state once (or drop the unused `dt` parameter) and \
    let the wait freeze.";

pub const INVARIANT_WHY: &'static str = "A dt-parameter updater makes plain waits dynamic \
    (DESIGN 3.3) even when the body ignores dt. A body that \
    reads no frame-varying state and performs only absolute \
    setter calls with parameter-free arguments produces the \
    same state every frame, so the full per-frame pipeline \
    (update, interpolate, raster) repeats an identical image \
    for the whole wait.";

pub const INVARIANT_REGISTERED: &'static str = "the frame-invariant updater registered here";

pub const INVARIANT_EFFECTS: &'static str = "absolute setters with parameter-free arguments";

/// Methods that reproduce the same state when called again with the same
/// arguments. Relative accumulators (`shift`, `rotate`, `scale`) change state
/// every frame and are deliberately absent.
pub open spec fn sets_absolutely(method: Seq<char>) -> bool {
    occurs_at(method, "set_"@, 0) || method == "move_to"@ || method == "next_to"@ || method
        == "to_edge"@ || method == "to_corner"@ || method == "align_to"@ || method == "center"@
}

fn absolute_setter(method: &str) -> (absolute: bool)
    ensures
        absolute == sets_absolutely(method@),
{
    starts_with(method, "set_") || same_text(method, "move_to") || same_text(method, "next_to")
        || same_text(method, "to_edge") || same_text(method, "to_corner") || same_text(
        method,
        "align_to",
    ) || same_text(method, "center")
}

/// The method that an expression takes of the bare name `param`.
pub open spec fn method_of_param(callee: Expr, param: Seq<char>) -> Option<Seq<char>> {
    match callee.form {
        Form::Attribute(attr) => if callee.parts@.len() == 1 && is_name(callee.parts@[0], param) {
            Some(attr@)
        } else {
            None
        },
        _ => None,
    }
}

pub fn find_method_of_param<'e>(callee: &'e Expr, param: &str) -> (method: Option<&'e String>)
    ensures
        match method {
            Some(found) => method_of_param(*callee, param@) == Some(found@),
            None => method_of_param(*callee, param@) is None,
        },
{
    match &callee.form {
        Form::Attribute(attr) => if callee.parts.len() == 1 && named(&callee.parts[0], param) {
            Some(attr)
        } else {
            None
        },
        _ => None,
    }
}

/// Whether a lambda stands anywhere in the expression.
pub open spec fn holds_lambda(expr: Expr) -> bool
    decreases expr,
{
    expr.form is Lambda || exists|i: int|
        0 <= i < expr.parts@.len() && holds_lambda(#[trigger] expr.parts@[i])
}

fn has_lambda(expr: &Expr) -> (held: bool)
    ensures
        held == holds_lambda(*expr),
    decreases expr,
{
    if let Form::Lambda = &expr.form {
        return true;
    }
    let mut i: usize = 0;
    while i < expr.parts.len()
        invariant
            i <= expr.parts@.len(),
            forall|j: int| 0 <= j < i ==> !holds_lambda(#[trigger] expr.parts@[j]),
            !(expr.form is Lambda),
        decreases expr.parts@.len() - i,
    {
        if has_lambda(&expr.parts[i]) {
            assert(holds_lambda(expr.parts@[i as int]));
            return true;
        }
        i += 1;
    }
    false
}

/// Whether every occurrence of the parameter is the receiver of an absolute
/// setter whose arguments never mention the parameter. Lambdas anywhere fail
/// the proof.
pub open spec fn steady_shape(expr: Expr, param: Seq<char>) -> bool
    decreases expr,
{
    match expr.form {
        Form::Call { arguments: _, keywords: _ } => if expr.parts@.len() > 0 && method_of_param(
            expr.parts@[0],
            param,
        ) is Some {
            sets_absolutely(method_of_param(expr.parts@[0], param)->0) && !holds_lambda(
                expr.parts@[0],
            ) && forall|i: int|
                1 <= i < expr.parts@.len() ==> !mentions(#[trigger] expr.parts@[i], param)
                    && steady_shape(expr.parts@[i], param)
        } else {
            forall|i: int|
                0 <= i < expr.parts@.len() ==> steady_shape(#[trigger] expr.parts@[i], param)
        },
        Form::Lambda => false,
        Form::Name(id) => id@ != param && !holds_lambda(expr),
        Form::Int(_) | Form::Float | Form::Constant => !holds_lambda(expr),
        Form::Comprehension | Form::Other => !mentions(expr, param) && !holds_lambda(expr),
        _ => forall|i: int|
            0 <= i < expr.parts@.len() ==> steady_shape(#[trigger] expr.parts@[i], param),
    }
}

/// Whether all parts of an expression from `start` on have the shape; with
/// `free`, without mention of the parameter.
fn parts_invariant(expr: &Expr, param: &str, start: usize, free: bool) -> (all: bool)
    ensures
        all == (forall|i: int|
            start <= i < expr.parts@.len() ==> (!free || !mentions(
                #[trigger] expr.parts@[i],
                param@,
            )) && steady_shape(expr.parts@[i], param@)),
    decreases expr, 0int,
{
    let mut i: usize = start;
    while i < expr.parts.len()
        invariant
            start <= i,
            forall|j: int|
                start <= j < i && j < expr.parts@.len() ==> (!free || !mentions(
                    #[trigger] expr.parts@[j],
                    param@,
                )) && steady_shape(expr.parts@[j], param@),
        decreases expr.parts@.len() - i,
    {
        if free && mentions_name(&expr.parts[i], param) {
            assert(mentions(expr.parts@[i as int], param@));
            return false;
        }
        if !expr_frame_invariant(&expr.parts[i], param) {
            assert(!steady_shape(expr.parts@[i as int], param@));
            return false;
        }
        i += 1;
    }
    true
}

/// Verifies the strict absolute-setter shape of a callback body expression.
fn expr_frame_invariant(expr: &Expr, param: &str) -> (invariant_shape: bool)
    ensures
        invariant_shape == steady_shape(*expr, param@),
    decreases expr, 1int,
{
    match &expr.form {
        Form::Call { arguments: _, keywords: _ } => {
            if expr.parts.len() > 0 {
                if let Some(method) = find_method_of_param(&expr.parts[0], param) {
                    if !absolute_setter(method.as_str()) || has_lambda(&expr.parts[0]) {
                        return false;
                    }
                    return parts_invariant(expr, param, 1, true);
                }
            }
            parts_invariant(expr, param, 0, false)
        },
        Form::Lambda => false,
        Form::Name(id) => !same_text(id.as_str(), param) && !has_lambda(expr),
        Form::Int(_) | Form::Float | Form::Constant => !has_lambda(expr),
        // Anything else is out of the verified shape.
        Form::Comprehension | Form::Other => !mentions_name(expr, param) && !has_lambda(expr),
        _ => parts_invariant(expr, param, 0, false),
    }
}

/// An expression that holds a lambda anywhere is never proved to give the
/// same frame each time.
pub proof fn lambda_fails_the_proof(expr: Expr, param: Seq<char>)
    requires
        holds_lambda(expr),
    ensures
        !steady_shape(expr, param),
    decreases expr,
{
    if !(expr.form is Lambda) {
        let i = choose|i: int|
            0 <= i < expr.parts@.len() && holds_lambda(#[trigger] expr.parts@[i]);
        lambda_fails_the_proof(expr.parts@[i], param);
    }
}

/// The one expression that a function body evaluates: an expression
/// statement or the value of a `return`.
pub open spec fn sole_value(body: Seq<Stmt>) -> Option<Expr> {
    if body.len() == 1 && (body[0].kind == StmtKind::Expr || body[0].kind == StmtKind::Return)
        && body[0].values@.len() > 0 {
        Some(body[0].values@[0])
    } else {
        None
    }
}

fn find_sole_value(body: &Vec<Stmt>) -> (value: Option<&Expr>)
    ensures
        match value {
            Some(found) => sole_value(body@) == Some(*found),
            None => sole_value(body@) is None,
        },
{
    if body.len() == 1 && (body[0].kind == StmtKind::Expr || body[0].kind == StmtKind::Return)
        && body[0].values.len() > 0 {
        Some(&body[0].values[0])
    } else {
        None
    }
}

/// Whether a body expression has the shape for the first parameter.
pub open spec fn steady_for(parameters: Parameters, body: Expr) -> bool {
    match parameters.spec_first() {
        Some(param) => steady_shape(body, param),
        None => false,
    }
}

fn is_steady_for(parameters: &Parameters, body: &Expr) -> (yes: bool)
    ensures
        yes == steady_for(*parameters, *body),
{
    match parameters.first() {
        Some(param) => expr_frame_invariant(body, param.as_str()),
        None => false,
    }
}

/// Whether the callback provably does the same every frame.
pub open spec fn callback_steady(syntax: Syntax, callback: CallbackRef) -> bool {
    match callback {
        CallbackRef::Lambda(site) => match lambda_from(syntax.lambdas@, site.spec_range(), 0) {
            Some(lambda) => steady_for(lambda.parameters, lambda.body),
            None => false,
        },
        CallbackRef::Named(path) => match syntax.spec_unique(last_segment(path@)) {
            Some(function) => match sole_value(function.body@) {
                Some(value) => steady_for(function.parameters, value),
                None => false,
            },
            None => false,
        },
        CallbackRef::Unknown => false,
    }
}

/// Resolves the callback body and verifies the strict frame-invariant shape.
/// Only single-expression lambdas and single-statement functions are
/// verified; anything larger, or an absent or ambiguous definition, is not
/// proven.
fn callback_frame_invariant(syntax: &Syntax, callback: &CallbackRef) -> (steady: bool)
    ensures
        steady == callback_steady(*syntax, *callback),
{
    match callback {
        CallbackRef::Lambda(site) => match syntax.lambda_at(site.range()) {
            Some(lambda) => is_steady_for(&lambda.parameters, &lambda.body),
            None => false,
        },
        CallbackRef::Named(path) => {
            let name: String = short_name(path.as_str());
            match syntax.unique_function_def(name.as_str()) {
                Some(function) => match find_sole_value(&function.body) {
                    Some(value) => is_steady_for(&function.parameters, value),
                    None => false,
                },
                None => false,
            }
        },
        CallbackRef::Unknown => false,
    }
}

/// Whether the registration is a real but frame-invariant write.
pub open spec fn invariant_updater(context: RuleContext<'_>, registration: UpdaterRegistration) -> bool {
    let body = registration.body;
    registration.certainty == Presence::Present && body.uses_dt == Truth::No
        && body.reads_frame_varying == Truth::No && body.calls_unknown == Truth::No
        && body.pure_affine_on_target == Truth::Yes && body.mutates_target == Truth::Yes
        && match syntax_in(*context.sources, registration.site.file) {
        Some(syntax) => callback_steady(syntax, registration.fact.callback),
        None => false,
    }
}

fn is_invariant_updater(context: &RuleContext<'_>, registration: &UpdaterRegistration) -> (yes:
    bool)
    ensures
        yes == invariant_updater(*context, *registration),
{
    let body = &registration.body;
    // A no-op body is another rule's defect; this rule wants a real but
    // frame-invariant write.
    if registration.certainty != Presence::Present || body.uses_dt != Truth::No
        || body.reads_frame_varying != Truth::No || body.calls_unknown != Truth::No
        || body.pure_affine_on_target != Truth::Yes || body.mutates_target != Truth::Yes {
        return false;
    }
    match context.sources.syntax(registration.site.file) {
        Some(syntax) => callback_frame_invariant(syntax, &registration.fact.callback),
        None => false,
    }
}

/// The report on one wait.
pub open spec fn invariant_report(
    context: RuleContext<'_>,
    scene: SceneLifecycle,
    registration: UpdaterRegistration,
    play: PlayFact,
) -> DiagnosticView {
    with_related(
        basic_report(
            mlp218(),
            context,
            play.site.file,
            play.site.spec_range(),
            INVARIANT_START@ + frames_text(play_frames(context, play)) + INVARIANT_END@,
            INVARIANT_WHY@,
            EvidenceView::empty().insert("scene"@, JsonView::Text(scene.qualified_name@)).insert(
                "frames"@,
                bounds_view(play_frames(context, play)),
            ).insert(
                "body"@,
                JsonView::Object(
                    seq![
                        ("uses_dt"@, JsonView::Text("no"@)),
                        ("reads_frame_varying"@, JsonView::Text("no"@)),
                        ("calls_unknown"@, JsonView::Text("no"@)),
                        ("effects"@, JsonView::Text(INVARIANT_EFFECTS@)),
                    ],
                ),
            ),
        ),
        related_at(context, registration.site, INVARIANT_REGISTERED@),
    )
}

fn report_invariant(
    context: &RuleContext<'_>,
    scene: &SceneLifecycle,
    registration: &UpdaterRegistration,
    play: &PlayFact,
) -> (diagnostic: Diagnostic)
    ensures
        diagnostic@ == invariant_report(*context, *scene, *registration, *play),
{
    let frames = frames_at_play(context, play);
    let mut evidence = Evidence::new();
    evidence.insert("scene", json_text(scene.qualified_name.as_str()));
    evidence.insert("frames", num_bounds_json(frames));
    evidence.insert(
        "body",
        json_object4(
            "uses_dt",
            json_text("no"),
            "reads_frame_varying",
            json_text("no"),
            "calls_unknown",
            json_text("no"),
            "effects",
            json_text(INVARIANT_EFFECTS),
        ),
    );
    let mut diagnostic = build_diagnostic(
        MLP218(),
        context,
        play.site.file,
        play.site.range(),
        cat3(INVARIANT_START, display_frames(frames).as_str(), INVARIANT_END),
        INVARIANT_WHY,
        evidence,
    );
    add_related(
        &mut diagnostic,
        related_site(context, registration.site, INVARIANT_REGISTERED.to_owned()),
    );
    diagnostic
}

/// The finding for one wait and one registration.
pub open spec fn invariant_wait(
    context: RuleContext<'_>,
    profile: KnowledgeProfile,
    scene: SceneLifecycle,
    registration: UpdaterRegistration,
    p: int,
) -> Option<DiagnosticView> {
    if sole_cause(profile, scene, scene.plays@[p], registration) {
        Some(invariant_report(context, scene, registration, scene.plays@[p]))
    } else {
        None
    }
}

fn check_invariant_wait(
    context: &RuleContext<'_>,
    profile: &KnowledgeProfile,
    scene: &SceneLifecycle,
    registration: &UpdaterRegistration,
    p: usize,
) -> (found: Option<Diagnostic>)
    requires
        p < scene.plays@.len(),
    ensures
        report_of(found) == invariant_wait(
            *context,
            *profile,
            *scene,
            *registration,
            p as int,
        ),
{
    if wait_solely_dynamicized_by(profile, scene, &scene.plays[p], registration) {
        Some(report_invariant(context, scene, registration, &scene.plays[p]))
    } else {
        None
    }
}

/// The findings of one registration, one by one.
pub open spec fn invariant_waits_parts(
    context: RuleContext<'_>,
    profile: KnowledgeProfile,
    scene: SceneLifecycle,
    registration: UpdaterRegistration,
) -> spec_fn(int) -> Seq<DiagnosticView> {
    |k: int| found(invariant_wait(context, profile, scene, registration, k))
}

/// The findings of one registration, in order.
pub open spec fn invariant_waits_all(
    context: RuleContext<'_>,
    profile: KnowledgeProfile,
    scene: SceneLifecycle,
    registration: UpdaterRegistration,
) -> Seq<DiagnosticView> {
    gather(scene.plays@.len() as int, invariant_waits_parts(context, profile, scene, registration))
}

fn invariant_waits(
    context: &RuleContext<'_>,
    profile: &KnowledgeProfile,
    scene: &SceneLifecycle,
    registration: &UpdaterRegistration,
) -> (diagnostics: Vec<Diagnostic>)
    ensures
        reports(diagnostics@) == invariant_waits_all(*context, *profile, *scene, *registration),
{
    let mut diagnostics: Vec<Diagnostic> = Vec::new();
    let mut k: usize = 0;
    assert(reports(diagnostics@) =~= Seq::empty());
    while k < scene.plays.len()
        invariant
            k <= scene.plays.len(),
            reports(diagnostics@) == gather(k as int, invariant_waits_parts(*context, *profile, *scene, *registration)),
        decreases scene.plays.len() - k,
    {
        push_found(&mut diagnostics, check_invariant_wait(context, profile, scene, registration, k));
        k += 1;
    }
    diagnostics
}

/// The findings for the registration at `k`.
pub open spec fn same_frame_of(context: RuleContext<'_>, scene: SceneLifecycle, k: int) -> Seq<
    DiagnosticView,
> {
    let registration = scene.updaters@[k];
    match context.knowledge {
        Some(profile) => if !scene.constructor_state_unknown && invariant_updater(
            context,
            registration,
        ) {
            invariant_waits_all(context, *profile, scene, registration)
        } else {
            Seq::empty()
        },
        None => Seq::empty(),
    }
}

fn same_frame_check(context: &RuleContext<'_>, scene: &SceneLifecycle, k: usize) -> (diagnostics: Vec<
    Diagnostic,
>)
    requires
        k < scene.updaters@.len(),
    ensures
        reports(diagnostics@) == same_frame_of(*context, *scene, k as int),
{
    let registration = &scene.updaters[k];
    let diagnostics: Vec<Diagnostic> = Vec::new();
    assert(reports(diagnostics@) =~= Seq::empty());
    let profile = match context.knowledge {
        Some(profile) => profile,
        None => {
            return diagnostics;
        },
    };
    if scene.constructor_state_unknown || !is_invariant_updater(context, registration) {
        return diagnostics;
    }
    invariant_waits(context, profile, scene, registration)
}

/// The findings of a scene, in the order of its updaters.
pub open spec fn same_frame_items(context: RuleContext<'_>, scene: SceneLifecycle) -> spec_fn(
    int,
) -> Seq<DiagnosticView> {
    |k: int| same_frame_of(context, scene, k)
}

/// The findings of the scene at `i`.
pub open spec fn same_frame_at(context: RuleContext<'_>, i: int) -> Seq<DiagnosticView> {
    let scene = context.lifecycle_facts.scenes@[i];
    gather(scene.updaters@.len() as int, same_frame_items(context, scene))
}

fn same_frame(context: &RuleContext<'_>, i: usize) -> (diagnostics: Vec<Diagnostic>)
    requires
        i < context.lifecycle_facts.scenes@.len(),
    ensures
        reports(diagnostics@) == same_frame_at(*context, i as int),
{
    let scene = &context.lifecycle_facts.scenes[i];
    let mut diagnostics: Vec<Diagnostic> = Vec::new();
    let mut k: usize = 0;
    assert(reports(diagnostics@) =~= Seq::empty());
    while k < scene.updaters.len()
        invariant
            k <= scene.updaters@.len(),
            reports(diagnostics@) == gather(k as int, same_frame_items(*context, *scene)),
        decreases scene.updaters@.len() - k,
    {
        push_all(&mut diagnostics, same_frame_check(context, scene, k));
        k += 1;
    }
    diagnostics
}

/// Findings of [`FrameInvariantDynamicWait`], scene by scene.
pub open spec fn same_frame_finder(context: RuleContext<'_>) -> spec_fn(int) -> Seq<DiagnosticView> {
    |i: int| same_frame_at(context, i)
}

impl Rule for FrameInvariantDynamicWait {
    open spec fn declared(&self) -> MetadataView {
        mlp218()
    }

    open spec fn findings(&self, context: RuleContext<'_>) -> Seq<DiagnosticView> {
        gather(context.lifecycle_facts.scenes@.len() as int, same_frame_finder(context))
    }

    fn metadata(&self) -> (metadata: &'static RuleMetadata) {
        MLP218()
    }

    fn run(&self, context: &RuleContext<'_>) -> (diagnostics: Vec<Diagnostic>) {
        let scenes = &context.lifecycle_facts.scenes;
        let mut diagnostics: Vec<Diagnostic> = Vec::new();
        let mut i: usize = 0;
        assert(reports(diagnostics@) =~= Seq::empty());
        while i < scenes.len()
            invariant
                i <= scenes@.len(),
                scenes@ == context.lifecycle_facts.scenes@,
                reports(diagnostics@) == gather(i as int, same_frame_finder(*context)),
            decreases scenes@.len() - i,
        {
            push_all(&mut diagnostics, same_frame(context, i));
            i += 1;
        }
        diagnostics
    }
}

/// A registration that `MLP218` takes is left alone by `MLP215`.
pub proof fn no_op_is_not_invariant(context: RuleContext<'_>, scene: SceneLifecycle, k: int)
    requires
        0 <= k < scene.updaters@.len(),
        same_frame_of(context, scene, k).len() > 0,
    ensures
        no_op_of(context, scene, k) is None,
{
}

// ---------------------------------------------------------------------------
// MLP219: updater alive across many subsequent plays.
// ---------------------------------------------------------------------------

/// What [`MLP219`] declares.
pub open spec fn mlp219() -> MetadataView {
    MetadataView {
        id: "MLP219"@,
        summary: "Updater's estimated lifetime spans many subsequent plays"@,
        default_enabled: true,
        default_severity: Severity::Info,
        minimum_confidence: Confidence::Medium,
        implementation_phase: 3,
        required_profiles: seq![],
        required_capabilities: seq!["lifecycle"@, "cost-facts"@],
        supersedes: seq![],
    }
}

/// Metadata of rule `MLP219`.
#[allow(non_snake_case)]
pub fn MLP219() -> (metadata: &'static RuleMetadata)
    ensures
        metadata@ == mlp219(),
{
    let metadata: &'static RuleMetadata = &RuleMetadata {
        id: "MLP219",
        summary: "Updater's estimated lifetime spans many subsequent plays",
        default_enabled: true,
        default_severity: Severity::Info,
        minimum_confidence: Confidence::Medium,
        implementation_phase: 3,
        required_profiles: &[],
        required_capabilities: &["lifecycle", "cost-facts"],
        supersedes: &[],
    };
    assert(metadata@ =~= mlp219());
    metadata
}

/// Minimum provable live span (seconds of rendering plays with the host in
/// the family and the updater still registered) before `MLP219` fires.
pub const MLP219_MIN_LIVE_SECONDS: u32 = 5;

/// Bit pattern of that many seconds.
pub const LIVE_SECONDS_BITS: u64 = 0x4014_0000_0000_0000;

/// Minimum number of covered plays before `MLP219` fires.
pub const MLP219_MIN_COVERED_PLAYS: usize = 3;

/// A mobject updater that provably stays registered while its host lives in
/// the scene family across many subsequent plays: every covered frame pays
/// the updater invocation and keeps the host in the moving scope. The rule
/// never claims the updater is unused.
pub struct LongLivedUpdater;

pub const LIVE_START: &'static str = "This updater stays registered for an estimated ";

pub const LIVE_END: &'static str = " subsequent plays. If the \
    effect is only needed early, remove the updater after the \
    last play that needs it; if the whole span is intended, this \
    is the expected cost.";

pub const LIVE_WHY: &'static str = "A registered updater is invoked every rendered frame while \
    its host is in the scene family, and it keeps the host in \
    Cairo's moving scope (DESIGN 3.3 / 3.4). Static analysis \
    cannot prove when the effect stops being needed, so this \
    reports the estimated live span only — not that the updater \
    is unused.";

pub const LIVE_PLAY: &'static str = "the updater runs every frame of this play";

/// Where the updater set of the host is changed after the registration, from
/// event `i` on.
pub open spec fn cut_from(
    scene: SceneLifecycle,
    registration: UpdaterRegistration,
    host: ObjectId,
    i: int,
) -> Option<u32>
    decreases scene.events@.len() - i,
{
    if i < 0 || i >= scene.events@.len() {
        None
    } else {
        let traced = scene.events@[i];
        let cuts = traced.site.file == registration.site.file && traced.site.start
            >= registration.site.end && match traced.event {
            Event::Mutate { target, kind } => kind == MutationKind::Updaters
                && scene.final_heap.spec_resolve(target) == host,
            _ => false,
        };
        if cuts {
            Some(traced.site.start)
        } else {
            cut_from(scene, registration, host, i + 1)
        }
    }
}

/// The first byte after which the registration's updater set is mutated
/// again on the host: the provable lifetime ends there.
fn lifetime_cut(scene: &SceneLifecycle, registration: &UpdaterRegistration, host: ObjectId) -> (cut:
    Option<u32>)
    ensures
        cut == cut_from(*scene, *registration, host, 0),
{
    let mut i: usize = 0;
    while i < scene.events.len()
        invariant
            i <= scene.events@.len(),
            cut_from(*scene, *registration, host, 0) == cut_from(
                *scene,
                *registration,
                host,
                i as int,
            ),
        decreases scene.events@.len() - i,
    {
        let traced = &scene.events[i];
        let cuts: bool = traced.site.file == registration.site.file && traced.site.start
            >= registration.site.end && match &traced.event {
            Event::Mutate { target, kind } => *kind == MutationKind::Updaters
                && scene.final_heap.resolve(target) == host,
            _ => false,
        };
        if cuts {
            return Some(traced.site.start);
        }
        i += 1;
    }
    None
}

/// Whether a play renders frames after the registration on every path.
pub open spec fn covered_play(play: PlayFact, registration: UpdaterRegistration) -> bool {
    play.site.file == registration.site.file && play.site.start >= registration.site.end
        && play.certainty == Presence::Present && rendering(play)
}

/// The plays that the updater provably covers, by position: `taken`, and
/// those from position `p` on. None where the membership of the host is not
/// known at a play that counts.
///
/// Plays that animate the host suspend its updaters for their duration: they
/// do not count as live frames.
pub open spec fn live_from(
    scene: SceneLifecycle,
    registration: UpdaterRegistration,
    host: ObjectId,
    p: int,
    taken: Seq<usize>,
) -> Option<Seq<usize>>
    decreases scene.plays@.len() - p,
{
    if p < 0 || p >= scene.plays@.len() {
        Some(taken)
    } else {
        let play = scene.plays@[p];
        if !covered_play(play, registration) {
            live_from(scene, registration, host, p + 1, taken)
        } else if match cut_from(scene, registration, host, 0) {
            Some(cut) => play.site.start >= cut,
            None => false,
        } {
            Some(taken)
        } else {
            match scene.spec_membership_at(host, play.site.file, play.site.start) {
                Some(membership) => if membership.1 == Presence::Present && !any_targets(
                    play.animations@,
                    host,
                ) {
                    live_from(scene, registration, host, p + 1, taken.push(p as usize))
                } else {
                    live_from(scene, registration, host, p + 1, taken)
                },
                None => None,
            }
        }
    }
}

/// The object an updater is registered on, as the final heap knows it.
pub open spec fn final_host(scene: SceneLifecycle, registration: UpdaterRegistration) -> Option<
    ObjectId,
> {
    match registration.host {
        UpdaterHost::Mobject(host) => Some(scene.final_heap.spec_resolve(host)),
        UpdaterHost::Scene => None,
    }
}

/// The plays that a mobject updater provably covers, by position.
pub open spec fn live_positions(scene: SceneLifecycle, registration: UpdaterRegistration) -> Option<
    Seq<usize>,
> {
    match final_host(scene, registration) {
        Some(host) => live_from(scene, registration, host, 0, Seq::empty()),
        None => None,
    }
}

/// The plays that a mobject updater provably covers, by position; none when
/// the membership of its host is unknown at one of them.
pub fn live_plays(scene: &SceneLifecycle, registration: &UpdaterRegistration) -> (positions: Option<
    Vec<usize>,
>)
    ensures
        match positions {
            Some(found) => live_positions(*scene, *registration) == Some(found@) && forall|i: int|
                0 <= i < found@.len() ==> #[trigger] found@[i] < scene.plays@.len(),
            None => live_positions(*scene, *registration) is None,
        },
{
    let host: ObjectId = match registration.host {
        UpdaterHost::Mobject(host) => scene.final_heap.resolve(&host),
        UpdaterHost::Scene => {
            return None;
        },
    };
    let cut: Option<u32> = lifetime_cut(scene, registration, host);
    let mut taken: Vec<usize> = Vec::new();
    let mut p: usize = 0;
    assert(taken@ =~= Seq::empty());
    while p < scene.plays.len()
        invariant
            p <= scene.plays@.len(),
            cut == cut_from(*scene, *registration, host, 0),
            final_host(*scene, *registration) == Some(host),
            live_positions(*scene, *registration) == live_from(
                *scene,
                *registration,
                host,
                p as int,
                taken@,
            ),
            forall|i: int| 0 <= i < taken@.len() ==> #[trigger] taken@[i] < scene.plays@.len(),
        decreases scene.plays@.len() - p,
    {
        let play = &scene.plays[p];
        let covered: bool = play.site.file == registration.site.file && play.site.start
            >= registration.site.end && play.certainty == Presence::Present && renders_frames(play);
        if covered {
            let past: bool = match cut {
                Some(at) => play.site.start >= at,
                None => false,
            };
            if past {
                return Some(taken);
            }
            match scene.membership_at(&host, play.site.file, play.site.start) {
                Some((_, family)) => {
                    if family == Presence::Present && !any_can_target(&play.animations, &host) {
                        taken.push(p);
                    }
                },
                None => {
                    return None;
                },
            }
        }
        p += 1;
    }
    Some(taken)
}

/// The finding for the registration at `k`.
pub open spec fn live_of(context: RuleContext<'_>, scene: SceneLifecycle, k: int) -> Option<
    DiagnosticView,
> {
    let registration = scene.updaters@[k];
    match live_positions(scene, registration) {
        Some(positions) => {
            let seconds = sum_of(context, scene, positions, PlayQuantity::Seconds);
            let frames = sum_of(context, scene, positions, PlayQuantity::Frames);
            match seconds.spec_lower_bound() {
                Some(lower) => if !scene.constructor_state_unknown && registration.certainty
                    == Presence::Present && positions.len() >= MLP219_MIN_COVERED_PLAYS
                    && !lower.short_of(MLP219_MIN_LIVE_SECONDS) {
                    let report = basic_report(
                        mlp219(),
                        context,
                        registration.site.file,
                        registration.site.spec_range(),
                        LIVE_START@ + seconds_text(seconds) + " ("@ + frames_text(frames) + " frames) across "@ + numeral(positions.len()) + LIVE_END@,
                        LIVE_WHY@,
                        EvidenceView::empty().insert(
                            "scene"@,
                            JsonView::Text(scene.qualified_name@),
                        ).insert("covered_plays"@, JsonView::Whole(positions.len() as int)).insert(
                            "live_seconds"@,
                            bounds_view(seconds),
                        ).insert("live_frames"@, bounds_view(frames)).insert(
                            "gates"@,
                            JsonView::Object(
                                seq![
                                    ("min_live_seconds"@, double_view(LIVE_SECONDS_BITS)),
                                    (
                                        "min_covered_plays"@,
                                        JsonView::Whole(MLP219_MIN_COVERED_PLAYS as int),
                                    ),
                                ],
                            ),
                        ),
                    );
                    Some(
                        DiagnosticView {
                            related_locations: play_locations(
                                context,
                                scene.plays@,
                                positions,
                                LIVE_PLAY@,
                            ),
                            ..report
                        },
                    )
                } else {
                    None
                },
                None => None,
            }
        },
        None => None,
    }
}

fn live_check(context: &RuleContext<'_>, scene: &SceneLifecycle, k: usize) -> (found: Option<
    Diagnostic,
>)
    requires
        k < scene.updaters@.len(),
    ensures
        report_of(found) == live_of(*context, *scene, k as int),
{
    let registration = &scene.updaters[k];
    if scene.constructor_state_unknown || registration.certainty != Presence::Present {
        return None;
    }
    let positions: Vec<usize> = match live_plays(scene, registration) {
        Some(positions) => positions,
        None => {
            return None;
        },
    };
    if positions.len() < MLP219_MIN_COVERED_PLAYS {
        return None;
    }
    let whole_seconds: Num = add_up(context, scene, &positions, PlayQuantity::Seconds);
    let seconds: &Num = best_sum(
        context,
        scene,
        &positions,
        PlayQuantity::Seconds,
        &whole_seconds,
    );
    let whole_frames: Num = add_up(context, scene, &positions, PlayQuantity::Frames);
    let frames: &Num = best_sum(context, scene, &positions, PlayQuantity::Frames, &whole_frames);
    match seconds.lower_bound() {
        Some(lower) => {
            if lower.less_than(MLP219_MIN_LIVE_SECONDS) {
                return None;
            }
        },
        None => {
            return None;
        },
    }
    let mut evidence = Evidence::new();
    evidence.insert("scene", json_text(scene.qualified_name.as_str()));
    evidence.insert("covered_plays", json_size(positions.len()));
    evidence.insert("live_seconds", num_bounds_json(seconds));
    evidence.insert("live_frames", num_bounds_json(frames));
    evidence.insert(
        "gates",
        json_object2(
            "min_live_seconds",
            json_double(LIVE_SECONDS_BITS),
            "min_covered_plays",
            json_size(MLP219_MIN_COVERED_PLAYS),
        ),
    );
    let mut diagnostic = build_diagnostic(
        MLP219(),
        context,
        registration.site.file,
        registration.site.range(),
        cat7(
            LIVE_START,
            display_seconds(seconds).as_str(),
            " (",
            display_frames(frames).as_str(),
            " frames) across ",
            decimal_size(positions.len()).as_str(),
            LIVE_END,
        ),
        LIVE_WHY,
        evidence,
    );
    diagnostic.related_locations = locate_plays(context, &scene.plays, &positions, LIVE_PLAY);
    Some(diagnostic)
}

/// The findings of a scene, in the order of its updaters.
pub open spec fn live_items(context: RuleContext<'_>, scene: SceneLifecycle) -> spec_fn(
    int,
) -> Seq<DiagnosticView> {
    |k: int| found(live_of(context, scene, k))
}

/// The findings of the scene at `i`.
pub open spec fn live_at(context: RuleContext<'_>, i: int) -> Seq<DiagnosticView> {
    let scene = context.lifecycle_facts.scenes@[i];
    gather(scene.updaters@.len() as int, live_items(context, scene))
}

fn live(context: &RuleContext<'_>, i: usize) -> (diagnostics: Vec<Diagnostic>)
    requires
        i < context.lifecycle_facts.scenes@.len(),
    ensures
        reports(diagnostics@) == live_at(*context, i as int),
{
    let scene = &context.lifecycle_facts.scenes[i];
    let mut diagnostics: Vec<Diagnostic> = Vec::new();
    let mut k: usize = 0;
    assert(reports(diagnostics@) =~= Seq::empty());
    while k < scene.updaters.len()
        invariant
            k <= scene.updaters@.len(),
            reports(diagnostics@) == gather(k as int, live_items(*context, *scene)),
        decreases scene.updaters@.len() - k,
    {
        push_found(&mut diagnostics, live_check(context, scene, k));
        k += 1;
    }
    diagnostics
}

/// Findings of [`LongLivedUpdater`], scene by scene.
pub open spec fn live_finder(context: RuleContext<'_>) -> spec_fn(int) -> Seq<DiagnosticView> {
    |i: int| live_at(context, i)
}

impl Rule for LongLivedUpdater {
    open spec fn declared(&self) -> MetadataView {
        mlp219()
    }

    open spec fn findings(&self, context: RuleContext<'_>) -> Seq<DiagnosticView> {
        gather(context.lifecycle_facts.scenes@.len() as int, live_finder(context))
    }

    fn metadata(&self) -> (metadata: &'static RuleMetadata) {
        MLP219()
    }

    fn run(&self, context: &RuleContext<'_>) -> (diagnostics: Vec<Diagnostic>) {
        let scenes = &context.lifecycle_facts.scenes;
        let mut diagnostics: Vec<Diagnostic> = Vec::new();
        let mut i: usize = 0;
        assert(reports(diagnostics@) =~= Seq::empty());
        while i < scenes.len()
            invariant
                i <= scenes@.len(),
                scenes@ == context.lifecycle_facts.scenes@,
                reports(diagnostics@) == gather(i as int, live_finder(*context)),
            decreases scenes@.len() - i,
        {
            push_all(&mut diagnostics, live(context, i));
            i += 1;
        }
        diagnostics
    }
}

} // verus!
