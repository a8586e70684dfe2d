//! Fact resolution, evidence, and display helpers shared by the performance
//! rules.
//!
//! A call target counts as resolved only when every frontend candidate maps
//! to the same curated symbol, and every quantity is either derived from
//! literal facts or reported as unknown.
use crate::cost::{CallExecution, ExecutionCertainty, ExecutionPlay, HotCall};
use crate::diagnostic::{related_views, RelatedLocation, RelatedView};
use crate::frontend::{ProjectIndex, QualifiedCall};
use crate::json::{
    bounds_view, json_items, json_list, json_object2, json_object3, json_text, num_bounds_json,
    Json, JsonView,
};
use crate::knowledge::{member_of, owner_of, resolve_symbol, resolved, rsplit_dot, KnowledgeProfile};
use crate::numbers::Num;
use crate::rules::base::{related_at, related_site, RuleContext};
use crate::rules::lifecycle::support::{conclusive_receiver, receiver_conclusive};
use crate::semantic::{LifecycleFacts, PlayFact, PlayKind, SceneLifecycle};
use crate::source::{path_in, position_in, AllocationSite};
use crate::text::{cat5, decimal, numeral, same_text, texts};
use vstd::prelude::*;

verus! {

/// The curated id a candidate stands for: as [`resolved`] finds it, or as
/// the package exports it.
pub open spec fn candidate_symbol(profile: KnowledgeProfile, candidate: Seq<char>) -> Option<
    Seq<char>,
> {
    match resolved(profile, candidate) {
        Some(id) => Some(id),
        None => if owner_of(candidate) == Some("manim"@) {
            match profile.spec_resolve_export(member_of(candidate)) {
                Some(entry) => Some(entry.id@),
                None => None,
            }
        } else {
            None
        },
    }
}

/// Resolves one candidate to a curated id.
pub fn resolve_candidate(profile: &KnowledgeProfile, candidate: &str) -> (id: Option<String>)
    ensures
        match id {
            Some(found) => candidate_symbol(*profile, candidate@) == Some(found@),
            None => candidate_symbol(*profile, candidate@) is None,
        },
{
    if let Some((id, _)) = resolve_symbol(profile, candidate) {
        return Some(id);
    }
    match rsplit_dot(candidate) {
        Some((owner, member)) => {
            if !same_text(owner.as_str(), "manim") {
                return None;
            }
            match profile.resolve_export(member.as_str()) {
                Some(entry) => Some(entry.id.clone()),
                None => None,
            }
        },
        None => None,
    }
}

/// The one curated id that all candidates stand for.
pub open spec fn common_goal(profile: KnowledgeProfile, candidates: Seq<Seq<char>>) -> Option<
    Seq<char>,
> {
    if candidates.len() == 0 {
        None
    } else {
        match candidate_symbol(profile, candidates[0]) {
            Some(id) => if forall|i: int|
                0 <= i < candidates.len() ==> candidate_symbol(profile, #[trigger] candidates[i])
                    == Some(id) {
                Some(id)
            } else {
                None
            },
            None => None,
        }
    }
}

/// The curated id a call targets beyond doubt.
pub open spec fn goal_of(
    profile: KnowledgeProfile,
    index: ProjectIndex,
    call: QualifiedCall,
) -> Option<Seq<char>> {
    if conclusive_receiver(index, call) {
        common_goal(profile, texts(call.candidates@))
    } else {
        None
    }
}

/// Resolves `call` to a single curated symbol.
///
/// Succeeds only when the candidate set is non-empty, the receiver is
/// conclusively classified, and every candidate resolves to the same
/// canonical id.
pub fn conclusive_target(
    profile: &KnowledgeProfile,
    index: &ProjectIndex,
    call: &QualifiedCall,
) -> (id: Option<String>)
    ensures
        match id {
            Some(found) => goal_of(*profile, *index, *call) == Some(found@),
            None => goal_of(*profile, *index, *call) is None,
        },
{
    if call.candidates.len() == 0 || !receiver_conclusive(call, index) {
        return None;
    }
    let ghost list = texts(call.candidates@);
    assert(list[0] == call.candidates@[0]@);
    let id: String = match resolve_candidate(profile, call.candidates[0].as_str()) {
        Some(id) => id,
        None => {
            return None;
        },
    };
    let mut i: usize = 1;
    while i < call.candidates.len()
        invariant
            1 <= i <= call.candidates@.len(),
            list == texts(call.candidates@),
            conclusive_receiver(*index, *call),
            candidate_symbol(*profile, list[0]) == Some(id@),
            forall|j: int|
                0 <= j < i ==> candidate_symbol(*profile, #[trigger] list[j]) == Some(id@),
        decreases call.candidates@.len() - i,
    {
        assert(list[i as int] == call.candidates@[i as int]@);
        match resolve_candidate(profile, call.candidates[i].as_str()) {
            Some(other) => {
                if !same_text(other.as_str(), id.as_str()) {
                    return None;
                }
            },
            None => {
                return None;
            },
        }
        i += 1;
    }
    Some(id)
}

/// Whether `call` targets the curated symbol `id`.
pub fn targets(
    profile: &KnowledgeProfile,
    index: &ProjectIndex,
    call: &QualifiedCall,
    id: &str,
) -> (yes: bool)
    ensures
        yes == (goal_of(*profile, *index, *call) == Some(id@)),
{
    match conclusive_target(profile, index, call) {
        Some(canonical) => same_text(canonical.as_str(), id),
        None => false,
    }
}

/// The scene lifecycle whose class encloses a call.
pub open spec fn scene_around(lifecycle: LifecycleFacts, call: QualifiedCall) -> Option<
    SceneLifecycle,
> {
    match call.context.class_name {
        Some(name) => lifecycle.spec_scene(name@),
        None => None,
    }
}

/// The scene lifecycle whose class encloses `call`, if any.
pub fn enclosing_scene<'l>(lifecycle: &'l LifecycleFacts, call: &QualifiedCall) -> (scene: Option<
    &'l SceneLifecycle,
>)
    ensures
        match scene {
            Some(found) => scene_around(*lifecycle, *call) == Some(*found),
            None => scene_around(*lifecycle, *call) is None,
        },
{
    match &call.context.class_name {
        Some(name) => lifecycle.scene(name.as_str()),
        None => None,
    }
}

/// `path:line:column` of the start of a site.
pub open spec fn place_text(context: RuleContext<'_>, site: AllocationSite) -> Seq<char> {
    path_in(*context.sources, site.file) + ":"@ + numeral(
        position_in(*context.sources, site.file, site.start).0 as nat,
    ) + ":"@ + numeral(position_in(*context.sources, site.file, site.start).1 as nat)
}

/// `path:line:column` of a site, for evidence and report rows.
pub fn site_location(context: &RuleContext<'_>, site: AllocationSite) -> (text: String)
    ensures
        text@ == place_text(*context, site),
{
    let path: String = context.sources.path(site.file);
    let position = context.sources.position(site.file, site.start);
    cat5(
        path.as_str(),
        ":",
        decimal(position.line).as_str(),
        ":",
        decimal(position.column).as_str(),
    )
}

/// `path:line:column` of one execution play's call site.
pub fn play_location(context: &RuleContext<'_>, play: &ExecutionPlay) -> (text: String)
    ensures
        text@ == place_text(*context, play.site),
{
    site_location(context, play.site)
}

/// One execution play as evidence.
pub open spec fn execution_play_view(context: RuleContext<'_>, play: ExecutionPlay) -> JsonView {
    JsonView::Object(
        seq![
            ("location"@, JsonView::Text(place_text(context, play.site))),
            (
                "kind"@,
                JsonView::Text(
                    match play.kind {
                        PlayKind::Play => "play"@,
                        PlayKind::Wait => "wait"@,
                    },
                ),
            ),
            (
                "certainty"@,
                JsonView::Text(
                    match play.certainty {
                        ExecutionCertainty::Proven => "proven"@,
                        ExecutionCertainty::Maybe => "maybe"@,
                    },
                ),
            ),
        ],
    )
}

/// Execution plays as evidence.
pub open spec fn execution_play_views(
    context: RuleContext<'_>,
    plays: Seq<ExecutionPlay>,
) -> Seq<JsonView> {
    Seq::new(plays.len(), |i: int| execution_play_view(context, plays[i]))
}

/// The plays a per-frame claim counts.
pub open spec fn execution_view(context: RuleContext<'_>, execution: CallExecution) -> JsonView {
    JsonView::Object(
        seq![
            (
                "plays"@,
                JsonView::List(
                    execution_play_views(context, execution.proven@) + execution_play_views(
                        context,
                        execution.maybe@,
                    ),
                ),
            ),
            ("unresolved_entries"@, JsonView::Flag(execution.unresolved)),
        ],
    )
}

fn push_plays(context: &RuleContext<'_>, list: &mut Vec<Json>, plays: &Vec<ExecutionPlay>)
    ensures
        json_items(final(list)@) == json_items(old(list)@) + execution_play_views(
            *context,
            plays@,
        ),
{
    let ghost start = json_items(list@);
    let mut i: usize = 0;
    assert(json_items(list@) =~= start + execution_play_views(*context, plays@).take(0));
    while i < plays.len()
        invariant
            i <= plays@.len(),
            json_items(list@) == start + execution_play_views(*context, plays@).take(i as int),
        decreases plays@.len() - i,
    {
        let play = &plays[i];
        let kind: &'static str = match play.kind {
            PlayKind::Play => "play",
            PlayKind::Wait => "wait",
        };
        let certainty: &'static str = match play.certainty {
            ExecutionCertainty::Proven => "proven",
            ExecutionCertainty::Maybe => "maybe",
        };
        let entry: Json = json_object3(
            "location",
            json_text(play_location(context, play).as_str()),
            "kind",
            json_text(kind),
            "certainty",
            json_text(certainty),
        );
        let ghost before = list@;
        list.push(entry);
        assert(json_items(list@) =~= json_items(before).push(entry@));
        assert(start + execution_play_views(*context, plays@).take(i + 1) =~= (start
            + execution_play_views(*context, plays@).take(i as int)).push(
            execution_play_view(*context, plays@[i as int]),
        ));
        i += 1;
    }
    assert(execution_play_views(*context, plays@).take(i as int) =~= execution_play_views(
        *context,
        plays@,
    ));
}

/// Machine-readable list of the execution plays a per-frame claim counts:
/// each entry names the play's place, kind, and whether execution there is
/// proven or only possible.
pub fn execution_plays_json(context: &RuleContext<'_>, execution: &CallExecution) -> (value: Json)
    ensures
        value@ == execution_view(*context, *execution),
{
    let mut plays: Vec<Json> = Vec::new();
    assert(json_items(plays@) =~= Seq::empty());
    push_plays(context, &mut plays, &execution.proven);
    push_plays(context, &mut plays, &execution.maybe);
    assert(json_items(plays@) =~= execution_play_views(*context, execution.proven@)
        + execution_play_views(*context, execution.maybe@));
    json_object2("plays", json_list(plays), "unresolved_entries", Json::Flag(execution.unresolved))
}

/// What is known about a per-frame call of the class or method `symbol` that
/// some play provably executes.
pub open spec fn live_call(
    context: RuleContext<'_>,
    call_index: usize,
    symbol: Seq<char>,
) -> Option<HotCall> {
    match (context.knowledge, context.cost_facts.spec_hot(call_index as int)) {
        (Some(profile), Some(entry)) => if call_index < context.qualified_calls.calls@.len()
            && goal_of(
            *profile,
            context.project_index,
            context.qualified_calls.calls@[call_index as int],
        ) == Some(symbol) && entry.contexts@.len() > 0 && entry.execution.is_proven() {
            Some(entry)
        } else {
            None
        },
        _ => None,
    }
}

/// The per-frame facts of a call whose candidates all agree on `symbol` and
/// whose callback some play provably executes: without such a play the
/// per-frame claim would be false.
pub fn find_live_call<'c>(context: &'c RuleContext<'_>, call_index: usize, symbol: &str) -> (entry:
    Option<&'c HotCall>)
    ensures
        match entry {
            Some(found) => live_call(*context, call_index, symbol@) == Some(*found),
            None => live_call(*context, call_index, symbol@) is None,
        },
{
    let profile = match context.knowledge {
        Some(profile) => profile,
        None => {
            return None;
        },
    };
    if call_index >= context.qualified_calls.calls.len() {
        return None;
    }
    let call = &context.qualified_calls.calls[call_index];
    if !targets(profile, &context.project_index, call, symbol) {
        return None;
    }
    let entry = match context.cost_facts.hot(call_index) {
        Some(entry) => entry,
        None => {
            return None;
        },
    };
    if entry.contexts.len() == 0 || !entry.execution.has_proven() {
        return None;
    }
    Some(entry)
}

/// The frames of the plays that provably execute a call, when bounded.
pub open spec fn bounded_frames(entry: HotCall) -> Option<Num> {
    match entry.proven_frames {
        Some(frames) => if frames.spec_bounded() {
            Some(frames)
        } else {
            None
        },
        None => None,
    }
}

pub fn find_bounded_frames(entry: &HotCall) -> (frames: Option<&Num>)
    ensures
        match frames {
            Some(found) => bounded_frames(*entry) == Some(*found),
            None => bounded_frames(*entry) is None,
        },
{
    match &entry.proven_frames {
        Some(frames) => if frames.is_bounded() {
            Some(frames)
        } else {
            None
        },
        None => None,
    }
}

/// A frame count as evidence: its bounds, or that there is one per frame.
pub open spec fn frame_count_view(frames: Option<Num>) -> JsonView {
    match frames {
        Some(count) => bounds_view(count),
        None => JsonView::Text("per-frame"@),
    }
}

pub fn frame_count_json(frames: Option<&Num>) -> (value: Json)
    ensures
        value@ == frame_count_view(
            match frames {
                Some(count) => Some(*count),
                None => None,
            },
        ),
{
    match frames {
        Some(count) => num_bounds_json(count),
        None => json_text("per-frame"),
    }
}

/// Related locations at some plays of a scene, with one message.
pub open spec fn play_locations(
    context: RuleContext<'_>,
    plays: Seq<PlayFact>,
    positions: Seq<usize>,
    message: Seq<char>,
) -> Seq<RelatedView> {
    Seq::new(
        positions.len(),
        |i: int| related_at(context, plays[positions[i] as int].site, message),
    )
}

pub fn locate_plays(
    context: &RuleContext<'_>,
    plays: &Vec<PlayFact>,
    positions: &Vec<usize>,
    message: &str,
) -> (related: Vec<RelatedLocation>)
    requires
        forall|i: int| 0 <= i < positions@.len() ==> #[trigger] positions@[i] < plays@.len(),
    ensures
        related_views(related@) == play_locations(*context, plays@, positions@, message@),
{
    let mut related: Vec<RelatedLocation> = Vec::new();
    let mut i: usize = 0;
    while i < positions.len()
        invariant
            i <= positions@.len(),
            related@.len() == i,
            forall|j: int| 0 <= j < positions@.len() ==> #[trigger] positions@[j] < plays@.len(),
            forall|j: int|
                0 <= j < i ==> (#[trigger] related@[j])@ == related_at(
                    *context,
                    plays@[positions@[j] as int].site,
                    message@,
                ),
        decreases positions@.len() - i,
    {
        let position: usize = positions[i];
        related.push(related_site(context, plays[position].site, message.to_owned()));
        i += 1;
    }
    assert(related_views(related@) =~= play_locations(*context, plays@, positions@, message@));
    related
}

} // verus!
