//! `.animate` builder rules: `MLC113`, `MLC117`, `MLC124`.
//!
//! A builder runs `generate_target()` the moment `.animate` is read;
//! animation kwargs must be passed by calling `animate` itself before any
//! method access; and chained methods run against the target copy, so a
//! getter that only returns a value never changes the animation.
use super::support::all_resolve_to;
use super::timing::{call_written_at, find_call};
use crate::diagnostic::{
    Confidence, Diagnostic, DiagnosticView, Fix, FixApplicability, FixView, MetadataView,
    RuleMetadata, Severity,
};
use crate::frontend::QualifiedCall;
use crate::json::{json_text, Evidence, EvidenceView, JsonView};
use crate::knowledge::{qualified, resolve_symbol, resolved, KnowledgeProfile};
use crate::rules::base::{
    add_related, basic_report, build_diagnostic, edit_at, related_at, related_site, text_edit,
    with_related, Rule, RuleContext,
};
use crate::rules::dedupe::{
    candidate_view, candidate_views, keep_first, kept, key_of, named_key, offer_all, offer_found,
    site_key, site_name, Candidate, CandidateView,
};
use crate::semantic::{
    any_definitely_same, targets_same, AnimateBuilderFact, Cardinality, Event, KindSet,
    MutationKind, ObjectId, PlayFact, PlayKind, PlayedAnimation, Presence, SceneLifecycle,
    TracedEvent, Truth, WriteChannel,
};
use crate::source::{site_of, slice_in, AllocationSite, FileId, TextRange};
use crate::text::{cat3, cat7, found, gather, same_text, texts};
use vstd::prelude::*;

verus! {

// ---------------------------------------------------------------------------
// MLC113: animation kwargs after a builder method access.
// ---------------------------------------------------------------------------

/// What [`MLC113`] declares.
pub open spec fn mlc113() -> MetadataView {
    MetadataView {
        id: "MLC113"@,
        summary: "Animation kwargs passed after a .animate method access"@,
        default_enabled: true,
        default_severity: Severity::Error,
        minimum_confidence: Confidence::Certain,
        implementation_phase: 2,
        required_profiles: seq![],
        required_capabilities: seq!["qualified-calls"@, "lifecycle"@],
        supersedes: seq![],
    }
}

/// Metadata of rule `MLC113`.
#[allow(non_snake_case)]
pub fn MLC113() -> (metadata: &'static RuleMetadata)
    ensures
        metadata@ == mlc113(),
{
    let metadata: &'static RuleMetadata = &RuleMetadata {
        id: "MLC113",
        summary: "Animation kwargs passed after a .animate method access",
        default_enabled: true,
        default_severity: Severity::Error,
        minimum_confidence: Confidence::Certain,
        implementation_phase: 2,
        required_profiles: &[],
        required_capabilities: &["qualified-calls", "lifecycle"],
        supersedes: &[],
    };
    assert(metadata@ =~= mlc113());
    metadata
}

/// `mob.animate.method(...)(run_time=...)`: calling the builder after a
/// method access raises `ValueError`.
pub struct AnimateKwargsAfterMethod;

pub const KWARGS_FIRST: &'static str = "Pass animation kwargs on `animate` itself, before any method \
    access: `";

pub const KWARGS_FIRST_END: &'static str = ".<method>(...)`. Calling \
    the builder after a method access raises `ValueError` at run \
    time.";

pub const KWARGS_FIRST_WHY: &'static str = "`_AnimationBuilder.__call__` accepts animation kwargs only before \
    the first method access; every method access (and a first call) \
    sets `cannot_pass_args`, after which calling the builder raises \
    `ValueError` (mobject.py `_AnimationBuilder`, DESIGN §3.2).";

/// Whether a builder is chained, starts at `start` of `file`, and ends at
/// or before `limit`.
pub open spec fn chained_at(
    builder: AnimateBuilderFact,
    file: FileId,
    start: u32,
    limit: u32,
) -> bool {
    builder.methods@.len() > 0 && builder.target is Some && builder.site.file == file
        && builder.site.start == start && builder.site.end <= limit
}

/// Ends of the builders of a scene that are chained at a place.
pub open spec fn scene_ends(
    builders: Seq<AnimateBuilderFact>,
    file: FileId,
    start: u32,
    limit: u32,
) -> spec_fn(int) -> Seq<u32> {
    |b: int|
        if chained_at(builders[b], file, start, limit) {
            seq![builders[b].site.end]
        } else {
            Seq::empty()
        }
}

/// Ends of all builders that are chained at a place, scene by scene.
pub open spec fn project_ends(
    scenes: Seq<SceneLifecycle>,
    file: FileId,
    start: u32,
    limit: u32,
) -> spec_fn(int) -> Seq<u32> {
    |s: int|
        gather(
            scenes[s].builders@.len() as int,
            scene_ends(scenes[s].builders@, file, start, limit),
        )
}

/// The least of a list of offsets.
pub open spec fn least(ends: Seq<u32>) -> Option<u32>
    decreases ends.len(),
{
    if ends.len() == 0 {
        None
    } else {
        match least(ends.drop_last()) {
            Some(end) => Some(
                if end <= ends.last() {
                    end
                } else {
                    ends.last()
                },
            ),
            None => Some(ends.last()),
        }
    }
}

/// Site of the shortest chained builder at the start of a callee.
pub open spec fn builder_at(context: RuleContext<'_>, file: FileId, callee: TextRange) -> Option<
    AllocationSite,
> {
    let scenes = context.lifecycle_facts.scenes@;
    match least(
        gather(scenes.len() as int, project_ends(scenes, file, callee.start, callee.end)),
    ) {
        Some(end) => Some(AllocationSite { file, start: callee.start, end }),
        None => None,
    }
}

fn chained(builder: &AnimateBuilderFact, file: FileId, start: u32, limit: u32) -> (chained: bool)
    ensures
        chained == chained_at(*builder, file, start, limit),
{
    builder.methods.len() > 0 && builder.target.is_some() && builder.site.file == file
        && builder.site.start == start && builder.site.end <= limit
}

fn find_builder(context: &RuleContext<'_>, file: FileId, callee: TextRange) -> (site: Option<
    AllocationSite,
>)
    ensures
        site == builder_at(*context, file, callee),
{
    let scenes = &context.lifecycle_facts.scenes;
    let mut best: Option<u32> = None;
    let ghost mut ends: Seq<u32> = Seq::empty();
    let mut s: usize = 0;
    while s < scenes.len()
        invariant
            s <= scenes@.len(),
            scenes@ == context.lifecycle_facts.scenes@,
            ends == gather(s as int, project_ends(scenes@, file, callee.start, callee.end)),
            best == least(ends),
        decreases scenes@.len() - s,
    {
        let builders = &scenes[s].builders;
        let ghost before = ends;
        let mut b: usize = 0;
        assert(ends =~= before + Seq::<u32>::empty());
        while b < builders.len()
            invariant
                b <= builders@.len(),
                ends == before + gather(
                    b as int,
                    scene_ends(builders@, file, callee.start, callee.end),
                ),
                best == least(ends),
            decreases builders@.len() - b,
        {
            let ghost listed = gather(
                b as int,
                scene_ends(builders@, file, callee.start, callee.end),
            );
            if chained(&builders[b], file, callee.start, callee.end) {
                let end: u32 = builders[b].site.end;
                best = match best {
                    Some(current) => Some(
                        if current <= end {
                            current
                        } else {
                            end
                        },
                    ),
                    None => Some(end),
                };
                proof {
                    let after = ends.push(end);
                    assert(after.drop_last() =~= ends);
                    assert(after =~= before + (listed + seq![end]));
                    ends = after;
                }
            } else {
                assert(ends =~= before + (listed + Seq::<u32>::empty()));
            }
            b += 1;
        }
        s += 1;
    }
    match best {
        Some(end) => Some(AllocationSite { file, start: callee.start, end }),
        None => None,
    }
}

/// The trailing `(...)` of a call whose callee is itself a call.
pub open spec fn trailing_range(outer: QualifiedCall) -> TextRange {
    TextRange { start: outer.callee_range.end, end: outer.call_range.end }
}

/// The move of the trailing kwargs onto `animate`.
pub open spec fn move_kwargs_fix_of(
    context: RuleContext<'_>,
    outer: QualifiedCall,
    builder_site: AllocationSite,
) -> Option<FixView> {
    let trailing_text = slice_in(*context.sources, outer.file, trailing_range(outer));
    if outer.positional_count == 0 && !outer.has_star_args {
        Some(
            FixView {
                applicability: FixApplicability::Safe,
                message: "Move `"@ + trailing_text + "` onto `.animate` itself"@,
                edits: seq![
                    edit_at(
                        context,
                        outer.file,
                        TextRange { start: builder_site.end, end: builder_site.end },
                        trailing_text,
                    ),
                    edit_at(context, outer.file, trailing_range(outer), ""@),
                ],
            },
        )
    } else {
        None
    }
}

/// Safe fix: move the trailing `(kwargs)` onto `animate` itself. Only
/// keyword arguments move (the builder's `__call__` accepts nothing else).
fn move_kwargs_fix(
    context: &RuleContext<'_>,
    outer: &QualifiedCall,
    builder_site: AllocationSite,
) -> (fix: Option<Fix>)
    ensures
        match fix {
            Some(found) => move_kwargs_fix_of(*context, *outer, builder_site) == Some(found@),
            None => move_kwargs_fix_of(*context, *outer, builder_site) is None,
        },
{
    if outer.positional_count != 0 || outer.has_star_args {
        return None;
    }
    let trailing = TextRange::new(outer.callee_range.end, outer.call_range.end);
    let text: String = context.sources.slice(outer.file, trailing);
    let message: String = cat3("Move `", text.as_str(), "` onto `.animate` itself");
    let insert = text_edit(
        context,
        outer.file,
        TextRange::new(builder_site.end, builder_site.end),
        text,
    );
    let remove = text_edit(context, outer.file, trailing, "".to_owned());
    let fix = Fix {
        applicability: FixApplicability::Safe,
        message,
        edits: vec![insert, remove],
    };
    assert(fix@.edits =~= seq![insert@, remove@]);
    Some(fix)
}

/// The builder that a call calls after a method access: the callee of the
/// call is a call whose own callee starts with a chained builder.
pub open spec fn called_builder(context: RuleContext<'_>, outer: QualifiedCall) -> Option<
    AllocationSite,
> {
    match call_written_at(context, site_of(outer.file, outer.callee_range)) {
        Some(inner) => builder_at(context, outer.file, inner.callee_range),
        None => None,
    }
}

/// The candidate for the call at `i`.
pub open spec fn late_kwargs_at(context: RuleContext<'_>, i: int) -> Option<CandidateView> {
    let outer = context.qualified_calls.calls@[i];
    let trailing = trailing_range(outer);
    match called_builder(context, outer) {
        Some(site) => {
            let trailing_text = slice_in(*context.sources, outer.file, trailing);
            let builder_text = slice_in(*context.sources, outer.file, site.spec_range());
            Some(
                (
                    key_of(site_of(outer.file, trailing)),
                    Some(
                        DiagnosticView {
                            fix: move_kwargs_fix_of(context, outer, site),
                            ..basic_report(
                                mlc113(),
                                context,
                                outer.file,
                                trailing,
                                KWARGS_FIRST@ + builder_text + trailing_text + KWARGS_FIRST_END@,
                                KWARGS_FIRST_WHY@,
                                EvidenceView::empty().insert(
                                    "builder"@,
                                    JsonView::Text(builder_text),
                                ).insert("trailing_call"@, JsonView::Text(trailing_text)),
                            )
                        },
                    ),
                ),
            )
        },
        None => None,
    }
}

fn late_kwargs(context: &RuleContext<'_>, i: usize) -> (candidate: Option<Candidate>)
    requires
        i < context.qualified_calls.calls@.len(),
    ensures
        match candidate {
            Some(found) => late_kwargs_at(*context, i as int) == Some(candidate_view(found)),
            None => late_kwargs_at(*context, i as int) is None,
        },
{
    let outer = &context.qualified_calls.calls[i];
    // The callee must itself be a call expression we have a fact for ...
    let inner = match find_call(context, AllocationSite::new(outer.file, outer.callee_range)) {
        Some(inner) => inner,
        None => {
            return None;
        },
    };
    // ... whose own callee is a chained `.animate` builder chain.
    let site: AllocationSite = match find_builder(context, outer.file, inner.callee_range) {
        Some(site) => site,
        None => {
            return None;
        },
    };
    let trailing = TextRange::new(outer.callee_range.end, outer.call_range.end);
    let trailing_text: String = context.sources.slice(outer.file, trailing);
    let builder_text: String = context.sources.slice(outer.file, site.range());
    let mut evidence = Evidence::new();
    evidence.insert("builder", json_text(builder_text.as_str()));
    evidence.insert("trailing_call", json_text(trailing_text.as_str()));
    let mut diagnostic = build_diagnostic(
        MLC113(),
        context,
        outer.file,
        trailing,
        crate::text::cat4(
            KWARGS_FIRST,
            builder_text.as_str(),
            trailing_text.as_str(),
            KWARGS_FIRST_END,
        ),
        KWARGS_FIRST_WHY,
        evidence,
    );
    diagnostic.fix = move_kwargs_fix(context, outer, site);
    Some(
        Candidate {
            key: site_key(AllocationSite::new(outer.file, trailing)),
            diagnostic: Some(diagnostic),
        },
    )
}

/// Candidates of [`AnimateKwargsAfterMethod`], call by call.
pub open spec fn late_kwargs_finder(context: RuleContext<'_>) -> spec_fn(int) -> Seq<CandidateView> {
    |i: int| found(late_kwargs_at(context, i))
}

impl Rule for AnimateKwargsAfterMethod {
    open spec fn declared(&self) -> MetadataView {
        mlc113()
    }

    open spec fn findings(&self, context: RuleContext<'_>) -> Seq<DiagnosticView> {
        kept(gather(context.qualified_calls.calls@.len() as int, late_kwargs_finder(context)))
    }

    fn metadata(&self) -> (metadata: &'static RuleMetadata) {
        MLC113()
    }

    fn run(&self, context: &RuleContext<'_>) -> (diagnostics: Vec<Diagnostic>) {
        let calls = &context.qualified_calls.calls;
        let mut candidates: Vec<Candidate> = Vec::new();
        let mut i: usize = 0;
        assert(candidate_views(candidates@) =~= Seq::empty());
        while i < calls.len()
            invariant
                i <= calls@.len(),
                calls@ == context.qualified_calls.calls@,
                candidate_views(candidates@) == gather(i as int, late_kwargs_finder(*context)),
            decreases calls@.len() - i,
        {
            offer_found(&mut candidates, late_kwargs(context, i));
            i += 1;
        }
        keep_first(candidates)
    }
}

// ---------------------------------------------------------------------------
// MLC117: stale or overwritten builder target.
// ---------------------------------------------------------------------------

/// What [`MLC117`] declares.
pub open spec fn mlc117() -> MetadataView {
    MetadataView {
        id: "MLC117"@,
        summary: "Mobject changed between .animate builder creation and play"@,
        default_enabled: true,
        default_severity: Severity::Warning,
        minimum_confidence: Confidence::High,
        implementation_phase: 2,
        required_profiles: seq![],
        required_capabilities: seq!["lifecycle"@],
        supersedes: seq![],
    }
}

/// Metadata of rule `MLC117`.
#[allow(non_snake_case)]
pub fn MLC117() -> (metadata: &'static RuleMetadata)
    ensures
        metadata@ == mlc117(),
{
    let metadata: &'static RuleMetadata = &RuleMetadata {
        id: "MLC117",
        summary: "Mobject changed between .animate builder creation and play",
        default_enabled: true,
        default_severity: Severity::Warning,
        minimum_confidence: Confidence::High,
        implementation_phase: 2,
        required_profiles: &[],
        required_capabilities: &["lifecycle"],
        supersedes: &[],
    };
    assert(metadata@ =~= mlc117());
    metadata
}

/// A played `.animate` builder whose live target was definitely mutated, or
/// whose generated target was overwritten by a later builder, between
/// builder creation and the play.
pub struct StaleAnimateBuilder;

pub const OVERWRITTEN: &'static str = "A later `.animate` builder on the same mobject replaced the target \
    this `";

pub const OVERWRITTEN_END: &'static str = "` builder generated; playing this builder animates toward \
    the later builder's target instead. Build and play each `.animate` \
    expression directly inside `self.play(...)`, or merge the chains.";

pub const OVERWRITTEN_WHY: &'static str = "Reading `.animate` runs `generate_target()` immediately and the built \
    animation animates toward `mobject.target` (DESIGN §3.2). Creating a \
    second builder on the same mobject overwrites `mobject.target`, so an \
    earlier, not-yet-played builder silently uses the later target.";

pub const STALE: &'static str = "The mobject is changed between this `";

pub const STALE_END: &'static str = "` builder's creation and \
    the play that consumes it; `generate_target()` ran at creation, so the \
    animation targets the stale pre-mutation snapshot. Move the `.animate` \
    expression directly into the `self.play(...)` call.";

pub const STALE_WHY: &'static str = "Reading `.animate` runs `generate_target()` immediately (DESIGN §3.2): the \
    builder's target snapshot is taken at creation, not at play. Mutating the \
    live mobject before the play makes the animation start from the mutated \
    state but end at the stale target.";

pub const STALE_HERE: &'static str = "the live mobject is changed here, after the target snapshot was \
    taken";

/// A mutation of these kinds between builder creation and play leaves the
/// generated target stale.
pub open spec fn makes_stale(kind: MutationKind) -> bool {
    kind == MutationKind::Points || kind == MutationKind::Style || kind == MutationKind::Opacity
        || kind == MutationKind::CameraState || kind == MutationKind::Unknown
}

fn is_stale_mutation(kind: MutationKind) -> (stale: bool)
    ensures
        stale == makes_stale(kind),
{
    kind == MutationKind::Points || kind == MutationKind::Style || kind == MutationKind::Opacity
        || kind == MutationKind::CameraState || kind == MutationKind::Unknown
}

/// Index of the first event at `site`, from `i` on.
pub open spec fn event_at(events: Seq<TracedEvent>, site: AllocationSite, i: int) -> Option<int>
    decreases events.len() - i,
{
    if i < 0 || i >= events.len() {
        None
    } else if events[i].site == site {
        Some(i)
    } else {
        event_at(events, site, i + 1)
    }
}

fn find_event(events: &Vec<TracedEvent>, site: AllocationSite) -> (index: Option<usize>)
    ensures
        match index {
            Some(found) => event_at(events@, site, 0) == Some(found as int) && found
                < events@.len(),
            None => event_at(events@, site, 0) is None,
        },
{
    let mut i: usize = 0;
    while i < events.len()
        invariant
            i <= events@.len(),
            event_at(events@, site, 0) == event_at(events@, site, i as int),
        decreases events@.len() - i,
    {
        if events[i].site == site {
            return Some(i);
        }
        i += 1;
    }
    None
}

/// Index of the last event before `end` that begins the play group.
pub open spec fn begin_before(events: Seq<TracedEvent>, group: u64, end: int) -> Option<int>
    decreases end,
{
    if end <= 0 {
        None
    } else {
        match events[end - 1].event {
            Event::BeginPlay { play_group } => if play_group == group {
                Some(end - 1)
            } else {
                begin_before(events, group, end - 1)
            },
            _ => begin_before(events, group, end - 1),
        }
    }
}

fn find_begin(events: &Vec<TracedEvent>, group: u64) -> (index: Option<usize>)
    ensures
        match index {
            Some(found) => begin_before(events@, group, events@.len() as int) == Some(found as int)
                && found < events@.len(),
            None => begin_before(events@, group, events@.len() as int) is None,
        },
{
    let mut end: usize = events.len();
    while end > 0
        invariant
            end <= events@.len(),
            begin_before(events@, group, events@.len() as int) == begin_before(
                events@,
                group,
                end as int,
            ),
        decreases end,
    {
        if let Event::BeginPlay { play_group } = &events[end - 1].event {
            if *play_group == group {
                return Some(end - 1);
            }
        }
        end -= 1;
    }
    None
}

/// Whether an animation is a builder on `target`.
pub open spec fn builds_on(animation: PlayedAnimation, target: ObjectId) -> bool {
    animation.from_builder && match animation.state {
        Some(state) => targets_same(state.targets@, target),
        None => false,
    }
}

/// Whether a play has a builder animation on `target`.
pub open spec fn has_builder_on(play: PlayFact, target: ObjectId) -> bool {
    play.kind == PlayKind::Play && exists|a: int|
        0 <= a < play.animations@.len() && builds_on(#[trigger] play.animations@[a], target)
}

fn play_has_builder_on(play: &PlayFact, target: &ObjectId) -> (has: bool)
    ensures
        has == has_builder_on(*play, *target),
{
    if play.kind != PlayKind::Play {
        return false;
    }
    let mut a: usize = 0;
    while a < play.animations.len()
        invariant
            a <= play.animations@.len(),
            play.kind == PlayKind::Play,
            forall|b: int| 0 <= b < a ==> !builds_on(#[trigger] play.animations@[b], *target),
        decreases play.animations@.len() - a,
    {
        let animation = &play.animations[a];
        if animation.from_builder {
            if let Some(state) = &animation.state {
                if any_definitely_same(&state.targets, target) {
                    assert(builds_on(play.animations@[a as int], *target));
                    return true;
                }
            }
        }
        a += 1;
    }
    false
}

/// Whether an animation definitely writes `target` beyond its membership.
pub open spec fn writes(animation: PlayedAnimation, target: ObjectId) -> bool {
    animation.channels_known == Truth::Yes && match animation.state {
        Some(state) => targets_same(state.targets@, target) && exists|c: int|
            0 <= c < state.write_channels@.len() && #[trigger] state.write_channels@[c]
                != WriteChannel::Membership,
        None => false,
    }
}

/// Whether a play definitely writes `target`.
pub open spec fn play_writes(play: PlayFact, target: ObjectId) -> bool {
    exists|a: int|
        0 <= a < play.animations@.len() && writes(#[trigger] play.animations@[a], target)
}

fn beyond_membership(channels: &Vec<WriteChannel>) -> (beyond: bool)
    ensures
        beyond == exists|c: int|
            0 <= c < channels@.len() && #[trigger] channels@[c] != WriteChannel::Membership,
{
    let mut c: usize = 0;
    while c < channels.len()
        invariant
            c <= channels@.len(),
            forall|d: int| 0 <= d < c ==> #[trigger] channels@[d] == WriteChannel::Membership,
        decreases channels@.len() - c,
    {
        if channels[c] != WriteChannel::Membership {
            return true;
        }
        c += 1;
    }
    false
}

fn play_definitely_writes(play: &PlayFact, target: &ObjectId) -> (writing: bool)
    ensures
        writing == play_writes(*play, *target),
{
    let mut a: usize = 0;
    while a < play.animations.len()
        invariant
            a <= play.animations@.len(),
            forall|b: int| 0 <= b < a ==> !writes(#[trigger] play.animations@[b], *target),
        decreases play.animations@.len() - a,
    {
        let animation = &play.animations[a];
        if animation.channels_known == Truth::Yes {
            if let Some(state) = &animation.state {
                if any_definitely_same(&state.targets, target) && beyond_membership(
                    &state.write_channels,
                ) {
                    assert(writes(play.animations@[a as int], *target));
                    return true;
                }
            }
        }
        a += 1;
    }
    false
}

/// Begin event of the first play, from `p` on, that comes after `created`
/// and has a builder animation on `target`.
pub open spec fn consuming_from(
    scene: SceneLifecycle,
    created: int,
    target: ObjectId,
    p: int,
) -> Option<int>
    decreases scene.plays@.len() - p,
{
    if p < 0 || p >= scene.plays@.len() {
        None
    } else {
        match begin_before(
            scene.events@,
            scene.plays@[p].play_group,
            scene.events@.len() as int,
        ) {
            Some(begin) => if begin > created && has_builder_on(scene.plays@[p], target) {
                Some(begin)
            } else {
                consuming_from(scene, created, target, p + 1)
            },
            None => consuming_from(scene, created, target, p + 1),
        }
    }
}

fn find_consuming(scene: &SceneLifecycle, created: usize, target: &ObjectId) -> (begin: Option<
    usize,
>)
    ensures
        match begin {
            Some(found) => consuming_from(*scene, created as int, *target, 0) == Some(
                found as int,
            ) && found < scene.events@.len(),
            None => consuming_from(*scene, created as int, *target, 0) is None,
        },
{
    let mut p: usize = 0;
    while p < scene.plays.len()
        invariant
            p <= scene.plays@.len(),
            consuming_from(*scene, created as int, *target, 0) == consuming_from(
                *scene,
                created as int,
                *target,
                p as int,
            ),
        decreases scene.plays@.len() - p,
    {
        let play = &scene.plays[p];
        if let Some(begin) = find_begin(&scene.events, play.play_group) {
            if begin > created && play_has_builder_on(play, target) {
                return Some(begin);
            }
        }
        p += 1;
    }
    None
}

/// The first play, from `p` on, of a play group.
pub open spec fn play_of_group(plays: Seq<PlayFact>, group: u64, p: int) -> Option<PlayFact>
    decreases plays.len() - p,
{
    if p < 0 || p >= plays.len() {
        None
    } else if plays[p].play_group == group {
        Some(plays[p])
    } else {
        play_of_group(plays, group, p + 1)
    }
}

fn find_play(plays: &Vec<PlayFact>, group: u64) -> (play: Option<&PlayFact>)
    ensures
        match play {
            Some(found) => play_of_group(plays@, group, 0) == Some(*found),
            None => play_of_group(plays@, group, 0) is None,
        },
{
    let mut p: usize = 0;
    while p < plays.len()
        invariant
            p <= plays@.len(),
            play_of_group(plays@, group, 0) == play_of_group(plays@, group, p as int),
        decreases plays@.len() - p,
    {
        if plays[p].play_group == group {
            return Some(&plays[p]);
        }
        p += 1;
    }
    None
}

/// Site of the first definite change of `target` among the events from `i`
/// up to `end`: a mutation, or a play that definitely writes it. A play that
/// is not recorded ends the search.
pub open spec fn change_between(
    scene: SceneLifecycle,
    target: ObjectId,
    i: int,
    end: int,
) -> Option<AllocationSite>
    decreases end - i,
{
    if i >= end {
        None
    } else if scene.events@[i].certainty != Presence::Present {
        change_between(scene, target, i + 1, end)
    } else {
        match scene.events@[i].event {
            Event::Mutate { target: mutated, kind } => if mutated.same(target) && makes_stale(
                kind,
            ) {
                Some(scene.events@[i].site)
            } else {
                change_between(scene, target, i + 1, end)
            },
            Event::BeginPlay { play_group } => match play_of_group(scene.plays@, play_group, 0) {
                Some(play) => if play.certainty == Presence::Present && play_writes(
                    play,
                    target,
                ) {
                    Some(scene.events@[i].site)
                } else {
                    change_between(scene, target, i + 1, end)
                },
                None => None,
            },
            _ => change_between(scene, target, i + 1, end),
        }
    }
}

/// The site of a definite live-target mutation between the builder's
/// creation event and the first play that could have consumed it.
pub open spec fn stale_mutation(
    scene: SceneLifecycle,
    builder: AnimateBuilderFact,
    target: ObjectId,
) -> Option<AllocationSite> {
    match (builder.target_epoch_at_play, event_at(scene.events@, builder.site, 0)) {
        (Some(epoch), Some(created)) => if epoch == builder.target_epoch_at_creation {
            None
        } else {
            match consuming_from(scene, created, target, 0) {
                Some(begin) => change_between(scene, target, created + 1, begin),
                None => None,
            }
        },
        _ => None,
    }
}

fn definite_stale_mutation(
    scene: &SceneLifecycle,
    builder: &AnimateBuilderFact,
    target: &ObjectId,
) -> (site: Option<AllocationSite>)
    ensures
        site == stale_mutation(*scene, *builder, *target),
{
    // Corroborating epochs must both be known and differ.
    let epoch: u64 = match builder.target_epoch_at_play {
        Some(epoch) => epoch,
        None => {
            return None;
        },
    };
    if epoch == builder.target_epoch_at_creation {
        return None;
    }
    // The builder's creation shows up as the generate_target allocation at
    // the builder site.
    let created: usize = match find_event(&scene.events, builder.site) {
        Some(index) => index,
        None => {
            return None;
        },
    };
    // The first play (after creation) with a builder animation on the same
    // target bounds the window from above.
    let end: usize = match find_consuming(scene, created, target) {
        Some(index) => index,
        None => {
            return None;
        },
    };
    assert(created < scene.events.len());
    let mut i: usize = created + 1;
    while i < end
        invariant
            end < scene.events@.len(),
            change_between(*scene, *target, created + 1, end as int) == change_between(
                *scene,
                *target,
                i as int,
                end as int,
            ),
            change_between(*scene, *target, created + 1, end as int) == stale_mutation(
                *scene,
                *builder,
                *target,
            ),
        decreases end - i,
    {
        let traced = &scene.events[i];
        if traced.certainty == Presence::Present {
            match &traced.event {
                Event::Mutate { target: mutated, kind } => {
                    if mutated.definitely_same(target) && is_stale_mutation(*kind) {
                        return Some(traced.site);
                    }
                },
                Event::BeginPlay { play_group } => {
                    // An intervening play whose animations definitely write
                    // the target also mutates it (channel interpolation).
                    match find_play(&scene.plays, *play_group) {
                        Some(play) => {
                            if play.certainty == Presence::Present && play_definitely_writes(
                                play,
                                target,
                            ) {
                                return Some(traced.site);
                            }
                        },
                        None => {
                            return None;
                        },
                    }
                },
                _ => {},
            }
        }
        i += 1;
    }
    None
}

/// Evidence of a finding about a builder.
pub open spec fn builder_evidence(kind: Seq<char>, scene: SceneLifecycle) -> EvidenceView {
    EvidenceView::empty().insert("kind"@, JsonView::Text(kind)).insert(
        "scene"@,
        JsonView::Text(scene.qualified_name@),
    )
}

/// The report for an overwritten builder.
pub open spec fn overwritten_report(
    context: RuleContext<'_>,
    scene: SceneLifecycle,
    site: AllocationSite,
) -> DiagnosticView {
    basic_report(
        mlc117(),
        context,
        site.file,
        site.spec_range(),
        OVERWRITTEN@ + slice_in(*context.sources, site.file, site.spec_range())
            + OVERWRITTEN_END@,
        OVERWRITTEN_WHY@,
        builder_evidence("overwritten-target"@, scene),
    )
}

fn overwritten_diagnostic(
    context: &RuleContext<'_>,
    scene: &SceneLifecycle,
    site: AllocationSite,
) -> (diagnostic: Diagnostic)
    ensures
        diagnostic@ == overwritten_report(*context, *scene, site),
{
    let text: String = context.sources.slice(site.file, site.range());
    let mut evidence = Evidence::new();
    evidence.insert("kind", json_text("overwritten-target"));
    evidence.insert("scene", json_text(scene.qualified_name.as_str()));
    build_diagnostic(
        MLC117(),
        context,
        site.file,
        site.range(),
        cat3(OVERWRITTEN, text.as_str(), OVERWRITTEN_END),
        OVERWRITTEN_WHY,
        evidence,
    )
}

/// The report for a stale builder.
pub open spec fn stale_report(
    context: RuleContext<'_>,
    scene: SceneLifecycle,
    site: AllocationSite,
    mutation: AllocationSite,
) -> DiagnosticView {
    with_related(
        basic_report(
            mlc117(),
            context,
            site.file,
            site.spec_range(),
            STALE@ + slice_in(*context.sources, site.file, site.spec_range()) + STALE_END@,
            STALE_WHY@,
            builder_evidence("stale-target"@, scene),
        ),
        related_at(context, mutation, STALE_HERE@),
    )
}

fn stale_diagnostic(
    context: &RuleContext<'_>,
    scene: &SceneLifecycle,
    site: AllocationSite,
    mutation: AllocationSite,
) -> (diagnostic: Diagnostic)
    ensures
        diagnostic@ == stale_report(*context, *scene, site, mutation),
{
    let text: String = context.sources.slice(site.file, site.range());
    let mut evidence = Evidence::new();
    evidence.insert("kind", json_text("stale-target"));
    evidence.insert("scene", json_text(scene.qualified_name.as_str()));
    let mut diagnostic = build_diagnostic(
        MLC117(),
        context,
        site.file,
        site.range(),
        cat3(STALE, text.as_str(), STALE_END),
        STALE_WHY,
        evidence,
    );
    add_related(&mut diagnostic, related_site(context, mutation, STALE_HERE.to_owned()));
    diagnostic
}

/// The candidate of the builder at `k`.
pub open spec fn stale_of(context: RuleContext<'_>, scene: SceneLifecycle, k: int) -> Option<
    CandidateView,
> {
    let builder = scene.builders@[k];
    match builder.target {
        Some(target) => if builder.played == Truth::Yes && target.cardinality
            == Cardinality::Singleton {
            if builder.overwritten_by_later_builder == Truth::Yes {
                Some(
                    (key_of(builder.site), Some(overwritten_report(context, scene, builder.site))),
                )
            } else {
                match stale_mutation(scene, builder, target) {
                    Some(mutation) => Some(
                        (
                            key_of(builder.site),
                            Some(stale_report(context, scene, builder.site, mutation)),
                        ),
                    ),
                    None => None,
                }
            }
        } else {
            None
        },
        None => None,
    }
}

fn stale_check(context: &RuleContext<'_>, scene: &SceneLifecycle, k: usize) -> (candidate: Option<
    Candidate,
>)
    requires
        k < scene.builders@.len(),
    ensures
        match candidate {
            Some(found) => stale_of(*context, *scene, k as int) == Some(candidate_view(found)),
            None => stale_of(*context, *scene, k as int) is None,
        },
{
    let builder = &scene.builders[k];
    let target: ObjectId = match builder.target {
        Some(target) => target,
        None => {
            return None;
        },
    };
    if builder.played != Truth::Yes || target.cardinality != Cardinality::Singleton {
        return None;
    }
    let diagnostic: Diagnostic = if builder.overwritten_by_later_builder == Truth::Yes {
        overwritten_diagnostic(context, scene, builder.site)
    } else {
        match definite_stale_mutation(scene, builder, &target) {
            Some(mutation) => stale_diagnostic(context, scene, builder.site, mutation),
            None => {
                return None;
            },
        }
    };
    Some(Candidate { key: site_key(builder.site), diagnostic: Some(diagnostic) })
}

/// The candidates of a scene, in the order of its builders.
pub open spec fn stale_items(context: RuleContext<'_>, scene: SceneLifecycle) -> spec_fn(
    int,
) -> Seq<CandidateView> {
    |k: int| found(stale_of(context, scene, k))
}

/// The candidates of the scene at `i`.
pub open spec fn stale_at(context: RuleContext<'_>, i: int) -> Seq<CandidateView> {
    let scene = context.lifecycle_facts.scenes@[i];
    gather(scene.builders@.len() as int, stale_items(context, scene))
}

fn stale(context: &RuleContext<'_>, i: usize) -> (candidates: Vec<Candidate>)
    requires
        i < context.lifecycle_facts.scenes@.len(),
    ensures
        candidate_views(candidates@) == stale_at(*context, i as int),
{
    let scene = &context.lifecycle_facts.scenes[i];
    let mut candidates: Vec<Candidate> = Vec::new();
    let mut k: usize = 0;
    assert(candidate_views(candidates@) =~= Seq::empty());
    while k < scene.builders.len()
        invariant
            k <= scene.builders@.len(),
            candidate_views(candidates@) == gather(k as int, stale_items(*context, *scene)),
        decreases scene.builders@.len() - k,
    {
        offer_found(&mut candidates, stale_check(context, scene, k));
        k += 1;
    }
    candidates
}

/// Candidates of [`StaleAnimateBuilder`], scene by scene.
pub open spec fn stale_finder(context: RuleContext<'_>) -> spec_fn(int) -> Seq<CandidateView> {
    |i: int| stale_at(context, i)
}

impl Rule for StaleAnimateBuilder {
    open spec fn declared(&self) -> MetadataView {
        mlc117()
    }

    open spec fn findings(&self, context: RuleContext<'_>) -> Seq<DiagnosticView> {
        kept(gather(context.lifecycle_facts.scenes@.len() as int, stale_finder(context)))
    }

    fn metadata(&self) -> (metadata: &'static RuleMetadata) {
        MLC117()
    }

    fn run(&self, context: &RuleContext<'_>) -> (diagnostics: Vec<Diagnostic>) {
        let scenes = &context.lifecycle_facts.scenes;
        let mut candidates: Vec<Candidate> = Vec::new();
        let mut i: usize = 0;
        assert(candidate_views(candidates@) =~= Seq::empty());
        while i < scenes.len()
            invariant
                i <= scenes@.len(),
                scenes@ == context.lifecycle_facts.scenes@,
                candidate_views(candidates@) == gather(i as int, stale_finder(*context)),
            decreases scenes@.len() - i,
        {
            offer_all(&mut candidates, stale(context, i));
            i += 1;
        }
        keep_first(candidates)
    }
}

// ---------------------------------------------------------------------------
// MLC124: non-mutating method chained on .animate.
// ---------------------------------------------------------------------------

/// What [`MLC124`] declares.
pub open spec fn mlc124() -> MetadataView {
    MetadataView {
        id: "MLC124"@,
        summary: ".animate chains a method that does not mutate the target"@,
        default_enabled: true,
        default_severity: Severity::Warning,
        minimum_confidence: Confidence::High,
        implementation_phase: 2,
        required_profiles: seq![],
        required_capabilities: seq!["lifecycle"@],
        supersedes: seq![],
    }
}

/// Metadata of rule `MLC124`.
#[allow(non_snake_case)]
pub fn MLC124() -> (metadata: &'static RuleMetadata)
    ensures
        metadata@ == mlc124(),
{
    let metadata: &'static RuleMetadata = &RuleMetadata {
        id: "MLC124",
        summary: ".animate chains a method that does not mutate the target",
        default_enabled: true,
        default_severity: Severity::Warning,
        minimum_confidence: Confidence::High,
        implementation_phase: 2,
        required_profiles: &[],
        required_capabilities: &["lifecycle"],
        supersedes: &[],
    };
    assert(metadata@ =~= mlc124());
    metadata
}

/// `.animate.<getter>()` where the curated method has `returns_self: false`:
/// it returns a value and leaves the target copy unchanged.
pub struct NonMutatingAnimateMethod;

pub const GETTER: &'static str = "(...)` chains a method that returns a value instead of \
    mutating the mobject; the generated target stays unchanged and the \
    animation shows nothing. Chain a mutating method (`shift`, `become`, \
    `set_...`) on `.animate`, or call `";

pub const GETTER_END: &'static str = "` on the mobject directly.";

pub const GETTER_WHY: &'static str = "`.animate` method chains run against the target copy produced by \
    `generate_target()`; the built animation interpolates toward that copy \
    (DESIGN §3.2). A method curated as `returns_self: false` (a getter or \
    copy) does not modify the copy, so the animation has no visible effect.";

/// `method` on each class of a list.
pub open spec fn methods_on(kinds: Seq<Seq<char>>, method: Seq<char>) -> Seq<Seq<char>> {
    Seq::new(kinds.len(), |i: int| qualified(kinds[i], method))
}

/// Whether `method` of every class is one curated method that returns a
/// value.
pub open spec fn only_returns(
    profile: KnowledgeProfile,
    kinds: Seq<Seq<char>>,
    method: Seq<char>,
) -> bool {
    kinds.len() > 0 && match resolved(profile, qualified(kinds[0], method)) {
        Some(id) => all_resolve_to(profile, methods_on(kinds, method), id)
            && match profile.spec_symbol(id) {
            Some(entry) => entry.returns_self == Some(false),
            None => false,
        },
        None => false,
    }
}

/// Whether `method` resolves for every kind candidate to the same curated
/// entry with a positive `returns_self: false` fact.
fn non_mutating_for_all(profile: &KnowledgeProfile, kinds: &Vec<String>, method: &str) -> (only: bool)
    ensures
        only == only_returns(*profile, texts(kinds@), method@),
{
    let ghost list = texts(kinds@);
    let ghost methods = methods_on(list, method@);
    if kinds.len() == 0 {
        return false;
    }
    assert(list[0] == kinds@[0]@);
    let (id, entry) = match resolve_symbol(
        profile,
        cat3(kinds[0].as_str(), ".", method).as_str(),
    ) {
        Some(found) => found,
        None => {
            return false;
        },
    };
    let returns_value: bool = match entry.returns_self {
        Some(value) => !value,
        None => false,
    };
    if !returns_value {
        return false;
    }
    let mut i: usize = 1;
    while i < kinds.len()
        invariant
            1 <= i <= kinds@.len(),
            list == texts(kinds@),
            methods == methods_on(list, method@),
            resolved(*profile, qualified(list[0], method@)) == Some(id@),
            forall|j: int| 0 <= j < i ==> resolved(*profile, #[trigger] methods[j]) == Some(id@),
        decreases kinds@.len() - i,
    {
        assert(methods[i as int] == qualified(kinds@[i as int]@, method@));
        match resolve_symbol(profile, cat3(kinds[i].as_str(), ".", method).as_str()) {
            Some((other, _)) => {
                if !same_text(other.as_str(), id.as_str()) {
                    return false;
                }
            },
            None => {
                return false;
            },
        }
        i += 1;
    }
    true
}

/// The report for a getter chained on a builder.
pub open spec fn getter_report(
    context: RuleContext<'_>,
    scene: SceneLifecycle,
    site: AllocationSite,
    method: Seq<char>,
) -> DiagnosticView {
    basic_report(
        mlc124(),
        context,
        site.file,
        site.spec_range(),
        "`"@ + slice_in(*context.sources, site.file, site.spec_range()) + "."@ + method + GETTER@
            + method + GETTER_END@,
        GETTER_WHY@,
        EvidenceView::empty().insert("method"@, JsonView::Text(method)).insert(
            "scene"@,
            JsonView::Text(scene.qualified_name@),
        ),
    )
}

fn non_mutating_diagnostic(
    context: &RuleContext<'_>,
    scene: &SceneLifecycle,
    site: AllocationSite,
    method: &str,
) -> (diagnostic: Diagnostic)
    ensures
        diagnostic@ == getter_report(*context, *scene, site, method@),
{
    let text: String = context.sources.slice(site.file, site.range());
    let mut evidence = Evidence::new();
    evidence.insert("method", json_text(method));
    evidence.insert("scene", json_text(scene.qualified_name.as_str()));
    build_diagnostic(
        MLC124(),
        context,
        site.file,
        site.range(),
        cat7("`", text.as_str(), ".", method, GETTER, method, GETTER_END),
        GETTER_WHY,
        evidence,
    )
}

/// Classes the target of a builder can have, when known.
pub open spec fn target_kinds(scene: SceneLifecycle, builder: AnimateBuilderFact) -> Option<
    Seq<Seq<char>>,
> {
    match builder.target {
        Some(target) => match scene.final_heap.spec_object(target) {
            Some(state) => match state.kind {
                KindSet::Known(kinds) => Some(texts(kinds@)),
                KindSet::Unknown => None,
            },
            None => None,
        },
        None => None,
    }
}

/// Candidates of the methods of a builder.
pub open spec fn getter_methods(
    context: RuleContext<'_>,
    profile: KnowledgeProfile,
    scene: SceneLifecycle,
    builder: AnimateBuilderFact,
    kinds: Seq<Seq<char>>,
) -> spec_fn(int) -> Seq<CandidateView> {
    |m: int|
        if only_returns(profile, kinds, builder.methods@[m]@) {
            seq![
                (
                    named_key(builder.site, builder.methods@[m]@),
                    Some(getter_report(context, scene, builder.site, builder.methods@[m]@)),
                ),
            ]
        } else {
            Seq::empty()
        }
}

/// The candidates of the builder at `k`.
pub open spec fn getters_of(context: RuleContext<'_>, scene: SceneLifecycle, k: int) -> Seq<
    CandidateView,
> {
    let builder = scene.builders@[k];
    match (context.knowledge, target_kinds(scene, builder)) {
        (Some(profile), Some(kinds)) => gather(
            builder.methods@.len() as int,
            getter_methods(context, *profile, scene, builder, kinds),
        ),
        _ => Seq::empty(),
    }
}

fn getters_check(context: &RuleContext<'_>, scene: &SceneLifecycle, k: usize) -> (candidates: Vec<
    Candidate,
>)
    requires
        k < scene.builders@.len(),
    ensures
        candidate_views(candidates@) == getters_of(*context, *scene, k as int),
{
    let builder = &scene.builders[k];
    let mut candidates: Vec<Candidate> = Vec::new();
    assert(candidate_views(candidates@) =~= Seq::empty());
    let profile = match context.knowledge {
        Some(profile) => profile,
        None => {
            return candidates;
        },
    };
    let target: ObjectId = match builder.target {
        Some(target) => target,
        None => {
            return candidates;
        },
    };
    let state = match scene.final_heap.object(&target) {
        Some(state) => state,
        None => {
            return candidates;
        },
    };
    if let KindSet::Known(kinds) = &state.kind {
        let ghost listed = texts(kinds@);
        let mut m: usize = 0;
        while m < builder.methods.len()
            invariant
                m <= builder.methods@.len(),
                listed == texts(kinds@),
                candidate_views(candidates@) == gather(
                    m as int,
                    getter_methods(*context, *profile, *scene, *builder, listed),
                ),
            decreases builder.methods@.len() - m,
        {
            let method: &str = builder.methods[m].as_str();
            let item: Option<Candidate> = if non_mutating_for_all(profile, kinds, method) {
                Some(
                    Candidate {
                        key: site_name(builder.site, method),
                        diagnostic: Some(
                            non_mutating_diagnostic(context, scene, builder.site, method),
                        ),
                    },
                )
            } else {
                None
            };
            offer_found(&mut candidates, item);
            m += 1;
        }
    }
    candidates
}

/// The candidates of a scene, in the order of its builders.
pub open spec fn getters_items(context: RuleContext<'_>, scene: SceneLifecycle) -> spec_fn(
    int,
) -> Seq<CandidateView> {
    |k: int| getters_of(context, scene, k)
}

/// The candidates of the scene at `i`.
pub open spec fn getters_at(context: RuleContext<'_>, i: int) -> Seq<CandidateView> {
    let scene = context.lifecycle_facts.scenes@[i];
    gather(scene.builders@.len() as int, getters_items(context, scene))
}

fn getters(context: &RuleContext<'_>, i: usize) -> (candidates: Vec<Candidate>)
    requires
        i < context.lifecycle_facts.scenes@.len(),
    ensures
        candidate_views(candidates@) == getters_at(*context, i as int),
{
    let scene = &context.lifecycle_facts.scenes[i];
    let mut candidates: Vec<Candidate> = Vec::new();
    let mut k: usize = 0;
    assert(candidate_views(candidates@) =~= Seq::empty());
    while k < scene.builders.len()
        invariant
            k <= scene.builders@.len(),
            candidate_views(candidates@) == gather(k as int, getters_items(*context, *scene)),
        decreases scene.builders@.len() - k,
    {
        offer_all(&mut candidates, getters_check(context, scene, k));
        k += 1;
    }
    candidates
}

/// Candidates of [`NonMutatingAnimateMethod`], scene by scene.
pub open spec fn getters_finder(context: RuleContext<'_>) -> spec_fn(int) -> Seq<CandidateView> {
    |i: int| getters_at(context, i)
}

impl Rule for NonMutatingAnimateMethod {
    open spec fn declared(&self) -> MetadataView {
        mlc124()
    }

    open spec fn findings(&self, context: RuleContext<'_>) -> Seq<DiagnosticView> {
        kept(gather(context.lifecycle_facts.scenes@.len() as int, getters_finder(context)))
    }

    fn metadata(&self) -> (metadata: &'static RuleMetadata) {
        MLC124()
    }

    fn run(&self, context: &RuleContext<'_>) -> (diagnostics: Vec<Diagnostic>) {
        let scenes = &context.lifecycle_facts.scenes;
        let mut candidates: Vec<Candidate> = Vec::new();
        let mut i: usize = 0;
        assert(candidate_views(candidates@) =~= Seq::empty());
        while i < scenes.len()
            invariant
                i <= scenes@.len(),
                scenes@ == context.lifecycle_facts.scenes@,
                candidate_views(candidates@) == gather(i as int, getters_finder(*context)),
            decreases scenes@.len() - i,
        {
            offer_all(&mut candidates, getters(context, i));
            i += 1;
        }
        keep_first(candidates)
    }
}

} // verus!
