//! Scene / family structure rules: `MLC110`, `MLC115`, `MLC119`.
//!
//! All three read the lifecycle event trace: `Mobject.add` rejects
//! self-addition and family traversal loops forever on a parent cycle
//! (`MLC110`); `Scene.remove(child)` restructures only the scene root list,
//! so re-adding a surviving parent makes the child reappear (`MLC115`); and
//! `Scene.replace(old, new)` raises when `old` is not in the scene family
//! (`MLC119`).
use super::support::{
    all_conclusive_mobjects, all_sure_mobjects, candidates_value, candidates_view,
    conclusive_receiver, receiver_conclusive, target_of, targets, SCENE_REPLACE,
};
use crate::diagnostic::{
    push_found, report_of, reports, Confidence, Diagnostic, DiagnosticView, MetadataView,
    RuleMetadata, Severity,
};
use crate::frontend::{ArgShape, CallArgument, MethodRecord, QualifiedCall, ReceiverKind};
use crate::graph::{
    acyclic, child_step, fewer_links_stay_acyclic, harmless_link_stays_acyclic,
    left_links_were_there, purge_links, reachable, reaches, without, Link,
};
use crate::json::{json_size, json_text, Evidence, EvidenceView, JsonView};
use crate::knowledge::KnowledgeProfile;
use crate::rules::base::{
    add_related, basic_report, build_diagnostic, related_at, related_site, with_related, Rule,
    RuleContext,
};
use crate::rules::dedupe::{
    candidate_view, candidate_views, keep_first, kept, key_of, offer_all, offer_found, pair_key,
    site_key, site_pair, Candidate, CandidateView,
};
use crate::semantic::{
    any_definitely_same, targets_same, Cardinality, Event, HeapEntry, KindSet, MutationKind,
    ObjectId, Presence, SceneLifecycle, SceneRemovalFact, StateSnapshot, TracedEvent,
};
use crate::source::{slice_in, AllocationSite, TextRange};
use crate::text::{cat3, found, gather, has_text, same_text, texts};
use vstd::prelude::*;

verus! {

// ---------------------------------------------------------------------------
// MLC110: self-addition and proven parent cycles.
// ---------------------------------------------------------------------------

/// What [`MLC110`] declares.
pub open spec fn mlc110() -> MetadataView {
    MetadataView {
        id: "MLC110"@,
        summary: "Mobject.add(self) or a proven parent cycle"@,
        default_enabled: true,
        default_severity: Severity::Error,
        minimum_confidence: Confidence::Certain,
        implementation_phase: 2,
        required_profiles: seq![],
        required_capabilities: seq!["lifecycle"@],
        supersedes: seq![],
    }
}

/// Metadata of rule `MLC110`.
#[allow(non_snake_case)]
pub fn MLC110() -> (metadata: &'static RuleMetadata)
    ensures
        metadata@ == mlc110(),
{
    let metadata: &'static RuleMetadata = &RuleMetadata {
        id: "MLC110",
        summary: "Mobject.add(self) or a proven parent cycle",
        default_enabled: true,
        default_severity: Severity::Error,
        minimum_confidence: Confidence::Certain,
        implementation_phase: 2,
        required_profiles: &[],
        required_capabilities: &["lifecycle"],
        supersedes: &[],
    };
    assert(metadata@ =~= mlc110());
    metadata
}

/// `mob.add(mob)` (runtime `ValueError`) or an `add` that provably closes a
/// parent cycle (infinite family recursion).
pub struct SelfOrCyclicChild;

pub const SELF_ADD_END: &'static str = "` adds a mobject to itself; `Mobject.add` rejects direct \
    self-addition with `ValueError` at run time.";

pub const SELF_ADD_WHY: &'static str = "`Mobject.add` validates its children and raises `ValueError` when a mobject \
    is added as its own submobject (mobject.py `Mobject.add`, DESIGN §3.4).";

pub const CYCLE_END: &'static str = "` closes a parent cycle: the child already contains this parent \
    through its submobjects, so family traversal recurses forever at \
    render time.";

pub const CYCLE_WHY: &'static str = "Manim expands the mobject family recursively through `submobjects` \
    (mobject.py `get_family`); a cycle in the parent/child graph makes that \
    traversal (and rendering) recurse without end (DESIGN §3.4).";

/// The links that touch none of the objects.
pub open spec fn without_all(links: Seq<Link>, objects: Seq<ObjectId>) -> Seq<Link>
    decreases objects.len(),
{
    if objects.len() == 0 {
        links
    } else {
        without(without_all(links, objects.drop_last()), objects.last())
    }
}

fn purge_all(links: Vec<Link>, objects: &Vec<ObjectId>) -> (left: Vec<Link>)
    ensures
        left@ == without_all(links@, objects@),
{
    let mut left: Vec<Link> = links;
    let mut i: usize = 0;
    assert(objects@.take(0) =~= Seq::empty());
    while i < objects.len()
        invariant
            i <= objects@.len(),
            left@ == without_all(links@, objects@.take(i as int)),
        decreases objects@.len() - i,
    {
        assert(objects@.take(i + 1).drop_last() =~= objects@.take(i as int));
        left = purge_links(&left, objects[i]);
        i += 1;
    }
    assert(objects@.take(i as int) =~= objects@);
    left
}

/// Whether an added child is a definite link.
pub open spec fn definite_link(traced: TracedEvent, parent: ObjectId, child: ObjectId) -> bool {
    parent != child && traced.certainty == Presence::Present && parent.cardinality
        == Cardinality::Singleton && child.cardinality == Cardinality::Singleton
}

/// Definite links after the first `n` events. A link that would close a
/// cycle is not taken.
pub open spec fn links_after(events: Seq<TracedEvent>, n: int) -> Seq<Link>
    decreases n,
{
    if n <= 0 {
        Seq::empty()
    } else {
        let links = links_after(events, n - 1);
        let traced = events[n - 1];
        match traced.event {
            Event::AddChild { parent, child } => if definite_link(traced, parent, child)
                && !reachable(child_step(links), child, parent) {
                links.push(Link { parent, child })
            } else {
                links
            },
            Event::Mutate { target, kind } => if kind == MutationKind::Membership {
                without(links, target)
            } else {
                links
            },
            Event::UnknownMutation { values } => without_all(links, values@),
            _ => links,
        }
    }
}

proof fn without_all_stays_acyclic(links: Seq<Link>, objects: Seq<ObjectId>)
    requires
        acyclic(links),
    ensures
        acyclic(without_all(links, objects)),
    decreases objects.len(),
{
    if objects.len() > 0 {
        let before = without_all(links, objects.drop_last());
        without_all_stays_acyclic(links, objects.drop_last());
        left_links_were_there(before, objects.last());
        fewer_links_stay_acyclic(before, without(before, objects.last()));
    }
}

/// The definite links never have a cycle: an added child that would close
/// one is reported and not taken.
pub proof fn links_stay_acyclic(events: Seq<TracedEvent>, n: int)
    ensures
        acyclic(links_after(events, n)),
    decreases n,
{
    if n > 0 {
        let links = links_after(events, n - 1);
        links_stay_acyclic(events, n - 1);
        match events[n - 1].event {
            Event::AddChild { parent, child } => {
                if !reachable(child_step(links), child, parent) {
                    harmless_link_stays_acyclic(links, parent, child);
                }
            },
            Event::Mutate { target, .. } => {
                left_links_were_there(links, target);
                fewer_links_stay_acyclic(links, without(links, target));
            },
            Event::UnknownMutation { values } => without_all_stays_acyclic(links, values@),
            _ => {},
        }
    }
}

/// The report for an event that adds a child.
pub open spec fn add_report(
    context: RuleContext<'_>,
    scene: SceneLifecycle,
    site: AllocationSite,
    kind: Seq<char>,
    message_end: Seq<char>,
    explanation: Seq<char>,
) -> DiagnosticView {
    basic_report(
        mlc110(),
        context,
        site.file,
        site.spec_range(),
        "`"@ + slice_in(*context.sources, site.file, site.spec_range()) + message_end,
        explanation,
        EvidenceView::empty().insert("kind"@, JsonView::Text(kind)).insert(
            "scene"@,
            JsonView::Text(scene.qualified_name@),
        ),
    )
}

fn add_diagnostic(
    context: &RuleContext<'_>,
    scene: &SceneLifecycle,
    site: AllocationSite,
    kind: &str,
    message_end: &str,
    explanation: &str,
) -> (diagnostic: Diagnostic)
    ensures
        diagnostic@ == add_report(
            *context,
            *scene,
            site,
            kind@,
            message_end@,
            explanation@,
        ),
{
    let text: String = context.sources.slice(site.file, site.range());
    let mut evidence = Evidence::new();
    evidence.insert("kind", json_text(kind));
    evidence.insert("scene", json_text(scene.qualified_name.as_str()));
    build_diagnostic(
        MLC110(),
        context,
        site.file,
        site.range(),
        cat3("`", text.as_str(), message_end),
        explanation,
        evidence,
    )
}

/// The candidate of the event at `k`.
pub open spec fn cyclic_of(context: RuleContext<'_>, scene: SceneLifecycle, k: int) -> Option<
    CandidateView,
> {
    let traced = scene.events@[k];
    match traced.event {
        Event::AddChild { parent, child } => if parent == child {
            Some(
                (
                    key_of(traced.site),
                    Some(
                        add_report(
                            context,
                            scene,
                            traced.site,
                            "self-add"@,
                            SELF_ADD_END@,
                            SELF_ADD_WHY@,
                        ),
                    ),
                ),
            )
        } else if definite_link(traced, parent, child) && reachable(
            child_step(links_after(scene.events@, k)),
            child,
            parent,
        ) {
            Some(
                (
                    key_of(traced.site),
                    Some(
                        add_report(
                            context,
                            scene,
                            traced.site,
                            "parent-cycle"@,
                            CYCLE_END@,
                            CYCLE_WHY@,
                        ),
                    ),
                ),
            )
        } else {
            None
        },
        _ => None,
    }
}

/// Candidates of a scene, event by event.
pub open spec fn cyclic_items(context: RuleContext<'_>, scene: SceneLifecycle) -> spec_fn(
    int,
) -> Seq<CandidateView> {
    |k: int| found(cyclic_of(context, scene, k))
}

/// The candidates of the scene at `i`.
pub open spec fn cyclic_at(context: RuleContext<'_>, i: int) -> Seq<CandidateView> {
    let scene = context.lifecycle_facts.scenes@[i];
    gather(scene.events@.len() as int, cyclic_items(context, scene))
}

fn cyclic(context: &RuleContext<'_>, i: usize) -> (candidates: Vec<Candidate>)
    requires
        i < context.lifecycle_facts.scenes@.len(),
    ensures
        candidate_views(candidates@) == cyclic_at(*context, i as int),
{
    let scene = &context.lifecycle_facts.scenes[i];
    let mut candidates: Vec<Candidate> = Vec::new();
    let mut links: Vec<Link> = Vec::new();
    let mut k: usize = 0;
    assert(candidate_views(candidates@) =~= Seq::empty());
    while k < scene.events.len()
        invariant
            k <= scene.events@.len(),
            links@ == links_after(scene.events@, k as int),
            candidate_views(candidates@) == gather(k as int, cyclic_items(*context, *scene)),
        decreases scene.events@.len() - k,
    {
        let traced = &scene.events[k];
        let mut checked: Option<Candidate> = None;
        match &traced.event {
            Event::AddChild { parent, child } => {
                if *parent == *child {
                    checked = Some(
                        Candidate {
                            key: site_key(traced.site),
                            diagnostic: Some(
                                add_diagnostic(
                                    context,
                                    scene,
                                    traced.site,
                                    "self-add",
                                    SELF_ADD_END,
                                    SELF_ADD_WHY,
                                ),
                            ),
                        },
                    );
                } else if traced.certainty == Presence::Present && parent.cardinality
                    == Cardinality::Singleton && child.cardinality == Cardinality::Singleton {
                    if reaches(&links, *child, *parent) {
                        checked = Some(
                            Candidate {
                                key: site_key(traced.site),
                                diagnostic: Some(
                                    add_diagnostic(
                                        context,
                                        scene,
                                        traced.site,
                                        "parent-cycle",
                                        CYCLE_END,
                                        CYCLE_WHY,
                                    ),
                                ),
                            },
                        );
                    } else {
                        links.push(Link { parent: *parent, child: *child });
                    }
                }
            },
            Event::Mutate { target, kind } => {
                if *kind == MutationKind::Membership {
                    links = purge_links(&links, *target);
                }
            },
            Event::UnknownMutation { values } => {
                links = purge_all(links, values);
            },
            _ => {},
        }
        offer_found(&mut candidates, checked);
        k += 1;
    }
    candidates
}

/// Candidates of [`SelfOrCyclicChild`], scene by scene.
pub open spec fn cyclic_finder(context: RuleContext<'_>) -> spec_fn(int) -> Seq<CandidateView> {
    |i: int| cyclic_at(context, i)
}

impl Rule for SelfOrCyclicChild {
    open spec fn declared(&self) -> MetadataView {
        mlc110()
    }

    open spec fn findings(&self, context: RuleContext<'_>) -> Seq<DiagnosticView> {
        kept(gather(context.lifecycle_facts.scenes@.len() as int, cyclic_finder(context)))
    }

    fn metadata(&self) -> (metadata: &'static RuleMetadata) {
        MLC110()
    }

    fn run(&self, context: &RuleContext<'_>) -> (diagnostics: Vec<Diagnostic>) {
        let scenes = &context.lifecycle_facts.scenes;
        let mut candidates: Vec<Candidate> = Vec::new();
        let mut i: usize = 0;
        assert(candidate_views(candidates@) =~= Seq::empty());
        while i < scenes.len()
            invariant
                i <= scenes@.len(),
                scenes@ == context.lifecycle_facts.scenes@,
                candidate_views(candidates@) == gather(i as int, cyclic_finder(*context)),
            decreases scenes@.len() - i,
        {
            offer_all(&mut candidates, cyclic(context, i));
            i += 1;
        }
        keep_first(candidates)
    }
}

// ---------------------------------------------------------------------------
// MLC115: removed child reappears through a surviving parent.
// ---------------------------------------------------------------------------

/// What [`MLC115`] declares.
pub open spec fn mlc115() -> MetadataView {
    MetadataView {
        id: "MLC115"@,
        summary: "Scene.remove(child) is undone by re-adding the surviving parent"@,
        default_enabled: true,
        default_severity: Severity::Warning,
        minimum_confidence: Confidence::High,
        implementation_phase: 2,
        required_profiles: seq![],
        required_capabilities: seq!["lifecycle"@],
        supersedes: seq![],
    }
}

/// Metadata of rule `MLC115`.
#[allow(non_snake_case)]
pub fn MLC115() -> (metadata: &'static RuleMetadata)
    ensures
        metadata@ == mlc115(),
{
    let metadata: &'static RuleMetadata = &RuleMetadata {
        id: "MLC115",
        summary: "Scene.remove(child) is undone by re-adding the surviving parent",
        default_enabled: true,
        default_severity: Severity::Warning,
        minimum_confidence: Confidence::High,
        implementation_phase: 2,
        required_profiles: &[],
        required_capabilities: &["lifecycle"],
        supersedes: &[],
    };
    assert(metadata@ =~= mlc115());
    metadata
}

/// `Scene.remove(child)` whose child stays in a parent's `submobjects`,
/// followed by a definite re-add of that parent.
pub struct RemovedChildReappears;

pub const REAPPEARS_END: &'static str = "` removes the child from the scene root list only; its parent \
    still holds it in `submobjects` and is re-added (or animated) later, so \
    the child reappears. Remove it from the parent too \
    (`parent.remove(child)`) if the removal should be permanent.";

pub const REAPPEARS_WHY: &'static str = "`Scene.remove(child)` restructures the scene's root list: a parent group \
    containing the child dissolves into its other children, but the parent's \
    own `submobjects` list is not edited (scene.py `restructure_mobjects`, \
    DESIGN §3.4). Re-adding or animating the parent later shows the whole \
    family again — including the removed child.";

pub const REAPPEARS_HERE: &'static str = "the surviving parent returns to the scene here, and the removed \
    child with it";

/// Index of the first scene removal at `site`, from `i` on.
pub open spec fn scene_removal_at(events: Seq<TracedEvent>, site: AllocationSite, i: int) -> Option<
    int,
>
    decreases events.len() - i,
{
    if i < 0 || i >= events.len() {
        None
    } else if events[i].site == site && events[i].event is SceneRemove {
        Some(i)
    } else {
        scene_removal_at(events, site, i + 1)
    }
}

fn find_scene_removal(events: &Vec<TracedEvent>, site: AllocationSite) -> (index: Option<usize>)
    ensures
        match index {
            Some(found) => scene_removal_at(events@, site, 0) == Some(found as int) && found
                < events@.len(),
            None => scene_removal_at(events@, site, 0) is None,
        },
{
    let mut i: usize = 0;
    while i < events.len()
        invariant
            i <= events@.len(),
            scene_removal_at(events@, site, 0) == scene_removal_at(events@, site, i as int),
        decreases events@.len() - i,
    {
        if events[i].site == site {
            if let Event::SceneRemove = &events[i].event {
                return Some(i);
            }
        }
        i += 1;
    }
    None
}

/// Site of the first event, from `i` on, that definitely re-adds `parent`
/// while the parent link is intact. A membership mutation of the parent or
/// the child, an unresolved call on the parent, an explicit re-add of the
/// child, or a re-add on some paths only ends the search.
pub open spec fn readd_from(
    events: Seq<TracedEvent>,
    parent: ObjectId,
    removed: ObjectId,
    i: int,
) -> Option<AllocationSite>
    decreases events.len() - i,
{
    if i < 0 || i >= events.len() {
        None
    } else {
        match events[i].event {
            Event::Mutate { target, kind } => if kind == MutationKind::Membership && (target.same(
                parent,
            ) || target.same(removed)) {
                None
            } else {
                readd_from(events, parent, removed, i + 1)
            },
            Event::UnknownMutation { values } => if targets_same(values@, parent) {
                None
            } else {
                readd_from(events, parent, removed, i + 1)
            },
            Event::SceneAdd { objects } => if targets_same(objects@, removed) {
                None
            } else if targets_same(objects@, parent) {
                if events[i].certainty == Presence::Present {
                    Some(events[i].site)
                } else {
                    None
                }
            } else {
                readd_from(events, parent, removed, i + 1)
            },
            _ => readd_from(events, parent, removed, i + 1),
        }
    }
}

/// The first event after `removal_index` that definitely re-adds `parent`
/// to the scene while the parent link is still intact.
fn first_definite_readd(
    scene: &SceneLifecycle,
    removal_index: usize,
    parent: &ObjectId,
    removed: &ObjectId,
) -> (site: Option<AllocationSite>)
    requires
        removal_index < scene.events@.len(),
    ensures
        site == readd_from(scene.events@, *parent, *removed, removal_index + 1),
{
    let events = &scene.events;
    assert(removal_index < events.len());
    let mut i: usize = removal_index + 1;
    while i < events.len()
        invariant
            i <= events@.len(),
            events@ == scene.events@,
            readd_from(events@, *parent, *removed, removal_index + 1) == readd_from(
                events@,
                *parent,
                *removed,
                i as int,
            ),
        decreases events@.len() - i,
    {
        let traced = &events[i];
        match &traced.event {
            Event::Mutate { target, kind } => {
                if *kind == MutationKind::Membership && (target.definitely_same(parent)
                    || target.definitely_same(removed)) {
                    return None;
                }
            },
            Event::UnknownMutation { values } => {
                if any_definitely_same(values, parent) {
                    return None;
                }
            },
            Event::SceneAdd { objects } => {
                if any_definitely_same(objects, removed) {
                    // The child was brought back explicitly.
                    return None;
                }
                if any_definitely_same(objects, parent) {
                    if traced.certainty == Presence::Present {
                        return Some(traced.site);
                    }
                    // A branch-dependent re-add is not a definite
                    // reappearance: stay silent.
                    return None;
                }
            },
            _ => {},
        }
        i += 1;
    }
    None
}

/// The report for a removal that a re-add undoes.
pub open spec fn reappearance_report(
    context: RuleContext<'_>,
    scene: SceneLifecycle,
    removal: SceneRemovalFact,
    readd: AllocationSite,
) -> DiagnosticView {
    with_related(
        basic_report(
            mlc115(),
            context,
            removal.site.file,
            removal.site.spec_range(),
            "`"@ + slice_in(*context.sources, removal.site.file, removal.site.spec_range())
                + REAPPEARS_END@,
            REAPPEARS_WHY@,
            EvidenceView::empty().insert("scene"@, JsonView::Text(scene.qualified_name@)).insert(
                "surviving_parents"@,
                JsonView::Whole(removal.surviving_parents@.len() as int),
            ),
        ),
        related_at(context, readd, REAPPEARS_HERE@),
    )
}

fn reappearance_diagnostic(
    context: &RuleContext<'_>,
    scene: &SceneLifecycle,
    removal: &SceneRemovalFact,
    readd: AllocationSite,
) -> (diagnostic: Diagnostic)
    ensures
        diagnostic@ == reappearance_report(*context, *scene, *removal, readd),
{
    let text: String = context.sources.slice(removal.site.file, removal.site.range());
    let mut evidence = Evidence::new();
    evidence.insert("scene", json_text(scene.qualified_name.as_str()));
    evidence.insert("surviving_parents", json_size(removal.surviving_parents.len()));
    let mut diagnostic = build_diagnostic(
        MLC115(),
        context,
        removal.site.file,
        removal.site.range(),
        cat3("`", text.as_str(), REAPPEARS_END),
        REAPPEARS_WHY,
        evidence,
    );
    add_related(&mut diagnostic, related_site(context, readd, REAPPEARS_HERE.to_owned()));
    diagnostic
}

/// The candidate of one surviving parent of a removal.
pub open spec fn reappearance_of(
    context: RuleContext<'_>,
    scene: SceneLifecycle,
    removal: SceneRemovalFact,
    index: usize,
    parent: ObjectId,
) -> Option<CandidateView> {
    match readd_from(scene.events@, parent, removal.removed, index + 1) {
        Some(readd) => if parent.cardinality == Cardinality::Singleton {
            Some(
                (
                    pair_key(removal.site, readd),
                    Some(reappearance_report(context, scene, removal, readd)),
                ),
            )
        } else {
            None
        },
        None => None,
    }
}

fn reappearance_check(
    context: &RuleContext<'_>,
    scene: &SceneLifecycle,
    removal: &SceneRemovalFact,
    index: usize,
    parent: &ObjectId,
) -> (candidate: Option<Candidate>)
    requires
        index < scene.events@.len(),
    ensures
        match candidate {
            Some(found) => reappearance_of(*context, *scene, *removal, index, *parent) == Some(
                candidate_view(found),
            ),
            None => reappearance_of(*context, *scene, *removal, index, *parent) is None,
        },
{
    if parent.cardinality != Cardinality::Singleton {
        return None;
    }
    match first_definite_readd(scene, index, parent, &removal.removed) {
        Some(readd) => Some(
            Candidate {
                key: site_pair(removal.site, readd),
                diagnostic: Some(reappearance_diagnostic(context, scene, removal, readd)),
            },
        ),
        None => None,
    }
}

/// Candidates of the surviving parents of a removal.
pub open spec fn parent_parts(
    context: RuleContext<'_>,
    scene: SceneLifecycle,
    removal: SceneRemovalFact,
    index: usize,
) -> spec_fn(int) -> Seq<CandidateView> {
    |p: int|
        found(
            reappearance_of(context, scene, removal, index, removal.surviving_parents@[p]),
        )
}

/// The candidates of the removal at `k`.
pub open spec fn reappears_of(context: RuleContext<'_>, scene: SceneLifecycle, k: int) -> Seq<
    CandidateView,
> {
    let removal = scene.scene_removals@[k];
    match scene_removal_at(scene.events@, removal.site, 0) {
        Some(index) => if removal.certainty == Presence::Present && removal.removed.cardinality
            == Cardinality::Singleton {
            gather(
                removal.surviving_parents@.len() as int,
                parent_parts(context, scene, removal, index as usize),
            )
        } else {
            Seq::empty()
        },
        None => Seq::empty(),
    }
}

fn reappears_check(context: &RuleContext<'_>, scene: &SceneLifecycle, k: usize) -> (candidates: Vec<
    Candidate,
>)
    requires
        k < scene.scene_removals@.len(),
    ensures
        candidate_views(candidates@) == reappears_of(*context, *scene, k as int),
{
    let removal = &scene.scene_removals[k];
    let mut candidates: Vec<Candidate> = Vec::new();
    assert(candidate_views(candidates@) =~= Seq::empty());
    if removal.certainty != Presence::Present || removal.removed.cardinality
        != Cardinality::Singleton {
        return candidates;
    }
    let index: usize = match find_scene_removal(&scene.events, removal.site) {
        Some(index) => index,
        None => {
            return candidates;
        },
    };
    let mut p: usize = 0;
    while p < removal.surviving_parents.len()
        invariant
            p <= removal.surviving_parents@.len(),
            index < scene.events@.len(),
            candidate_views(candidates@) == gather(
                p as int,
                parent_parts(*context, *scene, *removal, index),
            ),
        decreases removal.surviving_parents@.len() - p,
    {
        offer_found(
            &mut candidates,
            reappearance_check(context, scene, removal, index, &removal.surviving_parents[p]),
        );
        p += 1;
    }
    candidates
}

/// The candidates of a scene, in the order of its scene removals.
pub open spec fn reappears_items(context: RuleContext<'_>, scene: SceneLifecycle) -> spec_fn(
    int,
) -> Seq<CandidateView> {
    |k: int| reappears_of(context, scene, k)
}

/// The candidates of the scene at `i`.
pub open spec fn reappears_at(context: RuleContext<'_>, i: int) -> Seq<CandidateView> {
    let scene = context.lifecycle_facts.scenes@[i];
    gather(scene.scene_removals@.len() as int, reappears_items(context, scene))
}

fn reappears(context: &RuleContext<'_>, i: usize) -> (candidates: Vec<Candidate>)
    requires
        i < context.lifecycle_facts.scenes@.len(),
    ensures
        candidate_views(candidates@) == reappears_at(*context, i as int),
{
    let scene = &context.lifecycle_facts.scenes[i];
    let mut candidates: Vec<Candidate> = Vec::new();
    let mut k: usize = 0;
    assert(candidate_views(candidates@) =~= Seq::empty());
    while k < scene.scene_removals.len()
        invariant
            k <= scene.scene_removals@.len(),
            candidate_views(candidates@) == gather(k as int, reappears_items(*context, *scene)),
        decreases scene.scene_removals@.len() - k,
    {
        offer_all(&mut candidates, reappears_check(context, scene, k));
        k += 1;
    }
    candidates
}

/// Candidates of [`RemovedChildReappears`], scene by scene.
pub open spec fn reappears_finder(context: RuleContext<'_>) -> spec_fn(int) -> Seq<CandidateView> {
    |i: int| reappears_at(context, i)
}

impl Rule for RemovedChildReappears {
    open spec fn declared(&self) -> MetadataView {
        mlc115()
    }

    open spec fn findings(&self, context: RuleContext<'_>) -> Seq<DiagnosticView> {
        kept(gather(context.lifecycle_facts.scenes@.len() as int, reappears_finder(context)))
    }

    fn metadata(&self) -> (metadata: &'static RuleMetadata) {
        MLC115()
    }

    fn run(&self, context: &RuleContext<'_>) -> (diagnostics: Vec<Diagnostic>) {
        let scenes = &context.lifecycle_facts.scenes;
        let mut candidates: Vec<Candidate> = Vec::new();
        let mut i: usize = 0;
        assert(candidate_views(candidates@) =~= Seq::empty());
        while i < scenes.len()
            invariant
                i <= scenes@.len(),
                scenes@ == context.lifecycle_facts.scenes@,
                candidate_views(candidates@) == gather(i as int, reappears_finder(*context)),
            decreases scenes@.len() - i,
        {
            offer_all(&mut candidates, reappears(context, i));
            i += 1;
        }
        keep_first(candidates)
    }
}

// ---------------------------------------------------------------------------
// MLC119: Scene.replace with old definitely outside the scene family.
// ---------------------------------------------------------------------------

/// What [`MLC119`] declares.
pub open spec fn mlc119() -> MetadataView {
    MetadataView {
        id: "MLC119"@,
        summary: "Scene.replace(old, new) with old definitely not in the scene"@,
        default_enabled: true,
        default_severity: Severity::Error,
        minimum_confidence: Confidence::High,
        implementation_phase: 2,
        required_profiles: seq![],
        required_capabilities: seq!["qualified-calls"@, "lifecycle"@],
        supersedes: seq![],
    }
}

/// Metadata of rule `MLC119`.
#[allow(non_snake_case)]
pub fn MLC119() -> (metadata: &'static RuleMetadata)
    ensures
        metadata@ == mlc119(),
{
    let metadata: &'static RuleMetadata = &RuleMetadata {
        id: "MLC119",
        summary: "Scene.replace(old, new) with old definitely not in the scene",
        default_enabled: true,
        default_severity: Severity::Error,
        minimum_confidence: Confidence::High,
        implementation_phase: 2,
        required_profiles: &[],
        required_capabilities: &["qualified-calls", "lifecycle"],
        supersedes: &[],
    };
    assert(metadata@ =~= mlc119());
    metadata
}

/// `self.replace(old, new)` where `old` is provably absent from the scene
/// family at the call point.
pub struct ReplaceMissingOld;

pub const REPLACE_END: &'static str = "` is definitely not in the scene family at this point; \
    `Scene.replace(old, new)` requires `old` to be present (directly \
    or inside a parent) and raises `ValueError` otherwise.";

pub const REPLACE_WHY: &'static str = "`Scene.replace` swaps `old` for `new` in place, preserving draw \
    order; it validates that `old` is currently part of the scene \
    family (scene.py `Scene.replace`). Add the mobject first, or use \
    `Scene.add` if the old object was never shown.";

/// Whether a freshly constructed mobject is passed, which can never already
/// be in the scene.
pub open spec fn fresh_construction(
    context: RuleContext<'_>,
    profile: KnowledgeProfile,
    inner: QualifiedCall,
) -> bool {
    inner.candidates@.len() > 0 && conclusive_receiver(context.project_index, inner)
        && all_sure_mobjects(profile, context.project_index, texts(inner.candidates@))
}

fn fresh_construction_verdict(
    context: &RuleContext<'_>,
    profile: &KnowledgeProfile,
    inner: &QualifiedCall,
) -> (fresh: bool)
    ensures
        fresh == fresh_construction(*context, *profile, *inner),
{
    inner.candidates.len() > 0 && receiver_conclusive(inner, &context.project_index)
        && all_conclusive_mobjects(profile, &context.project_index, &inner.candidates)
}

/// Whether a function is one of the lifecycle methods whose statement order
/// matches the snapshot order of a scene run.
pub open spec fn lifecycle_method(function: Seq<char>) -> bool {
    function == "__init__"@ || function == "setup"@ || function == "construct"@ || function
        == "tear_down"@
}

fn is_lifecycle_method(function: &str) -> (is: bool)
    ensures
        is == lifecycle_method(function@),
{
    same_text(function, "__init__") || same_text(function, "setup") || same_text(
        function,
        "construct",
    ) || same_text(function, "tear_down")
}

/// Range of the first method, from `i` on, with this name.
pub open spec fn method_from(methods: Seq<MethodRecord>, name: Seq<char>, i: int) -> Option<
    TextRange,
>
    decreases methods.len() - i,
{
    if i < 0 || i >= methods.len() {
        None
    } else if methods[i].name@ == name {
        Some(methods[i].range)
    } else {
        method_from(methods, name, i + 1)
    }
}

/// Range of the method with this name.
pub fn find_method(methods: &Vec<MethodRecord>, name: &str) -> (range: Option<TextRange>)
    ensures
        range == method_from(methods@, name@, 0),
{
    let mut i: usize = 0;
    while i < methods.len()
        invariant
            i <= methods@.len(),
            method_from(methods@, name@, 0) == method_from(methods@, name@, i as int),
        decreases methods@.len() - i,
    {
        if same_text(methods[i].name.as_str(), name) {
            return Some(methods[i].range);
        }
        i += 1;
    }
    None
}

/// Whether a snapshot was taken before the call, inside the method body.
pub open spec fn precedes_call(
    snapshot: StateSnapshot,
    call: QualifiedCall,
    method: TextRange,
) -> bool {
    snapshot.site.file == call.file && snapshot.site.end <= call.call_range.start && method.covers(
        snapshot.site.spec_range(),
    )
}

/// The last of the first `n` snapshots that was taken before the call.
pub open spec fn snapshot_before_call(
    snapshots: Seq<StateSnapshot>,
    call: QualifiedCall,
    method: TextRange,
    n: int,
) -> Option<StateSnapshot>
    decreases n,
{
    if n <= 0 {
        None
    } else if precedes_call(snapshots[n - 1], call, method) {
        Some(snapshots[n - 1])
    } else {
        snapshot_before_call(snapshots, call, method, n - 1)
    }
}

/// The last statement snapshot before the call, restricted to the same
/// lifecycle method body so program order and byte order agree.
fn pre_call_snapshot<'a>(
    scene: &'a SceneLifecycle,
    call: &QualifiedCall,
    method: TextRange,
) -> (snapshot: Option<&'a StateSnapshot>)
    ensures
        match snapshot {
            Some(found) => snapshot_before_call(
                scene.snapshots@,
                *call,
                method,
                scene.snapshots@.len() as int,
            ) == Some(*found),
            None => snapshot_before_call(
                scene.snapshots@,
                *call,
                method,
                scene.snapshots@.len() as int,
            ) is None,
        },
{
    let mut n: usize = scene.snapshots.len();
    while n > 0
        invariant
            n <= scene.snapshots@.len(),
            snapshot_before_call(
                scene.snapshots@,
                *call,
                method,
                scene.snapshots@.len() as int,
            ) == snapshot_before_call(scene.snapshots@, *call, method, n as int),
        decreases n,
    {
        let snapshot = &scene.snapshots[n - 1];
        if snapshot.site.file == call.file && snapshot.site.end <= call.call_range.start
            && method.encloses(snapshot.site.range()) {
            return Some(snapshot);
        }
        n -= 1;
    }
    None
}

/// Whether an object can be an instance of one of the classes.
pub open spec fn may_be_any(kind: KindSet, candidates: Seq<Seq<char>>) -> bool {
    match kind {
        KindSet::Known(kinds) => exists|i: int|
            0 <= i < candidates.len() && texts(kinds@).contains(#[trigger] candidates[i]),
        KindSet::Unknown => candidates.len() > 0,
    }
}

fn kind_may_be_any(kind: &KindSet, candidates: &Vec<String>) -> (may: bool)
    ensures
        may == may_be_any(*kind, texts(candidates@)),
{
    match kind {
        KindSet::Known(kinds) => {
            let mut i: usize = 0;
            while i < candidates.len()
                invariant
                    i <= candidates@.len(),
                    *kind == KindSet::Known(*kinds),
                    forall|j: int|
                        0 <= j < i ==> !texts(kinds@).contains(#[trigger] texts(candidates@)[j]),
                decreases candidates@.len() - i,
            {
                assert(texts(candidates@)[i as int] == candidates@[i as int]@);
                if has_text(kinds, candidates[i].as_str()) {
                    return true;
                }
                i += 1;
            }
            false
        },
        KindSet::Unknown => candidates.len() > 0,
    }
}

/// Whether every object that can be an instance of one of the classes is
/// outside the scene family, and at least one of them is of known class.
pub open spec fn all_absent(objects: Seq<HeapEntry>, candidates: Seq<Seq<char>>) -> bool {
    &&& forall|i: int|
        0 <= i < objects.len() && may_be_any((#[trigger] objects[i]).state.kind, candidates)
            ==> objects[i].state.family_membership == Presence::Absent
    &&& exists|i: int|
        0 <= i < objects.len() && may_be_any((#[trigger] objects[i]).state.kind, candidates)
            && objects[i].state.kind is Known
}

fn are_all_absent(objects: &Vec<HeapEntry>, candidates: &Vec<String>) -> (absent: bool)
    ensures
        absent == all_absent(objects@, texts(candidates@)),
{
    let ghost list = texts(candidates@);
    let mut known: bool = false;
    let mut i: usize = 0;
    while i < objects.len()
        invariant
            i <= objects@.len(),
            list == texts(candidates@),
            forall|j: int|
                0 <= j < i && may_be_any((#[trigger] objects@[j]).state.kind, list)
                    ==> objects@[j].state.family_membership == Presence::Absent,
            known == exists|j: int|
                0 <= j < i && may_be_any((#[trigger] objects@[j]).state.kind, list)
                    && objects@[j].state.kind is Known,
        decreases objects@.len() - i,
    {
        let state = &objects[i].state;
        if kind_may_be_any(&state.kind, candidates) {
            if state.family_membership != Presence::Absent {
                // Some possible referent may be in the scene: no certain
                // claim.
                return false;
            }
            if let KindSet::Known(_) = &state.kind {
                assert(may_be_any(objects@[i as int].state.kind, list));
                known = true;
            }
        }
        i += 1;
    }
    known
}

/// Whether `old` is a name whose every possible tracked instance is
/// definitely outside the scene family in the pre-call snapshot.
pub open spec fn absent_by_kind(
    context: RuleContext<'_>,
    call: QualifiedCall,
    argument: CallArgument,
) -> bool {
    match (call.context.class_name, call.context.function) {
        (Some(class_name), Some(function)) => match (
            context.lifecycle_facts.spec_scene(class_name@),
            context.project_index.spec_class(class_name@),
        ) {
            (Some(scene), Some(record)) => match method_from(record.methods@, function@, 0) {
                Some(method) => match snapshot_before_call(
                    scene.snapshots@,
                    call,
                    method,
                    scene.snapshots@.len() as int,
                ) {
                    Some(snapshot) => argument.kind_candidates@.len() > 0 && lifecycle_method(
                        function@,
                    ) && !scene.constructor_state_unknown && all_absent(
                        snapshot.heap.objects@,
                        texts(argument.kind_candidates@),
                    ),
                    None => false,
                },
                None => false,
            },
            _ => false,
        },
        _ => false,
    }
}

fn absent_by_kind_verdict(
    context: &RuleContext<'_>,
    call: &QualifiedCall,
    argument: &CallArgument,
) -> (absent: bool)
    ensures
        absent == absent_by_kind(*context, *call, *argument),
{
    if argument.kind_candidates.len() == 0 {
        return false;
    }
    let class_name: &String = match &call.context.class_name {
        Some(name) => name,
        None => {
            return false;
        },
    };
    let function: &String = match &call.context.function {
        Some(function) => function,
        None => {
            return false;
        },
    };
    if !is_lifecycle_method(function.as_str()) {
        return false;
    }
    let scene = match context.lifecycle_facts.scene(class_name.as_str()) {
        Some(scene) => scene,
        None => {
            return false;
        },
    };
    if scene.constructor_state_unknown {
        return false;
    }
    let record = match context.project_index.class(class_name.as_str()) {
        Some(record) => record,
        None => {
            return false;
        },
    };
    let method: TextRange = match find_method(&record.methods, function.as_str()) {
        Some(range) => range,
        None => {
            return false;
        },
    };
    match pre_call_snapshot(scene, call, method) {
        Some(snapshot) => are_all_absent(&snapshot.heap.objects, &argument.kind_candidates),
        None => false,
    }
}

/// Why `old` is certainly not in the scene.
pub open spec fn absence_proof(
    context: RuleContext<'_>,
    profile: KnowledgeProfile,
    call: QualifiedCall,
    argument: CallArgument,
) -> Option<Seq<char>> {
    match argument.shape {
        ArgShape::Call(inner) => if inner < context.qualified_calls.calls@.len()
            && fresh_construction(
            context,
            profile,
            context.qualified_calls.calls@[inner as int],
        ) {
            Some("fresh-construction"@)
        } else {
            None
        },
        ArgShape::Name => if absent_by_kind(context, call, argument) {
            Some("all-candidates-absent"@)
        } else {
            None
        },
        _ => None,
    }
}

/// The finding for the call at `i`.
pub open spec fn missing_old_at(context: RuleContext<'_>, i: int) -> Option<DiagnosticView> {
    let call = context.qualified_calls.calls@[i];
    match (context.knowledge, call.spec_positional(0)) {
        (Some(profile), Some(argument)) => match absence_proof(
            context,
            *profile,
            call,
            argument,
        ) {
            Some(reason) => if call.receiver is SelfScene && !call.has_star_args && target_of(
                *profile,
                context.project_index,
                call,
            ) == Some(SCENE_REPLACE@) {
                Some(
                    basic_report(
                        mlc119(),
                        context,
                        call.file,
                        argument.range,
                        "`"@ + slice_in(*context.sources, call.file, argument.range)
                            + REPLACE_END@,
                        REPLACE_WHY@,
                        EvidenceView::empty().insert(
                            "resolved"@,
                            JsonView::Text(SCENE_REPLACE@),
                        ).insert("candidates"@, candidates_view(call)).insert(
                            "proof"@,
                            JsonView::Text(reason),
                        ),
                    ),
                )
            } else {
                None
            },
            None => None,
        },
        _ => None,
    }
}

fn missing_old(context: &RuleContext<'_>, i: usize) -> (found: Option<Diagnostic>)
    requires
        i < context.qualified_calls.calls@.len(),
    ensures
        report_of(found) == missing_old_at(*context, i as int),
{
    let call = &context.qualified_calls.calls[i];
    let profile = match context.knowledge {
        Some(profile) => profile,
        None => {
            return None;
        },
    };
    let on_self: bool = match &call.receiver {
        ReceiverKind::SelfScene => true,
        _ => false,
    };
    if !on_self || call.has_star_args || !targets(
        profile,
        &context.project_index,
        call,
        SCENE_REPLACE,
    ) {
        return None;
    }
    let argument = match call.positional(0) {
        Some(argument) => argument,
        None => {
            return None;
        },
    };
    let reason: &'static str = match &argument.shape {
        ArgShape::Call(inner) => {
            if *inner < context.qualified_calls.calls.len() && fresh_construction_verdict(
                context,
                profile,
                &context.qualified_calls.calls[*inner],
            ) {
                "fresh-construction"
            } else {
                return None;
            }
        },
        ArgShape::Name => {
            if absent_by_kind_verdict(context, call, argument) {
                "all-candidates-absent"
            } else {
                return None;
            }
        },
        _ => {
            return None;
        },
    };
    let text: String = context.sources.slice(call.file, argument.range);
    let mut evidence = Evidence::new();
    evidence.insert("resolved", json_text(SCENE_REPLACE));
    evidence.insert("candidates", candidates_value(call));
    evidence.insert("proof", json_text(reason));
    Some(
        build_diagnostic(
            MLC119(),
            context,
            call.file,
            argument.range,
            cat3("`", text.as_str(), REPLACE_END),
            REPLACE_WHY,
            evidence,
        ),
    )
}

/// Findings of [`ReplaceMissingOld`], call by call.
pub open spec fn missing_old_finder(context: RuleContext<'_>) -> spec_fn(int) -> Seq<DiagnosticView> {
    |i: int| found(missing_old_at(context, i))
}

impl Rule for ReplaceMissingOld {
    open spec fn declared(&self) -> MetadataView {
        mlc119()
    }

    open spec fn findings(&self, context: RuleContext<'_>) -> Seq<DiagnosticView> {
        gather(context.qualified_calls.calls@.len() as int, missing_old_finder(context))
    }

    fn metadata(&self) -> (metadata: &'static RuleMetadata) {
        MLC119()
    }

    fn run(&self, context: &RuleContext<'_>) -> (diagnostics: Vec<Diagnostic>) {
        let calls = &context.qualified_calls.calls;
        let mut diagnostics: Vec<Diagnostic> = Vec::new();
        let mut i: usize = 0;
        assert(reports(diagnostics@) =~= Seq::empty());
        while i < calls.len()
            invariant
                i <= calls@.len(),
                calls@ == context.qualified_calls.calls@,
                reports(diagnostics@) == gather(i as int, missing_old_finder(*context)),
            decreases calls@.len() - i,
        {
            push_found(&mut diagnostics, missing_old(context, i));
            i += 1;
        }
        diagnostics
    }
}

} // verus!
