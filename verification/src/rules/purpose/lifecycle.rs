//! What the lifecycle rules are for.
use super::{
    gathered_in, key_is_kept, may_only_call, on_an_instance, points_at, range_of_site,
    report_has_fact, target_may_only_be_called,
};
use crate::diagnostic::{DiagnosticView, RelatedView};
use crate::frontend::{ArgShape, ManimKind, ProjectIndex, QualifiedCall};
use crate::json::JsonView;
use crate::knowledge::{resolved, KnowledgeProfile, SymbolKind};
use crate::rules::base::{Rule, RuleContext};
use crate::rules::dedupe::{kept, kept_entries, kept_from_candidates, pair_key};
use crate::rules::lifecycle::play_args::{
    apply_method_at, apply_method_finder, argument_finding, candidate_verdict, literal_kind,
    non_animation_at, non_animation_finder, position_finder, verdict_of, ApplyMethodCallResult,
    InnerView, NonAnimationPlayArgument,
};
use crate::rules::lifecycle::play_conflicts::{
    both_write, common_target, conflict_of, conflicts_at, conflicts_finder, conflicts_items,
    conflicts_of, first_parts, later_conflicts, later_parts, met_from, shared_from,
    ConflictingPlayWrites,
};
use crate::rules::lifecycle::support::SCENE_PLAY;
use crate::semantic::{
    common_channels, Cardinality, ObjectId, PlayKind, PlayedAnimation, Truth, WriteChannel,
};
use crate::source::{path_in, slice_in, span_in, AllocationSite};
use crate::text::{found, gather, gathered_from, texts};
use vstd::prelude::*;

verus! {

/// Whether two animations are known to change the same channel of one live
/// object: both have a complete list of channels, one single object is a
/// target of both, and one channel is written by both.
pub open spec fn clash(first: PlayedAnimation, second: PlayedAnimation) -> bool {
    &&& first.channels_known == Truth::Yes
    &&& second.channels_known == Truth::Yes
    &&& first.state is Some
    &&& second.state is Some
    &&& exists|object: ObjectId|
        object.cardinality == Cardinality::Singleton && first.state->0.targets@.contains(object)
            && #[trigger] second.state->0.targets@.contains(object)
    &&& exists|channel: WriteChannel|
        first.state->0.write_channels@.contains(channel)
            && #[trigger] second.state->0.write_channels@.contains(channel)
}

/// Whether a report is about two animations: at the second, with the first as
/// its one related place.
pub open spec fn about_clash(
    context: RuleContext<'_>,
    report: DiagnosticView,
    first: PlayedAnimation,
    second: PlayedAnimation,
) -> bool {
    &&& points_at(context, report, second.site.file, range_of_site(second.site))
    &&& report.related_locations.len() == 1
    &&& refers_to(context, report.related_locations[0], first.site)
}

/// Whether a related location names a site.
pub open spec fn refers_to(
    context: RuleContext<'_>,
    related: RelatedView,
    site: AllocationSite,
) -> bool {
    related.path == path_in(*context.sources, site.file) && related.span == span_in(
        *context.sources,
        site.file,
        range_of_site(site),
    )
}

proof fn met_is_held(list: Seq<ObjectId>, object: ObjectId, i: int)
    requires
        0 <= i <= list.len(),
    ensures
        met_from(list, object, i) <==> object.cardinality == Cardinality::Singleton && exists|k: int|
            i <= k < list.len() && #[trigger] list[k] == object,
    decreases list.len() - i,
{
    if i < list.len() {
        met_is_held(list, object, i + 1);
        if list[i] == object {
        }
    }
}

proof fn shared_is_held(a: Seq<ObjectId>, b: Seq<ObjectId>, i: int)
    requires
        0 <= i <= a.len(),
    ensures
        shared_from(a, b, i) is Some <==> exists|k: int|
            i <= k < a.len() && (#[trigger] a[k]).cardinality == Cardinality::Singleton
                && b.contains(a[k]),
    decreases a.len() - i,
{
    if i < a.len() {
        shared_is_held(a, b, i + 1);
        met_is_held(b, a[i], 0);
        if met_from(b, a[i], 0) {
            assert(a[i].cardinality == Cardinality::Singleton && b.contains(a[i]));
        } else if a[i].cardinality == Cardinality::Singleton && b.contains(a[i]) {
            let k = choose|k: int| 0 <= k < b.len() && b[k] == a[i];
            assert(b[k] == a[i]);
        }
    }
}

pub(crate) proof fn common_is_held(a: Seq<WriteChannel>, b: Seq<WriteChannel>)
    ensures
        common_channels(a, b).len() > 0 <==> exists|k: int|
            0 <= k < a.len() && b.contains(#[trigger] a[k]),
    decreases a.len(),
{
    if a.len() > 0 {
        let rest = a.drop_last();
        common_is_held(rest, b);
        if common_channels(rest, b).len() > 0 {
            let k = choose|k: int| 0 <= k < rest.len() && b.contains(#[trigger] rest[k]);
            assert(a[k] == rest[k]);
        }
        if b.contains(a.last()) {
            assert(b.contains(a[a.len() - 1]));
        }
        if exists|k: int| 0 <= k < a.len() && b.contains(#[trigger] a[k]) {
            let k = choose|k: int| 0 <= k < a.len() && b.contains(#[trigger] a[k]);
            if k < rest.len() {
                assert(b.contains(rest[k]));
            }
        }
    }
}

proof fn clash_is_found(context: RuleContext<'_>, s: int, first: PlayedAnimation, second: PlayedAnimation)
    ensures
        conflict_of(context, context.lifecycle_facts.scenes@[s], first, second) is Some <==> clash(
            first,
            second,
        ),
        conflict_of(context, context.lifecycle_facts.scenes@[s], first, second) matches Some(
            candidate,
        ) ==> candidate.0 == pair_key(first.site, second.site) && candidate.1 is Some
            && about_clash(context, candidate.1->0, first, second),
{
    if first.state is Some && second.state is Some {
        let x = first.state->0;
        let y = second.state->0;
        shared_is_held(x.targets@, y.targets@, 0);
        common_is_held(x.write_channels@, y.write_channels@);
        if clash(first, second) {
            let object = choose|object: ObjectId|
                object.cardinality == Cardinality::Singleton && x.targets@.contains(object)
                    && #[trigger] y.targets@.contains(object);
            let k = choose|k: int| 0 <= k < x.targets@.len() && x.targets@[k] == object;
            assert(x.targets@[k].cardinality == Cardinality::Singleton && y.targets@.contains(
                x.targets@[k],
            ));
            let channel = choose|channel: WriteChannel|
                x.write_channels@.contains(channel) && #[trigger] y.write_channels@.contains(channel);
            let c = choose|c: int| 0 <= c < x.write_channels@.len() && x.write_channels@[c] == channel;
            assert(y.write_channels@.contains(x.write_channels@[c]));
        }
        if common_target(first, second) is Some && both_write(first, second).len() > 0 {
            let k = choose|k: int|
                0 <= k < x.targets@.len() && (#[trigger] x.targets@[k]).cardinality
                    == Cardinality::Singleton && y.targets@.contains(x.targets@[k]);
            assert(y.targets@.contains(x.targets@[k]));
            let c = choose|c: int|
                0 <= c < x.write_channels@.len() && y.write_channels@.contains(
                    #[trigger] x.write_channels@[c],
                );
            assert(y.write_channels@.contains(x.write_channels@[c]));
        }
    }
}

/// A place of two animations of one `play`.
pub open spec fn pair_in_play(
    context: RuleContext<'_>,
    s: int,
    p: int,
    a: int,
    b: int,
    first: PlayedAnimation,
    second: PlayedAnimation,
) -> bool {
    let scenes = context.lifecycle_facts.scenes@;
    &&& 0 <= s < scenes.len()
    &&& 0 <= p < scenes[s].plays@.len()
    &&& scenes[s].plays@[p].kind == PlayKind::Play
    &&& 0 <= a < b < scenes[s].plays@[p].animations@.len()
    &&& scenes[s].plays@[p].animations@[a] == first
    &&& scenes[s].plays@[p].animations@[b] == second
}

/// Every candidate of the rule is that of two clashing animations.
proof fn candidate_is_a_clash(context: RuleContext<'_>, q: int) -> (w: (
    int,
    int,
    int,
    int,
))
    requires
        0 <= q < gather(
            context.lifecycle_facts.scenes@.len() as int,
            conflicts_finder(context),
        ).len(),
    ensures
        ({
            let list = gather(
                context.lifecycle_facts.scenes@.len() as int,
                conflicts_finder(context),
            );
            let animations = context.lifecycle_facts.scenes@[w.0].plays@[w.1].animations@;
            let first = animations[w.2];
            let second = animations[w.3];
            &&& pair_in_play(context, w.0, w.1, w.2, w.3, first, second)
            &&& clash(first, second)
            &&& list[q].0 == pair_key(first.site, second.site)
            &&& list[q].1 is Some
            &&& about_clash(context, list[q].1->0, first, second)
        }),
{
    let scenes = context.lifecycle_facts.scenes@;
    let n = scenes.len() as int;
    let list = gather(n, conflicts_finder(context));
    let item = list[q];
    gathered_from(n, conflicts_finder(context), q);
    let s = choose|s: int| 0 <= s < n && (#[trigger] conflicts_finder(context)(s)).contains(item);
    let scene = scenes[s];
    let part = conflicts_at(context, s);
    assert(conflicts_finder(context)(s) == part);
    let q1 = choose|q1: int| 0 <= q1 < part.len() && part[q1] == item;
    gathered_from(scene.plays@.len() as int, conflicts_items(context, scene), q1);
    let p = choose|p: int|
        0 <= p < scene.plays@.len() && (#[trigger] conflicts_items(context, scene)(p)).contains(item);
    let play = scene.plays@[p];
    let part2 = conflicts_of(context, scene, p);
    assert(conflicts_items(context, scene)(p) == part2);
    let q2 = choose|q2: int| 0 <= q2 < part2.len() && part2[q2] == item;
    let m = play.animations@.len() as int;
    gathered_from(m, first_parts(context, scene, play), q2);
    let a = choose|a: int|
        0 <= a < m && (#[trigger] first_parts(context, scene, play)(a)).contains(item);
    let part3 = later_conflicts(context, scene, play, a);
    assert(first_parts(context, scene, play)(a) == part3);
    let q3 = choose|q3: int| 0 <= q3 < part3.len() && part3[q3] == item;
    gathered_from(m, later_parts(context, scene, play, a), q3);
    let b = choose|b: int|
        0 <= b < m && (#[trigger] later_parts(context, scene, play, a)(b)).contains(item);
    let part4 = later_parts(context, scene, play, a)(b);
    assert(b > a);
    assert(part4 == found(conflict_of(context, scene, play.animations@[a], play.animations@[b])));
    clash_is_found(context, s, play.animations@[a], play.animations@[b]);
    (s, p, a, b)
}

/// Of any two animations of one `play`, neighbours or not, that change the
/// same channel of one live object, the later is reported, with the earlier as
/// its related place.
pub proof fn every_clash_is_reported(
    context: RuleContext<'_>,
    s: int,
    p: int,
    a: int,
    b: int,
    first: PlayedAnimation,
    second: PlayedAnimation,
)
    requires
        pair_in_play(context, s, p, a, b, first, second),
        clash(first, second),
    ensures
        exists|k: int|
            0 <= k < ConflictingPlayWrites.findings(context).len() && about_clash(
                context,
                #[trigger] ConflictingPlayWrites.findings(context)[k],
                first,
                second,
            ),
{
    let scenes = context.lifecycle_facts.scenes@;
    let n = scenes.len() as int;
    let scene = scenes[s];
    let play = scene.plays@[p];
    let m = play.animations@.len() as int;
    clash_is_found(context, s, first, second);
    let item = conflict_of(context, scene, first, second)->0;
    let part = later_parts(context, scene, play, a)(b);
    assert(part == found(conflict_of(context, scene, first, second)));
    assert(part[0] == item);
    gathered_in(m, later_parts(context, scene, play, a), b, item);
    assert(first_parts(context, scene, play)(a) == later_conflicts(context, scene, play, a));
    gathered_in(m, first_parts(context, scene, play), a, item);
    assert(conflicts_items(context, scene)(p) == conflicts_of(context, scene, p));
    gathered_in(scene.plays@.len() as int, conflicts_items(context, scene), p, item);
    assert(conflicts_finder(context)(s) == conflicts_at(context, s));
    gathered_in(n, conflicts_finder(context), s, item);
    let list = gather(n, conflicts_finder(context));
    let q = choose|q: int| 0 <= q < list.len() && list[q] == item;
    assert forall|r: int| 0 <= r < list.len() && (#[trigger] list[r]).0 == list[q].0 implies
        list[r].1 is Some by {
        let w = candidate_is_a_clash(context, r);
    }
    key_is_kept(list, q);
    let k = choose|k: int|
        0 <= k < kept_entries(list).len() && (#[trigger] kept_entries(list)[k]).0 == item.0;
    kept_from_candidates(list, k);
    let entry = kept_entries(list)[k];
    let r = choose|r: int| 0 <= r < list.len() && list[r] == (entry.0, Some(entry.1));
    let w = candidate_is_a_clash(context, r);
    assert(kept(list)[k] == entry.1);
    assert(ConflictingPlayWrites.findings(context)[k] == entry.1);
}

/// Every report of the rule is about two animations of one `play`, the
/// earlier and the later, that change the same channel of one live object.
pub proof fn only_clashes_are_reported(context: RuleContext<'_>, k: int) -> (w: (
    int,
    int,
    int,
    int,
    PlayedAnimation,
    PlayedAnimation,
))
    requires
        0 <= k < ConflictingPlayWrites.findings(context).len(),
    ensures
        pair_in_play(context, w.0, w.1, w.2, w.3, w.4, w.5),
        clash(w.4, w.5),
        about_clash(context, ConflictingPlayWrites.findings(context)[k], w.4, w.5),
{
    let list = gather(context.lifecycle_facts.scenes@.len() as int, conflicts_finder(context));
    kept_from_candidates(list, k);
    let entry = kept_entries(list)[k];
    let r = choose|r: int| 0 <= r < list.len() && list[r] == (entry.0, Some(entry.1));
    let w = candidate_is_a_clash(context, r);
    let animations = context.lifecycle_facts.scenes@[w.0].plays@[w.1].animations@;
    (w.0, w.1, w.2, w.3, animations[w.2], animations[w.3])
}

/// Whether a candidate is a class whose instances are animations: a curated
/// one, or one of the project with that role alone.
pub open spec fn animation_class(
    profile: KnowledgeProfile,
    index: ProjectIndex,
    id: Seq<char>,
) -> bool {
    match resolved(profile, id) {
        Some(symbol) => profile.spec_symbol(symbol) matches Some(entry) && entry.kind
            == SymbolKind::Animation,
        None => index.spec_class(id) matches Some(record) && record.kinds@.contains(
            ManimKind::Animation,
        ) && !record.kinds@.contains(ManimKind::Scene) && !record.kinds@.contains(
            ManimKind::Mobject,
        ),
    }
}

/// Whether a candidate is certainly a class whose instances are mobjects: a
/// curated one, or one of the project with that role alone and every base
/// known.
pub open spec fn mobject_class(
    profile: KnowledgeProfile,
    index: ProjectIndex,
    id: Seq<char>,
) -> bool {
    match resolved(profile, id) {
        Some(symbol) => profile.spec_symbol(symbol) matches Some(entry) && (entry.kind
            == SymbolKind::Mobject || entry.kind == SymbolKind::Vmobject),
        None => index.spec_class(id) matches Some(record) && record.kinds@.contains(
            ManimKind::Mobject,
        ) && !record.kinds@.contains(ManimKind::Scene) && !record.kinds@.contains(
            ManimKind::Animation,
        ) && record.bases_fully_resolved && forall|b: int|
            0 <= b < record.reached_bases@.len() ==> profile.spec_symbol(
                (#[trigger] record.reached_bases@[b])@,
            ) is Some,
    }
}

/// Whether a candidate is a curated method that gives its mobject back.
pub open spec fn fluent_method(profile: KnowledgeProfile, id: Seq<char>) -> bool {
    resolved(profile, id) matches Some(symbol) && profile.spec_symbol(symbol) matches Some(entry)
        && entry.kind == SymbolKind::Method && entry.returns_self == Some(true)
}

/// Whether every candidate of a call is an animation class.
pub open spec fn builds_animation(context: RuleContext<'_>, inner: QualifiedCall) -> bool {
    context.knowledge is Some && inner.candidates@.len() > 0 && forall|c: int|
        0 <= c < inner.candidates@.len() ==> animation_class(
            *context.knowledge->0,
            context.project_index,
            (#[trigger] inner.candidates@[c])@,
        )
}

/// Whether every candidate of a call is certainly a mobject class.
pub open spec fn builds_mobject(context: RuleContext<'_>, inner: QualifiedCall) -> bool {
    context.knowledge is Some && inner.candidates@.len() > 0 && forall|c: int|
        0 <= c < inner.candidates@.len() ==> mobject_class(
            *context.knowledge->0,
            context.project_index,
            (#[trigger] inner.candidates@[c])@,
        )
}

/// Whether every candidate of a call is a method that gives its mobject back.
pub open spec fn mutates_at_once(context: RuleContext<'_>, inner: QualifiedCall) -> bool {
    context.knowledge is Some && inner.candidates@.len() > 0 && forall|c: int|
        0 <= c < inner.candidates@.len() ==> fluent_method(
            *context.knowledge->0,
            (#[trigger] inner.candidates@[c])@,
        )
}

/// Whether the argument at `p` of the call at `i` is the call at `j`.
pub open spec fn argument_is_call(context: RuleContext<'_>, i: int, p: int, j: int) -> bool {
    let calls = context.qualified_calls.calls@;
    &&& 0 <= i < calls.len()
    &&& 0 <= p < calls[i].positional_count
    &&& p < calls[i].arguments@.len()
    &&& 0 <= j < calls.len()
    &&& calls[i].arguments@[p].shape matches ArgShape::Call(inner) && inner == j
}

proof fn verdict_is_proved(
    context: RuleContext<'_>,
    callee_text: Seq<char>,
    inner: QualifiedCall,
)
    requires
        context.knowledge is Some,
    ensures
        match verdict_of(*context.knowledge->0, context.project_index, callee_text, inner) {
            Some(InnerView::Constructed(_)) => builds_mobject(context, inner),
            Some(InnerView::MethodResult(_)) => mutates_at_once(context, inner),
            _ => true,
        },
        builds_animation(context, inner) ==> match verdict_of(
            *context.knowledge->0,
            context.project_index,
            callee_text,
            inner,
        ) {
            Some(InnerView::Animation) => true,
            None => true,
            _ => false,
        },
{
    let profile = *context.knowledge->0;
    let index = context.project_index;
    let list = texts(inner.candidates@);
    if inner.candidates@.len() > 0 {
        assert(list[0] == inner.candidates@[0]@);
        assert(animation_class(profile, index, inner.candidates@[0]@) || !builds_animation(
            context,
            inner,
        ));
    }
    match verdict_of(profile, index, callee_text, inner) {
        Some(verdict) => {
            assert forall|c: int| 0 <= c < inner.candidates@.len() implies candidate_verdict(
                profile,
                index,
                (#[trigger] inner.candidates@[c])@,
            ) == Some(verdict) by {
                assert(list[c] == inner.candidates@[c]@);
            }
        },
        None => {},
    }
}

/// A call of an animation class, curated or of the project, is a valid
/// argument of `Scene.play`: nothing is found against it.
pub proof fn animations_may_be_played(context: RuleContext<'_>, i: int, p: int, j: int)
    requires
        argument_is_call(context, i, p, j),
        builds_animation(context, context.qualified_calls.calls@[j]),
    ensures
        argument_finding(
            context,
            *context.knowledge->0,
            context.qualified_calls.calls@[i],
            context.qualified_calls.calls@[i].arguments@[p],
        ) is None,
        p == 0 ==> apply_method_at(context, i) is None,
{
    let calls = context.qualified_calls.calls@;
    let text = slice_in(*context.sources, calls[i].file, calls[j].callee_range);
    verdict_is_proved(context, text, calls[j]);
}

/// Whether a report is about the argument at `p` of a confirmed `Scene.play`
/// call at `i`.
pub open spec fn about_play_argument(
    context: RuleContext<'_>,
    report: DiagnosticView,
    i: int,
    p: int,
) -> bool {
    let call = context.qualified_calls.calls@[i];
    &&& 0 <= i < context.qualified_calls.calls@.len()
    &&& 0 <= p < call.positional_count
    &&& p < call.arguments@.len()
    &&& points_at(context, report, call.file, call.arguments@[p].range)
    &&& on_an_instance(call)
    &&& may_only_call(context, call, "manim.scene.scene.Scene.play"@)
}

/// Whether a play argument is one that `Scene.play` cannot take: a number or
/// string, a name that can only be a mobject, a constructed mobject, or what a
/// mobject method gives back.
pub open spec fn unplayable(context: RuleContext<'_>, i: int, p: int) -> bool {
    let calls = context.qualified_calls.calls@;
    let argument = calls[i].arguments@[p];
    match argument.shape {
        ArgShape::Literal => argument.literal matches Some(literal) && (literal is Int
            || literal is Float || literal is Str),
        ArgShape::Name => argument.kind_candidates@.len() > 0 && forall|c: int|
            0 <= c < argument.kind_candidates@.len() ==> known_mobject(
                *context.knowledge->0,
                context.project_index,
                (#[trigger] argument.kind_candidates@[c])@,
            ),
        ArgShape::Call(inner) => inner < calls.len() && (builds_mobject(
            context,
            calls[inner as int],
        ) || mutates_at_once(context, calls[inner as int])),
        _ => false,
    }
}

/// Whether a class id is certainly that of a mobject.
pub open spec fn known_mobject(
    profile: KnowledgeProfile,
    index: ProjectIndex,
    id: Seq<char>,
) -> bool {
    match profile.spec_symbol(id) {
        Some(entry) => entry.kind == SymbolKind::Mobject || entry.kind == SymbolKind::Vmobject,
        None => index.spec_class(id) matches Some(record) && record.kinds@.contains(
            ManimKind::Mobject,
        ) && !record.kinds@.contains(ManimKind::Scene) && !record.kinds@.contains(
            ManimKind::Animation,
        ) && record.bases_fully_resolved,
    }
}

/// Every report on a play argument is about an argument that cannot be
/// played; one that calls it a constructed mobject is about a call whose every
/// candidate is certainly a mobject class.
pub proof fn only_unplayable_arguments_are_reported(context: RuleContext<'_>, k: int) -> (w: (
    int,
    int,
))
    requires
        0 <= k < NonAnimationPlayArgument.findings(context).len(),
    ensures
        context.knowledge is Some,
        about_play_argument(context, NonAnimationPlayArgument.findings(context)[k], w.0, w.1),
        unplayable(context, w.0, w.1),
        NonAnimationPlayArgument.findings(context)[k].evidence["argument_kind"@]
            == JsonView::Text("constructed-mobject"@) ==> exists|j: int|
            argument_is_call(context, w.0, w.1, j) && builds_mobject(
                context,
                #[trigger] context.qualified_calls.calls@[j],
            ),
{
    let calls = context.qualified_calls.calls@;
    let n = calls.len() as int;
    let report = NonAnimationPlayArgument.findings(context)[k];
    gathered_from(n, non_animation_finder(context), k);
    let i = choose|i: int|
        0 <= i < n && (#[trigger] non_animation_finder(context)(i)).contains(report);
    let call = calls[i];
    let part = non_animation_at(context, i);
    assert(non_animation_finder(context)(i) == part);
    let profile = *context.knowledge->0;
    target_may_only_be_called(context, call, SCENE_PLAY@);
    let q = choose|q: int| 0 <= q < part.len() && part[q] == report;
    gathered_from(call.positional_count as int, position_finder(context, call), q);
    let p = choose|p: int|
        0 <= p < call.positional_count && (#[trigger] position_finder(context, call)(p)).contains(
            report,
        );
    let argument = call.arguments@[p];
    assert(call.spec_positional(p) == Some(argument));
    assert(position_finder(context, call)(p) == found(
        argument_finding(context, profile, call, argument),
    ));
    assert(argument_finding(context, profile, call, argument) == Some(report));
    reveal_strlit("constructed-mobject");
    reveal_strlit("mobject-method-result");
    reveal_strlit("bare-mobject");
    reveal_strlit("literal-");
    reveal_strlit("argument_kind");
    reveal_strlit("resolved_argument");
    reveal_strlit("kind_candidates");
    assert("constructed-mobject"@[0] != "literal-"@[0]);
    match argument.shape {
        ArgShape::Call(inner) => {
            let text = slice_in(*context.sources, call.file, calls[inner as int].callee_range);
            verdict_is_proved(context, text, calls[inner as int]);
            assert(argument_is_call(context, i, p, inner as int));
            assert("argument_kind"@.len() != "resolved_argument"@.len());
            assert("constructed-mobject"@.len() != "mobject-method-result"@.len());
        },
        ArgShape::Name => {
            let kinds = texts(argument.kind_candidates@);
            assert forall|c: int| 0 <= c < argument.kind_candidates@.len() implies known_mobject(
                profile,
                context.project_index,
                (#[trigger] argument.kind_candidates@[c])@,
            ) by {
                assert(kinds[c] == argument.kind_candidates@[c]@);
            }
            assert("argument_kind"@.len() != "kind_candidates"@.len());
            assert("constructed-mobject"@.len() != "bare-mobject"@.len());
        },
        ArgShape::Literal => {
            let kind = literal_kind(argument)->0;
            assert(("literal-"@ + kind)[0] == "literal-"@[0]);
        },
        _ => {},
    }
    (i, p)
}

/// Every report on an `ApplyMethod` call is about a first argument that is a
/// call of a method that gives its mobject back; an animation is none.
pub proof fn only_method_results_are_unbundled(context: RuleContext<'_>, k: int) -> (w: (int, int))
    requires
        0 <= k < ApplyMethodCallResult.findings(context).len(),
    ensures
        argument_is_call(context, w.0, 0, w.1),
        points_at(
            context,
            ApplyMethodCallResult.findings(context)[k],
            context.qualified_calls.calls@[w.0].file,
            context.qualified_calls.calls@[w.0].arguments@[0].range,
        ),
        may_only_call(
            context,
            context.qualified_calls.calls@[w.0],
            "manim.animation.transform.ApplyMethod"@,
        ),
        mutates_at_once(context, context.qualified_calls.calls@[w.1]),
{
    let calls = context.qualified_calls.calls@;
    let i = report_has_fact(
        calls.len() as int,
        |i: int| apply_method_at(context, i),
        apply_method_finder(context),
        k,
    );
    let call = calls[i];
    target_may_only_be_called(context, call, "manim.animation.transform.ApplyMethod"@);
    let j = (call.arguments@[0].shape)->Call_0 as int;
    let text = slice_in(*context.sources, call.file, calls[j].callee_range);
    verdict_is_proved(context, text, calls[j]);
    (i, j)
}

} // verus!
