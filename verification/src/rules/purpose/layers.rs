//! What the performance rules on layers, images, and jobs are for.
use super::frames::{cairo_is_told, certainly_of, with_cairo};
use super::hot::{at_least, gate_is_exact};
use super::lifecycle::refers_to;
use super::{
    key_is_kept, offered_at, offers_are_told, owed, parts_offered, points_at, range_of_site, told,
    Place,
};
use crate::diagnostic::DiagnosticView;
use crate::frontend::{first_index_at, QualifiedCall};
use crate::numbers::{magnitude, real_at_most, real_below, Bound, Num, NumLit};
use crate::rules::base::{Rule, RuleContext};
use crate::rules::dedupe::{kept, kept_entries, kept_from_candidates, CandidateView};
use crate::rules::performance::fork_paths::{
    all_losses, loss_before, loss_key, loss_rank, merged, merged_key, with_loss, ForkFastPathLoss,
    LossView, MergedView,
};
use crate::rules::performance::renderer_cost::{
    all_steady, definite_kind, first_target_from, hidden_width, no_updaters_before, stable_target,
    steady, stroke_at, stroke_finder, stroke_items, stroke_object, stroke_of, stroke_parts,
    style_settled, translucent_at, translucent_finder, translucent_items, translucent_object,
    translucent_objects_parts, translucent_of, LongTranslucentFullScreenAnimation,
    TransparentStrokeCapture,
};
use crate::rules::performance::tex_precompile::{
    all_strings, compile_key, ends_prefix, jobs_before, prefix_from, serial_at, serial_finder,
    tex_defaults, tex_string, tex_strings, SerialTexCompileKeys,
};
use crate::semantic::{
    targets_same, Cardinality, HeapEntry, MobjectState, ObjectId, PlayFact, PlayKind,
    PlayedAnimation, Presence, SceneLifecycle, TracedEvent, Truth, WriteChannel,
};
use crate::source::AllocationSite;
use crate::text::{found, gather, joined, texts};
use vstd::prelude::*;

verus! {

/// Whether a report has a site as its first related place.
pub open spec fn mentions_site(
    context: RuleContext<'_>,
    report: DiagnosticView,
    site: AllocationSite,
) -> bool {
    report.related_locations.len() > 0 && refers_to(context, report.related_locations[0], site)
}

/// Whether a list reports on these sites, as the first related places, and on
/// no others.
pub open spec fn tells_of(
    context: RuleContext<'_>,
    list: Seq<DiagnosticView>,
    sites: Seq<AllocationSite>,
) -> bool {
    &&& forall|p: int|
        0 <= p < sites.len() ==> some_mentions(context, list, #[trigger] sites[p])
    &&& forall|k: int|
        0 <= k < list.len() ==> mentions_some(context, #[trigger] list[k], sites)
}

/// Whether some report of a list has this site as its first related place.
pub open spec fn some_mentions(
    context: RuleContext<'_>,
    list: Seq<DiagnosticView>,
    site: AllocationSite,
) -> bool {
    exists|k: int| 0 <= k < list.len() && mentions_site(context, #[trigger] list[k], site)
}

/// Whether a report has one of these sites as its first related place.
pub open spec fn mentions_some(
    context: RuleContext<'_>,
    report: DiagnosticView,
    sites: Seq<AllocationSite>,
) -> bool {
    exists|p: int| 0 <= p < sites.len() && mentions_site(context, report, #[trigger] sites[p])
}

/// The site, where it is due.
pub open spec fn due_site(due: bool, site: AllocationSite) -> Seq<AllocationSite> {
    if due {
        seq![site]
    } else {
        Seq::empty()
    }
}

spec fn offer_mentions(context: RuleContext<'_>, item: CandidateView, site: AllocationSite) -> bool {
    &&& item.1 matches Some(report) && mentions_site(context, report, site)
    &&& item.0.second == site
}

spec fn offers_mention(
    context: RuleContext<'_>,
    list: Seq<CandidateView>,
    sites: Seq<AllocationSite>,
) -> bool {
    list.len() == sites.len() && forall|k: int|
        0 <= k < list.len() ==> offer_mentions(context, #[trigger] list[k], sites[k])
}

proof fn parts_mention(
    context: RuleContext<'_>,
    n: int,
    finder: spec_fn(int) -> Seq<CandidateView>,
    sites: spec_fn(int) -> Seq<AllocationSite>,
)
    requires
        forall|i: int| 0 <= i < n ==> offers_mention(context, #[trigger] finder(i), sites(i)),
    ensures
        offers_mention(context, gather(n, finder), gather(n, sites)),
    decreases n,
{
    if n > 0 {
        parts_mention(context, n - 1, finder, sites);
        let last = finder(n - 1);
        assert(offers_mention(context, last, sites(n - 1)));
        let before = gather(n - 1, finder);
        let list = gather(n, finder);
        let whole = gather(n, sites);
        assert forall|k: int| 0 <= k < list.len() implies offer_mentions(
            context,
            #[trigger] list[k],
            whole[k],
        ) by {
            if k < before.len() {
                assert(list[k] == before[k]);
            } else {
                assert(list[k] == last[k - before.len()]);
            }
        }
    }
}

proof fn mentions_are_kept(
    context: RuleContext<'_>,
    list: Seq<CandidateView>,
    sites: Seq<AllocationSite>,
)
    requires
        offers_mention(context, list, sites),
    ensures
        tells_of(context, kept(list), sites),
{
    let reports = kept(list);
    assert forall|p: int| 0 <= p < sites.len() implies some_mentions(
        context,
        reports,
        #[trigger] sites[p],
    ) by {
        assert(offer_mentions(context, list[p], sites[p]));
        assert forall|q: int| 0 <= q < list.len() && (#[trigger] list[q]).0 == list[p].0 implies
            list[q].1 is Some by {
            assert(offer_mentions(context, list[q], sites[q]));
        }
        key_is_kept(list, p);
        let i = choose|i: int|
            0 <= i < kept_entries(list).len() && (#[trigger] kept_entries(list)[i]).0 == list[p].0;
        kept_from_candidates(list, i);
        let entry = kept_entries(list)[i];
        let q = choose|q: int| 0 <= q < list.len() && list[q] == (entry.0, Some(entry.1));
        assert(offer_mentions(context, list[q], sites[q]));
        assert(mentions_site(context, reports[i], sites[p]));
    }
    assert forall|k: int| 0 <= k < reports.len() implies mentions_some(
        context,
        #[trigger] reports[k],
        sites,
    ) by {
        kept_from_candidates(list, k);
        let entry = kept_entries(list)[k];
        let q = choose|q: int| 0 <= q < list.len() && list[q] == (entry.0, Some(entry.1));
        assert(offer_mentions(context, list[q], sites[q]));
        assert(mentions_site(context, reports[k], sites[q]));
    }
}

/// Whether an animation targets this single object.
pub open spec fn targets_object(animation: PlayedAnimation, object: ObjectId) -> bool {
    object.cardinality == Cardinality::Singleton && (animation.state matches Some(state)
        && state.targets@.contains(object))
}

/// Whether an animation is known to leave the style of an object alone.
pub open spec fn leaves_style(animation: PlayedAnimation, object: ObjectId) -> bool {
    &&& animation.convertible == Truth::Yes
    &&& animation.state matches Some(state) && (forall|t: int|
        0 <= t < state.targets@.len() && (#[trigger] state.targets@[t]).site == object.site
            ==> state.targets@[t] == object && object.cardinality == Cardinality::Singleton) && (
    targets_object(animation, object) ==> animation.channels_known == Truth::Yes
        && !state.write_channels@.contains(WriteChannel::Style) && !state.write_channels@.contains(
        WriteChannel::Opacity,
    ))
}

/// Whether a certain play animates an object and leaves its style alone.
pub open spec fn animates_unstyled(play: PlayFact, object: ObjectId) -> bool {
    &&& play.kind == PlayKind::Play
    &&& play.certainty == Presence::Present
    &&& !play.star_args
    &&& forall|a: int|
        0 <= a < play.animations@.len() ==> leaves_style(#[trigger] play.animations@[a], object)
    &&& exists|a: int|
        0 <= a < play.animations@.len() && targets_object(#[trigger] play.animations@[a], object)
}

pub(crate) proof fn style_is_told(animation: PlayedAnimation, object: ObjectId)
    ensures
        leaves_style(animation, object) <==> steady(animation, object) is Some,
        leaves_style(animation, object) ==> (targets_object(animation, object) <==> steady(
            animation,
            object,
        ) == Some(true)),
{
    match animation.state {
        Some(state) => {
            let targets = state.targets@;
            assert(forall|t: int|
                0 <= t < targets.len() ==> ((#[trigger] targets[t]).maybe_same(object)
                    == Truth::Maybe <==> targets[t].site == object.site && !(targets[t] == object
                    && object.cardinality == Cardinality::Singleton)));
            if targets.contains(object) {
                let t = choose|t: int| 0 <= t < targets.len() && targets[t] == object;
                assert(targets[t].same(object) <==> object.cardinality == Cardinality::Singleton);
            }
            assert(targets_same(targets, object) <==> targets_object(animation, object));
        },
        None => {},
    }
}

proof fn target_is_found(animations: Seq<PlayedAnimation>, object: ObjectId, i: int)
    requires
        0 <= i <= animations.len(),
    ensures
        first_target_from(animations, object, i) is Some <==> exists|a: int|
            i <= a < animations.len() && steady(#[trigger] animations[a], object) == Some(true),
    decreases animations.len() - i,
{
    if i < animations.len() {
        target_is_found(animations, object, i + 1);
        if steady(animations[i], object) == Some(true) {
        }
    }
}

proof fn unstyled_is_told(play: PlayFact, object: ObjectId)
    ensures
        animates_unstyled(play, object) <==> stable_target(play, object) is Some,
{
    let animations = play.animations@;
    target_is_found(animations, object, 0);
    assert forall|a: int| 0 <= a < animations.len() implies ({
        let animation = #[trigger] animations[a];
        &&& leaves_style(animation, object) <==> steady(animation, object) is Some
        &&& leaves_style(animation, object) ==> (targets_object(animation, object) <==> steady(
            animation,
            object,
        ) == Some(true))
    }) by {
        style_is_told(animations[a], object);
    }
    if animates_unstyled(play, object) {
        assert(all_steady(animations, object));
        let a = choose|a: int|
            0 <= a < animations.len() && targets_object(#[trigger] animations[a], object);
        assert(steady(animations[a], object) == Some(true));
    }
    if stable_target(play, object) is Some {
        let a = choose|a: int|
            0 <= a < animations.len() && steady(#[trigger] animations[a], object) == Some(true);
        assert(targets_object(animations[a], object));
    }
}

/// Whether nothing at all updates before a play.
pub open spec fn nothing_updates(scene: SceneLifecycle, play: PlayFact) -> bool {
    scene.spec_state_at(play.site.file, play.site.start) matches Some(snapshot)
        && snapshot.heap.spec_scene(scene.scene_id) matches Some(state)
        && state.scene_updaters@.len() == 0 && forall|o: int|
        0 <= o < snapshot.heap.objects@.len() ==> (
        #[trigger] snapshot.heap.objects@[o]).state.updaters@.len() == 0
}

proof fn updating_is_told(scene: SceneLifecycle, play: PlayFact)
    ensures
        nothing_updates(scene, play) <==> no_updaters_before(scene, play),
{
}

/// Whether an object is a full-screen rectangle that is neither opaque nor
/// invisible, and covers the screen as it is made.
pub open spec fn veils(context: RuleContext<'_>, entry: HeapEntry) -> bool {
    &&& entry.id.cardinality == Cardinality::Singleton
    &&& certainly_of(entry.state.kind, "manim.mobject.frame.FullScreenRectangle"@)
    &&& entry.state.fill_opacity matches Num::Exact(NumLit::Float(value)) && 0 < value.bits
        < 0x3FF0_0000_0000_0000
    &&& first_index_at(context.qualified_calls.calls@, entry.id.site) matches Some(at) && {
        let call = context.qualified_calls.calls@[at];
        !call.has_star_args && !call.has_star_star_kwargs && call.positional_count == 0
            && call.spec_keyword("aspect_ratio"@) is None
    }
}

/// The veils that the play at `k` of a scene animates for five seconds or more
/// on a screen of 16 to 9.
pub open spec fn veils_due(context: RuleContext<'_>, s: int, k: int) -> Seq<AllocationSite> {
    let scene = context.lifecycle_facts.scenes@[s];
    let play = scene.plays@[k];
    let profiles = context.config.active_profiles@;
    match scene.spec_state_at(play.site.file, play.site.start) {
        Some(snapshot) => if profiles.len() > 0 && (forall|p: int|
            0 <= p < profiles.len() ==> (#[trigger] profiles[p]).pixel_width * 9
                == profiles[p].pixel_height * 16) && !scene.constructor_state_unknown && at_least(
            play.duration,
            5,
        ) && nothing_updates(scene, play) {
            gather(
                snapshot.heap.objects@.len() as int,
                |o: int|
                    due_site(
                        veils(context, snapshot.heap.objects@[o]) && animates_unstyled(
                            play,
                            snapshot.heap.objects@[o].id,
                        ),
                        snapshot.heap.objects@[o].id.site,
                    ),
            )
        } else {
            Seq::empty()
        },
        None => Seq::empty(),
    }
}

/// A translucent full-screen rectangle that is animated for long is reported,
/// and nothing else is.
pub proof fn long_veils_are_reported(context: RuleContext<'_>)
    ensures
        tells_of(
            context,
            LongTranslucentFullScreenAnimation.findings(context),
            gather(
                context.lifecycle_facts.scenes@.len() as int,
                |s: int|
                    gather(
                        context.lifecycle_facts.scenes@[s].plays@.len() as int,
                        |k: int| veils_due(context, s, k),
                    ),
            ),
        ),
{
    let scenes = context.lifecycle_facts.scenes@;
    let n = scenes.len() as int;
    let finder = translucent_finder(context);
    let sites = |s: int| gather(scenes[s].plays@.len() as int, |k: int| veils_due(context, s, k));
    assert forall|s: int| 0 <= s < n implies offers_mention(
        context,
        #[trigger] finder(s),
        sites(s),
    ) by {
        let scene = scenes[s];
        let m = scene.plays@.len() as int;
        let items = translucent_items(context, scene);
        let here = |k: int| veils_due(context, s, k);
        assert(finder(s) == translucent_at(context, s));
        assert forall|k: int| 0 <= k < m implies offers_mention(
            context,
            #[trigger] items(k),
            here(k),
        ) by {
            let play = scene.plays@[k];
            assert(items(k) == translucent_of(context, scene, k));
            updating_is_told(scene, play);
            gate_is_exact(play.duration, 5);
            match scene.spec_state_at(play.site.file, play.site.start) {
                Some(snapshot) => {
                    let objects = snapshot.heap.objects;
                    let parts = translucent_objects_parts(context, scene, play, objects);
                    let inner = |o: int|
                        due_site(
                            veils(context, objects@[o]) && animates_unstyled(play, objects@[o].id),
                            objects@[o].id.site,
                        );
                    assert forall|o: int| 0 <= o < objects@.len() implies offers_mention(
                        context,
                        #[trigger] parts(o),
                        inner(o),
                    ) by {
                        assert(parts(o) == found(
                            translucent_object(context, scene, play, objects@[o]),
                        ));
                        unstyled_is_told(play, objects@[o].id);
                        assert(certainly_of(
                            objects@[o].state.kind,
                            "manim.mobject.frame.FullScreenRectangle"@,
                        ) <==> definite_kind(
                            objects@[o].state.kind,
                            "manim.mobject.frame.FullScreenRectangle"@,
                        ));
                    }
                    parts_mention(context, objects@.len() as int, parts, inner);
                },
                None => {},
            }
        }
        parts_mention(context, m, items, here);
    }
    parts_mention(context, n, finder, sites);
    mentions_are_kept(context, gather(n, finder), gather(n, sites));
}

/// Whether an object has a stroke of some width that cannot be seen, on at
/// least one curve.
pub open spec fn strokes_unseen(state: MobjectState) -> bool {
    &&& match state.stroke_opacity {
        Num::Exact(NumLit::Int(n)) => magnitude(Bound::Whole(n).pattern()) == 0,
        Num::Exact(NumLit::Float(value)) => value.bits == 0 || value.bits == 0x8000_0000_0000_0000,
        _ => false,
    }
    &&& match state.stroke_width {
        Num::Exact(NumLit::Int(n)) => !real_at_most(Bound::Whole(n).pattern(), 0),
        Num::Exact(NumLit::Float(value)) => !real_at_most(value.bits, 0),
        _ => false,
    }
    &&& state.curve_count.spec_lower_bound() matches Some(curves) && !real_below(
        curves.pattern(),
        0x3FF0_0000_0000_0000,
    )
}

/// The objects with an unseen stroke that the play at `k` of a scene animates
/// under Cairo, and whose style stays as it is.
pub open spec fn strokes_due(context: RuleContext<'_>, s: int, k: int) -> Seq<AllocationSite> {
    let scene = context.lifecycle_facts.scenes@[s];
    let play = scene.plays@[k];
    match scene.spec_state_at(play.site.file, play.site.start) {
        Some(snapshot) => if with_cairo(context.config.active_profiles@)
            && !scene.constructor_state_unknown && nothing_updates(scene, play) {
            gather(
                snapshot.heap.objects@.len() as int,
                |o: int|
                    due_site(
                        strokes_unseen(snapshot.heap.objects@[o].state)
                            && snapshot.heap.objects@[o].id.cardinality == Cardinality::Singleton
                            && animates_unstyled(play, snapshot.heap.objects@[o].id)
                            && style_settled(scene, k, snapshot.heap.objects@[o].id),
                        snapshot.heap.objects@[o].id.site,
                    ),
            )
        } else {
            Seq::empty()
        },
        None => Seq::empty(),
    }
}

/// An object that is animated with a stroke that cannot be seen is reported,
/// and nothing else is.
pub proof fn unseen_strokes_are_reported(context: RuleContext<'_>)
    ensures
        tells_of(
            context,
            TransparentStrokeCapture.findings(context),
            gather(
                context.lifecycle_facts.scenes@.len() as int,
                |s: int|
                    gather(
                        context.lifecycle_facts.scenes@[s].plays@.len() as int,
                        |k: int| strokes_due(context, s, k),
                    ),
            ),
        ),
{
    let scenes = context.lifecycle_facts.scenes@;
    let n = scenes.len() as int;
    let finder = stroke_finder(context);
    let sites = |s: int| gather(scenes[s].plays@.len() as int, |k: int| strokes_due(context, s, k));
    assert forall|s: int| 0 <= s < n implies offers_mention(
        context,
        #[trigger] finder(s),
        sites(s),
    ) by {
        let scene = scenes[s];
        let m = scene.plays@.len() as int;
        let items = stroke_items(context, scene);
        let here = |k: int| strokes_due(context, s, k);
        assert(finder(s) == stroke_at(context, s));
        assert forall|k: int| 0 <= k < m implies offers_mention(
            context,
            #[trigger] items(k),
            here(k),
        ) by {
            let play = scene.plays@[k];
            assert(items(k) == stroke_of(context, scene, k));
            updating_is_told(scene, play);
            cairo_is_told(context.config.active_profiles@);
            match scene.spec_state_at(play.site.file, play.site.start) {
                Some(snapshot) => {
                    let objects = snapshot.heap.objects@;
                    let parts = stroke_parts(context, scene, k, objects);
                    let inner = |o: int|
                        due_site(
                            strokes_unseen(objects[o].state) && objects[o].id.cardinality
                                == Cardinality::Singleton && animates_unstyled(play, objects[o].id)
                                && style_settled(scene, k, objects[o].id),
                            objects[o].id.site,
                        );
                    assert forall|o: int| 0 <= o < objects.len() implies offers_mention(
                        context,
                        #[trigger] parts(o),
                        inner(o),
                    ) by {
                        assert(parts(o) == found(stroke_object(context, scene, k, objects[o])));
                        unstyled_is_told(play, objects[o].id);
                        assert(strokes_unseen(objects[o].state) <==> hidden_width(
                            objects[o].state,
                        ) is Some);
                    }
                    parts_mention(context, objects.len() as int, parts, inner);
                },
                None => {},
            }
        }
        parts_mention(context, m, items, here);
    }
    parts_mention(context, n, finder, sites);
    mentions_are_kept(context, gather(n, finder), gather(n, sites));
}

/// The TeX classes are compiled in `align*`, with their strings set apart, or
/// in `center`, with their strings run together; no other class is compiled.
pub proof fn tex_classes_have_their_environments(id: Seq<char>)
    ensures
        tex_defaults("manim.mobject.text.tex_mobject.MathTex"@) == Some((" "@, "align*"@)),
        tex_defaults("manim.mobject.text.tex_mobject.SingleStringMathTex"@) == Some(
            (" "@, "align*"@),
        ),
        tex_defaults("manim.mobject.text.tex_mobject.Tex"@) == Some((""@, "center"@)),
        tex_defaults(id) is Some <==> id == "manim.mobject.text.tex_mobject.MathTex"@ || id
            == "manim.mobject.text.tex_mobject.SingleStringMathTex"@ || id
            == "manim.mobject.text.tex_mobject.Tex"@,
{
    reveal_strlit("manim.mobject.text.tex_mobject.MathTex");
    reveal_strlit("manim.mobject.text.tex_mobject.SingleStringMathTex");
    reveal_strlit("manim.mobject.text.tex_mobject.Tex");
    assert("manim.mobject.text.tex_mobject.Tex"@.len()
        != "manim.mobject.text.tex_mobject.MathTex"@.len());
    assert("manim.mobject.text.tex_mobject.Tex"@.len()
        != "manim.mobject.text.tex_mobject.SingleStringMathTex"@.len());
}

/// A TeX call that gives plain strings alone is compiled from them, joined, in
/// its environment; one with keywords that change the result otherwise is not
/// followed.
pub proof fn tex_keys_are_joined(
    call: QualifiedCall,
    strings: Seq<Seq<char>>,
    separator: Seq<char>,
    environment: Seq<char>,
)
    requires
        !call.has_star_args,
        !call.has_star_star_kwargs,
        call.positional_count > 0,
        strings.len() == call.positional_count,
        forall|p: int|
            0 <= p < call.positional_count ==> #[trigger] tex_string(call, p) == Some(strings[p]),
        call.spec_keyword("arg_separator"@) is None,
        call.spec_keyword("tex_environment"@) is None,
    ensures
        !texts(call.keyword_names@).contains("substrings_to_isolate"@) && !texts(
            call.keyword_names@,
        ).contains("tex_template"@) && !texts(call.keyword_names@).contains("tex_to_color_map"@)
            ==> compile_key(call, separator, environment) == Some(
            (environment, joined(strings, separator)),
        ),
        texts(call.keyword_names@).contains("substrings_to_isolate"@) || texts(
            call.keyword_names@,
        ).contains("tex_template"@) || texts(call.keyword_names@).contains("tex_to_color_map"@)
            ==> compile_key(call, separator, environment) is None,
{
    assert(all_strings(call));
    assert(tex_strings(call) =~= strings);
}

/// The events before the first use are those before the first play or unknown
/// change.
pub proof fn first_use_ends_the_prefix(events: Seq<TracedEvent>, i: int, e: int)
    requires
        0 <= i <= e <= events.len(),
        e < events.len() ==> events[e].event is BeginPlay || events[e].event is UnknownMutation,
        forall|j: int|
            i <= j < e ==> !((#[trigger] events[j]).event is BeginPlay) && !(events[j].event is
                UnknownMutation),
    ensures
        prefix_from(events, i) == e,
    decreases e - i,
{
    if i < e {
        assert(!ends_prefix(events[i].event));
        first_use_ends_the_prefix(events, i + 1, e);
    }
}

/// The first of four or more distinct TeX jobs that a scene compiles before
/// its first play.
pub open spec fn jobs_owed(context: RuleContext<'_>, s: int) -> Seq<Place> {
    let scene = context.lifecycle_facts.scenes@[s];
    let jobs = jobs_before(context, scene.events@, prefix_from(scene.events@, 0));
    let call = context.qualified_calls.calls@[jobs[0].call_index];
    owed(
        jobs.len() >= 4 && !scene.constructor_state_unknown && scene.summary_derived_plays@.len()
            == 0 && (context.knowledge matches Some(profile) && profile.tex_parallel_compile is
            Some),
        call.file,
        call.call_range,
    )
}

/// A scene that compiles four or more distinct TeX jobs before its first play
/// is reported, and nothing else is.
pub proof fn serial_jobs_are_reported(context: RuleContext<'_>)
    ensures
        told(
            context,
            SerialTexCompileKeys.findings(context),
            gather(
                context.lifecycle_facts.scenes@.len() as int,
                |s: int| jobs_owed(context, s),
            ),
        ),
{
    let n = context.lifecycle_facts.scenes@.len() as int;
    let finder = serial_finder(context);
    let places = |s: int| jobs_owed(context, s);
    assert forall|s: int| 0 <= s < n implies offered_at(
        context,
        #[trigger] finder(s),
        places(s),
    ) by {
        assert(finder(s) == found(serial_at(context, s)));
    }
    parts_offered(context, n, finder, places);
    offers_are_told(context, gather(n, finder), gather(n, places));
}

/// Whether a list of merged losses holds a loss, with its profile.
pub open spec fn holds_loss(list: Seq<MergedView>, loss: LossView) -> bool {
    exists|e: int|
        0 <= e < list.len() && (#[trigger] list[e]).scene == loss.scene && list[e].gate == loss.gate
            && list[e].outcome.ordinal == loss.outcome.ordinal && list[e].profiles.contains(
            loss.profile,
        )
}

proof fn rank_is_bounded(list: Seq<MergedView>, key: (Seq<char>, crate::cost::GateKind, usize), i: int)
    requires
        0 <= i <= list.len(),
    ensures
        i <= loss_rank(list, key, i) <= list.len(),
    decreases list.len() - i,
{
    if i < list.len() && loss_before(merged_key(list[i]), key) {
        rank_is_bounded(list, key, i + 1);
    }
}

proof fn one_loss_is_merged(list: Seq<MergedView>, loss: LossView)
    ensures
        holds_loss(with_loss(list, loss), loss),
        forall|other: LossView|
            holds_loss(list, other) ==> #[trigger] holds_loss(with_loss(list, loss), other),
{
    let at = loss_rank(list, loss_key(loss), 0);
    rank_is_bounded(list, loss_key(loss), 0);
    let after = with_loss(list, loss);
    if at < list.len() && merged_key(list[at]) == loss_key(loss) {
        let more = list[at].profiles.push(loss.profile);
        assert(more[more.len() - 1] == loss.profile);
        assert(after[at].profiles == more);
        assert(holds_loss(after, loss));
        assert forall|other: LossView| holds_loss(list, other) implies #[trigger] holds_loss(
            after,
            other,
        ) by {
            let e = choose|e: int|
                0 <= e < list.len() && (#[trigger] list[e]).scene == other.scene && list[e].gate
                    == other.gate && list[e].outcome.ordinal == other.outcome.ordinal
                    && list[e].profiles.contains(other.profile);
            if e == at {
                let p = choose|p: int|
                    0 <= p < list[e].profiles.len() && list[e].profiles[p] == other.profile;
                assert(more[p] == other.profile);
            }
            assert(after[e].profiles.contains(other.profile));
        }
    } else {
        let profiles = seq![loss.profile];
        assert(profiles[0] == loss.profile);
        assert(after[at].profiles == profiles);
        assert(holds_loss(after, loss));
        assert forall|other: LossView| holds_loss(list, other) implies #[trigger] holds_loss(
            after,
            other,
        ) by {
            let e = choose|e: int|
                0 <= e < list.len() && (#[trigger] list[e]).scene == other.scene && list[e].gate
                    == other.gate && list[e].outcome.ordinal == other.outcome.ordinal
                    && list[e].profiles.contains(other.profile);
            let f = if e < at {
                e
            } else {
                e + 1
            };
            assert(after[f] == list[e]);
        }
    }
}

/// Every loss of a fast path, in every profile, is held by some merged loss of
/// its scene, path, and play.
pub proof fn no_loss_is_dropped(list: Seq<LossView>, k: int)
    requires
        0 <= k < list.len(),
    ensures
        holds_loss(merged(list), list[k]),
    decreases list.len(),
{
    let rest = list.drop_last();
    one_loss_is_merged(merged(rest), list.last());
    if k < rest.len() {
        no_loss_is_dropped(rest, k);
        assert(rest[k] == list[k]);
    }
}

/// Where the fork is declared, there is one report for each merged loss, for
/// the profiles that share it, and otherwise none.
pub proof fn losses_are_reported(context: RuleContext<'_>)
    ensures
        ({
            let list = ForkFastPathLoss.findings(context);
            let losses = merged(all_losses(context.cost_facts.fork));
            if context.knowledge matches Some(profile) && profile.fork_capabilities {
                list.len() == losses.len() && forall|k: int|
                    0 <= k < list.len() ==> (#[trigger] list[k]).applicable_profiles
                        == losses[k].profiles && points_at(
                        context,
                        list[k],
                        losses[k].outcome.site.file,
                        range_of_site(losses[k].outcome.site),
                    )
            } else {
                list.len() == 0
            }
        }),
{
}

} // verus!
