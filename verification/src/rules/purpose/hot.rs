//! What the performance rules on single calls are for.
use super::performance::{facts_agree, may_only_reach, runs_fact, runs_per_frame, typeset};
use super::{
    candidate_is_reported, class_settled, gathered_in, kept_report_has_fact, on_an_instance, owed,
    parts_stand, points_at, reported_at, stand_at, sure_call_is_the_target, Place,
};
use crate::config::RenderProfile;
use crate::cost::{
    call_cost_from, HotCall, HotMutation, HotTargetKind, HotTargetSizeFact, SceneMembershipEffect,
};
use crate::diagnostic::DiagnosticView;
use crate::frontend::{CallArgument, LiteralFact, QualifiedCall, ReceiverKind};
use crate::numbers::{
    double_bits, is_finite, real_at_most, real_below, whole_threshold_is_exact, Bound, Num, NumLit,
};
use crate::rules::base::{Rule, RuleContext};
use crate::rules::dedupe::{kept, number_key, CandidateView};
use crate::rules::performance::allocation::{
    allocation_at, allocation_finder, receiver_owned, HotLargeAllocation,
};
use crate::rules::performance::hot_receiver::{
    copy_at, copy_finder, proportion_at, proportion_finder, walk_at, walk_finder, HotFamilyCopy,
    HotFamilyWalk, HotPointFromProportion,
};
use crate::rules::performance::loop_plays::{
    loop_count, loop_play_at, loop_play_finder, FixedCountLoopPlays,
};
use crate::rules::performance::redraw_geometry::claimed;
use crate::rules::performance::sampling::{
    mlp221_sample_gate, range_argument, range_keyword, range_of, runs_upward, sampled_call,
    sampled_candidate, samples_at, samples_finder, samples_of, ExcessiveSampleCount, SampledTarget,
};
use crate::rules::performance::scene_mutation::{growth_at, growth_finder, HotSceneGraphGrowth};
use crate::rules::performance::support::{candidate_symbol, goal_of, live_call};
use crate::rules::performance::svg_cache::{
    cache_growth_at, cache_growth_finder, FrameVaryingSvgCacheGrowth,
};
use crate::rules::performance::timing::{sub_frame_at, sub_frame_finder, SubFrameDuration};
use crate::source::syntax_in;
use crate::text::{found, gather, gathered_from, texts};
use vstd::prelude::*;

verus! {

/// Whether a number is known to be at least this large.
pub open spec fn at_least(value: Num, minimum: u32) -> bool {
    match value {
        Num::Exact(NumLit::Int(n)) => n >= minimum,
        Num::Exact(NumLit::Float(double)) => real_at_most(
            double_bits(minimum as int) as u64,
            double.bits,
        ),
        Num::Interval { lo: Some(lo), hi: _ } => real_at_most(
            double_bits(minimum as int) as u64,
            lo.bits,
        ),
        _ => false,
    }
}

pub(crate) proof fn gate_is_exact(value: Num, minimum: u32)
    ensures
        at_least(value, minimum) <==> (value.spec_lower_bound() matches Some(lower)
            && lower.reaches(minimum)),
{
    match value {
        Num::Exact(NumLit::Int(n)) => whole_threshold_is_exact(n, minimum),
        _ => {},
    }
}

/// A call has one certain goal exactly when no candidate stands for another.
pub(crate) proof fn goal_is_exact(context: RuleContext<'_>, call: QualifiedCall, id: Seq<char>)
    requires
        context.knowledge is Some,
    ensures
        goal_of(*context.knowledge->0, context.project_index, call) == Some(id) <==> may_only_reach(
            context,
            call,
            id,
        ),
{
    let profile = *context.knowledge->0;
    let list = texts(call.candidates@);
    assert(forall|c: int| 0 <= c < list.len() ==> #[trigger] list[c] == call.candidates@[c]@);
    if goal_of(profile, context.project_index, call) == Some(id) {
        assert forall|c: int| 0 <= c < call.candidates@.len() implies candidate_symbol(
            profile,
            (#[trigger] call.candidates@[c])@,
        ) == Some(id) by {
            assert(list[c] == call.candidates@[c]@);
        }
    }
    if may_only_reach(context, call, id) {
        assert(list[0] == call.candidates@[0]@);
        assert forall|c: int| 0 <= c < list.len() implies candidate_symbol(
            profile,
            #[trigger] list[c],
        ) == Some(id) by {
            assert(list[c] == call.candidates@[c]@);
        }
    }
}

/// Whether a duration is positive and shorter than one frame in every active
/// profile.
pub open spec fn within_a_frame(profiles: Seq<RenderProfile>, duration: Num) -> bool {
    &&& profiles.len() > 0
    &&& forall|p: int|
        0 <= p < profiles.len() ==> is_finite((#[trigger] profiles[p]).frame_rate.bits)
            && !real_at_most(profiles[p].frame_rate.bits, 0)
    &&& duration.spec_lower_bound() matches Some(lower) && !real_at_most(lower.pattern(), 0)
    &&& duration.spec_upper_bound() matches Some(upper) && forall|p: int|
        0 <= p < profiles.len() ==> real_below(
            upper.pattern(),
            (#[trigger] profiles[p]).frame_seconds.bits,
        )
}

/// A call that lasts less than a frame.
pub open spec fn sub_frame_owed(context: RuleContext<'_>, i: int) -> Seq<Place> {
    let call = context.qualified_calls.calls@[i];
    match call_cost_from(context.cost_facts.call_costs@, i as usize, 0) {
        Some(cost) => owed(
            on_an_instance(call) && ((may_only_reach(context, call, "manim.scene.scene.Scene.play"@)
                && within_a_frame(context.config.active_profiles@, cost.run_time)) || (
            may_only_reach(context, call, "manim.scene.scene.Scene.wait"@) && within_a_frame(
                context.config.active_profiles@,
                cost.wait_time,
            ))),
            call.file,
            call.call_range,
        ),
        None => Seq::empty(),
    }
}

/// A `play` whose run time, or a `wait` whose waiting time, is shorter than one
/// frame in every active profile is reported, and nothing else is.
pub proof fn sub_frame_durations_are_reported(context: RuleContext<'_>)
    ensures
        stand_at(
            context,
            SubFrameDuration.findings(context),
            gather(
                context.qualified_calls.calls@.len() as int,
                |i: int| sub_frame_owed(context, i),
            ),
        ),
{
    let finder = sub_frame_finder(context);
    let places = |i: int| sub_frame_owed(context, i);
    let n = context.qualified_calls.calls@.len() as int;
    assert forall|i: int| 0 <= i < n implies stand_at(
        context,
        #[trigger] finder(i),
        places(i),
    ) by {
        let call = context.qualified_calls.calls@[i];
        assert(finder(i) == found(sub_frame_at(context, i)));
        if context.knowledge is Some {
            goal_is_exact(context, call, "manim.scene.scene.Scene.play"@);
            goal_is_exact(context, call, "manim.scene.scene.Scene.wait"@);
            reveal_strlit("manim.scene.scene.Scene.play");
            reveal_strlit("manim.scene.scene.Scene.wait");
            assert("manim.scene.scene.Scene.play"@[24] != "manim.scene.scene.Scene.wait"@[24]);
        }
    }
    parts_stand(context, n, finder, places);
}

/// A `play` that a loop repeats.
pub open spec fn looped_play_owed(context: RuleContext<'_>, i: int) -> Seq<Place> {
    let call = context.qualified_calls.calls@[i];
    owed(
        on_an_instance(call) && may_only_reach(context, call, "manim.scene.scene.Scene.play"@) && (
        loop_count(syntax_in(*context.sources, call.file), call.call_range) matches Some(count)
            && count >= 8),
        call.file,
        call.call_range,
    )
}

/// A `play` on a scene that a loop is known to repeat eight times or more is
/// reported, and nothing else is.
pub proof fn looped_plays_are_reported(context: RuleContext<'_>)
    ensures
        stand_at(
            context,
            FixedCountLoopPlays.findings(context),
            gather(
                context.qualified_calls.calls@.len() as int,
                |i: int| looped_play_owed(context, i),
            ),
        ),
{
    let finder = loop_play_finder(context);
    let places = |i: int| looped_play_owed(context, i);
    let n = context.qualified_calls.calls@.len() as int;
    assert forall|i: int| 0 <= i < n implies stand_at(
        context,
        #[trigger] finder(i),
        places(i),
    ) by {
        let call = context.qualified_calls.calls@[i];
        assert(finder(i) == found(loop_play_at(context, i)));
        if context.knowledge is Some {
            goal_is_exact(context, call, "manim.scene.scene.Scene.play"@);
            match loop_count(syntax_in(*context.sources, call.file), call.call_range) {
                Some(count) => gate_is_exact(Num::Exact(NumLit::Int(count)), 8),
                None => {},
            }
        }
    }
    parts_stand(context, n, finder, places);
}

/// Whether a call samples a curve: a `ParametricFunction`, over `t_range`, or
/// `Axes.plot`, over `x_range`.
pub open spec fn samples_over(id: Seq<char>, keyword: Seq<char>) -> bool {
    ||| id == "manim.mobject.graphing.functions.ParametricFunction"@ && keyword == "t_range"@
    ||| id == "manim.mobject.graphing.coordinate_systems.Axes.plot"@ && keyword == "x_range"@
}

/// Whether every candidate of a call is this sampler, curated or by its own
/// path.
pub open spec fn calls_sampler(context: RuleContext<'_>, call: QualifiedCall, id: Seq<char>) -> bool {
    &&& context.knowledge is Some
    &&& call.candidates@.len() > 0
    &&& call.receiver matches ReceiverKind::KnownInstance(kind) ==> class_settled(
        context.project_index,
        kind@,
    )
    &&& forall|c: int|
        0 <= c < call.candidates@.len() ==> match candidate_symbol(
            *context.knowledge->0,
            (#[trigger] call.candidates@[c])@,
        ) {
            Some(symbol) => symbol == id,
            None => call.candidates@[c]@ == id,
        }
}

/// The number that a literal states.
pub open spec fn stated(literal: LiteralFact) -> Option<Bound<'static>> {
    match literal {
        LiteralFact::Int(value) => Some(Bound::Whole(value)),
        LiteralFact::Float(value) => Some(Bound::Real(&value)),
        _ => None,
    }
}

/// Whether three literals are start, end, and step of an upward range with ten
/// thousand samples or more.
pub open spec fn dense_range(
    context: RuleContext<'_>,
    i: int,
    elements: Seq<LiteralFact>,
) -> bool {
    elements.len() == 3 && match (stated(elements[0]), stated(elements[1]), stated(elements[2])) {
        (Some(start), Some(end), Some(step)) => {
            &&& real_below(0, step.pattern())
            &&& real_below(start.pattern(), end.pattern())
            &&& is_finite(step.pattern())
            &&& is_finite(start.pattern())
            &&& samples_of(context, i, start, end, step) matches Some(samples) && at_least(
                Num::Exact(samples),
                10000,
            )
        },
        _ => false,
    }
}

/// Whether the call at `i` gives such a range: by keyword, or as its second
/// argument.
pub open spec fn dense(context: RuleContext<'_>, i: int, keyword: Seq<char>) -> bool {
    let call = context.qualified_calls.calls@[i];
    match (
        match call.spec_keyword(keyword) {
            Some(argument) => Some(argument),
            None => if call.positional_count > 1 && call.arguments@.len() > 1 && (
            call.arguments@[1].keyword matches Some(name) ==> name@ == keyword) {
                Some(call.arguments@[1])
            } else {
                None
            },
        }
    ) {
        Some(argument) => match argument.literal {
            Some(LiteralFact::Tuple(elements)) => dense_range(context, i, elements@),
            Some(LiteralFact::List(elements)) => dense_range(context, i, elements@),
            _ => false,
        },
        None => false,
    }
}

proof fn sampler_is_told(context: RuleContext<'_>, call: QualifiedCall)
    requires
        context.knowledge is Some,
    ensures
        "manim.mobject.graphing.functions.ParametricFunction"@
            != "manim.mobject.graphing.coordinate_systems.Axes.plot"@,
        ({
            let found = sampled_call(*context.knowledge->0, context.project_index, call);
            &&& (found matches Some(sampler) && sampler.0 == SampledTarget::Parametric)
                <==> calls_sampler(
                context,
                call,
                "manim.mobject.graphing.functions.ParametricFunction"@,
            )
            &&& (found matches Some(sampler) && sampler.0 == SampledTarget::AxesPlot)
                <==> calls_sampler(
                context,
                call,
                "manim.mobject.graphing.coordinate_systems.Axes.plot"@,
            )
        }),
{
    let profile = *context.knowledge->0;
    reveal_strlit("manim.mobject.graphing.functions.ParametricFunction");
    reveal_strlit("manim.mobject.graphing.coordinate_systems.Axes.plot");
    assert("manim.mobject.graphing.functions.ParametricFunction"@[23]
        != "manim.mobject.graphing.coordinate_systems.Axes.plot"@[23]);
    let list = texts(call.candidates@);
    assert(forall|c: int| 0 <= c < list.len() ==> #[trigger] list[c] == call.candidates@[c]@);
    if call.candidates@.len() > 0 {
        assert(list[0] == call.candidates@[0]@);
        match sampled_call(profile, context.project_index, call) {
            Some(sampler) => {
                assert forall|c: int| 0 <= c < call.candidates@.len() implies sampled_candidate(
                    profile,
                    (#[trigger] call.candidates@[c])@,
                ) == Some(sampler.0) by {
                    assert(list[c] == call.candidates@[c]@);
                }
            },
            None => {},
        }
        if calls_sampler(context, call, "manim.mobject.graphing.functions.ParametricFunction"@) {
            assert(sampled_candidate(profile, call.candidates@[0]@) == Some(
                SampledTarget::Parametric,
            ));
            assert forall|c: int| 0 <= c < list.len() implies sampled_candidate(
                profile,
                #[trigger] list[c],
            ) == Some(SampledTarget::Parametric) by {
                assert(list[c] == call.candidates@[c]@);
            }
        }
        if calls_sampler(context, call, "manim.mobject.graphing.coordinate_systems.Axes.plot"@) {
            assert(sampled_candidate(profile, call.candidates@[0]@) == Some(
                SampledTarget::AxesPlot,
            ));
            assert forall|c: int| 0 <= c < list.len() implies sampled_candidate(
                profile,
                #[trigger] list[c],
            ) == Some(SampledTarget::AxesPlot) by {
                assert(list[c] == call.candidates@[c]@);
            }
        }
    }
}

proof fn range_is_told(context: RuleContext<'_>, i: int, argument: CallArgument)
    ensures
        (match argument.literal {
            Some(LiteralFact::Tuple(elements)) => dense_range(context, i, elements@),
            Some(LiteralFact::List(elements)) => dense_range(context, i, elements@),
            _ => false,
        }) <==> (range_of(argument) matches Some(range) && runs_upward(
            range.0.pattern(),
            range.1.pattern(),
            range.2.pattern(),
        ) && (samples_of(context, i, range.0, range.1, range.2) matches Some(samples)
            && mlp221_sample_gate().passes(Num::Exact(samples)))),
{
    match range_of(argument) {
        Some(range) => match samples_of(context, i, range.0, range.1, range.2) {
            Some(samples) => gate_is_exact(Num::Exact(samples), 10000),
            None => {},
        },
        None => {},
    }
}

proof fn dense_is_told(context: RuleContext<'_>, i: int)
    ensures
        stand_at(
            context,
            found(samples_at(context, i)),
            dense_samples_owed(context, i),
        ),
{
    let call = context.qualified_calls.calls@[i];
    let a = "manim.mobject.graphing.functions.ParametricFunction"@;
    let b = "manim.mobject.graphing.coordinate_systems.Axes.plot"@;
    assert(samples_over(a, "t_range"@));
    assert(samples_over(b, "x_range"@));
    if context.knowledge is Some {
        sampler_is_told(context, call);
        let profile = *context.knowledge->0;
        match sampled_call(profile, context.project_index, call) {
            Some((target, basis)) => {
                match range_argument(call, range_keyword(target)) {
                    Some(argument) => range_is_told(context, i, argument),
                    None => {},
                }
            },
            None => {},
        }
    }
}

/// A curve that takes too many samples.
pub open spec fn dense_samples_owed(context: RuleContext<'_>, i: int) -> Seq<Place> {
    let call = context.qualified_calls.calls@[i];
    owed(
        exists|id: Seq<char>, keyword: Seq<char>|
            #[trigger] samples_over(id, keyword) && calls_sampler(context, call, id) && dense(
                context,
                i,
                keyword,
            ),
        call.file,
        call.call_range,
    )
}

/// A curve whose literal range is known to take ten thousand samples or more is
/// reported, and nothing else is.
pub proof fn dense_samples_are_reported(context: RuleContext<'_>)
    ensures
        stand_at(
            context,
            ExcessiveSampleCount.findings(context),
            gather(
                context.qualified_calls.calls@.len() as int,
                |i: int| dense_samples_owed(context, i),
            ),
        ),
{
    let finder = samples_finder(context);
    let places = |i: int| dense_samples_owed(context, i);
    let n = context.qualified_calls.calls@.len() as int;
    assert forall|i: int| 0 <= i < n implies stand_at(
        context,
        #[trigger] finder(i),
        places(i),
    ) by {
        let call = context.qualified_calls.calls@[i];
        assert(finder(i) == found(samples_at(context, i)));
        dense_is_told(context, i);
    }
    parts_stand(context, n, finder, places);
}

/// Whether the per-frame call at `i` allocates much: 64 KiB or more, or as
/// many points as count as large where no receiver owns them.
pub open spec fn allocates_much(context: RuleContext<'_>, entry: HotCall) -> bool {
    at_least(entry.allocation_bytes, 65536) || (at_least(
        entry.target_points,
        context.cost_facts.large_points,
    ) && forall|k: int|
        0 <= k < context.cost_facts.hot_target_sizes@.len() ==> (
        #[trigger] context.cost_facts.hot_target_sizes@[k]).call_index != entry.call_index)
}

/// The per-frame call at `i`, when it allocates much and some play can run it.
pub open spec fn allocation_owed(context: RuleContext<'_>, i: int) -> Seq<Place> {
    let entry = context.cost_facts.hot_calls@[i];
    let call = context.qualified_calls.calls@[entry.call_index as int];
    owed(
        context.knowledge is Some && entry.call_index < context.qualified_calls.calls@.len()
            && allocates_much(context, entry) && (entry.execution.proven@.len() > 0
            || entry.execution.maybe@.len() > 0 || entry.execution.unresolved),
        call.file,
        call.call_range,
    )
}

/// A per-frame call that allocates much and that some play can run is
/// reported, and nothing else is.
pub proof fn large_allocations_are_reported(context: RuleContext<'_>)
    ensures
        stand_at(
            context,
            HotLargeAllocation.findings(context),
            gather(
                context.cost_facts.hot_calls@.len() as int,
                |i: int| allocation_owed(context, i),
            ),
        ),
{
    let finder = allocation_finder(context);
    let places = |i: int| allocation_owed(context, i);
    let n = context.cost_facts.hot_calls@.len() as int;
    assert forall|i: int| 0 <= i < n implies stand_at(
        context,
        #[trigger] finder(i),
        places(i),
    ) by {
        let entry = context.cost_facts.hot_calls@[i];
        assert(finder(i) == found(allocation_at(context, i)));
        gate_is_exact(entry.allocation_bytes, 65536);
        gate_is_exact(entry.target_points, context.cost_facts.large_points);
        assert(receiver_owned(context.cost_facts.hot_target_sizes@, entry.call_index) <==> exists|
            k: int,
        |
            0 <= k < context.cost_facts.hot_target_sizes@.len() && (
            #[trigger] context.cost_facts.hot_target_sizes@[k]).call_index == entry.call_index);
    }
    parts_stand(context, n, finder, places);
}

/// The report that a candidate carries.
pub(crate) open spec fn carried(item: Option<CandidateView>) -> Option<DiagnosticView> {
    match item {
        Some((_, report)) => report,
        None => None,
    }
}

/// Whether a candidate is about this call.
pub(crate) open spec fn keyed(item: Option<CandidateView>, number: usize) -> bool {
    item matches Some((key, _)) && key == number_key(number)
}

/// A candidate about a call is reported at that call, when no fact about the
/// same call is passed over.
pub(crate) proof fn call_is_reported(
    context: RuleContext<'_>,
    n: int,
    at: spec_fn(int) -> Option<CandidateView>,
    finder: spec_fn(int) -> Seq<CandidateView>,
    index: spec_fn(int) -> usize,
    i: int,
)
    requires
        forall|k: int| #[trigger] finder(k) == found(at(k)),
        0 <= i < n,
        at(i) is Some,
        forall|k: int|
            0 <= k < n && (#[trigger] at(k)) is Some ==> keyed(at(k), index(k)),
        forall|k: int|
            0 <= k < n && (#[trigger] at(k)) is Some && index(k) == index(i) ==> {
                let call = context.qualified_calls.calls@[index(i) as int];
                carried(at(k)) is Some && points_at(
                    context,
                    carried(at(k))->0,
                    call.file,
                    call.call_range,
                )
            },
    ensures
        ({
            let call = context.qualified_calls.calls@[index(i) as int];
            reported_at(context, kept(gather(n, finder)), call.file, call.call_range)
        }),
{
    let call = context.qualified_calls.calls@[index(i) as int];
    let item = at(i)->0;
    let part = finder(i);
    assert(part == found(at(i)));
    assert(part[0] == item);
    gathered_in(n, finder, i, item);
    let list = gather(n, finder);
    let p = choose|p: int| 0 <= p < list.len() && list[p] == item;
    assert forall|q: int| 0 <= q < list.len() && (#[trigger] list[q]).0 == list[p].0 implies
        list[q].1 is Some && points_at(context, list[q].1->0, call.file, call.call_range) by {
        gathered_from(n, finder, q);
        let k = choose|k: int| 0 <= k < n && (#[trigger] finder(k)).contains(list[q]);
        let other = finder(k);
        assert(other == found(at(k)));
        assert(at(k) == Some(list[q]));
        assert(number_key(index(k)).number == number_key(index(i)).number);
    }
    candidate_is_reported(context, list, p, call.file, call.call_range);
}

/// Whether a call copies or rewrites a family that counts as large, and is
/// neither a redraw of stable geometry nor a construction.
pub open spec fn copies_much(context: RuleContext<'_>, fact: HotTargetSizeFact) -> bool {
    &&& context.knowledge is Some
    &&& fact.kind != HotTargetKind::FamilyWalk
    &&& fact.call_index < context.qualified_calls.calls@.len()
    &&& at_least(fact.sizes.family, context.cost_facts.large_family) || at_least(
        fact.sizes.points,
        context.cost_facts.large_points,
    )
    &&& !claimed(context, fact.call_index)
    &&& forall|k: int|
        0 <= k < context.cost_facts.constructions@.len() ==> (
        #[trigger] context.cost_facts.constructions@[k]).call_index != fact.call_index
}

/// A large copy on every frame is reported.
pub proof fn large_copies_are_reported(context: RuleContext<'_>, i: int)
    requires
        0 <= i < context.cost_facts.hot_target_sizes@.len(),
        copies_much(context, context.cost_facts.hot_target_sizes@[i]),
    ensures
        ({
            let call = context.qualified_calls.calls@[
                context.cost_facts.hot_target_sizes@[i].call_index as int
            ];
            reported_at(context, HotFamilyCopy.findings(context), call.file, call.call_range)
        }),
{
    let facts = context.cost_facts.hot_target_sizes@;
    gate_is_exact(facts[i].sizes.family, context.cost_facts.large_family);
    gate_is_exact(facts[i].sizes.points, context.cost_facts.large_points);
    call_is_reported(
        context,
        facts.len() as int,
        |k: int| copy_at(context, k),
        copy_finder(context),
        |k: int| facts[k].call_index,
        i,
    );
}

/// Every report on a copy is about a large one.
pub proof fn only_large_copies_are_reported(context: RuleContext<'_>, k: int) -> (i: int)
    requires
        0 <= k < HotFamilyCopy.findings(context).len(),
    ensures
        0 <= i < context.cost_facts.hot_target_sizes@.len(),
        copies_much(context, context.cost_facts.hot_target_sizes@[i]),
        ({
            let call = context.qualified_calls.calls@[
                context.cost_facts.hot_target_sizes@[i].call_index as int
            ];
            points_at(context, HotFamilyCopy.findings(context)[k], call.file, call.call_range)
        }),
{
    let i = kept_report_has_fact(
        context.cost_facts.hot_target_sizes@.len() as int,
        |i: int| copy_at(context, i),
        copy_finder(context),
        k,
    );
    let fact = context.cost_facts.hot_target_sizes@[i];
    gate_is_exact(fact.sizes.family, context.cost_facts.large_family);
    gate_is_exact(fact.sizes.points, context.cost_facts.large_points);
    i
}

/// Whether a call walks a family that counts as large.
pub open spec fn walks_much(context: RuleContext<'_>, fact: HotTargetSizeFact) -> bool {
    &&& context.knowledge is Some
    &&& fact.kind == HotTargetKind::FamilyWalk
    &&& fact.method@ != "point_from_proportion"@
    &&& fact.call_index < context.qualified_calls.calls@.len()
    &&& at_least(fact.sizes.family, context.cost_facts.large_family)
}

/// A walk of a large family on every frame is reported.
pub proof fn large_walks_are_reported(context: RuleContext<'_>, i: int)
    requires
        0 <= i < context.cost_facts.hot_target_sizes@.len(),
        walks_much(context, context.cost_facts.hot_target_sizes@[i]),
    ensures
        ({
            let call = context.qualified_calls.calls@[
                context.cost_facts.hot_target_sizes@[i].call_index as int
            ];
            reported_at(context, HotFamilyWalk.findings(context), call.file, call.call_range)
        }),
{
    let facts = context.cost_facts.hot_target_sizes@;
    gate_is_exact(facts[i].sizes.family, context.cost_facts.large_family);
    call_is_reported(
        context,
        facts.len() as int,
        |k: int| walk_at(context, k),
        walk_finder(context),
        |k: int| facts[k].call_index,
        i,
    );
}

/// Every report on a walk is about a large family.
pub proof fn only_large_walks_are_reported(context: RuleContext<'_>, k: int) -> (i: int)
    requires
        0 <= k < HotFamilyWalk.findings(context).len(),
    ensures
        0 <= i < context.cost_facts.hot_target_sizes@.len(),
        walks_much(context, context.cost_facts.hot_target_sizes@[i]),
        ({
            let call = context.qualified_calls.calls@[
                context.cost_facts.hot_target_sizes@[i].call_index as int
            ];
            points_at(context, HotFamilyWalk.findings(context)[k], call.file, call.call_range)
        }),
{
    let i = kept_report_has_fact(
        context.cost_facts.hot_target_sizes@.len() as int,
        |i: int| walk_at(context, i),
        walk_finder(context),
        k,
    );
    let fact = context.cost_facts.hot_target_sizes@[i];
    gate_is_exact(fact.sizes.family, context.cost_facts.large_family);
    i
}

/// Whether a call measures a path whose points count as many.
pub open spec fn measures_much(context: RuleContext<'_>, fact: HotTargetSizeFact) -> bool {
    &&& context.knowledge is Some
    &&& fact.kind == HotTargetKind::FamilyWalk
    &&& fact.method@ == "point_from_proportion"@
    &&& fact.call_index < context.qualified_calls.calls@.len()
    &&& at_least(fact.sizes.points, context.cost_facts.large_points)
}

/// A `point_from_proportion` on a path of many points is reported.
pub proof fn long_paths_are_reported(context: RuleContext<'_>, i: int)
    requires
        0 <= i < context.cost_facts.hot_target_sizes@.len(),
        measures_much(context, context.cost_facts.hot_target_sizes@[i]),
    ensures
        ({
            let call = context.qualified_calls.calls@[
                context.cost_facts.hot_target_sizes@[i].call_index as int
            ];
            reported_at(context, HotPointFromProportion.findings(context), call.file, call.call_range)
        }),
{
    let facts = context.cost_facts.hot_target_sizes@;
    gate_is_exact(facts[i].sizes.points, context.cost_facts.large_points);
    call_is_reported(
        context,
        facts.len() as int,
        |k: int| proportion_at(context, k),
        proportion_finder(context),
        |k: int| facts[k].call_index,
        i,
    );
}

/// Every report on a proportion is about a path of many points.
pub proof fn only_long_paths_are_reported(context: RuleContext<'_>, k: int) -> (i: int)
    requires
        0 <= k < HotPointFromProportion.findings(context).len(),
    ensures
        0 <= i < context.cost_facts.hot_target_sizes@.len(),
        measures_much(context, context.cost_facts.hot_target_sizes@[i]),
        ({
            let call = context.qualified_calls.calls@[
                context.cost_facts.hot_target_sizes@[i].call_index as int
            ];
            points_at(context, HotPointFromProportion.findings(context)[k], call.file, call.call_range)
        }),
{
    let i = kept_report_has_fact(
        context.cost_facts.hot_target_sizes@.len() as int,
        |i: int| proportion_at(context, i),
        proportion_finder(context),
        k,
    );
    let fact = context.cost_facts.hot_target_sizes@[i];
    gate_is_exact(fact.sizes.points, context.cost_facts.large_points);
    i
}

/// Whether a class keeps its SVG in the cache unless it is told not to, or
/// only when it is told to.
pub open spec fn cached_by_default(id: Seq<char>, default: bool) -> bool {
    ||| default && (id == "manim.mobject.svg.svg_mobject.SVGMobject"@ || (typeset(id) && id
        != "manim.mobject.text.text_mobject.Text"@))
    ||| !default && id == "manim.mobject.text.text_mobject.Text"@
}

/// Whether a call uses the SVG cache.
pub open spec fn uses_cache(call: QualifiedCall, default: bool) -> bool {
    match call.spec_keyword("use_svg_cache"@) {
        Some(argument) => argument.literal matches Some(LiteralFact::Bool(value)) && value,
        None => default && !call.has_star_star_kwargs,
    }
}

/// Whether the SVG cache is known to be global and to grow without end.
pub open spec fn cache_never_shrinks(context: RuleContext<'_>) -> bool {
    context.knowledge matches Some(profile) && profile.svg_cache matches Some(cache)
        && cache.process_global == Some(true) && cache.unbounded == Some(true)
}

proof fn text_is_not_another()
    ensures
        "manim.mobject.svg.svg_mobject.SVGMobject"@ != "manim.mobject.text.text_mobject.Text"@,
        "manim.mobject.text.tex_mobject.MathTex"@ != "manim.mobject.text.text_mobject.Text"@,
        "manim.mobject.text.tex_mobject.SingleStringMathTex"@
            != "manim.mobject.text.text_mobject.Text"@,
        "manim.mobject.text.tex_mobject.Tex"@ != "manim.mobject.text.text_mobject.Text"@,
        "manim.mobject.text.text_mobject.MarkupText"@ != "manim.mobject.text.text_mobject.Text"@,
{
    reveal_strlit("manim.mobject.svg.svg_mobject.SVGMobject");
    reveal_strlit("manim.mobject.text.tex_mobject.MathTex");
    reveal_strlit("manim.mobject.text.tex_mobject.SingleStringMathTex");
    reveal_strlit("manim.mobject.text.tex_mobject.Tex");
    reveal_strlit("manim.mobject.text.text_mobject.MarkupText");
    reveal_strlit("manim.mobject.text.text_mobject.Text");
    assert("manim.mobject.text.text_mobject.Text"@[14] == 't');
    assert("manim.mobject.svg.svg_mobject.SVGMobject"@[14] == 's');
    assert("manim.mobject.text.text_mobject.Text"@[21] == 'x');
    assert("manim.mobject.text.text_mobject.Text"@[22] == 't');
    assert("manim.mobject.text.tex_mobject.MathTex"@[22] == '_');
    assert("manim.mobject.text.tex_mobject.SingleStringMathTex"@[22] == '_');
    assert("manim.mobject.text.tex_mobject.Tex"@[22] == '_');
    assert("manim.mobject.text.text_mobject.MarkupText"@.len()
        != "manim.mobject.text.text_mobject.Text"@.len());
}

/// A construction with a varying key that goes to a cache that never shrinks
/// is reported: for `Text` when it asks for the cache, for the others unless
/// they decline it.
pub proof fn growing_caches_are_reported(context: RuleContext<'_>, i: int, default: bool)
    requires
        0 <= i < context.cost_facts.frame_varying_keys@.len(),
        facts_agree(context.cost_facts.frame_varying_keys@),
        cache_never_shrinks(context),
        cached_by_default(context.cost_facts.frame_varying_keys@[i].symbol@, default),
        runs_fact(context, context.cost_facts.frame_varying_keys@[i]),
        uses_cache(
            context.qualified_calls.calls@[
                context.cost_facts.frame_varying_keys@[i].call_index as int
            ],
            default,
        ),
    ensures
        ({
            let call = context.qualified_calls.calls@[
                context.cost_facts.frame_varying_keys@[i].call_index as int
            ];
            reported_at(
                context,
                FrameVaryingSvgCacheGrowth.findings(context),
                call.file,
                call.call_range,
            )
        }),
{
    let facts = context.cost_facts.frame_varying_keys@;
    text_is_not_another();
    sure_call_is_the_target(
        context,
        context.qualified_calls.calls@[facts[i].call_index as int],
        facts[i].symbol@,
    );
    assert(live_call(context, facts[i].call_index, facts[i].symbol@) is Some);
    let at = |k: int| cache_growth_at(context, k);
    assert forall|k: int| 0 <= k < facts.len() && (#[trigger] at(k)) is Some && facts[k].call_index
        == facts[i].call_index implies carried(at(k)) is Some && points_at(
        context,
        carried(at(k))->0,
        context.qualified_calls.calls@[facts[i].call_index as int].file,
        context.qualified_calls.calls@[facts[i].call_index as int].call_range,
    ) by {
        assert(facts[k].symbol@ == facts[i].symbol@);
    }
    assert(at(i) is Some);
    call_is_reported(
        context,
        facts.len() as int,
        at,
        cache_growth_finder(context),
        |k: int| facts[k].call_index,
        i,
    );
}

/// Every report on the SVG cache is about a construction with a varying key
/// that runs on every frame and goes to a cache that never shrinks.
pub proof fn only_growing_caches_are_reported(context: RuleContext<'_>, k: int) -> (w: (int, bool))
    requires
        0 <= k < FrameVaryingSvgCacheGrowth.findings(context).len(),
    ensures
        0 <= w.0 < context.cost_facts.frame_varying_keys@.len(),
        cache_never_shrinks(context),
        ({
            let fact = context.cost_facts.frame_varying_keys@[w.0];
            let call = context.qualified_calls.calls@[fact.call_index as int];
            &&& cached_by_default(fact.symbol@, w.1)
            &&& fact.call_index < context.qualified_calls.calls@.len()
            &&& may_only_reach(context, call, fact.symbol@)
            &&& runs_per_frame(context, fact.call_index)
            &&& uses_cache(call, w.1)
            &&& points_at(
                context,
                FrameVaryingSvgCacheGrowth.findings(context)[k],
                call.file,
                call.call_range,
            )
        }),
{
    let i = kept_report_has_fact(
        context.cost_facts.frame_varying_keys@.len() as int,
        |i: int| cache_growth_at(context, i),
        cache_growth_finder(context),
        k,
    );
    let fact = context.cost_facts.frame_varying_keys@[i];
    let call = context.qualified_calls.calls@[fact.call_index as int];
    text_is_not_another();
    goal_is_exact(context, call, fact.symbol@);
    (i, fact.symbol@ != "manim.mobject.text.text_mobject.Text"@)
}

/// Whether a mutation puts something fresh into the scene.
pub open spec fn adds_fresh(fact: HotMutation) -> bool {
    fact.adds_fresh_allocation && fact.effect != SceneMembershipEffect::Other
}

/// A per-frame call that puts a fresh mobject into the scene is reported, by
/// whichever of the four ways it is added.
pub proof fn growing_scenes_are_reported(context: RuleContext<'_>, i: int)
    requires
        0 <= i < context.cost_facts.scene_mutations@.len(),
        adds_fresh(context.cost_facts.scene_mutations@[i]),
        forall|k: int|
            0 <= k < context.cost_facts.scene_mutations@.len() && (
            #[trigger] context.cost_facts.scene_mutations@[k]).call_index
                == context.cost_facts.scene_mutations@[i].call_index
                ==> context.cost_facts.scene_mutations@[k].symbol@
                == context.cost_facts.scene_mutations@[i].symbol@,
        context.cost_facts.scene_mutations@[i].call_index < context.qualified_calls.calls@.len(),
        may_only_reach(
            context,
            context.qualified_calls.calls@[
                context.cost_facts.scene_mutations@[i].call_index as int
            ],
            context.cost_facts.scene_mutations@[i].symbol@,
        ),
        runs_per_frame(context, context.cost_facts.scene_mutations@[i].call_index),
    ensures
        ({
            let call = context.qualified_calls.calls@[
                context.cost_facts.scene_mutations@[i].call_index as int
            ];
            reported_at(
                context,
                HotSceneGraphGrowth.findings(context),
                call.file,
                call.call_range,
            )
        }),
{
    let facts = context.cost_facts.scene_mutations@;
    goal_is_exact(
        context,
        context.qualified_calls.calls@[facts[i].call_index as int],
        facts[i].symbol@,
    );
    assert(live_call(context, facts[i].call_index, facts[i].symbol@) is Some);
    let at = |k: int| growth_at(context, k);
    assert(at(i) is Some);
    assert forall|k: int| 0 <= k < facts.len() && (#[trigger] at(k)) is Some && facts[k].call_index
        == facts[i].call_index implies carried(at(k)) is Some && points_at(
        context,
        carried(at(k))->0,
        context.qualified_calls.calls@[facts[i].call_index as int].file,
        context.qualified_calls.calls@[facts[i].call_index as int].call_range,
    ) by {
        assert(facts[k].symbol@ == facts[i].symbol@);
    }
    call_is_reported(
        context,
        facts.len() as int,
        at,
        growth_finder(context),
        |k: int| facts[k].call_index,
        i,
    );
}

/// Every report on a growing scene is about a per-frame call that puts
/// something fresh into it.
pub proof fn only_growing_scenes_are_reported(context: RuleContext<'_>, k: int) -> (i: int)
    requires
        0 <= k < HotSceneGraphGrowth.findings(context).len(),
    ensures
        0 <= i < context.cost_facts.scene_mutations@.len(),
        ({
            let fact = context.cost_facts.scene_mutations@[i];
            let call = context.qualified_calls.calls@[fact.call_index as int];
            &&& adds_fresh(fact)
            &&& fact.call_index < context.qualified_calls.calls@.len()
            &&& may_only_reach(context, call, fact.symbol@)
            &&& runs_per_frame(context, fact.call_index)
            &&& points_at(
                context,
                HotSceneGraphGrowth.findings(context)[k],
                call.file,
                call.call_range,
            )
        }),
{
    let i = kept_report_has_fact(
        context.cost_facts.scene_mutations@.len() as int,
        |i: int| growth_at(context, i),
        growth_finder(context),
        k,
    );
    let fact = context.cost_facts.scene_mutations@[i];
    goal_is_exact(
        context,
        context.qualified_calls.calls@[fact.call_index as int],
        fact.symbol@,
    );
    i
}

} // verus!
