//! What the performance rules are for.
use super::{
    candidate_is_reported, gathered_in, kept_report_has_fact, points_at, receiver_settled,
    reported_at, sure_call_is_the_target, surely_calls,
};
use crate::cost::HotSymbol;
use crate::frontend::QualifiedCall;
use crate::rules::base::{Rule, RuleContext};
use crate::rules::performance::hot_construction::{
    hot_construction_at, hot_construction_finder, varying_key_at, varying_key_finder, varying_text,
    FrameVaryingResourceKey, HotExpensiveConstruction,
};
use crate::rules::performance::support::{candidate_symbol, goal_of, live_call};
use crate::text::{found, gather, gathered_from, texts};
use vstd::prelude::*;

verus! {

/// Whether a class is one of the five whose instances are typeset.
pub open spec fn typeset(id: Seq<char>) -> bool {
    ||| id == "manim.mobject.text.tex_mobject.MathTex"@
    ||| id == "manim.mobject.text.tex_mobject.SingleStringMathTex"@
    ||| id == "manim.mobject.text.tex_mobject.Tex"@
    ||| id == "manim.mobject.text.text_mobject.MarkupText"@
    ||| id == "manim.mobject.text.text_mobject.Text"@
}

/// Whether a class is typeset, read from a file, or sampled.
pub open spec fn costly(id: Seq<char>) -> bool {
    ||| typeset(id)
    ||| id == "manim.mobject.svg.svg_mobject.SVGMobject"@
    ||| id == "manim.mobject.three_d.three_dimensions.Surface"@
    ||| id == "manim.mobject.types.image_mobject.ImageMobject"@
}

/// Whether every candidate of a call stands for the curated symbol `id`, under
/// its own name or as the package exports it.
pub open spec fn may_only_reach(context: RuleContext<'_>, call: QualifiedCall, id: Seq<char>) -> bool {
    &&& context.knowledge is Some
    &&& call.candidates@.len() > 0
    &&& forall|i: int|
        0 <= i < call.candidates@.len() ==> candidate_symbol(
            *context.knowledge->0,
            (#[trigger] call.candidates@[i])@,
        ) == Some(id)
    &&& receiver_settled(context.project_index, call)
}

/// Whether some play is proven to run the call at `c` on every frame.
pub open spec fn runs_per_frame(context: RuleContext<'_>, c: usize) -> bool {
    context.cost_facts.spec_hot(c as int) matches Some(entry) && entry.contexts@.len() > 0
        && entry.execution.proven@.len() > 0
}

/// Whether a fact is about a call of its class that runs on every frame.
pub open spec fn runs_fact(context: RuleContext<'_>, fact: HotSymbol) -> bool {
    let calls = context.qualified_calls.calls@;
    &&& fact.call_index < calls.len()
    &&& surely_calls(context, calls[fact.call_index as int], fact.symbol@)
    &&& runs_per_frame(context, fact.call_index)
}

/// Whether the facts about one call name one class.
pub open spec fn facts_agree(facts: Seq<HotSymbol>) -> bool {
    forall|a: int, b: int|
        0 <= a < facts.len() && 0 <= b < facts.len() && (#[trigger] facts[a]).call_index == (
        #[trigger] facts[b]).call_index ==> facts[a].symbol@ == facts[b].symbol@
}

proof fn running_fact_is_live(context: RuleContext<'_>, fact: HotSymbol)
    requires
        runs_fact(context, fact),
    ensures
        live_call(context, fact.call_index, fact.symbol@) is Some,
{
    sure_call_is_the_target(
        context,
        context.qualified_calls.calls@[fact.call_index as int],
        fact.symbol@,
    );
}

pub(crate) proof fn goal_may_only_be_called(
    context: RuleContext<'_>,
    call: QualifiedCall,
    id: Seq<char>,
)
    requires
        context.knowledge is Some,
        goal_of(*context.knowledge->0, context.project_index, call) == Some(id),
    ensures
        may_only_reach(context, call, id),
{
    let list = texts(call.candidates@);
    assert(list[0] == call.candidates@[0]@);
    assert forall|i: int| 0 <= i < call.candidates@.len() implies candidate_symbol(
        *context.knowledge->0,
        (#[trigger] call.candidates@[i])@,
    ) == Some(id) by {
        assert(list[i] == call.candidates@[i]@);
    }
}

/// A typeset construction whose key varies on every frame is reported, for
/// each of the five typeset classes.
pub proof fn varying_keys_are_reported(context: RuleContext<'_>, i: int)
    requires
        0 <= i < context.cost_facts.frame_varying_keys@.len(),
        facts_agree(context.cost_facts.frame_varying_keys@),
        typeset(context.cost_facts.frame_varying_keys@[i].symbol@),
        runs_fact(context, context.cost_facts.frame_varying_keys@[i]),
    ensures
        ({
            let call = context.qualified_calls.calls@[
                context.cost_facts.frame_varying_keys@[i].call_index as int
            ];
            reported_at(
                context,
                FrameVaryingResourceKey.findings(context),
                call.file,
                call.call_range,
            )
        }),
{
    let facts = context.cost_facts.frame_varying_keys@;
    let n = facts.len() as int;
    let finder = varying_key_finder(context);
    let call = context.qualified_calls.calls@[facts[i].call_index as int];
    running_fact_is_live(context, facts[i]);
    let item = varying_key_at(context, i)->0;
    let part = finder(i);
    assert(part == found(varying_key_at(context, i)));
    assert(part[0] == item);
    gathered_in(n, finder, i, item);
    let list = gather(n, finder);
    let p = choose|p: int| 0 <= p < list.len() && list[p] == item;
    assert forall|q: int| 0 <= q < list.len() && (#[trigger] list[q]).0 == list[p].0 implies
        list[q].1 is Some && points_at(context, list[q].1->0, call.file, call.call_range) by {
        gathered_from(n, finder, q);
        let k = choose|k: int| 0 <= k < n && (#[trigger] finder(k)).contains(list[q]);
        let other = finder(k);
        assert(other == found(varying_key_at(context, k)));
        assert(facts[k].call_index == facts[i].call_index);
    }
    candidate_is_reported(context, list, p, call.file, call.call_range);
}

/// A costly construction that runs on every frame is reported, for each of
/// the eight costly classes, unless its key is known to vary.
pub proof fn costly_constructions_are_reported(context: RuleContext<'_>, i: int)
    requires
        0 <= i < context.cost_facts.constructions@.len(),
        facts_agree(context.cost_facts.constructions@),
        costly(context.cost_facts.constructions@[i].symbol@),
        runs_fact(context, context.cost_facts.constructions@[i]),
        forall|k: int|
            0 <= k < context.cost_facts.frame_varying_keys@.len() && typeset(
                (#[trigger] context.cost_facts.frame_varying_keys@[k]).symbol@,
            ) ==> context.cost_facts.frame_varying_keys@[k].call_index
                != context.cost_facts.constructions@[i].call_index,
    ensures
        ({
            let call = context.qualified_calls.calls@[
                context.cost_facts.constructions@[i].call_index as int
            ];
            reported_at(
                context,
                HotExpensiveConstruction.findings(context),
                call.file,
                call.call_range,
            )
        }),
{
    let facts = context.cost_facts.constructions@;
    let n = facts.len() as int;
    let finder = hot_construction_finder(context);
    let call = context.qualified_calls.calls@[facts[i].call_index as int];
    running_fact_is_live(context, facts[i]);
    assert(!varying_text(context.cost_facts.frame_varying_keys@, facts[i].call_index));
    let item = hot_construction_at(context, i)->0;
    let part = finder(i);
    assert(part == found(hot_construction_at(context, i)));
    assert(part[0] == item);
    gathered_in(n, finder, i, item);
    let list = gather(n, finder);
    let p = choose|p: int| 0 <= p < list.len() && list[p] == item;
    assert forall|q: int| 0 <= q < list.len() && (#[trigger] list[q]).0 == list[p].0 implies
        list[q].1 is Some && points_at(context, list[q].1->0, call.file, call.call_range) by {
        gathered_from(n, finder, q);
        let k = choose|k: int| 0 <= k < n && (#[trigger] finder(k)).contains(list[q]);
        let other = finder(k);
        assert(other == found(hot_construction_at(context, k)));
        assert(facts[k].call_index == facts[i].call_index);
    }
    candidate_is_reported(context, list, p, call.file, call.call_range);
}

/// Every report on a varying key is about a call of a typeset class that runs
/// on every frame and whose key is known to vary.
pub proof fn only_varying_keys_are_reported(context: RuleContext<'_>, k: int) -> (i: int)
    requires
        0 <= k < FrameVaryingResourceKey.findings(context).len(),
    ensures
        0 <= i < context.cost_facts.frame_varying_keys@.len(),
        ({
            let fact = context.cost_facts.frame_varying_keys@[i];
            let call = context.qualified_calls.calls@[fact.call_index as int];
            let report = FrameVaryingResourceKey.findings(context)[k];
            &&& typeset(fact.symbol@)
            &&& fact.call_index < context.qualified_calls.calls@.len()
            &&& may_only_reach(context, call, fact.symbol@)
            &&& runs_per_frame(context, fact.call_index)
            &&& points_at(context, report, call.file, call.call_range)
        }),
{
    let i = kept_report_has_fact(
        context.cost_facts.frame_varying_keys@.len() as int,
        |i: int| varying_key_at(context, i),
        varying_key_finder(context),
        k,
    );
    let fact = context.cost_facts.frame_varying_keys@[i];
    goal_may_only_be_called(
        context,
        context.qualified_calls.calls@[fact.call_index as int],
        fact.symbol@,
    );
    i
}

/// Every report on a costly construction is about a call of a costly class
/// that runs on every frame and whose key is not known to vary.
pub proof fn only_costly_constructions_are_reported(context: RuleContext<'_>, k: int) -> (i: int)
    requires
        0 <= k < HotExpensiveConstruction.findings(context).len(),
    ensures
        0 <= i < context.cost_facts.constructions@.len(),
        ({
            let fact = context.cost_facts.constructions@[i];
            let call = context.qualified_calls.calls@[fact.call_index as int];
            let report = HotExpensiveConstruction.findings(context)[k];
            &&& costly(fact.symbol@)
            &&& fact.call_index < context.qualified_calls.calls@.len()
            &&& may_only_reach(context, call, fact.symbol@)
            &&& runs_per_frame(context, fact.call_index)
            &&& points_at(context, report, call.file, call.call_range)
            &&& forall|m: int|
                0 <= m < context.cost_facts.frame_varying_keys@.len() && typeset(
                    (#[trigger] context.cost_facts.frame_varying_keys@[m]).symbol@,
                ) ==> context.cost_facts.frame_varying_keys@[m].call_index != fact.call_index
        }),
{
    let i = kept_report_has_fact(
        context.cost_facts.constructions@.len() as int,
        |i: int| hot_construction_at(context, i),
        hot_construction_finder(context),
        k,
    );
    let fact = context.cost_facts.constructions@[i];
    goal_may_only_be_called(
        context,
        context.qualified_calls.calls@[fact.call_index as int],
        fact.symbol@,
    );
    i
}

} // verus!
