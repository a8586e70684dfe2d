//! What the lifecycle rules on single calls and their arguments are for.
use super::{
    call_places, calls_stand, may_only_call, on_an_instance, owed, stand_at, target_is_exact,
};
use crate::frontend::{LiteralFact, QualifiedCall};
use crate::rules::base::{Rule, RuleContext};
use crate::rules::lifecycle::play_args::{
    empty_group_at, empty_group_finder, empty_play_at, empty_play_finder, EmptyAnimationGroup,
    EmptyPlay,
};
use crate::rules::lifecycle::play_conflicts::{lag_ratio_at, lag_ratio_finder, PlayLagRatioStagger};
use crate::rules::lifecycle::timing::{frozen_stop_at, frozen_stop_finder, FrozenFrameStopCondition};
use crate::text::found;
use vstd::prelude::*;

verus! {

/// Whether a call is a `play` on a scene.
pub open spec fn plays(context: RuleContext<'_>, call: QualifiedCall) -> bool {
    on_an_instance(call) && may_only_call(context, call, "manim.scene.scene.Scene.play"@)
}

/// A `play` without any animation is reported, and nothing else is.
pub proof fn empty_plays_are_reported(context: RuleContext<'_>)
    ensures
        stand_at(
            context,
            EmptyPlay.findings(context),
            call_places(
                context,
                |call: QualifiedCall|
                    owed(
                        plays(context, call) && call.positional_count == 0 && !call.has_star_args,
                        call.file,
                        call.call_range,
                    ),
            ),
        ),
{
    let finder = empty_play_finder(context);
    let of = |call: QualifiedCall|
        owed(
            plays(context, call) && call.positional_count == 0 && !call.has_star_args,
            call.file,
            call.call_range,
        );
    assert forall|i: int| 0 <= i < context.qualified_calls.calls@.len() implies stand_at(
        context,
        #[trigger] finder(i),
        of(context.qualified_calls.calls@[i]),
    ) by {
        let call = context.qualified_calls.calls@[i];
        assert(finder(i) == found(empty_play_at(context, i)));
        if context.knowledge is Some {
            target_is_exact(context, call, "manim.scene.scene.Scene.play"@);
        }
    }
    calls_stand(context, finder, of);
}

/// An animation group or a succession of nothing is reported, and nothing
/// else is.
pub proof fn empty_groups_are_reported(context: RuleContext<'_>)
    ensures
        stand_at(
            context,
            EmptyAnimationGroup.findings(context),
            call_places(
                context,
                |call: QualifiedCall|
                    owed(
                        (may_only_call(
                            context,
                            call,
                            "manim.animation.composition.AnimationGroup"@,
                        ) || may_only_call(
                            context,
                            call,
                            "manim.animation.composition.Succession"@,
                        )) && call.positional_count == 0 && !call.has_star_args,
                        call.file,
                        call.call_range,
                    ),
            ),
        ),
{
    let finder = empty_group_finder(context);
    let of = |call: QualifiedCall|
        owed(
            (may_only_call(context, call, "manim.animation.composition.AnimationGroup"@)
                || may_only_call(context, call, "manim.animation.composition.Succession"@))
                && call.positional_count == 0 && !call.has_star_args,
            call.file,
            call.call_range,
        );
    assert forall|i: int| 0 <= i < context.qualified_calls.calls@.len() implies stand_at(
        context,
        #[trigger] finder(i),
        of(context.qualified_calls.calls@[i]),
    ) by {
        let call = context.qualified_calls.calls@[i];
        assert(finder(i) == found(empty_group_at(context, i)));
        if context.knowledge is Some {
            target_is_exact(context, call, "manim.animation.composition.AnimationGroup"@);
            target_is_exact(context, call, "manim.animation.composition.Succession"@);
        }
    }
    calls_stand(context, finder, of);
}

/// A `lag_ratio` given to a `play` of two or more animations is reported where
/// it is written, and nothing else is.
pub proof fn staggered_plays_are_reported(context: RuleContext<'_>)
    ensures
        stand_at(
            context,
            PlayLagRatioStagger.findings(context),
            call_places(
                context,
                |call: QualifiedCall|
                    match call.spec_keyword("lag_ratio"@) {
                        Some(argument) => owed(
                            plays(context, call) && call.positional_count > 1
                                && !call.has_star_args,
                            call.file,
                            argument.range,
                        ),
                        None => Seq::empty(),
                    },
            ),
        ),
{
    let finder = lag_ratio_finder(context);
    let of = |call: QualifiedCall|
        match call.spec_keyword("lag_ratio"@) {
            Some(argument) => owed(
                plays(context, call) && call.positional_count > 1 && !call.has_star_args,
                call.file,
                argument.range,
            ),
            None => Seq::empty(),
        };
    assert forall|i: int| 0 <= i < context.qualified_calls.calls@.len() implies stand_at(
        context,
        #[trigger] finder(i),
        of(context.qualified_calls.calls@[i]),
    ) by {
        let call = context.qualified_calls.calls@[i];
        assert(finder(i) == found(lag_ratio_at(context, i)));
        if context.knowledge is Some {
            target_is_exact(context, call, "manim.scene.scene.Scene.play"@);
        }
    }
    calls_stand(context, finder, of);
}

/// A `wait` with a stop condition and a frozen frame is reported at the frozen
/// frame, and nothing else is: `None` is no stop condition.
pub proof fn frozen_stops_are_reported(context: RuleContext<'_>)
    ensures
        stand_at(
            context,
            FrozenFrameStopCondition.findings(context),
            call_places(
                context,
                |call: QualifiedCall|
                    match (call.spec_keyword("stop_condition"@), call.spec_keyword("frozen_frame"@)) {
                        (Some(stop), Some(frozen)) => owed(
                            on_an_instance(call) && may_only_call(
                                context,
                                call,
                                "manim.scene.scene.Scene.wait"@,
                            ) && !(stop.literal matches Some(LiteralFact::NoneLit)) && (
                            frozen.literal matches Some(LiteralFact::Bool(value)) && value),
                            call.file,
                            frozen.range,
                        ),
                        _ => Seq::empty(),
                    },
            ),
        ),
{
    let finder = frozen_stop_finder(context);
    let of = |call: QualifiedCall|
        match (call.spec_keyword("stop_condition"@), call.spec_keyword("frozen_frame"@)) {
            (Some(stop), Some(frozen)) => owed(
                on_an_instance(call) && may_only_call(
                    context,
                    call,
                    "manim.scene.scene.Scene.wait"@,
                ) && !(stop.literal matches Some(LiteralFact::NoneLit)) && (frozen.literal matches Some(
                    LiteralFact::Bool(value),
                ) && value),
                call.file,
                frozen.range,
            ),
            _ => Seq::empty(),
        };
    assert forall|i: int| 0 <= i < context.qualified_calls.calls@.len() implies stand_at(
        context,
        #[trigger] finder(i),
        of(context.qualified_calls.calls@[i]),
    ) by {
        let call = context.qualified_calls.calls@[i];
        assert(finder(i) == found(frozen_stop_at(context, i)));
        if context.knowledge is Some {
            target_is_exact(context, call, "manim.scene.scene.Scene.wait"@);
        }
    }
    calls_stand(context, finder, of);
}

} // verus!
