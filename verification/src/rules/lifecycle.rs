//! Lifecycle rules: how scenes, animations, and updaters are used over time.
pub mod builder_rules;
pub mod callbacks;
pub mod constructors;
pub mod identity;
pub mod membership;
pub mod override_chain;
pub mod ownership;
pub mod play_args;
pub mod play_conflicts;
pub mod state_targets;
pub mod structure;
pub mod support;
pub mod timing;
pub mod updaters;

use crate::rules::registered::RegisteredRule;
use crate::rules::registry::facts;
use crate::rules::registry_laws::lifecycle_is_whole;
use crate::text::numeral;
use vstd::prelude::*;

verus! {

/// The lifecycle rules, in rule-ID order.
pub open spec fn registered() -> Seq<RegisteredRule> {
    seq![
        RegisteredRule::EmptyPlay,
        RegisteredRule::NonAnimationPlayArgument,
        RegisteredRule::BoundMethodPlayArgument,
        RegisteredRule::NonPositiveDuration,
        RegisteredRule::UpdaterCannotBind,
        RegisteredRule::FrozenFrameStopCondition,
        RegisteredRule::MissingGeneratedTarget,
        RegisteredRule::ConflictingPlayWrites,
        RegisteredRule::EmptyAnimationGroup,
        RegisteredRule::SelfOrCyclicChild,
        RegisteredRule::OrphanedUpdaterObject,
        RegisteredRule::FrozenWaitFrameVaryingUpdater,
        RegisteredRule::AnimateKwargsAfterMethod,
        RegisteredRule::UnsupportedOverrideAnimateChain,
        RegisteredRule::RemovedChildReappears,
        RegisteredRule::PostTransformTargetConfusion,
        RegisteredRule::StaleAnimateBuilder,
        RegisteredRule::UpdaterSuspendResumeDivergence,
        RegisteredRule::ReplaceMissingOld,
        RegisteredRule::MissingSavedState,
        RegisteredRule::TimelineReentry,
        RegisteredRule::ApplyMethodCallResult,
        RegisteredRule::ApplyFunctionCallbackNoMobject,
        RegisteredRule::NonMutatingAnimateMethod,
        RegisteredRule::RemoveUpdaterIdentityMismatch,
        RegisteredRule::InvalidFamilyChild,
        RegisteredRule::DuplicateChild,
        RegisteredRule::MissingSuperInit,
        RegisteredRule::PlayLagRatioStagger,
    ]
}

/// Every lifecycle rule, in rule-ID order: `MLC101` to `MLC129`.
pub fn rules() -> (rules: Vec<RegisteredRule>)
    ensures
        rules@ == registered(),
        rules@.len() == 29,
        forall|i: int|
            0 <= i < 29 ==> facts(#[trigger] rules@[i]).id == "MLC"@ + numeral(
                (101 + i) as nat,
            ),
{
    let rules: Vec<RegisteredRule> = vec![
        RegisteredRule::EmptyPlay,
        RegisteredRule::NonAnimationPlayArgument,
        RegisteredRule::BoundMethodPlayArgument,
        RegisteredRule::NonPositiveDuration,
        RegisteredRule::UpdaterCannotBind,
        RegisteredRule::FrozenFrameStopCondition,
        RegisteredRule::MissingGeneratedTarget,
        RegisteredRule::ConflictingPlayWrites,
        RegisteredRule::EmptyAnimationGroup,
        RegisteredRule::SelfOrCyclicChild,
        RegisteredRule::OrphanedUpdaterObject,
        RegisteredRule::FrozenWaitFrameVaryingUpdater,
        RegisteredRule::AnimateKwargsAfterMethod,
        RegisteredRule::UnsupportedOverrideAnimateChain,
        RegisteredRule::RemovedChildReappears,
        RegisteredRule::PostTransformTargetConfusion,
        RegisteredRule::StaleAnimateBuilder,
        RegisteredRule::UpdaterSuspendResumeDivergence,
        RegisteredRule::ReplaceMissingOld,
        RegisteredRule::MissingSavedState,
        RegisteredRule::TimelineReentry,
        RegisteredRule::ApplyMethodCallResult,
        RegisteredRule::ApplyFunctionCallbackNoMobject,
        RegisteredRule::NonMutatingAnimateMethod,
        RegisteredRule::RemoveUpdaterIdentityMismatch,
        RegisteredRule::InvalidFamilyChild,
        RegisteredRule::DuplicateChild,
        RegisteredRule::MissingSuperInit,
        RegisteredRule::PlayLagRatioStagger,
    ];
    assert(rules@ =~= registered());
    proof {
        assert forall|i: int| 0 <= i < 29 implies facts(#[trigger] rules@[i]).id == "MLC"@
            + numeral((101 + i) as nat) by {
            lifecycle_is_whole(i);
        }
    }
    rules
}

} // verus!
