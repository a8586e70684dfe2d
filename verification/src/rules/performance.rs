//! Performance rules.
pub mod allocation;
pub mod display_order;
pub mod fork_paths;
pub mod frame_scope;
pub mod hot_construction;
pub mod hot_receiver;
pub mod loop_plays;
pub mod redraw_geometry;
pub mod renderer_cost;
pub mod sampling;
pub mod scene_mutation;
pub mod sums;
pub mod support;
pub mod svg_cache;
pub mod tex_precompile;
pub mod timing;
pub mod traced_path;
pub mod transform;
pub mod updater_waste;
pub mod wait_updates;

use crate::rules::registered::RegisteredRule;
use crate::rules::registry::facts;
use crate::rules::registry_laws::performance_is_whole;
use crate::text::numeral;
use vstd::prelude::*;

verus! {

/// The performance rules, in rule-ID order.
pub open spec fn registered() -> Seq<RegisteredRule> {
    seq![
        RegisteredRule::HotExpensiveConstruction,
        RegisteredRule::HotFamilyCopy,
        RegisteredRule::HotFamilyWalk,
        RegisteredRule::HotSceneGraphGrowth,
        RegisteredRule::StaticUnfrozenWait,
        RegisteredRule::SubFrameDuration,
        RegisteredRule::MismatchedTransformBegin,
        RegisteredRule::TextFamilyTransform,
        RegisteredRule::FrontLoadedStaticSuffix,
        RegisteredRule::FixedCountLoopPlays,
        RegisteredRule::HotLargeAllocation,
        RegisteredRule::LongTranslucentFullScreenAnimation,
        RegisteredRule::CairoSurfaceMismatch,
        RegisteredRule::SerialTexCompileKeys,
        RegisteredRule::NoOpUpdaterCost,
        RegisteredRule::StableGeometryRedraw,
        RegisteredRule::FrameVaryingSvgCacheGrowth,
        RegisteredRule::FrameInvariantDynamicWait,
        RegisteredRule::LongLivedUpdater,
        RegisteredRule::UnboundedTracedPath,
        RegisteredRule::ExcessiveSampleCount,
        RegisteredRule::ImageInMovingSuffix,
        RegisteredRule::TransparentStrokeCapture,
        RegisteredRule::HotPointFromProportion,
        RegisteredRule::ForkFastPathLoss,
        RegisteredRule::FrameVaryingResourceKey,
        RegisteredRule::ForcedAlwaysUpdateWait,
    ]
}

/// Every performance rule, in rule-ID order: `MLP201` to `MLP227`.
pub fn rules() -> (rules: Vec<RegisteredRule>)
    ensures
        rules@ == registered(),
        rules@.len() == 27,
        forall|i: int|
            0 <= i < 27 ==> facts(#[trigger] rules@[i]).id == "MLP"@ + numeral(
                (201 + i) as nat,
            ),
{
    let rules: Vec<RegisteredRule> = vec![
        RegisteredRule::HotExpensiveConstruction,
        RegisteredRule::HotFamilyCopy,
        RegisteredRule::HotFamilyWalk,
        RegisteredRule::HotSceneGraphGrowth,
        RegisteredRule::StaticUnfrozenWait,
        RegisteredRule::SubFrameDuration,
        RegisteredRule::MismatchedTransformBegin,
        RegisteredRule::TextFamilyTransform,
        RegisteredRule::FrontLoadedStaticSuffix,
        RegisteredRule::FixedCountLoopPlays,
        RegisteredRule::HotLargeAllocation,
        RegisteredRule::LongTranslucentFullScreenAnimation,
        RegisteredRule::CairoSurfaceMismatch,
        RegisteredRule::SerialTexCompileKeys,
        RegisteredRule::NoOpUpdaterCost,
        RegisteredRule::StableGeometryRedraw,
        RegisteredRule::FrameVaryingSvgCacheGrowth,
        RegisteredRule::FrameInvariantDynamicWait,
        RegisteredRule::LongLivedUpdater,
        RegisteredRule::UnboundedTracedPath,
        RegisteredRule::ExcessiveSampleCount,
        RegisteredRule::ImageInMovingSuffix,
        RegisteredRule::TransparentStrokeCapture,
        RegisteredRule::HotPointFromProportion,
        RegisteredRule::ForkFastPathLoss,
        RegisteredRule::FrameVaryingResourceKey,
        RegisteredRule::ForcedAlwaysUpdateWait,
    ];
    assert(rules@ =~= registered());
    proof {
        assert forall|i: int| 0 <= i < 27 implies facts(#[trigger] rules@[i]).id == "MLP"@
            + numeral((201 + i) as nat) by {
            performance_is_whole(i);
        }
    }
    rules
}

} // verus!
