//! What no fact supports is not reported.
use crate::config::{cairo_names, RenderProfile, Renderer};
use crate::rules::base::{Rule, RuleContext};
use crate::rules::dedupe::{kept, kept_entries, CandidateView};
use crate::rules::lifecycle::builder_rules::NonMutatingAnimateMethod;
use crate::rules::lifecycle::callbacks::ApplyFunctionCallbackNoMobject;
use crate::rules::lifecycle::identity::PostTransformTargetConfusion;
use crate::rules::lifecycle::membership::{DuplicateChild, InvalidFamilyChild};
use crate::rules::lifecycle::play_args::{
    ApplyMethodCallResult, BoundMethodPlayArgument, EmptyAnimationGroup, EmptyPlay,
    NonAnimationPlayArgument,
};
use crate::rules::lifecycle::play_conflicts::PlayLagRatioStagger;
use crate::rules::lifecycle::structure::ReplaceMissingOld;
use crate::rules::lifecycle::timing::{FrozenFrameStopCondition, NonPositiveDuration};
use crate::rules::lifecycle::updaters::{TimelineReentry, UpdaterCannotBind};
use crate::rules::performance::allocation::HotLargeAllocation;
use crate::rules::performance::display_order::{FrontLoadedStaticSuffix, ImageInMovingSuffix};
use crate::rules::performance::fork_paths::{all_losses, merged, ForkFastPathLoss};
use crate::rules::performance::hot_construction::{
    FrameVaryingResourceKey, HotExpensiveConstruction,
};
use crate::rules::performance::hot_receiver::{HotFamilyCopy, HotFamilyWalk, HotPointFromProportion};
use crate::rules::performance::loop_plays::FixedCountLoopPlays;
use crate::rules::performance::redraw_geometry::StableGeometryRedraw;
use crate::rules::performance::renderer_cost::{CairoSurfaceMismatch, TransparentStrokeCapture};
use crate::rules::performance::sampling::ExcessiveSampleCount;
use crate::rules::performance::scene_mutation::HotSceneGraphGrowth;
use crate::rules::performance::svg_cache::FrameVaryingSvgCacheGrowth;
use crate::rules::performance::tex_precompile::SerialTexCompileKeys;
use crate::rules::performance::timing::{StaticUnfrozenWait, SubFrameDuration};
use crate::rules::performance::traced_path::UnboundedTracedPath;
use crate::rules::performance::transform::{MismatchedTransformBegin, TextFamilyTransform};
use crate::rules::performance::updater_waste::{FrameInvariantDynamicWait, NoOpUpdaterCost};
use crate::rules::performance::wait_updates::ForcedAlwaysUpdateWait;
use crate::rules::portability::allowed_fonts::FontOutsideAllowlist;
use crate::rules::portability::paths::{CaseOnlyAssetMismatch, ForeignPlatformAssetPath};
use crate::rules::portability::renderer_divergence::UnguardedRendererDivergence;
use crate::rules::portability::updater_motion::FpsDependentUpdaterMotion;
use crate::rules::registered::RegisteredRule;
use crate::rules::rendering::assets::UnresolvedAssetPath;
use crate::rules::rendering::creation::NonVmobjectCreationTarget;
use crate::rules::rendering::geometry::NonFiniteGeometryLiteral;
use crate::rules::rendering::markup::{InvalidMarkupLiteral, MarkupInPlainText};
use crate::rules::rendering::style::{NonPositiveFontSize, OpacityStrokeRange};
use crate::rules::rendering::tex::TexEscapeCollision;
use crate::text::gather;
use vstd::prelude::*;

verus! {

/// A rule reports nothing about a project of which nothing is known: an
/// empty fact set never stands for a defect.
pub proof fn silent_without_facts(rule: RegisteredRule, context: RuleContext<'_>)
    requires
        context.qualified_calls.calls@.len() == 0,
        context.lifecycle_facts.scenes@.len() == 0,
        context.cost_facts.is_empty(),
        context.supplied@.len() == 0,
    ensures
        rule.findings(context).len() == 0,
{
    assert(kept_entries(Seq::<CandidateView>::empty()).len() == 0);
    assert(all_losses(context.cost_facts.fork) =~= Seq::empty());
    assert(merged(Seq::empty()).len() == 0);
}

broadcast proof fn gathered_nothing<A>(n: int, f: spec_fn(int) -> Seq<A>)
    requires
        forall|i: int| 0 <= i < n ==> (#[trigger] f(i)).len() == 0,
    ensures
        (#[trigger] gather(n, f)).len() == 0,
    decreases n,
{
    if n > 0 {
        gathered_nothing(n - 1, f);
    }
}

broadcast proof fn kept_nothing(list: Seq<CandidateView>)
    requires
        list.len() == 0,
    ensures
        (#[trigger] kept(list)).len() == 0,
{
    assert(kept_entries(list).len() == 0);
}

broadcast group silencing {
    gathered_nothing,
    kept_nothing,
}

/// Whether a rule rests on the knowledge profile. The others judge by the
/// facts about the project alone.
pub open spec fn reads_knowledge(rule: RegisteredRule) -> bool {
    match rule {
        RegisteredRule::MissingGeneratedTarget
        | RegisteredRule::ConflictingPlayWrites
        | RegisteredRule::SelfOrCyclicChild
        | RegisteredRule::OrphanedUpdaterObject
        | RegisteredRule::FrozenWaitFrameVaryingUpdater
        | RegisteredRule::AnimateKwargsAfterMethod
        | RegisteredRule::UnsupportedOverrideAnimateChain
        | RegisteredRule::RemovedChildReappears
        | RegisteredRule::StaleAnimateBuilder
        | RegisteredRule::UpdaterSuspendResumeDivergence
        | RegisteredRule::MissingSavedState
        | RegisteredRule::RemoveUpdaterIdentityMismatch
        | RegisteredRule::MissingSuperInit
        | RegisteredRule::BarePlayedAnimate
        | RegisteredRule::UnsupportedRendererApi
        | RegisteredRule::StaleFixedVisibility
        | RegisteredRule::UnbalancedTexLiteral
        | RegisteredRule::SceneUpdaterMutatesMobject
        | RegisteredRule::FixedPointLayoutAssumption
        | RegisteredRule::SelfTransform
        | RegisteredRule::NonPoint3Literal
        | RegisteredRule::EmptyPathEdit
        | RegisteredRule::BareRegisterFont
        | RegisteredRule::MovingCameraUnderOpengl
        | RegisteredRule::FocalDistanceUnderOpengl
        | RegisteredRule::ZShiftForStacking
        | RegisteredRule::BareMobjectLeaf
        | RegisteredRule::UnmatchableTexKey
        | RegisteredRule::FrontLoadedStaticSuffix
        | RegisteredRule::LongTranslucentFullScreenAnimation
        | RegisteredRule::LongLivedUpdater
        | RegisteredRule::ImageInMovingSuffix
        | RegisteredRule::TransparentStrokeCapture
        | RegisteredRule::UnseededGlobalRandom
        | RegisteredRule::UnguardedRendererDivergence
        | RegisteredRule::FrameCallbackIo => false,
        _ => true,
    }
}

proof fn empty_play_unknown(context: RuleContext<'_>)
    requires
        context.knowledge is None,
    ensures
        EmptyPlay.findings(context).len() == 0,
{
    broadcast use silencing;

}

proof fn non_animation_play_argument_unknown(context: RuleContext<'_>)
    requires
        context.knowledge is None,
    ensures
        NonAnimationPlayArgument.findings(context).len() == 0,
{
    broadcast use silencing;

}

proof fn bound_method_play_argument_unknown(context: RuleContext<'_>)
    requires
        context.knowledge is None,
    ensures
        BoundMethodPlayArgument.findings(context).len() == 0,
{
    broadcast use silencing;

}

proof fn non_positive_duration_unknown(context: RuleContext<'_>)
    requires
        context.knowledge is None,
    ensures
        NonPositiveDuration.findings(context).len() == 0,
{
    broadcast use silencing;

}

proof fn updater_cannot_bind_unknown(context: RuleContext<'_>)
    requires
        context.knowledge is None,
    ensures
        UpdaterCannotBind.findings(context).len() == 0,
{
    broadcast use silencing;

}

proof fn frozen_frame_stop_condition_unknown(context: RuleContext<'_>)
    requires
        context.knowledge is None,
    ensures
        FrozenFrameStopCondition.findings(context).len() == 0,
{
    broadcast use silencing;

}

proof fn empty_animation_group_unknown(context: RuleContext<'_>)
    requires
        context.knowledge is None,
    ensures
        EmptyAnimationGroup.findings(context).len() == 0,
{
    broadcast use silencing;

}

proof fn post_transform_target_confusion_unknown(context: RuleContext<'_>)
    requires
        context.knowledge is None,
    ensures
        PostTransformTargetConfusion.findings(context).len() == 0,
{
    broadcast use silencing;

}

proof fn replace_missing_old_unknown(context: RuleContext<'_>)
    requires
        context.knowledge is None,
    ensures
        ReplaceMissingOld.findings(context).len() == 0,
{
    broadcast use silencing;

}

proof fn timeline_reentry_unknown(context: RuleContext<'_>)
    requires
        context.knowledge is None,
    ensures
        TimelineReentry.findings(context).len() == 0,
{
    broadcast use silencing;

}

proof fn apply_method_call_result_unknown(context: RuleContext<'_>)
    requires
        context.knowledge is None,
    ensures
        ApplyMethodCallResult.findings(context).len() == 0,
{
    broadcast use silencing;

}

proof fn apply_function_callback_no_mobject_unknown(context: RuleContext<'_>)
    requires
        context.knowledge is None,
    ensures
        ApplyFunctionCallbackNoMobject.findings(context).len() == 0,
{
    broadcast use silencing;

}

proof fn non_mutating_animate_method_unknown(context: RuleContext<'_>)
    requires
        context.knowledge is None,
    ensures
        NonMutatingAnimateMethod.findings(context).len() == 0,
{
    broadcast use silencing;

}

proof fn invalid_family_child_unknown(context: RuleContext<'_>)
    requires
        context.knowledge is None,
    ensures
        InvalidFamilyChild.findings(context).len() == 0,
{
    broadcast use silencing;

}

proof fn duplicate_child_unknown(context: RuleContext<'_>)
    requires
        context.knowledge is None,
    ensures
        DuplicateChild.findings(context).len() == 0,
{
    broadcast use silencing;

}

proof fn play_lag_ratio_stagger_unknown(context: RuleContext<'_>)
    requires
        context.knowledge is None,
    ensures
        PlayLagRatioStagger.findings(context).len() == 0,
{
    broadcast use silencing;

}

proof fn non_vmobject_creation_target_unknown(context: RuleContext<'_>)
    requires
        context.knowledge is None,
    ensures
        NonVmobjectCreationTarget.findings(context).len() == 0,
{
    broadcast use silencing;

}

proof fn tex_escape_collision_unknown(context: RuleContext<'_>)
    requires
        context.knowledge is None,
    ensures
        TexEscapeCollision.findings(context).len() == 0,
{
    broadcast use silencing;

}

proof fn unresolved_asset_path_unknown(context: RuleContext<'_>)
    requires
        context.knowledge is None,
    ensures
        UnresolvedAssetPath.findings(context).len() == 0,
{
    broadcast use silencing;

}

proof fn invalid_markup_literal_unknown(context: RuleContext<'_>)
    requires
        context.knowledge is None,
    ensures
        InvalidMarkupLiteral.findings(context).len() == 0,
{
    broadcast use silencing;

}

proof fn non_finite_geometry_literal_unknown(context: RuleContext<'_>)
    requires
        context.knowledge is None,
    ensures
        NonFiniteGeometryLiteral.findings(context).len() == 0,
{
    broadcast use silencing;

}

proof fn non_positive_font_size_unknown(context: RuleContext<'_>)
    requires
        context.knowledge is None,
    ensures
        NonPositiveFontSize.findings(context).len() == 0,
{
    broadcast use silencing;

}

proof fn markup_in_plain_text_unknown(context: RuleContext<'_>)
    requires
        context.knowledge is None,
    ensures
        MarkupInPlainText.findings(context).len() == 0,
{
    broadcast use silencing;

}

proof fn opacity_stroke_range_unknown(context: RuleContext<'_>)
    requires
        context.knowledge is None,
    ensures
        OpacityStrokeRange.findings(context).len() == 0,
{
    broadcast use silencing;

}

proof fn hot_expensive_construction_unknown(context: RuleContext<'_>)
    requires
        context.knowledge is None,
    ensures
        HotExpensiveConstruction.findings(context).len() == 0,
{
    broadcast use silencing;

}

proof fn hot_family_copy_unknown(context: RuleContext<'_>)
    requires
        context.knowledge is None,
    ensures
        HotFamilyCopy.findings(context).len() == 0,
{
    broadcast use silencing;

}

proof fn hot_family_walk_unknown(context: RuleContext<'_>)
    requires
        context.knowledge is None,
    ensures
        HotFamilyWalk.findings(context).len() == 0,
{
    broadcast use silencing;

}

proof fn hot_scene_graph_growth_unknown(context: RuleContext<'_>)
    requires
        context.knowledge is None,
    ensures
        HotSceneGraphGrowth.findings(context).len() == 0,
{
    broadcast use silencing;

}

proof fn static_unfrozen_wait_unknown(context: RuleContext<'_>)
    requires
        context.knowledge is None,
    ensures
        StaticUnfrozenWait.findings(context).len() == 0,
{
    broadcast use silencing;

}

proof fn sub_frame_duration_unknown(context: RuleContext<'_>)
    requires
        context.knowledge is None,
    ensures
        SubFrameDuration.findings(context).len() == 0,
{
    broadcast use silencing;

}

proof fn mismatched_transform_begin_unknown(context: RuleContext<'_>)
    requires
        context.knowledge is None,
    ensures
        MismatchedTransformBegin.findings(context).len() == 0,
{
    broadcast use silencing;

}

proof fn text_family_transform_unknown(context: RuleContext<'_>)
    requires
        context.knowledge is None,
    ensures
        TextFamilyTransform.findings(context).len() == 0,
{
    broadcast use silencing;

}

proof fn fixed_count_loop_plays_unknown(context: RuleContext<'_>)
    requires
        context.knowledge is None,
    ensures
        FixedCountLoopPlays.findings(context).len() == 0,
{
    broadcast use silencing;

}

proof fn hot_large_allocation_unknown(context: RuleContext<'_>)
    requires
        context.knowledge is None,
    ensures
        HotLargeAllocation.findings(context).len() == 0,
{
    broadcast use silencing;

}

proof fn cairo_surface_mismatch_unknown(context: RuleContext<'_>)
    requires
        context.knowledge is None,
    ensures
        CairoSurfaceMismatch.findings(context).len() == 0,
{
    broadcast use silencing;

}

proof fn serial_tex_compile_keys_unknown(context: RuleContext<'_>)
    requires
        context.knowledge is None,
    ensures
        SerialTexCompileKeys.findings(context).len() == 0,
{
    broadcast use silencing;

}

proof fn no_op_updater_cost_unknown(context: RuleContext<'_>)
    requires
        context.knowledge is None,
    ensures
        NoOpUpdaterCost.findings(context).len() == 0,
{
    broadcast use silencing;

}

proof fn stable_geometry_redraw_unknown(context: RuleContext<'_>)
    requires
        context.knowledge is None,
    ensures
        StableGeometryRedraw.findings(context).len() == 0,
{
    broadcast use silencing;

}

proof fn frame_varying_svg_cache_growth_unknown(context: RuleContext<'_>)
    requires
        context.knowledge is None,
    ensures
        FrameVaryingSvgCacheGrowth.findings(context).len() == 0,
{
    broadcast use silencing;

}

proof fn frame_invariant_dynamic_wait_unknown(context: RuleContext<'_>)
    requires
        context.knowledge is None,
    ensures
        FrameInvariantDynamicWait.findings(context).len() == 0,
{
    broadcast use silencing;

}

proof fn unbounded_traced_path_unknown(context: RuleContext<'_>)
    requires
        context.knowledge is None,
    ensures
        UnboundedTracedPath.findings(context).len() == 0,
{
    broadcast use silencing;

}

proof fn excessive_sample_count_unknown(context: RuleContext<'_>)
    requires
        context.knowledge is None,
    ensures
        ExcessiveSampleCount.findings(context).len() == 0,
{
    broadcast use silencing;

}

proof fn hot_point_from_proportion_unknown(context: RuleContext<'_>)
    requires
        context.knowledge is None,
    ensures
        HotPointFromProportion.findings(context).len() == 0,
{
    broadcast use silencing;

}

proof fn fork_fast_path_loss_unknown(context: RuleContext<'_>)
    requires
        context.knowledge is None,
    ensures
        ForkFastPathLoss.findings(context).len() == 0,
{
    broadcast use silencing;

}

proof fn frame_varying_resource_key_unknown(context: RuleContext<'_>)
    requires
        context.knowledge is None,
    ensures
        FrameVaryingResourceKey.findings(context).len() == 0,
{
    broadcast use silencing;

}

proof fn forced_always_update_wait_unknown(context: RuleContext<'_>)
    requires
        context.knowledge is None,
    ensures
        ForcedAlwaysUpdateWait.findings(context).len() == 0,
{
    broadcast use silencing;

}

proof fn fps_dependent_updater_motion_unknown(context: RuleContext<'_>)
    requires
        context.knowledge is None,
    ensures
        FpsDependentUpdaterMotion.findings(context).len() == 0,
{
    broadcast use silencing;

}

proof fn foreign_platform_asset_path_unknown(context: RuleContext<'_>)
    requires
        context.knowledge is None,
    ensures
        ForeignPlatformAssetPath.findings(context).len() == 0,
{
    broadcast use silencing;

}

proof fn case_only_asset_mismatch_unknown(context: RuleContext<'_>)
    requires
        context.knowledge is None,
    ensures
        CaseOnlyAssetMismatch.findings(context).len() == 0,
{
    broadcast use silencing;

}

proof fn font_outside_allowlist_unknown(context: RuleContext<'_>)
    requires
        context.knowledge is None,
    ensures
        FontOutsideAllowlist.findings(context).len() == 0,
{
    broadcast use silencing;

}

/// A rule that rests on the knowledge profile reports nothing without one:
/// an unknown symbol is never a defect.
pub proof fn silent_without_knowledge(rule: RegisteredRule, context: RuleContext<'_>)
    requires
        reads_knowledge(rule),
        context.knowledge is None,
    ensures
        rule.findings(context).len() == 0,
{
    match rule {
        RegisteredRule::EmptyPlay => empty_play_unknown(context),
        RegisteredRule::NonAnimationPlayArgument => non_animation_play_argument_unknown(context),
        RegisteredRule::BoundMethodPlayArgument => bound_method_play_argument_unknown(context),
        RegisteredRule::NonPositiveDuration => non_positive_duration_unknown(context),
        RegisteredRule::UpdaterCannotBind => updater_cannot_bind_unknown(context),
        RegisteredRule::FrozenFrameStopCondition => frozen_frame_stop_condition_unknown(context),
        RegisteredRule::EmptyAnimationGroup => empty_animation_group_unknown(context),
        RegisteredRule::PostTransformTargetConfusion => {
            post_transform_target_confusion_unknown(context);
        },
        RegisteredRule::ReplaceMissingOld => replace_missing_old_unknown(context),
        RegisteredRule::TimelineReentry => timeline_reentry_unknown(context),
        RegisteredRule::ApplyMethodCallResult => apply_method_call_result_unknown(context),
        RegisteredRule::ApplyFunctionCallbackNoMobject => {
            apply_function_callback_no_mobject_unknown(context);
        },
        RegisteredRule::NonMutatingAnimateMethod => non_mutating_animate_method_unknown(context),
        RegisteredRule::InvalidFamilyChild => invalid_family_child_unknown(context),
        RegisteredRule::DuplicateChild => duplicate_child_unknown(context),
        RegisteredRule::PlayLagRatioStagger => play_lag_ratio_stagger_unknown(context),
        RegisteredRule::NonVmobjectCreationTarget => non_vmobject_creation_target_unknown(context),
        RegisteredRule::TexEscapeCollision => tex_escape_collision_unknown(context),
        RegisteredRule::UnresolvedAssetPath => unresolved_asset_path_unknown(context),
        RegisteredRule::InvalidMarkupLiteral => invalid_markup_literal_unknown(context),
        RegisteredRule::NonFiniteGeometryLiteral => non_finite_geometry_literal_unknown(context),
        RegisteredRule::NonPositiveFontSize => non_positive_font_size_unknown(context),
        RegisteredRule::MarkupInPlainText => markup_in_plain_text_unknown(context),
        RegisteredRule::OpacityStrokeRange => opacity_stroke_range_unknown(context),
        RegisteredRule::HotExpensiveConstruction => hot_expensive_construction_unknown(context),
        RegisteredRule::HotFamilyCopy => hot_family_copy_unknown(context),
        RegisteredRule::HotFamilyWalk => hot_family_walk_unknown(context),
        RegisteredRule::HotSceneGraphGrowth => hot_scene_graph_growth_unknown(context),
        RegisteredRule::StaticUnfrozenWait => static_unfrozen_wait_unknown(context),
        RegisteredRule::SubFrameDuration => sub_frame_duration_unknown(context),
        RegisteredRule::MismatchedTransformBegin => mismatched_transform_begin_unknown(context),
        RegisteredRule::TextFamilyTransform => text_family_transform_unknown(context),
        RegisteredRule::FixedCountLoopPlays => fixed_count_loop_plays_unknown(context),
        RegisteredRule::HotLargeAllocation => hot_large_allocation_unknown(context),
        RegisteredRule::CairoSurfaceMismatch => cairo_surface_mismatch_unknown(context),
        RegisteredRule::SerialTexCompileKeys => serial_tex_compile_keys_unknown(context),
        RegisteredRule::NoOpUpdaterCost => no_op_updater_cost_unknown(context),
        RegisteredRule::StableGeometryRedraw => stable_geometry_redraw_unknown(context),
        RegisteredRule::FrameVaryingSvgCacheGrowth => {
            frame_varying_svg_cache_growth_unknown(context);
        },
        RegisteredRule::FrameInvariantDynamicWait => frame_invariant_dynamic_wait_unknown(context),
        RegisteredRule::UnboundedTracedPath => unbounded_traced_path_unknown(context),
        RegisteredRule::ExcessiveSampleCount => excessive_sample_count_unknown(context),
        RegisteredRule::HotPointFromProportion => hot_point_from_proportion_unknown(context),
        RegisteredRule::ForkFastPathLoss => fork_fast_path_loss_unknown(context),
        RegisteredRule::FrameVaryingResourceKey => frame_varying_resource_key_unknown(context),
        RegisteredRule::ForcedAlwaysUpdateWait => forced_always_update_wait_unknown(context),
        RegisteredRule::FpsDependentUpdaterMotion => fps_dependent_updater_motion_unknown(context),
        RegisteredRule::ForeignPlatformAssetPath => foreign_platform_asset_path_unknown(context),
        RegisteredRule::CaseOnlyAssetMismatch => case_only_asset_mismatch_unknown(context),
        RegisteredRule::FontOutsideAllowlist => font_outside_allowlist_unknown(context),
        _ => {},
    }
}

/// Whether some active profile renders with Cairo.
pub open spec fn renders_cairo(profiles: Seq<RenderProfile>) -> bool {
    exists|p: int| 0 <= p < profiles.len() && (#[trigger] profiles[p]).renderer == Renderer::Cairo
}

/// Whether a rule judges what only the Cairo renderer does.
pub open spec fn judges_cairo(rule: RegisteredRule) -> bool {
    match rule {
        RegisteredRule::FrontLoadedStaticSuffix
        | RegisteredRule::CairoSurfaceMismatch
        | RegisteredRule::ImageInMovingSuffix
        | RegisteredRule::TransparentStrokeCapture
        | RegisteredRule::UnguardedRendererDivergence => true,
        _ => false,
    }
}

broadcast proof fn no_cairo_name(profiles: Seq<RenderProfile>)
    requires
        !renders_cairo(profiles),
    ensures
        (#[trigger] cairo_names(profiles)).len() == 0,
    decreases profiles.len(),
{
    if profiles.len() > 0 {
        let rest = profiles.drop_last();
        assert forall|p: int| 0 <= p < rest.len() implies (#[trigger] rest[p]).renderer
            != Renderer::Cairo by {
            assert(profiles[p] == rest[p]);
        }
        assert(profiles[profiles.len() - 1].renderer != Renderer::Cairo);
        no_cairo_name(rest);
    }
}

proof fn front_loaded_static_suffix_off_cairo(context: RuleContext<'_>)
    requires
        !renders_cairo(context.config.active_profiles@),
    ensures
        FrontLoadedStaticSuffix.findings(context).len() == 0,
{
    broadcast use silencing;
    broadcast use no_cairo_name;

}

proof fn cairo_surface_mismatch_off_cairo(context: RuleContext<'_>)
    requires
        !renders_cairo(context.config.active_profiles@),
    ensures
        CairoSurfaceMismatch.findings(context).len() == 0,
{
    broadcast use silencing;
    broadcast use no_cairo_name;

}

proof fn image_in_moving_suffix_off_cairo(context: RuleContext<'_>)
    requires
        !renders_cairo(context.config.active_profiles@),
    ensures
        ImageInMovingSuffix.findings(context).len() == 0,
{
    broadcast use silencing;
    broadcast use no_cairo_name;

}

proof fn transparent_stroke_capture_off_cairo(context: RuleContext<'_>)
    requires
        !renders_cairo(context.config.active_profiles@),
    ensures
        TransparentStrokeCapture.findings(context).len() == 0,
{
    broadcast use silencing;
    broadcast use no_cairo_name;

}

proof fn unguarded_renderer_divergence_off_cairo(context: RuleContext<'_>)
    requires
        !renders_cairo(context.config.active_profiles@),
    ensures
        UnguardedRendererDivergence.findings(context).len() == 0,
{
    broadcast use silencing;
    broadcast use no_cairo_name;

}

/// A rule about the Cairo renderer reports nothing when no active profile
/// renders with it.
pub proof fn silent_without_cairo(rule: RegisteredRule, context: RuleContext<'_>)
    requires
        judges_cairo(rule),
        !renders_cairo(context.config.active_profiles@),
    ensures
        rule.findings(context).len() == 0,
{
    match rule {
        RegisteredRule::FrontLoadedStaticSuffix => front_loaded_static_suffix_off_cairo(context),
        RegisteredRule::CairoSurfaceMismatch => cairo_surface_mismatch_off_cairo(context),
        RegisteredRule::ImageInMovingSuffix => image_in_moving_suffix_off_cairo(context),
        RegisteredRule::TransparentStrokeCapture => transparent_stroke_capture_off_cairo(context),
        RegisteredRule::UnguardedRendererDivergence => {
            unguarded_renderer_divergence_off_cairo(context);
        },
        _ => {},
    }
}

} // verus!
