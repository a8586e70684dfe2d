//! Every report is about active render profiles.
use crate::config::{cairo_names, profile_names, renderer_names, RenderProfile, Renderer};
use crate::diagnostic::DiagnosticView;
use crate::literals::AssetFact;
use crate::rules::base::{Rule, RuleContext};
use crate::rules::lifecycle::builder_rules::{
    AnimateKwargsAfterMethod, NonMutatingAnimateMethod, StaleAnimateBuilder,
};
use crate::rules::lifecycle::callbacks::ApplyFunctionCallbackNoMobject;
use crate::rules::lifecycle::constructors::MissingSuperInit;
use crate::rules::lifecycle::identity::PostTransformTargetConfusion;
use crate::rules::lifecycle::membership::{DuplicateChild, InvalidFamilyChild};
use crate::rules::lifecycle::override_chain::UnsupportedOverrideAnimateChain;
use crate::rules::lifecycle::ownership::OrphanedUpdaterObject;
use crate::rules::lifecycle::play_args::{
    ApplyMethodCallResult, BoundMethodPlayArgument, EmptyAnimationGroup, EmptyPlay,
    NonAnimationPlayArgument,
};
use crate::rules::lifecycle::play_conflicts::{ConflictingPlayWrites, PlayLagRatioStagger};
use crate::rules::lifecycle::state_targets::{MissingGeneratedTarget, MissingSavedState};
use crate::rules::lifecycle::structure::{
    RemovedChildReappears, ReplaceMissingOld, SelfOrCyclicChild,
};
use crate::rules::lifecycle::timing::{FrozenFrameStopCondition, NonPositiveDuration};
use crate::rules::lifecycle::updaters::{
    FrozenWaitFrameVaryingUpdater, RemoveUpdaterIdentityMismatch, TimelineReentry,
    UpdaterCannotBind, UpdaterSuspendResumeDivergence,
};
use crate::rules::passing::{all_pass, candidates_pass, passing};
use crate::rules::performance::allocation::HotLargeAllocation;
use crate::rules::performance::display_order::{FrontLoadedStaticSuffix, ImageInMovingSuffix};
use crate::rules::performance::hot_construction::{
    FrameVaryingResourceKey, HotExpensiveConstruction,
};
use crate::rules::performance::hot_receiver::{HotFamilyCopy, HotFamilyWalk, HotPointFromProportion};
use crate::rules::performance::loop_plays::FixedCountLoopPlays;
use crate::rules::performance::redraw_geometry::StableGeometryRedraw;
use crate::rules::performance::renderer_cost::{
    CairoSurfaceMismatch, LongTranslucentFullScreenAnimation, TransparentStrokeCapture,
};
use crate::rules::performance::sampling::ExcessiveSampleCount;
use crate::rules::performance::scene_mutation::HotSceneGraphGrowth;
use crate::rules::performance::svg_cache::FrameVaryingSvgCacheGrowth;
use crate::rules::performance::tex_precompile::SerialTexCompileKeys;
use crate::rules::performance::timing::{StaticUnfrozenWait, SubFrameDuration};
use crate::rules::performance::traced_path::UnboundedTracedPath;
use crate::rules::performance::transform::{MismatchedTransformBegin, TextFamilyTransform};
use crate::rules::performance::updater_waste::{
    FrameInvariantDynamicWait, LongLivedUpdater, NoOpUpdaterCost,
};
use crate::rules::performance::wait_updates::ForcedAlwaysUpdateWait;
use crate::rules::portability::allowed_fonts::{forbidding_names, FontOutsideAllowlist};
use crate::rules::portability::io_hooks::FrameCallbackIo;
use crate::rules::portability::paths::{
    correcting_profiles, platform_names, CaseOnlyAssetMismatch, ForeignPlatformAssetPath,
};
use crate::rules::portability::randomness::UnseededGlobalRandom;
use crate::rules::portability::renderer_divergence::UnguardedRendererDivergence;
use crate::rules::portability::updater_motion::FpsDependentUpdaterMotion;
use crate::rules::registered::RegisteredRule;
use crate::rules::rendering::assets::{linux_mismatches, missing_names, UnresolvedAssetPath};
use crate::rules::rendering::creation::NonVmobjectCreationTarget;
use crate::rules::rendering::geometry::NonFiniteGeometryLiteral;
use crate::rules::rendering::markup::{InvalidMarkupLiteral, MarkupInPlainText};
use crate::rules::rendering::register_font::BareRegisterFont;
use crate::rules::rendering::style::{NonPositiveFontSize, OpacityStrokeRange};
use crate::rules::rendering::supplied::{
    BareMobjectLeaf, BarePlayedAnimate, EmptyPathEdit, FixedPointLayoutAssumption,
    FocalDistanceUnderOpengl, MovingCameraUnderOpengl, NonPoint3Literal, SceneUpdaterMutatesMobject,
    SelfTransform, StaleFixedVisibility, UnbalancedTexLiteral, UnmatchableTexKey,
    UnsupportedRendererApi, ZShiftForStacking,
};
use crate::rules::rendering::tex::TexEscapeCollision;
use vstd::prelude::*;

verus! {

/// Whether every name is that of a profile.
pub open spec fn listed(names: Seq<Seq<char>>, profiles: Seq<RenderProfile>) -> bool {
    forall|k: int| 0 <= k < names.len() ==> profile_names(profiles).contains(#[trigger] names[k])
}

/// Whether a report names only active profiles.
pub open spec fn names_active(report: DiagnosticView, profiles: Seq<RenderProfile>) -> bool {
    listed(report.applicable_profiles, profiles)
}

/// The test for a report's profiles.
pub open spec fn in_scope(context: RuleContext<'_>) -> spec_fn(DiagnosticView) -> bool {
    |report: DiagnosticView| names_active(report, context.config.active_profiles@)
}

proof fn one_more_listed(names: Seq<Seq<char>>, profiles: Seq<RenderProfile>, p: int)
    requires
        listed(names, profiles),
        0 <= p < profiles.len(),
    ensures
        listed(names.push(profiles[p].name@), profiles),
{
    assert(profile_names(profiles)[p] == profiles[p].name@);
}

proof fn listed_in_longer(names: Seq<Seq<char>>, profiles: Seq<RenderProfile>)
    requires
        profiles.len() > 0,
        listed(names, profiles.drop_last()),
    ensures
        listed(names, profiles),
{
    let rest = profiles.drop_last();
    assert forall|k: int| 0 <= k < names.len() implies profile_names(profiles).contains(
        #[trigger] names[k],
    ) by {
        let p = choose|p: int|
            0 <= p < profile_names(rest).len() && profile_names(rest)[p] == names[k];
        assert(profile_names(profiles)[p] == names[k]);
    }
}

broadcast proof fn cairo_listed(profiles: Seq<RenderProfile>)
    ensures
        listed(#[trigger] cairo_names(profiles), profiles),
    decreases profiles.len(),
{
    if profiles.len() > 0 {
        let rest = cairo_names(profiles.drop_last());
        cairo_listed(profiles.drop_last());
        listed_in_longer(rest, profiles);
        one_more_listed(rest, profiles, profiles.len() - 1);
    }
}

broadcast proof fn renderer_listed(profiles: Seq<RenderProfile>, renderer: Renderer)
    ensures
        listed(#[trigger] renderer_names(profiles, renderer), profiles),
    decreases profiles.len(),
{
    if profiles.len() > 0 {
        let rest = renderer_names(profiles.drop_last(), renderer);
        renderer_listed(profiles.drop_last(), renderer);
        listed_in_longer(rest, profiles);
        one_more_listed(rest, profiles, profiles.len() - 1);
    }
}

broadcast proof fn platform_listed(profiles: Seq<RenderProfile>, windows: bool)
    ensures
        listed(#[trigger] platform_names(profiles, windows), profiles),
    decreases profiles.len(),
{
    if profiles.len() > 0 {
        let rest = platform_names(profiles.drop_last(), windows);
        platform_listed(profiles.drop_last(), windows);
        listed_in_longer(rest, profiles);
        one_more_listed(rest, profiles, profiles.len() - 1);
    }
}

broadcast proof fn forbidding_listed(profiles: Seq<RenderProfile>, font: Seq<char>)
    ensures
        listed(#[trigger] forbidding_names(profiles, font), profiles),
    decreases profiles.len(),
{
    if profiles.len() > 0 {
        let rest = forbidding_names(profiles.drop_last(), font);
        forbidding_listed(profiles.drop_last(), font);
        listed_in_longer(rest, profiles);
        one_more_listed(rest, profiles, profiles.len() - 1);
    }
}

broadcast proof fn mismatching_listed(
    fact: AssetFact,
    profiles: Seq<RenderProfile>,
    corrected: Seq<char>,
    n: int,
)
    requires
        n <= profiles.len(),
    ensures
        listed(#[trigger] linux_mismatches(fact, profiles, corrected, n), profiles),
    decreases n,
{
    if n > 0 {
        mismatching_listed(fact, profiles, corrected, n - 1);
        one_more_listed(linux_mismatches(fact, profiles, corrected, n - 1), profiles, n - 1);
    }
}

broadcast proof fn missing_listed(fact: AssetFact, profiles: Seq<RenderProfile>, n: int)
    requires
        n <= profiles.len(),
    ensures
        listed(#[trigger] missing_names(fact, profiles, n), profiles),
    decreases n,
{
    if n > 0 {
        missing_listed(fact, profiles, n - 1);
        one_more_listed(missing_names(fact, profiles, n - 1), profiles, n - 1);
    }
}

broadcast proof fn correcting_listed(
    fact: AssetFact,
    profiles: Seq<RenderProfile>,
    corrected: Seq<char>,
    n: int,
)
    requires
        n <= profiles.len(),
    ensures
        listed(#[trigger] correcting_profiles(fact, profiles, corrected, n), profiles),
    decreases n,
{
    if n > 0 {
        correcting_listed(fact, profiles, corrected, n - 1);
        one_more_listed(correcting_profiles(fact, profiles, corrected, n - 1), profiles, n - 1);
    }
}

broadcast group listing {
    cairo_listed,
    renderer_listed,
    platform_listed,
    forbidding_listed,
    mismatching_listed,
    missing_listed,
    correcting_listed,
}

proof fn empty_play_scoped(context: RuleContext<'_>)
    ensures
        all_pass(EmptyPlay.findings(context), in_scope(context)),
{
    broadcast use passing;

}

proof fn non_animation_play_argument_scoped(context: RuleContext<'_>)
    ensures
        all_pass(NonAnimationPlayArgument.findings(context), in_scope(context)),
{
    broadcast use passing;

}

proof fn bound_method_play_argument_scoped(context: RuleContext<'_>)
    ensures
        all_pass(BoundMethodPlayArgument.findings(context), in_scope(context)),
{
    broadcast use passing;

}

proof fn non_positive_duration_scoped(context: RuleContext<'_>)
    ensures
        all_pass(NonPositiveDuration.findings(context), in_scope(context)),
{
    broadcast use passing;

}

proof fn updater_cannot_bind_scoped(context: RuleContext<'_>)
    ensures
        all_pass(UpdaterCannotBind.findings(context), in_scope(context)),
{
    broadcast use passing;

}

proof fn frozen_frame_stop_condition_scoped(context: RuleContext<'_>)
    ensures
        all_pass(FrozenFrameStopCondition.findings(context), in_scope(context)),
{
    broadcast use passing;

}

proof fn missing_generated_target_scoped(context: RuleContext<'_>)
    ensures
        all_pass(MissingGeneratedTarget.findings(context), in_scope(context)),
{
    reveal(all_pass);
}

proof fn conflicting_play_writes_scoped(context: RuleContext<'_>)
    ensures
        all_pass(ConflictingPlayWrites.findings(context), in_scope(context)),
{
    broadcast use passing;

}

proof fn empty_animation_group_scoped(context: RuleContext<'_>)
    ensures
        all_pass(EmptyAnimationGroup.findings(context), in_scope(context)),
{
    broadcast use passing;

}

proof fn self_or_cyclic_child_scoped(context: RuleContext<'_>)
    ensures
        all_pass(SelfOrCyclicChild.findings(context), in_scope(context)),
{
    broadcast use passing;

}

proof fn orphaned_updater_object_scoped(context: RuleContext<'_>)
    ensures
        all_pass(OrphanedUpdaterObject.findings(context), in_scope(context)),
{
    broadcast use passing;

}

proof fn frozen_wait_frame_varying_updater_scoped(context: RuleContext<'_>)
    ensures
        all_pass(FrozenWaitFrameVaryingUpdater.findings(context), in_scope(context)),
{
    broadcast use passing;

}

proof fn animate_kwargs_after_method_scoped(context: RuleContext<'_>)
    ensures
        all_pass(AnimateKwargsAfterMethod.findings(context), in_scope(context)),
{
    broadcast use passing;

}

proof fn unsupported_override_animate_chain_scoped(context: RuleContext<'_>)
    ensures
        all_pass(UnsupportedOverrideAnimateChain.findings(context), in_scope(context)),
{
    broadcast use passing;
    broadcast use listing;

}

proof fn removed_child_reappears_scoped(context: RuleContext<'_>)
    ensures
        all_pass(RemovedChildReappears.findings(context), in_scope(context)),
{
    broadcast use passing;

}

proof fn post_transform_target_confusion_scoped(context: RuleContext<'_>)
    ensures
        all_pass(PostTransformTargetConfusion.findings(context), in_scope(context)),
{
    broadcast use passing;

}

proof fn stale_animate_builder_scoped(context: RuleContext<'_>)
    ensures
        all_pass(StaleAnimateBuilder.findings(context), in_scope(context)),
{
    broadcast use passing;

}

proof fn updater_suspend_resume_divergence_scoped(context: RuleContext<'_>)
    ensures
        all_pass(UpdaterSuspendResumeDivergence.findings(context), in_scope(context)),
{
    broadcast use passing;

}

proof fn replace_missing_old_scoped(context: RuleContext<'_>)
    ensures
        all_pass(ReplaceMissingOld.findings(context), in_scope(context)),
{
    broadcast use passing;

}

proof fn missing_saved_state_scoped(context: RuleContext<'_>)
    ensures
        all_pass(MissingSavedState.findings(context), in_scope(context)),
{
    reveal(all_pass);
}

proof fn timeline_reentry_scoped(context: RuleContext<'_>)
    ensures
        all_pass(TimelineReentry.findings(context), in_scope(context)),
{
    broadcast use passing;

}

proof fn apply_method_call_result_scoped(context: RuleContext<'_>)
    ensures
        all_pass(ApplyMethodCallResult.findings(context), in_scope(context)),
{
    broadcast use passing;

}

proof fn apply_function_callback_no_mobject_scoped(context: RuleContext<'_>)
    ensures
        all_pass(ApplyFunctionCallbackNoMobject.findings(context), in_scope(context)),
{
    broadcast use passing;

}

proof fn non_mutating_animate_method_scoped(context: RuleContext<'_>)
    ensures
        all_pass(NonMutatingAnimateMethod.findings(context), in_scope(context)),
{
    broadcast use passing;

}

proof fn remove_updater_identity_mismatch_scoped(context: RuleContext<'_>)
    ensures
        all_pass(RemoveUpdaterIdentityMismatch.findings(context), in_scope(context)),
{
    broadcast use passing;

}

proof fn invalid_family_child_scoped(context: RuleContext<'_>)
    ensures
        all_pass(InvalidFamilyChild.findings(context), in_scope(context)),
{
    broadcast use passing;

}

proof fn duplicate_child_scoped(context: RuleContext<'_>)
    ensures
        all_pass(DuplicateChild.findings(context), in_scope(context)),
{
    broadcast use passing;

}

proof fn missing_super_init_scoped(context: RuleContext<'_>)
    ensures
        all_pass(MissingSuperInit.findings(context), in_scope(context)),
{
    broadcast use passing;

}

proof fn play_lag_ratio_stagger_scoped(context: RuleContext<'_>)
    ensures
        all_pass(PlayLagRatioStagger.findings(context), in_scope(context)),
{
    broadcast use passing;

}

proof fn non_vmobject_creation_target_scoped(context: RuleContext<'_>)
    ensures
        all_pass(NonVmobjectCreationTarget.findings(context), in_scope(context)),
{
    broadcast use passing;

}

proof fn bare_played_animate_scoped(context: RuleContext<'_>)
    ensures
        all_pass(BarePlayedAnimate.findings(context), in_scope(context)),
{
    broadcast use passing;
    broadcast use listing;

}

proof fn tex_escape_collision_scoped(context: RuleContext<'_>)
    ensures
        all_pass(TexEscapeCollision.findings(context), in_scope(context)),
{
    broadcast use passing;

}

proof fn unresolved_asset_path_scoped(context: RuleContext<'_>)
    ensures
        all_pass(UnresolvedAssetPath.findings(context), in_scope(context)),
{
    broadcast use passing;
    broadcast use listing;

}

proof fn invalid_markup_literal_scoped(context: RuleContext<'_>)
    ensures
        all_pass(InvalidMarkupLiteral.findings(context), in_scope(context)),
{
    broadcast use passing;

}

proof fn non_finite_geometry_literal_scoped(context: RuleContext<'_>)
    ensures
        all_pass(NonFiniteGeometryLiteral.findings(context), in_scope(context)),
{
    broadcast use passing;

}

proof fn unsupported_renderer_api_scoped(context: RuleContext<'_>)
    ensures
        all_pass(UnsupportedRendererApi.findings(context), in_scope(context)),
{
    broadcast use passing;
    broadcast use listing;

}

proof fn stale_fixed_visibility_scoped(context: RuleContext<'_>)
    ensures
        all_pass(StaleFixedVisibility.findings(context), in_scope(context)),
{
    broadcast use passing;
    broadcast use listing;

}

proof fn unbalanced_tex_literal_scoped(context: RuleContext<'_>)
    ensures
        all_pass(UnbalancedTexLiteral.findings(context), in_scope(context)),
{
    broadcast use passing;
    broadcast use listing;

}

proof fn scene_updater_mutates_mobject_scoped(context: RuleContext<'_>)
    ensures
        all_pass(SceneUpdaterMutatesMobject.findings(context), in_scope(context)),
{
    broadcast use passing;
    broadcast use listing;

}

proof fn fixed_point_layout_assumption_scoped(context: RuleContext<'_>)
    ensures
        all_pass(FixedPointLayoutAssumption.findings(context), in_scope(context)),
{
    broadcast use passing;
    broadcast use listing;

}

proof fn self_transform_scoped(context: RuleContext<'_>)
    ensures
        all_pass(SelfTransform.findings(context), in_scope(context)),
{
    broadcast use passing;
    broadcast use listing;

}

proof fn non_point3_literal_scoped(context: RuleContext<'_>)
    ensures
        all_pass(NonPoint3Literal.findings(context), in_scope(context)),
{
    broadcast use passing;
    broadcast use listing;

}

proof fn non_positive_font_size_scoped(context: RuleContext<'_>)
    ensures
        all_pass(NonPositiveFontSize.findings(context), in_scope(context)),
{
    broadcast use passing;

}

proof fn empty_path_edit_scoped(context: RuleContext<'_>)
    ensures
        all_pass(EmptyPathEdit.findings(context), in_scope(context)),
{
    broadcast use passing;
    broadcast use listing;

}

proof fn bare_register_font_scoped(context: RuleContext<'_>)
    ensures
        all_pass(BareRegisterFont.findings(context), in_scope(context)),
{
    broadcast use passing;

}

proof fn moving_camera_under_opengl_scoped(context: RuleContext<'_>)
    ensures
        all_pass(MovingCameraUnderOpengl.findings(context), in_scope(context)),
{
    broadcast use passing;
    broadcast use listing;

}

proof fn focal_distance_under_opengl_scoped(context: RuleContext<'_>)
    ensures
        all_pass(FocalDistanceUnderOpengl.findings(context), in_scope(context)),
{
    broadcast use passing;
    broadcast use listing;

}

proof fn z_shift_for_stacking_scoped(context: RuleContext<'_>)
    ensures
        all_pass(ZShiftForStacking.findings(context), in_scope(context)),
{
    broadcast use passing;
    broadcast use listing;

}

proof fn markup_in_plain_text_scoped(context: RuleContext<'_>)
    ensures
        all_pass(MarkupInPlainText.findings(context), in_scope(context)),
{
    broadcast use passing;

}

proof fn bare_mobject_leaf_scoped(context: RuleContext<'_>)
    ensures
        all_pass(BareMobjectLeaf.findings(context), in_scope(context)),
{
    broadcast use passing;
    broadcast use listing;

}

proof fn opacity_stroke_range_scoped(context: RuleContext<'_>)
    ensures
        all_pass(OpacityStrokeRange.findings(context), in_scope(context)),
{
    broadcast use passing;

}

proof fn unmatchable_tex_key_scoped(context: RuleContext<'_>)
    ensures
        all_pass(UnmatchableTexKey.findings(context), in_scope(context)),
{
    broadcast use passing;
    broadcast use listing;

}

proof fn hot_expensive_construction_scoped(context: RuleContext<'_>)
    ensures
        all_pass(HotExpensiveConstruction.findings(context), in_scope(context)),
{
    broadcast use passing;

}

proof fn hot_family_copy_scoped(context: RuleContext<'_>)
    ensures
        all_pass(HotFamilyCopy.findings(context), in_scope(context)),
{
    broadcast use passing;

}

proof fn hot_family_walk_scoped(context: RuleContext<'_>)
    ensures
        all_pass(HotFamilyWalk.findings(context), in_scope(context)),
{
    broadcast use passing;

}

proof fn hot_scene_graph_growth_scoped(context: RuleContext<'_>)
    ensures
        all_pass(HotSceneGraphGrowth.findings(context), in_scope(context)),
{
    broadcast use passing;

}

proof fn static_unfrozen_wait_scoped(context: RuleContext<'_>)
    ensures
        all_pass(StaticUnfrozenWait.findings(context), in_scope(context)),
{
    broadcast use passing;

}

proof fn sub_frame_duration_scoped(context: RuleContext<'_>)
    ensures
        all_pass(SubFrameDuration.findings(context), in_scope(context)),
{
    broadcast use passing;

}

proof fn mismatched_transform_begin_scoped(context: RuleContext<'_>)
    ensures
        all_pass(MismatchedTransformBegin.findings(context), in_scope(context)),
{
    broadcast use passing;

}

proof fn text_family_transform_scoped(context: RuleContext<'_>)
    ensures
        all_pass(TextFamilyTransform.findings(context), in_scope(context)),
{
    broadcast use passing;

}

proof fn front_loaded_static_suffix_scoped(context: RuleContext<'_>)
    ensures
        all_pass(FrontLoadedStaticSuffix.findings(context), in_scope(context)),
{
    broadcast use passing;
    broadcast use listing;

}

proof fn fixed_count_loop_plays_scoped(context: RuleContext<'_>)
    ensures
        all_pass(FixedCountLoopPlays.findings(context), in_scope(context)),
{
    broadcast use passing;

}

proof fn hot_large_allocation_scoped(context: RuleContext<'_>)
    ensures
        all_pass(HotLargeAllocation.findings(context), in_scope(context)),
{
    broadcast use passing;

}

proof fn long_translucent_full_screen_animation_scoped(context: RuleContext<'_>)
    ensures
        all_pass(LongTranslucentFullScreenAnimation.findings(context), in_scope(context)),
{
    broadcast use passing;

}

proof fn cairo_surface_mismatch_scoped(context: RuleContext<'_>)
    ensures
        all_pass(CairoSurfaceMismatch.findings(context), in_scope(context)),
{
    broadcast use passing;
    broadcast use listing;

}

proof fn serial_tex_compile_keys_scoped(context: RuleContext<'_>)
    ensures
        all_pass(SerialTexCompileKeys.findings(context), in_scope(context)),
{
    broadcast use passing;

}

proof fn no_op_updater_cost_scoped(context: RuleContext<'_>)
    ensures
        all_pass(NoOpUpdaterCost.findings(context), in_scope(context)),
{
    broadcast use passing;

}

proof fn stable_geometry_redraw_scoped(context: RuleContext<'_>)
    ensures
        all_pass(StableGeometryRedraw.findings(context), in_scope(context)),
{
    broadcast use passing;

}

proof fn frame_varying_svg_cache_growth_scoped(context: RuleContext<'_>)
    ensures
        all_pass(FrameVaryingSvgCacheGrowth.findings(context), in_scope(context)),
{
    broadcast use passing;

}

proof fn frame_invariant_dynamic_wait_scoped(context: RuleContext<'_>)
    ensures
        all_pass(FrameInvariantDynamicWait.findings(context), in_scope(context)),
{
    broadcast use passing;

}

proof fn long_lived_updater_scoped(context: RuleContext<'_>)
    ensures
        all_pass(LongLivedUpdater.findings(context), in_scope(context)),
{
    broadcast use passing;

}

proof fn unbounded_traced_path_scoped(context: RuleContext<'_>)
    ensures
        all_pass(UnboundedTracedPath.findings(context), in_scope(context)),
{
    broadcast use passing;

}

proof fn excessive_sample_count_scoped(context: RuleContext<'_>)
    ensures
        all_pass(ExcessiveSampleCount.findings(context), in_scope(context)),
{
    broadcast use passing;

}

proof fn image_in_moving_suffix_scoped(context: RuleContext<'_>)
    ensures
        all_pass(ImageInMovingSuffix.findings(context), in_scope(context)),
{
    broadcast use passing;
    broadcast use listing;

}

proof fn transparent_stroke_capture_scoped(context: RuleContext<'_>)
    ensures
        all_pass(TransparentStrokeCapture.findings(context), in_scope(context)),
{
    broadcast use passing;
    broadcast use listing;

}

proof fn hot_point_from_proportion_scoped(context: RuleContext<'_>)
    ensures
        all_pass(HotPointFromProportion.findings(context), in_scope(context)),
{
    broadcast use passing;

}

proof fn frame_varying_resource_key_scoped(context: RuleContext<'_>)
    ensures
        all_pass(FrameVaryingResourceKey.findings(context), in_scope(context)),
{
    broadcast use passing;

}

proof fn forced_always_update_wait_scoped(context: RuleContext<'_>)
    ensures
        all_pass(ForcedAlwaysUpdateWait.findings(context), in_scope(context)),
{
    broadcast use passing;

}

proof fn fps_dependent_updater_motion_scoped(context: RuleContext<'_>)
    ensures
        all_pass(FpsDependentUpdaterMotion.findings(context), in_scope(context)),
{
    broadcast use passing;

    reveal(candidates_pass);
}

proof fn unseeded_global_random_scoped(context: RuleContext<'_>)
    ensures
        all_pass(UnseededGlobalRandom.findings(context), in_scope(context)),
{
    broadcast use passing;

}

proof fn foreign_platform_asset_path_scoped(context: RuleContext<'_>)
    ensures
        all_pass(ForeignPlatformAssetPath.findings(context), in_scope(context)),
{
    broadcast use passing;
    broadcast use listing;

}

proof fn unguarded_renderer_divergence_scoped(context: RuleContext<'_>)
    ensures
        all_pass(UnguardedRendererDivergence.findings(context), in_scope(context)),
{
    broadcast use passing;

}

proof fn case_only_asset_mismatch_scoped(context: RuleContext<'_>)
    ensures
        all_pass(CaseOnlyAssetMismatch.findings(context), in_scope(context)),
{
    broadcast use passing;
    broadcast use listing;

}

proof fn font_outside_allowlist_scoped(context: RuleContext<'_>)
    ensures
        all_pass(FontOutsideAllowlist.findings(context), in_scope(context)),
{
    broadcast use passing;
    broadcast use listing;

}

proof fn frame_callback_io_scoped(context: RuleContext<'_>)
    ensures
        all_pass(FrameCallbackIo.findings(context), in_scope(context)),
{
    broadcast use passing;

}

/// Every diagnostic of a rule is about active render profiles, save for the
/// rule about the fork paths, whose facts name their profiles themselves.
pub proof fn reports_name_active_profiles(rule: RegisteredRule, context: RuleContext<'_>)
    requires
        rule != RegisteredRule::ForkFastPathLoss,
    ensures
        forall|i: int|
            0 <= i < rule.findings(context).len() ==> names_active(
                #[trigger] rule.findings(context)[i],
                context.config.active_profiles@,
            ),
{
    reveal(all_pass);
    match rule {
        RegisteredRule::EmptyPlay => empty_play_scoped(context),
        RegisteredRule::NonAnimationPlayArgument => non_animation_play_argument_scoped(context),
        RegisteredRule::BoundMethodPlayArgument => bound_method_play_argument_scoped(context),
        RegisteredRule::NonPositiveDuration => non_positive_duration_scoped(context),
        RegisteredRule::UpdaterCannotBind => updater_cannot_bind_scoped(context),
        RegisteredRule::FrozenFrameStopCondition => frozen_frame_stop_condition_scoped(context),
        RegisteredRule::MissingGeneratedTarget => missing_generated_target_scoped(context),
        RegisteredRule::ConflictingPlayWrites => conflicting_play_writes_scoped(context),
        RegisteredRule::EmptyAnimationGroup => empty_animation_group_scoped(context),
        RegisteredRule::SelfOrCyclicChild => self_or_cyclic_child_scoped(context),
        RegisteredRule::OrphanedUpdaterObject => orphaned_updater_object_scoped(context),
        RegisteredRule::FrozenWaitFrameVaryingUpdater => {
            frozen_wait_frame_varying_updater_scoped(context);
        },
        RegisteredRule::AnimateKwargsAfterMethod => animate_kwargs_after_method_scoped(context),
        RegisteredRule::UnsupportedOverrideAnimateChain => unsupported_override_animate_chain_scoped(context),
        RegisteredRule::RemovedChildReappears => removed_child_reappears_scoped(context),
        RegisteredRule::PostTransformTargetConfusion => {
            post_transform_target_confusion_scoped(context);
        },
        RegisteredRule::StaleAnimateBuilder => stale_animate_builder_scoped(context),
        RegisteredRule::UpdaterSuspendResumeDivergence => {
            updater_suspend_resume_divergence_scoped(context);
        },
        RegisteredRule::ReplaceMissingOld => replace_missing_old_scoped(context),
        RegisteredRule::MissingSavedState => missing_saved_state_scoped(context),
        RegisteredRule::TimelineReentry => timeline_reentry_scoped(context),
        RegisteredRule::ApplyMethodCallResult => apply_method_call_result_scoped(context),
        RegisteredRule::ApplyFunctionCallbackNoMobject => {
            apply_function_callback_no_mobject_scoped(context);
        },
        RegisteredRule::NonMutatingAnimateMethod => non_mutating_animate_method_scoped(context),
        RegisteredRule::RemoveUpdaterIdentityMismatch => {
            remove_updater_identity_mismatch_scoped(context);
        },
        RegisteredRule::InvalidFamilyChild => invalid_family_child_scoped(context),
        RegisteredRule::DuplicateChild => duplicate_child_scoped(context),
        RegisteredRule::MissingSuperInit => missing_super_init_scoped(context),
        RegisteredRule::PlayLagRatioStagger => play_lag_ratio_stagger_scoped(context),
        RegisteredRule::NonVmobjectCreationTarget => non_vmobject_creation_target_scoped(context),
        RegisteredRule::BarePlayedAnimate => bare_played_animate_scoped(context),
        RegisteredRule::TexEscapeCollision => tex_escape_collision_scoped(context),
        RegisteredRule::UnresolvedAssetPath => unresolved_asset_path_scoped(context),
        RegisteredRule::InvalidMarkupLiteral => invalid_markup_literal_scoped(context),
        RegisteredRule::NonFiniteGeometryLiteral => non_finite_geometry_literal_scoped(context),
        RegisteredRule::UnsupportedRendererApi => unsupported_renderer_api_scoped(context),
        RegisteredRule::StaleFixedVisibility => stale_fixed_visibility_scoped(context),
        RegisteredRule::UnbalancedTexLiteral => unbalanced_tex_literal_scoped(context),
        RegisteredRule::SceneUpdaterMutatesMobject => scene_updater_mutates_mobject_scoped(context),
        RegisteredRule::FixedPointLayoutAssumption => fixed_point_layout_assumption_scoped(context),
        RegisteredRule::SelfTransform => self_transform_scoped(context),
        RegisteredRule::NonPoint3Literal => non_point3_literal_scoped(context),
        RegisteredRule::NonPositiveFontSize => non_positive_font_size_scoped(context),
        RegisteredRule::EmptyPathEdit => empty_path_edit_scoped(context),
        RegisteredRule::BareRegisterFont => bare_register_font_scoped(context),
        RegisteredRule::MovingCameraUnderOpengl => moving_camera_under_opengl_scoped(context),
        RegisteredRule::FocalDistanceUnderOpengl => focal_distance_under_opengl_scoped(context),
        RegisteredRule::ZShiftForStacking => z_shift_for_stacking_scoped(context),
        RegisteredRule::MarkupInPlainText => markup_in_plain_text_scoped(context),
        RegisteredRule::BareMobjectLeaf => bare_mobject_leaf_scoped(context),
        RegisteredRule::OpacityStrokeRange => opacity_stroke_range_scoped(context),
        RegisteredRule::UnmatchableTexKey => unmatchable_tex_key_scoped(context),
        RegisteredRule::HotExpensiveConstruction => hot_expensive_construction_scoped(context),
        RegisteredRule::HotFamilyCopy => hot_family_copy_scoped(context),
        RegisteredRule::HotFamilyWalk => hot_family_walk_scoped(context),
        RegisteredRule::HotSceneGraphGrowth => hot_scene_graph_growth_scoped(context),
        RegisteredRule::StaticUnfrozenWait => static_unfrozen_wait_scoped(context),
        RegisteredRule::SubFrameDuration => sub_frame_duration_scoped(context),
        RegisteredRule::MismatchedTransformBegin => mismatched_transform_begin_scoped(context),
        RegisteredRule::TextFamilyTransform => text_family_transform_scoped(context),
        RegisteredRule::FrontLoadedStaticSuffix => front_loaded_static_suffix_scoped(context),
        RegisteredRule::FixedCountLoopPlays => fixed_count_loop_plays_scoped(context),
        RegisteredRule::HotLargeAllocation => hot_large_allocation_scoped(context),
        RegisteredRule::LongTranslucentFullScreenAnimation => {
            long_translucent_full_screen_animation_scoped(context);
        },
        RegisteredRule::CairoSurfaceMismatch => cairo_surface_mismatch_scoped(context),
        RegisteredRule::SerialTexCompileKeys => serial_tex_compile_keys_scoped(context),
        RegisteredRule::NoOpUpdaterCost => no_op_updater_cost_scoped(context),
        RegisteredRule::StableGeometryRedraw => stable_geometry_redraw_scoped(context),
        RegisteredRule::FrameVaryingSvgCacheGrowth => {
            frame_varying_svg_cache_growth_scoped(context);
        },
        RegisteredRule::FrameInvariantDynamicWait => frame_invariant_dynamic_wait_scoped(context),
        RegisteredRule::LongLivedUpdater => long_lived_updater_scoped(context),
        RegisteredRule::UnboundedTracedPath => unbounded_traced_path_scoped(context),
        RegisteredRule::ExcessiveSampleCount => excessive_sample_count_scoped(context),
        RegisteredRule::ImageInMovingSuffix => image_in_moving_suffix_scoped(context),
        RegisteredRule::TransparentStrokeCapture => transparent_stroke_capture_scoped(context),
        RegisteredRule::HotPointFromProportion => hot_point_from_proportion_scoped(context),
        RegisteredRule::FrameVaryingResourceKey => frame_varying_resource_key_scoped(context),
        RegisteredRule::ForcedAlwaysUpdateWait => forced_always_update_wait_scoped(context),
        RegisteredRule::FpsDependentUpdaterMotion => fps_dependent_updater_motion_scoped(context),
        RegisteredRule::UnseededGlobalRandom => unseeded_global_random_scoped(context),
        RegisteredRule::ForeignPlatformAssetPath => foreign_platform_asset_path_scoped(context),
        RegisteredRule::UnguardedRendererDivergence => {
            unguarded_renderer_divergence_scoped(context);
        },
        RegisteredRule::CaseOnlyAssetMismatch => case_only_asset_mismatch_scoped(context),
        RegisteredRule::FontOutsideAllowlist => font_outside_allowlist_scoped(context),
        RegisteredRule::FrameCallbackIo => frame_callback_io_scoped(context),
        RegisteredRule::ForkFastPathLoss => {},
    }
}

} // verus!
