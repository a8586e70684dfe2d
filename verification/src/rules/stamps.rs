//! Every report names the rule that makes it.
use crate::diagnostic::{Confidence, DiagnosticView, MetadataView};
use crate::rules::base::{Rule, RuleContext};
use crate::rules::lifecycle::builder_rules::{
    mlc113, mlc117, mlc124, AnimateKwargsAfterMethod, NonMutatingAnimateMethod, StaleAnimateBuilder,
};
use crate::rules::lifecycle::callbacks::{mlc123, ApplyFunctionCallbackNoMobject};
use crate::rules::lifecycle::constructors::{mlc128, MissingSuperInit};
use crate::rules::lifecycle::identity::{mlc116, PostTransformTargetConfusion};
use crate::rules::lifecycle::membership::{mlc126, mlc127, DuplicateChild, InvalidFamilyChild};
use crate::rules::lifecycle::override_chain::{mlc114, UnsupportedOverrideAnimateChain};
use crate::rules::lifecycle::ownership::{mlc111, play_inside, OrphanedUpdaterObject};
use crate::rules::lifecycle::play_args::{
    mlc101, mlc102, mlc103, mlc109, mlc122, ApplyMethodCallResult, BoundMethodPlayArgument,
    EmptyAnimationGroup, EmptyPlay, NonAnimationPlayArgument,
};
use crate::rules::lifecycle::play_conflicts::{
    mlc108, mlc129, ConflictingPlayWrites, PlayLagRatioStagger,
};
use crate::rules::lifecycle::state_targets::{
    mlc107, mlc120, MissingGeneratedTarget, MissingSavedState,
};
use crate::rules::lifecycle::structure::{
    mlc110, mlc115, mlc119, RemovedChildReappears, ReplaceMissingOld, SelfOrCyclicChild,
};
use crate::rules::lifecycle::timing::{
    mlc104, mlc106, FrozenFrameStopCondition, NonPositiveDuration,
};
use crate::rules::lifecycle::updaters::{
    mlc105, mlc112, mlc118, mlc121, mlc125, FrozenWaitFrameVaryingUpdater,
    RemoveUpdaterIdentityMismatch, TimelineReentry, UpdaterCannotBind,
    UpdaterSuspendResumeDivergence,
};
use crate::rules::passing::{all_pass, candidates_pass, passing};
use crate::rules::performance::allocation::{mlp211, HotLargeAllocation};
use crate::rules::performance::display_order::{
    mlp209, mlp222, FrontLoadedStaticSuffix, ImageInMovingSuffix,
};
use crate::rules::performance::fork_paths::{mlp225, ForkFastPathLoss};
use crate::rules::performance::hot_construction::{
    mlp201, mlp226, FrameVaryingResourceKey, HotExpensiveConstruction,
};
use crate::rules::performance::hot_receiver::{
    mlp202, mlp203, mlp224, HotFamilyCopy, HotFamilyWalk, HotPointFromProportion,
};
use crate::rules::performance::loop_plays::{mlp210, FixedCountLoopPlays};
use crate::rules::performance::redraw_geometry::{mlp216, StableGeometryRedraw};
use crate::rules::performance::renderer_cost::{
    mlp212, mlp213, mlp223, CairoSurfaceMismatch, LongTranslucentFullScreenAnimation,
    TransparentStrokeCapture,
};
use crate::rules::performance::sampling::{mlp221, ExcessiveSampleCount};
use crate::rules::performance::scene_mutation::{mlp204, HotSceneGraphGrowth};
use crate::rules::performance::svg_cache::{mlp217, FrameVaryingSvgCacheGrowth};
use crate::rules::performance::tex_precompile::{mlp214, SerialTexCompileKeys};
use crate::rules::performance::timing::{mlp205, mlp206, StaticUnfrozenWait, SubFrameDuration};
use crate::rules::performance::traced_path::{mlp220, UnboundedTracedPath};
use crate::rules::performance::transform::{
    mlp207, mlp208, MismatchedTransformBegin, TextFamilyTransform,
};
use crate::rules::performance::updater_waste::{
    mlp215, mlp218, mlp219, FrameInvariantDynamicWait, LongLivedUpdater, NoOpUpdaterCost,
};
use crate::rules::performance::wait_updates::{mlp227, ForcedAlwaysUpdateWait};
use crate::rules::portability::allowed_fonts::{mld306, FontOutsideAllowlist};
use crate::rules::portability::io_hooks::{mld307, FrameCallbackIo};
use crate::rules::portability::paths::{
    mld303, mld305, CaseOnlyAssetMismatch, ForeignPlatformAssetPath,
};
use crate::rules::portability::randomness::{mld302, UnseededGlobalRandom};
use crate::rules::portability::renderer_divergence::{mld304, UnguardedRendererDivergence};
use crate::rules::portability::updater_motion::{mld301, FpsDependentUpdaterMotion};
use crate::rules::registered::RegisteredRule;
use crate::rules::rendering::assets::{mlr104, UnresolvedAssetPath};
use crate::rules::rendering::creation::{mlr101, NonVmobjectCreationTarget};
use crate::rules::rendering::geometry::{mlr106, NonFiniteGeometryLiteral};
use crate::rules::rendering::markup::{mlr105, mlr124, InvalidMarkupLiteral, MarkupInPlainText};
use crate::rules::rendering::register_font::{mlr117, BareRegisterFont};
use crate::rules::rendering::style::{mlr115, mlr126, NonPositiveFontSize, OpacityStrokeRange};
use crate::rules::rendering::supplied::{
    mlr102, mlr107, mlr108, mlr110, mlr111, mlr112, mlr113, mlr114, mlr116, mlr119, mlr120, mlr121,
    mlr125, mlr127, BareMobjectLeaf, BarePlayedAnimate, EmptyPathEdit, FixedPointLayoutAssumption,
    FocalDistanceUnderOpengl, MovingCameraUnderOpengl, NonPoint3Literal, SceneUpdaterMutatesMobject,
    SelfTransform, StaleFixedVisibility, UnbalancedTexLiteral, UnmatchableTexKey,
    UnsupportedRendererApi, ZShiftForStacking,
};
use crate::rules::rendering::tex::{mlr103, TexEscapeCollision};
use crate::semantic::PlayFact;
use crate::source::AllocationSite;
use vstd::prelude::*;

verus! {

/// How sure a confidence is, as a number.
pub open spec fn sureness(confidence: Confidence) -> int {
    match confidence {
        Confidence::Certain => 3,
        Confidence::High => 2,
        Confidence::Medium => 1,
        Confidence::Low => 0,
    }
}

/// Whether a fix, if there is one, edits only the file that the report is
/// about.
pub open spec fn fixes_own_file(report: DiagnosticView) -> bool {
    match report.fix {
        Some(fix) => forall|k: int|
            0 <= k < fix.edits.len() ==> (#[trigger] fix.edits[k]).path == report.path,
        None => true,
    }
}

/// A report that carries a rule's id and severity, is at least as sure as the
/// rule declares to be, explains itself, and edits only the file it is about.
pub open spec fn stamped(report: DiagnosticView, metadata: MetadataView) -> bool {
    &&& report.rule_id == metadata.id
    &&& report.severity == metadata.default_severity
    &&& sureness(report.confidence) >= sureness(metadata.minimum_confidence)
    &&& report.explanation is Some
    &&& fixes_own_file(report)
}

/// The test for a rule's stamp.
pub open spec fn stamp(metadata: MetadataView) -> spec_fn(DiagnosticView) -> bool {
    |report: DiagnosticView| stamped(report, metadata)
}

proof fn empty_play_stamped(context: RuleContext<'_>)
    ensures
        all_pass(EmptyPlay.findings(context), stamp(mlc101())),
{
    broadcast use passing;

}

proof fn non_animation_play_argument_stamped(context: RuleContext<'_>)
    ensures
        all_pass(NonAnimationPlayArgument.findings(context), stamp(mlc102())),
{
    broadcast use passing;

}

proof fn bound_method_play_argument_stamped(context: RuleContext<'_>)
    ensures
        all_pass(BoundMethodPlayArgument.findings(context), stamp(mlc103())),
{
    broadcast use passing;

}

proof fn non_positive_duration_stamped(context: RuleContext<'_>)
    ensures
        all_pass(NonPositiveDuration.findings(context), stamp(mlc104())),
{
    broadcast use passing;

}

proof fn updater_cannot_bind_stamped(context: RuleContext<'_>)
    ensures
        all_pass(UpdaterCannotBind.findings(context), stamp(mlc105())),
{
    broadcast use passing;

}

proof fn frozen_frame_stop_condition_stamped(context: RuleContext<'_>)
    ensures
        all_pass(FrozenFrameStopCondition.findings(context), stamp(mlc106())),
{
    broadcast use passing;

}

proof fn missing_generated_target_stamped(context: RuleContext<'_>)
    ensures
        all_pass(MissingGeneratedTarget.findings(context), stamp(mlc107())),
{
    reveal(all_pass);
}

proof fn conflicting_play_writes_stamped(context: RuleContext<'_>)
    ensures
        all_pass(ConflictingPlayWrites.findings(context), stamp(mlc108())),
{
    broadcast use passing;

}

proof fn empty_animation_group_stamped(context: RuleContext<'_>)
    ensures
        all_pass(EmptyAnimationGroup.findings(context), stamp(mlc109())),
{
    broadcast use passing;

}

proof fn self_or_cyclic_child_stamped(context: RuleContext<'_>)
    ensures
        all_pass(SelfOrCyclicChild.findings(context), stamp(mlc110())),
{
    broadcast use passing;

}

broadcast proof fn inside_same_file(plays: Seq<PlayFact>, site: AllocationSite, i: int)
    ensures
        (#[trigger] play_inside(plays, site, i)) matches Some(play) ==> play.file == site.file,
    decreases plays.len() - i,
{
    if 0 <= i < plays.len() {
        inside_same_file(plays, site, i + 1);
    }
}

proof fn orphaned_updater_object_stamped(context: RuleContext<'_>)
    ensures
        all_pass(OrphanedUpdaterObject.findings(context), stamp(mlc111())),
{
    broadcast use passing;
    broadcast use inside_same_file;

}

proof fn frozen_wait_frame_varying_updater_stamped(context: RuleContext<'_>)
    ensures
        all_pass(FrozenWaitFrameVaryingUpdater.findings(context), stamp(mlc112())),
{
    broadcast use passing;

}

proof fn animate_kwargs_after_method_stamped(context: RuleContext<'_>)
    ensures
        all_pass(AnimateKwargsAfterMethod.findings(context), stamp(mlc113())),
{
    broadcast use passing;

}

proof fn unsupported_override_animate_chain_stamped(context: RuleContext<'_>)
    ensures
        all_pass(UnsupportedOverrideAnimateChain.findings(context), stamp(mlc114())),
{
    broadcast use passing;

}

proof fn removed_child_reappears_stamped(context: RuleContext<'_>)
    ensures
        all_pass(RemovedChildReappears.findings(context), stamp(mlc115())),
{
    broadcast use passing;

}

proof fn post_transform_target_confusion_stamped(context: RuleContext<'_>)
    ensures
        all_pass(PostTransformTargetConfusion.findings(context), stamp(mlc116())),
{
    broadcast use passing;

}

proof fn stale_animate_builder_stamped(context: RuleContext<'_>)
    ensures
        all_pass(StaleAnimateBuilder.findings(context), stamp(mlc117())),
{
    broadcast use passing;

}

proof fn updater_suspend_resume_divergence_stamped(context: RuleContext<'_>)
    ensures
        all_pass(UpdaterSuspendResumeDivergence.findings(context), stamp(mlc118())),
{
    broadcast use passing;

}

proof fn replace_missing_old_stamped(context: RuleContext<'_>)
    ensures
        all_pass(ReplaceMissingOld.findings(context), stamp(mlc119())),
{
    broadcast use passing;

}

proof fn missing_saved_state_stamped(context: RuleContext<'_>)
    ensures
        all_pass(MissingSavedState.findings(context), stamp(mlc120())),
{
    reveal(all_pass);
}

proof fn timeline_reentry_stamped(context: RuleContext<'_>)
    ensures
        all_pass(TimelineReentry.findings(context), stamp(mlc121())),
{
    broadcast use passing;

}

proof fn apply_method_call_result_stamped(context: RuleContext<'_>)
    ensures
        all_pass(ApplyMethodCallResult.findings(context), stamp(mlc122())),
{
    broadcast use passing;

}

proof fn apply_function_callback_no_mobject_stamped(context: RuleContext<'_>)
    ensures
        all_pass(ApplyFunctionCallbackNoMobject.findings(context), stamp(mlc123())),
{
    broadcast use passing;

}

proof fn non_mutating_animate_method_stamped(context: RuleContext<'_>)
    ensures
        all_pass(NonMutatingAnimateMethod.findings(context), stamp(mlc124())),
{
    broadcast use passing;

}

proof fn remove_updater_identity_mismatch_stamped(context: RuleContext<'_>)
    ensures
        all_pass(RemoveUpdaterIdentityMismatch.findings(context), stamp(mlc125())),
{
    broadcast use passing;

}

proof fn invalid_family_child_stamped(context: RuleContext<'_>)
    ensures
        all_pass(InvalidFamilyChild.findings(context), stamp(mlc126())),
{
    broadcast use passing;

}

proof fn duplicate_child_stamped(context: RuleContext<'_>)
    ensures
        all_pass(DuplicateChild.findings(context), stamp(mlc127())),
{
    broadcast use passing;

}

proof fn missing_super_init_stamped(context: RuleContext<'_>)
    ensures
        all_pass(MissingSuperInit.findings(context), stamp(mlc128())),
{
    broadcast use passing;

}

proof fn play_lag_ratio_stagger_stamped(context: RuleContext<'_>)
    ensures
        all_pass(PlayLagRatioStagger.findings(context), stamp(mlc129())),
{
    broadcast use passing;

}

proof fn non_vmobject_creation_target_stamped(context: RuleContext<'_>)
    ensures
        all_pass(NonVmobjectCreationTarget.findings(context), stamp(mlr101())),
{
    broadcast use passing;

}

proof fn bare_played_animate_stamped(context: RuleContext<'_>)
    ensures
        all_pass(BarePlayedAnimate.findings(context), stamp(mlr102())),
{
    broadcast use passing;

}

proof fn tex_escape_collision_stamped(context: RuleContext<'_>)
    ensures
        all_pass(TexEscapeCollision.findings(context), stamp(mlr103())),
{
    broadcast use passing;

}

proof fn unresolved_asset_path_stamped(context: RuleContext<'_>)
    ensures
        all_pass(UnresolvedAssetPath.findings(context), stamp(mlr104())),
{
    broadcast use passing;

}

proof fn invalid_markup_literal_stamped(context: RuleContext<'_>)
    ensures
        all_pass(InvalidMarkupLiteral.findings(context), stamp(mlr105())),
{
    broadcast use passing;

}

proof fn non_finite_geometry_literal_stamped(context: RuleContext<'_>)
    ensures
        all_pass(NonFiniteGeometryLiteral.findings(context), stamp(mlr106())),
{
    broadcast use passing;

}

proof fn unsupported_renderer_api_stamped(context: RuleContext<'_>)
    ensures
        all_pass(UnsupportedRendererApi.findings(context), stamp(mlr107())),
{
    broadcast use passing;

}

proof fn stale_fixed_visibility_stamped(context: RuleContext<'_>)
    ensures
        all_pass(StaleFixedVisibility.findings(context), stamp(mlr108())),
{
    broadcast use passing;

}

proof fn unbalanced_tex_literal_stamped(context: RuleContext<'_>)
    ensures
        all_pass(UnbalancedTexLiteral.findings(context), stamp(mlr110())),
{
    broadcast use passing;

}

proof fn scene_updater_mutates_mobject_stamped(context: RuleContext<'_>)
    ensures
        all_pass(SceneUpdaterMutatesMobject.findings(context), stamp(mlr111())),
{
    broadcast use passing;

}

proof fn fixed_point_layout_assumption_stamped(context: RuleContext<'_>)
    ensures
        all_pass(FixedPointLayoutAssumption.findings(context), stamp(mlr112())),
{
    broadcast use passing;

}

proof fn self_transform_stamped(context: RuleContext<'_>)
    ensures
        all_pass(SelfTransform.findings(context), stamp(mlr113())),
{
    broadcast use passing;

}

proof fn non_point3_literal_stamped(context: RuleContext<'_>)
    ensures
        all_pass(NonPoint3Literal.findings(context), stamp(mlr114())),
{
    broadcast use passing;

}

proof fn non_positive_font_size_stamped(context: RuleContext<'_>)
    ensures
        all_pass(NonPositiveFontSize.findings(context), stamp(mlr115())),
{
    broadcast use passing;

}

proof fn empty_path_edit_stamped(context: RuleContext<'_>)
    ensures
        all_pass(EmptyPathEdit.findings(context), stamp(mlr116())),
{
    broadcast use passing;

}

proof fn bare_register_font_stamped(context: RuleContext<'_>)
    ensures
        all_pass(BareRegisterFont.findings(context), stamp(mlr117())),
{
    broadcast use passing;

}

proof fn moving_camera_under_opengl_stamped(context: RuleContext<'_>)
    ensures
        all_pass(MovingCameraUnderOpengl.findings(context), stamp(mlr119())),
{
    broadcast use passing;

}

proof fn focal_distance_under_opengl_stamped(context: RuleContext<'_>)
    ensures
        all_pass(FocalDistanceUnderOpengl.findings(context), stamp(mlr120())),
{
    broadcast use passing;

}

proof fn z_shift_for_stacking_stamped(context: RuleContext<'_>)
    ensures
        all_pass(ZShiftForStacking.findings(context), stamp(mlr121())),
{
    broadcast use passing;

}

proof fn markup_in_plain_text_stamped(context: RuleContext<'_>)
    ensures
        all_pass(MarkupInPlainText.findings(context), stamp(mlr124())),
{
    broadcast use passing;

}

proof fn bare_mobject_leaf_stamped(context: RuleContext<'_>)
    ensures
        all_pass(BareMobjectLeaf.findings(context), stamp(mlr125())),
{
    broadcast use passing;

}

proof fn opacity_stroke_range_stamped(context: RuleContext<'_>)
    ensures
        all_pass(OpacityStrokeRange.findings(context), stamp(mlr126())),
{
    broadcast use passing;

}

proof fn unmatchable_tex_key_stamped(context: RuleContext<'_>)
    ensures
        all_pass(UnmatchableTexKey.findings(context), stamp(mlr127())),
{
    broadcast use passing;

}

proof fn hot_expensive_construction_stamped(context: RuleContext<'_>)
    ensures
        all_pass(HotExpensiveConstruction.findings(context), stamp(mlp201())),
{
    broadcast use passing;

}

proof fn hot_family_copy_stamped(context: RuleContext<'_>)
    ensures
        all_pass(HotFamilyCopy.findings(context), stamp(mlp202())),
{
    broadcast use passing;

}

proof fn hot_family_walk_stamped(context: RuleContext<'_>)
    ensures
        all_pass(HotFamilyWalk.findings(context), stamp(mlp203())),
{
    broadcast use passing;

}

proof fn hot_scene_graph_growth_stamped(context: RuleContext<'_>)
    ensures
        all_pass(HotSceneGraphGrowth.findings(context), stamp(mlp204())),
{
    broadcast use passing;

}

proof fn static_unfrozen_wait_stamped(context: RuleContext<'_>)
    ensures
        all_pass(StaticUnfrozenWait.findings(context), stamp(mlp205())),
{
    broadcast use passing;

}

proof fn sub_frame_duration_stamped(context: RuleContext<'_>)
    ensures
        all_pass(SubFrameDuration.findings(context), stamp(mlp206())),
{
    broadcast use passing;

}

proof fn mismatched_transform_begin_stamped(context: RuleContext<'_>)
    ensures
        all_pass(MismatchedTransformBegin.findings(context), stamp(mlp207())),
{
    broadcast use passing;

}

proof fn text_family_transform_stamped(context: RuleContext<'_>)
    ensures
        all_pass(TextFamilyTransform.findings(context), stamp(mlp208())),
{
    broadcast use passing;

}

proof fn front_loaded_static_suffix_stamped(context: RuleContext<'_>)
    ensures
        all_pass(FrontLoadedStaticSuffix.findings(context), stamp(mlp209())),
{
    broadcast use passing;

}

proof fn fixed_count_loop_plays_stamped(context: RuleContext<'_>)
    ensures
        all_pass(FixedCountLoopPlays.findings(context), stamp(mlp210())),
{
    broadcast use passing;

}

proof fn hot_large_allocation_stamped(context: RuleContext<'_>)
    ensures
        all_pass(HotLargeAllocation.findings(context), stamp(mlp211())),
{
    broadcast use passing;

}

proof fn long_translucent_full_screen_animation_stamped(context: RuleContext<'_>)
    ensures
        all_pass(LongTranslucentFullScreenAnimation.findings(context), stamp(mlp212())),
{
    broadcast use passing;

}

proof fn cairo_surface_mismatch_stamped(context: RuleContext<'_>)
    ensures
        all_pass(CairoSurfaceMismatch.findings(context), stamp(mlp213())),
{
    broadcast use passing;

}

proof fn serial_tex_compile_keys_stamped(context: RuleContext<'_>)
    ensures
        all_pass(SerialTexCompileKeys.findings(context), stamp(mlp214())),
{
    broadcast use passing;

}

proof fn no_op_updater_cost_stamped(context: RuleContext<'_>)
    ensures
        all_pass(NoOpUpdaterCost.findings(context), stamp(mlp215())),
{
    broadcast use passing;

}

proof fn stable_geometry_redraw_stamped(context: RuleContext<'_>)
    ensures
        all_pass(StableGeometryRedraw.findings(context), stamp(mlp216())),
{
    broadcast use passing;

}

proof fn frame_varying_svg_cache_growth_stamped(context: RuleContext<'_>)
    ensures
        all_pass(FrameVaryingSvgCacheGrowth.findings(context), stamp(mlp217())),
{
    broadcast use passing;

}

proof fn frame_invariant_dynamic_wait_stamped(context: RuleContext<'_>)
    ensures
        all_pass(FrameInvariantDynamicWait.findings(context), stamp(mlp218())),
{
    broadcast use passing;

}

proof fn long_lived_updater_stamped(context: RuleContext<'_>)
    ensures
        all_pass(LongLivedUpdater.findings(context), stamp(mlp219())),
{
    broadcast use passing;

}

proof fn unbounded_traced_path_stamped(context: RuleContext<'_>)
    ensures
        all_pass(UnboundedTracedPath.findings(context), stamp(mlp220())),
{
    broadcast use passing;

}

proof fn excessive_sample_count_stamped(context: RuleContext<'_>)
    ensures
        all_pass(ExcessiveSampleCount.findings(context), stamp(mlp221())),
{
    broadcast use passing;

}

proof fn image_in_moving_suffix_stamped(context: RuleContext<'_>)
    ensures
        all_pass(ImageInMovingSuffix.findings(context), stamp(mlp222())),
{
    broadcast use passing;

}

proof fn transparent_stroke_capture_stamped(context: RuleContext<'_>)
    ensures
        all_pass(TransparentStrokeCapture.findings(context), stamp(mlp223())),
{
    broadcast use passing;

}

proof fn hot_point_from_proportion_stamped(context: RuleContext<'_>)
    ensures
        all_pass(HotPointFromProportion.findings(context), stamp(mlp224())),
{
    broadcast use passing;

}

proof fn fork_fast_path_loss_stamped(context: RuleContext<'_>)
    ensures
        all_pass(ForkFastPathLoss.findings(context), stamp(mlp225())),
{
    reveal(all_pass);
}

proof fn frame_varying_resource_key_stamped(context: RuleContext<'_>)
    ensures
        all_pass(FrameVaryingResourceKey.findings(context), stamp(mlp226())),
{
    broadcast use passing;

}

proof fn forced_always_update_wait_stamped(context: RuleContext<'_>)
    ensures
        all_pass(ForcedAlwaysUpdateWait.findings(context), stamp(mlp227())),
{
    broadcast use passing;

}

proof fn fps_dependent_updater_motion_stamped(context: RuleContext<'_>)
    ensures
        all_pass(FpsDependentUpdaterMotion.findings(context), stamp(mld301())),
{
    broadcast use passing;

    reveal(candidates_pass);
}

proof fn unseeded_global_random_stamped(context: RuleContext<'_>)
    ensures
        all_pass(UnseededGlobalRandom.findings(context), stamp(mld302())),
{
    broadcast use passing;

}

proof fn foreign_platform_asset_path_stamped(context: RuleContext<'_>)
    ensures
        all_pass(ForeignPlatformAssetPath.findings(context), stamp(mld303())),
{
    broadcast use passing;

}

proof fn unguarded_renderer_divergence_stamped(context: RuleContext<'_>)
    ensures
        all_pass(UnguardedRendererDivergence.findings(context), stamp(mld304())),
{
    broadcast use passing;

}

proof fn case_only_asset_mismatch_stamped(context: RuleContext<'_>)
    ensures
        all_pass(CaseOnlyAssetMismatch.findings(context), stamp(mld305())),
{
    broadcast use passing;

}

proof fn font_outside_allowlist_stamped(context: RuleContext<'_>)
    ensures
        all_pass(FontOutsideAllowlist.findings(context), stamp(mld306())),
{
    broadcast use passing;

}

proof fn frame_callback_io_stamped(context: RuleContext<'_>)
    ensures
        all_pass(FrameCallbackIo.findings(context), stamp(mld307())),
{
    broadcast use passing;

}

/// Every diagnostic of a rule carries the id and the severity that the rule
/// declares, is at least as sure as the rule declares to be, explains itself,
/// and fixes nothing outside the file it is about.
pub proof fn reports_are_stamped(rule: RegisteredRule, context: RuleContext<'_>)
    ensures
        forall|i: int|
            0 <= i < rule.findings(context).len() ==> stamped(
                #[trigger] rule.findings(context)[i],
                rule.declared(),
            ),
{
    reveal(all_pass);
    match rule {
        RegisteredRule::EmptyPlay => empty_play_stamped(context),
        RegisteredRule::NonAnimationPlayArgument => non_animation_play_argument_stamped(context),
        RegisteredRule::BoundMethodPlayArgument => bound_method_play_argument_stamped(context),
        RegisteredRule::NonPositiveDuration => non_positive_duration_stamped(context),
        RegisteredRule::UpdaterCannotBind => updater_cannot_bind_stamped(context),
        RegisteredRule::FrozenFrameStopCondition => frozen_frame_stop_condition_stamped(context),
        RegisteredRule::MissingGeneratedTarget => missing_generated_target_stamped(context),
        RegisteredRule::ConflictingPlayWrites => conflicting_play_writes_stamped(context),
        RegisteredRule::EmptyAnimationGroup => empty_animation_group_stamped(context),
        RegisteredRule::SelfOrCyclicChild => self_or_cyclic_child_stamped(context),
        RegisteredRule::OrphanedUpdaterObject => orphaned_updater_object_stamped(context),
        RegisteredRule::FrozenWaitFrameVaryingUpdater => {
            frozen_wait_frame_varying_updater_stamped(context);
        },
        RegisteredRule::AnimateKwargsAfterMethod => animate_kwargs_after_method_stamped(context),
        RegisteredRule::UnsupportedOverrideAnimateChain => unsupported_override_animate_chain_stamped(context),
        RegisteredRule::RemovedChildReappears => removed_child_reappears_stamped(context),
        RegisteredRule::PostTransformTargetConfusion => {
            post_transform_target_confusion_stamped(context);
        },
        RegisteredRule::StaleAnimateBuilder => stale_animate_builder_stamped(context),
        RegisteredRule::UpdaterSuspendResumeDivergence => {
            updater_suspend_resume_divergence_stamped(context);
        },
        RegisteredRule::ReplaceMissingOld => replace_missing_old_stamped(context),
        RegisteredRule::MissingSavedState => missing_saved_state_stamped(context),
        RegisteredRule::TimelineReentry => timeline_reentry_stamped(context),
        RegisteredRule::ApplyMethodCallResult => apply_method_call_result_stamped(context),
        RegisteredRule::ApplyFunctionCallbackNoMobject => {
            apply_function_callback_no_mobject_stamped(context);
        },
        RegisteredRule::NonMutatingAnimateMethod => non_mutating_animate_method_stamped(context),
        RegisteredRule::RemoveUpdaterIdentityMismatch => {
            remove_updater_identity_mismatch_stamped(context);
        },
        RegisteredRule::InvalidFamilyChild => invalid_family_child_stamped(context),
        RegisteredRule::DuplicateChild => duplicate_child_stamped(context),
        RegisteredRule::MissingSuperInit => missing_super_init_stamped(context),
        RegisteredRule::PlayLagRatioStagger => play_lag_ratio_stagger_stamped(context),
        RegisteredRule::NonVmobjectCreationTarget => non_vmobject_creation_target_stamped(context),
        RegisteredRule::BarePlayedAnimate => bare_played_animate_stamped(context),
        RegisteredRule::TexEscapeCollision => tex_escape_collision_stamped(context),
        RegisteredRule::UnresolvedAssetPath => unresolved_asset_path_stamped(context),
        RegisteredRule::InvalidMarkupLiteral => invalid_markup_literal_stamped(context),
        RegisteredRule::NonFiniteGeometryLiteral => non_finite_geometry_literal_stamped(context),
        RegisteredRule::UnsupportedRendererApi => unsupported_renderer_api_stamped(context),
        RegisteredRule::StaleFixedVisibility => stale_fixed_visibility_stamped(context),
        RegisteredRule::UnbalancedTexLiteral => unbalanced_tex_literal_stamped(context),
        RegisteredRule::SceneUpdaterMutatesMobject => scene_updater_mutates_mobject_stamped(context),
        RegisteredRule::FixedPointLayoutAssumption => fixed_point_layout_assumption_stamped(context),
        RegisteredRule::SelfTransform => self_transform_stamped(context),
        RegisteredRule::NonPoint3Literal => non_point3_literal_stamped(context),
        RegisteredRule::NonPositiveFontSize => non_positive_font_size_stamped(context),
        RegisteredRule::EmptyPathEdit => empty_path_edit_stamped(context),
        RegisteredRule::BareRegisterFont => bare_register_font_stamped(context),
        RegisteredRule::MovingCameraUnderOpengl => moving_camera_under_opengl_stamped(context),
        RegisteredRule::FocalDistanceUnderOpengl => focal_distance_under_opengl_stamped(context),
        RegisteredRule::ZShiftForStacking => z_shift_for_stacking_stamped(context),
        RegisteredRule::MarkupInPlainText => markup_in_plain_text_stamped(context),
        RegisteredRule::BareMobjectLeaf => bare_mobject_leaf_stamped(context),
        RegisteredRule::OpacityStrokeRange => opacity_stroke_range_stamped(context),
        RegisteredRule::UnmatchableTexKey => unmatchable_tex_key_stamped(context),
        RegisteredRule::HotExpensiveConstruction => hot_expensive_construction_stamped(context),
        RegisteredRule::HotFamilyCopy => hot_family_copy_stamped(context),
        RegisteredRule::HotFamilyWalk => hot_family_walk_stamped(context),
        RegisteredRule::HotSceneGraphGrowth => hot_scene_graph_growth_stamped(context),
        RegisteredRule::StaticUnfrozenWait => static_unfrozen_wait_stamped(context),
        RegisteredRule::SubFrameDuration => sub_frame_duration_stamped(context),
        RegisteredRule::MismatchedTransformBegin => mismatched_transform_begin_stamped(context),
        RegisteredRule::TextFamilyTransform => text_family_transform_stamped(context),
        RegisteredRule::FrontLoadedStaticSuffix => front_loaded_static_suffix_stamped(context),
        RegisteredRule::FixedCountLoopPlays => fixed_count_loop_plays_stamped(context),
        RegisteredRule::HotLargeAllocation => hot_large_allocation_stamped(context),
        RegisteredRule::LongTranslucentFullScreenAnimation => {
            long_translucent_full_screen_animation_stamped(context);
        },
        RegisteredRule::CairoSurfaceMismatch => cairo_surface_mismatch_stamped(context),
        RegisteredRule::SerialTexCompileKeys => serial_tex_compile_keys_stamped(context),
        RegisteredRule::NoOpUpdaterCost => no_op_updater_cost_stamped(context),
        RegisteredRule::StableGeometryRedraw => stable_geometry_redraw_stamped(context),
        RegisteredRule::FrameVaryingSvgCacheGrowth => {
            frame_varying_svg_cache_growth_stamped(context);
        },
        RegisteredRule::FrameInvariantDynamicWait => frame_invariant_dynamic_wait_stamped(context),
        RegisteredRule::LongLivedUpdater => long_lived_updater_stamped(context),
        RegisteredRule::UnboundedTracedPath => unbounded_traced_path_stamped(context),
        RegisteredRule::ExcessiveSampleCount => excessive_sample_count_stamped(context),
        RegisteredRule::ImageInMovingSuffix => image_in_moving_suffix_stamped(context),
        RegisteredRule::TransparentStrokeCapture => transparent_stroke_capture_stamped(context),
        RegisteredRule::HotPointFromProportion => hot_point_from_proportion_stamped(context),
        RegisteredRule::ForkFastPathLoss => fork_fast_path_loss_stamped(context),
        RegisteredRule::FrameVaryingResourceKey => frame_varying_resource_key_stamped(context),
        RegisteredRule::ForcedAlwaysUpdateWait => forced_always_update_wait_stamped(context),
        RegisteredRule::FpsDependentUpdaterMotion => fps_dependent_updater_motion_stamped(context),
        RegisteredRule::UnseededGlobalRandom => unseeded_global_random_stamped(context),
        RegisteredRule::ForeignPlatformAssetPath => foreign_platform_asset_path_stamped(context),
        RegisteredRule::UnguardedRendererDivergence => {
            unguarded_renderer_divergence_stamped(context);
        },
        RegisteredRule::CaseOnlyAssetMismatch => case_only_asset_mismatch_stamped(context),
        RegisteredRule::FontOutsideAllowlist => font_outside_allowlist_stamped(context),
        RegisteredRule::FrameCallbackIo => frame_callback_io_stamped(context),
    }
}

} // verus!
