//! The registered rules as one type.
use crate::diagnostic::{Diagnostic, DiagnosticView, MetadataView, RuleMetadata};
use crate::rules::base::{Rule, RuleContext};
use crate::rules::lifecycle::builder_rules::{
    AnimateKwargsAfterMethod, NonMutatingAnimateMethod, StaleAnimateBuilder,
};
use crate::rules::lifecycle::callbacks::ApplyFunctionCallbackNoMobject;
use crate::rules::lifecycle::constructors::MissingSuperInit;
use crate::rules::lifecycle::identity::PostTransformTargetConfusion;
use crate::rules::lifecycle::membership::{DuplicateChild, InvalidFamilyChild};
use crate::rules::lifecycle::override_chain::UnsupportedOverrideAnimateChain;
use crate::rules::lifecycle::ownership::OrphanedUpdaterObject;
use crate::rules::lifecycle::play_args::{
    ApplyMethodCallResult, BoundMethodPlayArgument, EmptyAnimationGroup, EmptyPlay,
    NonAnimationPlayArgument,
};
use crate::rules::lifecycle::play_conflicts::{ConflictingPlayWrites, PlayLagRatioStagger};
use crate::rules::lifecycle::state_targets::{MissingGeneratedTarget, MissingSavedState};
use crate::rules::lifecycle::structure::{
    RemovedChildReappears, ReplaceMissingOld, SelfOrCyclicChild,
};
use crate::rules::lifecycle::timing::{FrozenFrameStopCondition, NonPositiveDuration};
use crate::rules::lifecycle::updaters::{
    FrozenWaitFrameVaryingUpdater, RemoveUpdaterIdentityMismatch, TimelineReentry,
    UpdaterCannotBind, UpdaterSuspendResumeDivergence,
};
use crate::rules::performance::allocation::HotLargeAllocation;
use crate::rules::performance::display_order::{FrontLoadedStaticSuffix, ImageInMovingSuffix};
use crate::rules::performance::fork_paths::ForkFastPathLoss;
use crate::rules::performance::hot_construction::{
    FrameVaryingResourceKey, HotExpensiveConstruction,
};
use crate::rules::performance::hot_receiver::{HotFamilyCopy, HotFamilyWalk, HotPointFromProportion};
use crate::rules::performance::loop_plays::FixedCountLoopPlays;
use crate::rules::performance::redraw_geometry::StableGeometryRedraw;
use crate::rules::performance::renderer_cost::{
    CairoSurfaceMismatch, LongTranslucentFullScreenAnimation, TransparentStrokeCapture,
};
use crate::rules::performance::sampling::ExcessiveSampleCount;
use crate::rules::performance::scene_mutation::HotSceneGraphGrowth;
use crate::rules::performance::svg_cache::FrameVaryingSvgCacheGrowth;
use crate::rules::performance::tex_precompile::SerialTexCompileKeys;
use crate::rules::performance::timing::{StaticUnfrozenWait, SubFrameDuration};
use crate::rules::performance::traced_path::UnboundedTracedPath;
use crate::rules::performance::transform::{MismatchedTransformBegin, TextFamilyTransform};
use crate::rules::performance::updater_waste::{
    FrameInvariantDynamicWait, LongLivedUpdater, NoOpUpdaterCost,
};
use crate::rules::performance::wait_updates::ForcedAlwaysUpdateWait;
use crate::rules::portability::allowed_fonts::FontOutsideAllowlist;
use crate::rules::portability::io_hooks::FrameCallbackIo;
use crate::rules::portability::paths::{CaseOnlyAssetMismatch, ForeignPlatformAssetPath};
use crate::rules::portability::randomness::UnseededGlobalRandom;
use crate::rules::portability::renderer_divergence::UnguardedRendererDivergence;
use crate::rules::portability::updater_motion::FpsDependentUpdaterMotion;
use crate::rules::rendering::assets::UnresolvedAssetPath;
use crate::rules::rendering::creation::NonVmobjectCreationTarget;
use crate::rules::rendering::geometry::NonFiniteGeometryLiteral;
use crate::rules::rendering::markup::{InvalidMarkupLiteral, MarkupInPlainText};
use crate::rules::rendering::register_font::BareRegisterFont;
use crate::rules::rendering::style::{NonPositiveFontSize, OpacityStrokeRange};
use crate::rules::rendering::supplied::{
    BareMobjectLeaf, BarePlayedAnimate, EmptyPathEdit, FixedPointLayoutAssumption,
    FocalDistanceUnderOpengl, MovingCameraUnderOpengl, NonPoint3Literal, SceneUpdaterMutatesMobject,
    SelfTransform, StaleFixedVisibility, UnbalancedTexLiteral, UnmatchableTexKey,
    UnsupportedRendererApi, ZShiftForStacking,
};
use crate::rules::rendering::tex::TexEscapeCollision;
use vstd::prelude::*;

verus! {

/// Any registered rule.
#[derive(Clone, Copy, Debug, PartialEq, Eq, Structural)]
pub enum RegisteredRule {
    /// `MLC101`.
    EmptyPlay,
    /// `MLC102`.
    NonAnimationPlayArgument,
    /// `MLC103`.
    BoundMethodPlayArgument,
    /// `MLC104`.
    NonPositiveDuration,
    /// `MLC105`.
    UpdaterCannotBind,
    /// `MLC106`.
    FrozenFrameStopCondition,
    /// `MLC107`.
    MissingGeneratedTarget,
    /// `MLC108`.
    ConflictingPlayWrites,
    /// `MLC109`.
    EmptyAnimationGroup,
    /// `MLC110`.
    SelfOrCyclicChild,
    /// `MLC111`.
    OrphanedUpdaterObject,
    /// `MLC112`.
    FrozenWaitFrameVaryingUpdater,
    /// `MLC113`.
    AnimateKwargsAfterMethod,
    /// `MLC114`.
    UnsupportedOverrideAnimateChain,
    /// `MLC115`.
    RemovedChildReappears,
    /// `MLC116`.
    PostTransformTargetConfusion,
    /// `MLC117`.
    StaleAnimateBuilder,
    /// `MLC118`.
    UpdaterSuspendResumeDivergence,
    /// `MLC119`.
    ReplaceMissingOld,
    /// `MLC120`.
    MissingSavedState,
    /// `MLC121`.
    TimelineReentry,
    /// `MLC122`.
    ApplyMethodCallResult,
    /// `MLC123`.
    ApplyFunctionCallbackNoMobject,
    /// `MLC124`.
    NonMutatingAnimateMethod,
    /// `MLC125`.
    RemoveUpdaterIdentityMismatch,
    /// `MLC126`.
    InvalidFamilyChild,
    /// `MLC127`.
    DuplicateChild,
    /// `MLC128`.
    MissingSuperInit,
    /// `MLC129`.
    PlayLagRatioStagger,
    /// `MLR101`.
    NonVmobjectCreationTarget,
    /// `MLR102`.
    BarePlayedAnimate,
    /// `MLR103`.
    TexEscapeCollision,
    /// `MLR104`.
    UnresolvedAssetPath,
    /// `MLR105`.
    InvalidMarkupLiteral,
    /// `MLR106`.
    NonFiniteGeometryLiteral,
    /// `MLR107`.
    UnsupportedRendererApi,
    /// `MLR108`.
    StaleFixedVisibility,
    /// `MLR110`.
    UnbalancedTexLiteral,
    /// `MLR111`.
    SceneUpdaterMutatesMobject,
    /// `MLR112`.
    FixedPointLayoutAssumption,
    /// `MLR113`.
    SelfTransform,
    /// `MLR114`.
    NonPoint3Literal,
    /// `MLR115`.
    NonPositiveFontSize,
    /// `MLR116`.
    EmptyPathEdit,
    /// `MLR117`.
    BareRegisterFont,
    /// `MLR119`.
    MovingCameraUnderOpengl,
    /// `MLR120`.
    FocalDistanceUnderOpengl,
    /// `MLR121`.
    ZShiftForStacking,
    /// `MLR124`.
    MarkupInPlainText,
    /// `MLR125`.
    BareMobjectLeaf,
    /// `MLR126`.
    OpacityStrokeRange,
    /// `MLR127`.
    UnmatchableTexKey,
    /// `MLP201`.
    HotExpensiveConstruction,
    /// `MLP202`.
    HotFamilyCopy,
    /// `MLP203`.
    HotFamilyWalk,
    /// `MLP204`.
    HotSceneGraphGrowth,
    /// `MLP205`.
    StaticUnfrozenWait,
    /// `MLP206`.
    SubFrameDuration,
    /// `MLP207`.
    MismatchedTransformBegin,
    /// `MLP208`.
    TextFamilyTransform,
    /// `MLP209`.
    FrontLoadedStaticSuffix,
    /// `MLP210`.
    FixedCountLoopPlays,
    /// `MLP211`.
    HotLargeAllocation,
    /// `MLP212`.
    LongTranslucentFullScreenAnimation,
    /// `MLP213`.
    CairoSurfaceMismatch,
    /// `MLP214`.
    SerialTexCompileKeys,
    /// `MLP215`.
    NoOpUpdaterCost,
    /// `MLP216`.
    StableGeometryRedraw,
    /// `MLP217`.
    FrameVaryingSvgCacheGrowth,
    /// `MLP218`.
    FrameInvariantDynamicWait,
    /// `MLP219`.
    LongLivedUpdater,
    /// `MLP220`.
    UnboundedTracedPath,
    /// `MLP221`.
    ExcessiveSampleCount,
    /// `MLP222`.
    ImageInMovingSuffix,
    /// `MLP223`.
    TransparentStrokeCapture,
    /// `MLP224`.
    HotPointFromProportion,
    /// `MLP225`.
    ForkFastPathLoss,
    /// `MLP226`.
    FrameVaryingResourceKey,
    /// `MLP227`.
    ForcedAlwaysUpdateWait,
    /// `MLD301`.
    FpsDependentUpdaterMotion,
    /// `MLD302`.
    UnseededGlobalRandom,
    /// `MLD303`.
    ForeignPlatformAssetPath,
    /// `MLD304`.
    UnguardedRendererDivergence,
    /// `MLD305`.
    CaseOnlyAssetMismatch,
    /// `MLD306`.
    FontOutsideAllowlist,
    /// `MLD307`.
    FrameCallbackIo,
}

impl Rule for RegisteredRule {
    open spec fn declared(&self) -> MetadataView {
        match self {
            RegisteredRule::EmptyPlay => EmptyPlay.declared(),
            RegisteredRule::NonAnimationPlayArgument => NonAnimationPlayArgument.declared(),
            RegisteredRule::BoundMethodPlayArgument => BoundMethodPlayArgument.declared(),
            RegisteredRule::NonPositiveDuration => NonPositiveDuration.declared(),
            RegisteredRule::UpdaterCannotBind => UpdaterCannotBind.declared(),
            RegisteredRule::FrozenFrameStopCondition => FrozenFrameStopCondition.declared(),
            RegisteredRule::MissingGeneratedTarget => MissingGeneratedTarget.declared(),
            RegisteredRule::ConflictingPlayWrites => ConflictingPlayWrites.declared(),
            RegisteredRule::EmptyAnimationGroup => EmptyAnimationGroup.declared(),
            RegisteredRule::SelfOrCyclicChild => SelfOrCyclicChild.declared(),
            RegisteredRule::OrphanedUpdaterObject => OrphanedUpdaterObject.declared(),
            RegisteredRule::FrozenWaitFrameVaryingUpdater => FrozenWaitFrameVaryingUpdater.declared(),
            RegisteredRule::AnimateKwargsAfterMethod => AnimateKwargsAfterMethod.declared(),
            RegisteredRule::UnsupportedOverrideAnimateChain => UnsupportedOverrideAnimateChain.declared(),
            RegisteredRule::RemovedChildReappears => RemovedChildReappears.declared(),
            RegisteredRule::PostTransformTargetConfusion => PostTransformTargetConfusion.declared(),
            RegisteredRule::StaleAnimateBuilder => StaleAnimateBuilder.declared(),
            RegisteredRule::UpdaterSuspendResumeDivergence => UpdaterSuspendResumeDivergence.declared(),
            RegisteredRule::ReplaceMissingOld => ReplaceMissingOld.declared(),
            RegisteredRule::MissingSavedState => MissingSavedState.declared(),
            RegisteredRule::TimelineReentry => TimelineReentry.declared(),
            RegisteredRule::ApplyMethodCallResult => ApplyMethodCallResult.declared(),
            RegisteredRule::ApplyFunctionCallbackNoMobject => ApplyFunctionCallbackNoMobject.declared(),
            RegisteredRule::NonMutatingAnimateMethod => NonMutatingAnimateMethod.declared(),
            RegisteredRule::RemoveUpdaterIdentityMismatch => RemoveUpdaterIdentityMismatch.declared(),
            RegisteredRule::InvalidFamilyChild => InvalidFamilyChild.declared(),
            RegisteredRule::DuplicateChild => DuplicateChild.declared(),
            RegisteredRule::MissingSuperInit => MissingSuperInit.declared(),
            RegisteredRule::PlayLagRatioStagger => PlayLagRatioStagger.declared(),
            RegisteredRule::NonVmobjectCreationTarget => NonVmobjectCreationTarget.declared(),
            RegisteredRule::BarePlayedAnimate => BarePlayedAnimate.declared(),
            RegisteredRule::TexEscapeCollision => TexEscapeCollision.declared(),
            RegisteredRule::UnresolvedAssetPath => UnresolvedAssetPath.declared(),
            RegisteredRule::InvalidMarkupLiteral => InvalidMarkupLiteral.declared(),
            RegisteredRule::NonFiniteGeometryLiteral => NonFiniteGeometryLiteral.declared(),
            RegisteredRule::UnsupportedRendererApi => UnsupportedRendererApi.declared(),
            RegisteredRule::StaleFixedVisibility => StaleFixedVisibility.declared(),
            RegisteredRule::UnbalancedTexLiteral => UnbalancedTexLiteral.declared(),
            RegisteredRule::SceneUpdaterMutatesMobject => SceneUpdaterMutatesMobject.declared(),
            RegisteredRule::FixedPointLayoutAssumption => FixedPointLayoutAssumption.declared(),
            RegisteredRule::SelfTransform => SelfTransform.declared(),
            RegisteredRule::NonPoint3Literal => NonPoint3Literal.declared(),
            RegisteredRule::NonPositiveFontSize => NonPositiveFontSize.declared(),
            RegisteredRule::EmptyPathEdit => EmptyPathEdit.declared(),
            RegisteredRule::BareRegisterFont => BareRegisterFont.declared(),
            RegisteredRule::MovingCameraUnderOpengl => MovingCameraUnderOpengl.declared(),
            RegisteredRule::FocalDistanceUnderOpengl => FocalDistanceUnderOpengl.declared(),
            RegisteredRule::ZShiftForStacking => ZShiftForStacking.declared(),
            RegisteredRule::MarkupInPlainText => MarkupInPlainText.declared(),
            RegisteredRule::BareMobjectLeaf => BareMobjectLeaf.declared(),
            RegisteredRule::OpacityStrokeRange => OpacityStrokeRange.declared(),
            RegisteredRule::UnmatchableTexKey => UnmatchableTexKey.declared(),
            RegisteredRule::HotExpensiveConstruction => HotExpensiveConstruction.declared(),
            RegisteredRule::HotFamilyCopy => HotFamilyCopy.declared(),
            RegisteredRule::HotFamilyWalk => HotFamilyWalk.declared(),
            RegisteredRule::HotSceneGraphGrowth => HotSceneGraphGrowth.declared(),
            RegisteredRule::StaticUnfrozenWait => StaticUnfrozenWait.declared(),
            RegisteredRule::SubFrameDuration => SubFrameDuration.declared(),
            RegisteredRule::MismatchedTransformBegin => MismatchedTransformBegin.declared(),
            RegisteredRule::TextFamilyTransform => TextFamilyTransform.declared(),
            RegisteredRule::FrontLoadedStaticSuffix => FrontLoadedStaticSuffix.declared(),
            RegisteredRule::FixedCountLoopPlays => FixedCountLoopPlays.declared(),
            RegisteredRule::HotLargeAllocation => HotLargeAllocation.declared(),
            RegisteredRule::LongTranslucentFullScreenAnimation => LongTranslucentFullScreenAnimation.declared(),
            RegisteredRule::CairoSurfaceMismatch => CairoSurfaceMismatch.declared(),
            RegisteredRule::SerialTexCompileKeys => SerialTexCompileKeys.declared(),
            RegisteredRule::NoOpUpdaterCost => NoOpUpdaterCost.declared(),
            RegisteredRule::StableGeometryRedraw => StableGeometryRedraw.declared(),
            RegisteredRule::FrameVaryingSvgCacheGrowth => FrameVaryingSvgCacheGrowth.declared(),
            RegisteredRule::FrameInvariantDynamicWait => FrameInvariantDynamicWait.declared(),
            RegisteredRule::LongLivedUpdater => LongLivedUpdater.declared(),
            RegisteredRule::UnboundedTracedPath => UnboundedTracedPath.declared(),
            RegisteredRule::ExcessiveSampleCount => ExcessiveSampleCount.declared(),
            RegisteredRule::ImageInMovingSuffix => ImageInMovingSuffix.declared(),
            RegisteredRule::TransparentStrokeCapture => TransparentStrokeCapture.declared(),
            RegisteredRule::HotPointFromProportion => HotPointFromProportion.declared(),
            RegisteredRule::ForkFastPathLoss => ForkFastPathLoss.declared(),
            RegisteredRule::FrameVaryingResourceKey => FrameVaryingResourceKey.declared(),
            RegisteredRule::ForcedAlwaysUpdateWait => ForcedAlwaysUpdateWait.declared(),
            RegisteredRule::FpsDependentUpdaterMotion => FpsDependentUpdaterMotion.declared(),
            RegisteredRule::UnseededGlobalRandom => UnseededGlobalRandom.declared(),
            RegisteredRule::ForeignPlatformAssetPath => ForeignPlatformAssetPath.declared(),
            RegisteredRule::UnguardedRendererDivergence => UnguardedRendererDivergence.declared(),
            RegisteredRule::CaseOnlyAssetMismatch => CaseOnlyAssetMismatch.declared(),
            RegisteredRule::FontOutsideAllowlist => FontOutsideAllowlist.declared(),
            RegisteredRule::FrameCallbackIo => FrameCallbackIo.declared(),
        }
    }

    open spec fn findings(&self, context: RuleContext<'_>) -> Seq<DiagnosticView> {
        match self {
            RegisteredRule::EmptyPlay => EmptyPlay.findings(context),
            RegisteredRule::NonAnimationPlayArgument => NonAnimationPlayArgument.findings(context),
            RegisteredRule::BoundMethodPlayArgument => BoundMethodPlayArgument.findings(context),
            RegisteredRule::NonPositiveDuration => NonPositiveDuration.findings(context),
            RegisteredRule::UpdaterCannotBind => UpdaterCannotBind.findings(context),
            RegisteredRule::FrozenFrameStopCondition => FrozenFrameStopCondition.findings(context),
            RegisteredRule::MissingGeneratedTarget => MissingGeneratedTarget.findings(context),
            RegisteredRule::ConflictingPlayWrites => ConflictingPlayWrites.findings(context),
            RegisteredRule::EmptyAnimationGroup => EmptyAnimationGroup.findings(context),
            RegisteredRule::SelfOrCyclicChild => SelfOrCyclicChild.findings(context),
            RegisteredRule::OrphanedUpdaterObject => OrphanedUpdaterObject.findings(context),
            RegisteredRule::FrozenWaitFrameVaryingUpdater => FrozenWaitFrameVaryingUpdater.findings(context),
            RegisteredRule::AnimateKwargsAfterMethod => AnimateKwargsAfterMethod.findings(context),
            RegisteredRule::UnsupportedOverrideAnimateChain => UnsupportedOverrideAnimateChain.findings(context),
            RegisteredRule::RemovedChildReappears => RemovedChildReappears.findings(context),
            RegisteredRule::PostTransformTargetConfusion => PostTransformTargetConfusion.findings(context),
            RegisteredRule::StaleAnimateBuilder => StaleAnimateBuilder.findings(context),
            RegisteredRule::UpdaterSuspendResumeDivergence => UpdaterSuspendResumeDivergence.findings(context),
            RegisteredRule::ReplaceMissingOld => ReplaceMissingOld.findings(context),
            RegisteredRule::MissingSavedState => MissingSavedState.findings(context),
            RegisteredRule::TimelineReentry => TimelineReentry.findings(context),
            RegisteredRule::ApplyMethodCallResult => ApplyMethodCallResult.findings(context),
            RegisteredRule::ApplyFunctionCallbackNoMobject => ApplyFunctionCallbackNoMobject.findings(context),
            RegisteredRule::NonMutatingAnimateMethod => NonMutatingAnimateMethod.findings(context),
            RegisteredRule::RemoveUpdaterIdentityMismatch => RemoveUpdaterIdentityMismatch.findings(context),
            RegisteredRule::InvalidFamilyChild => InvalidFamilyChild.findings(context),
            RegisteredRule::DuplicateChild => DuplicateChild.findings(context),
            RegisteredRule::MissingSuperInit => MissingSuperInit.findings(context),
            RegisteredRule::PlayLagRatioStagger => PlayLagRatioStagger.findings(context),
            RegisteredRule::NonVmobjectCreationTarget => NonVmobjectCreationTarget.findings(context),
            RegisteredRule::BarePlayedAnimate => BarePlayedAnimate.findings(context),
            RegisteredRule::TexEscapeCollision => TexEscapeCollision.findings(context),
            RegisteredRule::UnresolvedAssetPath => UnresolvedAssetPath.findings(context),
            RegisteredRule::InvalidMarkupLiteral => InvalidMarkupLiteral.findings(context),
            RegisteredRule::NonFiniteGeometryLiteral => NonFiniteGeometryLiteral.findings(context),
            RegisteredRule::UnsupportedRendererApi => UnsupportedRendererApi.findings(context),
            RegisteredRule::StaleFixedVisibility => StaleFixedVisibility.findings(context),
            RegisteredRule::UnbalancedTexLiteral => UnbalancedTexLiteral.findings(context),
            RegisteredRule::SceneUpdaterMutatesMobject => SceneUpdaterMutatesMobject.findings(context),
            RegisteredRule::FixedPointLayoutAssumption => FixedPointLayoutAssumption.findings(context),
            RegisteredRule::SelfTransform => SelfTransform.findings(context),
            RegisteredRule::NonPoint3Literal => NonPoint3Literal.findings(context),
            RegisteredRule::NonPositiveFontSize => NonPositiveFontSize.findings(context),
            RegisteredRule::EmptyPathEdit => EmptyPathEdit.findings(context),
            RegisteredRule::BareRegisterFont => BareRegisterFont.findings(context),
            RegisteredRule::MovingCameraUnderOpengl => MovingCameraUnderOpengl.findings(context),
            RegisteredRule::FocalDistanceUnderOpengl => FocalDistanceUnderOpengl.findings(context),
            RegisteredRule::ZShiftForStacking => ZShiftForStacking.findings(context),
            RegisteredRule::MarkupInPlainText => MarkupInPlainText.findings(context),
            RegisteredRule::BareMobjectLeaf => BareMobjectLeaf.findings(context),
            RegisteredRule::OpacityStrokeRange => OpacityStrokeRange.findings(context),
            RegisteredRule::UnmatchableTexKey => UnmatchableTexKey.findings(context),
            RegisteredRule::HotExpensiveConstruction => HotExpensiveConstruction.findings(context),
            RegisteredRule::HotFamilyCopy => HotFamilyCopy.findings(context),
            RegisteredRule::HotFamilyWalk => HotFamilyWalk.findings(context),
            RegisteredRule::HotSceneGraphGrowth => HotSceneGraphGrowth.findings(context),
            RegisteredRule::StaticUnfrozenWait => StaticUnfrozenWait.findings(context),
            RegisteredRule::SubFrameDuration => SubFrameDuration.findings(context),
            RegisteredRule::MismatchedTransformBegin => MismatchedTransformBegin.findings(context),
            RegisteredRule::TextFamilyTransform => TextFamilyTransform.findings(context),
            RegisteredRule::FrontLoadedStaticSuffix => FrontLoadedStaticSuffix.findings(context),
            RegisteredRule::FixedCountLoopPlays => FixedCountLoopPlays.findings(context),
            RegisteredRule::HotLargeAllocation => HotLargeAllocation.findings(context),
            RegisteredRule::LongTranslucentFullScreenAnimation => LongTranslucentFullScreenAnimation.findings(context),
            RegisteredRule::CairoSurfaceMismatch => CairoSurfaceMismatch.findings(context),
            RegisteredRule::SerialTexCompileKeys => SerialTexCompileKeys.findings(context),
            RegisteredRule::NoOpUpdaterCost => NoOpUpdaterCost.findings(context),
            RegisteredRule::StableGeometryRedraw => StableGeometryRedraw.findings(context),
            RegisteredRule::FrameVaryingSvgCacheGrowth => FrameVaryingSvgCacheGrowth.findings(context),
            RegisteredRule::FrameInvariantDynamicWait => FrameInvariantDynamicWait.findings(context),
            RegisteredRule::LongLivedUpdater => LongLivedUpdater.findings(context),
            RegisteredRule::UnboundedTracedPath => UnboundedTracedPath.findings(context),
            RegisteredRule::ExcessiveSampleCount => ExcessiveSampleCount.findings(context),
            RegisteredRule::ImageInMovingSuffix => ImageInMovingSuffix.findings(context),
            RegisteredRule::TransparentStrokeCapture => TransparentStrokeCapture.findings(context),
            RegisteredRule::HotPointFromProportion => HotPointFromProportion.findings(context),
            RegisteredRule::ForkFastPathLoss => ForkFastPathLoss.findings(context),
            RegisteredRule::FrameVaryingResourceKey => FrameVaryingResourceKey.findings(context),
            RegisteredRule::ForcedAlwaysUpdateWait => ForcedAlwaysUpdateWait.findings(context),
            RegisteredRule::FpsDependentUpdaterMotion => FpsDependentUpdaterMotion.findings(context),
            RegisteredRule::UnseededGlobalRandom => UnseededGlobalRandom.findings(context),
            RegisteredRule::ForeignPlatformAssetPath => ForeignPlatformAssetPath.findings(context),
            RegisteredRule::UnguardedRendererDivergence => UnguardedRendererDivergence.findings(context),
            RegisteredRule::CaseOnlyAssetMismatch => CaseOnlyAssetMismatch.findings(context),
            RegisteredRule::FontOutsideAllowlist => FontOutsideAllowlist.findings(context),
            RegisteredRule::FrameCallbackIo => FrameCallbackIo.findings(context),
        }
    }

    fn metadata(&self) -> (metadata: &'static RuleMetadata) {
        match self {
            RegisteredRule::EmptyPlay => EmptyPlay.metadata(),
            RegisteredRule::NonAnimationPlayArgument => NonAnimationPlayArgument.metadata(),
            RegisteredRule::BoundMethodPlayArgument => BoundMethodPlayArgument.metadata(),
            RegisteredRule::NonPositiveDuration => NonPositiveDuration.metadata(),
            RegisteredRule::UpdaterCannotBind => UpdaterCannotBind.metadata(),
            RegisteredRule::FrozenFrameStopCondition => FrozenFrameStopCondition.metadata(),
            RegisteredRule::MissingGeneratedTarget => MissingGeneratedTarget.metadata(),
            RegisteredRule::ConflictingPlayWrites => ConflictingPlayWrites.metadata(),
            RegisteredRule::EmptyAnimationGroup => EmptyAnimationGroup.metadata(),
            RegisteredRule::SelfOrCyclicChild => SelfOrCyclicChild.metadata(),
            RegisteredRule::OrphanedUpdaterObject => OrphanedUpdaterObject.metadata(),
            RegisteredRule::FrozenWaitFrameVaryingUpdater => FrozenWaitFrameVaryingUpdater.metadata(),
            RegisteredRule::AnimateKwargsAfterMethod => AnimateKwargsAfterMethod.metadata(),
            RegisteredRule::UnsupportedOverrideAnimateChain => UnsupportedOverrideAnimateChain.metadata(),
            RegisteredRule::RemovedChildReappears => RemovedChildReappears.metadata(),
            RegisteredRule::PostTransformTargetConfusion => PostTransformTargetConfusion.metadata(),
            RegisteredRule::StaleAnimateBuilder => StaleAnimateBuilder.metadata(),
            RegisteredRule::UpdaterSuspendResumeDivergence => UpdaterSuspendResumeDivergence.metadata(),
            RegisteredRule::ReplaceMissingOld => ReplaceMissingOld.metadata(),
            RegisteredRule::MissingSavedState => MissingSavedState.metadata(),
            RegisteredRule::TimelineReentry => TimelineReentry.metadata(),
            RegisteredRule::ApplyMethodCallResult => ApplyMethodCallResult.metadata(),
            RegisteredRule::ApplyFunctionCallbackNoMobject => ApplyFunctionCallbackNoMobject.metadata(),
            RegisteredRule::NonMutatingAnimateMethod => NonMutatingAnimateMethod.metadata(),
            RegisteredRule::RemoveUpdaterIdentityMismatch => RemoveUpdaterIdentityMismatch.metadata(),
            RegisteredRule::InvalidFamilyChild => InvalidFamilyChild.metadata(),
            RegisteredRule::DuplicateChild => DuplicateChild.metadata(),
            RegisteredRule::MissingSuperInit => MissingSuperInit.metadata(),
            RegisteredRule::PlayLagRatioStagger => PlayLagRatioStagger.metadata(),
            RegisteredRule::NonVmobjectCreationTarget => NonVmobjectCreationTarget.metadata(),
            RegisteredRule::BarePlayedAnimate => BarePlayedAnimate.metadata(),
            RegisteredRule::TexEscapeCollision => TexEscapeCollision.metadata(),
            RegisteredRule::UnresolvedAssetPath => UnresolvedAssetPath.metadata(),
            RegisteredRule::InvalidMarkupLiteral => InvalidMarkupLiteral.metadata(),
            RegisteredRule::NonFiniteGeometryLiteral => NonFiniteGeometryLiteral.metadata(),
            RegisteredRule::UnsupportedRendererApi => UnsupportedRendererApi.metadata(),
            RegisteredRule::StaleFixedVisibility => StaleFixedVisibility.metadata(),
            RegisteredRule::UnbalancedTexLiteral => UnbalancedTexLiteral.metadata(),
            RegisteredRule::SceneUpdaterMutatesMobject => SceneUpdaterMutatesMobject.metadata(),
            RegisteredRule::FixedPointLayoutAssumption => FixedPointLayoutAssumption.metadata(),
            RegisteredRule::SelfTransform => SelfTransform.metadata(),
            RegisteredRule::NonPoint3Literal => NonPoint3Literal.metadata(),
            RegisteredRule::NonPositiveFontSize => NonPositiveFontSize.metadata(),
            RegisteredRule::EmptyPathEdit => EmptyPathEdit.metadata(),
            RegisteredRule::BareRegisterFont => BareRegisterFont.metadata(),
            RegisteredRule::MovingCameraUnderOpengl => MovingCameraUnderOpengl.metadata(),
            RegisteredRule::FocalDistanceUnderOpengl => FocalDistanceUnderOpengl.metadata(),
            RegisteredRule::ZShiftForStacking => ZShiftForStacking.metadata(),
            RegisteredRule::MarkupInPlainText => MarkupInPlainText.metadata(),
            RegisteredRule::BareMobjectLeaf => BareMobjectLeaf.metadata(),
            RegisteredRule::OpacityStrokeRange => OpacityStrokeRange.metadata(),
            RegisteredRule::UnmatchableTexKey => UnmatchableTexKey.metadata(),
            RegisteredRule::HotExpensiveConstruction => HotExpensiveConstruction.metadata(),
            RegisteredRule::HotFamilyCopy => HotFamilyCopy.metadata(),
            RegisteredRule::HotFamilyWalk => HotFamilyWalk.metadata(),
            RegisteredRule::HotSceneGraphGrowth => HotSceneGraphGrowth.metadata(),
            RegisteredRule::StaticUnfrozenWait => StaticUnfrozenWait.metadata(),
            RegisteredRule::SubFrameDuration => SubFrameDuration.metadata(),
            RegisteredRule::MismatchedTransformBegin => MismatchedTransformBegin.metadata(),
            RegisteredRule::TextFamilyTransform => TextFamilyTransform.metadata(),
            RegisteredRule::FrontLoadedStaticSuffix => FrontLoadedStaticSuffix.metadata(),
            RegisteredRule::FixedCountLoopPlays => FixedCountLoopPlays.metadata(),
            RegisteredRule::HotLargeAllocation => HotLargeAllocation.metadata(),
            RegisteredRule::LongTranslucentFullScreenAnimation => LongTranslucentFullScreenAnimation.metadata(),
            RegisteredRule::CairoSurfaceMismatch => CairoSurfaceMismatch.metadata(),
            RegisteredRule::SerialTexCompileKeys => SerialTexCompileKeys.metadata(),
            RegisteredRule::NoOpUpdaterCost => NoOpUpdaterCost.metadata(),
            RegisteredRule::StableGeometryRedraw => StableGeometryRedraw.metadata(),
            RegisteredRule::FrameVaryingSvgCacheGrowth => FrameVaryingSvgCacheGrowth.metadata(),
            RegisteredRule::FrameInvariantDynamicWait => FrameInvariantDynamicWait.metadata(),
            RegisteredRule::LongLivedUpdater => LongLivedUpdater.metadata(),
            RegisteredRule::UnboundedTracedPath => UnboundedTracedPath.metadata(),
            RegisteredRule::ExcessiveSampleCount => ExcessiveSampleCount.metadata(),
            RegisteredRule::ImageInMovingSuffix => ImageInMovingSuffix.metadata(),
            RegisteredRule::TransparentStrokeCapture => TransparentStrokeCapture.metadata(),
            RegisteredRule::HotPointFromProportion => HotPointFromProportion.metadata(),
            RegisteredRule::ForkFastPathLoss => ForkFastPathLoss.metadata(),
            RegisteredRule::FrameVaryingResourceKey => FrameVaryingResourceKey.metadata(),
            RegisteredRule::ForcedAlwaysUpdateWait => ForcedAlwaysUpdateWait.metadata(),
            RegisteredRule::FpsDependentUpdaterMotion => FpsDependentUpdaterMotion.metadata(),
            RegisteredRule::UnseededGlobalRandom => UnseededGlobalRandom.metadata(),
            RegisteredRule::ForeignPlatformAssetPath => ForeignPlatformAssetPath.metadata(),
            RegisteredRule::UnguardedRendererDivergence => UnguardedRendererDivergence.metadata(),
            RegisteredRule::CaseOnlyAssetMismatch => CaseOnlyAssetMismatch.metadata(),
            RegisteredRule::FontOutsideAllowlist => FontOutsideAllowlist.metadata(),
            RegisteredRule::FrameCallbackIo => FrameCallbackIo.metadata(),
        }
    }

    fn run(&self, context: &RuleContext<'_>) -> (diagnostics: Vec<Diagnostic>) {
        match self {
            RegisteredRule::EmptyPlay => EmptyPlay.run(context),
            RegisteredRule::NonAnimationPlayArgument => NonAnimationPlayArgument.run(context),
            RegisteredRule::BoundMethodPlayArgument => BoundMethodPlayArgument.run(context),
            RegisteredRule::NonPositiveDuration => NonPositiveDuration.run(context),
            RegisteredRule::UpdaterCannotBind => UpdaterCannotBind.run(context),
            RegisteredRule::FrozenFrameStopCondition => FrozenFrameStopCondition.run(context),
            RegisteredRule::MissingGeneratedTarget => MissingGeneratedTarget.run(context),
            RegisteredRule::ConflictingPlayWrites => ConflictingPlayWrites.run(context),
            RegisteredRule::EmptyAnimationGroup => EmptyAnimationGroup.run(context),
            RegisteredRule::SelfOrCyclicChild => SelfOrCyclicChild.run(context),
            RegisteredRule::OrphanedUpdaterObject => OrphanedUpdaterObject.run(context),
            RegisteredRule::FrozenWaitFrameVaryingUpdater => FrozenWaitFrameVaryingUpdater.run(context),
            RegisteredRule::AnimateKwargsAfterMethod => AnimateKwargsAfterMethod.run(context),
            RegisteredRule::UnsupportedOverrideAnimateChain => UnsupportedOverrideAnimateChain.run(context),
            RegisteredRule::RemovedChildReappears => RemovedChildReappears.run(context),
            RegisteredRule::PostTransformTargetConfusion => PostTransformTargetConfusion.run(context),
            RegisteredRule::StaleAnimateBuilder => StaleAnimateBuilder.run(context),
            RegisteredRule::UpdaterSuspendResumeDivergence => UpdaterSuspendResumeDivergence.run(context),
            RegisteredRule::ReplaceMissingOld => ReplaceMissingOld.run(context),
            RegisteredRule::MissingSavedState => MissingSavedState.run(context),
            RegisteredRule::TimelineReentry => TimelineReentry.run(context),
            RegisteredRule::ApplyMethodCallResult => ApplyMethodCallResult.run(context),
            RegisteredRule::ApplyFunctionCallbackNoMobject => ApplyFunctionCallbackNoMobject.run(context),
            RegisteredRule::NonMutatingAnimateMethod => NonMutatingAnimateMethod.run(context),
            RegisteredRule::RemoveUpdaterIdentityMismatch => RemoveUpdaterIdentityMismatch.run(context),
            RegisteredRule::InvalidFamilyChild => InvalidFamilyChild.run(context),
            RegisteredRule::DuplicateChild => DuplicateChild.run(context),
            RegisteredRule::MissingSuperInit => MissingSuperInit.run(context),
            RegisteredRule::PlayLagRatioStagger => PlayLagRatioStagger.run(context),
            RegisteredRule::NonVmobjectCreationTarget => NonVmobjectCreationTarget.run(context),
            RegisteredRule::BarePlayedAnimate => BarePlayedAnimate.run(context),
            RegisteredRule::TexEscapeCollision => TexEscapeCollision.run(context),
            RegisteredRule::UnresolvedAssetPath => UnresolvedAssetPath.run(context),
            RegisteredRule::InvalidMarkupLiteral => InvalidMarkupLiteral.run(context),
            RegisteredRule::NonFiniteGeometryLiteral => NonFiniteGeometryLiteral.run(context),
            RegisteredRule::UnsupportedRendererApi => UnsupportedRendererApi.run(context),
            RegisteredRule::StaleFixedVisibility => StaleFixedVisibility.run(context),
            RegisteredRule::UnbalancedTexLiteral => UnbalancedTexLiteral.run(context),
            RegisteredRule::SceneUpdaterMutatesMobject => SceneUpdaterMutatesMobject.run(context),
            RegisteredRule::FixedPointLayoutAssumption => FixedPointLayoutAssumption.run(context),
            RegisteredRule::SelfTransform => SelfTransform.run(context),
            RegisteredRule::NonPoint3Literal => NonPoint3Literal.run(context),
            RegisteredRule::NonPositiveFontSize => NonPositiveFontSize.run(context),
            RegisteredRule::EmptyPathEdit => EmptyPathEdit.run(context),
            RegisteredRule::BareRegisterFont => BareRegisterFont.run(context),
            RegisteredRule::MovingCameraUnderOpengl => MovingCameraUnderOpengl.run(context),
            RegisteredRule::FocalDistanceUnderOpengl => FocalDistanceUnderOpengl.run(context),
            RegisteredRule::ZShiftForStacking => ZShiftForStacking.run(context),
            RegisteredRule::MarkupInPlainText => MarkupInPlainText.run(context),
            RegisteredRule::BareMobjectLeaf => BareMobjectLeaf.run(context),
            RegisteredRule::OpacityStrokeRange => OpacityStrokeRange.run(context),
            RegisteredRule::UnmatchableTexKey => UnmatchableTexKey.run(context),
            RegisteredRule::HotExpensiveConstruction => HotExpensiveConstruction.run(context),
            RegisteredRule::HotFamilyCopy => HotFamilyCopy.run(context),
            RegisteredRule::HotFamilyWalk => HotFamilyWalk.run(context),
            RegisteredRule::HotSceneGraphGrowth => HotSceneGraphGrowth.run(context),
            RegisteredRule::StaticUnfrozenWait => StaticUnfrozenWait.run(context),
            RegisteredRule::SubFrameDuration => SubFrameDuration.run(context),
            RegisteredRule::MismatchedTransformBegin => MismatchedTransformBegin.run(context),
            RegisteredRule::TextFamilyTransform => TextFamilyTransform.run(context),
            RegisteredRule::FrontLoadedStaticSuffix => FrontLoadedStaticSuffix.run(context),
            RegisteredRule::FixedCountLoopPlays => FixedCountLoopPlays.run(context),
            RegisteredRule::HotLargeAllocation => HotLargeAllocation.run(context),
            RegisteredRule::LongTranslucentFullScreenAnimation => LongTranslucentFullScreenAnimation.run(context),
            RegisteredRule::CairoSurfaceMismatch => CairoSurfaceMismatch.run(context),
            RegisteredRule::SerialTexCompileKeys => SerialTexCompileKeys.run(context),
            RegisteredRule::NoOpUpdaterCost => NoOpUpdaterCost.run(context),
            RegisteredRule::StableGeometryRedraw => StableGeometryRedraw.run(context),
            RegisteredRule::FrameVaryingSvgCacheGrowth => FrameVaryingSvgCacheGrowth.run(context),
            RegisteredRule::FrameInvariantDynamicWait => FrameInvariantDynamicWait.run(context),
            RegisteredRule::LongLivedUpdater => LongLivedUpdater.run(context),
            RegisteredRule::UnboundedTracedPath => UnboundedTracedPath.run(context),
            RegisteredRule::ExcessiveSampleCount => ExcessiveSampleCount.run(context),
            RegisteredRule::ImageInMovingSuffix => ImageInMovingSuffix.run(context),
            RegisteredRule::TransparentStrokeCapture => TransparentStrokeCapture.run(context),
            RegisteredRule::HotPointFromProportion => HotPointFromProportion.run(context),
            RegisteredRule::ForkFastPathLoss => ForkFastPathLoss.run(context),
            RegisteredRule::FrameVaryingResourceKey => FrameVaryingResourceKey.run(context),
            RegisteredRule::ForcedAlwaysUpdateWait => ForcedAlwaysUpdateWait.run(context),
            RegisteredRule::FpsDependentUpdaterMotion => FpsDependentUpdaterMotion.run(context),
            RegisteredRule::UnseededGlobalRandom => UnseededGlobalRandom.run(context),
            RegisteredRule::ForeignPlatformAssetPath => ForeignPlatformAssetPath.run(context),
            RegisteredRule::UnguardedRendererDivergence => UnguardedRendererDivergence.run(context),
            RegisteredRule::CaseOnlyAssetMismatch => CaseOnlyAssetMismatch.run(context),
            RegisteredRule::FontOutsideAllowlist => FontOutsideAllowlist.run(context),
            RegisteredRule::FrameCallbackIo => FrameCallbackIo.run(context),
        }
    }
}

} // verus!
