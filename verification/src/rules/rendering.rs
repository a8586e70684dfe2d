//! Rendering and geometry rules.
pub mod assets;
pub mod creation;
pub mod geometry;
pub mod markup;
pub mod register_font;
pub mod style;
pub mod supplied;
pub mod support;
pub mod tex;

use crate::rules::registered::RegisteredRule;
use crate::rules::registry::facts;
use crate::rules::registry_laws::{open_number, rendering_is_whole, rendering_place};
use crate::text::numeral;
use vstd::prelude::*;

verus! {

/// The rendering rules, in rule-ID order.
pub open spec fn registered() -> Seq<RegisteredRule> {
    seq![
        RegisteredRule::NonVmobjectCreationTarget,
        RegisteredRule::BarePlayedAnimate,
        RegisteredRule::TexEscapeCollision,
        RegisteredRule::UnresolvedAssetPath,
        RegisteredRule::InvalidMarkupLiteral,
        RegisteredRule::NonFiniteGeometryLiteral,
        RegisteredRule::UnsupportedRendererApi,
        RegisteredRule::StaleFixedVisibility,
        RegisteredRule::UnbalancedTexLiteral,
        RegisteredRule::SceneUpdaterMutatesMobject,
        RegisteredRule::FixedPointLayoutAssumption,
        RegisteredRule::SelfTransform,
        RegisteredRule::NonPoint3Literal,
        RegisteredRule::NonPositiveFontSize,
        RegisteredRule::EmptyPathEdit,
        RegisteredRule::BareRegisterFont,
        RegisteredRule::MovingCameraUnderOpengl,
        RegisteredRule::FocalDistanceUnderOpengl,
        RegisteredRule::ZShiftForStacking,
        RegisteredRule::MarkupInPlainText,
        RegisteredRule::BareMobjectLeaf,
        RegisteredRule::OpacityStrokeRange,
        RegisteredRule::UnmatchableTexKey,
    ]
}

/// Every rendering rule, in rule-ID order: `MLR101` to `MLR127` but for
/// `MLR109`, `MLR118`, `MLR122`, and `MLR123`, which are reserved and wait for
/// facts that do not exist yet (updater order, content of SVG assets, stacking
/// across objects, mesh classes).
pub fn rules() -> (rules: Vec<RegisteredRule>)
    ensures
        rules@ == registered(),
        rules@.len() == 23,
        forall|number: int|
            101 <= number <= 127 && !open_number(number) ==> facts(
                rules@[#[trigger] rendering_place(number)],
            ).id == "MLR"@ + numeral(number as nat),
{
    let rules: Vec<RegisteredRule> = vec![
        RegisteredRule::NonVmobjectCreationTarget,
        RegisteredRule::BarePlayedAnimate,
        RegisteredRule::TexEscapeCollision,
        RegisteredRule::UnresolvedAssetPath,
        RegisteredRule::InvalidMarkupLiteral,
        RegisteredRule::NonFiniteGeometryLiteral,
        RegisteredRule::UnsupportedRendererApi,
        RegisteredRule::StaleFixedVisibility,
        RegisteredRule::UnbalancedTexLiteral,
        RegisteredRule::SceneUpdaterMutatesMobject,
        RegisteredRule::FixedPointLayoutAssumption,
        RegisteredRule::SelfTransform,
        RegisteredRule::NonPoint3Literal,
        RegisteredRule::NonPositiveFontSize,
        RegisteredRule::EmptyPathEdit,
        RegisteredRule::BareRegisterFont,
        RegisteredRule::MovingCameraUnderOpengl,
        RegisteredRule::FocalDistanceUnderOpengl,
        RegisteredRule::ZShiftForStacking,
        RegisteredRule::MarkupInPlainText,
        RegisteredRule::BareMobjectLeaf,
        RegisteredRule::OpacityStrokeRange,
        RegisteredRule::UnmatchableTexKey,
    ];
    assert(rules@ =~= registered());
    proof {
        assert forall|number: int| 101 <= number <= 127 && !open_number(number) implies facts(
            rules@[#[trigger] rendering_place(number)],
        ).id == "MLR"@ + numeral(number as nat) by {
            rendering_is_whole(number);
        }
    }
    rules
}

} // verus!
