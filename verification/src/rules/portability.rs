//! Determinism, portability, and cache-stability rules.
pub mod allowed_fonts;
pub mod io_hooks;
pub mod paths;
pub mod randomness;
pub mod renderer_divergence;
pub mod support;
pub mod updater_motion;

use crate::rules::registered::RegisteredRule;
use crate::rules::registry::facts;
use crate::rules::registry_laws::portability_is_whole;
use crate::text::numeral;
use vstd::prelude::*;

verus! {

/// The portability rules, in rule-ID order.
pub open spec fn registered() -> Seq<RegisteredRule> {
    seq![
        RegisteredRule::FpsDependentUpdaterMotion,
        RegisteredRule::UnseededGlobalRandom,
        RegisteredRule::ForeignPlatformAssetPath,
        RegisteredRule::UnguardedRendererDivergence,
        RegisteredRule::CaseOnlyAssetMismatch,
        RegisteredRule::FontOutsideAllowlist,
        RegisteredRule::FrameCallbackIo,
    ]
}

/// Every portability rule, in rule-ID order: `MLD301` to `MLD307`.
pub fn rules() -> (rules: Vec<RegisteredRule>)
    ensures
        rules@ == registered(),
        rules@.len() == 7,
        forall|i: int|
            0 <= i < 7 ==> facts(#[trigger] rules@[i]).id == "MLD"@ + numeral(
                (301 + i) as nat,
            ),
{
    let rules: Vec<RegisteredRule> = vec![
        RegisteredRule::FpsDependentUpdaterMotion,
        RegisteredRule::UnseededGlobalRandom,
        RegisteredRule::ForeignPlatformAssetPath,
        RegisteredRule::UnguardedRendererDivergence,
        RegisteredRule::CaseOnlyAssetMismatch,
        RegisteredRule::FontOutsideAllowlist,
        RegisteredRule::FrameCallbackIo,
    ];
    assert(rules@ =~= registered());
    proof {
        assert forall|i: int| 0 <= i < 7 implies facts(#[trigger] rules@[i]).id == "MLD"@
            + numeral((301 + i) as nat) by {
            portability_is_whole(i);
        }
    }
    rules
}

} // verus!
