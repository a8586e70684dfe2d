//! What holds of the rule ids: which are reserved, and how the registered
//! rules are numbered.
use crate::ordered::{ascending_names, text_before};
use crate::rules::registered::RegisteredRule;
use crate::rules::registry::{
    declared_from, digit_of, every_rule, facts, in_family, metadata_of, numbered, phase_in,
    phase_of, pipeline_ids, reserved, reserved_ids, split_id,
};
use crate::rules::{lifecycle, performance, portability, rendering};
use crate::text::{digit, numeral};
use vstd::prelude::*;
use vstd::utf8::char_u32_cast;

verus! {

/// Number of an id that splits.
spec fn number_in(id: Seq<char>) -> int {
    match split_id(id) {
        Some((_, number)) => number,
        None => -1,
    }
}

/// Family of an id that splits.
spec fn prefix_in(id: Seq<char>) -> Seq<char> {
    match split_id(id) {
        Some((prefix, _)) => prefix,
        None => Seq::empty(),
    }
}

/// The digit `d` as a character.
spec fn digit_char(d: int) -> char {
    digit(d)[0]
}

proof fn digit_is_one_character(d: int)
    requires
        0 <= d <= 9,
    ensures
        digit(d) == seq![digit_char(d)],
        digit_of(digit_char(d)) == Some(d),
{
    reveal_strlit("0");
    reveal_strlit("1");
    reveal_strlit("2");
    reveal_strlit("3");
    reveal_strlit("4");
    reveal_strlit("5");
    reveal_strlit("6");
    reveal_strlit("7");
    reveal_strlit("8");
    reveal_strlit("9");
    assert(digit(d) =~= seq![digit_char(d)]);
}

proof fn digit_of_is_exact(c: char)
    requires
        digit_of(c) is Some,
    ensures
        0 <= digit_of(c)->0 <= 9,
        digit_char(digit_of(c)->0) == c,
{
    let d = digit_of(c)->0;
    digit_is_one_character(d);
    assert(digit_char(d) as int == c as int);
    char_u32_cast(c, c as u32);
    char_u32_cast(digit_char(d), digit_char(d) as u32);
}

/// A number of three digits, digit by digit.
proof fn three_digits(n: int)
    requires
        100 <= n < 1000,
    ensures
        numeral(n as nat) == seq![
            digit_char(n / 100),
            digit_char(n / 10 % 10),
            digit_char(n % 10),
        ],
{
    reveal_with_fuel(numeral, 4);
    digit_is_one_character(n / 100);
    digit_is_one_character(n / 10 % 10);
    digit_is_one_character(n % 10);
    assert(n / 10 / 10 == n / 100);
    assert(numeral(n as nat) =~= seq![
        digit_char(n / 100),
        digit_char(n / 10 % 10),
        digit_char(n % 10),
    ]);
}

/// An id of a family and a number of three digits splits into them.
proof fn spelled_id_splits(prefix: Seq<char>, n: int)
    requires
        prefix.len() == 3,
        100 <= n < 1000,
    ensures
        split_id(prefix + numeral(n as nat)) == Some((prefix, n)),
{
    three_digits(n);
    digit_is_one_character(n / 100);
    digit_is_one_character(n / 10 % 10);
    digit_is_one_character(n % 10);
    let id = prefix + numeral(n as nat);
    assert(id.take(3) =~= prefix);
    assert(id[3] == digit_char(n / 100));
    assert(id[4] == digit_char(n / 10 % 10));
    assert(id[5] == digit_char(n % 10));
    assert(100 * (n / 100) + 10 * (n / 10 % 10) + n % 10 == n);
}

/// An id with a number of three digits is spelled by its parts.
proof fn split_id_spells(id: Seq<char>)
    requires
        split_id(id) is Some,
        number_in(id) >= 100,
    ensures
        100 <= number_in(id) < 1000,
        id == prefix_in(id) + numeral(number_in(id) as nat),
{
    let n = number_in(id);
    digit_of_is_exact(id[3]);
    digit_of_is_exact(id[4]);
    digit_of_is_exact(id[5]);
    let a = digit_of(id[3])->0;
    let b = digit_of(id[4])->0;
    let c = digit_of(id[5])->0;
    assert(n == 100 * a + 10 * b + c);
    assert(n / 100 == a && n / 10 % 10 == b && n % 10 == c);
    three_digits(n);
    assert(id =~= id.take(3) + numeral(n as nat));
}

proof fn prefixes_have_three_characters()
    ensures
        "MLC"@.len() == 3,
        "MLR"@.len() == 3,
        "MLP"@.len() == 3,
        "MLD"@.len() == 3,
        "MLC000"@.len() == 6,
        "MLC001"@.len() == 6,
{
    reveal_strlit("MLC");
    reveal_strlit("MLR");
    reveal_strlit("MLP");
    reveal_strlit("MLD");
    reveal_strlit("MLC000");
    reveal_strlit("MLC001");
}

/// An id with a number of three digits is none of the pipeline's.
proof fn spelled_is_no_pipeline_id(prefix: Seq<char>, n: int)
    requires
        prefix.len() == 3,
        100 <= n < 1000,
    ensures
        !pipeline_ids().contains(prefix + numeral(n as nat)),
{
    spelled_id_splits(prefix, n);
    reveal_strlit("MLC000");
    reveal_strlit("MLC001");
    assert(number_in("MLC000"@) == 0);
    assert(number_in("MLC001"@) == 1);
}

proof fn numbered_is_exact(prefix: Seq<char>, low: int, high: int, id: Seq<char>)
    requires
        prefix.len() == 3,
        100 <= low <= high < 1000,
    ensures
        numbered(prefix, low, high).contains(id) <==> (split_id(id) is Some && prefix_in(id)
            == prefix && low <= number_in(id) <= high),
{
    let list = numbered(prefix, low, high);
    if list.contains(id) {
        let k = choose|k: int| 0 <= k < list.len() && list[k] == id;
        spelled_id_splits(prefix, low + k);
    }
    if split_id(id) is Some && prefix_in(id) == prefix && low <= number_in(id) <= high {
        split_id_spells(id);
        let k = number_in(id) - low;
        assert(list[k] == id);
    }
}

/// The list of reserved ids holds exactly the ids that are reserved.
pub proof fn reserved_ids_are_exact(id: Seq<char>)
    ensures
        reserved_ids().contains(id) <==> reserved(id),
{
    prefixes_have_three_characters();
    numbered_is_exact("MLC"@, 101, 129, id);
    numbered_is_exact("MLD"@, 301, 307, id);
    numbered_is_exact("MLP"@, 201, 227, id);
    numbered_is_exact("MLR"@, 101, 127, id);
    let a = pipeline_ids();
    let b = numbered("MLC"@, 101, 129);
    let c = numbered("MLD"@, 301, 307);
    let d = numbered("MLP"@, 201, 227);
    let e = numbered("MLR"@, 101, 127);
    sum_contains(a, b, id);
    sum_contains(a + b, c, id);
    sum_contains(a + b + c, d, id);
    sum_contains(a + b + c + d, e, id);
}

proof fn sum_contains(a: Seq<Seq<char>>, b: Seq<Seq<char>>, id: Seq<char>)
    ensures
        (a + b).contains(id) <==> a.contains(id) || b.contains(id),
{
    if (a + b).contains(id) {
        let k = choose|k: int| 0 <= k < (a + b).len() && (a + b)[k] == id;
        if k < a.len() {
            assert(a[k] == id);
        } else {
            assert(b[k - a.len()] == id);
        }
    }
    if a.contains(id) {
        let k = choose|k: int| 0 <= k < a.len() && a[k] == id;
        assert((a + b)[k] == id);
    }
    if b.contains(id) {
        let k = choose|k: int| 0 <= k < b.len() && b[k] == id;
        assert((a + b)[a.len() + k] == id);
    }
}

/// A text of the same beginning comes before another when its rest does.
proof fn same_start_before(start: Seq<char>, a: Seq<char>, b: Seq<char>)
    requires
        text_before(a, b),
    ensures
        text_before(start + a, start + b),
    decreases start.len(),
{
    if start.len() == 0 {
        assert(start + a =~= a);
        assert(start + b =~= b);
    } else {
        same_start_before(start.drop_first(), a, b);
        assert((start + a).drop_first() =~= start.drop_first() + a);
        assert((start + b).drop_first() =~= start.drop_first() + b);
    }
}

proof fn digits_in_order(m: int, n: int)
    requires
        0 <= m < n <= 9,
    ensures
        (digit_char(m) as u32) < (digit_char(n) as u32),
        digit_char(m) != digit_char(n),
{
    digit_is_one_character(m);
    digit_is_one_character(n);
}

/// Smaller numbers of three digits come first.
proof fn numbers_in_order(m: int, n: int)
    requires
        100 <= m < n < 1000,
    ensures
        text_before(numeral(m as nat), numeral(n as nat)),
{
    three_digits(m);
    three_digits(n);
    let a = numeral(m as nat);
    let b = numeral(n as nat);
    reveal_with_fuel(text_before, 4);
    if m / 100 < n / 100 {
        digits_in_order(m / 100, n / 100);
    } else {
        assert(m / 100 == n / 100);
        assert(a[0] == b[0]);
        assert(a.drop_first()[0] == digit_char(m / 10 % 10));
        assert(b.drop_first()[0] == digit_char(n / 10 % 10));
        if m / 10 % 10 < n / 10 % 10 {
            digits_in_order(m / 10 % 10, n / 10 % 10);
        } else {
            assert(m / 10 % 10 == n / 10 % 10);
            assert(m % 10 < n % 10);
            assert(a.drop_first().drop_first()[0] == digit_char(m % 10));
            assert(b.drop_first().drop_first()[0] == digit_char(n % 10));
            digits_in_order(m % 10, n % 10);
        }
    }
}

/// Number of a registered rule in its family.
pub open spec fn number_of(rule: RegisteredRule) -> int {
    match rule {
        RegisteredRule::EmptyPlay => 101,
        RegisteredRule::NonAnimationPlayArgument => 102,
        RegisteredRule::BoundMethodPlayArgument => 103,
        RegisteredRule::NonPositiveDuration => 104,
        RegisteredRule::UpdaterCannotBind => 105,
        RegisteredRule::FrozenFrameStopCondition => 106,
        RegisteredRule::MissingGeneratedTarget => 107,
        RegisteredRule::ConflictingPlayWrites => 108,
        RegisteredRule::EmptyAnimationGroup => 109,
        RegisteredRule::SelfOrCyclicChild => 110,
        RegisteredRule::OrphanedUpdaterObject => 111,
        RegisteredRule::FrozenWaitFrameVaryingUpdater => 112,
        RegisteredRule::AnimateKwargsAfterMethod => 113,
        RegisteredRule::UnsupportedOverrideAnimateChain => 114,
        RegisteredRule::RemovedChildReappears => 115,
        RegisteredRule::PostTransformTargetConfusion => 116,
        RegisteredRule::StaleAnimateBuilder => 117,
        RegisteredRule::UpdaterSuspendResumeDivergence => 118,
        RegisteredRule::ReplaceMissingOld => 119,
        RegisteredRule::MissingSavedState => 120,
        RegisteredRule::TimelineReentry => 121,
        RegisteredRule::ApplyMethodCallResult => 122,
        RegisteredRule::ApplyFunctionCallbackNoMobject => 123,
        RegisteredRule::NonMutatingAnimateMethod => 124,
        RegisteredRule::RemoveUpdaterIdentityMismatch => 125,
        RegisteredRule::InvalidFamilyChild => 126,
        RegisteredRule::DuplicateChild => 127,
        RegisteredRule::MissingSuperInit => 128,
        RegisteredRule::PlayLagRatioStagger => 129,
        RegisteredRule::NonVmobjectCreationTarget => 101,
        RegisteredRule::BarePlayedAnimate => 102,
        RegisteredRule::TexEscapeCollision => 103,
        RegisteredRule::UnresolvedAssetPath => 104,
        RegisteredRule::InvalidMarkupLiteral => 105,
        RegisteredRule::NonFiniteGeometryLiteral => 106,
        RegisteredRule::UnsupportedRendererApi => 107,
        RegisteredRule::StaleFixedVisibility => 108,
        RegisteredRule::UnbalancedTexLiteral => 110,
        RegisteredRule::SceneUpdaterMutatesMobject => 111,
        RegisteredRule::FixedPointLayoutAssumption => 112,
        RegisteredRule::SelfTransform => 113,
        RegisteredRule::NonPoint3Literal => 114,
        RegisteredRule::NonPositiveFontSize => 115,
        RegisteredRule::EmptyPathEdit => 116,
        RegisteredRule::BareRegisterFont => 117,
        RegisteredRule::MovingCameraUnderOpengl => 119,
        RegisteredRule::FocalDistanceUnderOpengl => 120,
        RegisteredRule::ZShiftForStacking => 121,
        RegisteredRule::MarkupInPlainText => 124,
        RegisteredRule::BareMobjectLeaf => 125,
        RegisteredRule::OpacityStrokeRange => 126,
        RegisteredRule::UnmatchableTexKey => 127,
        RegisteredRule::HotExpensiveConstruction => 201,
        RegisteredRule::HotFamilyCopy => 202,
        RegisteredRule::HotFamilyWalk => 203,
        RegisteredRule::HotSceneGraphGrowth => 204,
        RegisteredRule::StaticUnfrozenWait => 205,
        RegisteredRule::SubFrameDuration => 206,
        RegisteredRule::MismatchedTransformBegin => 207,
        RegisteredRule::TextFamilyTransform => 208,
        RegisteredRule::FrontLoadedStaticSuffix => 209,
        RegisteredRule::FixedCountLoopPlays => 210,
        RegisteredRule::HotLargeAllocation => 211,
        RegisteredRule::LongTranslucentFullScreenAnimation => 212,
        RegisteredRule::CairoSurfaceMismatch => 213,
        RegisteredRule::SerialTexCompileKeys => 214,
        RegisteredRule::NoOpUpdaterCost => 215,
        RegisteredRule::StableGeometryRedraw => 216,
        RegisteredRule::FrameVaryingSvgCacheGrowth => 217,
        RegisteredRule::FrameInvariantDynamicWait => 218,
        RegisteredRule::LongLivedUpdater => 219,
        RegisteredRule::UnboundedTracedPath => 220,
        RegisteredRule::ExcessiveSampleCount => 221,
        RegisteredRule::ImageInMovingSuffix => 222,
        RegisteredRule::TransparentStrokeCapture => 223,
        RegisteredRule::HotPointFromProportion => 224,
        RegisteredRule::ForkFastPathLoss => 225,
        RegisteredRule::FrameVaryingResourceKey => 226,
        RegisteredRule::ForcedAlwaysUpdateWait => 227,
        RegisteredRule::FpsDependentUpdaterMotion => 301,
        RegisteredRule::UnseededGlobalRandom => 302,
        RegisteredRule::ForeignPlatformAssetPath => 303,
        RegisteredRule::UnguardedRendererDivergence => 304,
        RegisteredRule::CaseOnlyAssetMismatch => 305,
        RegisteredRule::FontOutsideAllowlist => 306,
        RegisteredRule::FrameCallbackIo => 307,
    }
}

/// Every lifecycle rule has an id of the family `MLC` with a reserved number.
pub proof fn lifecycle_ids(i: int)
    requires
        0 <= i < lifecycle::registered().len(),
    ensures
        facts(lifecycle::registered()[i]).id == "MLC"@ + numeral(
            number_of(lifecycle::registered()[i]) as nat,
        ),
        in_family("MLC"@, number_of(lifecycle::registered()[i])),
        phase_in("MLC"@, number_of(lifecycle::registered()[i])) == Some(
            facts(lifecycle::registered()[i]).implementation_phase,
        ),
{
    reveal(facts);
    reveal_strlit("MLC");
    let rule = lifecycle::registered()[i];
    let n = number_of(rule);
    three_digits(n);
    prefixes_differ();
    reveal_strlit("0");
    reveal_strlit("1");
    reveal_strlit("2");
    reveal_strlit("3");
    reveal_strlit("4");
    reveal_strlit("5");
    reveal_strlit("6");
    reveal_strlit("7");
    reveal_strlit("8");
    reveal_strlit("9");
    match rule {
        RegisteredRule::EmptyPlay => {
            reveal_strlit("MLC101");
            assert("MLC101"@ =~= "MLC"@ + numeral(101));
        },
        RegisteredRule::NonAnimationPlayArgument => {
            reveal_strlit("MLC102");
            assert("MLC102"@ =~= "MLC"@ + numeral(102));
        },
        RegisteredRule::BoundMethodPlayArgument => {
            reveal_strlit("MLC103");
            assert("MLC103"@ =~= "MLC"@ + numeral(103));
        },
        RegisteredRule::NonPositiveDuration => {
            reveal_strlit("MLC104");
            assert("MLC104"@ =~= "MLC"@ + numeral(104));
        },
        RegisteredRule::UpdaterCannotBind => {
            reveal_strlit("MLC105");
            assert("MLC105"@ =~= "MLC"@ + numeral(105));
        },
        RegisteredRule::FrozenFrameStopCondition => {
            reveal_strlit("MLC106");
            assert("MLC106"@ =~= "MLC"@ + numeral(106));
        },
        RegisteredRule::MissingGeneratedTarget => {
            reveal_strlit("MLC107");
            assert("MLC107"@ =~= "MLC"@ + numeral(107));
        },
        RegisteredRule::ConflictingPlayWrites => {
            reveal_strlit("MLC108");
            assert("MLC108"@ =~= "MLC"@ + numeral(108));
        },
        RegisteredRule::EmptyAnimationGroup => {
            reveal_strlit("MLC109");
            assert("MLC109"@ =~= "MLC"@ + numeral(109));
        },
        RegisteredRule::SelfOrCyclicChild => {
            reveal_strlit("MLC110");
            assert("MLC110"@ =~= "MLC"@ + numeral(110));
        },
        RegisteredRule::OrphanedUpdaterObject => {
            reveal_strlit("MLC111");
            assert("MLC111"@ =~= "MLC"@ + numeral(111));
        },
        RegisteredRule::FrozenWaitFrameVaryingUpdater => {
            reveal_strlit("MLC112");
            assert("MLC112"@ =~= "MLC"@ + numeral(112));
        },
        RegisteredRule::AnimateKwargsAfterMethod => {
            reveal_strlit("MLC113");
            assert("MLC113"@ =~= "MLC"@ + numeral(113));
        },
        RegisteredRule::UnsupportedOverrideAnimateChain => {
            reveal_strlit("MLC114");
            assert("MLC114"@ =~= "MLC"@ + numeral(114));
        },
        RegisteredRule::RemovedChildReappears => {
            reveal_strlit("MLC115");
            assert("MLC115"@ =~= "MLC"@ + numeral(115));
        },
        RegisteredRule::PostTransformTargetConfusion => {
            reveal_strlit("MLC116");
            assert("MLC116"@ =~= "MLC"@ + numeral(116));
        },
        RegisteredRule::StaleAnimateBuilder => {
            reveal_strlit("MLC117");
            assert("MLC117"@ =~= "MLC"@ + numeral(117));
        },
        RegisteredRule::UpdaterSuspendResumeDivergence => {
            reveal_strlit("MLC118");
            assert("MLC118"@ =~= "MLC"@ + numeral(118));
        },
        RegisteredRule::ReplaceMissingOld => {
            reveal_strlit("MLC119");
            assert("MLC119"@ =~= "MLC"@ + numeral(119));
        },
        RegisteredRule::MissingSavedState => {
            reveal_strlit("MLC120");
            assert("MLC120"@ =~= "MLC"@ + numeral(120));
        },
        RegisteredRule::TimelineReentry => {
            reveal_strlit("MLC121");
            assert("MLC121"@ =~= "MLC"@ + numeral(121));
        },
        RegisteredRule::ApplyMethodCallResult => {
            reveal_strlit("MLC122");
            assert("MLC122"@ =~= "MLC"@ + numeral(122));
        },
        RegisteredRule::ApplyFunctionCallbackNoMobject => {
            reveal_strlit("MLC123");
            assert("MLC123"@ =~= "MLC"@ + numeral(123));
        },
        RegisteredRule::NonMutatingAnimateMethod => {
            reveal_strlit("MLC124");
            assert("MLC124"@ =~= "MLC"@ + numeral(124));
        },
        RegisteredRule::RemoveUpdaterIdentityMismatch => {
            reveal_strlit("MLC125");
            assert("MLC125"@ =~= "MLC"@ + numeral(125));
        },
        RegisteredRule::InvalidFamilyChild => {
            reveal_strlit("MLC126");
            assert("MLC126"@ =~= "MLC"@ + numeral(126));
        },
        RegisteredRule::DuplicateChild => {
            reveal_strlit("MLC127");
            assert("MLC127"@ =~= "MLC"@ + numeral(127));
        },
        RegisteredRule::MissingSuperInit => {
            reveal_strlit("MLC128");
            assert("MLC128"@ =~= "MLC"@ + numeral(128));
        },
        RegisteredRule::PlayLagRatioStagger => {
            reveal_strlit("MLC129");
            assert("MLC129"@ =~= "MLC"@ + numeral(129));
        },
        _ => {},
    }
}

/// Every rendering rule has an id of the family `MLR` with a reserved number.
pub proof fn rendering_ids(i: int)
    requires
        0 <= i < rendering::registered().len(),
    ensures
        facts(rendering::registered()[i]).id == "MLR"@ + numeral(
            number_of(rendering::registered()[i]) as nat,
        ),
        in_family("MLR"@, number_of(rendering::registered()[i])),
        phase_in("MLR"@, number_of(rendering::registered()[i])) == Some(
            facts(rendering::registered()[i]).implementation_phase,
        ),
{
    reveal(facts);
    reveal_strlit("MLR");
    let rule = rendering::registered()[i];
    let n = number_of(rule);
    three_digits(n);
    prefixes_differ();
    reveal_strlit("0");
    reveal_strlit("1");
    reveal_strlit("2");
    reveal_strlit("3");
    reveal_strlit("4");
    reveal_strlit("5");
    reveal_strlit("6");
    reveal_strlit("7");
    reveal_strlit("8");
    reveal_strlit("9");
    match rule {
        RegisteredRule::NonVmobjectCreationTarget => {
            reveal_strlit("MLR101");
            assert("MLR101"@ =~= "MLR"@ + numeral(101));
        },
        RegisteredRule::BarePlayedAnimate => {
            reveal_strlit("MLR102");
            assert("MLR102"@ =~= "MLR"@ + numeral(102));
        },
        RegisteredRule::TexEscapeCollision => {
            reveal_strlit("MLR103");
            assert("MLR103"@ =~= "MLR"@ + numeral(103));
        },
        RegisteredRule::UnresolvedAssetPath => {
            reveal_strlit("MLR104");
            assert("MLR104"@ =~= "MLR"@ + numeral(104));
        },
        RegisteredRule::InvalidMarkupLiteral => {
            reveal_strlit("MLR105");
            assert("MLR105"@ =~= "MLR"@ + numeral(105));
        },
        RegisteredRule::NonFiniteGeometryLiteral => {
            reveal_strlit("MLR106");
            assert("MLR106"@ =~= "MLR"@ + numeral(106));
        },
        RegisteredRule::UnsupportedRendererApi => {
            reveal_strlit("MLR107");
            assert("MLR107"@ =~= "MLR"@ + numeral(107));
        },
        RegisteredRule::StaleFixedVisibility => {
            reveal_strlit("MLR108");
            assert("MLR108"@ =~= "MLR"@ + numeral(108));
        },
        RegisteredRule::UnbalancedTexLiteral => {
            reveal_strlit("MLR110");
            assert("MLR110"@ =~= "MLR"@ + numeral(110));
        },
        RegisteredRule::SceneUpdaterMutatesMobject => {
            reveal_strlit("MLR111");
            assert("MLR111"@ =~= "MLR"@ + numeral(111));
        },
        RegisteredRule::FixedPointLayoutAssumption => {
            reveal_strlit("MLR112");
            assert("MLR112"@ =~= "MLR"@ + numeral(112));
        },
        RegisteredRule::SelfTransform => {
            reveal_strlit("MLR113");
            assert("MLR113"@ =~= "MLR"@ + numeral(113));
        },
        RegisteredRule::NonPoint3Literal => {
            reveal_strlit("MLR114");
            assert("MLR114"@ =~= "MLR"@ + numeral(114));
        },
        RegisteredRule::NonPositiveFontSize => {
            reveal_strlit("MLR115");
            assert("MLR115"@ =~= "MLR"@ + numeral(115));
        },
        RegisteredRule::EmptyPathEdit => {
            reveal_strlit("MLR116");
            assert("MLR116"@ =~= "MLR"@ + numeral(116));
        },
        RegisteredRule::BareRegisterFont => {
            reveal_strlit("MLR117");
            assert("MLR117"@ =~= "MLR"@ + numeral(117));
        },
        RegisteredRule::MovingCameraUnderOpengl => {
            reveal_strlit("MLR119");
            assert("MLR119"@ =~= "MLR"@ + numeral(119));
        },
        RegisteredRule::FocalDistanceUnderOpengl => {
            reveal_strlit("MLR120");
            assert("MLR120"@ =~= "MLR"@ + numeral(120));
        },
        RegisteredRule::ZShiftForStacking => {
            reveal_strlit("MLR121");
            assert("MLR121"@ =~= "MLR"@ + numeral(121));
        },
        RegisteredRule::MarkupInPlainText => {
            reveal_strlit("MLR124");
            assert("MLR124"@ =~= "MLR"@ + numeral(124));
        },
        RegisteredRule::BareMobjectLeaf => {
            reveal_strlit("MLR125");
            assert("MLR125"@ =~= "MLR"@ + numeral(125));
        },
        RegisteredRule::OpacityStrokeRange => {
            reveal_strlit("MLR126");
            assert("MLR126"@ =~= "MLR"@ + numeral(126));
        },
        RegisteredRule::UnmatchableTexKey => {
            reveal_strlit("MLR127");
            assert("MLR127"@ =~= "MLR"@ + numeral(127));
        },
        _ => {},
    }
}

/// Every performance rule has an id of the family `MLP` with a reserved number.
pub proof fn performance_ids(i: int)
    requires
        0 <= i < performance::registered().len(),
    ensures
        facts(performance::registered()[i]).id == "MLP"@ + numeral(
            number_of(performance::registered()[i]) as nat,
        ),
        in_family("MLP"@, number_of(performance::registered()[i])),
        phase_in("MLP"@, number_of(performance::registered()[i])) == Some(
            facts(performance::registered()[i]).implementation_phase,
        ),
{
    reveal(facts);
    reveal_strlit("MLP");
    let rule = performance::registered()[i];
    let n = number_of(rule);
    three_digits(n);
    prefixes_differ();
    reveal_strlit("0");
    reveal_strlit("1");
    reveal_strlit("2");
    reveal_strlit("3");
    reveal_strlit("4");
    reveal_strlit("5");
    reveal_strlit("6");
    reveal_strlit("7");
    reveal_strlit("8");
    reveal_strlit("9");
    match rule {
        RegisteredRule::HotExpensiveConstruction => {
            reveal_strlit("MLP201");
            assert("MLP201"@ =~= "MLP"@ + numeral(201));
        },
        RegisteredRule::HotFamilyCopy => {
            reveal_strlit("MLP202");
            assert("MLP202"@ =~= "MLP"@ + numeral(202));
        },
        RegisteredRule::HotFamilyWalk => {
            reveal_strlit("MLP203");
            assert("MLP203"@ =~= "MLP"@ + numeral(203));
        },
        RegisteredRule::HotSceneGraphGrowth => {
            reveal_strlit("MLP204");
            assert("MLP204"@ =~= "MLP"@ + numeral(204));
        },
        RegisteredRule::StaticUnfrozenWait => {
            reveal_strlit("MLP205");
            assert("MLP205"@ =~= "MLP"@ + numeral(205));
        },
        RegisteredRule::SubFrameDuration => {
            reveal_strlit("MLP206");
            assert("MLP206"@ =~= "MLP"@ + numeral(206));
        },
        RegisteredRule::MismatchedTransformBegin => {
            reveal_strlit("MLP207");
            assert("MLP207"@ =~= "MLP"@ + numeral(207));
        },
        RegisteredRule::TextFamilyTransform => {
            reveal_strlit("MLP208");
            assert("MLP208"@ =~= "MLP"@ + numeral(208));
        },
        RegisteredRule::FrontLoadedStaticSuffix => {
            reveal_strlit("MLP209");
            assert("MLP209"@ =~= "MLP"@ + numeral(209));
        },
        RegisteredRule::FixedCountLoopPlays => {
            reveal_strlit("MLP210");
            assert("MLP210"@ =~= "MLP"@ + numeral(210));
        },
        RegisteredRule::HotLargeAllocation => {
            reveal_strlit("MLP211");
            assert("MLP211"@ =~= "MLP"@ + numeral(211));
        },
        RegisteredRule::LongTranslucentFullScreenAnimation => {
            reveal_strlit("MLP212");
            assert("MLP212"@ =~= "MLP"@ + numeral(212));
        },
        RegisteredRule::CairoSurfaceMismatch => {
            reveal_strlit("MLP213");
            assert("MLP213"@ =~= "MLP"@ + numeral(213));
        },
        RegisteredRule::SerialTexCompileKeys => {
            reveal_strlit("MLP214");
            assert("MLP214"@ =~= "MLP"@ + numeral(214));
        },
        RegisteredRule::NoOpUpdaterCost => {
            reveal_strlit("MLP215");
            assert("MLP215"@ =~= "MLP"@ + numeral(215));
        },
        RegisteredRule::StableGeometryRedraw => {
            reveal_strlit("MLP216");
            assert("MLP216"@ =~= "MLP"@ + numeral(216));
        },
        RegisteredRule::FrameVaryingSvgCacheGrowth => {
            reveal_strlit("MLP217");
            assert("MLP217"@ =~= "MLP"@ + numeral(217));
        },
        RegisteredRule::FrameInvariantDynamicWait => {
            reveal_strlit("MLP218");
            assert("MLP218"@ =~= "MLP"@ + numeral(218));
        },
        RegisteredRule::LongLivedUpdater => {
            reveal_strlit("MLP219");
            assert("MLP219"@ =~= "MLP"@ + numeral(219));
        },
        RegisteredRule::UnboundedTracedPath => {
            reveal_strlit("MLP220");
            assert("MLP220"@ =~= "MLP"@ + numeral(220));
        },
        RegisteredRule::ExcessiveSampleCount => {
            reveal_strlit("MLP221");
            assert("MLP221"@ =~= "MLP"@ + numeral(221));
        },
        RegisteredRule::ImageInMovingSuffix => {
            reveal_strlit("MLP222");
            assert("MLP222"@ =~= "MLP"@ + numeral(222));
        },
        RegisteredRule::TransparentStrokeCapture => {
            reveal_strlit("MLP223");
            assert("MLP223"@ =~= "MLP"@ + numeral(223));
        },
        RegisteredRule::HotPointFromProportion => {
            reveal_strlit("MLP224");
            assert("MLP224"@ =~= "MLP"@ + numeral(224));
        },
        RegisteredRule::ForkFastPathLoss => {
            reveal_strlit("MLP225");
            assert("MLP225"@ =~= "MLP"@ + numeral(225));
        },
        RegisteredRule::FrameVaryingResourceKey => {
            reveal_strlit("MLP226");
            assert("MLP226"@ =~= "MLP"@ + numeral(226));
        },
        RegisteredRule::ForcedAlwaysUpdateWait => {
            reveal_strlit("MLP227");
            assert("MLP227"@ =~= "MLP"@ + numeral(227));
        },
        _ => {},
    }
}

/// Every portability rule has an id of the family `MLD` with a reserved number.
pub proof fn portability_ids(i: int)
    requires
        0 <= i < portability::registered().len(),
    ensures
        facts(portability::registered()[i]).id == "MLD"@ + numeral(
            number_of(portability::registered()[i]) as nat,
        ),
        in_family("MLD"@, number_of(portability::registered()[i])),
        phase_in("MLD"@, number_of(portability::registered()[i])) == Some(
            facts(portability::registered()[i]).implementation_phase,
        ),
{
    reveal(facts);
    reveal_strlit("MLD");
    let rule = portability::registered()[i];
    let n = number_of(rule);
    three_digits(n);
    prefixes_differ();
    reveal_strlit("0");
    reveal_strlit("1");
    reveal_strlit("2");
    reveal_strlit("3");
    reveal_strlit("4");
    reveal_strlit("5");
    reveal_strlit("6");
    reveal_strlit("7");
    reveal_strlit("8");
    reveal_strlit("9");
    match rule {
        RegisteredRule::FpsDependentUpdaterMotion => {
            reveal_strlit("MLD301");
            assert("MLD301"@ =~= "MLD"@ + numeral(301));
        },
        RegisteredRule::UnseededGlobalRandom => {
            reveal_strlit("MLD302");
            assert("MLD302"@ =~= "MLD"@ + numeral(302));
        },
        RegisteredRule::ForeignPlatformAssetPath => {
            reveal_strlit("MLD303");
            assert("MLD303"@ =~= "MLD"@ + numeral(303));
        },
        RegisteredRule::UnguardedRendererDivergence => {
            reveal_strlit("MLD304");
            assert("MLD304"@ =~= "MLD"@ + numeral(304));
        },
        RegisteredRule::CaseOnlyAssetMismatch => {
            reveal_strlit("MLD305");
            assert("MLD305"@ =~= "MLD"@ + numeral(305));
        },
        RegisteredRule::FontOutsideAllowlist => {
            reveal_strlit("MLD306");
            assert("MLD306"@ =~= "MLD"@ + numeral(306));
        },
        RegisteredRule::FrameCallbackIo => {
            reveal_strlit("MLD307");
            assert("MLD307"@ =~= "MLD"@ + numeral(307));
        },
        _ => {},
    }
}

/// The lifecycle rules are registered in the order of their numbers.
proof fn lifecycle_numbers(i: int, j: int)
    requires
        0 <= i < j < lifecycle::registered().len(),
    ensures
        number_of(lifecycle::registered()[i]) < number_of(lifecycle::registered()[j]),
    decreases j,
{
    let list = lifecycle::registered();
    assert(number_of(list[j - 1]) < number_of(list[j]));
    if i < j - 1 {
        lifecycle_numbers(i, j - 1);
    }
}

/// The lifecycle rules are registered in the order of their ids.
pub proof fn lifecycle_in_order(i: int, j: int)
    requires
        0 <= i < j < lifecycle::registered().len(),
    ensures
        text_before(
            facts(lifecycle::registered()[i]).id,
            facts(lifecycle::registered()[j]).id,
        ),
{
    lifecycle_ids(i);
    lifecycle_ids(j);
    lifecycle_numbers(i, j);
    let m = number_of(lifecycle::registered()[i]);
    let n = number_of(lifecycle::registered()[j]);
    numbers_in_order(m, n);
    same_start_before("MLC"@, numeral(m as nat), numeral(n as nat));
}

/// The rendering rules are registered in the order of their numbers.
proof fn rendering_numbers(i: int, j: int)
    requires
        0 <= i < j < rendering::registered().len(),
    ensures
        number_of(rendering::registered()[i]) < number_of(rendering::registered()[j]),
    decreases j,
{
    let list = rendering::registered();
    assert(number_of(list[j - 1]) < number_of(list[j]));
    if i < j - 1 {
        rendering_numbers(i, j - 1);
    }
}

/// The rendering rules are registered in the order of their ids.
pub proof fn rendering_in_order(i: int, j: int)
    requires
        0 <= i < j < rendering::registered().len(),
    ensures
        text_before(
            facts(rendering::registered()[i]).id,
            facts(rendering::registered()[j]).id,
        ),
{
    rendering_ids(i);
    rendering_ids(j);
    rendering_numbers(i, j);
    let m = number_of(rendering::registered()[i]);
    let n = number_of(rendering::registered()[j]);
    numbers_in_order(m, n);
    same_start_before("MLR"@, numeral(m as nat), numeral(n as nat));
}

/// The performance rules are registered in the order of their numbers.
proof fn performance_numbers(i: int, j: int)
    requires
        0 <= i < j < performance::registered().len(),
    ensures
        number_of(performance::registered()[i]) < number_of(performance::registered()[j]),
    decreases j,
{
    let list = performance::registered();
    assert(number_of(list[j - 1]) < number_of(list[j]));
    if i < j - 1 {
        performance_numbers(i, j - 1);
    }
}

/// The performance rules are registered in the order of their ids.
pub proof fn performance_in_order(i: int, j: int)
    requires
        0 <= i < j < performance::registered().len(),
    ensures
        text_before(
            facts(performance::registered()[i]).id,
            facts(performance::registered()[j]).id,
        ),
{
    performance_ids(i);
    performance_ids(j);
    performance_numbers(i, j);
    let m = number_of(performance::registered()[i]);
    let n = number_of(performance::registered()[j]);
    numbers_in_order(m, n);
    same_start_before("MLP"@, numeral(m as nat), numeral(n as nat));
}

/// The portability rules are registered in the order of their numbers.
proof fn portability_numbers(i: int, j: int)
    requires
        0 <= i < j < portability::registered().len(),
    ensures
        number_of(portability::registered()[i]) < number_of(portability::registered()[j]),
    decreases j,
{
    let list = portability::registered();
    assert(number_of(list[j - 1]) < number_of(list[j]));
    if i < j - 1 {
        portability_numbers(i, j - 1);
    }
}

/// The portability rules are registered in the order of their ids.
pub proof fn portability_in_order(i: int, j: int)
    requires
        0 <= i < j < portability::registered().len(),
    ensures
        text_before(
            facts(portability::registered()[i]).id,
            facts(portability::registered()[j]).id,
        ),
{
    portability_ids(i);
    portability_ids(j);
    portability_numbers(i, j);
    let m = number_of(portability::registered()[i]);
    let n = number_of(portability::registered()[j]);
    numbers_in_order(m, n);
    same_start_before("MLD"@, numeral(m as nat), numeral(n as nat));
}

/// The lifecycle rules have the ids from `MLC101` to `MLC129`, in order.
pub proof fn lifecycle_is_whole(i: int)
    requires
        0 <= i < 29,
    ensures
        lifecycle::registered().len() == 29,
        facts(lifecycle::registered()[i]).id == "MLC"@ + numeral((101 + i) as nat),
{
    lifecycle_ids(i);
    let rule = lifecycle::registered()[i];
    assert(number_of(rule) == 101 + i);
}

/// The performance rules have the ids from `MLP201` to `MLP227`, in order.
pub proof fn performance_is_whole(i: int)
    requires
        0 <= i < 27,
    ensures
        performance::registered().len() == 27,
        facts(performance::registered()[i]).id == "MLP"@ + numeral((201 + i) as nat),
{
    performance_ids(i);
    let rule = performance::registered()[i];
    assert(number_of(rule) == 201 + i);
}

/// The portability rules have the ids from `MLD301` to `MLD307`, in order.
pub proof fn portability_is_whole(i: int)
    requires
        0 <= i < 7,
    ensures
        portability::registered().len() == 7,
        facts(portability::registered()[i]).id == "MLD"@ + numeral((301 + i) as nat),
{
    portability_ids(i);
    let rule = portability::registered()[i];
    assert(number_of(rule) == 301 + i);
}

/// Position of a rendering rule in its group, by its number.
pub open spec fn rendering_place(number: int) -> int {
    if number < 109 {
        number - 101
    } else if number < 118 {
        number - 102
    } else if number < 122 {
        number - 103
    } else {
        number - 105
    }
}

/// Whether a reserved rendering number waits for its rule.
pub open spec fn open_number(number: int) -> bool {
    number == 109 || number == 118 || number == 122 || number == 123
}

/// The rendering rules have the ids from `MLR101` to `MLR127` but for those
/// that are open.
pub proof fn rendering_is_whole(number: int)
    requires
        101 <= number <= 127,
        !open_number(number),
    ensures
        rendering::registered().len() == 23,
        0 <= rendering_place(number) < 23,
        facts(rendering::registered()[rendering_place(number)]).id == "MLR"@ + numeral(
            number as nat,
        ),
{
    let i = rendering_place(number);
    rendering_ids(i);
    assert(number_of(rendering::registered()[i]) == number);
}

/// The families have different prefixes.
proof fn prefixes_differ()
    ensures
        "MLC"@ != "MLR"@,
        "MLC"@ != "MLP"@,
        "MLC"@ != "MLD"@,
        "MLR"@ != "MLP"@,
        "MLR"@ != "MLD"@,
        "MLP"@ != "MLD"@,
{
    reveal_strlit("MLC");
    reveal_strlit("MLR");
    reveal_strlit("MLP");
    reveal_strlit("MLD");
    assert("MLC"@[2] == 'C' && "MLR"@[2] == 'R' && "MLP"@[2] == 'P' && "MLD"@[2] == 'D');
}

/// Family of the rule at a position of the registry.
spec fn family_at(i: int) -> Seq<char> {
    let a = lifecycle::registered().len();
    let b = rendering::registered().len();
    let c = performance::registered().len();
    if i < a {
        "MLC"@
    } else if i < a + b {
        "MLR"@
    } else if i < a + b + c {
        "MLP"@
    } else {
        "MLD"@
    }
}

proof fn registered_id(i: int)
    requires
        0 <= i < every_rule().len(),
    ensures
        facts(every_rule()[i]).id == family_at(i) + numeral(number_of(every_rule()[i]) as nat),
        in_family(family_at(i), number_of(every_rule()[i])),
        phase_in(family_at(i), number_of(every_rule()[i])) == Some(
            facts(every_rule()[i]).implementation_phase,
        ),
        family_at(i).len() == 3,
{
    reveal(every_rule);
    prefixes_have_three_characters();
    let a = lifecycle::registered().len();
    let b = rendering::registered().len();
    let c = performance::registered().len();
    if i < a {
        lifecycle_ids(i);
    } else if i < a + b {
        rendering_ids(i - a);
    } else if i < a + b + c {
        performance_ids(i - a - b);
    } else {
        portability_ids(i - a - b - c);
    }
}

/// Every registered rule has a reserved id and declares the phase of that
/// id.
pub proof fn registered_ids_are_reserved(i: int)
    requires
        0 <= i < every_rule().len(),
    ensures
        reserved(facts(every_rule()[i]).id),
        phase_of(facts(every_rule()[i]).id) == Some(facts(every_rule()[i]).implementation_phase),
{
    registered_id(i);
    spelled_id_splits(family_at(i), number_of(every_rule()[i]));
    spelled_is_no_pipeline_id(family_at(i), number_of(every_rule()[i]));
}

/// No two registered rules share an id.
pub proof fn registered_ids_differ(i: int, j: int)
    requires
        0 <= i < j < every_rule().len(),
    ensures
        facts(every_rule()[i]).id != facts(every_rule()[j]).id,
{
    registered_id(i);
    registered_id(j);
    spelled_id_splits(family_at(i), number_of(every_rule()[i]));
    spelled_id_splits(family_at(j), number_of(every_rule()[j]));
    prefixes_differ();
    reveal(every_rule);
    let a = lifecycle::registered().len();
    let b = rendering::registered().len();
    let c = performance::registered().len();
    if j < a {
        lifecycle_numbers(i, j);
    } else if a <= i && j < a + b {
        rendering_numbers(i - a, j - a);
    } else if a + b <= i && j < a + b + c {
        performance_numbers(i - a - b, j - a - b);
    } else if a + b + c <= i {
        portability_numbers(i - a - b - c, j - a - b - c);
    }
}

proof fn declared_is_found(id: Seq<char>, i: int, k: int)
    requires
        0 <= k <= i < every_rule().len(),
        facts(every_rule()[i]).id == id,
        forall|j: int| 0 <= j < i ==> facts(#[trigger] every_rule()[j]).id != id,
    ensures
        declared_from(every_rule(), id, k) == Some(facts(every_rule()[i])),
    decreases i - k,
{
    if k < i {
        declared_is_found(id, i, k + 1);
    }
}

/// The metadata found under the id of a registered rule is what that rule
/// declares.
pub proof fn registered_rules_are_found(i: int)
    requires
        0 <= i < every_rule().len(),
    ensures
        metadata_of(facts(every_rule()[i]).id) == Some(facts(every_rule()[i])),
{
    let id = facts(every_rule()[i]).id;
    registered_id(i);
    spelled_is_no_pipeline_id(family_at(i), number_of(every_rule()[i]));
    assert(pipeline_ids()[0] == "MLC000"@ && pipeline_ids()[1] == "MLC001"@);
    assert forall|j: int| 0 <= j < i implies facts(#[trigger] every_rule()[j]).id != id by {
        registered_ids_differ(j, i);
    }
    declared_is_found(id, i, 0);
}

/// Every id that is implemented is reserved.
pub proof fn implemented_is_reserved(id: Seq<char>)
    requires
        metadata_of(id) is Some,
    ensures
        reserved(id),
{
    assert(pipeline_ids()[0] == "MLC000"@ && pipeline_ids()[1] == "MLC001"@);
    if id != "MLC000"@ && id != "MLC001"@ {
        found_is_reserved(id, 0);
    }
}

proof fn found_is_reserved(id: Seq<char>, k: int)
    requires
        0 <= k,
        declared_from(every_rule(), id, k) is Some,
    ensures
        reserved(id),
    decreases every_rule().len() - k,
{
    if facts(every_rule()[k]).id == id {
        registered_ids_are_reserved(k);
    } else {
        found_is_reserved(id, k + 1);
    }
}

proof fn undeclared_is_not_found(id: Seq<char>, k: int)
    requires
        0 <= k,
        forall|j: int| 0 <= j < every_rule().len() ==> facts(#[trigger] every_rule()[j]).id != id,
    ensures
        declared_from(every_rule(), id, k) is None,
    decreases every_rule().len() - k,
{
    if k < every_rule().len() {
        undeclared_is_not_found(id, k + 1);
    }
}

/// No rule has the id of an open number.
proof fn open_id_is_not_found(number: int)
    requires
        open_number(number),
    ensures
        metadata_of("MLR"@ + numeral(number as nat)) is None,
{
    let id = "MLR"@ + numeral(number as nat);
    prefixes_have_three_characters();
    prefixes_differ();
    spelled_id_splits("MLR"@, number);
    spelled_is_no_pipeline_id("MLR"@, number);
    assert(pipeline_ids()[0] == "MLC000"@ && pipeline_ids()[1] == "MLC001"@);
    assert forall|j: int| 0 <= j < every_rule().len() implies facts(
        #[trigger] every_rule()[j],
    ).id != id by {
        registered_id(j);
        spelled_id_splits(family_at(j), number_of(every_rule()[j]));
        if family_at(j) == "MLR"@ {
            reveal(every_rule);
            let k = j - lifecycle::registered().len();
            assert(every_rule()[j] == rendering::registered()[k]);
            assert(!open_number(number_of(rendering::registered()[k])));
        }
    }
    undeclared_is_not_found(id, 0);
}

/// The rule of a reserved number that is not open is found.
proof fn held_id_is_found(prefix: Seq<char>, number: int)
    requires
        in_family(prefix, number),
        prefix == "MLR"@ ==> !open_number(number),
    ensures
        metadata_of(prefix + numeral(number as nat)) is Some,
{
    reveal(every_rule);
    prefixes_differ();
    let a = lifecycle::registered().len() as int;
    let b = rendering::registered().len() as int;
    let c = performance::registered().len() as int;
    if prefix == "MLC"@ {
        let i = number - 101;
        lifecycle_is_whole(i);
        assert(every_rule()[i] == lifecycle::registered()[i]);
        registered_rules_are_found(i);
    } else if prefix == "MLR"@ {
        let i = rendering_place(number);
        rendering_is_whole(number);
        assert(every_rule()[a + i] == rendering::registered()[i]);
        registered_rules_are_found(a + i);
    } else if prefix == "MLP"@ {
        let i = number - 201;
        performance_is_whole(i);
        assert(every_rule()[a + b + i] == performance::registered()[i]);
        registered_rules_are_found(a + b + i);
    } else {
        let i = number - 301;
        portability_is_whole(i);
        assert(every_rule()[a + b + c + i] == portability::registered()[i]);
        registered_rules_are_found(a + b + c + i);
    }
}

/// The spelling of the open ids.
proof fn open_ids_spelled()
    ensures
        "MLR109"@ == "MLR"@ + numeral(109),
        "MLR118"@ == "MLR"@ + numeral(118),
        "MLR122"@ == "MLR"@ + numeral(122),
        "MLR123"@ == "MLR"@ + numeral(123),
{
    reveal_strlit("MLR");
    reveal_strlit("MLR109");
    reveal_strlit("MLR118");
    reveal_strlit("MLR122");
    reveal_strlit("MLR123");
    three_digits(109);
    three_digits(118);
    three_digits(122);
    three_digits(123);
    reveal_strlit("0");
    reveal_strlit("1");
    reveal_strlit("2");
    reveal_strlit("3");
    reveal_strlit("4");
    reveal_strlit("5");
    reveal_strlit("6");
    reveal_strlit("7");
    reveal_strlit("8");
    reveal_strlit("9");
    assert("MLR109"@ =~= "MLR"@ + numeral(109));
    assert("MLR118"@ =~= "MLR"@ + numeral(118));
    assert("MLR122"@ =~= "MLR"@ + numeral(122));
    assert("MLR123"@ =~= "MLR"@ + numeral(123));
}

/// Every reserved id is implemented, save for four that are open.
pub proof fn implemented_unless_open(id: Seq<char>)
    requires
        reserved(id),
    ensures
        metadata_of(id) is None <==> (id == "MLR109"@ || id == "MLR118"@ || id == "MLR122"@ || id
            == "MLR123"@),
{
    open_ids_spelled();
    prefixes_have_three_characters();
    open_id_is_not_found(109);
    open_id_is_not_found(118);
    open_id_is_not_found(122);
    open_id_is_not_found(123);
    if pipeline_ids().contains(id) {
        assert(pipeline_ids()[0] == "MLC000"@ && pipeline_ids()[1] == "MLC001"@);
    } else {
        split_id_spells(id);
        let prefix = prefix_in(id);
        let number = number_in(id);
        if !(prefix == "MLR"@ && open_number(number)) {
            held_id_is_found(prefix, number);
        }
    }
}

/// Ids of one family come in the order of their numbers.
proof fn numbered_ascend(prefix: Seq<char>, low: int, high: int)
    requires
        100 <= low <= high < 1000,
    ensures
        ascending_names(numbered(prefix, low, high)),
{
    let list = numbered(prefix, low, high);
    assert forall|i: int, j: int| 0 <= i < j < list.len() implies text_before(list[i], list[j]) by {
        numbers_in_order(low + i, low + j);
        same_start_before(prefix, numeral((low + i) as nat), numeral((low + j) as nat));
    }
}

/// An id of an earlier family comes before one of a later family.
proof fn families_in_order(a: Seq<char>, b: Seq<char>, m: Seq<char>, n: Seq<char>)
    requires
        a.len() == 3,
        b.len() == 3,
        a[0] == b[0],
        a[1] == b[1],
        (a[2] as u32) < (b[2] as u32),
    ensures
        text_before(a + m, b + n),
{
    reveal_with_fuel(text_before, 4);
    let x = a + m;
    let y = b + n;
    assert(x.drop_first()[0] == a[1] && y.drop_first()[0] == b[1]);
    assert(x.drop_first().drop_first()[0] == a[2] && y.drop_first().drop_first()[0] == b[2]);
}

proof fn sum_ascends(a: Seq<Seq<char>>, b: Seq<Seq<char>>)
    requires
        ascending_names(a),
        ascending_names(b),
        forall|i: int, j: int|
            0 <= i < a.len() && 0 <= j < b.len() ==> text_before(#[trigger] a[i], #[trigger] b[j]),
    ensures
        ascending_names(a + b),
{
    let all = a + b;
    assert forall|i: int, j: int| 0 <= i < j < all.len() implies text_before(all[i], all[j]) by {
        if j < a.len() {
            assert(text_before(a[i], a[j]));
        } else if i < a.len() {
            assert(text_before(a[i], b[j - a.len()]));
        } else {
            assert(text_before(b[i - a.len()], b[j - a.len()]));
        }
    }
}

/// Whether every id of a list starts with the family.
spec fn all_in(list: Seq<Seq<char>>, prefix: Seq<char>) -> bool {
    forall|i: int| 0 <= i < list.len() ==> #[trigger] list[i] == prefix + list[i].skip(3)
}

proof fn numbered_in_family(prefix: Seq<char>, low: int, high: int)
    requires
        prefix.len() == 3,
    ensures
        all_in(numbered(prefix, low, high), prefix),
{
    let list = numbered(prefix, low, high);
    assert forall|i: int| 0 <= i < list.len() implies #[trigger] list[i] == prefix + list[i].skip(
        3,
    ) by {
        assert(list[i].skip(3) =~= numeral((low + i) as nat));
    }
}

/// Lists of two families, in order, make one list in order.
proof fn families_ascend(
    a: Seq<Seq<char>>,
    earlier: Seq<char>,
    b: Seq<Seq<char>>,
    later: Seq<char>,
)
    requires
        earlier.len() == 3,
        later.len() == 3,
        earlier[0] == later[0],
        earlier[1] == later[1],
        (earlier[2] as u32) < (later[2] as u32),
        all_in(a, earlier),
        all_in(b, later),
    ensures
        forall|i: int, j: int|
            0 <= i < a.len() && 0 <= j < b.len() ==> text_before(#[trigger] a[i], #[trigger] b[j]),
{
    assert forall|i: int, j: int| 0 <= i < a.len() && 0 <= j < b.len() implies text_before(
        #[trigger] a[i],
        #[trigger] b[j],
    ) by {
        families_in_order(earlier, later, a[i].skip(3), b[j].skip(3));
    }
}

proof fn pipeline_first(n: int)
    requires
        100 <= n < 1000,
    ensures
        text_before("MLC000"@, "MLC001"@),
        text_before("MLC000"@, "MLC"@ + numeral(n as nat)),
        text_before("MLC001"@, "MLC"@ + numeral(n as nat)),
        "MLC000"@ == "MLC"@ + "MLC000"@.skip(3),
        "MLC001"@ == "MLC"@ + "MLC001"@.skip(3),
{
    reveal_strlit("MLC");
    reveal_strlit("MLC000");
    reveal_strlit("MLC001");
    reveal_with_fuel(text_before, 7);
    let zero = "MLC000"@.skip(3);
    let one = "MLC001"@.skip(3);
    assert("MLC000"@ =~= "MLC"@ + zero);
    assert("MLC001"@ =~= "MLC"@ + one);
    assert(zero.drop_first().drop_first()[0] == '0');
    assert(one.drop_first().drop_first()[0] == '1');
    assert(zero[0] == one[0]);
    assert(zero.drop_first()[0] == one.drop_first()[0]);
    assert(text_before(zero, one));
    same_start_before("MLC"@, zero, one);
    three_digits(n);
    reveal_strlit("0");
    digit_is_one_character(n / 100);
    digits_in_order(0, n / 100);
    digit_is_one_character(0);
    assert(zero[0] == '0' && one[0] == '0');
    assert(text_before(zero, numeral(n as nat)));
    assert(text_before(one, numeral(n as nat)));
    same_start_before("MLC"@, zero, numeral(n as nat));
    same_start_before("MLC"@, one, numeral(n as nat));
}

proof fn pipeline_ascends()
    ensures
        ascending_names(pipeline_ids() + numbered("MLC"@, 101, 129)),
        all_in(pipeline_ids() + numbered("MLC"@, 101, 129), "MLC"@),
{
    let a = pipeline_ids();
    let b = numbered("MLC"@, 101, 129);
    prefixes_have_three_characters();
    pipeline_first(101);
    numbered_ascend("MLC"@, 101, 129);
    numbered_in_family("MLC"@, 101, 129);
    assert(a[0] == "MLC000"@ && a[1] == "MLC001"@);
    assert forall|i: int, j: int| 0 <= i < a.len() && 0 <= j < b.len() implies text_before(
        #[trigger] a[i],
        #[trigger] b[j],
    ) by {
        pipeline_first(101 + j);
    }
    sum_ascends(a, b);
    let all = a + b;
    assert forall|i: int| 0 <= i < all.len() implies #[trigger] all[i] == "MLC"@ + all[i].skip(3) by {
        if i >= a.len() {
            assert(all[i] == b[i - a.len()]);
        }
    }
}

proof fn sum_in_order(
    a: Seq<Seq<char>>,
    b: Seq<Seq<char>>,
    c: Seq<Seq<char>>,
)
    requires
        forall|i: int, j: int|
            0 <= i < a.len() && 0 <= j < c.len() ==> text_before(#[trigger] a[i], #[trigger] c[j]),
        forall|i: int, j: int|
            0 <= i < b.len() && 0 <= j < c.len() ==> text_before(#[trigger] b[i], #[trigger] c[j]),
    ensures
        forall|i: int, j: int|
            0 <= i < (a + b).len() && 0 <= j < c.len() ==> text_before(
                #[trigger] (a + b)[i],
                #[trigger] c[j],
            ),
{
    assert forall|i: int, j: int| 0 <= i < (a + b).len() && 0 <= j < c.len() implies text_before(
        #[trigger] (a + b)[i],
        #[trigger] c[j],
    ) by {
        if i < a.len() {
            assert(text_before(a[i], c[j]));
        } else {
            assert(text_before(b[i - a.len()], c[j]));
        }
    }
}

/// The reserved ids are listed in order, each once.
pub proof fn reserved_ids_ascend()
    ensures
        ascending_names(reserved_ids()),
{
    let a = pipeline_ids() + numbered("MLC"@, 101, 129);
    let b = numbered("MLD"@, 301, 307);
    let c = numbered("MLP"@, 201, 227);
    let d = numbered("MLR"@, 101, 127);
    prefixes_have_three_characters();
    reveal_strlit("MLC");
    reveal_strlit("MLD");
    reveal_strlit("MLP");
    reveal_strlit("MLR");
    pipeline_ascends();
    numbered_ascend("MLD"@, 301, 307);
    numbered_ascend("MLP"@, 201, 227);
    numbered_ascend("MLR"@, 101, 127);
    numbered_in_family("MLD"@, 301, 307);
    numbered_in_family("MLP"@, 201, 227);
    numbered_in_family("MLR"@, 101, 127);
    families_ascend(a, "MLC"@, b, "MLD"@);
    sum_ascends(a, b);
    families_ascend(a, "MLC"@, c, "MLP"@);
    families_ascend(b, "MLD"@, c, "MLP"@);
    sum_in_order(a, b, c);
    sum_ascends(a + b, c);
    families_ascend(a, "MLC"@, d, "MLR"@);
    families_ascend(b, "MLD"@, d, "MLR"@);
    families_ascend(c, "MLP"@, d, "MLR"@);
    sum_in_order(a, b, d);
    sum_in_order(a + b, c, d);
    sum_ascends(a + b + c, d);
}

} // verus!
