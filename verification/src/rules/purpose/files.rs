//! What the rules on asset paths are for.
use super::typesetting::names_only;
use super::{
    gathered_in, one_place_is_told, owed, parts_stand, parts_told, points_at, stand_at, told, Place,
};
use crate::config::{Platform, RenderProfile};
use crate::diagnostic::DiagnosticView;
use crate::frontend::{LiteralFact, QualifiedCall};
use crate::literals::{asset_from, AssetFact, AssetProbe, AssetResolution};
use crate::ordered::{ascending_names, placed_name, placing_name_keeps_order};
use crate::rules::base::{Rule, RuleContext};
use crate::rules::portability::paths::{
    candidates_of, case_only_at, case_only_finder, corrected_names, correction_parts, foreign_at,
    foreign_finder, match_from, platform_names, profile_correction, CaseOnlyAssetMismatch,
    ForeignPlatformAssetPath,
};
use crate::rules::rendering::assets::{
    asset_literal, case_finding, case_parts, corrections, linux_mismatches, mismatches,
    missing_finding, missing_names, resolution_at, unresolved_at, unresolved_finder,
    UnresolvedAssetPath,
};
use crate::source::{site_of, TextRange};
use crate::text::{found, gather, gathered_from};
use vstd::prelude::*;

verus! {

/// Whether a call loads an asset from this path: an `SVGMobject` from
/// `file_name`, an `ImageMobject` from `filename_or_array`, or either from its
/// first argument.
pub open spec fn loads(
    context: RuleContext<'_>,
    call: QualifiedCall,
    path: Seq<char>,
    range: TextRange,
) -> bool {
    ||| names_only(context, call, "manim.mobject.svg.svg_mobject.SVGMobject"@) && given_path(
        call,
        "file_name"@,
        path,
        range,
    )
    ||| names_only(context, call, "manim.mobject.types.image_mobject.ImageMobject"@) && given_path(
        call,
        "filename_or_array"@,
        path,
        range,
    )
}

/// Whether a parameter is given this path as a string.
pub open spec fn given_path(
    call: QualifiedCall,
    keyword: Seq<char>,
    path: Seq<char>,
    range: TextRange,
) -> bool {
    match (
        match call.spec_keyword(keyword) {
            Some(argument) => Some(argument),
            None => if call.positional_count > 0 && call.arguments@.len() > 0 {
                Some(call.arguments@[0])
            } else {
                None
            },
        }
    ) {
        Some(argument) => argument.literal matches Some(
            LiteralFact::Str { value, prefix, range: written },
        ) && !prefix.bytes && value@.len() > 0 && value@ == path && written == range,
        None => false,
    }
}

proof fn loading_is_told(
    context: RuleContext<'_>,
    call: QualifiedCall,
    path: Seq<char>,
    range: TextRange,
)
    ensures
        loads(context, call, path, range) <==> asset_literal(context, call) == Some((path, range)),
{
    reveal_strlit("manim.mobject.svg.svg_mobject.SVGMobject");
    reveal_strlit("manim.mobject.types.image_mobject.ImageMobject");
    assert("manim.mobject.svg.svg_mobject.SVGMobject"@.len()
        != "manim.mobject.types.image_mobject.ImageMobject"@.len());
}

/// Whether a path can only be one of Windows: it names a drive, or holds a
/// backslash.
pub open spec fn of_windows(path: Seq<char>) -> bool {
    path.contains('\\') || (path.len() >= 2 && path[1] == ':' && ('a' <= path[0] <= 'z' || 'A'
        <= path[0] <= 'Z'))
}

/// Whether some active profile runs on Windows, or some on another platform.
pub open spec fn runs_on(profiles: Seq<RenderProfile>, windows: bool) -> bool {
    exists|p: int|
        0 <= p < profiles.len() && ((#[trigger] profiles[p]).platform == Platform::Windows
            <==> windows)
}

proof fn platforms_are_told(profiles: Seq<RenderProfile>, windows: bool)
    ensures
        runs_on(profiles, windows) <==> platform_names(profiles, windows).len() > 0,
    decreases profiles.len(),
{
    if profiles.len() > 0 {
        let rest = profiles.drop_last();
        platforms_are_told(rest, windows);
        if runs_on(rest, windows) {
            let p = choose|p: int|
                0 <= p < rest.len() && ((#[trigger] rest[p]).platform == Platform::Windows
                    <==> windows);
            assert(profiles[p] == rest[p]);
        }
        if runs_on(profiles, windows) {
            let p = choose|p: int|
                0 <= p < profiles.len() && ((#[trigger] profiles[p]).platform == Platform::Windows
                    <==> windows);
            if p < rest.len() {
                assert(rest[p].platform == profiles[p].platform);
            }
        }
        assert(profiles.last() == profiles[profiles.len() - 1]);
    }
}

/// A path that some profile cannot understand.
pub open spec fn foreign_path_owed(context: RuleContext<'_>, i: int) -> Seq<Place> {
    let call = context.qualified_calls.calls@[i];
    if exists|path: Seq<char>, range: TextRange| #[trigger] loads(context, call, path, range) {
        let (path, range) = choose|path: Seq<char>, range: TextRange|
            #[trigger] loads(context, call, path, range);
        owed(
            if of_windows(path) {
                runs_on(context.config.active_profiles@, false)
            } else {
                path.len() > 0 && path[0] == '/' && runs_on(context.config.active_profiles@, true)
            },
            call.file,
            range,
        )
    } else {
        Seq::empty()
    }
}

/// A path that only Windows understands is reported when some active profile
/// runs elsewhere, an absolute path of the other platforms when some profile
/// runs on Windows; nothing else is.
pub proof fn foreign_paths_are_reported(context: RuleContext<'_>)
    ensures
        stand_at(
            context,
            ForeignPlatformAssetPath.findings(context),
            gather(
                context.qualified_calls.calls@.len() as int,
                |i: int| foreign_path_owed(context, i),
            ),
        ),
{
    let finder = foreign_finder(context);
    let places = |i: int| foreign_path_owed(context, i);
    let n = context.qualified_calls.calls@.len() as int;
    assert forall|i: int| 0 <= i < n implies stand_at(
        context,
        #[trigger] finder(i),
        places(i),
    ) by {
        let call = context.qualified_calls.calls@[i];
        assert(finder(i) == found(foreign_at(context, i)));
        assert forall|path: Seq<char>, range: TextRange|
            #[trigger] loads(context, call, path, range) <==> asset_literal(context, call) == Some(
                (path, range),
            ) by {
            loading_is_told(context, call, path, range);
        }
        match asset_literal(context, call) {
            Some((path, range)) => {
                assert(loads(context, call, path, range));
            },
            None => {},
        }
        platforms_are_told(context.config.active_profiles@, false);
        platforms_are_told(context.config.active_profiles@, true);
    }
    parts_stand(context, n, finder, places);
}

/// Whether a probe finds a file only with an extension and in another case.
pub open spec fn only_in_other_case(probe: AssetProbe) -> bool {
    &&& probe.working_directory
    &&& forall|e: int| 0 <= e < probe.exact@.len() ==> !#[trigger] probe.exact@[e]
    &&& forall|e: int|
        0 <= e < probe.literal_matches@.len() ==> !#[trigger] probe.literal_matches@[e]
    &&& exists|e: int|
        0 <= e < probe.extended_matches@.len() && (#[trigger] probe.extended_matches@[e]) is Some
}

proof fn match_is_found(list: Seq<Option<String>>, i: int)
    requires
        0 <= i <= list.len(),
    ensures
        match_from(list, i) is Some <==> exists|e: int|
            i <= e < list.len() && (#[trigger] list[e]) is Some,
    decreases list.len() - i,
{
    if i < list.len() {
        match_is_found(list, i + 1);
        if list[i] is Some {
        }
    }
}

proof fn probe_is_told(fact: AssetFact, profiles: Seq<RenderProfile>, p: int)
    requires
        0 <= p < profiles.len(),
    ensures
        profile_correction(fact, profiles, p) is Some <==> profiles[p].platform == Platform::Linux
            && p < fact.probes@.len() && only_in_other_case(fact.probes@[p]),
{
    if p < fact.probes@.len() {
        let probe = fact.probes@[p];
        match_is_found(probe.extended_matches@, 0);
        if probe.exact@.contains(true) {
            let e = choose|e: int| 0 <= e < probe.exact@.len() && probe.exact@[e] == true;
            assert(probe.exact@[e]);
        }
        if probe.literal_matches@.contains(true) {
            let e = choose|e: int|
                0 <= e < probe.literal_matches@.len() && probe.literal_matches@[e] == true;
            assert(probe.literal_matches@[e]);
        }
        if !probe.exact@.contains(true) {
            assert forall|e: int| 0 <= e < probe.exact@.len() implies !#[trigger] probe.exact@[e] by {
                if probe.exact@[e] {
                    assert(probe.exact@.contains(true));
                }
            }
        }
        if !probe.literal_matches@.contains(true) {
            assert forall|e: int|
                0 <= e < probe.literal_matches@.len() implies !#[trigger] probe.literal_matches@[e] by {
                if probe.literal_matches@[e] {
                    assert(probe.literal_matches@.contains(true));
                }
            }
        }
    }
}

proof fn corrections_are_told(fact: AssetFact, profiles: Seq<RenderProfile>, n: int)
    requires
        0 <= n <= profiles.len(),
    ensures
        corrected_names(fact, profiles, n).len() > 0 <==> exists|p: int|
            0 <= p < n && (#[trigger] profile_correction(fact, profiles, p)) is Some,
    decreases n,
{
    if n > 0 {
        corrections_are_told(fact, profiles, n - 1);
        if exists|p: int| 0 <= p < n && (#[trigger] profile_correction(fact, profiles, p)) is Some {
            let p = choose|p: int|
                0 <= p < n && (#[trigger] profile_correction(fact, profiles, p)) is Some;
            if p < n - 1 {
                assert(profile_correction(fact, profiles, p) is Some);
            }
        }
        if profile_correction(fact, profiles, n - 1) is Some {
            assert(exists|p: int|
                0 <= p < n && (#[trigger] profile_correction(fact, profiles, p)) is Some);
        }
    }
}

/// Whether an asset exists, for some profile of Linux, only with an extension
/// and in another case.
pub open spec fn miswritten(fact: AssetFact, profiles: Seq<RenderProfile>) -> bool {
    exists|p: int|
        0 <= p < profiles.len() && (#[trigger] profiles[p]).platform == Platform::Linux && p
            < fact.probes@.len() && only_in_other_case(fact.probes@[p])
}

proof fn miswriting_is_told(fact: AssetFact, profiles: Seq<RenderProfile>)
    ensures
        miswritten(fact, profiles) <==> corrected_names(
            fact,
            profiles,
            profiles.len() as int,
        ).len() > 0,
{
    let n = profiles.len() as int;
    corrections_are_told(fact, profiles, n);
    if miswritten(fact, profiles) {
        let p = choose|p: int|
            0 <= p < n && (#[trigger] profiles[p]).platform == Platform::Linux && p
                < fact.probes@.len() && only_in_other_case(fact.probes@[p]);
        probe_is_told(fact, profiles, p);
        assert(profile_correction(fact, profiles, p) is Some);
    }
    if corrected_names(fact, profiles, n).len() > 0 {
        let p = choose|p: int|
            0 <= p < n && (#[trigger] profile_correction(fact, profiles, p)) is Some;
        probe_is_told(fact, profiles, p);
        assert(profiles[p].platform == Platform::Linux);
    }
}

proof fn single_parts(n: int, finder: spec_fn(int) -> Seq<DiagnosticView>)
    requires
        n >= 0,
        forall|k: int| 0 <= k < n ==> (#[trigger] finder(k)).len() == 1,
    ensures
        gather(n, finder).len() == n,
    decreases n,
{
    if n > 0 {
        single_parts(n - 1, finder);
        assert(finder(n - 1).len() == 1);
    }
}

/// A path that is written in the wrong case.
pub open spec fn miswritten_owed(context: RuleContext<'_>, i: int) -> Seq<Place> {
    let call = context.qualified_calls.calls@[i];
    if exists|path: Seq<char>, range: TextRange| #[trigger] loads(context, call, path, range) {
        let (path, range) = choose|path: Seq<char>, range: TextRange|
            #[trigger] loads(context, call, path, range);
        owed(
            !of_windows(path) && path[0] != '~' && path[0] != '/' && (asset_from(
                context.literal_facts.assets@,
                site_of(call.file, range),
                0,
            ) matches Some(fact) && miswritten(fact, context.config.active_profiles@)),
            call.file,
            range,
        )
    } else {
        Seq::empty()
    }
}

/// A relative path is reported when some profile of Linux finds the asset only
/// with an extension and in another case; nothing else is.
pub proof fn miswritten_assets_are_reported(context: RuleContext<'_>)
    ensures
        told(
            context,
            CaseOnlyAssetMismatch.findings(context),
            gather(
                context.qualified_calls.calls@.len() as int,
                |i: int| miswritten_owed(context, i),
            ),
        ),
{
    let finder = case_only_finder(context);
    let places = |i: int| miswritten_owed(context, i);
    let n = context.qualified_calls.calls@.len() as int;
    assert forall|i: int| 0 <= i < n implies told(
        context,
        #[trigger] finder(i),
        places(i),
    ) by {
        let call = context.qualified_calls.calls@[i];
        assert(finder(i) == case_only_at(context, i));
        assert forall|path: Seq<char>, range: TextRange|
            #[trigger] loads(context, call, path, range) <==> asset_literal(context, call) == Some(
                (path, range),
            ) by {
            loading_is_told(context, call, path, range);
        }
        match asset_literal(context, call) {
            Some((path, range)) => {
                assert(loads(context, call, path, range));
            },
            None => {},
        }
        let profiles = context.config.active_profiles@;
        match asset_literal(context, call) {
            Some((path, range)) => {
                let due = !of_windows(path) && path[0] != '~' && path[0] != '/' && (asset_from(
                    context.literal_facts.assets@,
                    site_of(call.file, range),
                    0,
                ) matches Some(fact) && miswritten(fact, profiles));
                let list = case_only_at(context, i);
                match asset_from(context.literal_facts.assets@, site_of(call.file, range), 0) {
                    Some(fact) => {
                        miswriting_is_told(fact, profiles);
                        let names = corrected_names(fact, profiles, profiles.len() as int);
                        let parts = correction_parts(context, call, fact, path, range, names);
                        single_parts(names.len() as int, parts);
                        assert forall|k: int| 0 <= k < list.len() implies points_at(
                            context,
                            #[trigger] list[k],
                            call.file,
                            range,
                        ) by {
                            gathered_from(names.len() as int, parts, k);
                            let m = choose|m: int|
                                0 <= m < names.len() && (#[trigger] parts(m)).contains(list[k]);
                            let part = parts(m);
                            assert(part.len() == 1);
                        }
                    },
                    None => {},
                }
                one_place_is_told(context, list, due, call.file, range);
            },
            None => {},
        }
    }
    parts_told(context, n, finder, places);
}

/// Whether an asset is missing for some profile, or exists for some profile of
/// Linux only in another case.
pub open spec fn unresolved(fact: AssetFact, profiles: Seq<RenderProfile>) -> bool {
    exists|p: int|
        0 <= p < profiles.len() && p < fact.resolutions@.len() && match (
        #[trigger] fact.resolutions@[p]) {
            AssetResolution::NotFound { tried: _ } => true,
            AssetResolution::CaseOnlyMismatch { corrected: _ } => profiles[p].platform
                == Platform::Linux,
            _ => false,
        }
}

proof fn missing_is_told(fact: AssetFact, profiles: Seq<RenderProfile>, n: int)
    requires
        0 <= n <= profiles.len(),
    ensures
        missing_names(fact, profiles, n).len() > 0 <==> exists|p: int|
            0 <= p < n && (#[trigger] resolution_at(fact, p)) is NotFound,
    decreases n,
{
    if n > 0 {
        missing_is_told(fact, profiles, n - 1);
        if exists|p: int| 0 <= p < n && (#[trigger] resolution_at(fact, p)) is NotFound {
            let p = choose|p: int| 0 <= p < n && (#[trigger] resolution_at(fact, p)) is NotFound;
            if p < n - 1 {
                assert(resolution_at(fact, p) is NotFound);
            }
        }
        if resolution_at(fact, n - 1) is NotFound {
            assert(exists|p: int| 0 <= p < n && (#[trigger] resolution_at(fact, p)) is NotFound);
        }
    }
}

proof fn mismatch_is_told(
    fact: AssetFact,
    profiles: Seq<RenderProfile>,
    corrected: Seq<char>,
    n: int,
)
    requires
        0 <= n <= profiles.len(),
    ensures
        linux_mismatches(fact, profiles, corrected, n).len() > 0 <==> exists|p: int|
            0 <= p < n && #[trigger] mismatches(fact, p, corrected) && profiles[p].platform
                == Platform::Linux,
    decreases n,
{
    if n > 0 {
        mismatch_is_told(fact, profiles, corrected, n - 1);
        if exists|p: int|
            0 <= p < n && #[trigger] mismatches(fact, p, corrected) && profiles[p].platform
                == Platform::Linux {
            let p = choose|p: int|
                0 <= p < n && #[trigger] mismatches(fact, p, corrected) && profiles[p].platform
                    == Platform::Linux;
            if p < n - 1 {
                assert(mismatches(fact, p, corrected));
            }
        }
        if mismatches(fact, n - 1, corrected) && profiles[n - 1].platform == Platform::Linux {
            assert(exists|p: int|
                0 <= p < n && #[trigger] mismatches(fact, p, corrected) && profiles[p].platform
                    == Platform::Linux);
        }
    }
}

proof fn name_is_placed(list: Seq<Seq<char>>, name: Seq<char>, wanted: Seq<char>)
    requires
        ascending_names(list),
        list.contains(wanted) || wanted == name,
    ensures
        placed_name(list, name).contains(wanted),
{
    placing_name_keeps_order(list, name);
    let after = placed_name(list, name);
    assert(after.contains(wanted) <==> list.contains(wanted) || wanted == name);
}

proof fn corrected_is_listed(fact: AssetFact, n: int, p: int)
    requires
        0 <= p < n,
        resolution_at(fact, p) is CaseOnlyMismatch,
    ensures
        corrections(fact, n).contains(resolution_at(fact, p)->corrected@),
        ascending_names(corrections(fact, n)),
    decreases n,
{
    let wanted = resolution_at(fact, p)->corrected@;
    let rest = corrections(fact, n - 1);
    corrections_ascend(fact, n - 1);
    corrections_ascend(fact, n);
    if p < n - 1 {
        corrected_is_listed(fact, n - 1, p);
        assert(rest.contains(wanted));
    }
    match resolution_at(fact, n - 1) {
        AssetResolution::CaseOnlyMismatch { corrected } => {
            placing_name_keeps_order(rest, corrected@);
            assert(corrections(fact, n) == placed_name(rest, corrected@));
            name_is_placed(rest, corrected@, wanted);
        },
        _ => {
            assert(corrections(fact, n) == rest);
        },
    }
}

proof fn corrections_ascend(fact: AssetFact, n: int)
    ensures
        ascending_names(corrections(fact, n)),
    decreases n,
{
    if n > 0 {
        corrections_ascend(fact, n - 1);
        match resolution_at(fact, n - 1) {
            AssetResolution::CaseOnlyMismatch { corrected } => {
                placing_name_keeps_order(corrections(fact, n - 1), corrected@);
            },
            _ => {},
        }
    }
}

proof fn unresolved_is_told(
    context: RuleContext<'_>,
    call: QualifiedCall,
    path: Seq<char>,
    range: TextRange,
    fact: AssetFact,
)
    ensures
        ({
            let profiles = context.config.active_profiles@;
            let n = profiles.len() as int;
            let list = gather(
                corrections(fact, n).len() as int,
                case_parts(context, call, path, range, fact),
            ) + found(missing_finding(context, call, path, range, fact));
            &&& unresolved(fact, profiles) <==> list.len() > 0
            &&& forall|k: int|
                0 <= k < list.len() ==> points_at(context, #[trigger] list[k], call.file, range)
        }),
{
    let profiles = context.config.active_profiles@;
    let n = profiles.len() as int;
    let names = corrections(fact, n);
    let parts = case_parts(context, call, path, range, fact);
    let cases = gather(names.len() as int, parts);
    let missing = found(missing_finding(context, call, path, range, fact));
    let list = cases + missing;
    missing_is_told(fact, profiles, n);
    assert forall|k: int| 0 <= k < list.len() implies points_at(
        context,
        #[trigger] list[k],
        call.file,
        range,
    ) by {
        if k < cases.len() {
            assert(list[k] == cases[k]);
            gathered_from(names.len() as int, parts, k);
            let m = choose|m: int|
                0 <= m < names.len() && (#[trigger] parts(m)).contains(cases[k]);
            let part = parts(m);
            assert(part == found(case_finding(context, call, path, range, fact, names[m])));
        } else {
            assert(list[k] == missing[k - cases.len()]);
        }
    }
    if unresolved(fact, profiles) {
        let p = choose|p: int|
            0 <= p < profiles.len() && p < fact.resolutions@.len() && match (
            #[trigger] fact.resolutions@[p]) {
                AssetResolution::NotFound { tried: _ } => true,
                AssetResolution::CaseOnlyMismatch { corrected: _ } => profiles[p].platform
                    == Platform::Linux,
                _ => false,
            };
        assert(resolution_at(fact, p) == fact.resolutions@[p]);
        match fact.resolutions@[p] {
            AssetResolution::CaseOnlyMismatch { corrected } => {
                corrected_is_listed(fact, n, p);
                let m = choose|m: int| 0 <= m < names.len() && names[m] == corrected@;
                mismatch_is_told(fact, profiles, corrected@, n);
                assert(mismatches(fact, p, corrected@));
                let part = parts(m);
                assert(part == found(case_finding(context, call, path, range, fact, names[m])));
                assert(part.contains(part[0]));
                gathered_in(names.len() as int, parts, m, part[0]);
                assert(cases.len() > 0);
            },
            _ => {
                assert(resolution_at(fact, p) is NotFound);
                assert(missing.len() == 1);
            },
        }
    }
    if list.len() > 0 {
        if missing.len() > 0 {
            let p = choose|p: int| 0 <= p < n && (#[trigger] resolution_at(fact, p)) is NotFound;
            assert(fact.resolutions@[p] is NotFound);
        } else {
            let item = cases[0];
            gathered_from(names.len() as int, parts, 0);
            let m = choose|m: int| 0 <= m < names.len() && (#[trigger] parts(m)).contains(item);
            let part = parts(m);
            assert(part == found(case_finding(context, call, path, range, fact, names[m])));
            mismatch_is_told(fact, profiles, names[m], n);
            let p = choose|p: int|
                0 <= p < n && #[trigger] mismatches(fact, p, names[m]) && profiles[p].platform
                    == Platform::Linux;
            assert(fact.resolutions@[p] is CaseOnlyMismatch);
        }
    }
}

/// A path whose asset is not found as written.
pub open spec fn unresolved_owed(context: RuleContext<'_>, i: int) -> Seq<Place> {
    let call = context.qualified_calls.calls@[i];
    if exists|path: Seq<char>, range: TextRange| #[trigger] loads(context, call, path, range) {
        let (path, range) = choose|path: Seq<char>, range: TextRange|
            #[trigger] loads(context, call, path, range);
        owed(
            asset_from(context.literal_facts.assets@, site_of(call.file, range), 0) matches Some(
                fact,
            ) && unresolved(fact, context.config.active_profiles@),
            call.file,
            range,
        )
    } else {
        Seq::empty()
    }
}

/// A path is reported when some active profile does not find its asset, or
/// some profile of Linux finds it only in another case; nothing else is.
pub proof fn unresolved_assets_are_reported(context: RuleContext<'_>)
    ensures
        told(
            context,
            UnresolvedAssetPath.findings(context),
            gather(
                context.qualified_calls.calls@.len() as int,
                |i: int| unresolved_owed(context, i),
            ),
        ),
{
    let finder = unresolved_finder(context);
    let places = |i: int| unresolved_owed(context, i);
    let n = context.qualified_calls.calls@.len() as int;
    assert forall|i: int| 0 <= i < n implies told(
        context,
        #[trigger] finder(i),
        places(i),
    ) by {
        let call = context.qualified_calls.calls@[i];
        assert(finder(i) == unresolved_at(context, i));
        assert forall|path: Seq<char>, range: TextRange|
            #[trigger] loads(context, call, path, range) <==> asset_literal(context, call) == Some(
                (path, range),
            ) by {
            loading_is_told(context, call, path, range);
        }
        match asset_literal(context, call) {
            Some((path, range)) => {
                assert(loads(context, call, path, range));
            },
            None => {},
        }
        match asset_literal(context, call) {
            Some((path, range)) => {
                let list = unresolved_at(context, i);
                match asset_from(context.literal_facts.assets@, site_of(call.file, range), 0) {
                    Some(fact) => {
                        unresolved_is_told(context, call, path, range, fact);
                        one_place_is_told(
                            context,
                            list,
                            unresolved(fact, context.config.active_profiles@),
                            call.file,
                            range,
                        );
                    },
                    None => {},
                }
            },
            None => {},
        }
    }
    parts_told(context, n, finder, places);
}

/// The places that are searched for an asset: the path as written, below the
/// working directory and below the assets directory, and there with each
/// extension that its class knows.
pub proof fn searched_places(path: Seq<char>)
    ensures
        candidates_of("manim.mobject.svg.svg_mobject.SVGMobject"@, path) == seq![
            (false, path),
            (true, path),
            (true, path + ".svg"@),
        ],
        candidates_of("manim.mobject.types.image_mobject.ImageMobject"@, path) == seq![
            (false, path),
            (true, path),
            (true, path + ".jpg"@),
            (true, path + ".jpeg"@),
            (true, path + ".png"@),
            (true, path + ".gif"@),
            (true, path + ".ico"@),
        ],
{
    reveal_strlit("manim.mobject.svg.svg_mobject.SVGMobject");
    reveal_strlit("manim.mobject.types.image_mobject.ImageMobject");
    assert("manim.mobject.svg.svg_mobject.SVGMobject"@.len()
        != "manim.mobject.types.image_mobject.ImageMobject"@.len());
    assert(candidates_of("manim.mobject.svg.svg_mobject.SVGMobject"@, path) =~= seq![
        (false, path),
        (true, path),
        (true, path + ".svg"@),
    ]);
    assert(candidates_of("manim.mobject.types.image_mobject.ImageMobject"@, path) =~= seq![
        (false, path),
        (true, path),
        (true, path + ".jpg"@),
        (true, path + ".jpeg"@),
        (true, path + ".png"@),
        (true, path + ".gif"@),
        (true, path + ".ico"@),
    ]);
}

} // verus!
