//! `MLD303` and `MLD305`: asset path portability.
//!
//! `MLD303`: a literal asset path whose syntax belongs to a different
//! platform than the render profile targets. `MLD305`: a relative asset path
//! whose target exists on disk only under a case-only mismatch, reported for
//! profiles whose target platform is case-sensitive. A literal-level mismatch
//! is left to `MLR104`, which carries the case fix; this rule covers the
//! extension-augmented candidates that cannot be mapped back onto the
//! literal.
use crate::config::{Platform, RenderProfile};
use crate::diagnostic::{
    push_all, push_found, report_of, reports, Confidence, Diagnostic, DiagnosticView, MetadataView,
    RuleMetadata, Severity,
};
use crate::frontend::QualifiedCall;
use crate::json::{json_text, Evidence, EvidenceView, JsonView};
use crate::literals::{asset_from, AssetFact, AssetProbe};
use crate::ordered::{place_name, placed_name};
use crate::rules::base::{basic_report, profiled_report, Rule, RuleContext};
use crate::rules::rendering::assets::{asset_literal, find_asset_literal, AssetLiteral};
use crate::rules::rendering::support::{build_for_profiles, IMAGE_MOBJECT, SVG_MOBJECT};
use crate::source::{site_of, AllocationSite, TextRange};
use crate::text::{
    cat2, cat5, cat7, found, gather, has_char, last_segment, same_text, short_name, texts, words,
};
use vstd::prelude::*;

verus! {

/// Whether a path starts with a drive letter.
pub open spec fn drive_prefix(path: Seq<char>) -> bool {
    path.len() >= 2 && path[1] == ':' && ('a' <= path[0] <= 'z' || 'A' <= path[0] <= 'Z')
}

pub fn has_drive_prefix(path: &str) -> (drive: bool)
    ensures
        drive == drive_prefix(path@),
{
    if path.unicode_len() < 2 || path.get_char(1) != ':' {
        return false;
    }
    let letter: char = path.get_char(0);
    ('a' <= letter && letter <= 'z') || ('A' <= letter && letter <= 'Z')
}

/// Windows-only path syntax: a drive prefix or backslash separators.
pub open spec fn windows_style(path: Seq<char>) -> bool {
    drive_prefix(path) || path.contains('\\')
}

fn is_windows_style(path: &str) -> (windows: bool)
    ensures
        windows == windows_style(path@),
{
    has_drive_prefix(path) || has_char(path, '\\')
}

/// Whether a path starts with this character.
pub open spec fn begins(path: Seq<char>, c: char) -> bool {
    path.len() > 0 && path[0] == c
}

fn begins_with(path: &str, c: char) -> (does: bool)
    ensures
        does == begins(path@, c),
{
    path.unicode_len() > 0 && path.get_char(0) == c
}

// ---------------------------------------------------------------------------
// MLD303: literal asset path with foreign-platform syntax.
// ---------------------------------------------------------------------------

/// What [`MLD303`] declares.
pub open spec fn mld303() -> MetadataView {
    MetadataView {
        id: "MLD303"@,
        summary: "Literal asset path syntax does not match the profile platform"@,
        default_enabled: true,
        default_severity: Severity::Warning,
        minimum_confidence: Confidence::High,
        implementation_phase: 4,
        required_profiles: seq![],
        required_capabilities: seq!["qualified-calls"@],
        supersedes: seq![],
    }
}

/// Metadata of rule `MLD303`.
#[allow(non_snake_case)]
pub fn MLD303() -> (metadata: &'static RuleMetadata)
    ensures
        metadata@ == mld303(),
{
    let metadata: &'static RuleMetadata = &RuleMetadata {
        id: "MLD303",
        summary: "Literal asset path syntax does not match the profile platform",
        default_enabled: true,
        default_severity: Severity::Warning,
        minimum_confidence: Confidence::High,
        implementation_phase: 4,
        required_profiles: &[],
        required_capabilities: &["qualified-calls"],
        supersedes: &[],
    };
    assert(metadata@ =~= mld303());
    metadata
}

/// A literal asset path in the syntax of another platform.
pub struct ForeignPlatformAssetPath;

pub const WINDOWS_END: &'static str = "()` cannot \
    resolve on the POSIX platform this profile targets";

pub const WINDOWS_WHY: &'static str = "A drive prefix or backslash separators are Windows path syntax. On \
    Linux or macOS the whole string is treated as a single (or wrong) \
    file name, so the asset lookup fails at render time. Use a relative \
    forward-slash path under the render working directory or \
    assets_dir.";

pub const POSIX_END: &'static str = "()` does \
    not name a drive on the Windows platform this profile targets";

pub const POSIX_WHY: &'static str = "A leading `/` is rooted but drive-less on Windows: it resolves \
    against the current drive of the render process, not the POSIX \
    location it was written for. Use a relative forward-slash path \
    under the render working directory or assets_dir.";

/// Names of the profiles that do, or do not, target Windows.
pub open spec fn platform_names(profiles: Seq<RenderProfile>, windows: bool) -> Seq<Seq<char>>
    decreases profiles.len(),
{
    if profiles.len() == 0 {
        Seq::empty()
    } else if (profiles.last().platform == Platform::Windows) == windows {
        platform_names(profiles.drop_last(), windows).push(profiles.last().name@)
    } else {
        platform_names(profiles.drop_last(), windows)
    }
}

fn list_platform(profiles: &Vec<RenderProfile>, windows: bool) -> (names: Vec<String>)
    ensures
        texts(names@) == platform_names(profiles@, windows),
{
    let mut names: Vec<String> = Vec::new();
    let mut i: usize = 0;
    assert(texts(names@) =~= platform_names(profiles@.take(0), windows));
    while i < profiles.len()
        invariant
            i <= profiles@.len(),
            texts(names@) == platform_names(profiles@.take(i as int), windows),
        decreases profiles@.len() - i,
    {
        assert(profiles@.take(i + 1).drop_last() =~= profiles@.take(i as int));
        if (profiles[i].platform == Platform::Windows) == windows {
            let ghost before = names@;
            names.push(profiles[i].name.clone());
            assert(texts(names@) =~= texts(before).push(profiles@[i as int].name@));
        }
        i += 1;
    }
    assert(profiles@.take(i as int) =~= profiles@);
    names
}

/// The evidence on a foreign path.
pub open spec fn foreign_view(call: QualifiedCall, value: Seq<char>, syntax: Seq<char>) -> EvidenceView {
    EvidenceView::empty().insert("constructor"@, JsonView::Text(call.candidates@[0]@)).insert(
        "literal"@,
        JsonView::Text(value),
    ).insert("path_syntax"@, JsonView::Text(syntax))
}

fn foreign_evidence(call: &QualifiedCall, value: &str, syntax: &str) -> (evidence: Evidence)
    requires
        call.candidates@.len() > 0,
    ensures
        evidence@ == foreign_view(*call, value@, syntax@),
{
    let mut evidence = Evidence::new();
    evidence.insert("constructor", json_text(call.candidates[0].as_str()));
    evidence.insert("literal", json_text(value));
    evidence.insert("path_syntax", json_text(syntax));
    evidence
}

/// The finding for the call at `i`.
pub open spec fn foreign_at(context: RuleContext<'_>, i: int) -> Option<DiagnosticView> {
    let call = context.qualified_calls.calls@[i];
    let profiles = context.config.active_profiles@;
    match asset_literal(context, call) {
        Some((value, range)) => {
            let class = last_segment(call.candidates@[0]@);
            if windows_style(value) {
                if platform_names(profiles, false).len() > 0 {
                    Some(
                        profiled_report(
                            basic_report(
                                mld303(),
                                context,
                                call.file,
                                range,
                                "Windows-style path \""@ + value + "\" passed to `"@ + class
                                    + WINDOWS_END@,
                                WINDOWS_WHY@,
                                foreign_view(call, value, "windows"@),
                            ),
                            platform_names(profiles, false),
                            None,
                        ),
                    )
                } else {
                    None
                }
            } else if begins(value, '/') && platform_names(profiles, true).len() > 0 {
                Some(
                    profiled_report(
                        basic_report(
                            mld303(),
                            context,
                            call.file,
                            range,
                            "POSIX absolute path \""@ + value + "\" passed to `"@ + class
                                + POSIX_END@,
                            POSIX_WHY@,
                            foreign_view(call, value, "posix-absolute"@),
                        ),
                        platform_names(profiles, true),
                        None,
                    ),
                )
            } else {
                None
            }
        },
        None => None,
    }
}

fn foreign(context: &RuleContext<'_>, i: usize) -> (found: Option<Diagnostic>)
    requires
        i < context.qualified_calls.calls@.len(),
    ensures
        report_of(found) == foreign_at(*context, i as int),
{
    let call = &context.qualified_calls.calls[i];
    let literal: AssetLiteral = match find_asset_literal(context, call) {
        Some(literal) => literal,
        None => {
            return None;
        },
    };
    let value: &str = literal.value.as_str();
    let windows: bool = is_windows_style(value);
    if !windows && !begins_with(value, '/') {
        return None;
    }
    let names: Vec<String> = list_platform(&context.config.active_profiles, !windows);
    assert(texts(names@).len() == names@.len());
    if names.len() == 0 {
        return None;
    }
    let class: String = short_name(call.candidates[0].as_str());
    if windows {
        Some(
            build_for_profiles(
                MLD303(),
                context,
                call.file,
                literal.range,
                cat5("Windows-style path \"", value, "\" passed to `", class.as_str(), WINDOWS_END),
                WINDOWS_WHY,
                foreign_evidence(call, value, "windows"),
                names,
                None,
            ),
        )
    } else {
        Some(
            build_for_profiles(
                MLD303(),
                context,
                call.file,
                literal.range,
                cat5("POSIX absolute path \"", value, "\" passed to `", class.as_str(), POSIX_END),
                POSIX_WHY,
                foreign_evidence(call, value, "posix-absolute"),
                names,
                None,
            ),
        )
    }
}

/// Findings of [`ForeignPlatformAssetPath`], call by call.
pub open spec fn foreign_finder(context: RuleContext<'_>) -> spec_fn(int) -> Seq<DiagnosticView> {
    |i: int| found(foreign_at(context, i))
}

impl Rule for ForeignPlatformAssetPath {
    open spec fn declared(&self) -> MetadataView {
        mld303()
    }

    open spec fn findings(&self, context: RuleContext<'_>) -> Seq<DiagnosticView> {
        gather(context.qualified_calls.calls@.len() as int, foreign_finder(context))
    }

    fn metadata(&self) -> (metadata: &'static RuleMetadata) {
        MLD303()
    }

    fn run(&self, context: &RuleContext<'_>) -> (diagnostics: Vec<Diagnostic>) {
        let calls = &context.qualified_calls.calls;
        let mut diagnostics: Vec<Diagnostic> = Vec::new();
        let mut i: usize = 0;
        assert(reports(diagnostics@) =~= Seq::empty());
        while i < calls.len()
            invariant
                i <= calls@.len(),
                calls@ == context.qualified_calls.calls@,
                reports(diagnostics@) == gather(i as int, foreign_finder(*context)),
            decreases calls@.len() - i,
        {
            push_found(&mut diagnostics, foreign(context, i));
            i += 1;
        }
        diagnostics
    }
}

// ---------------------------------------------------------------------------
// MLD305: case-only mismatch on a case-sensitive target platform.
// ---------------------------------------------------------------------------

/// What [`MLD305`] declares.
pub open spec fn mld305() -> MetadataView {
    MetadataView {
        id: "MLD305"@,
        summary: "Asset path matches an existing file only case-insensitively on a case-sensitive target platform"@,
        default_enabled: true,
        default_severity: Severity::Warning,
        minimum_confidence: Confidence::High,
        implementation_phase: 4,
        required_profiles: seq![],
        required_capabilities: seq!["qualified-calls"@],
        supersedes: seq![],
    }
}

/// Metadata of rule `MLD305`.
#[allow(non_snake_case)]
pub fn MLD305() -> (metadata: &'static RuleMetadata)
    ensures
        metadata@ == mld305(),
{
    let metadata: &'static RuleMetadata = &RuleMetadata {
        id: "MLD305",
        summary: "Asset path matches an existing file only case-insensitively on a case-sensitive target platform",
        default_enabled: true,
        default_severity: Severity::Warning,
        minimum_confidence: Confidence::High,
        implementation_phase: 4,
        required_profiles: &[],
        required_capabilities: &["qualified-calls"],
        supersedes: &[],
    };
    assert(metadata@ =~= mld305());
    metadata
}

/// An asset that a case-sensitive platform does not find as written.
pub struct CaseOnlyAssetMismatch;

pub const CASE_ONLY_END: &'static str = "\"; the lookup on the case-sensitive target \
    platform (linux) fails";

pub const CASE_ONLY_WHY: &'static str = "Manim resolves the path against the render working directory and \
    then assets_dir (with known extensions appended) using the exact \
    character case. A case-insensitive development filesystem can mask \
    the mismatch locally, but the render on a case-sensitive platform \
    raises OSError. Rewrite the literal to the on-disk case.";

/// A path that Manim tries: below the assets directory, or below the working
/// directory.
pub struct AssetCandidate {
    pub in_assets: bool,
    pub relative: String,
}

/// Extensions that Manim appends below the assets directory.
pub open spec fn extensions_of(constructor: Seq<char>) -> Seq<Seq<char>> {
    if constructor == SVG_MOBJECT@ {
        seq![".svg"@]
    } else if constructor == IMAGE_MOBJECT@ {
        seq![".jpg"@, ".jpeg"@, ".png"@, ".gif"@, ".ico"@]
    } else {
        seq![]
    }
}

/// The paths that are tried for a literal, in order: as written below both
/// directories, then with each extension below the assets directory.
pub open spec fn candidates_of(constructor: Seq<char>, literal: Seq<char>) -> Seq<
    (bool, Seq<char>),
> {
    let extensions = extensions_of(constructor);
    seq![(false, literal), (true, literal)] + Seq::new(
        extensions.len(),
        |i: int| (true, literal + extensions[i]),
    )
}

/// What a list of candidates says.
pub open spec fn candidate_paths(list: Seq<AssetCandidate>) -> Seq<(bool, Seq<char>)> {
    Seq::new(list.len(), |i: int| (list[i].in_assets, list[i].relative@))
}

/// Extensions that Manim appends to the file names of a constructor.
pub fn asset_extensions(constructor: &str) -> (extensions: Vec<&'static str>)
    ensures
        words(extensions@) == extensions_of(constructor@),
{
    let mut extensions: Vec<&'static str> = Vec::new();
    if same_text(constructor, SVG_MOBJECT) {
        extensions.push(".svg");
    } else if same_text(constructor, IMAGE_MOBJECT) {
        extensions.push(".jpg");
        extensions.push(".jpeg");
        extensions.push(".png");
        extensions.push(".gif");
        extensions.push(".ico");
    }
    assert(words(extensions@) =~= extensions_of(constructor@));
    extensions
}

/// The paths to probe for a literal. The answers, in this order, make up the
/// `exact` list of an [`AssetProbe`].
pub fn asset_candidates(constructor: &str, literal: &str) -> (candidates: Vec<AssetCandidate>)
    ensures
        candidate_paths(candidates@) == candidates_of(constructor@, literal@),
{
    let extensions: Vec<&'static str> = asset_extensions(constructor);
    let mut candidates: Vec<AssetCandidate> = Vec::new();
    candidates.push(AssetCandidate { in_assets: false, relative: literal.to_owned() });
    candidates.push(AssetCandidate { in_assets: true, relative: literal.to_owned() });
    let ghost all = candidates_of(constructor@, literal@);
    assert(candidate_paths(candidates@) =~= all.take(2));
    let mut i: usize = 0;
    while i < extensions.len()
        invariant
            i <= extensions@.len(),
            words(extensions@) == extensions_of(constructor@),
            all == candidates_of(constructor@, literal@),
            candidate_paths(candidates@) == all.take(i + 2),
        decreases extensions@.len() - i,
    {
        let ghost before = candidate_paths(candidates@);
        let relative: String = cat2(literal, extensions[i]);
        assert(words(extensions@)[i as int] == extensions@[i as int]@);
        assert(all[i + 2] == (true, relative@));
        candidates.push(AssetCandidate { in_assets: true, relative });
        assert(candidate_paths(candidates@) =~= before.push(all[i + 2]));
        assert(all.take(i + 3) =~= all.take(i + 2).push(all[i + 2]));
        i += 1;
    }
    assert(all.take(i + 2) =~= all);
    candidates
}

/// The first spelling that some extended name matches, from position `i` on.
pub open spec fn match_from(list: Seq<Option<String>>, i: int) -> Option<Seq<char>>
    decreases list.len() - i,
{
    if i < 0 || i >= list.len() {
        None
    } else {
        match list[i] {
            Some(name) => Some(name@),
            None => match_from(list, i + 1),
        }
    }
}

/// The on-disk spelling of an asset that no candidate names exactly, that
/// the literal does not match either, and that an extended candidate matches
/// when case is ignored.
pub open spec fn correction_of(probe: AssetProbe) -> Option<Seq<char>> {
    if probe.exact@.contains(true) || probe.literal_matches@.contains(true) {
        None
    } else {
        match_from(probe.extended_matches@, 0)
    }
}

fn any_true(list: &Vec<bool>) -> (found: bool)
    ensures
        found == list@.contains(true),
{
    let mut i: usize = 0;
    while i < list.len()
        invariant
            i <= list@.len(),
            forall|j: int| 0 <= j < i ==> !#[trigger] list@[j],
        decreases list@.len() - i,
    {
        if list[i] {
            assert(list@[i as int] == true);
            return true;
        }
        i += 1;
    }
    false
}

/// Decides from what the file system answered: when no candidate exists
/// exactly but an extension-augmented candidate matches case-insensitively,
/// the on-disk spelling of the match.
///
/// Literal-level mismatches are deliberately none: `MLR104` reports exactly
/// those, and one span never carries the same finding twice.
pub fn case_only_correction(probe: &AssetProbe) -> (corrected: Option<&String>)
    ensures
        match corrected {
            Some(found) => correction_of(*probe) == Some(found@),
            None => correction_of(*probe) is None,
        },
{
    if any_true(&probe.exact) || any_true(&probe.literal_matches) {
        return None;
    }
    let list = &probe.extended_matches;
    let mut i: usize = 0;
    while i < list.len()
        invariant
            i <= list@.len(),
            list@ == probe.extended_matches@,
            correction_of(*probe) == match_from(list@, i as int),
        decreases list@.len() - i,
    {
        match &list[i] {
            Some(name) => {
                return Some(name);
            },
            None => {},
        }
        i += 1;
    }
    None
}

/// A literal that names a file by itself, exactly or but for its case, is
/// never reported for a file with a longer name.
pub proof fn matching_literal_is_left_out(probe: AssetProbe)
    requires
        probe.exact@.contains(true) || probe.literal_matches@.contains(true),
    ensures
        correction_of(probe) is None,
{
}

/// The correction under the profile at `p`: only Linux target filesystems
/// are case-sensitive by default.
pub open spec fn profile_correction(
    fact: AssetFact,
    profiles: Seq<RenderProfile>,
    p: int,
) -> Option<Seq<char>> {
    if profiles[p].platform == Platform::Linux && p < fact.probes@.len()
        && fact.probes@[p].working_directory {
        correction_of(fact.probes@[p])
    } else {
        None
    }
}

fn find_correction<'f>(fact: &'f AssetFact, profiles: &Vec<RenderProfile>, p: usize) -> (corrected:
    Option<&'f String>)
    requires
        p < profiles@.len(),
    ensures
        match corrected {
            Some(found) => profile_correction(*fact, profiles@, p as int) == Some(found@),
            None => profile_correction(*fact, profiles@, p as int) is None,
        },
{
    if profiles[p].platform != Platform::Linux || p >= fact.probes.len()
        || !fact.probes[p].working_directory {
        return None;
    }
    case_only_correction(&fact.probes[p])
}

/// The corrections under the first `n` profiles, in order, each once.
pub open spec fn corrected_names(fact: AssetFact, profiles: Seq<RenderProfile>, n: int) -> Seq<
    Seq<char>,
>
    decreases n,
{
    if n <= 0 {
        Seq::empty()
    } else {
        let rest = corrected_names(fact, profiles, n - 1);
        match profile_correction(fact, profiles, n - 1) {
            Some(name) => placed_name(rest, name),
            None => rest,
        }
    }
}

fn list_corrected(fact: &AssetFact, profiles: &Vec<RenderProfile>) -> (names: Vec<String>)
    ensures
        texts(names@) == corrected_names(*fact, profiles@, profiles@.len() as int),
{
    let mut names: Vec<String> = Vec::new();
    let mut n: usize = 0;
    assert(texts(names@) =~= Seq::empty());
    while n < profiles.len()
        invariant
            n <= profiles@.len(),
            texts(names@) == corrected_names(*fact, profiles@, n as int),
        decreases profiles@.len() - n,
    {
        match find_correction(fact, profiles, n) {
            Some(name) => {
                place_name(&mut names, name.clone());
            },
            None => {},
        }
        n += 1;
    }
    names
}

/// Names of the first `n` profiles that have this correction.
pub open spec fn correcting_profiles(
    fact: AssetFact,
    profiles: Seq<RenderProfile>,
    corrected: Seq<char>,
    n: int,
) -> Seq<Seq<char>>
    decreases n,
{
    if n <= 0 {
        Seq::empty()
    } else {
        let rest = correcting_profiles(fact, profiles, corrected, n - 1);
        if profile_correction(fact, profiles, n - 1) == Some(corrected) {
            rest.push(profiles[n - 1].name@)
        } else {
            rest
        }
    }
}

fn list_correcting(fact: &AssetFact, profiles: &Vec<RenderProfile>, corrected: &str) -> (names: Vec<
    String,
>)
    ensures
        texts(names@) == correcting_profiles(
            *fact,
            profiles@,
            corrected@,
            profiles@.len() as int,
        ),
{
    let mut names: Vec<String> = Vec::new();
    let mut n: usize = 0;
    assert(texts(names@) =~= Seq::empty());
    while n < profiles.len()
        invariant
            n <= profiles@.len(),
            texts(names@) == correcting_profiles(*fact, profiles@, corrected@, n as int),
        decreases profiles@.len() - n,
    {
        let hit: bool = match find_correction(fact, profiles, n) {
            Some(name) => same_text(name.as_str(), corrected),
            None => false,
        };
        if hit {
            let ghost before = names@;
            names.push(profiles[n].name.clone());
            assert(texts(names@) =~= texts(before).push(profiles@[n as int].name@));
        }
        n += 1;
    }
    names
}

/// The finding for one correction.
pub open spec fn correction_report(
    context: RuleContext<'_>,
    call: QualifiedCall,
    fact: AssetFact,
    value: Seq<char>,
    range: TextRange,
    corrected: Seq<char>,
) -> DiagnosticView {
    let profiles = context.config.active_profiles@;
    profiled_report(
        basic_report(
            mld305(),
            context,
            call.file,
            range,
            "Asset \""@ + value + "\" passed to `"@ + last_segment(call.candidates@[0]@)
                + "()` exists on disk only as \""@ + corrected + CASE_ONLY_END@,
            CASE_ONLY_WHY@,
            EvidenceView::empty().insert(
                "constructor"@,
                JsonView::Text(call.candidates@[0]@),
            ).insert("literal"@, JsonView::Text(value)).insert(
                "on_disk"@,
                JsonView::Text(corrected),
            ),
        ),
        correcting_profiles(fact, profiles, corrected, profiles.len() as int),
        None,
    )
}

fn report_correction(
    context: &RuleContext<'_>,
    call: &QualifiedCall,
    fact: &AssetFact,
    literal: &AssetLiteral,
    corrected: &str,
) -> (diagnostic: Diagnostic)
    requires
        call.candidates@.len() > 0,
    ensures
        diagnostic@ == correction_report(
            *context,
            *call,
            *fact,
            literal.value@,
            literal.range,
            corrected@,
        ),
{
    let names: Vec<String> = list_correcting(fact, &context.config.active_profiles, corrected);
    let mut evidence = Evidence::new();
    evidence.insert("constructor", json_text(call.candidates[0].as_str()));
    evidence.insert("literal", json_text(literal.value.as_str()));
    evidence.insert("on_disk", json_text(corrected));
    build_for_profiles(
        MLD305(),
        context,
        call.file,
        literal.range,
        cat7(
            "Asset \"",
            literal.value.as_str(),
            "\" passed to `",
            short_name(call.candidates[0].as_str()).as_str(),
            "()` exists on disk only as \"",
            corrected,
            CASE_ONLY_END,
        ),
        CASE_ONLY_WHY,
        evidence,
        names,
        None,
    )
}

/// Findings of an asset, correction by correction.
pub open spec fn correction_parts(
    context: RuleContext<'_>,
    call: QualifiedCall,
    fact: AssetFact,
    value: Seq<char>,
    range: TextRange,
    names: Seq<Seq<char>>,
) -> spec_fn(int) -> Seq<DiagnosticView> {
    |k: int| seq![correction_report(context, call, fact, value, range, names[k])]
}

/// The findings for the call at `i`.
pub open spec fn case_only_at(context: RuleContext<'_>, i: int) -> Seq<DiagnosticView> {
    let call = context.qualified_calls.calls@[i];
    let profiles = context.config.active_profiles@;
    match asset_literal(context, call) {
        Some((value, range)) => match asset_from(
            context.literal_facts.assets@,
            site_of(call.file, range),
            0,
        ) {
            Some(fact) => if windows_style(value) || begins(value, '~') || begins(value, '/') {
                Seq::empty()
            } else {
                let names = corrected_names(fact, profiles, profiles.len() as int);
                gather(
                    names.len() as int,
                    correction_parts(context, call, fact, value, range, names),
                )
            },
            None => Seq::empty(),
        },
        None => Seq::empty(),
    }
}

fn case_only(context: &RuleContext<'_>, i: usize) -> (diagnostics: Vec<Diagnostic>)
    requires
        i < context.qualified_calls.calls@.len(),
    ensures
        reports(diagnostics@) == case_only_at(*context, i as int),
{
    let call = &context.qualified_calls.calls[i];
    let mut diagnostics: Vec<Diagnostic> = Vec::new();
    assert(reports(diagnostics@) =~= Seq::empty());
    let literal: AssetLiteral = match find_asset_literal(context, call) {
        Some(literal) => literal,
        None => {
            return diagnostics;
        },
    };
    let value: &str = literal.value.as_str();
    // Only relative POSIX-style literals can be scanned soundly.
    if is_windows_style(value) || begins_with(value, '~') || begins_with(value, '/') {
        return diagnostics;
    }
    let fact = match context.literal_facts.asset_at(
        AllocationSite::new(call.file, literal.range),
    ) {
        Some(fact) => fact,
        None => {
            return diagnostics;
        },
    };
    let names: Vec<String> = list_corrected(fact, &context.config.active_profiles);
    let ghost views = texts(names@);
    let ghost parts = correction_parts(
        *context,
        *call,
        *fact,
        literal.value@,
        literal.range,
        views,
    );
    let mut k: usize = 0;
    while k < names.len()
        invariant
            k <= names@.len(),
            views == texts(names@),
            call.candidates@.len() > 0,
            parts == correction_parts(
                *context,
                *call,
                *fact,
                literal.value@,
                literal.range,
                views,
            ),
            reports(diagnostics@) == gather(k as int, parts),
        decreases names@.len() - k,
    {
        assert(views[k as int] == names@[k as int]@);
        let ghost before = reports(diagnostics@);
        crate::diagnostic::push(
            &mut diagnostics,
            report_correction(context, call, fact, &literal, names[k].as_str()),
        );
        assert(reports(diagnostics@) =~= before + parts(k as int));
        k += 1;
    }
    diagnostics
}

/// Findings of [`CaseOnlyAssetMismatch`], call by call.
pub open spec fn case_only_finder(context: RuleContext<'_>) -> spec_fn(int) -> Seq<DiagnosticView> {
    |i: int| case_only_at(context, i)
}

impl Rule for CaseOnlyAssetMismatch {
    open spec fn declared(&self) -> MetadataView {
        mld305()
    }

    open spec fn findings(&self, context: RuleContext<'_>) -> Seq<DiagnosticView> {
        gather(context.qualified_calls.calls@.len() as int, case_only_finder(context))
    }

    fn metadata(&self) -> (metadata: &'static RuleMetadata) {
        MLD305()
    }

    fn run(&self, context: &RuleContext<'_>) -> (diagnostics: Vec<Diagnostic>) {
        let calls = &context.qualified_calls.calls;
        let mut diagnostics: Vec<Diagnostic> = Vec::new();
        let mut i: usize = 0;
        assert(reports(diagnostics@) =~= Seq::empty());
        while i < calls.len()
            invariant
                i <= calls@.len(),
                calls@ == context.qualified_calls.calls@,
                reports(diagnostics@) == gather(i as int, case_only_finder(*context)),
            decreases calls@.len() - i,
        {
            push_all(&mut diagnostics, case_only(context, i));
            i += 1;
        }
        diagnostics
    }
}

} // verus!
