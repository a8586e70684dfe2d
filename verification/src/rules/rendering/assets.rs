//! `MLR104`: literal asset path that Manim's runtime search cannot resolve.
//!
//! The search itself reads the file system; its result for every active
//! profile is a fact about the literal.
use super::support::{
    build_for_profiles, fix_view, is_single_string_token, one_string_token, single_knowledge_symbol,
    single_symbol, IMAGE_MOBJECT, SVG_MOBJECT,
};
use crate::config::{Platform, RenderProfile};
use crate::diagnostic::{
    one_edit, push_all, push_found, report_of, reports, single_edit, Confidence, Diagnostic,
    DiagnosticView, Fix, FixApplicability, FixView, MetadataView, RuleMetadata, Severity,
};
use crate::frontend::{CallArgument, LiteralFact, QualifiedCall};
use crate::json::{json_text, json_texts, text_list, Evidence, EvidenceView, Json, JsonView};
use crate::literals::{asset_from, AssetFact, AssetResolution};
use crate::ordered::{place_name, placed_name};
use crate::rules::base::{basic_report, edit_at, profiled_report, text_edit, Rule, RuleContext};
use crate::source::{site_of, slice_in, AllocationSite, FileId, TextRange};
use crate::text::{
    cat3, cat7, copy_texts, found, gather, last_segment, same_text, short_name, texts,
};
use vstd::prelude::*;

verus! {

/// What [`MLR104`] declares.
pub open spec fn mlr104() -> MetadataView {
    MetadataView {
        id: "MLR104"@,
        summary: "Literal asset path does not resolve in the render search path"@,
        default_enabled: true,
        default_severity: Severity::Error,
        minimum_confidence: Confidence::High,
        implementation_phase: 1,
        required_profiles: seq![],
        required_capabilities: seq!["qualified-calls"@],
        supersedes: seq![],
    }
}

/// Metadata of rule `MLR104`.
#[allow(non_snake_case)]
pub fn MLR104() -> (metadata: &'static RuleMetadata)
    ensures
        metadata@ == mlr104(),
{
    let metadata: &'static RuleMetadata = &RuleMetadata {
        id: "MLR104",
        summary: "Literal asset path does not resolve in the render search path",
        default_enabled: true,
        default_severity: Severity::Error,
        minimum_confidence: Confidence::High,
        implementation_phase: 1,
        required_profiles: &[],
        required_capabilities: &["qualified-calls"],
        supersedes: &[],
    };
    assert(metadata@ =~= mlr104());
    metadata
}

/// A literal asset path that no searched directory holds as written.
pub struct UnresolvedAssetPath;

pub const CASE_LINUX: &'static str = "the lookup is case-sensitive on linux";

pub const CASE_MASKED: &'static str = "case-insensitive filesystems may mask this locally, but the \
    path as written does not match the on-disk case";

pub const CASE_WHY: &'static str = "Manim resolves the file name against the render working directory \
    and then assets_dir; the lookup uses the exact character case of \
    the path, so a case-only mismatch fails on case-sensitive \
    filesystems.";

pub const MISSING_END: &'static str = "()` does not resolve \
    from the render working directory or assets_dir; Manim raises \
    OSError before rendering";

pub const NEXT_TO_SOURCE: &'static str = " (a matching file exists next to the source file, but Manim \
    does not search there)";

pub const MISSING_WHY: &'static str = "Manim resolves file_name as Path(file_name) against the render \
    working directory, then as assets_dir/file_name with the known \
    extensions appended. The source file's directory and the project \
    root are not part of that search.";

/// A literal asset path of a call.
pub struct AssetLiteral {
    pub value: String,
    pub range: TextRange,
}

/// The literal path a constructor loads its file from: the parameter that
/// names the file, or the first positional argument.
pub open spec fn asset_argument(call: QualifiedCall) -> Option<CallArgument> {
    let parameter = if call.candidates@[0]@ == SVG_MOBJECT@ {
        "file_name"@
    } else {
        "filename_or_array"@
    };
    match call.spec_keyword(parameter) {
        Some(argument) => Some(argument),
        None => call.spec_positional(0),
    }
}

/// The literal asset path of a call to `SVGMobject` or `ImageMobject`.
pub open spec fn asset_literal(
    context: RuleContext<'_>,
    call: QualifiedCall,
) -> Option<(Seq<char>, TextRange)> {
    match context.knowledge {
        Some(profile) => if single_symbol(*profile, call.candidates@) is Some && (
        call.candidates@[0]@ == SVG_MOBJECT@ || call.candidates@[0]@ == IMAGE_MOBJECT@) {
            match asset_argument(call) {
                Some(argument) => match argument.literal {
                    Some(LiteralFact::Str { value, prefix, range }) => if !prefix.bytes
                        && value@.len() > 0 {
                        Some((value@, range))
                    } else {
                        None
                    },
                    _ => None,
                },
                None => None,
            }
        } else {
            None
        },
        None => None,
    }
}

/// The literal asset path of a call, if it has one.
pub fn find_asset_literal(context: &RuleContext<'_>, call: &QualifiedCall) -> (literal: Option<
    AssetLiteral,
>)
    ensures
        match literal {
            Some(found) => asset_literal(*context, *call) == Some((found.value@, found.range))
                && call.candidates@.len() == 1,
            None => asset_literal(*context, *call) is None,
        },
{
    let profile = match context.knowledge {
        Some(profile) => profile,
        None => {
            return None;
        },
    };
    if single_knowledge_symbol(profile, &call.candidates).is_none() {
        return None;
    }
    let id: &str = call.candidates[0].as_str();
    let svg: bool = same_text(id, SVG_MOBJECT);
    if !svg && !same_text(id, IMAGE_MOBJECT) {
        return None;
    }
    let parameter: &'static str = if svg {
        "file_name"
    } else {
        "filename_or_array"
    };
    let argument = match call.keyword(parameter) {
        Some(argument) => argument,
        None => match call.positional(0) {
            Some(argument) => argument,
            None => {
                return None;
            },
        },
    };
    match &argument.literal {
        Some(LiteralFact::Str { value, prefix, range }) => {
            if prefix.bytes || value.as_str().is_empty() {
                None
            } else {
                Some(AssetLiteral { value: value.clone(), range: *range })
            }
        },
        _ => None,
    }
}

/// The search result of the profile at `p`.
pub open spec fn resolution_at(fact: AssetFact, p: int) -> AssetResolution {
    if 0 <= p < fact.resolutions@.len() {
        fact.resolutions@[p]
    } else {
        AssetResolution::Found
    }
}

/// On-disk spellings that the first `n` profiles match only when case is
/// ignored, in order.
pub open spec fn corrections(fact: AssetFact, n: int) -> Seq<Seq<char>>
    decreases n,
{
    if n <= 0 {
        Seq::empty()
    } else {
        match resolution_at(fact, n - 1) {
            AssetResolution::CaseOnlyMismatch { corrected } => placed_name(
                corrections(fact, n - 1),
                corrected@,
            ),
            _ => corrections(fact, n - 1),
        }
    }
}

fn list_corrections(fact: &AssetFact, n: usize) -> (names: Vec<String>)
    ensures
        texts(names@) == corrections(*fact, n as int),
{
    let mut names: Vec<String> = Vec::new();
    let mut p: usize = 0;
    assert(texts(names@) =~= Seq::empty());
    while p < n
        invariant
            p <= n,
            texts(names@) == corrections(*fact, p as int),
        decreases n - p,
    {
        if p < fact.resolutions.len() {
            if let AssetResolution::CaseOnlyMismatch { corrected } = &fact.resolutions[p] {
                place_name(&mut names, corrected.clone());
            }
        }
        p += 1;
    }
    names
}

/// Whether the profile at `p` matches `corrected` only when case is ignored.
pub open spec fn mismatches(fact: AssetFact, p: int, corrected: Seq<char>) -> bool {
    match resolution_at(fact, p) {
        AssetResolution::CaseOnlyMismatch { corrected: found } => found@ == corrected,
        _ => false,
    }
}

fn is_mismatch(fact: &AssetFact, p: usize, corrected: &str) -> (is: bool)
    ensures
        is == mismatches(*fact, p as int, corrected@),
{
    if p < fact.resolutions.len() {
        if let AssetResolution::CaseOnlyMismatch { corrected: found } = &fact.resolutions[p] {
            return same_text(found.as_str(), corrected);
        }
    }
    false
}

/// Names of the Linux profiles among the first `n` that mismatch.
pub open spec fn linux_mismatches(
    fact: AssetFact,
    profiles: Seq<RenderProfile>,
    corrected: Seq<char>,
    n: int,
) -> Seq<Seq<char>>
    decreases n,
{
    if n <= 0 {
        Seq::empty()
    } else {
        let names = linux_mismatches(fact, profiles, corrected, n - 1);
        if mismatches(fact, n - 1, corrected) && profiles[n - 1].platform == Platform::Linux {
            names.push(profiles[n - 1].name@)
        } else {
            names
        }
    }
}

/// Whether all of the first `n` profiles that mismatch target Linux.
pub open spec fn only_linux(
    fact: AssetFact,
    profiles: Seq<RenderProfile>,
    corrected: Seq<char>,
    n: int,
) -> bool {
    forall|p: int|
        0 <= p < n && #[trigger] mismatches(fact, p, corrected) ==> profiles[p].platform
            == Platform::Linux
}

fn list_linux(fact: &AssetFact, profiles: &[RenderProfile], corrected: &str) -> (found: (
    Vec<String>,
    bool,
))
    ensures
        texts(found.0@) == linux_mismatches(
            *fact,
            profiles@,
            corrected@,
            profiles@.len() as int,
        ),
        found.1 == only_linux(*fact, profiles@, corrected@, profiles@.len() as int),
{
    let mut names: Vec<String> = Vec::new();
    let mut only: bool = true;
    let mut p: usize = 0;
    assert(texts(names@) =~= Seq::empty());
    while p < profiles.len()
        invariant
            p <= profiles@.len(),
            texts(names@) == linux_mismatches(*fact, profiles@, corrected@, p as int),
            only == only_linux(*fact, profiles@, corrected@, p as int),
        decreases profiles@.len() - p,
    {
        let ghost before = names@;
        if is_mismatch(fact, p, corrected) {
            if profiles[p].platform == Platform::Linux {
                names.push(profiles[p].name.clone());
                assert(texts(names@) =~= texts(before).push(names@.last()@));
            } else {
                only = false;
            }
        }
        p += 1;
    }
    (names, only)
}

/// Names of the profiles among the first `n` that do not find the asset.
pub open spec fn missing_names(fact: AssetFact, profiles: Seq<RenderProfile>, n: int) -> Seq<
    Seq<char>,
>
    decreases n,
{
    if n <= 0 {
        Seq::empty()
    } else if resolution_at(fact, n - 1) is NotFound {
        missing_names(fact, profiles, n - 1).push(profiles[n - 1].name@)
    } else {
        missing_names(fact, profiles, n - 1)
    }
}

/// The first list of tried paths among the first `n` profiles that is not
/// empty.
pub open spec fn tried_paths(fact: AssetFact, n: int) -> Seq<Seq<char>>
    decreases n,
{
    if n <= 0 {
        Seq::empty()
    } else {
        let earlier = tried_paths(fact, n - 1);
        match resolution_at(fact, n - 1) {
            AssetResolution::NotFound { tried } => if earlier.len() == 0 {
                texts(tried@)
            } else {
                earlier
            },
            _ => earlier,
        }
    }
}

fn list_missing(fact: &AssetFact, profiles: &[RenderProfile]) -> (found: (Vec<String>, Vec<String>))
    ensures
        texts(found.0@) == missing_names(*fact, profiles@, profiles@.len() as int),
        texts(found.1@) == tried_paths(*fact, profiles@.len() as int),
{
    let mut names: Vec<String> = Vec::new();
    let mut paths: Vec<String> = Vec::new();
    let mut p: usize = 0;
    assert(texts(names@) =~= Seq::empty());
    while p < profiles.len()
        invariant
            p <= profiles@.len(),
            texts(names@) == missing_names(*fact, profiles@, p as int),
            texts(paths@) == tried_paths(*fact, p as int),
        decreases profiles@.len() - p,
    {
        let ghost before = names@;
        if p < fact.resolutions.len() {
            if let AssetResolution::NotFound { tried } = &fact.resolutions[p] {
                names.push(profiles[p].name.clone());
                assert(texts(names@) =~= texts(before).push(names@.last()@));
                if paths.len() == 0 {
                    paths = copy_texts(tried);
                }
            }
        }
        p += 1;
    }
    (names, paths)
}

/// Position of the first quote character, from `i` on.
pub open spec fn quote_from(text: Seq<char>, i: int) -> Option<int>
    decreases text.len() - i,
{
    if i < 0 || i >= text.len() {
        None
    } else if text[i] == '"' || text[i] == '\'' {
        Some(i)
    } else {
        quote_from(text, i + 1)
    }
}

fn find_quote(text: &str) -> (at: Option<usize>)
    ensures
        match at {
            Some(found) => quote_from(text@, 0) == Some(found as int) && found < text@.len(),
            None => quote_from(text@, 0) is None,
        },
{
    let len: usize = text.unicode_len();
    let mut i: usize = 0;
    while i < len
        invariant
            i <= len,
            len == text@.len(),
            quote_from(text@, 0) == quote_from(text@, i as int),
        decreases len - i,
    {
        let c: char = text.get_char(i);
        if c == '"' || c == '\'' {
            return Some(i);
        }
        i += 1;
    }
    None
}

/// Length of the quote run that opens at `at`: three for a triple quote.
pub open spec fn quote_run(text: Seq<char>, at: int) -> int {
    if at + 3 <= text.len() && text[at + 1] == text[at] && text[at + 2] == text[at] {
        3
    } else {
        1
    }
}

/// The literal with its contents replaced and its quotes kept.
pub open spec fn requoted(text: Seq<char>, contents: Seq<char>) -> Option<Seq<char>> {
    match quote_from(text, 0) {
        Some(at) => {
            let run = quote_run(text, at);
            if text.len() < at + 2 * run {
                None
            } else {
                Some(text.take(at + run) + contents + text.skip(text.len() - run))
            }
        },
        None => None,
    }
}

fn requote(text: &str, contents: &str) -> (out: Option<String>)
    ensures
        match out {
            Some(found) => requoted(text@, contents@) == Some(found@),
            None => requoted(text@, contents@) is None,
        },
{
    let len: usize = text.unicode_len();
    let at: usize = match find_quote(text) {
        Some(at) => at,
        None => {
            return None;
        },
    };
    let triple: bool = len - at >= 3 && text.get_char(at + 1) == text.get_char(at)
        && text.get_char(at + 2) == text.get_char(at);
    let run: usize = if triple {
        3
    } else {
        1
    };
    if len - at < 2 * run {
        return None;
    }
    assert(text@.take(at + run) =~= text@.subrange(0, at + run));
    assert(text@.skip(len - run) =~= text@.subrange(len - run, len as int));
    Some(
        cat3(
            text.substring_char(0, at + run),
            contents,
            text.substring_char(len - run, len),
        ),
    )
}

/// Rewrite of the literal with the on-disk character case.
pub open spec fn case_fix_of(
    context: RuleContext<'_>,
    file: FileId,
    range: TextRange,
    corrected: Seq<char>,
) -> Option<FixView> {
    match requoted(slice_in(*context.sources, file, range), corrected) {
        Some(replacement) => if one_string_token(context, file, range) {
            Some(
                single_edit(
                    FixApplicability::Safe,
                    "Use the on-disk case: \""@ + corrected + "\""@,
                    edit_at(context, file, range, replacement),
                ),
            )
        } else {
            None
        },
        None => None,
    }
}

/// Safe fix: rewrite the literal with the on-disk character case. The
/// runtime string changes only in case, matching the file that actually
/// exists.
fn case_correction_fix(
    context: &RuleContext<'_>,
    file: FileId,
    range: TextRange,
    corrected: &str,
) -> (fix: Option<Fix>)
    ensures
        fix_view(fix) == case_fix_of(*context, file, range, corrected@),
{
    if !is_single_string_token(context, file, range) {
        return None;
    }
    let text: String = context.sources.slice(file, range);
    match requote(text.as_str(), corrected) {
        Some(replacement) => Some(
            one_edit(
                FixApplicability::Safe,
                cat3("Use the on-disk case: \"", corrected, "\""),
                text_edit(context, file, range, replacement),
            ),
        ),
        None => None,
    }
}

/// The finding for one on-disk spelling. Only case-sensitive targets fail,
/// so a spelling that no Linux profile mismatches stays silent.
pub open spec fn case_finding(
    context: RuleContext<'_>,
    call: QualifiedCall,
    value: Seq<char>,
    range: TextRange,
    fact: AssetFact,
    corrected: Seq<char>,
) -> Option<DiagnosticView> {
    let profiles = context.config.active_profiles@;
    let applicable = linux_mismatches(fact, profiles, corrected, profiles.len() as int);
    if applicable.len() == 0 {
        None
    } else {
        Some(
            profiled_report(
                basic_report(
                    mlr104(),
                    context,
                    call.file,
                    range,
                    "Asset path \""@ + value + "\" passed to `"@ + last_segment(
                        call.candidates@[0]@,
                    ) + "()` only matches \""@ + corrected + "\" case-insensitively; "@ + if only_linux(
                        fact,
                        profiles,
                        corrected,
                        profiles.len() as int,
                    ) {
                        CASE_LINUX@
                    } else {
                        CASE_MASKED@
                    },
                    CASE_WHY@,
                    EvidenceView::empty().insert(
                        "constructor"@,
                        JsonView::Text(call.candidates@[0]@),
                    ).insert("literal"@, JsonView::Text(value)).insert(
                        "corrected"@,
                        JsonView::Text(corrected),
                    ),
                ),
                applicable,
                case_fix_of(context, call.file, range, corrected),
            ),
        )
    }
}

fn check_case(
    context: &RuleContext<'_>,
    call: &QualifiedCall,
    literal: &AssetLiteral,
    fact: &AssetFact,
    corrected: &str,
) -> (found: Option<Diagnostic>)
    requires
        call.candidates@.len() == 1,
    ensures
        report_of(found) == case_finding(
            *context,
            *call,
            literal.value@,
            literal.range,
            *fact,
            corrected@,
        ),
{
    let (applicable, only) = list_linux(fact, context.active_profiles(), corrected);
    if applicable.len() == 0 {
        assert(texts(applicable@).len() == 0);
        return None;
    }
    assert(texts(applicable@).len() > 0);
    let wording: &'static str = if only {
        CASE_LINUX
    } else {
        CASE_MASKED
    };
    let constructor: String = short_name(call.candidates[0].as_str());
    let mut evidence = Evidence::new();
    evidence.insert("constructor", json_text(call.candidates[0].as_str()));
    evidence.insert("literal", json_text(literal.value.as_str()));
    evidence.insert("corrected", json_text(corrected));
    let head: String = cat7(
        "Asset path \"",
        literal.value.as_str(),
        "\" passed to `",
        constructor.as_str(),
        "()` only matches \"",
        corrected,
        "\" case-insensitively; ",
    );
    Some(
        build_for_profiles(
            MLR104(),
            context,
            call.file,
            literal.range,
            crate::text::cat2(head.as_str(), wording),
            CASE_WHY,
            evidence,
            applicable,
            case_correction_fix(context, call.file, literal.range, corrected),
        ),
    )
}

/// The finding for an asset that some profile does not find at all.
pub open spec fn missing_finding(
    context: RuleContext<'_>,
    call: QualifiedCall,
    value: Seq<char>,
    range: TextRange,
    fact: AssetFact,
) -> Option<DiagnosticView> {
    let profiles = context.config.active_profiles@;
    let names = missing_names(fact, profiles, profiles.len() as int);
    let evidence = EvidenceView::empty().insert(
        "constructor"@,
        JsonView::Text(call.candidates@[0]@),
    ).insert("literal"@, JsonView::Text(value)).insert(
        "tried"@,
        text_list(tried_paths(fact, profiles.len() as int)),
    ).insert("exists_next_to_source"@, JsonView::Flag(fact.next_to_source));
    if names.len() == 0 {
        None
    } else {
        Some(
            profiled_report(
                basic_report(
                    mlr104(),
                    context,
                    call.file,
                    range,
                    "Asset \""@ + value + "\" passed to `"@ + last_segment(call.candidates@[0]@)
                        + MISSING_END@ + if fact.next_to_source {
                        NEXT_TO_SOURCE@
                    } else {
                        ""@
                    },
                    MISSING_WHY@,
                    if fact.outside_project {
                        evidence.insert("environment_dependent"@, JsonView::Flag(true))
                    } else {
                        evidence
                    },
                ),
                names,
                None,
            ),
        )
    }
}

fn check_missing(
    context: &RuleContext<'_>,
    call: &QualifiedCall,
    literal: &AssetLiteral,
    fact: &AssetFact,
) -> (found: Option<Diagnostic>)
    requires
        call.candidates@.len() == 1,
    ensures
        report_of(found) == missing_finding(
            *context,
            *call,
            literal.value@,
            literal.range,
            *fact,
        ),
{
    let (names, tried) = list_missing(fact, context.active_profiles());
    if names.len() == 0 {
        assert(texts(names@).len() == 0);
        return None;
    }
    assert(texts(names@).len() > 0);
    let aside: &'static str = if fact.next_to_source {
        NEXT_TO_SOURCE
    } else {
        ""
    };
    let constructor: String = short_name(call.candidates[0].as_str());
    let mut evidence = Evidence::new();
    evidence.insert("constructor", json_text(call.candidates[0].as_str()));
    evidence.insert("literal", json_text(literal.value.as_str()));
    evidence.insert("tried", json_texts(&tried));
    evidence.insert("exists_next_to_source", Json::Flag(fact.next_to_source));
    // For an absolute path outside the project tree the search is about
    // this machine, not necessarily the render machine.
    if fact.outside_project {
        evidence.insert("environment_dependent", Json::Flag(true));
    }
    Some(
        build_for_profiles(
            MLR104(),
            context,
            call.file,
            literal.range,
            crate::text::cat6(
                "Asset \"",
                literal.value.as_str(),
                "\" passed to `",
                constructor.as_str(),
                MISSING_END,
                aside,
            ),
            MISSING_WHY,
            evidence,
            names,
            None,
        ),
    )
}

/// Findings of an asset literal, spelling by spelling.
pub open spec fn case_parts(
    context: RuleContext<'_>,
    call: QualifiedCall,
    value: Seq<char>,
    range: TextRange,
    fact: AssetFact,
) -> spec_fn(int) -> Seq<DiagnosticView> {
    let names = corrections(fact, context.config.active_profiles@.len() as int);
    |k: int| found(case_finding(context, call, value, range, fact, names[k]))
}

/// The findings for the call at `i`: one per on-disk spelling, then the one
/// for profiles that find nothing.
pub open spec fn unresolved_at(context: RuleContext<'_>, i: int) -> Seq<DiagnosticView> {
    let call = context.qualified_calls.calls@[i];
    match asset_literal(context, call) {
        Some((value, range)) => match asset_from(
            context.literal_facts.assets@,
            site_of(call.file, range),
            0,
        ) {
            Some(fact) => gather(
                corrections(fact, context.config.active_profiles@.len() as int).len() as int,
                case_parts(context, call, value, range, fact),
            ) + found(missing_finding(context, call, value, range, fact)),
            None => Seq::empty(),
        },
        None => Seq::empty(),
    }
}

fn unresolved(context: &RuleContext<'_>, i: usize) -> (diagnostics: Vec<Diagnostic>)
    requires
        i < context.qualified_calls.calls@.len(),
    ensures
        reports(diagnostics@) == unresolved_at(*context, i as int),
{
    let call = &context.qualified_calls.calls[i];
    let mut diagnostics: Vec<Diagnostic> = Vec::new();
    assert(reports(diagnostics@) =~= Seq::empty());
    let literal = match find_asset_literal(context, call) {
        Some(literal) => literal,
        None => {
            return diagnostics;
        },
    };
    let fact = match context.literal_facts.asset_at(
        AllocationSite::new(call.file, literal.range),
    ) {
        Some(fact) => fact,
        None => {
            return diagnostics;
        },
    };
    let names: Vec<String> = list_corrections(fact, context.config.active_profiles.len());
    let ghost wanted = corrections(*fact, context.config.active_profiles@.len() as int);
    let ghost parts = case_parts(*context, *call, literal.value@, literal.range, *fact);
    let mut k: usize = 0;
    assert(wanted.len() == names@.len()) by {
        assert(texts(names@).len() == names@.len());
    }
    while k < names.len()
        invariant
            k <= names@.len(),
            texts(names@) == wanted,
            wanted == corrections(*fact, context.config.active_profiles@.len() as int),
            parts == case_parts(*context, *call, literal.value@, literal.range, *fact),
            call.candidates@.len() == 1,
            reports(diagnostics@) == gather(k as int, parts),
        decreases names@.len() - k,
    {
        assert(wanted[k as int] == names@[k as int]@);
        push_found(
            &mut diagnostics,
            check_case(context, call, &literal, fact, names[k].as_str()),
        );
        k += 1;
    }
    push_found(&mut diagnostics, check_missing(context, call, &literal, fact));
    diagnostics
}

/// Findings of [`UnresolvedAssetPath`], call by call.
pub open spec fn unresolved_finder(context: RuleContext<'_>) -> spec_fn(int) -> Seq<DiagnosticView> {
    |i: int| unresolved_at(context, i)
}

impl Rule for UnresolvedAssetPath {
    open spec fn declared(&self) -> MetadataView {
        mlr104()
    }

    open spec fn findings(&self, context: RuleContext<'_>) -> Seq<DiagnosticView> {
        gather(context.qualified_calls.calls@.len() as int, unresolved_finder(context))
    }

    fn metadata(&self) -> (metadata: &'static RuleMetadata) {
        MLR104()
    }

    fn run(&self, context: &RuleContext<'_>) -> (diagnostics: Vec<Diagnostic>) {
        let calls = &context.qualified_calls.calls;
        let mut diagnostics: Vec<Diagnostic> = Vec::new();
        let mut i: usize = 0;
        assert(reports(diagnostics@) =~= Seq::empty());
        while i < calls.len()
            invariant
                i <= calls@.len(),
                calls@ == context.qualified_calls.calls@,
                reports(diagnostics@) == gather(i as int, unresolved_finder(*context)),
            decreases calls@.len() - i,
        {
            push_all(&mut diagnostics, unresolved(context, i));
            i += 1;
        }
        diagnostics
    }
}

} // verus!
