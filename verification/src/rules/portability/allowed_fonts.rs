//! `MLD306`: literal `font=` outside the profile's allowed-fonts list.
//!
//! The rule fires only when a profile actually configures a non-empty list:
//! an empty list means that no allowlist is configured, never that nothing is
//! allowed. Comparison ignores case.
use crate::config::RenderProfile;
use crate::diagnostic::{
    push_found, report_of, reports, Confidence, Diagnostic, DiagnosticView, MetadataView,
    RuleMetadata, Severity,
};
use crate::frontend::LiteralFact;
use crate::json::{
    json_members, json_text, json_texts, object_meaning, text_list, Evidence, EvidenceView, Json,
    JsonView,
};
use crate::rules::base::{basic_report, profiled_report, Rule, RuleContext};
use crate::rules::rendering::support::{
    build_for_profiles, single_knowledge_symbol, single_symbol, MARKUP_TEXT, TEXT,
};
use crate::text::{
    cat5, found, gather, last_segment, lowercase, same_text, short_name, texts, to_lowercase, trim,
    trimmed,
};
use vstd::prelude::*;

verus! {

/// What [`MLD306`] declares.
pub open spec fn mld306() -> MetadataView {
    MetadataView {
        id: "MLD306"@,
        summary: "Literal font is not in the profile's allowed-fonts list"@,
        default_enabled: true,
        default_severity: Severity::Info,
        minimum_confidence: Confidence::High,
        implementation_phase: 4,
        required_profiles: seq![],
        required_capabilities: seq!["qualified-calls"@],
        supersedes: seq![],
    }
}

/// Metadata of rule `MLD306`.
#[allow(non_snake_case)]
pub fn MLD306() -> (metadata: &'static RuleMetadata)
    ensures
        metadata@ == mld306(),
{
    let metadata: &'static RuleMetadata = &RuleMetadata {
        id: "MLD306",
        summary: "Literal font is not in the profile's allowed-fonts list",
        default_enabled: true,
        default_severity: Severity::Info,
        minimum_confidence: Confidence::High,
        implementation_phase: 4,
        required_profiles: &[],
        required_capabilities: &["qualified-calls"],
        supersedes: &[],
    };
    assert(metadata@ =~= mld306());
    metadata
}

/// A literal font that a targeted profile does not allow.
pub struct FontOutsideAllowlist;

pub const FONT_END: &'static str = "()` is not in the \
    allowed-fonts list of the targeted profile(s)";

pub const FONT_WHY: &'static str = "The profile declares the fonts assumed installed on the render \
    platform. A family outside that list makes Pango fall back to a \
    different font there, so the rendered typography differs between \
    machines. Use an allowed family or add this one to allowed-fonts.";

/// Whether a list of fonts holds the font.
pub open spec fn allows(fonts: Seq<String>, font: Seq<char>) -> bool {
    exists|i: int|
        0 <= i < fonts.len() && lowercase(trimmed((#[trigger] fonts[i])@)) == lowercase(font)
}

/// Whether the profile configures an allowlist without the font.
pub open spec fn forbids(profile: RenderProfile, font: Seq<char>) -> bool {
    profile.allowed_fonts@.len() > 0 && !allows(profile.allowed_fonts@, font)
}

fn is_forbidden(profile: &RenderProfile, font: &str) -> (forbidden: bool)
    ensures
        forbidden == forbids(*profile, font@),
{
    let fonts = &profile.allowed_fonts;
    if fonts.len() == 0 {
        return false;
    }
    let wanted: String = to_lowercase(font);
    let mut i: usize = 0;
    while i < fonts.len()
        invariant
            i <= fonts@.len(),
            fonts@ == profile.allowed_fonts@,
            fonts@.len() > 0,
            wanted@ == lowercase(font@),
            forall|j: int|
                0 <= j < i ==> lowercase(trimmed((#[trigger] fonts@[j])@)) != lowercase(font@),
        decreases fonts@.len() - i,
    {
        let candidate: String = to_lowercase(trim(fonts[i].as_str()).as_str());
        if same_text(candidate.as_str(), wanted.as_str()) {
            assert(lowercase(trimmed(fonts@[i as int]@)) == lowercase(font@));
            return false;
        }
        i += 1;
    }
    true
}

/// Names of the profiles that forbid the font.
pub open spec fn forbidding_names(profiles: Seq<RenderProfile>, font: Seq<char>) -> Seq<Seq<char>>
    decreases profiles.len(),
{
    if profiles.len() == 0 {
        Seq::empty()
    } else if forbids(profiles.last(), font) {
        forbidding_names(profiles.drop_last(), font).push(profiles.last().name@)
    } else {
        forbidding_names(profiles.drop_last(), font)
    }
}

/// The allowlists of the profiles that forbid the font, by profile.
pub open spec fn forbidding_lists(profiles: Seq<RenderProfile>, font: Seq<char>) -> Seq<
    (Seq<char>, JsonView),
>
    decreases profiles.len(),
{
    if profiles.len() == 0 {
        Seq::empty()
    } else if forbids(profiles.last(), font) {
        forbidding_lists(profiles.drop_last(), font).push(
            (profiles.last().name@, text_list(texts(profiles.last().allowed_fonts@))),
        )
    } else {
        forbidding_lists(profiles.drop_last(), font)
    }
}

fn find_forbidding(profiles: &Vec<RenderProfile>, font: &str) -> (found: (
    Vec<String>,
    Vec<(String, Json)>,
))
    ensures
        texts(found.0@) == forbidding_names(profiles@, font@),
        json_members(found.1@) == forbidding_lists(profiles@, font@),
{
    let mut names: Vec<String> = Vec::new();
    let mut lists: Vec<(String, Json)> = Vec::new();
    let mut i: usize = 0;
    assert(texts(names@) =~= forbidding_names(profiles@.take(0), font@));
    assert(json_members(lists@) =~= forbidding_lists(profiles@.take(0), font@));
    while i < profiles.len()
        invariant
            i <= profiles@.len(),
            texts(names@) == forbidding_names(profiles@.take(i as int), font@),
            json_members(lists@) == forbidding_lists(profiles@.take(i as int), font@),
        decreases profiles@.len() - i,
    {
        assert(profiles@.take(i + 1).drop_last() =~= profiles@.take(i as int));
        let profile = &profiles[i];
        if is_forbidden(profile, font) {
            let ghost names_before = names@;
            let ghost lists_before = lists@;
            let fonts: Json = json_texts(&profile.allowed_fonts);
            names.push(profile.name.clone());
            lists.push((profile.name.clone(), fonts));
            assert(texts(names@) =~= texts(names_before).push(profile.name@));
            assert(json_members(lists@) =~= json_members(lists_before).push(
                (profile.name@, fonts@),
            ));
        }
        i += 1;
    }
    assert(profiles@.take(i as int) =~= profiles@);
    (names, lists)
}

/// The finding for the call at `i`.
pub open spec fn font_at(context: RuleContext<'_>, i: int) -> Option<DiagnosticView> {
    let call = context.qualified_calls.calls@[i];
    let profiles = context.config.active_profiles@;
    match (context.knowledge, call.spec_keyword("font"@)) {
        (Some(profile), Some(argument)) => match argument.literal {
            Some(LiteralFact::Str { value, prefix: _, range }) => {
                let font = trimmed(value@);
                if single_symbol(*profile, call.candidates@) is Some && (call.candidates@[0]@
                    == TEXT@ || call.candidates@[0]@ == MARKUP_TEXT@) && font.len() > 0
                    && forbidding_names(profiles, font).len() > 0 {
                    Some(
                        profiled_report(
                            basic_report(
                                mld306(),
                                context,
                                call.file,
                                range,
                                "Font \""@ + font + "\" passed to `"@ + last_segment(
                                    call.candidates@[0]@,
                                ) + FONT_END@,
                                FONT_WHY@,
                                EvidenceView::empty().insert("font"@, JsonView::Text(font)).insert(
                                    "allowed_fonts"@,
                                    JsonView::Object(forbidding_lists(profiles, font)),
                                ),
                            ),
                            forbidding_names(profiles, font),
                            None,
                        ),
                    )
                } else {
                    None
                }
            },
            _ => None,
        },
        _ => None,
    }
}

fn font(context: &RuleContext<'_>, i: usize) -> (found: Option<Diagnostic>)
    requires
        i < context.qualified_calls.calls@.len(),
    ensures
        report_of(found) == font_at(*context, i as int),
{
    let call = &context.qualified_calls.calls[i];
    let profile = match context.knowledge {
        Some(profile) => profile,
        None => {
            return None;
        },
    };
    if single_knowledge_symbol(profile, &call.candidates).is_none() || (!same_text(
        call.candidates[0].as_str(),
        TEXT,
    ) && !same_text(call.candidates[0].as_str(), MARKUP_TEXT)) {
        return None;
    }
    let argument = match call.keyword("font") {
        Some(argument) => argument,
        None => {
            return None;
        },
    };
    match &argument.literal {
        Some(LiteralFact::Str { value, prefix: _, range }) => {
            let font: String = trim(value.as_str());
            if font.as_str().unicode_len() == 0 {
                return None;
            }
            let (names, lists) = find_forbidding(&context.config.active_profiles, font.as_str());
            assert(texts(names@).len() == names@.len());
            if names.len() == 0 {
                return None;
            }
            let allowed: Json = Json::Object(lists);
            proof {
                object_meaning(lists);
            }
            let mut evidence = Evidence::new();
            evidence.insert("font", json_text(font.as_str()));
            evidence.insert("allowed_fonts", allowed);
            Some(
                build_for_profiles(
                    MLD306(),
                    context,
                    call.file,
                    *range,
                    cat5(
                        "Font \"",
                        font.as_str(),
                        "\" passed to `",
                        short_name(call.candidates[0].as_str()).as_str(),
                        FONT_END,
                    ),
                    FONT_WHY,
                    evidence,
                    names,
                    None,
                ),
            )
        },
        _ => None,
    }
}

/// Findings of [`FontOutsideAllowlist`], call by call.
pub open spec fn font_finder(context: RuleContext<'_>) -> spec_fn(int) -> Seq<DiagnosticView> {
    |i: int| found(font_at(context, i))
}

impl Rule for FontOutsideAllowlist {
    open spec fn declared(&self) -> MetadataView {
        mld306()
    }

    open spec fn findings(&self, context: RuleContext<'_>) -> Seq<DiagnosticView> {
        gather(context.qualified_calls.calls@.len() as int, font_finder(context))
    }

    fn metadata(&self) -> (metadata: &'static RuleMetadata) {
        MLD306()
    }

    fn run(&self, context: &RuleContext<'_>) -> (diagnostics: Vec<Diagnostic>) {
        let calls = &context.qualified_calls.calls;
        let mut diagnostics: Vec<Diagnostic> = Vec::new();
        let mut i: usize = 0;
        assert(reports(diagnostics@) =~= Seq::empty());
        while i < calls.len()
            invariant
                i <= calls@.len(),
                calls@ == context.qualified_calls.calls@,
                reports(diagnostics@) == gather(i as int, font_finder(*context)),
            decreases calls@.len() - i,
        {
            push_found(&mut diagnostics, font(context, i));
            i += 1;
        }
        diagnostics
    }
}

} // verus!
