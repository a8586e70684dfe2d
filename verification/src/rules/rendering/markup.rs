//! Markup rules: `MLR105` (provable Pango markup errors in `MarkupText`
//! literals) and `MLR124` (Pango markup inside a plain `Text` literal).
use super::support::{
    fix_view, fixed_report, is_single_string_token, one_string_token, single_knowledge_symbol,
    single_symbol, MARKUP_TEXT, TEXT,
};
use crate::diagnostic::{
    one_edit, push_found, report_of, reports, single_edit, Confidence, Diagnostic, DiagnosticView,
    Fix, FixApplicability, FixView, MetadataView, RuleMetadata, Severity,
};
use crate::frontend::{LiteralFact, QualifiedCall};
use crate::json::{json_text, Evidence, EvidenceView, JsonView};
use crate::literals::markup_from;
use crate::rules::base::{basic_report, build_diagnostic, edit_at, text_edit, Rule, RuleContext};
use crate::source::{site_of, slice_in, AllocationSite, FileId, TextRange};
use crate::text::{cat2, cat3, cat5, found, gather, same_text};
use vstd::prelude::*;

verus! {

/// The literal text of a call to the constructor `id`: its `text` keyword or
/// its first positional argument.
pub open spec fn text_literal(
    context: RuleContext<'_>,
    call: QualifiedCall,
    id: Seq<char>,
) -> Option<TextRange> {
    match context.knowledge {
        Some(profile) => if single_symbol(*profile, call.candidates@) is Some
            && call.candidates@[0]@ == id {
            match (
                match call.spec_keyword("text"@) {
                    Some(argument) => Some(argument),
                    None => call.spec_positional(0),
                }
            ) {
                Some(argument) => match argument.literal {
                    Some(LiteralFact::Str { value: _, prefix, range }) => if prefix.bytes {
                        None
                    } else {
                        Some(range)
                    },
                    _ => None,
                },
                None => None,
            }
        } else {
            None
        },
        None => None,
    }
}

fn find_text_literal(context: &RuleContext<'_>, call: &QualifiedCall, id: &str) -> (range: Option<
    TextRange,
>)
    ensures
        range == text_literal(*context, *call, id@),
{
    let profile = match context.knowledge {
        Some(profile) => profile,
        None => {
            return None;
        },
    };
    if single_knowledge_symbol(profile, &call.candidates).is_none() || !same_text(
        call.candidates[0].as_str(),
        id,
    ) {
        return None;
    }
    let argument = match call.keyword("text") {
        Some(argument) => argument,
        None => match call.positional(0) {
            Some(argument) => argument,
            None => {
                return None;
            },
        },
    };
    match &argument.literal {
        Some(LiteralFact::Str { value: _, prefix, range }) => if prefix.bytes {
            None
        } else {
            Some(*range)
        },
        _ => None,
    }
}

// ---------------------------------------------------------------------------
// MLR105: provable Pango markup errors in MarkupText literals.
// ---------------------------------------------------------------------------

/// What [`MLR105`] declares.
pub open spec fn mlr105() -> MetadataView {
    MetadataView {
        id: "MLR105"@,
        summary: "MarkupText literal contains provably invalid Pango markup"@,
        default_enabled: true,
        default_severity: Severity::Error,
        minimum_confidence: Confidence::High,
        implementation_phase: 1,
        required_profiles: seq![],
        required_capabilities: seq!["qualified-calls"@],
        supersedes: seq![],
    }
}

/// Metadata of rule `MLR105`.
#[allow(non_snake_case)]
pub fn MLR105() -> (metadata: &'static RuleMetadata)
    ensures
        metadata@ == mlr105(),
{
    let metadata: &'static RuleMetadata = &RuleMetadata {
        id: "MLR105",
        summary: "MarkupText literal contains provably invalid Pango markup",
        default_enabled: true,
        default_severity: Severity::Error,
        minimum_confidence: Confidence::High,
        implementation_phase: 1,
        required_profiles: &[],
        required_capabilities: &["qualified-calls"],
        supersedes: &[],
    };
    assert(metadata@ =~= mlr105());
    metadata
}

/// A `MarkupText` literal that Pango provably rejects.
pub struct InvalidMarkupLiteral;

pub const INVALID_MARKUP: &'static str = "`MarkupText()` literal is invalid Pango markup: ";

pub const INVALID_MARKUP_WHY: &'static str = "Pango parses the markup when the text is laid out, so MarkupText \
    raises a rendering error for mismatched or unclosed tags and \
    unknown entities. Only the validated Pango subset is judged; \
    anything outside it is left alone.";

pub const APPEND_END: &'static str = ">` at the end of the literal. Unsafe: the intended \
    close position may be earlier.";

/// Length of the quote run that closes a literal (1 or 3), when the text
/// ends in a quote.
pub open spec fn closing_run(text: Seq<char>) -> Option<int> {
    if text.len() == 0 || (text.last() != '"' && text.last() != '\'') {
        None
    } else if text.len() >= 3 && text[text.len() - 2] == text.last() && text[text.len() - 3]
        == text.last() {
        Some(3)
    } else {
        Some(1)
    }
}

fn closing_quote_len(text: &str) -> (run: Option<u32>)
    ensures
        match run {
            Some(found) => closing_run(text@) == Some(found as int),
            None => closing_run(text@) is None,
        },
{
    let len: usize = text.unicode_len();
    if len == 0 {
        return None;
    }
    let last: char = text.get_char(len - 1);
    if last != '"' && last != '\'' {
        return None;
    }
    if len >= 3 && text.get_char(len - 2) == last && text.get_char(len - 3) == last {
        Some(3)
    } else {
        Some(1)
    }
}

/// Insertion of a closing tag before the closing quote.
pub open spec fn closing_tag_fix_of(
    context: RuleContext<'_>,
    file: FileId,
    range: TextRange,
    tag: Seq<char>,
) -> Option<FixView> {
    match closing_run(slice_in(*context.sources, file, range)) {
        Some(run) => if one_string_token(context, file, range) && range.end >= run {
            let at = (range.end - run) as u32;
            Some(
                single_edit(
                    FixApplicability::Unsafe,
                    "Append `</"@ + tag + APPEND_END@,
                    edit_at(context, file, TextRange { start: at, end: at }, "</"@ + tag + ">"@),
                ),
            )
        } else {
            None
        },
        None => None,
    }
}

/// Unsafe fix: append the missing closing tag just before the closing quote.
/// Unsafe because the intended close position is unknowable.
fn append_closing_tag_fix(
    context: &RuleContext<'_>,
    file: FileId,
    range: TextRange,
    tag: &str,
) -> (fix: Option<Fix>)
    ensures
        fix_view(fix) == closing_tag_fix_of(*context, file, range, tag@),
{
    if !is_single_string_token(context, file, range) {
        return None;
    }
    let text: String = context.sources.slice(file, range);
    let run: u32 = match closing_quote_len(text.as_str()) {
        Some(run) => run,
        None => {
            return None;
        },
    };
    if range.end < run {
        return None;
    }
    let at: u32 = range.end - run;
    Some(
        one_edit(
            FixApplicability::Unsafe,
            cat3("Append `</", tag, APPEND_END),
            text_edit(context, file, TextRange::new(at, at), cat3("</", tag, ">")),
        ),
    )
}

/// The finding for the call at `i`.
pub open spec fn invalid_markup_at(context: RuleContext<'_>, i: int) -> Option<DiagnosticView> {
    let call = context.qualified_calls.calls@[i];
    match text_literal(context, call, MARKUP_TEXT@) {
        Some(range) => match markup_from(
            context.literal_facts.markup@,
            site_of(call.file, range),
            0,
        ) {
            Some(fact) => match fact.error {
                Some(error) => Some(
                    fixed_report(
                        basic_report(
                            mlr105(),
                            context,
                            call.file,
                            range,
                            INVALID_MARKUP@ + error.message@,
                            INVALID_MARKUP_WHY@,
                            EvidenceView::empty().insert(
                                "constructor"@,
                                JsonView::Text(MARKUP_TEXT@),
                            ).insert("error"@, JsonView::Text(error.message@)),
                        ),
                        match error.unclosed {
                            Some(tag) => closing_tag_fix_of(context, call.file, range, tag@),
                            None => None,
                        },
                    ),
                ),
                None => None,
            },
            None => None,
        },
        None => None,
    }
}

fn invalid_markup(context: &RuleContext<'_>, i: usize) -> (found: Option<Diagnostic>)
    requires
        i < context.qualified_calls.calls@.len(),
    ensures
        report_of(found) == invalid_markup_at(*context, i as int),
{
    let call = &context.qualified_calls.calls[i];
    let range: TextRange = match find_text_literal(context, call, MARKUP_TEXT) {
        Some(range) => range,
        None => {
            return None;
        },
    };
    let fact = match context.literal_facts.markup_at(AllocationSite::new(call.file, range)) {
        Some(fact) => fact,
        None => {
            return None;
        },
    };
    let error = match &fact.error {
        Some(error) => error,
        None => {
            return None;
        },
    };
    let fix: Option<Fix> = match &error.unclosed {
        Some(tag) => append_closing_tag_fix(context, call.file, range, tag.as_str()),
        None => None,
    };
    let mut evidence = Evidence::new();
    evidence.insert("constructor", json_text(MARKUP_TEXT));
    evidence.insert("error", json_text(error.message.as_str()));
    let mut diagnostic = build_diagnostic(
        MLR105(),
        context,
        call.file,
        range,
        cat2(INVALID_MARKUP, error.message.as_str()),
        INVALID_MARKUP_WHY,
        evidence,
    );
    diagnostic.fix = fix;
    Some(diagnostic)
}

/// Findings of [`InvalidMarkupLiteral`], call by call.
pub open spec fn invalid_markup_finder(context: RuleContext<'_>) -> spec_fn(int) -> Seq<DiagnosticView> {
    |i: int| found(invalid_markup_at(context, i))
}

impl Rule for InvalidMarkupLiteral {
    open spec fn declared(&self) -> MetadataView {
        mlr105()
    }

    open spec fn findings(&self, context: RuleContext<'_>) -> Seq<DiagnosticView> {
        gather(context.qualified_calls.calls@.len() as int, invalid_markup_finder(context))
    }

    fn metadata(&self) -> (metadata: &'static RuleMetadata) {
        MLR105()
    }

    fn run(&self, context: &RuleContext<'_>) -> (diagnostics: Vec<Diagnostic>) {
        let calls = &context.qualified_calls.calls;
        let mut diagnostics: Vec<Diagnostic> = Vec::new();
        let mut i: usize = 0;
        assert(reports(diagnostics@) =~= Seq::empty());
        while i < calls.len()
            invariant
                i <= calls@.len(),
                calls@ == context.qualified_calls.calls@,
                reports(diagnostics@) == gather(i as int, invalid_markup_finder(*context)),
            decreases calls@.len() - i,
        {
            push_found(&mut diagnostics, invalid_markup(context, i));
            i += 1;
        }
        diagnostics
    }
}

// ---------------------------------------------------------------------------
// MLR124: Pango markup inside a plain Text literal.
// ---------------------------------------------------------------------------

/// What [`MLR124`] declares.
pub open spec fn mlr124() -> MetadataView {
    MetadataView {
        id: "MLR124"@,
        summary: "Text() literal contains Pango markup that plain Text renders verbatim"@,
        default_enabled: true,
        default_severity: Severity::Warning,
        minimum_confidence: Confidence::High,
        implementation_phase: 1,
        required_profiles: seq![],
        required_capabilities: seq!["qualified-calls"@],
        supersedes: seq![],
    }
}

/// Metadata of rule `MLR124`.
#[allow(non_snake_case)]
pub fn MLR124() -> (metadata: &'static RuleMetadata)
    ensures
        metadata@ == mlr124(),
{
    let metadata: &'static RuleMetadata = &RuleMetadata {
        id: "MLR124",
        summary: "Text() literal contains Pango markup that plain Text renders verbatim",
        default_enabled: true,
        default_severity: Severity::Warning,
        minimum_confidence: Confidence::High,
        implementation_phase: 1,
        required_profiles: &[],
        required_capabilities: &["qualified-calls"],
        supersedes: &[],
    };
    assert(metadata@ =~= mlr124());
    metadata
}

/// A plain `Text` literal that holds Pango markup.
pub struct MarkupInPlainText;

pub const PLAIN_MARKUP_END: &'static str = ">` literally on screen; use \
    `MarkupText()` for Pango markup";

pub const PLAIN_MARKUP_WHY: &'static str = "Plain Text passes its string to Pango without markup parsing, so \
    the tags appear verbatim in the rendered frame. MarkupText parses \
    the same Pango markup subset.";

pub const USE_MARKUP_TEXT: &'static str = "Use MarkupText so the tags are parsed as Pango markup. Unsafe: \
    the rendered output changes and MarkupText must be imported.";

/// Whether `text` ends with `suffix`.
pub open spec fn ends_with(text: Seq<char>, suffix: Seq<char>) -> bool {
    suffix.len() <= text.len() && text.skip(text.len() - suffix.len()) == suffix
}

fn text_ends_with(text: &str, suffix: &str) -> (ends: bool)
    ensures
        ends == ends_with(text@, suffix@),
{
    let len: usize = text.unicode_len();
    let width: usize = suffix.unicode_len();
    if width > len {
        return false;
    }
    assert(text@.skip(len - width) =~= text@.subrange(len - width, len as int));
    same_text(text.substring_char(len - width, len), suffix)
}

/// Replacement of the constructor name by `MarkupText`.
pub open spec fn markup_text_fix_of(context: RuleContext<'_>, call: QualifiedCall) -> Option<
    FixView,
> {
    let callee = slice_in(*context.sources, call.file, call.callee_range);
    if (callee == "Text"@ || ends_with(callee, ".Text"@)) && callee.len() >= 4 {
        Some(
            single_edit(
                FixApplicability::Unsafe,
                USE_MARKUP_TEXT@,
                edit_at(
                    context,
                    call.file,
                    call.callee_range,
                    callee.take(callee.len() - 4) + "MarkupText"@,
                ),
            ),
        )
    } else {
        None
    }
}

/// Unsafe fix: switch the constructor to `MarkupText`. Unsafe because the
/// rendered output changes (that is the point) and the name `MarkupText`
/// must be importable at the call site.
fn markup_text_fix(context: &RuleContext<'_>, call: &QualifiedCall) -> (fix: Option<Fix>)
    ensures
        fix_view(fix) == markup_text_fix_of(*context, *call),
{
    let callee: String = context.sources.slice(call.file, call.callee_range);
    if !same_text(callee.as_str(), "Text") && !text_ends_with(callee.as_str(), ".Text") {
        return None;
    }
    let len: usize = callee.as_str().unicode_len();
    if len < 4 {
        return None;
    }
    assert(callee@.take(len - 4) =~= callee@.subrange(0, len - 4));
    Some(
        one_edit(
            FixApplicability::Unsafe,
            USE_MARKUP_TEXT.to_owned(),
            text_edit(
                context,
                call.file,
                call.callee_range,
                cat2(callee.as_str().substring_char(0, len - 4), "MarkupText"),
            ),
        ),
    )
}

/// The finding for the call at `i`.
pub open spec fn plain_markup_at(context: RuleContext<'_>, i: int) -> Option<DiagnosticView> {
    let call = context.qualified_calls.calls@[i];
    match text_literal(context, call, TEXT@) {
        Some(range) => match markup_from(
            context.literal_facts.markup@,
            site_of(call.file, range),
            0,
        ) {
            Some(fact) => match fact.matched_pair {
                Some(tag) => Some(
                    fixed_report(
                        basic_report(
                            mlr124(),
                            context,
                            call.file,
                            range,
                            "`Text()` renders `<"@ + tag@ + ">...</"@ + tag@ + PLAIN_MARKUP_END@,
                            PLAIN_MARKUP_WHY@,
                            EvidenceView::empty().insert(
                                "constructor"@,
                                JsonView::Text(TEXT@),
                            ).insert("tag"@, JsonView::Text(tag@)),
                        ),
                        markup_text_fix_of(context, call),
                    ),
                ),
                None => None,
            },
            None => None,
        },
        None => None,
    }
}

fn plain_markup(context: &RuleContext<'_>, i: usize) -> (found: Option<Diagnostic>)
    requires
        i < context.qualified_calls.calls@.len(),
    ensures
        report_of(found) == plain_markup_at(*context, i as int),
{
    let call = &context.qualified_calls.calls[i];
    let range: TextRange = match find_text_literal(context, call, TEXT) {
        Some(range) => range,
        None => {
            return None;
        },
    };
    let fact = match context.literal_facts.markup_at(AllocationSite::new(call.file, range)) {
        Some(fact) => fact,
        None => {
            return None;
        },
    };
    let tag: &String = match &fact.matched_pair {
        Some(tag) => tag,
        None => {
            return None;
        },
    };
    let mut evidence = Evidence::new();
    evidence.insert("constructor", json_text(TEXT));
    evidence.insert("tag", json_text(tag.as_str()));
    let mut diagnostic = build_diagnostic(
        MLR124(),
        context,
        call.file,
        range,
        cat5(
            "`Text()` renders `<",
            tag.as_str(),
            ">...</",
            tag.as_str(),
            PLAIN_MARKUP_END,
        ),
        PLAIN_MARKUP_WHY,
        evidence,
    );
    diagnostic.fix = markup_text_fix(context, call);
    Some(diagnostic)
}

/// Findings of [`MarkupInPlainText`], call by call.
pub open spec fn plain_markup_finder(context: RuleContext<'_>) -> spec_fn(int) -> Seq<DiagnosticView> {
    |i: int| found(plain_markup_at(context, i))
}

impl Rule for MarkupInPlainText {
    open spec fn declared(&self) -> MetadataView {
        mlr124()
    }

    open spec fn findings(&self, context: RuleContext<'_>) -> Seq<DiagnosticView> {
        gather(context.qualified_calls.calls@.len() as int, plain_markup_finder(context))
    }

    fn metadata(&self) -> (metadata: &'static RuleMetadata) {
        MLR124()
    }

    fn run(&self, context: &RuleContext<'_>) -> (diagnostics: Vec<Diagnostic>) {
        let calls = &context.qualified_calls.calls;
        let mut diagnostics: Vec<Diagnostic> = Vec::new();
        let mut i: usize = 0;
        assert(reports(diagnostics@) =~= Seq::empty());
        while i < calls.len()
            invariant
                i <= calls@.len(),
                calls@ == context.qualified_calls.calls@,
                reports(diagnostics@) == gather(i as int, plain_markup_finder(*context)),
            decreases calls@.len() - i,
        {
            push_found(&mut diagnostics, plain_markup(context, i));
            i += 1;
        }
        diagnostics
    }
}

} // verus!
