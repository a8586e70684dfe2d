//! `MLR117`: bare `register_font(...)` call (context manager never entered).
use super::support::{fix_view, fixed_report, REGISTER_FONT};
use crate::diagnostic::{
    one_edit, push_found, report_of, reports, single_edit, Confidence, Diagnostic, DiagnosticView,
    Fix, FixApplicability, FixView, MetadataView, RuleMetadata, Severity,
};
use crate::frontend::{role_from, QualifiedCall, StatementRole};
use crate::json::{json_text, Evidence, EvidenceView, JsonView};
use crate::rules::base::{basic_report, build_diagnostic, edit_at, text_edit, Rule, RuleContext};
use crate::rules::lifecycle::ownership::{indent_range, line_start_at};
use crate::source::{slice_in, slice_of, sliceable, text_in, AllocationSite, SourceFile, TextRange};
use crate::text::{cat5, found, gather, is_whitespace, same_text, white_space};
use vstd::prelude::*;
use vstd::string::*;
use vstd::utf8::*;

verus! {

/// What [`MLR117`] declares.
pub open spec fn mlr117() -> MetadataView {
    MetadataView {
        id: "MLR117"@,
        summary: "register_font() context manager is called without `with`"@,
        default_enabled: true,
        default_severity: Severity::Error,
        minimum_confidence: Confidence::High,
        implementation_phase: 1,
        required_profiles: seq![],
        required_capabilities: seq!["qualified-calls"@],
        supersedes: seq![],
    }
}

/// Metadata of rule `MLR117`.
#[allow(non_snake_case)]
pub fn MLR117() -> (metadata: &'static RuleMetadata)
    ensures
        metadata@ == mlr117(),
{
    let metadata: &'static RuleMetadata = &RuleMetadata {
        id: "MLR117",
        summary: "register_font() context manager is called without `with`",
        default_enabled: true,
        default_severity: Severity::Error,
        minimum_confidence: Confidence::High,
        implementation_phase: 1,
        required_profiles: &[],
        required_capabilities: &["qualified-calls"],
        supersedes: &[],
    };
    assert(metadata@ =~= mlr117());
    metadata
}

/// `register_font(...)` as a whole statement.
pub struct BareRegisterFont;

pub const BARE_FONT: &'static str = "`register_font(...)` called as a bare statement registers nothing; \
    wrap it in a `with` block";

pub const BARE_FONT_WHY: &'static str = "register_font is a @contextmanager generator: calling it only \
    creates the context object. The font is registered on __enter__ \
    and unregistered on __exit__, so a bare call has no effect and \
    the font is never available to Text.";

pub const WRAP_FONT: &'static str = "Wrap the call in `with register_font(...):`. Unsafe: the \
    statements that use the font must be moved inside the block.";

/// Whether a text is white space.
pub open spec fn all_white(text: Seq<char>) -> bool {
    forall|i: int| 0 <= i < text.len() ==> white_space(#[trigger] text[i])
}

fn is_all_white(text: &str) -> (all: bool)
    ensures
        all == all_white(text@),
{
    let len: usize = text.unicode_len();
    let mut i: usize = 0;
    while i < len
        invariant
            i <= len,
            len == text@.len(),
            forall|j: int| 0 <= j < i ==> white_space(#[trigger] text@[j]),
        decreases len - i,
    {
        if !is_whitespace(text.get_char(i)) {
            return false;
        }
        i += 1;
    }
    true
}

/// The white space before a call that starts the content of its line.
pub open spec fn call_indent(text: Seq<char>, call_range: TextRange) -> Option<Seq<char>> {
    let range = indent_range(text, call_range.start);
    let indent = slice_of(text, range);
    let call_text = slice_of(text, call_range);
    if sliceable(encode_utf8(text), range) && all_white(indent) && call_text.len() > 0
        && !white_space(call_text[0]) {
        Some(indent)
    } else {
        None
    }
}

fn indent_of_call(file: &SourceFile, call_range: TextRange) -> (indent: Option<String>)
    ensures
        match indent {
            Some(found) => call_indent(file.text@, call_range) == Some(found@),
            None => call_indent(file.text@, call_range) is None,
        },
{
    let text: &str = file.text.as_str();
    let bytes: &[u8] = text.as_bytes();
    let start: u32 = call_range.start;
    if start as usize > bytes.len() {
        return None;
    }
    let mut line_start: u32 = start;
    while line_start > 0 && bytes[line_start as usize - 1] != 10
        invariant
            line_start <= start <= bytes@.len(),
            bytes@ == encode_utf8(file.text@),
            line_start_at(bytes@, start as int) == line_start_at(bytes@, line_start as int),
        decreases line_start,
    {
        line_start -= 1;
    }
    if !text.is_char_boundary(line_start as usize) || !text.is_char_boundary(start as usize) {
        return None;
    }
    let indent: String = file.slice(TextRange::new(line_start, start));
    if !is_all_white(indent.as_str()) {
        return None;
    }
    let call_text: String = file.slice(call_range);
    if call_text.as_str().unicode_len() == 0 || is_whitespace(call_text.as_str().get_char(0)) {
        return None;
    }
    Some(indent)
}

/// The call wrapped in a `with` block.
pub open spec fn wrap_fix_of(context: RuleContext<'_>, call: QualifiedCall) -> Option<FixView> {
    match call_indent(text_in(*context.sources, call.file), call.call_range) {
        Some(indent) => if call.file.index < context.sources.files@.len() {
            Some(
                single_edit(
                    FixApplicability::Unsafe,
                    WRAP_FONT@,
                    edit_at(
                        context,
                        call.file,
                        call.call_range,
                        "with "@ + slice_in(*context.sources, call.file, call.call_range) + ":\n"@
                            + indent + "    pass"@,
                    ),
                ),
            )
        } else {
            None
        },
        None => None,
    }
}

/// Unsafe fix: wrap the bare call in `with ...:` with a `pass` body. The
/// statements that need the font must be moved into the block by hand. Only
/// offered when the call starts the line's content, so the rewrite cannot
/// corrupt statements sharing the line.
fn with_wrap_fix(context: &RuleContext<'_>, call: &QualifiedCall) -> (fix: Option<Fix>)
    ensures
        fix_view(fix) == wrap_fix_of(*context, *call),
{
    let file = match context.sources.file(call.file) {
        Some(file) => file,
        None => {
            return None;
        },
    };
    let indent: String = match indent_of_call(file, call.call_range) {
        Some(indent) => indent,
        None => {
            return None;
        },
    };
    let text: String = context.sources.slice(call.file, call.call_range);
    Some(
        one_edit(
            FixApplicability::Unsafe,
            WRAP_FONT.to_owned(),
            text_edit(
                context,
                call.file,
                call.call_range,
                cat5("with ", text.as_str(), ":\n", indent.as_str(), "    pass"),
            ),
        ),
    )
}

/// The finding for the call at `i`.
pub open spec fn bare_font_at(context: RuleContext<'_>, i: int) -> Option<DiagnosticView> {
    let call = context.qualified_calls.calls@[i];
    if call.candidates@.len() == 1 && call.candidates@[0]@ == REGISTER_FONT@ && role_from(
        context.qualified_calls.statements.entries@,
        call.site(),
        0,
    ) == Some(StatementRole::BareExpression) {
        Some(
            fixed_report(
                basic_report(
                    mlr117(),
                    context,
                    call.file,
                    call.call_range,
                    BARE_FONT@,
                    BARE_FONT_WHY@,
                    EvidenceView::empty().insert("function"@, JsonView::Text(REGISTER_FONT@)),
                ),
                wrap_fix_of(context, call),
            ),
        )
    } else {
        None
    }
}

fn bare_font(context: &RuleContext<'_>, i: usize) -> (found: Option<Diagnostic>)
    requires
        i < context.qualified_calls.calls@.len(),
    ensures
        report_of(found) == bare_font_at(*context, i as int),
{
    let call = &context.qualified_calls.calls[i];
    if call.candidates.len() != 1 || !same_text(call.candidates[0].as_str(), REGISTER_FONT) {
        return None;
    }
    // The context manager is discarded only when the call is a whole bare
    // expression statement (not a `with` item, not assigned, not passed on).
    let site = AllocationSite::new(call.file, call.call_range);
    let bare: bool = match context.qualified_calls.statements.role_at(site) {
        Some(role) => role == StatementRole::BareExpression,
        None => false,
    };
    if !bare {
        return None;
    }
    let mut evidence = Evidence::new();
    evidence.insert("function", json_text(REGISTER_FONT));
    let mut diagnostic = build_diagnostic(
        MLR117(),
        context,
        call.file,
        call.call_range,
        BARE_FONT.to_owned(),
        BARE_FONT_WHY,
        evidence,
    );
    diagnostic.fix = with_wrap_fix(context, call);
    Some(diagnostic)
}

/// Findings of [`BareRegisterFont`], call by call.
pub open spec fn bare_font_finder(context: RuleContext<'_>) -> spec_fn(int) -> Seq<DiagnosticView> {
    |i: int| found(bare_font_at(context, i))
}

impl Rule for BareRegisterFont {
    open spec fn declared(&self) -> MetadataView {
        mlr117()
    }

    open spec fn findings(&self, context: RuleContext<'_>) -> Seq<DiagnosticView> {
        gather(context.qualified_calls.calls@.len() as int, bare_font_finder(context))
    }

    fn metadata(&self) -> (metadata: &'static RuleMetadata) {
        MLR117()
    }

    fn run(&self, context: &RuleContext<'_>) -> (diagnostics: Vec<Diagnostic>) {
        let calls = &context.qualified_calls.calls;
        let mut diagnostics: Vec<Diagnostic> = Vec::new();
        let mut i: usize = 0;
        assert(reports(diagnostics@) =~= Seq::empty());
        while i < calls.len()
            invariant
                i <= calls@.len(),
                calls@ == context.qualified_calls.calls@,
                reports(diagnostics@) == gather(i as int, bare_font_finder(*context)),
            decreases calls@.len() - i,
        {
            push_found(&mut diagnostics, bare_font(context, i));
            i += 1;
        }
        diagnostics
    }
}

} // verus!
