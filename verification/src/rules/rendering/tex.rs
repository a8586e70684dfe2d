//! `MLR103`: Python escape / TeX command collision in non-raw Tex literals.
use super::support::{
    fix_view, fixed_report, is_single_string_token, one_string_token, single_knowledge_symbol,
    single_symbol, MATH_TEX, SINGLE_MATH_TEX, TEX,
};
use crate::diagnostic::{
    one_edit, push_all, push_found, report_of, reports, single_edit, Confidence, Diagnostic,
    DiagnosticView, Fix, FixApplicability, FixView, MetadataView, RuleMetadata, Severity,
};
use crate::frontend::{CallArgument, LiteralFact, QualifiedCall};
use crate::json::{json_text, json_texts, text_list, Evidence, EvidenceView, JsonView};
use crate::literals::{tex_from, TexCollision};
use crate::rules::base::{basic_report, build_diagnostic, edit_at, text_edit, Rule, RuleContext};
use crate::source::{site_of, slice_in, AllocationSite, FileId, TextRange};
use crate::text::{
    cat5, cat7, decimal_size, found, gather, join, joined, last_segment, numeral, same_text,
    short_name, texts,
};
use vstd::prelude::*;

verus! {

/// What [`MLR103`] declares.
pub open spec fn mlr103() -> MetadataView {
    MetadataView {
        id: "MLR103"@,
        summary: "Python escape in a non-raw Tex/MathTex literal corrupts a TeX command"@,
        default_enabled: true,
        default_severity: Severity::Error,
        minimum_confidence: Confidence::High,
        implementation_phase: 1,
        required_profiles: seq![],
        required_capabilities: seq!["qualified-calls"@],
        supersedes: seq![],
    }
}

/// Metadata of rule `MLR103`.
#[allow(non_snake_case)]
pub fn MLR103() -> (metadata: &'static RuleMetadata)
    ensures
        metadata@ == mlr103(),
{
    let metadata: &'static RuleMetadata = &RuleMetadata {
        id: "MLR103",
        summary: "Python escape in a non-raw Tex/MathTex literal corrupts a TeX command",
        default_enabled: true,
        default_severity: Severity::Error,
        minimum_confidence: Confidence::High,
        implementation_phase: 1,
        required_profiles: &[],
        required_capabilities: &["qualified-calls"],
        supersedes: &[],
    };
    assert(metadata@ =~= mlr103());
    metadata
}

/// A non-raw TeX literal in which Python escapes swallow commands.
pub struct TexEscapeCollision;

pub const COLLISION_WHY: &'static str = "In a non-raw Python string literal the backslash starts a Python \
    escape sequence, not a TeX command. The compiled TeX source \
    contains a control character instead of the command, so the \
    compile fails or renders wrong output. Use a raw string \
    (r\"...\") or escape the backslash (\"\\\\...\").";

pub const RAW_PREFIX: &'static str = "Add an `r` prefix. Unsafe: a raw prefix changes the runtime value \
    of every escape in this literal (each `\\x` becomes a literal \
    backslash followed by `x`).";

/// Whether an id is a constructor that compiles its positional strings.
pub open spec fn compiles_tex(id: Seq<char>) -> bool {
    id == MATH_TEX@ || id == SINGLE_MATH_TEX@ || id == TEX@
}

fn is_tex_constructor(id: &str) -> (is: bool)
    ensures
        is == compiles_tex(id@),
{
    same_text(id, MATH_TEX) || same_text(id, SINGLE_MATH_TEX) || same_text(id, TEX)
}

/// Insertion of an `r` before a single plain string token.
pub open spec fn raw_prefix_fix_of(
    context: RuleContext<'_>,
    file: FileId,
    range: TextRange,
) -> Option<FixView> {
    let text = slice_in(*context.sources, file, range);
    if one_string_token(context, file, range) && text.len() > 0 && (text[0] == '"' || text[0]
        == '\'') {
        Some(
            single_edit(
                FixApplicability::Unsafe,
                RAW_PREFIX@,
                edit_at(
                    context,
                    file,
                    TextRange { start: range.start, end: range.start },
                    "r"@,
                ),
            ),
        )
    } else {
        None
    }
}

/// Unsafe fix: insert an `r` prefix before a single plain string token. A
/// raw prefix changes the runtime value of every escape in the literal.
fn raw_prefix_fix(context: &RuleContext<'_>, file: FileId, range: TextRange) -> (fix: Option<Fix>)
    ensures
        fix_view(fix) == raw_prefix_fix_of(*context, file, range),
{
    if !is_single_string_token(context, file, range) {
        return None;
    }
    let text: String = context.sources.slice(file, range);
    if text.as_str().unicode_len() == 0 {
        return None;
    }
    let first: char = text.as_str().get_char(0);
    if first != '"' && first != '\'' {
        return None;
    }
    Some(
        one_edit(
            FixApplicability::Unsafe,
            RAW_PREFIX.to_owned(),
            text_edit(
                context,
                file,
                TextRange::new(range.start, range.start),
                "r".to_owned(),
            ),
        ),
    )
}

/// Commands of a list of collisions.
pub open spec fn commands_of(collisions: Seq<TexCollision>) -> Seq<Seq<char>> {
    Seq::new(collisions.len(), |i: int| collisions[i].command@)
}

fn list_commands(collisions: &Vec<TexCollision>) -> (commands: Vec<String>)
    ensures
        texts(commands@) == commands_of(collisions@),
{
    let mut commands: Vec<String> = Vec::new();
    let mut i: usize = 0;
    while i < collisions.len()
        invariant
            i <= collisions@.len(),
            commands@.len() == i,
            forall|j: int| 0 <= j < i ==> (#[trigger] commands@[j])@ == collisions@[j].command@,
        decreases collisions@.len() - i,
    {
        commands.push(collisions[i].command.clone());
        i += 1;
    }
    assert(texts(commands@) =~= commands_of(collisions@));
    commands
}

/// Remark about further collisions of the literal.
pub open spec fn more_collisions(collisions: Seq<TexCollision>) -> Seq<char> {
    if collisions.len() > 1 {
        " ("@ + numeral(collisions.len()) + " colliding escapes in this literal: \\"@ + joined(
            commands_of(collisions),
            ", \\"@,
        ) + ")"@
    } else {
        ""@
    }
}

/// Message about the first collision of a literal.
pub open spec fn collision_message(
    constructor: Seq<char>,
    collisions: Seq<TexCollision>,
) -> Seq<char> {
    "Non-raw string passed to `"@ + constructor + "()`: Python reads `"@ + collisions[0].escape@
        + "` in `\\"@ + collisions[0].command@ + "` as a "@ + collisions[0].control_character@
        + " control character, so TeX never sees `\\"@ + collisions[0].command@ + "`"@
        + more_collisions(collisions)
}

fn describe_collision(constructor: &str, collisions: &Vec<TexCollision>) -> (message: String)
    requires
        collisions@.len() > 0,
    ensures
        message@ == collision_message(constructor@, collisions@),
{
    let more: String = if collisions.len() > 1 {
        cat5(
            " (",
            decimal_size(collisions.len()).as_str(),
            " colliding escapes in this literal: \\",
            join(&list_commands(collisions), ", \\").as_str(),
            ")",
        )
    } else {
        "".to_owned()
    };
    let first = &collisions[0];
    let head: String = cat7(
        "Non-raw string passed to `",
        constructor,
        "()`: Python reads `",
        first.escape.as_str(),
        "` in `\\",
        first.command.as_str(),
        "` as a ",
    );
    crate::text::cat6(
        head.as_str(),
        first.control_character.as_str(),
        " control character, so TeX never sees `\\",
        first.command.as_str(),
        "`",
        more.as_str(),
    )
}

/// The plain string literal of an argument.
pub open spec fn plain_literal(argument: CallArgument) -> Option<TextRange> {
    match argument.literal {
        Some(LiteralFact::Str { value: _, prefix, range }) => if argument.keyword is None
            && !prefix.raw && !prefix.bytes && !prefix.formatted {
            Some(range)
        } else {
            None
        },
        _ => None,
    }
}

fn find_plain_literal(argument: &CallArgument) -> (range: Option<TextRange>)
    ensures
        range == plain_literal(*argument),
{
    if argument.keyword.is_some() {
        return None;
    }
    match &argument.literal {
        Some(LiteralFact::Str { value: _, prefix, range }) => if prefix.raw || prefix.bytes
            || prefix.formatted {
            None
        } else {
            Some(*range)
        },
        _ => None,
    }
}

/// The finding for one argument of a TeX constructor.
pub open spec fn collision_finding(
    context: RuleContext<'_>,
    call: QualifiedCall,
    argument: CallArgument,
) -> Option<DiagnosticView> {
    match plain_literal(argument) {
        Some(range) => match tex_from(
            context.literal_facts.tex@,
            site_of(call.file, range),
            0,
        ) {
            Some(fact) => if fact.collisions@.len() > 0 {
                Some(
                    fixed_report(
                        basic_report(
                            mlr103(),
                            context,
                            call.file,
                            range,
                            collision_message(
                                last_segment(call.candidates@[0]@),
                                fact.collisions@,
                            ),
                            COLLISION_WHY@,
                            EvidenceView::empty().insert(
                                "constructor"@,
                                JsonView::Text(call.candidates@[0]@),
                            ).insert("commands"@, text_list(commands_of(fact.collisions@))),
                        ),
                        raw_prefix_fix_of(context, call.file, range),
                    ),
                )
            } else {
                None
            },
            None => None,
        },
        None => None,
    }
}

fn check_collision(context: &RuleContext<'_>, call: &QualifiedCall, argument: &CallArgument) -> (found:
    Option<Diagnostic>)
    requires
        call.candidates@.len() == 1,
    ensures
        report_of(found) == collision_finding(*context, *call, *argument),
{
    let range: TextRange = match find_plain_literal(argument) {
        Some(range) => range,
        None => {
            return None;
        },
    };
    let fact = match context.literal_facts.tex_at(AllocationSite::new(call.file, range)) {
        Some(fact) => fact,
        None => {
            return None;
        },
    };
    if fact.collisions.len() == 0 {
        return None;
    }
    let constructor: String = short_name(call.candidates[0].as_str());
    let mut evidence = Evidence::new();
    evidence.insert("constructor", json_text(call.candidates[0].as_str()));
    evidence.insert("commands", json_texts(&list_commands(&fact.collisions)));
    let mut diagnostic = build_diagnostic(
        MLR103(),
        context,
        call.file,
        range,
        describe_collision(constructor.as_str(), &fact.collisions),
        COLLISION_WHY,
        evidence,
    );
    diagnostic.fix = raw_prefix_fix(context, call.file, range);
    Some(diagnostic)
}

/// Findings of a TeX constructor, argument by argument.
pub open spec fn collision_parts(
    context: RuleContext<'_>,
    call: QualifiedCall,
) -> spec_fn(int) -> Seq<DiagnosticView> {
    |k: int| found(collision_finding(context, call, call.arguments@[k]))
}

/// The findings for the call at `i`.
pub open spec fn collisions_at(context: RuleContext<'_>, i: int) -> Seq<DiagnosticView> {
    let call = context.qualified_calls.calls@[i];
    match context.knowledge {
        Some(profile) => if single_symbol(*profile, call.candidates@) is Some && compiles_tex(
            call.candidates@[0]@,
        ) {
            gather(call.arguments@.len() as int, collision_parts(context, call))
        } else {
            Seq::empty()
        },
        None => Seq::empty(),
    }
}

fn collisions(context: &RuleContext<'_>, i: usize) -> (diagnostics: Vec<Diagnostic>)
    requires
        i < context.qualified_calls.calls@.len(),
    ensures
        reports(diagnostics@) == collisions_at(*context, i as int),
{
    let call = &context.qualified_calls.calls[i];
    let mut diagnostics: Vec<Diagnostic> = Vec::new();
    assert(reports(diagnostics@) =~= Seq::empty());
    let profile = match context.knowledge {
        Some(profile) => profile,
        None => {
            return diagnostics;
        },
    };
    if single_knowledge_symbol(profile, &call.candidates).is_none() || !is_tex_constructor(
        call.candidates[0].as_str(),
    ) {
        return diagnostics;
    }
    let mut k: usize = 0;
    while k < call.arguments.len()
        invariant
            k <= call.arguments@.len(),
            call.candidates@.len() == 1,
            reports(diagnostics@) == gather(k as int, collision_parts(*context, *call)),
        decreases call.arguments@.len() - k,
    {
        push_found(&mut diagnostics, check_collision(context, call, &call.arguments[k]));
        k += 1;
    }
    diagnostics
}

/// Findings of [`TexEscapeCollision`], call by call.
pub open spec fn collisions_finder(context: RuleContext<'_>) -> spec_fn(int) -> Seq<DiagnosticView> {
    |i: int| collisions_at(context, i)
}

impl Rule for TexEscapeCollision {
    open spec fn declared(&self) -> MetadataView {
        mlr103()
    }

    open spec fn findings(&self, context: RuleContext<'_>) -> Seq<DiagnosticView> {
        gather(context.qualified_calls.calls@.len() as int, collisions_finder(context))
    }

    fn metadata(&self) -> (metadata: &'static RuleMetadata) {
        MLR103()
    }

    fn run(&self, context: &RuleContext<'_>) -> (diagnostics: Vec<Diagnostic>) {
        let calls = &context.qualified_calls.calls;
        let mut diagnostics: Vec<Diagnostic> = Vec::new();
        let mut i: usize = 0;
        assert(reports(diagnostics@) =~= Seq::empty());
        while i < calls.len()
            invariant
                i <= calls@.len(),
                calls@ == context.qualified_calls.calls@,
                reports(diagnostics@) == gather(i as int, collisions_finder(*context)),
            decreases calls@.len() - i,
        {
            push_all(&mut diagnostics, collisions(context, i));
            i += 1;
        }
        diagnostics
    }
}

} // verus!
