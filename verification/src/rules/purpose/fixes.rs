//! What the fixes change, and when one is offered.
use crate::diagnostic::{EditView, FixApplicability, FixView};
use crate::frontend::{CallArgument, QualifiedCall};
use crate::rules::base::RuleContext;
use crate::rules::lifecycle::builder_rules::move_kwargs_fix_of;
use crate::rules::lifecycle::membership::{commas, removal_fix_of};
use crate::rules::lifecycle::play_args::{animate_fix_of, animated};
use crate::rules::lifecycle::timing::frozen_stop_at;
use crate::rules::lifecycle::updaters::dynamic_fix_of;
use crate::rules::rendering::assets::{case_fix_of, requoted};
use crate::rules::rendering::markup::{closing_run, closing_tag_fix_of, markup_text_fix_of};
use crate::rules::rendering::support::one_string_token;
use crate::rules::rendering::tex::raw_prefix_fix_of;
use crate::semantic::PlayFact;
use crate::source::{path_in, slice_in, span_in, AllocationSite, FileId, TextRange};
use crate::text::white_space;
use vstd::prelude::*;

verus! {

/// Whether a fix is one edit that puts `text` where `range` is.
pub open spec fn writes_once(
    context: RuleContext<'_>,
    fix: Option<FixView>,
    applicability: FixApplicability,
    file: FileId,
    range: TextRange,
    text: Seq<char>,
) -> bool {
    fix matches Some(change) && change.applicability == applicability && change.edits.len() == 1
        && puts(context, change.edits[0], file, range, text)
}

/// Whether an edit puts `text` where `range` is.
pub open spec fn puts(
    context: RuleContext<'_>,
    edit: EditView,
    file: FileId,
    range: TextRange,
    text: Seq<char>,
) -> bool {
    edit.path == path_in(*context.sources, file) && edit.span == span_in(
        *context.sources,
        file,
        range,
    ) && edit.replacement == text
}

/// A frozen frame with a stop condition is fixed by writing `False` for it.
pub proof fn frozen_frames_are_unfrozen(context: RuleContext<'_>, i: int)
    ensures
        frozen_stop_at(context, i) matches Some(report) ==> {
            let call = context.qualified_calls.calls@[i];
            call.spec_keyword("frozen_frame"@) matches Some(frozen) && writes_once(
                context,
                report.fix,
                FixApplicability::Unsafe,
                call.file,
                frozen.range,
                "False"@,
            )
        },
{
}

/// A swallowed TeX command is fixed by an `r` before the literal, when the
/// literal is one token that begins with its quote.
pub proof fn literals_are_made_raw(context: RuleContext<'_>, file: FileId, range: TextRange)
    ensures
        ({
            let text = slice_in(*context.sources, file, range);
            if one_string_token(context, file, range) && text.len() > 0 && (text[0] == '"' || text[0]
                == '\'') {
                writes_once(
                    context,
                    raw_prefix_fix_of(context, file, range),
                    FixApplicability::Unsafe,
                    file,
                    TextRange { start: range.start, end: range.start },
                    "r"@,
                )
            } else {
                raw_prefix_fix_of(context, file, range) is None
            }
        }),
{
}

/// A tag that is left open is closed before the closing quotes: one of them,
/// or three alike.
pub proof fn tags_are_closed(
    context: RuleContext<'_>,
    file: FileId,
    range: TextRange,
    tag: Seq<char>,
    body: Seq<char>,
    quote: char,
)
    requires
        quote == '"' || quote == '\'',
        one_string_token(context, file, range),
        range.end >= 3,
        body.len() > 0,
        body.last() != quote,
    ensures
        slice_in(*context.sources, file, range) == body + seq![quote] ==> writes_once(
            context,
            closing_tag_fix_of(context, file, range, tag),
            FixApplicability::Unsafe,
            file,
            TextRange { start: (range.end - 1) as u32, end: (range.end - 1) as u32 },
            "</"@ + tag + ">"@,
        ),
        slice_in(*context.sources, file, range) == body + seq![quote, quote, quote] ==> writes_once(
            context,
            closing_tag_fix_of(context, file, range, tag),
            FixApplicability::Unsafe,
            file,
            TextRange { start: (range.end - 3) as u32, end: (range.end - 3) as u32 },
            "</"@ + tag + ">"@,
        ),
{
    let one = body + seq![quote];
    assert(one.last() == quote);
    assert(one[one.len() - 2] == body.last());
    assert(closing_run(one) == Some(1int));
    let three = body + seq![quote, quote, quote];
    assert(three.last() == quote);
    assert(three[three.len() - 2] == quote);
    assert(three[three.len() - 3] == quote);
    assert(closing_run(three) == Some(3int));
}

/// A `Text` with markup becomes a `MarkupText`, under whatever it is reached
/// through.
pub proof fn texts_become_markup(context: RuleContext<'_>, call: QualifiedCall, owner: Seq<char>)
    ensures
        slice_in(*context.sources, call.file, call.callee_range) == "Text"@ ==> writes_once(
            context,
            markup_text_fix_of(context, call),
            FixApplicability::Unsafe,
            call.file,
            call.callee_range,
            "MarkupText"@,
        ),
        slice_in(*context.sources, call.file, call.callee_range) == owner + ".Text"@ ==> writes_once(
            context,
            markup_text_fix_of(context, call),
            FixApplicability::Unsafe,
            call.file,
            call.callee_range,
            owner + ".MarkupText"@,
        ),
{
    reveal_strlit("Text");
    reveal_strlit(".Text");
    reveal_strlit("MarkupText");
    reveal_strlit(".MarkupText");
    let bare = "Text"@;
    assert(bare.take(0) + "MarkupText"@ =~= "MarkupText"@);
    let callee = owner + ".Text"@;
    assert(callee.skip(callee.len() - 5) =~= ".Text"@);
    assert(callee.take(callee.len() - 4) + "MarkupText"@ =~= owner + ".MarkupText"@);
}

/// A duplicate child is removed with the separator before it, when there is
/// nothing else between the two.
pub proof fn duplicates_are_removed(
    context: RuleContext<'_>,
    call: QualifiedCall,
    position: int,
    argument: CallArgument,
)
    requires
        0 < position < call.arguments@.len(),
        call.arguments@[position] == argument,
    ensures
        ({
            let gap = TextRange {
                start: call.arguments@[position - 1].range.end,
                end: argument.range.start,
            };
            let fix = removal_fix_of(context, call, position, argument);
            if commas(slice_in(*context.sources, call.file, gap)) == 1 && forall|k: int|
                0 <= k < slice_in(*context.sources, call.file, gap).len() ==> #[trigger] slice_in(
                    *context.sources,
                    call.file,
                    gap,
                )[k] == ',' || white_space(slice_in(*context.sources, call.file, gap)[k]) {
                writes_once(
                    context,
                    fix,
                    FixApplicability::Safe,
                    call.file,
                    TextRange {
                        start: call.arguments@[position - 1].range.end,
                        end: argument.range.end,
                    },
                    ""@,
                )
            } else {
                fix is None
            }
        }),
{
}

/// A wait becomes dynamic by `frozen_frame=False` before its closing bracket,
/// with a comma where there are arguments.
pub proof fn waits_become_dynamic(context: RuleContext<'_>, play: PlayFact)
    requires
        play.site.start < play.site.end,
    ensures
        ({
            let text = slice_in(*context.sources, play.site.file, play.site.spec_range());
            let before = TextRange {
                start: (play.site.end - 1) as u32,
                end: (play.site.end - 1) as u32,
            };
            &&& text.len() > 1 && text.last() == ')' && text[text.len() - 2] == '(' ==> writes_once(
                context,
                dynamic_fix_of(context, play),
                FixApplicability::Unsafe,
                play.site.file,
                before,
                "frozen_frame=False"@,
            )
            &&& text.len() > 1 && text.last() == ')' && text[text.len() - 2] != '(' && !white_space(
                text[text.len() - 2],
            ) ==> writes_once(
                context,
                dynamic_fix_of(context, play),
                FixApplicability::Unsafe,
                play.site.file,
                before,
                ", frozen_frame=False"@,
            )
            &&& text.len() == 0 || text.last() != ')' ==> dynamic_fix_of(context, play) is None
        }),
{
    let text = slice_in(*context.sources, play.site.file, play.site.spec_range());
    if text.len() > 1 {
        let inner = text.drop_last();
        assert(inner.last() == text[text.len() - 2]);
        assert(!white_space('('));
    }
}

/// Arguments that come too late are written behind `.animate` and taken away
/// where they stand, when they are keywords alone.
pub proof fn late_arguments_move(
    context: RuleContext<'_>,
    outer: QualifiedCall,
    builder: AllocationSite,
)
    ensures
        ({
            let trailing = TextRange { start: outer.callee_range.end, end: outer.call_range.end };
            let fix = move_kwargs_fix_of(context, outer, builder);
            if outer.positional_count == 0 && !outer.has_star_args {
                fix matches Some(change) && change.applicability == FixApplicability::Safe
                    && change.edits.len() == 2 && puts(
                    context,
                    change.edits[0],
                    outer.file,
                    TextRange { start: builder.end, end: builder.end },
                    slice_in(*context.sources, outer.file, trailing),
                ) && puts(context, change.edits[1], outer.file, trailing, ""@)
            } else {
                fix is None
            }
        }),
{
}

/// A played method call is put behind `.animate` on a known instance alone.
pub proof fn calls_are_animated(
    context: RuleContext<'_>,
    call: QualifiedCall,
    inner: QualifiedCall,
    callee: Seq<char>,
)
    ensures
        animate_fix_of(context, call, inner, callee) is Some <==> inner.receiver is KnownInstance
            && animated(callee) is Some,
        animate_fix_of(context, call, inner, callee) is Some ==> writes_once(
            context,
            animate_fix_of(context, call, inner, callee),
            FixApplicability::Unsafe,
            call.file,
            inner.callee_range,
            animated(callee)->0,
        ),
{
}

/// The case of a path is fixed inside its quotes, when it is one token.
pub proof fn cases_are_corrected(
    context: RuleContext<'_>,
    file: FileId,
    range: TextRange,
    corrected: Seq<char>,
)
    ensures
        ({
            let written = requoted(slice_in(*context.sources, file, range), corrected);
            if one_string_token(context, file, range) && written is Some {
                writes_once(
                    context,
                    case_fix_of(context, file, range, corrected),
                    FixApplicability::Safe,
                    file,
                    range,
                    written->0,
                )
            } else {
                case_fix_of(context, file, range, corrected) is None
            }
        }),
{
}

} // verus!
