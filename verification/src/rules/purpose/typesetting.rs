//! What the rendering rules on literals are for.
use super::performance::typeset;
use super::rendering::{constructs, method_called, method_called_is_exact};
use super::{owed, parts_stand, stand_at, Place};
use crate::frontend::{
    role_from, ArgShape, CallArgument, FileBindingFacts, LiteralFact, QualifiedCall, StatementRole,
};
use crate::knowledge::{AcceptedTarget, SymbolKind};
use crate::literals::{markup_from, tex_from};
use crate::numbers::whole_sign_is_exact;
use crate::rules::base::{Rule, RuleContext};
use crate::rules::rendering::creation::{creation_at, creation_finder, NonVmobjectCreationTarget};
use crate::rules::rendering::geometry::{
    geometry_target, non_finite_at, non_finite_finder, non_finite_finding, non_finite_parts,
    NonFiniteGeometryLiteral,
};
use crate::rules::rendering::markup::{
    invalid_markup_at, invalid_markup_finder, plain_markup_at, plain_markup_finder,
    InvalidMarkupLiteral, MarkupInPlainText,
};
use crate::rules::rendering::register_font::{bare_font_at, bare_font_finder, BareRegisterFont};
use crate::rules::rendering::style::{font_size_at, font_size_finder, NonPositiveFontSize};
use crate::rules::rendering::support::all_plain;
use crate::rules::rendering::tex::{
    collision_finding, collision_parts, collisions_at, collisions_finder, TexEscapeCollision,
};
use crate::source::{site_of, slice_in, FileId};
use crate::text::{ascii_lowered, found, gather, last_segment, texts, trimmed};
use vstd::prelude::*;

verus! {

/// Whether the only candidate of a call is this curated symbol.
pub open spec fn names_only(context: RuleContext<'_>, call: QualifiedCall, id: Seq<char>) -> bool {
    &&& call.candidates@.len() == 1
    &&& call.candidates@[0]@ == id
    &&& context.knowledge matches Some(profile) && profile.spec_symbol(id) is Some
}

/// Whether an argument is a number that is not greater than zero.
pub open spec fn not_above_zero(argument: CallArgument) -> bool {
    match argument.literal {
        Some(LiteralFact::Int(n)) => n <= 0,
        Some(LiteralFact::Float(value)) => value.bits == 0 || value.bits > 0x7FF0_0000_0000_0000,
        _ => false,
    }
}

/// The font size of a typeset text that is not positive.
pub open spec fn font_size_owed(context: RuleContext<'_>, i: int) -> Seq<Place> {
    let call = context.qualified_calls.calls@[i];
    match call.spec_keyword("font_size"@) {
        Some(argument) => owed(
            call.candidates@.len() == 1 && names_only(context, call, call.candidates@[0]@)
                && typeset(call.candidates@[0]@) && not_above_zero(argument),
            call.file,
            argument.range,
        ),
        None => Seq::empty(),
    }
}

/// A font size that is zero, negative, or no number at all is reported, for
/// each of the five typeset classes, and nothing else is.
pub proof fn small_fonts_are_reported(context: RuleContext<'_>)
    ensures
        stand_at(
            context,
            NonPositiveFontSize.findings(context),
            gather(
                context.qualified_calls.calls@.len() as int,
                |i: int| font_size_owed(context, i),
            ),
        ),
{
    let finder = font_size_finder(context);
    let places = |i: int| font_size_owed(context, i);
    let n = context.qualified_calls.calls@.len() as int;
    assert forall|i: int| 0 <= i < n implies stand_at(
        context,
        #[trigger] finder(i),
        places(i),
    ) by {
        let call = context.qualified_calls.calls@[i];
        assert(finder(i) == found(font_size_at(context, i)));
        if call.spec_keyword("font_size"@) is Some {
            match call.spec_keyword("font_size"@)->0.literal {
                Some(LiteralFact::Int(n)) => whole_sign_is_exact(n),
                _ => {},
            }
        }
    }
    parts_stand(context, n, finder, places);
}

/// The text of a `MarkupText` that has a markup error.
pub open spec fn bad_markup_owed(context: RuleContext<'_>, i: int) -> Seq<Place> {
    let call = context.qualified_calls.calls@[i];
    match (
        match call.spec_keyword("text"@) {
            Some(argument) => Some(argument),
            None => if call.positional_count > 0 && call.arguments@.len() > 0 {
                Some(call.arguments@[0])
            } else {
                None
            },
        }
    ) {
        Some(argument) => match argument.literal {
            Some(LiteralFact::Str { value: _, prefix, range }) => owed(
                names_only(context, call, "manim.mobject.text.text_mobject.MarkupText"@) && !prefix.bytes && (
                markup_from(context.literal_facts.markup@, site_of(call.file, range), 0) matches Some(
                    fact,
                ) && fact.error is Some),
                call.file,
                range,
            ),
            _ => Seq::empty(),
        },
        None => Seq::empty(),
    }
}

/// A text of `MarkupText` that is no valid markup is reported, and nothing else
/// is.
pub proof fn bad_markup_is_reported(context: RuleContext<'_>)
    ensures
        stand_at(
            context,
            InvalidMarkupLiteral.findings(context),
            gather(
                context.qualified_calls.calls@.len() as int,
                |i: int| bad_markup_owed(context, i),
            ),
        ),
{
    let finder = invalid_markup_finder(context);
    let places = |i: int| bad_markup_owed(context, i);
    let n = context.qualified_calls.calls@.len() as int;
    assert forall|i: int| 0 <= i < n implies stand_at(
        context,
        #[trigger] finder(i),
        places(i),
    ) by {
        let call = context.qualified_calls.calls@[i];
        assert(finder(i) == found(invalid_markup_at(context, i)));

    }
    parts_stand(context, n, finder, places);
}

/// The text of a `Text` that holds a pair of tags.
pub open spec fn plain_markup_owed(context: RuleContext<'_>, i: int) -> Seq<Place> {
    let call = context.qualified_calls.calls@[i];
    match (
        match call.spec_keyword("text"@) {
            Some(argument) => Some(argument),
            None => if call.positional_count > 0 && call.arguments@.len() > 0 {
                Some(call.arguments@[0])
            } else {
                None
            },
        }
    ) {
        Some(argument) => match argument.literal {
            Some(LiteralFact::Str { value: _, prefix, range }) => owed(
                names_only(context, call, "manim.mobject.text.text_mobject.Text"@) && !prefix.bytes && (
                markup_from(context.literal_facts.markup@, site_of(call.file, range), 0) matches Some(
                    fact,
                ) && fact.matched_pair is Some),
                call.file,
                range,
            ),
            _ => Seq::empty(),
        },
        None => Seq::empty(),
    }
}

/// A text of `Text` that holds a pair of markup tags is reported, and nothing
/// else is.
pub proof fn plain_markup_is_reported(context: RuleContext<'_>)
    ensures
        stand_at(
            context,
            MarkupInPlainText.findings(context),
            gather(
                context.qualified_calls.calls@.len() as int,
                |i: int| plain_markup_owed(context, i),
            ),
        ),
{
    let finder = plain_markup_finder(context);
    let places = |i: int| plain_markup_owed(context, i);
    let n = context.qualified_calls.calls@.len() as int;
    assert forall|i: int| 0 <= i < n implies stand_at(
        context,
        #[trigger] finder(i),
        places(i),
    ) by {
        let call = context.qualified_calls.calls@[i];
        assert(finder(i) == found(plain_markup_at(context, i)));

    }
    parts_stand(context, n, finder, places);
}

/// A `register_font` call whose result is dropped.
pub open spec fn bare_font_owed(context: RuleContext<'_>, i: int) -> Seq<Place> {
    let call = context.qualified_calls.calls@[i];
    owed(
        call.candidates@.len() == 1 && call.candidates@[0]@
            == "manim.mobject.text.text_mobject.register_font"@ && role_from(
            context.qualified_calls.statements.entries@,
            site_of(call.file, call.call_range),
            0,
        ) == Some(StatementRole::BareExpression),
        call.file,
        call.call_range,
    )
}

/// A `register_font` that is a statement of its own is reported, and nothing
/// else is.
pub proof fn bare_registrations_are_reported(context: RuleContext<'_>)
    ensures
        stand_at(
            context,
            BareRegisterFont.findings(context),
            gather(
                context.qualified_calls.calls@.len() as int,
                |i: int| bare_font_owed(context, i),
            ),
        ),
{
    let finder = bare_font_finder(context);
    let places = |i: int| bare_font_owed(context, i);
    let n = context.qualified_calls.calls@.len() as int;
    assert forall|i: int| 0 <= i < n implies stand_at(
        context,
        #[trigger] finder(i),
        places(i),
    ) by {
        let call = context.qualified_calls.calls@[i];
        assert(finder(i) == found(bare_font_at(context, i)));

    }
    parts_stand(context, n, finder, places);
}

/// The first argument of a creation animation, when it is not vectorized.
pub open spec fn creation_owed(context: RuleContext<'_>, i: int) -> Seq<Place> {
    let call = context.qualified_calls.calls@[i];
    let calls = context.qualified_calls.calls@;
    if call.positional_count > 0 && call.arguments@.len() > 0 && call.candidates@.len() == 1
        && context.knowledge is Some {
        let profile = *context.knowledge->0;
        let argument = call.arguments@[0];
        owed(
            (profile.spec_symbol(call.candidates@[0]@) matches Some(entry) && entry.kind
                == SymbolKind::Animation && entry.accepted_target == Some(AcceptedTarget::Vmobject))
                && (argument.literal is Some || match argument.shape {
                ArgShape::Call(inner) => inner < calls.len() && all_plain(
                    profile,
                    context.project_index,
                    calls[inner as int].candidates@,
                ),
                ArgShape::Name => all_plain(
                    profile,
                    context.project_index,
                    argument.kind_candidates@,
                ),
                _ => false,
            }),
            call.file,
            argument.range,
        )
    } else {
        Seq::empty()
    }
}

/// The target of an animation that only accepts vectorized mobjects is reported
/// when it is a literal or certainly no vectorized mobject, and nothing else is.
pub proof fn plain_creations_are_reported(context: RuleContext<'_>)
    ensures
        stand_at(
            context,
            NonVmobjectCreationTarget.findings(context),
            gather(
                context.qualified_calls.calls@.len() as int,
                |i: int| creation_owed(context, i),
            ),
        ),
{
    let finder = creation_finder(context);
    let places = |i: int| creation_owed(context, i);
    let n = context.qualified_calls.calls@.len() as int;
    assert forall|i: int| 0 <= i < n implies stand_at(
        context,
        #[trigger] finder(i),
        places(i),
    ) by {
        let call = context.qualified_calls.calls@[i];
        assert(finder(i) == found(creation_at(context, i)));

    }
    parts_stand(context, n, finder, places);
}

/// The argument at `k`, when it is a plain string in which an escape swallows
/// a TeX command.
pub open spec fn collision_owed(context: RuleContext<'_>, call: QualifiedCall, k: int) -> Seq<Place> {
    match call.arguments@[k].literal {
        Some(LiteralFact::Str { value: _, prefix, range }) => owed(
            call.arguments@[k].keyword is None && !prefix.raw && !prefix.bytes && !prefix.formatted
                && (tex_from(context.literal_facts.tex@, site_of(call.file, range), 0) matches Some(
                fact,
            ) && fact.collisions@.len() > 0),
            call.file,
            range,
        ),
        _ => Seq::empty(),
    }
}

/// The arguments of a TeX text in which an escape swallows a command.
pub open spec fn collisions_owed(context: RuleContext<'_>, i: int) -> Seq<Place> {
    let call = context.qualified_calls.calls@[i];
    if names_only(context, call, "manim.mobject.text.tex_mobject.MathTex"@) || names_only(
        context,
        call,
        "manim.mobject.text.tex_mobject.SingleStringMathTex"@,
    ) || names_only(context, call, "manim.mobject.text.tex_mobject.Tex"@) {
        gather(call.arguments@.len() as int, |k: int| collision_owed(context, call, k))
    } else {
        Seq::empty()
    }
}

/// A plain string in which an escape swallows a TeX command is reported, for
/// each of the three TeX classes and each argument, and nothing else is.
pub proof fn swallowed_commands_are_reported(context: RuleContext<'_>)
    ensures
        stand_at(
            context,
            TexEscapeCollision.findings(context),
            gather(
                context.qualified_calls.calls@.len() as int,
                |i: int| collisions_owed(context, i),
            ),
        ),
{
    let finder = collisions_finder(context);
    let places = |i: int| collisions_owed(context, i);
    let n = context.qualified_calls.calls@.len() as int;
    assert forall|i: int| 0 <= i < n implies stand_at(
        context,
        #[trigger] finder(i),
        places(i),
    ) by {
        let call = context.qualified_calls.calls@[i];
        assert(finder(i) == collisions_at(context, i));
        let inner = collision_parts(context, call);
        assert forall|k: int| 0 <= k < call.arguments@.len() implies stand_at(
            context,
            #[trigger] inner(k),
            collision_owed(context, call, k),
        ) by {
            assert(inner(k) == found(collision_finding(context, call, call.arguments@[k])));
        }
        parts_stand(
            context,
            call.arguments@.len() as int,
            inner,
            |k: int| collision_owed(context, call, k),
        );
    }
    parts_stand(context, n, finder, places);
}

/// Whether a dotted name is infinity or no number.
pub open spec fn not_finite_name(name: Seq<char>) -> bool {
    name == "math.inf"@ || name == "math.nan"@
}

/// Whether `float` reads a text as infinity or as no number: with or without a
/// sign, in any case, with white space around it.
pub open spec fn not_finite_text(text: Seq<char>) -> bool {
    let bare = trimmed(text);
    let word = ascii_lowered(
        if bare.len() > 0 && (bare[0] == '+' || bare[0] == '-') {
            bare.skip(1)
        } else {
            bare
        },
    );
    word == "inf"@ || word == "infinity"@ || word == "nan"@
}

/// Whether a call is `float` of such a text.
pub open spec fn not_finite_call(
    context: RuleContext<'_>,
    file: FileId,
    inner: QualifiedCall,
    bindings: FileBindingFacts,
) -> bool {
    &&& !texts(bindings.bound_names@).contains("float"@)
    &&& inner.candidates@.len() == 0
    &&& inner.receiver is Direct
    &&& slice_in(*context.sources, file, inner.callee_range) == "float"@
    &&& !inner.has_star_args
    &&& !inner.has_star_star_kwargs
    &&& inner.keyword_names@.len() == 0
    &&& inner.positional_count == 1
    &&& inner.arguments@.len() > 0
    &&& inner.arguments@[0].literal matches Some(LiteralFact::Str { value, prefix, range: _ })
        && !prefix.bytes && not_finite_text(value@)
}

/// Whether an argument is infinity or no number.
pub open spec fn not_finite(
    context: RuleContext<'_>,
    file: FileId,
    bindings: FileBindingFacts,
    argument: CallArgument,
) -> bool {
    match argument.shape {
        ArgShape::Call(inner) => inner < context.qualified_calls.calls@.len() && not_finite_call(
            context,
            file,
            context.qualified_calls.calls@[inner as int],
            bindings,
        ),
        ArgShape::Attribute(reference) => reference.candidates@.len() == 1 && not_finite_name(
            reference.candidates@[0]@,
        ),
        ArgShape::Name => bindings.spec_import_target(
            slice_in(*context.sources, file, argument.range),
        ) matches Some(target) && not_finite_name(target),
        _ => false,
    }
}

/// Whether a method places, turns, or scales its mobject.
pub open spec fn shapes(method: Seq<char>) -> bool {
    ||| method == "move_to"@
    ||| method == "next_to"@
    ||| method == "rotate"@
    ||| method == "scale"@
    ||| method == "shift"@
    ||| method == "to_edge"@
}

/// Whether a call makes or shapes a mobject.
pub open spec fn takes_geometry(context: RuleContext<'_>, call: QualifiedCall) -> bool {
    constructs(context, call) || (method_called(context, call) matches Some(id) && shapes(
        last_segment(id),
    ))
}

/// The arguments of a call that shapes a mobject that are not finite.
pub open spec fn non_finite_owed(context: RuleContext<'_>, i: int) -> Seq<Place> {
    let call = context.qualified_calls.calls@[i];
    if takes_geometry(context, call) && context.qualified_calls.bindings.spec_file(call.file) is Some {
        let bindings = context.qualified_calls.bindings.spec_file(call.file)->0;
        gather(
            call.arguments@.len() as int,
            |k: int|
                owed(
                    not_finite(context, call.file, bindings, call.arguments@[k]) && (
                    call.arguments@[k].keyword is Some || k < call.positional_count),
                    call.file,
                    call.arguments@[k].range,
                ),
        )
    } else {
        Seq::empty()
    }
}

/// Infinity, or what is no number, is reported wherever it is given to a
/// mobject constructor or to one of the six methods that shape a mobject, and
/// nothing else is.
pub proof fn endless_geometry_is_reported(context: RuleContext<'_>)
    ensures
        stand_at(
            context,
            NonFiniteGeometryLiteral.findings(context),
            gather(
                context.qualified_calls.calls@.len() as int,
                |i: int| non_finite_owed(context, i),
            ),
        ),
{
    let finder = non_finite_finder(context);
    let places = |i: int| non_finite_owed(context, i);
    let n = context.qualified_calls.calls@.len() as int;
    assert forall|i: int| 0 <= i < n implies stand_at(
        context,
        #[trigger] finder(i),
        places(i),
    ) by {
        let call = context.qualified_calls.calls@[i];
        assert(finder(i) == non_finite_at(context, i));
        if context.knowledge is Some && context.qualified_calls.bindings.spec_file(call.file) is Some {
            let profile = *context.knowledge->0;
            method_called_is_exact(context, call);
            assert(takes_geometry(context, call) <==> geometry_target(profile, call) is Some);
            if takes_geometry(context, call) {
                let bindings = context.qualified_calls.bindings.spec_file(call.file)->0;
                let target = geometry_target(profile, call)->0;
                let inner = non_finite_parts(context, call, target, bindings);
                let here = |k: int|
                    owed(
                        not_finite(context, call.file, bindings, call.arguments@[k]) && (
                        call.arguments@[k].keyword is Some || k < call.positional_count),
                        call.file,
                        call.arguments@[k].range,
                    );
                assert forall|k: int| 0 <= k < call.arguments@.len() implies stand_at(
                    context,
                    #[trigger] inner(k),
                    here(k),
                ) by {
                    assert(inner(k) == found(non_finite_finding(context, call, target, bindings, k)));
                }
                parts_stand(context, call.arguments@.len() as int, inner, here);
            }
        }
    }
    parts_stand(context, n, finder, places);
}

} // verus!
