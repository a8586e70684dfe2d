//! What the rendering rules are for.
use super::{gathered_in, points_at};
use crate::diagnostic::DiagnosticView;
use crate::frontend::{CallArgument, LiteralFact, QualifiedCall};
use crate::json::JsonView;
use crate::knowledge::{resolved_method, SymbolKind};
use crate::numbers::whole_sign_is_exact;
use crate::rules::base::{Rule, RuleContext};
use crate::rules::rendering::style::{
    constructor_styles, method_styles, slot, style_finding, style_range_at, style_range_finder,
    OpacityStrokeRange, StyleChannel,
};
use crate::rules::rendering::support::method_of_call;
use crate::text::{gathered_from, last_segment, last_segment_is_exact, texts};
use vstd::prelude::*;

verus! {

/// Whether an argument is a number less than zero.
pub open spec fn below_zero(argument: CallArgument) -> bool {
    match argument.literal {
        Some(LiteralFact::Int(n)) => n < 0,
        Some(LiteralFact::Float(value)) => 0x8000_0000_0000_0000 < value.bits
            <= 0xFFF0_0000_0000_0000,
        _ => false,
    }
}

/// Whether an argument is a number greater than one.
pub open spec fn above_one(argument: CallArgument) -> bool {
    match argument.literal {
        Some(LiteralFact::Int(n)) => n > 1,
        Some(LiteralFact::Float(value)) => 0x3FF0_0000_0000_0000 < value.bits
            <= 0x7FF0_0000_0000_0000,
        _ => false,
    }
}

/// Whether an argument is no value of a style: an opacity outside 0 to 1, or
/// a width below 0.
pub open spec fn bad_style(opacity: bool, argument: CallArgument) -> bool {
    below_zero(argument) || (opacity && above_one(argument))
}

/// The style parameters of the mobject methods: where each stands, what it is
/// called, and whether it is an opacity.
pub open spec fn style_parameter(
    method: Seq<char>,
    position: int,
    keyword: Seq<char>,
    opacity: bool,
) -> bool {
    ||| method == "set_opacity"@ && position == 0 && keyword == "opacity"@ && opacity
    ||| method == "set_fill"@ && position == 1 && keyword == "opacity"@ && opacity
    ||| method == "set_stroke"@ && position == 1 && keyword == "width"@ && !opacity
    ||| method == "set_stroke"@ && position == 2 && keyword == "opacity"@ && opacity
}

/// The style keywords of the mobject constructors.
pub open spec fn style_keyword(keyword: Seq<char>, opacity: bool) -> bool {
    ||| keyword == "fill_opacity"@ && opacity
    ||| keyword == "stroke_opacity"@ && opacity
    ||| keyword == "opacity"@ && opacity
    ||| keyword == "stroke_width"@ && !opacity
}

/// Whether a call gives a parameter this argument: by keyword, or in its
/// position when nothing can shift it.
pub open spec fn gives(
    call: QualifiedCall,
    keyword: Seq<char>,
    position: int,
    argument: CallArgument,
) -> bool {
    if call.spec_keyword(keyword) is Some {
        call.spec_keyword(keyword) == Some(argument)
    } else {
        &&& !call.has_star_args
        &&& 0 <= position < call.positional_count
        &&& position < call.arguments@.len()
        &&& call.arguments@[position] == argument
        &&& argument.keyword is None
    }
}

/// Whether a call constructs the one curated mobject class it can name.
pub open spec fn constructs(context: RuleContext<'_>, call: QualifiedCall) -> bool {
    &&& call.candidates@.len() == 1
    &&& context.knowledge matches Some(profile) && profile.spec_symbol(
        call.candidates@[0]@,
    ) matches Some(entry) && (entry.kind == SymbolKind::Mobject || entry.kind
        == SymbolKind::Vmobject)
}

/// Whether a call on an instance can only reach curated methods of this name.
pub open spec fn calls_method_named(
    context: RuleContext<'_>,
    call: QualifiedCall,
    id: Seq<char>,
    method: Seq<char>,
) -> bool {
    &&& call.receiver is KnownInstance
    &&& context.knowledge is Some
    &&& call.candidates@.len() > 0
    &&& forall|c: int|
        0 <= c < call.candidates@.len() ==> resolved_method(
            *context.knowledge->0,
            (#[trigger] call.candidates@[c])@,
        ) == Some(id)
    &&& last_segment(id) == method
}

/// The one curated method that a call on an instance can only reach.
pub open spec fn method_called(context: RuleContext<'_>, call: QualifiedCall) -> Option<Seq<char>> {
    if call.receiver is KnownInstance && context.knowledge is Some && call.candidates@.len() > 0 {
        let first = resolved_method(*context.knowledge->0, call.candidates@[0]@);
        if forall|c: int|
            0 <= c < call.candidates@.len() ==> resolved_method(
                *context.knowledge->0,
                (#[trigger] call.candidates@[c])@,
            ) == first {
            first
        } else {
            None
        }
    } else {
        None
    }
}

pub(crate) proof fn method_called_is_exact(context: RuleContext<'_>, call: QualifiedCall)
    requires
        context.knowledge is Some,
    ensures
        call.receiver is KnownInstance ==> method_called(context, call) == method_of_call(
            *context.knowledge->0,
            texts(call.candidates@),
        ),
{
    let list = texts(call.candidates@);
    if call.candidates@.len() > 0 {
        assert(list[0] == call.candidates@[0]@);
        assert(forall|c: int| 0 <= c < list.len() ==> #[trigger] list[c] == call.candidates@[c]@);
        if method_called(context, call) is Some {
            assert forall|c: int| 0 <= c < list.len() implies resolved_method(
                *context.knowledge->0,
                #[trigger] list[c],
            ) == method_called(context, call) by {
                assert(list[c] == call.candidates@[c]@);
            }
        }
        if method_of_call(*context.knowledge->0, list) is Some {
            assert forall|c: int| 0 <= c < call.candidates@.len() implies resolved_method(
                *context.knowledge->0,
                (#[trigger] call.candidates@[c])@,
            ) == method_of_call(*context.knowledge->0, list) by {
                assert(list[c] == call.candidates@[c]@);
            }
        }
    }
}

/// Whether a call on an instance names one curated method, `owner.method`.
pub open spec fn surely_calls_method(
    context: RuleContext<'_>,
    call: QualifiedCall,
    owner: Seq<char>,
    method: Seq<char>,
) -> bool {
    let id = owner + "."@ + method;
    &&& call.receiver is KnownInstance
    &&& context.knowledge matches Some(profile) && profile.spec_symbol(id) matches Some(entry)
        && entry.kind == SymbolKind::Method
    &&& call.candidates@.len() > 0
    &&& forall|c: int| 0 <= c < call.candidates@.len() ==> (#[trigger] call.candidates@[c])@ == id
}

/// Whether a report is about a style argument under this name.
pub open spec fn about_style(
    context: RuleContext<'_>,
    report: DiagnosticView,
    call: QualifiedCall,
    keyword: Seq<char>,
    argument: CallArgument,
) -> bool {
    points_at(context, report, call.file, argument.range) && report.evidence["keyword"@]
        == JsonView::Text(keyword)
}

spec fn channel_of(opacity: bool) -> StyleChannel {
    if opacity {
        StyleChannel::Opacity
    } else {
        StyleChannel::StrokeWidth
    }
}

proof fn bad_style_is_found(
    context: RuleContext<'_>,
    call: QualifiedCall,
    display: Seq<char>,
    opacity: bool,
    keyword: Seq<char>,
    argument: CallArgument,
)
    ensures
        ({
            let list = style_finding(
                context,
                call,
                display,
                channel_of(opacity),
                keyword,
                Some(argument),
            );
            &&& bad_style(opacity, argument) ==> list.len() == 1 && about_style(
                context,
                list[0],
                call,
                keyword,
                argument,
            )
            &&& !bad_style(opacity, argument) ==> list.len() == 0
        }),
{
    match argument.literal {
        Some(LiteralFact::Int(n)) => whole_sign_is_exact(n),
        _ => {},
    }
    reveal_strlit("keyword");
    reveal_strlit("call");
    reveal_strlit("value");
    assert("keyword"@.len() != "call"@.len());
    assert("keyword"@.len() != "value"@.len());
}

proof fn style_names_differ()
    ensures
        "set_opacity"@ != "set_fill"@,
        "set_opacity"@ != "set_stroke"@,
        "set_fill"@ != "set_stroke"@,
        !"set_opacity"@.contains('.'),
        !"set_fill"@.contains('.'),
        !"set_stroke"@.contains('.'),
{
    reveal_strlit("set_opacity");
    reveal_strlit("set_fill");
    reveal_strlit("set_stroke");
    assert("set_opacity"@.len() == 11);
    assert("set_fill"@.len() == 8);
    assert("set_stroke"@.len() == 10);
}

proof fn call_of_method_is_not_construction(
    context: RuleContext<'_>,
    call: QualifiedCall,
    owner: Seq<char>,
    method: Seq<char>,
)
    requires
        surely_calls_method(context, call, owner, method),
        !method.contains('.'),
    ensures
        !constructs(context, call),
        calls_method_named(context, call, owner + "."@ + method, method),
        forall|i: int|
            #![trigger context.qualified_calls.calls@[i]]
            context.qualified_calls.calls@[i] == call ==> style_range_at(context, i)
                == method_styles(context, call, method),
{
    let id = owner + "."@ + method;
    let profile = *context.knowledge->0;
    last_segment_is_exact(owner, method);
    assert(call.candidates@[0]@ == id);
    let list = texts(call.candidates@);
    assert forall|c: int| 0 <= c < list.len() implies #[trigger] list[c] == id by {
        assert(list[c] == call.candidates@[c]@);
    }
    assert(list[0] == id);
    assert(resolved_method(profile, id) == Some(id));
    assert forall|c: int| 0 <= c < call.candidates@.len() implies resolved_method(
        profile,
        (#[trigger] call.candidates@[c])@,
    ) == Some(id) by {
        assert(call.candidates@[c]@ == id);
    }
    assert(method_of_call(profile, list) == Some(id));
}

/// A value that a style method of a mobject cannot take is reported, under
/// the name of the parameter that it is given to: the width of `set_stroke` is
/// its argument 1, its opacity argument 2.
pub proof fn bad_style_arguments_are_reported(
    context: RuleContext<'_>,
    i: int,
    owner: Seq<char>,
    method: Seq<char>,
    position: int,
    keyword: Seq<char>,
    opacity: bool,
    argument: CallArgument,
) -> (k: int)
    requires
        0 <= i < context.qualified_calls.calls@.len(),
        surely_calls_method(context, context.qualified_calls.calls@[i], owner, method),
        style_parameter(method, position, keyword, opacity),
        gives(context.qualified_calls.calls@[i], keyword, position, argument),
        bad_style(opacity, argument),
    ensures
        0 <= k < OpacityStrokeRange.findings(context).len(),
        about_style(
            context,
            OpacityStrokeRange.findings(context)[k],
            context.qualified_calls.calls@[i],
            keyword,
            argument,
        ),
{
    let call = context.qualified_calls.calls@[i];
    let n = context.qualified_calls.calls@.len() as int;
    style_names_differ();
    call_of_method_is_not_construction(context, call, owner, method);
    let display = "."@ + method + "()"@;
    bad_style_is_found(context, call, display, opacity, keyword, argument);
    assert(slot(call, keyword, position) == Some(argument));
    let mine = style_finding(
        context,
        call,
        display,
        channel_of(opacity),
        keyword,
        Some(argument),
    );
    let part = method_styles(context, call, method);
    assert(part.contains(mine[0])) by {
        if method == "set_stroke"@ {
            let width = style_finding(
                context,
                call,
                display,
                StyleChannel::StrokeWidth,
                "width"@,
                slot(call, "width"@, 1),
            );
            if opacity {
                assert(part[width.len() as int] == mine[0]);
            } else {
                assert(part[0] == mine[0]);
            }
        } else {
            assert(part[0] == mine[0]);
        }
    }
    assert(style_range_finder(context)(i) == part);
    gathered_in(n, style_range_finder(context), i, mine[0]);
    let list = OpacityStrokeRange.findings(context);
    let k = choose|k: int| 0 <= k < list.len() && list[k] == mine[0];
    k
}

/// A value that a style keyword of a mobject constructor cannot take is
/// reported under that keyword.
pub proof fn bad_style_keywords_are_reported(
    context: RuleContext<'_>,
    i: int,
    keyword: Seq<char>,
    opacity: bool,
    argument: CallArgument,
) -> (k: int)
    requires
        0 <= i < context.qualified_calls.calls@.len(),
        constructs(context, context.qualified_calls.calls@[i]),
        style_keyword(keyword, opacity),
        context.qualified_calls.calls@[i].spec_keyword(keyword) == Some(argument),
        bad_style(opacity, argument),
    ensures
        0 <= k < OpacityStrokeRange.findings(context).len(),
        about_style(
            context,
            OpacityStrokeRange.findings(context)[k],
            context.qualified_calls.calls@[i],
            keyword,
            argument,
        ),
{
    let call = context.qualified_calls.calls@[i];
    let n = context.qualified_calls.calls@.len() as int;
    let display = last_segment(call.candidates@[0]@) + "()"@;
    bad_style_is_found(context, call, display, opacity, keyword, argument);
    let a = style_finding(
        context,
        call,
        display,
        StyleChannel::Opacity,
        "fill_opacity"@,
        call.spec_keyword("fill_opacity"@),
    );
    let b = style_finding(
        context,
        call,
        display,
        StyleChannel::Opacity,
        "stroke_opacity"@,
        call.spec_keyword("stroke_opacity"@),
    );
    let c = style_finding(
        context,
        call,
        display,
        StyleChannel::Opacity,
        "opacity"@,
        call.spec_keyword("opacity"@),
    );
    let d = style_finding(
        context,
        call,
        display,
        StyleChannel::StrokeWidth,
        "stroke_width"@,
        call.spec_keyword("stroke_width"@),
    );
    let part = constructor_styles(context, call);
    assert(part == a + b + c + d);
    reveal_strlit("fill_opacity");
    reveal_strlit("stroke_opacity");
    reveal_strlit("opacity");
    reveal_strlit("stroke_width");
    assert("stroke_width"@.len() != "stroke_opacity"@.len());
    assert("stroke_width"@.len() != "opacity"@.len());
    assert("stroke_width"@[0] != "fill_opacity"@[0]);
    let mine = style_finding(
        context,
        call,
        display,
        channel_of(opacity),
        keyword,
        Some(argument),
    );
    assert(part.contains(mine[0])) by {
        if keyword == "fill_opacity"@ {
            assert(part[0] == mine[0]);
        } else if keyword == "stroke_opacity"@ {
            assert(part[a.len() as int] == mine[0]);
        } else if keyword == "opacity"@ {
            assert(part[a.len() as int + b.len()] == mine[0]);
        } else {
            assert(part[a.len() as int + b.len() + c.len()] == mine[0]);
        }
    }
    assert(style_range_finder(context)(i) == part);
    gathered_in(n, style_range_finder(context), i, mine[0]);
    let list = OpacityStrokeRange.findings(context);
    let k = choose|k: int| 0 <= k < list.len() && list[k] == mine[0];
    k
}

/// Whether a report is owed to the style argument of a method call or of a
/// construction.
pub open spec fn bad_style_of(
    context: RuleContext<'_>,
    report: DiagnosticView,
    call: QualifiedCall,
    w: (Seq<char>, Seq<char>, int, Seq<char>, bool, CallArgument),
) -> bool {
    let (id, method, position, keyword, opacity, argument) = w;
    &&& about_style(context, report, call, keyword, argument)
    &&& bad_style(opacity, argument)
    &&& if constructs(context, call) {
        style_keyword(keyword, opacity) && call.spec_keyword(keyword) == Some(argument)
    } else {
        &&& calls_method_named(context, call, id, method)
        &&& style_parameter(method, position, keyword, opacity)
        &&& gives(call, keyword, position, argument)
    }
}

/// Every style report is about a value that the named parameter cannot take:
/// of `set_stroke`, a report on the width is about argument 1 and one on the
/// opacity about argument 2.
pub proof fn only_bad_styles_are_reported(context: RuleContext<'_>, k: int) -> (w: (
    int,
    (Seq<char>, Seq<char>, int, Seq<char>, bool, CallArgument),
))
    requires
        0 <= k < OpacityStrokeRange.findings(context).len(),
    ensures
        0 <= w.0 < context.qualified_calls.calls@.len(),
        bad_style_of(
            context,
            OpacityStrokeRange.findings(context)[k],
            context.qualified_calls.calls@[w.0],
            w.1,
        ),
{
    let calls = context.qualified_calls.calls@;
    let n = calls.len() as int;
    let report = OpacityStrokeRange.findings(context)[k];
    gathered_from(n, style_range_finder(context), k);
    let i = choose|i: int| 0 <= i < n && (#[trigger] style_range_finder(context)(i)).contains(report);
    let call = calls[i];
    let part = style_range_at(context, i);
    assert(style_range_finder(context)(i) == part);
    let q = choose|q: int| 0 <= q < part.len() && part[q] == report;
    let w = if constructs(context, call) {
        constructor_report(context, call, q)
    } else {
        method_report(context, i, q)
    };
    (i, w)
}

proof fn constructor_report(context: RuleContext<'_>, call: QualifiedCall, q: int) -> (w: (
    Seq<char>,
    Seq<char>,
    int,
    Seq<char>,
    bool,
    CallArgument,
))
    requires
        constructs(context, call),
        0 <= q < constructor_styles(context, call).len(),
    ensures
        bad_style_of(context, constructor_styles(context, call)[q], call, w),
{
    let display = last_segment(call.candidates@[0]@) + "()"@;
    let names = seq!["fill_opacity"@, "stroke_opacity"@, "opacity"@, "stroke_width"@];
    let a = style_finding(
        context,
        call,
        display,
        StyleChannel::Opacity,
        names[0],
        call.spec_keyword(names[0]),
    );
    let b = style_finding(
        context,
        call,
        display,
        StyleChannel::Opacity,
        names[1],
        call.spec_keyword(names[1]),
    );
    let c = style_finding(
        context,
        call,
        display,
        StyleChannel::Opacity,
        names[2],
        call.spec_keyword(names[2]),
    );
    let d = style_finding(
        context,
        call,
        display,
        StyleChannel::StrokeWidth,
        names[3],
        call.spec_keyword(names[3]),
    );
    assert(constructor_styles(context, call) == a + b + c + d);
    let which = if q < a.len() {
        0
    } else if q < a.len() + b.len() {
        1
    } else if q < a.len() + b.len() + c.len() {
        2
    } else {
        3int
    };
    let opacity = which < 3;
    let argument = call.spec_keyword(names[which])->0;
    bad_style_is_found(context, call, display, opacity, names[which], argument);
    (Seq::empty(), Seq::empty(), 0, names[which], opacity, argument)
}

proof fn method_report(context: RuleContext<'_>, i: int, q: int) -> (w: (
    Seq<char>,
    Seq<char>,
    int,
    Seq<char>,
    bool,
    CallArgument,
))
    requires
        !constructs(context, context.qualified_calls.calls@[i]),
        0 <= q < style_range_at(context, i).len(),
    ensures
        bad_style_of(
            context,
            style_range_at(context, i)[q],
            context.qualified_calls.calls@[i],
            w,
        ),
{
    let call = context.qualified_calls.calls@[i];
    let profile = *context.knowledge->0;
    let list = texts(call.candidates@);
    let id = method_of_call(profile, list)->0;
    let method = last_segment(id);
    assert(list[0] == call.candidates@[0]@);
    assert forall|c: int| 0 <= c < call.candidates@.len() implies resolved_method(
        profile,
        (#[trigger] call.candidates@[c])@,
    ) == Some(id) by {
        assert(list[c] == call.candidates@[c]@);
    }
    assert(calls_method_named(context, call, id, method));
    style_names_differ();
    let display = "."@ + method + "()"@;
    let width = style_finding(
        context,
        call,
        display,
        StyleChannel::StrokeWidth,
        "width"@,
        slot(call, "width"@, 1),
    );
    let on_width = method == "set_stroke"@ && q < width.len();
    let position = if method == "set_opacity"@ {
        0
    } else if method == "set_fill"@ || on_width {
        1
    } else {
        2int
    };
    let keyword = if on_width {
        "width"@
    } else {
        "opacity"@
    };
    let argument = slot(call, keyword, position)->0;
    bad_style_is_found(context, call, display, !on_width, keyword, argument);
    (id, method, position, keyword, !on_width, argument)
}

/// A `set_stroke` call with two plain arguments, the second a number that is
/// not negative, has no report: its second argument is no opacity.
pub proof fn wide_strokes_are_fine(context: RuleContext<'_>, i: int, owner: Seq<char>)
    requires
        0 <= i < context.qualified_calls.calls@.len(),
        surely_calls_method(context, context.qualified_calls.calls@[i], owner, "set_stroke"@),
        context.qualified_calls.calls@[i].positional_count == 2,
        context.qualified_calls.calls@[i].arguments@.len() == 2,
        context.qualified_calls.calls@[i].arguments@[0].keyword is None,
        context.qualified_calls.calls@[i].arguments@[1].keyword is None,
        !below_zero(context.qualified_calls.calls@[i].arguments@[1]),
    ensures
        style_range_at(context, i).len() == 0,
{
    let call = context.qualified_calls.calls@[i];
    style_names_differ();
    call_of_method_is_not_construction(context, call, owner, "set_stroke"@);
    reveal_with_fuel(crate::frontend::keyword_in, 3);
    let display = "."@ + "set_stroke"@ + "()"@;
    bad_style_is_found(context, call, display, false, "width"@, call.arguments@[1]);
}

} // verus!
