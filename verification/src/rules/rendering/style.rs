//! Style-literal rules: `MLR115` (font size not positive) and `MLR126`
//! (opacity outside [0, 1] or negative stroke width).
use super::support::{
    method_of_call, resolved_method_for_call, single_knowledge_symbol, single_symbol, MARKUP_TEXT,
    MATH_TEX, SINGLE_MATH_TEX, TEX, TEXT,
};
use crate::diagnostic::{
    push_all, push_found, report_of, reports, Confidence, Diagnostic, DiagnosticView, MetadataView,
    RuleMetadata, Severity,
};
use crate::frontend::{CallArgument, QualifiedCall, ReceiverKind};
use crate::json::{double_view, json_double, json_text, Evidence, EvidenceView, JsonView};
use crate::knowledge::{KnowledgeProfile, SymbolKind};
use crate::numbers::{below, real_below, Bound, ONE};
use crate::rules::base::{basic_report, build_diagnostic, Rule, RuleContext};
use crate::rules::lifecycle::timing::{literal_number, number_of};
use crate::source::slice_in;
use crate::text::{cat2, cat3, cat5, found, gather, last_segment, same_text, short_name, texts};
use vstd::prelude::*;

verus! {

// ---------------------------------------------------------------------------
// MLR115: literal font_size <= 0.
// ---------------------------------------------------------------------------

/// What [`MLR115`] declares.
pub open spec fn mlr115() -> MetadataView {
    MetadataView {
        id: "MLR115"@,
        summary: "Literal font_size is zero or negative"@,
        default_enabled: true,
        default_severity: Severity::Error,
        minimum_confidence: Confidence::Certain,
        implementation_phase: 1,
        required_profiles: seq![],
        required_capabilities: seq!["qualified-calls"@],
        supersedes: seq![],
    }
}

/// Metadata of rule `MLR115`.
#[allow(non_snake_case)]
pub fn MLR115() -> (metadata: &'static RuleMetadata)
    ensures
        metadata@ == mlr115(),
{
    let metadata: &'static RuleMetadata = &RuleMetadata {
        id: "MLR115",
        summary: "Literal font_size is zero or negative",
        default_enabled: true,
        default_severity: Severity::Error,
        minimum_confidence: Confidence::Certain,
        implementation_phase: 1,
        required_profiles: &[],
        required_capabilities: &["qualified-calls"],
        supersedes: &[],
    };
    assert(metadata@ =~= mlr115());
    metadata
}

/// A text constructor with a literal `font_size` that is not positive.
pub struct NonPositiveFontSize;

pub const FONT_SIZE_END: &'static str = ")` is not positive; text sizing \
    requires font_size > 0";

pub const FONT_SIZE_WHY: &'static str = "Text and TeX mobjects scale their glyphs by font_size; zero or \
    negative sizes produce empty or inverted geometry and can raise \
    during layout.";

/// Constructors whose `font_size` keyword is checked.
pub open spec fn sizes_font(id: Seq<char>) -> bool {
    id == MATH_TEX@ || id == MARKUP_TEXT@ || id == SINGLE_MATH_TEX@ || id == TEX@ || id == TEXT@
}

fn is_font_size_constructor(id: &str) -> (is: bool)
    ensures
        is == sizes_font(id@),
{
    same_text(id, MATH_TEX) || same_text(id, MARKUP_TEXT) || same_text(id, SINGLE_MATH_TEX)
        || same_text(id, TEX) || same_text(id, TEXT)
}

/// The finding for the call at `i`.
pub open spec fn font_size_at(context: RuleContext<'_>, i: int) -> Option<DiagnosticView> {
    let call = context.qualified_calls.calls@[i];
    match (context.knowledge, call.spec_keyword("font_size"@)) {
        (Some(profile), Some(argument)) => match number_of(argument) {
            Some(value) => if single_symbol(*profile, call.candidates@) is Some && sizes_font(
                call.candidates@[0]@,
            ) && !value.above_zero() {
                Some(
                    basic_report(
                        mlr115(),
                        context,
                        call.file,
                        argument.range,
                        "`"@ + last_segment(call.candidates@[0]@) + "(font_size="@ + slice_in(
                            *context.sources,
                            call.file,
                            argument.range,
                        ) + FONT_SIZE_END@,
                        FONT_SIZE_WHY@,
                        EvidenceView::empty().insert(
                            "constructor"@,
                            JsonView::Text(call.candidates@[0]@),
                        ).insert("font_size"@, double_view(value.pattern())),
                    ),
                )
            } else {
                None
            },
            None => None,
        },
        _ => None,
    }
}

fn font_size(context: &RuleContext<'_>, i: usize) -> (found: Option<Diagnostic>)
    requires
        i < context.qualified_calls.calls@.len(),
    ensures
        report_of(found) == font_size_at(*context, i as int),
{
    let call = &context.qualified_calls.calls[i];
    let profile = match context.knowledge {
        Some(profile) => profile,
        None => {
            return None;
        },
    };
    if single_knowledge_symbol(profile, &call.candidates).is_none() || !is_font_size_constructor(
        call.candidates[0].as_str(),
    ) {
        return None;
    }
    let argument = match call.keyword("font_size") {
        Some(argument) => argument,
        None => {
            return None;
        },
    };
    let value = match literal_number(argument) {
        Some(value) => value,
        None => {
            return None;
        },
    };
    if value.positive() {
        return None;
    }
    let constructor: String = short_name(call.candidates[0].as_str());
    let written: String = context.sources.slice(call.file, argument.range);
    let mut evidence = Evidence::new();
    evidence.insert("constructor", json_text(call.candidates[0].as_str()));
    evidence.insert("font_size", json_double(value.bits()));
    Some(
        build_diagnostic(
            MLR115(),
            context,
            call.file,
            argument.range,
            cat5("`", constructor.as_str(), "(font_size=", written.as_str(), FONT_SIZE_END),
            FONT_SIZE_WHY,
            evidence,
        ),
    )
}

/// Findings of [`NonPositiveFontSize`], call by call.
pub open spec fn font_size_finder(context: RuleContext<'_>) -> spec_fn(int) -> Seq<DiagnosticView> {
    |i: int| found(font_size_at(context, i))
}

impl Rule for NonPositiveFontSize {
    open spec fn declared(&self) -> MetadataView {
        mlr115()
    }

    open spec fn findings(&self, context: RuleContext<'_>) -> Seq<DiagnosticView> {
        gather(context.qualified_calls.calls@.len() as int, font_size_finder(context))
    }

    fn metadata(&self) -> (metadata: &'static RuleMetadata) {
        MLR115()
    }

    fn run(&self, context: &RuleContext<'_>) -> (diagnostics: Vec<Diagnostic>) {
        let calls = &context.qualified_calls.calls;
        let mut diagnostics: Vec<Diagnostic> = Vec::new();
        let mut i: usize = 0;
        assert(reports(diagnostics@) =~= Seq::empty());
        while i < calls.len()
            invariant
                i <= calls@.len(),
                calls@ == context.qualified_calls.calls@,
                reports(diagnostics@) == gather(i as int, font_size_finder(*context)),
            decreases calls@.len() - i,
        {
            push_found(&mut diagnostics, font_size(context, i));
            i += 1;
        }
        diagnostics
    }
}

// ---------------------------------------------------------------------------
// MLR126: literal opacity outside [0, 1] / negative stroke width.
// ---------------------------------------------------------------------------

/// What [`MLR126`] declares.
pub open spec fn mlr126() -> MetadataView {
    MetadataView {
        id: "MLR126"@,
        summary: "Literal opacity outside [0, 1] or negative stroke width"@,
        default_enabled: true,
        default_severity: Severity::Error,
        minimum_confidence: Confidence::High,
        implementation_phase: 1,
        required_profiles: seq![],
        required_capabilities: seq!["qualified-calls"@],
        supersedes: seq![],
    }
}

/// Metadata of rule `MLR126`.
#[allow(non_snake_case)]
pub fn MLR126() -> (metadata: &'static RuleMetadata)
    ensures
        metadata@ == mlr126(),
{
    let metadata: &'static RuleMetadata = &RuleMetadata {
        id: "MLR126",
        summary: "Literal opacity outside [0, 1] or negative stroke width",
        default_enabled: true,
        default_severity: Severity::Error,
        minimum_confidence: Confidence::High,
        implementation_phase: 1,
        required_profiles: &[],
        required_capabilities: &["qualified-calls"],
        supersedes: &[],
    };
    assert(metadata@ =~= mlr126());
    metadata
}

/// One style channel whose literal values are checked.
#[derive(Clone, Copy, Debug, PartialEq, Eq, Structural)]
pub enum StyleChannel {
    Opacity,
    StrokeWidth,
}

impl StyleChannel {
    pub open spec fn forbids(self, value: Bound<'_>) -> bool {
        match self {
            StyleChannel::Opacity => real_below(value.pattern(), 0) || real_below(
                ONE,
                value.pattern(),
            ),
            StyleChannel::StrokeWidth => real_below(value.pattern(), 0),
        }
    }

    /// Whether the channel cannot hold the value.
    pub fn violates(self, value: &Bound<'_>) -> (forbidden: bool)
        ensures
            forbidden == self.forbids(*value),
    {
        match self {
            StyleChannel::Opacity => below(value.bits(), 0) || below(ONE, value.bits()),
            StyleChannel::StrokeWidth => below(value.bits(), 0),
        }
    }

    pub open spec fn spec_requirement(self) -> Seq<char> {
        match self {
            StyleChannel::Opacity => "opacities are alpha values in [0.0, 1.0]"@,
            StyleChannel::StrokeWidth => "stroke widths must be >= 0"@,
        }
    }

    /// What the channel requires of a value.
    pub fn requirement(self) -> (text: &'static str)
        ensures
            text@ == self.spec_requirement(),
    {
        match self {
            StyleChannel::Opacity => "opacities are alpha values in [0.0, 1.0]",
            StyleChannel::StrokeWidth => "stroke widths must be >= 0",
        }
    }
}

/// A style literal outside its range.
pub struct OpacityStrokeRange;

pub const STYLE_WHY: &'static str = "Opacity is an alpha channel: values outside [0, 1] are not \
    meaningful and render as clamped or corrupted colors. A \
    negative stroke width is never a valid pen size.";

/// The finding for one style argument.
pub open spec fn style_finding(
    context: RuleContext<'_>,
    call: QualifiedCall,
    display: Seq<char>,
    channel: StyleChannel,
    keyword: Seq<char>,
    argument: Option<CallArgument>,
) -> Seq<DiagnosticView> {
    match argument {
        Some(argument) => match number_of(argument) {
            Some(value) => if channel.forbids(value) {
                seq![
                    basic_report(
                        mlr126(),
                        context,
                        call.file,
                        argument.range,
                        "`"@ + display + "` "@ + keyword + "="@ + slice_in(
                            *context.sources,
                            call.file,
                            argument.range,
                        ) + " is invalid: "@ + channel.spec_requirement(),
                        STYLE_WHY@,
                        EvidenceView::empty().insert("call"@, JsonView::Text(display)).insert(
                            "keyword"@,
                            JsonView::Text(keyword),
                        ).insert("value"@, double_view(value.pattern())),
                    ),
                ]
            } else {
                Seq::empty()
            },
            None => Seq::empty(),
        },
        None => Seq::empty(),
    }
}

fn check_style(
    context: &RuleContext<'_>,
    call: &QualifiedCall,
    display: &str,
    channel: StyleChannel,
    keyword: &str,
    argument: Option<&CallArgument>,
) -> (found: Option<Diagnostic>)
    ensures
        crate::text::found(report_of(found)) == style_finding(
            *context,
            *call,
            display@,
            channel,
            keyword@,
            match argument {
                Some(argument) => Some(*argument),
                None => None,
            },
        ),
{
    let argument = match argument {
        Some(argument) => argument,
        None => {
            return None;
        },
    };
    let value = match literal_number(argument) {
        Some(value) => value,
        None => {
            return None;
        },
    };
    if !channel.violates(&value) {
        return None;
    }
    let written: String = context.sources.slice(call.file, argument.range);
    let mut evidence = Evidence::new();
    evidence.insert("call", json_text(display));
    evidence.insert("keyword", json_text(keyword));
    evidence.insert("value", json_double(value.bits()));
    let head: String = crate::text::cat7(
        "`",
        display,
        "` ",
        keyword,
        "=",
        written.as_str(),
        " is invalid: ",
    );
    Some(
        build_diagnostic(
            MLR126(),
            context,
            call.file,
            argument.range,
            cat2(head.as_str(), channel.requirement()),
            STYLE_WHY,
            evidence,
        ),
    )
}

/// Whether a call constructs a curated mobject.
pub open spec fn constructs_mobject(profile: KnowledgeProfile, call: QualifiedCall) -> bool {
    match single_symbol(profile, call.candidates@) {
        Some(entry) => entry.kind == SymbolKind::Mobject || entry.kind == SymbolKind::Vmobject,
        None => false,
    }
}

fn is_constructor(profile: &KnowledgeProfile, call: &QualifiedCall) -> (is: bool)
    ensures
        is == constructs_mobject(*profile, *call),
        is ==> call.candidates@.len() == 1,
{
    match single_knowledge_symbol(profile, &call.candidates) {
        Some(entry) => entry.kind == SymbolKind::Mobject || entry.kind == SymbolKind::Vmobject,
        None => false,
    }
}

/// The findings for the style keywords of a constructor.
pub open spec fn constructor_styles(context: RuleContext<'_>, call: QualifiedCall) -> Seq<
    DiagnosticView,
> {
    let display = last_segment(call.candidates@[0]@) + "()"@;
    style_finding(
        context,
        call,
        display,
        StyleChannel::Opacity,
        "fill_opacity"@,
        call.spec_keyword("fill_opacity"@),
    ) + style_finding(
        context,
        call,
        display,
        StyleChannel::Opacity,
        "stroke_opacity"@,
        call.spec_keyword("stroke_opacity"@),
    ) + style_finding(
        context,
        call,
        display,
        StyleChannel::Opacity,
        "opacity"@,
        call.spec_keyword("opacity"@),
    ) + style_finding(
        context,
        call,
        display,
        StyleChannel::StrokeWidth,
        "stroke_width"@,
        call.spec_keyword("stroke_width"@),
    )
}

/// The argument of a style method: by keyword, or at its position when no
/// splat can shift it.
pub open spec fn slot(call: QualifiedCall, keyword: Seq<char>, position: int) -> Option<
    CallArgument,
> {
    match call.spec_keyword(keyword) {
        Some(argument) => Some(argument),
        None => if call.has_star_args {
            None
        } else {
            match call.spec_positional(position) {
                Some(argument) => if argument.keyword is None {
                    Some(argument)
                } else {
                    None
                },
                None => None,
            }
        },
    }
}

fn find_slot<'c>(call: &'c QualifiedCall, keyword: &str, position: usize) -> (argument: Option<
    &'c CallArgument,
>)
    ensures
        match argument {
            Some(found) => slot(*call, keyword@, position as int) == Some(*found),
            None => slot(*call, keyword@, position as int) is None,
        },
{
    if let Some(argument) = call.keyword(keyword) {
        return Some(argument);
    }
    if call.has_star_args {
        return None;
    }
    match call.positional(position) {
        Some(argument) => if argument.keyword.is_none() {
            Some(argument)
        } else {
            None
        },
        None => None,
    }
}

/// The findings for the arguments of a style method.
pub open spec fn method_styles(
    context: RuleContext<'_>,
    call: QualifiedCall,
    method: Seq<char>,
) -> Seq<DiagnosticView> {
    let display = "."@ + method + "()"@;
    if method == "set_opacity"@ {
        style_finding(
            context,
            call,
            display,
            StyleChannel::Opacity,
            "opacity"@,
            slot(call, "opacity"@, 0),
        )
    } else if method == "set_fill"@ {
        style_finding(
            context,
            call,
            display,
            StyleChannel::Opacity,
            "opacity"@,
            slot(call, "opacity"@, 1),
        )
    } else if method == "set_stroke"@ {
        style_finding(
            context,
            call,
            display,
            StyleChannel::StrokeWidth,
            "width"@,
            slot(call, "width"@, 1),
        ) + style_finding(
            context,
            call,
            display,
            StyleChannel::Opacity,
            "opacity"@,
            slot(call, "opacity"@, 2),
        )
    } else {
        Seq::empty()
    }
}

/// The findings for the call at `i`.
pub open spec fn style_range_at(context: RuleContext<'_>, i: int) -> Seq<DiagnosticView> {
    let call = context.qualified_calls.calls@[i];
    match context.knowledge {
        Some(profile) => if constructs_mobject(*profile, call) {
            constructor_styles(context, call)
        } else if call.receiver is KnownInstance {
            match method_of_call(*profile, texts(call.candidates@)) {
                Some(canonical) => method_styles(context, call, last_segment(canonical)),
                None => Seq::empty(),
            }
        } else {
            Seq::empty()
        },
        None => Seq::empty(),
    }
}

fn style_range(context: &RuleContext<'_>, i: usize) -> (diagnostics: Vec<Diagnostic>)
    requires
        i < context.qualified_calls.calls@.len(),
    ensures
        reports(diagnostics@) == style_range_at(*context, i as int),
{
    let call = &context.qualified_calls.calls[i];
    let mut diagnostics: Vec<Diagnostic> = Vec::new();
    let ghost none = reports(diagnostics@);
    assert(none =~= Seq::empty());
    let profile = match context.knowledge {
        Some(profile) => profile,
        None => {
            return diagnostics;
        },
    };
    if is_constructor(profile, call) {
        let display: String = cat2(short_name(call.candidates[0].as_str()).as_str(), "()");
        let name: &str = display.as_str();
        let opacity = StyleChannel::Opacity;
        push_found(
            &mut diagnostics,
            check_style(
                context,
                call,
                name,
                opacity,
                "fill_opacity",
                call.keyword("fill_opacity"),
            ),
        );
        assert(reports(diagnostics@) =~= style_finding(
            *context,
            *call,
            display@,
            StyleChannel::Opacity,
            "fill_opacity"@,
            call.spec_keyword("fill_opacity"@),
        ));
        push_found(
            &mut diagnostics,
            check_style(
                context,
                call,
                name,
                opacity,
                "stroke_opacity",
                call.keyword("stroke_opacity"),
            ),
        );
        push_found(
            &mut diagnostics,
            check_style(context, call, name, opacity, "opacity", call.keyword("opacity")),
        );
        push_found(
            &mut diagnostics,
            check_style(
                context,
                call,
                name,
                StyleChannel::StrokeWidth,
                "stroke_width",
                call.keyword("stroke_width"),
            ),
        );
        return diagnostics;
    }
    let instance: bool = match &call.receiver {
        ReceiverKind::KnownInstance(_) => true,
        _ => false,
    };
    if !instance {
        return diagnostics;
    }
    let canonical: String = match resolved_method_for_call(profile, call) {
        Some(canonical) => canonical,
        None => {
            return diagnostics;
        },
    };
    let method: String = short_name(canonical.as_str());
    let display: String = cat3(".", method.as_str(), "()");
    if same_text(method.as_str(), "set_opacity") {
        push_found(
            &mut diagnostics,
            check_style(
                context,
                call,
                display.as_str(),
                StyleChannel::Opacity,
                "opacity",
                find_slot(call, "opacity", 0),
            ),
        );
        assert(reports(diagnostics@) =~= method_styles(*context, *call, method@));
    } else if same_text(method.as_str(), "set_fill") {
        push_found(
            &mut diagnostics,
            check_style(
                context,
                call,
                display.as_str(),
                StyleChannel::Opacity,
                "opacity",
                find_slot(call, "opacity", 1),
            ),
        );
        assert(reports(diagnostics@) =~= method_styles(*context, *call, method@));
    } else if same_text(method.as_str(), "set_stroke") {
        push_found(
            &mut diagnostics,
            check_style(
                context,
                call,
                display.as_str(),
                StyleChannel::StrokeWidth,
                "width",
                find_slot(call, "width", 1),
            ),
        );
        push_found(
            &mut diagnostics,
            check_style(
                context,
                call,
                display.as_str(),
                StyleChannel::Opacity,
                "opacity",
                find_slot(call, "opacity", 2),
            ),
        );
        assert(reports(diagnostics@) =~= method_styles(*context, *call, method@));
    }
    diagnostics
}

/// Findings of [`OpacityStrokeRange`], call by call.
pub open spec fn style_range_finder(context: RuleContext<'_>) -> spec_fn(int) -> Seq<DiagnosticView> {
    |i: int| style_range_at(context, i)
}

impl Rule for OpacityStrokeRange {
    open spec fn declared(&self) -> MetadataView {
        mlr126()
    }

    open spec fn findings(&self, context: RuleContext<'_>) -> Seq<DiagnosticView> {
        gather(context.qualified_calls.calls@.len() as int, style_range_finder(context))
    }

    fn metadata(&self) -> (metadata: &'static RuleMetadata) {
        MLR126()
    }

    fn run(&self, context: &RuleContext<'_>) -> (diagnostics: Vec<Diagnostic>) {
        let calls = &context.qualified_calls.calls;
        let mut diagnostics: Vec<Diagnostic> = Vec::new();
        let mut i: usize = 0;
        assert(reports(diagnostics@) =~= Seq::empty());
        while i < calls.len()
            invariant
                i <= calls@.len(),
                calls@ == context.qualified_calls.calls@,
                reports(diagnostics@) == gather(i as int, style_range_finder(*context)),
            decreases calls@.len() - i,
        {
            push_all(&mut diagnostics, style_range(context, i));
            i += 1;
        }
        diagnostics
    }
}

} // verus!
