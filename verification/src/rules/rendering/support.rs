//! Fact and source helpers shared by the rendering and portability rules.
use crate::diagnostic::{Diagnostic, DiagnosticView, Fix, FixView, RuleMetadata};
use crate::frontend::{ProjectIndex, QualifiedCall};
use crate::json::Evidence;
use crate::knowledge::{
    resolve_method_symbol, resolved_method, KnowledgeProfile, SymbolEntry, SymbolKind,
};
use crate::rules::base::{basic_report, build_diagnostic, profiled_report, RuleContext};
use crate::source::{tokens_in, FileId, TextRange, TokenFact};
use crate::text::{same_text, texts};
use vstd::prelude::*;

verus! {

/// Canonical ids of the text and TeX classes.
pub const MATH_TEX: &'static str = "manim.mobject.text.tex_mobject.MathTex";

pub const TEX: &'static str = "manim.mobject.text.tex_mobject.Tex";

pub const SINGLE_MATH_TEX: &'static str = "manim.mobject.text.tex_mobject.SingleStringMathTex";

pub const TEXT: &'static str = "manim.mobject.text.text_mobject.Text";

pub const MARKUP_TEXT: &'static str = "manim.mobject.text.text_mobject.MarkupText";

/// Canonical ids of the classes that load a file.
pub const SVG_MOBJECT: &'static str = "manim.mobject.svg.svg_mobject.SVGMobject";

pub const IMAGE_MOBJECT: &'static str = "manim.mobject.types.image_mobject.ImageMobject";

/// Canonical id of the font registration context manager.
pub const REGISTER_FONT: &'static str = "manim.mobject.text.text_mobject.register_font";

/// The one curated symbol that a candidate list names.
pub open spec fn single_symbol(profile: KnowledgeProfile, candidates: Seq<String>) -> Option<
    SymbolEntry,
> {
    if candidates.len() == 1 {
        profile.spec_symbol(candidates[0]@)
    } else {
        None
    }
}

/// The single knowledge entry every candidate of the set resolves to.
///
/// `None` when the set is empty, ambiguous, or contains an id the profile
/// does not curate; resolution never guesses.
pub fn single_knowledge_symbol<'p>(
    profile: &'p KnowledgeProfile,
    candidates: &Vec<String>,
) -> (entry: Option<&'p SymbolEntry>)
    ensures
        match entry {
            Some(found) => single_symbol(*profile, candidates@) == Some(*found),
            None => single_symbol(*profile, candidates@) is None,
        },
{
    if candidates.len() == 1 {
        profile.symbol(candidates[0].as_str())
    } else {
        None
    }
}

/// The curated method that all candidates of a call stand for.
pub open spec fn method_of_call(profile: KnowledgeProfile, candidates: Seq<Seq<char>>) -> Option<
    Seq<char>,
> {
    if candidates.len() == 0 {
        None
    } else {
        match resolved_method(profile, candidates[0]) {
            Some(id) => if forall|i: int|
                0 <= i < candidates.len() ==> resolved_method(profile, #[trigger] candidates[i])
                    == Some(id) {
                Some(id)
            } else {
                None
            },
            None => None,
        }
    }
}

/// Resolves a whole call's candidate set to one canonical curated method.
///
/// Every candidate must resolve to the same canonical id; anything else
/// (empty set, unresolved candidate, ambiguity) yields `None`.
pub fn resolved_method_for_call(profile: &KnowledgeProfile, call: &QualifiedCall) -> (id: Option<
    String,
>)
    ensures
        match id {
            Some(found) => method_of_call(*profile, texts(call.candidates@)) == Some(found@),
            None => method_of_call(*profile, texts(call.candidates@)) is None,
        },
{
    let candidates = &call.candidates;
    let ghost list = texts(candidates@);
    if candidates.len() == 0 {
        return None;
    }
    assert(list[0] == candidates@[0]@);
    let id: String = match resolve_method_symbol(profile, candidates[0].as_str()) {
        Some((id, _)) => id,
        None => {
            return None;
        },
    };
    let mut i: usize = 1;
    while i < candidates.len()
        invariant
            1 <= i <= candidates@.len(),
            list == texts(candidates@),
            candidates@ == call.candidates@,
            resolved_method(*profile, list[0]) == Some(id@),
            forall|j: int|
                0 <= j < i ==> resolved_method(*profile, #[trigger] list[j]) == Some(id@),
        decreases candidates@.len() - i,
    {
        assert(list[i as int] == candidates@[i as int]@);
        match resolve_method_symbol(profile, candidates[i].as_str()) {
            Some((other, _)) => {
                if !same_text(other.as_str(), id.as_str()) {
                    return None;
                }
            },
            None => {
                return None;
            },
        }
        i += 1;
    }
    Some(id)
}

/// Vectorization classification of a class id.
#[derive(Clone, Copy, Debug, PartialEq, Eq, Structural)]
pub enum VmClass {
    /// A `VMobject` (vectorized) class.
    Vectorized,
    /// A confirmed plain (non-vectorized) `Mobject` class.
    Plain,
    /// Not enough facts to classify.
    Unknown,
}

/// Classification of a class id. A project class is vectorized when one of
/// its bases is, and plain when some base is plain, none is unknown, and all
/// are resolved. `depth` bounds how many project classes are followed.
pub open spec fn vm_class(
    profile: KnowledgeProfile,
    index: ProjectIndex,
    id: Seq<char>,
    depth: nat,
) -> VmClass
    decreases depth,
{
    match profile.spec_symbol(id) {
        Some(entry) => match entry.kind {
            SymbolKind::Vmobject => VmClass::Vectorized,
            SymbolKind::Mobject => VmClass::Plain,
            _ => VmClass::Unknown,
        },
        None => match index.spec_class(id) {
            Some(class) => if depth == 0 {
                VmClass::Unknown
            } else if exists|b: int|
                0 <= b < class.reached_bases@.len() && vm_class(
                    profile,
                    index,
                    (#[trigger] class.reached_bases@[b])@,
                    (depth - 1) as nat,
                ) == VmClass::Vectorized {
                VmClass::Vectorized
            } else if class.bases_fully_resolved && class.reached_bases@.len() > 0 && forall|
                b: int,
            |
                0 <= b < class.reached_bases@.len() ==> vm_class(
                    profile,
                    index,
                    (#[trigger] class.reached_bases@[b])@,
                    (depth - 1) as nat,
                ) == VmClass::Plain {
                VmClass::Plain
            } else {
                VmClass::Unknown
            },
            None => VmClass::Unknown,
        },
    }
}

/// Classifies a class id via the knowledge profile, falling back to the
/// project class hierarchy (whose `reached_bases` are canonical ids).
///
/// `Plain` is only returned when the whole base chain is resolved and every
/// reached base is a curated non-vectorized kind; a single unknown base
/// keeps the verdict `Unknown`.
fn classify_class(
    profile: &KnowledgeProfile,
    index: &ProjectIndex,
    id: &str,
    depth: usize,
) -> (class: VmClass)
    ensures
        class == vm_class(*profile, *index, id@, depth as nat),
    decreases depth,
{
    if let Some(entry) = profile.symbol(id) {
        return match entry.kind {
            SymbolKind::Vmobject => VmClass::Vectorized,
            SymbolKind::Mobject => VmClass::Plain,
            _ => VmClass::Unknown,
        };
    }
    let class = match index.class(id) {
        Some(class) => class,
        None => {
            return VmClass::Unknown;
        },
    };
    if depth == 0 {
        return VmClass::Unknown;
    }
    let ghost below = (depth - 1) as nat;
    let mut plain: bool = true;
    let mut b: usize = 0;
    while b < class.reached_bases.len()
        invariant
            b <= class.reached_bases@.len(),
            depth > 0,
            below == depth - 1,
            forall|c: int|
                0 <= c < b ==> vm_class(
                    *profile,
                    *index,
                    (#[trigger] class.reached_bases@[c])@,
                    below,
                ) != VmClass::Vectorized,
            plain == forall|c: int|
                0 <= c < b ==> vm_class(
                    *profile,
                    *index,
                    (#[trigger] class.reached_bases@[c])@,
                    below,
                ) == VmClass::Plain,
            index.spec_class(id@) == Some(*class),
            profile.spec_symbol(id@) is None,
        decreases class.reached_bases@.len() - b,
    {
        match classify_class(profile, index, class.reached_bases[b].as_str(), depth - 1) {
            VmClass::Vectorized => {
                assert(vm_class(*profile, *index, class.reached_bases@[b as int]@, below)
                    == VmClass::Vectorized);
                return VmClass::Vectorized;
            },
            VmClass::Plain => {},
            VmClass::Unknown => {
                assert(vm_class(*profile, *index, class.reached_bases@[b as int]@, below)
                    != VmClass::Plain);
                plain = false;
            },
        }
        b += 1;
    }
    if plain && class.reached_bases.len() > 0 && class.bases_fully_resolved {
        VmClass::Plain
    } else {
        VmClass::Unknown
    }
}

/// Levels of project classes that a classification follows: as many as there
/// are classes, which no chain of distinct classes exceeds.
pub open spec fn class_depth(index: ProjectIndex) -> nat {
    index.classes@.len()
}

/// Whether every candidate is a plain (non-vectorized) class.
pub open spec fn all_plain(
    profile: KnowledgeProfile,
    index: ProjectIndex,
    candidates: Seq<String>,
) -> bool {
    candidates.len() > 0 && forall|i: int|
        0 <= i < candidates.len() ==> vm_class(
            profile,
            index,
            (#[trigger] candidates[i])@,
            class_depth(index),
        ) == VmClass::Plain
}

/// Whether a whole candidate set is confirmed plain.
pub fn candidates_plain(
    profile: &KnowledgeProfile,
    index: &ProjectIndex,
    candidates: &Vec<String>,
) -> (plain: bool)
    ensures
        plain == all_plain(*profile, *index, candidates@),
{
    if candidates.len() == 0 {
        return false;
    }
    let depth: usize = index.classes.len();
    let mut i: usize = 0;
    while i < candidates.len()
        invariant
            i <= candidates@.len(),
            depth == class_depth(*index),
            forall|j: int|
                0 <= j < i ==> vm_class(
                    *profile,
                    *index,
                    (#[trigger] candidates@[j])@,
                    class_depth(*index),
                ) == VmClass::Plain,
        decreases candidates@.len() - i,
    {
        if classify_class(profile, index, candidates[i].as_str(), depth) != VmClass::Plain {
            return false;
        }
        i += 1;
    }
    true
}

/// String tokens, from token `i` on, that start inside `range`. The first
/// token behind the range ends the count.
pub open spec fn string_tokens_from(tokens: Seq<TokenFact>, range: TextRange, i: int) -> int
    decreases tokens.len() - i,
{
    if i < 0 || i >= tokens.len() {
        0
    } else if tokens[i].range.start < range.start {
        string_tokens_from(tokens, range, i + 1)
    } else if tokens[i].range.start >= range.end {
        0
    } else if tokens[i].string {
        1 + string_tokens_from(tokens, range, i + 1)
    } else {
        string_tokens_from(tokens, range, i + 1)
    }
}

/// Whether a range holds exactly one string token.
pub open spec fn one_string_token(
    context: RuleContext<'_>,
    file: FileId,
    range: TextRange,
) -> bool {
    string_tokens_from(tokens_in(*context.sources, file), range, 0) == 1
}

/// Whether `range` covers exactly one string token (no implicit
/// concatenation), so a textual edit maps 1:1 onto the literal.
pub fn is_single_string_token(context: &RuleContext<'_>, file: FileId, range: TextRange) -> (single:
    bool)
    ensures
        single == one_string_token(*context, file, range),
{
    let source = match context.sources.file(file) {
        Some(source) => source,
        None => {
            return false;
        },
    };
    let tokens = &source.tokens;
    let mut count: usize = 0;
    let mut i: usize = 0;
    while i < tokens.len()
        invariant_except_break
            i <= tokens@.len(),
            count <= i,
            string_tokens_from(tokens@, range, 0) == count + string_tokens_from(
                tokens@,
                range,
                i as int,
            ),
        ensures
            string_tokens_from(tokens@, range, 0) == count,
        decreases tokens@.len() - i,
    {
        let token: TokenFact = tokens[i];
        if token.range.start >= range.start {
            if token.range.start >= range.end {
                break;
            }
            if token.string {
                count += 1;
            }
        }
        i += 1;
    }
    count == 1
}

/// Builds a diagnostic for some profiles, with an optional fix.
pub fn build_for_profiles(
    metadata: &'static RuleMetadata,
    context: &RuleContext<'_>,
    file: FileId,
    range: TextRange,
    message: String,
    explanation: &str,
    evidence: Evidence,
    profiles: Vec<String>,
    fix: Option<Fix>,
) -> (diagnostic: Diagnostic)
    ensures
        diagnostic@ == profiled_report(
            basic_report(
                metadata@,
                *context,
                file,
                range,
                message@,
                explanation@,
                evidence@,
            ),
            texts(profiles@),
            fix_view(fix),
        ),
{
    let mut diagnostic = build_diagnostic(
        metadata,
        context,
        file,
        range,
        message,
        explanation,
        evidence,
    );
    diagnostic.applicable_profiles = profiles;
    diagnostic.fix = fix;
    diagnostic
}

/// What an optional fix says.
pub open spec fn fix_view(fix: Option<Fix>) -> Option<FixView> {
    match fix {
        Some(found) => Some(found@),
        None => None,
    }
}

/// The report of [`build_diagnostic`] with an optional fix.
pub open spec fn fixed_report(report: DiagnosticView, fix: Option<FixView>) -> DiagnosticView {
    DiagnosticView { fix, ..report }
}

} // verus!
