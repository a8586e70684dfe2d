//! `MLD302`: unseeded global random state read inside a frame callback.
//!
//! Literal-seeded local generators are not flagged: instance method calls
//! never match the module-level patterns here. A module-level seed call
//! anywhere in the file silences the corresponding family. Name resolution
//! goes through the file's imports only.
use super::support::{
    external_call_targets, external_targets, find_sole_target, resolve_chain, resolved_chain,
    sole_target,
};
use crate::diagnostic::{
    push_found, report_of, reports, Confidence, Diagnostic, DiagnosticView, MetadataView,
    RuleMetadata, Severity,
};
use crate::frontend::{FileBindingFacts, QualifiedCall};
use crate::json::{json_text, json_texts, text_list, Evidence, EvidenceView, JsonView};
use crate::rules::base::{basic_report, build_diagnostic, Rule, RuleContext};
use crate::source::FileId;
use crate::text::{
    cat3, found, gather, has_char, has_word, occurs_at, same_text, starts_with, texts, words,
};
use vstd::prelude::*;

verus! {

/// What [`MLD302`] declares.
pub open spec fn mld302() -> MetadataView {
    MetadataView {
        id: "MLD302"@,
        summary: "Unseeded global random state read inside a frame callback"@,
        default_enabled: true,
        default_severity: Severity::Warning,
        minimum_confidence: Confidence::Medium,
        implementation_phase: 4,
        required_profiles: seq![],
        required_capabilities: seq!["qualified-calls"@, "cost-facts"@],
        supersedes: seq![],
    }
}

/// Metadata of rule `MLD302`.
#[allow(non_snake_case)]
pub fn MLD302() -> (metadata: &'static RuleMetadata)
    ensures
        metadata@ == mld302(),
{
    let metadata: &'static RuleMetadata = &RuleMetadata {
        id: "MLD302",
        summary: "Unseeded global random state read inside a frame callback",
        default_enabled: true,
        default_severity: Severity::Warning,
        minimum_confidence: Confidence::Medium,
        implementation_phase: 4,
        required_profiles: &[],
        required_capabilities: &["qualified-calls", "cost-facts"],
        supersedes: &[],
    };
    assert(metadata@ =~= mld302());
    metadata
}

/// A module-level random function called once per frame without a seed.
pub struct UnseededGlobalRandom;

pub const RANDOM_END: &'static str = "` reads the unseeded global random state inside a per-frame \
    callback; every render likely produces different frames";

pub const RANDOM_WHY: &'static str = "This call runs on the frame grid and draws from the process-global \
    random state, so the rendered output changes between runs and frame \
    caching cannot be reproduced. Seed the global state once at module \
    level, or use a locally seeded generator (random.Random(seed), \
    numpy.random.default_rng(seed)) — seeded local generators are not \
    flagged by this rule.";

/// Module-level functions of the standard library's `random` that read the
/// global state.
pub open spec fn state_reader(function: Seq<char>) -> bool {
    seq![
        "betavariate"@,
        "choice"@,
        "choices"@,
        "expovariate"@,
        "gammavariate"@,
        "gauss"@,
        "getrandbits"@,
        "lognormvariate"@,
        "normalvariate"@,
        "paretovariate"@,
        "randbytes"@,
        "randint"@,
        "random"@,
        "randrange"@,
        "sample"@,
        "shuffle"@,
        "triangular"@,
        "uniform"@,
        "vonmisesvariate"@,
        "weibullvariate"@,
    ].contains(function)
}

fn is_state_reader(function: &str) -> (is: bool)
    ensures
        is == state_reader(function@),
{
    let list: [&'static str; 20] = [
        "betavariate",
        "choice",
        "choices",
        "expovariate",
        "gammavariate",
        "gauss",
        "getrandbits",
        "lognormvariate",
        "normalvariate",
        "paretovariate",
        "randbytes",
        "randint",
        "random",
        "randrange",
        "sample",
        "shuffle",
        "triangular",
        "uniform",
        "vonmisesvariate",
        "weibullvariate",
    ];
    assert(words(list@) =~= seq![
        "betavariate"@,
        "choice"@,
        "choices"@,
        "expovariate"@,
        "gammavariate"@,
        "gauss"@,
        "getrandbits"@,
        "lognormvariate"@,
        "normalvariate"@,
        "paretovariate"@,
        "randbytes"@,
        "randint"@,
        "random"@,
        "randrange"@,
        "sample"@,
        "shuffle"@,
        "triangular"@,
        "uniform"@,
        "vonmisesvariate"@,
        "weibullvariate"@,
    ]);
    has_word(&list, function)
}

/// Attributes of `numpy.random` that read no global state: seeding,
/// generator construction, state plumbing.
pub open spec fn numpy_non_reader(function: Seq<char>) -> bool {
    seq![
        "BitGenerator"@,
        "Generator"@,
        "MT19937"@,
        "PCG64"@,
        "Philox"@,
        "RandomState"@,
        "SFC64"@,
        "SeedSequence"@,
        "default_rng"@,
        "seed"@,
    ].contains(function)
}

fn is_numpy_non_reader(function: &str) -> (is: bool)
    ensures
        is == numpy_non_reader(function@),
{
    let list: [&'static str; 10] = [
        "BitGenerator",
        "Generator",
        "MT19937",
        "PCG64",
        "Philox",
        "RandomState",
        "SFC64",
        "SeedSequence",
        "default_rng",
        "seed",
    ];
    assert(words(list@) =~= seq![
        "BitGenerator"@,
        "Generator"@,
        "MT19937"@,
        "PCG64"@,
        "Philox"@,
        "RandomState"@,
        "SFC64"@,
        "SeedSequence"@,
        "default_rng"@,
        "seed"@,
    ]);
    has_word(&list, function)
}

/// What follows a prefix.
pub open spec fn after_prefix(text: Seq<char>, prefix: Seq<char>) -> Option<Seq<char>> {
    if occurs_at(text, prefix, 0) {
        Some(text.skip(prefix.len() as int))
    } else {
        None
    }
}

pub fn strip_prefix(text: &str, prefix: &str) -> (rest: Option<String>)
    ensures
        match rest {
            Some(found) => after_prefix(text@, prefix@) == Some(found@),
            None => after_prefix(text@, prefix@) is None,
        },
{
    if !starts_with(text, prefix) {
        return None;
    }
    let len: usize = text.unicode_len();
    let width: usize = prefix.unicode_len();
    assert(text@.skip(width as int) =~= text@.subrange(width as int, len as int));
    Some(text.substring_char(width, len).to_owned())
}

/// Whether a target reads the global random state, given which families the
/// file seeds.
pub open spec fn reads_global(target: Seq<char>, stdlib_seeded: bool, numpy_seeded: bool) -> bool {
    match after_prefix(target, "random."@) {
        Some(function) => !function.contains('.') && state_reader(function) && !stdlib_seeded,
        None => match after_prefix(target, "numpy.random."@) {
            Some(function) => !function.contains('.') && !numpy_non_reader(function)
                && !numpy_seeded,
            None => false,
        },
    }
}

/// Classifies a canonical dotted call target as a global random-state read,
/// honoring the per-file seeds.
fn classify_global_random(target: &str, stdlib_seeded: bool, numpy_seeded: bool) -> (reads: bool)
    ensures
        reads == reads_global(target@, stdlib_seeded, numpy_seeded),
{
    if let Some(function) = strip_prefix(target, "random.") {
        return !has_char(function.as_str(), '.') && is_state_reader(function.as_str())
            && !stdlib_seeded;
    }
    match strip_prefix(target, "numpy.random.") {
        Some(function) => !has_char(function.as_str(), '.') && !is_numpy_non_reader(
            function.as_str(),
        ) && !numpy_seeded,
        None => false,
    }
}

/// Whether a call of the file seeds the state through `function`.
pub open spec fn seeds(
    call: QualifiedCall,
    file: FileId,
    bindings: FileBindingFacts,
    function: Seq<char>,
) -> bool {
    call.file == file && call.arguments@.len() > 0 && resolved_chain(call.callee_dotted, bindings)
        == Some(function)
}

/// Whether some call of the file seeds the state through `function`.
pub open spec fn seeded(
    calls: Seq<QualifiedCall>,
    file: FileId,
    bindings: FileBindingFacts,
    function: Seq<char>,
) -> bool {
    exists|i: int| 0 <= i < calls.len() && seeds(#[trigger] calls[i], file, bindings, function)
}

fn is_seeded(
    calls: &Vec<QualifiedCall>,
    file: FileId,
    bindings: &FileBindingFacts,
    function: &str,
) -> (found: bool)
    ensures
        found == seeded(calls@, file, *bindings, function@),
{
    let mut i: usize = 0;
    while i < calls.len()
        invariant
            i <= calls@.len(),
            forall|j: int| 0 <= j < i ==> !seeds(#[trigger] calls@[j], file, *bindings, function@),
        decreases calls@.len() - i,
    {
        let call = &calls[i];
        if call.file == file && call.arguments.len() > 0 {
            if let Some(target) = resolve_chain(&call.callee_dotted, bindings) {
                if same_text(target.as_str(), function) {
                    assert(seeds(calls@[i as int], file, *bindings, function@));
                    return true;
                }
            }
        }
        i += 1;
    }
    false
}

/// The finding for the call at `i`.
pub open spec fn random_at(context: RuleContext<'_>, i: int) -> Option<DiagnosticView> {
    let calls = context.qualified_calls.calls@;
    let call = calls[i];
    match (
        context.cost_facts.spec_first_hot(i),
        context.qualified_calls.bindings.spec_file(call.file),
    ) {
        (Some(hot), Some(bindings)) => match sole_target(
            external_targets(context.project_index, call, bindings),
        ) {
            Some(target) => if reads_global(
                target,
                seeded(calls, call.file, bindings, "random.seed"@),
                seeded(calls, call.file, bindings, "numpy.random.seed"@),
            ) {
                Some(
                    basic_report(
                        mld302(),
                        context,
                        call.file,
                        call.call_range,
                        "`"@ + target + RANDOM_END@,
                        RANDOM_WHY@,
                        EvidenceView::empty().insert("function"@, JsonView::Text(target)).insert(
                            "entry"@,
                            JsonView::Text(hot.entry.spec_label()),
                        ).insert("state_path"@, text_list(texts(hot.state_path@))),
                    ),
                )
            } else {
                None
            },
            None => None,
        },
        _ => None,
    }
}

fn random(context: &RuleContext<'_>, i: usize) -> (found: Option<Diagnostic>)
    requires
        i < context.qualified_calls.calls@.len(),
    ensures
        report_of(found) == random_at(*context, i as int),
{
    let calls = &context.qualified_calls.calls;
    let call = &calls[i];
    let hot = match context.cost_facts.is_call_in_hot_context(i) {
        Some(hot) => hot,
        None => {
            return None;
        },
    };
    let bindings = match context.qualified_calls.bindings.file(call.file) {
        Some(bindings) => bindings,
        None => {
            return None;
        },
    };
    // Every resolution of the callee must be the same read.
    let target: String = match find_sole_target(
        external_call_targets(&context.project_index, call, bindings),
    ) {
        Some(target) => target,
        None => {
            return None;
        },
    };
    if !classify_global_random(
        target.as_str(),
        is_seeded(calls, call.file, bindings, "random.seed"),
        is_seeded(calls, call.file, bindings, "numpy.random.seed"),
    ) {
        return None;
    }
    let mut evidence = Evidence::new();
    evidence.insert("function", json_text(target.as_str()));
    evidence.insert("entry", json_text(hot.entry.label()));
    evidence.insert("state_path", json_texts(&hot.state_path));
    Some(
        build_diagnostic(
            MLD302(),
            context,
            call.file,
            call.call_range,
            cat3("`", target.as_str(), RANDOM_END),
            RANDOM_WHY,
            evidence,
        ),
    )
}

/// Findings of [`UnseededGlobalRandom`], call by call.
pub open spec fn random_finder(context: RuleContext<'_>) -> spec_fn(int) -> Seq<DiagnosticView> {
    |i: int| found(random_at(context, i))
}

impl Rule for UnseededGlobalRandom {
    open spec fn declared(&self) -> MetadataView {
        mld302()
    }

    open spec fn findings(&self, context: RuleContext<'_>) -> Seq<DiagnosticView> {
        gather(context.qualified_calls.calls@.len() as int, random_finder(context))
    }

    fn metadata(&self) -> (metadata: &'static RuleMetadata) {
        MLD302()
    }

    fn run(&self, context: &RuleContext<'_>) -> (diagnostics: Vec<Diagnostic>) {
        let calls = &context.qualified_calls.calls;
        let mut diagnostics: Vec<Diagnostic> = Vec::new();
        let mut i: usize = 0;
        assert(reports(diagnostics@) =~= Seq::empty());
        while i < calls.len()
            invariant
                i <= calls@.len(),
                calls@ == context.qualified_calls.calls@,
                reports(diagnostics@) == gather(i as int, random_finder(*context)),
            decreases calls@.len() - i,
        {
            push_found(&mut diagnostics, random(context, i));
            i += 1;
        }
        diagnostics
    }
}

} // verus!
