//! Duration and wait rules: `MLC104`, `MLC106`.
use super::support::{
    bound_receiver, candidates_value, candidates_view, conclusive_target, is_bound, target_of,
    targets, SCENE_WAIT, WAIT_ANIMATION,
};
use crate::diagnostic::{
    one_edit, push_found, report_of, reports, single_edit, Confidence, Diagnostic, DiagnosticView,
    FixApplicability, MetadataView, RuleMetadata, Severity,
};
use crate::frontend::{last_index_at, CallArgument, LiteralFact, QualifiedCall};
use crate::json::{double_view, json_double, json_text, Evidence, EvidenceView, JsonView};
use crate::knowledge::{KnowledgeProfile, SymbolKind};
use crate::numbers::{at_most, real_at_most, Bound, Num};
use crate::rules::base::{basic_report, build_diagnostic, edit_at, text_edit, Rule, RuleContext};
use crate::rules::dedupe::{
    candidate_view, candidate_views, keep_first, kept, key_of, offer_all, offer_found, site_key,
    Candidate, CandidateView,
};
use crate::semantic::{PlayFact, PlayKind, PlayedAnimation};
use crate::source::{site_of, slice_in, AllocationSite};
use crate::text::{cat5, found, gather, same_text};
use vstd::prelude::*;

verus! {

/// The number a literal argument states.
pub open spec fn number_of(argument: CallArgument) -> Option<Bound<'static>> {
    match argument.literal {
        Some(LiteralFact::Int(value)) => Some(Bound::Whole(value)),
        Some(LiteralFact::Float(value)) => Some(Bound::Real(&value)),
        _ => None,
    }
}

/// The literal numeric value of an argument, when statically known.
pub fn literal_number(argument: &CallArgument) -> (number: Option<Bound<'_>>)
    ensures
        number == number_of(*argument),
{
    match &argument.literal {
        Some(LiteralFact::Int(value)) => Some(Bound::Whole(*value)),
        Some(LiteralFact::Float(value)) => Some(Bound::Real(value)),
        _ => None,
    }
}

// ---------------------------------------------------------------------------
// MLC104: literal non-positive durations on played calls.
// ---------------------------------------------------------------------------

/// What [`MLC104`] declares.
pub open spec fn mlc104() -> MetadataView {
    MetadataView {
        id: "MLC104"@,
        summary: "Literal non-positive run_time or wait duration"@,
        default_enabled: true,
        default_severity: Severity::Error,
        minimum_confidence: Confidence::Certain,
        implementation_phase: 1,
        required_profiles: seq![],
        required_capabilities: seq!["qualified-calls"@, "lifecycle"@],
        supersedes: seq![],
    }
}

/// Metadata of rule `MLC104`.
#[allow(non_snake_case)]
pub fn MLC104() -> (metadata: &'static RuleMetadata)
    ensures
        metadata@ == mlc104(),
{
    let metadata: &'static RuleMetadata = &RuleMetadata {
        id: "MLC104",
        summary: "Literal non-positive run_time or wait duration",
        default_enabled: true,
        default_severity: Severity::Error,
        minimum_confidence: Confidence::Certain,
        implementation_phase: 1,
        required_profiles: &[],
        required_capabilities: &["qualified-calls", "lifecycle"],
        supersedes: &[],
    };
    assert(metadata@ =~= mlc104());
    metadata
}

/// Literal non-positive durations on played calls.
///
/// Manim validates durations when a play executes, not when an animation is
/// constructed. The rule therefore diagnoses from lifecycle play facts:
///
/// - a played wait whose literal duration is not positive,
/// - a played `play(..., run_time=<literal <= 0>)`, whose kwarg is the
///   whole-play duration,
/// - a literal `run_time <= 0` on a curated animation constructor written
///   directly as an argument of a played `play` (including `Wait`'s first
///   positional parameter).
///
/// A play-level `run_time` kwarg (or a `**kwargs` splat) overrides every
/// per-animation run time, so constructor literals are skipped then.
pub struct NonPositiveDuration;

pub const NON_POSITIVE_END: &'static str = "` is non-positive \
    and playing it aborts the render.";

pub const NON_POSITIVE_WHY: &'static str = "Manim validates durations when a play executes, not when an animation \
    is constructed: `Scene.validate_run_time` rejects a whole-play or wait \
    duration of zero or less with `ValueError`, and an animation with a \
    non-positive `run_time` inside a longer play divides by zero in the \
    per-frame interpolation (`alpha = t / animation.run_time`). Only \
    played calls are reported; an unplayed construction is harmless.";

/// The finding for one literal argument, keyed by its place.
pub open spec fn duration_candidate(
    context: RuleContext<'_>,
    call: QualifiedCall,
    argument: CallArgument,
    parameter: Seq<char>,
    value: Bound<'_>,
    model: Seq<char>,
) -> CandidateView {
    (
        key_of(site_of(call.file, argument.range)),
        Some(
            basic_report(
                mlc104(),
                context,
                call.file,
                argument.range,
                "Use a positive `"@ + parameter + "`: the literal `"@ + slice_in(
                    *context.sources,
                    call.file,
                    argument.range,
                ) + NON_POSITIVE_END@,
                NON_POSITIVE_WHY@,
                EvidenceView::empty().insert("candidates"@, candidates_view(call)).insert(
                    "parameter"@,
                    JsonView::Text(parameter),
                ).insert("model"@, JsonView::Text(model)).insert(
                    "literal_value"@,
                    double_view(value.pattern()),
                ),
            ),
        ),
    )
}

/// Builds the candidate for one anchored literal argument.
fn emit(
    context: &RuleContext<'_>,
    call: &QualifiedCall,
    argument: &CallArgument,
    parameter: &str,
    value: &Bound<'_>,
    model: &str,
) -> (candidate: Candidate)
    ensures
        candidate_view(candidate) == duration_candidate(
            *context,
            *call,
            *argument,
            parameter@,
            *value,
            model@,
        ),
{
    let text: String = context.sources.slice(call.file, argument.range);
    let mut evidence = Evidence::new();
    evidence.insert("candidates", candidates_value(call));
    evidence.insert("parameter", json_text(parameter));
    evidence.insert("model", json_text(model));
    evidence.insert("literal_value", json_double(value.bits()));
    let diagnostic = build_diagnostic(
        MLC104(),
        context,
        call.file,
        argument.range,
        cat5("Use a positive `", parameter, "`: the literal `", text.as_str(), NON_POSITIVE_END),
        NON_POSITIVE_WHY,
        evidence,
    );
    Candidate {
        key: site_key(AllocationSite::new(call.file, argument.range)),
        diagnostic: Some(diagnostic),
    }
}

/// The last call written exactly at `site`.
pub open spec fn call_written_at(context: RuleContext<'_>, site: AllocationSite) -> Option<
    QualifiedCall,
> {
    match last_index_at(context.qualified_calls.calls@, site) {
        Some(index) => Some(context.qualified_calls.calls@[index]),
        None => None,
    }
}

pub fn find_call<'c>(context: &'c RuleContext<'_>, site: AllocationSite) -> (call: Option<
    &'c QualifiedCall,
>)
    ensures
        match call {
            Some(found) => call_written_at(*context, site) == Some(*found),
            None => call_written_at(*context, site) is None,
        },
{
    match context.qualified_calls.last_at(site) {
        Some(index) => Some(&context.qualified_calls.calls[index]),
        None => None,
    }
}

/// The literal that gives a wait its duration.
pub open spec fn wait_argument(call: QualifiedCall) -> Option<CallArgument> {
    match call.spec_positional(0) {
        Some(argument) => if number_of(argument) is Some {
            Some(argument)
        } else {
            duration_keyword(call)
        },
        None => duration_keyword(call),
    }
}

/// The literal `duration` keyword argument of a wait.
pub open spec fn duration_keyword(call: QualifiedCall) -> Option<CallArgument> {
    match call.spec_keyword("duration"@) {
        Some(argument) => if number_of(argument) is Some {
            Some(argument)
        } else {
            None
        },
        None => None,
    }
}

fn literal_wait_argument(call: &QualifiedCall) -> (argument: Option<&CallArgument>)
    ensures
        match argument {
            Some(found) => wait_argument(*call) == Some(*found),
            None => wait_argument(*call) is None,
        },
{
    if let Some(argument) = call.positional(0) {
        if literal_number(argument).is_some() {
            return Some(argument);
        }
    }
    match call.keyword("duration") {
        Some(argument) => if literal_number(argument).is_some() {
            Some(argument)
        } else {
            None
        },
        None => None,
    }
}

/// A played wait whose exact duration is not positive.
pub open spec fn wait_finding(context: RuleContext<'_>, play: PlayFact) -> Option<CandidateView> {
    match (play.duration, call_written_at(context, play.site)) {
        (Num::Exact(literal), Some(call)) => match wait_argument(call) {
            Some(argument) => if literal.spec_bound().above_zero() {
                None
            } else {
                Some(
                    duration_candidate(
                        context,
                        call,
                        argument,
                        "duration"@,
                        literal.spec_bound(),
                        "wait-duration"@,
                    ),
                )
            },
            None => None,
        },
        _ => None,
    }
}

/// A played `wait` / `pause` whose literal duration is non-positive:
/// `Scene.validate_run_time` raises `ValueError` when the call runs.
fn check_wait(context: &RuleContext<'_>, play: &PlayFact) -> (candidate: Option<Candidate>)
    ensures
        match candidate {
            Some(found) => wait_finding(*context, *play) == Some(candidate_view(found)),
            None => wait_finding(*context, *play) is None,
        },
{
    if let Num::Exact(literal) = &play.duration {
        let value = literal.bound();
        if value.positive() {
            return None;
        }
        if let Some(call) = find_call(context, play.site) {
            if let Some(argument) = literal_wait_argument(call) {
                return Some(emit(context, call, argument, "duration", &value, "wait-duration"));
            }
        }
    }
    None
}

/// Whether a number is zero or less.
pub open spec fn not_positive(value: Bound<'_>) -> bool {
    real_at_most(value.pattern(), 0)
}

/// The finding for a literal argument that must be positive.
pub open spec fn run_time_finding(
    context: RuleContext<'_>,
    call: QualifiedCall,
    argument: CallArgument,
    model: Seq<char>,
) -> Option<CandidateView> {
    match number_of(argument) {
        Some(value) => if not_positive(value) {
            Some(duration_candidate(context, call, argument, "run_time"@, value, model))
        } else {
            None
        },
        None => None,
    }
}

fn check_run_time(
    context: &RuleContext<'_>,
    call: &QualifiedCall,
    argument: &CallArgument,
    model: &str,
) -> (candidate: Option<Candidate>)
    ensures
        match candidate {
            Some(found) => run_time_finding(*context, *call, *argument, model@) == Some(
                candidate_view(found),
            ),
            None => run_time_finding(*context, *call, *argument, model@) is None,
        },
{
    match literal_number(argument) {
        Some(value) => if at_most(value.bits(), 0) {
            Some(emit(context, call, argument, "run_time", &value, model))
        } else {
            None
        },
        None => None,
    }
}

/// The run-time literal of a curated animation constructor: its `run_time`
/// keyword, or the first positional argument of `Wait`.
pub open spec fn run_time_argument(constructor: QualifiedCall, canonical: Seq<char>) -> Option<
    CallArgument,
> {
    match constructor.spec_keyword("run_time"@) {
        Some(argument) => Some(argument),
        None => if canonical == WAIT_ANIMATION@ {
            constructor.spec_positional(0)
        } else {
            None
        },
    }
}

/// The finding for one animation written directly as a play argument.
pub open spec fn played_finding(
    context: RuleContext<'_>,
    profile: KnowledgeProfile,
    played: PlayedAnimation,
) -> Option<CandidateView> {
    match call_written_at(context, played.site) {
        Some(constructor) => match target_of(profile, context.project_index, constructor) {
            Some(canonical) => match (
                profile.spec_symbol(canonical),
                run_time_argument(constructor, canonical),
            ) {
                (Some(entry), Some(argument)) => if entry.kind == SymbolKind::Animation {
                    run_time_finding(context, constructor, argument, "animation-run-time"@)
                } else {
                    None
                },
                _ => None,
            },
            None => None,
        },
        None => None,
    }
}

fn check_played(
    context: &RuleContext<'_>,
    profile: &KnowledgeProfile,
    played: &PlayedAnimation,
) -> (candidate: Option<Candidate>)
    ensures
        match candidate {
            Some(found) => played_finding(*context, *profile, *played) == Some(
                candidate_view(found),
            ),
            None => played_finding(*context, *profile, *played) is None,
        },
{
    // Only a curated animation constructor written directly as a play
    // argument provably forwards its literal `run_time` to
    // `Animation.run_time`.
    let constructor = match find_call(context, played.site) {
        Some(constructor) => constructor,
        None => {
            return None;
        },
    };
    let (canonical, entry) = match conclusive_target(
        profile,
        &context.project_index,
        constructor,
    ) {
        Some(found) => found,
        None => {
            return None;
        },
    };
    if entry.kind != SymbolKind::Animation {
        return None;
    }
    if let Some(argument) = constructor.keyword("run_time") {
        return check_run_time(context, constructor, argument, "animation-run-time");
    }
    // `Wait(0)`: the first positional parameter is `run_time`.
    if same_text(canonical.as_str(), WAIT_ANIMATION) {
        if let Some(argument) = constructor.positional(0) {
            return check_run_time(context, constructor, argument, "animation-run-time");
        }
    }
    None
}

/// Candidates of the animations of a play, in order.
pub open spec fn played_finder(
    context: RuleContext<'_>,
    profile: KnowledgeProfile,
    play: PlayFact,
) -> spec_fn(int) -> Seq<CandidateView> {
    |a: int| found(played_finding(context, profile, play.animations@[a]))
}

/// The candidates of one played `play`: its `run_time` kwarg decides alone;
/// without one, and without a splat that could bring one, each animation
/// written as an argument counts.
pub open spec fn play_findings(
    context: RuleContext<'_>,
    profile: KnowledgeProfile,
    play: PlayFact,
) -> Seq<CandidateView> {
    match call_written_at(context, play.site) {
        Some(call) => match call.spec_keyword("run_time"@) {
            Some(argument) => found(
                run_time_finding(context, call, argument, "play-run-time"@),
            ),
            None => if call.has_star_star_kwargs {
                Seq::empty()
            } else {
                gather(play.animations@.len() as int, played_finder(context, profile, play))
            },
        },
        None => Seq::empty(),
    }
}

/// A played `play`: a non-positive literal `run_time` kwarg (the
/// whole-play duration), or non-positive constructor literals on its
/// animation arguments when no play-level override exists.
fn check_play(context: &RuleContext<'_>, profile: &KnowledgeProfile, play: &PlayFact) -> (candidates:
    Vec<Candidate>)
    ensures
        candidate_views(candidates@) == play_findings(*context, *profile, *play),
{
    let mut candidates: Vec<Candidate> = Vec::new();
    assert(candidate_views(candidates@) =~= Seq::empty());
    let call = match find_call(context, play.site) {
        Some(call) => call,
        None => {
            return candidates;
        },
    };
    if let Some(argument) = call.keyword("run_time") {
        offer_found(&mut candidates, check_run_time(context, call, argument, "play-run-time"));
        assert(candidate_views(candidates@) =~= found(
            run_time_finding(*context, *call, *argument, "play-run-time"@),
        ));
        return candidates;
    }
    if call.has_star_star_kwargs {
        return candidates;
    }
    let mut a: usize = 0;
    while a < play.animations.len()
        invariant
            a <= play.animations@.len(),
            candidate_views(candidates@) == gather(
                a as int,
                played_finder(*context, *profile, *play),
            ),
        decreases play.animations@.len() - a,
    {
        offer_found(&mut candidates, check_played(context, profile, &play.animations[a]));
        a += 1;
    }
    candidates
}

/// The candidates of one executed play or wait.
pub open spec fn executed_findings(context: RuleContext<'_>, play: PlayFact) -> Seq<CandidateView> {
    match context.knowledge {
        Some(profile) => match play.kind {
            PlayKind::Wait => found(wait_finding(context, play)),
            PlayKind::Play => play_findings(context, *profile, play),
        },
        None => Seq::empty(),
    }
}

/// Candidates of the plays of a scene, in order.
pub open spec fn executed_finder(context: RuleContext<'_>, plays: Seq<PlayFact>) -> spec_fn(
    int,
) -> Seq<CandidateView> {
    |p: int| executed_findings(context, plays[p])
}

/// The candidates of the scene at `i`.
pub open spec fn durations_at(context: RuleContext<'_>, i: int) -> Seq<CandidateView> {
    let plays = context.lifecycle_facts.scenes@[i].plays@;
    gather(plays.len() as int, executed_finder(context, plays))
}

fn durations(context: &RuleContext<'_>, i: usize) -> (candidates: Vec<Candidate>)
    requires
        i < context.lifecycle_facts.scenes@.len(),
    ensures
        candidate_views(candidates@) == durations_at(*context, i as int),
{
    let plays = &context.lifecycle_facts.scenes[i].plays;
    let mut candidates: Vec<Candidate> = Vec::new();
    let mut p: usize = 0;
    assert(candidate_views(candidates@) =~= Seq::empty());
    while p < plays.len()
        invariant
            p <= plays@.len(),
            candidate_views(candidates@) == gather(p as int, executed_finder(*context, plays@)),
        decreases plays@.len() - p,
    {
        let play = &plays[p];
        let ghost before = candidate_views(candidates@);
        match context.knowledge {
            Some(profile) => match play.kind {
                PlayKind::Wait => {
                    offer_found(&mut candidates, check_wait(context, play));
                },
                PlayKind::Play => {
                    offer_all(&mut candidates, check_play(context, profile, play));
                },
            },
            None => {
                assert(before =~= before + Seq::<CandidateView>::empty());
            },
        }
        p += 1;
    }
    candidates
}

/// Candidates of [`NonPositiveDuration`], scene by scene.
pub open spec fn durations_finder(context: RuleContext<'_>) -> spec_fn(int) -> Seq<CandidateView> {
    |i: int| durations_at(context, i)
}

impl Rule for NonPositiveDuration {
    open spec fn declared(&self) -> MetadataView {
        mlc104()
    }

    open spec fn findings(&self, context: RuleContext<'_>) -> Seq<DiagnosticView> {
        kept(gather(context.lifecycle_facts.scenes@.len() as int, durations_finder(context)))
    }

    fn metadata(&self) -> (metadata: &'static RuleMetadata) {
        MLC104()
    }

    fn run(&self, context: &RuleContext<'_>) -> (diagnostics: Vec<Diagnostic>) {
        let scenes = &context.lifecycle_facts.scenes;
        let mut candidates: Vec<Candidate> = Vec::new();
        let mut i: usize = 0;
        assert(candidate_views(candidates@) =~= Seq::empty());
        while i < scenes.len()
            invariant
                i <= scenes@.len(),
                scenes@ == context.lifecycle_facts.scenes@,
                candidate_views(candidates@) == gather(i as int, durations_finder(*context)),
            decreases scenes@.len() - i,
        {
            offer_all(&mut candidates, durations(context, i));
            i += 1;
        }
        keep_first(candidates)
    }
}

// ---------------------------------------------------------------------------
// MLC106: stop_condition combined with frozen_frame=True.
// ---------------------------------------------------------------------------

/// What [`MLC106`] declares.
pub open spec fn mlc106() -> MetadataView {
    MetadataView {
        id: "MLC106"@,
        summary: "wait() combines stop_condition with frozen_frame=True"@,
        default_enabled: true,
        default_severity: Severity::Error,
        minimum_confidence: Confidence::Certain,
        implementation_phase: 1,
        required_profiles: seq![],
        required_capabilities: seq!["qualified-calls"@],
        supersedes: seq![],
    }
}

/// Metadata of rule `MLC106`.
#[allow(non_snake_case)]
pub fn MLC106() -> (metadata: &'static RuleMetadata)
    ensures
        metadata@ == mlc106(),
{
    let metadata: &'static RuleMetadata = &RuleMetadata {
        id: "MLC106",
        summary: "wait() combines stop_condition with frozen_frame=True",
        default_enabled: true,
        default_severity: Severity::Error,
        minimum_confidence: Confidence::Certain,
        implementation_phase: 1,
        required_profiles: &[],
        required_capabilities: &["qualified-calls"],
        supersedes: &[],
    };
    assert(metadata@ =~= mlc106());
    metadata
}

/// `self.wait(stop_condition=..., frozen_frame=True)`.
pub struct FrozenFrameStopCondition;

pub const FROZEN_STOP: &'static str = "Remove `frozen_frame=True` (or the `stop_condition`): a frozen wait \
    renders one static frame, so the stop condition is never evaluated \
    against changing state and Manim rejects the combination.";

pub const FROZEN_STOP_WHY: &'static str = "`Scene.wait(stop_condition=...)` needs a dynamic wait that re-renders \
    and re-evaluates the condition every frame; `frozen_frame=True` \
    explicitly freezes the wait to a single repeated frame. The two \
    options contradict each other and `Wait` raises `ValueError`.";

pub const UNFREEZE: &'static str = "Change `frozen_frame=True` to `frozen_frame=False`";

/// The `frozen_frame=True` argument of a wait that also has a stop condition.
pub open spec fn frozen_argument(call: QualifiedCall) -> Option<CallArgument> {
    match (call.spec_keyword("stop_condition"@), call.spec_keyword("frozen_frame"@)) {
        (Some(stop), Some(frozen)) => if stop.literal != Some(LiteralFact::NoneLit)
            && frozen.literal == Some(LiteralFact::Bool(true)) {
            Some(frozen)
        } else {
            None
        },
        _ => None,
    }
}

fn contradicting_argument(call: &QualifiedCall) -> (argument: Option<&CallArgument>)
    ensures
        match argument {
            Some(found) => frozen_argument(*call) == Some(*found),
            None => frozen_argument(*call) is None,
        },
{
    let stop_condition = match call.keyword("stop_condition") {
        Some(argument) => argument,
        None => {
            return None;
        },
    };
    // An explicit `stop_condition=None` restates the default.
    if let Some(LiteralFact::NoneLit) = &stop_condition.literal {
        return None;
    }
    match call.keyword("frozen_frame") {
        Some(argument) => match &argument.literal {
            Some(LiteralFact::Bool(value)) => if *value {
                Some(argument)
            } else {
                None
            },
            _ => None,
        },
        None => None,
    }
}

/// The finding for the call at `i`.
pub open spec fn frozen_stop_at(context: RuleContext<'_>, i: int) -> Option<DiagnosticView> {
    let call = context.qualified_calls.calls@[i];
    match (context.knowledge, frozen_argument(call)) {
        (Some(profile), Some(frozen)) => if is_bound(call) && target_of(
            *profile,
            context.project_index,
            call,
        ) == Some(SCENE_WAIT@) {
            Some(
                DiagnosticView {
                    fix: Some(
                        single_edit(
                            FixApplicability::Unsafe,
                            UNFREEZE@,
                            edit_at(context, call.file, frozen.range, "False"@),
                        ),
                    ),
                    ..basic_report(
                        mlc106(),
                        context,
                        call.file,
                        frozen.range,
                        FROZEN_STOP@,
                        FROZEN_STOP_WHY@,
                        EvidenceView::empty().insert(
                            "resolved"@,
                            JsonView::Text(SCENE_WAIT@),
                        ).insert("candidates"@, candidates_view(call)),
                    )
                },
            )
        } else {
            None
        },
        _ => None,
    }
}

fn frozen_stop(context: &RuleContext<'_>, i: usize) -> (found: Option<Diagnostic>)
    requires
        i < context.qualified_calls.calls@.len(),
    ensures
        report_of(found) == frozen_stop_at(*context, i as int),
{
    let call = &context.qualified_calls.calls[i];
    let profile = match context.knowledge {
        Some(profile) => profile,
        None => {
            return None;
        },
    };
    if !bound_receiver(call) || !targets(profile, &context.project_index, call, SCENE_WAIT) {
        return None;
    }
    let frozen = match contradicting_argument(call) {
        Some(argument) => argument,
        None => {
            return None;
        },
    };
    let mut evidence = Evidence::new();
    evidence.insert("resolved", json_text(SCENE_WAIT));
    evidence.insert("candidates", candidates_value(call));
    let mut diagnostic = build_diagnostic(
        MLC106(),
        context,
        call.file,
        frozen.range,
        FROZEN_STOP.to_owned(),
        FROZEN_STOP_WHY,
        evidence,
    );
    diagnostic.fix = Some(
        one_edit(
            FixApplicability::Unsafe,
            UNFREEZE.to_owned(),
            text_edit(context, call.file, frozen.range, "False".to_owned()),
        ),
    );
    Some(diagnostic)
}

/// Findings of [`FrozenFrameStopCondition`], call by call.
pub open spec fn frozen_stop_finder(context: RuleContext<'_>) -> spec_fn(int) -> Seq<DiagnosticView> {
    |i: int| found(frozen_stop_at(context, i))
}

impl Rule for FrozenFrameStopCondition {
    open spec fn declared(&self) -> MetadataView {
        mlc106()
    }

    open spec fn findings(&self, context: RuleContext<'_>) -> Seq<DiagnosticView> {
        gather(context.qualified_calls.calls@.len() as int, frozen_stop_finder(context))
    }

    fn metadata(&self) -> (metadata: &'static RuleMetadata) {
        MLC106()
    }

    fn run(&self, context: &RuleContext<'_>) -> (diagnostics: Vec<Diagnostic>) {
        let calls = &context.qualified_calls.calls;
        let mut diagnostics: Vec<Diagnostic> = Vec::new();
        let mut i: usize = 0;
        assert(reports(diagnostics@) =~= Seq::empty());
        while i < calls.len()
            invariant
                i <= calls@.len(),
                calls@ == context.qualified_calls.calls@,
                reports(diagnostics@) == gather(i as int, frozen_stop_finder(*context)),
            decreases calls@.len() - i,
        {
            push_found(&mut diagnostics, frozen_stop(context, i));
            i += 1;
        }
        diagnostics
    }
}

} // verus!
