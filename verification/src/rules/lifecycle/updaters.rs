//! Updater rules: `MLC105`, `MLC112`, `MLC118`, `MLC121`, `MLC125`.
//!
//! `Mobject.add_updater(callback)` inspects the callback signature; when any
//! parameter is named `dt` the callback is called positionally as
//! `callback(mobject, dt)`, otherwise as `callback(mobject)`.
//! `Scene.add_updater(callback)` always calls `callback(dt)` with one
//! positional argument.
use super::support::{
    bound_receiver, candidates_value, candidates_view, channel_names, conclusive_target, is_bound,
    label_channels, target_of, MOBJECT_ADD_UPDATER, SCENE_ADD_UPDATER, SCENE_PAUSE, SCENE_PLAY,
    SCENE_WAIT,
};
use crate::diagnostic::{
    one_edit, push_found, report_of, reports, single_edit, Confidence, Diagnostic, DiagnosticView,
    Fix, FixApplicability, FixView, MetadataView, RuleMetadata, Severity,
};
use crate::frontend::{CallArgument, CallableSignature, ParamKind, Parameter, QualifiedCall};
use crate::json::{json_text, json_texts, text_list, Evidence, EvidenceView, Json, JsonView};
use crate::rules::base::{
    add_related, basic_report, build_diagnostic, edit_at, related_at, related_site, text_edit,
    with_related, Rule, RuleContext,
};
use crate::rules::dedupe::{
    candidate_view, candidate_views, keep_first, kept, key_of, offer_all, offer_found, pair_key,
    site_key, site_pair, Candidate, CandidateView,
};
use crate::semantic::{
    any_definitely_same, common_channels, has_updater, holds_updater, shared_channels_of,
    targets_same, AnimationState, CallbackRef, Event, MobjectState, MutationKind, ObjectId,
    PlayFact, PlayKind, PlayedAnimation, Presence, SceneLifecycle, StateSnapshot, SuspendBehavior,
    TracedEvent, Truth, UpdaterHost, UpdaterRegistration, UpdaterRemoval, WriteChannel,
};
use crate::source::{path_in, slice_in, span_in, AllocationSite, TextRange};
use crate::text::{
    cat3, cat5, cat7, decimal, found, gather, is_whitespace, join, joined, last_segment, numeral,
    same_text, short_name, texts, white_space,
};
use vstd::prelude::*;

verus! {

/// What [`MLC105`] declares.
pub open spec fn mlc105() -> MetadataView {
    MetadataView {
        id: "MLC105"@,
        summary: "Updater callback cannot bind to Manim's positional invocation"@,
        default_enabled: true,
        default_severity: Severity::Error,
        minimum_confidence: Confidence::High,
        implementation_phase: 1,
        required_profiles: seq![],
        required_capabilities: seq!["qualified-calls"@],
        supersedes: seq![],
    }
}

/// Metadata of rule `MLC105`.
#[allow(non_snake_case)]
pub fn MLC105() -> (metadata: &'static RuleMetadata)
    ensures
        metadata@ == mlc105(),
{
    let metadata: &'static RuleMetadata = &RuleMetadata {
        id: "MLC105",
        summary: "Updater callback cannot bind to Manim's positional invocation",
        default_enabled: true,
        default_severity: Severity::Error,
        minimum_confidence: Confidence::High,
        implementation_phase: 1,
        required_profiles: &[],
        required_capabilities: &["qualified-calls"],
        supersedes: &[],
    };
    assert(metadata@ =~= mlc105());
    metadata
}

/// Which updater registration contract applies.
#[derive(Clone, Copy, Debug, PartialEq, Eq, Structural)]
pub enum Contract {
    /// `Mobject.add_updater`: `(mobject, dt)` or `(mobject)` depending on
    /// whether a parameter is named `dt`.
    Mobject,
    /// `Scene.add_updater`: always `(dt)`.
    Scene,
}

/// Whether a parameter takes a positional argument.
pub open spec fn takes_position(parameter: Parameter) -> bool {
    parameter.kind == ParamKind::PositionalOnly || parameter.kind
        == ParamKind::PositionalOrKeyword
}

/// Arguments left over of `count` after the parameters took theirs; nothing
/// when a required parameter stays without a value.
pub open spec fn left_over(params: Seq<Parameter>, count: int) -> Option<int>
    decreases params.len(),
{
    if params.len() == 0 {
        Some(count)
    } else {
        let last = params.last();
        match left_over(params.drop_last(), count) {
            Some(left) => match last.kind {
                ParamKind::VarArgs => Some(0),
                ParamKind::KwArgs => Some(left),
                ParamKind::KeywordOnly => if last.has_default {
                    Some(left)
                } else {
                    None
                },
                _ => if left > 0 {
                    Some(left - 1)
                } else if last.has_default {
                    Some(0)
                } else {
                    None
                },
            },
            None => None,
        }
    }
}

/// Whether a call with `count` positional arguments and no keywords binds.
pub open spec fn binds(params: Seq<Parameter>, count: int) -> bool {
    left_over(params, count) == Some(0int)
}

/// Number of parameters that take a positional argument.
pub open spec fn positions(params: Seq<Parameter>) -> int
    decreases params.len(),
{
    if params.len() == 0 {
        0
    } else {
        positions(params.drop_last()) + if takes_position(params.last()) {
            1int
        } else {
            0int
        }
    }
}

/// Whether the parameter at `k` gets no value from `count` positional
/// arguments although it needs one.
pub open spec fn unfilled(params: Seq<Parameter>, count: int, k: int) -> bool {
    !params[k].has_default && (params[k].kind == ParamKind::KeywordOnly || (takes_position(
        params[k],
    ) && positions(params.take(k)) >= count))
}

proof fn left_over_value(params: Seq<Parameter>, count: int)
    requires
        count >= 0,
        forall|k: int| 0 <= k < params.len() ==> (#[trigger] params[k]).kind != ParamKind::VarArgs,
    ensures
        left_over(params, count) is None <==> exists|k: int|
            0 <= k < params.len() && #[trigger] unfilled(params, count, k),
        left_over(params, count) is Some ==> left_over(params, count)->0 == (if count
            >= positions(params) {
            count - positions(params)
        } else {
            0
        }),
        positions(params) >= 0,
    decreases params.len(),
{
    if params.len() > 0 {
        let rest = params.drop_last();
        let last = params.len() - 1;
        assert forall|k: int| 0 <= k < rest.len() implies (#[trigger] rest[k]).kind
            != ParamKind::VarArgs by {
            assert(rest[k] == params[k]);
        }
        left_over_value(rest, count);
        assert(params.take(last) =~= rest);
        assert forall|k: int| 0 <= k < last implies unfilled(rest, count, k) == unfilled(
            params,
            count,
            k,
        ) by {
            assert(rest.take(k) =~= params.take(k));
        }
        if left_over(rest, count) is None {
            let k = choose|k: int| 0 <= k < rest.len() && #[trigger] unfilled(rest, count, k);
            assert(unfilled(params, count, k));
        } else if left_over(params, count) is None {
            assert(unfilled(params, count, last));
        } else {
            assert forall|k: int| 0 <= k < params.len() implies !#[trigger] unfilled(
                params,
                count,
                k,
            ) by {
                if k < last {
                    assert(!unfilled(rest, count, k));
                }
            }
        }
    }
}

/// A call with `count` positional arguments binds to a signature without
/// `*args` exactly when every required parameter gets a value and no
/// argument is left over.
pub proof fn positional_binding(params: Seq<Parameter>, count: int)
    requires
        count >= 0,
        forall|k: int| 0 <= k < params.len() ==> (#[trigger] params[k]).kind != ParamKind::VarArgs,
    ensures
        binds(params, count) <==> count <= positions(params) && forall|k: int|
            0 <= k < params.len() ==> !#[trigger] unfilled(params, count, k),
{
    left_over_value(params, count);
}

/// A last `*args` takes every argument that is left over.
pub proof fn varargs_absorb(params: Seq<Parameter>, count: int)
    requires
        params.len() > 0,
        params.last().kind == ParamKind::VarArgs,
    ensures
        binds(params, count) <==> left_over(params.drop_last(), count) is Some,
{
}

/// Whether `signature` accepts `count` positional arguments and no
/// keywords, as `inspect.Signature.bind` does.
pub fn binds_positionally(signature: &CallableSignature, count: usize) -> (bound: bool)
    ensures
        bound == binds(signature.params@, count as int),
{
    let params = &signature.params;
    let mut remaining: usize = count;
    let mut i: usize = 0;
    assert(params@.take(0) =~= Seq::empty());
    while i < params.len()
        invariant
            i <= params@.len(),
            params@ == signature.params@,
            left_over(params@.take(i as int), count as int) == Some(remaining as int),
        decreases params@.len() - i,
    {
        let parameter = &params[i];
        proof {
            assert(params@.take(i + 1).drop_last() =~= params@.take(i as int));
            assert(params@.take(i + 1).last() == params@[i as int]);
            missing_stays(params@, count as int, i + 1);
        }
        match parameter.kind {
            ParamKind::PositionalOnly | ParamKind::PositionalOrKeyword => {
                if remaining > 0 {
                    remaining -= 1;
                } else if !parameter.has_default {
                    // A required parameter receives no value.
                    return false;
                }
            },
            ParamKind::VarArgs => {
                remaining = 0;
            },
            ParamKind::KeywordOnly => {
                if !parameter.has_default {
                    // No keywords are passed; a required keyword-only
                    // parameter can never be satisfied.
                    return false;
                }
            },
            ParamKind::KwArgs => {},
        }
        i += 1;
    }
    assert(params@.take(i as int) =~= params@);
    // Leftover positional arguments have no slot.
    remaining == 0
}

proof fn missing_stays(params: Seq<Parameter>, count: int, i: int)
    requires
        0 <= i <= params.len(),
    ensures
        left_over(params.take(i), count) is None ==> left_over(params, count) is None,
    decreases params.len(),
{
    if i < params.len() {
        assert(params.drop_last().take(i) =~= params.take(i));
        missing_stays(params.drop_last(), count, i);
    } else {
        assert(params.take(i) =~= params);
    }
}

/// The callback argument of a call that follows `contract`.
pub open spec fn callback_in(call: QualifiedCall, contract: Contract) -> Option<CallArgument> {
    match call.spec_positional(0) {
        Some(argument) => Some(argument),
        None => match contract {
            Contract::Mobject => call.spec_keyword("update_function"@),
            Contract::Scene => call.spec_keyword("func"@),
        },
    }
}

/// The callback argument of a confirmed `add_updater` call.
fn callback_argument(call: &QualifiedCall, contract: Contract) -> (argument: Option<&CallArgument>)
    ensures
        match argument {
            Some(found) => callback_in(*call, contract) == Some(*found),
            None => callback_in(*call, contract) is None,
        },
{
    if let Some(argument) = call.positional(0) {
        return Some(argument);
    }
    match contract {
        Contract::Mobject => call.keyword("update_function"),
        Contract::Scene => call.keyword("func"),
    }
}

/// Updater callbacks that cannot bind to Manim's actual invocation.
pub struct UpdaterCannotBind;

pub const MOBJECT_BIND_END: &'static str = "` and that call cannot bind.";

pub const MOBJECT_BIND_WHY: &'static str = "Manim inspects the callback signature for a parameter *named* \
    `dt`: if present the callback is invoked positionally as \
    `callback(mobject, dt)`, otherwise as `callback(mobject)`. A \
    signature that cannot bind that exact positional call raises \
    `TypeError` on the first rendered frame (DESIGN §3.3).";

pub const SCENE_BIND_MIDDLE: &'static str = "`): \
    `Scene.add_updater` always calls it as `";

pub const SCENE_BIND_END: &'static str = "` with \
    one positional argument, and that call cannot bind.";

pub const SCENE_BIND_WHY: &'static str = "Scene-level updaters have a fixed contract: every frame the \
    callback receives exactly one positional argument, the frame \
    time delta `dt`. A signature that cannot bind one positional \
    argument raises `TypeError` on the first rendered frame \
    (DESIGN §3.3).";

/// Names of a list of parameters.
pub open spec fn parameter_names(params: Seq<Parameter>) -> Seq<Seq<char>> {
    Seq::new(params.len(), |i: int| params[i].name@)
}

fn names_of(signature: &CallableSignature) -> (names: Vec<String>)
    ensures
        texts(names@) == parameter_names(signature.params@),
{
    let mut names: Vec<String> = Vec::new();
    let mut i: usize = 0;
    while i < signature.params.len()
        invariant
            i <= signature.params@.len(),
            names@.len() == i,
            forall|j: int| 0 <= j < i ==> (#[trigger] names@[j])@ == signature.params@[j].name@,
        decreases signature.params@.len() - i,
    {
        names.push(signature.params[i].name.clone());
        i += 1;
    }
    assert(texts(names@) =~= parameter_names(signature.params@));
    names
}

/// Number of positional arguments the updater is called with.
pub open spec fn argument_count(contract: Contract, has_dt: bool) -> int {
    if contract == Contract::Mobject && has_dt {
        2
    } else {
        1
    }
}

/// The call Manim makes.
pub open spec fn invocation_of(contract: Contract, has_dt: bool) -> Seq<char> {
    match contract {
        Contract::Mobject => if has_dt {
            "callback(mobject, dt)"@
        } else {
            "callback(mobject)"@
        },
        Contract::Scene => "callback(dt)"@,
    }
}

/// Message about a callback that cannot bind.
pub open spec fn cannot_bind_message(
    contract: Contract,
    has_dt: bool,
    parameters: Seq<char>,
) -> Seq<char> {
    match contract {
        Contract::Mobject => "Adjust this updater's parameters (`"@ + parameters + "`): because "@
            + (if has_dt {
            "a parameter is named `dt`"@
        } else {
            "no parameter is named `dt`"@
        }) + ", `Mobject.add_updater` will call it as `"@ + invocation_of(contract, has_dt)
            + MOBJECT_BIND_END@,
        Contract::Scene => "Adjust this Scene updater's parameters (`"@ + parameters
            + SCENE_BIND_MIDDLE@ + invocation_of(contract, has_dt) + SCENE_BIND_END@,
    }
}

/// The report for a callback that cannot bind.
pub open spec fn cannot_bind_report(
    context: RuleContext<'_>,
    call: QualifiedCall,
    callback: CallArgument,
    signature: CallableSignature,
    contract: Contract,
    has_dt: bool,
    canonical: Seq<char>,
) -> DiagnosticView {
    let names = parameter_names(signature.params@);
    basic_report(
        mlc105(),
        context,
        call.file,
        callback.range,
        cannot_bind_message(contract, has_dt, joined(names, ", "@)),
        match contract {
            Contract::Mobject => MOBJECT_BIND_WHY@,
            Contract::Scene => SCENE_BIND_WHY@,
        },
        EvidenceView::empty().insert("resolved"@, JsonView::Text(canonical)).insert(
            "candidates"@,
            candidates_view(call),
        ).insert("simulated_call"@, JsonView::Text(invocation_of(contract, has_dt))).insert(
            "callback_parameters"@,
            text_list(names),
        ),
    )
}

/// Builds the diagnostic for one confirmed non-binding callback.
fn cannot_bind_diagnostic(
    context: &RuleContext<'_>,
    call: &QualifiedCall,
    callback: &CallArgument,
    signature: &CallableSignature,
    contract: Contract,
    has_dt: bool,
    canonical: &str,
) -> (diagnostic: Diagnostic)
    ensures
        diagnostic@ == cannot_bind_report(
            *context,
            *call,
            *callback,
            *signature,
            contract,
            has_dt,
            canonical@,
        ),
{
    let names: Vec<String> = names_of(signature);
    let parameters: String = join(&names, ", ");
    let invocation: &'static str = match contract {
        Contract::Mobject => if has_dt {
            "callback(mobject, dt)"
        } else {
            "callback(mobject)"
        },
        Contract::Scene => "callback(dt)",
    };
    let reason: &'static str = if has_dt {
        "a parameter is named `dt`"
    } else {
        "no parameter is named `dt`"
    };
    let message: String = match contract {
        Contract::Mobject => cat7(
            "Adjust this updater's parameters (`",
            parameters.as_str(),
            "`): because ",
            reason,
            ", `Mobject.add_updater` will call it as `",
            invocation,
            MOBJECT_BIND_END,
        ),
        Contract::Scene => cat5(
            "Adjust this Scene updater's parameters (`",
            parameters.as_str(),
            SCENE_BIND_MIDDLE,
            invocation,
            SCENE_BIND_END,
        ),
    };
    let explanation: &'static str = match contract {
        Contract::Mobject => MOBJECT_BIND_WHY,
        Contract::Scene => SCENE_BIND_WHY,
    };
    let mut evidence = Evidence::new();
    evidence.insert("resolved", json_text(canonical));
    evidence.insert("candidates", candidates_value(call));
    evidence.insert("simulated_call", json_text(invocation));
    evidence.insert("callback_parameters", json_texts(&names));
    build_diagnostic(
        MLC105(),
        context,
        call.file,
        callback.range,
        message,
        explanation,
        evidence,
    )
}

/// The registration contract a canonical id stands for.
pub open spec fn contract_of(canonical: Seq<char>) -> Option<Contract> {
    if canonical == MOBJECT_ADD_UPDATER@ {
        Some(Contract::Mobject)
    } else if canonical == SCENE_ADD_UPDATER@ {
        Some(Contract::Scene)
    } else {
        None
    }
}

/// Whether a parameter has this name.
pub open spec fn declares(params: Seq<Parameter>, name: Seq<char>) -> bool {
    exists|i: int| 0 <= i < params.len() && (#[trigger] params[i]).name@ == name
}

fn has_parameter(signature: &CallableSignature, name: &str) -> (has: bool)
    ensures
        has == declares(signature.params@, name@),
{
    let mut i: usize = 0;
    while i < signature.params.len()
        invariant
            i <= signature.params@.len(),
            forall|j: int| 0 <= j < i ==> (#[trigger] signature.params@[j]).name@ != name@,
        decreases signature.params@.len() - i,
    {
        if same_text(signature.params[i].name.as_str(), name) {
            return true;
        }
        i += 1;
    }
    false
}

/// Whether the first parameter is `self`.
pub open spec fn starts_with_self(params: Seq<Parameter>) -> bool {
    params.len() > 0 && params[0].name@ == "self"@
}

/// The finding for the call at `i`.
pub open spec fn cannot_bind_at(context: RuleContext<'_>, i: int) -> Option<DiagnosticView> {
    let call = context.qualified_calls.calls@[i];
    match context.knowledge {
        Some(profile) => match target_of(*profile, context.project_index, call) {
            Some(canonical) => match contract_of(canonical) {
                Some(contract) => match callback_in(call, contract) {
                    Some(callback) => match callback.callable_signature {
                        Some(signature) => {
                            let has_dt = declares(signature.params@, "dt"@);
                            if is_bound(call) && !starts_with_self(signature.params@) && !binds(
                                signature.params@,
                                argument_count(contract, has_dt),
                            ) {
                                Some(
                                    cannot_bind_report(
                                        context,
                                        call,
                                        callback,
                                        signature,
                                        contract,
                                        has_dt,
                                        canonical,
                                    ),
                                )
                            } else {
                                None
                            }
                        },
                        None => None,
                    },
                    None => None,
                },
                None => None,
            },
            None => None,
        },
        None => None,
    }
}

fn cannot_bind(context: &RuleContext<'_>, i: usize) -> (found: Option<Diagnostic>)
    requires
        i < context.qualified_calls.calls@.len(),
    ensures
        report_of(found) == cannot_bind_at(*context, i as int),
{
    let call = &context.qualified_calls.calls[i];
    let profile = match context.knowledge {
        Some(profile) => profile,
        None => {
            return None;
        },
    };
    if !bound_receiver(call) {
        return None;
    }
    let canonical: String = match conclusive_target(profile, &context.project_index, call) {
        Some((canonical, _)) => canonical,
        None => {
            return None;
        },
    };
    let contract: Contract = if same_text(canonical.as_str(), MOBJECT_ADD_UPDATER) {
        Contract::Mobject
    } else if same_text(canonical.as_str(), SCENE_ADD_UPDATER) {
        Contract::Scene
    } else {
        return None;
    };
    let callback = match callback_argument(call, contract) {
        Some(callback) => callback,
        None => {
            return None;
        },
    };
    let signature = match &callback.callable_signature {
        Some(signature) => signature,
        // Unknown callable: silence, never a guess.
        None => {
            return None;
        },
    };
    // A leading `self` parameter means the reference may be an unbound
    // method; binding cannot be proven either way.
    if signature.params.len() > 0 && same_text(signature.params[0].name.as_str(), "self") {
        return None;
    }
    let has_dt: bool = has_parameter(signature, "dt");
    let count: usize = if contract == Contract::Mobject && has_dt {
        2
    } else {
        1
    };
    if binds_positionally(signature, count) {
        return None;
    }
    Some(
        cannot_bind_diagnostic(
            context,
            call,
            callback,
            signature,
            contract,
            has_dt,
            canonical.as_str(),
        ),
    )
}

/// Findings of [`UpdaterCannotBind`], call by call.
pub open spec fn cannot_bind_finder(context: RuleContext<'_>) -> spec_fn(int) -> Seq<DiagnosticView> {
    |i: int| found(cannot_bind_at(context, i))
}

impl Rule for UpdaterCannotBind {
    open spec fn declared(&self) -> MetadataView {
        mlc105()
    }

    open spec fn findings(&self, context: RuleContext<'_>) -> Seq<DiagnosticView> {
        gather(context.qualified_calls.calls@.len() as int, cannot_bind_finder(context))
    }

    fn metadata(&self) -> (metadata: &'static RuleMetadata) {
        MLC105()
    }

    fn run(&self, context: &RuleContext<'_>) -> (diagnostics: Vec<Diagnostic>) {
        let calls = &context.qualified_calls.calls;
        let mut diagnostics: Vec<Diagnostic> = Vec::new();
        let mut i: usize = 0;
        assert(reports(diagnostics@) =~= Seq::empty());
        while i < calls.len()
            invariant
                i <= calls@.len(),
                calls@ == context.qualified_calls.calls@,
                reports(diagnostics@) == gather(i as int, cannot_bind_finder(*context)),
            decreases calls@.len() - i,
        {
            push_found(&mut diagnostics, cannot_bind(context, i));
            i += 1;
        }
        diagnostics
    }
}

// ---------------------------------------------------------------------------
// MLC121: timeline re-entry from a per-frame callback.
// ---------------------------------------------------------------------------

/// What [`MLC121`] declares.
pub open spec fn mlc121() -> MetadataView {
    MetadataView {
        id: "MLC121"@,
        summary: "Scene.play / wait / pause called from a per-frame callback"@,
        default_enabled: true,
        default_severity: Severity::Error,
        minimum_confidence: Confidence::High,
        implementation_phase: 2,
        required_profiles: seq![],
        required_capabilities: seq!["qualified-calls"@, "cost-facts"@],
        supersedes: seq![],
    }
}

/// Metadata of rule `MLC121`.
#[allow(non_snake_case)]
pub fn MLC121() -> (metadata: &'static RuleMetadata)
    ensures
        metadata@ == mlc121(),
{
    let metadata: &'static RuleMetadata = &RuleMetadata {
        id: "MLC121",
        summary: "Scene.play / wait / pause called from a per-frame callback",
        default_enabled: true,
        default_severity: Severity::Error,
        minimum_confidence: Confidence::High,
        implementation_phase: 2,
        required_profiles: &[],
        required_capabilities: &["qualified-calls", "cost-facts"],
        supersedes: &[],
    };
    assert(metadata@ =~= mlc121());
    metadata
}

/// `self.play(...)` / `self.wait(...)` / `self.pause(...)` provably
/// reachable from a per-frame entry point.
pub struct TimelineReentry;

pub const REENTRY_END: &'static str = "); the render loop cannot be re-entered while a frame \
    is being produced. Move timeline control (`play` / `wait` / \
    `pause`) into `construct` and let the callback only mutate \
    mobject state.";

pub const REENTRY_WHY: &'static str = "Updaters, `always_redraw` factories, update-function animations, \
    and stop conditions run inside the per-frame sample loop of an \
    active play (DESIGN §3.2/§3.3). Calling `Scene.play` / `wait` / \
    `pause` there re-enters the renderer's timeline machinery \
    mid-frame and breaks rendering.";

/// The finding for the call at `i`.
pub open spec fn reentry_at(context: RuleContext<'_>, i: int) -> Option<DiagnosticView> {
    let call = context.qualified_calls.calls@[i];
    match (context.knowledge, context.cost_facts.spec_first_hot(i)) {
        (Some(profile), Some(hot)) => match target_of(*profile, context.project_index, call) {
            Some(canonical) => if is_bound(call) && (canonical == SCENE_PLAY@ || canonical
                == SCENE_WAIT@ || canonical == SCENE_PAUSE@) {
                Some(
                    basic_report(
                        mlc121(),
                        context,
                        call.file,
                        call.call_range,
                        "`Scene."@ + last_segment(canonical)
                            + "` is called from a per-frame callback ("@ + hot.entry.spec_label()
                            + REENTRY_END@,
                        REENTRY_WHY@,
                        EvidenceView::empty().insert(
                            "resolved"@,
                            JsonView::Text(canonical),
                        ).insert("hot_entry"@, JsonView::Text(hot.entry.spec_label())).insert(
                            "state_path"@,
                            text_list(texts(hot.state_path@)),
                        ).insert("cost"@, context.cost_facts.spec_evidence(i)),
                    ),
                )
            } else {
                None
            },
            None => None,
        },
        _ => None,
    }
}

fn reentry(context: &RuleContext<'_>, i: usize) -> (found: Option<Diagnostic>)
    requires
        i < context.qualified_calls.calls@.len(),
    ensures
        report_of(found) == reentry_at(*context, i as int),
{
    let call = &context.qualified_calls.calls[i];
    let profile = match context.knowledge {
        Some(profile) => profile,
        None => {
            return None;
        },
    };
    if !bound_receiver(call) {
        return None;
    }
    let canonical: String = match conclusive_target(profile, &context.project_index, call) {
        Some((canonical, _)) => canonical,
        None => {
            return None;
        },
    };
    if !same_text(canonical.as_str(), SCENE_PLAY) && !same_text(canonical.as_str(), SCENE_WAIT)
        && !same_text(canonical.as_str(), SCENE_PAUSE) {
        return None;
    }
    let hot = match context.cost_facts.is_call_in_hot_context(i) {
        Some(hot) => hot,
        None => {
            return None;
        },
    };
    let method: String = short_name(canonical.as_str());
    let mut evidence = Evidence::new();
    evidence.insert("resolved", json_text(canonical.as_str()));
    evidence.insert("hot_entry", json_text(hot.entry.label()));
    evidence.insert("state_path", json_texts(&hot.state_path));
    evidence.insert("cost", context.cost_facts.evidence_for(i));
    Some(
        build_diagnostic(
            MLC121(),
            context,
            call.file,
            call.call_range,
            cat5(
                "`Scene.",
                method.as_str(),
                "` is called from a per-frame callback (",
                hot.entry.label(),
                REENTRY_END,
            ),
            REENTRY_WHY,
            evidence,
        ),
    )
}

/// Findings of [`TimelineReentry`], call by call.
pub open spec fn reentry_finder(context: RuleContext<'_>) -> spec_fn(int) -> Seq<DiagnosticView> {
    |i: int| found(reentry_at(context, i))
}

impl Rule for TimelineReentry {
    open spec fn declared(&self) -> MetadataView {
        mlc121()
    }

    open spec fn findings(&self, context: RuleContext<'_>) -> Seq<DiagnosticView> {
        gather(context.qualified_calls.calls@.len() as int, reentry_finder(context))
    }

    fn metadata(&self) -> (metadata: &'static RuleMetadata) {
        MLC121()
    }

    fn run(&self, context: &RuleContext<'_>) -> (diagnostics: Vec<Diagnostic>) {
        let calls = &context.qualified_calls.calls;
        let mut diagnostics: Vec<Diagnostic> = Vec::new();
        let mut i: usize = 0;
        assert(reports(diagnostics@) =~= Seq::empty());
        while i < calls.len()
            invariant
                i <= calls@.len(),
                calls@ == context.qualified_calls.calls@,
                reports(diagnostics@) == gather(i as int, reentry_finder(*context)),
            decreases calls@.len() - i,
        {
            push_found(&mut diagnostics, reentry(context, i));
            i += 1;
        }
        diagnostics
    }
}

// ---------------------------------------------------------------------------
// MLC125: remove_updater with a never-matching callback identity.
// ---------------------------------------------------------------------------

/// What [`MLC125`] declares.
pub open spec fn mlc125() -> MetadataView {
    MetadataView {
        id: "MLC125"@,
        summary: "remove_updater callback identity matches no registered updater"@,
        default_enabled: true,
        default_severity: Severity::Warning,
        minimum_confidence: Confidence::High,
        implementation_phase: 2,
        required_profiles: seq![],
        required_capabilities: seq!["lifecycle"@],
        supersedes: seq![],
    }
}

/// Metadata of rule `MLC125`.
#[allow(non_snake_case)]
pub fn MLC125() -> (metadata: &'static RuleMetadata)
    ensures
        metadata@ == mlc125(),
{
    let metadata: &'static RuleMetadata = &RuleMetadata {
        id: "MLC125",
        summary: "remove_updater callback identity matches no registered updater",
        default_enabled: true,
        default_severity: Severity::Warning,
        minimum_confidence: Confidence::High,
        implementation_phase: 2,
        required_profiles: &[],
        required_capabilities: &["lifecycle"],
        supersedes: &[],
    };
    assert(metadata@ =~= mlc125());
    metadata
}

/// `remove_updater(...)` whose argument identity definitely matches no
/// registered updater.
pub struct RemoveUpdaterIdentityMismatch;

pub const MISMATCH: &'static str = "` passes a callback whose identity matches no \
    updater registered on ";

pub const MISMATCH_END: &'static str = "; Manim removes updaters by \
    function identity, so this call removes nothing. Store the \
    callback in a variable at registration time and pass the \
    same reference here.";

pub const MISMATCH_WHY: &'static str = "`remove_updater` compares the argument to the registered \
    callbacks by object identity (mobject.py \
    `Mobject.remove_updater`). A lambda or different function \
    object — even with identical code — is a distinct identity and \
    silently removes nothing (DESIGN §3.3).";

/// Whether two hosts are definitely the same.
pub open spec fn same_host(a: UpdaterHost, b: UpdaterHost) -> bool {
    match (a, b) {
        (UpdaterHost::Scene, UpdaterHost::Scene) => true,
        (UpdaterHost::Mobject(x), UpdaterHost::Mobject(y)) => x.same(y),
        _ => false,
    }
}

fn is_same_host(a: &UpdaterHost, b: &UpdaterHost) -> (same: bool)
    ensures
        same == same_host(*a, *b),
{
    match (a, b) {
        (UpdaterHost::Scene, UpdaterHost::Scene) => true,
        (UpdaterHost::Mobject(x), UpdaterHost::Mobject(y)) => x.definitely_same(y),
        _ => false,
    }
}

/// Whether the removed callback is a lambda written inside the removal.
pub open spec fn fresh_lambda(removal: UpdaterRemoval) -> bool {
    match removal.callback {
        CallbackRef::Lambda(site) => site.file == removal.site.file
            && removal.site.spec_range().covers(site.spec_range()),
        _ => false,
    }
}

fn inline_lambda(removal: &UpdaterRemoval) -> (fresh: bool)
    ensures
        fresh == fresh_lambda(*removal),
{
    match &removal.callback {
        CallbackRef::Lambda(site) => site.file == removal.site.file
            && removal.site.range().encloses(site.range()),
        _ => false,
    }
}

/// Whether a registration on the host has an unknown callback.
pub open spec fn unknown_registration(
    updaters: Seq<UpdaterRegistration>,
    host: UpdaterHost,
) -> bool {
    exists|r: int|
        0 <= r < updaters.len() && same_host((#[trigger] updaters[r]).host, host)
            && updaters[r].fact.callback is Unknown
}

fn has_unknown_registration(updaters: &Vec<UpdaterRegistration>, host: &UpdaterHost) -> (has: bool)
    ensures
        has == unknown_registration(updaters@, *host),
{
    let mut r: usize = 0;
    while r < updaters.len()
        invariant
            r <= updaters@.len(),
            forall|j: int|
                0 <= j < r ==> !(same_host((#[trigger] updaters@[j]).host, *host)
                    && updaters@[j].fact.callback is Unknown),
        decreases updaters@.len() - r,
    {
        if is_same_host(&updaters[r].host, host) {
            if let CallbackRef::Unknown = &updaters[r].fact.callback {
                return true;
            }
        }
        r += 1;
    }
    false
}

/// Index of the first updater mutation at `site`, from `i` on.
pub open spec fn removal_event(events: Seq<TracedEvent>, site: AllocationSite, i: int) -> Option<
    int,
>
    decreases events.len() - i,
{
    if i < 0 || i >= events.len() {
        None
    } else if events[i].site == site && mutates_updaters(events[i].event) {
        Some(i)
    } else {
        removal_event(events, site, i + 1)
    }
}

/// Whether an event changes the updaters of an object.
pub open spec fn mutates_updaters(event: Event) -> bool {
    match event {
        Event::Mutate { target: _, kind } => kind == MutationKind::Updaters,
        _ => false,
    }
}

fn find_removal_event(events: &Vec<TracedEvent>, site: AllocationSite) -> (index: Option<usize>)
    ensures
        match index {
            Some(found) => removal_event(events@, site, 0) == Some(found as int) && found
                < events@.len(),
            None => removal_event(events@, site, 0) is None,
        },
{
    let mut i: usize = 0;
    while i < events.len()
        invariant
            i <= events@.len(),
            removal_event(events@, site, 0) == removal_event(events@, site, i as int),
        decreases events@.len() - i,
    {
        if events[i].site == site {
            if let Event::Mutate { target: _, kind } = &events[i].event {
                if *kind == MutationKind::Updaters {
                    return Some(i);
                }
            }
        }
        i += 1;
    }
    None
}

/// Whether an unresolved call before `end` can have touched the host.
pub open spec fn touched_before(
    events: Seq<TracedEvent>,
    host: UpdaterHost,
    end: int,
) -> bool {
    exists|i: int| 0 <= i < end && unknown_touch((#[trigger] events[i]).event, host)
}

/// Whether an event is an unresolved call on the host.
pub open spec fn unknown_touch(event: Event, host: UpdaterHost) -> bool {
    match (event, host) {
        (Event::UnknownMutation { values }, UpdaterHost::Mobject(object)) => targets_same(
            values@,
            object,
        ),
        _ => false,
    }
}

fn is_touched_before(events: &Vec<TracedEvent>, host: &UpdaterHost, end: usize) -> (touched: bool)
    requires
        end <= events@.len(),
    ensures
        touched == touched_before(events@, *host, end as int),
{
    let mut i: usize = 0;
    while i < end
        invariant
            i <= end <= events@.len(),
            forall|j: int| 0 <= j < i ==> !unknown_touch((#[trigger] events@[j]).event, *host),
        decreases end - i,
    {
        if let Event::UnknownMutation { values } = &events[i].event {
            if let UpdaterHost::Mobject(object) = host {
                if any_definitely_same(values, object) {
                    assert(unknown_touch(events@[i as int].event, *host));
                    return true;
                }
            }
        }
        i += 1;
    }
    false
}

/// Whether the registered updaters are completely known at a removal.
pub open spec fn reliable_mismatch(scene: SceneLifecycle, removal: UpdaterRemoval) -> bool {
    !unknown_registration(scene.updaters@, removal.host) && match removal_event(
        scene.events@,
        removal.site,
        0,
    ) {
        Some(index) => !touched_before(scene.events@, removal.host, index),
        None => false,
    }
}

/// For a non-lambda mismatch the registered-updater set must be provably
/// complete: no registration on the same host with an unknown callback
/// identity, and no unresolved call that may have registered one before the
/// removal.
fn named_mismatch_is_reliable(scene: &SceneLifecycle, removal: &UpdaterRemoval) -> (reliable: bool)
    ensures
        reliable == reliable_mismatch(*scene, *removal),
{
    if has_unknown_registration(&scene.updaters, &removal.host) {
        return false;
    }
    match find_removal_event(&scene.events, removal.site) {
        Some(index) => !is_touched_before(&scene.events, &removal.host, index),
        None => false,
    }
}

/// The candidate of the removal at `k`.
pub open spec fn mismatch_of(context: RuleContext<'_>, scene: SceneLifecycle, k: int) -> Option<
    CandidateView,
> {
    let removal = scene.updater_removals@[k];
    if removal.matched == Truth::No && (fresh_lambda(removal) || reliable_mismatch(
        scene,
        removal,
    )) {
        Some(
            (
                key_of(removal.site),
                Some(
                    basic_report(
                        mlc125(),
                        context,
                        removal.site.file,
                        removal.site.spec_range(),
                        "`"@ + slice_in(
                            *context.sources,
                            removal.site.file,
                            removal.site.spec_range(),
                        ) + MISMATCH@ + match removal.host {
                            UpdaterHost::Scene => "the scene"@,
                            UpdaterHost::Mobject(_) => "this mobject"@,
                        } + MISMATCH_END@,
                        MISMATCH_WHY@,
                        EvidenceView::empty().insert(
                            "identity"@,
                            JsonView::Text(
                                if fresh_lambda(removal) {
                                    "fresh-lambda"@
                                } else {
                                    "unmatched-reference"@
                                },
                            ),
                        ).insert("scene"@, JsonView::Text(scene.qualified_name@)),
                    ),
                ),
            ),
        )
    } else {
        None
    }
}

fn mismatch_check(context: &RuleContext<'_>, scene: &SceneLifecycle, k: usize) -> (candidate: Option<
    Candidate,
>)
    requires
        k < scene.updater_removals@.len(),
    ensures
        match candidate {
            Some(found) => mismatch_of(*context, *scene, k as int) == Some(candidate_view(found)),
            None => mismatch_of(*context, *scene, k as int) is None,
        },
{
    let removal = &scene.updater_removals[k];
    if removal.matched != Truth::No {
        return None;
    }
    // An inline lambda literal is a fresh function object: it can never be
    // identical to anything registered earlier.
    let fresh: bool = inline_lambda(removal);
    if !fresh && !named_mismatch_is_reliable(scene, removal) {
        return None;
    }
    let text: String = context.sources.slice(removal.site.file, removal.site.range());
    let identity: &'static str = if fresh {
        "fresh-lambda"
    } else {
        "unmatched-reference"
    };
    let mut evidence = Evidence::new();
    evidence.insert("identity", json_text(identity));
    evidence.insert("scene", json_text(scene.qualified_name.as_str()));
    let host: &'static str = match &removal.host {
        UpdaterHost::Scene => "the scene",
        UpdaterHost::Mobject(_) => "this mobject",
    };
    let diagnostic = build_diagnostic(
        MLC125(),
        context,
        removal.site.file,
        removal.site.range(),
        cat5("`", text.as_str(), MISMATCH, host, MISMATCH_END),
        MISMATCH_WHY,
        evidence,
    );
    Some(Candidate { key: site_key(removal.site), diagnostic: Some(diagnostic) })
}

/// The candidates of a scene, in the order of its updater removals.
pub open spec fn mismatch_items(context: RuleContext<'_>, scene: SceneLifecycle) -> spec_fn(
    int,
) -> Seq<CandidateView> {
    |k: int| found(mismatch_of(context, scene, k))
}

/// The candidates of the scene at `i`.
pub open spec fn mismatch_at(context: RuleContext<'_>, i: int) -> Seq<CandidateView> {
    let scene = context.lifecycle_facts.scenes@[i];
    gather(scene.updater_removals@.len() as int, mismatch_items(context, scene))
}

fn mismatch(context: &RuleContext<'_>, i: usize) -> (candidates: Vec<Candidate>)
    requires
        i < context.lifecycle_facts.scenes@.len(),
    ensures
        candidate_views(candidates@) == mismatch_at(*context, i as int),
{
    let scene = &context.lifecycle_facts.scenes[i];
    let mut candidates: Vec<Candidate> = Vec::new();
    let mut k: usize = 0;
    assert(candidate_views(candidates@) =~= Seq::empty());
    while k < scene.updater_removals.len()
        invariant
            k <= scene.updater_removals@.len(),
            candidate_views(candidates@) == gather(k as int, mismatch_items(*context, *scene)),
        decreases scene.updater_removals@.len() - k,
    {
        offer_found(&mut candidates, mismatch_check(context, scene, k));
        k += 1;
    }
    candidates
}

/// Candidates of [`RemoveUpdaterIdentityMismatch`], scene by scene.
pub open spec fn mismatch_finder(context: RuleContext<'_>) -> spec_fn(int) -> Seq<CandidateView> {
    |i: int| mismatch_at(context, i)
}

impl Rule for RemoveUpdaterIdentityMismatch {
    open spec fn declared(&self) -> MetadataView {
        mlc125()
    }

    open spec fn findings(&self, context: RuleContext<'_>) -> Seq<DiagnosticView> {
        kept(gather(context.lifecycle_facts.scenes@.len() as int, mismatch_finder(context)))
    }

    fn metadata(&self) -> (metadata: &'static RuleMetadata) {
        MLC125()
    }

    fn run(&self, context: &RuleContext<'_>) -> (diagnostics: Vec<Diagnostic>) {
        let scenes = &context.lifecycle_facts.scenes;
        let mut candidates: Vec<Candidate> = Vec::new();
        let mut i: usize = 0;
        assert(candidate_views(candidates@) =~= Seq::empty());
        while i < scenes.len()
            invariant
                i <= scenes@.len(),
                scenes@ == context.lifecycle_facts.scenes@,
                candidate_views(candidates@) == gather(i as int, mismatch_finder(*context)),
            decreases scenes@.len() - i,
        {
            offer_all(&mut candidates, mismatch(context, i));
            i += 1;
        }
        keep_first(candidates)
    }
}

// ---------------------------------------------------------------------------
// MLC112: default wait freezes while a frame-varying updater is active.
// ---------------------------------------------------------------------------

/// What [`MLC112`] declares.
pub open spec fn mlc112() -> MetadataView {
    MetadataView {
        id: "MLC112"@,
        summary: "Default wait() freezes while a frame-varying one-argument updater is active"@,
        default_enabled: true,
        default_severity: Severity::Warning,
        minimum_confidence: Confidence::High,
        implementation_phase: 2,
        required_profiles: seq![],
        required_capabilities: seq!["lifecycle"@],
        supersedes: seq![],
    }
}

/// Metadata of rule `MLC112`.
#[allow(non_snake_case)]
pub fn MLC112() -> (metadata: &'static RuleMetadata)
    ensures
        metadata@ == mlc112(),
{
    let metadata: &'static RuleMetadata = &RuleMetadata {
        id: "MLC112",
        summary: "Default wait() freezes while a frame-varying one-argument updater is active",
        default_enabled: true,
        default_severity: Severity::Warning,
        minimum_confidence: Confidence::High,
        implementation_phase: 2,
        required_profiles: &[],
        required_capabilities: &["lifecycle"],
        supersedes: &[],
    };
    assert(metadata@ =~= mlc112());
    metadata
}

/// A provably static default `wait()` while a one-argument updater that
/// provably reads frame-varying state is active on a scene-family member:
/// the updater's visual change never renders.
///
/// Every gate is a definite fact: the body dataflow must be
/// `reads_frame_varying == Yes` and `uses_dt == No`, the wait must be
/// `dynamic_wait == No` with no literal `frozen_frame`, the registration
/// certain, and the host provably in the scene family with the updater still
/// attached at the wait.
pub struct FrozenWaitFrameVaryingUpdater;

pub const FROZEN_WAIT: &'static str = "This `wait()` renders a single frozen frame: nothing makes it \
    dynamic, and the updater registered at line ";

pub const FROZEN_WAIT_END: &'static str = " reads \
    frame-varying state without a `dt` parameter, so its visual change \
    never renders during the wait. Pass `frozen_frame=False`, or \
    declare a `dt` parameter on the updater.";

pub const FROZEN_WAIT_WHY: &'static str = "A default `Scene.wait()` re-renders every frame only when a scene \
    updater, `stop_condition`, `always_update_mobjects`, or a *time-based* \
    family updater (one whose signature names a `dt` parameter) exists. A \
    one-argument updater never makes a wait dynamic — even one that reads \
    a `ValueTracker`, random source, or clock every frame — so the wait \
    freezes and the updater's changes are invisible (DESIGN §3.3).";

pub const FROZEN_WAIT_HERE: &'static str = "frame-varying one-argument updater registered here";

pub const MAKE_DYNAMIC: &'static str = "Pass `frozen_frame=False` so the wait renders dynamically";

/// Whether a removal can have detached an updater of `object`.
pub open spec fn maybe_removed(removals: Seq<UpdaterRemoval>, object: ObjectId) -> bool {
    exists|r: int|
        0 <= r < removals.len() && (#[trigger] removals[r]).matched != Truth::No && same_host(
            removals[r].host,
            UpdaterHost::Mobject(object),
        )
}

fn may_be_removed(removals: &Vec<UpdaterRemoval>, object: &ObjectId) -> (removed: bool)
    ensures
        removed == maybe_removed(removals@, *object),
{
    let host = UpdaterHost::Mobject(*object);
    let mut r: usize = 0;
    while r < removals.len()
        invariant
            r <= removals@.len(),
            host == UpdaterHost::Mobject(*object),
            forall|j: int|
                0 <= j < r ==> !((#[trigger] removals@[j]).matched != Truth::No && same_host(
                    removals@[j].host,
                    host,
                )),
        decreases removals@.len() - r,
    {
        if removals[r].matched != Truth::No && is_same_host(&removals[r].host, &host) {
            return true;
        }
        r += 1;
    }
    false
}

/// Whether the wait freezes a registered updater that should change frames.
pub open spec fn freezes(
    scene: SceneLifecycle,
    play: PlayFact,
    registration: UpdaterRegistration,
) -> bool {
    match (registration.host, scene.spec_state_at(play.site.file, play.site.start)) {
        (UpdaterHost::Mobject(object), Some(snapshot)) => registration.certainty
            == Presence::Present && registration.body.reads_frame_varying == Truth::Yes
            && registration.body.uses_dt == Truth::No && !maybe_removed(
            scene.updater_removals@,
            object,
        ) && match snapshot.heap.spec_object(object) {
            Some(state) => state.family_membership == Presence::Present && holds_updater(
                state.updaters@,
                registration.fact,
            ),
            None => false,
        },
        _ => false,
    }
}

fn wait_freezes(
    scene: &SceneLifecycle,
    play: &PlayFact,
    registration: &UpdaterRegistration,
) -> (frozen: bool)
    ensures
        frozen == freezes(*scene, *play, *registration),
{
    let object: ObjectId = match registration.host {
        UpdaterHost::Mobject(object) => object,
        UpdaterHost::Scene => {
            return false;
        },
    };
    if registration.certainty != Presence::Present || registration.body.reads_frame_varying
        != Truth::Yes || registration.body.uses_dt != Truth::No {
        return false;
    }
    // A removal that may match this host makes "still active at the wait"
    // unprovable: silence.
    if may_be_removed(&scene.updater_removals, &object) {
        return false;
    }
    // The updater must still be attached and its host in the scene family
    // at the wait.
    match scene.state_at(play.site.file, play.site.start) {
        Some(snapshot) => match snapshot.heap.object(&object) {
            Some(state) => state.family_membership == Presence::Present && has_updater(
                &state.updaters,
                &registration.fact,
            ),
            None => false,
        },
        None => false,
    }
}

/// Index of the first registration, from `r` on, that the wait freezes.
pub open spec fn frozen_from(scene: SceneLifecycle, play: PlayFact, r: int) -> Option<int>
    decreases scene.updaters@.len() - r,
{
    if r < 0 || r >= scene.updaters@.len() {
        None
    } else if freezes(scene, play, scene.updaters@[r]) {
        Some(r)
    } else {
        frozen_from(scene, play, r + 1)
    }
}

fn find_frozen(scene: &SceneLifecycle, play: &PlayFact) -> (index: Option<usize>)
    ensures
        match index {
            Some(found) => frozen_from(*scene, *play, 0) == Some(found as int) && found
                < scene.updaters@.len(),
            None => frozen_from(*scene, *play, 0) is None,
        },
{
    let mut r: usize = 0;
    while r < scene.updaters.len()
        invariant
            r <= scene.updaters@.len(),
            frozen_from(*scene, *play, 0) == frozen_from(*scene, *play, r as int),
        decreases scene.updaters@.len() - r,
    {
        if wait_freezes(scene, play, &scene.updaters[r]) {
            return Some(r);
        }
        r += 1;
    }
    None
}

/// Whether the last character that is no white space is `c`.
pub open spec fn visibly_ends_with(text: Seq<char>, c: char) -> bool
    decreases text.len(),
{
    if text.len() == 0 {
        false
    } else if white_space(text.last()) {
        visibly_ends_with(text.drop_last(), c)
    } else {
        text.last() == c
    }
}

/// Whether the first `len` characters of a text, without trailing white
/// space, end with `c`.
fn prefix_ends_with(text: &str, len: usize, c: char) -> (ends: bool)
    requires
        len <= text@.len(),
    ensures
        ends == visibly_ends_with(text@.take(len as int), c),
{
    let mut end: usize = len;
    while end > 0
        invariant
            end <= len <= text@.len(),
            visibly_ends_with(text@.take(len as int), c) == visibly_ends_with(
                text@.take(end as int),
                c,
            ),
        decreases end,
    {
        let last: char = text.get_char(end - 1);
        assert(text@.take(end as int).drop_last() =~= text@.take(end - 1));
        if !is_whitespace(last) {
            return last == c;
        }
        end -= 1;
    }
    false
}

/// Insertion of `frozen_frame=False` into the wait call.
pub open spec fn dynamic_fix_of(context: RuleContext<'_>, play: PlayFact) -> Option<FixView> {
    let text = slice_in(*context.sources, play.site.file, play.site.spec_range());
    if text.len() > 0 && text.last() == ')' && play.site.end > play.site.start {
        let at = (play.site.end - 1) as u32;
        Some(
            single_edit(
                FixApplicability::Unsafe,
                MAKE_DYNAMIC@,
                edit_at(
                    context,
                    play.site.file,
                    TextRange { start: at, end: at },
                    if visibly_ends_with(text.drop_last(), '(') {
                        "frozen_frame=False"@
                    } else {
                        ", frozen_frame=False"@
                    },
                ),
            ),
        )
    } else {
        None
    }
}

/// Unsafe fix: force the wait dynamic. Inserting the keyword needs a plain
/// `...(...)` call text.
fn dynamic_fix(context: &RuleContext<'_>, play: &PlayFact) -> (fix: Option<Fix>)
    ensures
        match fix {
            Some(found) => dynamic_fix_of(*context, *play) == Some(found@),
            None => dynamic_fix_of(*context, *play) is None,
        },
{
    let text: String = context.sources.slice(play.site.file, play.site.range());
    let len: usize = text.as_str().unicode_len();
    if len == 0 || text.as_str().get_char(len - 1) != ')' || play.site.end <= play.site.start {
        return None;
    }
    let at: u32 = play.site.end - 1;
    assert(text@.take(len - 1) =~= text@.drop_last());
    let replacement: &'static str = if prefix_ends_with(text.as_str(), len - 1, '(') {
        "frozen_frame=False"
    } else {
        ", frozen_frame=False"
    };
    Some(
        one_edit(
            FixApplicability::Unsafe,
            MAKE_DYNAMIC.to_owned(),
            text_edit(context, play.site.file, TextRange::new(at, at), replacement.to_owned()),
        ),
    )
}

/// Line a site starts at, in decimal.
pub open spec fn line_text(context: RuleContext<'_>, site: AllocationSite) -> Seq<char> {
    numeral(span_in(*context.sources, site.file, site.spec_range()).0.0 as nat)
}

pub fn line_of(context: &RuleContext<'_>, site: AllocationSite) -> (line: String)
    ensures
        line@ == line_text(*context, site),
{
    let span = context.sources.span(site.file, site.range());
    assert(span.pairs().0.0 == span.start.line as int);
    decimal(span.start.line)
}

/// The report for a wait that freezes a registration.
pub open spec fn frozen_wait_report(
    context: RuleContext<'_>,
    scene: SceneLifecycle,
    play: PlayFact,
    registration: UpdaterRegistration,
) -> DiagnosticView {
    let line = line_text(context, registration.site);
    DiagnosticView {
        fix: dynamic_fix_of(context, play),
        ..with_related(
            basic_report(
                mlc112(),
                context,
                play.site.file,
                play.site.spec_range(),
                FROZEN_WAIT@ + line + FROZEN_WAIT_END@,
                FROZEN_WAIT_WHY@,
                EvidenceView::empty().insert(
                    "scene"@,
                    JsonView::Text(scene.qualified_name@),
                ).insert("dynamic_wait"@, JsonView::Text("no"@)).insert(
                    "frozen_frame"@,
                    JsonView::Text("default"@),
                ).insert("reads_frame_varying"@, JsonView::Text("yes"@)).insert(
                    "uses_dt"@,
                    JsonView::Text("no"@),
                ).insert(
                    "registration"@,
                    JsonView::Text(
                        path_in(*context.sources, registration.site.file) + ":"@ + line,
                    ),
                ),
            ),
            related_at(context, registration.site, FROZEN_WAIT_HERE@),
        )
    }
}

/// Assembles the diagnostic for one confirmed static wait with its
/// frame-varying registration, including the unsafe `frozen_frame=False`
/// insertion when the call text allows it.
fn frozen_wait_diagnostic(
    context: &RuleContext<'_>,
    scene: &SceneLifecycle,
    play: &PlayFact,
    registration: &UpdaterRegistration,
) -> (diagnostic: Diagnostic)
    ensures
        diagnostic@ == frozen_wait_report(*context, *scene, *play, *registration),
{
    let line: String = line_of(context, registration.site);
    let path: String = context.sources.path(registration.site.file);
    let mut evidence = Evidence::new();
    evidence.insert("scene", json_text(scene.qualified_name.as_str()));
    evidence.insert("dynamic_wait", json_text("no"));
    evidence.insert("frozen_frame", json_text("default"));
    evidence.insert("reads_frame_varying", json_text("yes"));
    evidence.insert("uses_dt", json_text("no"));
    evidence.insert(
        "registration",
        json_text(cat3(path.as_str(), ":", line.as_str()).as_str()),
    );
    let mut diagnostic = build_diagnostic(
        MLC112(),
        context,
        play.site.file,
        play.site.range(),
        cat3(FROZEN_WAIT, line.as_str(), FROZEN_WAIT_END),
        FROZEN_WAIT_WHY,
        evidence,
    );
    add_related(
        &mut diagnostic,
        related_site(context, registration.site, FROZEN_WAIT_HERE.to_owned()),
    );
    diagnostic.fix = dynamic_fix(context, play);
    diagnostic
}

/// The candidate of the play at `k`.
pub open spec fn frozen_wait_of(context: RuleContext<'_>, scene: SceneLifecycle, k: int) -> Option<
    CandidateView,
> {
    let play = scene.plays@[k];
    if play.kind == PlayKind::Wait && play.dynamic_wait == Truth::No && play.frozen_frame is None {
        match frozen_from(scene, play, 0) {
            Some(r) => Some(
                (
                    key_of(play.site),
                    Some(frozen_wait_report(context, scene, play, scene.updaters@[r])),
                ),
            ),
            None => None,
        }
    } else {
        None
    }
}

fn frozen_wait_check(context: &RuleContext<'_>, scene: &SceneLifecycle, k: usize) -> (candidate:
    Option<Candidate>)
    requires
        k < scene.plays@.len(),
    ensures
        match candidate {
            Some(found) => frozen_wait_of(*context, *scene, k as int) == Some(
                candidate_view(found),
            ),
            None => frozen_wait_of(*context, *scene, k as int) is None,
        },
{
    let play = &scene.plays[k];
    if play.kind != PlayKind::Wait || play.dynamic_wait != Truth::No
        || play.frozen_frame.is_some() {
        return None;
    }
    match find_frozen(scene, play) {
        Some(r) => Some(
            Candidate {
                key: site_key(play.site),
                diagnostic: Some(
                    frozen_wait_diagnostic(context, scene, play, &scene.updaters[r]),
                ),
            },
        ),
        None => None,
    }
}

/// The candidates of a scene, in the order of its plays.
pub open spec fn frozen_wait_items(context: RuleContext<'_>, scene: SceneLifecycle) -> spec_fn(
    int,
) -> Seq<CandidateView> {
    |k: int| found(frozen_wait_of(context, scene, k))
}

/// The candidates of the scene at `i`.
pub open spec fn frozen_wait_at(context: RuleContext<'_>, i: int) -> Seq<CandidateView> {
    let scene = context.lifecycle_facts.scenes@[i];
    gather(scene.plays@.len() as int, frozen_wait_items(context, scene))
}

fn frozen_wait(context: &RuleContext<'_>, i: usize) -> (candidates: Vec<Candidate>)
    requires
        i < context.lifecycle_facts.scenes@.len(),
    ensures
        candidate_views(candidates@) == frozen_wait_at(*context, i as int),
{
    let scene = &context.lifecycle_facts.scenes[i];
    let mut candidates: Vec<Candidate> = Vec::new();
    let mut k: usize = 0;
    assert(candidate_views(candidates@) =~= Seq::empty());
    while k < scene.plays.len()
        invariant
            k <= scene.plays@.len(),
            candidate_views(candidates@) == gather(k as int, frozen_wait_items(*context, *scene)),
        decreases scene.plays@.len() - k,
    {
        offer_found(&mut candidates, frozen_wait_check(context, scene, k));
        k += 1;
    }
    candidates
}

/// Candidates of [`FrozenWaitFrameVaryingUpdater`], scene by scene.
pub open spec fn frozen_wait_finder(context: RuleContext<'_>) -> spec_fn(int) -> Seq<CandidateView> {
    |i: int| frozen_wait_at(context, i)
}

impl Rule for FrozenWaitFrameVaryingUpdater {
    open spec fn declared(&self) -> MetadataView {
        mlc112()
    }

    open spec fn findings(&self, context: RuleContext<'_>) -> Seq<DiagnosticView> {
        kept(gather(context.lifecycle_facts.scenes@.len() as int, frozen_wait_finder(context)))
    }

    fn metadata(&self) -> (metadata: &'static RuleMetadata) {
        MLC112()
    }

    fn run(&self, context: &RuleContext<'_>) -> (diagnostics: Vec<Diagnostic>) {
        let scenes = &context.lifecycle_facts.scenes;
        let mut candidates: Vec<Candidate> = Vec::new();
        let mut i: usize = 0;
        assert(candidate_views(candidates@) =~= Seq::empty());
        while i < scenes.len()
            invariant
                i <= scenes@.len(),
                scenes@ == context.lifecycle_facts.scenes@,
                candidate_views(candidates@) == gather(i as int, frozen_wait_finder(*context)),
            decreases scenes@.len() - i,
        {
            offer_all(&mut candidates, frozen_wait(context, i));
            i += 1;
        }
        keep_first(candidates)
    }
}

// ---------------------------------------------------------------------------
// MLC118: a normal animation suspends an active overlapping updater.
// ---------------------------------------------------------------------------

/// What [`MLC118`] declares.
pub open spec fn mlc118() -> MetadataView {
    MetadataView {
        id: "MLC118"@,
        summary: "Normal animation suspends an active updater whose resumed write overlaps its result"@,
        default_enabled: true,
        default_severity: Severity::Info,
        minimum_confidence: Confidence::Medium,
        implementation_phase: 2,
        required_profiles: seq![],
        required_capabilities: seq!["lifecycle"@],
        supersedes: seq![],
    }
}

/// Metadata of rule `MLC118`.
#[allow(non_snake_case)]
pub fn MLC118() -> (metadata: &'static RuleMetadata)
    ensures
        metadata@ == mlc118(),
{
    let metadata: &'static RuleMetadata = &RuleMetadata {
        id: "MLC118",
        summary: "Normal animation suspends an active updater whose resumed write overlaps its result",
        default_enabled: true,
        default_severity: Severity::Info,
        minimum_confidence: Confidence::Medium,
        implementation_phase: 2,
        required_profiles: &[],
        required_capabilities: &["lifecycle"],
        supersedes: &[],
    };
    assert(metadata@ =~= mlc118());
    metadata
}

/// An animation that definitely suspends a live target with a definitely
/// active updater whose unconditional, fully-classified write overlaps the
/// animation's write channels.
pub struct UpdaterSuspendResumeDivergence;

pub const SUSPENDS: &'static str = "This animation suspends an active updater that also writes ";

pub const SUSPENDS_END: &'static str = "; \
    `finish()` resumes it and the same play immediately runs the updater \
    once with `dt=0`, so the animation's final state is immediately \
    followed by an overlapping write. Animate the updater's driver \
    (often a `ValueTracker`), or make the suspension choice explicit.";

pub const SUSPENDS_WHY: &'static str = "Normal Animation.begin() suspends the live target's updaters, finish() \
    interpolates alpha=1 and resumes them, and Scene.play then calls \
    update_mobjects(0) before returning. An active updater with a proven \
    overlapping write therefore observes neither intermediate animation \
    frames nor a stable post-animation interval (animation.py \
    Animation.begin/finish; scene.py play_internal; DESIGN §3.2).";

pub const SUSPENDS_HERE: &'static str = "active overlapping updater registered here";

/// Whether a registration is definitely active on `target` and writes a
/// channel of the animation.
pub open spec fn active_overlap(
    scene: SceneLifecycle,
    registration: UpdaterRegistration,
    target: ObjectId,
    target_state: MobjectState,
    channels: Seq<WriteChannel>,
) -> bool {
    registration.certainty == Presence::Present && registration.body.mutates_target == Truth::Yes
        && registration.body.calls_unknown == Truth::No && registration.body.channels_known
        == Truth::Yes && common_channels(registration.body.write_channels@, channels).len() > 0
        && same_host(registration.host, UpdaterHost::Mobject(target)) && holds_updater(
        target_state.updaters@,
        registration.fact,
    ) && !maybe_removed(scene.updater_removals@, target)
}

fn active_overlapping_registration(
    scene: &SceneLifecycle,
    registration: &UpdaterRegistration,
    target: &ObjectId,
    target_state: &MobjectState,
    channels: &Vec<WriteChannel>,
) -> (active: bool)
    ensures
        active == active_overlap(*scene, *registration, *target, *target_state, channels@),
{
    if registration.certainty != Presence::Present || registration.body.mutates_target
        != Truth::Yes || registration.body.calls_unknown != Truth::No
        || registration.body.channels_known != Truth::Yes {
        return false;
    }
    if shared_channels_of(&registration.body.write_channels, channels).len() == 0 {
        return false;
    }
    if !is_same_host(&registration.host, &UpdaterHost::Mobject(*target)) {
        return false;
    }
    // The heap's updater set is a may-set after branch joins. Any removal of
    // this identity before the play makes definite liveness unprovable.
    has_updater(&target_state.updaters, &registration.fact) && !may_be_removed(
        &scene.updater_removals,
        target,
    )
}

/// The report for a suspended overlapping updater.
pub open spec fn suspend_report(
    context: RuleContext<'_>,
    scene: SceneLifecycle,
    animation: PlayedAnimation,
    registration: UpdaterRegistration,
    channels: Seq<WriteChannel>,
) -> DiagnosticView {
    let names = channel_names(common_channels(registration.body.write_channels@, channels));
    with_related(
        basic_report(
            mlc118(),
            context,
            animation.site.file,
            animation.site.spec_range(),
            SUSPENDS@ + joined(names, ", "@) + SUSPENDS_END@,
            SUSPENDS_WHY@,
            EvidenceView::empty().insert("scene"@, JsonView::Text(scene.qualified_name@)).insert(
                "overlapping_channels"@,
                text_list(names),
            ).insert("suspend_behavior"@, JsonView::Text("suspends-live-targets"@)).insert(
                "final_updater_pass"@,
                JsonView::Flag(true),
            ),
        ),
        related_at(context, registration.site, SUSPENDS_HERE@),
    )
}

fn suspend_resume_diagnostic(
    context: &RuleContext<'_>,
    scene: &SceneLifecycle,
    animation: &PlayedAnimation,
    registration: &UpdaterRegistration,
    channels: &Vec<WriteChannel>,
) -> (diagnostic: Diagnostic)
    ensures
        diagnostic@ == suspend_report(*context, *scene, *animation, *registration, channels@),
{
    let names: Vec<String> = label_channels(
        &shared_channels_of(&registration.body.write_channels, channels),
    );
    let mut evidence = Evidence::new();
    evidence.insert("scene", json_text(scene.qualified_name.as_str()));
    evidence.insert("overlapping_channels", json_texts(&names));
    evidence.insert("suspend_behavior", json_text("suspends-live-targets"));
    evidence.insert("final_updater_pass", Json::Flag(true));
    let mut diagnostic = build_diagnostic(
        MLC118(),
        context,
        animation.site.file,
        animation.site.range(),
        cat3(SUSPENDS, join(&names, ", ").as_str(), SUSPENDS_END),
        SUSPENDS_WHY,
        evidence,
    );
    add_related(
        &mut diagnostic,
        related_site(context, registration.site, SUSPENDS_HERE.to_owned()),
    );
    diagnostic
}

/// The candidate of one registration.
pub open spec fn suspended_of(
    context: RuleContext<'_>,
    scene: SceneLifecycle,
    animation: PlayedAnimation,
    state: AnimationState,
    target: ObjectId,
    target_state: MobjectState,
    registration: UpdaterRegistration,
) -> Option<CandidateView> {
    if active_overlap(scene, registration, target, target_state, state.write_channels@) {
        Some(
            (
                pair_key(animation.site, registration.site),
                Some(
                    suspend_report(
                        context,
                        scene,
                        animation,
                        registration,
                        state.write_channels@,
                    ),
                ),
            ),
        )
    } else {
        None
    }
}

fn suspended_check(
    context: &RuleContext<'_>,
    scene: &SceneLifecycle,
    animation: &PlayedAnimation,
    state: &AnimationState,
    target: &ObjectId,
    target_state: &MobjectState,
    registration: &UpdaterRegistration,
) -> (candidate: Option<Candidate>)
    ensures
        match candidate {
            Some(found) => suspended_of(
                *context,
                *scene,
                *animation,
                *state,
                *target,
                *target_state,
                *registration,
            ) == Some(candidate_view(found)),
            None => suspended_of(
                *context,
                *scene,
                *animation,
                *state,
                *target,
                *target_state,
                *registration,
            ) is None,
        },
{
    if !active_overlapping_registration(
        scene,
        registration,
        target,
        target_state,
        &state.write_channels,
    ) {
        return None;
    }
    Some(
        Candidate {
            key: site_pair(animation.site, registration.site),
            diagnostic: Some(
                suspend_resume_diagnostic(
                    context,
                    scene,
                    animation,
                    registration,
                    &state.write_channels,
                ),
            ),
        },
    )
}

/// Candidates of the registrations of a scene, one by one.
pub open spec fn suspended_registrations_parts(
    context: RuleContext<'_>,
    scene: SceneLifecycle,
    animation: PlayedAnimation,
    state: AnimationState,
    target: ObjectId,
    target_state: MobjectState,
) -> spec_fn(int) -> Seq<CandidateView> {
    |k: int| found(suspended_of(context, scene, animation, state, target, target_state, scene.updaters@[k]))
}

/// Candidates of the registrations of a scene, in order.
pub open spec fn suspended_registrations_all(
    context: RuleContext<'_>,
    scene: SceneLifecycle,
    animation: PlayedAnimation,
    state: AnimationState,
    target: ObjectId,
    target_state: MobjectState,
) -> Seq<CandidateView> {
    gather(scene.updaters@.len() as int, suspended_registrations_parts(context, scene, animation, state, target, target_state))
}

fn suspended_registrations(
    context: &RuleContext<'_>,
    scene: &SceneLifecycle,
    animation: &PlayedAnimation,
    state: &AnimationState,
    target: &ObjectId,
    target_state: &MobjectState,
) -> (candidates: Vec<Candidate>)
    ensures
        candidate_views(candidates@) == suspended_registrations_all(*context, *scene, *animation, *state, *target, *target_state),
{
    let mut candidates: Vec<Candidate> = Vec::new();
    let mut k: usize = 0;
    assert(candidate_views(candidates@) =~= Seq::empty());
    while k < scene.updaters.len()
        invariant
            k <= scene.updaters.len(),
            candidate_views(candidates@) == gather(k as int, suspended_registrations_parts(*context, *scene, *animation, *state, *target, *target_state)),
        decreases scene.updaters.len() - k,
    {
        offer_found(&mut candidates, suspended_check(context, scene, animation, state, target, target_state, &scene.updaters[k]));
        k += 1;
    }
    candidates
}

/// The candidates of one target of an animation.
pub open spec fn suspended_target_of(
    context: RuleContext<'_>,
    scene: SceneLifecycle,
    snapshot: StateSnapshot,
    animation: PlayedAnimation,
    state: AnimationState,
    target: ObjectId,
) -> Seq<CandidateView> {
    match snapshot.heap.spec_object(target) {
        Some(target_state) => if target_state.updating_suspended == Truth::No {
            suspended_registrations_all(context, scene, animation, state, target, target_state)
        } else {
            Seq::empty()
        },
        None => Seq::empty(),
    }
}

fn suspended_target(
    context: &RuleContext<'_>,
    scene: &SceneLifecycle,
    snapshot: &StateSnapshot,
    animation: &PlayedAnimation,
    state: &AnimationState,
    target: &ObjectId,
) -> (candidates: Vec<Candidate>)
    ensures
        candidate_views(candidates@) == suspended_target_of(
            *context,
            *scene,
            *snapshot,
            *animation,
            *state,
            *target,
        ),
{
    if let Some(target_state) = snapshot.heap.object(target) {
        if target_state.updating_suspended == Truth::No {
            return suspended_registrations(
                context,
                scene,
                animation,
                state,
                target,
                target_state,
            );
        }
    }
    let none: Vec<Candidate> = Vec::new();
    assert(candidate_views(none@) =~= Seq::empty());
    none
}

/// Candidates of the targets of an animation, one by one.
pub open spec fn suspended_targets_parts(
    context: RuleContext<'_>,
    scene: SceneLifecycle,
    snapshot: StateSnapshot,
    animation: PlayedAnimation,
    state: AnimationState,
) -> spec_fn(int) -> Seq<CandidateView> {
    |k: int| suspended_target_of(context, scene, snapshot, animation, state, state.targets@[k])
}

/// Candidates of the targets of an animation, in order.
pub open spec fn suspended_targets_all(
    context: RuleContext<'_>,
    scene: SceneLifecycle,
    snapshot: StateSnapshot,
    animation: PlayedAnimation,
    state: AnimationState,
) -> Seq<CandidateView> {
    gather(state.targets@.len() as int, suspended_targets_parts(context, scene, snapshot, animation, state))
}

fn suspended_targets(
    context: &RuleContext<'_>,
    scene: &SceneLifecycle,
    snapshot: &StateSnapshot,
    animation: &PlayedAnimation,
    state: &AnimationState,
) -> (candidates: Vec<Candidate>)
    ensures
        candidate_views(candidates@) == suspended_targets_all(*context, *scene, *snapshot, *animation, *state),
{
    let mut candidates: Vec<Candidate> = Vec::new();
    let mut k: usize = 0;
    assert(candidate_views(candidates@) =~= Seq::empty());
    while k < state.targets.len()
        invariant
            k <= state.targets.len(),
            candidate_views(candidates@) == gather(k as int, suspended_targets_parts(*context, *scene, *snapshot, *animation, *state)),
        decreases state.targets.len() - k,
    {
        offer_all(&mut candidates, suspended_target(context, scene, snapshot, animation, state, &state.targets[k]));
        k += 1;
    }
    candidates
}

/// The candidates of one animation of a play.
pub open spec fn suspended_animation_of(
    context: RuleContext<'_>,
    scene: SceneLifecycle,
    snapshot: StateSnapshot,
    animation: PlayedAnimation,
) -> Seq<CandidateView> {
    match animation.state {
        Some(state) => if animation.channels_known == Truth::Yes && state.suspend
            == SuspendBehavior::SuspendsLiveTargets && state.write_channels@.len() > 0 {
            suspended_targets_all(context, scene, snapshot, animation, state)
        } else {
            Seq::empty()
        },
        None => Seq::empty(),
    }
}

fn suspended_animation(
    context: &RuleContext<'_>,
    scene: &SceneLifecycle,
    snapshot: &StateSnapshot,
    animation: &PlayedAnimation,
) -> (candidates: Vec<Candidate>)
    ensures
        candidate_views(candidates@) == suspended_animation_of(
            *context,
            *scene,
            *snapshot,
            *animation,
        ),
{
    if let Some(state) = &animation.state {
        if animation.channels_known == Truth::Yes && state.suspend
            == SuspendBehavior::SuspendsLiveTargets && state.write_channels.len() > 0 {
            return suspended_targets(context, scene, snapshot, animation, state);
        }
    }
    let none: Vec<Candidate> = Vec::new();
    assert(candidate_views(none@) =~= Seq::empty());
    none
}

/// Candidates of the animations of a play, one by one.
pub open spec fn suspended_animations_parts(
    context: RuleContext<'_>,
    scene: SceneLifecycle,
    snapshot: StateSnapshot,
    play: PlayFact,
) -> spec_fn(int) -> Seq<CandidateView> {
    |k: int| suspended_animation_of(context, scene, snapshot, play.animations@[k])
}

/// Candidates of the animations of a play, in order.
pub open spec fn suspended_animations_all(
    context: RuleContext<'_>,
    scene: SceneLifecycle,
    snapshot: StateSnapshot,
    play: PlayFact,
) -> Seq<CandidateView> {
    gather(play.animations@.len() as int, suspended_animations_parts(context, scene, snapshot, play))
}

fn suspended_animations(
    context: &RuleContext<'_>,
    scene: &SceneLifecycle,
    snapshot: &StateSnapshot,
    play: &PlayFact,
) -> (candidates: Vec<Candidate>)
    ensures
        candidate_views(candidates@) == suspended_animations_all(*context, *scene, *snapshot, *play),
{
    let mut candidates: Vec<Candidate> = Vec::new();
    let mut k: usize = 0;
    assert(candidate_views(candidates@) =~= Seq::empty());
    while k < play.animations.len()
        invariant
            k <= play.animations.len(),
            candidate_views(candidates@) == gather(k as int, suspended_animations_parts(*context, *scene, *snapshot, *play)),
        decreases play.animations.len() - k,
    {
        offer_all(&mut candidates, suspended_animation(context, scene, snapshot, &play.animations[k]));
        k += 1;
    }
    candidates
}

/// The candidates of the play at `k`.
pub open spec fn suspends_of(context: RuleContext<'_>, scene: SceneLifecycle, k: int) -> Seq<
    CandidateView,
> {
    let play = scene.plays@[k];
    match scene.spec_state_at(play.site.file, play.site.start) {
        Some(snapshot) => if play.certainty == Presence::Present {
            suspended_animations_all(context, scene, snapshot, play)
        } else {
            Seq::empty()
        },
        None => Seq::empty(),
    }
}

fn suspends_check(context: &RuleContext<'_>, scene: &SceneLifecycle, k: usize) -> (candidates: Vec<
    Candidate,
>)
    requires
        k < scene.plays@.len(),
    ensures
        candidate_views(candidates@) == suspends_of(*context, *scene, k as int),
{
    let play = &scene.plays[k];
    if play.certainty == Presence::Present {
        if let Some(snapshot) = scene.state_at(play.site.file, play.site.start) {
            return suspended_animations(context, scene, snapshot, play);
        }
    }
    let none: Vec<Candidate> = Vec::new();
    assert(candidate_views(none@) =~= Seq::empty());
    none
}

/// The candidates of a scene, in the order of its plays.
pub open spec fn suspends_items(context: RuleContext<'_>, scene: SceneLifecycle) -> spec_fn(
    int,
) -> Seq<CandidateView> {
    |k: int| suspends_of(context, scene, k)
}

/// The candidates of the scene at `i`.
pub open spec fn suspends_at(context: RuleContext<'_>, i: int) -> Seq<CandidateView> {
    let scene = context.lifecycle_facts.scenes@[i];
    gather(scene.plays@.len() as int, suspends_items(context, scene))
}

fn suspends(context: &RuleContext<'_>, i: usize) -> (candidates: Vec<Candidate>)
    requires
        i < context.lifecycle_facts.scenes@.len(),
    ensures
        candidate_views(candidates@) == suspends_at(*context, i as int),
{
    let scene = &context.lifecycle_facts.scenes[i];
    let mut candidates: Vec<Candidate> = Vec::new();
    let mut k: usize = 0;
    assert(candidate_views(candidates@) =~= Seq::empty());
    while k < scene.plays.len()
        invariant
            k <= scene.plays@.len(),
            candidate_views(candidates@) == gather(k as int, suspends_items(*context, *scene)),
        decreases scene.plays@.len() - k,
    {
        offer_all(&mut candidates, suspends_check(context, scene, k));
        k += 1;
    }
    candidates
}

/// Candidates of [`UpdaterSuspendResumeDivergence`], scene by scene.
pub open spec fn suspends_finder(context: RuleContext<'_>) -> spec_fn(int) -> Seq<CandidateView> {
    |i: int| suspends_at(context, i)
}

impl Rule for UpdaterSuspendResumeDivergence {
    open spec fn declared(&self) -> MetadataView {
        mlc118()
    }

    open spec fn findings(&self, context: RuleContext<'_>) -> Seq<DiagnosticView> {
        kept(gather(context.lifecycle_facts.scenes@.len() as int, suspends_finder(context)))
    }

    fn metadata(&self) -> (metadata: &'static RuleMetadata) {
        MLC118()
    }

    fn run(&self, context: &RuleContext<'_>) -> (diagnostics: Vec<Diagnostic>) {
        let scenes = &context.lifecycle_facts.scenes;
        let mut candidates: Vec<Candidate> = Vec::new();
        let mut i: usize = 0;
        assert(candidate_views(candidates@) =~= Seq::empty());
        while i < scenes.len()
            invariant
                i <= scenes@.len(),
                scenes@ == context.lifecycle_facts.scenes@,
                candidate_views(candidates@) == gather(i as int, suspends_finder(*context)),
            decreases scenes@.len() - i,
        {
            offer_all(&mut candidates, suspends(context, i));
            i += 1;
        }
        keep_first(candidates)
    }
}

} // verus!
