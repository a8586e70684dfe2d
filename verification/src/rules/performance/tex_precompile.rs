//! `MLP214`: serial construction of distinct TeX compile keys that a fork
//! could precompile in parallel.
//!
//! The rule stays inert unless the selected knowledge profile declares the
//! parallel TeX capability. The advice fires only when, on a cold cache,
//! enough distinct compile keys are serially constructed before the scene's
//! first play. Distinctness is decided by literal-provable compile keys only:
//! constructing the same formula twice is one compile job, and a dynamic key
//! never contributes. Constructions that depend on a branch leave the key's
//! temperature unknown and are not counted.
use super::support::{goal_of, place_text, site_location, targets};
use crate::diagnostic::{
    related_views, Confidence, Diagnostic, DiagnosticView, MetadataView, RelatedLocation,
    RelatedView, RuleMetadata, Severity,
};
use crate::frontend::{last_index_at, LiteralFact, QualifiedCall};
use crate::json::{json_size, json_text, json_texts, text_list, Evidence, EvidenceView, JsonView};
use crate::knowledge::TexParallelCompile;
use crate::rules::base::{
    basic_report, build_diagnostic, related_at, related_site, Rule, RuleContext,
};
use crate::rules::dedupe::{
    candidate_view, candidate_views, keep_first, kept, key_of, offer_found, site_key, Candidate,
    CandidateView,
};
use crate::rules::rendering::support::{MATH_TEX, SINGLE_MATH_TEX, TEX};
use crate::semantic::{Event, KindSet, Presence, SceneLifecycle, TracedEvent};
use crate::source::AllocationSite;
use crate::text::{
    cat2, decimal_size, found, gather, has_text, join, joined, numeral, same_text, texts,
};
use vstd::prelude::*;

verus! {

/// Fewer distinct compile keys than these never fire.
pub const MIN_DISTINCT_COMPILE_KEYS: usize = 4;

/// What [`MLP214`] declares.
pub open spec fn mlp214() -> MetadataView {
    MetadataView {
        id: "MLP214"@,
        summary: "Serial construction of distinct TeX compile keys the local fork could precompile in parallel"@,
        default_enabled: true,
        default_severity: Severity::Info,
        minimum_confidence: Confidence::High,
        implementation_phase: 3,
        required_profiles: seq![],
        required_capabilities: seq!["qualified-calls"@, "lifecycle"@, "local-fork-overlay"@],
        supersedes: seq![],
    }
}

/// Metadata of rule `MLP214`.
#[allow(non_snake_case)]
pub fn MLP214() -> (metadata: &'static RuleMetadata)
    ensures
        metadata@ == mlp214(),
{
    let metadata: &'static RuleMetadata = &RuleMetadata {
        id: "MLP214",
        summary: "Serial construction of distinct TeX compile keys the local fork could precompile in parallel",
        default_enabled: true,
        default_severity: Severity::Info,
        minimum_confidence: Confidence::High,
        implementation_phase: 3,
        required_profiles: &[],
        required_capabilities: &["qualified-calls", "lifecycle", "local-fork-overlay"],
        supersedes: &[],
    };
    assert(metadata@ =~= mlp214());
    metadata
}

/// Distinct `MathTex` and `Tex` compile keys constructed serially before the
/// scene's first play, under a knowledge profile that declares the
/// submit-all and collect TeX API.
pub struct SerialTexCompileKeys;

/// Argument separator and TeX environment that a class has by default. Two
/// classes with the same defaults and the same literal content share one
/// compile job.
pub open spec fn tex_defaults(id: Seq<char>) -> Option<(Seq<char>, Seq<char>)> {
    if id == MATH_TEX@ || id == SINGLE_MATH_TEX@ {
        Some((" "@, "align*"@))
    } else if id == TEX@ {
        Some((""@, "center"@))
    } else {
        None
    }
}

fn find_defaults(id: &str) -> (defaults: Option<(&'static str, &'static str)>)
    ensures
        match defaults {
            Some((separator, environment)) => tex_defaults(id@) == Some(
                (separator@, environment@),
            ),
            None => tex_defaults(id@) is None,
        },
{
    if same_text(id, MATH_TEX) || same_text(id, SINGLE_MATH_TEX) {
        Some((" ", "align*"))
    } else if same_text(id, TEX) {
        Some(("", "center"))
    } else {
        None
    }
}

/// Whether a keyword that changes the TeX file in ways beyond the key is
/// present.
pub open spec fn unmodeled(names: Seq<Seq<char>>) -> bool {
    names.contains("substrings_to_isolate"@) || names.contains("tex_template"@) || names.contains(
        "tex_to_color_map"@,
    )
}

/// The value of a plain string literal; an f-string or a bytes literal is
/// none.
pub open spec fn string_of(literal: Option<LiteralFact>) -> Option<Seq<char>> {
    match literal {
        Some(LiteralFact::Str { value, prefix, range: _ }) => if prefix.formatted || prefix.bytes {
            None
        } else {
            Some(value@)
        },
        _ => None,
    }
}

/// The text of the positional argument at `i`.
pub open spec fn tex_string(call: QualifiedCall, i: int) -> Option<Seq<char>> {
    match call.spec_positional(i) {
        Some(argument) => string_of(argument.literal),
        None => None,
    }
}

/// Whether all positional arguments are plain string literals.
pub open spec fn all_strings(call: QualifiedCall) -> bool {
    forall|i: int| 0 <= i < call.positional_count ==> (#[trigger] tex_string(call, i)) is Some
}

/// The texts of all positional arguments.
pub open spec fn tex_strings(call: QualifiedCall) -> Seq<Seq<char>> {
    Seq::new(call.positional_count as nat, |i: int| tex_string(call, i)->0)
}

fn read_string(literal: &Option<LiteralFact>) -> (text: Option<&String>)
    ensures
        match text {
            Some(found) => string_of(*literal) == Some(found@),
            None => string_of(*literal) is None,
        },
{
    match literal {
        Some(LiteralFact::Str { value, prefix, range: _ }) => if prefix.formatted || prefix.bytes {
            None
        } else {
            Some(value)
        },
        _ => None,
    }
}

fn collect_strings(call: &QualifiedCall) -> (list: Option<Vec<String>>)
    ensures
        match list {
            Some(found) => all_strings(*call) && texts(found@) == tex_strings(*call),
            None => !all_strings(*call),
        },
{
    let mut list: Vec<String> = Vec::new();
    let mut i: usize = 0;
    while i < call.positional_count
        invariant
            i <= call.positional_count,
            list@.len() == i,
            forall|j: int|
                0 <= j < i ==> (#[trigger] tex_string(*call, j)) == Some(list@[j]@),
        decreases call.positional_count - i,
    {
        let text: Option<&String> = match call.positional(i) {
            Some(argument) => read_string(&argument.literal),
            None => None,
        };
        match text {
            Some(value) => {
                list.push(value.clone());
            },
            None => {
                assert(tex_string(*call, i as int) is None);
                return None;
            },
        }
        i += 1;
    }
    assert(texts(list@) =~= tex_strings(*call));
    Some(list)
}

/// A keyword that is a string literal or absent: its value, or the default.
/// None where the keyword is anything else.
pub open spec fn keyword_or(call: QualifiedCall, name: Seq<char>, otherwise: Seq<char>) -> Option<
    Seq<char>,
> {
    match call.spec_keyword(name) {
        Some(argument) => string_of(argument.literal),
        None => Some(otherwise),
    }
}

fn keyword_text(call: &QualifiedCall, name: &str, otherwise: &str) -> (text: Option<String>)
    ensures
        match text {
            Some(found) => keyword_or(*call, name@, otherwise@) == Some(found@),
            None => keyword_or(*call, name@, otherwise@) is None,
        },
{
    match call.keyword(name) {
        Some(argument) => match read_string(&argument.literal) {
            Some(value) => Some(value.clone()),
            None => None,
        },
        None => Some(otherwise.to_owned()),
    }
}

/// The literal-provable compile key of a TeX construction: the environment
/// and the joined texts.
pub open spec fn compile_key(call: QualifiedCall, separator: Seq<char>, environment: Seq<char>) -> Option<
    (Seq<char>, Seq<char>),
> {
    if call.has_star_args || call.has_star_star_kwargs || call.positional_count == 0
        || !all_strings(call) || unmodeled(texts(call.keyword_names@)) {
        None
    } else {
        match (
            keyword_or(call, "arg_separator"@, separator),
            keyword_or(call, "tex_environment"@, environment),
        ) {
            (Some(between), Some(around)) => Some((around, joined(tex_strings(call), between))),
            _ => None,
        }
    }
}

/// The literal-provable compile key of a TeX construction. None whenever any
/// part of the key is not a plain string literal: a dynamic key is never
/// countable.
fn literal_compile_key(call: &QualifiedCall, separator: &str, environment: &str) -> (key: Option<
    (String, String),
>)
    ensures
        match key {
            Some((around, content)) => compile_key(*call, separator@, environment@) == Some(
                (around@, content@),
            ),
            None => compile_key(*call, separator@, environment@) is None,
        },
{
    // Splats can smuggle both extra TeX strings and key keywords.
    if call.has_star_args || call.has_star_star_kwargs || call.positional_count == 0 {
        return None;
    }
    let parts: Vec<String> = match collect_strings(call) {
        Some(parts) => parts,
        None => {
            return None;
        },
    };
    if has_text(&call.keyword_names, "substrings_to_isolate") || has_text(
        &call.keyword_names,
        "tex_template",
    ) || has_text(&call.keyword_names, "tex_to_color_map") {
        return None;
    }
    let between: String = match keyword_text(call, "arg_separator", separator) {
        Some(between) => between,
        None => {
            return None;
        },
    };
    match keyword_text(call, "tex_environment", environment) {
        Some(around) => Some((around, join(&parts, between.as_str()))),
        None => None,
    }
}

/// One provably cold compile job.
pub struct CompileJob {
    pub environment: String,
    /// Joined TeX content: jobs with the same environment and content are one
    /// external compile job.
    pub content: String,
    /// Index of the anchoring construction.
    pub call_index: usize,
}

/// What a [`CompileJob`] says.
pub struct JobView {
    pub environment: Seq<char>,
    pub content: Seq<char>,
    pub call_index: int,
}

impl View for CompileJob {
    type V = JobView;

    open spec fn view(&self) -> JobView {
        JobView {
            environment: self.environment@,
            content: self.content@,
            call_index: self.call_index as int,
        }
    }
}

/// The job of a construction of these classes at a site.
pub open spec fn job_at(context: RuleContext<'_>, kinds: Seq<String>, site: AllocationSite) -> Option<
    JobView,
> {
    if kinds.len() != 1 {
        None
    } else {
        match (
            context.knowledge,
            tex_defaults(kinds[0]@),
            last_index_at(context.qualified_calls.calls@, site),
        ) {
            (Some(profile), Some((separator, environment)), Some(index)) => {
                let call = context.qualified_calls.calls@[index];
                match compile_key(call, separator, environment) {
                    Some((around, content)) => if goal_of(
                        *profile,
                        context.project_index,
                        call,
                    ) == Some(kinds[0]@) {
                        Some(JobView { environment: around, content, call_index: index })
                    } else {
                        None
                    },
                    None => None,
                }
            },
            _ => None,
        }
    }
}

/// Resolves one traced allocation into a countable compile job: the
/// allocated kind and the call target must agree on a single curated TeX
/// class, and the compile key must be literal-provable.
fn compile_job(context: &RuleContext<'_>, kinds: &Vec<String>, site: AllocationSite) -> (job: Option<
    CompileJob,
>)
    ensures
        match job {
            Some(found) => job_at(*context, kinds@, site) == Some(found@) && found.call_index
                < context.qualified_calls.calls@.len(),
            None => job_at(*context, kinds@, site) is None,
        },
{
    if kinds.len() != 1 {
        return None;
    }
    let profile = match context.knowledge {
        Some(profile) => profile,
        None => {
            return None;
        },
    };
    let (separator, environment) = match find_defaults(kinds[0].as_str()) {
        Some(defaults) => defaults,
        None => {
            return None;
        },
    };
    let call_index: usize = match context.qualified_calls.last_at(site) {
        Some(index) => index,
        None => {
            return None;
        },
    };
    let call = &context.qualified_calls.calls[call_index];
    if !targets(profile, &context.project_index, call, kinds[0].as_str()) {
        return None;
    }
    match literal_compile_key(call, separator, environment) {
        Some((environment, content)) => Some(CompileJob { environment, content, call_index }),
        None => None,
    }
}

/// The job of a certain allocation event.
pub open spec fn event_job(context: RuleContext<'_>, traced: TracedEvent) -> Option<JobView> {
    match traced.event {
        Event::Alloc { allocated: KindSet::Known(kinds) } => if traced.certainty
            == Presence::Present {
            job_at(context, kinds@, traced.site)
        } else {
            None
        },
        _ => None,
    }
}

fn find_event_job(context: &RuleContext<'_>, traced: &TracedEvent) -> (job: Option<CompileJob>)
    ensures
        match job {
            Some(found) => event_job(*context, *traced) == Some(found@) && found.call_index
                < context.qualified_calls.calls@.len(),
            None => event_job(*context, *traced) is None,
        },
{
    match &traced.event {
        Event::Alloc { allocated: KindSet::Known(kinds) } => if traced.certainty
            == Presence::Present {
            compile_job(context, kinds, traced.site)
        } else {
            None
        },
        _ => None,
    }
}

/// Whether an event ends the provable prefix: the first play is the first
/// use, and an unresolved call may itself reach a play.
pub open spec fn ends_prefix(event: Event) -> bool {
    event is BeginPlay || event is UnknownMutation
}

fn is_prefix_end(event: &Event) -> (ends: bool)
    ensures
        ends == ends_prefix(*event),
{
    match event {
        Event::BeginPlay { play_group: _ } => true,
        Event::UnknownMutation { values: _ } => true,
        _ => false,
    }
}

/// Length of the prefix before the first use, from position `i` on.
pub open spec fn prefix_from(events: Seq<TracedEvent>, i: int) -> int
    decreases events.len() - i,
{
    if i < 0 || i >= events.len() || ends_prefix(events[i].event) {
        i
    } else {
        prefix_from(events, i + 1)
    }
}

fn find_prefix(events: &Vec<TracedEvent>) -> (end: usize)
    ensures
        end == prefix_from(events@, 0),
        end <= events@.len(),
{
    let mut i: usize = 0;
    while i < events.len()
        invariant
            i <= events@.len(),
            prefix_from(events@, 0) == prefix_from(events@, i as int),
        decreases events@.len() - i,
    {
        if is_prefix_end(&events[i].event) {
            return i;
        }
        i += 1;
    }
    i
}

/// Whether a job with the same key is in the list.
pub open spec fn has_key(jobs: Seq<JobView>, job: JobView) -> bool {
    exists|i: int|
        0 <= i < jobs.len() && (#[trigger] jobs[i]).environment == job.environment
            && jobs[i].content == job.content
}

/// The distinct jobs of the first `n` events, in order.
pub open spec fn jobs_before(context: RuleContext<'_>, events: Seq<TracedEvent>, n: int) -> Seq<
    JobView,
>
    decreases n,
{
    if n <= 0 {
        Seq::empty()
    } else {
        let rest = jobs_before(context, events, n - 1);
        match event_job(context, events[n - 1]) {
            Some(job) => if has_key(rest, job) {
                rest
            } else {
                rest.push(job)
            },
            None => rest,
        }
    }
}

/// The jobs that are counted have different keys: the same formula twice is
/// one job.
pub proof fn jobs_differ(
    context: RuleContext<'_>,
    events: Seq<TracedEvent>,
    n: int,
    i: int,
    j: int,
)
    requires
        0 <= i < j < jobs_before(context, events, n).len(),
    ensures
        jobs_before(context, events, n)[i].environment != jobs_before(context, events, n)[j].environment
            || jobs_before(context, events, n)[i].content != jobs_before(
            context,
            events,
            n,
        )[j].content,
    decreases n,
{
    let rest = jobs_before(context, events, n - 1);
    if j < rest.len() {
        jobs_differ(context, events, n - 1, i, j);
    } else {
        assert(rest[i] == jobs_before(context, events, n)[i]);
    }
}

/// What a list of jobs says.
pub open spec fn job_views(jobs: Seq<CompileJob>) -> Seq<JobView> {
    Seq::new(jobs.len(), |i: int| jobs[i]@)
}

fn has_same_key(jobs: &Vec<CompileJob>, job: &CompileJob) -> (found: bool)
    ensures
        found == has_key(job_views(jobs@), job@),
{
    let mut i: usize = 0;
    while i < jobs.len()
        invariant
            i <= jobs@.len(),
            forall|j: int|
                0 <= j < i ==> !((#[trigger] jobs@[j])@.environment == job@.environment
                    && jobs@[j]@.content == job@.content),
        decreases jobs@.len() - i,
    {
        if same_text(jobs[i].environment.as_str(), job.environment.as_str()) && same_text(
            jobs[i].content.as_str(),
            job.content.as_str(),
        ) {
            assert(job_views(jobs@)[i as int] == jobs@[i as int]@);
            return true;
        }
        i += 1;
    }
    false
}

fn collect_jobs(context: &RuleContext<'_>, events: &Vec<TracedEvent>, end: usize) -> (jobs: Vec<
    CompileJob,
>)
    requires
        end <= events@.len(),
    ensures
        job_views(jobs@) == jobs_before(*context, events@, end as int),
        forall|i: int|
            0 <= i < jobs@.len() ==> (#[trigger] jobs@[i]).call_index
                < context.qualified_calls.calls@.len(),
{
    let mut jobs: Vec<CompileJob> = Vec::new();
    let mut n: usize = 0;
    assert(job_views(jobs@) =~= Seq::empty());
    while n < end
        invariant
            n <= end <= events@.len(),
            job_views(jobs@) == jobs_before(*context, events@, n as int),
            forall|i: int|
                0 <= i < jobs@.len() ==> (#[trigger] jobs@[i]).call_index
                    < context.qualified_calls.calls@.len(),
        decreases end - n,
    {
        match find_event_job(context, &events[n]) {
            Some(job) => {
                if !has_same_key(&jobs, &job) {
                    let ghost before = jobs@;
                    jobs.push(job);
                    assert(job_views(jobs@) =~= job_views(before).push(job@));
                }
            },
            None => {},
        }
        n += 1;
    }
    jobs
}

/// Characters of a key that evidence shows.
pub const SHOWN_CHARACTERS: usize = 120;

/// A key as evidence shows it.
pub open spec fn shown_key(content: Seq<char>) -> Seq<char> {
    if content.len() <= SHOWN_CHARACTERS {
        content
    } else {
        content.take(SHOWN_CHARACTERS as int) + "…"@
    }
}

/// Renders one compile key for evidence, bounded for pathological inputs.
fn display_key(content: &str) -> (text: String)
    ensures
        text@ == shown_key(content@),
{
    let len: usize = content.unicode_len();
    if len <= SHOWN_CHARACTERS {
        content.to_owned()
    } else {
        assert(content@.take(SHOWN_CHARACTERS as int) =~= content@.subrange(
            0,
            SHOWN_CHARACTERS as int,
        ));
        cat2(content.substring_char(0, SHOWN_CHARACTERS), "…")
    }
}

/// The keys of a list of jobs as evidence shows them.
pub open spec fn shown_keys(jobs: Seq<JobView>) -> Seq<Seq<char>> {
    Seq::new(jobs.len(), |i: int| shown_key(jobs[i].content))
}

fn show_keys(jobs: &Vec<CompileJob>) -> (list: Vec<String>)
    ensures
        texts(list@) == shown_keys(job_views(jobs@)),
{
    let mut list: Vec<String> = Vec::new();
    let mut i: usize = 0;
    while i < jobs.len()
        invariant
            i <= jobs@.len(),
            list@.len() == i,
            forall|j: int| 0 <= j < i ==> (#[trigger] list@[j])@ == shown_key(jobs@[j]@.content),
        decreases jobs@.len() - i,
    {
        list.push(display_key(jobs[i].content.as_str()));
        i += 1;
    }
    assert(texts(list@) =~= shown_keys(job_views(jobs@)));
    list
}

/// Related locations at the constructions after the first.
pub open spec fn job_locations(context: RuleContext<'_>, jobs: Seq<JobView>) -> Seq<RelatedView> {
    Seq::new(
        (jobs.len() - 1) as nat,
        |i: int|
            related_at(
                context,
                context.qualified_calls.calls@[jobs[i + 1].call_index].site(),
                "distinct TeX compile key: "@ + shown_key(jobs[i + 1].content),
            ),
    )
}

fn locate_jobs(context: &RuleContext<'_>, jobs: &Vec<CompileJob>) -> (related: Vec<RelatedLocation>)
    requires
        jobs@.len() > 0,
        forall|i: int|
            0 <= i < jobs@.len() ==> (#[trigger] jobs@[i]).call_index
                < context.qualified_calls.calls@.len(),
    ensures
        related_views(related@) == job_locations(*context, job_views(jobs@)),
{
    let mut related: Vec<RelatedLocation> = Vec::new();
    let mut i: usize = 1;
    while i < jobs.len()
        invariant
            1 <= i <= jobs@.len(),
            related@.len() == i - 1,
            forall|j: int|
                0 <= j < jobs@.len() ==> (#[trigger] jobs@[j]).call_index
                    < context.qualified_calls.calls@.len(),
            forall|j: int|
                0 <= j < i - 1 ==> (#[trigger] related@[j])@ == related_at(
                    *context,
                    context.qualified_calls.calls@[jobs@[j + 1].call_index as int].site(),
                    "distinct TeX compile key: "@ + shown_key(jobs@[j + 1]@.content),
                ),
        decreases jobs@.len() - i,
    {
        let call = &context.qualified_calls.calls[jobs[i].call_index];
        related.push(
            related_site(
                context,
                AllocationSite::new(call.file, call.call_range),
                cat2(
                    "distinct TeX compile key: ",
                    display_key(jobs[i].content.as_str()).as_str(),
                ),
            ),
        );
        i += 1;
    }
    assert(related_views(related@) =~= job_locations(*context, job_views(jobs@)));
    related
}

pub const SERIAL_MIDDLE: &'static str = " distinct TeX compile keys are constructed serially before \
    this scene's first play: on a cold cache each construction blocks \
    on one external TeX compile, while the selected fork profile \
    offers a submit-all/collect API (`";

pub const SERIAL_WHY_START: &'static str = "Each distinct cold TeX key launches an external compiler and `dvisvgm` \
    serially at construction time. The selected local-fork profile provides \
    `";

pub const SERIAL_WHY_END: &'static str = "`: submit every formula first, then construct the mobjects — a \
    construction joins its in-flight job instead of compiling again.";

pub const COALESCED: &'static str = " Same-key submissions are coalesced into one job.";

pub const SHORT_CIRCUIT: &'static str = " An already-cached key returns an immediately resolved future, so the \
    pattern is safe under a warm cache too.";

pub const IN_FLIGHT: &'static str = " Collect every future before the first play: in-flight TeX futures force \
    the fork's Cairo fork-per-play pipeline into serial fallback.";

pub const NO_FIX: &'static str = " No automatic fix is offered.";

pub const COLD: &'static str = "cold (first render of the scene; an already-cached key resolves its \
    future immediately)";

/// A clause where a profile declares its reason.
pub open spec fn clause_if(flag: Option<bool>, clause: Seq<char>) -> Seq<char> {
    if flag == Some(true) {
        clause
    } else {
        ""@
    }
}

fn clause_text(flag: Option<bool>, clause: &'static str) -> (text: &'static str)
    ensures
        text@ == clause_if(flag, clause@),
{
    match flag {
        Some(true) => clause,
        _ => "",
    }
}

/// The advice text.
pub open spec fn advice(tex: TexParallelCompile) -> Seq<char> {
    SERIAL_WHY_START@ + joined(texts(tex.entry_points@), "` / `"@) + SERIAL_WHY_END@ + (clause_if(
        tex.same_key_coalesced,
        COALESCED@,
    ) + clause_if(tex.cache_hit_short_circuits, SHORT_CIRCUIT@) + clause_if(
        tex.in_flight_blocks_cairo_fork,
        IN_FLIGHT@,
    ) + NO_FIX@)
}

/// The advice text, citing only curated facts of the declared capability.
fn explanation(tex: &TexParallelCompile) -> (text: String)
    ensures
        text@ == advice(*tex),
{
    let tail: String = crate::text::cat4(
        clause_text(tex.same_key_coalesced, COALESCED),
        clause_text(tex.cache_hit_short_circuits, SHORT_CIRCUIT),
        clause_text(tex.in_flight_blocks_cairo_fork, IN_FLIGHT),
        NO_FIX,
    );
    crate::text::cat4(
        SERIAL_WHY_START,
        join(&tex.entry_points, "` / `").as_str(),
        SERIAL_WHY_END,
        tail.as_str(),
    )
}

/// Where the first use of a scene is.
pub open spec fn first_use_text(context: RuleContext<'_>, events: Seq<TracedEvent>) -> Seq<char> {
    let end = prefix_from(events, 0);
    if end < events.len() {
        place_text(context, events[end].site)
    } else {
        "none (no play in this scene)"@
    }
}

/// The report on a scene.
pub open spec fn serial_report(
    context: RuleContext<'_>,
    tex: TexParallelCompile,
    scene: SceneLifecycle,
    jobs: Seq<JobView>,
) -> DiagnosticView {
    let anchor = context.qualified_calls.calls@[jobs[0].call_index];
    let report = basic_report(
        mlp214(),
        context,
        anchor.file,
        anchor.call_range,
        numeral(jobs.len()) + SERIAL_MIDDLE@ + joined(texts(tex.entry_points@), "`, `"@) + "`)."@,
        advice(tex),
        EvidenceView::empty().insert(
            "distinct_compile_keys"@,
            JsonView::Whole(jobs.len() as int),
        ).insert("compile_keys"@, text_list(shown_keys(jobs))).insert(
            "entry_points"@,
            text_list(texts(tex.entry_points@)),
        ).insert("cache_assumption"@, JsonView::Text(COLD@)).insert(
            "first_use"@,
            JsonView::Text(first_use_text(context, scene.events@)),
        ).insert("scene"@, JsonView::Text(scene.qualified_name@)).insert(
            "external_process"@,
            JsonView::Text("TeX compiler + dvisvgm"@),
        ),
    );
    DiagnosticView { related_locations: job_locations(context, jobs), ..report }
}

/// Builds the one per-scene diagnostic: anchored at the first counted
/// construction, the other distinct keys as related locations, every count
/// and curated fact in the evidence map.
fn scene_diagnostic(
    context: &RuleContext<'_>,
    tex: &TexParallelCompile,
    scene: &SceneLifecycle,
    jobs: &Vec<CompileJob>,
    end: usize,
) -> (diagnostic: Diagnostic)
    requires
        jobs@.len() > 0,
        end == prefix_from(scene.events@, 0),
        forall|i: int|
            0 <= i < jobs@.len() ==> (#[trigger] jobs@[i]).call_index
                < context.qualified_calls.calls@.len(),
    ensures
        diagnostic@ == serial_report(*context, *tex, *scene, job_views(jobs@)),
{
    assert(job_views(jobs@)[0] == jobs@[0]@);
    let anchor = &context.qualified_calls.calls[jobs[0].call_index];
    let first_use: String = if end < scene.events.len() {
        site_location(context, scene.events[end].site)
    } else {
        "none (no play in this scene)".to_owned()
    };
    let mut evidence = Evidence::new();
    evidence.insert("distinct_compile_keys", json_size(jobs.len()));
    evidence.insert("compile_keys", json_texts(&show_keys(jobs)));
    evidence.insert("entry_points", json_texts(&tex.entry_points));
    evidence.insert("cache_assumption", json_text(COLD));
    evidence.insert("first_use", json_text(first_use.as_str()));
    evidence.insert("scene", json_text(scene.qualified_name.as_str()));
    evidence.insert("external_process", json_text("TeX compiler + dvisvgm"));
    let mut diagnostic = build_diagnostic(
        MLP214(),
        context,
        anchor.file,
        anchor.call_range,
        crate::text::cat4(
            decimal_size(jobs.len()).as_str(),
            SERIAL_MIDDLE,
            join(&tex.entry_points, "`, `").as_str(),
            "`).",
        ),
        explanation(tex).as_str(),
        evidence,
    );
    diagnostic.related_locations = locate_jobs(context, jobs);
    diagnostic
}

/// What the scene at `i` gives.
///
/// An unresolved base leaves the constructor state unknown, and a helper
/// known by summary only may hide a play: both silence the scene.
pub open spec fn serial_at(context: RuleContext<'_>, i: int) -> Option<CandidateView> {
    let scene = context.lifecycle_facts.scenes@[i];
    let jobs = jobs_before(context, scene.events@, prefix_from(scene.events@, 0));
    match context.knowledge {
        Some(profile) => match profile.tex_parallel_compile {
            Some(tex) => if !scene.constructor_state_unknown
                && scene.summary_derived_plays@.len() == 0 && jobs.len()
                >= MIN_DISTINCT_COMPILE_KEYS {
                Some(
                    (
                        key_of(
                            context.qualified_calls.calls@[jobs[0].call_index].site(),
                        ),
                        Some(serial_report(context, tex, scene, jobs)),
                    ),
                )
            } else {
                None
            },
            None => None,
        },
        None => None,
    }
}

fn serial(context: &RuleContext<'_>, i: usize) -> (found: Option<Candidate>)
    requires
        i < context.lifecycle_facts.scenes@.len(),
    ensures
        match found {
            Some(candidate) => serial_at(*context, i as int) == Some(candidate_view(candidate)),
            None => serial_at(*context, i as int) is None,
        },
{
    let scene = &context.lifecycle_facts.scenes[i];
    let profile = match context.knowledge {
        Some(profile) => profile,
        None => {
            return None;
        },
    };
    let tex = match &profile.tex_parallel_compile {
        Some(tex) => tex,
        None => {
            return None;
        },
    };
    if scene.constructor_state_unknown || scene.summary_derived_plays.len() != 0 {
        return None;
    }
    let end: usize = find_prefix(&scene.events);
    let jobs: Vec<CompileJob> = collect_jobs(context, &scene.events, end);
    assert(job_views(jobs@).len() == jobs@.len());
    if jobs.len() < MIN_DISTINCT_COMPILE_KEYS {
        return None;
    }
    assert(job_views(jobs@)[0] == jobs@[0]@);
    let anchor = &context.qualified_calls.calls[jobs[0].call_index];
    // A helper inlined into several scenes anchors here once.
    let key = site_key(AllocationSite::new(anchor.file, anchor.call_range));
    let diagnostic = scene_diagnostic(context, tex, scene, &jobs, end);
    Some(Candidate { key, diagnostic: Some(diagnostic) })
}

/// Candidates of [`SerialTexCompileKeys`], scene by scene.
pub open spec fn serial_finder(context: RuleContext<'_>) -> spec_fn(int) -> Seq<CandidateView> {
    |i: int| found(serial_at(context, i))
}

impl Rule for SerialTexCompileKeys {
    open spec fn declared(&self) -> MetadataView {
        mlp214()
    }

    open spec fn findings(&self, context: RuleContext<'_>) -> Seq<DiagnosticView> {
        kept(gather(context.lifecycle_facts.scenes@.len() as int, serial_finder(context)))
    }

    fn metadata(&self) -> (metadata: &'static RuleMetadata) {
        MLP214()
    }

    fn run(&self, context: &RuleContext<'_>) -> (diagnostics: Vec<Diagnostic>) {
        let scenes = &context.lifecycle_facts.scenes;
        let mut candidates: Vec<Candidate> = Vec::new();
        let mut i: usize = 0;
        assert(candidate_views(candidates@) =~= Seq::empty());
        while i < scenes.len()
            invariant
                i <= scenes@.len(),
                scenes@ == context.lifecycle_facts.scenes@,
                candidate_views(candidates@) == gather(i as int, serial_finder(*context)),
            decreases scenes@.len() - i,
        {
            offer_found(&mut candidates, serial(context, i));
            i += 1;
        }
        keep_first(candidates)
    }
}

} // verus!
