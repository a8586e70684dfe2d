//! `MLD307`: wall-clock, filesystem, or network I/O inside a frame callback.
//!
//! The call must be provably hot, the callee must resolve through the file's
//! imports to a known wall-clock, filesystem, or network function, and the
//! call must not resolve to any Manim or project symbol.
use super::support::{
    external_call_targets, external_targets, find_sole_target, resolve_chain, resolved_chain,
    sole_target,
};
use crate::diagnostic::{
    push_found, report_of, reports, Confidence, Diagnostic, DiagnosticView, MetadataView,
    RuleMetadata, Severity,
};
use crate::frontend::{CallChain, FileBindingFacts, ProjectIndex, QualifiedCall};
use crate::json::{json_text, json_texts, text_list, Evidence, EvidenceView, JsonView};
use crate::rules::base::{basic_report, build_diagnostic, Rule, RuleContext};
use crate::text::{cat2, found, gather, has_word, same_text, texts, words};
use vstd::prelude::*;

verus! {

/// What [`MLD307`] declares.
pub open spec fn mld307() -> MetadataView {
    MetadataView {
        id: "MLD307"@,
        summary: "Wall-clock, filesystem, or network call inside a frame callback"@,
        default_enabled: true,
        default_severity: Severity::Warning,
        minimum_confidence: Confidence::Medium,
        implementation_phase: 4,
        required_profiles: seq![],
        required_capabilities: seq!["qualified-calls"@, "cost-facts"@],
        supersedes: seq![],
    }
}

/// Metadata of rule `MLD307`.
#[allow(non_snake_case)]
pub fn MLD307() -> (metadata: &'static RuleMetadata)
    ensures
        metadata@ == mld307(),
{
    let metadata: &'static RuleMetadata = &RuleMetadata {
        id: "MLD307",
        summary: "Wall-clock, filesystem, or network call inside a frame callback",
        default_enabled: true,
        default_severity: Severity::Warning,
        minimum_confidence: Confidence::Medium,
        implementation_phase: 4,
        required_profiles: &[],
        required_capabilities: &["qualified-calls", "cost-facts"],
        supersedes: &[],
    };
    assert(metadata@ =~= mld307());
    metadata
}

/// A wall-clock, filesystem, or network call that runs once per frame.
pub struct FrameCallbackIo;

pub const IO_WHY: &'static str = "Frame callbacks run once per rendered frame on the animation time \
    grid. Wall-clock reads make motion depend on rendering speed instead \
    of scene time (use the dt parameter or a ValueTracker), and \
    filesystem / network calls repeat per frame and tie the rendered \
    output to external state — load data once in construct instead.";

/// What kind of impure call was classified.
#[derive(Clone, Copy, Debug, PartialEq, Eq, Structural)]
pub enum IoKind {
    WallClock,
    Filesystem,
    Network,
}

impl IoKind {
    pub open spec fn spec_label(self) -> Seq<char> {
        match self {
            IoKind::WallClock => "wall-clock"@,
            IoKind::Filesystem => "filesystem"@,
            IoKind::Network => "network"@,
        }
    }

    pub fn label(self) -> (label: &'static str)
        ensures
            label@ == self.spec_label(),
    {
        match self {
            IoKind::WallClock => "wall-clock",
            IoKind::Filesystem => "filesystem",
            IoKind::Network => "network",
        }
    }

    pub open spec fn spec_consequence(self) -> Seq<char> {
        match self {
            IoKind::WallClock => CLOCK_CONSEQUENCE@,
            IoKind::Filesystem => FILE_CONSEQUENCE@,
            IoKind::Network => NETWORK_CONSEQUENCE@,
        }
    }

    /// Why the call is a problem.
    pub fn consequence(self) -> (text: &'static str)
        ensures
            text@ == self.spec_consequence(),
    {
        match self {
            IoKind::WallClock => CLOCK_CONSEQUENCE,
            IoKind::Filesystem => FILE_CONSEQUENCE,
            IoKind::Network => NETWORK_CONSEQUENCE,
        }
    }
}

pub const CLOCK_CONSEQUENCE: &'static str = "render time is not wall time, so the geometry depends on how fast \
    this machine renders";

pub const FILE_CONSEQUENCE: &'static str = "the read/write repeats every frame and couples the output to \
    external file state";

pub const NETWORK_CONSEQUENCE: &'static str = "the request repeats every frame, blocks the frame loop, and couples \
    the output to network state";

/// Canonical wall-clock reads.
pub open spec fn reads_clock(target: Seq<char>) -> bool {
    seq![
        "datetime.date.today"@,
        "datetime.datetime.now"@,
        "datetime.datetime.today"@,
        "datetime.datetime.utcnow"@,
        "time.monotonic"@,
        "time.monotonic_ns"@,
        "time.perf_counter"@,
        "time.perf_counter_ns"@,
        "time.process_time"@,
        "time.process_time_ns"@,
        "time.time"@,
        "time.time_ns"@,
    ].contains(target)
}

fn is_clock_read(target: &str) -> (is: bool)
    ensures
        is == reads_clock(target@),
{
    let list: [&'static str; 12] = [
        "datetime.date.today",
        "datetime.datetime.now",
        "datetime.datetime.today",
        "datetime.datetime.utcnow",
        "time.monotonic",
        "time.monotonic_ns",
        "time.perf_counter",
        "time.perf_counter_ns",
        "time.process_time",
        "time.process_time_ns",
        "time.time",
        "time.time_ns",
    ];
    assert(words(list@) =~= seq![
        "datetime.date.today"@,
        "datetime.datetime.now"@,
        "datetime.datetime.today"@,
        "datetime.datetime.utcnow"@,
        "time.monotonic"@,
        "time.monotonic_ns"@,
        "time.perf_counter"@,
        "time.perf_counter_ns"@,
        "time.process_time"@,
        "time.process_time_ns"@,
        "time.time"@,
        "time.time_ns"@,
    ]);
    has_word(&list, target)
}

/// Methods of a path object that touch the filesystem.
pub open spec fn path_io(method: Seq<char>) -> bool {
    seq!["open"@, "read_bytes"@, "read_text"@, "write_bytes"@, "write_text"@].contains(method)
}

fn is_path_io(method: &str) -> (is: bool)
    ensures
        is == path_io(method@),
{
    let list: [&'static str; 5] = ["open", "read_bytes", "read_text", "write_bytes", "write_text"];
    assert(words(list@) =~= seq![
        "open"@,
        "read_bytes"@,
        "read_text"@,
        "write_bytes"@,
        "write_text"@,
    ]);
    has_word(&list, method)
}

/// Canonical network entry points.
pub open spec fn uses_network(target: Seq<char>) -> bool {
    seq![
        "http.client.HTTPConnection"@,
        "http.client.HTTPSConnection"@,
        "requests.delete"@,
        "requests.get"@,
        "requests.head"@,
        "requests.patch"@,
        "requests.post"@,
        "requests.put"@,
        "requests.request"@,
        "socket.create_connection"@,
        "socket.getaddrinfo"@,
        "socket.gethostbyname"@,
        "urllib.request.urlopen"@,
    ].contains(target)
}

fn is_network_use(target: &str) -> (is: bool)
    ensures
        is == uses_network(target@),
{
    let list: [&'static str; 13] = [
        "http.client.HTTPConnection",
        "http.client.HTTPSConnection",
        "requests.delete",
        "requests.get",
        "requests.head",
        "requests.patch",
        "requests.post",
        "requests.put",
        "requests.request",
        "socket.create_connection",
        "socket.getaddrinfo",
        "socket.gethostbyname",
        "urllib.request.urlopen",
    ];
    assert(words(list@) =~= seq![
        "http.client.HTTPConnection"@,
        "http.client.HTTPSConnection"@,
        "requests.delete"@,
        "requests.get"@,
        "requests.head"@,
        "requests.patch"@,
        "requests.post"@,
        "requests.put"@,
        "requests.request"@,
        "socket.create_connection"@,
        "socket.getaddrinfo"@,
        "socket.gethostbyname"@,
        "urllib.request.urlopen"@,
    ]);
    has_word(&list, target)
}

/// The kind of an external function.
pub open spec fn target_kind(target: Seq<char>) -> Option<IoKind> {
    if reads_clock(target) {
        Some(IoKind::WallClock)
    } else if uses_network(target) {
        Some(IoKind::Network)
    } else {
        None
    }
}

fn classify_target(target: &str) -> (kind: Option<IoKind>)
    ensures
        kind == target_kind(target@),
{
    if is_clock_read(target) {
        Some(IoKind::WallClock)
    } else if is_network_use(target) {
        Some(IoKind::Network)
    } else {
        None
    }
}

/// Whether a call is the builtin `open`: nothing resolves or rebinds it.
pub open spec fn builtin_open(call: QualifiedCall, bindings: FileBindingFacts) -> bool {
    call.candidates@.len() == 0 && bindings.spec_unshadowed("open"@) && match call.callee_dotted {
        Some(parts) => texts(parts@) == seq!["open"@],
        None => false,
    }
}

fn is_builtin_open(call: &QualifiedCall, bindings: &FileBindingFacts) -> (is: bool)
    ensures
        is == builtin_open(*call, *bindings),
{
    if call.candidates.len() != 0 || !bindings.is_unshadowed_bare("open") {
        return false;
    }
    match &call.callee_dotted {
        Some(parts) => {
            if parts.len() != 1 {
                assert(texts(parts@).len() != seq!["open"@].len());
                return false;
            }
            let same: bool = same_text(parts[0].as_str(), "open");
            assert(texts(parts@)[0] == parts@[0]@);
            if same {
                assert(texts(parts@) =~= seq!["open"@]);
            }
            same
        },
        None => false,
    }
}

/// A path method chained directly onto a path construction.
pub open spec fn chain_io(chain: CallChain, bindings: FileBindingFacts) -> Option<
    (IoKind, Seq<char>),
> {
    if path_io(chain.method@) && resolved_chain(chain.inner, bindings) == Some("pathlib.Path"@) {
        Some((IoKind::Filesystem, "Path(...)."@ + chain.method@))
    } else {
        None
    }
}

/// The kind of I/O a call performs, and its display name.
pub open spec fn io_of(
    index: ProjectIndex,
    call: QualifiedCall,
    bindings: FileBindingFacts,
) -> Option<(IoKind, Seq<char>)> {
    if builtin_open(call, bindings) {
        Some((IoKind::Filesystem, "open"@))
    } else {
        match call.callee_chain {
            Some(chain) => chain_io(chain, bindings),
            None => match sole_target(external_targets(index, call, bindings)) {
                Some(target) => match target_kind(target) {
                    Some(kind) => Some((kind, target)),
                    None => None,
                },
                None => None,
            },
        }
    }
}

/// Classifies the callee of one hot call as impure I/O. Returns the kind and
/// a canonical display name.
fn classify_io(index: &ProjectIndex, call: &QualifiedCall, bindings: &FileBindingFacts) -> (found:
    Option<(IoKind, String)>)
    ensures
        match found {
            Some((kind, shown)) => io_of(*index, *call, *bindings) == Some((kind, shown@)),
            None => io_of(*index, *call, *bindings) is None,
        },
{
    if is_builtin_open(call, bindings) {
        return Some((IoKind::Filesystem, "open".to_owned()));
    }
    // The receiver of a chained method is a call, so only the structural
    // shape identifies the path method.
    if let Some(chain) = &call.callee_chain {
        if !is_path_io(chain.method.as_str()) {
            return None;
        }
        return match resolve_chain(&chain.inner, bindings) {
            Some(inner) => if same_text(inner.as_str(), "pathlib.Path") {
                Some((IoKind::Filesystem, cat2("Path(...).", chain.method.as_str())))
            } else {
                None
            },
            None => None,
        };
    }
    // Every resolution must classify to the same function.
    match find_sole_target(external_call_targets(index, call, bindings)) {
        Some(target) => match classify_target(target.as_str()) {
            Some(kind) => Some((kind, target)),
            None => None,
        },
        None => None,
    }
}

/// The finding for the call at `i`.
pub open spec fn frame_io_at(context: RuleContext<'_>, i: int) -> Option<DiagnosticView> {
    let call = context.qualified_calls.calls@[i];
    match (
        context.cost_facts.spec_first_hot(i),
        context.qualified_calls.bindings.spec_file(call.file),
    ) {
        (Some(hot), Some(bindings)) => match io_of(context.project_index, call, bindings) {
            Some((kind, shown)) => Some(
                basic_report(
                    mld307(),
                    context,
                    call.file,
                    call.call_range,
                    "`"@ + shown + "` performs "@ + kind.spec_label()
                        + " I/O inside a per-frame callback; "@ + kind.spec_consequence(),
                    IO_WHY@,
                    EvidenceView::empty().insert(
                        "category"@,
                        JsonView::Text(kind.spec_label()),
                    ).insert("function"@, JsonView::Text(shown)).insert(
                        "entry"@,
                        JsonView::Text(hot.entry.spec_label()),
                    ).insert("state_path"@, text_list(texts(hot.state_path@))),
                ),
            ),
            None => None,
        },
        _ => None,
    }
}

fn frame_io(context: &RuleContext<'_>, i: usize) -> (found: Option<Diagnostic>)
    requires
        i < context.qualified_calls.calls@.len(),
    ensures
        report_of(found) == frame_io_at(*context, i as int),
{
    let call = &context.qualified_calls.calls[i];
    let hot = match context.cost_facts.is_call_in_hot_context(i) {
        Some(hot) => hot,
        None => {
            return None;
        },
    };
    let bindings = match context.qualified_calls.bindings.file(call.file) {
        Some(bindings) => bindings,
        None => {
            return None;
        },
    };
    let (kind, shown) = match classify_io(&context.project_index, call, bindings) {
        Some(found) => found,
        None => {
            return None;
        },
    };
    let mut evidence = Evidence::new();
    evidence.insert("category", json_text(kind.label()));
    evidence.insert("function", json_text(shown.as_str()));
    evidence.insert("entry", json_text(hot.entry.label()));
    evidence.insert("state_path", json_texts(&hot.state_path));
    Some(
        build_diagnostic(
            MLD307(),
            context,
            call.file,
            call.call_range,
            crate::text::cat6(
                "`",
                shown.as_str(),
                "` performs ",
                kind.label(),
                " I/O inside a per-frame callback; ",
                kind.consequence(),
            ),
            IO_WHY,
            evidence,
        ),
    )
}

/// Findings of [`FrameCallbackIo`], call by call.
pub open spec fn frame_io_finder(context: RuleContext<'_>) -> spec_fn(int) -> Seq<DiagnosticView> {
    |i: int| found(frame_io_at(context, i))
}

impl Rule for FrameCallbackIo {
    open spec fn declared(&self) -> MetadataView {
        mld307()
    }

    open spec fn findings(&self, context: RuleContext<'_>) -> Seq<DiagnosticView> {
        gather(context.qualified_calls.calls@.len() as int, frame_io_finder(context))
    }

    fn metadata(&self) -> (metadata: &'static RuleMetadata) {
        MLD307()
    }

    fn run(&self, context: &RuleContext<'_>) -> (diagnostics: Vec<Diagnostic>) {
        let calls = &context.qualified_calls.calls;
        let mut diagnostics: Vec<Diagnostic> = Vec::new();
        let mut i: usize = 0;
        assert(reports(diagnostics@) =~= Seq::empty());
        while i < calls.len()
            invariant
                i <= calls@.len(),
                calls@ == context.qualified_calls.calls@,
                reports(diagnostics@) == gather(i as int, frame_io_finder(*context)),
            decreases calls@.len() - i,
        {
            push_found(&mut diagnostics, frame_io(context, i));
            i += 1;
        }
        diagnostics
    }
}

} // verus!
