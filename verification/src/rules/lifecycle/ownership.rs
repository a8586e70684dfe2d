//! `MLC111`: an updater-bearing object renders frames while it is in neither
//! the scene family nor an animation.
//!
//! Each statement is classified by effective scene-family membership,
//! whether the object is a live target of a play issued directly by that
//! statement, and whether it carries registered updaters. A violation needs
//! both absences on every path, for a certain registration. An orphaned
//! updater only matters while frames are produced, so the rule anchors on
//! the first `play` / `wait` inside the violating run of statements.
use super::updaters::{line_of, line_text};
use crate::diagnostic::{
    one_edit, single_edit, Confidence, Diagnostic, DiagnosticView, Fix, FixApplicability, FixView,
    MetadataView, RuleMetadata, Severity,
};
use crate::json::{json_text, Evidence, EvidenceView, JsonView};
use crate::rules::base::{
    add_related, basic_report, build_diagnostic, edit_at, related_at, related_site, text_edit,
    with_related, Rule, RuleContext,
};
use crate::rules::dedupe::{
    candidate_views, keep_first, kept, offer_all, offer_found, pair_key, site_pair, Candidate,
    CandidateView,
};
use crate::semantic::{
    ObjectId, OwnershipInterval, PlayFact, Presence, SceneLifecycle, Truth, UpdaterHost,
    UpdaterRegistration,
};
use crate::source::{path_in, slice_in, sliceable, text_in, AllocationSite, SourceFile, TextRange};
use crate::text::{alphanumeric, cat3, cat4, find_part, found, gather, is_alphanumeric, part_from};
use vstd::prelude::*;
use vstd::string::*;
use vstd::utf8::*;

verus! {

/// What [`MLC111`] declares.
pub open spec fn mlc111() -> MetadataView {
    MetadataView {
        id: "MLC111"@,
        summary: "Updater-bearing object is in neither the scene family nor an animation"@,
        default_enabled: true,
        default_severity: Severity::Info,
        minimum_confidence: Confidence::Medium,
        implementation_phase: 2,
        required_profiles: seq![],
        required_capabilities: seq!["lifecycle"@],
        supersedes: seq![],
    }
}

/// Metadata of rule `MLC111`.
#[allow(non_snake_case)]
pub fn MLC111() -> (metadata: &'static RuleMetadata)
    ensures
        metadata@ == mlc111(),
{
    let metadata: &'static RuleMetadata = &RuleMetadata {
        id: "MLC111",
        summary: "Updater-bearing object is in neither the scene family nor an animation",
        default_enabled: true,
        default_severity: Severity::Info,
        minimum_confidence: Confidence::Medium,
        implementation_phase: 2,
        required_profiles: &[],
        required_capabilities: &["lifecycle"],
        supersedes: &[],
    };
    assert(metadata@ =~= mlc111());
    metadata
}

/// Frames render while an updater-bearing object is provably outside the
/// scene family and not an animation target.
pub struct OrphanedUpdaterObject;

pub const ORPHANED: &'static str = "Frames render here while the object whose updater is \
    registered at line ";

pub const ORPHANED_END: &'static str = " is in neither the scene family \
    nor an animation: the object is invisible and its updater \
    never runs. Add it to the scene (`self.add(...)`) before \
    rendering, or remove the updater.";

pub const ORPHANED_WHY: &'static str = "Manim only invokes a mobject updater while the mobject is \
    reachable from the scene (`Scene.mobjects` family walk) or \
    owned by an in-flight animation. An updater registered on an \
    object that is in neither is dead weight: nothing is drawn \
    and the callback is never called (DESIGN §3.3).";

pub const ORPHANED_HERE: &'static str = "updater registered here";

/// Whether the object is orphaned after a statement.
pub open spec fn violates(interval: OwnershipInterval) -> bool {
    interval.in_family == Presence::Absent && interval.animation_target == Presence::Absent
        && interval.has_updaters != Truth::No
}

/// The first play, from `p` on, that the statement at `site` issues.
pub open spec fn play_inside(plays: Seq<PlayFact>, site: AllocationSite, p: int) -> Option<
    AllocationSite,
>
    decreases plays.len() - p,
{
    if p < 0 || p >= plays.len() {
        None
    } else if plays[p].site.file == site.file && site.spec_range().covers(
        plays[p].site.spec_range(),
    ) {
        Some(plays[p].site)
    } else {
        play_inside(plays, site, p + 1)
    }
}

fn find_play_inside(plays: &Vec<PlayFact>, site: AllocationSite) -> (play: Option<AllocationSite>)
    ensures
        play == play_inside(plays@, site, 0),
{
    let mut p: usize = 0;
    while p < plays.len()
        invariant
            p <= plays@.len(),
            play_inside(plays@, site, 0) == play_inside(plays@, site, p as int),
        decreases plays@.len() - p,
    {
        if plays[p].site.file == site.file && site.range().encloses(plays[p].site.range()) {
            return Some(plays[p].site);
        }
        p += 1;
    }
    None
}

/// Whether the run of violating statements that ends before `n` has already
/// rendered frames.
pub open spec fn reported_in_run(
    plays: Seq<PlayFact>,
    intervals: Seq<OwnershipInterval>,
    n: int,
) -> bool
    decreases n,
{
    n > 0 && violates(intervals[n - 1]) && (reported_in_run(plays, intervals, n - 1)
        || play_inside(plays, intervals[n - 1].site, 0) is Some)
}

/// Start of the line that holds the byte at `offset`.
pub open spec fn line_start_at(bytes: Seq<u8>, offset: int) -> int
    decreases offset,
{
    if offset <= 0 {
        0
    } else if bytes[offset - 1] == 10 {
        offset
    } else {
        line_start_at(bytes, offset - 1)
    }
}

proof fn line_start_bounds(bytes: Seq<u8>, offset: int)
    requires
        0 <= offset,
    ensures
        0 <= line_start_at(bytes, offset) <= offset,
    decreases offset,
{
    if offset > 0 && bytes[offset - 1] != 10 {
        line_start_bounds(bytes, offset - 1);
    }
}

/// What stands between the start of the line and a statement.
pub open spec fn indent_range(text: Seq<char>, start: u32) -> TextRange {
    TextRange { start: line_start_at(encode_utf8(text), start as int) as u32, end: start }
}

/// Whether a text is blanks and tabs.
pub open spec fn blank(text: Seq<char>) -> bool {
    forall|i: int| 0 <= i < text.len() ==> #[trigger] text[i] == ' ' || text[i] == '\t'
}

fn is_blank(text: &str) -> (blank: bool)
    ensures
        blank == self::blank(text@),
{
    let len: usize = text.unicode_len();
    let mut i: usize = 0;
    while i < len
        invariant
            i <= len,
            len == text@.len(),
            forall|j: int| 0 <= j < i ==> #[trigger] text@[j] == ' ' || text@[j] == '\t',
        decreases len - i,
    {
        let c: char = text.get_char(i);
        if c != ' ' && c != '\t' {
            return false;
        }
        i += 1;
    }
    true
}

/// The indentation of a statement, when nothing else stands before it.
pub open spec fn indent_of(text: Seq<char>, start: u32) -> Option<Seq<char>> {
    let range = indent_range(text, start);
    let indent = crate::source::slice_of(text, range);
    if sliceable(encode_utf8(text), range) && blank(indent) {
        Some(indent)
    } else {
        None
    }
}

fn indent_before(file: &SourceFile, start: u32) -> (indent: Option<String>)
    ensures
        match indent {
            Some(found) => indent_of(file.text@, start) == Some(found@),
            None => indent_of(file.text@, start) is None,
        },
{
    let text: &str = file.text.as_str();
    let bytes: &[u8] = text.as_bytes();
    if start as usize > bytes.len() {
        return None;
    }
    let mut line_start: u32 = start;
    while line_start > 0 && bytes[line_start as usize - 1] != 10
        invariant
            line_start <= start <= bytes@.len(),
            bytes@ == encode_utf8(file.text@),
            line_start_at(bytes@, start as int) == line_start_at(bytes@, line_start as int),
        decreases line_start,
    {
        line_start -= 1;
    }
    let range = TextRange::new(line_start, start);
    if !text.is_char_boundary(line_start as usize) || !text.is_char_boundary(start as usize) {
        return None;
    }
    let indent: String = file.slice(range);
    if is_blank(indent.as_str()) {
        Some(indent)
    } else {
        None
    }
}

/// Whether a text is a plain identifier.
pub open spec fn identifier(name: Seq<char>) -> bool {
    name.len() > 0 && !('0' <= name[0] && name[0] <= '9') && forall|i: int|
        0 <= i < name.len() ==> alphanumeric(#[trigger] name[i]) || name[i] == '_'
}

fn is_identifier(name: &str) -> (plain: bool)
    ensures
        plain == identifier(name@),
{
    let len: usize = name.unicode_len();
    if len == 0 {
        return false;
    }
    let first: char = name.get_char(0);
    if '0' <= first && first <= '9' {
        return false;
    }
    let mut i: usize = 0;
    while i < len
        invariant
            i <= len,
            len == name@.len(),
            forall|j: int| 0 <= j < i ==> alphanumeric(#[trigger] name@[j]) || name@[j] == '_',
        decreases len - i,
    {
        let c: char = name.get_char(i);
        if !is_alphanumeric(c) && c != '_' {
            return false;
        }
        i += 1;
    }
    true
}

/// The receiver of a registration: its text up to `.add_updater`.
pub open spec fn receiver_text(text: Seq<char>) -> Seq<char> {
    match part_from(text, ".add_updater"@, 0) {
        Some(at) => text.take(at),
        None => text,
    }
}

fn receiver_name(text: &str) -> (name: String)
    ensures
        name@ == receiver_text(text@),
{
    match find_part(text, ".add_updater") {
        Some(at) => {
            assert(text@.take(at as int) =~= text@.subrange(0, at as int));
            text.substring_char(0, at).to_owned()
        },
        None => text.to_owned(),
    }
}

/// The insertion of `self.add(<name>)` before a statement.
pub open spec fn add_fix_of(
    context: RuleContext<'_>,
    registration: UpdaterRegistration,
    statement: AllocationSite,
) -> Option<FixView> {
    let name = receiver_text(
        slice_in(*context.sources, statement.file, registration.site.spec_range()),
    );
    match indent_of(text_in(*context.sources, statement.file), statement.start) {
        Some(indent) => if registration.site.file == statement.file && statement.file.index
            < context.sources.files@.len() && identifier(name) {
            Some(
                single_edit(
                    FixApplicability::Unsafe,
                    "Insert `self.add("@ + name + ")` before this statement"@,
                    edit_at(
                        context,
                        statement.file,
                        TextRange { start: statement.start, end: statement.start },
                        "self.add("@ + name + ")\n"@ + indent,
                    ),
                ),
            )
        } else {
            None
        },
        None => None,
    }
}

/// Builds the unsafe `self.add(<name>)` insertion before the first rendering
/// statement of the violating interval, when the registration receiver is a
/// plain identifier in the same file. `None` otherwise; the diagnostic still
/// stands without a mechanical fix.
fn add_to_scene_fix(
    context: &RuleContext<'_>,
    registration: &UpdaterRegistration,
    statement: AllocationSite,
) -> (fix: Option<Fix>)
    ensures
        match fix {
            Some(found) => add_fix_of(*context, *registration, statement) == Some(found@),
            None => add_fix_of(*context, *registration, statement) is None,
        },
{
    if registration.site.file != statement.file {
        return None;
    }
    let file = match context.sources.file(statement.file) {
        Some(file) => file,
        None => {
            return None;
        },
    };
    let text: String = context.sources.slice(statement.file, registration.site.range());
    let name: String = receiver_name(text.as_str());
    if !is_identifier(name.as_str()) {
        return None;
    }
    // The statement must start its line so the inserted line inherits a
    // meaningful indentation.
    let indent: String = match indent_before(file, statement.start) {
        Some(indent) => indent,
        None => {
            return None;
        },
    };
    Some(
        one_edit(
            FixApplicability::Unsafe,
            cat3("Insert `self.add(", name.as_str(), ")` before this statement"),
            text_edit(
                context,
                statement.file,
                TextRange::new(statement.start, statement.start),
                cat4("self.add(", name.as_str(), ")\n", indent.as_str()),
            ),
        ),
    )
}

/// The report for a play that renders while an updater host is orphaned.
pub open spec fn orphaned_report(
    context: RuleContext<'_>,
    scene: SceneLifecycle,
    registration: UpdaterRegistration,
    play: AllocationSite,
    statement: AllocationSite,
) -> DiagnosticView {
    let line = line_text(context, registration.site);
    DiagnosticView {
        fix: add_fix_of(context, registration, statement),
        ..with_related(
            basic_report(
                mlc111(),
                context,
                play.file,
                play.spec_range(),
                ORPHANED@ + line + ORPHANED_END@,
                ORPHANED_WHY@,
                EvidenceView::empty().insert(
                    "scene"@,
                    JsonView::Text(scene.qualified_name@),
                ).insert(
                    "registration"@,
                    JsonView::Text(
                        path_in(*context.sources, registration.site.file) + ":"@ + line,
                    ),
                ).insert("in_family"@, JsonView::Text("absent"@)).insert(
                    "animation_target"@,
                    JsonView::Text("absent"@),
                ).insert("registration_certainty"@, JsonView::Text("present"@)),
            ),
            related_at(context, registration.site, ORPHANED_HERE@),
        )
    }
}

fn orphaned_diagnostic(
    context: &RuleContext<'_>,
    scene: &SceneLifecycle,
    registration: &UpdaterRegistration,
    play: AllocationSite,
    statement: AllocationSite,
) -> (diagnostic: Diagnostic)
    ensures
        diagnostic@ == orphaned_report(*context, *scene, *registration, play, statement),
{
    let line: String = line_of(context, registration.site);
    let path: String = context.sources.path(registration.site.file);
    let mut evidence = Evidence::new();
    evidence.insert("scene", json_text(scene.qualified_name.as_str()));
    evidence.insert(
        "registration",
        json_text(cat3(path.as_str(), ":", line.as_str()).as_str()),
    );
    evidence.insert("in_family", json_text("absent"));
    evidence.insert("animation_target", json_text("absent"));
    evidence.insert("registration_certainty", json_text("present"));
    let mut diagnostic = build_diagnostic(
        MLC111(),
        context,
        play.file,
        play.range(),
        cat3(ORPHANED, line.as_str(), ORPHANED_END),
        ORPHANED_WHY,
        evidence,
    );
    add_related(
        &mut diagnostic,
        related_site(context, registration.site, ORPHANED_HERE.to_owned()),
    );
    diagnostic.fix = add_to_scene_fix(context, registration, statement);
    diagnostic
}

/// Candidates of a registration, statement by statement: the first play of
/// every run of violating statements.
pub open spec fn orphaned_intervals(
    context: RuleContext<'_>,
    scene: SceneLifecycle,
    registration: UpdaterRegistration,
    object: ObjectId,
    intervals: Seq<OwnershipInterval>,
) -> spec_fn(int) -> Seq<CandidateView> {
    |n: int|
        match play_inside(scene.plays@, intervals[n].site, 0) {
            Some(play) => if violates(intervals[n]) && !reported_in_run(
                scene.plays@,
                intervals,
                n,
            ) {
                seq![
                    (
                        pair_key(play, object.site),
                        Some(
                            orphaned_report(
                                context,
                                scene,
                                registration,
                                play,
                                intervals[n].site,
                            ),
                        ),
                    ),
                ]
            } else {
                Seq::empty()
            },
            None => Seq::empty(),
        }
}

fn orphaned_in(
    context: &RuleContext<'_>,
    scene: &SceneLifecycle,
    registration: &UpdaterRegistration,
    object: &ObjectId,
    intervals: &Vec<OwnershipInterval>,
) -> (candidates: Vec<Candidate>)
    ensures
        candidate_views(candidates@) == gather(
            intervals@.len() as int,
            orphaned_intervals(*context, *scene, *registration, *object, intervals@),
        ),
{
    let mut candidates: Vec<Candidate> = Vec::new();
    let mut reported: bool = false;
    let mut n: usize = 0;
    assert(candidate_views(candidates@) =~= Seq::empty());
    while n < intervals.len()
        invariant
            n <= intervals@.len(),
            reported == reported_in_run(scene.plays@, intervals@, n as int),
            candidate_views(candidates@) == gather(
                n as int,
                orphaned_intervals(*context, *scene, *registration, *object, intervals@),
            ),
        decreases intervals@.len() - n,
    {
        let interval: OwnershipInterval = intervals[n];
        let violating: bool = interval.in_family == Presence::Absent && interval.animation_target
            == Presence::Absent && interval.has_updaters != Truth::No;
        let mut checked: Option<Candidate> = None;
        if !violating {
            reported = false;
        } else if !reported {
            // The interval only matters once frames are produced: find a
            // play / wait issued by this very statement.
            if let Some(play) = find_play_inside(&scene.plays, interval.site) {
                reported = true;
                checked = Some(
                    Candidate {
                        key: site_pair(play, object.site),
                        diagnostic: Some(
                            orphaned_diagnostic(
                                context,
                                scene,
                                registration,
                                play,
                                interval.site,
                            ),
                        ),
                    },
                );
            }
        }
        offer_found(&mut candidates, checked);
        n += 1;
    }
    candidates
}

/// The candidates of the registration at `k`.
pub open spec fn orphaned_of(context: RuleContext<'_>, scene: SceneLifecycle, k: int) -> Seq<
    CandidateView,
> {
    let registration = scene.updaters@[k];
    match registration.host {
        UpdaterHost::Mobject(object) => if registration.certainty == Presence::Present {
            gather(
                scene.spec_intervals(object).len() as int,
                orphaned_intervals(
                    context,
                    scene,
                    registration,
                    object,
                    scene.spec_intervals(object),
                ),
            )
        } else {
            Seq::empty()
        },
        UpdaterHost::Scene => Seq::empty(),
    }
}

fn orphaned_check(context: &RuleContext<'_>, scene: &SceneLifecycle, k: usize) -> (candidates: Vec<
    Candidate,
>)
    requires
        k < scene.updaters@.len(),
    ensures
        candidate_views(candidates@) == orphaned_of(*context, *scene, k as int),
{
    let registration = &scene.updaters[k];
    if registration.certainty == Presence::Present {
        if let UpdaterHost::Mobject(object) = &registration.host {
            if let Some(index) = scene.ownership_of(object) {
                return orphaned_in(
                    context,
                    scene,
                    registration,
                    object,
                    &scene.ownership[index].intervals,
                );
            }
        }
    }
    let none: Vec<Candidate> = Vec::new();
    assert(candidate_views(none@) =~= Seq::empty());
    none
}

/// The candidates of a scene, in the order of its updaters.
pub open spec fn orphaned_items(context: RuleContext<'_>, scene: SceneLifecycle) -> spec_fn(
    int,
) -> Seq<CandidateView> {
    |k: int| orphaned_of(context, scene, k)
}

/// The candidates of the scene at `i`.
pub open spec fn orphaned_at(context: RuleContext<'_>, i: int) -> Seq<CandidateView> {
    let scene = context.lifecycle_facts.scenes@[i];
    gather(scene.updaters@.len() as int, orphaned_items(context, scene))
}

fn orphaned(context: &RuleContext<'_>, i: usize) -> (candidates: Vec<Candidate>)
    requires
        i < context.lifecycle_facts.scenes@.len(),
    ensures
        candidate_views(candidates@) == orphaned_at(*context, i as int),
{
    let scene = &context.lifecycle_facts.scenes[i];
    let mut candidates: Vec<Candidate> = Vec::new();
    let mut k: usize = 0;
    assert(candidate_views(candidates@) =~= Seq::empty());
    while k < scene.updaters.len()
        invariant
            k <= scene.updaters@.len(),
            candidate_views(candidates@) == gather(k as int, orphaned_items(*context, *scene)),
        decreases scene.updaters@.len() - k,
    {
        offer_all(&mut candidates, orphaned_check(context, scene, k));
        k += 1;
    }
    candidates
}

/// Candidates of [`OrphanedUpdaterObject`], scene by scene.
pub open spec fn orphaned_finder(context: RuleContext<'_>) -> spec_fn(int) -> Seq<CandidateView> {
    |i: int| orphaned_at(context, i)
}

impl Rule for OrphanedUpdaterObject {
    open spec fn declared(&self) -> MetadataView {
        mlc111()
    }

    open spec fn findings(&self, context: RuleContext<'_>) -> Seq<DiagnosticView> {
        kept(gather(context.lifecycle_facts.scenes@.len() as int, orphaned_finder(context)))
    }

    fn metadata(&self) -> (metadata: &'static RuleMetadata) {
        MLC111()
    }

    fn run(&self, context: &RuleContext<'_>) -> (diagnostics: Vec<Diagnostic>) {
        let scenes = &context.lifecycle_facts.scenes;
        let mut candidates: Vec<Candidate> = Vec::new();
        let mut i: usize = 0;
        assert(candidate_views(candidates@) =~= Seq::empty());
        while i < scenes.len()
            invariant
                i <= scenes@.len(),
                scenes@ == context.lifecycle_facts.scenes@,
                candidate_views(candidates@) == gather(i as int, orphaned_finder(*context)),
            decreases scenes@.len() - i,
        {
            offer_all(&mut candidates, orphaned(context, i));
            i += 1;
        }
        keep_first(candidates)
    }
}

} // verus!
