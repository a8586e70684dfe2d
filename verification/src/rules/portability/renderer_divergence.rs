//! `MLD304`: renderer-divergent semantics reached without a guard under a
//! multi-renderer run.
//!
//! Only active when the run actually targets more than one renderer. Two
//! divergence families are covered, both on certainty facts only: the removal
//! of fixed objects, and the camera frame of a moving-camera scene.
use crate::ast::{function_from, is_name, named, rebinds, rebinds_name, Expr, Form, Stmt, StmtKind};
use crate::config::{RenderProfile, Renderer};
use crate::diagnostic::{
    related_views, Confidence, Diagnostic, DiagnosticView, MetadataView, RelatedLocation,
    RelatedView, RuleMetadata, Severity,
};
use crate::json::{json_text, json_texts, text_list, Evidence, EvidenceView, JsonView};
use crate::ordered::{place, sorted_sites};
use crate::rules::base::{
    basic_report, build_diagnostic, related_at, related_site, Rule, RuleContext,
};
use crate::rules::dedupe::{
    candidate_view, candidate_views, keep_first, kept, key_of, offer_all, offer_found, site_key,
    Candidate, CandidateView,
};
use crate::rules::lifecycle::structure::{find_method, method_from};
use crate::semantic::{
    CameraKind, Event, FixedAction, FixedKind, FixedRegistrationFact, Presence,
    RendererRequirementKind, SceneLifecycle,
};
use crate::source::{site_of, syntax_in, AllocationSite, FileId, TextRange};
use crate::text::{cat5, found, gather, same_text, texts};
use vstd::prelude::*;

verus! {

/// What [`MLD304`] declares.
pub open spec fn mld304() -> MetadataView {
    MetadataView {
        id: "MLD304"@,
        summary: "Renderer-divergent membership effect reached without a guard in a multi-renderer run"@,
        default_enabled: true,
        default_severity: Severity::Warning,
        minimum_confidence: Confidence::Medium,
        implementation_phase: 4,
        required_profiles: seq![],
        required_capabilities: seq!["qualified-calls"@, "lifecycle"@],
        supersedes: seq![],
    }
}

/// Metadata of rule `MLD304`.
#[allow(non_snake_case)]
pub fn MLD304() -> (metadata: &'static RuleMetadata)
    ensures
        metadata@ == mld304(),
{
    let metadata: &'static RuleMetadata = &RuleMetadata {
        id: "MLD304",
        summary: "Renderer-divergent membership effect reached without a guard in a multi-renderer run",
        default_enabled: true,
        default_severity: Severity::Warning,
        minimum_confidence: Confidence::Medium,
        implementation_phase: 4,
        required_profiles: &[],
        required_capabilities: &["qualified-calls", "lifecycle"],
        supersedes: &[],
    };
    assert(metadata@ =~= mld304());
    metadata
}

/// A call or attribute that two targeted renderers treat differently.
pub struct UnguardedRendererDivergence;

/// Canonical id of the `MovingCameraScene` class.
pub const MOVING_CAMERA_SCENE_ID: &'static str = "manim.scene.moving_camera_scene.MovingCameraScene";

/// The renderers in a report.
pub const RENDERERS: &'static str = "cairo, opengl";

pub const REMOVAL_START: &'static str = "This call's scene-membership effect diverges between the \
    renderers this run targets (";

pub const REMOVAL_END: &'static str = ") and is reached without \
    a renderer guard";

pub const REMOVAL_WHY: &'static str = "Unfixing a fixed object only unregisters the camera fix under \
    Cairo, but the OpenGL branch additionally removes the object from \
    the Scene (DESIGN 3.5). Rendering the same scene with both \
    renderers therefore produces different membership after this call. \
    Follow it with an explicit Scene.add / Scene.remove to pin the \
    intended state, or guard the call by renderer.";

pub const FIXED_HERE: &'static str = "the object was fixed (and auto-added) here";

pub const CAMERA_START: &'static str = "This MovingCameraScene's camera-frame semantics diverge between \
    the renderers this run targets (";

pub const CAMERA_END: &'static str = "` is \
    reached without a renderer guard";

pub const CAMERA_WHY: &'static str = "Under Cairo, `self.camera` on a MovingCameraScene is a MovingCamera \
    whose `frame` is an animatable mobject (and `auto_zoom` exists); the \
    OpenGL renderer ignores `camera_class` and installs an OpenGLCamera \
    without that contract (scene.py Scene.__init__, \
    moving_camera_scene.py). Rendering this scene with both renderers \
    therefore diverges at this access. Restrict the scene to a \
    Cairo-only profile, or guard the camera-frame path by renderer.";

/// Whether some profile has this renderer.
pub open spec fn targets_renderer(profiles: Seq<RenderProfile>, renderer: Renderer) -> bool {
    exists|i: int| 0 <= i < profiles.len() && (#[trigger] profiles[i]).renderer == renderer
}

fn has_renderer(profiles: &Vec<RenderProfile>, renderer: Renderer) -> (found: bool)
    ensures
        found == targets_renderer(profiles@, renderer),
{
    let mut i: usize = 0;
    while i < profiles.len()
        invariant
            i <= profiles@.len(),
            forall|j: int| 0 <= j < i ==> (#[trigger] profiles@[j]).renderer != renderer,
        decreases profiles@.len() - i,
    {
        if profiles[i].renderer == renderer {
            return true;
        }
        i += 1;
    }
    false
}

/// Whether the run targets more than one renderer.
pub open spec fn both_renderers(profiles: Seq<RenderProfile>) -> bool {
    targets_renderer(profiles, Renderer::Cairo) && targets_renderer(profiles, Renderer::OpenGl)
}

/// Names of the two renderers.
pub open spec fn renderer_names() -> Seq<Seq<char>> {
    seq!["cairo"@, "opengl"@]
}

fn name_renderers() -> (names: Vec<String>)
    ensures
        texts(names@) == renderer_names(),
{
    let names: Vec<String> = vec!["cairo".to_owned(), "opengl".to_owned()];
    assert(texts(names@) =~= renderer_names());
    names
}

// ---------------------------------------------------------------------------
// Fixed-object removal.
// ---------------------------------------------------------------------------

/// Whether a fact is a divergent removal at this site.
pub open spec fn divergent_removal(fact: FixedRegistrationFact, site: AllocationSite) -> bool {
    fact.site == site && fact.action == FixedAction::Remove && fact.renderer_divergent
}

/// Whether a fact is a certain registration that precedes the removal.
pub open spec fn prior_registration(
    fact: FixedRegistrationFact,
    removal: FixedRegistrationFact,
) -> bool {
    fact.action == FixedAction::Register && fact.object == removal.object && fact.certainty
        == Presence::Present && fact.site.start < removal.site.start
}

/// Whether a removal at this site concerns the registry.
pub open spec fn removes_from(
    facts: Seq<FixedRegistrationFact>,
    site: AllocationSite,
    kind: FixedKind,
) -> bool {
    exists|i: int|
        0 <= i < facts.len() && divergent_removal(#[trigger] facts[i], site) && facts[i].kind
            == kind
}

fn is_removed_from(
    facts: &Vec<FixedRegistrationFact>,
    site: AllocationSite,
    kind: FixedKind,
) -> (found: bool)
    ensures
        found == removes_from(facts@, site, kind),
{
    let mut i: usize = 0;
    while i < facts.len()
        invariant
            i <= facts@.len(),
            forall|j: int|
                0 <= j < i ==> !(divergent_removal(#[trigger] facts@[j], site) && facts@[j].kind
                    == kind),
        decreases facts@.len() - i,
    {
        let fact = &facts[i];
        if fact.site == site && fact.action == FixedAction::Remove && fact.renderer_divergent
            && fact.kind == kind {
            assert(divergent_removal(facts@[i as int], site));
            return true;
        }
        i += 1;
    }
    false
}

/// The registries that the removals at a site concern.
pub open spec fn registries(facts: Seq<FixedRegistrationFact>, site: AllocationSite) -> Seq<
    Seq<char>,
> {
    found(
        if removes_from(facts, site, FixedKind::InFrame) {
            Some("fixed_in_frame"@)
        } else {
            None
        },
    ) + found(
        if removes_from(facts, site, FixedKind::Orientation) {
            Some("fixed_orientation"@)
        } else {
            None
        },
    )
}

fn list_registries(facts: &Vec<FixedRegistrationFact>, site: AllocationSite) -> (names: Vec<String>)
    ensures
        texts(names@) == registries(facts@, site),
{
    let mut names: Vec<String> = Vec::new();
    if is_removed_from(facts, site, FixedKind::InFrame) {
        names.push("fixed_in_frame".to_owned());
    }
    if is_removed_from(facts, site, FixedKind::Orientation) {
        names.push("fixed_orientation".to_owned());
    }
    assert(texts(names@) =~= registries(facts@, site));
    names
}

/// Sites of the certain registrations before one removal, one by one.
pub open spec fn registration_parts(
    facts: Seq<FixedRegistrationFact>,
    removal: FixedRegistrationFact,
) -> spec_fn(int) -> Seq<AllocationSite> {
    |k: int|
        if prior_registration(facts[k], removal) {
            seq![facts[k].site]
        } else {
            Seq::empty()
        }
}

/// Sites of the certain registrations before the removals at a site, removal
/// by removal.
pub open spec fn removal_parts(facts: Seq<FixedRegistrationFact>, site: AllocationSite) -> spec_fn(
    int,
) -> Seq<AllocationSite> {
    |k: int|
        if divergent_removal(facts[k], site) {
            gather(facts.len() as int, registration_parts(facts, facts[k]))
        } else {
            Seq::empty()
        }
}

/// Sites of the certain registrations before the removals at a site, in
/// order, each once.
pub open spec fn registration_sites(
    facts: Seq<FixedRegistrationFact>,
    site: AllocationSite,
) -> Seq<AllocationSite> {
    sorted_sites(gather(facts.len() as int, removal_parts(facts, site)))
}

fn add_registrations(
    facts: &Vec<FixedRegistrationFact>,
    removal: &FixedRegistrationFact,
    sites: &mut Vec<AllocationSite>,
    Ghost(before): Ghost<Seq<AllocationSite>>,
)
    requires
        old(sites)@ == sorted_sites(before),
    ensures
        final(sites)@ == sorted_sites(
            before + gather(facts@.len() as int, registration_parts(facts@, *removal)),
        ),
{
    let ghost parts = registration_parts(facts@, *removal);
    let mut k: usize = 0;
    assert(before + gather(0, parts) =~= before);
    while k < facts.len()
        invariant
            k <= facts@.len(),
            parts == registration_parts(facts@, *removal),
            sites@ == sorted_sites(before + gather(k as int, parts)),
        decreases facts@.len() - k,
    {
        let fact = &facts[k];
        let ghost so_far = before + gather(k as int, parts);
        if fact.action == FixedAction::Register && fact.object == removal.object && fact.certainty
            == Presence::Present && fact.site.start < removal.site.start {
            place(sites, fact.site);
            assert(before + gather(k + 1, parts) =~= so_far.push(fact.site));
            assert(so_far.push(fact.site).drop_last() =~= so_far);
        } else {
            assert(before + gather(k + 1, parts) =~= so_far);
        }
        k += 1;
    }
}

fn list_registrations(facts: &Vec<FixedRegistrationFact>, site: AllocationSite) -> (sites: Vec<
    AllocationSite,
>)
    ensures
        sites@ == registration_sites(facts@, site),
{
    let mut sites: Vec<AllocationSite> = Vec::new();
    let ghost parts = removal_parts(facts@, site);
    let mut k: usize = 0;
    assert(sites@ =~= sorted_sites(gather(0, parts)));
    while k < facts.len()
        invariant
            k <= facts@.len(),
            parts == removal_parts(facts@, site),
            sites@ == sorted_sites(gather(k as int, parts)),
        decreases facts@.len() - k,
    {
        let removal = &facts[k];
        if removal.site == site && removal.action == FixedAction::Remove
            && removal.renderer_divergent {
            add_registrations(facts, removal, &mut sites, Ghost(gather(k as int, parts)));
        } else {
            assert(gather(k + 1, parts) =~= gather(k as int, parts));
        }
        k += 1;
    }
    sites
}

/// Related locations at the registrations.
pub open spec fn fixed_locations(context: RuleContext<'_>, sites: Seq<AllocationSite>) -> Seq<
    RelatedView,
> {
    Seq::new(sites.len(), |i: int| related_at(context, sites[i], FIXED_HERE@))
}

fn locate_fixed(context: &RuleContext<'_>, sites: &Vec<AllocationSite>) -> (related: Vec<
    RelatedLocation,
>)
    ensures
        related_views(related@) == fixed_locations(*context, sites@),
{
    let mut related: Vec<RelatedLocation> = Vec::new();
    let mut i: usize = 0;
    while i < sites.len()
        invariant
            i <= sites@.len(),
            related@.len() == i,
            forall|j: int|
                0 <= j < i ==> (#[trigger] related@[j])@ == related_at(
                    *context,
                    sites@[j],
                    FIXED_HERE@,
                ),
        decreases sites@.len() - i,
    {
        related.push(related_site(context, sites[i], FIXED_HERE.to_owned()));
        i += 1;
    }
    assert(related_views(related@) =~= fixed_locations(*context, sites@));
    related
}

/// What the event at `k` gives: a branch around the call (a renderer guard
/// included) leaves its certainty open, which stays silent.
pub open spec fn removal_at(context: RuleContext<'_>, scene: SceneLifecycle, k: int) -> Option<
    CandidateView,
> {
    let traced = scene.events@[k];
    let facts = scene.fixed_registrations@;
    match traced.event {
        Event::RendererRequirement { requirement, note } => if requirement
            == RendererRequirementKind::DivergesBetweenRenderers && traced.certainty
            == Presence::Present {
            let base = EvidenceView::empty().insert(
                "scene"@,
                JsonView::Text(scene.qualified_name@),
            ).insert("note"@, JsonView::Text(note@)).insert(
                "renderers"@,
                text_list(renderer_names()),
            );
            let report = basic_report(
                mld304(),
                context,
                traced.site.file,
                traced.site.spec_range(),
                REMOVAL_START@ + RENDERERS@ + REMOVAL_END@,
                REMOVAL_WHY@,
                if registries(facts, traced.site).len() == 0 {
                    base
                } else {
                    base.insert("registry"@, text_list(registries(facts, traced.site)))
                },
            );
            Some(
                (
                    key_of(traced.site),
                    Some(
                        DiagnosticView {
                            related_locations: fixed_locations(
                                context,
                                registration_sites(facts, traced.site),
                            ),
                            ..report
                        },
                    ),
                ),
            )
        } else {
            None
        },
        _ => None,
    }
}

fn fixed_removal(context: &RuleContext<'_>, scene: &SceneLifecycle, k: usize) -> (found: Option<
    Candidate,
>)
    requires
        k < scene.events@.len(),
    ensures
        match found {
            Some(candidate) => removal_at(*context, *scene, k as int) == Some(
                candidate_view(candidate),
            ),
            None => removal_at(*context, *scene, k as int) is None,
        },
{
    let traced = &scene.events[k];
    let note: &String = match &traced.event {
        Event::RendererRequirement { requirement, note } => {
            if *requirement != RendererRequirementKind::DivergesBetweenRenderers {
                return None;
            }
            note
        },
        _ => {
            return None;
        },
    };
    if traced.certainty != Presence::Present {
        return None;
    }
    let mut evidence = Evidence::new();
    evidence.insert("scene", json_text(scene.qualified_name.as_str()));
    evidence.insert("note", json_text(note.as_str()));
    evidence.insert("renderers", json_texts(&name_renderers()));
    let names: Vec<String> = list_registries(&scene.fixed_registrations, traced.site);
    assert(texts(names@).len() == names@.len());
    if names.len() != 0 {
        evidence.insert("registry", json_texts(&names));
    }
    let mut diagnostic = build_diagnostic(
        MLD304(),
        context,
        traced.site.file,
        traced.site.range(),
        crate::text::cat3(REMOVAL_START, RENDERERS, REMOVAL_END),
        REMOVAL_WHY,
        evidence,
    );
    let sites: Vec<AllocationSite> = list_registrations(&scene.fixed_registrations, traced.site);
    diagnostic.related_locations = locate_fixed(context, &sites);
    Some(Candidate { key: site_key(traced.site), diagnostic: Some(diagnostic) })
}

/// What the events of a scene give, one by one.
pub open spec fn removals_parts(
    context: RuleContext<'_>,
    scene: SceneLifecycle,
) -> spec_fn(int) -> Seq<CandidateView> {
    |k: int| found(removal_at(context, scene, k))
}

/// What the events of a scene give, in order.
pub open spec fn removals_all(
    context: RuleContext<'_>,
    scene: SceneLifecycle,
) -> Seq<CandidateView> {
    gather(scene.events@.len() as int, removals_parts(context, scene))
}

fn removals(
    context: &RuleContext<'_>,
    scene: &SceneLifecycle,
) -> (candidates: Vec<Candidate>)
    ensures
        candidate_views(candidates@) == removals_all(*context, *scene),
{
    let mut candidates: Vec<Candidate> = Vec::new();
    let mut k: usize = 0;
    assert(candidate_views(candidates@) =~= Seq::empty());
    while k < scene.events.len()
        invariant
            k <= scene.events.len(),
            candidate_views(candidates@) == gather(k as int, removals_parts(*context, *scene)),
        decreases scene.events.len() - k,
    {
        offer_found(&mut candidates, fixed_removal(context, scene, k));
        k += 1;
    }
    candidates
}

// ---------------------------------------------------------------------------
// Camera frame of a moving-camera scene.
// ---------------------------------------------------------------------------

/// The camera attribute an expression is: `self.camera.frame` or
/// `self.camera.auto_zoom`.
pub open spec fn camera_attribute(expr: Expr) -> Option<Seq<char>> {
    match expr.form {
        Form::Attribute(attr) => if expr.parts@.len() == 1 && is_self_camera(expr.parts@[0]) {
            if attr@ == "frame"@ {
                Some("self.camera.frame"@)
            } else if attr@ == "auto_zoom"@ {
                Some("self.camera.auto_zoom"@)
            } else {
                None
            }
        } else {
            None
        },
        _ => None,
    }
}

/// Whether an expression is `self.camera`.
pub open spec fn is_self_camera(expr: Expr) -> bool {
    match expr.form {
        Form::Attribute(attr) => attr@ == "camera"@ && expr.parts@.len() == 1 && is_name(
            expr.parts@[0],
            "self"@,
        ),
        _ => false,
    }
}

fn find_camera_attribute(expr: &Expr) -> (name: Option<&'static str>)
    ensures
        match name {
            Some(found) => camera_attribute(*expr) == Some(found@),
            None => camera_attribute(*expr) is None,
        },
{
    match &expr.form {
        Form::Attribute(attr) => {
            if expr.parts.len() != 1 {
                return None;
            }
            let inner = &expr.parts[0];
            let camera: bool = match &inner.form {
                Form::Attribute(name) => same_text(name.as_str(), "camera") && inner.parts.len()
                    == 1 && named(&inner.parts[0], "self"),
                _ => false,
            };
            if !camera {
                None
            } else if same_text(attr.as_str(), "frame") {
                Some("self.camera.frame")
            } else if same_text(attr.as_str(), "auto_zoom") {
                Some("self.camera.auto_zoom")
            } else {
                None
            }
        },
        _ => None,
    }
}

/// How many leading parts of an expression are evaluated whenever it is: not
/// the body of a lambda, the parts of a comprehension, the branches of a
/// conditional, or the operands behind a short circuit.
pub open spec fn certain_parts(expr: Expr) -> int {
    let len = expr.parts@.len() as int;
    match expr.form {
        Form::Lambda => if len > 0 {
            len - 1
        } else {
            0
        },
        Form::Comprehension => 0,
        Form::Conditional | Form::Boolean => if len > 0 {
            1
        } else {
            0
        },
        _ => len,
    }
}

fn count_certain(expr: &Expr) -> (count: usize)
    ensures
        count == certain_parts(*expr),
        count <= expr.parts@.len(),
{
    let len: usize = expr.parts.len();
    match &expr.form {
        Form::Lambda => if len > 0 {
            len - 1
        } else {
            0
        },
        Form::Comprehension => 0,
        Form::Conditional | Form::Boolean => if len > 0 {
            1
        } else {
            0
        },
        _ => len,
    }
}

/// The first camera attribute that is certainly evaluated with an
/// expression.
pub open spec fn camera_use(expr: Expr) -> Option<(Seq<char>, TextRange)>
    decreases expr, expr.parts@.len() + 1,
{
    match camera_attribute(expr) {
        Some(attribute) => Some((attribute, expr.range)),
        None => camera_use_from(expr, 0),
    }
}

/// The first such attribute among the certain parts from `i` on.
pub open spec fn camera_use_from(expr: Expr, i: int) -> Option<(Seq<char>, TextRange)>
    decreases expr, expr.parts@.len() - i,
{
    if i < 0 || i >= certain_parts(expr) || i >= expr.parts@.len() {
        None
    } else {
        match camera_use(expr.parts@[i]) {
            Some(found) => Some(found),
            None => camera_use_from(expr, i + 1),
        }
    }
}

fn find_camera_use(expr: &Expr) -> (found: Option<(&'static str, TextRange)>)
    ensures
        match found {
            Some((attribute, range)) => camera_use(*expr) == Some((attribute@, range)),
            None => camera_use(*expr) is None,
        },
    decreases expr,
{
    if let Some(attribute) = find_camera_attribute(expr) {
        return Some((attribute, expr.range));
    }
    let count: usize = count_certain(expr);
    let mut i: usize = 0;
    while i < count
        invariant
            i <= count <= expr.parts@.len(),
            count == certain_parts(*expr),
            camera_use(*expr) == camera_use_from(*expr, i as int),
        decreases count - i,
    {
        match find_camera_use(&expr.parts[i]) {
            Some(inner) => {
                return Some(inner);
            },
            None => {},
        }
        i += 1;
    }
    None
}

/// The first camera use of a list of expressions, from position `i` on.
pub open spec fn first_use(list: Seq<Expr>, i: int) -> Option<(Seq<char>, TextRange)>
    decreases list.len() - i,
{
    if i < 0 || i >= list.len() {
        None
    } else {
        match camera_use(list[i]) {
            Some(found) => Some(found),
            None => first_use(list, i + 1),
        }
    }
}

fn find_first_use(list: &Vec<Expr>) -> (found: Option<(&'static str, TextRange)>)
    ensures
        match found {
            Some((attribute, range)) => first_use(list@, 0) == Some((attribute@, range)),
            None => first_use(list@, 0) is None,
        },
{
    let mut i: usize = 0;
    while i < list.len()
        invariant
            i <= list@.len(),
            first_use(list@, 0) == first_use(list@, i as int),
        decreases list@.len() - i,
    {
        match find_camera_use(&list[i]) {
            Some(inner) => {
                return Some(inner);
            },
            None => {},
        }
        i += 1;
    }
    None
}

/// Whether a statement can neither branch, loop, raise, nor return.
pub open spec fn straight(kind: StmtKind) -> bool {
    kind == StmtKind::Assign || kind == StmtKind::AnnAssign || kind == StmtKind::AugAssign || kind
        == StmtKind::Expr || kind == StmtKind::Pass || kind == StmtKind::Import
}

fn is_straight(kind: StmtKind) -> (yes: bool)
    ensures
        yes == straight(kind),
{
    kind == StmtKind::Assign || kind == StmtKind::AnnAssign || kind == StmtKind::AugAssign || kind
        == StmtKind::Expr || kind == StmtKind::Pass || kind == StmtKind::Import
}

/// The first camera use of a straight statement: in its value, then in its
/// targets. An annotation without a value evaluates nothing.
pub open spec fn statement_use(stmt: Stmt) -> Option<(Seq<char>, TextRange)> {
    if stmt.values@.len() == 0 {
        None
    } else {
        match first_use(stmt.values@, 0) {
            Some(found) => Some(found),
            None => first_use(stmt.targets@, 0),
        }
    }
}

fn find_statement_use(stmt: &Stmt) -> (found: Option<(&'static str, TextRange)>)
    ensures
        match found {
            Some((attribute, range)) => statement_use(*stmt) == Some((attribute@, range)),
            None => statement_use(*stmt) is None,
        },
{
    if stmt.values.len() == 0 {
        return None;
    }
    match find_first_use(&stmt.values) {
        Some(inner) => Some(inner),
        None => find_first_use(&stmt.targets),
    }
}

/// The first camera use on the straight-line prefix of a body, from position
/// `i` on: the first statement that can branch, loop, raise, return, or defer
/// execution ends the certain prefix.
pub open spec fn prefix_use(body: Seq<Stmt>, i: int) -> Option<(Seq<char>, TextRange)>
    decreases body.len() - i,
{
    if i < 0 || i >= body.len() || !straight(body[i].kind) {
        None
    } else {
        match statement_use(body[i]) {
            Some(found) => Some(found),
            None => prefix_use(body, i + 1),
        }
    }
}

fn find_prefix_use(body: &Vec<Stmt>) -> (found: Option<(&'static str, TextRange)>)
    ensures
        match found {
            Some((attribute, range)) => prefix_use(body@, 0) == Some((attribute@, range)),
            None => prefix_use(body@, 0) is None,
        },
{
    let mut i: usize = 0;
    while i < body.len()
        invariant
            i <= body@.len(),
            prefix_use(body@, 0) == prefix_use(body@, i as int),
        decreases body@.len() - i,
    {
        if !is_straight(body[i].kind) {
            return None;
        }
        match find_statement_use(&body[i]) {
            Some(inner) => {
                return Some(inner);
            },
            None => {},
        }
        i += 1;
    }
    None
}

/// Whether any statement of a body, at any depth, rebinds the name `self`.
pub open spec fn rebinds_self(body: Seq<Stmt>) -> bool {
    exists|i: int| 0 <= i < body.len() && rebinds(#[trigger] body[i], "self"@)
}

/// Whether any statement in the body (at any nesting depth) rebinds the name
/// `self`: assignments, loop targets, or `with ... as` targets. A rebound
/// `self` means `self.camera` is no longer certainly the scene.
fn binds_self(body: &Vec<Stmt>) -> (bound: bool)
    ensures
        bound == rebinds_self(body@),
{
    let mut i: usize = 0;
    while i < body.len()
        invariant
            i <= body@.len(),
            forall|j: int| 0 <= j < i ==> !rebinds(#[trigger] body@[j], "self"@),
        decreases body@.len() - i,
    {
        if rebinds_name(&body[i], "self") {
            return true;
        }
        i += 1;
    }
    false
}

/// File and range of the `construct` method of the first listed class that
/// defines one, from position `i` on.
pub open spec fn construct_from(context: RuleContext<'_>, mro: Seq<String>, i: int) -> Option<
    (FileId, TextRange),
>
    decreases mro.len() - i,
{
    if i < 0 || i >= mro.len() {
        None
    } else {
        match context.project_index.spec_class(mro[i]@) {
            Some(record) => match method_from(record.methods@, "construct"@, 0) {
                Some(method) => Some((record.file, method)),
                None => construct_from(context, mro, i + 1),
            },
            None => construct_from(context, mro, i + 1),
        }
    }
}

/// The first certain camera use of a `construct` method.
pub open spec fn construct_use(context: RuleContext<'_>, file: FileId, range: TextRange) -> Option<
    (Seq<char>, TextRange),
> {
    match syntax_in(*context.sources, file) {
        Some(syntax) => match function_from(syntax.functions@, range, 0) {
            Some(function) => if function.name@ != "construct"@ || rebinds_self(function.body@) {
                None
            } else {
                prefix_use(function.body@, 0)
            },
            None => None,
        },
        None => None,
    }
}

fn find_construct_use(context: &RuleContext<'_>, file: FileId, range: TextRange) -> (found: Option<
    (&'static str, TextRange),
>)
    ensures
        match found {
            Some((attribute, at)) => construct_use(*context, file, range) == Some(
                (attribute@, at),
            ),
            None => construct_use(*context, file, range) is None,
        },
{
    let syntax = match context.sources.syntax(file) {
        Some(syntax) => syntax,
        None => {
            return None;
        },
    };
    let function = match syntax.function_def_at(range) {
        Some(function) => function,
        None => {
            return None;
        },
    };
    if !same_text(function.name.as_str(), "construct") || binds_self(&function.body) {
        return None;
    }
    find_prefix_use(&function.body)
}

fn find_construct(context: &RuleContext<'_>, mro: &Vec<String>) -> (found: Option<
    (FileId, TextRange),
>)
    ensures
        found == construct_from(*context, mro@, 0),
{
    let mut i: usize = 0;
    while i < mro.len()
        invariant
            i <= mro@.len(),
            construct_from(*context, mro@, 0) == construct_from(*context, mro@, i as int),
        decreases mro@.len() - i,
    {
        if let Some(record) = context.project_index.class(mro[i].as_str()) {
            if let Some(method) = find_method(&record.methods, "construct") {
                return Some((record.file, method));
            }
        }
        i += 1;
    }
    None
}

/// Whether the loaded profile says that only Cairo supports moving-camera
/// scenes.
pub open spec fn camera_divergent(context: RuleContext<'_>) -> bool {
    match context.knowledge {
        Some(profile) => match profile.spec_symbol(MOVING_CAMERA_SCENE_ID@) {
            Some(entry) => match entry.renderer {
                Some(compat) => compat.cairo == Some(true) && compat.opengl == Some(false),
                None => false,
            },
            None => false,
        },
        None => false,
    }
}

fn is_camera_divergent(context: &RuleContext<'_>) -> (divergent: bool)
    ensures
        divergent == camera_divergent(*context),
{
    let profile = match context.knowledge {
        Some(profile) => profile,
        None => {
            return false;
        },
    };
    match profile.symbol(MOVING_CAMERA_SCENE_ID) {
        Some(entry) => match &entry.renderer {
            Some(compat) => match (compat.cairo, compat.opengl) {
                (Some(cairo), Some(opengl)) => cairo && !opengl,
                _ => false,
            },
            None => false,
        },
        None => false,
    }
}

/// What the camera of a scene gives.
pub open spec fn camera_candidate(context: RuleContext<'_>, scene: SceneLifecycle) -> Option<
    CandidateView,
> {
    match construct_from(context, scene.mro@, 0) {
        Some((file, construct)) => match construct_use(context, file, construct) {
            Some((attribute, range)) => if scene.camera_kind == CameraKind::MovingCamera
                && camera_divergent(context) {
                Some(
                    (
                        key_of(site_of(file, range)),
                        Some(
                            basic_report(
                                mld304(),
                                context,
                                file,
                                range,
                                CAMERA_START@ + RENDERERS@ + "); `"@ + attribute + CAMERA_END@,
                                CAMERA_WHY@,
                                EvidenceView::empty().insert(
                                    "scene"@,
                                    JsonView::Text(scene.qualified_name@),
                                ).insert("camera"@, JsonView::Text("moving_camera"@)).insert(
                                    "attribute"@,
                                    JsonView::Text(attribute),
                                ).insert("renderers"@, text_list(renderer_names())),
                            ),
                        ),
                    ),
                )
            } else {
                None
            },
            None => None,
        },
        None => None,
    }
}

fn camera_frame(context: &RuleContext<'_>, scene: &SceneLifecycle) -> (found: Option<Candidate>)
    ensures
        match found {
            Some(candidate) => camera_candidate(*context, *scene) == Some(
                candidate_view(candidate),
            ),
            None => camera_candidate(*context, *scene) is None,
        },
{
    // The camera contract must be proven, and its divergence a curated fact.
    if scene.camera_kind != CameraKind::MovingCamera || !is_camera_divergent(context) {
        return None;
    }
    // The first class that defines `construct` owns the executed body.
    let (file, construct) = match find_construct(context, &scene.mro) {
        Some(place) => place,
        None => {
            return None;
        },
    };
    let (attribute, range) = match find_construct_use(context, file, construct) {
        Some(inner) => inner,
        None => {
            return None;
        },
    };
    let mut evidence = Evidence::new();
    evidence.insert("scene", json_text(scene.qualified_name.as_str()));
    evidence.insert("camera", json_text("moving_camera"));
    evidence.insert("attribute", json_text(attribute));
    evidence.insert("renderers", json_texts(&name_renderers()));
    let diagnostic = build_diagnostic(
        MLD304(),
        context,
        file,
        range,
        cat5(CAMERA_START, RENDERERS, "); `", attribute, CAMERA_END),
        CAMERA_WHY,
        evidence,
    );
    Some(
        Candidate {
            key: site_key(AllocationSite::new(file, range)),
            diagnostic: Some(diagnostic),
        },
    )
}

/// What the scene at `i` gives. Single-renderer runs never require renderer
/// guards.
pub open spec fn divergence_at(context: RuleContext<'_>, i: int) -> Seq<CandidateView> {
    let scene = context.lifecycle_facts.scenes@[i];
    if both_renderers(context.config.active_profiles@) {
        removals_all(context, scene) + found(camera_candidate(context, scene))
    } else {
        Seq::empty()
    }
}

fn divergence(context: &RuleContext<'_>, i: usize) -> (candidates: Vec<Candidate>)
    requires
        i < context.lifecycle_facts.scenes@.len(),
    ensures
        candidate_views(candidates@) == divergence_at(*context, i as int),
{
    let scene = &context.lifecycle_facts.scenes[i];
    let profiles = &context.config.active_profiles;
    if !has_renderer(profiles, Renderer::Cairo) || !has_renderer(profiles, Renderer::OpenGl) {
        let candidates: Vec<Candidate> = Vec::new();
        assert(candidate_views(candidates@) =~= Seq::empty());
        return candidates;
    }
    let mut candidates: Vec<Candidate> = removals(context, scene);
    offer_found(&mut candidates, camera_frame(context, scene));
    candidates
}

/// Candidates of [`UnguardedRendererDivergence`], scene by scene.
pub open spec fn divergence_finder(context: RuleContext<'_>) -> spec_fn(int) -> Seq<CandidateView> {
    |i: int| divergence_at(context, i)
}

impl Rule for UnguardedRendererDivergence {
    open spec fn declared(&self) -> MetadataView {
        mld304()
    }

    open spec fn findings(&self, context: RuleContext<'_>) -> Seq<DiagnosticView> {
        kept(gather(context.lifecycle_facts.scenes@.len() as int, divergence_finder(context)))
    }

    fn metadata(&self) -> (metadata: &'static RuleMetadata) {
        MLD304()
    }

    fn run(&self, context: &RuleContext<'_>) -> (diagnostics: Vec<Diagnostic>) {
        let scenes = &context.lifecycle_facts.scenes;
        let mut candidates: Vec<Candidate> = Vec::new();
        let mut i: usize = 0;
        assert(candidate_views(candidates@) =~= Seq::empty());
        while i < scenes.len()
            invariant
                i <= scenes@.len(),
                scenes@ == context.lifecycle_facts.scenes@,
                candidate_views(candidates@) == gather(i as int, divergence_finder(*context)),
            decreases scenes@.len() - i,
        {
            offer_all(&mut candidates, divergence(context, i));
            i += 1;
        }
        keep_first(candidates)
    }
}

} // verus!
