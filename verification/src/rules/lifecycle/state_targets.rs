//! Target-state requirement rules: `MLC107`, `MLC120`.
//!
//! `MoveToTarget` requires `generate_target()` and `Restore` /
//! `Mobject.restore` require `save_state()` on every path reaching the
//! construction. These rules fire only where the required state is absent on
//! all paths; one that is present on some paths stays silent.
use crate::diagnostic::{
    push, reports, Confidence, Diagnostic, DiagnosticView, MetadataView, RuleMetadata, Severity,
};
use crate::json::{json_text, json_texts, text_list, Evidence, EvidenceView, JsonView};
use crate::ordered::{place, sorted_sites};
use crate::rules::base::{basic_report, build_diagnostic, Rule, RuleContext};
use crate::semantic::{Presence, SceneLifecycle, TargetRequirement, TargetRequirementFact};
use crate::source::{slice_in, AllocationSite};
use crate::text::{cat3, gather, has_text, texts};
use vstd::prelude::*;

verus! {

/// Whether a fact states that the required state is absent on all paths.
pub open spec fn absent(fact: TargetRequirementFact, requirement: TargetRequirement) -> bool {
    fact.requirement == requirement && fact.presence == Presence::Absent
}

/// Sites of the absent states of a list of facts.
pub open spec fn absent_parts(
    facts: Seq<TargetRequirementFact>,
    requirement: TargetRequirement,
) -> spec_fn(int) -> Seq<AllocationSite> {
    |f: int|
        if absent(facts[f], requirement) {
            seq![facts[f].site]
        } else {
            Seq::empty()
        }
}

/// Sites of the absent states of a scene. An unresolved base constructor
/// could have produced the required state, so such a scene claims nothing.
pub open spec fn absent_in(scene: SceneLifecycle, requirement: TargetRequirement) -> Seq<
    AllocationSite,
> {
    if scene.constructor_state_unknown {
        Seq::empty()
    } else {
        gather(
            scene.target_requirements@.len() as int,
            absent_parts(scene.target_requirements@, requirement),
        )
    }
}

/// Sites of the absent states of all scenes.
pub open spec fn absent_scenes(
    scenes: Seq<SceneLifecycle>,
    requirement: TargetRequirement,
) -> spec_fn(int) -> Seq<AllocationSite> {
    |s: int| absent_in(scenes[s], requirement)
}

/// Every place where the required state is absent, in order, once.
pub open spec fn absent_places(context: RuleContext<'_>, requirement: TargetRequirement) -> Seq<
    AllocationSite,
> {
    let scenes = context.lifecycle_facts.scenes@;
    sorted_sites(gather(scenes.len() as int, absent_scenes(scenes, requirement)))
}

/// Names of the first `n` scenes that prove the absence at `site`, each once.
pub open spec fn proving_scenes(
    scenes: Seq<SceneLifecycle>,
    requirement: TargetRequirement,
    site: AllocationSite,
    n: int,
) -> Seq<Seq<char>>
    decreases n,
{
    if n <= 0 {
        Seq::empty()
    } else {
        let names = proving_scenes(scenes, requirement, site, n - 1);
        let name = scenes[n - 1].qualified_name@;
        if absent_in(scenes[n - 1], requirement).contains(site) && !names.contains(name) {
            names.push(name)
        } else {
            names
        }
    }
}

fn has_absent(
    scene: &SceneLifecycle,
    requirement: TargetRequirement,
    site: AllocationSite,
) -> (has: bool)
    ensures
        has == absent_in(*scene, requirement).contains(site),
{
    if scene.constructor_state_unknown {
        return false;
    }
    let facts = &scene.target_requirements;
    let mut f: usize = 0;
    let mut has: bool = false;
    while f < facts.len()
        invariant
            f <= facts@.len(),
            has == gather(f as int, absent_parts(facts@, requirement)).contains(site),
        decreases facts@.len() - f,
    {
        let ghost before = gather(f as int, absent_parts(facts@, requirement));
        let fact = &facts[f];
        let ghost part = absent_parts(facts@, requirement)(f as int);
        if fact.requirement == requirement && fact.presence == Presence::Absent {
            proof {
                let after = before + seq![fact.site];
                if before.contains(site) {
                    let k = choose|k: int| 0 <= k < before.len() && before[k] == site;
                    assert(after[k] == site);
                }
                if fact.site == site {
                    assert(after[before.len() as int] == site);
                }
                if after.contains(site) {
                    let k = choose|k: int| 0 <= k < after.len() && after[k] == site;
                    if k < before.len() {
                        assert(before[k] == site);
                    }
                }
            }
            if fact.site == site {
                has = true;
            }
        } else {
            assert(before + part =~= before);
        }
        f += 1;
    }
    has
}

fn scenes_proving(
    context: &RuleContext<'_>,
    requirement: TargetRequirement,
    site: AllocationSite,
) -> (names: Vec<String>)
    ensures
        texts(names@) == proving_scenes(
            context.lifecycle_facts.scenes@,
            requirement,
            site,
            context.lifecycle_facts.scenes@.len() as int,
        ),
{
    let scenes = &context.lifecycle_facts.scenes;
    let mut names: Vec<String> = Vec::new();
    let mut s: usize = 0;
    assert(texts(names@) =~= Seq::empty());
    while s < scenes.len()
        invariant
            s <= scenes@.len(),
            texts(names@) == proving_scenes(scenes@, requirement, site, s as int),
        decreases scenes@.len() - s,
    {
        let ghost before = names@;
        if has_absent(&scenes[s], requirement, site) && !has_text(
            &names,
            scenes[s].qualified_name.as_str(),
        ) {
            names.push(scenes[s].qualified_name.clone());
            assert(texts(names@) =~= texts(before).push(names@.last()@));
        }
        s += 1;
    }
    names
}

/// Collects, per requirement kind, the sites where the required state is
/// absent on all paths.
fn absent_sites(context: &RuleContext<'_>, requirement: TargetRequirement) -> (sites: Vec<
    AllocationSite,
>)
    ensures
        sites@ == absent_places(*context, requirement),
{
    let scenes = &context.lifecycle_facts.scenes;
    let mut sites: Vec<AllocationSite> = Vec::new();
    let ghost mut all: Seq<AllocationSite> = Seq::empty();
    let mut s: usize = 0;
    while s < scenes.len()
        invariant
            s <= scenes@.len(),
            scenes@ == context.lifecycle_facts.scenes@,
            all == gather(s as int, absent_scenes(scenes@, requirement)),
            sites@ == sorted_sites(all),
        decreases scenes@.len() - s,
    {
        let scene = &scenes[s];
        let ghost before = all;
        if !scene.constructor_state_unknown {
            let facts = &scene.target_requirements;
            let mut f: usize = 0;
            assert(all =~= before + Seq::<AllocationSite>::empty());
            while f < facts.len()
                invariant
                    f <= facts@.len(),
                    all == before + gather(f as int, absent_parts(facts@, requirement)),
                    sites@ == sorted_sites(all),
                decreases facts@.len() - f,
            {
                let fact = &facts[f];
                let ghost listed = gather(f as int, absent_parts(facts@, requirement));
                if fact.requirement == requirement && fact.presence == Presence::Absent {
                    place(&mut sites, fact.site);
                    proof {
                        let after = all.push(fact.site);
                        assert(after.drop_last() =~= all);
                        assert(after =~= before + (listed + seq![fact.site]));
                        all = after;
                    }
                } else {
                    assert(all =~= before + (listed + Seq::<AllocationSite>::empty()));
                }
                f += 1;
            }
        } else {
            assert(all =~= before + Seq::<AllocationSite>::empty());
        }
        s += 1;
    }
    sites
}

/// The report for one place.
pub open spec fn requirement_report(
    metadata: MetadataView,
    context: RuleContext<'_>,
    requirement: TargetRequirement,
    message: (Seq<char>, Seq<char>),
    explanation: Seq<char>,
    site: AllocationSite,
) -> DiagnosticView {
    basic_report(
        metadata,
        context,
        site.file,
        site.spec_range(),
        message.0 + slice_in(*context.sources, site.file, site.spec_range()) + message.1,
        explanation,
        EvidenceView::empty().insert("presence"@, JsonView::Text("absent-on-all-paths"@)).insert(
            "scenes"@,
            text_list(
                proving_scenes(
                    context.lifecycle_facts.scenes@,
                    requirement,
                    site,
                    context.lifecycle_facts.scenes@.len() as int,
                ),
            ),
        ),
    )
}

/// One report per place where the required state is absent.
pub open spec fn requirement_findings(
    metadata: MetadataView,
    context: RuleContext<'_>,
    requirement: TargetRequirement,
    message: (Seq<char>, Seq<char>),
    explanation: Seq<char>,
) -> Seq<DiagnosticView> {
    let places = absent_places(context, requirement);
    Seq::new(
        places.len(),
        |i: int|
            requirement_report(metadata, context, requirement, message, explanation, places[i]),
    )
}

fn requirement_diagnostics(
    metadata: &'static RuleMetadata,
    context: &RuleContext<'_>,
    requirement: TargetRequirement,
    prefix: &str,
    suffix: &str,
    explanation: &str,
) -> (diagnostics: Vec<Diagnostic>)
    ensures
        reports(diagnostics@) == requirement_findings(
            metadata@,
            *context,
            requirement,
            (prefix@, suffix@),
            explanation@,
        ),
{
    let sites: Vec<AllocationSite> = absent_sites(context, requirement);
    let mut diagnostics: Vec<Diagnostic> = Vec::new();
    let mut i: usize = 0;
    while i < sites.len()
        invariant
            i <= sites@.len(),
            diagnostics@.len() == i,
            forall|j: int|
                0 <= j < i ==> (#[trigger] diagnostics@[j])@ == requirement_report(
                    metadata@,
                    *context,
                    requirement,
                    (prefix@, suffix@),
                    explanation@,
                    sites@[j],
                ),
        decreases sites@.len() - i,
    {
        let site: AllocationSite = sites[i];
        let text: String = context.sources.slice(site.file, site.range());
        let scenes: Vec<String> = scenes_proving(context, requirement, site);
        let mut evidence = Evidence::new();
        evidence.insert("presence", json_text("absent-on-all-paths"));
        evidence.insert("scenes", json_texts(&scenes));
        diagnostics.push(
            build_diagnostic(
                metadata,
                context,
                site.file,
                site.range(),
                cat3(prefix, text.as_str(), suffix),
                explanation,
                evidence,
            ),
        );
        i += 1;
    }
    assert(reports(diagnostics@) =~= requirement_findings(
        metadata@,
        *context,
        requirement,
        (prefix@, suffix@),
        explanation@,
    ));
    diagnostics
}

// ---------------------------------------------------------------------------
// MLC107: MoveToTarget without generate_target on any path.
// ---------------------------------------------------------------------------

/// What [`MLC107`] declares.
pub open spec fn mlc107() -> MetadataView {
    MetadataView {
        id: "MLC107"@,
        summary: "MoveToTarget without generate_target() on any path"@,
        default_enabled: true,
        default_severity: Severity::Error,
        minimum_confidence: Confidence::High,
        implementation_phase: 2,
        required_profiles: seq![],
        required_capabilities: seq!["lifecycle"@],
        supersedes: seq![],
    }
}

/// Metadata of rule `MLC107`.
#[allow(non_snake_case)]
pub fn MLC107() -> (metadata: &'static RuleMetadata)
    ensures
        metadata@ == mlc107(),
{
    let metadata: &'static RuleMetadata = &RuleMetadata {
        id: "MLC107",
        summary: "MoveToTarget without generate_target() on any path",
        default_enabled: true,
        default_severity: Severity::Error,
        minimum_confidence: Confidence::High,
        implementation_phase: 2,
        required_profiles: &[],
        required_capabilities: &["lifecycle"],
        supersedes: &[],
    };
    assert(metadata@ =~= mlc107());
    metadata
}

/// `MoveToTarget(mob)` reached with `mob.generate_target()` absent on every
/// path.
pub struct MissingGeneratedTarget;

pub const GENERATE: &'static str = "Call `generate_target()` on the mobject before `";

pub const GENERATE_END: &'static str = "`: no \
    execution path generates a target, so this construction raises \
    `ValueError` at render time.";

pub const GENERATE_WHY: &'static str = "`MoveToTarget` animates a mobject toward the copy stored by \
    `mobject.generate_target()`. Constructing it validates that the target \
    exists; without a prior `generate_target()` (or an `.animate` builder, \
    which generates one) the constructor raises `ValueError` (DESIGN §3.2).";

impl Rule for MissingGeneratedTarget {
    open spec fn declared(&self) -> MetadataView {
        mlc107()
    }

    open spec fn findings(&self, context: RuleContext<'_>) -> Seq<DiagnosticView> {
        requirement_findings(
            mlc107(),
            context,
            TargetRequirement::GeneratedTarget,
            (GENERATE@, GENERATE_END@),
            GENERATE_WHY@,
        )
    }

    fn metadata(&self) -> (metadata: &'static RuleMetadata) {
        MLC107()
    }

    fn run(&self, context: &RuleContext<'_>) -> (diagnostics: Vec<Diagnostic>) {
        requirement_diagnostics(
            MLC107(),
            context,
            TargetRequirement::GeneratedTarget,
            GENERATE,
            GENERATE_END,
            GENERATE_WHY,
        )
    }
}

// ---------------------------------------------------------------------------
// MLC120: Restore without save_state on any path.
// ---------------------------------------------------------------------------

/// What [`MLC120`] declares.
pub open spec fn mlc120() -> MetadataView {
    MetadataView {
        id: "MLC120"@,
        summary: "Restore without save_state() on any path"@,
        default_enabled: true,
        default_severity: Severity::Error,
        minimum_confidence: Confidence::High,
        implementation_phase: 2,
        required_profiles: seq![],
        required_capabilities: seq!["lifecycle"@],
        supersedes: seq![],
    }
}

/// Metadata of rule `MLC120`.
#[allow(non_snake_case)]
pub fn MLC120() -> (metadata: &'static RuleMetadata)
    ensures
        metadata@ == mlc120(),
{
    let metadata: &'static RuleMetadata = &RuleMetadata {
        id: "MLC120",
        summary: "Restore without save_state() on any path",
        default_enabled: true,
        default_severity: Severity::Error,
        minimum_confidence: Confidence::High,
        implementation_phase: 2,
        required_profiles: &[],
        required_capabilities: &["lifecycle"],
        supersedes: &[],
    };
    assert(metadata@ =~= mlc120());
    metadata
}

/// `Restore(mob)` / `mob.restore()` reached with `save_state()` absent on
/// every path.
pub struct MissingSavedState;

pub const SAVE: &'static str = "Call `save_state()` on the mobject before `";

pub const SAVE_END: &'static str = "`: no execution \
    path saves a state, so restoring raises at render time.";

pub const SAVE_WHY: &'static str = "`Restore` (and `Mobject.restore`) replays the copy stored by \
    `mobject.save_state()`. Without a prior `save_state()` on every path \
    there is nothing to restore and Manim raises at render time \
    (transform.py `Restore`, mobject.py `Mobject.restore`).";

impl Rule for MissingSavedState {
    open spec fn declared(&self) -> MetadataView {
        mlc120()
    }

    open spec fn findings(&self, context: RuleContext<'_>) -> Seq<DiagnosticView> {
        requirement_findings(
            mlc120(),
            context,
            TargetRequirement::SavedState,
            (SAVE@, SAVE_END@),
            SAVE_WHY@,
        )
    }

    fn metadata(&self) -> (metadata: &'static RuleMetadata) {
        MLC120()
    }

    fn run(&self, context: &RuleContext<'_>) -> (diagnostics: Vec<Diagnostic>) {
        requirement_diagnostics(
            MLC120(),
            context,
            TargetRequirement::SavedState,
            SAVE,
            SAVE_END,
            SAVE_WHY,
        )
    }
}

} // verus!
