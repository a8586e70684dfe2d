//! Symbolic cost facts.
use crate::json::{copy_json, Json, JsonView};
use crate::numbers::{Num, Real};
use crate::semantic::PlayKind;
use crate::source::AllocationSite;
use crate::text::same_text;
use vstd::prelude::*;

verus! {

/// What makes a context run once per frame.
#[derive(Clone, Copy, Debug, PartialEq, Eq, Structural)]
pub enum HotEntryKind {
    MobjectUpdater,
    SceneUpdater,
    AlwaysRedraw,
    UpdateFromFunc,
    StopCondition,
}

impl HotEntryKind {
    /// Name of the entry in messages and evidence.
    pub open spec fn spec_label(self) -> Seq<char> {
        match self {
            HotEntryKind::MobjectUpdater => "mobject-updater"@,
            HotEntryKind::SceneUpdater => "scene-updater"@,
            HotEntryKind::AlwaysRedraw => "always-redraw"@,
            HotEntryKind::UpdateFromFunc => "update-from-func"@,
            HotEntryKind::StopCondition => "stop-condition"@,
        }
    }

    pub fn label(self) -> (label: &'static str)
        ensures
            label@ == self.spec_label(),
    {
        match self {
            HotEntryKind::MobjectUpdater => "mobject-updater",
            HotEntryKind::SceneUpdater => "scene-updater",
            HotEntryKind::AlwaysRedraw => "always-redraw",
            HotEntryKind::UpdateFromFunc => "update-from-func",
            HotEntryKind::StopCondition => "stop-condition",
        }
    }
}

/// One per-frame context a call runs in.
pub struct HotContext {
    pub entry: HotEntryKind,
    /// Functions from the entry to the call.
    pub state_path: Vec<String>,
}

/// Whether a play certainly runs a callback.
#[derive(Clone, Copy, Debug, PartialEq, Eq, Structural)]
pub enum ExecutionCertainty {
    Proven,
    Maybe,
}

/// A play that can run a callback once per frame.
#[derive(Clone, Copy, Debug, PartialEq, Eq, Structural)]
pub struct ExecutionPlay {
    pub site: AllocationSite,
    pub kind: PlayKind,
    pub certainty: ExecutionCertainty,
}

/// Plays that run the callback of a call.
pub struct CallExecution {
    pub proven: Vec<ExecutionPlay>,
    pub maybe: Vec<ExecutionPlay>,
    /// Whether some entry of the callback has no known registration.
    pub unresolved: bool,
}

impl CallExecution {
    pub open spec fn is_proven(&self) -> bool {
        self.proven@.len() > 0
    }

    /// Whether some play certainly runs the callback.
    pub fn has_proven(&self) -> (proven: bool)
        ensures
            proven == self.is_proven(),
    {
        self.proven.len() > 0
    }

    pub open spec fn is_possible(&self) -> bool {
        self.maybe@.len() > 0 || self.unresolved
    }

    /// Whether some play or unresolved entry can run the callback.
    pub fn possibly_executes(&self) -> (possible: bool)
        ensures
            possible == self.is_possible(),
    {
        self.maybe.len() > 0 || self.unresolved
    }
}

/// What is known about one call that runs in per-frame contexts.
pub struct HotCall {
    pub call_index: usize,
    pub contexts: Vec<HotContext>,
    /// Evidence of the call's cost.
    pub evidence: Json,
    pub execution: CallExecution,
    /// Frames of the plays that certainly run the call, when bounded.
    pub proven_frames: Option<Num>,
    /// Evidence of the first context with those frames as cost.
    pub frame_evidence: Json,
    /// Bytes one invocation allocates.
    pub allocation_bytes: Num,
    /// Points of the object the call makes.
    pub target_points: Num,
}

/// A construction in a per-frame context, or a resource key that varies from
/// frame to frame.
pub struct HotSymbol {
    pub call_index: usize,
    /// Canonical id of the constructed class.
    pub symbol: String,
}

/// What a scene method does to the scene's members.
#[derive(Clone, Copy, Debug, PartialEq, Eq, Structural)]
pub enum SceneMembershipEffect {
    Add,
    AddForeground,
    AddFixedInFrame,
    AddFixedOrientation,
    Other,
}

/// A change of the scene graph in a per-frame context.
pub struct HotMutation {
    pub call_index: usize,
    pub symbol: String,
    pub effect: SceneMembershipEffect,
    /// Whether an argument is certainly allocated by the call itself.
    pub adds_fresh_allocation: bool,
}

#[derive(Clone, Copy, Debug, PartialEq, Eq, Structural)]
pub enum HotTargetKind {
    Copy,
    Become,
    Align,
    FamilyWalk,
}

/// Sizes of an object.
pub struct SizeFact {
    pub family: Num,
    pub points: Num,
    pub curves: Num,
}

/// A per-frame call on a receiver of known size.
pub struct HotTargetSizeFact {
    pub call_index: usize,
    pub kind: HotTargetKind,
    pub method: String,
    pub scene: String,
    pub sizes: SizeFact,
}

/// Estimates for one call.
pub struct CallCost {
    pub call_index: usize,
    /// Frames the call renders as a play.
    pub frames: Num,
    /// Run time as a `play` call.
    pub run_time: Num,
    /// Duration as a `wait` call.
    pub wait_time: Num,
    /// Samples of the literal range, rounded up.
    pub samples: Option<Real>,
}

/// Curated geometry of a constructor call.
pub struct GeometryFact {
    pub call_index: usize,
    /// Canonical id of the constructed class.
    pub class: String,
    pub curves: u64,
    pub points: u64,
    /// Whether the arguments leave the curated geometry as it is.
    pub guards_hold: bool,
}

/// Sizes at a played transform.
pub struct TransformSize {
    pub scene: String,
    pub play: AllocationSite,
    pub animation: AllocationSite,
    /// Family of the source.
    pub family: Num,
    /// Curves the alignment inserts.
    pub curve_delta: Num,
}

/// Sums over some plays of a scene, given by their positions.
pub struct PlayTotals {
    pub scene: String,
    pub plays: Vec<usize>,
    /// Seconds of the plays.
    pub seconds: Num,
    /// Frames of those seconds across the active profiles.
    pub seconds_frames: Num,
    /// Frames of each play across the active profiles, added up.
    pub frames: Num,
    /// Cairo frames of each play, added up.
    pub cairo_frames: Num,
    /// Estimated frames of each play, added up.
    pub estimated_frames: Num,
}

/// A fast path of a fork.
#[derive(Clone, Copy, Debug, PartialEq, Eq, Structural)]
pub enum GateKind {
    ForkPerPlay,
    StaticLayers,
    BulkInterpolation,
}

/// Something that closes a fast path.
pub struct GateCause {
    pub blocker: String,
    pub site: Option<AllocationSite>,
    pub detail: String,
}

/// Whether a fast path is open for a play.
pub enum GateVerdict {
    Clear,
    NotApplicable,
    Unaudited,
    Blocked(Vec<GateCause>),
    /// Closed for good since an earlier play.
    MonotonicallyDisabled {
        first_ordinal: usize,
        first_site: AllocationSite,
        first_blocker: String,
    },
}

pub struct PlayGateOutcome {
    pub ordinal: usize,
    pub site: AllocationSite,
    pub verdict: GateVerdict,
    /// The outcome in words.
    pub description: String,
}

pub enum GateEvaluation {
    /// The fast path was not asked for.
    Unrequested,
    Plays(Vec<PlayGateOutcome>),
}

/// Fast paths of a scene under one profile.
pub struct ProfileForkPaths {
    pub profile: String,
    pub fork: GateEvaluation,
    pub static_layers: GateEvaluation,
    pub bulk: GateEvaluation,
}

pub struct SceneForkPaths {
    pub scene: String,
    pub profiles: Vec<ProfileForkPaths>,
}

/// Fast paths of all scenes, with what was measured about them.
pub struct ForkFacts {
    pub scenes: Vec<SceneForkPaths>,
    pub fork_measured: Option<String>,
    pub static_layers_measured: Option<String>,
    pub bulk_measured: Option<String>,
}

/// Cost facts of a project.
pub struct CostFacts {
    /// Calls in per-frame contexts, in call order.
    pub hot_calls: Vec<HotCall>,
    pub constructions: Vec<HotSymbol>,
    pub frame_varying_keys: Vec<HotSymbol>,
    pub scene_mutations: Vec<HotMutation>,
    pub hot_target_sizes: Vec<HotTargetSizeFact>,
    pub call_costs: Vec<CallCost>,
    pub geometry: Vec<GeometryFact>,
    pub transforms: Vec<TransformSize>,
    pub totals: Vec<PlayTotals>,
    pub fork: ForkFacts,
    /// Members from which on a family counts as large.
    pub large_family: u32,
    /// Points from which on a mobject counts as large.
    pub large_points: u32,
}

/// Position of the entry of a call.
pub open spec fn hot_entry(list: Seq<HotCall>, call_index: int) -> Option<HotCall>
    decreases list.len(),
{
    if list.len() == 0 {
        None
    } else if list[0].call_index == call_index {
        Some(list[0])
    } else {
        hot_entry(list.drop_first(), call_index)
    }
}

impl CostFacts {
    pub open spec fn spec_hot(&self, call_index: int) -> Option<HotCall> {
        hot_entry(self.hot_calls@, call_index)
    }

    /// The per-frame contexts of a call, when it has any entry.
    pub fn hot(&self, call_index: usize) -> (entry: Option<&HotCall>)
        ensures
            match entry {
                Some(found) => self.spec_hot(call_index as int) == Some(*found),
                None => self.spec_hot(call_index as int) is None,
            },
    {
        let mut i: usize = 0;
        assert(self.hot_calls@.skip(0) =~= self.hot_calls@);
        while i < self.hot_calls.len()
            invariant
                i <= self.hot_calls@.len(),
                self.spec_hot(call_index as int) == hot_entry(
                    self.hot_calls@.skip(i as int),
                    call_index as int,
                ),
            decreases self.hot_calls@.len() - i,
        {
            assert(self.hot_calls@.skip(i as int).drop_first() =~= self.hot_calls@.skip(i + 1));
            if self.hot_calls[i].call_index == call_index {
                return Some(&self.hot_calls[i]);
            }
            i += 1;
        }
        None
    }

    /// The first per-frame context of a call.
    pub open spec fn spec_first_hot(&self, call_index: int) -> Option<HotContext> {
        match self.spec_hot(call_index) {
            Some(entry) => if entry.contexts@.len() > 0 {
                Some(entry.contexts@[0])
            } else {
                None
            },
            None => None,
        }
    }

    /// The first per-frame context the call provably runs in.
    pub fn is_call_in_hot_context(&self, call_index: usize) -> (context: Option<&HotContext>)
        ensures
            match context {
                Some(found) => self.spec_first_hot(call_index as int) == Some(*found),
                None => self.spec_first_hot(call_index as int) is None,
            },
    {
        match self.hot(call_index) {
            Some(entry) => if entry.contexts.len() > 0 {
                Some(&entry.contexts[0])
            } else {
                None
            },
            None => None,
        }
    }

    /// Evidence of a call's cost; null for a call without any.
    pub open spec fn spec_evidence(&self, call_index: int) -> JsonView {
        match self.spec_hot(call_index) {
            Some(entry) => entry.evidence@,
            None => JsonView::Null,
        }
    }

    /// Evidence of a call's cost.
    pub fn evidence_for(&self, call_index: usize) -> (evidence: Json)
        ensures
            evidence@ == self.spec_evidence(call_index as int),
    {
        match self.hot(call_index) {
            Some(entry) => copy_json(&entry.evidence),
            None => Json::Null,
        }
    }

    /// Whether no cost fact is known.
    pub open spec fn is_empty(&self) -> bool {
        self.hot_calls@.len() == 0 && self.constructions@.len() == 0
            && self.frame_varying_keys@.len() == 0 && self.scene_mutations@.len() == 0
            && self.hot_target_sizes@.len() == 0 && self.call_costs@.len() == 0
            && self.geometry@.len() == 0 && self.transforms@.len() == 0 && self.totals@.len() == 0
            && self.fork.scenes@.len() == 0
    }

    /// Facts about no call.
    pub fn empty() -> (facts: CostFacts)
        ensures
            facts.is_empty(),
            facts.large_family == u32::MAX,
            facts.large_points == u32::MAX,
            facts.fork.fork_measured is None,
            facts.fork.static_layers_measured is None,
            facts.fork.bulk_measured is None,
    {
        CostFacts {
            hot_calls: Vec::new(),
            constructions: Vec::new(),
            frame_varying_keys: Vec::new(),
            scene_mutations: Vec::new(),
            hot_target_sizes: Vec::new(),
            call_costs: Vec::new(),
            geometry: Vec::new(),
            transforms: Vec::new(),
            totals: Vec::new(),
            fork: ForkFacts {
                scenes: Vec::new(),
                fork_measured: None,
                static_layers_measured: None,
                bulk_measured: None,
            },
            large_family: u32::MAX,
            large_points: u32::MAX,
        }
    }

    /// Estimates for the call at `call_index`.
    pub fn call_cost(&self, call_index: usize) -> (cost: Option<&CallCost>)
        ensures
            match cost {
                Some(found) => call_cost_from(self.call_costs@, call_index, 0) == Some(*found),
                None => call_cost_from(self.call_costs@, call_index, 0) is None,
            },
    {
        let mut i: usize = 0;
        while i < self.call_costs.len()
            invariant
                i <= self.call_costs@.len(),
                call_cost_from(self.call_costs@, call_index, 0) == call_cost_from(
                    self.call_costs@,
                    call_index,
                    i as int,
                ),
            decreases self.call_costs@.len() - i,
        {
            if self.call_costs[i].call_index == call_index {
                return Some(&self.call_costs[i]);
            }
            i += 1;
        }
        None
    }

    /// Curated geometry of the constructor call at `call_index`.
    pub fn geometry_of(&self, call_index: usize) -> (fact: Option<&GeometryFact>)
        ensures
            match fact {
                Some(found) => geometry_from(self.geometry@, call_index, 0) == Some(*found),
                None => geometry_from(self.geometry@, call_index, 0) is None,
            },
    {
        let mut i: usize = 0;
        while i < self.geometry.len()
            invariant
                i <= self.geometry@.len(),
                geometry_from(self.geometry@, call_index, 0) == geometry_from(
                    self.geometry@,
                    call_index,
                    i as int,
                ),
            decreases self.geometry@.len() - i,
        {
            if self.geometry[i].call_index == call_index {
                return Some(&self.geometry[i]);
            }
            i += 1;
        }
        None
    }

    /// Sizes at a transform that `scene` plays.
    pub fn transform_at(&self, scene: &str, play: AllocationSite, animation: AllocationSite) -> (fact:
        Option<&TransformSize>)
        ensures
            match fact {
                Some(found) => transform_from(self.transforms@, scene@, play, animation, 0) == Some(
                    *found,
                ),
                None => transform_from(self.transforms@, scene@, play, animation, 0) is None,
            },
    {
        let mut i: usize = 0;
        while i < self.transforms.len()
            invariant
                i <= self.transforms@.len(),
                transform_from(self.transforms@, scene@, play, animation, 0) == transform_from(
                    self.transforms@,
                    scene@,
                    play,
                    animation,
                    i as int,
                ),
            decreases self.transforms@.len() - i,
        {
            let fact = &self.transforms[i];
            if same_text(fact.scene.as_str(), scene) && fact.play == play && fact.animation
                == animation {
                return Some(fact);
            }
            i += 1;
        }
        None
    }

    /// Sums over the plays of `scene` at these positions.
    pub fn totals_of(&self, scene: &str, plays: &Vec<usize>) -> (totals: Option<&PlayTotals>)
        ensures
            match totals {
                Some(found) => totals_from(self.totals@, scene@, plays@, 0) == Some(*found),
                None => totals_from(self.totals@, scene@, plays@, 0) is None,
            },
    {
        let mut i: usize = 0;
        while i < self.totals.len()
            invariant
                i <= self.totals@.len(),
                totals_from(self.totals@, scene@, plays@, 0) == totals_from(
                    self.totals@,
                    scene@,
                    plays@,
                    i as int,
                ),
            decreases self.totals@.len() - i,
        {
            if same_text(self.totals[i].scene.as_str(), scene) && same_positions(
                &self.totals[i].plays,
                plays,
            ) {
                return Some(&self.totals[i]);
            }
            i += 1;
        }
        None
    }
}

/// The first estimates of a call, from position `i` on.
pub open spec fn call_cost_from(list: Seq<CallCost>, call_index: usize, i: int) -> Option<CallCost>
    decreases list.len() - i,
{
    if i < 0 || i >= list.len() {
        None
    } else if list[i].call_index == call_index {
        Some(list[i])
    } else {
        call_cost_from(list, call_index, i + 1)
    }
}

/// The first geometry of a call, from position `i` on.
pub open spec fn geometry_from(list: Seq<GeometryFact>, call_index: usize, i: int) -> Option<
    GeometryFact,
>
    decreases list.len() - i,
{
    if i < 0 || i >= list.len() {
        None
    } else if list[i].call_index == call_index {
        Some(list[i])
    } else {
        geometry_from(list, call_index, i + 1)
    }
}

/// The first sizes at a transform, from position `i` on.
pub open spec fn transform_from(
    list: Seq<TransformSize>,
    scene: Seq<char>,
    play: AllocationSite,
    animation: AllocationSite,
    i: int,
) -> Option<TransformSize>
    decreases list.len() - i,
{
    if i < 0 || i >= list.len() {
        None
    } else if list[i].scene@ == scene && list[i].play == play && list[i].animation == animation {
        Some(list[i])
    } else {
        transform_from(list, scene, play, animation, i + 1)
    }
}

/// The first sums over these plays, from position `i` on.
pub open spec fn totals_from(
    list: Seq<PlayTotals>,
    scene: Seq<char>,
    plays: Seq<usize>,
    i: int,
) -> Option<PlayTotals>
    decreases list.len() - i,
{
    if i < 0 || i >= list.len() {
        None
    } else if list[i].scene@ == scene && list[i].plays@ == plays {
        Some(list[i])
    } else {
        totals_from(list, scene, plays, i + 1)
    }
}

fn same_positions(a: &Vec<usize>, b: &Vec<usize>) -> (same: bool)
    ensures
        same == (a@ == b@),
{
    if a.len() != b.len() {
        return false;
    }
    let mut i: usize = 0;
    while i < a.len()
        invariant
            i <= a@.len(),
            a@.len() == b@.len(),
            forall|j: int| 0 <= j < i ==> a@[j] == b@[j],
        decreases a@.len() - i,
    {
        if a[i] != b[i] {
            return false;
        }
        i += 1;
    }
    assert(a@ =~= b@);
    true
}

} // verus!
