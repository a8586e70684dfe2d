//! Lifecycle facts of analyzed scenes.
use crate::numbers::Num;
use crate::render_order::DisplayFact;
use crate::source::{AllocationSite, FileId};
use crate::text::same_text;
use vstd::prelude::*;

verus! {

#[derive(Clone, Copy, Debug, PartialEq, Eq, Structural)]
pub enum Truth {
    Yes,
    No,
    Maybe,
}

/// Whether something holds on all, no, or some paths.
#[derive(Clone, Copy, Debug, PartialEq, Eq, Structural)]
pub enum Presence {
    Present,
    Absent,
    Maybe,
}

#[derive(Clone, Copy, Debug, PartialEq, Eq, Structural)]
pub enum Cardinality {
    /// Exactly one run-time object.
    Singleton,
    /// Any number of run-time objects.
    Many,
}

/// An abstract mobject: everything one site allocates.
#[derive(Clone, Copy, Debug, PartialEq, Eq, Structural)]
pub struct ObjectId {
    pub site: AllocationSite,
    pub cardinality: Cardinality,
}

impl ObjectId {
    /// Whether both ids stand for one and the same run-time object.
    pub open spec fn same(self, other: ObjectId) -> bool {
        self == other && self.cardinality == Cardinality::Singleton
    }

    pub fn definitely_same(&self, other: &ObjectId) -> (same: bool)
        ensures
            same == self.same(*other),
    {
        *self == *other && self.cardinality == Cardinality::Singleton
    }

    /// Whether the two ids can stand for one run-time object.
    pub open spec fn maybe_same(self, other: ObjectId) -> Truth {
        if self.site != other.site {
            Truth::No
        } else if self.same(other) {
            Truth::Yes
        } else {
            Truth::Maybe
        }
    }

    pub fn may_be_same(&self, other: &ObjectId) -> (truth: Truth)
        ensures
            truth == self.maybe_same(*other),
    {
        if self.site != other.site {
            Truth::No
        } else if self.definitely_same(other) {
            Truth::Yes
        } else {
            Truth::Maybe
        }
    }
}

/// Classes a value can be an instance of.
pub enum KindSet {
    /// One of these ids, in order, each once.
    Known(Vec<String>),
    Unknown,
}

/// Identity of a callback.
pub enum CallbackRef {
    Lambda(AllocationSite),
    /// A function, by its dotted path.
    Named(String),
    Unknown,
}

/// Whether two callbacks have the same identity.
pub open spec fn same_callback(a: CallbackRef, b: CallbackRef) -> bool {
    match (a, b) {
        (CallbackRef::Lambda(x), CallbackRef::Lambda(y)) => x == y,
        (CallbackRef::Named(x), CallbackRef::Named(y)) => x@ == y@,
        (CallbackRef::Unknown, CallbackRef::Unknown) => true,
        _ => false,
    }
}

/// One registered updater.
pub struct UpdaterFact {
    pub callback: CallbackRef,
    /// Whether the callback declares a `dt` parameter.
    pub time_based: Truth,
}

/// Whether two updater facts say the same.
pub open spec fn same_updater(a: UpdaterFact, b: UpdaterFact) -> bool {
    same_callback(a.callback, b.callback) && a.time_based == b.time_based
}

pub fn updaters_equal(a: &UpdaterFact, b: &UpdaterFact) -> (same: bool)
    ensures
        same == same_updater(*a, *b),
{
    let callbacks: bool = match (&a.callback, &b.callback) {
        (CallbackRef::Lambda(x), CallbackRef::Lambda(y)) => *x == *y,
        (CallbackRef::Named(x), CallbackRef::Named(y)) => same_text(x.as_str(), y.as_str()),
        (CallbackRef::Unknown, CallbackRef::Unknown) => true,
        _ => false,
    };
    callbacks && a.time_based == b.time_based
}

/// Whether `list` holds `updater`.
pub open spec fn holds_updater(list: Seq<UpdaterFact>, updater: UpdaterFact) -> bool {
    exists|i: int| 0 <= i < list.len() && same_updater(#[trigger] list[i], updater)
}

pub fn has_updater(list: &Vec<UpdaterFact>, updater: &UpdaterFact) -> (held: bool)
    ensures
        held == holds_updater(list@, *updater),
{
    let mut i: usize = 0;
    while i < list.len()
        invariant
            i <= list@.len(),
            forall|j: int| 0 <= j < i ==> !same_updater(#[trigger] list@[j], *updater),
        decreases list@.len() - i,
    {
        if updaters_equal(&list[i], updater) {
            return true;
        }
        i += 1;
    }
    false
}

/// State of one abstract mobject.
pub struct MobjectState {
    pub kind: KindSet,
    /// Membership in the scene's root list.
    pub scene_membership: Presence,
    /// Membership in the scene family.
    pub family_membership: Presence,
    pub updaters: Vec<UpdaterFact>,
    pub updating_suspended: Truth,
    pub fill_opacity: Num,
    pub stroke_opacity: Num,
    pub stroke_width: Num,
    pub curve_count: Num,
}

/// One object of a heap.
pub struct HeapEntry {
    pub id: ObjectId,
    pub state: MobjectState,
}

/// Scene-level state of a heap.
pub struct SceneState {
    pub scene: usize,
    pub scene_updaters: Vec<UpdaterFact>,
}

/// An id that another id stands for.
#[derive(Clone, Copy, Debug, PartialEq, Eq, Structural)]
pub struct HeapAlias {
    pub from: ObjectId,
    pub to: ObjectId,
}

/// Abstract heap.
pub struct Heap {
    /// Objects in id order, one entry per id.
    pub objects: Vec<HeapEntry>,
    pub aliases: Vec<HeapAlias>,
    pub scenes: Vec<SceneState>,
}

/// The state of `id`.
pub open spec fn object_in(objects: Seq<HeapEntry>, id: ObjectId) -> Option<MobjectState>
    decreases objects.len(),
{
    if objects.len() == 0 {
        None
    } else if objects[0].id == id {
        Some(objects[0].state)
    } else {
        object_in(objects.drop_first(), id)
    }
}

/// The id that `id` stands for.
pub open spec fn alias_in(aliases: Seq<HeapAlias>, id: ObjectId) -> ObjectId
    decreases aliases.len(),
{
    if aliases.len() == 0 {
        id
    } else if aliases[0].from == id {
        aliases[0].to
    } else {
        alias_in(aliases.drop_first(), id)
    }
}

/// The scene state of `scene`.
pub open spec fn scene_state_in(scenes: Seq<SceneState>, scene: usize) -> Option<SceneState>
    decreases scenes.len(),
{
    if scenes.len() == 0 {
        None
    } else if scenes[0].scene == scene {
        Some(scenes[0])
    } else {
        scene_state_in(scenes.drop_first(), scene)
    }
}

impl Heap {
    pub open spec fn spec_object(&self, id: ObjectId) -> Option<MobjectState> {
        object_in(self.objects@, id)
    }

    /// The state of `id`.
    pub fn object(&self, id: &ObjectId) -> (state: Option<&MobjectState>)
        ensures
            match state {
                Some(found) => self.spec_object(*id) == Some(*found),
                None => self.spec_object(*id) is None,
            },
    {
        let mut i: usize = 0;
        assert(self.objects@.skip(0) =~= self.objects@);
        while i < self.objects.len()
            invariant
                i <= self.objects@.len(),
                self.spec_object(*id) == object_in(self.objects@.skip(i as int), *id),
            decreases self.objects@.len() - i,
        {
            assert(self.objects@.skip(i as int).drop_first() =~= self.objects@.skip(i + 1));
            if self.objects[i].id == *id {
                return Some(&self.objects[i].state);
            }
            i += 1;
        }
        None
    }

    pub open spec fn spec_resolve(&self, id: ObjectId) -> ObjectId {
        alias_in(self.aliases@, id)
    }

    /// The id that `id` stands for.
    pub fn resolve(&self, id: &ObjectId) -> (resolved: ObjectId)
        ensures
            resolved == self.spec_resolve(*id),
    {
        let mut i: usize = 0;
        assert(self.aliases@.skip(0) =~= self.aliases@);
        while i < self.aliases.len()
            invariant
                i <= self.aliases@.len(),
                self.spec_resolve(*id) == alias_in(self.aliases@.skip(i as int), *id),
            decreases self.aliases@.len() - i,
        {
            assert(self.aliases@.skip(i as int).drop_first() =~= self.aliases@.skip(i + 1));
            if self.aliases[i].from == *id {
                return self.aliases[i].to;
            }
            i += 1;
        }
        *id
    }

    pub open spec fn spec_scene(&self, scene: usize) -> Option<SceneState> {
        scene_state_in(self.scenes@, scene)
    }

    /// The scene-level state of `scene`.
    pub fn scene(&self, scene: usize) -> (state: Option<&SceneState>)
        ensures
            match state {
                Some(found) => self.spec_scene(scene) == Some(*found),
                None => self.spec_scene(scene) is None,
            },
    {
        let mut i: usize = 0;
        assert(self.scenes@.skip(0) =~= self.scenes@);
        while i < self.scenes.len()
            invariant
                i <= self.scenes@.len(),
                self.spec_scene(scene) == scene_state_in(self.scenes@.skip(i as int), scene),
            decreases self.scenes@.len() - i,
        {
            assert(self.scenes@.skip(i as int).drop_first() =~= self.scenes@.skip(i + 1));
            if self.scenes[i].scene == scene {
                return Some(&self.scenes[i]);
            }
            i += 1;
        }
        None
    }
}

/// State after one statement.
pub struct StateSnapshot {
    pub site: AllocationSite,
    pub heap: Heap,
}

#[derive(Clone, Copy, Debug, PartialEq, Eq, Structural)]
pub enum MutationKind {
    Points,
    Style,
    Opacity,
    CameraState,
    Membership,
    Updaters,
    Unknown,
}

#[derive(Clone, Copy, Debug, PartialEq, Eq, Structural)]
pub enum RendererRequirementKind {
    DivergesBetweenRenderers,
    Other,
}

/// Something that happens while a scene runs.
pub enum Event {
    Alloc { allocated: KindSet },
    AddChild { parent: ObjectId, child: ObjectId },
    SceneAdd { objects: Vec<ObjectId> },
    SceneRemove,
    Mutate { target: ObjectId, kind: MutationKind },
    /// An unresolved call that can change any of these values.
    UnknownMutation { values: Vec<ObjectId> },
    BeginPlay { play_group: u64 },
    RegisterUpdater,
    RendererRequirement { requirement: RendererRequirementKind, note: String },
    Other,
}

/// An event with its place and path certainty.
pub struct TracedEvent {
    pub event: Event,
    pub site: AllocationSite,
    pub certainty: Presence,
}

/// State an animation writes.
#[derive(Clone, Copy, Debug, PartialEq, Eq, Structural)]
pub enum WriteChannel {
    Points,
    Style,
    Opacity,
    Membership,
    CameraState,
}

#[derive(Clone, Copy, Debug, PartialEq, Eq, Structural)]
pub enum SuspendBehavior {
    SuspendsLiveTargets,
    Other,
}

/// What is known about a played animation.
pub struct AnimationState {
    pub kind: KindSet,
    /// Live targets, each once.
    pub targets: Vec<ObjectId>,
    /// Channels written, in channel order, each once.
    pub write_channels: Vec<WriteChannel>,
    pub introducer: Truth,
    pub remover: Truth,
    pub replacement: Truth,
    pub suspend: SuspendBehavior,
}

/// One animation argument of a play.
pub struct PlayedAnimation {
    pub site: AllocationSite,
    /// Whether the argument becomes an animation.
    pub convertible: Truth,
    pub from_builder: bool,
    /// Whether `write_channels` is complete.
    pub channels_known: Truth,
    pub replacement_target: Option<ObjectId>,
    pub state: Option<AnimationState>,
}

#[derive(Clone, Copy, Debug, PartialEq, Eq, Structural)]
pub enum PlayKind {
    Play,
    Wait,
}

/// One executed `play` or `wait`.
pub struct PlayFact {
    pub site: AllocationSite,
    pub play_group: u64,
    pub kind: PlayKind,
    pub certainty: Presence,
    pub duration: Num,
    pub dynamic_wait: Truth,
    /// Literal `frozen_frame` argument.
    pub frozen_frame: Option<bool>,
    pub has_stop_condition: bool,
    pub always_update_mobjects: Truth,
    pub star_args: bool,
    pub animations: Vec<PlayedAnimation>,
    pub cost: PlayCost,
    /// Display list at the play, when its inputs are known.
    pub display: Option<DisplayFact>,
}

/// Frames one play renders.
pub struct PlayCost {
    /// Frames of the duration across the active profiles.
    pub frames: Num,
    /// Frames of the duration across the active Cairo profiles, times the
    /// repetitions of the play.
    pub cairo_frames: Num,
    /// Pixels rendered, for each active profile.
    pub pixel_frames: Vec<Num>,
}

/// What is known about one `.animate` builder.
pub struct AnimateBuilderFact {
    pub site: AllocationSite,
    pub methods: Vec<String>,
    pub target: Option<ObjectId>,
    pub played: Truth,
    pub overwritten_by_later_builder: Truth,
    pub target_epoch_at_creation: u64,
    pub target_epoch_at_play: Option<u64>,
}

/// What an updater is registered on.
#[derive(Clone, Copy, Debug, PartialEq, Eq, Structural)]
pub enum UpdaterHost {
    Scene,
    Mobject(ObjectId),
}

/// Dataflow of an updater body.
pub struct UpdaterBodyFact {
    pub reads_frame_varying: Truth,
    pub uses_dt: Truth,
    pub mutates_target: Truth,
    pub calls_unknown: Truth,
    pub channels_known: Truth,
    pub pure_affine_on_target: Truth,
    /// Channels written, in channel order, each once.
    pub write_channels: Vec<WriteChannel>,
}

pub struct UpdaterRegistration {
    pub host: UpdaterHost,
    pub site: AllocationSite,
    pub certainty: Presence,
    pub fact: UpdaterFact,
    pub body: UpdaterBodyFact,
}

pub struct UpdaterRemoval {
    pub site: AllocationSite,
    pub host: UpdaterHost,
    pub callback: CallbackRef,
    /// Whether a registered updater has the passed identity.
    pub matched: Truth,
}

pub struct SceneRemovalFact {
    pub site: AllocationSite,
    pub certainty: Presence,
    pub removed: ObjectId,
    /// Parents that still hold the removed object, each once.
    pub surviving_parents: Vec<ObjectId>,
}

#[derive(Clone, Copy, Debug, PartialEq, Eq, Structural)]
pub enum TargetRequirement {
    GeneratedTarget,
    SavedState,
}

#[derive(Clone, Copy, Debug, PartialEq, Eq, Structural)]
pub struct TargetRequirementFact {
    pub site: AllocationSite,
    pub requirement: TargetRequirement,
    pub presence: Presence,
}

/// Whether a method calls `super()` of the same name.
pub struct SuperCallFact {
    pub method: String,
    pub presence: Presence,
}

#[derive(Clone, Copy, Debug, PartialEq, Eq, Structural)]
pub enum CameraKind {
    Standard,
    MovingCamera,
    ThreeD,
    Unknown,
}

#[derive(Clone, Copy, Debug, PartialEq, Eq, Structural)]
pub enum FixedAction {
    Register,
    Remove,
}

#[derive(Clone, Copy, Debug, PartialEq, Eq, Structural)]
pub enum FixedKind {
    InFrame,
    Orientation,
}

/// A call that fixes or unfixes an object.
#[derive(Clone, Copy, Debug, PartialEq, Eq, Structural)]
pub struct FixedRegistrationFact {
    pub site: AllocationSite,
    pub action: FixedAction,
    pub kind: FixedKind,
    pub object: ObjectId,
    pub certainty: Presence,
    pub renderer_divergent: bool,
}

/// Ownership of an object after one statement.
#[derive(Clone, Copy, Debug, PartialEq, Eq, Structural)]
pub struct OwnershipInterval {
    pub site: AllocationSite,
    pub in_family: Presence,
    pub animation_target: Presence,
    pub has_updaters: Truth,
}

/// Ownership of one object over the statements of a scene.
pub struct ObjectOwnership {
    pub object: ObjectId,
    pub intervals: Vec<OwnershipInterval>,
}

/// What a callback returns.
#[derive(Clone, Copy, Debug, PartialEq, Eq, Structural)]
pub struct ReturnFact {
    pub returns_mobject: Truth,
    pub has_bare_return_path: Truth,
    pub has_no_return_path: Truth,
}

pub struct FunctionReturn {
    pub name: String,
    pub fact: ReturnFact,
}

#[derive(Clone, Copy, Debug, PartialEq, Eq, Structural)]
pub struct LambdaReturn {
    pub site: AllocationSite,
    pub fact: ReturnFact,
}

/// Return facts of named functions and lambdas.
pub struct CallbackReturnFacts {
    pub functions: Vec<FunctionReturn>,
    pub lambdas: Vec<LambdaReturn>,
}

/// Everything known about one scene class.
pub struct SceneLifecycle {
    pub qualified_name: String,
    /// Key of the scene in its heaps.
    pub scene_id: usize,
    /// Linearized class ids.
    pub mro: Vec<String>,
    pub events: Vec<TracedEvent>,
    pub plays: Vec<PlayFact>,
    /// Builders in site order.
    pub builders: Vec<AnimateBuilderFact>,
    pub updaters: Vec<UpdaterRegistration>,
    pub updater_removals: Vec<UpdaterRemoval>,
    pub scene_removals: Vec<SceneRemovalFact>,
    pub target_requirements: Vec<TargetRequirementFact>,
    pub super_calls: Vec<SuperCallFact>,
    pub snapshots: Vec<StateSnapshot>,
    pub final_heap: Heap,
    pub camera_kind: CameraKind,
    /// Whether an unresolved base leaves the constructor state open.
    pub constructor_state_unknown: bool,
    pub fixed_registrations: Vec<FixedRegistrationFact>,
    /// Sites of plays known only through a helper summary.
    pub summary_derived_plays: Vec<AllocationSite>,
    pub ownership: Vec<ObjectOwnership>,
}

/// Last snapshot of a statement that ends at or before `offset` in `file`.
pub open spec fn snapshot_in(
    snapshots: Seq<StateSnapshot>,
    file: FileId,
    offset: u32,
) -> Option<StateSnapshot>
    decreases snapshots.len(),
{
    if snapshots.len() == 0 {
        None
    } else if snapshots.last().site.file == file && snapshots.last().site.end <= offset {
        Some(snapshots.last())
    } else {
        snapshot_in(snapshots.drop_last(), file, offset)
    }
}

/// Ownership intervals of `object`.
pub open spec fn intervals_in(list: Seq<ObjectOwnership>, object: ObjectId) -> Seq<
    OwnershipInterval,
>
    decreases list.len(),
{
    if list.len() == 0 {
        Seq::empty()
    } else if list[0].object == object {
        list[0].intervals@
    } else {
        intervals_in(list.drop_first(), object)
    }
}

impl SceneLifecycle {
    pub open spec fn spec_state_at(&self, file: FileId, offset: u32) -> Option<StateSnapshot> {
        snapshot_in(self.snapshots@, file, offset)
    }

    /// State after the last statement that ends at or before `offset`.
    pub fn state_at(&self, file: FileId, offset: u32) -> (snapshot: Option<&StateSnapshot>)
        ensures
            match snapshot {
                Some(found) => self.spec_state_at(file, offset) == Some(*found),
                None => self.spec_state_at(file, offset) is None,
            },
    {
        let mut i: usize = self.snapshots.len();
        assert(self.snapshots@.take(i as int) =~= self.snapshots@);
        while i > 0
            invariant
                i <= self.snapshots@.len(),
                self.spec_state_at(file, offset) == snapshot_in(
                    self.snapshots@.take(i as int),
                    file,
                    offset,
                ),
            decreases i,
        {
            assert(self.snapshots@.take(i as int).drop_last() =~= self.snapshots@.take(i - 1));
            let snapshot = &self.snapshots[i - 1];
            if snapshot.site.file == file && snapshot.site.end <= offset {
                return Some(snapshot);
            }
            i -= 1;
        }
        None
    }

    pub open spec fn spec_membership_at(
        &self,
        object: ObjectId,
        file: FileId,
        offset: u32,
    ) -> Option<(Presence, Presence)> {
        match self.spec_state_at(file, offset) {
            Some(snapshot) => match snapshot.heap.spec_object(object) {
                Some(state) => Some((state.scene_membership, state.family_membership)),
                None => None,
            },
            None => None,
        }
    }

    /// Root-list and family membership of an object at `offset`.
    pub fn membership_at(&self, object: &ObjectId, file: FileId, offset: u32) -> (membership:
        Option<(Presence, Presence)>)
        ensures
            membership == self.spec_membership_at(*object, file, offset),
    {
        match self.state_at(file, offset) {
            Some(snapshot) => match snapshot.heap.object(object) {
                Some(state) => Some((state.scene_membership, state.family_membership)),
                None => None,
            },
            None => None,
        }
    }

    pub open spec fn spec_intervals(&self, object: ObjectId) -> Seq<OwnershipInterval> {
        intervals_in(self.ownership@, object)
    }

    /// Index of the ownership record of `object`.
    pub fn ownership_of(&self, object: &ObjectId) -> (index: Option<usize>)
        ensures
            match index {
                Some(found) => found < self.ownership@.len() && self.spec_intervals(*object)
                    == self.ownership@[found as int].intervals@,
                None => self.spec_intervals(*object).len() == 0,
            },
    {
        let mut i: usize = 0;
        assert(self.ownership@.skip(0) =~= self.ownership@);
        while i < self.ownership.len()
            invariant
                i <= self.ownership@.len(),
                self.spec_intervals(*object) == intervals_in(
                    self.ownership@.skip(i as int),
                    *object,
                ),
            decreases self.ownership@.len() - i,
        {
            assert(self.ownership@.skip(i as int).drop_first() =~= self.ownership@.skip(i + 1));
            if self.ownership[i].object == *object {
                return Some(i);
            }
            i += 1;
        }
        None
    }
}

/// Lifecycle facts of every analyzed scene.
pub struct LifecycleFacts {
    pub scenes: Vec<SceneLifecycle>,
    pub callback_returns: CallbackReturnFacts,
}

/// The first scene with this name.
pub open spec fn scene_in(scenes: Seq<SceneLifecycle>, name: Seq<char>) -> Option<SceneLifecycle>
    decreases scenes.len(),
{
    if scenes.len() == 0 {
        None
    } else if scenes[0].qualified_name@ == name {
        Some(scenes[0])
    } else {
        scene_in(scenes.drop_first(), name)
    }
}

impl LifecycleFacts {
    pub open spec fn spec_scene(&self, name: Seq<char>) -> Option<SceneLifecycle> {
        scene_in(self.scenes@, name)
    }

    /// The scene with this qualified name.
    pub fn scene(&self, name: &str) -> (scene: Option<&SceneLifecycle>)
        ensures
            match scene {
                Some(found) => self.spec_scene(name@) == Some(*found),
                None => self.spec_scene(name@) is None,
            },
    {
        let mut i: usize = 0;
        assert(self.scenes@.skip(0) =~= self.scenes@);
        while i < self.scenes.len()
            invariant
                i <= self.scenes@.len(),
                self.spec_scene(name@) == scene_in(self.scenes@.skip(i as int), name@),
            decreases self.scenes@.len() - i,
        {
            assert(self.scenes@.skip(i as int).drop_first() =~= self.scenes@.skip(i + 1));
            if same_text(self.scenes[i].qualified_name.as_str(), name) {
                return Some(&self.scenes[i]);
            }
            i += 1;
        }
        None
    }

    /// Facts about no scene.
    pub fn empty() -> (facts: LifecycleFacts)
        ensures
            facts.scenes@.len() == 0,
            facts.callback_returns.functions@.len() == 0,
            facts.callback_returns.lambdas@.len() == 0,
    {
        LifecycleFacts {
            scenes: Vec::new(),
            callback_returns: CallbackReturnFacts { functions: Vec::new(), lambdas: Vec::new() },
        }
    }
}

/// The return fact of a named function.
pub open spec fn function_return_in(list: Seq<FunctionReturn>, name: Seq<char>) -> Option<
    ReturnFact,
>
    decreases list.len(),
{
    if list.len() == 0 {
        None
    } else if list[0].name@ == name {
        Some(list[0].fact)
    } else {
        function_return_in(list.drop_first(), name)
    }
}

/// The return fact of the lambda at `site`.
pub open spec fn lambda_return_in(list: Seq<LambdaReturn>, site: AllocationSite) -> Option<
    ReturnFact,
>
    decreases list.len(),
{
    if list.len() == 0 {
        None
    } else if list[0].site == site {
        Some(list[0].fact)
    } else {
        lambda_return_in(list.drop_first(), site)
    }
}

impl CallbackReturnFacts {
    /// The return fact of a named function.
    pub fn function(&self, name: &str) -> (fact: Option<ReturnFact>)
        ensures
            fact == function_return_in(self.functions@, name@),
    {
        let mut i: usize = 0;
        assert(self.functions@.skip(0) =~= self.functions@);
        while i < self.functions.len()
            invariant
                i <= self.functions@.len(),
                function_return_in(self.functions@, name@) == function_return_in(
                    self.functions@.skip(i as int),
                    name@,
                ),
            decreases self.functions@.len() - i,
        {
            assert(self.functions@.skip(i as int).drop_first() =~= self.functions@.skip(i + 1));
            if same_text(self.functions[i].name.as_str(), name) {
                return Some(self.functions[i].fact);
            }
            i += 1;
        }
        None
    }

    /// The return fact of the lambda at `site`.
    pub fn lambda_at(&self, site: AllocationSite) -> (fact: Option<ReturnFact>)
        ensures
            fact == lambda_return_in(self.lambdas@, site),
    {
        let mut i: usize = 0;
        assert(self.lambdas@.skip(0) =~= self.lambdas@);
        while i < self.lambdas.len()
            invariant
                i <= self.lambdas@.len(),
                lambda_return_in(self.lambdas@, site) == lambda_return_in(
                    self.lambdas@.skip(i as int),
                    site,
                ),
            decreases self.lambdas@.len() - i,
        {
            assert(self.lambdas@.skip(i as int).drop_first() =~= self.lambdas@.skip(i + 1));
            if self.lambdas[i].site == site {
                return Some(self.lambdas[i].fact);
            }
            i += 1;
        }
        None
    }
}

/// Whether a list of channels holds `channel`.
pub fn has_channel(list: &Vec<WriteChannel>, channel: WriteChannel) -> (held: bool)
    ensures
        held == list@.contains(channel),
{
    let mut i: usize = 0;
    while i < list.len()
        invariant
            i <= list@.len(),
            forall|j: int| 0 <= j < i ==> #[trigger] list@[j] != channel,
        decreases list@.len() - i,
    {
        if list[i] == channel {
            return true;
        }
        i += 1;
    }
    false
}

/// Channels of `a` that are also in `b`, in the order of `a`.
pub open spec fn common_channels(a: Seq<WriteChannel>, b: Seq<WriteChannel>) -> Seq<WriteChannel>
    decreases a.len(),
{
    if a.len() == 0 {
        Seq::empty()
    } else if b.contains(a.last()) {
        common_channels(a.drop_last(), b).push(a.last())
    } else {
        common_channels(a.drop_last(), b)
    }
}

pub fn shared_channels_of(a: &Vec<WriteChannel>, b: &Vec<WriteChannel>) -> (shared: Vec<
    WriteChannel,
>)
    ensures
        shared@ == common_channels(a@, b@),
{
    let mut shared: Vec<WriteChannel> = Vec::new();
    let mut i: usize = 0;
    assert(shared@ =~= common_channels(a@.take(0), b@));
    while i < a.len()
        invariant
            i <= a@.len(),
            shared@ == common_channels(a@.take(i as int), b@),
        decreases a@.len() - i,
    {
        assert(a@.take(i + 1).drop_last() =~= a@.take(i as int));
        if has_channel(b, a[i]) {
            shared.push(a[i]);
        }
        i += 1;
    }
    assert(a@.take(i as int) =~= a@);
    shared
}

/// Whether some target definitely is `object`.
pub open spec fn targets_same(targets: Seq<ObjectId>, object: ObjectId) -> bool {
    exists|i: int| 0 <= i < targets.len() && (#[trigger] targets[i]).same(object)
}

pub fn any_definitely_same(targets: &Vec<ObjectId>, object: &ObjectId) -> (found: bool)
    ensures
        found == targets_same(targets@, *object),
{
    let mut i: usize = 0;
    while i < targets.len()
        invariant
            i <= targets@.len(),
            forall|j: int| 0 <= j < i ==> !(#[trigger] targets@[j]).same(*object),
        decreases targets@.len() - i,
    {
        if targets[i].definitely_same(object) {
            return true;
        }
        i += 1;
    }
    false
}

/// Whether some target can be `object`.
pub open spec fn targets_maybe(targets: Seq<ObjectId>, object: ObjectId) -> bool {
    exists|i: int| 0 <= i < targets.len() && (#[trigger] targets[i]).maybe_same(object) != Truth::No
}

pub fn any_maybe_same(targets: &Vec<ObjectId>, object: &ObjectId) -> (found: bool)
    ensures
        found == targets_maybe(targets@, *object),
{
    let mut i: usize = 0;
    while i < targets.len()
        invariant
            i <= targets@.len(),
            forall|j: int| 0 <= j < i ==> (#[trigger] targets@[j]).maybe_same(*object) == Truth::No,
        decreases targets@.len() - i,
    {
        if targets[i].may_be_same(object) != Truth::No {
            return true;
        }
        i += 1;
    }
    false
}

} // verus!
