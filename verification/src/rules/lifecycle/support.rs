//! Fact resolution shared by the lifecycle rules.
//!
//! A call target counts as resolved only when every frontend candidate maps
//! to the same curated symbol, and receiver classes with unresolved bases
//! never support a diagnostic.
use crate::frontend::{ClassRecord, ManimKind, ProjectIndex, QualifiedCall, ReceiverKind};
use crate::json::{json_texts, text_list, Json, JsonView};
use crate::knowledge::{
    owner_of, resolve_symbol, resolved, rsplit_dot, KnowledgeProfile, SymbolEntry, SymbolKind,
};
use crate::semantic::WriteChannel;
use crate::text::{alphanumeric, has_char, is_alphanumeric, same_text, texts};
use vstd::prelude::*;

verus! {

/// Canonical id of `Scene.play`.
pub const SCENE_PLAY: &'static str = "manim.scene.scene.Scene.play";

/// Canonical id of `Scene.wait`.
pub const SCENE_WAIT: &'static str = "manim.scene.scene.Scene.wait";

/// Canonical id of `Scene.pause`.
pub const SCENE_PAUSE: &'static str = "manim.scene.scene.Scene.pause";

/// Canonical id of `Scene.replace`.
pub const SCENE_REPLACE: &'static str = "manim.scene.scene.Scene.replace";

/// Canonical id of `Scene.add_updater`.
pub const SCENE_ADD_UPDATER: &'static str = "manim.scene.scene.Scene.add_updater";

/// Canonical id of `Mobject.add_updater`.
pub const MOBJECT_ADD_UPDATER: &'static str = "manim.mobject.mobject.Mobject.add_updater";

/// Canonical id of `Mobject.add`.
pub const MOBJECT_ADD: &'static str = "manim.mobject.mobject.Mobject.add";

/// Canonical id of the `Wait` animation class.
pub const WAIT_ANIMATION: &'static str = "manim.animation.animation.Wait";

/// Canonical id of the `AnimationGroup` class.
pub const ANIMATION_GROUP: &'static str = "manim.animation.composition.AnimationGroup";

/// Canonical id of the `Succession` class.
pub const SUCCESSION: &'static str = "manim.animation.composition.Succession";

/// Canonical id of the `ApplyMethod` class.
pub const APPLY_METHOD: &'static str = "manim.animation.transform.ApplyMethod";

/// Canonical id of the `VGroup` class.
pub const VGROUP: &'static str = "manim.mobject.types.vectorized_mobject.VGroup";

/// Canonical id of the `Group` class.
pub const GROUP: &'static str = "manim.mobject.mobject.Group";

/// Class the receiver of a call is an instance of, when it has one.
pub open spec fn receiver_class(call: QualifiedCall) -> Option<Seq<char>> {
    match call.receiver {
        ReceiverKind::SelfScene => match call.context.class_name {
            Some(name) => Some(name@),
            None => None,
        },
        ReceiverKind::KnownInstance(kind) => Some(kind@),
        _ => None,
    }
}

/// Whether the class with this id has no base left open.
pub open spec fn bases_known(index: ProjectIndex, id: Seq<char>) -> bool {
    match index.spec_class(id) {
        Some(record) => record.bases_fully_resolved,
        None => true,
    }
}

/// Whether the receiver of a call is classified completely.
pub open spec fn conclusive_receiver(index: ProjectIndex, call: QualifiedCall) -> bool {
    !(call.receiver is Unknown) && match receiver_class(call) {
        Some(id) => bases_known(index, id),
        None => true,
    }
}

/// Whether every base of the class with this id is resolved; classes outside
/// the project count as resolved.
pub fn class_complete(index: &ProjectIndex, id: &str) -> (complete: bool)
    ensures
        complete == bases_known(*index, id@),
{
    match index.class(id) {
        Some(record) => record.bases_fully_resolved,
        None => true,
    }
}

/// Whether the receiver classification of `call` is complete enough to
/// support a diagnostic: a project receiver class with unresolved bases may
/// inherit an override this index cannot see, so it never confirms a
/// curated target.
pub fn receiver_conclusive(call: &QualifiedCall, index: &ProjectIndex) -> (conclusive: bool)
    ensures
        conclusive == conclusive_receiver(*index, *call),
{
    match &call.receiver {
        ReceiverKind::SelfScene => match &call.context.class_name {
            Some(name) => class_complete(index, name.as_str()),
            None => true,
        },
        ReceiverKind::KnownInstance(kind) => class_complete(index, kind.as_str()),
        ReceiverKind::ModuleAlias => true,
        ReceiverKind::Direct => true,
        ReceiverKind::Unknown => false,
    }
}

/// Whether every candidate of a list stands for the curated id `id`.
pub open spec fn all_resolve_to(
    profile: KnowledgeProfile,
    candidates: Seq<Seq<char>>,
    id: Seq<char>,
) -> bool {
    forall|i: int|
        0 <= i < candidates.len() ==> resolved(profile, #[trigger] candidates[i]) == Some(id)
}

/// The one curated id that all candidates of a list stand for.
pub open spec fn agreed_symbol(profile: KnowledgeProfile, candidates: Seq<Seq<char>>) -> Option<
    Seq<char>,
> {
    if candidates.len() == 0 {
        None
    } else {
        match resolved(profile, candidates[0]) {
            Some(id) => if all_resolve_to(profile, candidates, id) {
                Some(id)
            } else {
                None
            },
            None => None,
        }
    }
}

/// The curated id a call targets beyond doubt.
pub open spec fn target_of(
    profile: KnowledgeProfile,
    index: ProjectIndex,
    call: QualifiedCall,
) -> Option<Seq<char>> {
    if conclusive_receiver(index, call) {
        agreed_symbol(profile, texts(call.candidates@))
    } else {
        None
    }
}

/// The curated symbol that all candidates stand for.
pub fn common_symbol<'p>(profile: &'p KnowledgeProfile, candidates: &Vec<String>) -> (found: Option<
    (String, &'p SymbolEntry),
>)
    ensures
        match found {
            Some((id, entry)) => agreed_symbol(*profile, texts(candidates@)) == Some(id@)
                && profile.spec_symbol(id@) == Some(*entry),
            None => agreed_symbol(*profile, texts(candidates@)) is None,
        },
{
    let ghost list = texts(candidates@);
    if candidates.len() == 0 {
        return None;
    }
    let (id, entry) = match resolve_symbol(profile, candidates[0].as_str()) {
        Some(found) => found,
        None => {
            assert(list[0] == candidates@[0]@);
            return None;
        },
    };
    assert(list[0] == candidates@[0]@);
    let mut i: usize = 1;
    while i < candidates.len()
        invariant
            1 <= i <= candidates@.len(),
            list == texts(candidates@),
            resolved(*profile, list[0]) == Some(id@),
            forall|j: int| 0 <= j < i ==> resolved(*profile, #[trigger] list[j]) == Some(id@),
        decreases candidates@.len() - i,
    {
        assert(list[i as int] == candidates@[i as int]@);
        match resolve_symbol(profile, candidates[i].as_str()) {
            Some((other, _)) => {
                if !same_text(other.as_str(), id.as_str()) {
                    return None;
                }
            },
            None => {
                return None;
            },
        }
        i += 1;
    }
    Some((id, entry))
}

/// Resolves `call` to a single curated knowledge symbol.
///
/// Succeeds only when the candidate set is non-empty, the receiver is
/// conclusively classified, and every candidate resolves to the same
/// canonical id.
pub fn conclusive_target<'p>(
    profile: &'p KnowledgeProfile,
    index: &ProjectIndex,
    call: &QualifiedCall,
) -> (found: Option<(String, &'p SymbolEntry)>)
    ensures
        match found {
            Some((id, entry)) => target_of(*profile, *index, *call) == Some(id@)
                && profile.spec_symbol(id@) == Some(*entry),
            None => target_of(*profile, *index, *call) is None,
        },
{
    if !receiver_conclusive(call, index) {
        return None;
    }
    common_symbol(profile, &call.candidates)
}

/// Whether `call` targets the curated symbol `id`.
pub fn targets(
    profile: &KnowledgeProfile,
    index: &ProjectIndex,
    call: &QualifiedCall,
    id: &str,
) -> (yes: bool)
    ensures
        yes == (target_of(*profile, *index, *call) == Some(id@)),
{
    match conclusive_target(profile, index, call) {
        Some((canonical, _)) => same_text(canonical.as_str(), id),
        None => false,
    }
}

/// Whether a call is a bound method call.
pub open spec fn is_bound(call: QualifiedCall) -> bool {
    call.receiver is SelfScene || call.receiver is KnownInstance
}

/// Whether `call` is a bound method call (`self.play(...)`, `mob.add(...)`)
/// rather than an unbound class-attribute call.
pub fn bound_receiver(call: &QualifiedCall) -> (bound: bool)
    ensures
        bound == is_bound(*call),
{
    match &call.receiver {
        ReceiverKind::SelfScene => true,
        ReceiverKind::KnownInstance(_) => true,
        _ => false,
    }
}

/// What a class id is known to be.
#[derive(Clone, Copy, Debug, PartialEq, Eq, Structural)]
pub enum ClassKind {
    /// A Scene class.
    Scene,
    /// A vectorized mobject (`VMobject` family).
    Vmobject,
    /// A plain mobject that is not vectorized (e.g. `ImageMobject`).
    MobjectOnly,
    /// An `Animation` class.
    Animation,
    /// A known class that is none of the Manim families.
    KnownOther,
}

/// A class classification plus whether it is complete.
///
/// `conclusive` is false when the class may reach bases that are unresolved
/// or uncurated; negative claims ("not a mobject", "not vectorized") require
/// `conclusive`, positive membership does not.
#[derive(Clone, Copy, Debug, PartialEq, Eq, Structural)]
pub struct ClassFact {
    pub kind: ClassKind,
    pub conclusive: bool,
}

impl ClassFact {
    pub open spec fn sure_mobject(self) -> bool {
        self.conclusive && (self.kind == ClassKind::Vmobject || self.kind
            == ClassKind::MobjectOnly)
    }

    /// Certainly a mobject and certainly not anything else.
    pub fn conclusive_mobject(self) -> (sure: bool)
        ensures
            sure == self.sure_mobject(),
    {
        self.conclusive && (self.kind == ClassKind::Vmobject || self.kind
            == ClassKind::MobjectOnly)
    }
}

/// Kind of class a curated symbol is; methods are none.
pub open spec fn symbol_class(kind: SymbolKind) -> Option<ClassKind> {
    match kind {
        SymbolKind::Scene => Some(ClassKind::Scene),
        SymbolKind::Mobject => Some(ClassKind::MobjectOnly),
        SymbolKind::Vmobject => Some(ClassKind::Vmobject),
        SymbolKind::Animation => Some(ClassKind::Animation),
        SymbolKind::Camera => Some(ClassKind::KnownOther),
        SymbolKind::Function => Some(ClassKind::KnownOther),
        SymbolKind::Constant => Some(ClassKind::KnownOther),
        SymbolKind::Method => None,
    }
}

/// Whether a base of the class is a curated vectorized mobject.
pub open spec fn reaches_vectorized(profile: KnowledgeProfile, record: ClassRecord) -> bool {
    exists|i: int|
        0 <= i < record.reached_bases@.len() && match profile.spec_symbol(
            (#[trigger] record.reached_bases@[i])@,
        ) {
            Some(entry) => entry.kind == SymbolKind::Vmobject,
            None => false,
        }
}

/// Whether every base of the class is curated.
pub open spec fn bases_curated(profile: KnowledgeProfile, record: ClassRecord) -> bool {
    forall|i: int|
        0 <= i < record.reached_bases@.len() ==> profile.spec_symbol(
            (#[trigger] record.reached_bases@[i])@,
        ) is Some
}

/// Classification of a project class: its one Manim family, or none for
/// mixed roles and for a class of no family whose bases are not all known.
pub open spec fn record_fact(profile: KnowledgeProfile, record: ClassRecord) -> Option<ClassFact> {
    let scene = record.kinds@.contains(ManimKind::Scene);
    let mobject = record.kinds@.contains(ManimKind::Mobject);
    let animation = record.kinds@.contains(ManimKind::Animation);
    let conclusive = record.bases_fully_resolved && bases_curated(profile, record);
    if scene && !mobject && !animation {
        Some(ClassFact { kind: ClassKind::Scene, conclusive })
    } else if !scene && mobject && !animation {
        if reaches_vectorized(profile, record) {
            Some(ClassFact { kind: ClassKind::Vmobject, conclusive })
        } else {
            Some(ClassFact { kind: ClassKind::MobjectOnly, conclusive })
        }
    } else if !scene && !mobject && animation {
        Some(ClassFact { kind: ClassKind::Animation, conclusive })
    } else if !scene && !mobject && !animation && conclusive {
        Some(ClassFact { kind: ClassKind::KnownOther, conclusive })
    } else {
        None
    }
}

/// Classification of a class id.
pub open spec fn class_fact(
    profile: KnowledgeProfile,
    index: ProjectIndex,
    id: Seq<char>,
) -> Option<ClassFact> {
    match profile.spec_symbol(id) {
        Some(entry) => match symbol_class(entry.kind) {
            Some(kind) => Some(ClassFact { kind, conclusive: true }),
            None => None,
        },
        None => match index.spec_class(id) {
            Some(record) => record_fact(profile, record),
            None => None,
        },
    }
}

fn has_kind(kinds: &Vec<ManimKind>, kind: ManimKind) -> (held: bool)
    ensures
        held == kinds@.contains(kind),
{
    let mut i: usize = 0;
    while i < kinds.len()
        invariant
            i <= kinds@.len(),
            forall|j: int| 0 <= j < i ==> #[trigger] kinds@[j] != kind,
        decreases kinds@.len() - i,
    {
        if kinds[i] == kind {
            return true;
        }
        i += 1;
    }
    false
}

fn any_vectorized(profile: &KnowledgeProfile, record: &ClassRecord) -> (found: bool)
    ensures
        found == reaches_vectorized(*profile, *record),
{
    let mut i: usize = 0;
    while i < record.reached_bases.len()
        invariant
            i <= record.reached_bases@.len(),
            forall|j: int|
                0 <= j < i ==> match profile.spec_symbol((#[trigger] record.reached_bases@[j])@) {
                    Some(entry) => entry.kind != SymbolKind::Vmobject,
                    None => true,
                },
        decreases record.reached_bases@.len() - i,
    {
        if let Some(entry) = profile.symbol(record.reached_bases[i].as_str()) {
            if entry.kind == SymbolKind::Vmobject {
                return true;
            }
        }
        i += 1;
    }
    false
}

fn all_curated(profile: &KnowledgeProfile, record: &ClassRecord) -> (all: bool)
    ensures
        all == bases_curated(*profile, *record),
{
    let mut i: usize = 0;
    while i < record.reached_bases.len()
        invariant
            i <= record.reached_bases@.len(),
            forall|j: int|
                0 <= j < i ==> profile.spec_symbol(
                    (#[trigger] record.reached_bases@[j])@,
                ) is Some,
        decreases record.reached_bases@.len() - i,
    {
        if profile.symbol(record.reached_bases[i].as_str()).is_none() {
            return false;
        }
        i += 1;
    }
    true
}

/// Classifies a class id: a curated knowledge class, or a project class
/// whose resolved base chain reaches curated bases. `None` when nothing is
/// known.
pub fn classify_class(profile: &KnowledgeProfile, index: &ProjectIndex, id: &str) -> (fact: Option<
    ClassFact,
>)
    ensures
        fact == class_fact(*profile, *index, id@),
{
    if let Some(entry) = profile.symbol(id) {
        let kind: ClassKind = match entry.kind {
            SymbolKind::Scene => ClassKind::Scene,
            SymbolKind::Mobject => ClassKind::MobjectOnly,
            SymbolKind::Vmobject => ClassKind::Vmobject,
            SymbolKind::Animation => ClassKind::Animation,
            SymbolKind::Camera => ClassKind::KnownOther,
            SymbolKind::Function => ClassKind::KnownOther,
            SymbolKind::Constant => ClassKind::KnownOther,
            SymbolKind::Method => {
                return None;
            },
        };
        return Some(ClassFact { kind, conclusive: true });
    }
    let record = match index.class(id) {
        Some(record) => record,
        None => {
            return None;
        },
    };
    let scene: bool = has_kind(&record.kinds, ManimKind::Scene);
    let mobject: bool = has_kind(&record.kinds, ManimKind::Mobject);
    let animation: bool = has_kind(&record.kinds, ManimKind::Animation);
    let vectorized: bool = any_vectorized(profile, record);
    let conclusive: bool = all_curated(profile, record) && record.bases_fully_resolved;
    let kind: ClassKind = match (scene, mobject, animation) {
        (true, false, false) => ClassKind::Scene,
        (false, true, false) => if vectorized {
            ClassKind::Vmobject
        } else {
            ClassKind::MobjectOnly
        },
        (false, false, true) => ClassKind::Animation,
        (false, false, false) => {
            if conclusive {
                ClassKind::KnownOther
            } else {
                return None;
            }
        },
        _ => {
            return None;
        },
    };
    Some(ClassFact { kind, conclusive })
}

/// Whether the class that owns a method is a mobject family.
pub open spec fn mobject_method(
    profile: KnowledgeProfile,
    index: ProjectIndex,
    method: Seq<char>,
) -> bool {
    match owner_of(method) {
        Some(class) => match class_fact(profile, index, class) {
            Some(fact) => fact.kind == ClassKind::Vmobject || fact.kind == ClassKind::MobjectOnly,
            None => false,
        },
        None => false,
    }
}

/// Whether the owner class of a canonical method id is a mobject family.
pub fn owned_by_mobject(
    profile: &KnowledgeProfile,
    index: &ProjectIndex,
    canonical_method: &str,
) -> (owned: bool)
    ensures
        owned == mobject_method(*profile, *index, canonical_method@),
{
    match rsplit_dot(canonical_method) {
        Some((class, _)) => match classify_class(profile, index, class.as_str()) {
            Some(fact) => fact.kind == ClassKind::Vmobject || fact.kind == ClassKind::MobjectOnly,
            None => false,
        },
        None => false,
    }
}

/// Whether every class of a list is certainly a mobject.
pub open spec fn all_sure_mobjects(
    profile: KnowledgeProfile,
    index: ProjectIndex,
    list: Seq<Seq<char>>,
) -> bool {
    forall|i: int|
        0 <= i < list.len() ==> match class_fact(profile, index, #[trigger] list[i]) {
            Some(fact) => fact.sure_mobject(),
            None => false,
        }
}

pub fn all_conclusive_mobjects(
    profile: &KnowledgeProfile,
    index: &ProjectIndex,
    list: &Vec<String>,
) -> (all: bool)
    ensures
        all == all_sure_mobjects(*profile, *index, texts(list@)),
{
    let mut i: usize = 0;
    while i < list.len()
        invariant
            i <= list@.len(),
            forall|j: int|
                0 <= j < i ==> match class_fact(*profile, *index, #[trigger] texts(list@)[j]) {
                    Some(fact) => fact.sure_mobject(),
                    None => false,
                },
        decreases list@.len() - i,
    {
        assert(texts(list@)[i as int] == list@[i as int]@);
        match classify_class(profile, index, list[i].as_str()) {
            Some(fact) => {
                if !fact.conclusive_mobject() {
                    return false;
                }
            },
            None => {
                return false;
            },
        }
        i += 1;
    }
    true
}

/// Name of a write channel in messages and evidence.
pub open spec fn channel_name(channel: WriteChannel) -> Seq<char> {
    match channel {
        WriteChannel::Points => "points"@,
        WriteChannel::Style => "style"@,
        WriteChannel::Opacity => "opacity"@,
        WriteChannel::Membership => "membership"@,
        WriteChannel::CameraState => "camera-state"@,
    }
}

/// Human-readable label of a write channel for messages and evidence.
pub fn channel_label(channel: WriteChannel) -> (label: &'static str)
    ensures
        label@ == channel_name(channel),
{
    match channel {
        WriteChannel::Points => "points",
        WriteChannel::Style => "style",
        WriteChannel::Opacity => "opacity",
        WriteChannel::Membership => "membership",
        WriteChannel::CameraState => "camera-state",
    }
}

/// Names of a list of channels.
pub open spec fn channel_names(channels: Seq<WriteChannel>) -> Seq<Seq<char>> {
    Seq::new(channels.len(), |i: int| channel_name(channels[i]))
}

pub fn label_channels(channels: &Vec<WriteChannel>) -> (names: Vec<String>)
    ensures
        texts(names@) == channel_names(channels@),
{
    let mut names: Vec<String> = Vec::new();
    let mut i: usize = 0;
    while i < channels.len()
        invariant
            i <= channels@.len(),
            names@.len() == i,
            forall|j: int| 0 <= j < i ==> (#[trigger] names@[j])@ == channel_name(channels@[j]),
        decreases channels@.len() - i,
    {
        names.push(channel_label(channels[i]).to_owned());
        i += 1;
    }
    assert(texts(names@) =~= channel_names(channels@));
    names
}

/// Candidate list of a call as evidence.
pub open spec fn candidates_view(call: QualifiedCall) -> JsonView {
    text_list(texts(call.candidates@))
}

/// Machine-readable candidate list of a call for the evidence map.
pub fn candidates_value(call: &QualifiedCall) -> (value: Json)
    ensures
        value@ == candidates_view(*call),
{
    json_texts(&call.candidates)
}

/// Whether a text is a dotted name: letters, digits, `_`, and `.` only, with
/// a `.` that is neither first nor last.
pub open spec fn dotted_name(text: Seq<char>) -> bool {
    text.contains('.') && text[0] != '.' && text.last() != '.' && forall|i: int|
        0 <= i < text.len() ==> alphanumeric(#[trigger] text[i]) || text[i] == '_' || text[i]
            == '.'
}

/// Whether callee source text is a simple dotted name (`sq.shift`), i.e.
/// safe to splice textually in a suggested fix.
pub fn simple_dotted(text: &str) -> (simple: bool)
    ensures
        simple == dotted_name(text@),
{
    if !has_char(text, '.') {
        return false;
    }
    let len: usize = text.unicode_len();
    if text.get_char(0) == '.' || text.get_char(len - 1) == '.' {
        return false;
    }
    let mut i: usize = 0;
    while i < len
        invariant
            i <= len,
            len == text@.len(),
            forall|j: int|
                0 <= j < i ==> alphanumeric(#[trigger] text@[j]) || text@[j] == '_' || text@[j]
                    == '.',
        decreases len - i,
    {
        let c: char = text.get_char(i);
        if !(is_alphanumeric(c) || c == '_' || c == '.') {
            return false;
        }
        i += 1;
    }
    true
}

} // verus!
