//! Display-list facts: the order in which members are drawn and the part of
//! it that moves.
use crate::numbers::Num;
use crate::semantic::{ObjectId, Truth};
use vstd::prelude::*;

verus! {

/// Why a member of the display list moves.
#[derive(Clone, Copy, Debug, PartialEq, Eq, Structural)]
pub enum MovingReason {
    /// A member of its family has an updater.
    FamilyUpdater,
    /// The play animates it.
    AnimationTarget,
    /// It is registered in the foreground.
    Foreground,
}

/// A member that moves.
#[derive(Clone, Copy, Debug, PartialEq, Eq, Structural)]
pub struct MemberEvidence {
    pub id: ObjectId,
    /// Position in the display list.
    pub index: usize,
    pub reason: MovingReason,
    pub certainty: Truth,
}

/// The part of a display list from its first moving member on.
pub struct SuffixFact {
    /// Position of the first moving member.
    pub first_moving_index: Option<Num>,
    /// Members behind it.
    pub suffix_len: Num,
    pub members_evidence: Vec<MemberEvidence>,
    /// The suffix in words, when it is known exactly.
    pub sentence: Option<String>,
}

/// Display list at one play.
pub struct DisplayFact {
    /// Members in drawing order, when the order is known.
    pub members: Option<Vec<ObjectId>>,
    pub suffix: Option<SuffixFact>,
}

} // verus!
