//! Sums over the plays of a scene.
//!
//! Whole numbers are added up here: as long as the sum stays below two to the
//! power of 53 it is what adding doubles gives. Other sums come with the cost
//! facts; without them a sum is unknown.
use super::frame_scope::{frames_at_play, play_frames};
use crate::cost::{totals_from, PlayTotals};
use crate::numbers::{Num, NumLit, EXACT_INT_LIMIT};
use crate::rules::base::RuleContext;
use crate::semantic::{PlayFact, SceneLifecycle};
use vstd::prelude::*;

verus! {

/// What is added up over plays.
#[derive(Clone, Copy, Debug, PartialEq, Eq, Structural)]
pub enum PlayQuantity {
    Seconds,
    /// Frames across the active profiles.
    Frames,
    CairoFrames,
    /// Frames as estimated for the call of the play.
    EstimatedFrames,
}

/// The quantity of one play.
pub open spec fn quantity_of(context: RuleContext<'_>, play: PlayFact, what: PlayQuantity) -> Num {
    match what {
        PlayQuantity::Seconds => play.duration,
        PlayQuantity::Frames => play.cost.frames,
        PlayQuantity::CairoFrames => play.cost.cairo_frames,
        PlayQuantity::EstimatedFrames => play_frames(context, play),
    }
}

/// The quantity as it was added up outside.
pub open spec fn total_in(totals: PlayTotals, what: PlayQuantity) -> Num {
    match what {
        PlayQuantity::Seconds => totals.seconds,
        PlayQuantity::Frames => totals.frames,
        PlayQuantity::CairoFrames => totals.cairo_frames,
        PlayQuantity::EstimatedFrames => totals.estimated_frames,
    }
}

/// A sum of whole numbers and one more, while both can be doubles.
pub open spec fn plus_whole(sum: Option<int>, value: Num) -> Option<int> {
    match (sum, value) {
        (Some(before), Num::Exact(NumLit::Int(n))) => if 0 <= n && before + n < EXACT_INT_LIMIT {
            Some(before + n)
        } else {
            None
        },
        _ => None,
    }
}

/// The sum over the first `n` positions, when all of it is whole.
pub open spec fn whole_sum(
    context: RuleContext<'_>,
    plays: Seq<PlayFact>,
    positions: Seq<usize>,
    what: PlayQuantity,
    n: int,
) -> Option<int>
    decreases n,
{
    if n <= 0 {
        Some(0)
    } else if positions[n - 1] < plays.len() {
        plus_whole(
            whole_sum(context, plays, positions, what, n - 1),
            quantity_of(context, plays[positions[n - 1] as int], what),
        )
    } else {
        None
    }
}

/// The sum over plays: exact for whole numbers, else as added up outside, else
/// unknown.
pub open spec fn sum_of(
    context: RuleContext<'_>,
    scene: SceneLifecycle,
    positions: Seq<usize>,
    what: PlayQuantity,
) -> Num {
    match whole_sum(context, scene.plays@, positions, what, positions.len() as int) {
        Some(sum) => Num::Exact(NumLit::Int(sum as i64)),
        None => match totals_from(
            context.cost_facts.totals@,
            scene.qualified_name@,
            positions,
            0,
        ) {
            Some(totals) => total_in(totals, what),
            None => Num::Unknown,
        },
    }
}

fn find_quantity<'c>(context: &'c RuleContext<'_>, play: &'c PlayFact, what: PlayQuantity) -> (value:
    &'c Num)
    ensures
        *value == quantity_of(*context, *play, what),
{
    match what {
        PlayQuantity::Seconds => &play.duration,
        PlayQuantity::Frames => &play.cost.frames,
        PlayQuantity::CairoFrames => &play.cost.cairo_frames,
        PlayQuantity::EstimatedFrames => frames_at_play(context, play),
    }
}

proof fn broken_sum_stays_broken(
    context: RuleContext<'_>,
    plays: Seq<PlayFact>,
    positions: Seq<usize>,
    what: PlayQuantity,
    n: int,
    m: int,
)
    requires
        0 <= n <= m,
        whole_sum(context, plays, positions, what, n) is None,
    ensures
        whole_sum(context, plays, positions, what, m) is None,
    decreases m - n,
{
    if n < m {
        broken_sum_stays_broken(context, plays, positions, what, n, m - 1);
    }
}

/// Adds up whole numbers: unknown when something is not whole.
pub(crate) fn add_up(
    context: &RuleContext<'_>,
    scene: &SceneLifecycle,
    positions: &Vec<usize>,
    what: PlayQuantity,
) -> (sum: Num)
    ensures
        sum == match whole_sum(
            *context,
            scene.plays@,
            positions@,
            what,
            positions@.len() as int,
        ) {
            Some(whole) => Num::Exact(NumLit::Int(whole as i64)),
            None => Num::Unknown,
        },
{
    let mut sum: i64 = 0;
    let mut i: usize = 0;
    while i < positions.len()
        invariant
            i <= positions@.len(),
            0 <= sum < EXACT_INT_LIMIT,
            whole_sum(*context, scene.plays@, positions@, what, i as int) == Some(sum as int),
        decreases positions@.len() - i,
    {
        let position: usize = positions[i];
        let mut next: i64 = -1;
        if position < scene.plays.len() {
            if let Num::Exact(NumLit::Int(n)) = find_quantity(context, &scene.plays[position], what) {
                if 0 <= *n && *n < 0x20_0000_0000_0000 - sum {
                    next = sum + *n;
                }
            }
        }
        if next < 0 {
            proof {
                broken_sum_stays_broken(
                    *context,
                    scene.plays@,
                    positions@,
                    what,
                    i + 1,
                    positions@.len() as int,
                );
            }
            return Num::Unknown;
        }
        sum = next;
        i += 1;
    }
    Num::Exact(NumLit::Int(sum))
}

/// The sum over plays, given what [`add_up`] found of it.
pub(crate) fn best_sum<'c>(
    context: &'c RuleContext<'_>,
    scene: &SceneLifecycle,
    positions: &Vec<usize>,
    what: PlayQuantity,
    added: &'c Num,
) -> (sum: &'c Num)
    requires
        *added == match whole_sum(
            *context,
            scene.plays@,
            positions@,
            what,
            positions@.len() as int,
        ) {
            Some(whole) => Num::Exact(NumLit::Int(whole as i64)),
            None => Num::Unknown,
        },
    ensures
        *sum == sum_of(*context, *scene, positions@, what),
{
    if let Num::Unknown = added {
        if let Some(totals) = context.cost_facts.totals_of(
            scene.qualified_name.as_str(),
            positions,
        ) {
            return match what {
                PlayQuantity::Seconds => &totals.seconds,
                PlayQuantity::Frames => &totals.frames,
                PlayQuantity::CairoFrames => &totals.cairo_frames,
                PlayQuantity::EstimatedFrames => &totals.estimated_frames,
            };
        }
    }
    added
}

} // verus!
