//! Visits: one player's night action pointed at a target.

use vstd::prelude::*;

verus! {

/// Index of a player in the game's player list.
pub type PlayerIndex = usize;

/// One night action directed at a target, tagged as harmful or benign.
///
/// Visits are ordinarily immutable, but redirecting roles (bodyguard,
/// transporter) rewrite the `target` field of other players' visits during
/// the stages that run before kills resolve.
#[derive(Clone, Copy, Debug, PartialEq, Eq, Structural)]
pub struct Visit {
    pub target: PlayerIndex,
    pub attack: bool,
}

impl Visit {
    pub fn new(target: PlayerIndex, attack: bool) -> (r: Visit)
        ensures
            r.target == target,
            r.attack == attack,
    {
        Visit { target, attack }
    }
}

/// All targets of a sequence of visits lie inside a roster of `n` players.
pub open spec fn visits_in_bounds(vs: Seq<Visit>, n: int) -> bool {
    forall|i: int| 0 <= i < vs.len() ==> (#[trigger] vs[i]).target < n
}

} // verus!
