//! Graves: the persistent record of a death.

use vstd::prelude::*;

use crate::role::{Faction, Role};
use crate::visit::PlayerIndex;

verus! {

/// The role shown on a grave; deceiving roles may clean or obscure it.
#[derive(Clone, Copy, Debug, PartialEq, Eq, Structural)]
pub enum GraveRole {
    Obscured,
    Cleaned,
    Role(Role),
}

/// One cause of death recorded on a grave.
#[derive(Clone, Copy, Debug, PartialEq, Eq, Structural)]
pub enum GraveKiller {
    Role(Role),
    Faction(Faction),
    Trial,
    Suicide,
}

/// Whether the death happened during the day or the night.
#[derive(Clone, Copy, Debug, PartialEq, Eq, Structural)]
pub enum GravePhase {
    Day,
    Night,
}

/// Persistent record of a player's death: who died, what role was shown,
/// everyone who killed them, and their last words.
#[derive(Debug)]
pub struct Grave {
    pub player: PlayerIndex,
    pub role: GraveRole,
    pub killers: Vec<GraveKiller>,
    pub will: String,
    pub death_notes: Vec<String>,
    pub died_phase: GravePhase,
    pub day_number: u8,
}

/// How many graves in the sequence belong to the player.
pub open spec fn count_graves_for(s: Seq<Grave>, p: int) -> int
    decreases s.len(),
{
    if s.len() == 0 {
        0
    } else {
        count_graves_for(s.drop_last(), p) + if s.last().player == p {
            1int
        } else {
            0int
        }
    }
}

/// Appending one grave raises exactly its own player's count by one.
pub proof fn lemma_count_graves_push(s: Seq<Grave>, g: Grave)
    ensures
        forall|p: int|
            count_graves_for(#[trigger] s.push(g), p) == count_graves_for(s, p) + if g.player
                == p {
                1int
            } else {
                0int
            },
{
    assert forall|p: int|
        count_graves_for(#[trigger] s.push(g), p) == count_graves_for(s, p) + if g.player == p {
            1int
        } else {
            0int
        } by {
        assert(s.push(g).drop_last() =~= s);
        assert(s.push(g).last() == g);
    }
}

} // verus!
