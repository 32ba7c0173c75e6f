//! Tags one player can pin on another in their player list.

use vstd::prelude::*;

verus! {

/// A marker a player sees next to another player's name.
#[derive(Clone, Copy, Debug, PartialEq, Eq, Structural)]
pub enum Tag {
    Doused,
    GodfatherBackup,
    MorticianTagged,
    Marionette,
}

} // verus!
