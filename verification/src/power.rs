//! Attack and defense strength levels.
//!
//! A kill attempt succeeds only when the attack's power strictly exceeds the
//! target's accumulated defense on this ladder: no defense < armor <
//! protection < invincible.

use vstd::prelude::*;

verus! {

/// Strength of a kill attempt.
#[derive(Clone, Copy, Debug, PartialEq, Eq, Structural)]
pub enum AttackPower {
    /// Blocked by armor or anything stronger.
    Basic,
    /// Pierces armor; blocked by protection or stronger.
    ArmorPiercing,
    /// Pierces protection; blocked only by invincibility.
    ProtectionPiercing,
}

/// Strength of a player's accumulated defense for one night.
#[derive(Clone, Copy, Debug, PartialEq, Eq, Structural)]
pub enum DefensePower {
    /// No defense at all: any attack lands.
    NoDefense,
    /// Stops a basic attack.
    Armor,
    /// Stops anything short of a protection-piercing attack.
    Protection,
    /// Stops every attack.
    Invincible,
}

/// Numeric rank of an attack on the shared strength ladder.
pub open spec fn attack_level(a: AttackPower) -> int {
    match a {
        AttackPower::Basic => 1,
        AttackPower::ArmorPiercing => 2,
        AttackPower::ProtectionPiercing => 3,
    }
}

/// Numeric rank of a defense on the shared strength ladder.
pub open spec fn defense_level(d: DefensePower) -> int {
    match d {
        DefensePower::NoDefense => 0,
        DefensePower::Armor => 1,
        DefensePower::Protection => 2,
        DefensePower::Invincible => 3,
    }
}

/// The stronger of two defenses; used by the monotone "raise to" operation.
pub open spec fn spec_defense_max(a: DefensePower, b: DefensePower) -> DefensePower {
    if defense_level(a) >= defense_level(b) {
        a
    } else {
        b
    }
}

impl DefensePower {
    /// Whether this defense stops an attack of the given power.
    pub fn can_block(self, attack: AttackPower) -> (r: bool)
        ensures
            r == (attack_level(attack) <= defense_level(self)),
    {
        defense_rank(self) >= attack_rank(attack)
    }

    /// The stronger of `self` and `other`.
    pub fn max_with(self, other: DefensePower) -> (r: DefensePower)
        ensures
            r == spec_defense_max(self, other),
            defense_level(r) >= defense_level(self),
            defense_level(r) >= defense_level(other),
    {
        if defense_rank(self) >= defense_rank(other) {
            self
        } else {
            other
        }
    }
}

/// Executable rank of an attack; mirrors `attack_level`.
pub fn attack_rank(a: AttackPower) -> (r: u8)
    ensures
        r as int == attack_level(a),
{
    match a {
        AttackPower::Basic => 1,
        AttackPower::ArmorPiercing => 2,
        AttackPower::ProtectionPiercing => 3,
    }
}

/// Executable rank of a defense; mirrors `defense_level`.
pub fn defense_rank(d: DefensePower) -> (r: u8)
    ensures
        r as int == defense_level(d),
{
    match d {
        DefensePower::NoDefense => 0,
        DefensePower::Armor => 1,
        DefensePower::Protection => 2,
        DefensePower::Invincible => 3,
    }
}

} // verus!
