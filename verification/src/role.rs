//! Role identities, factions, and per-role static properties.

use vstd::prelude::*;

use crate::power::DefensePower;

verus! {

/// Faction a role belongs to; decides teams, chat groups and enmity.
#[derive(Clone, Copy, Debug, PartialEq, Eq, Hash, Structural)]
pub enum Faction {
    Town,
    Mafia,
    Neutral,
    Fiends,
    Cult,
}

/// Identity of a role.  Static per-role properties live here; the mutable
/// per-player state of a role lives in `RoleState`.
#[derive(Clone, Copy, Debug, PartialEq, Eq, Hash, Structural)]
pub enum Role {
    Jailor,
    Villager,
    Detective,
    Philosopher,
    Snoop,
    Spy,
    Doctor,
    Bodyguard,
    Engineer,
    Marksman,
    Deputy,
    Medium,
    Retributionist,
    Transporter,
    Godfather,
    Mafioso,
    MadeMan,
    Mortician,
    Janitor,
    Eros,
    MafiaSupportWildcard,
    Jester,
    Minion,
    Death,
    Martyr,
    Kidnapper,
    TrueWildcard,
    Ojo,
    Puppeteer,
    Kira,
    FiendsWildcard,
    Arsonist,
    Apostle,
}

impl Role {
    /// Faction the role fights for.
    pub fn faction(&self) -> (r: Faction)
        ensures
            r == spec_faction(*self),
    {
        match self {
            Role::Jailor | Role::Villager | Role::Detective | Role::Philosopher | Role::Snoop
            | Role::Spy | Role::Doctor | Role::Bodyguard | Role::Engineer | Role::Marksman
            | Role::Deputy | Role::Medium | Role::Retributionist | Role::Transporter => Faction::Town,
            Role::Godfather | Role::Mafioso | Role::MadeMan | Role::Mortician | Role::Janitor
            | Role::Eros | Role::MafiaSupportWildcard => Faction::Mafia,
            Role::Jester | Role::Minion | Role::Death | Role::Martyr | Role::Kidnapper
            | Role::TrueWildcard => Faction::Neutral,
            Role::Ojo | Role::Puppeteer | Role::Kira | Role::FiendsWildcard | Role::Arsonist => {
                Faction::Fiends
            },
            Role::Apostle => Faction::Cult,
        }
    }

    /// Base defense the role starts every night with.
    pub fn defense(&self) -> (r: DefensePower)
        ensures
            r == spec_base_defense(*self),
    {
        match self {
            Role::Godfather | Role::Eros | Role::Kira | Role::Ojo | Role::Puppeteer
            | Role::Arsonist => DefensePower::Armor,
            _ => DefensePower::NoDefense,
        }
    }

    /// How many players may hold the role at once, if capped.
    pub fn maximum_count(&self) -> (r: Option<u8>)
        ensures
            (r is Some) <==> spec_unique_role(*self),
            r is Some ==> r->0 == 1,
    {
        match self {
            Role::Jailor | Role::Godfather | Role::Mafioso | Role::Mortician | Role::Janitor
            | Role::Eros | Role::Death | Role::Martyr | Role::Kidnapper => Some(1),
            _ => None,
        }
    }

    /// Roles a possessing role cannot commandeer.
    pub fn possession_immune(&self) -> (r: bool)
        ensures
            r == spec_possession_immune(*self),
    {
        match self {
            Role::Transporter | Role::Retributionist | Role::Minion | Role::Ojo => true,
            _ => false,
        }
    }

    /// Roles a roleblock does not stop.
    pub fn roleblock_immune(&self) -> (r: bool)
        ensures
            r == spec_roleblock_immune(*self),
    {
        match self {
            Role::Transporter | Role::Retributionist | Role::Jester | Role::Minion => true,
            _ => false,
        }
    }

    /// Roles a ward does not block.
    pub fn wardblock_immune(&self) -> (r: bool)
        ensures
            r == (*self is Jailor),
    {
        match self {
            Role::Jailor => true,
            _ => false,
        }
    }

    /// Roles that look innocent to investigators despite their faction.
    pub fn has_innocent_aura(&self) -> (r: bool)
        ensures
            r == (*self is Godfather),
    {
        match self {
            Role::Godfather => true,
            _ => false,
        }
    }

    /// Roles that look suspicious to investigators despite their faction.
    pub fn has_suspicious_aura(&self) -> (r: bool)
        ensures
            r == false,
    {
        false
    }
}

pub open spec fn spec_faction(role: Role) -> Faction {
    match role {
        Role::Jailor | Role::Villager | Role::Detective | Role::Philosopher | Role::Snoop
        | Role::Spy | Role::Doctor | Role::Bodyguard | Role::Engineer | Role::Marksman
        | Role::Deputy | Role::Medium | Role::Retributionist | Role::Transporter => Faction::Town,
        Role::Godfather | Role::Mafioso | Role::MadeMan | Role::Mortician | Role::Janitor
        | Role::Eros | Role::MafiaSupportWildcard => Faction::Mafia,
        Role::Jester | Role::Minion | Role::Death | Role::Martyr | Role::Kidnapper
        | Role::TrueWildcard => Faction::Neutral,
        Role::Ojo | Role::Puppeteer | Role::Kira | Role::FiendsWildcard | Role::Arsonist => {
            Faction::Fiends
        },
        Role::Apostle => Faction::Cult,
    }
}

pub open spec fn spec_base_defense(role: Role) -> DefensePower {
    match role {
        Role::Godfather | Role::Eros | Role::Kira | Role::Ojo | Role::Puppeteer
        | Role::Arsonist => DefensePower::Armor,
        _ => DefensePower::NoDefense,
    }
}

pub open spec fn spec_unique_role(role: Role) -> bool {
    match role {
        Role::Jailor | Role::Godfather | Role::Mafioso | Role::Mortician | Role::Janitor
        | Role::Eros | Role::Death | Role::Martyr | Role::Kidnapper => true,
        _ => false,
    }
}

pub open spec fn spec_possession_immune(role: Role) -> bool {
    match role {
        Role::Transporter | Role::Retributionist | Role::Minion | Role::Ojo => true,
        _ => false,
    }
}

pub open spec fn spec_roleblock_immune(role: Role) -> bool {
    match role {
        Role::Transporter | Role::Retributionist | Role::Jester | Role::Minion => true,
        _ => false,
    }
}

} // verus!
