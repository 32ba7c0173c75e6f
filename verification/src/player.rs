//! Players: persistent identity and state, plus the per-night scratch state.

use vstd::prelude::*;

use crate::chat::NightInformation;
use crate::grave::{GraveKiller, GraveRole};
use crate::power::DefensePower;
use crate::role::Role;
use crate::role_state::{default_state, spec_role_of, RoleState};
use crate::tag::Tag;
use crate::visit::{PlayerIndex, Visit};

verus! {

/// A player's standing vote in a trial.
#[derive(Clone, Copy, Debug, PartialEq, Eq, Structural)]
pub enum Verdict {
    Innocent,
    Abstain,
    Guilty,
}

/// Per-player voting state, reset when voting begins.
#[derive(Clone, Copy, Debug, PartialEq, Eq, Structural)]
pub struct PlayerVotingVariables {
    pub chosen_vote: Option<PlayerIndex>,
    pub verdict: Verdict,
}

/// Per-player scratch state for one night, rebuilt whole at night entry.
///
/// `defense` starts at the role's base defense and is only ever raised
/// within a night, never lowered.
#[derive(Debug)]
pub struct PlayerNightVariables {
    pub alive_tonight: bool,
    pub died: bool,
    pub attacked: bool,
    pub jailed: bool,
    pub roleblocked: bool,
    pub defense: DefensePower,
    pub appeared_suspicious: bool,
    pub silenced: bool,
    pub selection: Vec<PlayerIndex>,
    pub visits: Vec<Visit>,
    pub appeared_visits: Vec<Visit>,
    pub messages: Vec<NightInformation>,
    pub grave_role: GraveRole,
    pub grave_killers: Vec<GraveKiller>,
    pub grave_will: String,
    pub grave_death_notes: Vec<String>,
}

/// Relates the player in seat `i` before and after the reset that night
/// entry performs: identity, role, liveness and committed selection are
/// kept; the scratch state is rebuilt whole, with the will snapshotted onto
/// the grave fields, defense back at the role's base, the committed
/// selection converted into the role's visits, and those visits mirrored
/// into the appeared visits.
pub open spec fn night_entry_reset(oldp: Player, newp: Player, i: PlayerIndex) -> bool {
    let nv = newp.night_variables;
    let role = spec_role_of(oldp.role_state);
    &&& newp.name == oldp.name
    &&& newp.role_state == oldp.role_state
    &&& newp.alive == oldp.alive
    &&& newp.will == oldp.will
    &&& newp.notes == oldp.notes
    &&& newp.death_note == oldp.death_note
    &&& newp.role_labels == oldp.role_labels
    &&& newp.player_tags == oldp.player_tags
    &&& newp.voting_variables == oldp.voting_variables
    &&& nv.alive_tonight == oldp.alive
    &&& !nv.died
    &&& !nv.attacked
    &&& !nv.jailed
    &&& !nv.roleblocked
    &&& nv.defense == crate::role::spec_base_defense(role)
    &&& !nv.appeared_suspicious
    &&& !nv.silenced
    &&& nv.selection@ == oldp.night_variables.selection@
    &&& nv.visits@ == crate::actions::spec_converted_visits(oldp, i)
    &&& nv.visits@ == nv.appeared_visits@
    &&& nv.messages@.len() == 0
    &&& nv.grave_role == GraveRole::Role(role)
    &&& nv.grave_killers@.len() == 0
    &&& nv.grave_will == oldp.will
    &&& nv.grave_death_notes@.len() == 0
}

/// One player: identity, role state, liveness, and scratch state.
#[derive(Debug)]
pub struct Player {
    pub name: String,
    pub role_state: RoleState,
    pub alive: bool,
    pub will: String,
    pub notes: String,
    pub death_note: Option<String>,
    pub role_labels: Vec<PlayerIndex>,
    pub player_tags: Vec<(PlayerIndex, vec1::Vec1<Tag>)>,
    pub voting_variables: PlayerVotingVariables,
    pub night_variables: PlayerNightVariables,
}

impl Player {
    /// A newly seated player: alive, holding the role's starting state,
    /// with empty records.
    pub fn new(name: String, role: Role) -> (r: Player)
        ensures
            r.name == name,
            spec_role_of(r.role_state) == role,
            r.alive,
            r.will@.len() == 0,
            r.notes@.len() == 0,
            r.role_labels@.len() == 0,
            r.player_tags@.len() == 0,
            r.voting_variables == (PlayerVotingVariables {
                chosen_vote: None,
                verdict: Verdict::Abstain,
            }),
            !r.night_variables.died,
            !r.night_variables.attacked,
            !r.night_variables.jailed,
            !r.night_variables.roleblocked,
            r.night_variables.defense == crate::role::spec_base_defense(role),
            r.night_variables.visits@.len() == 0,
            r.night_variables.appeared_visits@.len() == 0,
            r.night_variables.selection@.len() == 0,
            r.night_variables.messages@.len() == 0,
            r.night_variables.grave_killers@.len() == 0,
            forall|n2: int| #[trigger] crate::game::player_wf(r, n2),
    {
        Player {
            name,
            role_state: default_state(role),
            alive: true,
            will: String::new(),
            notes: String::new(),
            death_note: None,
            role_labels: Vec::new(),
            player_tags: Vec::new(),
            voting_variables: PlayerVotingVariables {
                chosen_vote: None,
                verdict: Verdict::Abstain,
            },
            night_variables: PlayerNightVariables {
                alive_tonight: true,
                died: false,
                attacked: false,
                jailed: false,
                roleblocked: false,
                defense: role.defense(),
                appeared_suspicious: false,
                silenced: false,
                selection: Vec::new(),
                visits: Vec::new(),
                appeared_visits: Vec::new(),
                messages: Vec::new(),
                grave_role: GraveRole::Role(role),
                grave_killers: Vec::new(),
                grave_will: String::new(),
                grave_death_notes: Vec::new(),
            },
        }
    }

    /// The role this player currently holds.
    pub fn role(&self) -> (r: Role)
        ensures
            r == spec_role_of(self.role_state),
    {
        self.role_state.role()
    }
}

/// How many players in the sequence died tonight: their died flag is set
/// and their death has not yet been materialized.
pub open spec fn count_died(s: Seq<Player>) -> int
    decreases s.len(),
{
    if s.len() == 0 {
        0
    } else {
        count_died(s.drop_last()) + if s.last().night_variables.died && s.last().alive {
            1int
        } else {
            0int
        }
    }
}

/// A player is blocked tonight when roleblocked or jailed.
pub open spec fn spec_night_blocked(p: Player) -> bool {
    p.night_variables.roleblocked || p.night_variables.jailed
}

} // verus!
