//! Game settings: how long each phase lasts, and which roles are excluded.

use vstd::prelude::*;

use crate::phase::PhaseType;
use crate::role::Role;

verus! {

/// How many seconds each phase lasts.
#[derive(Clone, Copy, Debug, PartialEq, Eq, Structural)]
pub struct PhaseTimeSettings {
    pub morning: u64,
    pub discussion: u64,
    pub voting: u64,
    pub testimony: u64,
    pub judgement: u64,
    pub evening: u64,
    pub night: u64,
}

impl PhaseTimeSettings {
    /// The configured length of the given phase, in seconds.
    pub fn get_time_for(&self, phase: PhaseType) -> (r: u64)
        ensures
            r == spec_time_for(*self, phase),
    {
        match phase {
            PhaseType::Morning => self.morning,
            PhaseType::Discussion => self.discussion,
            PhaseType::Voting => self.voting,
            PhaseType::Testimony => self.testimony,
            PhaseType::Judgement => self.judgement,
            PhaseType::Evening => self.evening,
            PhaseType::Night => self.night,
        }
    }

    /// True when every phase the game cannot skip has length zero, so the
    /// game would cycle without ever letting anyone act.
    pub fn game_ends_instantly(&self) -> (r: bool)
        ensures
            r == (self.morning == 0 && self.discussion == 0 && self.voting == 0 && self.night
                == 0),
    {
        self.morning == 0 && self.discussion == 0 && self.voting == 0 && self.night == 0
    }
}

/// The configured length of a phase, in seconds.
pub open spec fn spec_time_for(times: PhaseTimeSettings, phase: PhaseType) -> u64 {
    match phase {
        PhaseType::Morning => times.morning,
        PhaseType::Discussion => times.discussion,
        PhaseType::Voting => times.voting,
        PhaseType::Testimony => times.testimony,
        PhaseType::Judgement => times.judgement,
        PhaseType::Evening => times.evening,
        PhaseType::Night => times.night,
    }
}

impl Default for PhaseTimeSettings {
    /// The stock timer configuration.
    fn default() -> (r: Self)
        ensures
            r == (PhaseTimeSettings {
                morning: 5,
                discussion: 46,
                voting: 30,
                testimony: 24,
                judgement: 20,
                evening: 7,
                night: 39,
            }),
    {
        PhaseTimeSettings {
            morning: 5,
            discussion: 46,
            voting: 30,
            testimony: 24,
            judgement: 20,
            evening: 7,
            night: 39,
        }
    }
}

/// Settings a game is created with.
#[derive(Clone, Debug)]
pub struct Settings {
    pub phase_times: PhaseTimeSettings,
    pub excluded_roles: Vec<Role>,
}

} // verus!
