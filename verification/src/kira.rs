//! Kira's guessing game: guess every other player's role and punish the
//! correctly guessed.

use vstd::prelude::*;

use crate::game::Game;
use crate::role::Role;
use crate::role_state::{spec_role_of, RoleState};
use crate::visit::PlayerIndex;

verus! {

/// What Kira may write down for one player.
#[derive(Clone, Copy, Debug, PartialEq, Eq, Structural)]
pub enum KiraGuess {
    NoGuess,
    NonTown,
    Jailor,
    Villager,
    Detective,
    Philosopher,
    Snoop,
    Spy,
    Doctor,
    Bodyguard,
    Engineer,
    Marksman,
    Deputy,
    Medium,
    Retributionist,
    Transporter,
}

impl KiraGuess {
    /// The guess that would be correct for a role: town roles map to their
    /// own guess, a martyr cannot be guessed at all, and every other role
    /// counts as non-town.
    pub fn convert_to_guess(role: Role) -> (r: Option<KiraGuess>)
        ensures
            r == spec_convert_to_guess(role),
    {
        match role {
            Role::Jailor => Some(KiraGuess::Jailor),
            Role::Villager => Some(KiraGuess::Villager),
            Role::Detective => Some(KiraGuess::Detective),
            Role::Philosopher => Some(KiraGuess::Philosopher),
            Role::Snoop => Some(KiraGuess::Snoop),
            Role::Spy => Some(KiraGuess::Spy),
            Role::Doctor => Some(KiraGuess::Doctor),
            Role::Bodyguard => Some(KiraGuess::Bodyguard),
            Role::Engineer => Some(KiraGuess::Engineer),
            Role::Marksman => Some(KiraGuess::Marksman),
            Role::Deputy => Some(KiraGuess::Deputy),
            Role::Medium => Some(KiraGuess::Medium),
            Role::Retributionist => Some(KiraGuess::Retributionist),
            Role::Transporter => Some(KiraGuess::Transporter),
            Role::Martyr => None,
            _ => Some(KiraGuess::NonTown),
        }
    }

    /// Whether this guess is the correct one for the role.
    pub fn guess_matches_role(&self, role: Role) -> (r: bool)
        ensures
            r == (spec_convert_to_guess(role) == Some(*self)),
    {
        if let Some(guess) = KiraGuess::convert_to_guess(role) {
            *self == guess
        } else {
            false
        }
    }
}

/// The guess that would be correct for a role.
pub open spec fn spec_convert_to_guess(role: Role) -> Option<KiraGuess> {
    match role {
        Role::Jailor => Some(KiraGuess::Jailor),
        Role::Villager => Some(KiraGuess::Villager),
        Role::Detective => Some(KiraGuess::Detective),
        Role::Philosopher => Some(KiraGuess::Philosopher),
        Role::Snoop => Some(KiraGuess::Snoop),
        Role::Spy => Some(KiraGuess::Spy),
        Role::Doctor => Some(KiraGuess::Doctor),
        Role::Bodyguard => Some(KiraGuess::Bodyguard),
        Role::Engineer => Some(KiraGuess::Engineer),
        Role::Marksman => Some(KiraGuess::Marksman),
        Role::Deputy => Some(KiraGuess::Deputy),
        Role::Medium => Some(KiraGuess::Medium),
        Role::Retributionist => Some(KiraGuess::Retributionist),
        Role::Transporter => Some(KiraGuess::Transporter),
        Role::Martyr => None,
        _ => Some(KiraGuess::NonTown),
    }
}

/// The verdict on one guess after the night resolves.
#[derive(Clone, Copy, Debug, PartialEq, Eq, Structural)]
pub enum KiraGuessResult {
    /// The guess named the player's exact role.
    Correct,
    /// No living player holds a role matching the guess.
    NotInGame,
    /// The guess was wrong for this player, but fits some living player.
    WrongSpot,
}

/// The outcome of a whole sheet of guesses.
#[derive(Debug)]
pub struct KiraResult {
    pub guesses: Vec<(PlayerIndex, (KiraGuess, KiraGuessResult))>,
}

/// The grade one guess earns: correct exactly when it names a seated
/// player's exact role; otherwise a wrong spot when some living player's
/// role matches the guess, and not in game when none does.
pub open spec fn spec_grade_guess(game: Game, p: PlayerIndex, g: KiraGuess) -> KiraGuessResult {
    if p < game.n() && spec_convert_to_guess(spec_role_of(game.players@[p as int].role_state))
        == Some(g) {
        KiraGuessResult::Correct
    } else if spec_guess_in_game(game, g) {
        KiraGuessResult::WrongSpot
    } else {
        KiraGuessResult::NotInGame
    }
}

/// Some living player's role matches the guess.
pub open spec fn spec_guess_in_game(game: Game, guess: KiraGuess) -> bool {
    exists|j: int|
        0 <= j < game.n() && (#[trigger] game.players@[j]).alive && spec_convert_to_guess(
            spec_role_of(game.players@[j].role_state),
        ) == Some(guess)
}

impl KiraGuess {
    /// Whether some living player's role matches this guess.
    pub fn is_in_game(&self, game: &Game) -> (r: bool)
        ensures
            r == spec_guess_in_game(*game, *self),
    {
        let n = game.players.len();
        let mut k: usize = 0;
        while k < n
            invariant
                n == game.n(),
                forall|j: int|
                    0 <= j < k ==> !((#[trigger] game.players@[j]).alive && spec_convert_to_guess(
                        spec_role_of(game.players@[j].role_state),
                    ) == Some(*self)),
            decreases n - k,
        {
            if game.players[k].alive && self.guess_matches_role(game.players[k].role_state.role())
            {
                return true;
            }
            k = k + 1;
        }
        false
    }
}

impl KiraResult {
    /// Grade a sheet of guesses against the game as it stands: a guess is
    /// correct exactly when it names a seated player's exact role; a guess
    /// that is not correct — the wrong seat, or a seat off the roster — is
    /// graded by whether any living player's role matches it: a wrong spot
    /// when one does, not in game when none does.
    pub fn new(guesses: Vec<(PlayerIndex, KiraGuess)>, game: &Game) -> (r: KiraResult)
        ensures
            r.guesses@.len() == guesses@.len(),
            forall|k: int|
                0 <= k < guesses@.len() ==> {
                    let (p, g) = #[trigger] guesses@[k];
                    &&& r.guesses@[k].0 == p
                    &&& r.guesses@[k].1.0 == g
                    &&& r.guesses@[k].1.1 == spec_grade_guess(*game, p, g)
                },
    {
        let mut graded: Vec<(PlayerIndex, (KiraGuess, KiraGuessResult))> = Vec::new();
        let mut k: usize = 0;
        while k < guesses.len()
            invariant
                k <= guesses@.len(),
                graded@.len() == k,
                forall|m: int|
                    0 <= m < k ==> {
                        let (p, g) = #[trigger] guesses@[m];
                        &&& graded@[m].0 == p
                        &&& graded@[m].1.0 == g
                        &&& graded@[m].1.1 == spec_grade_guess(*game, p, g)
                    },
            decreases guesses@.len() - k,
        {
            let (p, g) = guesses[k];
            let result = if p < game.players.len() && g.guess_matches_role(
                game.players[p].role_state.role(),
            ) {
                KiraGuessResult::Correct
            } else if g.is_in_game(game) {
                KiraGuessResult::WrongSpot
            } else {
                KiraGuessResult::NotInGame
            };
            graded.push((p, (g, result)));
            k = k + 1;
        }
        KiraResult { guesses: graded }
    }

    /// Whether every actual guess on the sheet was correct; empty slots do
    /// not count against it.
    pub fn all_correct(&self) -> (r: bool)
        ensures
            r == forall|i: int|
                0 <= i < self.guesses@.len() ==> ((#[trigger] self.guesses@[i]).1.1
                    is Correct || self.guesses@[i].1.0 is NoGuess),
    {
        let mut k: usize = 0;
        while k < self.guesses.len()
            invariant
                k <= self.guesses@.len(),
                forall|i: int|
                    0 <= i < k ==> ((#[trigger] self.guesses@[i]).1.1 is Correct
                        || self.guesses@[i].1.0 is NoGuess),
            decreases self.guesses@.len() - k,
        {
            let (_, (guess, result)) = self.guesses[k];
            if !(matches!(result, KiraGuessResult::Correct) || matches!(guess, KiraGuess::NoGuess))
            {
                return false;
            }
            k = k + 1;
        }
        true
    }
}

/// The sheet of guesses Kira submits as an ability input.
#[derive(Clone, Debug)]
pub struct KiraAbilityInput(pub Vec<(PlayerIndex, KiraGuess)>);

/// Kira's persistent state: the current sheet of guesses.
#[derive(Clone, Debug)]
pub struct Kira {
    pub guesses: Vec<(PlayerIndex, KiraGuess)>,
}

impl Kira {
    /// Whether Kira may keep a guess slot for the player: everyone living
    /// except Kira themselves.
    pub fn allowed_to_guess(kira_player: PlayerIndex, player: PlayerIndex, game: &Game) -> (r:
        bool)
        requires
            player < game.n(),
        ensures
            r == (game.players@[player as int].alive && player != kira_player),
    {
        game.players[player].alive && player != kira_player
    }

    /// Rebuild Kira's sheet so it has exactly one slot per allowed player:
    /// stale slots fall away and newly allowed players get an empty guess.
    pub fn set_guesses(kira_player: PlayerIndex, game: &mut Game)
        requires
            kira_player < old(game).n(),
            old(game).wf(),
        ensures
            final(game).wf(),
            crate::actions::night_action_frame(*old(game), *final(game)),
            forall|j: int|
                0 <= j < old(game).n() ==> spec_role_of(
                    (#[trigger] final(game).players@[j]).role_state,
                ) == spec_role_of(old(game).players@[j].role_state),
    {
        let guesses = match &game.players[kira_player].role_state {
            RoleState::Kira(k) => crate::actions::copy_vec(&k.guesses),
            _ => {
                return ;
            },
        };
        let n = game.players.len();
        let mut kept: Vec<(PlayerIndex, KiraGuess)> = Vec::new();
        let mut k: usize = 0;
        while k < guesses.len()
            invariant
                n == game.n(),
                kira_player < n,
                forall|m: int| 0 <= m < kept@.len() ==> (#[trigger] kept@[m]).0 < n,
            decreases guesses@.len() - k,
        {
            let (p, g) = guesses[k];
            if p < n && Kira::allowed_to_guess(kira_player, p, game) {
                let mut already = false;
                let mut t: usize = 0;
                while t < kept.len()
                    decreases kept.len() - t,
                {
                    if kept[t].0 == p {
                        already = true;
                        break ;
                    }
                    t = t + 1;
                }
                if !already {
                    kept.push((p, g));
                }
            }
            k = k + 1;
        }
        let mut p: usize = 0;
        while p < n
            invariant
                n == game.n(),
                kira_player < n,
                forall|m: int| 0 <= m < kept@.len() ==> (#[trigger] kept@[m]).0 < n,
            decreases n - p,
        {
            if Kira::allowed_to_guess(kira_player, p, game) {
                let mut already = false;
                let mut t: usize = 0;
                while t < kept.len()
                    decreases kept.len() - t,
                {
                    if kept[t].0 == p {
                        already = true;
                        break ;
                    }
                    t = t + 1;
                }
                if !already {
                    kept.push((p, KiraGuess::NoGuess));
                }
            }
            p = p + 1;
        }
        game.set_role_state(kira_player, RoleState::Kira(Kira { guesses: kept }));
    }
}

} // verus!
