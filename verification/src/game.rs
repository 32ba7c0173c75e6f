//! The game state: the single mutable world every role action runs against.

use vstd::prelude::*;

use crate::chat::{ChatMessage, ChatMessageVariant, NightInformation, PlayerGroup};
use crate::grave::{Grave, GraveKiller, GraveRole};
use crate::phase::PhaseStateMachine;
use crate::player::{Player, PlayerNightVariables};
use crate::power::{spec_defense_max, AttackPower, DefensePower};
use crate::role::Role;
use crate::role_state::{spec_role_of, RoleState};
use crate::settings::Settings;
use crate::visit::{visits_in_bounds, PlayerIndex, Visit};

verus! {

/// Who a queued chat message is addressed to.
#[derive(Clone, Copy, Debug, PartialEq, Eq, Structural)]
pub enum MessageRecipient {
    Player(PlayerIndex),
    Group(PlayerGroup),
}

/// A chat message waiting to be delivered by the chat collaborator.
#[derive(Debug)]
pub struct QueuedMessage {
    pub recipient: MessageRecipient,
    pub message: ChatMessage,
}

/// Players the arsonist's gasoline currently covers.
#[derive(Clone, Debug)]
pub struct ArsonistDoused {
    pub doused_players: Vec<PlayerIndex>,
}

/// The whole game: one exclusively owned mutable structure.  Role actions
/// receive it by unique reference for the duration of one call, which is
/// what makes the night's sequential resolution discipline sound.
#[derive(Debug)]
pub struct Game {
    pub settings: Settings,
    pub players: Vec<Player>,
    pub graves: Vec<Grave>,
    pub phase_machine: PhaseStateMachine,
    pub arsonist_doused: ArsonistDoused,
    pub queued_messages: Vec<QueuedMessage>,
    pub player_on_trial: Option<PlayerIndex>,
    pub trials_left: u8,
}

/// An optional player reference stays inside a roster of `n` players.
pub open spec fn opt_in_bounds(o: Option<PlayerIndex>, n: int) -> bool {
    o matches Some(i) ==> i < n
}

/// Every index in the sequence stays inside a roster of `n` players.
pub open spec fn idxs_in_bounds(s: Seq<PlayerIndex>, n: int) -> bool {
    forall|j: int| 0 <= j < s.len() ==> (#[trigger] s[j]) < n
}

/// Every player reference a role state stores stays inside the roster.
pub open spec fn role_state_in_bounds(s: RoleState, n: int) -> bool {
    match s {
        RoleState::Doctor(d) => opt_in_bounds(d.target_healed_ref, n),
        RoleState::Bodyguard(b) => opt_in_bounds(b.target_protected_ref, n) && idxs_in_bounds(
            b.redirected_player_refs@,
            n,
        ),
        RoleState::Engineer(e) => e.trap matches crate::role_state::Trap::Armed { target }
            ==> target < n,
        RoleState::Marksman(m) => idxs_in_bounds(crate::role_state::spec_state_marks(m.state), n),
        RoleState::Medium(m) => opt_in_bounds(m.seanced_target, n),
        RoleState::Retributionist(r) => opt_in_bounds(r.currently_used_player, n)
            && idxs_in_bounds(r.used_bodies@, n),
        RoleState::Jailor(j) => opt_in_bounds(j.jailed_target_ref, n),
        RoleState::Godfather(g) => opt_in_bounds(g.backup, n),
        RoleState::Mortician(m) => idxs_in_bounds(m.obscured_players@, n),
        RoleState::Janitor(j) => opt_in_bounds(j.cleaned_ref, n),
        RoleState::Jester(j) => opt_in_bounds(j.night_selection, n),
        RoleState::Minion(m) => opt_in_bounds(m.currently_used_player, n),
        RoleState::Kidnapper(k) => opt_in_bounds(k.jailed_target_ref, n),
        RoleState::Kira(k) => forall|j: int|
            0 <= j < k.guesses@.len() ==> (#[trigger] k.guesses@[j]).0 < n,
        _ => true,
    }
}

/// Every player reference this player stores stays inside the roster.
pub open spec fn player_wf(p: Player, n: int) -> bool {
    &&& visits_in_bounds(p.night_variables.visits@, n)
    &&& visits_in_bounds(p.night_variables.appeared_visits@, n)
    &&& idxs_in_bounds(p.night_variables.selection@, n)
    &&& opt_in_bounds(p.voting_variables.chosen_vote, n)
    &&& role_state_in_bounds(p.role_state, n)
}

/// Everything of the game except the player list is unchanged.
pub open spec fn non_player_fields_unchanged(oldg: Game, newg: Game) -> bool {
    &&& newg.players@.len() == oldg.players@.len()
    &&& newg.settings == oldg.settings
    &&& newg.graves == oldg.graves
    &&& newg.phase_machine == oldg.phase_machine
    &&& newg.arsonist_doused == oldg.arsonist_doused
    &&& newg.queued_messages == oldg.queued_messages
    &&& newg.player_on_trial == oldg.player_on_trial
    &&& newg.trials_left == oldg.trials_left
}

/// The game changed in nothing but (possibly) the one player named.
pub open spec fn only_players_changed(oldg: Game, newg: Game, i: int) -> bool {
    &&& non_player_fields_unchanged(oldg, newg)
    &&& forall|j: int|
        0 <= j < oldg.players@.len() && j != i ==> newg.players@[j] == oldg.players@[j]
}

/// The game changed in nothing but (possibly) the two players named.
pub open spec fn only_players_changed2(oldg: Game, newg: Game, i1: int, i2: int) -> bool {
    &&& non_player_fields_unchanged(oldg, newg)
    &&& forall|j: int|
        0 <= j < oldg.players@.len() && j != i1 && j != i2 ==> newg.players@[j]
            == oldg.players@[j]
}

/// The player changed in nothing but (possibly) the night scratch state.
pub open spec fn same_player_except_night(oldp: Player, newp: Player) -> bool {
    newp == (Player { night_variables: newp.night_variables, ..oldp })
}

/// The night state changed in nothing but (possibly) the defense.
pub open spec fn nv_eq_except_defense(a: PlayerNightVariables, b: PlayerNightVariables) -> bool {
    b == (PlayerNightVariables { defense: b.defense, ..a })
}

/// The night state changed in nothing but (possibly) the message list.
pub open spec fn nv_eq_except_messages(a: PlayerNightVariables, b: PlayerNightVariables) -> bool {
    b == (PlayerNightVariables { messages: b.messages, ..a })
}

/// The night state changed in nothing but (possibly) the visits.
pub open spec fn nv_eq_except_visits(a: PlayerNightVariables, b: PlayerNightVariables) -> bool {
    b == (PlayerNightVariables { visits: b.visits, ..a })
}

/// The night state changed in nothing but (possibly) the fields the kill
/// path touches: the attacked and died flags, the killer list, the death
/// notes, and the messages.
pub open spec fn nv_eq_except_kill_fields(
    a: PlayerNightVariables,
    b: PlayerNightVariables,
) -> bool {
    b == (PlayerNightVariables {
        attacked: b.attacked,
        died: b.died,
        grave_killers: b.grave_killers,
        grave_death_notes: b.grave_death_notes,
        messages: b.messages,
        ..a
    })
}

impl Game {
    /// A fresh game: one player per seat, everyone alive with their role's
    /// starting state, the clock at the evening of day one, and each role's
    /// creation hook already run.
    pub fn new(settings: Settings, seats: Vec<(String, Role)>) -> (g: Game)
        ensures
            g.wf(),
            g.n() == seats@.len(),
            forall|i: int|
                0 <= i < seats@.len() ==> {
                    &&& spec_role_of((#[trigger] g.players@[i]).role_state) == seats@[i].1
                    &&& g.players@[i].alive
                    &&& g.players@[i].name == seats@[i].0
                },
            g.phase_machine.current_state is Evening,
            g.phase_machine.day_number == 1,
            g.graves@.len() == 0,
    {
        let ghost all_seats = seats@;
        let mut rest = seats;
        let mut players: Vec<Player> = Vec::new();
        while rest.len() > 0
            invariant
                players@.len() + rest@.len() == all_seats.len(),
                rest@ == all_seats.skip(players@.len() as int),
                forall|m: int|
                    0 <= m < players@.len() ==> {
                        &&& spec_role_of((#[trigger] players@[m]).role_state) == all_seats[m].1
                        &&& players@[m].alive
                        &&& players@[m].name == all_seats[m].0
                        &&& forall|n2: int| #[trigger] player_wf(players@[m], n2)
                    },
            decreases rest@.len(),
        {
            let (name, role) = rest.remove(0);
            proof {
                assert(all_seats[players@.len() as int] == (name, role));
            }
            players.push(Player::new(name, role));
            proof {
                assert(rest@ =~= all_seats.skip(players@.len() as int));
            }
        }
        let phase_machine = PhaseStateMachine::new(&settings.phase_times);
        let mut game = Game {
            settings,
            players,
            graves: Vec::new(),
            phase_machine,
            arsonist_doused: ArsonistDoused { doused_players: Vec::new() },
            queued_messages: Vec::new(),
            player_on_trial: None,
            trials_left: 3,
        };
        let n = game.players.len();
        let mut i: usize = 0;
        while i < n
            invariant
                game.wf(),
                game.n() == n,
                n == all_seats.len(),
                game.phase_machine.current_state is Evening,
                game.phase_machine.day_number == 1,
                game.graves@.len() == 0,
                forall|m: int|
                    0 <= m < n ==> {
                        &&& spec_role_of((#[trigger] game.players@[m]).role_state)
                            == all_seats[m].1
                        &&& game.players@[m].alive
                        &&& game.players@[m].name == all_seats[m].0
                    },
            decreases n - i,
        {
            crate::actions::on_role_creation(&mut game, i);
            i = i + 1;
        }
        game
    }

    /// Number of seated players.
    pub open spec fn n(self) -> int {
        self.players@.len() as int
    }

    /// Every stored player reference is a real seat.
    pub open spec fn wf(self) -> bool {
        &&& forall|i: int| 0 <= i < self.n() ==> player_wf(#[trigger] self.players@[i], self.n())
        &&& opt_in_bounds(self.player_on_trial, self.n())
        &&& idxs_in_bounds(self.arsonist_doused.doused_players@, self.n())
    }

    /// Number of seated players.
    pub fn num_players(&self) -> (r: usize)
        ensures
            r == self.n(),
    {
        self.players.len()
    }

    /// The day the game is on.
    pub fn day_number(&self) -> (r: u8)
        ensures
            r == self.phase_machine.day_number,
    {
        self.phase_machine.day_number
    }

    /// Whether the player is alive.
    pub fn alive(&self, i: PlayerIndex) -> (r: bool)
        requires
            i < self.n(),
        ensures
            r == self.players@[i as int].alive,
    {
        self.players[i].alive
    }

    /// The role the player holds.
    pub fn role(&self, i: PlayerIndex) -> (r: Role)
        requires
            i < self.n(),
        ensures
            r == spec_role_of(self.players@[i as int].role_state),
    {
        self.players[i].role_state.role()
    }

    /// The player's accumulated defense tonight.
    pub fn night_defense(&self, i: PlayerIndex) -> (r: DefensePower)
        requires
            i < self.n(),
        ensures
            r == self.players@[i as int].night_variables.defense,
    {
        self.players[i].night_variables.defense
    }

    /// Whether the player already died tonight.
    pub fn night_died(&self, i: PlayerIndex) -> (r: bool)
        requires
            i < self.n(),
        ensures
            r == self.players@[i as int].night_variables.died,
    {
        self.players[i].night_variables.died
    }

    /// Whether the player was attacked tonight.
    pub fn night_attacked(&self, i: PlayerIndex) -> (r: bool)
        requires
            i < self.n(),
        ensures
            r == self.players@[i as int].night_variables.attacked,
    {
        self.players[i].night_variables.attacked
    }

    /// Whether the player is jailed tonight.
    pub fn night_jailed(&self, i: PlayerIndex) -> (r: bool)
        requires
            i < self.n(),
        ensures
            r == self.players@[i as int].night_variables.jailed,
    {
        self.players[i].night_variables.jailed
    }

    /// Whether the player is blocked tonight: roleblocked or jailed.
    pub fn night_blocked(&self, i: PlayerIndex) -> (r: bool)
        requires
            i < self.n(),
        ensures
            r == crate::player::spec_night_blocked(self.players@[i as int]),
    {
        self.players[i].night_variables.roleblocked || self.players[i].night_variables.jailed
    }

    /// A private mutable window on one player; everything else of the game
    /// stays as it was.
    fn player_mut(&mut self, i: PlayerIndex) -> (r: &mut Player)
        requires
            i < old(self).n(),
        ensures
            *r == old(self).players@[i as int],
            final(self).players@ == old(self).players@.update(i as int, *final(r)),
            only_players_changed(*old(self), *final(self), i as int),
    {
        &mut self.players[i]
    }

    /// Raise the player's defense to the given strength if that is higher;
    /// never lowers it.  This is the only way defense changes during a
    /// night, which is what makes accumulated defense monotone.
    pub fn increase_defense_to(&mut self, i: PlayerIndex, p: DefensePower)
        requires
            i < old(self).n(),
        ensures
            old(self).wf() ==> final(self).wf(),
            only_players_changed(*old(self), *final(self), i as int),
            same_player_except_night(old(self).players@[i as int], final(self).players@[i as int]),
            nv_eq_except_defense(
                old(self).players@[i as int].night_variables,
                final(self).players@[i as int].night_variables,
            ),
            final(self).players@[i as int].night_variables.defense == spec_defense_max(
                old(self).players@[i as int].night_variables.defense,
                p,
            ),
    {
        let player = self.player_mut(i);
        let raised = player.night_variables.defense.max_with(p);
        player.night_variables.defense = raised;
    }

    /// Record one piece of night information on the player.
    pub fn push_night_message(&mut self, i: PlayerIndex, info: NightInformation)
        requires
            i < old(self).n(),
        ensures
            old(self).wf() ==> final(self).wf(),
            only_players_changed(*old(self), *final(self), i as int),
            same_player_except_night(old(self).players@[i as int], final(self).players@[i as int]),
            nv_eq_except_messages(
                old(self).players@[i as int].night_variables,
                final(self).players@[i as int].night_variables,
            ),
            final(self).players@[i as int].night_variables.messages@ == old(
                self,
            ).players@[i as int].night_variables.messages@.push(info),
    {
        let player = self.player_mut(i);
        player.night_variables.messages.push(info);
    }

    /// Replace the player's visits; redirecting roles use this during the
    /// stages before kills resolve.
    pub fn set_night_visits(&mut self, i: PlayerIndex, visits: Vec<Visit>)
        requires
            i < old(self).n(),
        ensures
            old(self).wf() && visits_in_bounds(visits@, old(self).n()) ==> final(self).wf(),
            only_players_changed(*old(self), *final(self), i as int),
            same_player_except_night(old(self).players@[i as int], final(self).players@[i as int]),
            nv_eq_except_visits(
                old(self).players@[i as int].night_variables,
                final(self).players@[i as int].night_variables,
            ),
            final(self).players@[i as int].night_variables.visits == visits,
    {
        let player = self.player_mut(i);
        player.night_variables.visits = visits;
    }

    /// Replace the player's role state.  The new state may not point
    /// outside the roster.
    pub fn set_role_state(&mut self, i: PlayerIndex, state: RoleState)
        requires
            i < old(self).n(),
            role_state_in_bounds(state, old(self).n()),
        ensures
            old(self).wf() ==> final(self).wf(),
            only_players_changed(*old(self), *final(self), i as int),
            final(self).players@[i as int] == (Player {
                role_state: state,
                ..old(self).players@[i as int]
            }),
    {
        let player = self.player_mut(i);
        player.role_state = state;
    }

    /// Queue a message for a whole group; the chat collaborator delivers.
    pub fn add_message_to_chat_group(&mut self, group: PlayerGroup, message: ChatMessage)
        ensures
            *final(self) == (Game { queued_messages: final(self).queued_messages, ..*old(self) }),
            final(self).queued_messages@ == old(self).queued_messages@.push(
                QueuedMessage { recipient: MessageRecipient::Group(group), message },
            ),
    {
        self.queued_messages.push(QueuedMessage {
            recipient: MessageRecipient::Group(group),
            message,
        });
    }

    /// Queue a message for one player; the chat collaborator delivers.
    pub fn add_chat_message(&mut self, i: PlayerIndex, message: ChatMessage)
        ensures
            *final(self) == (Game { queued_messages: final(self).queued_messages, ..*old(self) }),
            final(self).queued_messages@ == old(self).queued_messages@.push(
                QueuedMessage { recipient: MessageRecipient::Player(i), message },
            ),
    {
        self.queued_messages.push(QueuedMessage {
            recipient: MessageRecipient::Player(i),
            message,
        });
    }

    /// One kill attempt by one attacker against one player, with the given
    /// strength.
    ///
    /// Against a player already dead from an earlier phase this is a
    /// no-op reporting them dead.  Otherwise the target is marked attacked
    /// whatever happens.  If the target's accumulated defense blocks the
    /// attack and they had not already died tonight, both sides learn the
    /// attack was survived; against a target who already died tonight a
    /// blocked attack changes nothing further and still reports them dead.
    /// If the defense does not block, the killer's cause is appended to the
    /// target's grave killers (several attackers accumulate on the same
    /// future grave), and only the first fatal attack of the night sets the
    /// died flag and the death message.  Returns whether the target is dead
    /// (now or before).
    pub fn try_night_kill_single_attacker(
        &mut self,
        attacker: PlayerIndex,
        target: PlayerIndex,
        grave_killer: GraveKiller,
        attack: AttackPower,
        leave_death_note: bool,
    ) -> (dead: bool)
        requires
            attacker < old(self).n(),
            target < old(self).n(),
        ensures
            old(self).wf() ==> final(self).wf(),
            only_players_changed2(*old(self), *final(self), attacker as int, target as int),
            spec_kill_players(
                old(self).players@,
                final(self).players@,
                attacker as int,
                target as int,
                grave_killer,
                attack,
                leave_death_note,
                dead,
            ),
    {
        if !self.players[target].alive {
            return true;
        }
        let already_died = self.players[target].night_variables.died;
        let defense = self.players[target].night_variables.defense;
        let player = self.player_mut(target);
        player.night_variables.attacked = true;
        if defense.can_block(attack) {
            if already_died {
                return true;
            }
            player.night_variables.messages.push(NightInformation::YouSurvivedAttack);
            if attacker != target {
                let a = self.player_mut(attacker);
                a.night_variables.messages.push(NightInformation::SomeoneSurvivedYourAttack);
            }
            return false;
        }
        player.night_variables.grave_killers.push(grave_killer);
        if !already_died {
            player.night_variables.messages.push(NightInformation::YouDied);
            player.night_variables.died = true;
        }
        if leave_death_note {
            let note = match &self.players[attacker].death_note {
                Some(n) => Some(clone_string(n)),
                None => None,
            };
            if let Some(n) = note {
                let t = self.player_mut(target);
                t.night_variables.grave_death_notes.push(n);
            }
        }
        true
    }
}

/// The exact outcome of one kill attempt on the player list, seat by seat:
/// which seats may change, how the target's kill fields move for a blocked
/// and an unblocked attack, what each side is told, and that re-killing a
/// target who already died tonight reports them dead without a duplicate
/// death message or killer notification.
pub open spec fn spec_kill_players(
    ps: Seq<Player>,
    qs: Seq<Player>,
    attacker: int,
    target: int,
    grave_killer: GraveKiller,
    attack: AttackPower,
    leave_death_note: bool,
    dead: bool,
) -> bool {
    let oldt = ps[target];
    let newt = qs[target];
    let blocked = crate::power::attack_level(attack) <= crate::power::defense_level(
        oldt.night_variables.defense,
    );
    &&& qs.len() == ps.len()
    &&& forall|j: int| 0 <= j < ps.len() && j != attacker && j != target ==> qs[j] == ps[j]
    &&& (!oldt.alive ==> qs == ps && dead)
    &&& (oldt.alive ==> {
        &&& same_player_except_night(oldt, newt)
        &&& nv_eq_except_kill_fields(oldt.night_variables, newt.night_variables)
        &&& newt.night_variables.attacked
        &&& dead == (oldt.night_variables.died || !blocked)
        &&& newt.night_variables.died == (oldt.night_variables.died || !blocked)
        &&& (blocked ==> {
            &&& newt.night_variables.grave_killers == oldt.night_variables.grave_killers
            &&& newt.night_variables.grave_death_notes == oldt.night_variables.grave_death_notes
            &&& newt.night_variables.messages@ == if oldt.night_variables.died {
                oldt.night_variables.messages@
            } else {
                oldt.night_variables.messages@.push(NightInformation::YouSurvivedAttack)
            }
            &&& attacker != target ==> qs[attacker].night_variables.messages@ == if oldt.night_variables.died {
                ps[attacker].night_variables.messages@
            } else {
                ps[attacker].night_variables.messages@.push(
                    NightInformation::SomeoneSurvivedYourAttack,
                )
            }
        })
        &&& (!blocked ==> {
            &&& newt.night_variables.grave_killers@ == oldt.night_variables.grave_killers@.push(
                grave_killer,
            )
            &&& newt.night_variables.messages@ == if oldt.night_variables.died {
                oldt.night_variables.messages@
            } else {
                oldt.night_variables.messages@.push(NightInformation::YouDied)
            }
            &&& newt.night_variables.grave_death_notes@ == if leave_death_note
                && ps[attacker].death_note is Some {
                oldt.night_variables.grave_death_notes@.push(ps[attacker].death_note->0)
            } else {
                oldt.night_variables.grave_death_notes@
            }
            &&& attacker != target ==> qs[attacker] == ps[attacker]
        })
        &&& (blocked && attacker != target ==> {
            let olda = ps[attacker];
            let newa = qs[attacker];
            same_player_except_night(olda, newa) && nv_eq_except_messages(
                olda.night_variables,
                newa.night_variables,
            )
        })
    })
}

/// Whether a trial vote is accepted: it differs from the standing vote, the
/// voter is alive and not silenced, and a named votee is another living
/// player of the roster.
pub open spec fn spec_vote_accepted(g: Game, i: PlayerIndex, chosen_vote: Option<
    PlayerIndex,
>) -> bool {
    let p = g.players@[i as int];
    &&& chosen_vote != p.voting_variables.chosen_vote
    &&& p.alive
    &&& !p.night_variables.silenced
    &&& (chosen_vote matches Some(t) ==> t != i && t < g.n() && g.players@[t as int].alive)
}

/// The message announcing a jailing, and where it goes: to the jailed
/// player's own insider chat group — the mafia's or the cult's, by their
/// faction — or privately to the player when they have none.
pub open spec fn spec_jail_announcement(p: Player, i: PlayerIndex) -> QueuedMessage {
    let variant = ChatMessageVariant::NightInformation {
        night_information: NightInformation::JailedSomeone { player_index: i },
    };
    match crate::role::spec_faction(spec_role_of(p.role_state)) {
        crate::role::Faction::Mafia => QueuedMessage {
            recipient: MessageRecipient::Group(PlayerGroup::Mafia),
            message: ChatMessage { variant, chat_group: Some(PlayerGroup::Mafia) },
        },
        crate::role::Faction::Cult => QueuedMessage {
            recipient: MessageRecipient::Group(PlayerGroup::Cult),
            message: ChatMessage { variant, chat_group: Some(PlayerGroup::Cult) },
        },
        _ => QueuedMessage {
            recipient: MessageRecipient::Player(i),
            message: ChatMessage { variant, chat_group: None },
        },
    }
}

impl Game {
    /// Set or clear the player's jailed flag for tonight.  A jailing is
    /// announced with exactly one message naming the jailed player,
    /// delivered to their insider chat group, or privately to them when
    /// they have none; clearing the flag announces nothing.
    pub fn set_night_jailed(&mut self, i: PlayerIndex, jailed: bool)
        requires
            i < old(self).n(),
        ensures
            old(self).wf() ==> final(self).wf(),
            final(self).players@ == old(self).players@.update(
                i as int,
                (Player {
                    night_variables: (PlayerNightVariables {
                        jailed,
                        ..old(self).players@[i as int].night_variables
                    }),
                    ..old(self).players@[i as int]
                }),
            ),
            *final(self) == (Game {
                players: final(self).players,
                queued_messages: final(self).queued_messages,
                ..*old(self)
            }),
            final(self).queued_messages@ == if jailed {
                old(self).queued_messages@.push(
                    spec_jail_announcement(old(self).players@[i as int], i),
                )
            } else {
                old(self).queued_messages@
            },
    {
        if jailed {
            let variant = ChatMessageVariant::NightInformation {
                night_information: NightInformation::JailedSomeone { player_index: i },
            };
            match self.players[i].role_state.role().faction() {
                crate::role::Faction::Mafia => {
                    self.add_message_to_chat_group(
                        PlayerGroup::Mafia,
                        ChatMessage::new_non_private(variant, PlayerGroup::Mafia),
                    );
                },
                crate::role::Faction::Cult => {
                    self.add_message_to_chat_group(
                        PlayerGroup::Cult,
                        ChatMessage::new_non_private(variant, PlayerGroup::Cult),
                    );
                },
                _ => {
                    self.add_chat_message(i, ChatMessage::new_private(variant));
                },
            }
        }
        let player = self.player_mut(i);
        player.night_variables.jailed = jailed;
    }

    /// Set the role that will be shown on the player's grave tonight.
    pub fn set_night_grave_role(&mut self, i: PlayerIndex, grave_role: GraveRole)
        requires
            i < old(self).n(),
        ensures
            old(self).wf() ==> final(self).wf(),
            only_players_changed(*old(self), *final(self), i as int),
            final(self).players@[i as int] == (Player {
                night_variables: (PlayerNightVariables {
                    grave_role,
                    ..old(self).players@[i as int].night_variables
                }),
                ..old(self).players@[i as int]
            }),
    {
        let player = self.player_mut(i);
        player.night_variables.grave_role = grave_role;
    }

    /// Set the will that will be shown on the player's grave tonight.
    pub fn set_night_grave_will(&mut self, i: PlayerIndex, grave_will: String)
        requires
            i < old(self).n(),
        ensures
            old(self).wf() ==> final(self).wf(),
            only_players_changed(*old(self), *final(self), i as int),
            final(self).players@[i as int] == (Player {
                night_variables: (PlayerNightVariables {
                    grave_will,
                    ..old(self).players@[i as int].night_variables
                }),
                ..old(self).players@[i as int]
            }),
    {
        let player = self.player_mut(i);
        player.night_variables.grave_will = grave_will;
    }

    /// Silence the player; a silenced player learns of it at once.
    pub fn set_night_silenced(&mut self, i: PlayerIndex, silenced: bool)
        requires
            i < old(self).n(),
        ensures
            old(self).wf() ==> final(self).wf(),
            only_players_changed(*old(self), *final(self), i as int),
            final(self).players@[i as int] == (Player {
                night_variables: (PlayerNightVariables {
                    silenced,
                    messages: final(self).players@[i as int].night_variables.messages,
                    ..old(self).players@[i as int].night_variables
                }),
                ..old(self).players@[i as int]
            }),
            final(self).players@[i as int].night_variables.messages@ == if silenced {
                old(self).players@[i as int].night_variables.messages@.push(
                    NightInformation::Silenced,
                )
            } else {
                old(self).players@[i as int].night_variables.messages@
            },
    {
        let player = self.player_mut(i);
        player.night_variables.silenced = silenced;
        if silenced {
            player.night_variables.messages.push(NightInformation::Silenced);
        }
    }

    /// Mark the player as framed: investigators see them as suspicious.
    pub fn set_night_appeared_suspicious(&mut self, i: PlayerIndex, suspicious: bool)
        requires
            i < old(self).n(),
        ensures
            old(self).wf() ==> final(self).wf(),
            only_players_changed(*old(self), *final(self), i as int),
            final(self).players@[i as int] == (Player {
                night_variables: (PlayerNightVariables {
                    appeared_suspicious: suspicious,
                    ..old(self).players@[i as int].night_variables
                }),
                ..old(self).players@[i as int]
            }),
    {
        let player = self.player_mut(i);
        player.night_variables.appeared_suspicious = suspicious;
    }

    /// Set whether the player is alive; deaths take effect here when the
    /// morning materializes them.
    pub fn set_alive(&mut self, i: PlayerIndex, alive: bool)
        requires
            i < old(self).n(),
        ensures
            old(self).wf() ==> final(self).wf(),
            only_players_changed(*old(self), *final(self), i as int),
            final(self).players@[i as int] == (Player {
                alive,
                ..old(self).players@[i as int]
            }),
    {
        let player = self.player_mut(i);
        player.alive = alive;
    }

    /// Let `owner` see `about`'s role in their player list: afterwards the
    /// list holds `about`, appended at the end unless it was already there.
    pub fn insert_role_label(&mut self, owner: PlayerIndex, about: PlayerIndex)
        requires
            owner < old(self).n(),
        ensures
            old(self).wf() ==> final(self).wf(),
            only_players_changed(*old(self), *final(self), owner as int),
            final(self).players@[owner as int] == (Player {
                role_labels: final(self).players@[owner as int].role_labels,
                ..old(self).players@[owner as int]
            }),
            final(self).players@[owner as int].role_labels@ == if old(
                self,
            ).players@[owner as int].role_labels@.contains(about) {
                old(self).players@[owner as int].role_labels@
            } else {
                old(self).players@[owner as int].role_labels@.push(about)
            },
            final(self).players@[owner as int].role_labels@.contains(about),
    {
        let labels = &self.players[owner].role_labels;
        let mut k: usize = 0;
        while k < labels.len()
            invariant
                k <= labels@.len(),
                *self == *old(self),
                labels@ == self.players@[owner as int].role_labels@,
                owner < self.n(),
                forall|m: int| 0 <= m < k ==> labels@[m] != about,
            decreases labels.len() - k,
        {
            if labels[k] == about {
                return ;
            }
            k = k + 1;
        }
        let player = self.player_mut(owner);
        player.role_labels.push(about);
        proof {
            assert(self.players@[owner as int].role_labels@.last() == about);
        }
    }

    /// Commit a player's trial vote: the vote is accepted exactly when it
    /// differs from the standing one, the voter is alive and not silenced,
    /// and a named votee is another living player.  A rejected vote clears
    /// the standing one; an accepted vote replaces it and, when asked to,
    /// is announced to everyone.
    pub fn set_chosen_vote(
        &mut self,
        i: PlayerIndex,
        chosen_vote: Option<PlayerIndex>,
        send_chat_message: bool,
    ) -> (changed: bool)
        requires
            i < old(self).n(),
        ensures
            old(self).wf() && opt_in_bounds(chosen_vote, old(self).n()) ==> final(self).wf(),
            changed == spec_vote_accepted(*old(self), i, chosen_vote),
            final(self).players@ == old(self).players@.update(
                i as int,
                (Player {
                    voting_variables: (crate::player::PlayerVotingVariables {
                        chosen_vote: if changed {
                            chosen_vote
                        } else {
                            None
                        },
                        ..old(self).players@[i as int].voting_variables
                    }),
                    ..old(self).players@[i as int]
                }),
            ),
            *final(self) == (Game {
                players: final(self).players,
                queued_messages: final(self).queued_messages,
                ..*old(self)
            }),
            final(self).queued_messages@ == if changed && send_chat_message {
                old(self).queued_messages@.push(
                    QueuedMessage {
                        recipient: MessageRecipient::Group(PlayerGroup::All),
                        message: ChatMessage {
                            variant: ChatMessageVariant::Voted { voter: i, votee: chosen_vote },
                            chat_group: Some(PlayerGroup::All),
                        },
                    },
                )
            } else {
                old(self).queued_messages@
            },
    {
        let same = match (self.players[i].voting_variables.chosen_vote, chosen_vote) {
            (None, None) => true,
            (Some(a), Some(b)) => a == b,
            _ => false,
        };
        let reject = same || !self.players[i].alive || self.players[i].night_variables.silenced
            || (match chosen_vote {
            Some(t) => t == i || t >= self.players.len() || !self.players[t].alive,
            None => false,
        });
        if reject {
            let player = self.player_mut(i);
            player.voting_variables.chosen_vote = None;
            return false;
        }
        let player = self.player_mut(i);
        player.voting_variables.chosen_vote = chosen_vote;
        if send_chat_message {
            self.add_message_to_chat_group(
                PlayerGroup::All,
                ChatMessage::new_non_private(
                    ChatMessageVariant::Voted { voter: i, votee: chosen_vote },
                    PlayerGroup::All,
                ),
            );
        }
        true
    }

    /// Take the player's accumulated night messages, leaving none behind;
    /// the night's message flush moves them into the chat queue.
    pub fn drain_night_messages(&mut self, i: PlayerIndex) -> (r: Vec<NightInformation>)
        requires
            i < old(self).n(),
        ensures
            old(self).wf() ==> final(self).wf(),
            only_players_changed(*old(self), *final(self), i as int),
            same_player_except_night(old(self).players@[i as int], final(self).players@[i as int]),
            nv_eq_except_messages(
                old(self).players@[i as int].night_variables,
                final(self).players@[i as int].night_variables,
            ),
            final(self).players@[i as int].night_variables.messages@.len() == 0,
            r@ == old(self).players@[i as int].night_variables.messages@,
    {
        let mut taken: Vec<NightInformation> = Vec::new();
        let player = self.player_mut(i);
        core::mem::swap(&mut taken, &mut player.night_variables.messages);
        taken
    }

    /// Replace the player's committed selection; the caller has validated
    /// each target.
    pub fn set_selection(&mut self, i: PlayerIndex, selection: Vec<PlayerIndex>)
        requires
            i < old(self).n(),
        ensures
            old(self).wf() && idxs_in_bounds(selection@, old(self).n()) ==> final(self).wf(),
            only_players_changed(*old(self), *final(self), i as int),
            final(self).players@[i as int] == (Player {
                night_variables: (PlayerNightVariables {
                    selection,
                    ..old(self).players@[i as int].night_variables
                }),
                ..old(self).players@[i as int]
            }),
    {
        let player = self.player_mut(i);
        player.night_variables.selection = selection;
    }

    /// Replace the player's whole night scratch state; night entry rebuilds
    /// it rather than patching it.  The new state's stored references must
    /// stay inside the roster.
    pub fn replace_night_variables(&mut self, i: PlayerIndex, nv: PlayerNightVariables)
        requires
            i < old(self).n(),
            visits_in_bounds(nv.visits@, old(self).n()),
            visits_in_bounds(nv.appeared_visits@, old(self).n()),
            idxs_in_bounds(nv.selection@, old(self).n()),
        ensures
            old(self).wf() ==> final(self).wf(),
            only_players_changed(*old(self), *final(self), i as int),
            final(self).players@[i as int] == (Player {
                night_variables: nv,
                ..old(self).players@[i as int]
            }),
    {
        let player = self.player_mut(i);
        player.night_variables = nv;
    }

    /// Roleblock the player; returns whether the role could be blocked.  An
    /// immune role only learns of the attempt; anyone else is flagged as
    /// blocked and their visits are cancelled, so every later stage sees
    /// them doing nothing.  When asked to, the player is told of the block
    /// with exactly one message carrying whether they were immune.
    pub fn roleblock(&mut self, i: PlayerIndex, send_message: bool) -> (blockable: bool)
        requires
            i < old(self).n(),
        ensures
            old(self).wf() ==> final(self).wf(),
            only_players_changed(*old(self), *final(self), i as int),
            same_player_except_night(old(self).players@[i as int], final(self).players@[i as int]),
            blockable == !crate::role::spec_roleblock_immune(
                spec_role_of(old(self).players@[i as int].role_state),
            ),
            final(self).players@[i as int].night_variables.messages@ == if send_message {
                old(self).players@[i as int].night_variables.messages@.push(
                    NightInformation::RoleBlocked { immune: !blockable },
                )
            } else {
                old(self).players@[i as int].night_variables.messages@
            },
            !blockable ==> final(self).players@[i as int].night_variables
                == (PlayerNightVariables {
                messages: final(self).players@[i as int].night_variables.messages,
                ..old(self).players@[i as int].night_variables
            }),
            blockable ==> {
                &&& final(self).players@[i as int].night_variables.roleblocked
                &&& final(self).players@[i as int].night_variables.visits@.len() == 0
                &&& final(self).players@[i as int].night_variables == (PlayerNightVariables {
                    roleblocked: true,
                    visits: final(self).players@[i as int].night_variables.visits,
                    messages: final(self).players@[i as int].night_variables.messages,
                    ..old(self).players@[i as int].night_variables
                })
            },
    {
        let immune = self.players[i].role_state.role().roleblock_immune();
        let player = self.player_mut(i);
        if immune {
            if send_message {
                player.night_variables.messages.push(NightInformation::RoleBlocked {
                    immune: true,
                });
            }
        } else {
            player.night_variables.roleblocked = true;
            player.night_variables.visits = Vec::new();
            if send_message {
                player.night_variables.messages.push(NightInformation::RoleBlocked {
                    immune: false,
                });
            }
        }
        !immune
    }
}

/// Duplicates a string; the standard library promises an equal value.
pub fn clone_string(s: &String) -> (r: String)
    ensures
        r == *s,
{
    s.clone()
}

} // verus!
