//! The day/night phase cycle and its state machine, including the night
//! resolver: the double loop that runs every priority stage to completion
//! across all players before the next stage begins.

use vstd::prelude::*;

use crate::actions::{do_night_action, night_action_frame, night_entry_reset_player, on_phase_start};
use crate::chat::{night_information_to_chat_messages, ChatMessage, ChatMessageVariant,
    PlayerGroup};
use crate::game::{clone_string, Game};
use crate::grave::{count_graves_for, Grave, GraveKiller, GravePhase, GraveRole};
use crate::player::{count_died, Verdict};
use crate::priority::Priority;
use crate::role::Role;
use crate::role_state::{Jester, RoleState};
use crate::settings::PhaseTimeSettings;
use crate::visit::PlayerIndex;

verus! {

/// The phases a game cycles through.  Night is where the resolver runs;
/// Morning is where the night's deaths are materialized.
#[derive(Clone, Copy, Debug, PartialEq, Eq, Structural)]
pub enum PhaseType {
    Morning,
    Discussion,
    Voting,
    Testimony,
    Judgement,
    Evening,
    Night,
}

impl PhaseType {
    /// The configured length of this phase, in seconds.
    pub fn get_length(&self, times: &PhaseTimeSettings) -> (r: u64)
        ensures
            r == crate::settings::spec_time_for(*times, *self),
    {
        times.get_time_for(*self)
    }

    /// Every phase but night counts as day.
    pub fn is_day(&self) -> (r: bool)
        ensures
            r == !(*self is Night),
    {
        !matches!(self, PhaseType::Night)
    }
}

/// The clock of the game: the current phase, the time left in it, and the
/// day count.
#[derive(Clone, Copy, Debug, PartialEq, Eq, Structural)]
pub struct PhaseStateMachine {
    pub time_remaining: u64,
    pub current_state: PhaseType,
    pub day_number: u8,
}

impl PhaseStateMachine {
    /// A machine starting in the evening of day one.
    pub fn new(times: &PhaseTimeSettings) -> (r: PhaseStateMachine)
        ensures
            r.current_state is Evening,
            r.day_number == 1,
            r.time_remaining == crate::settings::spec_time_for(*times, PhaseType::Evening),
    {
        let current_state = PhaseType::Evening;
        PhaseStateMachine {
            time_remaining: current_state.get_length(times),
            current_state,
            day_number: 1,
        }
    }
}

/// Copies a vector of strings; the copy holds equal strings.
fn clone_string_vec(v: &Vec<String>) -> (r: Vec<String>)
    ensures
        r@ == v@,
{
    let mut out: Vec<String> = Vec::new();
    let mut k: usize = 0;
    while k < v.len()
        invariant
            k <= v@.len(),
            out@ =~= v@.take(k as int),
        decreases v@.len() - k,
    {
        out.push(clone_string(&v[k]));
        proof {
            assert(out@ =~= v@.take(k + 1 as int));
        }
        k = k + 1;
    }
    proof {
        assert(v@.take(v@.len() as int) =~= v@);
    }
    out
}

/// Builds the grave a player's night bookkeeping calls for: the recorded
/// role, every killer that landed, the snapshotted will, and the death
/// notes left behind.
fn build_grave(game: &Game, i: PlayerIndex, day_number: u8) -> (g: Grave)
    requires
        i < game.n(),
    ensures
        g.player == i,
        g.role == game.players@[i as int].night_variables.grave_role,
        g.killers@ == game.players@[i as int].night_variables.grave_killers@,
        g.will == game.players@[i as int].night_variables.grave_will,
        g.death_notes@ == game.players@[i as int].night_variables.grave_death_notes@,
        g.died_phase is Night,
        g.day_number == day_number,
{
    let nv = &game.players[i].night_variables;
    Grave {
        player: i,
        role: nv.grave_role,
        killers: crate::actions::copy_vec(&nv.grave_killers),
        will: clone_string(&nv.grave_will),
        death_notes: clone_string_vec(&nv.grave_death_notes),
        died_phase: GravePhase::Night,
        day_number,
    }
}

/// A living mortician has marked the player for obscuring.
pub open spec fn spec_obscured_by_mortician(ps: Seq<crate::player::Player>, p: PlayerIndex) -> bool {
    exists|m: int|
        0 <= m < ps.len() && (#[trigger] ps[m]).alive && (ps[m].role_state matches
        RoleState::Mortician(st) && st.obscured_players@.contains(p))
}

/// Two graves carry the same record.
pub open spec fn grave_like(a: Grave, b: Grave) -> bool {
    &&& a.player == b.player
    &&& a.role == b.role
    &&& a.killers@ == b.killers@
    &&& a.will@ == b.will@
    &&& a.death_notes@ == b.death_notes@
    &&& a.died_phase == b.died_phase
    &&& a.day_number == b.day_number
}

/// The grave the morning builds for a player who died in the night, judged
/// against the roster as the morning found it: the recorded killers and
/// death notes verbatim, died at night on the given day, and the role and
/// will from the player's night fields — blanked out exactly when a living
/// mortician had marked the player.
pub open spec fn spec_materialized_grave(
    grave: Grave,
    ps: Seq<crate::player::Player>,
    day: u8,
) -> bool {
    let p = grave.player as int;
    &&& grave.player < ps.len()
    &&& grave.killers@ == ps[p].night_variables.grave_killers@
    &&& grave.death_notes@ == ps[p].night_variables.grave_death_notes@
    &&& grave.died_phase is Night
    &&& grave.day_number == day
    &&& if spec_obscured_by_mortician(ps, grave.player) {
        grave.role is Obscured && grave.will@.len() == 0
    } else {
        grave.role == ps[p].night_variables.grave_role && grave.will
            == ps[p].night_variables.grave_will
    }
}

/// The chat announcement of one grave: a player-died message carrying the
/// same record, addressed to everyone.
pub open spec fn spec_death_announcement(
    qm: crate::game::QueuedMessage,
    grave: Grave,
) -> bool {
    &&& qm.recipient == crate::game::MessageRecipient::Group(PlayerGroup::All)
    &&& qm.message.chat_group == Some(PlayerGroup::All)
    &&& qm.message.variant matches ChatMessageVariant::PlayerDied { grave: g } && grave_like(
        g,
        grave,
    )
}

/// Whether a living mortician has marked the player for obscuring.
fn obscured_by_mortician(game: &Game, p: PlayerIndex) -> (r: bool)
    requires
        p < game.n(),
    ensures
        r == spec_obscured_by_mortician(game.players@, p),
{
    let n = game.players.len();
    let mut m: usize = 0;
    while m < n
        invariant
            n == game.n(),
            forall|j: int|
                0 <= j < m ==> !((#[trigger] game.players@[j]).alive && (game.players@[j].role_state
                    matches RoleState::Mortician(st) && st.obscured_players@.contains(p))),
        decreases n - m,
    {
        if game.players[m].alive {
            if let RoleState::Mortician(state) = &game.players[m].role_state {
                let mut k: usize = 0;
                while k < state.obscured_players.len()
                    invariant
                        m < n,
                        n == game.n(),
                        game.players@[m as int].alive,
                        game.players@[m as int].role_state matches RoleState::Mortician(st)
                            && st.obscured_players@ == state.obscured_players@,
                        forall|j: int| 0 <= j < k ==> state.obscured_players@[j] != p,
                    decreases state.obscured_players.len() - k,
                {
                    if state.obscured_players[k] == p {
                        proof {
                            assert(state.obscured_players@.contains(p));
                            assert(spec_obscured_by_mortician(game.players@, p));
                        }
                        return true;
                    }
                    k = k + 1;
                }
                proof {
                    assert(!state.obscured_players@.contains(p));
                }
            }
        }
        m = m + 1;
    }
    false
}

/// Materialize the night's deaths as the morning begins: every player whose
/// died flag is set gets exactly one grave, carrying every killer that
/// landed on them, and stops being alive.  Each new grave holds the player's
/// recorded night fields — blanked where a living mortician marked them —
/// and is announced to everyone with exactly one player-died message, in the
/// order the graves were made.  Nobody else's grave count or liveness
/// changes, and the graves already standing stay untouched.
pub fn materialize_graves(game: &mut Game)
    requires
        old(game).wf(),
    ensures
        final(game).wf(),
        final(game).n() == old(game).n(),
        final(game).graves@.len() == old(game).graves@.len() + count_died(old(game).players@),
        final(game).graves@.take(old(game).graves@.len() as int) == old(game).graves@,
        forall|p: int|
            0 <= p < old(game).n() ==> count_graves_for(
                final(game).graves@.skip(old(game).graves@.len() as int),
                p,
            ) == if (#[trigger] old(game).players@[p]).night_variables.died && old(
                game,
            ).players@[p].alive {
                1int
            } else {
                0int
            },
        forall|p: int|
            0 <= p < old(game).n() ==> (#[trigger] final(game).players@[p]).alive == (old(
                game,
            ).players@[p].alive && !old(game).players@[p].night_variables.died),
        forall|g: int|
            old(game).graves@.len() <= g < final(game).graves@.len() ==> spec_materialized_grave(
                #[trigger] final(game).graves@[g],
                old(game).players@,
                old(game).phase_machine.day_number,
            ),
        final(game).queued_messages@.len() == old(game).queued_messages@.len()
            + (final(game).graves@.len() - old(game).graves@.len()),
        final(game).queued_messages@.take(old(game).queued_messages@.len() as int) == old(
            game,
        ).queued_messages@,
        forall|g: int|
            old(game).graves@.len() <= g < final(game).graves@.len() ==> spec_death_announcement(
                final(game).queued_messages@[old(game).queued_messages@.len() + g
                    - old(game).graves@.len()],
                #[trigger] final(game).graves@[g],
            ),
        final(game).phase_machine == old(game).phase_machine,
        final(game).settings == old(game).settings,
        final(game).player_on_trial == old(game).player_on_trial,
        final(game).trials_left == old(game).trials_left,
{
    let ghost g0 = *game;
    let ghost old_len = game.graves@.len() as int;
    let ghost q0_len = game.queued_messages@.len() as int;
    let n = game.players.len();
    let day = game.phase_machine.day_number;
    let mut obscured: Vec<bool> = Vec::new();
    let mut q: usize = 0;
    while q < n
        invariant
            q <= n,
            *game == g0,
            n == g0.n(),
            game.wf(),
            obscured@.len() == q,
            forall|j: int|
                0 <= j < q ==> (#[trigger] obscured@[j]) == spec_obscured_by_mortician(
                    g0.players@,
                    j as usize,
                ),
        decreases n - q,
    {
        obscured.push(obscured_by_mortician(game, q));
        q = q + 1;
    }
    let mut k: usize = 0;
    while k < n
        invariant
            k <= n,
            game.wf(),
            game.n() == n,
            n == g0.n(),
            game.phase_machine == g0.phase_machine,
            game.settings == g0.settings,
            game.player_on_trial == g0.player_on_trial,
            game.trials_left == g0.trials_left,
            day == g0.phase_machine.day_number,
            old_len == g0.graves@.len(),
            q0_len == g0.queued_messages@.len(),
            old_len <= game.graves@.len(),
            obscured@.len() == n,
            forall|j: int|
                0 <= j < n ==> (#[trigger] obscured@[j]) == spec_obscured_by_mortician(
                    g0.players@,
                    j as usize,
                ),
            game.graves@.len() == old_len + count_died(g0.players@.take(k as int)),
            game.graves@.take(old_len) == g0.graves@,
            game.queued_messages@.len() == q0_len + (game.graves@.len() - old_len),
            game.queued_messages@.take(q0_len) == g0.queued_messages@,
            forall|p: int|
                0 <= p < n ==> count_graves_for(game.graves@.skip(old_len), p) == if p < k
                    && (#[trigger] g0.players@[p]).night_variables.died && g0.players@[p].alive {
                    1int
                } else {
                    0int
                },
            forall|p: int|
                0 <= p < n ==> (#[trigger] game.players@[p]) == (crate::player::Player {
                    alive: game.players@[p].alive,
                    ..g0.players@[p]
                }),
            forall|p: int|
                k <= p < n ==> (#[trigger] game.players@[p]).alive == g0.players@[p].alive,
            forall|p: int|
                0 <= p < k ==> (#[trigger] game.players@[p]).alive == (g0.players@[p].alive
                    && !g0.players@[p].night_variables.died),
            forall|g: int|
                old_len <= g < game.graves@.len() ==> spec_materialized_grave(
                    #[trigger] game.graves@[g],
                    g0.players@,
                    day,
                ),
            forall|g: int|
                old_len <= g < game.graves@.len() ==> spec_death_announcement(
                    game.queued_messages@[q0_len + g - old_len],
                    #[trigger] game.graves@[g],
                ),
        decreases n - k,
    {
        proof {
            assert(g0.players@.take(k + 1 as int).drop_last() =~= g0.players@.take(k as int));
        }
        if game.players[k].night_variables.died && game.players[k].alive {
            let mut grave = build_grave(game, k, day);
            let blank = obscured[k];
            if blank {
                grave.role = GraveRole::Obscured;
                grave.will = String::new();
            }
            let ghost pre_suffix = game.graves@.skip(old_len);
            let ghost pre_queue = game.queued_messages@;
            let grave_for_chat = build_grave(game, k, day);
            let announced = if blank {
                let mut g2 = grave_for_chat;
                g2.role = GraveRole::Obscured;
                g2.will = String::new();
                g2
            } else {
                grave_for_chat
            };
            proof {
                assert(grave_like(announced, grave));
                assert(spec_materialized_grave(grave, g0.players@, day));
            }
            game.push_grave(grave);
            game.add_message_to_chat_group(
                PlayerGroup::All,
                ChatMessage::new_non_private(
                    ChatMessageVariant::PlayerDied { grave: announced },
                    PlayerGroup::All,
                ),
            );
            game.set_alive(k, false);
            proof {
                assert(game.graves@.skip(old_len) =~= pre_suffix.push(game.graves@.last()));
                crate::grave::lemma_count_graves_push(
                    pre_suffix,
                    game.graves@.last(),
                );
                assert(game.graves@.take(old_len) =~= g0.graves@);
                assert(game.queued_messages@.take(q0_len) =~= g0.queued_messages@);
            }
        }
        k = k + 1;
    }
    proof {
        assert(g0.players@.take(n as int) =~= g0.players@);
    }
}

impl Game {
    /// Append a grave to the permanent record.
    pub fn push_grave(&mut self, grave: Grave)
        requires
            grave.player < old(self).n(),
        ensures
            old(self).wf() ==> final(self).wf(),
            final(self).graves@ == old(self).graves@.push(grave),
            *final(self) == (Game { graves: final(self).graves, ..*old(self) }),
    {
        self.graves.push(grave);
    }
}

/// The event fired when a phase begins: it runs every player's phase-start
/// hook.
#[must_use]
pub struct OnPhaseStart {
    pub phase: PhaseType,
}

impl OnPhaseStart {
    pub fn new(phase: PhaseType) -> (r: OnPhaseStart)
        ensures
            r.phase == phase,
    {
        OnPhaseStart { phase }
    }

    /// Run every player's phase-start hook for this phase.
    pub fn invoke(self, game: &mut Game)
        requires
            old(game).wf(),
        ensures
            final(game).wf(),
            final(game).n() == old(game).n(),
            final(game).phase_machine == old(game).phase_machine,
    {
        let n = game.players.len();
        let mut i: usize = 0;
        while i < n
            invariant
                game.wf(),
                game.n() == n,
                game.phase_machine == old(game).phase_machine,
            decreases n - i,
        {
            on_phase_start(game, i, self.phase);
            i = i + 1;
        }
    }
}

/// The role states of the two rosters agree on every seat but (possibly)
/// the one named.
pub open spec fn roles_unchanged_except(
    ps: Seq<crate::player::Player>,
    qs: Seq<crate::player::Player>,
    j: int,
) -> bool {
    forall|i: int|
        0 <= i < ps.len() && i != j ==> (#[trigger] qs[i]).role_state == ps[i].role_state
}

impl PhaseType {
    /// What happens as a phase begins.
    ///
    /// Morning materializes the night's deaths into graves — exactly one
    /// grave per player whose died flag stands, carrying every recorded
    /// killer — and advances the day count; voting announces the trial
    /// arithmetic; night takes the entry snapshot for every player — will
    /// into grave-will, committed selection into visits, visits mirrored
    /// into appeared visits — after making sure the mafia has a killing
    /// role, which changes at most one seat's role state.
    pub fn start(game: &mut Game)
        requires
            old(game).wf(),
        ensures
            final(game).wf(),
            final(game).n() == old(game).n(),
            final(game).phase_machine.current_state == old(game).phase_machine.current_state,
            old(game).phase_machine.current_state is Morning ==> {
                &&& final(game).phase_machine.day_number == if old(
                    game,
                ).phase_machine.day_number < 255 {
                    (old(game).phase_machine.day_number + 1) as u8
                } else {
                    old(game).phase_machine.day_number
                }
                &&& final(game).graves@.len() == old(game).graves@.len() + count_died(
                    old(game).players@,
                )
                &&& final(game).graves@.take(old(game).graves@.len() as int) == old(game).graves@
                &&& forall|p: int|
                    0 <= p < old(game).n() ==> count_graves_for(
                        final(game).graves@.skip(old(game).graves@.len() as int),
                        p,
                    ) == if (#[trigger] old(game).players@[p]).night_variables.died && old(
                        game,
                    ).players@[p].alive {
                        1int
                    } else {
                        0int
                    }
                &&& forall|p: int|
                    0 <= p < old(game).n() ==> (#[trigger] final(game).players@[p]).alive == (old(
                        game,
                    ).players@[p].alive && !old(game).players@[p].night_variables.died)
                &&& forall|g: int|
                    old(game).graves@.len() <= g < final(game).graves@.len()
                        ==> spec_materialized_grave(
                        #[trigger] final(game).graves@[g],
                        old(game).players@,
                        old(game).phase_machine.day_number,
                    )
                &&& final(game).queued_messages@.len() == old(game).queued_messages@.len() + 1
                    + (final(game).graves@.len() - old(game).graves@.len())
                &&& forall|g: int|
                    old(game).graves@.len() <= g < final(game).graves@.len()
                        ==> spec_death_announcement(
                        final(game).queued_messages@[old(game).queued_messages@.len() + 1 + g
                            - old(game).graves@.len()],
                        #[trigger] final(game).graves@[g],
                    )
            },
            old(game).phase_machine.current_state is Night ==> {
                &&& forall|i: int|
                    0 <= i < old(game).n() ==> crate::player::night_entry_reset(
                        (crate::player::Player {
                            role_state: (#[trigger] final(game).players@[i]).role_state,
                            ..old(game).players@[i]
                        }),
                        final(game).players@[i],
                        i as usize,
                    )
                &&& exists|j: int|
                    #[trigger] roles_unchanged_except(old(game).players@, final(game).players@, j)
                &&& (crate::components::spec_living_mafia_exists(*old(game)) ==> exists|j: int|
                    0 <= j < old(game).n() && (#[trigger] final(game).players@[j]).alive && (
                    crate::role_state::spec_role_of(final(game).players@[j].role_state)
                        is Godfather || crate::role_state::spec_role_of(
                        final(game).players@[j].role_state,
                    ) is Mafioso))
            },
    {
        let phase = game.phase_machine.current_state;
        let day = game.phase_machine.day_number;
        game.add_message_to_chat_group(
            PlayerGroup::All,
            ChatMessage::new_non_private(
                ChatMessageVariant::PhaseChange { phase_type: phase, day_number: day },
                PlayerGroup::All,
            ),
        );
        match phase {
            PhaseType::Morning => {
                materialize_graves(game);
                if game.phase_machine.day_number < 255 {
                    game.phase_machine.day_number = game.phase_machine.day_number + 1;
                }
            },
            PhaseType::Voting => {
                let n = game.players.len();
                let mut living: usize = 0;
                let mut k: usize = 0;
                while k < n
                    invariant
                        n == game.n(),
                        living <= k,
                    decreases n - k,
                {
                    if game.players[k].alive {
                        living = living + 1;
                    }
                    k = k + 1;
                }
                let required_votes: usize = 1 + living / 2;
                let trials_left = game.trials_left;
                game.add_message_to_chat_group(
                    PlayerGroup::All,
                    ChatMessage::new_non_private(
                        ChatMessageVariant::TrialInformation { required_votes, trials_left },
                        PlayerGroup::All,
                    ),
                );
            },
            PhaseType::Testimony => {
                if let Some(t) = game.player_on_trial {
                    game.add_message_to_chat_group(
                        PlayerGroup::All,
                        ChatMessage::new_non_private(
                            ChatMessageVariant::PlayerOnTrial { player_index: t },
                            PlayerGroup::All,
                        ),
                    );
                }
            },
            PhaseType::Night => {
                let ghost pre = *game;
                crate::components::give_mafia_killing_role(game);
                let ghost mid = *game;
                proof {
                    assert(crate::components::spec_living_mafia_exists(pre)
                        == crate::components::spec_living_mafia_exists(*old(game)));
                }
                let n = game.players.len();
                let mut i: usize = 0;
                while i < n
                    invariant
                        game.wf(),
                        game.n() == n,
                        n == old(game).n(),
                        i <= n,
                        game.phase_machine == old(game).phase_machine,
                        crate::components::spec_mafia_top_up(pre, mid),
                        pre.players@ == old(game).players@,
                        mid.n() == n,
                        forall|m: int| i <= m < n ==> game.players@[m] == mid.players@[m],
                        forall|m: int|
                            0 <= m < i ==> crate::player::night_entry_reset(
                                mid.players@[m],
                                (#[trigger] game.players@[m]),
                                m as usize,
                            ),
                    decreases n - i,
                {
                    night_entry_reset_player(game, i);
                    i = i + 1;
                }
                proof {
                    if crate::components::spec_mafia_killing_exists(pre)
                        || !crate::components::spec_living_mafia_exists(pre) {
                        assert(mid == pre);
                        assert(roles_unchanged_except(old(game).players@, game.players@, -1));
                    } else {
                        let j = choose|j: int|
                            {
                                &&& 0 <= j < pre.n()
                                &&& (#[trigger] pre.players@[j]).alive
                                &&& crate::role::spec_faction(
                                    crate::role_state::spec_role_of(pre.players@[j].role_state),
                                ) == crate::role::Faction::Mafia
                                &&& crate::game::only_players_changed(pre, mid, j)
                                &&& mid.players@[j] == (crate::player::Player {
                                    role_state: mid.players@[j].role_state,
                                    ..pre.players@[j]
                                })
                                &&& crate::role_state::spec_role_of(mid.players@[j].role_state)
                                    is Mafioso
                            };
                        assert(roles_unchanged_except(old(game).players@, game.players@, j));
                    }
                    assert forall|m: int|
                        0 <= m < n implies crate::player::night_entry_reset(
                        (crate::player::Player {
                            role_state: (#[trigger] game.players@[m]).role_state,
                            ..old(game).players@[m]
                        }),
                        game.players@[m],
                        m as usize,
                    ) by {
                        assert(mid.players@[m] == (crate::player::Player {
                            role_state: mid.players@[m].role_state,
                            ..old(game).players@[m]
                        }));
                        assert(game.players@[m].role_state == mid.players@[m].role_state);
                    }
                    if crate::components::spec_living_mafia_exists(pre) {
                        let j = choose|j: int|
                            0 <= j < mid.n() && (#[trigger] mid.players@[j]).alive && (
                            crate::role_state::spec_role_of(mid.players@[j].role_state)
                                is Godfather || crate::role_state::spec_role_of(
                                mid.players@[j].role_state,
                            ) is Mafioso);
                        assert(game.players@[j].alive == mid.players@[j].alive);
                        assert(game.players@[j].role_state == mid.players@[j].role_state);
                    }
                }
            },
            _ => {},
        }
    }

    /// What happens as a phase ends; returns the phase that follows.
    ///
    /// Ending the night runs the resolver: every priority stage of the
    /// ladder in order and, within each stage, every player in seat order;
    /// then each player's accumulated night information is flushed into the
    /// chat queue.  No grave is created and nobody's standing liveness
    /// changes until the following morning materializes the died flags.
    pub fn end(game: &mut Game) -> (next: PhaseType)
        requires
            old(game).wf(),
        ensures
            final(game).wf(),
            final(game).n() == old(game).n(),
            old(game).phase_machine.current_state is Morning ==> next is Discussion,
            old(game).phase_machine.current_state is Discussion ==> next is Voting,
            old(game).phase_machine.current_state is Voting ==> next is Night,
            old(game).phase_machine.current_state is Testimony ==> next is Judgement,
            old(game).phase_machine.current_state is Judgement ==> ((next is Evening || next
                is Voting) && ((next is Evening) <==> (spec_verdict_tally(
                old(game).players@,
                old(game).player_on_trial,
                Verdict::Guilty,
            ) > spec_verdict_tally(
                old(game).players@,
                old(game).player_on_trial,
                Verdict::Innocent,
            ) || old(game).trials_left <= 1))),
            old(game).phase_machine.current_state is Evening ==> next is Night,
            old(game).phase_machine.current_state is Night ==> {
                &&& next is Morning
                &&& final(game).graves == old(game).graves
                &&& forall|j: int|
                    0 <= j < old(game).n() ==> (#[trigger] final(game).players@[j]).alive == old(
                        game,
                    ).players@[j].alive
                &&& forall|j: int|
                    0 <= j < old(game).n() ==> (#[trigger] final(game)
                        .players@[j]).night_variables.messages@.len() == 0
            },
    {
        match game.phase_machine.current_state {
            PhaseType::Morning => PhaseType::Discussion,
            PhaseType::Discussion => PhaseType::Voting,
            PhaseType::Voting => PhaseType::Night,
            PhaseType::Testimony => PhaseType::Judgement,
            PhaseType::Judgement => judgement_end(game),
            PhaseType::Evening => evening_end(game),
            PhaseType::Night => night_end(game),
        }
    }
}

/// How many living players off the trial stand hold the given verdict.
pub open spec fn spec_verdict_tally(
    ps: Seq<crate::player::Player>,
    on_trial: Option<PlayerIndex>,
    v: Verdict,
) -> int
    decreases ps.len(),
{
    if ps.len() == 0 {
        0
    } else {
        spec_verdict_tally(ps.drop_last(), on_trial, v) + if ps.last().alive && !(on_trial
            == Some((ps.len() - 1) as usize)) && ps.last().voting_variables.verdict == v {
            1int
        } else {
            0int
        }
    }
}

/// Tally the judgement verdicts, announce them, and decide whether the
/// trial ends in a lynch attempt or the floor reopens: the trial moves to
/// the evening exactly when the guilty outnumber the innocent or the last
/// trial of the day was spent.
fn judgement_end(game: &mut Game) -> (next: PhaseType)
    requires
        old(game).wf(),
    ensures
        final(game).wf(),
        final(game).n() == old(game).n(),
        next is Evening || next is Voting,
        *final(game) == (Game {
            queued_messages: final(game).queued_messages,
            trials_left: final(game).trials_left,
            ..*old(game)
        }),
        final(game).trials_left == if old(game).trials_left > 0 {
            (old(game).trials_left - 1) as u8
        } else {
            0u8
        },
        (next is Evening) <==> (spec_verdict_tally(
            old(game).players@,
            old(game).player_on_trial,
            Verdict::Guilty,
        ) > spec_verdict_tally(
            old(game).players@,
            old(game).player_on_trial,
            Verdict::Innocent,
        ) || old(game).trials_left <= 1),
{
    let on_trial = game.player_on_trial;
    let n = game.players.len();
    let mut innocent: usize = 0;
    let mut guilty: usize = 0;
    let mut k: usize = 0;
    while k < n
        invariant
            game.wf(),
            game.n() == n,
            k <= n,
            innocent <= k,
            guilty <= k,
            on_trial == old(game).player_on_trial,
            *game == (Game { queued_messages: game.queued_messages, ..*old(game) }),
            innocent as int == spec_verdict_tally(
                old(game).players@.take(k as int),
                on_trial,
                Verdict::Innocent,
            ),
            guilty as int == spec_verdict_tally(
                old(game).players@.take(k as int),
                on_trial,
                Verdict::Guilty,
            ),
        decreases n - k,
    {
        proof {
            assert(old(game).players@.take(k + 1 as int).drop_last() =~= old(
                game,
            ).players@.take(k as int));
            assert(old(game).players@.take(k + 1 as int).last() == old(game).players@[k as int]);
        }
        let skip = !game.players[k].alive || (match on_trial {
            Some(t) => t == k,
            None => false,
        });
        if !skip {
            match game.players[k].voting_variables.verdict {
                Verdict::Innocent => {
                    innocent = innocent + 1;
                },
                Verdict::Abstain => {},
                Verdict::Guilty => {
                    guilty = guilty + 1;
                },
            }
            game.add_message_to_chat_group(
                PlayerGroup::All,
                ChatMessage::new_non_private(
                    ChatMessageVariant::JudgementVerdict {
                        voter_player_index: k,
                        verdict: game.players[k].voting_variables.verdict,
                    },
                    PlayerGroup::All,
                ),
            );
        }
        k = k + 1;
    }
    if let Some(t) = on_trial {
        game.add_message_to_chat_group(
            PlayerGroup::All,
            ChatMessage::new_non_private(
                ChatMessageVariant::TrialVerdict { player_on_trial: t, innocent, guilty },
                PlayerGroup::All,
            ),
        );
    }
    proof {
        assert(old(game).players@.take(n as int) =~= old(game).players@);
    }
    if game.trials_left > 0 {
        game.trials_left = game.trials_left - 1;
    }
    if innocent < guilty {
        PhaseType::Evening
    } else if game.trials_left == 0 {
        PhaseType::Evening
    } else {
        PhaseType::Voting
    }
}

/// Carry out a lynch if the guilty votes outweigh the innocent ones, then
/// fall into night.
fn evening_end(game: &mut Game) -> (next: PhaseType)
    requires
        old(game).wf(),
    ensures
        final(game).wf(),
        final(game).n() == old(game).n(),
        next is Night,
{
    let on_trial = match game.player_on_trial {
        Some(t) => t,
        None => {
            return PhaseType::Night;
        },
    };
    if on_trial >= game.players.len() {
        return PhaseType::Night;
    }
    let n = game.players.len();
    let mut innocent: usize = 0;
    let mut guilty: usize = 0;
    let mut k: usize = 0;
    while k < n
        invariant
            n == game.n(),
            innocent <= k,
            guilty <= k,
        decreases n - k,
    {
        match game.players[k].voting_variables.verdict {
            Verdict::Innocent => {
                innocent = innocent + 1;
            },
            Verdict::Abstain => {},
            Verdict::Guilty => {
                guilty = guilty + 1;
            },
        }
        k = k + 1;
    }
    if innocent < guilty {
        let role = game.players[on_trial].role_state.role();
        let grave = Grave {
            player: on_trial,
            role: GraveRole::Role(role),
            killers: {
                let mut ks: Vec<GraveKiller> = Vec::new();
                ks.push(GraveKiller::Trial);
                ks
            },
            will: clone_string(&game.players[on_trial].will),
            death_notes: Vec::new(),
            died_phase: GravePhase::Day,
            day_number: game.phase_machine.day_number,
        };
        let announced = Grave {
            player: on_trial,
            role: GraveRole::Role(role),
            killers: {
                let mut ks: Vec<GraveKiller> = Vec::new();
                ks.push(GraveKiller::Trial);
                ks
            },
            will: clone_string(&game.players[on_trial].will),
            death_notes: Vec::new(),
            died_phase: GravePhase::Day,
            day_number: game.phase_machine.day_number,
        };
        game.push_grave(grave);
        game.add_message_to_chat_group(
            PlayerGroup::All,
            ChatMessage::new_non_private(
                ChatMessageVariant::PlayerDied { grave: announced },
                PlayerGroup::All,
            ),
        );
        game.set_alive(on_trial, false);
        if matches!(game.players[on_trial].role_state.role(), Role::Jester) {
            game.set_role_state(
                on_trial,
                RoleState::Jester(
                    Jester { lynched_yesterday: true, won: true, night_selection: None },
                ),
            );
            game.add_message_to_chat_group(
                PlayerGroup::All,
                ChatMessage::new_non_private(ChatMessageVariant::JesterWon, PlayerGroup::All),
            );
        }
    }
    PhaseType::Night
}

/// The chat-queue entries one player's accumulated night information
/// flushes to, in accumulation order: each event wrapped as a private
/// message addressed to that player.
pub open spec fn spec_night_chat_messages(
    i: PlayerIndex,
    msgs: Seq<crate::chat::NightInformation>,
) -> Seq<crate::game::QueuedMessage> {
    msgs.map_values(
        |info: crate::chat::NightInformation|
            crate::game::QueuedMessage {
                recipient: crate::game::MessageRecipient::Player(i),
                message: ChatMessage {
                    variant: ChatMessageVariant::NightInformation { night_information: info },
                    chat_group: None,
                },
            },
    )
}

/// Every player's accumulated night information as chat-queue entries, in
/// seat order and, within one seat, in accumulation order.
pub open spec fn spec_night_chat_queue(ps: Seq<crate::player::Player>) -> Seq<
    crate::game::QueuedMessage,
>
    decreases ps.len(),
{
    if ps.len() == 0 {
        Seq::empty()
    } else {
        spec_night_chat_queue(ps.drop_last()) + spec_night_chat_messages(
            (ps.len() - 1) as usize,
            ps.last().night_variables.messages@,
        )
    }
}

/// The flush that ends a night: every player's accumulated night
/// information lands in the chat queue — seats in order, and one seat's
/// events in accumulation order — every message list ends empty, and
/// nothing else of the game changes.
pub open spec fn spec_night_flush(pre: Game, post: Game) -> bool {
    &&& post.n() == pre.n()
    &&& (forall|j: int|
        0 <= j < pre.n() ==> {
            &&& crate::game::same_player_except_night(
                pre.players@[j],
                #[trigger] post.players@[j],
            )
            &&& crate::game::nv_eq_except_messages(
                pre.players@[j].night_variables,
                post.players@[j].night_variables,
            )
            &&& post.players@[j].night_variables.messages@.len() == 0
        })
    &&& post == (Game {
        players: post.players,
        queued_messages: post.queued_messages,
        ..pre
    })
    &&& post.queued_messages@ == pre.queued_messages@ + spec_night_chat_queue(pre.players@)
}

/// Flush every player's accumulated night information into the chat queue.
pub fn flush_night_messages(game: &mut Game)
    requires
        old(game).wf(),
    ensures
        final(game).wf(),
        spec_night_flush(*old(game), *final(game)),
{
    let ghost g0 = *game;
    let n = game.players.len();
    let mut i: usize = 0;
    proof {
        assert(g0.players@.take(0) =~= Seq::<crate::player::Player>::empty());
        assert(game.queued_messages@ =~= g0.queued_messages@ + spec_night_chat_queue(
            g0.players@.take(0),
        ));
    }
    while i < n
        invariant
            i <= n,
            game.wf(),
            game.n() == n,
            n == g0.n(),
            forall|j: int| i <= j < n ==> (#[trigger] game.players@[j]) == g0.players@[j],
            forall|j: int|
                0 <= j < i ==> {
                    &&& crate::game::same_player_except_night(
                        g0.players@[j],
                        (#[trigger] game.players@[j]),
                    )
                    &&& crate::game::nv_eq_except_messages(
                        g0.players@[j].night_variables,
                        game.players@[j].night_variables,
                    )
                    &&& game.players@[j].night_variables.messages@.len() == 0
                },
            *game == (Game {
                players: game.players,
                queued_messages: game.queued_messages,
                ..g0
            }),
            game.queued_messages@ == g0.queued_messages@ + spec_night_chat_queue(
                g0.players@.take(i as int),
            ),
        decreases n - i,
    {
        let infos = game.drain_night_messages(i);
        let ghost infoseq = infos@;
        proof {
            assert(infoseq == g0.players@[i as int].night_variables.messages@);
        }
        let mut chats = night_information_to_chat_messages(infos);
        let ghost total = infoseq.len() as int;
        proof {
            assert(infoseq.take(total - chats@.len()) =~= Seq::<
                crate::chat::NightInformation,
            >::empty());
            assert(spec_night_chat_messages(i, infoseq.take(total - chats@.len())) =~= Seq::<
                crate::game::QueuedMessage,
            >::empty());
        }
        while chats.len() > 0
            invariant
                game.wf(),
                game.n() == n,
                n == g0.n(),
                i < n,
                chats@.len() <= total,
                total == infoseq.len(),
                forall|m: int|
                    0 <= m < chats@.len() ==> (#[trigger] chats@[m]) == (ChatMessage {
                        variant: ChatMessageVariant::NightInformation {
                            night_information: infoseq[total - chats@.len() + m],
                        },
                        chat_group: None,
                    }),
                forall|j: int| i < j < n ==> (#[trigger] game.players@[j]) == g0.players@[j],
                forall|j: int|
                    0 <= j < i ==> {
                        &&& crate::game::same_player_except_night(
                            g0.players@[j],
                            (#[trigger] game.players@[j]),
                        )
                        &&& crate::game::nv_eq_except_messages(
                            g0.players@[j].night_variables,
                            game.players@[j].night_variables,
                        )
                        &&& game.players@[j].night_variables.messages@.len() == 0
                    },
                crate::game::same_player_except_night(
                    g0.players@[i as int],
                    game.players@[i as int],
                ),
                crate::game::nv_eq_except_messages(
                    g0.players@[i as int].night_variables,
                    game.players@[i as int].night_variables,
                ),
                game.players@[i as int].night_variables.messages@.len() == 0,
                *game == (Game {
                    players: game.players,
                    queued_messages: game.queued_messages,
                    ..g0
                }),
                game.queued_messages@ == g0.queued_messages@ + spec_night_chat_queue(
                    g0.players@.take(i as int),
                ) + spec_night_chat_messages(i, infoseq.take(total - chats@.len())),
            decreases chats@.len(),
        {
            let ghost consumed = total - chats@.len();
            let message = chats.remove(0);
            game.add_chat_message(i, message);
            proof {
                assert(spec_night_chat_messages(i, infoseq.take(consumed + 1))
                    =~= spec_night_chat_messages(i, infoseq.take(consumed)).push(
                    crate::game::QueuedMessage {
                        recipient: crate::game::MessageRecipient::Player(i),
                        message,
                    },
                ));
                assert(game.queued_messages@ =~= g0.queued_messages@ + spec_night_chat_queue(
                    g0.players@.take(i as int),
                ) + spec_night_chat_messages(i, infoseq.take(consumed + 1)));
            }
        }
        proof {
            assert(infoseq.take(total) =~= infoseq);
            assert(g0.players@.take(i + 1 as int).drop_last() =~= g0.players@.take(i as int));
            assert(g0.players@.take(i + 1 as int).last() == g0.players@[i as int]);
            assert(game.queued_messages@ =~= g0.queued_messages@ + spec_night_chat_queue(
                g0.players@.take(i + 1 as int),
            ));
        }
        i = i + 1;
    }
    proof {
        assert(g0.players@.take(n as int) =~= g0.players@);
    }
}

/// The night resolver: the priority ladder in its fixed order, and within
/// each stage every player in seat order, so that every effect placed at
/// stage `k` is visible to every role resolving at any later stage.  Once
/// every stage has run, each player's accumulated night information is
/// flushed into the chat queue — seats in order, one seat's events in
/// accumulation order — leaving every message list empty.
fn night_end(game: &mut Game) -> (next: PhaseType)
    requires
        old(game).wf(),
    ensures
        final(game).wf(),
        final(game).n() == old(game).n(),
        next is Morning,
        final(game).graves == old(game).graves,
        forall|j: int|
            0 <= j < old(game).n() ==> (#[trigger] final(game).players@[j]).alive == old(
                game,
            ).players@[j].alive,
        forall|j: int|
            0 <= j < old(game).n() ==> (#[trigger] final(game)
                .players@[j]).night_variables.messages@.len() == 0,
        exists|resolved: Game|
            {
                &&& night_action_frame(*old(game), resolved)
                &&& #[trigger] spec_night_flush(resolved, *final(game))
            },
{
    let n = game.players.len();
    let priorities = Priority::values();
    let mut pi: usize = 0;
    while pi < priorities.len()
        invariant
            game.wf(),
            game.n() == n,
            night_action_frame(*old(game), *game),
        decreases priorities@.len() - pi,
    {
        let priority = priorities[pi];
        let mut i: usize = 0;
        while i < n
            invariant
                game.wf(),
                game.n() == n,
                night_action_frame(*old(game), *game),
            decreases n - i,
        {
            do_night_action(game, i, priority);
            i = i + 1;
        }
        pi = pi + 1;
    }
    let ghost resolved = *game;
    flush_night_messages(game);
    proof {
        assert(night_action_frame(*old(game), resolved));
        assert(spec_night_flush(resolved, *game));
    }
    PhaseType::Morning
}

/// Move the game into a phase: the clock is reset to the phase's configured
/// length, the phase's entry work runs, and then every player's phase-start
/// hook fires.
pub fn start_phase(game: &mut Game, phase: PhaseType)
    requires
        old(game).wf(),
    ensures
        final(game).wf(),
        final(game).n() == old(game).n(),
        final(game).phase_machine.current_state == phase,
{
    game.phase_machine.current_state = phase;
    game.phase_machine.time_remaining = game.settings.phase_times.get_time_for(phase);
    PhaseType::start(game);
    let event = OnPhaseStart::new(phase);
    event.invoke(game);
}

} // verus!
