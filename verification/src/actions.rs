//! Role policies: selection validity, visit construction, and the per-
//! priority night actions that the resolver dispatches.

use vstd::prelude::*;

use crate::chat::{ChatMessage, ChatMessageVariant, NightInformation, PlayerGroup};
use crate::game::{idxs_in_bounds, player_wf, Game};
use crate::grave::{GraveKiller, GraveRole};
use crate::kira::{KiraGuess, KiraResult};
use crate::player::Player;
use crate::power::{spec_defense_max, AttackPower, DefensePower};
use crate::priority::Priority;
use crate::role::{Faction, Role};
use crate::role_state::{
    spec_role_of, Bodyguard, Doctor, Engineer, Godfather, Jailor, Janitor, Jester, Kidnapper,
    Marksman, MarksmanMarks, MarksmanState, Martyr, MartyrState, Minion, Mortician, Ojo, OjoAction,
    Puppeteer, PuppeteerAction, RoleState, Trap,
};
use crate::visit::{visits_in_bounds, PlayerIndex, Visit};

verus! {

/// The player has some visit pointed at the target.
pub open spec fn spec_has_visit_to(p: Player, t: PlayerIndex) -> bool {
    exists|k: int|
        0 <= k < p.night_variables.visits@.len() && (#[trigger] p.night_variables.visits@[k]).target
            == t
}

/// The player has some harmful visit pointed at the target.
pub open spec fn spec_has_attack_visit_to(p: Player, t: PlayerIndex) -> bool {
    exists|k: int|
        0 <= k < p.night_variables.visits@.len() && (#[trigger] p.night_variables.visits@[k]).target
            == t && p.night_variables.visits@[k].attack
}

/// What a night action may not touch: the roster, the clock, the graves,
/// the trial bookkeeping, and everyone's standing liveness.  Deaths during
/// the night only set the `died` flag; `alive` falls at the next morning.
pub open spec fn night_action_frame(oldg: Game, newg: Game) -> bool {
    &&& newg.players@.len() == oldg.players@.len()
    &&& newg.settings == oldg.settings
    &&& newg.graves == oldg.graves
    &&& newg.phase_machine == oldg.phase_machine
    &&& newg.player_on_trial == oldg.player_on_trial
    &&& newg.trials_left == oldg.trials_left
    &&& forall|j: int|
        0 <= j < oldg.players@.len() ==> (#[trigger] newg.players@[j]).alive
            == oldg.players@[j].alive && newg.players@[j].name == oldg.players@[j].name
}

impl Game {
    /// The `k`-th of the player's current visits, if there is one; under a
    /// well-formed game its target is a real seat.
    pub fn night_visit(&self, i: PlayerIndex, k: usize) -> (r: Option<Visit>)
        requires
            i < self.n(),
        ensures
            r == if k < self.players@[i as int].night_variables.visits@.len() {
                Some(self.players@[i as int].night_variables.visits@[k as int])
            } else {
                None::<Visit>
            },
            self.wf() && r is Some ==> r->0.target < self.n(),
    {
        let visits = &self.players[i].night_variables.visits;
        if k < visits.len() {
            Some(visits[k])
        } else {
            None
        }
    }

    /// Whether player `j` is visiting `t` tonight.
    pub fn visits_target(&self, j: PlayerIndex, t: PlayerIndex) -> (r: bool)
        requires
            j < self.n(),
        ensures
            r == spec_has_visit_to(self.players@[j as int], t),
    {
        let visits = &self.players[j].night_variables.visits;
        let mut k: usize = 0;
        while k < visits.len()
            invariant
                k <= visits@.len(),
                visits@ == self.players@[j as int].night_variables.visits@,
                forall|m: int| 0 <= m < k ==> (#[trigger] visits@[m]).target != t,
            decreases visits@.len() - k,
        {
            if visits[k].target == t {
                return true;
            }
            k = k + 1;
        }
        false
    }

    /// Whether player `j` is visiting `t` tonight with a harmful visit.
    pub fn attacks_target(&self, j: PlayerIndex, t: PlayerIndex) -> (r: bool)
        requires
            j < self.n(),
        ensures
            r == spec_has_attack_visit_to(self.players@[j as int], t),
    {
        let visits = &self.players[j].night_variables.visits;
        let mut k: usize = 0;
        while k < visits.len()
            invariant
                k <= visits@.len(),
                visits@ == self.players@[j as int].night_variables.visits@,
                forall|m: int|
                    0 <= m < k ==> !((#[trigger] visits@[m]).target == t && visits@[m].attack),
            decreases visits@.len() - k,
        {
            if visits[k].target == t && visits[k].attack {
                return true;
            }
            k = k + 1;
        }
        false
    }

    /// Whether the player looks suspicious tonight: framed, or covered in
    /// the arsonist's gasoline while an arsonist is still alive.
    pub fn player_has_suspicious_aura(&self, i: PlayerIndex) -> (r: bool)
        requires
            i < self.n(),
    {
        if self.players[i].night_variables.appeared_suspicious {
            return true;
        }
        crate::components::has_suspicious_aura_douse(self, i)
    }

    /// Whether the player looks innocent to investigators.
    pub fn player_has_innocent_aura(&self, i: PlayerIndex) -> (r: bool)
        requires
            i < self.n(),
        ensures
            r == spec_role_of(self.players@[i as int].role_state) is Godfather,
    {
        self.players[i].role_state.role().has_innocent_aura()
    }
}

/// One visit per committed target, with the given harm tag.
pub open spec fn spec_default_visits(sel: Seq<PlayerIndex>, attack: bool) -> Seq<Visit> {
    sel.map_values(|t: PlayerIndex| Visit { target: t, attack })
}

/// Exactly two benign visits when two targets are committed, else none.
pub open spec fn spec_two_target_visits(sel: Seq<PlayerIndex>) -> Seq<Visit> {
    if sel.len() == 2 {
        seq![
            Visit { target: sel[0], attack: false },
            Visit { target: sel[1], attack: false },
        ]
    } else {
        Seq::empty()
    }
}

/// The visits a player's committed selection converts to under their role:
/// killing roles make one harmful visit per target, two-target roles need
/// both targets, the martyr shoots itself when loaded and willing, and a
/// role with no night ability gets none.
pub open spec fn spec_converted_visits(p: Player, actor: PlayerIndex) -> Seq<Visit> {
    spec_visits_from_targets(p.role_state, p.night_variables.selection@, actor)
}

/// The visits an explicit target list converts to under a role; possession
/// rebuilds a victim's visits through this, so a victim's own role decides
/// the shape of the rewritten visits.
pub open spec fn spec_visits_from_targets(
    rs: RoleState,
    sel: Seq<PlayerIndex>,
    actor: PlayerIndex,
) -> Seq<Visit> {
    match rs {
        RoleState::Mafioso(..) | RoleState::Godfather(..) | RoleState::Jailor(..)
        | RoleState::Kidnapper(..) => spec_default_visits(sel, true),
        RoleState::Eros(e) => match e.action {
            crate::role_state::ErosAction::Kill => spec_default_visits(sel, true),
            crate::role_state::ErosAction::LoveLink => spec_two_target_visits(sel),
        },
        RoleState::Doctor(..) | RoleState::Bodyguard(..) | RoleState::Detective(..)
        | RoleState::Snoop(..) | RoleState::Spy(..) | RoleState::Janitor(..)
        | RoleState::Mortician(..) | RoleState::Puppeteer(..) | RoleState::Engineer(..)
        | RoleState::Death(..) | RoleState::Apostle(..) | RoleState::Arsonist(..)
        | RoleState::Marksman(..) => spec_default_visits(sel, false),
        RoleState::Transporter(..) | RoleState::Philosopher(..) | RoleState::Minion(..) => {
            spec_two_target_visits(sel)
        },
        RoleState::Martyr(m) => if m.state matches MartyrState::StillPlaying {
            should_shoot: true,
            ..
        } {
            seq![Visit { target: actor, attack: true }]
        } else {
            Seq::empty()
        },
        _ => Seq::empty(),
    }
}

/// Maps each committed target to one visit with the given harm tag; an
/// empty selection gives no visits — a role never guesses a default target.
pub fn default_visits_from_selection(sel: &Vec<PlayerIndex>, attack: bool) -> (r: Vec<Visit>)
    ensures
        r@.len() == sel@.len(),
        forall|k: int|
            0 <= k < sel@.len() ==> (#[trigger] r@[k]) == (Visit { target: sel@[k], attack }),
{
    let mut out: Vec<Visit> = Vec::new();
    let mut k: usize = 0;
    while k < sel.len()
        invariant
            k <= sel@.len(),
            out@.len() == k,
            forall|m: int|
                0 <= m < k ==> (#[trigger] out@[m]) == (Visit { target: sel@[m], attack }),
        decreases sel@.len() - k,
    {
        out.push(Visit { target: sel[k], attack });
        k = k + 1;
    }
    out
}

/// Exactly two benign visits when two targets are committed, else none.
pub fn two_target_visits(sel: &Vec<PlayerIndex>) -> (r: Vec<Visit>)
    ensures
        sel@.len() == 2 ==> r@ =~= seq![
            Visit { target: sel@[0], attack: false },
            Visit { target: sel@[1], attack: false },
        ],
        sel@.len() != 2 ==> r@.len() == 0,
        forall|k: int| 0 <= k < r@.len() ==> sel@.contains((#[trigger] r@[k]).target),
{
    let mut out: Vec<Visit> = Vec::new();
    if sel.len() == 2 {
        out.push(Visit { target: sel[0], attack: false });
        out.push(Visit { target: sel[1], attack: false });
        proof {
            assert(sel@.contains(sel@[0]));
            assert(sel@.contains(sel@[1]));
        }
    }
    out
}

/// Converts the player's committed selection into their initial visits,
/// according to their role: killing roles make harmful visits, two-target
/// roles need both targets, and an empty selection always gives none.
pub fn convert_selection_to_visits(game: &Game, actor: PlayerIndex) -> (r: Vec<Visit>)
    requires
        actor < game.n(),
    ensures
        game.wf() ==> visits_in_bounds(r@, game.n()),
        r@ == spec_converted_visits(game.players@[actor as int], actor),
{
    let sel = copy_vec(&game.players[actor].night_variables.selection);
    proof {
        if game.wf() {
            assert(player_wf(game.players@[actor as int], game.n()));
        }
    }
    visits_from_targets(game, actor, &sel)
}

/// Converts an explicit target list into visits under the actor's role, as
/// the committed selection would convert.
pub fn visits_from_targets(game: &Game, actor: PlayerIndex, sel: &Vec<PlayerIndex>) -> (r: Vec<
    Visit,
>)
    requires
        actor < game.n(),
    ensures
        idxs_in_bounds(sel@, game.n()) ==> visits_in_bounds(r@, game.n()),
        r@ == spec_visits_from_targets(game.players@[actor as int].role_state, sel@, actor),
{
    let ghost selq = sel@;
    match game.players[actor].role_state.role() {
        Role::Mafioso | Role::Godfather | Role::Jailor | Role::Kidnapper => {
            let r = default_visits_from_selection(sel, true);
            proof {
                assert(r@ =~= spec_default_visits(selq, true));
            }
            r
        },
        Role::Eros => {
            match &game.players[actor].role_state {
                RoleState::Eros(e) => {
                    match e.action {
                        crate::role_state::ErosAction::Kill => {
                            let r = default_visits_from_selection(sel, true);
                            proof {
                                assert(r@ =~= spec_default_visits(selq, true));
                            }
                            r
                        },
                        crate::role_state::ErosAction::LoveLink => {
                            let r = two_target_visits(sel);
                            proof {
                                assert(r@ =~= spec_two_target_visits(selq));
                            }
                            r
                        },
                    }
                },
                _ => {
                    proof {
                        assert(false);
                    }
                    Vec::new()
                },
            }
        },
        Role::Doctor | Role::Bodyguard | Role::Detective | Role::Snoop | Role::Spy
        | Role::Janitor | Role::Mortician | Role::Puppeteer | Role::Engineer | Role::Death
        | Role::Apostle | Role::Arsonist | Role::Marksman => {
            let r = default_visits_from_selection(sel, false);
            proof {
                assert(r@ =~= spec_default_visits(selq, false));
            }
            r
        },
        Role::Transporter | Role::Philosopher | Role::Minion => {
            let r = two_target_visits(sel);
            proof {
                assert(r@ =~= spec_two_target_visits(selq));
            }
            r
        },
        Role::Martyr => {
            match &game.players[actor].role_state {
                RoleState::Martyr(m) => {
                    if m.state.should_shoot() {
                        let mut v: Vec<Visit> = Vec::new();
                        v.push(Visit { target: actor, attack: true });
                        proof {
                            assert(v@ =~= seq![Visit { target: actor, attack: true }]);
                        }
                        v
                    } else {
                        Vec::new()
                    }
                },
                _ => {
                    proof {
                        assert(false);
                    }
                    Vec::new()
                },
            }
        },
        _ => Vec::new(),
    }
}

/// Copies a vector of copyable values; the result holds the same values.
pub fn copy_vec<T: Copy>(v: &Vec<T>) -> (r: Vec<T>)
    ensures
        r@ == v@,
{
    let mut out: Vec<T> = Vec::new();
    let mut k: usize = 0;
    while k < v.len()
        invariant
            k <= v@.len(),
            out@ == v@.take(k as int),
        decreases v@.len() - k,
    {
        out.push(v[k]);
        proof {
            assert(out@ =~= v@.take(k + 1 as int));
        }
        k = k + 1;
    }
    proof {
        assert(v@.take(v@.len() as int) =~= v@);
    }
    out
}

/// The visits kept once a ward cancels every visit pointed at `w`, in the
/// order they stood.
pub open spec fn spec_ward_kept(vs: Seq<Visit>, w: PlayerIndex) -> Seq<Visit>
    decreases vs.len(),
{
    if vs.len() == 0 {
        Seq::empty()
    } else {
        let rest = spec_ward_kept(vs.drop_last(), w);
        if vs.last().target == w {
            rest
        } else {
            rest.push(vs.last())
        }
    }
}

/// Cancel every visit pointed at the warded player; visitors whose role
/// ignores wards keep theirs, and nothing else of anyone changes.
pub fn ward(game: &mut Game, w: PlayerIndex)
    requires
        old(game).wf(),
    ensures
        final(game).wf(),
        night_action_frame(*old(game), *final(game)),
        crate::game::non_player_fields_unchanged(*old(game), *final(game)),
        forall|j: int|
            0 <= j < old(game).n() ==> if spec_role_of(
                (#[trigger] old(game).players@[j]).role_state,
            ) is Jailor {
                final(game).players@[j] == old(game).players@[j]
            } else {
                &&& crate::game::same_player_except_night(
                    old(game).players@[j],
                    final(game).players@[j],
                )
                &&& crate::game::nv_eq_except_visits(
                    old(game).players@[j].night_variables,
                    final(game).players@[j].night_variables,
                )
                &&& final(game).players@[j].night_variables.visits@ == spec_ward_kept(
                    old(game).players@[j].night_variables.visits@,
                    w,
                )
            },
{
    let n = game.players.len();
    let mut j: usize = 0;
    while j < n
        invariant
            game.wf(),
            game.n() == n,
            night_action_frame(*old(game), *game),
            crate::game::non_player_fields_unchanged(*old(game), *game),
            forall|m: int| j <= m < n ==> game.players@[m] == old(game).players@[m],
            forall|m: int|
                0 <= m < j ==> if spec_role_of(
                    (#[trigger] old(game).players@[m]).role_state,
                ) is Jailor {
                    game.players@[m] == old(game).players@[m]
                } else {
                    &&& crate::game::same_player_except_night(
                        old(game).players@[m],
                        game.players@[m],
                    )
                    &&& crate::game::nv_eq_except_visits(
                        old(game).players@[m].night_variables,
                        game.players@[m].night_variables,
                    )
                    &&& game.players@[m].night_variables.visits@ == spec_ward_kept(
                        old(game).players@[m].night_variables.visits@,
                        w,
                    )
                },
        decreases n - j,
    {
        if !game.players[j].role_state.role().wardblock_immune() {
            let old_visits = copy_vec(&game.players[j].night_variables.visits);
            let mut kept: Vec<Visit> = Vec::new();
            let mut k: usize = 0;
            while k < old_visits.len()
                invariant
                    k <= old_visits@.len(),
                    kept@ == spec_ward_kept(old_visits@.take(k as int), w),
                    visits_in_bounds(old_visits@, n as int) ==> visits_in_bounds(
                        kept@,
                        n as int,
                    ),
                decreases old_visits@.len() - k,
            {
                proof {
                    assert(old_visits@.take(k + 1 as int).drop_last() =~= old_visits@.take(
                        k as int,
                    ));
                    assert(old_visits@.take(k + 1 as int).last() == old_visits@[k as int]);
                }
                if old_visits[k].target != w {
                    kept.push(old_visits[k]);
                }
                k = k + 1;
            }
            proof {
                assert(player_wf(game.players@[j as int], game.n()));
                assert(old_visits@.take(old_visits@.len() as int) =~= old_visits@);
            }
            game.set_night_visits(j, kept);
        }
        j = j + 1;
    }
}

/// Both players named got one message each: first the watcher learns the
/// target was attacked, then the target learns they were protected, and
/// nothing else of anyone changes.
pub open spec fn spec_pushed_protect_pair(
    oldg: Game,
    newg: Game,
    a: PlayerIndex,
    t: PlayerIndex,
) -> bool {
    &&& crate::game::only_players_changed2(oldg, newg, a as int, t as int)
    &&& crate::game::same_player_except_night(oldg.players@[a as int], newg.players@[a as int])
    &&& crate::game::same_player_except_night(oldg.players@[t as int], newg.players@[t as int])
    &&& crate::game::nv_eq_except_messages(
        oldg.players@[a as int].night_variables,
        newg.players@[a as int].night_variables,
    )
    &&& crate::game::nv_eq_except_messages(
        oldg.players@[t as int].night_variables,
        newg.players@[t as int].night_variables,
    )
    &&& if a == t {
        newg.players@[a as int].night_variables.messages@
            == oldg.players@[a as int].night_variables.messages@.push(
            NightInformation::TargetWasAttacked,
        ).push(NightInformation::YouWereProtected)
    } else {
        &&& newg.players@[a as int].night_variables.messages@
            == oldg.players@[a as int].night_variables.messages@.push(
            NightInformation::TargetWasAttacked,
        )
        &&& newg.players@[t as int].night_variables.messages@
            == oldg.players@[t as int].night_variables.messages@.push(
            NightInformation::YouWereProtected,
        )
    }
}

/// What the doctor does at each stage: the nightly scratch clear at top
/// priority, the raise-to-protection heal with its self-heal decrement at
/// the heal stage, and the attacked/protected message pair at the
/// investigative stage.
pub open spec fn spec_doctor_effect(
    oldg: Game,
    newg: Game,
    actor: PlayerIndex,
    priority: Priority,
) -> bool {
    let oldp = oldg.players@[actor as int];
    match oldp.role_state {
        RoleState::Doctor(d) => match priority {
            Priority::TopPriority => {
                &&& crate::game::only_players_changed(oldg, newg, actor as int)
                &&& newg.players@[actor as int] == (Player {
                    role_state: RoleState::Doctor(
                        Doctor {
                            self_heals_remaining: d.self_heals_remaining,
                            target_healed_ref: None,
                        },
                    ),
                    ..oldp
                })
            },
            Priority::Heal => {
                if oldp.night_variables.visits@.len() == 0 {
                    newg == oldg
                } else {
                    let t = oldp.night_variables.visits@[0].target;
                    let oldt = oldg.players@[t as int];
                    &&& crate::game::only_players_changed2(oldg, newg, actor as int, t as int)
                    &&& newg.players@[t as int].night_variables.defense == spec_defense_max(
                        oldt.night_variables.defense,
                        DefensePower::Protection,
                    )
                    &&& (t != actor ==> crate::game::same_player_except_night(
                        oldt,
                        newg.players@[t as int],
                    ) && crate::game::nv_eq_except_defense(
                        oldt.night_variables,
                        newg.players@[t as int].night_variables,
                    ))
                    &&& newg.players@[actor as int] == (Player {
                        role_state: RoleState::Doctor(
                            Doctor {
                                self_heals_remaining: if actor == t && d.self_heals_remaining
                                    > 0 {
                                    (d.self_heals_remaining - 1) as u8
                                } else {
                                    d.self_heals_remaining
                                },
                                target_healed_ref: Some(t),
                            },
                        ),
                        night_variables: newg.players@[actor as int].night_variables,
                        ..oldp
                    })
                    &&& (actor == t ==> crate::game::nv_eq_except_defense(
                        oldp.night_variables,
                        newg.players@[actor as int].night_variables,
                    ))
                    &&& (actor != t ==> newg.players@[actor as int].night_variables
                        == oldp.night_variables)
                }
            },
            Priority::Investigative => {
                match d.target_healed_ref {
                    Some(h) => if h < oldg.n()
                        && oldg.players@[h as int].night_variables.attacked {
                        spec_pushed_protect_pair(oldg, newg, actor, h)
                    } else {
                        newg == oldg
                    },
                    None => newg == oldg,
                }
            },
            _ => newg == oldg,
        },
        _ => newg == oldg,
    }
}

/// A visit list with every harmful visit on `t` retargeted to `a`; benign
/// visits and visits elsewhere stand as they were.
pub open spec fn spec_redirected(vs: Seq<Visit>, t: PlayerIndex, a: PlayerIndex) -> Seq<Visit> {
    vs.map_values(
        |v: Visit|
            if v.target == t && v.attack {
                Visit { target: a, attack: true }
            } else {
                v
            },
    )
}

/// The seats holding a harmful visit on `t`, in seat order.
pub open spec fn spec_attackers_of(ps: Seq<Player>, t: PlayerIndex) -> Seq<PlayerIndex>
    decreases ps.len(),
{
    if ps.len() == 0 {
        Seq::empty()
    } else {
        let rest = spec_attackers_of(ps.drop_last(), t);
        if spec_has_attack_visit_to(ps.last(), t) {
            rest.push((ps.len() - 1) as usize)
        } else {
            rest
        }
    }
}

/// What the bodyguard does at each stage: at its own stage every harmful
/// visit on the guarded target is redirected onto the bodyguard and the
/// attackers are recorded; at the heal stage a self-shield raises the
/// bodyguard's own defense and spends a shield; at the kill stage each
/// recorded attacker takes an armor-piercing counter-attack; at the
/// investigative stage the guarded target and the bodyguard get the
/// attacked/protected message pair.
pub open spec fn spec_bodyguard_effect(
    oldg: Game,
    newg: Game,
    actor: PlayerIndex,
    priority: Priority,
) -> bool {
    let oldp = oldg.players@[actor as int];
    match oldp.role_state {
        RoleState::Bodyguard(b) => match priority {
            Priority::Bodyguard => {
                if oldp.night_variables.visits@.len() == 0
                    || oldp.night_variables.visits@[0].target == actor {
                    newg == oldg
                } else {
                    let t = oldp.night_variables.visits@[0].target;
                    let attackers = spec_attackers_of(oldg.players@, t);
                    &&& crate::game::non_player_fields_unchanged(oldg, newg)
                    &&& forall|j: int|
                        0 <= j < oldg.n() && j != actor ==> {
                            &&& crate::game::same_player_except_night(
                                oldg.players@[j],
                                (#[trigger] newg.players@[j]),
                            )
                            &&& crate::game::nv_eq_except_visits(
                                oldg.players@[j].night_variables,
                                newg.players@[j].night_variables,
                            )
                            &&& newg.players@[j].night_variables.visits@ == spec_redirected(
                                oldg.players@[j].night_variables.visits@,
                                t,
                                actor,
                            )
                        }
                    &&& newg.players@[actor as int] == (Player {
                        role_state: newg.players@[actor as int].role_state,
                        night_variables: newg.players@[actor as int].night_variables,
                        ..oldp
                    })
                    &&& crate::game::nv_eq_except_visits(
                        oldp.night_variables,
                        newg.players@[actor as int].night_variables,
                    )
                    &&& newg.players@[actor as int].night_variables.visits@ == spec_redirected(
                        oldp.night_variables.visits@,
                        t,
                        actor,
                    )
                    &&& (newg.players@[actor as int].role_state matches RoleState::Bodyguard(nb)
                        && nb.self_shields_remaining == b.self_shields_remaining
                        && nb.redirected_player_refs@ == attackers && nb.target_protected_ref
                        == if attackers.len() > 0 {
                        Some(t)
                    } else {
                        None
                    })
                }
            },
            Priority::Heal => {
                if oldp.night_variables.visits@.len() == 0
                    || oldp.night_variables.visits@[0].target != actor {
                    newg == oldg
                } else {
                    &&& crate::game::only_players_changed(oldg, newg, actor as int)
                    &&& newg.players@[actor as int] == (Player {
                        role_state: newg.players@[actor as int].role_state,
                        night_variables: (crate::player::PlayerNightVariables {
                            defense: spec_defense_max(
                                oldp.night_variables.defense,
                                DefensePower::Protection,
                            ),
                            ..oldp.night_variables
                        }),
                        ..oldp
                    })
                    &&& (newg.players@[actor as int].role_state matches RoleState::Bodyguard(nb)
                        && nb.self_shields_remaining == if b.self_shields_remaining > 0 {
                        (b.self_shields_remaining - 1) as u8
                    } else {
                        0
                    } && nb.target_protected_ref == b.target_protected_ref
                        && nb.redirected_player_refs@ == b.redirected_player_refs@)
                }
            },
            Priority::Kill => {
                let recorded = b.redirected_player_refs@;
                &&& crate::game::non_player_fields_unchanged(oldg, newg)
                &&& forall|j: int|
                    0 <= j < oldg.n() && j != actor && !recorded.contains(j as usize)
                        ==> (#[trigger] newg.players@[j]) == oldg.players@[j]
                &&& forall|j: int|
                    0 <= j < oldg.n() && j != actor && recorded.contains(j as usize) && (
                    #[trigger] oldg.players@[j]).alive ==> {
                        let oldnv = oldg.players@[j].night_variables;
                        let newnv = newg.players@[j].night_variables;
                        let blocked = crate::power::attack_level(AttackPower::ArmorPiercing)
                            <= crate::power::defense_level(oldnv.defense);
                        &&& crate::game::same_player_except_night(
                            oldg.players@[j],
                            newg.players@[j],
                        )
                        &&& newnv.attacked
                        &&& newnv.defense == oldnv.defense
                        &&& newnv.died == (oldnv.died || !blocked)
                        &&& (!blocked ==> newnv.grave_killers@.contains(
                            GraveKiller::Role(Role::Bodyguard),
                        ))
                    }
            },
            Priority::Investigative => {
                match b.target_protected_ref {
                    Some(x) => if x < oldg.n() {
                        spec_pushed_protect_pair(oldg, newg, actor, x)
                    } else {
                        newg == oldg
                    },
                    None => newg == oldg,
                }
            },
            _ => newg == oldg,
        },
        _ => newg == oldg,
    }
}

/// What the mafioso does: nothing before the second day or outside the
/// kill stage, and otherwise one basic mafia attack on the first committed
/// visit's target.
pub open spec fn spec_mafioso_effect(
    oldg: Game,
    newg: Game,
    actor: PlayerIndex,
    priority: Priority,
) -> bool {
    let oldp = oldg.players@[actor as int];
    if !(priority is Kill) || oldg.phase_machine.day_number == 1
        || oldp.night_variables.visits@.len() == 0 {
        newg == oldg
    } else {
        let t = oldp.night_variables.visits@[0].target;
        &&& crate::game::non_player_fields_unchanged(oldg, newg)
        &&& exists|dead: bool|
            crate::game::spec_kill_players(
                oldg.players@,
                newg.players@,
                actor as int,
                t as int,
                GraveKiller::Faction(Faction::Mafia),
                AttackPower::Basic,
                false,
                dead,
            )
    }
}

/// What the godfather does: nothing before the second day or outside the
/// kill stage; a basic mafia attack on their own first visit's target when
/// free to act; and, when blocked, the recorded backup carries out the kill
/// on the backup's first visit's target, announced to the mafia.
pub open spec fn spec_godfather_effect(
    oldg: Game,
    newg: Game,
    actor: PlayerIndex,
    priority: Priority,
) -> bool {
    let oldp = oldg.players@[actor as int];
    match oldp.role_state {
        RoleState::Godfather(g) => {
            if !(priority is Kill) || oldg.phase_machine.day_number == 1 {
                newg == oldg
            } else if crate::player::spec_night_blocked(oldp) {
                match g.backup {
                    Some(b) => if b < oldg.n()
                        && oldg.players@[b as int].night_variables.visits@.len() > 0 {
                        let t = oldg.players@[b as int].night_variables.visits@[0].target;
                        &&& newg == (Game {
                            players: newg.players,
                            queued_messages: newg.queued_messages,
                            ..oldg
                        })
                        &&& newg.queued_messages@ == oldg.queued_messages@.push(
                            crate::game::QueuedMessage {
                                recipient: crate::game::MessageRecipient::Group(
                                    PlayerGroup::Mafia,
                                ),
                                message: ChatMessage {
                                    variant: ChatMessageVariant::NightInformation {
                                        night_information:
                                            NightInformation::GodfatherBackupKilled { backup: b },
                                    },
                                    chat_group: Some(PlayerGroup::Mafia),
                                },
                            },
                        )
                        &&& exists|dead: bool|
                            crate::game::spec_kill_players(
                                oldg.players@,
                                newg.players@,
                                b as int,
                                t as int,
                                GraveKiller::Faction(Faction::Mafia),
                                AttackPower::Basic,
                                false,
                                dead,
                            )
                    } else {
                        newg == oldg
                    },
                    None => newg == oldg,
                }
            } else if oldp.night_variables.visits@.len() > 0 {
                let t = oldp.night_variables.visits@[0].target;
                &&& crate::game::non_player_fields_unchanged(oldg, newg)
                &&& exists|dead: bool|
                    crate::game::spec_kill_players(
                        oldg.players@,
                        newg.players@,
                        actor as int,
                        t as int,
                        GraveKiller::Faction(Faction::Mafia),
                        AttackPower::Basic,
                        false,
                        dead,
                    )
            } else {
                newg == oldg
            }
        },
        _ => newg == oldg,
    }
}

/// What the martyr does at the kill stage: with a bullet and a committed
/// visit, the bullet is spent; a self-shot is a basic suicide attack that
/// wins the game for the martyr if it lands, and any other target takes a
/// basic attack, the death note left behind either way.
pub open spec fn spec_martyr_effect(
    oldg: Game,
    newg: Game,
    actor: PlayerIndex,
    priority: Priority,
) -> bool {
    let oldp = oldg.players@[actor as int];
    match oldp.role_state {
        RoleState::Martyr(m) => match m.state {
            MartyrState::StillPlaying { bullets, should_shoot } => {
                if !(priority is Kill) || bullets == 0
                    || oldp.night_variables.visits@.len() == 0 {
                    newg == oldg
                } else {
                    let t = oldp.night_variables.visits@[0].target;
                    &&& crate::game::non_player_fields_unchanged(oldg, newg)
                    &&& if t == actor {
                        exists|mid: Seq<Player>, dead: bool|
                            {
                                &&& #[trigger] crate::game::spec_kill_players(
                                    oldg.players@,
                                    mid,
                                    actor as int,
                                    actor as int,
                                    GraveKiller::Suicide,
                                    AttackPower::Basic,
                                    true,
                                    dead,
                                )
                                &&& newg.players@ == mid.update(
                                    actor as int,
                                    (Player {
                                        role_state: RoleState::Martyr(
                                            Martyr {
                                                state: if dead {
                                                    MartyrState::Won
                                                } else {
                                                    MartyrState::StillPlaying {
                                                        bullets: (bullets - 1) as u8,
                                                        should_shoot,
                                                    }
                                                },
                                            },
                                        ),
                                        ..mid[actor as int]
                                    }),
                                )
                            }
                    } else {
                        exists|mid: Seq<Player>, dead: bool|
                            {
                                &&& #[trigger] crate::game::spec_kill_players(
                                    oldg.players@,
                                    mid,
                                    actor as int,
                                    t as int,
                                    GraveKiller::Role(Role::Martyr),
                                    AttackPower::Basic,
                                    true,
                                    dead,
                                )
                                &&& newg.players@ == mid.update(
                                    actor as int,
                                    (Player {
                                        role_state: RoleState::Martyr(
                                            Martyr {
                                                state: MartyrState::StillPlaying {
                                                    bullets: (bullets - 1) as u8,
                                                    should_shoot,
                                                },
                                            },
                                        ),
                                        ..mid[actor as int]
                                    }),
                                )
                            }
                    }
                }
            },
            _ => newg == oldg,
        },
        _ => newg == oldg,
    }
}

/// The trap state the engineer's heal stage moves to: an unblocked engineer
/// rebuilds a dismantled trap, arms a ready one on the first visit's
/// target, and tears down an armed one when choosing anew.
pub open spec fn spec_engineer_next_trap(oldp: Player, trap: Trap) -> Trap {
    if crate::player::spec_night_blocked(oldp) {
        trap
    } else {
        match trap {
            Trap::Dismantled => Trap::Ready,
            Trap::Ready => if oldp.night_variables.visits@.len() > 0 {
                Trap::Armed { target: oldp.night_variables.visits@[0].target }
            } else {
                Trap::Ready
            },
            Trap::Armed { .. } => if oldp.night_variables.visits@.len() > 0 {
                Trap::Ready
            } else {
                trap
            },
        }
    }
}

/// What the engineer's heal stage does: the trap transition above, and a
/// raise to protection on the target an armed trap now covers.
pub open spec fn spec_engineer_heal_effect(oldg: Game, newg: Game, actor: PlayerIndex) -> bool {
    let oldp = oldg.players@[actor as int];
    match oldp.role_state {
        RoleState::Engineer(e) => {
            let new_trap = spec_engineer_next_trap(oldp, e.trap);
            &&& newg.players@[actor as int].role_state == RoleState::Engineer(
                Engineer { trap: new_trap },
            )
            &&& match new_trap {
                Trap::Armed { target } => if target < oldg.n() {
                    &&& crate::game::only_players_changed2(oldg, newg, actor as int, target as int)
                    &&& newg.players@[target as int].night_variables.defense == spec_defense_max(
                        oldg.players@[target as int].night_variables.defense,
                        DefensePower::Protection,
                    )
                    &&& (target != actor ==> crate::game::same_player_except_night(
                        oldg.players@[target as int],
                        newg.players@[target as int],
                    ) && crate::game::nv_eq_except_defense(
                        oldg.players@[target as int].night_variables,
                        newg.players@[target as int].night_variables,
                    ) && newg.players@[actor as int] == (Player {
                        role_state: RoleState::Engineer(Engineer { trap: new_trap }),
                        ..oldp
                    }))
                    &&& (target == actor ==> newg.players@[actor as int] == (Player {
                        role_state: RoleState::Engineer(Engineer { trap: new_trap }),
                        night_variables: (crate::player::PlayerNightVariables {
                            defense: spec_defense_max(
                                oldp.night_variables.defense,
                                DefensePower::Protection,
                            ),
                            ..oldp.night_variables
                        }),
                        ..oldp
                    }))
                } else {
                    &&& crate::game::only_players_changed(oldg, newg, actor as int)
                    &&& newg.players@[actor as int] == (Player {
                        role_state: RoleState::Engineer(Engineer { trap: new_trap }),
                        ..oldp
                    })
                },
                _ => {
                    &&& crate::game::only_players_changed(oldg, newg, actor as int)
                    &&& newg.players@[actor as int] == (Player {
                        role_state: RoleState::Engineer(Engineer { trap: new_trap }),
                        ..oldp
                    })
                },
            }
        },
        _ => newg == oldg,
    }
}

/// Dispatches one player's role policy for one priority stage.  A stage a
/// role has nothing to do at is a silent no-op, as is any action whose
/// preconditions have lapsed since selection.  For the protective and
/// killing roles the per-stage effect is pinned exactly by the relations
/// above.
pub fn do_night_action(game: &mut Game, actor: PlayerIndex, priority: Priority)
    requires
        actor < old(game).n(),
        old(game).wf(),
    ensures
        final(game).wf(),
        night_action_frame(*old(game), *final(game)),
        spec_role_of(old(game).players@[actor as int].role_state) is Doctor
            ==> spec_doctor_effect(*old(game), *final(game), actor, priority),
        spec_role_of(old(game).players@[actor as int].role_state) is Bodyguard
            ==> spec_bodyguard_effect(*old(game), *final(game), actor, priority),
        spec_role_of(old(game).players@[actor as int].role_state) is Mafioso
            ==> spec_mafioso_effect(*old(game), *final(game), actor, priority),
        spec_role_of(old(game).players@[actor as int].role_state) is Godfather
            ==> spec_godfather_effect(*old(game), *final(game), actor, priority),
        spec_role_of(old(game).players@[actor as int].role_state) is Martyr
            ==> spec_martyr_effect(*old(game), *final(game), actor, priority),
        spec_role_of(old(game).players@[actor as int].role_state) is Engineer && priority
            is Heal ==> spec_engineer_heal_effect(*old(game), *final(game), actor),
        spec_role_of(old(game).players@[actor as int].role_state) is Ojo ==> spec_ojo_effect(
            *old(game),
            *final(game),
            actor,
            priority,
        ),
        spec_role_of(old(game).players@[actor as int].role_state) is Spy ==> spec_spy_effect(
            *old(game),
            *final(game),
            actor,
            priority,
        ),
        spec_role_of(old(game).players@[actor as int].role_state) is Minion
            ==> spec_minion_effect(*old(game), *final(game), actor, priority),
{
    match game.players[actor].role_state.role() {
        Role::Doctor => doctor_action(game, actor, priority),
        Role::Bodyguard => bodyguard_action(game, actor, priority),
        Role::Transporter => transporter_action(game, actor, priority),
        Role::Jailor => jailor_action(game, actor, priority),
        Role::Godfather => godfather_action(game, actor, priority),
        Role::Mafioso => mafioso_action(game, actor, priority),
        Role::Martyr => martyr_action(game, actor, priority),
        _ => extended_night_action(game, actor, priority),
    }
}

fn doctor_action(game: &mut Game, actor: PlayerIndex, priority: Priority)
    requires
        actor < old(game).n(),
        old(game).wf(),
    ensures
        final(game).wf(),
        night_action_frame(*old(game), *final(game)),
        spec_doctor_effect(*old(game), *final(game), actor, priority),
{
    let d = match &game.players[actor].role_state {
        RoleState::Doctor(d) => *d,
        _ => {
            return ;
        },
    };
    match priority {
        Priority::TopPriority => {
            game.set_role_state(
                actor,
                RoleState::Doctor(
                    Doctor {
                        self_heals_remaining: d.self_heals_remaining,
                        target_healed_ref: None,
                    },
                ),
            );
        },
        Priority::Heal => {
            let visit = match game.night_visit(actor, 0) {
                Some(v) => v,
                None => {
                    return ;
                },
            };
            let target = visit.target;
            game.increase_defense_to(target, DefensePower::Protection);
            let heals = if actor == target {
                if d.self_heals_remaining > 0 {
                    d.self_heals_remaining - 1
                } else {
                    0
                }
            } else {
                d.self_heals_remaining
            };
            game.set_role_state(
                actor,
                RoleState::Doctor(
                    Doctor { self_heals_remaining: heals, target_healed_ref: Some(target) },
                ),
            );
        },
        Priority::Investigative => {
            if let Some(healed) = d.target_healed_ref {
                if healed < game.players.len() {
                    if game.night_attacked(healed) {
                        game.push_night_message(actor, NightInformation::TargetWasAttacked);
                        game.push_night_message(healed, NightInformation::YouWereProtected);
                    }
                }
            }
        },
        _ => {},
    }
}

#[verifier::rlimit(80)]
fn bodyguard_action(game: &mut Game, actor: PlayerIndex, priority: Priority)
    requires
        actor < old(game).n(),
        old(game).wf(),
    ensures
        final(game).wf(),
        night_action_frame(*old(game), *final(game)),
        spec_bodyguard_effect(*old(game), *final(game), actor, priority),
{
    let (shields, protected, redirected) = match &game.players[actor].role_state {
        RoleState::Bodyguard(b) => (
            b.self_shields_remaining,
            b.target_protected_ref,
            copy_vec(&b.redirected_player_refs),
        ),
        _ => {
            return ;
        },
    };
    match priority {
        Priority::Bodyguard => {
            let visit = match game.night_visit(actor, 0) {
                Some(v) => v,
                None => {
                    return ;
                },
            };
            let target = visit.target;
            if actor == target {
                return ;
            }
            let n = game.players.len();
            let mut new_redirected: Vec<PlayerIndex> = Vec::new();
            let mut new_protected: Option<PlayerIndex> = None;
            let mut j: usize = 0;
            while j < n
                invariant
                    game.wf(),
                    game.n() == n,
                    actor < n,
                    target < n,
                    actor != target,
                    j <= n,
                    night_action_frame(*old(game), *game),
                    crate::game::non_player_fields_unchanged(*old(game), *game),
                    idxs_in_bounds(new_redirected@, n as int),
                    crate::game::opt_in_bounds(new_protected, n as int),
                    new_redirected@ == spec_attackers_of(old(game).players@.take(j as int), target),
                    new_protected == if spec_attackers_of(
                        old(game).players@.take(j as int),
                        target,
                    ).len() > 0 {
                        Some(target)
                    } else {
                        None::<PlayerIndex>
                    },
                    forall|m: int| j <= m < n ==> game.players@[m] == old(game).players@[m],
                    forall|m: int|
                        0 <= m < j ==> {
                            &&& crate::game::same_player_except_night(
                                old(game).players@[m],
                                (#[trigger] game.players@[m]),
                            )
                            &&& crate::game::nv_eq_except_visits(
                                old(game).players@[m].night_variables,
                                game.players@[m].night_variables,
                            )
                            &&& game.players@[m].night_variables.visits@ == spec_redirected(
                                old(game).players@[m].night_variables.visits@,
                                target,
                                actor,
                            )
                        },
                decreases n - j,
            {
                let old_visits = copy_vec(&game.players[j].night_variables.visits);
                let mut rewritten: Vec<Visit> = Vec::new();
                let mut touched = false;
                let mut k: usize = 0;
                while k < old_visits.len()
                    invariant
                        actor < n,
                        k <= old_visits@.len(),
                        rewritten@ == spec_redirected(old_visits@.take(k as int), target, actor),
                        touched == exists|q: int|
                            0 <= q < k && (#[trigger] old_visits@[q]).target == target
                                && old_visits@[q].attack,
                        visits_in_bounds(old_visits@, n as int) ==> visits_in_bounds(
                            rewritten@,
                            n as int,
                        ),
                    decreases old_visits@.len() - k,
                {
                    let mut v = old_visits[k];
                    if v.target == target && v.attack {
                        v.target = actor;
                        touched = true;
                    }
                    rewritten.push(v);
                    proof {
                        assert(rewritten@ =~= spec_redirected(
                            old_visits@.take(k + 1 as int),
                            target,
                            actor,
                        ));
                    }
                    k = k + 1;
                }
                proof {
                    assert(old_visits@.take(old_visits@.len() as int) =~= old_visits@);
                    assert(touched == spec_has_attack_visit_to(
                        old(game).players@[j as int],
                        target,
                    ));
                    assert(old(game).players@.take(j + 1 as int).drop_last() =~= old(
                        game,
                    ).players@.take(j as int));
                    assert(old(game).players@.take(j + 1 as int).last() == old(
                        game,
                    ).players@[j as int]);
                }
                if touched {
                    new_redirected.push(j);
                    new_protected = Some(target);
                    proof {
                        assert(player_wf(game.players@[j as int], game.n()));
                    }
                    game.set_night_visits(j, rewritten);
                } else {
                    proof {
                        assert(game.players@[j as int].night_variables.visits@ =~= spec_redirected(
                            old(game).players@[j as int].night_variables.visits@,
                            target,
                            actor,
                        ));
                    }
                }
                j = j + 1;
            }
            proof {
                assert(old(game).players@.take(n as int) =~= old(game).players@);
            }
            game.set_role_state(
                actor,
                RoleState::Bodyguard(
                    Bodyguard {
                        self_shields_remaining: shields,
                        target_protected_ref: new_protected,
                        redirected_player_refs: new_redirected,
                    },
                ),
            );
        },
        Priority::Heal => {
            let visit = match game.night_visit(actor, 0) {
                Some(v) => v,
                None => {
                    return ;
                },
            };
            if visit.target == actor {
                let left = if shields > 0 {
                    shields - 1
                } else {
                    0
                };
                game.set_role_state(
                    actor,
                    RoleState::Bodyguard(
                        Bodyguard {
                            self_shields_remaining: left,
                            target_protected_ref: protected,
                            redirected_player_refs: redirected,
                        },
                    ),
                );
                game.increase_defense_to(actor, DefensePower::Protection);
            }
        },
        Priority::Kill => {
            let n = game.players.len();
            let mut k: usize = 0;
            while k < redirected.len()
                invariant
                    game.wf(),
                    game.n() == n,
                    actor < n,
                    k <= redirected@.len(),
                    night_action_frame(*old(game), *game),
                    crate::game::non_player_fields_unchanged(*old(game), *game),
                    forall|m: int|
                        0 <= m < n && m != actor && !redirected@.take(k as int).contains(
                            m as usize,
                        ) ==> (#[trigger] game.players@[m]) == old(game).players@[m],
                    forall|m: int|
                        0 <= m < n && m != actor && redirected@.take(k as int).contains(
                            m as usize,
                        ) && (#[trigger] old(game).players@[m]).alive ==> {
                            let oldnv = old(game).players@[m].night_variables;
                            let newnv = game.players@[m].night_variables;
                            let blocked = crate::power::attack_level(AttackPower::ArmorPiercing)
                                <= crate::power::defense_level(oldnv.defense);
                            &&& crate::game::same_player_except_night(
                                old(game).players@[m],
                                game.players@[m],
                            )
                            &&& newnv.attacked
                            &&& newnv.defense == oldnv.defense
                            &&& newnv.died == (oldnv.died || !blocked)
                            &&& (!blocked ==> newnv.grave_killers@.contains(
                                GraveKiller::Role(Role::Bodyguard),
                            ))
                        },
                decreases redirected@.len() - k,
            {
                let attacker_ref = redirected[k];
                proof {
                    assert(redirected@.take(k + 1 as int).drop_last() =~= redirected@.take(
                        k as int,
                    ));
                    assert(redirected@.take(k + 1 as int).last() == attacker_ref);
                    assert forall|m: int|
                        #[trigger] redirected@.take(k + 1 as int).contains(m as usize)
                            implies redirected@.take(k as int).contains(m as usize) || m as usize
                        == attacker_ref by {
                        if m as usize != attacker_ref {
                            let i = choose|i: int|
                                0 <= i < redirected@.take(k + 1 as int).len()
                                    && #[trigger] redirected@.take(k + 1 as int)[i] == m as usize;
                            assert(redirected@.take(k as int)[i] == m as usize);
                        }
                    }
                }
                let ghost pre = *game;
                if attacker_ref < n {
                    game.try_night_kill_single_attacker(
                        actor,
                        attacker_ref,
                        GraveKiller::Role(Role::Bodyguard),
                        AttackPower::ArmorPiercing,
                        false,
                    );
                    proof {
                        let oldnv = pre.players@[attacker_ref as int].night_variables;
                        let newnv = game.players@[attacker_ref as int].night_variables;
                        let blocked = crate::power::attack_level(AttackPower::ArmorPiercing)
                            <= crate::power::defense_level(oldnv.defense);
                        if pre.players@[attacker_ref as int].alive && !blocked {
                            assert(newnv.grave_killers@.last() == GraveKiller::Role(
                                Role::Bodyguard,
                            ));
                            assert(newnv.grave_killers@.contains(
                                GraveKiller::Role(Role::Bodyguard),
                            ));
                            assert forall|gk: GraveKiller|
                                oldnv.grave_killers@.contains(gk)
                                    implies newnv.grave_killers@.contains(gk) by {
                                let i = choose|i: int|
                                    0 <= i < oldnv.grave_killers@.len()
                                        && oldnv.grave_killers@[i] == gk;
                                assert(newnv.grave_killers@[i] == gk);
                            }
                        }
                    }
                }
                k = k + 1;
            }
            proof {
                assert(redirected@.take(redirected@.len() as int) =~= redirected@);
            }
        },
        Priority::Investigative => {
            if let Some(t) = protected {
                if t < game.players.len() {
                    game.push_night_message(actor, NightInformation::TargetWasAttacked);
                    game.push_night_message(t, NightInformation::YouWereProtected);
                }
            }
        },
        _ => {},
    }
}

fn transporter_action(game: &mut Game, actor: PlayerIndex, priority: Priority)
    requires
        actor < old(game).n(),
        old(game).wf(),
    ensures
        final(game).wf(),
        night_action_frame(*old(game), *final(game)),
{
    if !matches!(priority, Priority::Transporter) {
        return ;
    }
    let first = match game.night_visit(actor, 0) {
        Some(v) => v,
        None => {
            return ;
        },
    };
    let second = match game.night_visit(actor, 1) {
        Some(v) => v,
        None => {
            return ;
        },
    };
    let t1 = first.target;
    let t2 = second.target;
    game.push_night_message(t1, NightInformation::Transported);
    game.push_night_message(t2, NightInformation::Transported);
    let n = game.players.len();
    let mut j: usize = 0;
    while j < n
        invariant
            game.wf(),
            game.n() == n,
            t1 < n,
            t2 < n,
            actor < n,
            night_action_frame(*old(game), *game),
        decreases n - j,
    {
        if j != actor && !matches!(game.players[j].role_state.role(), Role::Transporter) {
            let old_visits = copy_vec(&game.players[j].night_variables.visits);
            let mut rewritten: Vec<Visit> = Vec::new();
            let mut k: usize = 0;
            while k < old_visits.len()
                invariant
                    t1 < n,
                    t2 < n,
                    visits_in_bounds(old_visits@, n as int) ==> visits_in_bounds(
                        rewritten@,
                        n as int,
                    ),
                decreases old_visits@.len() - k,
            {
                let mut v = old_visits[k];
                if v.target == t1 {
                    v.target = t2;
                } else if v.target == t2 {
                    v.target = t1;
                }
                rewritten.push(v);
                k = k + 1;
            }
            proof {
                assert(player_wf(game.players@[j as int], game.n()));
            }
            game.set_night_visits(j, rewritten);
        }
        j = j + 1;
    }
}

fn jailor_action(game: &mut Game, actor: PlayerIndex, priority: Priority)
    requires
        actor < old(game).n(),
        old(game).wf(),
    ensures
        final(game).wf(),
        night_action_frame(*old(game), *final(game)),
{
    let j = match &game.players[actor].role_state {
        RoleState::Jailor(j) => *j,
        _ => {
            return ;
        },
    };
    match priority {
        Priority::Ward => {
            let n = game.players.len();
            let mut w: usize = 0;
            while w < n
                invariant
                    game.wf(),
                    game.n() == n,
                    night_action_frame(*old(game), *game),
                decreases n - w,
            {
                if game.players[w].night_variables.jailed {
                    ward(game, w);
                }
                w = w + 1;
            }
        },
        Priority::Roleblock => {
            let n = game.players.len();
            let mut w: usize = 0;
            while w < n
                invariant
                    game.wf(),
                    game.n() == n,
                    night_action_frame(*old(game), *game),
                decreases n - w,
            {
                if game.players[w].night_variables.jailed {
                    let _ = game.roleblock(w, false);
                }
                w = w + 1;
            }
        },
        Priority::Kill => {
            let visit = match game.night_visit(actor, 0) {
                Some(v) => v,
                None => {
                    return ;
                },
            };
            let target = visit.target;
            if game.night_jailed(target) {
                game.try_night_kill_single_attacker(
                    actor,
                    target,
                    GraveKiller::Role(Role::Jailor),
                    AttackPower::ProtectionPiercing,
                    false,
                );
                let left = if matches!(
                    game.players[target].role_state.role().faction(),
                    Faction::Town,
                ) {
                    0
                } else if j.executions_remaining > 0 {
                    j.executions_remaining - 1
                } else {
                    0
                };
                game.set_role_state(
                    actor,
                    RoleState::Jailor(
                        Jailor { jailed_target_ref: None, executions_remaining: left },
                    ),
                );
            }
        },
        _ => {},
    }
}

fn godfather_action(game: &mut Game, actor: PlayerIndex, priority: Priority)
    requires
        actor < old(game).n(),
        old(game).wf(),
    ensures
        final(game).wf(),
        night_action_frame(*old(game), *final(game)),
        spec_godfather_effect(*old(game), *final(game), actor, priority),
{
    if !matches!(priority, Priority::Kill) {
        return ;
    }
    if game.day_number() == 1 {
        return ;
    }
    let backup = match &game.players[actor].role_state {
        RoleState::Godfather(g) => g.backup,
        _ => {
            return ;
        },
    };
    if game.night_blocked(actor) {
        if let Some(b) = backup {
            if b < game.players.len() {
                if let Some(visit) = game.night_visit(b, 0) {
                    game.add_message_to_chat_group(
                        PlayerGroup::Mafia,
                        ChatMessage::new_non_private(
                            ChatMessageVariant::NightInformation {
                                night_information: NightInformation::GodfatherBackupKilled {
                                    backup: b,
                                },
                            },
                            PlayerGroup::Mafia,
                        ),
                    );
                    let dead = game.try_night_kill_single_attacker(
                        b,
                        visit.target,
                        GraveKiller::Faction(Faction::Mafia),
                        AttackPower::Basic,
                        false,
                    );
                    proof {
                        assert(crate::game::spec_kill_players(
                            old(game).players@,
                            game.players@,
                            b as int,
                            visit.target as int,
                            GraveKiller::Faction(Faction::Mafia),
                            AttackPower::Basic,
                            false,
                            dead,
                        ));
                    }
                }
            }
        }
    } else if let Some(visit) = game.night_visit(actor, 0) {
        let dead = game.try_night_kill_single_attacker(
            actor,
            visit.target,
            GraveKiller::Faction(Faction::Mafia),
            AttackPower::Basic,
            false,
        );
        proof {
            assert(crate::game::spec_kill_players(
                old(game).players@,
                game.players@,
                actor as int,
                visit.target as int,
                GraveKiller::Faction(Faction::Mafia),
                AttackPower::Basic,
                false,
                dead,
            ));
        }
    }
}

fn mafioso_action(game: &mut Game, actor: PlayerIndex, priority: Priority)
    requires
        actor < old(game).n(),
        old(game).wf(),
    ensures
        final(game).wf(),
        night_action_frame(*old(game), *final(game)),
        spec_mafioso_effect(*old(game), *final(game), actor, priority),
{
    if !matches!(priority, Priority::Kill) {
        return ;
    }
    if game.day_number() == 1 {
        return ;
    }
    if let Some(visit) = game.night_visit(actor, 0) {
        let dead = game.try_night_kill_single_attacker(
            actor,
            visit.target,
            GraveKiller::Faction(Faction::Mafia),
            AttackPower::Basic,
            false,
        );
        proof {
            assert(crate::game::spec_kill_players(
                old(game).players@,
                game.players@,
                actor as int,
                visit.target as int,
                GraveKiller::Faction(Faction::Mafia),
                AttackPower::Basic,
                false,
                dead,
            ));
        }
    }
}

fn martyr_action(game: &mut Game, actor: PlayerIndex, priority: Priority)
    requires
        actor < old(game).n(),
        old(game).wf(),
    ensures
        final(game).wf(),
        night_action_frame(*old(game), *final(game)),
        spec_martyr_effect(*old(game), *final(game), actor, priority),
{
    if !matches!(priority, Priority::Kill) {
        return ;
    }
    let state = match &game.players[actor].role_state {
        RoleState::Martyr(m) => m.state,
        _ => {
            return ;
        },
    };
    let (bullets, should_shoot) = match state {
        MartyrState::StillPlaying { bullets, should_shoot } => (bullets, should_shoot),
        _ => {
            return ;
        },
    };
    if bullets == 0 {
        return ;
    }
    if let Some(visit) = game.night_visit(actor, 0) {
        let target = visit.target;
        let mut new_state = MartyrState::StillPlaying {
            bullets: bullets - 1,
            should_shoot,
        };
        let ghost mut mid: Seq<Player> = Seq::empty();
        let ghost mut dead_g: bool = false;
        if target == actor {
            let died = game.try_night_kill_single_attacker(
                actor,
                actor,
                GraveKiller::Suicide,
                AttackPower::Basic,
                true,
            );
            proof {
                mid = game.players@;
                dead_g = died;
                assert(crate::game::spec_kill_players(
                    old(game).players@,
                    mid,
                    actor as int,
                    actor as int,
                    GraveKiller::Suicide,
                    AttackPower::Basic,
                    true,
                    dead_g,
                ));
            }
            if died {
                new_state = MartyrState::Won;
            }
        } else {
            let died = game.try_night_kill_single_attacker(
                actor,
                target,
                GraveKiller::Role(Role::Martyr),
                AttackPower::Basic,
                true,
            );
            proof {
                mid = game.players@;
                dead_g = died;
                assert(crate::game::spec_kill_players(
                    old(game).players@,
                    mid,
                    actor as int,
                    target as int,
                    GraveKiller::Role(Role::Martyr),
                    AttackPower::Basic,
                    true,
                    dead_g,
                ));
            }
        }
        game.set_role_state(actor, RoleState::Martyr(Martyr { state: new_state }));
        proof {
            assert(game.players@ =~= mid.update(
                actor as int,
                (Player {
                    role_state: RoleState::Martyr(Martyr { state: new_state }),
                    ..mid[actor as int]
                }),
            ));
        }
    }
}

/// Whether the player reads as suspicious to an investigator: auras first,
/// faction otherwise.
pub fn player_is_suspicious(game: &Game, player: PlayerIndex) -> (r: bool)
    requires
        player < game.n(),
{
    if game.player_has_suspicious_aura(player) {
        true
    } else if game.player_has_innocent_aura(player) {
        false
    } else {
        !matches!(game.players[player].role_state.role().faction(), Faction::Town)
    }
}

/// Whether two players read as enemies to a philosopher: auras first, then
/// whether their factions could win together.
pub fn players_are_enemies(game: &Game, a: PlayerIndex, b: PlayerIndex) -> (r: bool)
    requires
        a < game.n(),
        b < game.n(),
{
    if game.player_has_suspicious_aura(a) || game.player_has_suspicious_aura(b) {
        true
    } else if game.player_has_innocent_aura(a) || game.player_has_innocent_aura(b) {
        false
    } else {
        let fa = game.players[a].role_state.role().faction();
        let fb = game.players[b].role_state.role().faction();
        fa != fb
    }
}

/// Whether both players sit on the same organised evil team.
pub fn same_evil_team(game: &Game, actor: PlayerIndex, target: PlayerIndex) -> (r: bool)
    requires
        actor < game.n(),
        target < game.n(),
    ensures
        r == {
            let fa = crate::role::spec_faction(spec_role_of(game.players@[actor as int].role_state));
            let fb = crate::role::spec_faction(spec_role_of(game.players@[target as int].role_state));
            (fa is Mafia && fb is Mafia) || (fa is Cult && fb is Cult)
        },
{
    let fa = game.players[actor].role_state.role().faction();
    let fb = game.players[target].role_state.role().faction();
    (matches!(fa, Faction::Mafia) && matches!(fb, Faction::Mafia)) || (matches!(fa, Faction::Cult)
        && matches!(fb, Faction::Cult))
}

/// Swap the player's role, re-running the new role's creation hook, and
/// telling the player their new assignment.
pub fn set_role(game: &mut Game, i: PlayerIndex, role: Role)
    requires
        i < old(game).n(),
        old(game).wf(),
    ensures
        final(game).wf(),
        night_action_frame(*old(game), *final(game)),
        spec_role_of(final(game).players@[i as int].role_state) == role,
{
    let state = crate::role_state::default_state(role);
    game.set_role_state(i, state);
    game.add_chat_message(
        i,
        ChatMessage::new_private(ChatMessageVariant::RoleAssignment { role }),
    );
    on_role_creation(game, i);
}

/// The hook a role runs when a player first takes it up.
pub fn on_role_creation(game: &mut Game, i: PlayerIndex)
    requires
        i < old(game).n(),
        old(game).wf(),
    ensures
        final(game).wf(),
        night_action_frame(*old(game), *final(game)),
        forall|j: int|
            0 <= j < old(game).n() ==> spec_role_of(
                (#[trigger] final(game).players@[j]).role_state,
            ) == spec_role_of(old(game).players@[j].role_state),
{
    match game.players[i].role_state.role() {
        Role::Martyr => {
            game.add_message_to_chat_group(
                PlayerGroup::All,
                ChatMessage::new_non_private(
                    ChatMessageVariant::MartyrRevealed { martyr: i },
                    PlayerGroup::All,
                ),
            );
            let n = game.players.len();
            let mut j: usize = 0;
            while j < n
                invariant
                    game.wf(),
                    game.n() == n,
                    i < n,
                    night_action_frame(*old(game), *game),
                    forall|m: int|
                        0 <= m < n ==> spec_role_of((#[trigger] game.players@[m]).role_state)
                            == spec_role_of(old(game).players@[m].role_state),
                decreases n - j,
            {
                game.insert_role_label(j, i);
                j = j + 1;
            }
        },
        Role::Kira => {
            crate::kira::Kira::set_guesses(i, game);
        },
        _ => {},
    }
}

/// Night actions of the remaining roles; grown in a separate body to keep
/// each dispatch arm small.
#[verifier::rlimit(50)]
fn extended_night_action(game: &mut Game, actor: PlayerIndex, priority: Priority)
    requires
        actor < old(game).n(),
        old(game).wf(),
    ensures
        final(game).wf(),
        night_action_frame(*old(game), *final(game)),
        spec_role_of(old(game).players@[actor as int].role_state) is Engineer && priority
            is Heal ==> spec_engineer_heal_effect(*old(game), *final(game), actor),
        spec_role_of(old(game).players@[actor as int].role_state) is Ojo ==> spec_ojo_effect(
            *old(game),
            *final(game),
            actor,
            priority,
        ),
        spec_role_of(old(game).players@[actor as int].role_state) is Spy ==> spec_spy_effect(
            *old(game),
            *final(game),
            actor,
            priority,
        ),
        spec_role_of(old(game).players@[actor as int].role_state) is Minion
            ==> spec_minion_effect(*old(game), *final(game), actor, priority),
{
    match game.players[actor].role_state.role() {
        Role::Detective => detective_action(game, actor, priority),
        Role::Philosopher => philosopher_action(game, actor, priority),
        Role::Snoop => snoop_action(game, actor, priority),
        Role::Spy => spy_action(game, actor, priority),
        Role::Janitor => janitor_action(game, actor, priority),
        Role::Mortician => mortician_action(game, actor, priority),
        Role::Jester => jester_action(game, actor, priority),
        Role::Death => death_action(game, actor, priority),
        Role::Marksman => marksman_action(game, actor, priority),
        Role::Kidnapper => kidnapper_action(game, actor, priority),
        Role::Kira => kira_action(game, actor, priority),
        Role::Ojo => ojo_action(game, actor, priority),
        Role::Puppeteer => puppeteer_action(game, actor, priority),
        Role::Engineer => engineer_action(game, actor, priority),
        Role::Minion => minion_action(game, actor, priority),
        Role::Eros => eros_action(game, actor, priority),
        Role::Arsonist => arsonist_action(game, actor, priority),
        Role::Apostle => apostle_action(game, actor, priority),
        _ => {},
    }
}

fn detective_action(game: &mut Game, actor: PlayerIndex, priority: Priority)
    requires
        actor < old(game).n(),
        old(game).wf(),
    ensures
        final(game).wf(),
        night_action_frame(*old(game), *final(game)),
{
    if matches!(priority, Priority::Investigative) {
        if let Some(visit) = game.night_visit(actor, 0) {
            let suspicious = player_is_suspicious(game, visit.target);
            game.push_night_message(actor, NightInformation::SheriffResult { suspicious });
        }
    }
}

fn philosopher_action(game: &mut Game, actor: PlayerIndex, priority: Priority)
    requires
        actor < old(game).n(),
        old(game).wf(),
    ensures
        final(game).wf(),
        night_action_frame(*old(game), *final(game)),
{
    if matches!(priority, Priority::Investigative) {
        let first = game.night_visit(actor, 0);
        let second = game.night_visit(actor, 1);
        if let (Some(a), Some(b)) = (first, second) {
            let enemies = players_are_enemies(game, a.target, b.target);
            game.push_night_message(actor, NightInformation::SeerResult { enemies });
        }
    }
}

fn snoop_action(game: &mut Game, actor: PlayerIndex, priority: Priority)
    requires
        actor < old(game).n(),
        old(game).wf(),
    ensures
        final(game).wf(),
        night_action_frame(*old(game), *final(game)),
{
    if matches!(priority, Priority::Investigative) {
        if let Some(visit) = game.night_visit(actor, 0) {
            let target = visit.target;
            let n = game.players.len();
            let mut visited = false;
            let mut j: usize = 0;
            while j < n
                invariant
                    n == game.n(),
                    actor < n,
                decreases n - j,
            {
                if game.visits_target(j, actor) {
                    visited = true;
                }
                j = j + 1;
            }
            let townie = matches!(
                game.players[target].role_state.role().faction(),
                Faction::Town,
            ) && !visited && !game.player_has_suspicious_aura(target);
            game.push_night_message(actor, NightInformation::SnoopResult { townie });
        }
    }
}

/// Every mafia member's visit targets, in seat order and, within one seat,
/// in visit order.
pub open spec fn spec_mafia_visit_targets(ps: Seq<Player>) -> Seq<PlayerIndex>
    decreases ps.len(),
{
    if ps.len() == 0 {
        Seq::empty()
    } else {
        let rest = spec_mafia_visit_targets(ps.drop_last());
        if crate::role::spec_faction(spec_role_of(ps.last().role_state)) is Mafia {
            rest + ps.last().night_variables.visits@.map_values(|v: Visit| v.target)
        } else {
            rest
        }
    }
}

/// The bug reports a message list yields for the spy, in order: one entry
/// per silencing, roleblock, protection, transport or possession event.
pub open spec fn spec_bug_reports(msgs: Seq<NightInformation>) -> Seq<
    crate::role_state::SpyBug,
>
    decreases msgs.len(),
{
    if msgs.len() == 0 {
        Seq::empty()
    } else {
        let rest = spec_bug_reports(msgs.drop_last());
        match msgs.last() {
            NightInformation::Silenced => rest.push(crate::role_state::SpyBug::Silenced),
            NightInformation::RoleBlocked { .. } => rest.push(
                crate::role_state::SpyBug::Roleblocked,
            ),
            NightInformation::YouWereProtected => rest.push(crate::role_state::SpyBug::Protected),
            NightInformation::Transported => rest.push(crate::role_state::SpyBug::Transported),
            NightInformation::YouWerePossessed { .. } => rest.push(
                crate::role_state::SpyBug::Possessed,
            ),
            _ => rest,
        }
    }
}

/// How many living cultists are seated.
pub open spec fn spec_cult_count(ps: Seq<Player>) -> int
    decreases ps.len(),
{
    if ps.len() == 0 {
        0
    } else {
        spec_cult_count(ps.drop_last()) + if ps.last().alive && crate::role::spec_faction(
            spec_role_of(ps.last().role_state),
        ) is Cult {
            1int
        } else {
            0int
        }
    }
}

/// What the spy does at each stage: at the investigative stage an unblocked
/// spy learns every mafia visit target — the list shuffled, so only its
/// multiset is pinned; at the bug stage each qualifying event of the first
/// visit's target is forwarded in order; at the final stage an unblocked
/// spy learns the number of living cultists whenever there is one.
pub open spec fn spec_spy_effect(
    oldg: Game,
    newg: Game,
    actor: PlayerIndex,
    priority: Priority,
) -> bool {
    let oldp = oldg.players@[actor as int];
    let oldm = oldp.night_variables.messages@;
    match oldp.role_state {
        RoleState::Spy(..) => match priority {
            Priority::Investigative => {
                if crate::player::spec_night_blocked(oldp) {
                    newg == oldg
                } else {
                    &&& crate::game::only_players_changed(oldg, newg, actor as int)
                    &&& crate::game::same_player_except_night(oldp, newg.players@[actor as int])
                    &&& crate::game::nv_eq_except_messages(
                        oldp.night_variables,
                        newg.players@[actor as int].night_variables,
                    )
                    &&& {
                        let newm = newg.players@[actor as int].night_variables.messages@;
                        &&& newm.len() == oldm.len() + 1
                        &&& newm.take(oldm.len() as int) == oldm
                        &&& (newm.last() matches NightInformation::SpyMafiaVisit { players }
                            && players@.to_multiset() == spec_mafia_visit_targets(
                            oldg.players@,
                        ).to_multiset())
                    }
                }
            },
            Priority::SpyBug => {
                if oldp.night_variables.visits@.len() == 0 {
                    newg == oldg
                } else {
                    let t = oldp.night_variables.visits@[0].target;
                    let reports = spec_bug_reports(oldg.players@[t as int].night_variables.messages@);
                    &&& crate::game::only_players_changed(oldg, newg, actor as int)
                    &&& crate::game::same_player_except_night(oldp, newg.players@[actor as int])
                    &&& crate::game::nv_eq_except_messages(
                        oldp.night_variables,
                        newg.players@[actor as int].night_variables,
                    )
                    &&& newg.players@[actor as int].night_variables.messages@ == oldm
                        + reports.map_values(
                        |bug: crate::role_state::SpyBug| NightInformation::SpyBug { bug },
                    )
                }
            },
            Priority::FinalPriority => {
                if crate::player::spec_night_blocked(oldp) || spec_cult_count(oldg.players@)
                    == 0 {
                    newg == oldg
                } else {
                    &&& crate::game::only_players_changed(oldg, newg, actor as int)
                    &&& crate::game::same_player_except_night(oldp, newg.players@[actor as int])
                    &&& crate::game::nv_eq_except_messages(
                        oldp.night_variables,
                        newg.players@[actor as int].night_variables,
                    )
                    &&& newg.players@[actor as int].night_variables.messages@ == oldm.push(
                        NightInformation::SpyCultistCount {
                            count: if spec_cult_count(oldg.players@) < 255 {
                                spec_cult_count(oldg.players@) as u8
                            } else {
                                255u8
                            },
                        },
                    )
                }
            },
            _ => newg == oldg,
        },
        _ => newg == oldg,
    }
}

#[verifier::rlimit(80)]
fn spy_action(game: &mut Game, actor: PlayerIndex, priority: Priority)
    requires
        actor < old(game).n(),
        old(game).wf(),
    ensures
        final(game).wf(),
        night_action_frame(*old(game), *final(game)),
        spec_spy_effect(*old(game), *final(game), actor, priority),
{
    if !matches!(game.players[actor].role_state.role(), Role::Spy) {
        return ;
    }
    match priority {
        Priority::Investigative => {
            if game.night_blocked(actor) {
                return ;
            }
            let n = game.players.len();
            let mut mafia_visits: Vec<PlayerIndex> = Vec::new();
            let mut j: usize = 0;
            while j < n
                invariant
                    j <= n,
                    n == game.n(),
                    *game == *old(game),
                    mafia_visits@ == spec_mafia_visit_targets(game.players@.take(j as int)),
                decreases n - j,
            {
                proof {
                    assert(game.players@.take(j + 1 as int).drop_last() =~= game.players@.take(
                        j as int,
                    ));
                    assert(game.players@.take(j + 1 as int).last() == game.players@[j as int]);
                }
                if matches!(game.players[j].role_state.role().faction(), Faction::Mafia) {
                    let visits = &game.players[j].night_variables.visits;
                    let ghost visitseq = visits@;
                    let mut k: usize = 0;
                    while k < visits.len()
                        invariant
                            k <= visitseq.len(),
                            visits@ == visitseq,
                            mafia_visits@ == spec_mafia_visit_targets(
                                game.players@.take(j as int),
                            ) + visitseq.take(k as int).map_values(|v: Visit| v.target),
                        decreases visits@.len() - k,
                    {
                        mafia_visits.push(visits[k].target);
                        proof {
                            assert(visitseq.take(k + 1 as int).map_values(|v: Visit| v.target)
                                =~= visitseq.take(k as int).map_values(|v: Visit| v.target).push(
                                visitseq[k as int].target,
                            ));
                            assert(mafia_visits@ =~= spec_mafia_visit_targets(
                                game.players@.take(j as int),
                            ) + visitseq.take(k + 1 as int).map_values(|v: Visit| v.target));
                        }
                        k = k + 1;
                    }
                    proof {
                        assert(visitseq.take(visitseq.len() as int) =~= visitseq);
                    }
                }
                j = j + 1;
            }
            proof {
                assert(game.players@.take(n as int) =~= game.players@);
            }
            crate::outside::shuffle_indices(&mut mafia_visits);
            game.push_night_message(
                actor,
                NightInformation::SpyMafiaVisit { players: mafia_visits },
            );
            proof {
                let newm = game.players@[actor as int].night_variables.messages@;
                assert(newm.take(newm.len() - 1) =~= old(
                    game,
                ).players@[actor as int].night_variables.messages@);
            }
        },
        Priority::SpyBug => {
            let visit = match game.night_visit(actor, 0) {
                Some(v) => v,
                None => {
                    return ;
                },
            };
            let target = visit.target;
            let messages = &game.players[target].night_variables.messages;
            let ghost msgseq = messages@;
            let mut bugs: Vec<crate::role_state::SpyBug> = Vec::new();
            let mut k: usize = 0;
            while k < messages.len()
                invariant
                    k <= msgseq.len(),
                    messages@ == msgseq,
                    bugs@ == spec_bug_reports(msgseq.take(k as int)),
                decreases messages@.len() - k,
            {
                proof {
                    assert(msgseq.take(k + 1 as int).drop_last() =~= msgseq.take(k as int));
                    assert(msgseq.take(k + 1 as int).last() == msgseq[k as int]);
                }
                match &messages[k] {
                    NightInformation::Silenced => bugs.push(crate::role_state::SpyBug::Silenced),
                    NightInformation::RoleBlocked { .. } => bugs.push(
                        crate::role_state::SpyBug::Roleblocked,
                    ),
                    NightInformation::YouWereProtected => bugs.push(
                        crate::role_state::SpyBug::Protected,
                    ),
                    NightInformation::Transported => bugs.push(
                        crate::role_state::SpyBug::Transported,
                    ),
                    NightInformation::YouWerePossessed { .. } => bugs.push(
                        crate::role_state::SpyBug::Possessed,
                    ),
                    _ => {},
                }
                k = k + 1;
            }
            proof {
                assert(msgseq.take(msgseq.len() as int) =~= msgseq);
            }
            let ghost reports = spec_bug_reports(msgseq);
            let mut b: usize = 0;
            while b < bugs.len()
                invariant
                    b <= bugs@.len(),
                    game.wf(),
                    actor < game.n(),
                    game.n() == old(game).n(),
                    bugs@ == reports,
                    night_action_frame(*old(game), *game),
                    crate::game::only_players_changed(*old(game), *game, actor as int),
                    crate::game::same_player_except_night(
                        old(game).players@[actor as int],
                        game.players@[actor as int],
                    ),
                    crate::game::nv_eq_except_messages(
                        old(game).players@[actor as int].night_variables,
                        game.players@[actor as int].night_variables,
                    ),
                    game.players@[actor as int].night_variables.messages@ == old(
                        game,
                    ).players@[actor as int].night_variables.messages@ + reports.take(
                        b as int,
                    ).map_values(|bug: crate::role_state::SpyBug| NightInformation::SpyBug { bug }),
                decreases bugs@.len() - b,
            {
                game.push_night_message(actor, NightInformation::SpyBug { bug: bugs[b] });
                proof {
                    assert(reports.take(b + 1 as int).map_values(
                        |bug: crate::role_state::SpyBug| NightInformation::SpyBug { bug },
                    ) =~= reports.take(b as int).map_values(
                        |bug: crate::role_state::SpyBug| NightInformation::SpyBug { bug },
                    ).push(NightInformation::SpyBug { bug: reports[b as int] }));
                }
                b = b + 1;
            }
            proof {
                assert(reports.take(reports.len() as int) =~= reports);
            }
        },
        Priority::FinalPriority => {
            if game.night_blocked(actor) {
                return ;
            }
            let n = game.players.len();
            let mut count: u8 = 0;
            let mut j: usize = 0;
            while j < n
                invariant
                    j <= n,
                    n == game.n(),
                    *game == *old(game),
                    count as int == if spec_cult_count(game.players@.take(j as int)) < 255 {
                        spec_cult_count(game.players@.take(j as int))
                    } else {
                        255int
                    },
                decreases n - j,
            {
                proof {
                    assert(game.players@.take(j + 1 as int).drop_last() =~= game.players@.take(
                        j as int,
                    ));
                    assert(game.players@.take(j + 1 as int).last() == game.players@[j as int]);
                }
                if game.players[j].alive && matches!(
                    game.players[j].role_state.role().faction(),
                    Faction::Cult,
                ) && count < 255 {
                    count = count + 1;
                }
                j = j + 1;
            }
            proof {
                assert(game.players@.take(n as int) =~= game.players@);
                crate::actions::lemma_cult_count_nonneg(game.players@);
            }
            if count > 0 {
                game.push_night_message(actor, NightInformation::SpyCultistCount { count });
            }
        },
        _ => {},
    }
}

/// The cult tally never falls below zero.
pub proof fn lemma_cult_count_nonneg(ps: Seq<Player>)
    ensures
        spec_cult_count(ps) >= 0,
    decreases ps.len(),
{
    if ps.len() > 0 {
        lemma_cult_count_nonneg(ps.drop_last());
    }
}

fn janitor_action(game: &mut Game, actor: PlayerIndex, priority: Priority)
    requires
        actor < old(game).n(),
        old(game).wf(),
    ensures
        final(game).wf(),
        night_action_frame(*old(game), *final(game)),
{
    let j = match &game.players[actor].role_state {
        RoleState::Janitor(j) => *j,
        _ => {
            return ;
        },
    };
    if game.night_jailed(actor) {
        return ;
    }
    if j.cleans_remaining == 0 {
        return ;
    }
    match priority {
        Priority::Deception => {
            let visit = match game.night_visit(actor, 0) {
                Some(v) => v,
                None => {
                    return ;
                },
            };
            let target = visit.target;
            if !game.night_jailed(target) {
                game.set_night_grave_role(target, GraveRole::Cleaned);
                game.set_night_grave_will(target, String::new());
                game.set_role_state(
                    actor,
                    RoleState::Janitor(
                        Janitor {
                            cleans_remaining: j.cleans_remaining - 1,
                            cleaned_ref: Some(target),
                        },
                    ),
                );
            }
        },
        Priority::Investigative => {
            if let Some(cleaned) = j.cleaned_ref {
                if cleaned < game.players.len() {
                    if game.night_died(cleaned) {
                        let role = game.players[cleaned].role_state.role();
                        let will = crate::game::clone_string(&game.players[cleaned].will);
                        game.push_night_message(
                            actor,
                            NightInformation::PlayerRoleAndWill { role, will },
                        );
                    }
                }
            }
        },
        _ => {},
    }
}

fn mortician_action(game: &mut Game, actor: PlayerIndex, priority: Priority)
    requires
        actor < old(game).n(),
        old(game).wf(),
    ensures
        final(game).wf(),
        night_action_frame(*old(game), *final(game)),
{
    if !matches!(priority, Priority::Deception) {
        return ;
    }
    if game.night_jailed(actor) {
        return ;
    }
    let obscured = match &game.players[actor].role_state {
        RoleState::Mortician(m) => copy_vec(&m.obscured_players),
        _ => {
            return ;
        },
    };
    if obscured.len() >= 3 {
        return ;
    }
    let visit = match game.night_visit(actor, 0) {
        Some(v) => v,
        None => {
            return ;
        },
    };
    let target = visit.target;
    let mut already = false;
    let mut k: usize = 0;
    while k < obscured.len()
        decreases obscured.len() - k,
    {
        if obscured[k] == target {
            already = true;
        }
        k = k + 1;
    }
    if !already {
        proof {
            assert(player_wf(game.players@[actor as int], game.n()));
        }
        let mut grown = obscured;
        grown.push(target);
        game.set_role_state(
            actor,
            RoleState::Mortician(Mortician { obscured_players: grown }),
        );
        game.push_player_tag(actor, target, crate::tag::Tag::MorticianTagged);
    }
}

fn jester_action(game: &mut Game, actor: PlayerIndex, priority: Priority)
    requires
        actor < old(game).n(),
        old(game).wf(),
    ensures
        final(game).wf(),
        night_action_frame(*old(game), *final(game)),
{
    if !matches!(priority, Priority::TopPriority) {
        return ;
    }
    let j = match &game.players[actor].role_state {
        RoleState::Jester(j) => *j,
        _ => {
            return ;
        },
    };
    if game.players[actor].alive {
        return ;
    }
    if !j.lynched_yesterday {
        return ;
    }
    let n = game.players.len();
    let chosen: PlayerIndex = match j.night_selection {
        Some(t) if t < n => t,
        _ => {
            let mut killable: Vec<PlayerIndex> = Vec::new();
            let mut k: usize = 0;
            while k < n
                invariant
                    n == game.n(),
                    idxs_in_bounds(killable@, n as int),
                decreases n - k,
            {
                if game.players[k].alive && k != actor && !matches!(
                    game.players[k].voting_variables.verdict,
                    crate::player::Verdict::Innocent,
                ) {
                    killable.push(k);
                }
                k = k + 1;
            }
            if killable.len() == 0 {
                return ;
            }
            let pick = crate::outside::choose_index(killable.len());
            killable[pick]
        },
    };
    game.try_night_kill_single_attacker(
        actor,
        chosen,
        GraveKiller::Role(Role::Jester),
        AttackPower::ProtectionPiercing,
        true,
    );
}

fn death_action(game: &mut Game, actor: PlayerIndex, priority: Priority)
    requires
        actor < old(game).n(),
        old(game).wf(),
    ensures
        final(game).wf(),
        night_action_frame(*old(game), *final(game)),
{
    let d = match &game.players[actor].role_state {
        RoleState::Death(d) => *d,
        _ => {
            return ;
        },
    };
    if matches!(priority, Priority::Heal) && d.souls >= 6 {
        game.increase_defense_to(actor, DefensePower::Invincible);
        return ;
    }
    if !matches!(priority, Priority::Investigative) {
        return ;
    }
    if !game.players[actor].alive {
        return ;
    }
    let mut gain: u8 = 1;
    if !game.night_blocked(actor) {
        if let Some(visit) = game.night_visit(actor, 0) {
            if game.night_died(visit.target) {
                gain = 2;
            }
        }
    }
    let souls = if d.souls <= 253 {
        d.souls + gain
    } else {
        d.souls
    };
    if souls >= 6 {
        game.add_message_to_chat_group(
            PlayerGroup::All,
            ChatMessage::new_non_private(
                ChatMessageVariant::NightInformation {
                    night_information: NightInformation::DeathCollectedSouls,
                },
                PlayerGroup::All,
            ),
        );
    }
    game.set_role_state(
        actor,
        RoleState::Death(crate::role_state::Death { souls, won: d.won }),
    );
}

fn marksman_action(game: &mut Game, actor: PlayerIndex, priority: Priority)
    requires
        actor < old(game).n(),
        old(game).wf(),
    ensures
        final(game).wf(),
        night_action_frame(*old(game), *final(game)),
{
    if !matches!(priority, Priority::Kill) {
        return ;
    }
    let state = match &game.players[actor].role_state {
        RoleState::Marksman(m) => m.state,
        _ => {
            return ;
        },
    };
    let marks = state.marks();
    let own_visits = copy_vec(&game.players[actor].night_variables.visits);
    let n = game.players.len();
    let mut shot_townie = false;
    let mut m: usize = 0;
    while m < marks.len()
        invariant
            game.wf(),
            game.n() == n,
            actor < n,
            night_action_frame(*old(game), *game),
        decreases marks.len() - m,
    {
        let mark = marks[m];
        if mark < n {
            let mut visiting = false;
            let mut k: usize = 0;
            while k < own_visits.len()
                invariant
                    game.wf(),
                    game.n() == n,
                    mark < n,
                decreases own_visits.len() - k,
            {
                let t = own_visits[k].target;
                if t < n && game.visits_target(mark, t) {
                    visiting = true;
                }
                k = k + 1;
            }
            if visiting {
                let killed = game.try_night_kill_single_attacker(
                    actor,
                    mark,
                    GraveKiller::Role(Role::Marksman),
                    AttackPower::Basic,
                    false,
                );
                if killed && matches!(
                    game.players[mark].role_state.role().faction(),
                    Faction::Town,
                ) {
                    shot_townie = true;
                }
            }
        }
        m = m + 1;
    }
    if shot_townie {
        game.set_role_state(
            actor,
            RoleState::Marksman(Marksman { state: MarksmanState::ShotTownie }),
        );
    }
}

fn kidnapper_action(game: &mut Game, actor: PlayerIndex, priority: Priority)
    requires
        actor < old(game).n(),
        old(game).wf(),
    ensures
        final(game).wf(),
        night_action_frame(*old(game), *final(game)),
{
    if !matches!(priority, Priority::Kill) {
        return ;
    }
    let k = match &game.players[actor].role_state {
        RoleState::Kidnapper(k) => *k,
        _ => {
            return ;
        },
    };
    if k.executions_remaining == 0 {
        return ;
    }
    let visit = match game.night_visit(actor, 0) {
        Some(v) => v,
        None => {
            return ;
        },
    };
    let target = visit.target;
    if game.night_jailed(target) {
        game.try_night_kill_single_attacker(
            actor,
            target,
            GraveKiller::Role(Role::Jailor),
            AttackPower::ProtectionPiercing,
            false,
        );
        game.set_role_state(
            actor,
            RoleState::Kidnapper(
                Kidnapper {
                    jailed_target_ref: k.jailed_target_ref,
                    executions_remaining: k.executions_remaining - 1,
                },
            ),
        );
    }
}

fn kira_action(game: &mut Game, actor: PlayerIndex, priority: Priority)
    requires
        actor < old(game).n(),
        old(game).wf(),
    ensures
        final(game).wf(),
        night_action_frame(*old(game), *final(game)),
{
    if game.night_blocked(actor) {
        return ;
    }
    if !game.players[actor].alive {
        return ;
    }
    let guesses = match &game.players[actor].role_state {
        RoleState::Kira(k) => copy_vec(&k.guesses),
        _ => {
            return ;
        },
    };
    let result = KiraResult::new(guesses, game);
    match priority {
        Priority::Kill => {
            if !result.all_correct() {
                return ;
            }
            if game.day_number() == 1 {
                return ;
            }
            let n = game.players.len();
            let mut k: usize = 0;
            while k < result.guesses.len()
                invariant
                    game.wf(),
                    game.n() == n,
                    actor < n,
                    night_action_frame(*old(game), *game),
                decreases result.guesses.len() - k,
            {
                let (p, (guess, verdict)) = result.guesses[k];
                if p < n && game.players[p].alive && matches!(
                    verdict,
                    crate::kira::KiraGuessResult::Correct,
                ) && !matches!(guess, KiraGuess::NoGuess) {
                    game.try_night_kill_single_attacker(
                        actor,
                        p,
                        GraveKiller::Role(Role::Kira),
                        AttackPower::ArmorPiercing,
                        true,
                    );
                }
                k = k + 1;
            }
        },
        Priority::Investigative => {
            game.push_night_message(actor, NightInformation::KiraResult { result });
        },
        _ => {},
    }
}

/// One visit per living holder of the chosen role off the actor's own seat,
/// in seat order, each with the given harm tag.
pub open spec fn spec_role_sweep(
    ps: Seq<Player>,
    actor: PlayerIndex,
    role: Role,
    attack: bool,
) -> Seq<Visit>
    decreases ps.len(),
{
    if ps.len() == 0 {
        Seq::empty()
    } else {
        let rest = spec_role_sweep(ps.drop_last(), actor, role, attack);
        let j = (ps.len() - 1) as usize;
        if j != actor && ps.last().alive && spec_role_of(ps.last().role_state) == role {
            rest.push(Visit { target: j, attack })
        } else {
            rest
        }
    }
}

/// What the ojo does at each stage: at top priority a living ojo replaces
/// their own visits by one visit per living other holder of the chosen
/// role, harmful exactly when hunting after the first day; at the kill
/// stage each visit target takes an armor-piercing attack; at the
/// investigative stage everyone the ojo visits, or who visits the ojo, is
/// added to the ojo's role labels.
pub open spec fn spec_ojo_effect(
    oldg: Game,
    newg: Game,
    actor: PlayerIndex,
    priority: Priority,
) -> bool {
    let oldp = oldg.players@[actor as int];
    match oldp.role_state {
        RoleState::Ojo(o) => match priority {
            Priority::TopPriority => {
                if o.chosen_action is Idle || !oldp.alive {
                    newg == oldg
                } else {
                    let role = match o.chosen_action {
                        OjoAction::Kill { role } => role,
                        OjoAction::See { role } => role,
                        OjoAction::Idle => spec_role_of(oldp.role_state),
                    };
                    let attack = o.chosen_action is Kill && oldg.phase_machine.day_number > 1;
                    &&& crate::game::only_players_changed(oldg, newg, actor as int)
                    &&& crate::game::same_player_except_night(oldp, newg.players@[actor as int])
                    &&& crate::game::nv_eq_except_visits(
                        oldp.night_variables,
                        newg.players@[actor as int].night_variables,
                    )
                    &&& newg.players@[actor as int].night_variables.visits@ == spec_role_sweep(
                        oldg.players@,
                        actor,
                        role,
                        attack,
                    )
                }
            },
            Priority::Kill => {
                if oldg.phase_machine.day_number == 1 || !(o.chosen_action is Kill) {
                    newg == oldg
                } else {
                    let targets = oldp.night_variables.visits@.map_values(|v: Visit| v.target);
                    &&& crate::game::non_player_fields_unchanged(oldg, newg)
                    &&& (forall|j: int|
                        0 <= j < oldg.n() && j != actor && !targets.contains(j as usize) ==> (
                        #[trigger] newg.players@[j]) == oldg.players@[j])
                    &&& (forall|j: int|
                        0 <= j < oldg.n() && j != actor && targets.contains(j as usize) && (
                        #[trigger] oldg.players@[j]).alive ==> {
                            let oldnv = oldg.players@[j].night_variables;
                            let newnv = newg.players@[j].night_variables;
                            let blocked = crate::power::attack_level(AttackPower::ArmorPiercing)
                                <= crate::power::defense_level(oldnv.defense);
                            &&& crate::game::same_player_except_night(
                                oldg.players@[j],
                                newg.players@[j],
                            )
                            &&& newnv.attacked
                            &&& newnv.defense == oldnv.defense
                            &&& newnv.died == (oldnv.died || !blocked)
                            &&& (!blocked ==> newnv.grave_killers@.contains(
                                GraveKiller::Role(Role::Ojo),
                            ))
                        })
                }
            },
            Priority::Investigative => {
                if !(o.chosen_action is See) {
                    newg == oldg
                } else {
                    &&& crate::game::only_players_changed(oldg, newg, actor as int)
                    &&& newg.players@[actor as int] == (Player {
                        role_labels: newg.players@[actor as int].role_labels,
                        ..oldp
                    })
                }
            },
            _ => newg == oldg,
        },
        _ => newg == oldg,
    }
}

#[verifier::rlimit(100)]
fn ojo_action(game: &mut Game, actor: PlayerIndex, priority: Priority)
    requires
        actor < old(game).n(),
        old(game).wf(),
    ensures
        final(game).wf(),
        night_action_frame(*old(game), *final(game)),
        spec_ojo_effect(*old(game), *final(game), actor, priority),
{
    let action = match &game.players[actor].role_state {
        RoleState::Ojo(o) => o.chosen_action,
        _ => {
            return ;
        },
    };
    match priority {
        Priority::TopPriority => {
            if matches!(action, OjoAction::Idle) {
                return ;
            }
            if !game.players[actor].alive {
                return ;
            }
            let (chosen_role, attack) = match action {
                OjoAction::Kill { role } => (role, game.day_number() > 1),
                OjoAction::See { role } => (role, false),
                OjoAction::Idle => {
                    return ;
                },
            };
            let n = game.players.len();
            let mut swept: Vec<Visit> = Vec::new();
            let mut j: usize = 0;
            while j < n
                invariant
                    j <= n,
                    n == game.n(),
                    *game == *old(game),
                    actor < n,
                    visits_in_bounds(swept@, n as int),
                    swept@ == spec_role_sweep(
                        game.players@.take(j as int),
                        actor,
                        chosen_role,
                        attack,
                    ),
                decreases n - j,
            {
                proof {
                    assert(game.players@.take(j + 1 as int).drop_last() =~= game.players@.take(
                        j as int,
                    ));
                    assert(game.players@.take(j + 1 as int).last() == game.players@[j as int]);
                }
                if j != actor && game.players[j].alive && game.players[j].role_state.role()
                    == chosen_role {
                    swept.push(Visit { target: j, attack });
                }
                j = j + 1;
            }
            proof {
                assert(game.players@.take(n as int) =~= game.players@);
            }
            game.set_night_visits(actor, swept);
        },
        Priority::Kill => {
            if game.day_number() == 1 {
                return ;
            }
            if !matches!(action, OjoAction::Kill { .. }) {
                return ;
            }
            let targets = copy_vec(&game.players[actor].night_variables.visits);
            let ghost targetset = game.players@[actor as int].night_variables.visits@.map_values(
                |v: Visit| v.target,
            );
            let n = game.players.len();
            let mut k: usize = 0;
            while k < targets.len()
                invariant
                    k <= targets@.len(),
                    game.wf(),
                    game.n() == n,
                    actor < n,
                    night_action_frame(*old(game), *game),
                    targets@ == old(game).players@[actor as int].night_variables.visits@,
                    targetset == targets@.map_values(|v: Visit| v.target),
                    crate::game::non_player_fields_unchanged(*old(game), *game),
                    forall|j: int|
                        0 <= j < n && j != actor && !targetset.take(k as int).contains(j as usize)
                            ==> (#[trigger] game.players@[j]) == old(game).players@[j],
                    forall|j: int|
                        0 <= j < n ==> (#[trigger] game.players@[j]).role_state == old(
                            game,
                        ).players@[j].role_state,
                    forall|j: int|
                        0 <= j < n && j != actor && targetset.take(k as int).contains(j as usize)
                            && (#[trigger] old(game).players@[j]).alive ==> {
                            let oldnv = old(game).players@[j].night_variables;
                            let newnv = game.players@[j].night_variables;
                            let blocked = crate::power::attack_level(AttackPower::ArmorPiercing)
                                <= crate::power::defense_level(oldnv.defense);
                            &&& crate::game::same_player_except_night(
                                old(game).players@[j],
                                game.players@[j],
                            )
                            &&& newnv.attacked
                            &&& newnv.defense == oldnv.defense
                            &&& newnv.died == (oldnv.died || !blocked)
                            &&& (!blocked ==> newnv.grave_killers@.contains(
                                GraveKiller::Role(Role::Ojo),
                            ))
                        },
                    crate::game::same_player_except_night(
                        old(game).players@[actor as int],
                        game.players@[actor as int],
                    ),
                decreases targets.len() - k,
            {
                proof {
                    assert(targetset.take(k + 1 as int).drop_last() =~= targetset.take(k as int));
                    assert(targetset.take(k + 1 as int).last() == targets@[k as int].target);
                    assert forall|j: int|
                        #[trigger] targetset.take(k + 1 as int).contains(j as usize) implies targetset.take(
                        k as int,
                    ).contains(j as usize) || j as usize == targets@[k as int].target by {
                        if j as usize != targets@[k as int].target {
                            let m = choose|m: int|
                                0 <= m < targetset.take(k + 1 as int).len()
                                    && #[trigger] targetset.take(k + 1 as int)[m] == j as usize;
                            assert(targetset.take(k as int)[m] == j as usize);
                        }
                    }
                }
                let t = targets[k].target;
                let ghost pre = *game;
                if t < n {
                    game.try_night_kill_single_attacker(
                        actor,
                        t,
                        GraveKiller::Role(Role::Ojo),
                        AttackPower::ArmorPiercing,
                        true,
                    );
                    proof {
                        if t != actor && pre.players@[t as int].alive {
                            let oldnv = pre.players@[t as int].night_variables;
                            let newnv = game.players@[t as int].night_variables;
                            let blocked = crate::power::attack_level(AttackPower::ArmorPiercing)
                                <= crate::power::defense_level(oldnv.defense);
                            if !blocked {
                                assert(newnv.grave_killers@.last() == GraveKiller::Role(
                                    Role::Ojo,
                                ));
                                assert(newnv.grave_killers@.contains(
                                    GraveKiller::Role(Role::Ojo),
                                ));
                                assert forall|gk: GraveKiller|
                                    oldnv.grave_killers@.contains(
                                        gk,
                                    ) implies newnv.grave_killers@.contains(gk) by {
                                    let m = choose|m: int|
                                        0 <= m < oldnv.grave_killers@.len()
                                            && oldnv.grave_killers@[m] == gk;
                                    assert(newnv.grave_killers@[m] == gk);
                                }
                            }
                        }
                    }
                }
                k = k + 1;
            }
            proof {
                assert(targetset.take(targetset.len() as int) =~= targetset);
            }
        },
        Priority::Investigative => {
            if !matches!(action, OjoAction::See { .. }) {
                return ;
            }
            let n = game.players.len();
            let mut noted: Vec<PlayerIndex> = Vec::new();
            let mut j: usize = 0;
            while j < n
                invariant
                    j <= n,
                    n == game.n(),
                    actor < n,
                    *game == *old(game),
                    forall|m: int| 0 <= m < noted@.len() ==> (#[trigger] noted@[m]) < n,
                decreases n - j,
            {
                let visited_by_me = game.visits_target(actor, j);
                let visited_me = game.visits_target(j, actor);
                let ghost pre_noted = noted@;
                if visited_by_me || visited_me {
                    noted.push(j);
                }
                j = j + 1;
            }
            let mut i: usize = 0;
            while i < noted.len()
                invariant
                    i <= noted@.len(),
                    game.wf(),
                    game.n() == n,
                    actor < n,
                    night_action_frame(*old(game), *game),
                    crate::game::only_players_changed(*old(game), *game, actor as int),
                    game.players@[actor as int] == (Player {
                        role_labels: game.players@[actor as int].role_labels,
                        ..old(game).players@[actor as int]
                    }),
                    forall|m: int| 0 <= m < noted@.len() ==> (#[trigger] noted@[m]) < n,
                    forall|m: int|
                        0 <= m < i ==> game.players@[actor as int].role_labels@.contains(
                            #[trigger] noted@[m],
                        ),
                decreases noted@.len() - i,
            {
                let ghost pre_labels = game.players@[actor as int].role_labels@;
                game.insert_role_label(actor, noted[i]);
                proof {
                    assert forall|x: PlayerIndex|
                        pre_labels.contains(x) implies game.players@[actor as int]
                        .role_labels@.contains(x) by {
                        let m = choose|m: int| 0 <= m < pre_labels.len() && pre_labels[m] == x;
                        assert(game.players@[actor as int].role_labels@[m] == x);
                    }
                }
                i = i + 1;
            }
        },
        _ => {},
    }
}

fn puppeteer_action(game: &mut Game, actor: PlayerIndex, priority: Priority)
    requires
        actor < old(game).n(),
        old(game).wf(),
    ensures
        final(game).wf(),
        night_action_frame(*old(game), *final(game)),
{
    if !matches!(priority, Priority::Kill) {
        return ;
    }
    let p = match &game.players[actor].role_state {
        RoleState::Puppeteer(p) => *p,
        _ => {
            return ;
        },
    };
    let visit = match game.night_visit(actor, 0) {
        Some(v) => v,
        None => {
            return ;
        },
    };
    let target = visit.target;
    match p.action {
        PuppeteerAction::Poison => {
            game.try_night_kill_single_attacker(
                actor,
                target,
                GraveKiller::Role(Role::Puppeteer),
                AttackPower::ArmorPiercing,
                true,
            );
        },
        PuppeteerAction::String => {
            if p.marionettes_remaining > 0 {
                game.push_player_tag(actor, target, crate::tag::Tag::Marionette);
                game.set_role_state(
                    actor,
                    RoleState::Puppeteer(
                        Puppeteer {
                            marionettes_remaining: p.marionettes_remaining - 1,
                            action: p.action,
                        },
                    ),
                );
            }
        },
    }
}

fn engineer_action(game: &mut Game, actor: PlayerIndex, priority: Priority)
    requires
        actor < old(game).n(),
        old(game).wf(),
    ensures
        final(game).wf(),
        night_action_frame(*old(game), *final(game)),
        priority is Heal ==> spec_engineer_heal_effect(*old(game), *final(game), actor),
{
    let e = match &game.players[actor].role_state {
        RoleState::Engineer(e) => *e,
        _ => {
            return ;
        },
    };
    match priority {
        Priority::Heal => {
            if !game.night_blocked(actor) {
                match e.trap {
                    Trap::Dismantled => {
                        game.set_role_state(
                            actor,
                            RoleState::Engineer(Engineer { trap: Trap::Ready }),
                        );
                    },
                    Trap::Ready => {
                        if let Some(visit) = game.night_visit(actor, 0) {
                            game.set_role_state(
                                actor,
                                RoleState::Engineer(
                                    Engineer { trap: Trap::Armed { target: visit.target } },
                                ),
                            );
                        }
                    },
                    Trap::Armed { .. } => {
                        if game.night_visit(actor, 0).is_some() {
                            game.set_role_state(
                                actor,
                                RoleState::Engineer(Engineer { trap: Trap::Ready }),
                            );
                        }
                    },
                }
            }
            if let RoleState::Engineer(now) = &game.players[actor].role_state {
                if let Trap::Armed { target } = now.trap {
                    if target < game.players.len() {
                        game.increase_defense_to(target, DefensePower::Protection);
                    }
                }
            }
        },
        Priority::Kill => {
            if let Trap::Armed { target } = e.trap {
                if target < game.players.len() {
                    let n = game.players.len();
                    let mut j: usize = 0;
                    while j < n
                        invariant
                            game.wf(),
                            game.n() == n,
                            actor < n,
                            night_action_frame(*old(game), *game),
                        decreases n - j,
                    {
                        if j != actor && target < n && game.attacks_target(j, target) {
                            game.try_night_kill_single_attacker(
                                actor,
                                j,
                                GraveKiller::Role(Role::Engineer),
                                AttackPower::ArmorPiercing,
                                false,
                            );
                        }
                        j = j + 1;
                    }
                }
            }
        },
        Priority::Investigative => {
            if let Trap::Armed { target } = e.trap {
                if target < game.players.len() {
                    if game.night_attacked(target) {
                        game.push_night_message(actor, NightInformation::TargetWasAttacked);
                        game.push_night_message(target, NightInformation::YouWereProtected);
                    }
                    let n = game.players.len();
                    let mut dismantle = false;
                    let mut j: usize = 0;
                    while j < n
                        invariant
                            game.wf(),
                            game.n() == n,
                            actor < n,
                            target < n,
                            night_action_frame(*old(game), *game),
                        decreases n - j,
                    {
                        if j != actor && game.visits_target(j, target) {
                            let role = game.players[j].role_state.role();
                            game.push_night_message(
                                actor,
                                NightInformation::EngineerVisitorsRole { role },
                            );
                            dismantle = true;
                        }
                        j = j + 1;
                    }
                    if dismantle {
                        game.set_role_state(
                            actor,
                            RoleState::Engineer(Engineer { trap: Trap::Dismantled }),
                        );
                    }
                }
            }
            let state = match &game.players[actor].role_state {
                RoleState::Engineer(now) => now.trap.state(),
                _ => {
                    return ;
                },
            };
            game.push_night_message(actor, NightInformation::TrapStateEndOfNight { state });
        },
        _ => {},
    }
}

/// The target list a possession hands to its victim's own role converter:
/// the victim's current visit targets with the first replaced by the
/// possessor's second target, or that target alone when the victim had no
/// visit.
pub open spec fn spec_possessed_targets(oldt: Player, t2: PlayerIndex) -> Seq<PlayerIndex> {
    let targets = oldt.night_variables.visits@.map_values(|v: Visit| v.target);
    if targets.len() == 0 {
        seq![t2]
    } else {
        targets.update(0, t2)
    }
}

/// What the minion does at each stage.  At the possession stage, with two
/// visits and a living first target: the target learns they were possessed;
/// an immune target only costs the minion the attempt; anyone else has
/// their visits rebuilt through their own role's converter with the first
/// target replaced by the minion's second, while the minion records the
/// used player and cuts their own visits to the first.  At the
/// investigative stage the minion learns the used player's role; at the
/// message-stealing stage every message of the used player is forwarded in
/// order.
pub open spec fn spec_minion_effect(
    oldg: Game,
    newg: Game,
    actor: PlayerIndex,
    priority: Priority,
) -> bool {
    let oldp = oldg.players@[actor as int];
    let oldm = oldp.night_variables.messages@;
    match oldp.role_state {
        RoleState::Minion(m) => match priority {
            Priority::Possess => {
                if oldp.night_variables.visits@.len() < 2 {
                    newg == oldg
                } else {
                    let t1 = oldp.night_variables.visits@[0].target;
                    let t2 = oldp.night_variables.visits@[1].target;
                    let oldt = oldg.players@[t1 as int];
                    if !oldt.alive {
                        newg == oldg
                    } else if crate::role::spec_possession_immune(spec_role_of(oldt.role_state)) {
                        &&& crate::game::only_players_changed2(oldg, newg, actor as int, t1 as int)
                        &&& crate::game::same_player_except_night(oldt, newg.players@[t1 as int])
                        &&& crate::game::nv_eq_except_messages(
                            oldt.night_variables,
                            newg.players@[t1 as int].night_variables,
                        )
                        &&& (t1 == actor ==> newg.players@[actor as int].night_variables.messages@
                            == oldm.push(NightInformation::YouWerePossessed { immune: true }).push(
                            NightInformation::TargetIsPossessionImmune,
                        ))
                        &&& (t1 != actor ==> {
                            &&& newg.players@[t1 as int].night_variables.messages@
                                == oldt.night_variables.messages@.push(
                                NightInformation::YouWerePossessed { immune: true },
                            )
                            &&& crate::game::same_player_except_night(
                                oldp,
                                newg.players@[actor as int],
                            )
                            &&& crate::game::nv_eq_except_messages(
                                oldp.night_variables,
                                newg.players@[actor as int].night_variables,
                            )
                            &&& newg.players@[actor as int].night_variables.messages@ == oldm.push(
                                NightInformation::TargetIsPossessionImmune,
                            )
                        })
                    } else {
                        &&& t1 != actor
                        &&& crate::game::only_players_changed2(oldg, newg, actor as int, t1 as int)
                        &&& crate::game::same_player_except_night(oldt, newg.players@[t1 as int])
                        &&& newg.players@[t1 as int].night_variables
                            == (crate::player::PlayerNightVariables {
                            visits: newg.players@[t1 as int].night_variables.visits,
                            messages: newg.players@[t1 as int].night_variables.messages,
                            ..oldt.night_variables
                        })
                        &&& newg.players@[t1 as int].night_variables.messages@
                            == oldt.night_variables.messages@.push(
                            NightInformation::YouWerePossessed { immune: false },
                        )
                        &&& newg.players@[t1 as int].night_variables.visits@
                            == spec_visits_from_targets(
                            oldt.role_state,
                            spec_possessed_targets(oldt, t2),
                            t1,
                        )
                        &&& newg.players@[actor as int] == (Player {
                            role_state: RoleState::Minion(
                                Minion { currently_used_player: Some(t1) },
                            ),
                            night_variables: (crate::player::PlayerNightVariables {
                                visits: newg.players@[actor as int].night_variables.visits,
                                ..oldp.night_variables
                            }),
                            ..oldp
                        })
                        &&& newg.players@[actor as int].night_variables.visits@ == seq![
                            oldp.night_variables.visits@[0],
                        ]
                    }
                }
            },
            Priority::Investigative => {
                match m.currently_used_player {
                    Some(used) => if used < oldg.n() {
                        &&& crate::game::only_players_changed(oldg, newg, actor as int)
                        &&& crate::game::same_player_except_night(
                            oldp,
                            newg.players@[actor as int],
                        )
                        &&& crate::game::nv_eq_except_messages(
                            oldp.night_variables,
                            newg.players@[actor as int].night_variables,
                        )
                        &&& newg.players@[actor as int].night_variables.messages@ == oldm.push(
                            NightInformation::PossessionTargetsRole {
                                role: spec_role_of(oldg.players@[used as int].role_state),
                            },
                        )
                    } else {
                        newg == oldg
                    },
                    None => newg == oldg,
                }
            },
            Priority::StealMessages => {
                match m.currently_used_player {
                    Some(used) => if used < oldg.n() {
                        let stolen = oldg.players@[used as int].night_variables.messages@;
                        &&& crate::game::only_players_changed(oldg, newg, actor as int)
                        &&& crate::game::same_player_except_night(
                            oldp,
                            newg.players@[actor as int],
                        )
                        &&& crate::game::nv_eq_except_messages(
                            oldp.night_variables,
                            newg.players@[actor as int].night_variables,
                        )
                        &&& {
                            let newm = newg.players@[actor as int].night_variables.messages@;
                            &&& newm.len() == oldm.len() + stolen.len()
                            &&& newm.take(oldm.len() as int) == oldm
                            &&& (forall|k: int|
                                oldm.len() <= k < newm.len() ==> (#[trigger] newm[k]) matches
                                    NightInformation::TargetsMessage { .. })
                        }
                    } else {
                        newg == oldg
                    },
                    None => newg == oldg,
                }
            },
            _ => newg == oldg,
        },
        _ => newg == oldg,
    }
}

#[verifier::rlimit(100)]
fn minion_action(game: &mut Game, actor: PlayerIndex, priority: Priority)
    requires
        actor < old(game).n(),
        old(game).wf(),
    ensures
        final(game).wf(),
        night_action_frame(*old(game), *final(game)),
        spec_minion_effect(*old(game), *final(game), actor, priority),
{
    let m = match &game.players[actor].role_state {
        RoleState::Minion(m) => *m,
        _ => {
            return ;
        },
    };
    match priority {
        Priority::Possess => {
            if game.players[actor].night_variables.visits.len() < 2 {
                return ;
            }
            let first = match game.night_visit(actor, 0) {
                Some(v) => v,
                None => {
                    return ;
                },
            };
            let second = match game.night_visit(actor, 1) {
                Some(v) => v,
                None => {
                    return ;
                },
            };
            let t1 = first.target;
            let t2 = second.target;
            if !game.players[t1].alive {
                return ;
            }
            let immune = game.players[t1].role_state.role().possession_immune();
            game.push_night_message(t1, NightInformation::YouWerePossessed { immune });
            if immune {
                game.push_night_message(actor, NightInformation::TargetIsPossessionImmune);
                return ;
            }
            proof {
                assert(!crate::role::spec_possession_immune(
                    spec_role_of(old(game).players@[actor as int].role_state),
                ) == false);
            }
            let old_visits = copy_vec(&game.players[t1].night_variables.visits);
            let mut new_targets: Vec<PlayerIndex> = Vec::new();
            if old_visits.len() == 0 {
                new_targets.push(t2);
                proof {
                    assert(new_targets@ =~= seq![t2]);
                }
            } else {
                let mut k: usize = 0;
                while k < old_visits.len()
                    invariant
                        k <= old_visits@.len(),
                        old_visits@.len() > 0,
                        t2 < old(game).n(),
                        old_visits@ == old(game).players@[t1 as int].night_variables.visits@,
                        new_targets@ == old_visits@.map_values(|v: Visit| v.target).update(
                            0,
                            t2,
                        ).take(k as int),
                    decreases old_visits@.len() - k,
                {
                    let t = if k == 0 {
                        t2
                    } else {
                        old_visits[k].target
                    };
                    new_targets.push(t);
                    proof {
                        assert(new_targets@ =~= old_visits@.map_values(|v: Visit| v.target).update(
                            0,
                            t2,
                        ).take(k + 1 as int));
                    }
                    k = k + 1;
                }
                proof {
                    let full = old_visits@.map_values(|v: Visit| v.target).update(0, t2);
                    assert(full.take(full.len() as int) =~= full);
                }
            }
            proof {
                assert(player_wf(game.players@[t1 as int], game.n()));
                assert(idxs_in_bounds(new_targets@, game.n()));
            }
            let rewritten = visits_from_targets(game, t1, &new_targets);
            game.set_night_visits(t1, rewritten);
            game.set_role_state(
                actor,
                RoleState::Minion(Minion { currently_used_player: Some(t1) }),
            );
            let mut own: Vec<Visit> = Vec::new();
            own.push(first);
            proof {
                assert(own@ =~= seq![old(game).players@[actor as int].night_variables.visits@[0]]);
            }
            game.set_night_visits(actor, own);
        },
        Priority::Investigative => {
            if let Some(used) = m.currently_used_player {
                if used < game.players.len() {
                    let role = game.players[used].role_state.role();
                    game.push_night_message(
                        actor,
                        NightInformation::PossessionTargetsRole { role },
                    );
                }
            }
        },
        Priority::StealMessages => {
            if let Some(used) = m.currently_used_player {
                if used < game.players.len() {
                    let count = game.players[used].night_variables.messages.len();
                    let ghost oldm = old(game).players@[actor as int].night_variables.messages@;
                    let mut k: usize = 0;
                    while k < count
                        invariant
                            k <= count,
                            game.wf(),
                            game.n() == old(game).n(),
                            actor < game.n(),
                            used < game.n(),
                            night_action_frame(*old(game), *game),
                            oldm == old(game).players@[actor as int].night_variables.messages@,
                            count == old(
                                game,
                            ).players@[used as int].night_variables.messages@.len(),
                            crate::game::only_players_changed(*old(game), *game, actor as int),
                            crate::game::same_player_except_night(
                                old(game).players@[actor as int],
                                game.players@[actor as int],
                            ),
                            crate::game::nv_eq_except_messages(
                                old(game).players@[actor as int].night_variables,
                                game.players@[actor as int].night_variables,
                            ),
                            game.players@[actor as int].night_variables.messages@.len()
                                == oldm.len() + k,
                            game.players@[actor as int].night_variables.messages@.take(
                                oldm.len() as int,
                            ) == oldm,
                            forall|i2: int|
                                oldm.len() <= i2 < oldm.len() + k ==> (#[trigger] game
                                    .players@[actor as int].night_variables.messages@[i2]) matches
                                    NightInformation::TargetsMessage { .. },
                        decreases count - k,
                    {
                        proof {
                            if used != actor {
                                assert(game.players@[used as int] == old(
                                    game,
                                ).players@[used as int]);
                            }
                        }
                        let stolen = if k < game.players[used].night_variables.messages.len() {
                            Some(game.players[used].night_variables.messages[k].duplicate())
                        } else {
                            None
                        };
                        let ghost prem = game.players@[actor as int].night_variables.messages@;
                        if let Some(message) = stolen {
                            game.push_night_message(
                                actor,
                                NightInformation::TargetsMessage {
                                    message: Box::new(message),
                                },
                            );
                        }
                        proof {
                            assert(game.players@[actor as int].night_variables.messages@.take(
                                oldm.len() as int,
                            ) =~= prem.take(oldm.len() as int));
                        }
                        k = k + 1;
                    }
                }
            }
        },
        _ => {},
    }
}

fn eros_action(game: &mut Game, actor: PlayerIndex, priority: Priority)
    requires
        actor < old(game).n(),
        old(game).wf(),
    ensures
        final(game).wf(),
        night_action_frame(*old(game), *final(game)),
{
    let action = match &game.players[actor].role_state {
        RoleState::Eros(e) => e.action,
        _ => {
            return ;
        },
    };
    if matches!(priority, Priority::Kill) && matches!(
        action,
        crate::role_state::ErosAction::Kill,
    ) {
        if game.day_number() == 1 {
            return ;
        }
        if let Some(visit) = game.night_visit(actor, 0) {
            game.try_night_kill_single_attacker(
                actor,
                visit.target,
                GraveKiller::Faction(Faction::Mafia),
                AttackPower::Basic,
                false,
            );
        }
    }
}

fn arsonist_action(game: &mut Game, actor: PlayerIndex, priority: Priority)
    requires
        actor < old(game).n(),
        old(game).wf(),
    ensures
        final(game).wf(),
        night_action_frame(*old(game), *final(game)),
{
    match priority {
        Priority::Deception => {
            if let Some(visit) = game.night_visit(actor, 0) {
                if visit.target != actor {
                    game.douse(visit.target);
                }
            }
        },
        Priority::Kill => {
            if let Some(visit) = game.night_visit(actor, 0) {
                if visit.target == actor {
                    game.ignite(actor);
                }
            }
        },
        _ => {},
    }
}

fn apostle_action(game: &mut Game, actor: PlayerIndex, priority: Priority)
    requires
        actor < old(game).n(),
        old(game).wf(),
    ensures
        final(game).wf(),
        night_action_frame(*old(game), *final(game)),
{
    if !matches!(priority, Priority::Convert) {
        return ;
    }
    if game.night_blocked(actor) {
        return ;
    }
    if let Some(visit) = game.night_visit(actor, 0) {
        let target = visit.target;
        if game.players[target].alive && target != actor {
            set_role(game, target, Role::Apostle);
        }
    }
}

/// Whether the actor may add one more target, judged against a selection
/// given explicitly: both sides must be alive and the actor free, and the
/// actor's role must accept the target given the charges it has left and
/// what the given selection already holds.  Commit-time validation judges
/// each candidate against the selection kept so far.
pub open spec fn spec_can_select_given(
    game: Game,
    actor: PlayerIndex,
    target: PlayerIndex,
    sel: Seq<PlayerIndex>,
) -> bool {
    let a = game.players@[actor as int];
    let t = game.players@[target as int];
    let single_free = sel.len() == 0 && actor != target;
    &&& a.alive
    &&& t.alive
    &&& !a.night_variables.jailed
    &&& match a.role_state {
        RoleState::Doctor(d) => sel.len() == 0 && (actor != target || d.self_heals_remaining
            > 0),
        RoleState::Bodyguard(b) => sel.len() == 0 && (actor != target
            || b.self_shields_remaining > 0),
        RoleState::Detective(..) | RoleState::Snoop(..) | RoleState::Spy(..)
        | RoleState::Death(..) | RoleState::Apostle(..) | RoleState::Arsonist(..)
        | RoleState::Puppeteer(..) => single_free,
        RoleState::Transporter(..) => sel.len() < 2 && !sel.contains(target),
        RoleState::Philosopher(..) | RoleState::Minion(..) => actor != target && sel.len() < 2
            && !sel.contains(target),
        RoleState::Mafioso(..) | RoleState::Godfather(..) => single_free
            && game.phase_machine.day_number > 1,
        RoleState::Eros(e) => match e.action {
            crate::role_state::ErosAction::Kill => {
                let fa = crate::role::spec_faction(spec_role_of(a.role_state));
                let fb = crate::role::spec_faction(spec_role_of(t.role_state));
                single_free && game.phase_machine.day_number > 1 && !((fa is Mafia
                    && fb is Mafia) || (fa is Cult && fb is Cult))
            },
            crate::role_state::ErosAction::LoveLink => actor != target && sel.len() < 2
                && !sel.contains(target),
        },
        RoleState::Jailor(j) => single_free && t.night_variables.jailed
            && game.phase_machine.day_number > 1 && j.executions_remaining > 0,
        RoleState::Kidnapper(k) => single_free && t.night_variables.jailed
            && game.phase_machine.day_number > 1 && k.executions_remaining > 0,
        RoleState::Marksman(m) => crate::role_state::spec_state_marks(m.state).len() != 0
            && actor != target && sel.len() < 2 && !sel.contains(target),
        RoleState::Janitor(j) => single_free && j.cleans_remaining > 0,
        RoleState::Mortician(m) => single_free && m.obscured_players@.len() < 3
            && !m.obscured_players@.contains(target),
        _ => false,
    }
}

/// Whether the actor may commit the target, judged against the selection
/// they currently hold.
pub open spec fn spec_can_select(game: Game, actor: PlayerIndex, target: PlayerIndex) -> bool {
    spec_can_select_given(
        game,
        actor,
        target,
        game.players@[actor as int].night_variables.selection@,
    )
}

/// Selection-time validity: whether the actor may commit the target, given
/// their role, their charges, and everyone's liveness.  Re-validated when
/// input is committed; resolution still re-checks, since the world may have
/// changed in between.
pub fn can_select(game: &Game, actor: PlayerIndex, target: PlayerIndex) -> (r: bool)
    requires
        actor < game.n(),
        target < game.n(),
    ensures
        r == spec_can_select(*game, actor, target),
{
    if !game.players[actor].alive || !game.players[target].alive {
        return false;
    }
    if game.players[actor].night_variables.jailed {
        return false;
    }
    let sel_len = game.players[actor].night_variables.selection.len();
    let single_free = sel_len == 0 && actor != target;
    match &game.players[actor].role_state {
        RoleState::Doctor(d) => {
            sel_len == 0 && (actor != target || d.self_heals_remaining > 0)
        },
        RoleState::Bodyguard(b) => {
            sel_len == 0 && (actor != target || b.self_shields_remaining > 0)
        },
        RoleState::Detective(..) | RoleState::Snoop(..) | RoleState::Spy(..)
        | RoleState::Death(..) | RoleState::Apostle(..) | RoleState::Arsonist(..)
        | RoleState::Puppeteer(..) => single_free,
        RoleState::Transporter(..) => {
            sel_len < 2 && !selection_contains(game, actor, target)
        },
        RoleState::Philosopher(..) | RoleState::Minion(..) => {
            actor != target && sel_len < 2 && !selection_contains(game, actor, target)
        },
        RoleState::Mafioso(..) | RoleState::Godfather(..) => {
            single_free && game.phase_machine.day_number > 1
        },
        RoleState::Eros(e) => {
            match e.action {
                crate::role_state::ErosAction::Kill => {
                    single_free && game.phase_machine.day_number > 1 && !same_evil_team(
                        game,
                        actor,
                        target,
                    )
                },
                crate::role_state::ErosAction::LoveLink => {
                    actor != target && sel_len < 2 && !selection_contains(game, actor, target)
                },
            }
        },
        RoleState::Jailor(j) => {
            single_free && game.players[target].night_variables.jailed
                && game.phase_machine.day_number > 1 && j.executions_remaining > 0
        },
        RoleState::Kidnapper(k) => {
            single_free && game.players[target].night_variables.jailed
                && game.phase_machine.day_number > 1 && k.executions_remaining > 0
        },
        RoleState::Marksman(m) => {
            !m.state.no_marks() && actor != target && sel_len < 2 && !selection_contains(
                game,
                actor,
                target,
            )
        },
        RoleState::Janitor(j) => single_free && j.cleans_remaining > 0,
        RoleState::Mortician(m) => {
            single_free && m.obscured_players.len() < 3 && !obscured_contains(m, target)
        },
        _ => false,
    }
}

/// Whether the actor's committed selection already holds the target.
fn selection_contains(game: &Game, actor: PlayerIndex, target: PlayerIndex) -> (r: bool)
    requires
        actor < game.n(),
    ensures
        r == game.players@[actor as int].night_variables.selection@.contains(target),
{
    let sel = &game.players[actor].night_variables.selection;
    let mut k: usize = 0;
    while k < sel.len()
        invariant
            k <= sel@.len(),
            sel@ == game.players@[actor as int].night_variables.selection@,
            forall|m: int| 0 <= m < k ==> sel@[m] != target,
        decreases sel@.len() - k,
    {
        if sel[k] == target {
            return true;
        }
        k = k + 1;
    }
    false
}

fn obscured_contains(m: &Mortician, target: PlayerIndex) -> (r: bool)
    ensures
        r == m.obscured_players@.contains(target),
{
    let mut k: usize = 0;
    while k < m.obscured_players.len()
        invariant
            k <= m.obscured_players@.len(),
            forall|j: int| 0 <= j < k ==> m.obscured_players@[j] != target,
        decreases m.obscured_players@.len() - k,
    {
        if m.obscured_players[k] == target {
            return true;
        }
        k = k + 1;
    }
    false
}

/// The selection that commit-time validation keeps out of a requested list
/// of targets: walked in order, a target is kept exactly when it is a real
/// seat and the actor's role accepts it given the part already kept.
pub open spec fn spec_commit_selection(
    game: Game,
    actor: PlayerIndex,
    targets: Seq<PlayerIndex>,
) -> Seq<PlayerIndex>
    decreases targets.len(),
{
    if targets.len() == 0 {
        Seq::empty()
    } else {
        let kept = spec_commit_selection(game, actor, targets.drop_last());
        let t = targets.last();
        if t < game.n() && spec_can_select_given(game, actor, t, kept) {
            kept.push(t)
        } else {
            kept
        }
    }
}

/// Commit a selection: each candidate target is validated through the
/// actor's role; invalid ones are dropped rather than rejected wholesale.
/// The stored selection ends as exactly the requested targets filtered, in
/// order, by selection-time validity.
pub fn set_chosen_targets(game: &mut Game, actor: PlayerIndex, targets: Vec<PlayerIndex>)
    requires
        actor < old(game).n(),
        old(game).wf(),
    ensures
        final(game).wf(),
        night_action_frame(*old(game), *final(game)),
        crate::game::only_players_changed(*old(game), *final(game), actor as int),
        final(game).players@[actor as int] == (Player {
            night_variables: (crate::player::PlayerNightVariables {
                selection: final(game).players@[actor as int].night_variables.selection,
                ..old(game).players@[actor as int].night_variables
            }),
            ..old(game).players@[actor as int]
        }),
        final(game).players@[actor as int].night_variables.selection@ == spec_commit_selection(
            *old(game),
            actor,
            targets@,
        ),
{
    game.set_selection(actor, Vec::new());
    let n = game.players.len();
    let mut k: usize = 0;
    while k < targets.len()
        invariant
            game.wf(),
            game.n() == n,
            actor < n,
            k <= targets@.len(),
            night_action_frame(*old(game), *game),
            crate::game::only_players_changed(*old(game), *game, actor as int),
            game.players@[actor as int] == (Player {
                night_variables: (crate::player::PlayerNightVariables {
                    selection: game.players@[actor as int].night_variables.selection,
                    ..old(game).players@[actor as int].night_variables
                }),
                ..old(game).players@[actor as int]
            }),
            game.players@[actor as int].night_variables.selection@ == spec_commit_selection(
                *old(game),
                actor,
                targets@.take(k as int),
            ),
        decreases targets.len() - k,
    {
        let ghost kept = game.players@[actor as int].night_variables.selection@;
        let t = targets[k];
        proof {
            assert(targets@.take(k + 1 as int).drop_last() =~= targets@.take(k as int));
            assert(targets@.take(k + 1 as int).last() == targets@[k as int]);
        }
        if t < n && can_select(game, actor, t) {
            proof {
                assert(spec_can_select_given(*game, actor, t, kept) == spec_can_select_given(
                    *old(game),
                    actor,
                    t,
                    kept,
                ));
            }
            let mut sel = copy_vec(&game.players[actor].night_variables.selection);
            sel.push(t);
            proof {
                assert(player_wf(game.players@[actor as int], game.n()));
            }
            game.set_selection(actor, sel);
        } else {
            proof {
                if t < n {
                    assert(spec_can_select_given(*game, actor, t, kept) == spec_can_select_given(
                        *old(game),
                        actor,
                        t,
                        kept,
                    ));
                }
            }
        }
        k = k + 1;
    }
    proof {
        assert(targets@.take(targets@.len() as int) =~= targets@);
    }
}

/// Rebuild one player's night scratch state as night falls: the will is
/// snapshotted onto the grave fields, the committed selection becomes the
/// initial visits, and the appeared visits start as their mirror image.
pub fn night_entry_reset_player(game: &mut Game, i: PlayerIndex)
    requires
        i < old(game).n(),
        old(game).wf(),
    ensures
        final(game).wf(),
        crate::game::only_players_changed(*old(game), *final(game), i as int),
        crate::player::night_entry_reset(
            old(game).players@[i as int],
            final(game).players@[i as int],
            i,
        ),
{
    let will = crate::game::clone_string(&game.players[i].will);
    let alive = game.players[i].alive;
    let role = game.players[i].role_state.role();
    let visits = convert_selection_to_visits(game, i);
    let appeared = copy_vec(&visits);
    let selection = copy_vec(&game.players[i].night_variables.selection);
    proof {
        assert(player_wf(game.players@[i as int], game.n()));
    }
    game.replace_night_variables(
        i,
        crate::player::PlayerNightVariables {
            alive_tonight: alive,
            died: false,
            attacked: false,
            jailed: false,
            roleblocked: false,
            defense: role.defense(),
            appeared_suspicious: false,
            silenced: false,
            selection,
            visits,
            appeared_visits: appeared,
            messages: Vec::new(),
            grave_role: GraveRole::Role(role),
            grave_killers: Vec::new(),
            grave_will: will,
            grave_death_notes: Vec::new(),
        },
    );
}

/// The per-role hook run for every player at the start of every phase:
/// nightly bookkeeping resets, jailings take effect, wildcards take up
/// their chosen role, and the marksman loads.
pub fn on_phase_start(game: &mut Game, i: PlayerIndex, phase: crate::phase::PhaseType)
    requires
        i < old(game).n(),
        old(game).wf(),
    ensures
        final(game).wf(),
        night_action_frame(*old(game), *final(game)),
{
    match game.players[i].role_state.role() {
        Role::Doctor => {
            let d = match &game.players[i].role_state {
                RoleState::Doctor(d) => *d,
                _ => {
                    return ;
                },
            };
            game.set_role_state(
                i,
                RoleState::Doctor(
                    Doctor {
                        self_heals_remaining: d.self_heals_remaining,
                        target_healed_ref: None,
                    },
                ),
            );
        },
        Role::Bodyguard => {
            let b = match &game.players[i].role_state {
                RoleState::Bodyguard(b) => b.self_shields_remaining,
                _ => {
                    return ;
                },
            };
            game.set_role_state(
                i,
                RoleState::Bodyguard(
                    Bodyguard {
                        self_shields_remaining: b,
                        target_protected_ref: None,
                        redirected_player_refs: Vec::new(),
                    },
                ),
            );
        },
        Role::Janitor => {
            let j = match &game.players[i].role_state {
                RoleState::Janitor(j) => *j,
                _ => {
                    return ;
                },
            };
            game.set_role_state(
                i,
                RoleState::Janitor(
                    Janitor { cleans_remaining: j.cleans_remaining, cleaned_ref: None },
                ),
            );
        },
        Role::Jailor => {
            if !matches!(phase, crate::phase::PhaseType::Night) {
                return ;
            }
            let j = match &game.players[i].role_state {
                RoleState::Jailor(j) => *j,
                _ => {
                    return ;
                },
            };
            if let Some(jailed) = j.jailed_target_ref {
                if jailed < game.players.len() && game.players[jailed].alive
                    && game.players[i].alive {
                    game.set_night_jailed(jailed, true);
                    game.add_chat_message(
                        i,
                        ChatMessage::new_private(
                            ChatMessageVariant::NightInformation {
                                night_information: NightInformation::JailedTarget {
                                    player_index: jailed,
                                },
                            },
                        ),
                    );
                }
            }
            game.set_role_state(
                i,
                RoleState::Jailor(
                    Jailor {
                        jailed_target_ref: None,
                        executions_remaining: j.executions_remaining,
                    },
                ),
            );
        },
        Role::Kidnapper => {
            let k = match &game.players[i].role_state {
                RoleState::Kidnapper(k) => *k,
                _ => {
                    return ;
                },
            };
            match phase {
                crate::phase::PhaseType::Night => {
                    if let Some(jailed) = k.jailed_target_ref {
                        if jailed < game.players.len() && game.players[jailed].alive
                            && game.players[i].alive {
                            game.set_night_jailed(jailed, true);
                            game.add_chat_message(
                                i,
                                ChatMessage::new_private(
                                    ChatMessageVariant::NightInformation {
                                        night_information: NightInformation::JailedTarget {
                                            player_index: jailed,
                                        },
                                    },
                                ),
                            );
                        }
                    }
                },
                crate::phase::PhaseType::Morning => {
                    game.set_role_state(
                        i,
                        RoleState::Kidnapper(
                            Kidnapper {
                                jailed_target_ref: None,
                                executions_remaining: k.executions_remaining,
                            },
                        ),
                    );
                },
                _ => {},
            }
        },
        Role::Marksman => {
            if matches!(
                phase,
                crate::phase::PhaseType::Night | crate::phase::PhaseType::Morning,
            ) && game.day_number() != 1 {
                let state = match &game.players[i].role_state {
                    RoleState::Marksman(m) => m.state,
                    _ => {
                        return ;
                    },
                };
                if matches!(state, MarksmanState::NotLoaded) {
                    game.set_role_state(
                        i,
                        RoleState::Marksman(
                            Marksman {
                                state: MarksmanState::Marks { marks: MarksmanMarks::Empty },
                            },
                        ),
                    );
                }
            }
        },
        Role::Jester => {
            if matches!(phase, crate::phase::PhaseType::Morning) {
                let j = match &game.players[i].role_state {
                    RoleState::Jester(j) => *j,
                    _ => {
                        return ;
                    },
                };
                game.set_role_state(
                    i,
                    RoleState::Jester(
                        Jester {
                            lynched_yesterday: false,
                            won: j.won,
                            night_selection: None,
                        },
                    ),
                );
            }
        },
        Role::Minion => {
            if matches!(phase, crate::phase::PhaseType::Night) {
                game.set_role_state(
                    i,
                    RoleState::Minion(Minion { currently_used_player: None }),
                );
            }
        },
        Role::TrueWildcard | Role::FiendsWildcard | Role::MafiaSupportWildcard => {
            if matches!(phase, crate::phase::PhaseType::Night) {
                let chosen = match &game.players[i].role_state {
                    RoleState::TrueWildcard(w) => w.chosen_role,
                    RoleState::FiendsWildcard(w) => w.chosen_role,
                    RoleState::MafiaSupportWildcard(w) => w.chosen_role,
                    _ => {
                        return ;
                    },
                };
                if let Some(role) = chosen {
                    set_role(game, i, role);
                }
            }
        },
        Role::Martyr => {
            if matches!(phase, crate::phase::PhaseType::Morning) {
                let state = match &game.players[i].role_state {
                    RoleState::Martyr(m) => m.state,
                    _ => {
                        return ;
                    },
                };
                if let MartyrState::StillPlaying { bullets, .. } = state {
                    game.set_role_state(
                        i,
                        RoleState::Martyr(
                            Martyr {
                                state: MartyrState::StillPlaying {
                                    bullets,
                                    should_shoot: false,
                                },
                            },
                        ),
                    );
                }
            }
        },
        _ => {},
    }
}

} // verus!
