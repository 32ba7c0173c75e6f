//! The engine's standing guarantees, stated and proved once.
//!
//! The kill-blocking, single-grave and idempotent-death guarantees live in
//! the contracts of `Game::try_night_kill_single_attacker` and
//! `materialize_graves`; what stands here are the laws that relate several
//! operations: the monotone accumulation of defense, and the structural
//! ordering of the priority ladder.

use vstd::prelude::*;

use crate::grave::GraveKiller;
use crate::player::Player;
use crate::power::{attack_level, defense_level, spec_defense_max, AttackPower, DefensePower};
use crate::priority::{priority_index, spec_priority_ladder, Priority};

verus! {

/// Law of the single grave under many killers: a second fatal attack on a
/// target who already died tonight appends its cause to the same grave-
/// killer list and nothing more — the died flag stays set, no second death
/// message is produced, and the attacker learns nothing new.  Since the
/// kill path never touches the grave list and the morning materializes
/// exactly one grave per died player, every cause accumulated this way
/// lands on that one grave.
pub proof fn lemma_second_killer_accumulates(
    ps: Seq<Player>,
    qs: Seq<Player>,
    attacker: int,
    target: int,
    grave_killer: GraveKiller,
    attack: AttackPower,
    leave_death_note: bool,
    dead: bool,
)
    requires
        0 <= attacker < ps.len(),
        0 <= target < ps.len(),
        crate::game::spec_kill_players(
            ps,
            qs,
            attacker,
            target,
            grave_killer,
            attack,
            leave_death_note,
            dead,
        ),
        ps[target].alive,
        ps[target].night_variables.died,
        attack_level(attack) > defense_level(ps[target].night_variables.defense),
    ensures
        dead,
        qs[target].night_variables.died,
        qs[target].night_variables.grave_killers@ == ps[target].night_variables.grave_killers@.push(
            grave_killer,
        ),
        qs[target].night_variables.messages@ == ps[target].night_variables.messages@,
        attacker != target ==> qs[attacker] == ps[attacker],
{
}

/// The defense a player ends with after starting from `base` and taking a
/// sequence of "raise to" operations, applied in order.  Each application
/// is exactly what `Game::increase_defense_to` promises for one call.
pub open spec fn raise_all(base: DefensePower, raises: Seq<DefensePower>) -> DefensePower
    decreases raises.len(),
{
    if raises.len() == 0 {
        base
    } else {
        spec_defense_max(raise_all(base, raises.drop_last()), raises.last())
    }
}

/// One more raise folds in as a single maximum.
pub proof fn lemma_raise_step(base: DefensePower, raises: Seq<DefensePower>, d: DefensePower)
    ensures
        raise_all(base, raises.push(d)) == spec_defense_max(raise_all(base, raises), d),
{
    assert(raises.push(d).drop_last() =~= raises);
}

/// Law of monotone defense, first half: each successive raise within a
/// night leaves the accumulated defense at least as strong as it was — a
/// raise is never an overwrite to a lower value.
pub proof fn lemma_defense_never_decreases(
    base: DefensePower,
    raises: Seq<DefensePower>,
    k: int,
)
    requires
        0 <= k < raises.len(),
    ensures
        defense_level(raise_all(base, raises.take(k))) <= defense_level(
            raise_all(base, raises.take(k + 1)),
        ),
        defense_level(raise_all(base, raises.take(k + 1))) >= defense_level(raises[k]),
{
    assert(raises.take(k + 1).drop_last() =~= raises.take(k));
    assert(raises.take(k + 1).last() == raises[k]);
}

/// Law of monotone defense, second half: after every raise of a night has
/// been applied, the accumulated defense is the maximum of them all — at
/// least the base, at least every raise, and never an invented value: it
/// is the base itself or one of the raises.
pub proof fn lemma_defense_is_max(base: DefensePower, raises: Seq<DefensePower>)
    ensures
        defense_level(raise_all(base, raises)) >= defense_level(base),
        forall|k: int|
            0 <= k < raises.len() ==> defense_level(raise_all(base, raises)) >= defense_level(
                #[trigger] raises[k],
            ),
        raise_all(base, raises) == base || exists|k: int|
            0 <= k < raises.len() && #[trigger] raises[k] == raise_all(base, raises),
    decreases raises.len(),
{
    if raises.len() > 0 {
        let prefix = raises.drop_last();
        lemma_defense_is_max(base, prefix);
        assert forall|k: int| 0 <= k < raises.len() implies defense_level(
            raise_all(base, raises),
        ) >= defense_level(#[trigger] raises[k]) by {
            if k < prefix.len() {
                assert(prefix[k] == raises[k]);
            }
        }
        if raise_all(base, raises) == raises.last() {
            assert(raises[raises.len() - 1] == raise_all(base, raises));
        } else {
            assert(raise_all(base, raises) == raise_all(base, prefix));
            if raise_all(base, prefix) != base {
                let k = choose|k: int|
                    0 <= k < prefix.len() && #[trigger] prefix[k] == raise_all(base, prefix);
                assert(raises[k] == raise_all(base, raises));
            }
        }
    }
}

/// Law of priority ordering: healing resolves strictly before kills.  The
/// resolver walks the ladder front to back and runs each stage across all
/// players before the next begins, so a defense raised at the heal stage is
/// in place — for every ordering of players within each stage — when any
/// kill at the kill stage compares attack power against it.
pub proof fn lemma_heal_before_kill()
    ensures
        priority_index(Priority::Heal) < priority_index(Priority::Kill),
        spec_priority_ladder()[priority_index(Priority::Heal)] == Priority::Heal,
        spec_priority_ladder()[priority_index(Priority::Kill)] == Priority::Kill,
{
    crate::priority::lemma_ladder_indexes();
}

/// Law of visit redirection ordering: the stages that rewrite other
/// players' visits — the bodyguard's redirection and the transporter's
/// swap — sit strictly before the kill stage on the ladder.  Since the
/// ladder is the only order the resolver ever walks, a visit can never be
/// redirected after the kills that read it have already resolved: the
/// guarantee is structural, not a property of any one night.
pub proof fn lemma_redirection_before_kill()
    ensures
        priority_index(Priority::Bodyguard) < priority_index(Priority::Kill),
        priority_index(Priority::Transporter) < priority_index(Priority::Kill),
        spec_priority_ladder()[priority_index(Priority::Bodyguard)] == Priority::Bodyguard,
        spec_priority_ladder()[priority_index(Priority::Transporter)] == Priority::Transporter,
        spec_priority_ladder()[priority_index(Priority::Kill)] == Priority::Kill,
{
    crate::priority::lemma_ladder_indexes();
}

} // verus!
