use mafia_server::game::Game;
use mafia_server::grave::{GraveKiller, GraveRole};
use mafia_server::phase::materialize_graves;
use mafia_server::power::{AttackPower, DefensePower};
use mafia_server::role::Role;
use mafia_server::settings::{PhaseTimeSettings, Settings};
use mafia_server::chat::NightInformation;

fn small_game(roles: &[Role]) -> Game {
    let mut seats = Vec::new();
    for (i, role) in roles.iter().enumerate() {
        seats.push((format!("p{}", i), *role));
    }
    Game::new(
        Settings { phase_times: PhaseTimeSettings::default(), excluded_roles: Vec::new() },
        seats,
    )
}

fn count_you_died(game: &Game, i: usize) -> usize {
    game.players[i]
        .night_variables
        .messages
        .iter()
        .filter(|m| matches!(m, NightInformation::YouDied))
        .count()
}

#[test]
fn defense_is_raised_to_maximum_never_lowered() {
    let mut game = small_game(&[Role::Villager]);
    assert_eq!(game.players[0].night_variables.defense, DefensePower::NoDefense);
    game.increase_defense_to(0, DefensePower::Armor);
    assert_eq!(game.players[0].night_variables.defense, DefensePower::Armor);
    game.increase_defense_to(0, DefensePower::Protection);
    assert_eq!(game.players[0].night_variables.defense, DefensePower::Protection);
    // a weaker raise must not lower the accumulated defense
    game.increase_defense_to(0, DefensePower::Armor);
    assert_eq!(game.players[0].night_variables.defense, DefensePower::Protection);
    game.increase_defense_to(0, DefensePower::NoDefense);
    assert_eq!(game.players[0].night_variables.defense, DefensePower::Protection);
}

#[test]
fn can_block_follows_the_strength_ladder() {
    assert!(DefensePower::Armor.can_block(AttackPower::Basic));
    assert!(!DefensePower::NoDefense.can_block(AttackPower::Basic));
    assert!(!DefensePower::Armor.can_block(AttackPower::ArmorPiercing));
    assert!(DefensePower::Protection.can_block(AttackPower::ArmorPiercing));
    assert!(!DefensePower::Protection.can_block(AttackPower::ProtectionPiercing));
    assert!(DefensePower::Invincible.can_block(AttackPower::ProtectionPiercing));
}

#[test]
fn blocked_attack_leaves_target_alive_but_attacked() {
    let mut game = small_game(&[Role::Mafioso, Role::Villager]);
    game.increase_defense_to(1, DefensePower::Armor);
    let dead = game.try_night_kill_single_attacker(
        0,
        1,
        GraveKiller::Faction(mafia_server::role::Faction::Mafia),
        AttackPower::Basic,
        false,
    );
    assert!(!dead);
    assert!(game.players[1].night_variables.attacked);
    assert!(!game.players[1].night_variables.died);
    assert!(game.players[1].alive);
    assert!(game.players[1].night_variables.grave_killers.is_empty());
    assert!(game.players[1]
        .night_variables
        .messages
        .iter()
        .any(|m| matches!(m, NightInformation::YouSurvivedAttack)));
    assert!(game.players[0]
        .night_variables
        .messages
        .iter()
        .any(|m| matches!(m, NightInformation::SomeoneSurvivedYourAttack)));
}

#[test]
fn piercing_attack_defeats_weaker_defense() {
    let mut game = small_game(&[Role::Mafioso, Role::Villager]);
    game.increase_defense_to(1, DefensePower::Armor);
    let dead = game.try_night_kill_single_attacker(
        0,
        1,
        GraveKiller::Role(Role::Mafioso),
        AttackPower::ArmorPiercing,
        false,
    );
    assert!(dead);
    assert!(game.players[1].night_variables.died);
    assert!(game.players[1].night_variables.attacked);
    assert_eq!(game.players[1].night_variables.grave_killers.len(), 1);
}

#[test]
fn killing_twice_adds_killers_but_one_death_message() {
    let mut game = small_game(&[Role::Mafioso, Role::Godfather, Role::Villager]);
    let first = game.try_night_kill_single_attacker(
        0,
        2,
        GraveKiller::Role(Role::Mafioso),
        AttackPower::Basic,
        false,
    );
    let second = game.try_night_kill_single_attacker(
        1,
        2,
        GraveKiller::Role(Role::Godfather),
        AttackPower::Basic,
        false,
    );
    assert!(first && second);
    assert!(game.players[2].night_variables.died);
    assert_eq!(game.players[2].night_variables.grave_killers.len(), 2);
    assert_eq!(count_you_died(&game, 2), 1);
}

#[test]
fn one_grave_per_death_with_all_killers_accumulated() {
    let mut game = small_game(&[Role::Mafioso, Role::Godfather, Role::Villager]);
    game.try_night_kill_single_attacker(
        0,
        2,
        GraveKiller::Role(Role::Mafioso),
        AttackPower::Basic,
        false,
    );
    game.try_night_kill_single_attacker(
        1,
        2,
        GraveKiller::Role(Role::Godfather),
        AttackPower::Basic,
        false,
    );
    materialize_graves(&mut game);
    assert_eq!(game.graves.len(), 1);
    let grave = &game.graves[0];
    assert_eq!(grave.player, 2);
    assert_eq!(
        grave.killers,
        vec![GraveKiller::Role(Role::Mafioso), GraveKiller::Role(Role::Godfather)]
    );
    assert!(!game.players[2].alive);
    // the kill path against the now-dead player is a no-op
    let again = game.try_night_kill_single_attacker(
        0,
        2,
        GraveKiller::Role(Role::Mafioso),
        AttackPower::Basic,
        false,
    );
    assert!(again);
    materialize_graves(&mut game);
    assert_eq!(game.graves.len(), 1);
}

#[test]
fn grave_records_the_snapshotted_will_and_role() {
    let mut game = small_game(&[Role::Mafioso, Role::Detective]);
    game.players[1].night_variables.grave_will = String::from("found the godfather");
    game.try_night_kill_single_attacker(
        0,
        1,
        GraveKiller::Faction(mafia_server::role::Faction::Mafia),
        AttackPower::Basic,
        false,
    );
    materialize_graves(&mut game);
    assert_eq!(game.graves.len(), 1);
    assert_eq!(game.graves[0].role, GraveRole::Role(Role::Detective));
    assert_eq!(game.graves[0].will, String::from("found the godfather"));
}
