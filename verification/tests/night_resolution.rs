use mafia_server::actions::set_chosen_targets;
use mafia_server::chat::{ChatMessageVariant, NightInformation};
use mafia_server::game::{Game, MessageRecipient};
use mafia_server::phase::{start_phase, PhaseType};
use mafia_server::role::Role;
use mafia_server::role_state::{Jailor, RoleState};
use mafia_server::settings::{PhaseTimeSettings, Settings};

fn small_game(roles: &[Role]) -> Game {
    let mut seats = Vec::new();
    for (i, role) in roles.iter().enumerate() {
        seats.push((format!("p{}", i), *role));
    }
    Game::new(
        Settings { phase_times: PhaseTimeSettings::default(), excluded_roles: Vec::new() },
        seats,
    )
}

fn run_night(game: &mut Game) {
    start_phase(game, PhaseType::Night);
    let next = PhaseType::end(game);
    assert_eq!(next, PhaseType::Morning);
}

fn player_got(game: &Game, player: usize, pred: impl Fn(&NightInformation) -> bool) -> bool {
    game.queued_messages.iter().any(|q| {
        q.recipient == MessageRecipient::Player(player)
            && match &q.message.variant {
                ChatMessageVariant::NightInformation { night_information } => {
                    pred(night_information)
                },
                _ => false,
            }
    })
}

#[test]
fn doctor_self_heal_blocks_basic_attack() {
    // Player 0: doctor with one self-heal; player 1: mafioso; player 2 fills
    // the town.  On day one the mafioso's ability is still disabled; on day
    // two the self-heal raises defense to protection and the basic attack
    // is survived.
    let mut game = small_game(&[Role::Doctor, Role::Mafioso, Role::Villager]);

    // night of day one: the mafioso cannot even commit a target
    set_chosen_targets(&mut game, 1, vec![0]);
    assert!(game.players[1].night_variables.selection.is_empty());
    run_night(&mut game);
    assert!(game.players[0].alive);
    assert!(!game.players[0].night_variables.attacked);
    start_phase(&mut game, PhaseType::Morning);
    assert_eq!(game.phase_machine.day_number, 2);
    assert!(game.graves.is_empty());

    // night of day two: same setup, now the attack goes out and is blocked
    set_chosen_targets(&mut game, 0, vec![0]);
    set_chosen_targets(&mut game, 1, vec![0]);
    assert_eq!(game.players[1].night_variables.selection, vec![0]);
    run_night(&mut game);
    assert!(game.players[0].alive);
    assert!(!game.players[0].night_variables.died);
    assert!(game.players[0].night_variables.attacked);
    assert!(player_got(&game, 0, |m| matches!(m, NightInformation::YouSurvivedAttack)));
    assert!(!player_got(&game, 1, |m| matches!(m, NightInformation::YouDied)));
    start_phase(&mut game, PhaseType::Morning);
    assert!(game.graves.is_empty());
    assert!(game.players[0].alive);
}

#[test]
fn bodyguard_redirects_the_attack_onto_itself() {
    // Player 0: bodyguard guarding player 2; player 1: mafioso attacking
    // player 2.  The redirection stage runs before kills, so the attack
    // resolves against the bodyguard and the counter-attack fells the
    // attacker; the guarded player survives untouched.
    let mut game = small_game(&[Role::Bodyguard, Role::Mafioso, Role::Villager]);
    start_phase(&mut game, PhaseType::Morning); // move to day two
    assert_eq!(game.phase_machine.day_number, 2);

    set_chosen_targets(&mut game, 0, vec![2]);
    set_chosen_targets(&mut game, 1, vec![2]);
    run_night(&mut game);

    assert!(!game.players[2].night_variables.died);
    assert!(!game.players[2].night_variables.attacked);
    assert!(player_got(&game, 2, |m| matches!(m, NightInformation::YouWereProtected)));
    assert!(player_got(&game, 0, |m| matches!(m, NightInformation::TargetWasAttacked)));
    // the attack landed on the bodyguard instead
    assert!(game.players[0].night_variables.attacked);
    assert!(game.players[0].night_variables.died);
    // and the counter-attack felled the attacker
    assert!(game.players[1].night_variables.died);

    start_phase(&mut game, PhaseType::Morning);
    assert!(game.players[2].alive);
    assert!(!game.players[0].alive);
    assert!(!game.players[1].alive);
    assert_eq!(game.graves.len(), 2);
}

#[test]
fn transporter_swap_is_seen_by_the_kill_stage() {
    // Player 0: transporter swapping players 2 and 3; player 1: mafioso
    // aiming at player 2.  The swap runs before kills, so player 3 takes
    // the attack.
    let mut game = small_game(&[Role::Transporter, Role::Mafioso, Role::Villager, Role::Villager]);
    start_phase(&mut game, PhaseType::Morning);

    set_chosen_targets(&mut game, 0, vec![2, 3]);
    set_chosen_targets(&mut game, 1, vec![2]);
    run_night(&mut game);

    assert!(!game.players[2].night_variables.died);
    assert!(game.players[3].night_variables.died);
    assert!(player_got(&game, 2, |m| matches!(m, NightInformation::Transported)));
    assert!(player_got(&game, 3, |m| matches!(m, NightInformation::Transported)));
}

#[test]
fn jailed_player_is_roleblocked_and_executable() {
    // Player 0: jailor who jailed player 1 (a mafioso); the mafioso's
    // attack on player 2 is cancelled by the roleblock, and the jailor's
    // execution lands through any defense.
    let mut game = small_game(&[Role::Jailor, Role::Mafioso, Role::Villager]);
    start_phase(&mut game, PhaseType::Morning); // day two
    game.set_role_state(
        0,
        RoleState::Jailor(Jailor { jailed_target_ref: Some(1), executions_remaining: 3 }),
    );
    set_chosen_targets(&mut game, 1, vec![2]);
    start_phase(&mut game, PhaseType::Night);
    assert!(game.players[1].night_variables.jailed);
    // the jailor commits the execution while the night runs
    game.set_selection(0, vec![1]);
    game.set_night_visits(0, vec![mafia_server::visit::Visit { target: 1, attack: true }]);
    let next = PhaseType::end(&mut game);
    assert_eq!(next, PhaseType::Morning);
    assert!(game.players[1].night_variables.roleblocked);
    assert!(!game.players[2].night_variables.attacked);
    assert!(game.players[1].night_variables.died);
}

#[test]
fn janitor_cleans_the_grave_of_its_victim() {
    let mut game = small_game(&[Role::Janitor, Role::Mafioso, Role::Detective]);
    start_phase(&mut game, PhaseType::Morning);
    set_chosen_targets(&mut game, 0, vec![2]);
    set_chosen_targets(&mut game, 1, vec![2]);
    run_night(&mut game);
    assert!(game.players[2].night_variables.died);
    start_phase(&mut game, PhaseType::Morning);
    assert_eq!(game.graves.len(), 1);
    assert_eq!(game.graves[0].role, mafia_server::grave::GraveRole::Cleaned);
    assert_eq!(game.graves[0].will, String::new());
}

#[test]
fn spy_hears_about_mafia_visits() {
    let mut game = small_game(&[Role::Spy, Role::Mafioso, Role::Villager]);
    start_phase(&mut game, PhaseType::Morning);
    set_chosen_targets(&mut game, 1, vec![2]);
    run_night(&mut game);
    let mut seen = false;
    for q in &game.queued_messages {
        if q.recipient == MessageRecipient::Player(0) {
            if let ChatMessageVariant::NightInformation {
                night_information: NightInformation::SpyMafiaVisit { players },
            } = &q.message.variant
            {
                assert_eq!(players, &vec![2]);
                seen = true;
            }
        }
    }
    assert!(seen);
}

#[test]
fn mafia_regains_a_killing_role_at_night() {
    // nobody holds a killing role, so as night falls a random living mafia
    // member is given the mafioso's
    let mut game = small_game(&[Role::Mortician, Role::MadeMan, Role::Villager]);
    start_phase(&mut game, PhaseType::Night);
    let promoted = (0..2)
        .filter(|&i| game.players[i].role_state.role() == Role::Mafioso)
        .count();
    assert_eq!(promoted, 1);
}

#[test]
fn night_messages_are_flushed_in_order() {
    let mut game = small_game(&[Role::Detective, Role::Villager]);
    start_phase(&mut game, PhaseType::Morning);
    set_chosen_targets(&mut game, 0, vec![1]);
    run_night(&mut game);
    assert!(game.players[0].night_variables.messages.is_empty());
    assert!(player_got(&game, 0, |m| matches!(
        m,
        NightInformation::SheriffResult { suspicious: false }
    )));
}

#[test]
fn arsonist_tags_douses_and_ignites() {
    let mut game = small_game(&[Role::Arsonist, Role::Doctor, Role::Villager]);
    game.douse(1);
    game.douse(2);
    assert!(game.arsonist_doused().doused(1));
    assert!(game.has_player_tag(0, 1, mafia_server::tag::Tag::Doused));
    game.clean_doused(2);
    assert!(!game.arsonist_doused().doused(2));
    game.increase_defense_to(1, mafia_server::power::DefensePower::Protection);
    game.ignite(0);
    // ignition burns through protection
    assert!(game.players[1].night_variables.died);
    assert!(!game.players[2].night_variables.died);
}
