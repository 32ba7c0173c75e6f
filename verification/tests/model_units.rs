use mafia_server::chat::{ChatMessage, ChatMessageVariant, PlayerGroup};
use mafia_server::game::Game;
use mafia_server::kira::{KiraGuess, KiraGuessResult, KiraResult};
use mafia_server::phase::{PhaseStateMachine, PhaseType};
use mafia_server::priority::Priority;
use mafia_server::role::{Faction, Role};
use mafia_server::role_state::{MarksmanMarks, MarksmanState, Martyr, MartyrState};
use mafia_server::settings::{PhaseTimeSettings, Settings};

fn small_game(roles: &[Role]) -> Game {
    let mut seats = Vec::new();
    for (i, role) in roles.iter().enumerate() {
        seats.push((format!("p{}", i), *role));
    }
    Game::new(
        Settings { phase_times: PhaseTimeSettings::default(), excluded_roles: Vec::new() },
        seats,
    )
}

#[test]
fn priority_ladder_orders_redirection_and_healing_before_kills() {
    let ladder = Priority::values();
    let pos = |p: Priority| ladder.iter().position(|&q| q == p).unwrap();
    assert!(pos(Priority::Transporter) < pos(Priority::Kill));
    assert!(pos(Priority::Bodyguard) < pos(Priority::Kill));
    assert!(pos(Priority::Heal) < pos(Priority::Kill));
    assert!(pos(Priority::Kill) < pos(Priority::Investigative));
    assert_eq!(ladder.len(), 14);
}

#[test]
fn phase_lengths_come_from_the_settings() {
    let times = PhaseTimeSettings::default();
    assert_eq!(PhaseType::Night.get_length(&times), 39);
    assert_eq!(PhaseType::Discussion.get_length(&times), 46);
    assert_eq!(times.get_time_for(PhaseType::Morning), 5);
    assert!(!times.game_ends_instantly());
    let zeroed = PhaseTimeSettings {
        morning: 0,
        discussion: 0,
        voting: 0,
        testimony: 24,
        judgement: 20,
        evening: 7,
        night: 0,
    };
    assert!(zeroed.game_ends_instantly());
}

#[test]
fn phase_machine_starts_in_the_evening_of_day_one() {
    let machine = PhaseStateMachine::new(&PhaseTimeSettings::default());
    assert_eq!(machine.current_state, PhaseType::Evening);
    assert_eq!(machine.day_number, 1);
    assert_eq!(machine.time_remaining, 7);
    assert!(machine.current_state.is_day());
    assert!(!PhaseType::Night.is_day());
}

#[test]
fn role_static_properties() {
    assert_eq!(Role::Doctor.faction(), Faction::Town);
    assert_eq!(Role::Godfather.faction(), Faction::Mafia);
    assert_eq!(Role::Kira.faction(), Faction::Fiends);
    assert_eq!(
        Role::Godfather.defense(),
        mafia_server::power::DefensePower::Armor
    );
    assert_eq!(Role::Mafioso.maximum_count(), Some(1));
    assert_eq!(Role::Doctor.maximum_count(), None);
    assert!(Role::Transporter.possession_immune());
    assert!(!Role::Doctor.possession_immune());
    assert!(Role::Jester.roleblock_immune());
    assert!(Role::Jailor.wardblock_immune());
    assert!(Role::Godfather.has_innocent_aura());
    assert!(!Role::Mafioso.has_suspicious_aura());
}

#[test]
fn chat_message_constructors_keep_their_fields() {
    let private = ChatMessage::new_private(ChatMessageVariant::JesterWon);
    assert!(private.chat_group.is_none());
    assert!(matches!(private.get_variant(), ChatMessageVariant::JesterWon));
    let grouped = ChatMessage::new_non_private(ChatMessageVariant::MartyrWon, PlayerGroup::All);
    assert_eq!(grouped.chat_group, Some(PlayerGroup::All));
    let explicit = ChatMessage::new(ChatMessageVariant::MartyrFailed, Some(PlayerGroup::Mafia));
    assert_eq!(explicit.chat_group, Some(PlayerGroup::Mafia));
}

#[test]
fn kira_guess_conversion_and_matching() {
    assert_eq!(KiraGuess::convert_to_guess(Role::Doctor), Some(KiraGuess::Doctor));
    assert_eq!(KiraGuess::convert_to_guess(Role::Mafioso), Some(KiraGuess::NonTown));
    assert_eq!(KiraGuess::convert_to_guess(Role::Martyr), None);
    assert!(KiraGuess::Doctor.guess_matches_role(Role::Doctor));
    assert!(KiraGuess::NonTown.guess_matches_role(Role::Godfather));
    assert!(!KiraGuess::Doctor.guess_matches_role(Role::Detective));
    assert!(!KiraGuess::NoGuess.guess_matches_role(Role::Martyr));
}

#[test]
fn kira_result_grades_guesses_against_the_game() {
    let game = small_game(&[Role::Kira, Role::Doctor, Role::Mafioso]);
    let result = KiraResult::new(
        vec![(1, KiraGuess::Doctor), (2, KiraGuess::Detective)],
        &game,
    );
    assert_eq!(result.guesses[0].1, (KiraGuess::Doctor, KiraGuessResult::Correct));
    assert_eq!(
        result.guesses[1].1,
        (KiraGuess::Detective, KiraGuessResult::NotInGame)
    );
    assert!(!result.all_correct());
    let perfect = KiraResult::new(
        vec![(1, KiraGuess::Doctor), (2, KiraGuess::NonTown)],
        &game,
    );
    assert!(perfect.all_correct());
    let lenient = KiraResult::new(vec![(1, KiraGuess::NoGuess)], &game);
    assert!(lenient.all_correct());
}

#[test]
fn marksman_marks_toggle_on_and_off() {
    let mut state = MarksmanState::Marks { marks: MarksmanMarks::Empty };
    assert!(state.no_marks());
    state.toggle_mark(3);
    assert_eq!(state.marks(), vec![3]);
    state.toggle_mark(5);
    assert_eq!(state.marks(), vec![3, 5]);
    state.toggle_mark(3);
    assert_eq!(state.marks(), vec![5]);
    state.toggle_mark(5);
    assert!(state.no_marks());
    let mut unloaded = MarksmanState::NotLoaded;
    unloaded.toggle_mark(1);
    assert!(unloaded.marks().is_empty());
}

#[test]
fn martyr_state_reports_bullets_and_victory() {
    let playing = MartyrState::StillPlaying { bullets: 2, should_shoot: true };
    assert_eq!(playing.bullets(), 2);
    assert!(playing.should_shoot());
    assert_eq!(MartyrState::Won.bullets(), 0);
    assert!(!MartyrState::LeftTown.should_shoot());
    assert!(Martyr { state: MartyrState::Won }.won());
    assert!(!Martyr { state: playing }.won());
}

#[test]
fn selection_is_validated_per_role() {
    let mut game = small_game(&[Role::Doctor, Role::Mafioso, Role::Villager]);
    // day one: the mafioso may not select at all
    assert!(!mafia_server::actions::can_select(&game, 1, 2));
    // the doctor with a self-heal may target itself
    assert!(mafia_server::actions::can_select(&game, 0, 0));
    assert!(mafia_server::actions::can_select(&game, 0, 2));
    // a villager has no selection
    assert!(!mafia_server::actions::can_select(&game, 2, 0));
    mafia_server::phase::start_phase(&mut game, PhaseType::Morning);
    assert!(mafia_server::actions::can_select(&game, 1, 2));
    // dead targets are rejected
    game.set_alive(2, false);
    assert!(!mafia_server::actions::can_select(&game, 1, 2));
}
