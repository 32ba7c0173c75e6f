use mafia_server::controllers::{
    AbilitySelection, ControllerID, ControllerParameters, OnePlayerOptionSelection,
    SavedController, SavedControllersMap,
};
use mafia_server::phase::PhaseType;

fn one_player_controller(
    owner: usize,
    id: u8,
    selected: Option<usize>,
    allowed: Vec<usize>,
) -> (ControllerID, SavedController) {
    (
        ControllerID { player: owner, id },
        SavedController::new(
            AbilitySelection::OnePlayerOption {
                player_selection: OnePlayerOptionSelection(selected),
            },
            ControllerParameters {
                grayed_out: false,
                reset_on_phase_start: Some(PhaseType::Morning),
                dont_save: false,
                default_selection: AbilitySelection::OnePlayerOption {
                    player_selection: OnePlayerOptionSelection(None),
                },
                allowed_players: allowed,
            },
        ),
    )
}

#[test]
fn saved_controllers_are_found_by_identifier() {
    let map = SavedControllersMap::new(vec![
        one_player_controller(0, 0, Some(2), vec![0]),
        one_player_controller(1, 0, None, vec![1]),
    ]);
    assert!(map.get_controller(ControllerID { player: 0, id: 0 }).is_some());
    assert!(map.get_controller(ControllerID { player: 2, id: 0 }).is_none());
    let selection = map
        .get_controller_current_selection_player_option(ControllerID { player: 0, id: 0 })
        .unwrap();
    assert_eq!(selection, OnePlayerOptionSelection(Some(2)));
    assert!(map
        .get_controller_current_selection(ControllerID { player: 1, id: 0 })
        .is_some());
    assert!(map
        .get_controller_current_selection_role_option(ControllerID { player: 0, id: 0 })
        .is_none());
    assert!(map
        .get_controller_current_selection_kira(ControllerID { player: 0, id: 0 })
        .is_none());
}

#[test]
fn controllers_filter_by_allowed_player() {
    let map = SavedControllersMap::new(vec![
        one_player_controller(0, 0, Some(2), vec![0]),
        one_player_controller(1, 0, None, vec![1]),
        one_player_controller(1, 1, None, vec![0, 1]),
    ]);
    let mine = map.controllers_allowed_to_player(0);
    assert!(mine.get_controller(ControllerID { player: 0, id: 0 }).is_some());
    assert!(mine.get_controller(ControllerID { player: 1, id: 1 }).is_some());
    assert!(mine.get_controller(ControllerID { player: 1, id: 0 }).is_none());
    let params = map.controller_parameters();
    assert_eq!(params.controller_parameters.len(), 3);
    let allowed = map.controller_parameters_allowed_to_player(1);
    assert_eq!(allowed.controller_parameters.len(), 2);
}

#[test]
fn controller_resets_to_its_default_on_its_phase() {
    let (_, mut controller) = one_player_controller(0, 0, Some(2), vec![0]);
    controller.reset_on_phase_start(PhaseType::Night);
    assert!(matches!(
        controller.current_selection(),
        AbilitySelection::OnePlayerOption { player_selection: OnePlayerOptionSelection(Some(2)) }
    ));
    controller.reset_on_phase_start(PhaseType::Morning);
    assert!(matches!(
        controller.current_selection(),
        AbilitySelection::OnePlayerOption { player_selection: OnePlayerOptionSelection(None) }
    ));
}

#[test]
fn reset_all_touches_every_controller() {
    let mut map = SavedControllersMap::new(vec![
        one_player_controller(0, 0, Some(2), vec![0]),
        one_player_controller(1, 0, Some(0), vec![1]),
    ]);
    map.reset_on_phase_start_all(PhaseType::Morning);
    let first = map
        .get_controller_current_selection_player_option(ControllerID { player: 0, id: 0 })
        .unwrap();
    let second = map
        .get_controller_current_selection_player_option(ControllerID { player: 1, id: 0 })
        .unwrap();
    assert_eq!(first, OnePlayerOptionSelection(None));
    assert_eq!(second, OnePlayerOptionSelection(None));
}
