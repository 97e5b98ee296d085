use hextank::action_manager::{action_manager, manage_player_action, playerOutput};
use hextank::handle_server_output::process_message;
use hextank::player::{tank_type, Player, PlayerState};
use hextank::scan_parser::{GetScanReturn, ScanResponse};
use hextank::strategy_controller::{startegies, strategiesType, strategy_controller};

fn fresh_state(colour: &str) -> (Player, startegies, ScanResponse, action_manager) {
    let player = Player::initialize_player(colour.to_string(), 100, 9, tank_type::tank);
    let strategies: startegies = strategy_controller::initialize_initial_startegy();
    let scan = ScanResponse::initialize_scan_response();
    let manager: action_manager = manage_player_action::initialize();
    (player, strategies, scan, manager)
}

fn tokens(line: &str) -> Vec<String> {
    line.split_whitespace().map(|t| t.to_string()).collect()
}

#[test]
fn dispatcher_terminates_at_zero_health() {
    // health starts at 2; the second damage line ends the loop
    let (mut player, mut strategies, mut scan, mut manager) = fresh_state("R");

    let (cmds, done) = process_message(
        &mut player,
        &mut strategies,
        &mut scan,
        &mut manager,
        "DAMAGE".to_string(),
        tokens("DAMAGE"),
    );
    assert!(cmds.is_empty());
    assert!(!done);
    assert_eq!(player.health, 1);

    let (cmds, done) = process_message(
        &mut player,
        &mut strategies,
        &mut scan,
        &mut manager,
        "DAMAGE".to_string(),
        tokens("DAMAGE"),
    );
    assert!(cmds.is_empty());
    assert!(done);
    assert_eq!(player.health, 0);
}

#[test]
fn dispatcher_round_start_resets_and_turns() {
    // round one, first cycle: a red unit turns toward its corner
    let (mut player, mut strategies, mut scan, mut manager) = fresh_state("R");
    player.add_step();
    player.update_points_count(2);

    let (cmds, done) = process_message(
        &mut player,
        &mut strategies,
        &mut scan,
        &mut manager,
        "MOVE x 1".to_string(),
        tokens("MOVE x 1"),
    );
    assert!(!done);
    assert_eq!(cmds, vec!["TURN SE "]);
    assert_eq!(player.round_number, 1);
    assert_eq!(player.steps, 0);
    assert_eq!(player.points_count, 0);
    assert_eq!(player.facing_directon, "SE");
    assert!(matches!(manager.last_action, playerOutput::TURN));
}

#[test]
fn dispatcher_later_round_scans_first() {
    let (mut player, mut strategies, mut scan, mut manager) = fresh_state("R");

    let (cmds, done) = process_message(
        &mut player,
        &mut strategies,
        &mut scan,
        &mut manager,
        "MOVE x 2".to_string(),
        tokens("MOVE x 2"),
    );
    assert!(!done);
    assert_eq!(cmds, vec!["SCAN"]);
    assert_eq!(player.round_number, 2);
    assert_eq!(player.scan_actions_taken, 1);
    assert_eq!(player.steps, 1);
}

#[test]
fn dispatcher_rejected_command_ends_turn() {
    let (mut player, mut strategies, mut scan, mut manager) = fresh_state("R");

    let (cmds, done) = process_message(
        &mut player,
        &mut strategies,
        &mut scan,
        &mut manager,
        "HUH?".to_string(),
        tokens("HUH?"),
    );
    assert!(!done);
    assert_eq!(cmds, vec!["END"]);
    assert!(matches!(manager.last_action, playerOutput::END));
}

#[test]
fn dispatcher_finish_and_dead_terminate() {
    let (mut player, mut strategies, mut scan, mut manager) = fresh_state("R");
    let (_, done) = process_message(
        &mut player,
        &mut strategies,
        &mut scan,
        &mut manager,
        "FINISH".to_string(),
        tokens("FINISH"),
    );
    assert!(done);

    let (mut player, mut strategies, mut scan, mut manager) = fresh_state("R");
    let (_, done) = process_message(
        &mut player,
        &mut strategies,
        &mut scan,
        &mut manager,
        "DEAD".to_string(),
        tokens("DEAD"),
    );
    assert!(done);
}

#[test]
fn dispatcher_scan_payload_drives_forward() {
    // after a scan whose forward cell is open, the unit drives
    let (mut player, mut strategies, mut scan, mut manager) = fresh_state("R");
    player.round_number = 2;
    manager.scan(&mut player);
    let _ = manager.take_output();

    let (cmds, done) = process_message(
        &mut player,
        &mut strategies,
        &mut scan,
        &mut manager,
        "abWdefWWijW".to_string(),
        tokens("abWdefWWijW"),
    );
    assert!(!done);
    assert_eq!(cmds, vec!["DRIVE"]);
    assert_eq!(player.drive_actions_taken, 1);
    assert!(scan.get_wall_detected());
    assert_eq!(scan.get_walls(), vec![2, 6, 7, 10]);
}

#[test]
fn dispatcher_scan_payload_marks_corner() {
    // a wall straight ahead (index 1) marks the corner and skips
    let (mut player, mut strategies, mut scan, mut manager) = fresh_state("R");
    player.round_number = 2;
    manager.scan(&mut player);
    let _ = manager.take_output();

    let (cmds, done) = process_message(
        &mut player,
        &mut strategies,
        &mut scan,
        &mut manager,
        "aWcdefghijk".to_string(),
        tokens("aWcdefghijk"),
    );
    assert!(!done);
    assert!(player.found_corner);
    assert_eq!(cmds, vec!["SKIP"]);
    assert_eq!(player.skip_actions_taken, 1);
}

#[test]
fn dispatcher_accepted_drive_updates_points() {
    let (mut player, mut strategies, mut scan, mut manager) = fresh_state("R");
    player.round_number = 2;
    scan.scan_entry(vec!["abcdefghijk".to_string()]);
    player.add_scan_action();
    manager.drive(&mut player);
    let _ = manager.take_output();

    let (cmds, done) = process_message(
        &mut player,
        &mut strategies,
        &mut scan,
        &mut manager,
        "OK x 2".to_string(),
        tokens("OK x 2"),
    );
    assert!(!done);
    assert_eq!(player.points_count, 2);
    // the find-corner phase drives again: no wall at index 5
    assert_eq!(cmds, vec!["DRIVE"]);
    assert_eq!(player.drive_actions_taken, 2);
}

#[test]
fn dispatcher_turn_ack_waits() {
    let (mut player, mut strategies, mut scan, mut manager) = fresh_state("R");
    manager.turn("SE", &mut player);
    let _ = manager.take_output();

    let (cmds, done) = process_message(
        &mut player,
        &mut strategies,
        &mut scan,
        &mut manager,
        "OKAY".to_string(),
        tokens("OKAY"),
    );
    assert!(!done);
    assert!(cmds.is_empty());
}

#[test]
fn dispatcher_unknown_ack_ends_defensively() {
    let (mut player, mut strategies, mut scan, mut manager) = fresh_state("R");

    let (cmds, done) = process_message(
        &mut player,
        &mut strategies,
        &mut scan,
        &mut manager,
        "whatever".to_string(),
        tokens("whatever"),
    );
    assert!(!done);
    assert_eq!(cmds, vec!["END"]);
    // the defensive reply is written directly: the last action is unchanged
    assert!(matches!(manager.last_action, playerOutput::NONE));
}

#[test]
fn strategy_controller_progression() {
    let (mut player, _, _, mut manager) = fresh_state("R");
    let mut strategies: startegies = strategy_controller::initialize_initial_startegy();
    assert!(matches!(
        strategies.get_active_strategy(),
        strategiesType::find_corner
    ));

    // corner found during the exploration rounds: explorer
    player.corner_found();
    player.round_number = 3;
    player.max_exploration_rounds = 10;
    strategies.avaliate_startegy(&mut player, &mut manager);
    assert!(matches!(
        strategies.get_active_strategy(),
        strategiesType::exlporer
    ));

    // exploration over: traverse
    player.round_number = 10;
    strategies.avaliate_startegy(&mut player, &mut manager);
    assert!(matches!(
        strategies.get_active_strategy(),
        strategiesType::traverse
    ));
}
