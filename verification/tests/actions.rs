use hextank::action_manager::{action_manager, manage_player_action, playerOutput};
use hextank::game::{EnemiesPos, TeamColor};
use hextank::parser::{parse_u32, str_eq};
use hextank::player::{tank_type, Player, PlayerState};
use hextank::robot_strategies::{turn_LR, turn_opposite, turn_rand, Turn};
use hextank::scan_parser::{GetScanReturn, ScanResponse};

fn fresh_player() -> Player {
    Player::initialize_player("R".to_string(), 100, 9, tank_type::tank)
}

#[test]
fn action_manager_records_each_action() {
    let mut player = fresh_player();
    let mut manager: action_manager = manage_player_action::initialize();
    assert!(matches!(manager.get_last_action(), playerOutput::NONE));
    assert_eq!(manager.get_action_counter(), 0);

    manager.scan(&mut player);
    manager.drive(&mut player);
    manager.skip(&mut player);
    manager.shoot("SHOOT N", &mut player);
    manager.turn("SW", &mut player);
    manager.end();

    assert_eq!(manager.get_action_counter(), 6);
    assert!(matches!(manager.get_last_action(), playerOutput::END));
    assert_eq!(player.scan_actions_taken, 1);
    assert_eq!(player.drive_actions_taken, 1);
    assert_eq!(player.skip_actions_taken, 1);
    assert_eq!(player.shot_actions_taken, 1);
    // four step-consuming actions; turn and end are no steps
    assert_eq!(player.steps, 4);
    assert_eq!(player.facing_directon, "SW");

    let out = manager.take_output();
    assert_eq!(
        out,
        vec!["SCAN", "DRIVE", "SKIP", "SHOOT N", "TURN SW ", "END"]
    );
    assert!(manager.outbox.is_empty());

    manager.reset_counter();
    assert_eq!(manager.get_action_counter(), 0);
}

#[test]
fn turn_helpers_step_around_the_compass() {
    let mut player = fresh_player();
    let mut manager: action_manager = manage_player_action::initialize();

    turn_LR(&mut player, Turn::Right, &mut manager);
    assert_eq!(player.facing_directon, "NE");
    turn_LR(&mut player, Turn::Right, &mut manager);
    assert_eq!(player.facing_directon, "SE");
    turn_LR(&mut player, Turn::Left, &mut manager);
    assert_eq!(player.facing_directon, "NE");
    turn_LR(&mut player, Turn::Left, &mut manager);
    assert_eq!(player.facing_directon, "N");
    turn_LR(&mut player, Turn::Left, &mut manager);
    assert_eq!(player.facing_directon, "NW");

    turn_opposite(&mut player, &mut manager);
    assert_eq!(player.facing_directon, "SE");
    turn_opposite(&mut player, &mut manager);
    assert_eq!(player.facing_directon, "NW");
}

#[test]
fn turn_rand_picks_a_compass_label() {
    let mut player = fresh_player();
    let mut manager: action_manager = manage_player_action::initialize();
    turn_rand(&mut player, &mut manager);
    // the draw never picks north-west
    assert!(["N", "NE", "SE", "S", "SW"]
        .iter()
        .any(|d| *d == player.facing_directon));
    let out = manager.take_output();
    assert_eq!(out.len(), 1);
    assert_eq!(out[0], format!("TURN {} ", player.facing_directon));
}

#[test]
fn possible_moves_shoot_when_enemy_seen() {
    let mut player = fresh_player();
    player.round_number = 101;  // past the exploration rounds
    player.add_shoot_action();
    let mut scan = ScanResponse::initialize_scan_response();
    scan.scan_entry(vec!["aRcdefghijk".to_string()]);

    let moves = player.construct_possible_moves(&mut scan);
    assert_eq!(moves, vec!["SHOOT N"]);
}

#[test]
fn possible_moves_drive_when_no_enemy() {
    let mut player = fresh_player();
    let mut scan = ScanResponse::initialize_scan_response();
    scan.scan_entry(vec!["abcdefghijk".to_string()]);

    let moves = player.construct_possible_moves(&mut scan);
    assert_eq!(moves, vec!["DRIVE NW", "DRIVE N", "DRIVE NE"]);
}

#[test]
fn possible_moves_empty_during_exploration() {
    // an enemy in sight during exploration rounds yields no move
    let mut player = fresh_player();
    let mut scan = ScanResponse::initialize_scan_response();
    scan.scan_entry(vec!["aRcdefghijk".to_string()]);

    let moves = player.construct_possible_moves(&mut scan);
    assert!(moves.is_empty());
}

#[test]
fn parse_u32_accepts_digits_only() {
    assert_eq!(parse_u32("0"), Some(0));
    assert_eq!(parse_u32("123"), Some(123));
    assert_eq!(parse_u32("4294967295"), Some(u32::MAX));
    assert_eq!(parse_u32("4294967296"), None);
    assert_eq!(parse_u32(""), None);
    assert_eq!(parse_u32("12a"), None);
    assert_eq!(parse_u32("-1"), None);
}

#[test]
fn str_eq_compares_contents() {
    assert!(str_eq("MOVE", "MOVE"));
    assert!(!str_eq("MOVE", "MOVES"));
    assert!(!str_eq("MOVE", "MOVA"));
    assert!(str_eq("", ""));
}

#[test]
fn enemies_pos_records_sighting() {
    let e = EnemiesPos::new(3, -2, -1, TeamColor::B, 7);
    assert_eq!(e.lastseen_x_pos, 3);
    assert_eq!(e.lastseen_y_pos, -2);
    assert_eq!(e.lastseen_z_pos, -1);
    assert!(matches!(e.team, TeamColor::B));
    assert_eq!(e.seen_at_round, 7);
}

#[test]
fn start_round_resets_every_counter() {
    // the reset holds whatever the prior values were
    let mut player = fresh_player();
    player.add_drive_action();
    player.add_scan_action();
    player.add_shoot_action();
    player.add_skip_action();
    player.add_step();
    player.add_step();
    player.update_points_count(3);
    player.start_round(42);

    assert_eq!(player.drive_actions_taken, 0);
    assert_eq!(player.scan_actions_taken, 0);
    assert_eq!(player.shot_actions_taken, 0);
    assert_eq!(player.skip_actions_taken, 0);
    assert_eq!(player.steps, 0);
    assert_eq!(player.points_count, 0);
    assert_eq!(player.round_number, 42);
}

#[test]
fn skip_check_is_false_only_after_one_drive() {
    let mut player = fresh_player();
    assert!(player.get_skip_actions_check());
    player.add_drive_action();
    assert!(!player.get_skip_actions_check());
    player.add_drive_action();
    assert!(player.get_skip_actions_check());
}
