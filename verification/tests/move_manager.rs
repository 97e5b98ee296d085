use hextank::move_manager::{construct_drive_moves, construct_shoot_move};
use hextank::scan_parser::{GetScanReturn, ScanResponse};

fn one_char_tokens(s: &str) -> Vec<String> {
    s.chars().map(|c| c.to_string()).collect()
}

#[test]
fn test_construct_drive_move_all_walls() {
    let scan_string: Vec<String> = one_char_tokens("WWWWWWWWWWW");

    let mut scan: ScanResponse = ScanResponse::initialize_scan_response();
    scan.scan_entry(scan_string);

    let move_output: Vec<String> = construct_drive_moves("N".to_string(), &mut scan);

    assert_eq!(
        0,
        move_output.len(),
        "Should have 0 viable moves, the output vector is not empty."
    );
}

#[test]
fn test_construct_drive_move_all_viable() {
    let scan_string: Vec<String> = one_char_tokens("abcdefghijk");
    let mut scan: ScanResponse = ScanResponse::initialize_scan_response();
    scan.scan_entry(scan_string);

    let move_output: Vec<String> = construct_drive_moves("N".to_string(), &mut scan);

    assert_eq!(
        3,
        move_output.len(),
        "Should have all 11 viable moves, the output vector has less than 11."
    );
    assert_eq!(
        "DRIVE NW",
        move_output.get(0).unwrap(),
        "Player is facing N, the first location should be NW. Got something else."
    );
}

#[test]
fn drive_moves_north_exact_order() {
    // facing North over a fully open scan: exactly NW, N, NE in that order
    let mut scan: ScanResponse = ScanResponse::initialize_scan_response();
    scan.scan_entry(vec!["abcdefghijk".to_string()]);
    let moves = construct_drive_moves("N".to_string(), &mut scan);
    assert_eq!(moves, vec!["DRIVE NW", "DRIVE N", "DRIVE NE"]);
}

#[test]
fn drive_moves_every_facing_at_most_three() {
    let mut scan: ScanResponse = ScanResponse::initialize_scan_response();
    scan.scan_entry(vec!["abcdefghijk".to_string()]);
    for facing in ["N", "NE", "NW", "S", "SE", "SW", "X"] {
        let moves = construct_drive_moves(facing.to_string(), &mut scan);
        assert!(moves.len() <= 3);
        if facing == "X" {
            assert!(moves.is_empty());
        }
    }
}

#[test]
fn drive_moves_skip_blocked_slots() {
    // an enemy on slot 0 and a wall on slot 2 leave only the middle slot
    let mut scan: ScanResponse = ScanResponse::initialize_scan_response();
    scan.scan_entry(vec!["RbWdefghijk".to_string()]);
    let moves = construct_drive_moves("N".to_string(), &mut scan);
    assert_eq!(moves, vec!["DRIVE N"]);
}

#[test]
fn shoot_move_single_and_chained() {
    assert_eq!(construct_shoot_move("N".to_string(), 0), "SHOOT NW");
    assert_eq!(construct_shoot_move("SW".to_string(), 2), "SHOOT NW");
    assert_eq!(construct_shoot_move("S".to_string(), 4), "SHOOT S-SE");
    assert_eq!(construct_shoot_move("NE".to_string(), 7), "SHOOT SE-SE");
    // index 8 is outside the table and an unknown facing has no entry
    assert_eq!(construct_shoot_move("N".to_string(), 8), "");
    assert_eq!(construct_shoot_move("X".to_string(), 1), "");
}

#[test]
fn drive_moves_all_walls_every_facing() {
    // a scan of nothing but walls yields no candidate for any facing
    for facing in ["N", "NE", "NW", "S", "SE", "SW"] {
        let mut scan: ScanResponse = ScanResponse::initialize_scan_response();
        scan.scan_entry(vec!["WWWWWWWWWWW".to_string()]);
        let moves = construct_drive_moves(facing.to_string(), &mut scan);
        assert!(moves.is_empty(), "facing {} produced moves", facing);
    }
}
