use hextank::coord_system::{board, board_operations, Point};
use hextank::scan_parser::{GetScanReturn, ScanResponse};

#[test]
fn rotate_six_single_steps_returns_original() {
    // six 60-degree steps are a full turn
    let mut p = Point::new(2, 'a', false);
    let (q0, r0, s0) = (p.q, p.r, p.s);
    for _ in 0..6 {
        p.rotate(1);
    }
    assert_eq!((p.q, p.r, p.s), (q0, r0, s0));
}

#[test]
fn rotate_three_is_point_inversion() {
    let mut p = Point::new(2, 'a', false);
    let (q0, r0, s0) = (p.q, p.r, p.s);
    p.rotate(3);
    assert_eq!((p.q, p.r, p.s), (-q0, -r0, -s0));
}

#[test]
fn rotate_zero_and_negative() {
    let mut p = Point::new(0, 'a', false);
    let (q0, r0, s0) = (p.q, p.r, p.s);
    p.rotate(0);
    assert_eq!((p.q, p.r, p.s), (q0, r0, s0));
    // one step right then one step left is the identity
    p.rotate(1);
    p.rotate(-1);
    assert_eq!((p.q, p.r, p.s), (q0, r0, s0));
}

#[test]
fn translate_moves_components() {
    let mut p = Point::new(1, 'a', false);
    let (q0, r0, s0) = (p.q, p.r, p.s);
    p.translate(2, -1, -1);
    assert_eq!((p.q, p.r, p.s), (q0 + 2, r0 - 1, s0 - 1));
}

#[test]
fn point_new_standard_table() {
    // spot checks of the irregular standard shape table
    let p0 = Point::new(0, 'x', false);
    assert_eq!((p0.q, p0.r, p0.s), (-1, 0, 1));
    let p5 = Point::new(5, 'x', false);
    assert_eq!((p5.q, p5.r, p5.s), (-1, -2, 3));
    let p8 = Point::new(8, 'x', false);
    assert_eq!((p8.q, p8.r, p8.s), (0, 0, 0));
    let p10 = Point::new(10, 'x', false);
    assert_eq!((p10.q, p10.r, p10.s), (1, -3, 2));
}

#[test]
fn point_new_scout_table() {
    let p0 = Point::new(0, 'x', true);
    assert_eq!((p0.q, p0.r), (-12, 0));
    let p9 = Point::new(9, 'x', true);
    assert_eq!((p9.q, p9.r), (-3, -2));
}

#[test]
fn board_initialize_is_unset() {
    let b: board = board_operations::initialize(3);
    assert_eq!(b.sidelen, 3);
    assert_eq!(b.board.len(), 5);
    assert_eq!(b.board[0].len(), 5);
    assert_eq!(b.board[0][0].len(), 5);
    let cell = b.board[4][4][4];
    assert_eq!((cell.q, cell.r, cell.s, cell.elevation), (-1, -1, -1, -1));
    assert_eq!(cell.occupied_by, ' ');
}

#[test]
fn board_update_writes_scanned_cells() {
    let mut b: board = board_operations::initialize(3);
    let mut scan: ScanResponse = ScanResponse::initialize_scan_response();
    scan.scan_entry(vec!["abc".to_string()]);
    let accepted = b.update_board(&mut scan);
    assert!(accepted);
    // cell 0 of the scan sits at (-1, 0, 1): shifted indices (1, 2, 3)
    assert_eq!(b.board[1][2][3].occupied_by, 'a');
    assert_eq!(b.board[2][1][3].occupied_by, 'b');
    assert_eq!(b.board[3][1][2].occupied_by, 'c');
}

#[test]
fn board_update_rejects_out_of_range() {
    // index 10 of the standard shape sits at (1, -3, 2): outside a
    // side-2 board, whose range is -1..=1
    let mut b: board = board_operations::initialize(2);
    let mut scan: ScanResponse = ScanResponse::initialize_scan_response();
    scan.scan_entry(vec!["abcdefghijk".to_string()]);
    let accepted = b.update_board(&mut scan);
    assert!(!accepted);
    // a rejected scan leaves the board untouched
    assert_eq!(b.board[1][1][1].occupied_by, ' ');
}
