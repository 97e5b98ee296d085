use hextank::scan_parser::{GetScanReturn, ScanResponse};

fn one_char_tokens(s: &str) -> Vec<String> {
    s.chars().map(|c| c.to_string()).collect()
}

#[test]
fn test_scanning_no_enemies() {
    let mut scan: ScanResponse = ScanResponse::initialize_scan_response();
    let scan_string: Vec<String> = one_char_tokens("abcdefghijk");

    scan.scan_entry(scan_string);

    assert_eq!(
        scan.get_enemy_detected(),
        false,
        "There wasn't supplied any enemies in the entry but the scan is returning {} enemies",
        scan.get_enemies().len()
    );
}

#[test]
fn test_scanning_no_walls() {
    let mut scan: ScanResponse = ScanResponse::initialize_scan_response();
    let scan_string: Vec<String> = one_char_tokens("abcdefghijk");

    scan.scan_entry(scan_string);

    assert_eq!(
        scan.get_wall_detected(),
        false,
        "There wasn't supplied any walls in the entry but the scan is returning {} walls",
        scan.get_walls().len()
    );
}

#[test]
fn test_scanning_walls() {
    let mut scan: ScanResponse = ScanResponse::initialize_scan_response();
    let scan_string: Vec<String> = one_char_tokens("WbWWefghijk");

    scan.scan_entry(scan_string);
    assert_eq!(
        scan.get_walls().len(),
        3,
        "There were 3 walls in the entry but {} was detected by the scan.",
        scan.get_walls().len()
    );
}

#[test]
fn test_scanning_enemies() {
    let mut scan: ScanResponse = ScanResponse::initialize_scan_response();
    let scan_string: Vec<String> = one_char_tokens("Rbcdefghijk");

    scan.scan_entry(scan_string);
    assert_eq!(
        scan.get_enemies().len(),
        1,
        "There should be one enemy detected but {} was detected.",
        scan.get_enemies().len()
    );
}

#[test]
fn test_scanning_both() {
    let mut scan: ScanResponse = ScanResponse::initialize_scan_response();
    let scan_string: Vec<String> = one_char_tokens("RWWdWfghijk");

    scan.scan_entry(scan_string);
    assert_eq!(
        scan.get_enemies().len(),
        1,
        "There should be one enemy detected but {} was detected.",
        scan.get_enemies().len()
    );
    assert_eq!(
        scan.get_walls().len(),
        3,
        "There were 3 walls in the entry but {} was detected by the scan.",
        scan.get_walls().len()
    );
}

#[test]
fn scan_entry_exact_indices() {
    // one enemy at index 0 and walls at exactly 2, 6 and 7
    let mut scan: ScanResponse = ScanResponse::initialize_scan_response();
    scan.scan_entry(vec!["RbWdefWWijW".to_string()]);
    assert!(scan.get_enemy_detected());
    assert!(scan.get_wall_detected());
    assert_eq!(scan.get_enemies(), vec![0]);
    assert_eq!(scan.get_walls(), vec![2, 6, 7, 10]);
}

#[test]
fn scan_entry_places_cells() {
    let mut scan: ScanResponse = ScanResponse::initialize_scan_response();
    scan.scan_entry(vec!["abc".to_string()]);
    let cells = scan.get_scanned_positions();
    assert_eq!(cells.len(), 3);
    // the standard shape table: index 0 -> (-1, 0), 1 -> (0, -1), 2 -> (1, -1)
    assert_eq!((cells[0].q, cells[0].r, cells[0].s), (-1, 0, 1));
    assert_eq!((cells[1].q, cells[1].r, cells[1].s), (0, -1, 1));
    assert_eq!((cells[2].q, cells[2].r, cells[2].s), (1, -1, 0));
    assert_eq!(cells[0].occupied_by, 'a');
    assert_eq!(cells[0].elevation, -1);
}
