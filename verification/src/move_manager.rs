//! Move translation: pure mapping from (facing direction, scan layout)
//! to candidate drive commands and to the chained shoot command for an
//! in-range enemy index.

use vstd::prelude::*;

use crate::parser::str_eq;
use crate::scan_parser::{GetScanReturn, ScanModel, ScanResponse};

verus! {

/// The six compass labels a unit can face.
pub open spec fn is_compass_label(f: Seq<char>) -> bool {
    f == "N"@ || f == "NE"@ || f == "NW"@ || f == "S"@ || f == "SE"@ || f == "SW"@
}

/// A scan index is drivable when neither the enemy set nor the wall set
/// lists it.
pub open spec fn can_move_at(m: ScanModel, idx: int) -> bool {
    !m.enemies.contains(idx) && !m.walls.contains(idx)
}

/// The fixed 6-by-3 drive-label table: the command for forward slot
/// `slot` (0, 1, 2 in left-to-right scan order) while facing `f`.
pub open spec fn drive_label(f: Seq<char>, slot: int) -> Seq<char> {
    if f == "N"@ {
        if slot == 0 {
            "DRIVE NW"@
        } else if slot == 1 {
            "DRIVE N"@
        } else {
            "DRIVE NE"@
        }
    } else if f == "NE"@ {
        if slot == 0 {
            "DRIVE N"@
        } else if slot == 1 {
            "DRIVE NE"@
        } else {
            "DRIVE SE"@
        }
    } else if f == "NW"@ {
        if slot == 0 {
            "DRIVE SW"@
        } else if slot == 1 {
            "DRIVE NW"@
        } else {
            "DRIVE N"@
        }
    } else if f == "S"@ {
        if slot == 0 {
            "DRIVE SW"@
        } else if slot == 1 {
            "DRIVE S"@
        } else {
            "DRIVE SE"@
        }
    } else if f == "SE"@ {
        if slot == 0 {
            "DRIVE NE"@
        } else if slot == 1 {
            "DRIVE SE"@
        } else {
            "DRIVE S"@
        }
    } else {
        if slot == 0 {
            "DRIVE SE"@
        } else if slot == 1 {
            "DRIVE S"@
        } else {
            "DRIVE SW"@
        }
    }
}

/// The full candidate-drive-move sequence: for a known facing, the
/// labels of the three forward slots whose indices are open, in slot
/// order; empty for an unknown facing label.
pub open spec fn drive_moves_spec(f: Seq<char>, m: ScanModel) -> Seq<Seq<char>> {
    if !is_compass_label(f) {
        Seq::empty()
    } else {
        let s0: Seq<Seq<char>> = if can_move_at(m, 0) {
            seq![drive_label(f, 0)]
        } else {
            Seq::empty()
        };
        let s1: Seq<Seq<char>> = if can_move_at(m, 1) {
            seq![drive_label(f, 1)]
        } else {
            Seq::empty()
        };
        let s2: Seq<Seq<char>> = if can_move_at(m, 2) {
            seq![drive_label(f, 2)]
        } else {
            Seq::empty()
        };
        s0 + s1 + s2
    }
}

/// Law: for every facing and every scan, the candidate drive moves are
/// at most three, each is the table label of one of the three forward
/// slots, and a slot contributes only when its index is in neither the
/// enemy set nor the wall set.
pub proof fn lemma_drive_moves_bounded(f: Seq<char>, m: ScanModel)
    ensures
        drive_moves_spec(f, m).len() <= 3,
        forall|k: int| 0 <= k < drive_moves_spec(f, m).len() ==> exists|slot: int|
            0 <= slot < 3 && #[trigger] drive_moves_spec(f, m)[k] == drive_label(f, slot)
                && can_move_at(m, slot),
{
    if is_compass_label(f) {
        let s = drive_moves_spec(f, m);
        assert forall|k: int| 0 <= k < s.len() implies exists|slot: int|
            0 <= slot < 3 && #[trigger] s[k] == drive_label(f, slot) && can_move_at(m, slot) by {
            let s0: Seq<Seq<char>> = if can_move_at(m, 0) {
                seq![drive_label(f, 0)]
            } else {
                Seq::empty()
            };
            let s1: Seq<Seq<char>> = if can_move_at(m, 1) {
                seq![drive_label(f, 1)]
            } else {
                Seq::empty()
            };
            let s2: Seq<Seq<char>> = if can_move_at(m, 2) {
                seq![drive_label(f, 2)]
            } else {
                Seq::empty()
            };
            if k < s0.len() {
                assert(s[k] == drive_label(f, 0) && can_move_at(m, 0));
            } else if k < s0.len() + s1.len() {
                assert(s[k] == drive_label(f, 1) && can_move_at(m, 1));
            } else {
                assert(s[k] == drive_label(f, 2) && can_move_at(m, 2));
            }
        }
    }
}

/// Whether `v` lists the index `idx`.
pub(crate) fn index_listed(v: &Vec<usize>, idx: usize) -> (r: bool)
    ensures
        r == v@.map_values(|x: usize| x as int).contains(idx as int),
{
    let ghost m = v@.map_values(|x: usize| x as int);
    let mut i: usize = 0;
    while i < v.len()
        invariant
            i <= v.len(),
            m == v@.map_values(|x: usize| x as int),
            forall|j: int| 0 <= j < i ==> m[j] != idx as int,
        decreases v.len() - i,
    {
        if v[i] == idx {
            proof {
                assert(m[i as int] == idx as int);
            }
            return true;
        }
        i = i + 1;
    }
    false
}

/// A move to this scan index is possible when neither a wall nor an
/// enemy occupies it.
fn check_if_robot_can_move_to_index(index: usize, scanned_area: &mut ScanResponse) -> (r: bool)
    ensures
        *final(scanned_area) == *old(scanned_area),
        r == can_move_at(old(scanned_area).model(), index as int),
{
    let enemies = scanned_area.get_enemies();
    let walls = scanned_area.get_walls();
    let in_enemies = index_listed(&enemies, index);
    let in_walls = index_listed(&walls, index);
    !in_enemies && !in_walls
}

/// Candidate drive commands for the three forward-adjacent scan indices
/// of the given facing, in fixed left-to-right slot order; an index
/// contributes only when it is open, and an unknown facing yields none.
pub fn construct_drive_moves(player_direction: String, scanned_area: &mut ScanResponse) -> (r:
    Vec<String>)
    ensures
        *final(scanned_area) == *old(scanned_area),
        r.deep_view() == drive_moves_spec(player_direction@, old(scanned_area).model()),
{
    let mut possible_drive_moves: Vec<String> = Vec::new();
    let ghost m = scanned_area.model();
    let d = player_direction.as_str();

    if str_eq(d, "N") {
        if check_if_robot_can_move_to_index(0, scanned_area) {
            possible_drive_moves.push(String::from_str("DRIVE NW"));
        }
        if check_if_robot_can_move_to_index(1, scanned_area) {
            possible_drive_moves.push(String::from_str("DRIVE N"));
        }
        if check_if_robot_can_move_to_index(2, scanned_area) {
            possible_drive_moves.push(String::from_str("DRIVE NE"));
        }
    } else if str_eq(d, "NE") {
        if check_if_robot_can_move_to_index(0, scanned_area) {
            possible_drive_moves.push(String::from_str("DRIVE N"));
        }
        if check_if_robot_can_move_to_index(1, scanned_area) {
            possible_drive_moves.push(String::from_str("DRIVE NE"));
        }
        if check_if_robot_can_move_to_index(2, scanned_area) {
            possible_drive_moves.push(String::from_str("DRIVE SE"));
        }
    } else if str_eq(d, "NW") {
        if check_if_robot_can_move_to_index(0, scanned_area) {
            possible_drive_moves.push(String::from_str("DRIVE SW"));
        }
        if check_if_robot_can_move_to_index(1, scanned_area) {
            possible_drive_moves.push(String::from_str("DRIVE NW"));
        }
        if check_if_robot_can_move_to_index(2, scanned_area) {
            possible_drive_moves.push(String::from_str("DRIVE N"));
        }
    } else if str_eq(d, "S") {
        if check_if_robot_can_move_to_index(0, scanned_area) {
            possible_drive_moves.push(String::from_str("DRIVE SW"));
        }
        if check_if_robot_can_move_to_index(1, scanned_area) {
            possible_drive_moves.push(String::from_str("DRIVE S"));
        }
        if check_if_robot_can_move_to_index(2, scanned_area) {
            possible_drive_moves.push(String::from_str("DRIVE SE"));
        }
    } else if str_eq(d, "SE") {
        if check_if_robot_can_move_to_index(0, scanned_area) {
            possible_drive_moves.push(String::from_str("DRIVE NE"));
        }
        if check_if_robot_can_move_to_index(1, scanned_area) {
            possible_drive_moves.push(String::from_str("DRIVE SE"));
        }
        if check_if_robot_can_move_to_index(2, scanned_area) {
            possible_drive_moves.push(String::from_str("DRIVE S"));
        }
    } else if str_eq(d, "SW") {
        if check_if_robot_can_move_to_index(0, scanned_area) {
            possible_drive_moves.push(String::from_str("DRIVE SE"));
        }
        if check_if_robot_can_move_to_index(1, scanned_area) {
            possible_drive_moves.push(String::from_str("DRIVE S"));
        }
        if check_if_robot_can_move_to_index(2, scanned_area) {
            possible_drive_moves.push(String::from_str("DRIVE SW"));
        }
    }
    proof {
        assert(possible_drive_moves.deep_view() =~= drive_moves_spec(player_direction@, m));
    }
    possible_drive_moves
}

/// The fixed shoot-command table: the chained command for an enemy at
/// scan index `idx` (single hex for 0..=2, two hexes for 3..=7) while
/// facing `f`; empty for index 8 or an unknown facing label.
pub open spec fn shoot_label(f: Seq<char>, idx: int) -> Seq<char> {
    if idx == 0 {
        if f == "N"@ {
            "SHOOT NW"@
        } else if f == "NE"@ {
            "SHOOT N"@
        } else if f == "NW"@ {
            "SHOOT SW"@
        } else if f == "S"@ {
            "SHOOT SE"@
        } else if f == "SE"@ {
            "SHOOT NE"@
        } else if f == "SW"@ {
            "SHOOT S"@
        } else {
            ""@
        }
    } else if idx == 1 {
        if f == "N"@ {
            "SHOOT N"@
        } else if f == "NE"@ {
            "SHOOT NE"@
        } else if f == "NW"@ {
            "SHOOT NW"@
        } else if f == "S"@ {
            "SHOOT S"@
        } else if f == "SE"@ {
            "SHOOT SE"@
        } else if f == "SW"@ {
            "SHOOT SW"@
        } else {
            ""@
        }
    } else if idx == 2 {
        if f == "N"@ {
            "SHOOT NE"@
        } else if f == "NE"@ {
            "SHOOT SE"@
        } else if f == "NW"@ {
            "SHOOT N"@
        } else if f == "S"@ {
            "SHOOT SW"@
        } else if f == "SE"@ {
            "SHOOT S"@
        } else if f == "SW"@ {
            "SHOOT NW"@
        } else {
            ""@
        }
    } else if idx == 3 {
        if f == "N"@ {
            "SHOOT NW-NW"@
        } else if f == "NE"@ {
            "SHOOT N-N"@
        } else if f == "NW"@ {
            "SHOOT SW-SW"@
        } else if f == "S"@ {
            "SHOOT SE-SE"@
        } else if f == "SE"@ {
            "SHOOT NE-NE"@
        } else if f == "SW"@ {
            "SHOOT S-S"@
        } else {
            ""@
        }
    } else if idx == 4 {
        if f == "N"@ {
            "SHOOT NW-N"@
        } else if f == "NE"@ {
            "SHOOT N-NE"@
        } else if f == "NW"@ {
            "SHOOT SW-NW"@
        } else if f == "S"@ {
            "SHOOT S-SE"@
        } else if f == "SE"@ {
            "SHOOT NE-SE"@
        } else if f == "SW"@ {
            "SHOOT S-SW"@
        } else {
            ""@
        }
    } else if idx == 5 {
        if f == "N"@ {
            "SHOOT N-N"@
        } else if f == "NE"@ {
            "SHOOT NE-NE"@
        } else if f == "NW"@ {
            "SHOOT NW-NW"@
        } else if f == "S"@ {
            "SHOOT S-S"@
        } else if f == "SE"@ {
            "SHOOT SE-SE"@
        } else if f == "SW"@ {
            "SHOOT SW-SW"@
        } else {
            ""@
        }
    } else if idx == 6 {
        if f == "N"@ {
            "SHOOT N-NE"@
        } else if f == "NE"@ {
            "SHOOT NE-SE"@
        } else if f == "NW"@ {
            "SHOOT NW-N"@
        } else if f == "S"@ {
            "SHOOT S-SW"@
        } else if f == "SE"@ {
            "SHOOT SE-S"@
        } else if f == "SW"@ {
            "SHOOT SW-NW"@
        } else {
            ""@
        }
    } else if idx == 7 {
        if f == "N"@ {
            "SHOOT NE-NE"@
        } else if f == "NE"@ {
            "SHOOT SE-SE"@
        } else if f == "NW"@ {
            "SHOOT N-N"@
        } else if f == "S"@ {
            "SHOOT SW-SW"@
        } else if f == "SE"@ {
            "SHOOT S-S"@
        } else if f == "SW"@ {
            "SHOOT NW-NW"@
        } else {
            ""@
        }
    } else {
        ""@
    }
}

/// The shoot command for an enemy at scan index `enemy_pos_index`
/// (which must be at most 8), read off the fixed per-facing table; the
/// out-of-table index 8 and unknown facings yield the empty command.
pub fn construct_shoot_move(player_direction: String, enemy_pos_index: usize) -> (r: String)
    requires
        enemy_pos_index <= 8,
    ensures
        r@ == shoot_label(player_direction@, enemy_pos_index as int),
{
    let d = player_direction.as_str();
    if enemy_pos_index == 0 {
        if str_eq(d, "N") {
            String::from_str("SHOOT NW")
        } else if str_eq(d, "NE") {
            String::from_str("SHOOT N")
        } else if str_eq(d, "NW") {
            String::from_str("SHOOT SW")
        } else if str_eq(d, "S") {
            String::from_str("SHOOT SE")
        } else if str_eq(d, "SE") {
            String::from_str("SHOOT NE")
        } else if str_eq(d, "SW") {
            String::from_str("SHOOT S")
        } else {
            String::from_str("")
        }
    } else if enemy_pos_index == 1 {
        if str_eq(d, "N") {
            String::from_str("SHOOT N")
        } else if str_eq(d, "NE") {
            String::from_str("SHOOT NE")
        } else if str_eq(d, "NW") {
            String::from_str("SHOOT NW")
        } else if str_eq(d, "S") {
            String::from_str("SHOOT S")
        } else if str_eq(d, "SE") {
            String::from_str("SHOOT SE")
        } else if str_eq(d, "SW") {
            String::from_str("SHOOT SW")
        } else {
            String::from_str("")
        }
    } else if enemy_pos_index == 2 {
        if str_eq(d, "N") {
            String::from_str("SHOOT NE")
        } else if str_eq(d, "NE") {
            String::from_str("SHOOT SE")
        } else if str_eq(d, "NW") {
            String::from_str("SHOOT N")
        } else if str_eq(d, "S") {
            String::from_str("SHOOT SW")
        } else if str_eq(d, "SE") {
            String::from_str("SHOOT S")
        } else if str_eq(d, "SW") {
            String::from_str("SHOOT NW")
        } else {
            String::from_str("")
        }
    } else if enemy_pos_index == 3 {
        if str_eq(d, "N") {
            String::from_str("SHOOT NW-NW")
        } else if str_eq(d, "NE") {
            String::from_str("SHOOT N-N")
        } else if str_eq(d, "NW") {
            String::from_str("SHOOT SW-SW")
        } else if str_eq(d, "S") {
            String::from_str("SHOOT SE-SE")
        } else if str_eq(d, "SE") {
            String::from_str("SHOOT NE-NE")
        } else if str_eq(d, "SW") {
            String::from_str("SHOOT S-S")
        } else {
            String::from_str("")
        }
    } else if enemy_pos_index == 4 {
        if str_eq(d, "N") {
            String::from_str("SHOOT NW-N")
        } else if str_eq(d, "NE") {
            String::from_str("SHOOT N-NE")
        } else if str_eq(d, "NW") {
            String::from_str("SHOOT SW-NW")
        } else if str_eq(d, "S") {
            String::from_str("SHOOT S-SE")
        } else if str_eq(d, "SE") {
            String::from_str("SHOOT NE-SE")
        } else if str_eq(d, "SW") {
            String::from_str("SHOOT S-SW")
        } else {
            String::from_str("")
        }
    } else if enemy_pos_index == 5 {
        if str_eq(d, "N") {
            String::from_str("SHOOT N-N")
        } else if str_eq(d, "NE") {
            String::from_str("SHOOT NE-NE")
        } else if str_eq(d, "NW") {
            String::from_str("SHOOT NW-NW")
        } else if str_eq(d, "S") {
            String::from_str("SHOOT S-S")
        } else if str_eq(d, "SE") {
            String::from_str("SHOOT SE-SE")
        } else if str_eq(d, "SW") {
            String::from_str("SHOOT SW-SW")
        } else {
            String::from_str("")
        }
    } else if enemy_pos_index == 6 {
        if str_eq(d, "N") {
            String::from_str("SHOOT N-NE")
        } else if str_eq(d, "NE") {
            String::from_str("SHOOT NE-SE")
        } else if str_eq(d, "NW") {
            String::from_str("SHOOT NW-N")
        } else if str_eq(d, "S") {
            String::from_str("SHOOT S-SW")
        } else if str_eq(d, "SE") {
            String::from_str("SHOOT SE-S")
        } else if str_eq(d, "SW") {
            String::from_str("SHOOT SW-NW")
        } else {
            String::from_str("")
        }
    } else if enemy_pos_index == 7 {
        if str_eq(d, "N") {
            String::from_str("SHOOT NE-NE")
        } else if str_eq(d, "NE") {
            String::from_str("SHOOT SE-SE")
        } else if str_eq(d, "NW") {
            String::from_str("SHOOT N-N")
        } else if str_eq(d, "S") {
            String::from_str("SHOOT SW-SW")
        } else if str_eq(d, "SE") {
            String::from_str("SHOOT S-S")
        } else if str_eq(d, "SW") {
            String::from_str("SHOOT NW-NW")
        } else {
            String::from_str("")
        }
    } else {
        String::from_str("")
    }
}

} // verus!
