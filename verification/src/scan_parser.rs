//! Scan interpretation: one flat scan string becomes a sequence of
//! `Point`-tagged cells plus the index sets of enemy- and wall-occupied
//! cells and the two derived detection flags.

use vstd::prelude::*;

use crate::coord_system::{scan_table_q, scan_table_r, Point};

verus! {

/// The six reserved team-colour letters that mark an enemy cell.
pub open spec fn is_enemy_letter(c: char) -> bool {
    c == 'R' || c == 'O' || c == 'Y' || c == 'G' || c == 'B' || c == 'V'
}

/// The letter that marks a wall cell.
pub open spec fn is_wall_letter(c: char) -> bool {
    c == 'W'
}

/// The indices of `s` holding enemy letters, in increasing order.
pub open spec fn enemy_indices(s: Seq<char>) -> Seq<int>
    decreases s.len(),
{
    if s.len() == 0 {
        Seq::empty()
    } else if is_enemy_letter(s.last()) {
        enemy_indices(s.drop_last()).push(s.len() - 1)
    } else {
        enemy_indices(s.drop_last())
    }
}

/// The indices of `s` holding the wall letter, in increasing order.
pub open spec fn wall_indices(s: Seq<char>) -> Seq<int>
    decreases s.len(),
{
    if s.len() == 0 {
        Seq::empty()
    } else if is_wall_letter(s.last()) {
        wall_indices(s.drop_last()).push(s.len() - 1)
    } else {
        wall_indices(s.drop_last())
    }
}

/// The concatenation of a sequence of scan-entry tokens.
pub open spec fn flat_entries(es: Seq<Seq<char>>) -> Seq<char>
    decreases es.len(),
{
    if es.len() == 0 {
        Seq::empty()
    } else {
        flat_entries(es.drop_last()) + es.last()
    }
}

/// The cell that the standard scan-shape table places at flat index `i`
/// for the scanned character `c`.
pub open spec fn scan_cell(i: int, c: char) -> Point {
    Point {
        q: scan_table_q(false, i) as i32,
        r: scan_table_r(false, i) as i32,
        s: (-scan_table_q(false, i) - scan_table_r(false, i)) as i32,
        elevation: -1 as i32,
        occupied_by: c,
    }
}

/// What one scan response told us: the placed cells in scan order, the
/// enemy and wall index sets, and the two derived detection flags.
pub struct ScanResponse {
    pub scanned_positions: Vec<Point>,
    pub enemies_pos: Vec<usize>,
    pub walls_pos: Vec<usize>,
    pub enemy_detected: bool,
    pub wall_detected: bool,
}

/// Mathematical image of a `ScanResponse`, used by the contracts.
pub struct ScanModel {
    pub positions: Seq<Point>,
    pub enemies: Seq<int>,
    pub walls: Seq<int>,
    pub enemy_detected: bool,
    pub wall_detected: bool,
}

pub trait GetScanReturn: Sized {
    /// The mathematical content of this scan record.
    spec fn model(&self) -> ScanModel;

    fn initialize_scan_response() -> (s: Self)
        ensures
            s.model() == (ScanModel {
                positions: Seq::empty(),
                enemies: Seq::empty(),
                walls: Seq::empty(),
                enemy_detected: false,
                wall_detected: false,
            }),
    ;

    fn scan_entry(&mut self, entry: Vec<String>)
        requires
            flat_entries(entry.deep_view()).len() < 0x8000_0000,
        ensures
            ({
                let flat = flat_entries(entry.deep_view());
                &&& final(self).model().positions == old(self).model().positions + Seq::new(
                    flat.len(),
                    |i: int| scan_cell(i, flat[i]),
                )
                &&& final(self).model().enemies == old(self).model().enemies + enemy_indices(flat)
                &&& final(self).model().walls == old(self).model().walls + wall_indices(flat)
                &&& final(self).model().enemy_detected == (old(self).model().enemy_detected
                    || enemy_indices(flat).len() > 0)
                &&& final(self).model().wall_detected == (old(self).model().wall_detected
                    || wall_indices(flat).len() > 0)
            }),
    ;

    fn get_enemy_detected(&mut self) -> (r: bool)
        ensures
            *final(self) == *old(self),
            r == old(self).model().enemy_detected,
    ;

    fn get_wall_detected(&mut self) -> (r: bool)
        ensures
            *final(self) == *old(self),
            r == old(self).model().wall_detected,
    ;

    fn get_walls(&mut self) -> (r: Vec<usize>)
        ensures
            *final(self) == *old(self),
            r@.map_values(|x: usize| x as int) == old(self).model().walls,
    ;

    fn get_enemies(&mut self) -> (r: Vec<usize>)
        ensures
            *final(self) == *old(self),
            r@.map_values(|x: usize| x as int) == old(self).model().enemies,
    ;

    fn get_scanned_positions(&mut self) -> (r: Vec<Point>)
        ensures
            *final(self) == *old(self),
            r@ == old(self).model().positions,
    ;
}

impl GetScanReturn for ScanResponse {
    open spec fn model(&self) -> ScanModel {
        ScanModel {
            positions: self.scanned_positions@,
            enemies: self.enemies_pos@.map_values(|x: usize| x as int),
            walls: self.walls_pos@.map_values(|x: usize| x as int),
            enemy_detected: self.enemy_detected,
            wall_detected: self.wall_detected,
        }
    }

    fn initialize_scan_response() -> (s: Self) {
        let s = ScanResponse {
            scanned_positions: Vec::new(),
            enemies_pos: Vec::new(),
            walls_pos: Vec::new(),
            enemy_detected: false,
            wall_detected: false,
        };
        proof {
            assert(s.model().positions =~= Seq::empty());
            assert(s.model().enemies =~= Seq::empty());
            assert(s.model().walls =~= Seq::empty());
        }
        s
    }

    fn scan_entry(&mut self, entry: Vec<String>) {
        let ghost entries = entry.deep_view();
        let mut scan_string = String::new();
        let mut i: usize = 0;
        while i < entry.len()
            invariant
                i <= entry.len(),
                entries == entry.deep_view(),
                scan_string@ == flat_entries(entries.take(i as int)),
            decreases entry.len() - i,
        {
            proof {
                assert(entries.take(i + 1).drop_last() =~= entries.take(i as int));
                assert(entries.take(i + 1).last() == entries[i as int]);
            }
            scan_string.append(entry[i].as_str());
            i = i + 1;
        }
        proof {
            assert(entries.take(entry.len() as int) =~= entries);
        }

        let ghost flat = scan_string@;
        let ghost m0 = old(self).model();

        let total = scan_string.as_str().unicode_len();
        let mut pos: usize = 0;
        while pos < total
            invariant
                pos <= total,
                total == flat.len(),
                flat.len() < 0x8000_0000,
                flat == scan_string@,
                self.scanned_positions@ == m0.positions + Seq::new(
                    pos as nat,
                    |i: int| scan_cell(i, flat[i]),
                ),
                self.enemies_pos@.map_values(|x: usize| x as int) == m0.enemies + enemy_indices(
                    flat.take(pos as int),
                ),
                self.walls_pos@.map_values(|x: usize| x as int) == m0.walls + wall_indices(
                    flat.take(pos as int),
                ),
                self.enemy_detected == (m0.enemy_detected || enemy_indices(
                    flat.take(pos as int),
                ).len() > 0),
                self.wall_detected == (m0.wall_detected || wall_indices(
                    flat.take(pos as int),
                ).len() > 0),
            decreases total - pos,
        {
            let c = scan_string.as_str().get_char(pos);
            let cell = Point::new(pos, c, false);
            proof {
                assert(cell == scan_cell(pos as int, c));
                let before = m0.positions + Seq::new(pos as nat, |i: int| scan_cell(i, flat[i]));
                let after = m0.positions + Seq::new((pos + 1) as nat, |i: int| scan_cell(i, flat[i]));
                assert(before.push(scan_cell(pos as int, flat[pos as int])) =~= after);
                assert(flat.take(pos + 1).drop_last() =~= flat.take(pos as int));
                assert(flat.take(pos + 1).last() == flat[pos as int]);
            }
            self.scanned_positions.push(cell);

            if c == 'R' || c == 'O' || c == 'Y' || c == 'G' || c == 'B' || c == 'V' {
                proof {
                    assert(self.enemies_pos@.push(pos).map_values(|x: usize| x as int)
                        =~= self.enemies_pos@.map_values(|x: usize| x as int).push(pos as int));
                }
                self.enemies_pos.push(pos);
                self.enemy_detected = true;
            }

            if c == 'W' {
                proof {
                    assert(self.walls_pos@.push(pos).map_values(|x: usize| x as int)
                        =~= self.walls_pos@.map_values(|x: usize| x as int).push(pos as int));
                }
                self.walls_pos.push(pos);
                self.wall_detected = true;
            }

            pos = pos + 1;
        }
        proof {
            assert(flat.take(total as int) =~= flat);
        }
    }

    fn get_enemy_detected(&mut self) -> (r: bool) {
        return self.enemy_detected;
    }

    fn get_wall_detected(&mut self) -> (r: bool) {
        return self.wall_detected;
    }

    fn get_enemies(&mut self) -> (r: Vec<usize>) {
        let r = self.enemies_pos.clone();
        proof {
            assert(r@ =~= self.enemies_pos@);
            assert(r@.map_values(|x: usize| x as int) =~= self.model().enemies);
        }
        return r;
    }

    fn get_walls(&mut self) -> (r: Vec<usize>) {
        let r = self.walls_pos.clone();
        proof {
            assert(r@ =~= self.walls_pos@);
            assert(r@.map_values(|x: usize| x as int) =~= self.model().walls);
        }
        return r;
    }

    fn get_scanned_positions(&mut self) -> (r: Vec<Point>) {
        let r = self.scanned_positions.clone();
        proof {
            assert(r@ =~= self.scanned_positions@);
        }
        return r;
    }
}

} // verus!
