//! Cube-coordinate hex geometry: the `Point` type with its scan-index
//! placement table, translation, and 60-degree-step rotation, and the
//! dense `board` store indexed by shifted cube coordinates.

use vstd::prelude::*;

use crate::scan_parser::{GetScanReturn, ScanResponse};

verus! {

/// One hex cell in cube coordinates (q + r + s == 0 for every cell that
/// the scan table produces), with an elevation (-1 means unset) and the
/// scanned occupant character.
#[derive(Debug, Clone, Copy)]
pub struct Point {
    pub q: i32,
    pub r: i32,
    pub s: i32,
    pub elevation: i32,
    pub occupied_by: char,
}

/// The q offset that the fixed scan-shape table assigns to flat index
/// `pos`; the table is an irregular constant mapping, distinct for the
/// standard (11-cell) and scout (15-cell) scan shapes.
pub open spec fn scan_table_q(is_scout: bool, pos: int) -> int {
    if is_scout {
        pos - 12
    } else if pos < 3 {
        pos - 1
    } else if pos < 8 {
        pos - 6
    } else if pos > 8 {
        pos - 9
    } else {
        0
    }
}

/// The r offset of the fixed scan-shape table for flat index `pos`.
pub open spec fn scan_table_r(is_scout: bool, pos: int) -> int {
    let base = if pos == 0 {
        0
    } else if pos < 3 {
        -1
    } else if pos == 3 {
        0
    } else if pos == 4 {
        -1
    } else if pos < 8 {
        -2
    } else {
        0
    };
    if is_scout {
        if pos > 7 {
            if pos == 8 {
                -1
            } else if pos == 9 {
                -2
            } else {
                -3
            }
        } else {
            base
        }
    } else {
        if pos > 8 {
            if pos == 9 {
                -2
            } else {
                -3
            }
        } else {
            base
        }
    }
}

/// One clockwise step of the cube-axis cycle used by `rotate` with a
/// positive count.
pub open spec fn rot_step_cw(p: Point) -> Point {
    Point { q: p.r, r: p.s, s: p.q, ..p }
}

/// One counter-clockwise step of the cube-axis cycle used by `rotate`
/// with a negative count.
pub open spec fn rot_step_ccw(p: Point) -> Point {
    Point { q: p.s, r: p.q, s: p.r, ..p }
}

/// `n` axis-cycle steps in the direction picked by `cw`.
pub open spec fn rot_iter(p: Point, n: nat, cw: bool) -> Point
    decreases n,
{
    if n == 0 {
        p
    } else if cw {
        rot_iter(rot_step_cw(p), (n - 1) as nat, cw)
    } else {
        rot_iter(rot_step_ccw(p), (n - 1) as nat, cw)
    }
}

/// Component-wise negation (point inversion through the origin).
pub open spec fn point_negate(p: Point) -> Point {
    Point { q: (-p.q) as i32, r: (-p.r) as i32, s: (-p.s) as i32, ..p }
}

/// The value `rotate(n)` leaves behind: `|n|` axis-cycle steps in the
/// direction given by the sign of `n`, then negation of all three
/// components exactly when `|n|` is odd.
pub open spec fn rotate_spec(p: Point, n: int) -> Point {
    let stepped = if n >= 0 {
        rot_iter(p, n as nat, true)
    } else {
        rot_iter(p, (-n) as nat, false)
    };
    let m = if n >= 0 {
        n
    } else {
        -n
    };
    if m % 2 == 1 {
        point_negate(stepped)
    } else {
        stepped
    }
}

/// Any number of axis-cycle steps only permutes the three components.
proof fn lemma_rot_iter_components(p: Point, n: nat, cw: bool)
    ensures
        ({
            let t = rot_iter(p, n, cw);
            (t.q == p.q || t.q == p.r || t.q == p.s) && (t.r == p.q || t.r == p.r || t.r == p.s)
                && (t.s == p.q || t.s == p.r || t.s == p.s) && t.elevation == p.elevation
                && t.occupied_by == p.occupied_by
        }),
    decreases n,
{
    if n > 0 {
        if cw {
            lemma_rot_iter_components(rot_step_cw(p), (n - 1) as nat, cw);
        } else {
            lemma_rot_iter_components(rot_step_ccw(p), (n - 1) as nat, cw);
        }
    }
}

/// A single positive step rotates the axes once and negates.
proof fn lemma_rotate_one(p: Point)
    ensures
        rotate_spec(p, 1) == point_negate(rot_step_cw(p)),
{
    reveal_with_fuel(rot_iter, 2);
}

/// Law: six single-step rotations return the original coordinate.
///
/// Composing `rotate(1)` six times is the identity on every point whose
/// components `rotate` itself accepts (negation of the minimum `i32`
/// would wrap).
pub proof fn lemma_rotate_six_single_steps_is_identity(p: Point)
    requires
        p.q > -0x8000_0000,
        p.r > -0x8000_0000,
        p.s > -0x8000_0000,
    ensures
        rotate_spec(
            rotate_spec(
                rotate_spec(rotate_spec(rotate_spec(rotate_spec(p, 1), 1), 1), 1), 1,
            ),
            1,
        ) == p,
{
    let p1 = rotate_spec(p, 1);
    let p2 = rotate_spec(p1, 1);
    let p3 = rotate_spec(p2, 1);
    let p4 = rotate_spec(p3, 1);
    let p5 = rotate_spec(p4, 1);
    lemma_rotate_one(p);
    lemma_rotate_one(p1);
    lemma_rotate_one(p2);
    lemma_rotate_one(p3);
    lemma_rotate_one(p4);
    lemma_rotate_one(p5);
}

/// Law: a three-step rotation is point inversion.
///
/// `rotate(3)` negates all three cube components of every point.
pub proof fn lemma_rotate_three_is_point_inversion(p: Point)
    ensures
        rotate_spec(p, 3) == point_negate(p),
{
    reveal_with_fuel(rot_iter, 4);
}

/// Dead-code shape kept from the coordinate module's public surface: a
/// constructor signature for `Point` that no type implements.
#[allow(non_camel_case_types)]
pub trait Point_operations {
    fn new(p: usize, occupied_by: char) -> Point;
}

impl Point {
    /// Place the scan-string character at flat index `p` on the hex grid,
    /// using the fixed shape table for the standard or scout scan.
    pub fn new(p: usize, occupied_by: char, is_scout: bool) -> (pt: Point)
        requires
            p < 0x8000_0000,
        ensures
            pt.q == scan_table_q(is_scout, p as int),
            pt.r == scan_table_r(is_scout, p as int),
            pt.s == -pt.q - pt.r,
            pt.q + pt.r + pt.s == 0,
            pt.elevation == -1,
            pt.occupied_by == occupied_by,
    {
        let mut q: i32 = 0;
        let mut r: i32 = 0;
        let pos: i32 = p as i32;

        if pos < 3 {
            q = pos - 1;
            if pos == 0 {
                r = 0;
            } else {
                r = -1;
            }
        } else if pos < 8 {
            q = pos - 6;
            if pos == 3 {
                r = 0;
            } else if pos == 4 {
                r = -1;
            } else {
                r = -2;
            }
        }

        if is_scout {
            q = pos - 12;
            if pos > 7 {
                if pos == 8 {
                    r = -1;
                } else if pos == 9 {
                    r = -2;
                } else {
                    r = -3;
                }
            }
        } else {
            if pos > 8 {
                q = pos - 9;
                if pos == 9 {
                    r = -2;
                } else {
                    r = -3;
                }
            }
        }

        Point { q, r, s: -q - r, elevation: -1, occupied_by }
    }

    /// Shift the point by a displacement; preserving q + r + s == 0 is
    /// the caller's business (the displacement components must sum to 0).
    pub fn translate(&mut self, dq: i32, dr: i32, ds: i32)
        requires
            -0x8000_0000 <= old(self).q + dq <= 0x7fff_ffff,
            -0x8000_0000 <= old(self).r + dr <= 0x7fff_ffff,
            -0x8000_0000 <= old(self).s + ds <= 0x7fff_ffff,
        ensures
            final(self).q == old(self).q + dq,
            final(self).r == old(self).r + dr,
            final(self).s == old(self).s + ds,
            final(self).elevation == old(self).elevation,
            final(self).occupied_by == old(self).occupied_by,
    {
        self.q = self.q + dq;
        self.r = self.r + dr;
        self.s = self.s + ds;
    }

    /// Rotate the point `rotations` discrete 60-degree steps: cycle the
    /// cube axes |rotations| times (direction by sign), then negate all
    /// three components when |rotations| is odd.
    pub fn rotate(&mut self, rotations: i32)
        requires
            rotations > -0x8000_0000,
            old(self).q > -0x8000_0000,
            old(self).r > -0x8000_0000,
            old(self).s > -0x8000_0000,
        ensures
            *final(self) == rotate_spec(*old(self), rotations as int),
    {
        if rotations > 0 {
            let mut i: i32 = 0;
            while i < rotations
                invariant
                    0 <= i <= rotations,
                    *self == rot_iter(*old(self), i as nat, true),
                decreases rotations - i,
            {
                proof {
                    lemma_rot_iter_unroll(*old(self), i as nat, true);
                }
                let tmp = self.s;
                self.s = self.q;
                self.q = self.r;
                self.r = tmp;
                i = i + 1;
            }
        } else {
            let mut i: i32 = 0;
            let bound = -rotations;
            while i < bound
                invariant
                    0 <= i <= bound,
                    bound == -rotations,
                    *self == rot_iter(*old(self), i as nat, false),
                decreases bound - i,
            {
                proof {
                    lemma_rot_iter_unroll(*old(self), i as nat, false);
                }
                let tmp = self.r;
                self.r = self.q;
                self.q = self.s;
                self.s = tmp;
                i = i + 1;
            }
        }

        proof {
            lemma_rot_iter_components(
                *old(self),
                if rotations >= 0 {
                    rotations as nat
                } else {
                    (-rotations) as nat
                },
                rotations > 0,
            );
        }
        let steps: i32 = if rotations >= 0 {
            rotations
        } else {
            -rotations
        };
        if steps % 2 == 1 {
            self.r = -self.r;
            self.q = -self.q;
            self.s = -self.s;
        }
    }
}

/// Stepping once more extends an axis-cycle iteration by one.
proof fn lemma_rot_iter_unroll(p: Point, n: nat, cw: bool)
    ensures
        cw ==> rot_iter(p, n + 1, cw) == rot_step_cw(rot_iter(p, n, cw)),
        !cw ==> rot_iter(p, n + 1, cw) == rot_step_ccw(rot_iter(p, n, cw)),
    decreases n,
{
    reveal_with_fuel(rot_iter, 2);
    if n > 0 {
        if cw {
            lemma_rot_iter_unroll(rot_step_cw(p), (n - 1) as nat, cw);
        } else {
            lemma_rot_iter_unroll(rot_step_ccw(p), (n - 1) as nat, cw);
        }
    }
}


/// The sentinel cell that fills a freshly initialized board.
pub open spec fn unset_point() -> Point {
    Point { q: -1 as i32, r: -1 as i32, s: -1 as i32, elevation: -1 as i32, occupied_by: ' ' }
}

/// The dense cube-coordinate store: a (2n-1)-sided cube of cells
/// indexed by the shifted coordinates, plus the known teammates and the
/// board's side length.
#[allow(non_camel_case_types)]
pub struct board {
    pub board: Vec<Vec<Vec<Point>>>,
    pub teammates: Vec<Point>,
    pub sidelen: i32,
}

/// The board grid as a mathematical triple-nested sequence.
pub open spec fn grid_view(g: Vec<Vec<Vec<Point>>>) -> Seq<Seq<Seq<Point>>> {
    g@.map_values(|p: Vec<Vec<Point>>| p@.map_values(|r: Vec<Point>| r@))
}

/// A well-formed board: a plausible side length and a full cube of
/// cells, (2n-1) per axis.
pub open spec fn board_wf(b: board) -> bool {
    &&& 1 <= b.sidelen <= 0x3fff_ffff
    &&& b.board@.len() == 2 * b.sidelen - 1
    &&& forall|i: int| 0 <= i < b.board@.len() ==> #[trigger] b.board@[i]@.len() == 2 * b.sidelen
        - 1
    &&& forall|i: int, j: int| 0 <= i < b.board@.len() && 0 <= j < b.board@[i]@.len()
        ==> #[trigger] b.board@[i]@[j]@.len() == 2 * b.sidelen - 1
}

/// Whether a coordinate lies inside the board's valid cube range.
pub open spec fn in_board_range(p: Point, sidelen: int) -> bool {
    &&& -(sidelen - 1) <= p.q <= sidelen - 1
    &&& -(sidelen - 1) <= p.r <= sidelen - 1
    &&& -(sidelen - 1) <= p.s <= sidelen - 1
}

/// The grid after writing one point at its shifted indices.
pub open spec fn place_point(g: Seq<Seq<Seq<Point>>>, p: Point, off: int) -> Seq<Seq<Seq<Point>>> {
    let qi = p.q + off;
    let ri = p.r + off;
    let si = p.s + off;
    g.update(qi, g[qi].update(ri, g[qi][ri].update(si, p)))
}

/// The grid after absorbing a whole scan, first point first (a later
/// point overwrites an earlier one on the same cell).
pub open spec fn apply_scan(g: Seq<Seq<Seq<Point>>>, pts: Seq<Point>, off: int) -> Seq<
    Seq<Seq<Point>>,
>
    decreases pts.len(),
{
    if pts.len() == 0 {
        g
    } else {
        place_point(apply_scan(g, pts.drop_last(), off), pts.last(), off)
    }
}

/// A mutable borrow of one vector element.
fn vec_index_mut<T>(vec: &mut Vec<T>, i: usize) -> (element: &mut T)
    requires
        i < old(vec).len(),
    ensures
        *element == old(vec)@[i as int],
        final(vec)@ == old(vec)@.update(i as int, *final(element)),
{
    &mut vec[i]
}

#[allow(non_camel_case_types)]
pub trait board_operations: Sized {
    /// The board state this record denotes.
    spec fn model(&self) -> board;

    fn initialize(side_len: i32) -> (b: Self)
        requires
            1 <= side_len <= 0x3fff_ffff,
        ensures
            b.model().sidelen == side_len,
            b.model().teammates@ =~= Seq::<Point>::empty(),
            board_wf(b.model()),
            forall|i: int, j: int, k: int|
                {
                    let n = 2 * side_len - 1;
                    0 <= i < n && 0 <= j < n && 0 <= k < n
                        ==> #[trigger] grid_view(b.model().board)[i][j][k] == unset_point()
                },
    ;

    fn update_board(&mut self, scan: &mut ScanResponse) -> (accepted: bool)
        requires
            board_wf(old(self).model()),
        ensures
            *final(scan) == *old(scan),
            final(self).model().sidelen == old(self).model().sidelen,
            final(self).model().teammates == old(self).model().teammates,
            board_wf(final(self).model()),
            accepted == (forall|i: int|
                0 <= i < old(scan).model().positions.len() ==> in_board_range(
                    #[trigger] old(scan).model().positions[i],
                    old(self).model().sidelen as int,
                )),
            accepted ==> grid_view(final(self).model().board) == apply_scan(
                grid_view(old(self).model().board),
                old(scan).model().positions,
                old(self).model().sidelen - 1,
            ),
            !accepted ==> *final(self) == *old(self),
    ;
}

/// Writing one in-range point into a well-sized grid keeps every axis
/// length.
proof fn lemma_place_point_dims(g: Seq<Seq<Seq<Point>>>, p: Point, off: int, n: int)
    requires
        g.len() == n,
        forall|i: int| 0 <= i < n ==> #[trigger] g[i].len() == n,
        forall|i: int, j: int| 0 <= i < n && 0 <= j < n ==> #[trigger] g[i][j].len() == n,
        0 <= p.q + off < n,
        0 <= p.r + off < n,
        0 <= p.s + off < n,
    ensures
        ({
            let h = place_point(g, p, off);
            h.len() == n && (forall|i: int| 0 <= i < n ==> #[trigger] h[i].len() == n) && (
            forall|i: int, j: int| 0 <= i < n && 0 <= j < n ==> #[trigger] h[i][j].len() == n)
        }),
{
}

impl board_operations for board {
    open spec fn model(&self) -> board {
        *self
    }

    fn initialize(side_len: i32) -> (b: Self) {
        let empty_point = Point { q: -1, r: -1, s: -1, elevation: -1, occupied_by: ' ' };

        let array_len: usize = ((side_len * 2) - 1) as usize;

        let mut grid: Vec<Vec<Vec<Point>>> = Vec::new();
        let mut i: usize = 0;
        while i < array_len
            invariant
                i <= array_len,
                empty_point == unset_point(),
                grid@.len() == i,
                forall|a: int| 0 <= a < i ==> #[trigger] grid@[a]@.len() == array_len,
                forall|a: int, bb: int| 0 <= a < i && 0 <= bb < array_len
                    ==> #[trigger] grid@[a]@[bb]@.len() == array_len,
                forall|a: int, bb: int, c: int|
                    0 <= a < i && 0 <= bb < array_len && 0 <= c < array_len
                        ==> #[trigger] grid@[a]@[bb]@[c] == unset_point(),
            decreases array_len - i,
        {
            let mut plane: Vec<Vec<Point>> = Vec::new();
            let mut j: usize = 0;
            while j < array_len
                invariant
                    j <= array_len,
                    empty_point == unset_point(),
                    plane@.len() == j,
                    forall|bb: int| 0 <= bb < j ==> #[trigger] plane@[bb]@.len() == array_len,
                    forall|bb: int, c: int| 0 <= bb < j && 0 <= c < array_len
                        ==> #[trigger] plane@[bb]@[c] == unset_point(),
                decreases array_len - j,
            {
                let mut row: Vec<Point> = Vec::new();
                let mut k: usize = 0;
                while k < array_len
                    invariant
                        k <= array_len,
                        empty_point == unset_point(),
                        row@.len() == k,
                        forall|c: int| 0 <= c < k ==> #[trigger] row@[c] == unset_point(),
                    decreases array_len - k,
                {
                    row.push(empty_point);
                    k = k + 1;
                }
                plane.push(row);
                j = j + 1;
            }
            grid.push(plane);
            i = i + 1;
        }

        let b = board { board: grid, teammates: Vec::new(), sidelen: side_len };
        proof {
            assert forall|i: int, j: int, k: int|
                {
                    let n = 2 * side_len - 1;
                    0 <= i < n && 0 <= j < n && 0 <= k < n
                        ==> #[trigger] grid_view(b.board)[i][j][k] == unset_point()
                } by {
                let n = 2 * side_len - 1;
                if 0 <= i < n && 0 <= j < n && 0 <= k < n {
                    assert(grid_view(b.board)[i] == b.board@[i]@.map_values(|r: Vec<Point>| r@));
                    assert(grid_view(b.board)[i][j] == b.board@[i]@[j]@);
                }
            }
        }
        b
    }

    fn update_board(&mut self, scan: &mut ScanResponse) -> (accepted: bool) {
        let points = scan.get_scanned_positions();
        let ghost ptsv = points@;
        let ghost g0 = grid_view(self.board);
        let ghost off = self.sidelen - 1;
        let ghost n = 2 * self.sidelen - 1;

        let bound = self.sidelen - 1;
        let mut i: usize = 0;
        while i < points.len()
            invariant
                i <= points.len(),
                ptsv == points@,
                ptsv == old(scan).model().positions,
                bound == old(self).model().sidelen - 1,
                1 <= old(self).model().sidelen <= 0x3fff_ffff,
                forall|a: int| 0 <= a < i ==> in_board_range(
                    #[trigger] ptsv[a],
                    old(self).model().sidelen as int,
                ),
                *self == *old(self),
                *scan == *old(scan),
                board_wf(*old(self)),
            decreases points.len() - i,
        {
            let p = points[i];
            if !(-bound <= p.q && p.q <= bound && -bound <= p.r && p.r <= bound && -bound <= p.s
                && p.s <= bound) {
                return false;
            }
            i = i + 1;
        }

        let mut i: usize = 0;
        while i < points.len()
            invariant
                i <= points.len(),
                ptsv == points@,
                ptsv == old(scan).model().positions,
                bound == old(self).model().sidelen - 1,
                self.sidelen == old(self).model().sidelen,
                self.teammates == old(self).model().teammates,
                1 <= self.sidelen <= 0x3fff_ffff,
                n == 2 * self.sidelen - 1,
                off == self.sidelen - 1,
                forall|a: int| 0 <= a < ptsv.len() ==> in_board_range(
                    #[trigger] ptsv[a],
                    self.sidelen as int,
                ),
                g0 == grid_view(old(self).model().board),
                board_wf(*old(self)),
                *scan == *old(scan),
                self.board@.len() == n,
                forall|a: int| 0 <= a < n ==> #[trigger] self.board@[a]@.len() == n,
                forall|a: int, bb: int| 0 <= a < n && 0 <= bb < n
                    ==> #[trigger] self.board@[a]@[bb]@.len() == n,
                grid_view(self.board) == apply_scan(g0, ptsv.take(i as int), off as int),
            decreases points.len() - i,
        {
            let p = points[i];
            let ghost gcur = grid_view(self.board);

            let q: usize = (p.q + bound) as usize;
            let r: usize = (p.r + bound) as usize;
            let s: usize = (p.s + bound) as usize;

            let plane = vec_index_mut(&mut self.board, q);
            let row = vec_index_mut(plane, r);
            row.set(s, p);

            proof {
                assert(ptsv.take(i + 1).drop_last() =~= ptsv.take(i as int));
                assert(ptsv.take(i + 1).last() == ptsv[i as int]);
                assert(grid_view(self.board) =~~= place_point(gcur, p, off as int));
            }
            i = i + 1;
        }
        proof {
            assert(ptsv.take(points.len() as int) =~= ptsv);
        }
        return true;
    }
}

} // verus!
