//! The per-unit resource model: health, facing, per-round action
//! counters, and the per-class action quotas and point budget, together
//! with the budget predicates that guard every action.

use vstd::prelude::*;

use crate::move_manager::{construct_drive_moves, construct_shoot_move, drive_moves_spec,
    shoot_label};
use crate::scan_parser::{GetScanReturn, ScanResponse};

verus! {

/// The three combat classes (plus the failed-selection marker).
#[allow(non_camel_case_types)]
#[derive(Debug, Clone, Copy)]
pub enum tank_type {
    heavy,
    scout,
    tank,
    error,
}

/// Per-class drive quota.
pub open spec fn class_max_move(t: tank_type) -> int {
    match t {
        tank_type::heavy => 2,
        tank_type::scout => 4,
        _ => 2,
    }
}

/// Per-class shoot quota.
pub open spec fn class_max_shoots(t: tank_type) -> int {
    match t {
        tank_type::heavy => 2,
        tank_type::scout => 1,
        _ => 1,
    }
}

/// Per-class scan quota.
pub open spec fn class_max_scans(t: tank_type) -> int {
    match t {
        tank_type::heavy => 1,
        tank_type::scout => 3,
        _ => 2,
    }
}

/// Per-class total point budget for one round.
pub open spec fn class_total_points(t: tank_type) -> int {
    match t {
        tank_type::heavy => 5,
        tank_type::scout => 5,
        _ => 4,
    }
}

/// One unit's state: identity and quotas fixed at construction, health,
/// facing, and the per-round counters.
pub struct Player {
    pub round_number: u32,
    pub tank_type: tank_type,
    pub max_scans: u32,
    pub max_shoots: u32,
    pub max_move: u32,
    pub drive_actions_taken: u32,
    pub scan_actions_taken: u32,
    pub skip_actions_taken: u32,
    pub shot_actions_taken: u32,
    pub total_possible_points: u32,
    pub points_count: u32,
    pub health: u8,
    pub facing_directon: String,
    pub colour: String,
    pub max_exploration_rounds: u32,
    pub side_length: u32,
    pub steps: u32,
    pub found_corner: bool,
}

/// The point budget is consistent: no more points spent than the total,
/// and the total small enough that the remainder fits an `i32`.
pub open spec fn budget_ok(p: Player) -> bool {
    p.points_count <= p.total_possible_points <= 0x7fff_ffff
}

pub trait PlayerState: Sized {
    /// The player state this record denotes (the record itself; the
    /// contracts below are written against it).
    spec fn model(&self) -> Player;

    fn initialize_player(
        colour: String,
        exploration_rounds: u32,
        side_length: u32,
        tank_type: tank_type,
    ) -> (p: Self)
        ensures
            p.model().round_number == 1,
            p.model().tank_type == tank_type,
            p.model().max_scans == class_max_scans(tank_type),
            p.model().max_shoots == class_max_shoots(tank_type),
            p.model().max_move == class_max_move(tank_type),
            p.model().drive_actions_taken == 0,
            p.model().scan_actions_taken == 0,
            p.model().skip_actions_taken == 0,
            p.model().shot_actions_taken == 0,
            p.model().total_possible_points == class_total_points(tank_type),
            p.model().points_count == 0,
            p.model().health == 2,
            p.model().facing_directon@ == "N"@,
            p.model().colour == colour,
            p.model().max_exploration_rounds == exploration_rounds,
            p.model().side_length == side_length,
            p.model().steps == 0,
            p.model().found_corner == false,
    ;

    fn set_initial_information(&mut self, colour: String, max_round: u32, side_length: u32)
        ensures
            final(self).model() == (Player {
                colour: colour,
                max_exploration_rounds: max_round,
                side_length: side_length,
                ..old(self).model()
            }),
    ;

    fn construct_possible_moves(&mut self, scanned_area: &mut ScanResponse) -> (moves: Vec<String>)
        requires
            ({
                let m = old(scanned_area).model();
                let p = old(self).model();
                (m.enemy_detected && p.round_number > p.max_exploration_rounds
                    && p.shot_actions_taken > 0) ==> forall|i: int|
                    0 <= i < m.enemies.len() ==> 0 <= #[trigger] m.enemies[i] <= 8
            }),
        ensures
            *final(self) == *old(self),
            *final(scanned_area) == *old(scanned_area),
            ({
                let m = old(scanned_area).model();
                let p = old(self).model();
                if m.enemy_detected {
                    if p.round_number > p.max_exploration_rounds && p.shot_actions_taken > 0 {
                        moves.deep_view() == Seq::new(
                            m.enemies.len(),
                            |i: int| shoot_label(p.facing_directon@, m.enemies[i]),
                        )
                    } else {
                        moves.deep_view() == Seq::<Seq<char>>::empty()
                    }
                } else {
                    moves.deep_view() == drive_moves_spec(p.facing_directon@, m)
                }
            }),
    ;

    fn take_damage(&mut self)
        requires
            old(self).model().health > 0,
        ensures
            final(self).model() == (Player {
                health: (old(self).model().health - 1) as u8,
                ..old(self).model()
            }),
    ;

    fn start_round(&mut self, new_round_num: u32)
        ensures
            final(self).model() == (Player {
                drive_actions_taken: 0,
                scan_actions_taken: 0,
                shot_actions_taken: 0,
                skip_actions_taken: 0,
                steps: 0,
                points_count: 0,
                round_number: new_round_num,
                ..old(self).model()
            }),
    ;

    fn update_facing_direction(&mut self, direction: &str)
        ensures
            final(self).model() == (Player {
                facing_directon: final(self).model().facing_directon,
                ..old(self).model()
            }),
            final(self).model().facing_directon@ == direction@,
    ;

    fn update_points_count(&mut self, points_count: u32)
        requires
            old(self).model().points_count + points_count <= u32::MAX,
        ensures
            final(self).model() == (Player {
                points_count: (old(self).model().points_count + points_count) as u32,
                ..old(self).model()
            }),
    ;

    fn add_shoot_action(&mut self)
        requires
            old(self).model().shot_actions_taken < u32::MAX,
        ensures
            final(self).model() == (Player {
                shot_actions_taken: (old(self).model().shot_actions_taken + 1) as u32,
                ..old(self).model()
            }),
    ;

    fn add_drive_action(&mut self)
        requires
            old(self).model().drive_actions_taken < u32::MAX,
        ensures
            final(self).model() == (Player {
                drive_actions_taken: (old(self).model().drive_actions_taken + 1) as u32,
                ..old(self).model()
            }),
    ;

    fn add_scan_action(&mut self)
        requires
            old(self).model().scan_actions_taken < u32::MAX,
        ensures
            final(self).model() == (Player {
                scan_actions_taken: (old(self).model().scan_actions_taken + 1) as u32,
                ..old(self).model()
            }),
    ;

    fn add_step(&mut self)
        requires
            old(self).model().steps < u32::MAX,
        ensures
            final(self).model() == (Player {
                steps: (old(self).model().steps + 1) as u32,
                ..old(self).model()
            }),
    ;

    fn add_skip_action(&mut self)
        requires
            old(self).model().skip_actions_taken < u32::MAX,
        ensures
            final(self).model() == (Player {
                skip_actions_taken: (old(self).model().skip_actions_taken + 1) as u32,
                ..old(self).model()
            }),
    ;

    fn corner_found(&mut self)
        ensures
            final(self).model() == (Player { found_corner: true, ..old(self).model() }),
    ;

    fn get_colour(&self) -> (r: String)
        ensures
            r == self.model().colour,
    ;

    fn get_side_len(&self) -> (r: u32)
        ensures
            r == self.model().side_length,
    ;

    fn get_rounds(&self) -> (r: u32)
        ensures
            r == self.model().round_number,
    ;

    fn get_health(&mut self) -> (r: u8)
        ensures
            *final(self) == *old(self),
            r == old(self).model().health,
    ;

    fn get_exploration_rounds(&self) -> (r: u32)
        ensures
            r == self.model().max_exploration_rounds,
    ;

    fn get_facing_direction(&mut self) -> (r: String)
        ensures
            *final(self) == *old(self),
            r@ == old(self).model().facing_directon@,
    ;

    fn get_drive_actions_check(&self) -> (r: bool)
        requires
            budget_ok(self.model()),
        ensures
            r == (self.model().drive_actions_taken < self.model().max_move
                && self.model().total_possible_points - self.model().points_count > 0),
    ;

    fn get_scan_actions_check(&self) -> (r: bool)
        requires
            budget_ok(self.model()),
        ensures
            r == (self.model().scan_actions_taken < self.model().max_scans
                && self.model().total_possible_points - self.model().points_count > 0),
    ;

    fn get_skip_actions_check(&self) -> (r: bool)
        ensures
            r == (self.model().drive_actions_taken != 1),
    ;

    fn get_shoot_action_check(&self) -> (r: bool)
        requires
            budget_ok(self.model()),
        ensures
            r == (self.model().shot_actions_taken < self.model().max_shoots
                && self.model().total_possible_points - self.model().points_count > 0),
    ;

    fn get_scan_action_count(&self) -> (r: u32)
        ensures
            r == self.model().scan_actions_taken,
    ;

    fn get_points_left(&self) -> (r: i32)
        requires
            budget_ok(self.model()),
        ensures
            r == self.model().total_possible_points - self.model().points_count,
    ;

    fn get_step_count(&self) -> (r: u32)
        ensures
            r == self.model().steps,
    ;

    fn get_corner_status(&self) -> (r: bool)
        ensures
            r == self.model().found_corner,
    ;

    fn get_tank_type(&self) -> (r: tank_type)
        ensures
            r == self.model().tank_type,
    ;
}

impl PlayerState for Player {
    open spec fn model(&self) -> Player {
        *self
    }

    fn initialize_player(
        colour: String,
        exploration_rounds: u32,
        side_length: u32,
        tank_type: tank_type,
    ) -> (p: Self) {
        let max_scans_point: u32;
        let max_shoots_point: u32;
        let max_move_point: u32;
        let total_possible_points: u32;

        match tank_type {
            tank_type::heavy => {
                max_move_point = 2;
                max_shoots_point = 2;
                max_scans_point = 1;
                total_possible_points = 5;
            },
            tank_type::scout => {
                max_move_point = 4;
                max_shoots_point = 1;
                max_scans_point = 3;
                total_possible_points = 5;
            },
            _ => {
                max_move_point = 2;
                max_shoots_point = 1;
                max_scans_point = 2;
                total_possible_points = 4;
            },
        }

        Player {
            round_number: 1,
            tank_type,
            max_scans: max_scans_point,
            max_shoots: max_shoots_point,
            max_move: max_move_point,
            drive_actions_taken: 0,
            scan_actions_taken: 0,
            shot_actions_taken: 0,
            skip_actions_taken: 0,
            total_possible_points,
            points_count: 0,
            health: 2,
            facing_directon: String::from_str("N"),
            colour,
            max_exploration_rounds: exploration_rounds,
            side_length,
            steps: 0,
            found_corner: false,
        }
    }

    fn set_initial_information(&mut self, colour: String, max_round: u32, side_length: u32) {
        self.colour = colour;
        self.max_exploration_rounds = max_round;
        self.side_length = side_length;
    }

    fn construct_possible_moves(&mut self, scanned_area: &mut ScanResponse) -> (moves: Vec<
        String,
    >) {
        let ghost m = scanned_area.model();
        let ghost p = *old(self);
        let mut possible_moves: Vec<String> = Vec::new();
        if scanned_area.get_enemy_detected() {
            if self.round_number > self.max_exploration_rounds {
                if self.shot_actions_taken > 0 {
                    let enemies = scanned_area.get_enemies();
                    let mut i: usize = 0;
                    while i < enemies.len()
                        invariant
                            i <= enemies.len(),
                            enemies@.map_values(|x: usize| x as int) == m.enemies,
                            forall|j: int| 0 <= j < m.enemies.len() ==> 0 <= #[trigger] m.enemies[j]
                                <= 8,
                            self.facing_directon@ == p.facing_directon@,
                            possible_moves.deep_view() == Seq::new(
                                i as nat,
                                |j: int| shoot_label(p.facing_directon@, m.enemies[j]),
                            ),
                        decreases enemies.len() - i,
                    {
                        let enemy_pos = enemies[i];
                        proof {
                            assert(m.enemies[i as int] == enemy_pos as int);
                        }
                        let shot = construct_shoot_move(self.facing_directon.clone(), enemy_pos);
                        proof {
                            let next = Seq::new(
                                (i + 1) as nat,
                                |j: int| shoot_label(p.facing_directon@, m.enemies[j]),
                            );
                            assert(possible_moves.deep_view().push(shot@) =~= next);
                        }
                        possible_moves.push(shot);
                        i = i + 1;
                    }
                    proof {
                        assert(possible_moves.deep_view() =~= Seq::new(
                            m.enemies.len(),
                            |j: int| shoot_label(p.facing_directon@, m.enemies[j]),
                        ));
                    }
                }
            }
        } else {
            if self.scan_actions_taken < self.scan_actions_taken {
                possible_moves.push(String::from_str("SCAN"));
            }
            let mut drive_moves = construct_drive_moves(self.facing_directon.clone(), scanned_area);
            let mut k: usize = 0;
            proof {
                assert(possible_moves.deep_view() =~= Seq::<Seq<char>>::empty());
            }
            while k < drive_moves.len()
                invariant
                    k <= drive_moves.len(),
                    drive_moves.deep_view() == drive_moves_spec(p.facing_directon@, m),
                    possible_moves.deep_view() == drive_moves.deep_view().take(k as int),
                decreases drive_moves.len() - k,
            {
                let mv = drive_moves[k].clone();
                proof {
                    assert(mv@ == drive_moves.deep_view()[k as int]);
                    assert(possible_moves.deep_view().push(mv@) =~= drive_moves.deep_view().take(
                        k + 1,
                    ));
                }
                possible_moves.push(mv);
                k = k + 1;
            }
            proof {
                assert(drive_moves.deep_view().take(drive_moves.len() as int)
                    =~= drive_moves.deep_view());
            }
        }
        proof {
            if !m.enemy_detected {
            } else if !(p.round_number > p.max_exploration_rounds && p.shot_actions_taken > 0) {
                assert(possible_moves.deep_view() =~= Seq::<Seq<char>>::empty());
            }
        }
        return possible_moves;
    }

    fn get_colour(&self) -> (r: String) {
        self.colour.clone()
    }

    fn get_side_len(&self) -> (r: u32) {
        self.side_length
    }

    fn get_rounds(&self) -> (r: u32) {
        return self.round_number;
    }

    fn get_health(&mut self) -> (r: u8) {
        return self.health;
    }

    fn take_damage(&mut self) {
        self.health = self.health - 1;
    }

    fn start_round(&mut self, new_round_num: u32) {
        self.drive_actions_taken = 0;
        self.scan_actions_taken = 0;
        self.shot_actions_taken = 0;
        self.skip_actions_taken = 0;
        self.steps = 0;
        self.points_count = 0;
        self.round_number = new_round_num;
    }

    fn update_points_count(&mut self, points_count: u32) {
        self.points_count = self.points_count + points_count;
    }

    fn add_step(&mut self) {
        self.steps = self.steps + 1;
    }

    fn add_shoot_action(&mut self) {
        self.shot_actions_taken = self.shot_actions_taken + 1;
    }

    fn add_drive_action(&mut self) {
        self.drive_actions_taken = self.drive_actions_taken + 1;
    }

    fn add_skip_action(&mut self) {
        self.skip_actions_taken = self.skip_actions_taken + 1;
    }

    fn corner_found(&mut self) {
        self.found_corner = true;
    }

    fn update_facing_direction(&mut self, direction: &str) {
        self.facing_directon = direction.to_owned();
    }

    fn add_scan_action(&mut self) {
        self.scan_actions_taken = self.scan_actions_taken + 1;
    }

    fn get_facing_direction(&mut self) -> (r: String) {
        return self.facing_directon.clone();
    }

    fn get_exploration_rounds(&self) -> (r: u32) {
        return self.max_exploration_rounds;
    }

    fn get_drive_actions_check(&self) -> (r: bool) {
        let mut drive_check = true;
        if (self.drive_actions_taken >= self.max_move) || (self.get_points_left() <= 0) {
            drive_check = false;
        }
        return drive_check;
    }

    fn get_scan_actions_check(&self) -> (r: bool) {
        let mut scan_check = true;
        if (self.scan_actions_taken >= self.max_scans) || (self.get_points_left() <= 0) {
            scan_check = false;
        }
        return scan_check;
    }

    fn get_scan_action_count(&self) -> (r: u32) {
        return self.scan_actions_taken;
    }

    fn get_tank_type(&self) -> (r: tank_type) {
        return self.tank_type;
    }

    fn get_skip_actions_check(&self) -> (r: bool) {
        return match self.drive_actions_taken {
            1 => false,
            _ => true,
        };
    }

    fn get_shoot_action_check(&self) -> (r: bool) {
        let mut shoot_check = true;
        if (self.shot_actions_taken >= self.max_shoots) || (self.get_points_left() <= 0) {
            shoot_check = false;
        }
        return shoot_check;
    }

    fn get_points_left(&self) -> (r: i32) {
        return (self.total_possible_points - self.points_count) as i32;
    }

    fn get_step_count(&self) -> (r: u32) {
        return self.steps;
    }

    fn get_corner_status(&self) -> (r: bool) {
        return self.found_corner;
    }
}

} // verus!
