//! The per-turn strategies: the find-corner calibration phase and the
//! explorer/traverse decision shells, plus the turning helpers they
//! build on.

use vstd::prelude::*;

use crate::action_manager::{action_manager, manage_player_action, playerOutput};
use crate::move_manager::index_listed;
use crate::parser::str_eq;
use crate::player::{Player, PlayerState};
use crate::scan_parser::{GetScanReturn, ScanModel, ScanResponse};

verus! {

/// Turn sense: left is counter-clockwise, right is clockwise.
pub enum Turn {
    Left,
    Right,
}

/// The six compass labels in clockwise order starting at north.
pub open spec fn direction_seq() -> Seq<Seq<char>> {
    seq!["N"@, "NE"@, "SE"@, "S"@, "SW"@, "NW"@]
}

/// The position of a compass label in the clockwise order.
pub open spec fn direction_index_spec(f: Seq<char>) -> int {
    if f == "N"@ {
        0
    } else if f == "NE"@ {
        1
    } else if f == "SE"@ {
        2
    } else if f == "S"@ {
        3
    } else if f == "SW"@ {
        4
    } else {
        5
    }
}

/// The compass label at clockwise position `i`.
fn direction_at(i: usize) -> (r: String)
    requires
        i < 6,
    ensures
        r@ == direction_seq()[i as int],
{
    if i == 0 {
        String::from_str("N")
    } else if i == 1 {
        String::from_str("NE")
    } else if i == 2 {
        String::from_str("SE")
    } else if i == 3 {
        String::from_str("S")
    } else if i == 4 {
        String::from_str("SW")
    } else {
        String::from_str("NW")
    }
}

/// The clockwise position of a facing label, or `None` for a string
/// that is no compass label.
fn direction_index(facing: &str) -> (r: Option<usize>)
    ensures
        r is Some <==> crate::move_manager::is_compass_label(facing@),
        r is Some ==> r->0 < 6 && direction_seq()[r->0 as int] == facing@
            && direction_index_spec(facing@) == r->0 as int,
{
    if str_eq(facing, "N") {
        Some(0)
    } else if str_eq(facing, "NE") {
        Some(1)
    } else if str_eq(facing, "SE") {
        Some(2)
    } else if str_eq(facing, "S") {
        Some(3)
    } else if str_eq(facing, "SW") {
        Some(4)
    } else if str_eq(facing, "NW") {
        Some(5)
    } else {
        None
    }
}

/// Relies on rand 0.8's `rand::random`: a sampled value of the
/// requested type; nothing is promised of which value comes back.
pub assume_specification<T>[ rand::random::<T> ]() -> (r: T)
    where
        rand::distributions::Standard: rand::distributions::Distribution<T>,
;

/// Turn one compass step left or right from the current facing.
pub fn turn_LR(player: &mut Player, turn_direction: Turn, action_manager: &mut action_manager)
    requires
        crate::move_manager::is_compass_label(old(player).facing_directon@),
        old(action_manager).round_action_counter < u32::MAX,
    ensures
        ({
            let idx = direction_index_spec(old(player).facing_directon@);
            let target = if turn_direction is Right {
                direction_seq()[(idx + 1) % 6]
            } else {
                direction_seq()[(idx + 5) % 6]
            };
            &&& *final(player) == (Player {
                facing_directon: final(player).facing_directon,
                ..*old(player)
            })
            &&& final(player).facing_directon@ == target
            &&& final(action_manager).last_action == playerOutput::TURN
            &&& final(action_manager).round_action_counter == old(action_manager).round_action_counter + 1
            &&& final(action_manager).outbox.deep_view() == old(action_manager).outbox.deep_view().push("TURN "@ + target + " "@)
        }),
{
    let facing = player.get_facing_direction();
    let index: usize = match direction_index(facing.as_str()) {
        Some(i) => i,
        None => {
            proof {
                assert(false);
            }
            0
        },
    };

    let direction: String = if matches!(turn_direction, Turn::Right) {
        direction_at((index + 1) % 6)
    } else {
        direction_at((index + 6 - 1) % 6)
    };
    action_manager.turn(direction.as_str(), player);
}

/// The label opposite a facing; the empty label for a string that is
/// no compass label.
pub open spec fn opposite_label(f: Seq<char>) -> Seq<char> {
    if f == "N"@ {
        "S"@
    } else if f == "S"@ {
        "N"@
    } else if f == "NE"@ {
        "SW"@
    } else if f == "SW"@ {
        "NE"@
    } else if f == "NW"@ {
        "SE"@
    } else if f == "SE"@ {
        "NW"@
    } else {
        Seq::empty()
    }
}

/// Turn the tank opposite to its current facing.
pub fn turn_opposite(player: &mut Player, action_manager: &mut action_manager)
    requires
        old(action_manager).round_action_counter < u32::MAX,
    ensures
        ({
            let target = opposite_label(old(player).facing_directon@);
            &&& *final(player) == (Player {
                facing_directon: final(player).facing_directon,
                ..*old(player)
            })
            &&& final(player).facing_directon@ == target
            &&& final(action_manager).last_action == playerOutput::TURN
            &&& final(action_manager).round_action_counter == old(action_manager).round_action_counter + 1
            &&& final(action_manager).outbox.deep_view() == old(action_manager).outbox.deep_view().push("TURN "@ + target + " "@)
        }),
{
    let facing = player.get_facing_direction();
    let f = facing.as_str();
    if str_eq(f, "N") {
        action_manager.turn("S", player);
    } else if str_eq(f, "S") {
        action_manager.turn("N", player);
    } else if str_eq(f, "NE") {
        action_manager.turn("SW", player);
    } else if str_eq(f, "SW") {
        action_manager.turn("NE", player);
    } else if str_eq(f, "NW") {
        action_manager.turn("SE", player);
    } else if str_eq(f, "SE") {
        action_manager.turn("NW", player);
    } else {
        proof {
            reveal_strlit("");
            assert(""@ =~= Seq::<char>::empty());
        }
        action_manager.turn("", player);
    }
}

/// Turn the tank to a direction drawn at random (the draw only ever
/// picks among the first five labels of the clockwise order).
pub fn turn_rand(player: &mut Player, action_manager: &mut action_manager)
    requires
        old(action_manager).round_action_counter < u32::MAX,
    ensures
        exists|i: int|
            0 <= i < 5 && #[trigger] direction_seq()[i] == final(player).facing_directon@
                && *final(player) == (Player {
                facing_directon: final(player).facing_directon,
                ..*old(player)
            }) && final(action_manager).last_action == playerOutput::TURN && final(action_manager).round_action_counter == old(action_manager).round_action_counter + 1 && final(action_manager).outbox.deep_view() == old(action_manager).outbox.deep_view().push(
                "TURN "@ + direction_seq()[i] + " "@,
            ),
{
    let drawn: u32 = rand::random::<u32>();
    let index = (drawn % 5) as usize;
    let direction = direction_at(index);
    action_manager.turn(direction.as_str(), player);
    proof {
        assert(direction_seq()[index as int] == final(player).facing_directon@);
    }
}

/// What the find-corner phase decides to do this cycle, before the
/// trailing skip check.
pub enum OrientDecision {
    TurnTo(Seq<char>),
    ScanArea,
    DriveAhead,
    EndTurn,
    MarkCorner,
    Nothing,
}

/// The fixed calibration turn for a team colour at the start of round
/// one; colours outside the six teams decide nothing.
pub open spec fn corner_turn(colour: Seq<char>) -> OrientDecision {
    if colour == "R"@ {
        OrientDecision::TurnTo("SE"@)
    } else if colour == "O"@ {
        OrientDecision::TurnTo("S"@)
    } else if colour == "Y"@ {
        OrientDecision::TurnTo("SW"@)
    } else if colour == "G"@ {
        OrientDecision::TurnTo("NW"@)
    } else if colour == "B"@ {
        OrientDecision::TurnTo("N"@)
    } else if colour == "V"@ {
        OrientDecision::TurnTo("NE"@)
    } else {
        OrientDecision::Nothing
    }
}

/// Whether the player may still drive this round: drive quota not
/// reached and points left.
pub open spec fn may_drive(p: Player) -> bool {
    p.drive_actions_taken < p.max_move && p.total_possible_points - p.points_count > 0
}

/// The decision the find-corner phase takes from the current state: the
/// round-one calibration turn, else the first scan of the round, else
/// the reaction to the last action's outcome.
pub open spec fn orient_decision(p: Player, last: playerOutput, counter: int, sc: ScanModel) -> OrientDecision {
    if p.round_number == 1 && counter == 0 {
        corner_turn(p.colour@)
    } else if p.scan_actions_taken == 0 {
        OrientDecision::ScanArea
    } else {
        match last {
            playerOutput::SCAN => if sc.walls.contains(1) {
                OrientDecision::MarkCorner
            } else if may_drive(p) {
                OrientDecision::DriveAhead
            } else {
                OrientDecision::EndTurn
            },
            playerOutput::DRIVE => if !sc.walls.contains(5) {
                if may_drive(p) {
                    OrientDecision::DriveAhead
                } else {
                    OrientDecision::EndTurn
                }
            } else {
                OrientDecision::MarkCorner
            },
            _ => OrientDecision::Nothing,
        }
    }
}

/// How many steps the decision consumes (only scan and drive are
/// steps).
pub open spec fn decision_steps(d: OrientDecision) -> int {
    match d {
        OrientDecision::ScanArea => 1,
        OrientDecision::DriveAhead => 1,
        _ => 0,
    }
}

/// The command line the decision emits, if any.
pub open spec fn decision_commands(d: OrientDecision) -> Seq<Seq<char>> {
    match d {
        OrientDecision::TurnTo(dir) => seq!["TURN "@ + dir + " "@],
        OrientDecision::ScanArea => seq!["SCAN"@],
        OrientDecision::DriveAhead => seq!["DRIVE"@],
        OrientDecision::EndTurn => seq!["END"@],
        _ => Seq::empty(),
    }
}

/// Whether the trailing skip fires: the corner is (or just became)
/// found and the step budget of the round is not yet used up.
pub open spec fn orient_skips(p: Player, last: playerOutput, counter: int, sc: ScanModel) -> bool {
    let d = orient_decision(p, last, counter, sc);
    (p.found_corner || d is MarkCorner) && p.steps + decision_steps(d) < 3
}

/// All command lines one find-corner cycle emits.
pub open spec fn orient_commands(p: Player, last: playerOutput, counter: int, sc: ScanModel) -> Seq<Seq<char>> {
    decision_commands(orient_decision(p, last, counter, sc)) + if orient_skips(p, last, counter, sc) {
        seq!["SKIP"@]
    } else {
        Seq::empty()
    }
}

/// The last-action tag one find-corner cycle leaves behind.
pub open spec fn orient_last(p: Player, last: playerOutput, counter: int, sc: ScanModel) -> playerOutput {
    if orient_skips(p, last, counter, sc) {
        playerOutput::SKIP
    } else {
        match orient_decision(p, last, counter, sc) {
            OrientDecision::TurnTo(dir) => playerOutput::TURN,
            OrientDecision::ScanArea => playerOutput::SCAN,
            OrientDecision::DriveAhead => playerOutput::DRIVE,
            OrientDecision::EndTurn => playerOutput::END,
            _ => last,
        }
    }
}

/// The player state one find-corner cycle leaves behind.
pub open spec fn orient_player_post(
    p: Player,
    last: playerOutput,
    counter: int,
    sc: ScanModel,
    fp: Player,
) -> bool {
    let d = orient_decision(p, last, counter, sc);
    let sk = orient_skips(p, last, counter, sc);
    &&& fp == (Player {
        facing_directon: fp.facing_directon,
        scan_actions_taken: (p.scan_actions_taken + if d is ScanArea {
            1int
        } else {
            0int
        }) as u32,
        drive_actions_taken: (p.drive_actions_taken + if d is DriveAhead {
            1int
        } else {
            0int
        }) as u32,
        skip_actions_taken: (p.skip_actions_taken + if sk {
            1int
        } else {
            0int
        }) as u32,
        steps: (p.steps + decision_steps(d) + if sk {
            1int
        } else {
            0int
        }) as u32,
        found_corner: p.found_corner || d is MarkCorner,
        ..p
    })
    &&& fp.facing_directon@ == (match d {
        OrientDecision::TurnTo(dir) => dir,
        _ => p.facing_directon@,
    })
}

/// The find-corner phase: on the very first cycle of round one turn
/// toward the team's corner; otherwise scan first, then react to what
/// the scan or drive showed (mark the corner at a forward wall, else
/// drive while the budget allows, else end); once the corner is found,
/// burn the remaining steps of the round with a skip.
pub fn orient_to_near_corner(
    player: &mut Player,
    scan: &mut ScanResponse,
    action_manager: &mut action_manager,
)
    requires
        crate::player::budget_ok(*old(player)),
        old(player).steps < u32::MAX,
        old(player).skip_actions_taken < u32::MAX,
        old(action_manager).round_action_counter < u32::MAX - 1,
    ensures
        *final(scan) == *old(scan),
        orient_player_post(
            *old(player),
            old(action_manager).last_action,
            old(action_manager).round_action_counter as int,
            old(scan).model(),
            *final(player),
        ),
        final(action_manager).last_action == orient_last(
            *old(player),
            old(action_manager).last_action,
            old(action_manager).round_action_counter as int,
            old(scan).model(),
        ),
        final(action_manager).round_action_counter == old(action_manager).round_action_counter
            + orient_commands(
            *old(player),
            old(action_manager).last_action,
            old(action_manager).round_action_counter as int,
            old(scan).model(),
        ).len(),
        final(action_manager).outbox.deep_view() == old(action_manager).outbox.deep_view()
            + orient_commands(
            *old(player),
            old(action_manager).last_action,
            old(action_manager).round_action_counter as int,
            old(scan).model(),
        ),
{
    let ghost p0 = *old(player);
    let ghost a0 = *old(action_manager);
    let ghost sc0 = old(scan).model();

    let rounds = player.get_rounds();
    let counter = action_manager.get_action_counter();

    if rounds == 1 && counter == 0 {
        let colour = player.get_colour();
        let c = colour.as_str();
        if str_eq(c, "R") {
            action_manager.turn("SE", player);
        } else if str_eq(c, "O") {
            action_manager.turn("S", player);
        } else if str_eq(c, "Y") {
            action_manager.turn("SW", player);
        } else if str_eq(c, "G") {
            action_manager.turn("NW", player);
        } else if str_eq(c, "B") {
            action_manager.turn("N", player);
        } else if str_eq(c, "V") {
            action_manager.turn("NE", player);
        }
    } else {
        if player.get_scan_action_count() == 0 {
            action_manager.scan(player);
        } else {
            match action_manager.get_last_action() {
                playerOutput::SCAN => {
                    let walls = scan.get_walls();
                    if index_listed(&walls, 1) {
                        player.corner_found();
                    } else {
                        if player.get_drive_actions_check() {
                            action_manager.drive(player);
                        } else {
                            action_manager.end();
                        }
                    }
                },
                playerOutput::DRIVE => {
                    let walls = scan.get_walls();
                    if !index_listed(&walls, 5) {
                        if player.get_drive_actions_check() {
                            action_manager.drive(player);
                        } else {
                            action_manager.end();
                        }
                    } else {
                        player.corner_found();
                    }
                },
                _ => (),
            }
        }
    }

    if player.get_corner_status() {
        let max_steps: u32 = 3;
        if player.get_step_count() < max_steps {
            action_manager.skip(player);
        }
    }

    proof {
        assert(action_manager.outbox.deep_view() =~= a0.outbox.deep_view() + orient_commands(
            p0,
            a0.last_action,
            a0.round_action_counter as int,
            sc0,
        ));
    }
}

/// What the explorer shell emits: heavy units end the turn at once, the
/// other classes decide nothing yet.
pub open spec fn explorer_ends(p: Player) -> bool {
    p.tank_type is heavy
}

/// The explorer decision shell, keyed by unit class and step count: a
/// heavy unit ends its turn, the other classes leave every state
/// unchanged and emit nothing.
pub fn explorer(player: &mut Player, scan: &mut ScanResponse, action_manager: &mut action_manager)
    requires
        old(action_manager).round_action_counter < u32::MAX,
    ensures
        *final(player) == *old(player),
        *final(scan) == *old(scan),
        ({
            if explorer_ends(*old(player)) {
                &&& final(action_manager).last_action == playerOutput::END
                &&& final(action_manager).round_action_counter == old(action_manager).round_action_counter + 1
                &&& final(action_manager).outbox.deep_view() == old(action_manager).outbox.deep_view().push("END"@)
            } else {
                *final(action_manager) == *old(action_manager)
            }
        }),
{
    match player.get_tank_type() {
        crate::player::tank_type::heavy => action_manager.end(),
        _ => {
            match player.get_step_count() {
                1 => {},
                2 => {},
                3 => {},
                _ => (),
            }
        },
    }
}

/// The traverse decision shell, keyed by unit class and step count: no
/// branch decides anything yet, so every state is left unchanged and
/// nothing is emitted.
pub fn traverse(player: &mut Player, scan: &mut ScanResponse, action_manager: &mut action_manager)
    ensures
        *final(player) == *old(player),
        *final(scan) == *old(scan),
        *final(action_manager) == *old(action_manager),
{
    match player.get_tank_type() {
        crate::player::tank_type::heavy => {
            match player.get_step_count() {
                1 => {},
                2 => {},
                3 => {},
                _ => (),
            }
        },
        crate::player::tank_type::scout => {
            match player.get_step_count() {
                1 => {},
                2 => {},
                3 => {},
                _ => (),
            }
        },
        crate::player::tank_type::tank => {
            match player.get_step_count() {
                1 => {},
                2 => {},
                3 => {},
                _ => (),
            }
        },
        _ => (),
    }
}

} // verus!
