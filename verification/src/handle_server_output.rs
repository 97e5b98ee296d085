//! The protocol-response dispatcher: classify one tokenized server
//! line, update the player and strategy state, run the active strategy,
//! and hand the emitted command lines back to the I/O loop.

use vstd::prelude::*;

use crate::action_manager::{action_manager, manage_player_action, playerOutput};
use crate::parser::{digits_val, is_digit_string, parse_u32, str_eq};
use crate::player::{budget_ok, Player, PlayerState};
use crate::robot_strategies::{explorer, explorer_ends, orient_commands, orient_last,
    orient_player_post, orient_to_near_corner, traverse};
use crate::scan_parser::{enemy_indices, flat_entries, scan_cell, wall_indices, GetScanReturn,
    ScanModel, ScanResponse};
use crate::strategy_controller::{active_of, evaluated_strategy, select_spec, startegies,
    strategiesType, strategy_controller};

verus! {

/// The kinds of line the server can send back.
pub enum ServerResponseType {
    Damage,
    Dead,
    Move,
    Accepted,
    Huh,
    Action,
    Timeout,
    Finish,
}

/// The classification of a server line by its first token; an
/// unrecognized tag is read as a generic action payload.
pub open spec fn classify(first: Seq<char>) -> ServerResponseType {
    if first == "MOVE"@ {
        ServerResponseType::Move
    } else if first == "FINISH"@ {
        ServerResponseType::Finish
    } else if first == "DEAD"@ {
        ServerResponseType::Dead
    } else if first == "ACTION!"@ {
        ServerResponseType::Action
    } else if first == "TIMEOUT!"@ {
        ServerResponseType::Timeout
    } else if first == "OK"@ {
        ServerResponseType::Accepted
    } else if first == "HUH?"@ {
        ServerResponseType::Huh
    } else if first == "DAMAGE"@ {
        ServerResponseType::Damage
    } else {
        ServerResponseType::Action
    }
}

/// The last server line, the last player action, and the line's
/// whitespace-split tokens, as handed in by the I/O loop.
#[allow(non_camel_case_types)]
pub struct Actions_history {
    pub server_resp: String,
    pub player_action: String,
    pub constructed_server_resp: Vec<String>,
}

impl Actions_history {
    /// An empty history.
    pub fn initialize() -> (a: Self)
        ensures
            a.server_resp@ == " "@,
            a.player_action@ == " "@,
            a.constructed_server_resp@ =~= Seq::<String>::empty(),
    {
        Actions_history {
            server_resp: String::from_str(" "),
            player_action: String::from_str(" "),
            constructed_server_resp: Vec::new(),
        }
    }

    /// Record the last action the player has performed.
    pub fn set_player_action(&mut self, action: String)
        ensures
            *final(self) == (Actions_history { player_action: action, ..*old(self) }),
    {
        self.player_action = action;
    }

    /// The recorded tokens of the last server line.
    pub fn get_arg_vector(self) -> (r: Vec<String>)
        ensures
            r == self.constructed_server_resp,
    {
        return self.constructed_server_resp;
    }

    /// Record a server line together with its tokens.
    pub fn set_server_resp(&mut self, response: String, args: Vec<String>)
        ensures
            *final(self) == (Actions_history {
                server_resp: response,
                constructed_server_resp: args,
                ..*old(self)
            }),
    {
        self.server_resp = response;
        self.constructed_server_resp = args;
    }

    /// Classify the recorded line by its first token.
    pub fn get_server_response_type(&mut self) -> (r: ServerResponseType)
        requires
            old(self).constructed_server_resp@.len() >= 1,
        ensures
            *final(self) == *old(self),
            r == classify(old(self).constructed_server_resp.deep_view()[0]),
    {
        proof {
            assert(self.constructed_server_resp.deep_view()[0]
                == self.constructed_server_resp@[0]@);
        }
        let first = &self.constructed_server_resp[0];
        let f = first.as_str();
        if str_eq(f, "MOVE") {
            ServerResponseType::Move
        } else if str_eq(f, "FINISH") {
            ServerResponseType::Finish
        } else if str_eq(f, "DEAD") {
            ServerResponseType::Dead
        } else if str_eq(f, "ACTION!") {
            ServerResponseType::Action
        } else if str_eq(f, "TIMEOUT!") {
            ServerResponseType::Timeout
        } else if str_eq(f, "OK") {
            ServerResponseType::Accepted
        } else if str_eq(f, "HUH?") {
            ServerResponseType::Huh
        } else if str_eq(f, "DAMAGE") {
            ServerResponseType::Damage
        } else {
            ServerResponseType::Action
        }
    }
}

/// The player state the active strategy leaves behind.
pub open spec fn strategy_player_post(
    active: strategiesType,
    p: Player,
    last: playerOutput,
    counter: int,
    sc: ScanModel,
    fp: Player,
) -> bool {
    match active {
        strategiesType::find_corner => orient_player_post(p, last, counter, sc, fp),
        _ => fp == p,
    }
}

/// The command lines the active strategy emits.
pub open spec fn strategy_commands(
    active: strategiesType,
    p: Player,
    last: playerOutput,
    counter: int,
    sc: ScanModel,
) -> Seq<Seq<char>> {
    match active {
        strategiesType::find_corner => orient_commands(p, last, counter, sc),
        strategiesType::exlporer => if explorer_ends(p) {
            seq!["END"@]
        } else {
            Seq::empty()
        },
        _ => Seq::empty(),
    }
}

/// The last-action tag the active strategy leaves behind.
pub open spec fn strategy_last(
    active: strategiesType,
    p: Player,
    last: playerOutput,
    counter: int,
    sc: ScanModel,
) -> playerOutput {
    match active {
        strategiesType::find_corner => orient_last(p, last, counter, sc),
        strategiesType::exlporer => if explorer_ends(p) {
            playerOutput::END
        } else {
            last
        },
        _ => last,
    }
}

/// Run the strategy the controller names as active.
pub fn go_to_strategy(
    player: &mut Player,
    startegy_manager: &mut startegies,
    scan: &mut ScanResponse,
    action_manager: &mut action_manager,
)
    requires
        budget_ok(*old(player)),
        old(player).steps < u32::MAX,
        old(player).skip_actions_taken < u32::MAX,
        old(action_manager).round_action_counter < u32::MAX - 1,
    ensures
        *final(startegy_manager) == *old(startegy_manager),
        *final(scan) == *old(scan),
        ({
            let active = active_of(*old(startegy_manager));
            let p = *old(player);
            let last = old(action_manager).last_action;
            let counter = old(action_manager).round_action_counter as int;
            let sc = old(scan).model();
            &&& strategy_player_post(active, p, last, counter, sc, *final(player))
            &&& final(action_manager).last_action == strategy_last(active, p, last, counter, sc)
            &&& final(action_manager).round_action_counter == counter + strategy_commands(
                active,
                p,
                last,
                counter,
                sc,
            ).len()
            &&& final(action_manager).outbox.deep_view() == old(
                action_manager,
            ).outbox.deep_view() + strategy_commands(active, p, last, counter, sc)
        }),
{
    let ghost a0 = *old(action_manager);
    match startegy_manager.get_active_strategy() {
        strategiesType::find_corner => orient_to_near_corner(player, scan, action_manager),
        strategiesType::exlporer => explorer(player, scan, action_manager),
        strategiesType::traverse => traverse(player, scan, action_manager),
        _ => (),
    }
    proof {
        let active = active_of(*old(startegy_manager));
        if !(active is find_corner) {
            assert(action_manager.outbox.deep_view() =~= a0.outbox.deep_view()
                + strategy_commands(
                active,
                *old(player),
                a0.last_action,
                a0.round_action_counter as int,
                old(scan).model(),
            ));
        }
    }
}

/// The player state after the round-start reset to round `n`.
pub open spec fn round_start_player(p: Player, n: int) -> Player {
    Player {
        drive_actions_taken: 0,
        scan_actions_taken: 0,
        shot_actions_taken: 0,
        skip_actions_taken: 0,
        steps: 0,
        points_count: 0,
        round_number: n as u32,
        ..p
    }
}

/// The scan record after absorbing one flat payload.
pub open spec fn scan_after(sc: ScanModel, flat: Seq<char>) -> ScanModel {
    ScanModel {
        positions: sc.positions + Seq::new(flat.len(), |i: int| scan_cell(i, flat[i])),
        enemies: sc.enemies + enemy_indices(flat),
        walls: sc.walls + wall_indices(flat),
        enemy_detected: sc.enemy_detected || enemy_indices(flat).len() > 0,
        wall_detected: sc.wall_detected || wall_indices(flat).len() > 0,
    }
}

/// Handle one server line, already split into tokens: classify it,
/// update the player, scan and strategy state as the protocol asks,
/// and return the command lines to write together with whether the
/// session is over (the unit was eliminated, its health reached zero,
/// or the game finished).
pub fn process_message(
    player: &mut Player,
    startegy_manager: &mut startegies,
    scan: &mut ScanResponse,
    action_manager: &mut action_manager,
    line: String,
    args: Vec<String>,
) -> (r: (Vec<String>, bool))
    requires
        args.deep_view().len() >= 1,
        budget_ok(*old(player)),
        old(player).health > 0,
        old(player).steps < u32::MAX,
        old(player).skip_actions_taken < u32::MAX,
        old(action_manager).round_action_counter < u32::MAX - 1,
        classify(args.deep_view()[0]) is Move ==> args.deep_view().len() >= 3 && is_digit_string(
            args.deep_view()[2],
        ) && digits_val(args.deep_view()[2]) <= u32::MAX,
        (classify(args.deep_view()[0]) is Accepted && old(player).steps < 3 && old(
            action_manager,
        ).last_action is DRIVE) ==> args.deep_view().len() >= 3 && is_digit_string(
            args.deep_view()[2],
        ) && digits_val(args.deep_view()[2]) <= u32::MAX && old(player).points_count + digits_val(
            args.deep_view()[2],
        ) <= old(player).total_possible_points,
        (classify(args.deep_view()[0]) is Action || classify(args.deep_view()[0]) is Timeout)
            && old(action_manager).last_action is SCAN ==> flat_entries(args.deep_view()).len()
            < 0x8000_0000,
    ensures
        final(action_manager).outbox@.len() == 0,
        ({
            let toks = args.deep_view();
            let p = *old(player);
            let a0 = *old(action_manager);
            let sc0 = old(scan).model();
            let sm0 = *old(startegy_manager);
            match classify(toks[0]) {
                ServerResponseType::Move => {
                    let p1 = round_start_player(p, digits_val(toks[2]));
                    let sm1 = select_spec(sm0, evaluated_strategy(p1));
                    let active = active_of(sm1);
                    &&& r.1 == false
                    &&& *final(startegy_manager) == sm1
                    &&& *final(scan) == *old(scan)
                    &&& strategy_player_post(active, p1, a0.last_action, 0, sc0, *final(player))
                    &&& final(action_manager).last_action == strategy_last(
                        active,
                        p1,
                        a0.last_action,
                        0,
                        sc0,
                    )
                    &&& final(action_manager).round_action_counter == strategy_commands(
                        active,
                        p1,
                        a0.last_action,
                        0,
                        sc0,
                    ).len()
                    &&& r.0.deep_view() == a0.outbox.deep_view() + strategy_commands(
                        active,
                        p1,
                        a0.last_action,
                        0,
                        sc0,
                    )
                },
                ServerResponseType::Finish => {
                    &&& r.1 == true
                    &&& *final(player) == p
                    &&& *final(scan) == *old(scan)
                    &&& *final(startegy_manager) == sm0
                    &&& final(action_manager).last_action == a0.last_action
                    &&& final(action_manager).round_action_counter == a0.round_action_counter
                    &&& r.0.deep_view() == a0.outbox.deep_view()
                },
                ServerResponseType::Dead => {
                    &&& r.1 == true
                    &&& *final(player) == p
                    &&& *final(scan) == *old(scan)
                    &&& *final(startegy_manager) == sm0
                    &&& final(action_manager).last_action == a0.last_action
                    &&& final(action_manager).round_action_counter == a0.round_action_counter
                    &&& r.0.deep_view() == a0.outbox.deep_view()
                },
                ServerResponseType::Accepted => {
                    if p.steps < 3 {
                        let p1 = if a0.last_action is DRIVE {
                            Player {
                                points_count: (p.points_count + digits_val(toks[2])) as u32,
                                ..p
                            }
                        } else {
                            p
                        };
                        let sm1 = select_spec(sm0, evaluated_strategy(p1));
                        let active = active_of(sm1);
                        let counter = a0.round_action_counter as int;
                        &&& r.1 == false
                        &&& *final(startegy_manager) == sm1
                        &&& *final(scan) == *old(scan)
                        &&& strategy_player_post(
                            active,
                            p1,
                            a0.last_action,
                            counter,
                            sc0,
                            *final(player),
                        )
                        &&& final(action_manager).last_action == strategy_last(
                            active,
                            p1,
                            a0.last_action,
                            counter,
                            sc0,
                        )
                        &&& final(action_manager).round_action_counter == counter
                            + strategy_commands(active, p1, a0.last_action, counter, sc0).len()
                        &&& r.0.deep_view() == a0.outbox.deep_view() + strategy_commands(
                            active,
                            p1,
                            a0.last_action,
                            counter,
                            sc0,
                        )
                    } else {
                        &&& r.1 == false
                        &&& *final(player) == p
                        &&& *final(scan) == *old(scan)
                        &&& *final(startegy_manager) == sm0
                        &&& final(action_manager).last_action == a0.last_action
                        &&& final(action_manager).round_action_counter == a0.round_action_counter
                        &&& r.0.deep_view() == a0.outbox.deep_view()
                    }
                },
                ServerResponseType::Huh => {
                    &&& r.1 == false
                    &&& *final(player) == p
                    &&& *final(scan) == *old(scan)
                    &&& *final(startegy_manager) == sm0
                    &&& final(action_manager).last_action == playerOutput::END
                    &&& final(action_manager).round_action_counter == a0.round_action_counter + 1
                    &&& r.0.deep_view() == a0.outbox.deep_view().push("END"@)
                },
                ServerResponseType::Damage => {
                    &&& r.1 == (p.health == 1)
                    &&& *final(player) == (Player { health: (p.health - 1) as u8, ..p })
                    &&& *final(scan) == *old(scan)
                    &&& *final(startegy_manager) == sm0
                    &&& final(action_manager).last_action == a0.last_action
                    &&& final(action_manager).round_action_counter == a0.round_action_counter
                    &&& r.0.deep_view() == a0.outbox.deep_view()
                },
                _ => {
                    match a0.last_action {
                        playerOutput::SCAN => {
                            let sc1 = scan_after(sc0, flat_entries(toks));
                            let sm1 = select_spec(sm0, evaluated_strategy(p));
                            let active = active_of(sm1);
                            let counter = a0.round_action_counter as int;
                            &&& r.1 == false
                            &&& final(scan).model() == sc1
                            &&& *final(startegy_manager) == sm1
                            &&& strategy_player_post(
                                active,
                                p,
                                playerOutput::SCAN,
                                counter,
                                sc1,
                                *final(player),
                            )
                            &&& final(action_manager).last_action == strategy_last(
                                active,
                                p,
                                playerOutput::SCAN,
                                counter,
                                sc1,
                            )
                            &&& final(action_manager).round_action_counter == counter
                                + strategy_commands(
                                active,
                                p,
                                playerOutput::SCAN,
                                counter,
                                sc1,
                            ).len()
                            &&& r.0.deep_view() == a0.outbox.deep_view() + strategy_commands(
                                active,
                                p,
                                playerOutput::SCAN,
                                counter,
                                sc1,
                            )
                        },
                        playerOutput::TURN => {
                            &&& r.1 == false
                            &&& *final(player) == p
                            &&& *final(scan) == *old(scan)
                            &&& *final(startegy_manager) == sm0
                            &&& final(action_manager).last_action == a0.last_action
                            &&& final(action_manager).round_action_counter
                                == a0.round_action_counter
                            &&& r.0.deep_view() == a0.outbox.deep_view()
                        },
                        playerOutput::SKIP => {
                            &&& r.1 == false
                            &&& *final(player) == p
                            &&& *final(scan) == *old(scan)
                            &&& *final(startegy_manager) == sm0
                            &&& final(action_manager).last_action == a0.last_action
                            &&& final(action_manager).round_action_counter
                                == a0.round_action_counter
                            &&& r.0.deep_view() == a0.outbox.deep_view()
                        },
                        _ => {
                            &&& r.1 == false
                            &&& *final(player) == p
                            &&& *final(scan) == *old(scan)
                            &&& *final(startegy_manager) == sm0
                            &&& final(action_manager).last_action == a0.last_action
                            &&& final(action_manager).round_action_counter
                                == a0.round_action_counter
                            &&& r.0.deep_view() == a0.outbox.deep_view().push("END"@)
                        },
                    }
                },
            }
        }),
{
    let ghost toks = args.deep_view();
    let ghost a0 = *old(action_manager);

    let mut action = Actions_history::initialize();
    action.set_server_resp(line, args);
    let response_type = action.get_server_response_type();

    let mut done = false;

    match response_type {
        ServerResponseType::Move => {
            let args_v = action.get_arg_vector();
            let new_round_num = match parse_u32(args_v[2].as_str()) {
                Some(v) => v,
                None => {
                    proof {
                        assert(false);
                    }
                    0
                },
            };
            player.start_round(new_round_num);
            action_manager.reset_counter();
            startegy_manager.avaliate_startegy(player, action_manager);
            go_to_strategy(player, startegy_manager, scan, action_manager);
        },
        ServerResponseType::Finish => {
            done = true;
        },
        ServerResponseType::Dead => {
            done = true;
        },
        ServerResponseType::Accepted => {
            let max_steps_allowed: u32 = 3;
            if player.get_step_count() < max_steps_allowed {
                match action_manager.get_last_action() {
                    playerOutput::DRIVE => {
                        let args_v = action.get_arg_vector();
                        let points_expended = match parse_u32(args_v[2].as_str()) {
                            Some(v) => v,
                            None => {
                                proof {
                                    assert(false);
                                }
                                0
                            },
                        };
                        player.update_points_count(points_expended);
                    },
                    _ => (),
                }
                startegy_manager.avaliate_startegy(player, action_manager);
                go_to_strategy(player, startegy_manager, scan, action_manager);
            }
        },
        ServerResponseType::Huh => {
            action_manager.end();
        },
        ServerResponseType::Damage => {
            player.take_damage();
            if player.get_health() == 0 {
                done = true;
            }
        },
        _ => {
            match action_manager.get_last_action() {
                playerOutput::SCAN => {
                    let args_v = action.get_arg_vector();
                    scan.scan_entry(args_v);
                    startegy_manager.avaliate_startegy(player, action_manager);
                    go_to_strategy(player, startegy_manager, scan, action_manager);
                },
                playerOutput::TURN => (),
                playerOutput::SKIP => (),
                _ => {
                    let ghost before = action_manager.outbox.deep_view();
                    action_manager.outbox.push(String::from_str("END"));
                    proof {
                        assert(action_manager.outbox.deep_view() =~= before.push("END"@));
                    }
                },
            }
        },
    }

    let commands = action_manager.take_output();
    (commands, done)
}

} // verus!
