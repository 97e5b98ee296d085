//! The three-phase strategy state machine: find-corner, explorer and
//! traverse, exactly one of which is active, re-evaluated from the
//! player's state every decision cycle.

use vstd::prelude::*;

use crate::action_manager::action_manager;
use crate::player::{Player, PlayerState};

verus! {

/// The selectable strategies (plus the no-strategy marker).
#[allow(non_camel_case_types)]
pub enum strategiesType {
    find_corner,
    exlporer,
    traverse,
    none,
}

/// One activity flag per strategy; after initialization exactly one of
/// them is set.
#[allow(non_camel_case_types)]
pub struct startegies {
    pub find_corner_status: bool,
    pub explorer_status: bool,
    pub traverse_status: bool,
}

/// The flag assignment that selecting `strategy` leaves behind (the
/// no-strategy marker changes nothing).
pub open spec fn select_spec(s: startegies, strategy: strategiesType) -> startegies {
    match strategy {
        strategiesType::find_corner => startegies {
            find_corner_status: true,
            explorer_status: false,
            traverse_status: false,
        },
        strategiesType::exlporer => startegies {
            find_corner_status: false,
            explorer_status: true,
            traverse_status: false,
        },
        strategiesType::traverse => startegies {
            find_corner_status: false,
            explorer_status: false,
            traverse_status: true,
        },
        strategiesType::none => s,
    }
}

/// Which strategy the flag assignment names, traverse flag first.
pub open spec fn active_of(s: startegies) -> strategiesType {
    if s.traverse_status {
        strategiesType::traverse
    } else if s.explorer_status {
        strategiesType::exlporer
    } else if s.find_corner_status {
        strategiesType::find_corner
    } else {
        strategiesType::none
    }
}

/// The strategy a player's state calls for: find-corner until the
/// corner calibration is done, explorer during the remaining
/// exploration rounds, traverse afterwards.
pub open spec fn evaluated_strategy(p: Player) -> strategiesType {
    if !p.found_corner {
        strategiesType::find_corner
    } else if p.round_number < p.max_exploration_rounds {
        strategiesType::exlporer
    } else {
        strategiesType::traverse
    }
}

/// Exactly one of the three activity flags is set.
pub open spec fn exactly_one_active(s: startegies) -> bool {
    ||| (s.find_corner_status && !s.explorer_status && !s.traverse_status)
    ||| (!s.find_corner_status && s.explorer_status && !s.traverse_status)
    ||| (!s.find_corner_status && !s.explorer_status && s.traverse_status)
}

/// Law: re-evaluating the strategy from any player state leaves exactly
/// one strategy active, whatever the flags held before.
pub proof fn lemma_evaluation_leaves_one_active(s: startegies, p: Player)
    ensures
        exactly_one_active(select_spec(s, evaluated_strategy(p))),
{
}

#[allow(non_camel_case_types)]
pub trait strategy_controller: Sized {
    /// The controller state this record denotes.
    spec fn model(&self) -> startegies;

    fn initialize_initial_startegy() -> (s: Self)
        ensures
            s.model() == (startegies {
                find_corner_status: true,
                explorer_status: false,
                traverse_status: false,
            }),
    ;

    fn set_active_strategy(&mut self, strategy: strategiesType)
        ensures
            final(self).model() == select_spec(old(self).model(), strategy),
    ;

    fn get_active_strategy(&mut self) -> (r: strategiesType)
        ensures
            *final(self) == *old(self),
            r == active_of(old(self).model()),
    ;

    fn avaliate_startegy(&mut self, player: &mut Player, action_manager: &mut action_manager)
        ensures
            *final(player) == *old(player),
            *final(action_manager) == *old(action_manager),
            final(self).model() == select_spec(old(self).model(), evaluated_strategy(*old(player))),
    ;
}

impl strategy_controller for startegies {
    open spec fn model(&self) -> startegies {
        *self
    }

    fn initialize_initial_startegy() -> (s: Self) {
        return startegies {
            find_corner_status: true,
            explorer_status: false,
            traverse_status: false,
        };
    }

    fn set_active_strategy(&mut self, strategy: strategiesType) {
        match strategy {
            strategiesType::find_corner => {
                self.find_corner_status = true;
                self.explorer_status = false;
                self.traverse_status = false;
            },
            strategiesType::exlporer => {
                self.explorer_status = true;
                self.find_corner_status = false;
                self.traverse_status = false;
            },
            strategiesType::traverse => {
                self.traverse_status = true;
                self.explorer_status = false;
                self.find_corner_status = false;
            },
            _ => (),
        }
    }

    fn get_active_strategy(&mut self) -> (r: strategiesType) {
        if self.traverse_status {
            return strategiesType::traverse;
        } else if self.explorer_status {
            return strategiesType::exlporer;
        } else if self.find_corner_status {
            return strategiesType::find_corner;
        } else {
            return strategiesType::none;
        }
    }

    fn avaliate_startegy(&mut self, player: &mut Player, action_manager: &mut action_manager) {
        let round_num = player.get_rounds();
        let max_exploration_round = player.get_exploration_rounds();

        if !player.get_corner_status() {
            self.set_active_strategy(strategiesType::find_corner);
        } else if round_num < max_exploration_round {
            self.set_active_strategy(strategiesType::exlporer);
        } else {
            self.set_active_strategy(strategiesType::traverse);
        }
    }
}

} // verus!
