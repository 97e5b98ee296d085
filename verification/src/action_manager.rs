//! Action emission: one call per protocol action, each of which updates
//! the player's counters, records the last action, bumps the round
//! action counter, and appends the command line to an outbox that the
//! surrounding I/O loop drains and writes.

use vstd::prelude::*;

use crate::player::{Player, PlayerState};

verus! {

/// The closed set of actions a unit can have emitted last.
#[allow(non_camel_case_types)]
#[derive(Debug, Clone, Copy)]
pub enum playerOutput {
    SCAN,
    TURN,
    END,
    SHOOT,
    SKIP,
    DRIVE,
    NONE,
}

/// Last emitted action, the count of actions emitted this round (turns
/// and ends included), and the command lines not yet written out.
#[allow(non_camel_case_types)]
pub struct action_manager {
    pub last_action: playerOutput,
    pub round_action_counter: u32,
    pub outbox: Vec<String>,
}

#[allow(non_camel_case_types)]
pub trait manage_player_action: Sized {
    /// The manager state this record denotes (the record itself; the
    /// contracts below are written against it).
    spec fn model(&self) -> action_manager;

    fn initialize() -> (m: Self)
        ensures
            m.model().last_action == playerOutput::NONE,
            m.model().round_action_counter == 0,
            m.model().outbox@ =~= Seq::<String>::empty(),
    ;

    fn get_last_action(&mut self) -> (r: playerOutput)
        ensures
            *final(self) == *old(self),
            r == old(self).model().last_action,
    ;

    fn get_action_counter(&mut self) -> (r: u32)
        ensures
            *final(self) == *old(self),
            r == old(self).model().round_action_counter,
    ;

    fn reset_counter(&mut self)
        ensures
            final(self).model() == (action_manager {
                round_action_counter: 0,
                ..old(self).model()
            }),
    ;

    fn shoot(&mut self, direction: &str, player: &mut Player)
        requires
            old(self).model().round_action_counter < u32::MAX,
            old(player).shot_actions_taken < u32::MAX,
            old(player).steps < u32::MAX,
        ensures
            *final(player) == (Player {
                shot_actions_taken: (old(player).shot_actions_taken + 1) as u32,
                steps: (old(player).steps + 1) as u32,
                ..*old(player)
            }),
            final(self).model().last_action == playerOutput::SHOOT,
            final(self).model().round_action_counter == old(self).model().round_action_counter
                + 1,
            final(self).model().outbox.deep_view() == old(self).model().outbox.deep_view().push(
                direction@,
            ),
    ;

    fn turn(&mut self, direction: &str, player: &mut Player)
        requires
            old(self).model().round_action_counter < u32::MAX,
        ensures
            *final(player) == (Player {
                facing_directon: final(player).facing_directon,
                ..*old(player)
            }),
            final(player).facing_directon@ == direction@,
            final(self).model().last_action == playerOutput::TURN,
            final(self).model().round_action_counter == old(self).model().round_action_counter
                + 1,
            final(self).model().outbox.deep_view() == old(self).model().outbox.deep_view().push(
                "TURN "@ + direction@ + " "@,
            ),
    ;

    fn drive(&mut self, player: &mut Player)
        requires
            old(self).model().round_action_counter < u32::MAX,
            old(player).drive_actions_taken < u32::MAX,
            old(player).steps < u32::MAX,
        ensures
            *final(player) == (Player {
                drive_actions_taken: (old(player).drive_actions_taken + 1) as u32,
                steps: (old(player).steps + 1) as u32,
                ..*old(player)
            }),
            final(self).model().last_action == playerOutput::DRIVE,
            final(self).model().round_action_counter == old(self).model().round_action_counter
                + 1,
            final(self).model().outbox.deep_view() == old(self).model().outbox.deep_view().push(
                "DRIVE"@,
            ),
    ;

    fn scan(&mut self, player: &mut Player)
        requires
            old(self).model().round_action_counter < u32::MAX,
            old(player).scan_actions_taken < u32::MAX,
            old(player).steps < u32::MAX,
        ensures
            *final(player) == (Player {
                scan_actions_taken: (old(player).scan_actions_taken + 1) as u32,
                steps: (old(player).steps + 1) as u32,
                ..*old(player)
            }),
            final(self).model().last_action == playerOutput::SCAN,
            final(self).model().round_action_counter == old(self).model().round_action_counter
                + 1,
            final(self).model().outbox.deep_view() == old(self).model().outbox.deep_view().push(
                "SCAN"@,
            ),
    ;

    fn skip(&mut self, player: &mut Player)
        requires
            old(self).model().round_action_counter < u32::MAX,
            old(player).skip_actions_taken < u32::MAX,
            old(player).steps < u32::MAX,
        ensures
            *final(player) == (Player {
                skip_actions_taken: (old(player).skip_actions_taken + 1) as u32,
                steps: (old(player).steps + 1) as u32,
                ..*old(player)
            }),
            final(self).model().last_action == playerOutput::SKIP,
            final(self).model().round_action_counter == old(self).model().round_action_counter
                + 1,
            final(self).model().outbox.deep_view() == old(self).model().outbox.deep_view().push(
                "SKIP"@,
            ),
    ;

    fn end(&mut self)
        requires
            old(self).model().round_action_counter < u32::MAX,
        ensures
            final(self).model().last_action == playerOutput::END,
            final(self).model().round_action_counter == old(self).model().round_action_counter
                + 1,
            final(self).model().outbox.deep_view() == old(self).model().outbox.deep_view().push(
                "END"@,
            ),
    ;

    fn take_output(&mut self) -> (out: Vec<String>)
        ensures
            final(self).model() == (action_manager {
                outbox: final(self).model().outbox,
                ..old(self).model()
            }),
            final(self).model().outbox.deep_view() =~= Seq::<Seq<char>>::empty(),
            out.deep_view() == old(self).model().outbox.deep_view(),
    ;
}

impl manage_player_action for action_manager {
    open spec fn model(&self) -> action_manager {
        *self
    }

    fn initialize() -> (m: Self) {
        action_manager {
            last_action: playerOutput::NONE,
            round_action_counter: 0,
            outbox: Vec::new(),
        }
    }

    fn get_last_action(&mut self) -> (r: playerOutput) {
        return self.last_action;
    }

    fn get_action_counter(&mut self) -> (r: u32) {
        return self.round_action_counter;
    }

    fn reset_counter(&mut self) {
        self.round_action_counter = 0;
    }

    fn shoot(&mut self, direction: &str, player: &mut Player) {
        player.add_shoot_action();
        player.add_step();
        let ghost before = self.outbox.deep_view();
        self.outbox.push(direction.to_owned());
        proof {
            assert(self.outbox.deep_view() =~= before.push(direction@));
        }
        self.last_action = playerOutput::SHOOT;
        self.round_action_counter = self.round_action_counter + 1;
    }

    fn turn(&mut self, direction: &str, player: &mut Player) {
        let mut command = String::from_str("TURN ");
        command.append(direction);
        command.append(" ");
        let ghost before = self.outbox.deep_view();
        let ghost cv = command@;
        self.outbox.push(command);
        proof {
            assert(self.outbox.deep_view() =~= before.push(cv));
        }
        player.update_facing_direction(direction);
        self.last_action = playerOutput::TURN;
        self.round_action_counter = self.round_action_counter + 1;
    }

    fn drive(&mut self, player: &mut Player) {
        player.add_drive_action();
        player.add_step();
        let ghost before = self.outbox.deep_view();
        self.outbox.push(String::from_str("DRIVE"));
        proof {
            assert(self.outbox.deep_view() =~= before.push("DRIVE"@));
        }
        self.last_action = playerOutput::DRIVE;
        self.round_action_counter = self.round_action_counter + 1;
    }

    fn scan(&mut self, player: &mut Player) {
        player.add_scan_action();
        player.add_step();
        let ghost before = self.outbox.deep_view();
        self.outbox.push(String::from_str("SCAN"));
        proof {
            assert(self.outbox.deep_view() =~= before.push("SCAN"@));
        }
        self.last_action = playerOutput::SCAN;
        self.round_action_counter = self.round_action_counter + 1;
    }

    fn skip(&mut self, player: &mut Player) {
        player.add_skip_action();
        player.add_step();
        let ghost before = self.outbox.deep_view();
        self.outbox.push(String::from_str("SKIP"));
        proof {
            assert(self.outbox.deep_view() =~= before.push("SKIP"@));
        }
        self.last_action = playerOutput::SKIP;
        self.round_action_counter = self.round_action_counter + 1;
    }

    fn end(&mut self) {
        let ghost before = self.outbox.deep_view();
        self.outbox.push(String::from_str("END"));
        proof {
            assert(self.outbox.deep_view() =~= before.push("END"@));
        }
        self.last_action = playerOutput::END;
        self.round_action_counter = self.round_action_counter + 1;
    }

    fn take_output(&mut self) -> (out: Vec<String>) {
        let mut out: Vec<String> = Vec::new();
        core::mem::swap(&mut out, &mut self.outbox);
        proof {
            assert(self.outbox.deep_view() =~= Seq::<Seq<char>>::empty());
        }
        out
    }
}

} // verus!
