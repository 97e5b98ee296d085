//! Sightings of enemy units: where and when a unit of another team was
//! last seen.

use vstd::prelude::*;

verus! {

/// The six team colours.
pub enum TeamColor {
    R,
    O,
    Y,
    G,
    B,
    V,
}

/// One enemy sighting: last seen position, team, and the round of the
/// sighting.
pub struct EnemiesPos {
    pub lastseen_x_pos: i32,
    pub lastseen_y_pos: i32,
    pub lastseen_z_pos: i32,
    pub team: TeamColor,
    pub seen_at_round: u32,
}

impl EnemiesPos {
    /// Record a sighting at the given relative position.
    pub fn new(
        relative_x: i32,
        relative_y: i32,
        relative_z: i32,
        team: TeamColor,
        seen_at_round: u32,
    ) -> (e: Self)
        ensures
            e.lastseen_x_pos == relative_x,
            e.lastseen_y_pos == relative_y,
            e.lastseen_z_pos == relative_z,
            e.team == team,
            e.seen_at_round == seen_at_round,
    {
        EnemiesPos {
            lastseen_x_pos: relative_x,
            lastseen_y_pos: relative_y,
            lastseen_z_pos: relative_z,
            team,
            seen_at_round,
        }
    }
}

} // verus!
