//! The spawner: a shared countdown timer, decremented by the elapsed time of
//! each tick, that fires one spawn batch whenever it runs out.

use vstd::prelude::*;
use crate::agent::Side;
use crate::geom::{Pos, pos_ok};
use crate::path::PathGraph;

verus! {

/// Seconds between spawn batches, in milliseconds.
pub const SPAWN_INTERVAL_MILLIS: i64 = 5_000;

/// Upper bound on the elapsed time of a single tick, in milliseconds.
pub const MAX_TICK_MILLIS: i64 = 60_000;

/// A lane origin: where creeps of a side enter the world, and the first
/// waypoint of the lane they walk.
#[derive(Clone, Copy, Debug)]
pub struct SpawnPoint {
    pub pos: Pos,
    pub side: Side,
    pub first_waypoint: usize,
}

impl SpawnPoint {
    pub open spec fn wf(self, g: PathGraph) -> bool {
        pos_ok(self.pos) && self.first_waypoint < g.spec_len()
    }
}

/// Advance the spawn timer by one tick of `elapsed_millis`: it fires exactly
/// when the decrement exhausts it, and then resets to the full interval —
/// any overshoot beyond zero is discarded, so firing never comes early to
/// make up for a long tick.
pub fn update_spawn_timer(timer: i64, elapsed_millis: i64) -> (r: (i64, bool))
    requires
        0 < timer <= SPAWN_INTERVAL_MILLIS,
        0 < elapsed_millis <= MAX_TICK_MILLIS,
    ensures
        r.1 <==> timer - elapsed_millis <= 0,
        r.0 == if r.1 {
            SPAWN_INTERVAL_MILLIS as int
        } else {
            timer - elapsed_millis
        },
        0 < r.0 <= SPAWN_INTERVAL_MILLIS,
{
    let remaining: i64 = timer - elapsed_millis;
    if remaining <= 0 {
        (SPAWN_INTERVAL_MILLIS, true)
    } else {
        (remaining, false)
    }
}

} // verus!
