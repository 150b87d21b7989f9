//! Creeps and the data their state machine works on: team sides, the state
//! and animation tags, and the per-creep invariant that exactly one
//! state-defining reference is present at a time.

use vstd::prelude::*;
use crate::geom::{Pos, Vec2i, pos_ok, offset_ok, spec_xy};
use crate::path::PathGraph;

verus! {

/// Radius within which the selector considers hostile candidates and beyond
/// which a pursuing creep falls back to its path, in milli-units (10 units).
pub const PURSUIT_RADIUS_MILLI: i64 = 10_000;

/// Radius below which a pursuing creep switches to attacking, in milli-units
/// (5 units).
pub const ATTACK_RADIUS_MILLI: i64 = 5_000;

/// Distance below which a creep counts as having arrived at its movement
/// target, in milli-units (1 unit).
pub const ARRIVAL_RADIUS_MILLI: i64 = 1_000;

/// The two opposing sides.
#[derive(Clone, Copy, Debug, PartialEq, Eq, Structural)]
pub enum Side {
    Mars,
    Jupyter,
}

impl Side {
    /// The numeric team identifier of this side; hostility between teams is
    /// decided by parity.
    pub open spec fn spec_team(self) -> u32 {
        match self {
            Side::Mars => 0,
            Side::Jupyter => 1,
        }
    }

    pub fn team(self) -> (t: u32)
        ensures
            t == self.spec_team(),
    {
        match self {
            Side::Mars => 0,
            Side::Jupyter => 1,
        }
    }
}

/// The states of the creep state machine. A freshly spawned creep starts in
/// `Move`; combat resolution inside `Attack` is outside this engine, so no
/// transition leaves that state yet.
#[derive(Clone, Copy, Debug, PartialEq, Eq, Structural)]
pub enum CreepState {
    Move,
    Pursuit,
    Attack,
}

/// The animation tag carried by a creep's visual model; a closed enumeration
/// in place of the numeric vectors a renderer consumes.
#[derive(Clone, Copy, Debug, PartialEq, Eq, Structural)]
pub enum AnimTag {
    Idle,
    Walk,
    Pursuit,
    Attack,
}

/// The heading a creep spawns with: facing along the positive x axis.
pub open spec fn initial_heading() -> Vec2i {
    Vec2i { x: 1000, y: 0 }
}

/// One combat unit.
///
/// `waypoint` is the unit's path progress (the handle of its current
/// waypoint) and is always meaningful; the three optional fields are the
/// state-defining references, of which exactly one is present: a movement
/// target in `Move`, an engagement target in `Pursuit` or `Attack`.
#[derive(Clone, Copy, Debug)]
pub struct Creep {
    pub id: u64,
    pub side: Side,
    pub pos: Pos,
    /// Planar direction the unit faces, as the last steering offset.
    pub heading: Vec2i,
    pub state: CreepState,
    /// The state requested for the next commit pass; equal to `state`
    /// outside the window between the request and the commit pass.
    pub next_state: CreepState,
    pub waypoint: usize,
    pub move_target: Option<Vec2i>,
    pub pursuit_target: Option<u64>,
    pub attack_target: Option<u64>,
    pub anim: AnimTag,
}

impl Creep {
    /// Well-formedness against the path graph: position and heading in
    /// bounds, path progress valid, and the state-defining references
    /// matching the current state — present exactly for it, with the
    /// movement target equal to the current waypoint's planar position.
    pub open spec fn wf(self, g: PathGraph) -> bool {
        &&& pos_ok(self.pos)
        &&& offset_ok(self.heading)
        &&& self.waypoint < g.spec_len()
        &&& (self.state is Move <==> self.move_target is Some)
        &&& (self.state is Pursuit <==> self.pursuit_target is Some)
        &&& (self.state is Attack <==> self.attack_target is Some)
        &&& (self.move_target matches Some(t) ==> t == spec_xy(
            g.waypoints[self.waypoint as int].pos,
        ))
    }

    /// The creep `create` builds.
    pub open spec fn spec_created(id: u64, side: Side, pos: Pos, first_waypoint: usize,
        g: PathGraph) -> Creep {
        Creep {
            id,
            side,
            pos,
            heading: initial_heading(),
            state: CreepState::Move,
            next_state: CreepState::Move,
            waypoint: first_waypoint,
            move_target: Some(spec_xy(g.waypoints[first_waypoint as int].pos)),
            pursuit_target: None,
            attack_target: None,
            anim: AnimTag::Idle,
        }
    }

    /// Create a creep at a spawn position, assigned to a side and to the
    /// first waypoint of a lane: in `Move` state, idle, with its movement
    /// target on that waypoint.
    pub fn create(id: u64, side: Side, pos: Pos, first_waypoint: usize, g: &PathGraph) -> (c:
        Creep)
        requires
            g.wf(),
            pos_ok(pos),
            first_waypoint < g.spec_len(),
        ensures
            c == Creep::spec_created(id, side, pos, first_waypoint, *g),
            c.wf(*g),
            c.id == id,
            c.side == side,
            c.pos == pos,
            c.heading == initial_heading(),
            c.state is Move,
            c.next_state is Move,
            c.waypoint == first_waypoint,
            c.move_target == Some(spec_xy(g.waypoints[first_waypoint as int].pos)),
            c.pursuit_target is None,
            c.attack_target is None,
            c.anim is Idle,
    {
        let target = g.waypoint_pos(first_waypoint);
        Creep {
            id,
            side,
            pos,
            heading: Vec2i { x: 1000, y: 0 },
            state: CreepState::Move,
            next_state: CreepState::Move,
            waypoint: first_waypoint,
            move_target: Some(Vec2i { x: target.x, y: target.y }),
            pursuit_target: None,
            attack_target: None,
            anim: AnimTag::Idle,
        }
    }
}

/// At any time, exactly one of the movement-target, pursuit-target and
/// attack-target references is present on a well-formed creep, and it is the
/// one belonging to the creep's current state.
pub proof fn lemma_single_state_reference(c: Creep, g: PathGraph)
    requires
        c.wf(g),
    ensures
        c.move_target is Some || c.pursuit_target is Some || c.attack_target is Some,
        c.move_target is Some ==> c.pursuit_target is None && c.attack_target is None
            && c.state is Move,
        c.pursuit_target is Some ==> c.move_target is None && c.attack_target is None
            && c.state is Pursuit,
        c.attack_target is Some ==> c.move_target is None && c.pursuit_target is None
            && c.state is Attack,
{
}

} // verus!
