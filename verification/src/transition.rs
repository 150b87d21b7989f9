//! State transitions, split into two phases: a request pass that only reads
//! the world and records a requested next state, and a commit pass that
//! performs the exit and enter effects and commits the new state. The split
//! keeps the request logic free of cross-agent mutation.

use vstd::prelude::*;
use crate::agent::{AnimTag, Creep, CreepState, ATTACK_RADIUS_MILLI, PURSUIT_RADIUS_MILLI};
use crate::geom::{Pos, Vec2i, pos_ok, spec_xy, xy, pos_dist2, planar_dist2};
use crate::path::PathGraph;
use crate::selector::{Candidate, SelectedTarget, select_target, is_selection};

verus! {

/// Request pass for a creep in `Move` state: run the target selector over
/// the hostile tiers; on a hit, request `Pursuit` and hand back the selected
/// engagement target for the commit pass. Only `next_state` is written.
pub fn move_state_request(c: &mut Creep, heroes: &Vec<Candidate>, creeps: &Vec<Candidate>,
    bases: &Vec<Candidate>) -> (engagement: Option<SelectedTarget>)
    requires
        pos_ok(old(c).pos),
        old(c).state is Move,
        old(c).next_state is Move,
        forall|j: int| 0 <= j < heroes.len() ==> pos_ok((#[trigger] heroes[j]).pos),
        forall|j: int| 0 <= j < creeps.len() ==> pos_ok((#[trigger] creeps[j]).pos),
        forall|j: int| 0 <= j < bases.len() ==> pos_ok((#[trigger] bases[j]).pos),
    ensures
        *final(c) == (Creep {
            next_state: final(c).next_state,
            ..*old(c)
        }),
        final(c).next_state == (if engagement is Some {
            CreepState::Pursuit
        } else {
            CreepState::Move
        }),
        // the verdict is exactly the selector's
        is_selection(old(c).side.spec_team(), old(c).pos, heroes@, creeps@, bases@, engagement),
{
    let team = c.side.team();
    let found = select_target(team, c.pos, heroes, creeps, bases);
    if found.is_some() {
        c.next_state = CreepState::Pursuit;
    }
    found
}

/// What a pursuing creep at `from` requests, given its engagement target's
/// live position: `Attack` strictly inside the attack radius, `Move`
/// strictly beyond the pursuit radius, and otherwise `Pursuit` — a distance
/// exactly at either radius triggers neither transition.
pub open spec fn pursuit_verdict(from: Pos, target: Pos) -> CreepState {
    if pos_dist2(from, target) < ATTACK_RADIUS_MILLI * ATTACK_RADIUS_MILLI {
        CreepState::Attack
    } else if pos_dist2(from, target) > PURSUIT_RADIUS_MILLI * PURSUIT_RADIUS_MILLI {
        CreepState::Move
    } else {
        CreepState::Pursuit
    }
}

/// Request pass for a creep in `Pursuit` state, given the engagement
/// target's live position: record the `pursuit_verdict` as the requested
/// next state. Only `next_state` is written. A unit whose animation tag is
/// `Attack` is locked — the same cross-state guard every pass honors — and
/// requests nothing.
pub fn pursuit_state_request(c: &mut Creep, target_pos: Pos)
    requires
        pos_ok(old(c).pos),
        pos_ok(target_pos),
        old(c).state is Pursuit,
        old(c).next_state is Pursuit,
    ensures
        old(c).anim is Attack ==> *final(c) == *old(c),
        !(old(c).anim is Attack) ==> *final(c) == (Creep {
            next_state: pursuit_verdict(old(c).pos, target_pos),
            ..*old(c)
        }),
{
    if c.anim == AnimTag::Attack {
        return ;
    }
    let d2 = planar_dist2(xy(c.pos), xy(target_pos));
    if d2 < ATTACK_RADIUS_MILLI * ATTACK_RADIUS_MILLI {
        c.next_state = CreepState::Attack;
    } else if d2 > PURSUIT_RADIUS_MILLI * PURSUIT_RADIUS_MILLI {
        c.next_state = CreepState::Move;
    }
}

/// How the commit pass rewrites one creep: nothing when no transition is
/// pending; otherwise the exit effect removes the current state's reference,
/// the enter effect installs the next state's (a fresh movement target from
/// the current waypoint, the selected engagement on entering `Pursuit`, the
/// engagement it pursued on entering `Attack`), and the new state is
/// committed.
pub open spec fn committed_creep(pre: Creep, engagement: Option<SelectedTarget>, g: PathGraph,
) -> Creep {
    if pre.state == pre.next_state {
        pre
    } else {
        Creep {
            state: pre.next_state,
            move_target: if pre.next_state is Move {
                Some(spec_xy(g.waypoints[pre.waypoint as int].pos))
            } else {
                None
            },
            pursuit_target: if pre.next_state is Pursuit {
                Some(engagement->Some_0.id)
            } else {
                None
            },
            attack_target: if pre.next_state is Attack {
                pre.pursuit_target
            } else {
                None
            },
            ..pre
        }
    }
}

/// Commit pass for one creep: when the requested state differs from the
/// current one, run the exit effect (remove the current state's reference),
/// then the enter effect (install the next state's reference), then commit.
/// `engagement` is the id the request pass selected, consumed on entering
/// `Pursuit`; entering `Attack` keeps the engagement target it pursued.
pub fn commit_transition(c: &mut Creep, engagement: Option<SelectedTarget>, g: &PathGraph)
    requires
        old(c).wf(*g),
        g.wf(),
        old(c).next_state is Pursuit && !(old(c).state is Pursuit) ==> engagement is Some,
        old(c).next_state is Attack && !(old(c).state is Attack) ==> old(c).state is Pursuit,
    ensures
        final(c).wf(*g),
        final(c).state == old(c).next_state,
        final(c).next_state == old(c).next_state,
        *final(c) == committed_creep(*old(c), engagement, *g),
{
    if c.state == c.next_state {
        return ;
    }
    // engagement target entering Attack: the one it was pursuing
    let carried = c.pursuit_target;
    // exit effect of the state being left
    match c.state {
        CreepState::Move => {
            c.move_target = None;
        },
        CreepState::Pursuit => {
            c.pursuit_target = None;
        },
        CreepState::Attack => {
            c.attack_target = None;
        },
    }
    // enter effect of the state being entered
    match c.next_state {
        CreepState::Move => {
            let target = g.waypoint_pos(c.waypoint);
            c.move_target = Some(Vec2i { x: target.x, y: target.y });
        },
        CreepState::Pursuit => {
            match engagement {
                Some(t) => {
                    c.pursuit_target = Some(t.id);
                },
                None => {
                    // unreachable: a Pursuit request always carries a target
                },
            }
        },
        CreepState::Attack => {
            c.attack_target = carried;
        },
    }
    c.state = c.next_state;
}

} // verus!
