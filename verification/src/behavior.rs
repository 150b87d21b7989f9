//! Per-state tick behavior and the movement driver: arrival handling and
//! waypoint advancing for `Move`, live-target steering for `Pursuit`, the
//! `Attack` placeholder, and the application of a displacement together with
//! the reaction to a collision report.

use vstd::prelude::*;
use crate::agent::{AnimTag, Creep, ARRIVAL_RADIUS_MILLI};
use crate::geom::{
    Pos, Vec2i, coord_ok, pos_ok, spec_xy, xy, spec_offset, len2, steer_step_x, steer_step_y,
    component_between, planar_offset, offset_len2, steer, GROUND_BIAS_MILLI,
};
use crate::path::PathGraph;

verus! {

/// What the movement driver asks the external character mover to do in one
/// tick: a planar displacement and a constant downward push that keeps the
/// grounded controller on the ground plane.
#[derive(Clone, Copy, Debug, PartialEq, Eq, Structural)]
pub struct StepCommand {
    pub dx: i64,
    pub dy: i64,
    pub drop: i64,
}

/// The command an arrived unit issues: no planar movement, grounding push
/// only.
pub open spec fn hold_command() -> StepCommand {
    StepCommand { dx: 0, dy: 0, drop: GROUND_BIAS_MILLI }
}

/// The planar offset from a `Move`-state creep to its movement target.
pub open spec fn move_offset(c: Creep) -> Vec2i {
    spec_offset(spec_xy(c.pos), c.move_target->Some_0)
}

/// Whether a `Move`-state creep stands within the arrival threshold of its
/// movement target.
pub open spec fn move_arrived(c: Creep) -> bool {
    len2(move_offset(c)) < ARRIVAL_RADIUS_MILLI * ARRIVAL_RADIUS_MILLI
}

/// A position displaced by one steering step along `diff`; z stays on the
/// ground plane.
pub open spec fn stepped(p: Pos, diff: Vec2i) -> Pos {
    Pos {
        x: (p.x + steer_step_x(diff)) as i64,
        y: (p.y + steer_step_y(diff)) as i64,
        z: p.z,
    }
}

/// How one whole tick (behavior pass plus an unobstructed application of its
/// step command) changes a `Move`-state creep.
pub open spec fn move_tick_rel(pre: Creep, post: Creep, g: PathGraph) -> bool {
    if pre.anim is Attack {
        post == pre
    } else if move_arrived(pre) {
        if pre.anim is Idle {
            post == pre
        } else {
            post == (Creep {
                waypoint: g.advance_of(pre.waypoint as int) as usize,
                move_target: Some(spec_xy(g.waypoints[g.advance_of(pre.waypoint as int)].pos)),
                anim: AnimTag::Idle,
                ..pre
            })
        }
    } else {
        post == (Creep {
            pos: stepped(pre.pos, move_offset(pre)),
            heading: move_offset(pre),
            anim: AnimTag::Walk,
            ..pre
        })
    }
}

/// How one whole tick (behavior pass plus an unobstructed application of its
/// step command) changes a `Pursuit`-state creep whose engagement target
/// stands at `target`.
pub open spec fn pursuit_tick_rel(pre: Creep, post: Creep, target: Pos) -> bool {
    if pre.anim is Attack {
        post == pre
    } else {
        let diff = spec_offset(spec_xy(pre.pos), spec_xy(target));
        post == (Creep { pos: stepped(pre.pos, diff), heading: diff, anim: AnimTag::Pursuit, ..pre
        })
    }
}

/// `Move`-state behavior for one tick.
///
/// A unit whose animation tag is `Attack` is locked and does nothing. An
/// arrived unit asks the mover only for the grounding push, and on the first
/// arrival tick (tag not yet idle) advances to its waypoint's successor (or
/// stays on a terminal waypoint), retargets, and goes idle — so once idle at
/// a terminal waypoint it is a fixed point. Otherwise the unit turns toward
/// the target, switches to the walk tag, and asks the mover for one
/// bounded-speed step.
pub fn move_state_tick(c: &mut Creep, g: &PathGraph) -> (cmd: Option<StepCommand>)
    requires
        old(c).wf(*g),
        g.wf(),
        old(c).state is Move,
    ensures
        final(c).wf(*g),
        old(c).anim is Attack ==> *final(c) == *old(c) && cmd is None,
        // arrival while already idle: a fixed point
        !(old(c).anim is Attack) && move_arrived(*old(c)) && old(c).anim is Idle ==> *final(c)
            == *old(c) && cmd == Some(hold_command()),
        // first arrival tick: advance, retarget, go idle, skip steering
        !(old(c).anim is Attack) && move_arrived(*old(c)) && !(old(c).anim is Idle)
            ==> *final(c) == (Creep {
            waypoint: g.advance_of(old(c).waypoint as int) as usize,
            move_target: Some(
                spec_xy(g.waypoints[g.advance_of(old(c).waypoint as int)].pos),
            ),
            anim: AnimTag::Idle,
            ..*old(c)
        }) && cmd == Some(hold_command()),
        // steering tick: face the target, walk, one bounded step
        !(old(c).anim is Attack) && !move_arrived(*old(c)) ==> *final(c) == (Creep {
            heading: move_offset(*old(c)),
            anim: AnimTag::Walk,
            ..*old(c)
        }) && (cmd matches Some(s) && s.dx == steer_step_x(move_offset(*old(c))) && s.dy
            == steer_step_y(move_offset(*old(c))) && s.drop == GROUND_BIAS_MILLI
            && component_between(s.dx as int, move_offset(*old(c)).x as int)
            && component_between(s.dy as int, move_offset(*old(c)).y as int)),
{
    if c.anim == AnimTag::Attack {
        return None;
    }
    let target = c.move_target.unwrap();
    proof {
        assert(pos_ok(g.waypoints[c.waypoint as int].pos));
    }
    let diff = planar_offset(xy(c.pos), target);
    let d2 = offset_len2(diff);
    if d2 < ARRIVAL_RADIUS_MILLI * ARRIVAL_RADIUS_MILLI {
        if c.anim != AnimTag::Idle {
            let next_wp = g.advance(c.waypoint);
            c.waypoint = next_wp;
            let wp_pos = g.waypoint_pos(next_wp);
            proof {
                assert(pos_ok(g.waypoints[next_wp as int].pos));
            }
            c.move_target = Some(Vec2i { x: wp_pos.x, y: wp_pos.y });
            c.anim = AnimTag::Idle;
        }
        Some(StepCommand { dx: 0, dy: 0, drop: GROUND_BIAS_MILLI })
    } else {
        c.heading = diff;
        c.anim = AnimTag::Walk;
        let s = steer(diff);
        Some(StepCommand { dx: s.x, dy: s.y, drop: GROUND_BIAS_MILLI })
    }
}

/// `Pursuit`-state behavior for one tick, given the engagement target's live
/// position: the same steering math as `Move`, toward a moving point, under
/// the pursuit animation tag. The attack- and pursuit-radius checks belong
/// to the request pass that ran earlier in the same tick, so this pass only
/// steers. A unit whose animation tag is `Attack` is locked and does
/// nothing.
pub fn pursuit_state_tick(c: &mut Creep, target_pos: Pos) -> (cmd: Option<StepCommand>)
    requires
        pos_ok(old(c).pos),
        pos_ok(target_pos),
        old(c).state is Pursuit,
    ensures
        old(c).anim is Attack ==> *final(c) == *old(c) && cmd is None,
        !(old(c).anim is Attack) ==> *final(c) == (Creep {
            heading: spec_offset(spec_xy(old(c).pos), spec_xy(target_pos)),
            anim: AnimTag::Pursuit,
            ..*old(c)
        }) && (cmd matches Some(s) && s.dx == steer_step_x(
            spec_offset(spec_xy(old(c).pos), spec_xy(target_pos)),
        ) && s.dy == steer_step_y(spec_offset(spec_xy(old(c).pos), spec_xy(target_pos)))
            && s.drop == GROUND_BIAS_MILLI && component_between(
            s.dx as int,
            spec_offset(spec_xy(old(c).pos), spec_xy(target_pos)).x as int,
        ) && component_between(
            s.dy as int,
            spec_offset(spec_xy(old(c).pos), spec_xy(target_pos)).y as int,
        )),
{
    if c.anim == AnimTag::Attack {
        return None;
    }
    let diff = planar_offset(xy(c.pos), xy(target_pos));
    c.heading = diff;
    c.anim = AnimTag::Pursuit;
    let s = steer(diff);
    Some(StepCommand { dx: s.x, dy: s.y, drop: GROUND_BIAS_MILLI })
}

/// `Attack`-state behavior for one tick: combat resolution is outside this
/// engine, so the pass only reads the engagement target it would act on.
pub fn attack_state_tick(c: &Creep) -> (target: Option<u64>)
    requires
        c.state is Attack,
    ensures
        target == c.attack_target,
{
    c.attack_target
}

/// Apply a step the external mover performed: displace the position by the
/// command's planar components (the grounding push holds z on the ground
/// plane), and on a lateral collision force the animation tag back to idle —
/// the movement target is deliberately left alone, so path progress is kept.
pub fn apply_step(c: &mut Creep, cmd: &StepCommand, blocked_laterally: bool)
    requires
        coord_ok(old(c).pos.x + cmd.dx),
        coord_ok(old(c).pos.y + cmd.dy),
    ensures
        *final(c) == (Creep {
            pos: Pos {
                x: (old(c).pos.x + cmd.dx) as i64,
                y: (old(c).pos.y + cmd.dy) as i64,
                z: old(c).pos.z,
            },
            anim: if blocked_laterally {
                AnimTag::Idle
            } else {
                old(c).anim
            },
            ..*old(c)
        }),
{
    c.pos = Pos { x: c.pos.x + cmd.dx, y: c.pos.y + cmd.dy, z: c.pos.z };
    if blocked_laterally {
        c.anim = AnimTag::Idle;
    }
}

} // verus!
