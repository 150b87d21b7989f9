use creep_sim::agent::{AnimTag, Creep, CreepState, Side};
use creep_sim::behavior::{apply_step, move_state_tick, pursuit_state_tick, StepCommand};
use creep_sim::geom::{isqrt, steer, Pos, Vec2i};
use creep_sim::path::PathGraph;

fn at(x: i64, y: i64) -> Pos {
    Pos { x, y, z: 1000 }
}

#[test]
fn isqrt_exact_values() {
    assert_eq!(isqrt(0), 0);
    assert_eq!(isqrt(1), 1);
    assert_eq!(isqrt(2), 1);
    assert_eq!(isqrt(99), 9);
    assert_eq!(isqrt(100), 10);
    assert_eq!(isqrt(25_000_000), 5000);
    assert_eq!(isqrt(i64::MAX), 3_037_000_499);
}

#[test]
fn steer_scales_to_speed() {
    // |(3000, 4000)| = 5000, so one step of 50 is (30, 40)
    let s = steer(Vec2i { x: 3000, y: 4000 });
    assert_eq!(s, Vec2i { x: 30, y: 40 });
    let s = steer(Vec2i { x: -3000, y: 4000 });
    assert_eq!(s, Vec2i { x: -30, y: 40 });
}

#[test]
fn steer_takes_the_whole_offset_within_one_step() {
    // |(30, 40)| = 50 = one step: move all the way
    let s = steer(Vec2i { x: 30, y: 40 });
    assert_eq!(s, Vec2i { x: 30, y: 40 });
    let s = steer(Vec2i { x: 0, y: 0 });
    assert_eq!(s, Vec2i { x: 0, y: 0 });
}

fn two_waypoint_graph() -> PathGraph {
    let mut g = PathGraph::new();
    let points = vec![at(13000, 13000), at(-13000, -13000)];
    g.add_lane(&points);
    g
}

#[test]
fn walking_creep_steers_toward_its_waypoint() {
    let g = two_waypoint_graph();
    // mid-path, 5 units east of its target
    let mut c = Creep {
        pos: at(-8000, -13000),
        anim: AnimTag::Walk,
        ..Creep::create(1, Side::Mars, at(-8000, -13000), 1, &g)
    };
    let cmd = move_state_tick(&mut c, &g).unwrap();
    assert_eq!(cmd, StepCommand { dx: -50, dy: 0, drop: 100 });
    assert_eq!(c.anim, AnimTag::Walk);
    assert_eq!(c.heading, Vec2i { x: -5000, y: 0 });
    assert_eq!(c.waypoint, 1);
}

#[test]
fn first_arrival_advances_and_goes_idle() {
    let g = two_waypoint_graph();
    // walking, within the arrival threshold of waypoint 0
    let mut c = Creep {
        pos: at(12500, 13000),
        anim: AnimTag::Walk,
        ..Creep::create(1, Side::Mars, at(12500, 13000), 0, &g)
    };
    let cmd = move_state_tick(&mut c, &g).unwrap();
    assert_eq!(cmd, StepCommand { dx: 0, dy: 0, drop: 100 });
    assert_eq!(c.anim, AnimTag::Idle);
    assert_eq!(c.waypoint, 1);
    assert_eq!(c.move_target, Some(Vec2i { x: -13000, y: -13000 }));
}

#[test]
fn arrival_at_lane_end_is_a_fixed_point() {
    let g = two_waypoint_graph();
    // idle on the terminal waypoint
    let mut c = Creep {
        pos: at(-12800, -13000),
        ..Creep::create(1, Side::Mars, at(-12800, -13000), 1, &g)
    };
    assert_eq!(c.anim, AnimTag::Idle);
    let before = c;
    for _ in 0..5 {
        let cmd = move_state_tick(&mut c, &g).unwrap();
        assert_eq!(cmd, StepCommand { dx: 0, dy: 0, drop: 100 });
        apply_step(&mut c, &cmd, false);
        assert_eq!(c.pos, before.pos);
        assert_eq!(c.waypoint, before.waypoint);
        assert_eq!(c.anim, AnimTag::Idle);
        assert_eq!(c.move_target, before.move_target);
    }
}

#[test]
fn attack_tag_locks_the_unit() {
    let g = two_waypoint_graph();
    let mut c = Creep {
        anim: AnimTag::Attack,
        ..Creep::create(1, Side::Mars, at(0, 0), 1, &g)
    };
    let before = c;
    assert_eq!(move_state_tick(&mut c, &g), None);
    assert_eq!(c.pos, before.pos);
    assert_eq!(c.anim, AnimTag::Attack);
    assert_eq!(c.waypoint, before.waypoint);
}

#[test]
fn pursuer_chases_the_live_target_position() {
    let g = two_waypoint_graph();
    let mut c = Creep {
        state: CreepState::Pursuit,
        next_state: CreepState::Pursuit,
        move_target: None,
        pursuit_target: Some(9),
        ..Creep::create(1, Side::Mars, at(0, 0), 1, &g)
    };
    let cmd = pursuit_state_tick(&mut c, at(0, 8000)).unwrap();
    assert_eq!(cmd, StepCommand { dx: 0, dy: 50, drop: 100 });
    assert_eq!(c.anim, AnimTag::Pursuit);
    assert_eq!(c.heading, Vec2i { x: 0, y: 8000 });
    apply_step(&mut c, &cmd, false);
    assert_eq!(c.pos, at(0, 50));
}

#[test]
fn lateral_collision_forces_idle_but_keeps_the_target() {
    let g = two_waypoint_graph();
    let mut c = Creep {
        pos: at(0, 0),
        anim: AnimTag::Walk,
        ..Creep::create(1, Side::Mars, at(0, 0), 1, &g)
    };
    let target_before = c.move_target;
    let cmd = StepCommand { dx: -35, dy: -35, drop: 100 };
    apply_step(&mut c, &cmd, true);
    assert_eq!(c.anim, AnimTag::Idle);
    // the movement target is deliberately not reset on collision
    assert_eq!(c.move_target, target_before);
    assert_eq!(c.pos, at(-35, -35));
}
