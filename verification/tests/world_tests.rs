use creep_sim::agent::{AnimTag, Creep, CreepState, Side};
use creep_sim::geom::Pos;
use creep_sim::path::PathGraph;
use creep_sim::selector::{SelectedTarget, TargetKind};
use creep_sim::spawner::SpawnPoint;
use creep_sim::world::World;

fn at(x: i64, y: i64) -> Pos {
    Pos { x, y, z: 1000 }
}

/// The mars middle lane of the scene: spawn at (13, 13), lane end at
/// (-13, -13); the creep walks toward waypoint 1.
fn middle_lane_world(spawn_points: bool) -> World {
    let mut g = PathGraph::new();
    let points = vec![at(13000, 13000), at(-13000, -13000)];
    let first = g.add_lane(&points);
    let pts = if spawn_points {
        vec![SpawnPoint { pos: at(13000, 13000), side: Side::Mars, first_waypoint: first + 1 }]
    } else {
        Vec::new()
    };
    World::new(g, pts)
}

fn exactly_one_state_reference(c: &Creep) -> bool {
    let present = [
        c.move_target.is_some(),
        c.pursuit_target.is_some(),
        c.attack_target.is_some(),
    ];
    let count = present.iter().filter(|p| **p).count();
    let matching = match c.state {
        CreepState::Move => c.move_target.is_some(),
        CreepState::Pursuit => c.pursuit_target.is_some(),
        CreepState::Attack => c.attack_target.is_some(),
    };
    count == 1 && matching
}

#[test]
fn lone_creep_walks_its_lane_to_the_end() {
    // spawn at (13, 13, 1) on a 2-waypoint lane ending at (-13, -13, 1):
    // with no hostiles, the creep converges to within 1.0 of the end and
    // settles idle, with no further change
    let mut w = middle_lane_world(false);
    let c = Creep::create(100, Side::Mars, at(13000, 13000), 1, &w.graph);
    w.creeps.push(c);
    for _ in 0..1000 {
        w.run_state_passes();
    }
    let c = &w.creeps[0];
    let dx = (c.pos.x - -13000) as f64;
    let dy = (c.pos.y - -13000) as f64;
    assert!((dx * dx + dy * dy).sqrt() < 1000.0);
    assert_eq!(c.anim, AnimTag::Idle);
    assert_eq!(c.state, CreepState::Move);
    let settled = *c;
    for _ in 0..50 {
        w.run_state_passes();
        assert_eq!(w.creeps[0].pos, settled.pos);
        assert_eq!(w.creeps[0].waypoint, settled.waypoint);
        assert_eq!(w.creeps[0].anim, AnimTag::Idle);
    }
}

#[test]
fn hero_in_range_turns_a_walker_into_a_pursuer() {
    // a creep for one side; a hero of the other side 3 units away; one
    // request pass records the pursuit, the commit pass swaps the fields
    let mut w = middle_lane_world(false);
    let c = Creep::create(100, Side::Mars, at(0, 0), 1, &w.graph);
    w.creeps.push(c);
    let hero_id = w.add_hero(1, at(3000, 0));
    let engagements = w.run_transition_requests();
    assert_eq!(w.creeps[0].next_state, CreepState::Pursuit);
    assert_eq!(
        engagements[0],
        Some(SelectedTarget { id: hero_id, kind: TargetKind::Hero })
    );
    assert_eq!(w.creeps[0].state, CreepState::Move);
    w.run_transition_commits(&engagements);
    assert_eq!(w.creeps[0].state, CreepState::Pursuit);
    assert_eq!(w.creeps[0].move_target, None);
    assert_eq!(w.creeps[0].pursuit_target, Some(hero_id));
}

#[test]
fn undisturbed_walker_keeps_or_advances_its_waypoint() {
    // with nothing hostile anywhere, ticks leave the engagement fields
    // empty and move the waypoint only along the lane
    let mut w = middle_lane_world(false);
    let c = Creep {
        anim: AnimTag::Walk,
        ..Creep::create(100, Side::Mars, at(12500, 13500), 0, &w.graph)
    };
    w.creeps.push(c);
    let mut seen_waypoints = vec![w.creeps[0].waypoint];
    for _ in 0..40 {
        let before = w.creeps[0].waypoint;
        w.run_state_passes();
        let after = w.creeps[0].waypoint;
        assert_eq!(w.creeps[0].pursuit_target, None);
        assert_eq!(w.creeps[0].attack_target, None);
        assert_eq!(w.creeps[0].state, CreepState::Move);
        if after != before {
            // advances only to the lane successor, once
            assert_eq!(after, before + 1);
            seen_waypoints.push(after);
        }
    }
    assert_eq!(seen_waypoints, vec![0, 1]);
}

#[test]
fn exactly_one_state_reference_throughout_an_engagement() {
    // drive one creep through Move, Pursuit and Attack; at every step
    // exactly one state-defining reference is present
    let mut w = middle_lane_world(false);
    let c = Creep::create(100, Side::Mars, at(0, 0), 1, &w.graph);
    w.creeps.push(c);
    let hero_id = w.add_hero(1, at(8000, 0));
    assert!(exactly_one_state_reference(&w.creeps[0]));
    let mut seen = vec![w.creeps[0].state];
    for step in 0..400 {
        w.run_state_passes();
        assert!(exactly_one_state_reference(&w.creeps[0]));
        let s = w.creeps[0].state;
        if *seen.last().unwrap() != s {
            seen.push(s);
        }
        if step == 200 {
            // the hero retreats a little; the pursuer keeps chasing
            w.set_hero_pos(0, at(9000, 0));
        }
    }
    assert_eq!(
        seen,
        vec![CreepState::Move, CreepState::Pursuit, CreepState::Attack]
    );
    assert_eq!(w.creeps[0].attack_target, Some(hero_id));
}

#[test]
fn pursuer_falls_back_to_its_path_when_the_target_escapes() {
    let mut w = middle_lane_world(false);
    let c = Creep::create(100, Side::Mars, at(0, 0), 1, &w.graph);
    w.creeps.push(c);
    w.add_hero(1, at(8000, 0));
    w.run_state_passes();
    assert_eq!(w.creeps[0].state, CreepState::Pursuit);
    // the hero leaves the pursuit radius
    w.set_hero_pos(0, at(25000, 0));
    w.run_state_passes();
    assert_eq!(w.creeps[0].state, CreepState::Move);
    assert_eq!(w.creeps[0].pursuit_target, None);
    assert!(w.creeps[0].move_target.is_some());
}

#[test]
fn spawner_fires_every_five_seconds_of_one_second_ticks() {
    // timer starts at 5.0 s; with 1.0 s per tick, one batch fires every
    // 5 ticks, and the timer rewinds to 5.0 s on firing
    let mut w = middle_lane_world(true);
    assert_eq!(w.spawn_timer, 5000);
    let mut counts = Vec::new();
    for _ in 0..15 {
        w.tick(1000);
        counts.push(w.creeps.len());
    }
    assert_eq!(
        counts,
        vec![0, 0, 0, 0, 1, 1, 1, 1, 1, 2, 2, 2, 2, 2, 3]
    );
    assert_eq!(w.spawn_timer, 5000);
    // the batch spawns at the spawn point, on its side, walking
    assert_eq!(w.creeps[0].side, Side::Mars);
    assert_eq!(w.creeps[0].state, CreepState::Move);
    assert_eq!(w.creeps[0].waypoint, 1);
}

#[test]
fn spawn_timer_discards_overshoot_on_firing() {
    // a long tick overdraws the timer; it still fires once and rewinds to
    // the full interval, not to the interval minus the overshoot
    let (t, fired) = creep_sim::spawner::update_spawn_timer(500, 1000);
    assert!(fired);
    assert_eq!(t, 5000);
    let (t, fired) = creep_sim::spawner::update_spawn_timer(5000, 1000);
    assert!(!fired);
    assert_eq!(t, 4000);
}

#[test]
fn spawned_creeps_get_distinct_identities() {
    let mut w = middle_lane_world(true);
    for _ in 0..10 {
        w.tick(1000);
    }
    assert_eq!(w.creeps.len(), 2);
    assert_ne!(w.creeps[0].id, w.creeps[1].id);
}
