use creep_sim::agent::{AnimTag, Creep, CreepState, Side};
use creep_sim::geom::{Pos, Vec2i};
use creep_sim::path::PathGraph;
use creep_sim::selector::{SelectedTarget, TargetKind};
use creep_sim::transition::{commit_transition, pursuit_state_request};

fn at(x: i64, y: i64) -> Pos {
    Pos { x, y, z: 1000 }
}

fn one_waypoint_graph() -> PathGraph {
    let mut g = PathGraph::new();
    g.push_waypoint(at(-13000, -13000), None);
    g
}

fn pursuing_creep(g: &PathGraph, target_id: u64) -> Creep {
    Creep {
        pursuit_target: Some(target_id),
        move_target: None,
        state: CreepState::Pursuit,
        next_state: CreepState::Pursuit,
        ..Creep::create(1, Side::Mars, at(0, 0), 0, g)
    }
}

#[test]
fn distance_at_attack_radius_keeps_pursuing() {
    // exactly 5.0 units: the attack transition needs strictly less
    let g = one_waypoint_graph();
    let mut c = pursuing_creep(&g, 9);
    pursuit_state_request(&mut c, at(5000, 0));
    assert_eq!(c.next_state, CreepState::Pursuit);
}

#[test]
fn distance_inside_attack_radius_requests_attack() {
    let g = one_waypoint_graph();
    let mut c = pursuing_creep(&g, 9);
    pursuit_state_request(&mut c, at(4999, 0));
    assert_eq!(c.next_state, CreepState::Attack);
}

#[test]
fn distance_at_pursuit_radius_keeps_pursuing() {
    // exactly 10.0 units: the fallback needs strictly more
    let g = one_waypoint_graph();
    let mut c = pursuing_creep(&g, 9);
    pursuit_state_request(&mut c, at(10000, 0));
    assert_eq!(c.next_state, CreepState::Pursuit);
}

#[test]
fn distance_beyond_pursuit_radius_requests_move() {
    let g = one_waypoint_graph();
    let mut c = pursuing_creep(&g, 9);
    pursuit_state_request(&mut c, at(10001, 0));
    assert_eq!(c.next_state, CreepState::Move);
}

#[test]
fn attack_tag_locks_the_pursuit_request() {
    // the cross-state animation lock: a pursuing unit whose tag is Attack
    // requests nothing, even with its target inside the attack radius
    let g = one_waypoint_graph();
    let mut c = Creep { anim: AnimTag::Attack, ..pursuing_creep(&g, 9) };
    let before = c;
    pursuit_state_request(&mut c, at(2000, 0));
    assert_eq!(c.next_state, CreepState::Pursuit);
    assert_eq!(c.state, before.state);
    assert_eq!(c.pursuit_target, before.pursuit_target);
    assert_eq!(c.anim, AnimTag::Attack);
}

#[test]
fn request_pass_only_records_the_next_state() {
    let g = one_waypoint_graph();
    let mut c = pursuing_creep(&g, 9);
    let before = c;
    pursuit_state_request(&mut c, at(4000, 0));
    assert_eq!(c.state, before.state);
    assert_eq!(c.pursuit_target, before.pursuit_target);
    assert_eq!(c.pos, before.pos);
    assert_eq!(c.next_state, CreepState::Attack);
}

#[test]
fn commit_into_pursuit_swaps_the_state_reference() {
    let g = one_waypoint_graph();
    let mut c = Creep::create(1, Side::Mars, at(0, 0), 0, &g);
    assert_eq!(c.move_target, Some(Vec2i { x: -13000, y: -13000 }));
    c.next_state = CreepState::Pursuit;
    let engagement = Some(SelectedTarget { id: 42, kind: TargetKind::Hero });
    commit_transition(&mut c, engagement, &g);
    assert_eq!(c.state, CreepState::Pursuit);
    assert_eq!(c.move_target, None);
    assert_eq!(c.pursuit_target, Some(42));
    assert_eq!(c.attack_target, None);
}

#[test]
fn commit_into_attack_keeps_the_pursued_target() {
    let g = one_waypoint_graph();
    let mut c = pursuing_creep(&g, 42);
    c.next_state = CreepState::Attack;
    commit_transition(&mut c, None, &g);
    assert_eq!(c.state, CreepState::Attack);
    assert_eq!(c.pursuit_target, None);
    assert_eq!(c.attack_target, Some(42));
    assert_eq!(c.move_target, None);
}

#[test]
fn commit_back_to_move_retargets_the_current_waypoint() {
    let g = one_waypoint_graph();
    let mut c = pursuing_creep(&g, 42);
    c.next_state = CreepState::Move;
    commit_transition(&mut c, None, &g);
    assert_eq!(c.state, CreepState::Move);
    assert_eq!(c.pursuit_target, None);
    assert_eq!(c.attack_target, None);
    assert_eq!(c.move_target, Some(Vec2i { x: -13000, y: -13000 }));
}

#[test]
fn commit_without_pending_transition_changes_nothing() {
    let g = one_waypoint_graph();
    let mut c = pursuing_creep(&g, 42);
    let before = c;
    commit_transition(&mut c, None, &g);
    assert_eq!(c.state, before.state);
    assert_eq!(c.next_state, before.next_state);
    assert_eq!(c.pursuit_target, before.pursuit_target);
    assert_eq!(c.move_target, before.move_target);
    assert_eq!(c.attack_target, before.attack_target);
    assert_eq!(c.anim, AnimTag::Idle);
}
