use creep_sim::agent::{Creep, CreepState, Side};
use creep_sim::geom::Pos;
use creep_sim::path::PathGraph;
use creep_sim::world::World;

fn at(x: i64, y: i64) -> Pos {
    Pos { x, y, z: 1000 }
}

#[test]
fn lane_links_front_to_back() {
    let mut g = PathGraph::new();
    let points = vec![at(13000, 13000), at(-14000, 13000), at(-14000, -11000)];
    let first = g.add_lane(&points);
    assert_eq!(first, 0);
    assert_eq!(g.len(), 3);
    assert_eq!(g.waypoint_pos(0), at(13000, 13000));
    assert_eq!(g.waypoint_pos(1), at(-14000, 13000));
    assert_eq!(g.waypoint_pos(2), at(-14000, -11000));
    assert_eq!(g.advance(0), 1);
    assert_eq!(g.advance(1), 2);
    // the terminal waypoint advances to itself
    assert_eq!(g.advance(2), 2);
}

#[test]
fn lanes_share_one_arena() {
    let mut g = PathGraph::new();
    let a = g.add_lane(&vec![at(0, 0), at(1000, 0)]);
    let b = g.add_lane(&vec![at(0, 1000), at(1000, 1000), at(2000, 1000)]);
    assert_eq!(a, 0);
    assert_eq!(b, 2);
    assert_eq!(g.len(), 5);
    // each lane ends in its own terminal waypoint
    assert_eq!(g.advance(1), 1);
    assert_eq!(g.advance(4), 4);
    assert_eq!(g.advance(b), b + 1);
}

#[test]
fn opposing_creeps_engage_each_other() {
    // two creeps of opposite sides, 6 units apart, each walking its own
    // lane: the creep tier of the selector turns both into pursuers
    let mut g = PathGraph::new();
    let mars_lane = g.add_lane(&vec![at(13000, 0), at(-13000, 0)]);
    let jupyter_lane = g.add_lane(&vec![at(-13000, 100), at(13000, 100)]);
    let mut w = World::new(g, Vec::new());
    let mars = Creep::create(11, Side::Mars, at(3000, 0), mars_lane + 1, &w.graph);
    let jupyter = Creep::create(22, Side::Jupyter, at(-3000, 0), jupyter_lane + 1, &w.graph);
    w.creeps.push(mars);
    w.creeps.push(jupyter);
    let engagements = w.run_transition_requests();
    w.run_transition_commits(&engagements);
    assert_eq!(w.creeps[0].state, CreepState::Pursuit);
    assert_eq!(w.creeps[0].pursuit_target, Some(22));
    assert_eq!(w.creeps[1].state, CreepState::Pursuit);
    assert_eq!(w.creeps[1].pursuit_target, Some(11));
    // the pursuers close in on each other until both attack
    for _ in 0..60 {
        w.run_state_passes();
    }
    assert_eq!(w.creeps[0].state, CreepState::Attack);
    assert_eq!(w.creeps[1].state, CreepState::Attack);
    assert_eq!(w.creeps[0].attack_target, Some(22));
    assert_eq!(w.creeps[1].attack_target, Some(11));
}
