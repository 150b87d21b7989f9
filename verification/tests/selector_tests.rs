use creep_sim::geom::Pos;
use creep_sim::selector::{nearest_hostile, select_target, Candidate, TargetKind};

fn at(x: i64, y: i64) -> Pos {
    Pos { x, y, z: 1000 }
}

fn cand(id: u64, team: u32, x: i64, y: i64) -> Candidate {
    Candidate { id, team, pos: at(x, y) }
}

#[test]
fn empty_tier_selects_nothing() {
    let heroes: Vec<Candidate> = Vec::new();
    let r = nearest_hostile(0, at(0, 0), &heroes);
    assert_eq!(r, None);
}

#[test]
fn nearest_of_several_wins() {
    let heroes = vec![
        cand(1, 1, 9000, 0),
        cand(2, 1, 4000, 0),
        cand(3, 1, 7000, 0),
    ];
    let r = nearest_hostile(0, at(0, 0), &heroes);
    assert_eq!(r, Some(1));
}

#[test]
fn candidate_on_the_radius_is_eligible() {
    // 10.0 units away: still eligible, since the radius check is `<=`
    let heroes = vec![cand(1, 1, 10000, 0)];
    assert_eq!(nearest_hostile(0, at(0, 0), &heroes), Some(0));
}

#[test]
fn candidate_beyond_the_radius_is_ignored() {
    let heroes = vec![cand(1, 1, 10001, 0)];
    assert_eq!(nearest_hostile(0, at(0, 0), &heroes), None);
}

#[test]
fn same_parity_is_not_hostile() {
    // teams 0 and 2 are both even: allies
    let heroes = vec![cand(1, 2, 1000, 0)];
    assert_eq!(nearest_hostile(0, at(0, 0), &heroes), None);
    // teams 0 and 3: opposite parity, enemies
    let heroes = vec![cand(1, 3, 1000, 0)];
    assert_eq!(nearest_hostile(0, at(0, 0), &heroes), Some(0));
}

#[test]
fn equidistant_candidates_yield_the_first() {
    // both exactly 5.0 units away, in creation order
    let heroes = vec![cand(7, 1, 5000, 0), cand(8, 1, 0, 5000)];
    let r = nearest_hostile(0, at(0, 0), &heroes);
    assert_eq!(r, Some(0));
    // deterministically, across repeated calls with identical input
    for _ in 0..10 {
        assert_eq!(nearest_hostile(0, at(0, 0), &heroes), Some(0));
    }
}

#[test]
fn hero_preempts_nearer_creep() {
    // an opposing creep 2 units away, an opposing hero 8 units away:
    // the hero wins regardless of distance
    let heroes = vec![cand(1, 1, 8000, 0)];
    let creeps = vec![cand(2, 1, 2000, 0)];
    let bases = vec![cand(3, 1, 3000, 0)];
    let r = select_target(0, at(0, 0), &heroes, &creeps, &bases).unwrap();
    assert_eq!(r.id, 1);
    assert_eq!(r.kind, TargetKind::Hero);
}

#[test]
fn creep_tier_when_no_hero_in_range() {
    let heroes = vec![cand(1, 1, 20000, 0)];
    let creeps = vec![cand(2, 1, 6000, 0)];
    let bases = vec![cand(3, 1, 1000, 0)];
    let r = select_target(0, at(0, 0), &heroes, &creeps, &bases).unwrap();
    assert_eq!(r.id, 2);
    assert_eq!(r.kind, TargetKind::Creep);
}

#[test]
fn base_tier_when_nothing_else_in_range() {
    let heroes: Vec<Candidate> = Vec::new();
    let creeps = vec![cand(2, 0, 1000, 0)]; // ally, filtered out
    let bases = vec![cand(3, 1, 9000, 0)];
    let r = select_target(0, at(0, 0), &heroes, &creeps, &bases).unwrap();
    assert_eq!(r.id, 3);
    assert_eq!(r.kind, TargetKind::Base);
}

#[test]
fn nothing_eligible_selects_nothing() {
    let heroes = vec![cand(1, 1, 10500, 0)];
    let creeps = vec![cand(2, 0, 1000, 0)];
    let bases = vec![cand(3, 1, 30000, 30000)];
    assert_eq!(select_target(0, at(0, 0), &heroes, &creeps, &bases), None);
}
