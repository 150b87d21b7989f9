//! Spatial target selection: among the hostile candidates within the search
//! radius, pick the nearest, preferring the earliest-enumerated on equal
//! distance; heroes strictly pre-empt creeps, which pre-empt bases.

use vstd::prelude::*;
use crate::agent::PURSUIT_RADIUS_MILLI;
use crate::geom::{Pos, pos_ok, spec_xy, xy, pos_dist2, planar_dist2};

verus! {

/// A hostile candidate as the selector sees it: an entity with an identity,
/// a team and a position.
#[derive(Clone, Copy, Debug, PartialEq, Eq, Structural)]
pub struct Candidate {
    pub id: u64,
    pub team: u32,
    pub pos: Pos,
}

/// Which tier of candidates a selected target came from.
#[derive(Clone, Copy, Debug, PartialEq, Eq, Structural)]
pub enum TargetKind {
    Hero,
    Creep,
    Base,
}

/// A selected engagement target.
#[derive(Clone, Copy, Debug, PartialEq, Eq, Structural)]
pub struct SelectedTarget {
    pub id: u64,
    pub kind: TargetKind,
}

/// Teams of differing parity are enemies.
pub open spec fn hostile(a: u32, b: u32) -> bool {
    a % 2 != b % 2
}

pub fn teams_hostile(a: u32, b: u32) -> (r: bool)
    ensures
        r == hostile(a, b),
{
    a % 2 != b % 2
}

/// A candidate is eligible when it is hostile to `team` and within the
/// search radius of `from`.
pub open spec fn eligible(team: u32, from: Pos, c: Candidate) -> bool {
    hostile(team, c.team) && pos_dist2(from, c.pos) <= PURSUIT_RADIUS_MILLI * PURSUIT_RADIUS_MILLI
}

/// `r` is the selector's verdict on the candidate sequence `s`: `None` when
/// nothing is eligible; otherwise the index of an eligible candidate at
/// minimal distance, earlier than every other eligible candidate at that
/// distance.
pub open spec fn is_nearest_choice(team: u32, from: Pos, s: Seq<Candidate>, r: Option<int>,
) -> bool {
    match r {
        None => forall|j: int| 0 <= j < s.len() ==> !eligible(team, from, #[trigger] s[j]),
        Some(i) => {
            &&& 0 <= i < s.len()
            &&& eligible(team, from, s[i])
            &&& forall|j: int|
                0 <= j < s.len() && eligible(team, from, #[trigger] s[j]) ==> pos_dist2(
                    from,
                    s[i].pos,
                ) <= pos_dist2(from, s[j].pos)
            &&& forall|j: int|
                0 <= j < i && eligible(team, from, #[trigger] s[j]) ==> pos_dist2(from, s[i].pos)
                    < pos_dist2(from, s[j].pos)
        },
    }
}

/// The selector's verdict is unique: the nearest-first-eligible rule picks
/// the same candidate on every evaluation of the same input.
pub proof fn lemma_nearest_choice_unique(team: u32, from: Pos, s: Seq<Candidate>, r1: Option<
    int>, r2: Option<int>)
    requires
        is_nearest_choice(team, from, s, r1),
        is_nearest_choice(team, from, s, r2),
    ensures
        r1 == r2,
{
    match (r1, r2) {
        (Some(i1), Some(i2)) => {
            if i1 < i2 {
                assert(pos_dist2(from, s[i2].pos) < pos_dist2(from, s[i1].pos));
                assert(false);
            }
            if i2 < i1 {
                assert(pos_dist2(from, s[i1].pos) < pos_dist2(from, s[i2].pos));
                assert(false);
            }
        },
        (Some(i1), None) => {
            assert(!eligible(team, from, s[i1]));
        },
        (None, Some(i2)) => {
            assert(!eligible(team, from, s[i2]));
        },
        (None, None) => {},
    }
}

/// `r` is the three-tier selector's verdict for a unit of team `team` at
/// `from`: the nearest eligible hero, else the nearest eligible creep, else
/// the nearest eligible base, and `None` exactly when no tier has an
/// eligible candidate.
pub open spec fn is_selection(team: u32, from: Pos, heroes: Seq<Candidate>, creeps: Seq<
    Candidate>, bases: Seq<Candidate>, r: Option<SelectedTarget>) -> bool {
    match r {
        None => {
            &&& is_nearest_choice(team, from, heroes, None)
            &&& is_nearest_choice(team, from, creeps, None)
            &&& is_nearest_choice(team, from, bases, None)
        },
        Some(t) => match t.kind {
            TargetKind::Hero => exists|i: int|
                is_nearest_choice(team, from, heroes, Some(i)) && t.id == heroes[i].id,
            TargetKind::Creep => {
                &&& is_nearest_choice(team, from, heroes, None)
                &&& exists|i: int|
                    is_nearest_choice(team, from, creeps, Some(i)) && t.id == creeps[i].id
            },
            TargetKind::Base => {
                &&& is_nearest_choice(team, from, heroes, None)
                &&& is_nearest_choice(team, from, creeps, None)
                &&& exists|i: int|
                    is_nearest_choice(team, from, bases, Some(i)) && t.id == bases[i].id
            },
        },
    }
}

/// Scan one tier of candidates and return the index of the nearest hostile
/// within the search radius, keeping the earliest on ties.
pub fn nearest_hostile(team: u32, from: Pos, cands: &Vec<Candidate>) -> (r: Option<usize>)
    requires
        pos_ok(from),
        forall|j: int| 0 <= j < cands.len() ==> pos_ok((#[trigger] cands[j]).pos),
    ensures
        match r {
            None => is_nearest_choice(team, from, cands@, None),
            Some(i) => i < cands.len() && is_nearest_choice(team, from, cands@, Some(i as int)),
        },
{
    let from_xy = xy(from);
    let mut best: Option<usize> = None;
    let mut best_d2: i64 = 0;
    let n = cands.len();
    let mut j: usize = 0;
    while j < n
        invariant
            n == cands.len(),
            j <= n,
            pos_ok(from),
            from_xy == spec_xy(from),
            forall|k: int| 0 <= k < cands.len() ==> pos_ok((#[trigger] cands[k]).pos),
            match best {
                None => is_nearest_choice(team, from, cands@.take(j as int), None),
                Some(i) => i < j && is_nearest_choice(team, from, cands@.take(j as int), Some(
                    i as int)) && best_d2 == pos_dist2(from, cands[i as int].pos),
            },
        decreases n - j,
    {
        let c = cands[j];
        if teams_hostile(team, c.team) {
            let d2 = planar_dist2(from_xy, xy(c.pos));
            match best {
                None => {
                    if d2 <= PURSUIT_RADIUS_MILLI * PURSUIT_RADIUS_MILLI {
                        best = Some(j);
                        best_d2 = d2;
                    }
                },
                Some(_) => {
                    if d2 < best_d2 {
                        best = Some(j);
                        best_d2 = d2;
                    }
                },
            }
        }
        proof {
            assert(cands@.take(j + 1 as int).drop_last() =~= cands@.take(j as int));
            assert(cands@.take(j + 1 as int).last() == cands@[j as int]);
        }
        j = j + 1;
    }
    proof {
        assert(cands@.take(n as int) =~= cands@);
    }
    best
}

/// Select an engagement target for a unit of team `team` standing at `from`:
/// the nearest eligible hero, else the nearest eligible creep, else the
/// nearest eligible base, each tier resolved by `nearest_hostile`.
pub fn select_target(team: u32, from: Pos, heroes: &Vec<Candidate>, creeps: &Vec<Candidate>,
    bases: &Vec<Candidate>) -> (r: Option<SelectedTarget>)
    requires
        pos_ok(from),
        forall|j: int| 0 <= j < heroes.len() ==> pos_ok((#[trigger] heroes[j]).pos),
        forall|j: int| 0 <= j < creeps.len() ==> pos_ok((#[trigger] creeps[j]).pos),
        forall|j: int| 0 <= j < bases.len() ==> pos_ok((#[trigger] bases[j]).pos),
    ensures
        is_selection(team, from, heroes@, creeps@, bases@, r),
{
    if let Some(i) = nearest_hostile(team, from, heroes) {
        return Some(SelectedTarget { id: heroes[i].id, kind: TargetKind::Hero });
    }
    if let Some(i) = nearest_hostile(team, from, creeps) {
        return Some(SelectedTarget { id: creeps[i].id, kind: TargetKind::Creep });
    }
    if let Some(i) = nearest_hostile(team, from, bases) {
        return Some(SelectedTarget { id: bases[i].id, kind: TargetKind::Base });
    }
    None
}

/// Selector priority: whenever any hostile hero stands within the search
/// radius, the selected target is a hero — never a creep or a base, whatever
/// their distances.
pub proof fn lemma_hero_priority(team: u32, from: Pos, heroes: Seq<Candidate>, creeps: Seq<
    Candidate>, bases: Seq<Candidate>, r: Option<SelectedTarget>, h: int)
    requires
        0 <= h < heroes.len(),
        eligible(team, from, heroes[h]),
        // the verdict `select_target` guarantees
        is_selection(team, from, heroes, creeps, bases, r),
    ensures
        r matches Some(t) && t.kind is Hero,
{
    match r {
        None => {
            assert(!eligible(team, from, heroes[h]));
        },
        Some(t) => {
            if !(t.kind is Hero) {
                assert(!eligible(team, from, heroes[h]));
            }
        },
    }
}

} // verus!
