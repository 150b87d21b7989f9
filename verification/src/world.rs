//! The simulation world and its per-tick passes, run in the order the
//! engine's correctness depends on: spawner, transition requests, transition
//! commits, per-state behavior. All cross-agent reads inside a pass work on
//! the state the pass started with; only the pass's own agent is mutated.

use vstd::prelude::*;
use crate::agent::{Creep, CreepState};
use crate::behavior::{
    move_state_tick, pursuit_state_tick, attack_state_tick, apply_step, move_tick_rel,
    pursuit_tick_rel, move_arrived,
};
use crate::geom::{Pos, pos_ok};
use crate::path::PathGraph;
use crate::selector::{
    Candidate, SelectedTarget, TargetKind, eligible, is_selection, is_nearest_choice,
};
use crate::spawner::{SpawnPoint, SPAWN_INTERVAL_MILLIS, MAX_TICK_MILLIS, update_spawn_timer};
use crate::transition::{
    move_state_request, pursuit_state_request, pursuit_verdict, commit_transition,
    committed_creep,
};

verus! {

/// A creep as the selector sees it.
pub open spec fn creep_candidate(c: Creep) -> Candidate {
    Candidate { id: c.id, team: c.side.spec_team(), pos: c.pos }
}

/// A whole creep population as the selector sees it.
pub open spec fn creeps_as_candidates(s: Seq<Creep>) -> Seq<Candidate> {
    s.map_values(|c: Creep| creep_candidate(c))
}

/// The full state of one simulation: the immutable path graph and spawn
/// points, the agent populations, and the shared spawn timer.
#[derive(Debug)]
pub struct World {
    pub graph: PathGraph,
    pub creeps: Vec<Creep>,
    pub heroes: Vec<Candidate>,
    pub bases: Vec<Candidate>,
    pub spawn_points: Vec<SpawnPoint>,
    /// Countdown until the next spawn batch, in milliseconds.
    pub spawn_timer: i64,
    /// Identity handed to the next entity this world creates.
    pub next_id: u64,
}

/// Some entity of the world carries identity `id`.
pub open spec fn id_known(w: World, id: u64) -> bool {
    ||| exists|j: int| 0 <= j < w.heroes.len() && (#[trigger] w.heroes[j]).id == id
    ||| exists|j: int| 0 <= j < w.creeps.len() && (#[trigger] w.creeps[j]).id == id
    ||| exists|j: int| 0 <= j < w.bases.len() && (#[trigger] w.bases[j]).id == id
}

/// Some entity of the world carries identity `id` and stands at `p`.
pub open spec fn entity_at(w: World, id: u64, p: Pos) -> bool {
    ||| exists|j: int|
        0 <= j < w.heroes.len() && (#[trigger] w.heroes[j]).id == id && w.heroes[j].pos == p
    ||| exists|j: int|
        0 <= j < w.creeps.len() && (#[trigger] w.creeps[j]).id == id && w.creeps[j].pos == p
    ||| exists|j: int|
        0 <= j < w.bases.len() && (#[trigger] w.bases[j]).id == id && w.bases[j].pos == p
}

/// What the world guarantees of each creep between ticks: well-formed
/// against the graph, no transition pending, and every engagement target
/// resolvable.
pub open spec fn creep_ok(w: World, c: Creep) -> bool {
    &&& c.wf(w.graph)
    &&& c.state == c.next_state
    &&& (c.pursuit_target matches Some(id) ==> id_known(w, id))
    &&& (c.attack_target matches Some(id) ==> id_known(w, id))
}

impl World {
    /// Well-formedness of the whole world.
    pub open spec fn wf(self) -> bool {
        &&& self.graph.wf()
        &&& forall|i: int| 0 <= i < self.creeps.len() ==> creep_ok(self, #[trigger] self.creeps[i])
        &&& forall|j: int| 0 <= j < self.heroes.len() ==> pos_ok((#[trigger] self.heroes[j]).pos)
        &&& forall|j: int| 0 <= j < self.bases.len() ==> pos_ok((#[trigger] self.bases[j]).pos)
        &&& forall|j: int|
            0 <= j < self.spawn_points.len() ==> (#[trigger] self.spawn_points[j]).wf(self.graph)
        &&& 0 < self.spawn_timer <= SPAWN_INTERVAL_MILLIS
    }

    /// A world over a finished path graph and its spawn points, with no
    /// agents yet and the spawn timer wound up to a full interval.
    pub fn new(graph: PathGraph, spawn_points: Vec<SpawnPoint>) -> (w: World)
        requires
            graph.wf(),
            forall|j: int| 0 <= j < spawn_points.len() ==> (#[trigger] spawn_points[j]).wf(graph),
        ensures
            w.wf(),
            w.graph == graph,
            w.spawn_points == spawn_points,
            w.creeps.len() == 0,
            w.heroes.len() == 0,
            w.bases.len() == 0,
            w.spawn_timer == SPAWN_INTERVAL_MILLIS,
            w.next_id == 1,
    {
        World {
            graph,
            creeps: Vec::new(),
            heroes: Vec::new(),
            bases: Vec::new(),
            spawn_points,
            spawn_timer: SPAWN_INTERVAL_MILLIS,
            next_id: 1,
        }
    }

    /// Register a hero-controlled unit; returns its identity.
    pub fn add_hero(&mut self, team: u32, pos: Pos) -> (id: u64)
        requires
            old(self).wf(),
            pos_ok(pos),
            old(self).next_id < u64::MAX,
        ensures
            final(self).wf(),
            final(self).heroes@ == old(self).heroes@.push(
                Candidate { id, team, pos },
            ),
            final(self).graph == old(self).graph,
            final(self).creeps == old(self).creeps,
            final(self).bases == old(self).bases,
            final(self).spawn_points == old(self).spawn_points,
            final(self).spawn_timer == old(self).spawn_timer,
    {
        let id = self.next_id;
        self.next_id = self.next_id + 1;
        self.heroes.push(Candidate { id, team, pos });
        proof {
            lemma_same_ids_keep_known(*old(self), *self);
        }
        id
    }

    /// Register a base; returns its identity.
    pub fn add_base(&mut self, side: u32, pos: Pos) -> (id: u64)
        requires
            old(self).wf(),
            pos_ok(pos),
            old(self).next_id < u64::MAX,
        ensures
            final(self).wf(),
            final(self).bases@ == old(self).bases@.push(Candidate { id, team: side, pos }),
            final(self).graph == old(self).graph,
            final(self).creeps == old(self).creeps,
            final(self).heroes == old(self).heroes,
            final(self).spawn_points == old(self).spawn_points,
            final(self).spawn_timer == old(self).spawn_timer,
    {
        let id = self.next_id;
        self.next_id = self.next_id + 1;
        self.bases.push(Candidate { id, team: side, pos });
        proof {
            lemma_same_ids_keep_known(*old(self), *self);
        }
        id
    }

    /// Move a hero: the engine's excluded collaborators steer heroes, the
    /// world only records where they stand.
    pub fn set_hero_pos(&mut self, j: usize, pos: Pos)
        requires
            old(self).wf(),
            j < old(self).heroes.len(),
            pos_ok(pos),
        ensures
            final(self).wf(),
            final(self).heroes@ == old(self).heroes@.update(
                j as int,
                Candidate { pos, ..old(self).heroes@[j as int] },
            ),
            final(self).graph == old(self).graph,
            final(self).creeps == old(self).creeps,
            final(self).bases == old(self).bases,
            final(self).spawn_points == old(self).spawn_points,
            final(self).spawn_timer == old(self).spawn_timer,
            final(self).next_id == old(self).next_id,
    {
        let moved = Candidate { pos, ..self.heroes[j] };
        self.heroes.set(j, moved);
        proof {
            lemma_same_ids_keep_known(*old(self), *self);
        }
    }

    /// The spawner pass: advance the shared timer by the tick's elapsed
    /// time; when it fires, create one creep at every spawn point — placed
    /// at the point, on its side, targeting the first waypoint of its lane —
    /// and rewind the timer to the full interval (overshoot is discarded).
    /// The guard on the identity counter only keeps the arithmetic total; no
    /// run exhausts a 64-bit counter.
    pub fn run_spawner(&mut self, elapsed_millis: i64)
        requires
            old(self).wf(),
            0 < elapsed_millis <= MAX_TICK_MILLIS,
        ensures
            final(self).wf(),
            final(self).graph == old(self).graph,
            final(self).heroes == old(self).heroes,
            final(self).bases == old(self).bases,
            final(self).spawn_points == old(self).spawn_points,
            // the timer fires exactly when the decrement exhausts it
            old(self).spawn_timer - elapsed_millis > 0 ==> {
                &&& final(self).spawn_timer == old(self).spawn_timer - elapsed_millis
                &&& final(self).creeps == old(self).creeps
                &&& final(self).next_id == old(self).next_id
            },
            old(self).spawn_timer - elapsed_millis <= 0 ==> final(self).spawn_timer
                == SPAWN_INTERVAL_MILLIS,
            // the batch: one creep per spawn point, in spawn-point order
            old(self).spawn_timer - elapsed_millis <= 0 && old(self).next_id + old(self).spawn_points.len() <= u64::MAX ==> {
                let pts = old(self).spawn_points@;
                &&& final(self).creeps@.len() == old(self).creeps@.len() + pts.len()
                &&& forall|k: int|
                    0 <= k < old(self).creeps@.len() ==> final(self).creeps@[k] == old(self).creeps@[k]
                &&& forall|k: int|
                    0 <= k < pts.len() ==> final(self).creeps@[old(self).creeps@.len() + k]
                        == Creep::spec_created(
                        (old(self).next_id + k) as u64,
                        (#[trigger] pts[k]).side,
                        pts[k].pos,
                        pts[k].first_waypoint,
                        old(self).graph,
                    )
                &&& final(self).next_id == old(self).next_id + pts.len()
            },
            old(self).spawn_timer - elapsed_millis <= 0 && old(self).next_id + old(
                self,
            ).spawn_points.len() > u64::MAX ==> {
                &&& final(self).creeps == old(self).creeps
                &&& final(self).next_id == old(self).next_id
            },
    {
        let (new_timer, fired) = update_spawn_timer(self.spawn_timer, elapsed_millis);
        self.spawn_timer = new_timer;
        proof {
            lemma_same_ids_keep_known(*old(self), *self);
        }
        if !fired {
            return ;
        }
        let count = self.spawn_points.len();
        if self.next_id > u64::MAX - (count as u64) {
            return ;
        }
        let mut k: usize = 0;
        while k < count
            invariant
                count == self.spawn_points.len(),
                k <= count,
                self.graph == old(self).graph,
                self.heroes == old(self).heroes,
                self.bases == old(self).bases,
                self.spawn_points == old(self).spawn_points,
                self.spawn_timer == SPAWN_INTERVAL_MILLIS,
                old(self).wf(),
                self.graph.wf(),
                old(self).next_id + count <= u64::MAX,
                self.next_id == old(self).next_id + k,
                self.creeps@.len() == old(self).creeps@.len() + k,
                forall|m: int|
                    0 <= m < old(self).creeps@.len() ==> self.creeps@[m] == old(self).creeps@[m],
                forall|m: int|
                    0 <= m < k ==> self.creeps@[old(self).creeps@.len() + m]
                        == Creep::spec_created(
                        (old(self).next_id + m) as u64,
                        (#[trigger] self.spawn_points@[m]).side,
                        self.spawn_points@[m].pos,
                        self.spawn_points@[m].first_waypoint,
                        old(self).graph,
                    ),
            decreases count - k,
        {
            let sp = self.spawn_points[k];
            proof {
                assert(sp.wf(old(self).graph));
            }
            let c = Creep::create(self.next_id, sp.side, sp.pos, sp.first_waypoint, &self.graph);
            self.next_id = self.next_id + 1;
            self.creeps.push(c);
            k = k + 1;
        }
        proof {
            lemma_same_ids_keep_known(*old(self), *self);
            assert forall|i: int| 0 <= i < self.creeps.len() implies creep_ok(
                *self,
                #[trigger] self.creeps[i],
            ) by {
                if i < old(self).creeps@.len() {
                    assert(creep_ok(*old(self), old(self).creeps[i]));
                } else {
                    let m = i - old(self).creeps@.len();
                    assert(self.creeps@[i] == Creep::spec_created(
                        (old(self).next_id + m) as u64,
                        self.spawn_points@[m].side,
                        self.spawn_points@[m].pos,
                        self.spawn_points@[m].first_waypoint,
                        old(self).graph,
                    ));
                    assert(self.spawn_points@[m].wf(old(self).graph));
                }
            }
        }
    }

    /// The transition-request pass: every `Move`-state creep consults the
    /// target selector, every `Pursuit`-state creep checks its distance to
    /// its engagement target; each records only a requested next state. The
    /// selected engagement targets are returned for the commit pass, one
    /// slot per creep. All reads work on the state the pass started with.
    pub fn run_transition_requests(&mut self) -> (engagements: Vec<Option<SelectedTarget>>)
        requires
            old(self).wf(),
        ensures
            engagements@.len() == old(self).creeps@.len(),
            final(self).creeps@.len() == old(self).creeps@.len(),
            final(self).graph == old(self).graph,
            final(self).heroes == old(self).heroes,
            final(self).bases == old(self).bases,
            final(self).spawn_points == old(self).spawn_points,
            final(self).spawn_timer == old(self).spawn_timer,
            final(self).next_id == old(self).next_id,
            forall|i: int|
                0 <= i < old(self).creeps@.len() ==> request_step_ok(
                    *old(self),
                    old(self).creeps@[i],
                    #[trigger] final(self).creeps@[i],
                    engagements@[i],
                ),
            // a Move-state creep with nothing hostile in range is untouched
            forall|i: int|
                0 <= i < old(self).creeps@.len() && old(self).creeps@[i].state is Move
                    && no_hostile_in_range(*old(self), i) ==> #[trigger] final(self).creeps@[i]
                    == old(self).creeps@[i] && engagements@[i] is None,
    {
        let creep_cands = creep_candidates(&self.creeps);
        let n = self.creeps.len();
        let mut engagements: Vec<Option<SelectedTarget>> = Vec::new();
        let mut i: usize = 0;
        while i < n
            invariant
                old(self).wf(),
                n == self.creeps@.len(),
                n == old(self).creeps@.len(),
                i <= n,
                engagements@.len() == i,
                self.graph == old(self).graph,
                self.heroes == old(self).heroes,
                self.bases == old(self).bases,
                self.spawn_points == old(self).spawn_points,
                self.spawn_timer == old(self).spawn_timer,
                self.next_id == old(self).next_id,
                creep_cands@ == creeps_as_candidates(old(self).creeps@),
                forall|k: int| i <= k < n ==> self.creeps@[k] == old(self).creeps@[k],
                forall|k: int|
                    0 <= k < n ==> #[trigger] self.creeps@[k] == (Creep {
                        next_state: self.creeps@[k].next_state,
                        ..old(self).creeps@[k]
                    }),
                forall|k: int|
                    0 <= k < i ==> request_step_ok(
                        *old(self),
                        old(self).creeps@[k],
                        #[trigger] self.creeps@[k],
                        engagements@[k],
                    ),
                forall|k: int|
                    0 <= k < i && old(self).creeps@[k].state is Move && no_hostile_in_range(
                        *old(self),
                        k,
                    ) ==> #[trigger] self.creeps@[k] == old(self).creeps@[k] && engagements@[k]
                        is None,
            decreases n - i,
        {
            let ghost creeps_before = self.creeps@;
            let ghost eng_before = engagements@;
            proof {
                assert(creep_ok(*old(self), old(self).creeps@[i as int]));
                assert forall|j: int| 0 <= j < creep_cands@.len() implies pos_ok(
                    (#[trigger] creep_cands@[j]).pos,
                ) by {
                    assert(creep_ok(*old(self), old(self).creeps@[j]));
                    assert(creep_cands@[j] == creep_candidate(old(self).creeps@[j]));
                }
            }
            let mut c = self.creeps[i];
            let eng: Option<SelectedTarget>;
            match c.state {
                CreepState::Move => {
                    eng = move_state_request(&mut c, &self.heroes, &creep_cands, &self.bases);
                    proof {
                        lemma_selection_id_known(*old(self), c.side.spec_team(), c.pos, eng);
                        if no_hostile_in_range(*old(self), i as int) {
                            lemma_no_hostile_means_none(*old(self), i as int, eng);
                            assert(c.next_state == CreepState::Move);
                            assert(old(self).creeps@[i as int].next_state == CreepState::Move);
                            assert(c == old(self).creeps@[i as int]);
                        }
                    }
                },
                CreepState::Pursuit => {
                    let tid = c.pursuit_target.unwrap();
                    proof {
                        lemma_same_ids_keep_known(*old(self), *self);
                        assert(id_known(*old(self), tid));
                    }
                    let tp = self.find_entity_pos(tid);
                    proof {
                        lemma_same_entities_keep_at(*old(self), *self);
                        if tp is None {
                            assert(id_known(*self, tid) == id_known(*old(self), tid)) by {
                                lemma_same_ids_keep_known(*self, *old(self));
                            }
                        }
                    }
                    let tpos = tp.unwrap();
                    proof {
                        // the target's position is in bounds, wherever it
                        // stands in the world
                        assert(entity_at(*old(self), tid, tpos));
                        lemma_entity_pos_ok(*old(self), tid, tpos);
                    }
                    pursuit_state_request(&mut c, tpos);
                    eng = None;
                },
                CreepState::Attack => {
                    eng = None;
                },
            }
            self.creeps.set(i, c);
            engagements.push(eng);
            proof {
                let ii = i as int;
                assert(self.creeps@ == creeps_before.update(ii, c));
                assert(engagements@ == eng_before.push(eng));
                assert(self.creeps@[ii] == c);
                assert(engagements@[ii] == eng);
                if old(self).creeps@[ii].state is Move && no_hostile_in_range(*old(self), ii) {
                    assert(self.creeps@[ii] == old(self).creeps@[ii]);
                    assert(engagements@[ii] is None);
                }
                assert forall|k: int|
                    0 <= k < ii + 1 && old(self).creeps@[k].state is Move
                        && no_hostile_in_range(*old(self), k) implies self.creeps@[k] == old(
                    self,
                ).creeps@[k] && engagements@[k] is None by {
                    if k < ii {
                        assert(self.creeps@[k] == creeps_before[k]);
                        assert(engagements@[k] == eng_before[k]);
                    }
                }
            }
            i = i + 1;
        }
        engagements
    }

    /// The transition-commit pass: for every creep whose requested state
    /// differs from its current one, run the exit and enter effects and
    /// commit — strictly after all requests of the tick, strictly before any
    /// behavior. `engagements` is what the request pass returned.
    pub fn run_transition_commits(&mut self, engagements: &Vec<Option<SelectedTarget>>)
        requires
            old(self).graph.wf(),
            forall|j: int|
                0 <= j < old(self).heroes.len() ==> pos_ok((#[trigger] old(self).heroes[j]).pos),
            forall|j: int|
                0 <= j < old(self).bases.len() ==> pos_ok((#[trigger] old(self).bases[j]).pos),
            forall|j: int|
                0 <= j < old(self).spawn_points.len() ==> (#[trigger] old(
                    self,
                ).spawn_points[j]).wf(old(self).graph),
            0 < old(self).spawn_timer <= SPAWN_INTERVAL_MILLIS,
            engagements@.len() == old(self).creeps@.len(),
            // what the request pass leaves behind
            forall|i: int|
                0 <= i < old(self).creeps@.len() ==> {
                    let c = #[trigger] old(self).creeps@[i];
                    &&& c.wf(old(self).graph)
                    &&& (c.pursuit_target matches Some(id) ==> id_known(*old(self), id))
                    &&& (c.attack_target matches Some(id) ==> id_known(*old(self), id))
                    &&& (c.next_state is Pursuit && !(c.state is Pursuit) ==> (
                    engagements@[i] matches Some(t) && id_known(*old(self), t.id)))
                    &&& (c.next_state is Attack && !(c.state is Attack) ==> c.state is Pursuit)
                },
        ensures
            final(self).wf(),
            final(self).graph == old(self).graph,
            final(self).heroes == old(self).heroes,
            final(self).bases == old(self).bases,
            final(self).spawn_points == old(self).spawn_points,
            final(self).spawn_timer == old(self).spawn_timer,
            final(self).next_id == old(self).next_id,
            final(self).creeps@.len() == old(self).creeps@.len(),
            forall|i: int|
                0 <= i < old(self).creeps@.len() ==> #[trigger] final(self).creeps@[i]
                    == committed_creep(
                    old(self).creeps@[i],
                    engagements@[i],
                    old(self).graph,
                ),
    {
        let n = self.creeps.len();
        let mut i: usize = 0;
        while i < n
            invariant
                n == self.creeps@.len(),
                n == old(self).creeps@.len(),
                i <= n,
                engagements@.len() == n,
                self.graph == old(self).graph,
                self.heroes == old(self).heroes,
                self.bases == old(self).bases,
                self.spawn_points == old(self).spawn_points,
                self.spawn_timer == old(self).spawn_timer,
                self.next_id == old(self).next_id,
                old(self).graph.wf(),
                forall|i: int|
                    0 <= i < old(self).creeps@.len() ==> {
                        let c = #[trigger] old(self).creeps@[i];
                        &&& c.wf(old(self).graph)
                        &&& (c.pursuit_target matches Some(id) ==> id_known(*old(self), id))
                        &&& (c.attack_target matches Some(id) ==> id_known(*old(self), id))
                        &&& (c.next_state is Pursuit && !(c.state is Pursuit) ==> (
                        engagements@[i] matches Some(t) && id_known(*old(self), t.id)))
                        &&& (c.next_state is Attack && !(c.state is Attack) ==> c.state
                            is Pursuit)
                    },
                forall|k: int| i <= k < n ==> self.creeps@[k] == old(self).creeps@[k],
                forall|k: int|
                    0 <= k < i ==> #[trigger] self.creeps@[k] == committed_creep(
                        old(self).creeps@[k],
                        engagements@[k],
                        old(self).graph,
                    ),
            decreases n - i,
        {
            proof {
                let c0 = old(self).creeps@[i as int];
                assert(c0.wf(old(self).graph));
            }
            let mut c = self.creeps[i];
            commit_transition(&mut c, engagements[i], &self.graph);
            self.creeps.set(i, c);
            proof {
                assert(self.creeps@[i as int] == committed_creep(
                    old(self).creeps@[i as int],
                    engagements@[i as int],
                    old(self).graph,
                ));
            }
            i = i + 1;
        }
        proof {
            lemma_same_ids_keep_known(*old(self), *self);
            assert forall|i: int| 0 <= i < self.creeps.len() implies creep_ok(
                *self,
                #[trigger] self.creeps[i],
            ) by {
                let pre = old(self).creeps@[i];
                let post = self.creeps@[i];
                assert(post == committed_creep(pre, engagements@[i], old(self).graph));
                assert(pre.wf(old(self).graph));
                if pre.state != pre.next_state {
                    if pre.next_state is Pursuit {
                        assert(engagements@[i] matches Some(t) && id_known(*old(self), t.id));
                    }
                }
            }
        }
    }

    /// The per-state behavior pass: `Move`-state creeps walk their lane,
    /// `Pursuit`-state creeps chase the live position of their engagement
    /// target, `Attack`-state creeps hold (combat resolution is external).
    /// Target positions are snapshotted at pass start; the world itself has
    /// no obstacles, so every step command applies unblocked — a host
    /// driving a collider instead calls the per-creep functions itself.
    pub fn run_behaviors(&mut self)
        requires
            old(self).wf(),
        ensures
            final(self).wf(),
            final(self).graph == old(self).graph,
            final(self).heroes == old(self).heroes,
            final(self).bases == old(self).bases,
            final(self).spawn_points == old(self).spawn_points,
            final(self).spawn_timer == old(self).spawn_timer,
            final(self).next_id == old(self).next_id,
            final(self).creeps@.len() == old(self).creeps@.len(),
            forall|i: int|
                0 <= i < old(self).creeps@.len() ==> behavior_step_ok(
                    *old(self),
                    old(self).creeps@[i],
                    #[trigger] final(self).creeps@[i],
                ),
    {
        let n = self.creeps.len();
        // snapshot of every pursuer's target position, taken before any
        // creep moves
        let mut targets: Vec<Option<Pos>> = Vec::new();
        let mut i: usize = 0;
        while i < n
            invariant
                *self == *old(self),
                old(self).wf(),
                n == self.creeps@.len(),
                i <= n,
                targets@.len() == i,
                forall|k: int|
                    0 <= k < i && old(self).creeps@[k].state is Pursuit ==> (
                    #[trigger] targets@[k] matches Some(p) && entity_at(
                        *old(self),
                        old(self).creeps@[k].pursuit_target->Some_0,
                        p,
                    ) && pos_ok(p)),
            decreases n - i,
        {
            proof {
                assert(creep_ok(*old(self), old(self).creeps@[i as int]));
            }
            let c_state = self.creeps[i].state;
            if c_state == CreepState::Pursuit {
                let tid = self.creeps[i].pursuit_target.unwrap();
                let tp = self.find_entity_pos(tid);
                proof {
                    match tp {
                        Some(p) => lemma_entity_pos_ok(*old(self), tid, p),
                        None => (),
                    }
                }
                targets.push(tp);
            } else {
                targets.push(None);
            }
            i = i + 1;
        }
        let mut i: usize = 0;
        while i < n
            invariant
                old(self).wf(),
                n == self.creeps@.len(),
                n == old(self).creeps@.len(),
                i <= n,
                targets@.len() == n,
                self.graph == old(self).graph,
                self.heroes == old(self).heroes,
                self.bases == old(self).bases,
                self.spawn_points == old(self).spawn_points,
                self.spawn_timer == old(self).spawn_timer,
                self.next_id == old(self).next_id,
                forall|k: int|
                    0 <= k < n && old(self).creeps@[k].state is Pursuit ==> (
                    #[trigger] targets@[k] matches Some(p) && entity_at(
                        *old(self),
                        old(self).creeps@[k].pursuit_target->Some_0,
                        p,
                    ) && pos_ok(p)),
                forall|k: int| i <= k < n ==> self.creeps@[k] == old(self).creeps@[k],
                forall|k: int|
                    0 <= k < i ==> behavior_step_ok(
                        *old(self),
                        old(self).creeps@[k],
                        #[trigger] self.creeps@[k],
                    ),
                forall|k: int|
                    0 <= k < i ==> creep_ok(*old(self), old(self).creeps@[k]) && {
                        let pre = old(self).creeps@[k];
                        let post = #[trigger] self.creeps@[k];
                        &&& post.wf(old(self).graph)
                        &&& post.state == pre.state
                        &&& post.next_state == pre.next_state
                        &&& post.id == pre.id
                        &&& post.pursuit_target == pre.pursuit_target
                        &&& post.attack_target == pre.attack_target
                    },
            decreases n - i,
        {
            proof {
                assert(creep_ok(*old(self), old(self).creeps@[i as int]));
            }
            let ghost pre = old(self).creeps@[i as int];
            let mut c = self.creeps[i];
            match c.state {
                CreepState::Move => {
                    let cmd = move_state_tick(&mut c, &self.graph);
                    if let Some(s) = cmd {
                        proof {
                            if !move_arrived(pre) {
                                // the step never leaves the segment from the
                                // creep to its waypoint, which is in bounds
                                assert(pos_ok(
                                    old(self).graph.waypoints[pre.waypoint as int].pos,
                                ));
                            }
                        }
                        apply_step(&mut c, &s, false);
                    }
                },
                CreepState::Pursuit => {
                    let tp = targets[i].unwrap();
                    let cmd = pursuit_state_tick(&mut c, tp);
                    if let Some(s) = cmd {
                        apply_step(&mut c, &s, false);
                    }
                    proof {
                        assert(entity_at(*old(self), pre.pursuit_target->Some_0, tp));
                        assert(pursuit_tick_rel(pre, c, tp));
                    }
                },
                CreepState::Attack => {
                    let _target = attack_state_tick(&c);
                },
            }
            self.creeps.set(i, c);
            proof {
                assert(behavior_step_ok(*old(self), pre, self.creeps@[i as int]));
            }
            i = i + 1;
        }
        proof {
            lemma_same_ids_keep_known(*old(self), *self);
            assert forall|i: int| 0 <= i < self.creeps.len() implies creep_ok(
                *self,
                #[trigger] self.creeps[i],
            ) by {
                assert(creep_ok(*old(self), old(self).creeps@[i]));
            }
        }
    }

    /// The state-machine passes of one tick, in their required order:
    /// every transition request strictly before every commit, every commit
    /// strictly before any per-state behavior.
    ///
    /// The last clause is the path-following law: a `Move`-state creep with
    /// no hostile in range of any tier acquires no engagement target, stays
    /// in `Move`, and its waypoint either stays the same or advances to its
    /// lane successor — never anywhere else.
    pub fn run_state_passes(&mut self)
        requires
            old(self).wf(),
        ensures
            final(self).wf(),
            final(self).graph == old(self).graph,
            final(self).heroes == old(self).heroes,
            final(self).bases == old(self).bases,
            final(self).spawn_points == old(self).spawn_points,
            final(self).spawn_timer == old(self).spawn_timer,
            final(self).next_id == old(self).next_id,
            final(self).creeps@.len() == old(self).creeps@.len(),
            // each creep went through request, commit and behavior, in that
            // order, against the tick's starting state
            forall|i: int|
                0 <= i < old(self).creeps@.len() ==> full_tick_rel(
                    *old(self),
                    old(self).creeps@[i],
                    #[trigger] final(self).creeps@[i],
                ),
            forall|i: int|
                0 <= i < old(self).creeps@.len() && old(self).creeps@[i].state is Move
                    && no_hostile_in_range(*old(self), i) ==> {
                    let post = #[trigger] final(self).creeps@[i];
                    &&& post.state is Move
                    &&& post.pursuit_target is None
                    &&& post.attack_target is None
                    &&& (post.waypoint == old(self).creeps@[i].waypoint || post.waypoint == old(
                        self,
                    ).graph.advance_of(old(self).creeps@[i].waypoint as int))
                },
    {
        let ghost w0 = *old(self);
        let engagements = self.run_transition_requests();
        let ghost w1 = *self;
        proof {
            // the request pass's output satisfies what the commit pass asks
            assert forall|i: int| 0 <= i < w1.creeps@.len() implies {
                let c = #[trigger] w1.creeps@[i];
                &&& c.wf(w1.graph)
                &&& (c.pursuit_target matches Some(id) ==> id_known(w1, id))
                &&& (c.attack_target matches Some(id) ==> id_known(w1, id))
                &&& (c.next_state is Pursuit && !(c.state is Pursuit) ==> (
                engagements@[i] matches Some(t) && id_known(w1, t.id)))
                &&& (c.next_state is Attack && !(c.state is Attack) ==> c.state is Pursuit)
            } by {
                assert(creep_ok(w0, w0.creeps@[i]));
                assert(request_step_ok(w0, w0.creeps@[i], w1.creeps@[i], engagements@[i]));
                lemma_same_ids_keep_known(w0, w1);
            }
        }
        self.run_transition_commits(&engagements);
        let ghost w2 = *self;
        self.run_behaviors();
        proof {
            // the request and commit passes move nobody, so the behavior
            // pass's steps read the same entity positions the tick began
            // with
            assert forall|j: int| 0 <= j < w2.creeps.len() implies (
            #[trigger] w2.creeps[j]).id == w0.creeps[j].id && w2.creeps[j].pos
                == w0.creeps[j].pos by {
                assert(request_step_ok(w0, w0.creeps@[j], w1.creeps@[j], engagements@[j]));
                assert(w2.creeps@[j] == committed_creep(w1.creeps@[j], engagements@[j], w1.graph));
            }
            assert forall|i: int| 0 <= i < w0.creeps@.len() implies full_tick_rel(
                w0,
                w0.creeps@[i],
                #[trigger] self.creeps@[i],
            ) by {
                let eng = engagements@[i];
                let mid = w1.creeps@[i];
                assert(request_step_ok(w0, w0.creeps@[i], mid, eng));
                assert(w2.creeps@[i] == committed_creep(mid, eng, w0.graph));
                assert(behavior_step_ok(w2, w2.creeps@[i], self.creeps@[i]));
                lemma_behavior_step_transfer(w2, w0, w2.creeps@[i], self.creeps@[i]);
            }
            assert forall|i: int|
                0 <= i < w0.creeps@.len() && w0.creeps@[i].state is Move
                    && no_hostile_in_range(w0, i) implies {
                let post = #[trigger] self.creeps@[i];
                &&& post.state is Move
                &&& post.pursuit_target is None
                &&& post.attack_target is None
                &&& (post.waypoint == w0.creeps@[i].waypoint || post.waypoint
                    == w0.graph.advance_of(w0.creeps@[i].waypoint as int))
            } by {
                let pre = w0.creeps@[i];
                assert(creep_ok(w0, pre));
                // untouched by the request pass
                assert(w1.creeps@[i] == pre && engagements@[i] is None);
                // no transition pending, so the commit pass leaves it alone
                assert(w2.creeps@[i] == committed_creep(pre, engagements@[i], w1.graph));
                assert(w2.creeps@[i] == pre);
                // the behavior pass walks its lane
                assert(behavior_step_ok(w2, pre, self.creeps@[i]));
                assert(move_tick_rel(pre, self.creeps@[i], w2.graph));
                assert(creep_ok(*self, self.creeps@[i]));
            }
        }
    }

    /// One whole simulation tick of `elapsed_millis`: the spawner first,
    /// then the transition and behavior passes over the creep population the
    /// spawner may just have extended.
    pub fn tick(&mut self, elapsed_millis: i64)
        requires
            old(self).wf(),
            0 < elapsed_millis <= MAX_TICK_MILLIS,
        ensures
            final(self).wf(),
            final(self).graph == old(self).graph,
            final(self).heroes == old(self).heroes,
            final(self).bases == old(self).bases,
            final(self).spawn_points == old(self).spawn_points,
            // the spawn timer fires exactly when the decrement exhausts it,
            // then rewinds to the full interval
            old(self).spawn_timer - elapsed_millis > 0 ==> {
                &&& final(self).spawn_timer == old(self).spawn_timer - elapsed_millis
                &&& final(self).creeps@.len() == old(self).creeps@.len()
                &&& forall|i: int|
                    0 <= i < old(self).creeps@.len() ==> full_tick_rel(
                        *old(self),
                        old(self).creeps@[i],
                        #[trigger] final(self).creeps@[i],
                    )
            },
            old(self).spawn_timer - elapsed_millis <= 0 ==> final(self).spawn_timer
                == SPAWN_INTERVAL_MILLIS,
            // a firing tick with identity headroom runs the passes on the
            // just-spawned population
            old(self).spawn_timer - elapsed_millis <= 0 && old(self).next_id + old(
                self,
            ).spawn_points.len() <= u64::MAX ==> final(self).creeps@.len() == old(
                self,
            ).creeps@.len() + old(self).spawn_points.len() && exists|ws: World|
                {
                    &&& #[trigger] spawned_from(*old(self), ws)
                    &&& forall|i: int|
                        0 <= i < ws.creeps@.len() ==> #[trigger] full_tick_rel(
                            ws,
                            ws.creeps@[i],
                            final(self).creeps@[i],
                        )
                },
            // a firing tick without identity headroom spawns nothing
            old(self).spawn_timer - elapsed_millis <= 0 && old(self).next_id + old(
                self,
            ).spawn_points.len() > u64::MAX ==> final(self).creeps@.len() == old(
                self,
            ).creeps@.len() && forall|i: int|
                0 <= i < old(self).creeps@.len() ==> full_tick_rel(
                    *old(self),
                    old(self).creeps@[i],
                    #[trigger] final(self).creeps@[i],
                ),
    {
        let ghost w0 = *old(self);
        self.run_spawner(elapsed_millis);
        let ghost ws = *self;
        self.run_state_passes();
        proof {
            if w0.spawn_timer - elapsed_millis > 0 || w0.next_id + w0.spawn_points@.len()
                > u64::MAX {
                // no spawn batch: the passes ran on the population the tick
                // began with, under a world differing only in the timer
                assert forall|i: int| 0 <= i < w0.creeps@.len() implies full_tick_rel(
                    w0,
                    w0.creeps@[i],
                    #[trigger] self.creeps@[i],
                ) by {
                    assert(full_tick_rel(ws, ws.creeps@[i], self.creeps@[i]));
                    lemma_full_tick_transfer(ws, w0, ws.creeps@[i], self.creeps@[i]);
                }
            } else {
                assert(spawned_from(w0, ws));
                assert(forall|i: int|
                    0 <= i < ws.creeps@.len() ==> #[trigger] full_tick_rel(
                        ws,
                        ws.creeps@[i],
                        self.creeps@[i],
                    ));
            }
        }
    }

    /// Look an entity up by identity: heroes first, then creeps, then bases.
    pub fn find_entity_pos(&self, id: u64) -> (r: Option<Pos>)
        ensures
            match r {
                Some(p) => entity_at(*self, id, p),
                None => !id_known(*self, id),
            },
    {
        let mut j: usize = 0;
        let hn = self.heroes.len();
        while j < hn
            invariant
                hn == self.heroes.len(),
                j <= hn,
                forall|k: int| 0 <= k < j ==> (#[trigger] self.heroes[k]).id != id,
            decreases hn - j,
        {
            if self.heroes[j].id == id {
                return Some(self.heroes[j].pos);
            }
            j = j + 1;
        }
        let mut j: usize = 0;
        let cn = self.creeps.len();
        while j < cn
            invariant
                cn == self.creeps.len(),
                j <= cn,
                forall|k: int| 0 <= k < j ==> (#[trigger] self.creeps[k]).id != id,
            decreases cn - j,
        {
            if self.creeps[j].id == id {
                return Some(self.creeps[j].pos);
            }
            j = j + 1;
        }
        let mut j: usize = 0;
        let bn = self.bases.len();
        while j < bn
            invariant
                bn == self.bases.len(),
                j <= bn,
                forall|k: int| 0 <= k < j ==> (#[trigger] self.bases[k]).id != id,
            decreases bn - j,
        {
            if self.bases[j].id == id {
                return Some(self.bases[j].pos);
            }
            j = j + 1;
        }
        None
    }
}

/// An identity known to one world is known to another whose populations
/// carry the same identities, however the other fields moved on.
pub proof fn lemma_same_ids_keep_known(w1: World, w2: World)
    requires
        w1.heroes.len() <= w2.heroes.len(),
        w1.creeps.len() <= w2.creeps.len(),
        w1.bases.len() <= w2.bases.len(),
        forall|j: int|
            0 <= j < w1.heroes.len() ==> (#[trigger] w2.heroes[j]).id == w1.heroes[j].id,
        forall|j: int|
            0 <= j < w1.creeps.len() ==> (#[trigger] w2.creeps[j]).id == w1.creeps[j].id,
        forall|j: int| 0 <= j < w1.bases.len() ==> (#[trigger] w2.bases[j]).id == w1.bases[j].id,
    ensures
        forall|id: u64| #[trigger] id_known(w1, id) ==> id_known(w2, id),
{
    assert forall|id: u64| #[trigger] id_known(w1, id) implies id_known(w2, id) by {
        if exists|j: int| 0 <= j < w1.heroes.len() && (#[trigger] w1.heroes[j]).id == id {
            let j = choose|j: int| 0 <= j < w1.heroes.len() && (#[trigger] w1.heroes[j]).id == id;
            assert(w2.heroes[j].id == id);
        } else if exists|j: int| 0 <= j < w1.creeps.len() && (#[trigger] w1.creeps[j]).id == id {
            let j = choose|j: int| 0 <= j < w1.creeps.len() && (#[trigger] w1.creeps[j]).id == id;
            assert(w2.creeps[j].id == id);
        } else {
            let j = choose|j: int| 0 <= j < w1.bases.len() && (#[trigger] w1.bases[j]).id == id;
            assert(w2.bases[j].id == id);
        }
    }
}

/// No candidate of any tier of world `w` is hostile to creep `i` and within
/// the search radius of it.
pub open spec fn no_hostile_in_range(w: World, i: int) -> bool {
    let c = w.creeps[i];
    &&& forall|j: int|
        0 <= j < w.heroes.len() ==> !eligible(c.side.spec_team(), c.pos, #[trigger] w.heroes[j])
    &&& forall|j: int|
        0 <= j < w.creeps.len() ==> !eligible(
            c.side.spec_team(),
            c.pos,
            creep_candidate(#[trigger] w.creeps[j]),
        )
    &&& forall|j: int|
        0 <= j < w.bases.len() ==> !eligible(c.side.spec_team(), c.pos, #[trigger] w.bases[j])
}

/// How the request pass, run against world `w0`, turns creep `pre` into
/// `post` with request output `eng`: only `next_state` is written, a `Move`
/// creep's outcome is exactly the selector's verdict, a `Pursuit` creep's
/// the distance verdict against its engagement target's live position —
/// unless its animation tag locks it in an attack, when it requests nothing
/// — and an `Attack` creep requests nothing.
pub open spec fn request_step_ok(w0: World, pre: Creep, post: Creep, eng: Option<
    SelectedTarget>) -> bool {
    &&& post == (Creep { next_state: post.next_state, ..pre })
    &&& (post.next_state is Pursuit && !(pre.state is Pursuit) ==> (eng matches Some(t)
        && id_known(w0, t.id)))
    &&& (pre.state is Move ==> is_selection(
        pre.side.spec_team(),
        pre.pos,
        w0.heroes@,
        creeps_as_candidates(w0.creeps@),
        w0.bases@,
        eng,
    ) && post.next_state == (if eng is Some {
        CreepState::Pursuit
    } else {
        CreepState::Move
    }))
    &&& (pre.state is Pursuit && pre.anim is Attack ==> post == pre && eng is None)
    &&& (pre.state is Pursuit && !(pre.anim is Attack) ==> eng is None && exists|p: Pos|
        #[trigger] entity_at(w0, pre.pursuit_target->Some_0, p) && post.next_state
            == pursuit_verdict(pre.pos, p))
    &&& (pre.state is Attack ==> post == pre && eng is None)
}

/// A selected target's identity names an entity of the world the selection
/// ran against.
proof fn lemma_selection_id_known(w: World, team: u32, from: Pos, r: Option<SelectedTarget>)
    requires
        is_selection(team, from, w.heroes@, creeps_as_candidates(w.creeps@), w.bases@, r),
    ensures
        r matches Some(t) ==> id_known(w, t.id),
{
    if let Some(t) = r {
        match t.kind {
            TargetKind::Hero => {
                let i = choose|i: int|
                    is_nearest_choice(team, from, w.heroes@, Some(i)) && t.id == w.heroes@[i].id;
                assert(w.heroes[i].id == t.id);
            },
            TargetKind::Creep => {
                let cands = creeps_as_candidates(w.creeps@);
                let i = choose|i: int|
                    is_nearest_choice(team, from, cands, Some(i)) && t.id == cands[i].id;
                assert(w.creeps[i].id == t.id);
            },
            TargetKind::Base => {
                let i = choose|i: int|
                    is_nearest_choice(team, from, w.bases@, Some(i)) && t.id == w.bases@[i].id;
                assert(w.bases[i].id == t.id);
            },
        }
    }
}

/// With nothing hostile in range of creep `i`, the selector's verdict for it
/// can only be `None`.
proof fn lemma_no_hostile_means_none(w: World, i: int, r: Option<SelectedTarget>)
    requires
        0 <= i < w.creeps.len(),
        no_hostile_in_range(w, i),
        is_selection(
            w.creeps[i].side.spec_team(),
            w.creeps[i].pos,
            w.heroes@,
            creeps_as_candidates(w.creeps@),
            w.bases@,
            r,
        ),
    ensures
        r is None,
{
    let team = w.creeps[i].side.spec_team();
    let from = w.creeps[i].pos;
    if let Some(t) = r {
        match t.kind {
            TargetKind::Hero => {
                let j = choose|j: int|
                    is_nearest_choice(team, from, w.heroes@, Some(j)) && t.id == w.heroes@[j].id;
                assert(eligible(team, from, w.heroes[j]));
                assert(false);
            },
            TargetKind::Creep => {
                let cands = creeps_as_candidates(w.creeps@);
                let j = choose|j: int|
                    is_nearest_choice(team, from, cands, Some(j)) && t.id == cands[j].id;
                assert(eligible(team, from, creep_candidate(w.creeps[j])));
                assert(false);
            },
            TargetKind::Base => {
                let j = choose|j: int|
                    is_nearest_choice(team, from, w.bases@, Some(j)) && t.id == w.bases@[j].id;
                assert(eligible(team, from, w.bases[j]));
                assert(false);
            },
        }
    }
}

/// Positions found in one world hold in another with the same entities at
/// the same places (only other fields moved on).
proof fn lemma_same_entities_keep_at(w1: World, w2: World)
    requires
        w1.heroes == w2.heroes,
        w1.bases == w2.bases,
        w1.creeps.len() == w2.creeps.len(),
        forall|j: int|
            0 <= j < w2.creeps.len() ==> (#[trigger] w2.creeps[j]).id == w1.creeps[j].id
                && w2.creeps[j].pos == w1.creeps[j].pos,
    ensures
        forall|id: u64, p: Pos| #[trigger] entity_at(w2, id, p) ==> entity_at(w1, id, p),
{
    assert forall|id: u64, p: Pos| #[trigger] entity_at(w2, id, p) implies entity_at(
        w1,
        id,
        p,
    ) by {
        if exists|j: int|
            0 <= j < w2.creeps.len() && (#[trigger] w2.creeps[j]).id == id && w2.creeps[j].pos
                == p {
            let j = choose|j: int|
                0 <= j < w2.creeps.len() && (#[trigger] w2.creeps[j]).id == id
                    && w2.creeps[j].pos == p;
            assert(w1.creeps[j].id == id && w1.creeps[j].pos == p);
        }
    }
}

/// How the behavior pass, run against world `w0`, turns creep `pre` into
/// `post`: each state's tick relation, with a pursuing creep steered toward
/// the live position of its engagement target in `w0`.
pub open spec fn behavior_step_ok(w0: World, pre: Creep, post: Creep) -> bool {
    &&& (pre.state is Move ==> move_tick_rel(pre, post, w0.graph))
    &&& (pre.state is Pursuit ==> exists|p: Pos|
        #[trigger] entity_at(w0, pre.pursuit_target->Some_0, p) && pursuit_tick_rel(
            pre,
            post,
            p,
        ))
    &&& (pre.state is Attack ==> post == pre)
}

/// How one whole tick of the state-machine passes, run against world `w0`,
/// turns creep `pre` into `post`: some transition request taken against
/// `w0`, committed, and followed by the committed state's behavior.
pub open spec fn full_tick_rel(w0: World, pre: Creep, post: Creep) -> bool {
    exists|eng: Option<SelectedTarget>, mid: Creep|
        {
            &&& #[trigger] request_step_ok(w0, pre, mid, eng)
            &&& behavior_step_ok(w0, committed_creep(mid, eng, w0.graph), post)
        }
}

/// `ws` is `w0` right after its spawn batch fired with identity headroom:
/// the timer rewound to the full interval, one creep appended per spawn
/// point in spawn-point order, and everything else as it was.
pub open spec fn spawned_from(w0: World, ws: World) -> bool {
    &&& ws.graph == w0.graph
    &&& ws.heroes == w0.heroes
    &&& ws.bases == w0.bases
    &&& ws.spawn_points == w0.spawn_points
    &&& ws.spawn_timer == SPAWN_INTERVAL_MILLIS
    &&& ws.next_id == w0.next_id + w0.spawn_points@.len()
    &&& ws.creeps@.len() == w0.creeps@.len() + w0.spawn_points@.len()
    &&& forall|k: int| 0 <= k < w0.creeps@.len() ==> #[trigger] ws.creeps@[k] == w0.creeps@[k]
    &&& forall|k: int|
        0 <= k < w0.spawn_points@.len() ==> #[trigger] ws.creeps@[w0.creeps@.len() + k]
            == Creep::spec_created(
            (w0.next_id + k) as u64,
            w0.spawn_points@[k].side,
            w0.spawn_points@[k].pos,
            w0.spawn_points@[k].first_waypoint,
            w0.graph,
        )
}

/// A whole tick step taken against one world also holds against another
/// that differs only in fields no pass reads (such as the spawn timer).
proof fn lemma_full_tick_transfer(wa: World, wb: World, pre: Creep, post: Creep)
    requires
        full_tick_rel(wa, pre, post),
        wa.graph == wb.graph,
        wa.heroes == wb.heroes,
        wa.bases == wb.bases,
        wa.creeps == wb.creeps,
    ensures
        full_tick_rel(wb, pre, post),
{
    let (eng, mid) = choose|eng: Option<SelectedTarget>, mid: Creep|
        #[trigger] request_step_ok(wa, pre, mid, eng) && behavior_step_ok(
            wa,
            committed_creep(mid, eng, wa.graph),
            post,
        );
    lemma_same_ids_keep_known(wa, wb);
    assert(request_step_ok(wb, pre, mid, eng)) by {
        if pre.state is Pursuit && !(pre.anim is Attack) {
            let id = pre.pursuit_target->Some_0;
            let p = choose|p: Pos|
                #[trigger] entity_at(wa, id, p) && mid.next_state == pursuit_verdict(pre.pos, p);
            lemma_same_entities_keep_at(wb, wa);
            assert(entity_at(wb, id, p));
        }
    }
    lemma_behavior_step_transfer(wa, wb, committed_creep(mid, eng, wa.graph), post);
    assert(request_step_ok(wb, pre, mid, eng) && behavior_step_ok(
        wb,
        committed_creep(mid, eng, wb.graph),
        post,
    ));
}

/// A behavior step taken against one world also holds against another with
/// the same graph and the same entities at the same places.
proof fn lemma_behavior_step_transfer(wa: World, wb: World, pre: Creep, post: Creep)
    requires
        behavior_step_ok(wa, pre, post),
        wa.graph == wb.graph,
        wa.heroes == wb.heroes,
        wa.bases == wb.bases,
        wa.creeps.len() == wb.creeps.len(),
        forall|j: int|
            0 <= j < wa.creeps.len() ==> (#[trigger] wa.creeps[j]).id == wb.creeps[j].id
                && wa.creeps[j].pos == wb.creeps[j].pos,
    ensures
        behavior_step_ok(wb, pre, post),
{
    if pre.state is Pursuit {
        let id = pre.pursuit_target->Some_0;
        let p = choose|p: Pos| #[trigger] entity_at(wa, id, p) && pursuit_tick_rel(pre, post, p);
        lemma_same_entities_keep_at(wb, wa);
        assert(entity_at(wb, id, p));
    }
}

/// Wherever an entity of a well-formed world stands, its position is in
/// bounds.
proof fn lemma_entity_pos_ok(w: World, id: u64, p: Pos)
    requires
        w.wf(),
        entity_at(w, id, p),
    ensures
        pos_ok(p),
{
    if exists|j: int|
        0 <= j < w.heroes.len() && (#[trigger] w.heroes[j]).id == id && w.heroes[j].pos == p {
        let j = choose|j: int|
            0 <= j < w.heroes.len() && (#[trigger] w.heroes[j]).id == id && w.heroes[j].pos == p;
        assert(pos_ok(w.heroes[j].pos));
    } else if exists|j: int|
        0 <= j < w.creeps.len() && (#[trigger] w.creeps[j]).id == id && w.creeps[j].pos == p {
        let j = choose|j: int|
            0 <= j < w.creeps.len() && (#[trigger] w.creeps[j]).id == id && w.creeps[j].pos == p;
        assert(creep_ok(w, w.creeps[j]));
    } else {
        let j = choose|j: int|
            0 <= j < w.bases.len() && (#[trigger] w.bases[j]).id == id && w.bases[j].pos == p;
        assert(pos_ok(w.bases[j].pos));
    }
}

/// The creep population as a tier of selector candidates.
pub fn creep_candidates(creeps: &Vec<Creep>) -> (v: Vec<Candidate>)
    ensures
        v@ == creeps_as_candidates(creeps@),
{
    let n = creeps.len();
    let mut v: Vec<Candidate> = Vec::new();
    let mut i: usize = 0;
    while i < n
        invariant
            n == creeps.len(),
            i <= n,
            v@.len() == i,
            forall|k: int| 0 <= k < i ==> v@[k] == creep_candidate(#[trigger] creeps@[k]),
        decreases n - i,
    {
        let c = &creeps[i];
        v.push(Candidate { id: c.id, team: c.side.team(), pos: c.pos });
        i = i + 1;
    }
    proof {
        assert(v@ =~= creeps_as_candidates(creeps@));
    }
    v
}

} // verus!
