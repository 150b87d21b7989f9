//! The path graph: an arena of waypoints with explicit successor indices.
//! Each lane is a singly linked chain of waypoints; the terminal waypoint has
//! no successor, so advancing past it holds position there.

use vstd::prelude::*;
use crate::geom::{Pos, pos_ok};

verus! {

/// One waypoint: a position and the index of the next waypoint in its lane,
/// absent on the terminal waypoint.
#[derive(Clone, Copy, Debug)]
pub struct Waypoint {
    pub pos: Pos,
    pub next: Option<usize>,
}

/// An immutable arena of waypoints, indexed by handle. Built once during
/// world setup and only read afterwards.
#[derive(Debug)]
pub struct PathGraph {
    pub waypoints: Vec<Waypoint>,
}

impl PathGraph {
    /// Every successor index points into the arena and every position is in
    /// bounds.
    pub open spec fn wf(self) -> bool {
        forall|i: int|
            0 <= i < self.waypoints.len() ==> {
                &&& pos_ok(#[trigger] self.waypoints[i].pos)
                &&& (self.waypoints[i].next matches Some(n) ==> n < self.waypoints.len())
            }
    }

    pub open spec fn spec_len(self) -> nat {
        self.waypoints@.len()
    }

    /// Where a creep standing at waypoint `i` advances to: the successor, or
    /// `i` itself at the end of the lane.
    pub open spec fn advance_of(self, i: int) -> int {
        match self.waypoints[i].next {
            Some(n) => n as int,
            None => i,
        }
    }

    pub fn new() -> (g: PathGraph)
        ensures
            g.wf(),
            g.spec_len() == 0,
    {
        PathGraph { waypoints: Vec::new() }
    }

    pub fn len(&self) -> (n: usize)
        ensures
            n == self.spec_len(),
    {
        self.waypoints.len()
    }

    /// The position of waypoint `i`.
    pub fn waypoint_pos(&self, i: usize) -> (p: Pos)
        requires
            i < self.spec_len(),
        ensures
            p == self.waypoints[i as int].pos,
    {
        self.waypoints[i].pos
    }

    /// Advance from waypoint `i`: its successor, or `i` itself when the lane
    /// ends there.
    pub fn advance(&self, i: usize) -> (n: usize)
        requires
            self.wf(),
            i < self.spec_len(),
        ensures
            n == self.advance_of(i as int),
            n < self.spec_len(),
    {
        proof {
            assert(pos_ok(self.waypoints[i as int].pos));
        }
        match self.waypoints[i].next {
            Some(n) => n,
            None => i,
        }
    }

    /// Append one waypoint whose successor, if any, is already in the arena;
    /// returns its handle. Lanes are therefore built from their terminal
    /// waypoint backwards.
    pub fn push_waypoint(&mut self, pos: Pos, next: Option<usize>) -> (i: usize)
        requires
            old(self).wf(),
            pos_ok(pos),
            next matches Some(n) ==> n < old(self).spec_len(),
        ensures
            final(self).wf(),
            i == old(self).spec_len(),
            final(self).spec_len() == old(self).spec_len() + 1,
            final(self).waypoints[i as int] == (Waypoint { pos, next }),
            forall|j: int| 0 <= j < old(self).spec_len()
                ==> final(self).waypoints[j] == old(self).waypoints[j],
    {
        let i = self.waypoints.len();
        self.waypoints.push(Waypoint { pos, next });
        i
    }

    /// Append a whole lane given front to back; returns the handle of its
    /// first waypoint. Traversal order is the order of `points`, and the last
    /// point becomes the terminal waypoint.
    pub fn add_lane(&mut self, points: &Vec<Pos>) -> (first: usize)
        requires
            old(self).wf(),
            points.len() > 0,
            old(self).spec_len() + points.len() <= usize::MAX,
            forall|k: int| 0 <= k < points.len() ==> pos_ok(#[trigger] points[k]),
        ensures
            final(self).wf(),
            first == old(self).spec_len(),
            final(self).spec_len() == old(self).spec_len() + points.len(),
            // waypoint k of the lane carries point k and links to waypoint k + 1
            forall|k: int|
                0 <= k < points.len() ==> {
                    &&& (#[trigger] final(self).waypoints[first + k]).pos == points[k]
                    &&& final(self).waypoints[first + k].next == (if k + 1 < points.len() {
                        Some((first + k + 1) as usize)
                    } else {
                        None::<usize>
                    })
                },
            forall|j: int| 0 <= j < old(self).spec_len()
                ==> final(self).waypoints[j] == old(self).waypoints[j],
    {
        let first = self.waypoints.len();
        let count = points.len();
        let mut k: usize = 0;
        while k < count
            invariant
                // successors may point just past the current end, but never
                // past the finished lane
                forall|i: int|
                    0 <= i < self.waypoints.len() ==> {
                        &&& pos_ok(#[trigger] self.waypoints[i].pos)
                        &&& (self.waypoints[i].next matches Some(n) ==> n < first + count)
                    },
                count == points.len(),
                first == old(self).spec_len(),
                k <= count,
                first + count <= usize::MAX,
                self.spec_len() == first + k,
                forall|m: int|
                    0 <= m < k ==> {
                        &&& (#[trigger] self.waypoints[first + m]).pos == points[m]
                        &&& self.waypoints[first + m].next == (if m + 1 < count as int {
                            Some((first + m + 1) as usize)
                        } else {
                            None::<usize>
                        })
                    },
                forall|k: int| 0 <= k < points.len() ==> pos_ok(#[trigger] points[k]),
                forall|j: int| 0 <= j < old(self).spec_len()
                    ==> self.waypoints[j] == old(self).waypoints[j],
            decreases count - k,
        {
            let next: Option<usize> = if k + 1 < count {
                Some(first + k + 1)
            } else {
                None
            };
            self.waypoints.push(Waypoint { pos: points[k], next });
            k = k + 1;
        }
        first
    }
}

} // verus!
