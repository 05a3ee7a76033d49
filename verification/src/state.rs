//! Mathematical model of the compute pipeline.
//!
//! A `State` is the abstract content of the five mutable per-request
//! buffers (the sixth, the adjacency matrix, is read-only input). The
//! three stage functions (`init_state`, `relax`, `merge`) say what one
//! dispatch of each kernel stage does to that content: every lane `v`
//! (one per vertex) reads the shared buffers and writes only its own
//! index, so a stage is a pointwise map over the previous state, and the
//! stage barrier between dispatches is modelled by each stage reading the
//! completed state of the one before it. `rounds` iterates relax+merge,
//! and `path_table` is the extracted answer.

use vstd::prelude::*;

use crate::models::INFINITE;
use crate::models::PathResult;

verus! {

/// Abstract content of the per-request buffers: committed distances,
/// candidate distances from the current relax pass, visited flags,
/// committed predecessors, and candidate predecessors.
#[verifier::ext_equal]
pub struct State {
    pub result: Seq<u64>,
    pub distance: Seq<u64>,
    pub visited: Seq<bool>,
    pub vertex: Seq<usize>,
    pub vertex_temp: Seq<usize>,
}

/// All five buffers are sized by the vertex count.
pub open spec fn state_wf(s: State, n: nat) -> bool {
    &&& s.result.len() == n
    &&& s.distance.len() == n
    &&& s.visited.len() == n
    &&& s.vertex.len() == n
    &&& s.vertex_temp.len() == n
}

/// The weight of the edge from vertex `v` to vertex `e` in a row-major
/// flattened `n` x `n` adjacency matrix.
pub open spec fn weight_at(data: Seq<u64>, n: nat, v: int, e: int) -> u64 {
    data[v * n + e]
}

/// Weight `0` and the infinite sentinel both mean "no edge".
pub open spec fn is_edge(w: u64) -> bool {
    w != 0 && w != INFINITE
}

/// Distance addition saturating at the infinite sentinel, so that a path
/// through an unreached vertex (distance `INFINITE`) stays unreachable.
pub open spec fn sat_add(a: u64, b: u64) -> u64 {
    if a + b >= INFINITE {
        INFINITE
    } else {
        (a + b) as u64
    }
}

/// The best relaxation candidate for lane `v` over the edges `0..upto`:
/// the least `result[e] + weight(v, e)` over the edges that exist, paired
/// with the earliest neighbour `e` that attains it. `(INFINITE, 0)` when
/// no edge qualifies.
pub open spec fn best_candidate(
    data: Seq<u64>,
    n: nat,
    result: Seq<u64>,
    v: int,
    upto: int,
) -> (u64, usize)
    decreases upto,
{
    if upto <= 0 {
        (INFINITE, 0usize)
    } else {
        let prev = best_candidate(data, n, result, v, upto - 1);
        let e = upto - 1;
        let w = weight_at(data, n, v, e);
        if is_edge(w) && sat_add(result[e], w) < prev.0 {
            (sat_add(result[e], w), e as usize)
        } else {
            prev
        }
    }
}

/// The state after the Init dispatch over `n` lanes: the source (vertex 0)
/// has distance 0 and is permanently visited; every other vertex starts
/// unvisited at the infinite sentinel; no candidates, no predecessors.
pub open spec fn init_state(n: nat) -> State {
    State {
        result: Seq::new(n, |v: int| if v == 0 { 0u64 } else { INFINITE }),
        distance: Seq::new(n, |v: int| INFINITE),
        visited: Seq::new(n, |v: int| v == 0),
        vertex: Seq::new(n, |v: int| 0usize),
        vertex_temp: Seq::new(n, |v: int| 0usize),
    }
}

/// One Relax dispatch: an unvisited lane marks itself visited and rebuilds
/// its candidate (distance and originating neighbour) from scratch over
/// all `n` possible edges; a lane already visited leaves its candidate
/// as it stands. Committed distances and predecessors are untouched.
pub open spec fn relax(data: Seq<u64>, n: nat, s: State) -> State {
    State {
        result: s.result,
        distance: Seq::new(
            n,
            |v: int|
                if s.visited[v] {
                    s.distance[v]
                } else {
                    best_candidate(data, n, s.result, v, n as int).0
                },
        ),
        visited: Seq::new(n, |v: int| true),
        vertex: s.vertex,
        vertex_temp: Seq::new(
            n,
            |v: int|
                if s.visited[v] {
                    s.vertex_temp[v]
                } else {
                    best_candidate(data, n, s.result, v, n as int).1
                },
        ),
    }
}

/// One Merge dispatch: a lane whose candidate strictly improves on its
/// committed distance commits the candidate and its predecessor; then
/// every lane but the source clears its visited flag so it is eligible
/// for relaxation again next round.
pub open spec fn merge(n: nat, s: State) -> State {
    State {
        result: Seq::new(
            n,
            |v: int| if s.distance[v] < s.result[v] { s.distance[v] } else { s.result[v] },
        ),
        distance: s.distance,
        visited: Seq::new(n, |v: int| if v == 0 { s.visited[0] } else { false }),
        vertex: Seq::new(
            n,
            |v: int| if s.distance[v] < s.result[v] { s.vertex_temp[v] } else { s.vertex[v] },
        ),
        vertex_temp: s.vertex_temp,
    }
}

/// One relaxation round: a Relax dispatch followed by a Merge dispatch.
pub open spec fn round(data: Seq<u64>, n: nat, s: State) -> State {
    merge(n, relax(data, n, s))
}

/// The state after `k` relaxation rounds from `s`.
pub open spec fn rounds(data: Seq<u64>, n: nat, s: State, k: nat) -> State
    decreases k,
{
    if k == 0 {
        s
    } else {
        round(data, n, rounds(data, n, s, (k - 1) as nat))
    }
}

/// The state the iteration controller stops at: one Init dispatch, then
/// exactly `n` rounds, the worst-case bound for relaxation convergence.
pub open spec fn final_state(data: Seq<u64>, n: nat) -> State {
    rounds(data, n, init_state(n), n)
}

/// The externally visible answer: for each vertex id in ascending order,
/// its committed predecessor and committed distance after the final round.
pub open spec fn path_table(data: Seq<u64>, n: nat) -> Seq<PathResult> {
    Seq::new(n, |v: int| PathResult(final_state(data, n).vertex[v], final_state(data, n).result[v]))
}

} // verus!
