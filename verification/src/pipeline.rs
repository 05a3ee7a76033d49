//! Executable kernel pipeline: the per-request buffer set and the three
//! stage dispatches, each proved to effect exactly the stage function of
//! the model in [`crate::state`].
//!
//! Within a stage every lane writes only its own index and reads buffers
//! no lane of the same stage writes (relaxation reads the committed
//! distances, which only the merge stage writes), so no intra-stage race
//! exists and a sequential sweep over the lanes computes the same state
//! that the data-parallel dispatch commits at its barrier.

use vstd::prelude::*;

use crate::models::INFINITE;
use crate::models::Matrix;
use crate::state::State;
use crate::state::best_candidate;
use crate::state::init_state;
use crate::state::merge;
use crate::state::relax;
use crate::state::sat_add;
use crate::state::state_wf;
use crate::state::weight_at;

verus! {

/// The per-request buffer set, sized by the vertex count: committed
/// distances, candidate distances, visited flags, committed predecessors
/// and candidate predecessors. The adjacency matrix is the sixth,
/// read-only input and stays in the caller's `Matrix`.
pub struct Buffers {
    pub result: Vec<u64>,
    pub distance: Vec<u64>,
    pub visited: Vec<bool>,
    pub vertex: Vec<usize>,
    pub vertex_temp: Vec<usize>,
}

impl View for Buffers {
    type V = State;

    open spec fn view(&self) -> State {
        State {
            result: self.result@,
            distance: self.distance@,
            visited: self.visited@,
            vertex: self.vertex@,
            vertex_temp: self.vertex_temp@,
        }
    }
}

/// Distance addition saturating at the infinite sentinel, so a candidate
/// through an unreached vertex stays at the sentinel.
fn saturating_add(a: u64, b: u64) -> (r: u64)
    ensures
        r == sat_add(a, b),
{
    if b >= INFINITE - a {
        INFINITE
    } else {
        a + b
    }
}

/// The Init stage: one dispatch over `n` lanes. Lane 0 commits distance 0
/// and a set visited flag; every other lane the infinite sentinel and a
/// cleared flag; all lanes clear their candidate and predecessor entries.
pub fn initialize_algorithm_buffers(n: usize) -> (b: Buffers)
    requires
        1 <= n,
    ensures
        b@ == init_state(n as nat),
{
    let mut b = Buffers {
        result: Vec::new(),
        distance: Vec::new(),
        visited: Vec::new(),
        vertex: Vec::new(),
        vertex_temp: Vec::new(),
    };
    let mut v: usize = 0;
    while v < n
        invariant
            v <= n,
            b.result@.len() == v,
            b.distance@.len() == v,
            b.visited@.len() == v,
            b.vertex@.len() == v,
            b.vertex_temp@.len() == v,
            forall|j: int| 0 <= j < v ==> b.result@[j] == (if j == 0 { 0u64 } else { INFINITE }),
            forall|j: int| 0 <= j < v ==> b.distance@[j] == INFINITE,
            forall|j: int| 0 <= j < v ==> b.visited@[j] == (j == 0),
            forall|j: int| 0 <= j < v ==> b.vertex@[j] == 0usize,
            forall|j: int| 0 <= j < v ==> b.vertex_temp@[j] == 0usize,
        decreases n - v,
    {
        if v == 0 {
            b.result.push(0);
            b.visited.push(true);
        } else {
            b.result.push(INFINITE);
            b.visited.push(false);
        }
        b.distance.push(INFINITE);
        b.vertex.push(0);
        b.vertex_temp.push(0);
        v += 1;
    }
    proof {
        assert(b@.result =~= init_state(n as nat).result);
        assert(b@.distance =~= init_state(n as nat).distance);
        assert(b@.visited =~= init_state(n as nat).visited);
        assert(b@.vertex =~= init_state(n as nat).vertex);
        assert(b@.vertex_temp =~= init_state(n as nat).vertex_temp);
    }
    b
}

/// The Relax stage: one dispatch over `n` lanes against the committed
/// state left by the previous barrier. An unvisited lane marks itself
/// visited and rebuilds its candidate over all `n` possible neighbours;
/// a visited lane leaves its candidate as it stands.
pub fn shortest_path_algorithm(matrix: &Matrix, b: &mut Buffers)
    requires
        matrix.wf(),
        state_wf(old(b)@, matrix.width as nat),
    ensures
        final(b)@ == relax(matrix.data@, matrix.width as nat, old(b)@),
{
    let n = matrix.width;
    let ghost s0 = b@;
    let mut v: usize = 0;
    while v < n
        invariant
            v <= n,
            n == matrix.width,
            matrix.wf(),
            state_wf(s0, n as nat),
            b.result@ == s0.result,
            b.vertex@ == s0.vertex,
            b.distance@.len() == n,
            b.visited@.len() == n,
            b.vertex_temp@.len() == n,
            forall|j: int| 0 <= j < v ==> b.visited@[j] == true,
            forall|j: int| v <= j < n ==> b.visited@[j] == s0.visited[j],
            forall|j: int|
                0 <= j < v ==> b.distance@[j] == (if s0.visited[j] {
                    s0.distance[j]
                } else {
                    best_candidate(matrix.data@, n as nat, s0.result, j, n as int).0
                }),
            forall|j: int| v <= j < n ==> b.distance@[j] == s0.distance[j],
            forall|j: int|
                0 <= j < v ==> b.vertex_temp@[j] == (if s0.visited[j] {
                    s0.vertex_temp[j]
                } else {
                    best_candidate(matrix.data@, n as nat, s0.result, j, n as int).1
                }),
            forall|j: int| v <= j < n ==> b.vertex_temp@[j] == s0.vertex_temp[j],
        decreases n - v,
    {
        if !b.visited[v] {
            b.visited.set(v, true);
            let mut best: u64 = INFINITE;
            let mut pred: usize = 0;
            let mut e: usize = 0;
            while e < n
                invariant
                    e <= n,
                    v < n,
                    n == matrix.width,
                    matrix.wf(),
                    b.result@ == s0.result,
                    s0.result.len() == n,
                    best == best_candidate(matrix.data@, n as nat, s0.result, v as int, e as int).0,
                    pred == best_candidate(matrix.data@, n as nat, s0.result, v as int, e as int).1,
                decreases n - e,
            {
                proof {
                    assert(v * n + e < n * n && n * n <= 128 * 128) by (nonlinear_arith)
                        requires
                            v < n,
                            e < n,
                            n <= 128,
                    ;
                }
                let w = matrix.data[v * n + e];
                if w != 0 && w != INFINITE {
                    let d = saturating_add(b.result[e], w);
                    if d < best {
                        best = d;
                        pred = e;
                    }
                }
                e += 1;
            }
            b.distance.set(v, best);
            b.vertex_temp.set(v, pred);
        }
        v += 1;
    }
    proof {
        assert(b@.result =~= relax(matrix.data@, n as nat, s0).result);
        assert(b@.distance =~= relax(matrix.data@, n as nat, s0).distance);
        assert(b@.visited =~= relax(matrix.data@, n as nat, s0).visited);
        assert(b@.vertex =~= relax(matrix.data@, n as nat, s0).vertex);
        assert(b@.vertex_temp =~= relax(matrix.data@, n as nat, s0).vertex_temp);
    }
}

/// The Merge stage: one dispatch over `n` lanes. A lane whose candidate
/// strictly improves its committed distance commits the candidate and its
/// predecessor; every lane but lane 0 then clears its visited flag.
pub fn merge_sortest_path(b: &mut Buffers, n: usize)
    requires
        1 <= n,
        state_wf(old(b)@, n as nat),
    ensures
        final(b)@ == merge(n as nat, old(b)@),
{
    let ghost s0 = b@;
    let mut v: usize = 0;
    while v < n
        invariant
            v <= n,
            state_wf(s0, n as nat),
            b.distance@ == s0.distance,
            b.vertex_temp@ == s0.vertex_temp,
            b.result@.len() == n,
            b.vertex@.len() == n,
            b.visited@.len() == n,
            forall|j: int|
                0 <= j < v ==> b.result@[j] == (if s0.distance[j] < s0.result[j] {
                    s0.distance[j]
                } else {
                    s0.result[j]
                }),
            forall|j: int| v <= j < n ==> b.result@[j] == s0.result[j],
            forall|j: int|
                0 <= j < v ==> b.vertex@[j] == (if s0.distance[j] < s0.result[j] {
                    s0.vertex_temp[j]
                } else {
                    s0.vertex[j]
                }),
            forall|j: int| v <= j < n ==> b.vertex@[j] == s0.vertex[j],
            forall|j: int|
                0 <= j < v ==> b.visited@[j] == (if j == 0 {
                    s0.visited[0]
                } else {
                    false
                }),
            forall|j: int| v <= j < n ==> b.visited@[j] == s0.visited[j],
        decreases n - v,
    {
        if b.distance[v] < b.result[v] {
            let d = b.distance[v];
            let p = b.vertex_temp[v];
            b.result.set(v, d);
            b.vertex.set(v, p);
        }
        if v != 0 {
            b.visited.set(v, false);
        }
        v += 1;
    }
    proof {
        assert(b@.result =~= merge(n as nat, s0).result);
        assert(b@.distance =~= merge(n as nat, s0).distance);
        assert(b@.visited =~= merge(n as nat, s0).visited);
        assert(b@.vertex =~= merge(n as nat, s0).vertex);
        assert(b@.vertex_temp =~= merge(n as nat, s0).vertex_temp);
    }
}

} // verus!
