//! Laws of the relaxation pipeline, stated over the model in
//! [`crate::state`] and proved for every well-formed input.

use vstd::prelude::*;

use crate::models::INFINITE;
use crate::state::State;
use crate::state::best_candidate;
use crate::state::init_state;
use crate::state::is_edge;
use crate::state::path_table;
use crate::state::round;
use crate::state::rounds;
use crate::state::state_wf;
use crate::state::weight_at;

verus! {

/// Every stage keeps the five buffers sized by the vertex count, so the
/// state after any number of rounds is well formed.
pub proof fn lemma_rounds_wf(data: Seq<u64>, n: nat, s: State, k: nat)
    requires
        state_wf(s, n),
    ensures
        state_wf(rounds(data, n, s, k), n),
    decreases k,
{
    if k > 0 {
        lemma_rounds_wf(data, n, s, (k - 1) as nat);
    }
}

/// Law: the source's distance is zero at every round. Vertex 0 starts at
/// distance 0 with its visited flag permanently set, no merge can commit
/// a smaller distance, and no stage clears the source's flag.
pub proof fn lemma_source_distance_zero(data: Seq<u64>, n: nat, k: nat)
    requires
        1 <= n,
    ensures
        rounds(data, n, init_state(n), k).result[0] == 0,
        rounds(data, n, init_state(n), k).visited[0],
    decreases k,
{
    if k > 0 {
        lemma_source_distance_zero(data, n, (k - 1) as nat);
    }
}

/// Law: one relaxation round never increases any committed distance:
/// relaxation leaves the committed distances alone and the merge commits
/// a candidate only when it is a strict improvement.
pub proof fn lemma_round_nonincreasing(data: Seq<u64>, n: nat, s: State, v: int)
    requires
        state_wf(s, n),
        0 <= v < n,
    ensures
        round(data, n, s).result[v] <= s.result[v],
{
}

/// Law: the committed distance of every vertex is non-increasing round
/// over round across the whole run (monotonic convergence).
pub proof fn lemma_rounds_monotonic(data: Seq<u64>, n: nat, k1: nat, k2: nat, v: int)
    requires
        1 <= n,
        0 <= v < n,
        k1 <= k2,
    ensures
        rounds(data, n, init_state(n), k2).result[v] <= rounds(
            data,
            n,
            init_state(n),
            k1,
        ).result[v],
    decreases k2,
{
    if k1 < k2 {
        lemma_rounds_monotonic(data, n, k1, (k2 - 1) as nat, v);
        lemma_rounds_wf(data, n, init_state(n), (k2 - 1) as nat);
        lemma_round_nonincreasing(data, n, rounds(data, n, init_state(n), (k2 - 1) as nat), v);
    }
}

/// Law: stability. Once a round changes nothing, every further round
/// changes nothing: the pipeline's state is stable from that point on.
pub proof fn lemma_stable(data: Seq<u64>, n: nat, s: State, k: nat)
    requires
        round(data, n, s) == s,
    ensures
        rounds(data, n, s, k) == s,
    decreases k,
{
    if k > 0 {
        lemma_stable(data, n, s, (k - 1) as nat);
    }
}

/// A lane with no edge among `0..upto` has no candidate: the fold over
/// its row stays at the sentinel and the zero predecessor.
proof fn lemma_no_edge_candidate(data: Seq<u64>, n: nat, result: Seq<u64>, v: int, upto: int)
    requires
        forall|e: int| 0 <= e < upto ==> !is_edge(weight_at(data, n, v, e)),
    ensures
        best_candidate(data, n, result, v, upto) == (INFINITE, 0usize),
    decreases upto,
{
    if upto > 0 {
        lemma_no_edge_candidate(data, n, result, v, upto - 1);
    }
}

/// Law: a vertex other than the source with no finite-weight edge at all
/// retains the infinite sentinel distance and the zero predecessor it was
/// initialised with, at every round.
pub proof fn lemma_isolated_vertex(data: Seq<u64>, n: nat, v: int, k: nat)
    requires
        1 <= n,
        1 <= v < n,
        forall|e: int| 0 <= e < n ==> !is_edge(weight_at(data, n, v, e)),
    ensures
        rounds(data, n, init_state(n), k).result[v] == INFINITE,
        rounds(data, n, init_state(n), k).vertex[v] == 0,
        !rounds(data, n, init_state(n), k).visited[v],
    decreases k,
{
    if k > 0 {
        lemma_isolated_vertex(data, n, v, (k - 1) as nat);
        let s = rounds(data, n, init_state(n), (k - 1) as nat);
        lemma_no_edge_candidate(data, n, s.result, v, n as int);
    }
}

/// Law: determinism. The path table is a function of the adjacency matrix
/// and the vertex count alone, so identical input gives identical output
/// on every run.
pub proof fn lemma_deterministic(data1: Seq<u64>, data2: Seq<u64>, n1: nat, n2: nat)
    requires
        data1 == data2,
        n1 == n2,
    ensures
        path_table(data1, n1) == path_table(data2, n2),
{
}

} // verus!
