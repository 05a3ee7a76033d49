//! The shortest-path service: the iteration controller that drives one
//! Init dispatch and then exactly N relax/merge rounds (N = vertex
//! count), and the extractor that assembles the final path table.

use vstd::prelude::*;

use crate::laws::lemma_source_distance_zero;
use crate::models::Matrix;
use crate::models::PathResult;
use crate::pipeline::initialize_algorithm_buffers;
use crate::pipeline::merge_sortest_path;
use crate::pipeline::shortest_path_algorithm;
use crate::state::final_state;
use crate::state::init_state;
use crate::state::path_table;
use crate::state::rounds;
use crate::state::state_wf;

verus! {

/// The shortest-path compute engine. It holds no per-request state: the
/// buffer set lives for one request and is released when the request's
/// computation ends.
pub struct SortestPath {}

impl SortestPath {
    /// Create a new instance of the engine.
    pub fn new() -> SortestPath {
        SortestPath {  }
    }

    /// Run the full pipeline on a validated matrix: one Init dispatch,
    /// then exactly `matrix.width` relax/merge rounds, each stage
    /// completing before the next begins, and extract the per-vertex
    /// (predecessor, distance) path table in vertex-id order.
    ///
    /// The caller must have validated the matrix (see
    /// [`Matrix::validate`]); the engine does not re-validate.
    pub fn get_sortest_path(&self, matrix: Matrix) -> (r: Vec<PathResult>)
        requires
            matrix.wf(),
        ensures
            r@ == path_table(matrix.data@, matrix.width as nat),
            r@.len() == matrix.width,
            r@[0].1 == 0,
    {
        let n = matrix.width;
        let mut b = initialize_algorithm_buffers(n);
        let mut i: usize = 0;
        while i < n
            invariant
                i <= n,
                n == matrix.width,
                matrix.wf(),
                b@ == rounds(matrix.data@, n as nat, init_state(n as nat), i as nat),
                state_wf(b@, n as nat),
            decreases n - i,
        {
            shortest_path_algorithm(&matrix, &mut b);
            merge_sortest_path(&mut b, n);
            i += 1;
        }
        let mut r: Vec<PathResult> = Vec::new();
        let mut x: usize = 0;
        while x < n
            invariant
                x <= n,
                n == matrix.width,
                matrix.wf(),
                b@ == final_state(matrix.data@, n as nat),
                state_wf(b@, n as nat),
                r@.len() == x,
                forall|j: int| 0 <= j < x ==> r@[j] == PathResult(b@.vertex[j], b@.result[j]),
            decreases n - x,
        {
            r.push(PathResult(b.vertex[x], b.result[x]));
            x += 1;
        }
        proof {
            assert(r@ =~= path_table(matrix.data@, n as nat));
            lemma_source_distance_zero(matrix.data@, n as nat, n as nat);
        }
        r
    }
}

} // verus!
