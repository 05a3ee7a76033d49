//! Tests that drive the kernel pipeline stage by stage, observing the
//! state at every round barrier.

use sortest_path::Matrix;
use sortest_path::pipeline::initialize_algorithm_buffers;
use sortest_path::pipeline::merge_sortest_path;
use sortest_path::pipeline::shortest_path_algorithm;

fn test_matrix() -> Matrix {
    Matrix::new(
        6,
        6,
        vec![
            01, 04, 02, 00, 00, 00, //
            04, 01, 01, 05, 00, 00, //
            02, 01, 01, 08, 10, 00, //
            00, 05, 08, 01, 02, 06, //
            00, 00, 10, 02, 01, 02, //
            00, 00, 00, 06, 02, 01,
        ],
    )
}

#[test]
fn test_result_nonincreasing_round_over_round() {
    let matrix = test_matrix();
    let n = matrix.width;
    let mut b = initialize_algorithm_buffers(n);
    let mut previous = b.result.clone();
    for _ in 0..n {
        shortest_path_algorithm(&matrix, &mut b);
        merge_sortest_path(&mut b, n);
        for v in 0..n {
            assert!(b.result[v] <= previous[v]);
        }
        previous = b.result.clone();
    }
}

#[test]
fn test_source_row_invariant_every_round() {
    let matrix = test_matrix();
    let n = matrix.width;
    let mut b = initialize_algorithm_buffers(n);
    assert_eq!(b.result[0], 0);
    assert!(b.visited[0]);
    for _ in 0..n {
        shortest_path_algorithm(&matrix, &mut b);
        merge_sortest_path(&mut b, n);
        assert_eq!(b.result[0], 0);
        assert!(b.visited[0]);
    }
}

#[test]
fn test_visited_flags_cleared_after_merge() {
    let matrix = test_matrix();
    let n = matrix.width;
    let mut b = initialize_algorithm_buffers(n);
    for _ in 0..n {
        shortest_path_algorithm(&matrix, &mut b);
        for v in 0..n {
            assert!(b.visited[v]);
        }
        merge_sortest_path(&mut b, n);
        for v in 1..n {
            assert!(!b.visited[v]);
        }
    }
}

#[test]
fn test_stable_after_convergence() {
    // Once a round changes nothing, further rounds change nothing.
    let matrix = test_matrix();
    let n = matrix.width;
    let mut b = initialize_algorithm_buffers(n);
    for _ in 0..n {
        shortest_path_algorithm(&matrix, &mut b);
        merge_sortest_path(&mut b, n);
    }
    let settled = (b.result.clone(), b.vertex.clone());
    for _ in 0..3 {
        shortest_path_algorithm(&matrix, &mut b);
        merge_sortest_path(&mut b, n);
        assert_eq!(b.result, settled.0);
        assert_eq!(b.vertex, settled.1);
    }
}
