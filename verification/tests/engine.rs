use sortest_path::INFINITE;
use sortest_path::Matrix;
use sortest_path::PathResult;
use sortest_path::SortestPath;

#[test]
fn test_get_sortest_path() {
    // Prepare the matrix
    let matrix = Matrix::new(
        6,
        6,
        vec![
            01, 04, 02, 00, 00, 00, //
            04, 01, 01, 05, 00, 00, //
            02, 01, 01, 08, 10, 00, //
            00, 05, 08, 01, 02, 06, //
            00, 00, 10, 02, 01, 02, //
            00, 00, 00, 06, 02, 01,
        ],
    );

    // Prepare the expected result
    let expected = vec![
        PathResult(0, 0),
        PathResult(2, 3),
        PathResult(0, 2),
        PathResult(1, 8),
        PathResult(3, 10),
        PathResult(4, 12),
    ];

    // Get the result
    let result = SortestPath::new().get_sortest_path(matrix);

    // Check if the result is correct
    assert_eq!(result, expected);
}

#[test]
fn test_single_vertex() {
    let matrix = Matrix::new(1, 1, vec![0]);
    let result = SortestPath::new().get_sortest_path(matrix);
    assert_eq!(result, vec![PathResult(0, 0)]);
}

#[test]
fn test_source_distance_is_zero() {
    let matrix = Matrix::new(
        3,
        3,
        vec![
            0, 7, 9, //
            7, 0, 2, //
            9, 2, 0,
        ],
    );
    let result = SortestPath::new().get_sortest_path(matrix);
    assert_eq!(result[0].1, 0);
}

#[test]
fn test_unreachable_vertex_keeps_sentinel() {
    // Vertex 2 has no finite-weight edge to anything: weight 0 means
    // "no edge", so it must keep the infinite sentinel distance and the
    // zero predecessor it was initialised with.
    let matrix = Matrix::new(
        3,
        3,
        vec![
            1, 2, 0, //
            2, 1, 0, //
            0, 0, 1,
        ],
    );
    let result = SortestPath::new().get_sortest_path(matrix);
    assert_eq!(
        result,
        vec![PathResult(0, 0), PathResult(0, 2), PathResult(0, INFINITE)]
    );
}

#[test]
fn test_saturating_distances_stay_unreachable() {
    // A path whose weights sum past the sentinel saturates at the
    // sentinel, so the far end still counts as unreachable.
    let huge = u64::MAX - 1;
    let matrix = Matrix::new(
        3,
        3,
        vec![
            0, huge, 0, //
            huge, 0, huge, //
            0, huge, 0,
        ],
    );
    let result = SortestPath::new().get_sortest_path(matrix);
    assert_eq!(
        result,
        vec![PathResult(0, 0), PathResult(0, huge), PathResult(0, INFINITE)]
    );
}

#[test]
fn test_identical_input_identical_output() {
    let data = vec![
        01, 04, 02, 00, 00, 00, //
        04, 01, 01, 05, 00, 00, //
        02, 01, 01, 08, 10, 00, //
        00, 05, 08, 01, 02, 06, //
        00, 00, 10, 02, 01, 02, //
        00, 00, 00, 06, 02, 01,
    ];
    let first = SortestPath::new().get_sortest_path(Matrix::new(6, 6, data.clone()));
    let second = SortestPath::new().get_sortest_path(Matrix::new(6, 6, data));
    assert_eq!(first, second);
}
