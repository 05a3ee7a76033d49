use sortest_path::Matrix;
use sortest_path::validation::ValidationError;

#[test]
fn test_empty_matrix_rejected() {
    let matrix = Matrix::new(0, 0, vec![]);
    let err = matrix.validate().unwrap_err();
    assert_eq!(err, ValidationError::Empty);
    assert_eq!(err.message(), "The matrix is empty");
}

#[test]
fn test_non_square_matrix_rejected() {
    let matrix = Matrix::new(2, 3, vec![1, 2, 3, 4, 5, 6]);
    let err = matrix.validate().unwrap_err();
    assert_eq!(err, ValidationError::NotSquare);
    assert_eq!(err.message(), "The matrix is not square");
}

#[test]
fn test_too_big_matrix_rejected() {
    let matrix = Matrix::new(129, 129, vec![1]);
    let err = matrix.validate().unwrap_err();
    assert_eq!(err, ValidationError::TooBig);
    assert_eq!(err.message(), "The matrix is too big");
}

#[test]
fn test_mismatched_dimensions_rejected() {
    // Declared as 3 x 3 but carrying 49 entries.
    let matrix = Matrix::new(3, 3, vec![0; 49]);
    let err = matrix.validate().unwrap_err();
    assert_eq!(err, ValidationError::SizeMismatch);
    assert_eq!(
        err.message(),
        "The matrix size and dimensions are not the same"
    );
}

#[test]
fn test_valid_matrix_accepted() {
    let matrix = Matrix::new(
        6,
        6,
        vec![
            01, 04, 02, 00, 00, 00, //
            04, 01, 01, 05, 00, 00, //
            02, 01, 01, 08, 10, 00, //
            00, 05, 08, 01, 02, 06, //
            00, 00, 10, 02, 01, 02, //
            00, 00, 00, 06, 02, 01,
        ],
    );
    assert!(matrix.validate().is_ok());
}

#[test]
fn test_largest_accepted_size() {
    let matrix = Matrix::new(128, 128, vec![0; 128 * 128]);
    assert!(matrix.validate().is_ok());
}

#[test]
fn test_validation_order_empty_first() {
    // Empty and non-square at once: emptiness is reported first.
    let matrix = Matrix::new(2, 3, vec![]);
    assert_eq!(matrix.validate().unwrap_err(), ValidationError::Empty);
}
