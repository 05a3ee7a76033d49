//! The validation boundary: the shape checks a matrix must pass before
//! the compute engine ever runs, with the exact rejection messages, in
//! the exact order the checks are applied.

use vstd::prelude::*;

use crate::models::Matrix;

verus! {

/// Why a submitted matrix was rejected, one variant per check, applied
/// in this order: emptiness, squareness, the size cap, then consistency
/// of the declared dimensions with the flattened data.
#[derive(Debug, Clone, Copy, PartialEq, Eq, Structural)]
pub enum ValidationError {
    Empty,
    NotSquare,
    TooBig,
    SizeMismatch,
}

/// The boundary's message for each rejection.
pub open spec fn message_view(e: ValidationError) -> Seq<char> {
    match e {
        ValidationError::Empty => "The matrix is empty"@,
        ValidationError::NotSquare => "The matrix is not square"@,
        ValidationError::TooBig => "The matrix is too big"@,
        ValidationError::SizeMismatch => "The matrix size and dimensions are not the same"@,
    }
}

impl ValidationError {
    /// The message the boundary reports for this rejection.
    pub fn message(&self) -> (r: &'static str)
        ensures
            r@ == message_view(*self),
    {
        match *self {
            ValidationError::Empty => "The matrix is empty",
            ValidationError::NotSquare => "The matrix is not square",
            ValidationError::TooBig => "The matrix is too big",
            ValidationError::SizeMismatch => "The matrix size and dimensions are not the same",
        }
    }
}

impl Matrix {
    /// Validate the matrix for the compute engine: it is accepted exactly
    /// when it is well formed for the engine, and rejected with the first
    /// failing check otherwise.
    pub fn validate(&self) -> (r: Result<(), ValidationError>)
        ensures
            r is Ok <==> self.wf(),
            r == Err::<(), ValidationError>(ValidationError::Empty) <==> self.data@.len() == 0,
            r == Err::<(), ValidationError>(ValidationError::NotSquare) <==> (self.data@.len() != 0
                && self.width != self.height),
            r == Err::<(), ValidationError>(ValidationError::TooBig) <==> (self.data@.len() != 0
                && self.width == self.height && self.height > 128),
            r == Err::<(), ValidationError>(ValidationError::SizeMismatch) <==> (self.data@.len()
                != 0 && self.width == self.height && self.height <= 128 && self.width
                * self.height != self.data@.len()),
    {
        if self.data.len() == 0 {
            proof {
                assert(self.width >= 1 ==> self.width * self.width >= 1) by (nonlinear_arith);
            }
            Err(ValidationError::Empty)
        } else if self.width != self.height {
            Err(ValidationError::NotSquare)
        } else if self.height > 128 {
            Err(ValidationError::TooBig)
        } else {
            proof {
                assert(self.width * self.height <= 128 * 128) by (nonlinear_arith)
                    requires
                        self.width <= 128,
                        self.height <= 128,
                ;
            }
            if self.width * self.height != self.data.len() {
                Err(ValidationError::SizeMismatch)
            } else {
                proof {
                    assert(self.width >= 1) by (nonlinear_arith)
                        requires
                            self.width * self.height == self.data@.len(),
                            self.data@.len() != 0,
                    ;
                }
                Ok(())
            }
        }
    }
}

} // verus!
