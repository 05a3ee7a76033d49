//! Data model: the adjacency matrix submitted by a caller and the
//! per-vertex entry of the resulting path table.

use vstd::prelude::*;

verus! {

/// Reserved sentinel weight and distance: stands for "no edge" / "not
/// reachable". A weight of `0` also means "no edge" (true zero-cost edges
/// are unrepresentable under this convention).
pub const INFINITE: u64 = u64::MAX;

/// A row-major `width` x `height` weighted adjacency matrix.
#[derive(Debug, Clone)]
pub struct Matrix {
    pub width: usize,
    pub height: usize,
    pub data: Vec<u64>,
}

impl Matrix {
    /// The shape the compute engine assumes: non-empty, square, at most
    /// 128 vertices, and the flattened data exactly filling the square.
    pub open spec fn wf(self) -> bool {
        &&& self.width == self.height
        &&& 1 <= self.width <= 128
        &&& self.data@.len() == self.width * self.width
    }

    pub fn new(width: usize, height: usize, data: Vec<u64>) -> (m: Matrix)
        ensures
            m.width == width,
            m.height == height,
            m.data == data,
    {
        Matrix { width, height, data }
    }
}

/// One entry of the path table: the best known predecessor of a vertex and
/// its best known distance from the source (vertex 0).
#[derive(Debug, Clone, Copy, PartialEq, Eq, Structural)]
pub struct PathResult(pub usize, pub u64);

} // verus!
