//! A single-source shortest-path solver organised as a data-parallel
//! relaxation pipeline: an initialisation stage, then a fixed number of
//! relax/merge rounds, one lane per vertex, followed by extraction of the
//! per-vertex (predecessor, distance) path table.

pub mod laws;
pub mod models;
pub mod pipeline;
pub mod sortest_path;
pub mod state;
pub mod validation;

pub use models::Matrix;
pub use models::PathResult;
pub use models::INFINITE;
pub use sortest_path::SortestPath;
pub use validation::ValidationError;
