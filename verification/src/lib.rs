//! Mutations of `Vec`, `VecDeque` and a small inline array that take the
//! collection by value and hand it back, so that they can be chained.

pub mod laws;
pub mod model;
pub mod room;
mod smallvec;
mod vec;
mod vecdeque;

pub use smallvec::{AllocFailure, FunctionalSmallVec, SmallArray};
pub use vec::FunctionalVec;
pub use vecdeque::FunctionalVecDeque;
