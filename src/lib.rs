//! Small vectors: sequences that keep up to `N` elements in their initial
//! buffer and move to a larger buffer once that inline capacity is exceeded.

pub mod iter;
pub mod laws;
pub mod small_vec;
pub mod vec_like;

pub use iter::{SmallVecIterator, SmallVecMoveIterator, SmallVecMutIterator};
pub use small_vec::{
    SmallVec, SmallVec1, SmallVec16, SmallVec2, SmallVec24, SmallVec32, SmallVec4, SmallVec8,
};
pub use vec_like::VecLike;
