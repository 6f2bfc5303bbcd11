//! Iterators over slices.

pub mod iter;
pub mod iter_mut;
pub mod laws;

pub use iter::Iter;
pub use iter_mut::IterMut;
