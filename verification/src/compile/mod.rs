//! What the stages of the compiler share.

pub mod error;
pub mod meta;
pub mod meta_laws;
