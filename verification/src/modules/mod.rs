//! The modules that come with the language.

pub mod hash_map;
pub mod hash_map_call_laws;
pub mod hash_map_calls;
mod hash_map_docs;
pub mod hash_map_laws;
pub mod installed_laws;
pub mod json;
pub mod native;
pub mod test;
pub mod test_macro_laws;
pub mod test_macros;
pub mod token_laws;
pub mod tokens;
pub mod vec_args;

pub use hash_map::HashMap;
