pub mod ast;
pub mod ast_laws;
pub mod cli;
pub mod compile;
pub mod hash;
pub mod hash_laws;
pub mod hir;
pub mod integer;
pub mod integer_laws;
pub mod item;
pub mod list;
pub mod module;
pub mod modules;
pub mod query;
pub mod runtime;
pub mod slice;
pub mod span;
pub mod text;
pub mod text_laws;
