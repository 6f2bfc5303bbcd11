//! Lowering of syntax trees.

mod blocks;
mod calls;
mod closures;
mod control;
mod exprs;
mod leaf;
mod paths;
mod pats;

pub use blocks::block;
pub use closures::{empty_fn, item_fn};
pub use exprs::expr;
pub use leaf::{
    check_object_fields, expr_path_meta, gives, lit, missing_path, object_kind, object_pat_kind,
    pat_const_value, pat_items_count, struct_match_for, tuple_match_for, tuple_pat_kind, viewed,
    viewed_object,
};
pub use pats::pat;
