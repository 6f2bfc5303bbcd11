//! The command line interface.

pub mod diff;
pub mod format;
pub mod format_laws;
pub mod output;
pub mod paths;
pub mod run;
pub mod run_laws;
pub mod trace;
pub mod trace_laws;

pub use output::{AssetKind, Color, ExitCode, Output, Piece, Target};
