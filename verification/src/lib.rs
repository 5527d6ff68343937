//! The core of a language server for Gleam projects: an overlay of unsaved
//! edits over the files on disk, the bookkeeping round each compilation, and
//! the queries an editor asks of the compiled modules.

pub mod ast;
pub mod diagnostic;
pub mod error;
pub mod feedback;
pub mod fs;
pub mod line_numbers;
pub mod lsp;
pub mod module;
pub mod server;
pub mod table;
pub mod term;
pub mod text;
pub mod type_;
pub mod warning;
