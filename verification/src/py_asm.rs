//! Nodes of the indentation-delimited grammar.

pub mod decls;
pub mod exprs;
pub mod stmts;
pub mod types;

pub use decls::{DefArgs, File};
pub use exprs::Expr;
pub use stmts::{Block, Stmt};
pub use types::Type;
