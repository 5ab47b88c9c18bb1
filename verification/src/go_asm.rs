//! Nodes of the brace-delimited grammar.

pub mod exprs;
pub mod package;
pub mod stmts;
pub mod types;

pub use exprs::Expr;
pub use package::{Decl, Package};
pub use stmts::{Block, Stmt};
pub use types::{IfaceFn, Type};
