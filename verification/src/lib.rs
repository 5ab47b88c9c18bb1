//! Builders that assemble source text for two target grammars: a brace-delimited
//! one (`go_asm`) and an indentation-delimited one (`py_asm`).
//!
//! Every node wraps the text it renders to. The contracts state that text as a
//! sequence of characters, built from the texts of the node's children.

pub mod go_asm;
pub mod py_asm;
pub mod text;
