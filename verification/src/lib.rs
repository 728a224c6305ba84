//! The code-intelligence core of a language server: source positions, node
//! lookup, query handlers and the bookkeeping of incremental compilation.

pub mod ast;
pub mod code_action;
pub mod completion;
pub mod engine;
pub mod error;
pub mod feedback;
pub mod git;
pub mod hover;
pub mod line_numbers;
pub mod manifest;
pub mod module;
pub mod protocol;
pub mod span;
pub mod symbols;
pub mod type_;
pub mod uri;
