//! A parser for the Nix expression language, with its abstract syntax tree,
//! its token stream and the partial-result machinery used for error recovery.

pub mod span;
pub mod text;
pub mod error;
pub mod parser;
pub mod ast;
pub mod lexer;
