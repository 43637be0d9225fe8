//! A tree-walking interpreter for a minimal Lisp-like language.
//!
//! Text is tokenized into a flat token stream, parsed into an [`exp::Exp`]
//! tree, and evaluated against a chain of scopes backed by a global table.

pub mod builtins;
pub mod env;
pub mod err;
pub mod eval;
pub mod exp;
pub mod lambda;
pub mod list;
pub mod numtext;
pub mod parser;
pub mod props;
pub mod render;
pub mod semantics;
pub mod table;
pub mod tokenizer;
