//! A verified construction layer for a small simply-typed lambda calculus:
//! it turns tagged parse trees into a well-formed abstract syntax tree,
//! enforcing the arity and tag legality of every construct.

pub mod ast;
pub mod builder;
pub mod parse_tree;
