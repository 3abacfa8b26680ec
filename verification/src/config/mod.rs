//! Reading a configuration tree: the tree itself, what can be wrong with it,
//! and the parsers that turn it into settings and mutations.

pub mod document;
pub mod error;
pub mod parser;
pub mod tree;
