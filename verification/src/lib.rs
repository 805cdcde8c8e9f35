//! A tree-walking interpreter for a small, dynamically typed, lexically
//! scoped scripting language.
//!
//! Source text is scanned into tokens, parsed into an abstract syntax tree,
//! statically resolved (each variable use is annotated with its lexical scope
//! distance), and finally evaluated against a chain of mutable environments.
//! Numbers are IEEE-754 double-precision values, carried everywhere as their
//! 64-bit representations.

pub mod ast;
pub mod laws;
pub mod number;
pub mod parser;
pub mod resolver;
pub mod scanner;
pub mod semantics;
pub mod interpreter;
pub mod text;
pub mod environment;
pub mod error;
pub mod value;
pub mod token;
