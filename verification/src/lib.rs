//! Front end of a minimal imperative scripting language: a recursive-descent
//! parser that turns source text into a concrete syntax tree, an AST layer
//! that imposes structural invariants on that tree, and a code generator that
//! lowers the AST into a function-oriented intermediate representation.
pub mod ast;
pub mod errors;
pub mod escape;
pub mod grammar;
pub mod ir;
pub mod ll_code_gen;
pub mod parser;
pub mod provider;
pub mod symbol_table;
pub mod text;

pub use grammar::Rule;
pub use grammar::SyntaxNode;
