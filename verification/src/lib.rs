//! A small calculator language: a lexer, a context-sensitive recursive-descent
//! parser, and a tree-walking interpreter that computes with arbitrary-precision
//! numbers.
//!
//! A line such as `f(x) = 2x + 1` or `sqrt(16) + 3!` is turned into either a
//! stored declaration (variable or function) or a numeric result. Parsing
//! consults the symbol environment: whether `sqrt64` is a call and whether `xy`
//! is one variable or `x*y` depends on what has been declared before.

pub mod ast;
pub mod lexer;
pub mod parser;
pub mod symbol_table;
