//! Front end of a small interpreted language: a recursive-descent parser that
//! turns a token stream into a syntax tree, and the error aggregates through
//! which every pipeline stage reports its failures.

pub mod ast;
pub mod errors;
pub mod grammar;
pub mod laws;
pub mod parser;
pub mod token;
