//! A recursive-descent parser with precedence climbing for a small
//! expression language: tokens in, syntax trees out.
pub mod ast;
pub mod cli;
pub mod parser;
pub mod token;
pub mod laws;
