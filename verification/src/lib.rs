//! Front end for a small shading language: a scanner that turns source text
//! into a token stream, and a predictive (LL(1)) recursive-descent parser that
//! recognizes the token stream against a fixed grammar and builds abstract
//! syntax trees for expressions.

pub mod ast;
pub mod chars;
pub mod coords;
pub mod parse_model;
pub mod parser;
pub mod scan_model;
pub mod scanner;
pub mod token;
