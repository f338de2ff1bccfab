//! A recursive-descent parser for version 0.4.25 of the Solidity contract
//! language. It turns the lexer's token sequence into a concrete parse tree:
//! pragmas, contracts and their enum parts, type names, and expressions,
//! whose operator precedence is fixed up by rotating nodes. Every parsing
//! function is proved equal to the grammar written as spec functions in
//! `grammar`.
pub mod cursor;
pub mod declaration;
pub mod error;
pub mod expression;
pub mod grammar;
pub mod lemmas;
pub mod token;
pub mod tree;
pub mod types;
