//! Reading the token sequence through a cursor.
use vstd::prelude::*;
use crate::error::ParseError;
use crate::grammar::{Parsed, at, tok};
use crate::token::{Sym, Token};
use crate::tree::ParseNode;

verus! {

/// What a run of a production from cursor `before` to `after` amounts to,
/// in the terms of the grammar.
pub open spec fn outcome(r: &Result<ParseNode, ParseError>, before: usize, after: usize) -> Parsed {
    match r {
        Ok(n) => Ok((n@, (after - before) as nat)),
        Err(e) => Err(*e),
    }
}

/// A successful run moved the cursor forward and not past the input.
pub open spec fn advanced(
    r: &Result<ParseNode, ParseError>,
    before: usize,
    after: usize,
    len: usize,
) -> bool {
    r is Ok ==> before <= after <= len
}

/// The token at `cur`, without consuming it.
pub fn peek(tokens: &Vec<Token>, cur: usize) -> (r: Token)
    ensures
        r == tok(tokens@, cur as int),
{
    if cur < tokens.len() {
        tokens[cur].duplicate()
    } else {
        Token::NoMatch
    }
}

/// Whether the token at `cur` is the symbol `s`.
pub fn peek_is(tokens: &Vec<Token>, cur: usize, s: Sym) -> (r: bool)
    ensures
        r == at(tokens@, cur as int, s),
{
    cur < tokens.len() && tokens[cur].is(s)
}

} // verus!
