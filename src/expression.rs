//! Expressions and the operator resolver.
use vstd::prelude::*;
use crate::cursor::{advanced, outcome, peek, peek_is};
use crate::error::{ParseError, Production};
use crate::grammar::{
    call_arguments, dist, expression, expression_list, is_atom, is_unary, name_values, operation,
    sym_leaf, tuple_items,
};
use crate::token::{Sym, Token, absorbs};
use crate::tree::{ParseNode, Tree};
use crate::types::parse_type_name;

verus! {

const ASSIGNMENT_TIER: u8 = 13;

fn starts_atom(k: &Token) -> (r: bool)
    ensures
        r == is_atom(*k),
{
    match k {
        Token::Identifier(_) | Token::HexLiteral(_) | Token::StringLiteral(_) => true,
        Token::Symbol(s) => *s == Sym::True || *s == Sym::False || s.is_elementary_type(),
        _ => false,
    }
}

fn is_prefix_operator(k: &Token) -> (r: bool)
    ensures
        r == is_unary(*k),
{
    match k {
        Token::Symbol(s) => *s == Sym::Exclamation || *s == Sym::Tilda || *s == Sym::Delete || *s
            == Sym::Increment || *s == Sym::Decrement || *s == Sym::Plus || *s == Sym::Minus,
        _ => false,
    }
}

/// Whether `inner`, atop the right operand of `op`, is rotated above it.
pub fn absorbs_operator(op: &Token, inner: &Token) -> (r: bool)
    ensures
        r == absorbs(*op, *inner),
{
    let a = op.tier();
    let b = inner.tier();
    a > 0 && b > 0 && a < ASSIGNMENT_TIER && b >= a
}

/// Completes the operator node `cur` with its eagerly parsed right operand.
pub fn combine(cur: ParseNode, right: ParseNode) -> (r: ParseNode)
    ensures
        r@ == Tree::combine(cur@, right@),
{
    if right.children.len() == 2 && right.node.tier() > 0 && absorbs_operator(&cur.node, &right.node) {
        cur.merge_expressions(right)
    } else {
        let mut cur = cur;
        cur.attach(right);
        cur
    }
}

/// An expression from the cursor on: a primary or prefix form, then every
/// operator that follows. Where no expression starts, a `NoMatch` node and
/// nothing consumed.
pub fn parse_expression(tokens: &Vec<Token>, cur: &mut usize) -> (r: Result<ParseNode, ParseError>)
    requires
        *old(cur) <= tokens.len(),
    ensures
        outcome(&r, *old(cur), *final(cur)) == expression(tokens@, *old(cur) as int),
        advanced(&r, *old(cur), *final(cur), tokens.len()),
    decreases dist(tokens@, *old(cur) as int), 0nat,
{
    let k = peek(tokens, *cur);
    if k.is(Sym::New) {
        *cur = *cur + 1;
        match parse_type_name(tokens, cur) {
            Ok(ty) => {
                let mut node = k.to_leaf();
                node.attach(ty);
                parse_operation(tokens, cur, node)
            },
            Err(e) => Err(e),
        }
    } else if matches!(k, Token::DecimalNumber(_) | Token::HexNumber(_)) {
        *cur = *cur + 1;
        let unit = peek(tokens, *cur);
        let mut literal = k.to_leaf();
        if unit.is_number_unit() {
            *cur = *cur + 1;
            literal.add_child(unit);
        }
        parse_operation(tokens, cur, literal)
    } else if starts_atom(&k) {
        *cur = *cur + 1;
        parse_operation(tokens, cur, k.to_leaf())
    } else if k.is(Sym::OpenParenthesis) {
        *cur = *cur + 1;
        match parse_tuple_items(tokens, cur, Token::Symbol(Sym::OpenParenthesis).to_leaf()) {
            Ok(tuple) => parse_operation(tokens, cur, tuple),
            Err(e) => Err(e),
        }
    } else if is_prefix_operator(&k) {
        *cur = *cur + 1;
        match parse_expression(tokens, cur) {
            Ok(operand) => {
                let mut node = k.to_leaf();
                node.attach(operand);
                Ok(node)
            },
            Err(e) => Err(e),
        }
    } else {
        Ok(ParseNode::empty())
    }
}

/// The elements of a parenthesised expression, from after `(` through the
/// closing `)`, appended to `acc`.
fn parse_tuple_items(tokens: &Vec<Token>, cur: &mut usize, acc: ParseNode) -> (r: Result<
    ParseNode,
    ParseError,
>)
    requires
        *old(cur) <= tokens.len(),
    ensures
        outcome(&r, *old(cur), *final(cur)) == tuple_items(tokens@, *old(cur) as int, acc@),
        advanced(&r, *old(cur), *final(cur), tokens.len()),
    decreases dist(tokens@, *old(cur) as int), 1nat,
{
    match parse_expression(tokens, cur) {
        Ok(e) => {
            let mut acc = acc;
            acc.attach(e);
            if peek_is(tokens, *cur, Sym::Comma) {
                *cur = *cur + 1;
                parse_tuple_items(tokens, cur, acc)
            } else if peek_is(tokens, *cur, Sym::CloseParenthesis) {
                *cur = *cur + 1;
                Ok(acc)
            } else {
                Err(ParseError::SyntaxError(Production::Tuple))
            }
        },
        Err(e) => Err(e),
    }
}

/// The operator resolver: extends the finished operand `left` by whatever
/// operators follow. Postfix forms (`++`, `--`, `[ ]`, `.name`, a call) wrap
/// `left` and go on left to right; a binary, ternary or assignment operator
/// takes all the rest of the expression as its right operand and rotates
/// where that operand's top operator binds no tighter than its own.
#[verifier::rlimit(40)]
pub fn parse_operation(tokens: &Vec<Token>, cur: &mut usize, left: ParseNode) -> (r: Result<
    ParseNode,
    ParseError,
>)
    requires
        *old(cur) <= tokens.len(),
    ensures
        outcome(&r, *old(cur), *final(cur)) == operation(tokens@, *old(cur) as int, left@),
        advanced(&r, *old(cur), *final(cur), tokens.len()),
    decreases dist(tokens@, *old(cur) as int), 0nat,
{
    let k = peek(tokens, *cur);
    if k.is(Sym::Increment) || k.is(Sym::Decrement) {
        *cur = *cur + 1;
        let mut node = k.to_leaf();
        node.attach(left);
        parse_operation(tokens, cur, node)
    } else if k.is(Sym::OpenBracket) {
        *cur = *cur + 1;
        match parse_expression(tokens, cur) {
            Ok(index) => {
                if peek_is(tokens, *cur, Sym::CloseBracket) {
                    *cur = *cur + 1;
                    let mut node = k.to_leaf();
                    node.attach(left);
                    node.attach(index);
                    parse_operation(tokens, cur, node)
                } else {
                    Err(ParseError::SyntaxError(Production::ArrayAccess))
                }
            },
            Err(e) => Err(e),
        }
    } else if k.is(Sym::Dot) {
        *cur = *cur + 1;
        let member = peek(tokens, *cur);
        if matches!(member, Token::Identifier(_)) {
            *cur = *cur + 1;
            let mut node = k.to_leaf();
            node.attach(left);
            node.add_child(member);
            parse_operation(tokens, cur, node)
        } else {
            Err(ParseError::SyntaxError(Production::MemberAccess))
        }
    } else if k.is(Sym::OpenParenthesis) {
        *cur = *cur + 1;
        match parse_function_call_arguments(tokens, cur) {
            Ok(args) => {
                let mut node = Token::Symbol(Sym::Function).to_leaf();
                node.attach(left);
                node.attach(args);
                parse_operation(tokens, cur, node)
            },
            Err(e) => Err(e),
        }
    } else if k.tier() > 0 {
        *cur = *cur + 1;
        let mut node = k.to_leaf();
        node.attach(left);
        match parse_expression(tokens, cur) {
            Ok(right) => Ok(combine(node, right)),
            Err(e) => Err(e),
        }
    } else {
        Ok(left)
    }
}

/// Call arguments, from after `(` through the closing `)`: a name-value
/// list in braces, or else an expression list.
pub fn parse_function_call_arguments(tokens: &Vec<Token>, cur: &mut usize) -> (r: Result<
    ParseNode,
    ParseError,
>)
    requires
        *old(cur) <= tokens.len(),
    ensures
        outcome(&r, *old(cur), *final(cur)) == call_arguments(tokens@, *old(cur) as int),
        advanced(&r, *old(cur), *final(cur), tokens.len()),
    decreases dist(tokens@, *old(cur) as int), 3nat,
{
    if peek_is(tokens, *cur, Sym::OpenBrace) {
        *cur = *cur + 1;
        match parse_name_value_list(tokens, cur) {
            Ok(list) => {
                if peek_is(tokens, *cur, Sym::CloseBrace) && peek_is(
                    tokens,
                    *cur + 1,
                    Sym::CloseParenthesis,
                ) {
                    *cur = *cur + 2;
                    Ok(list)
                } else {
                    Err(ParseError::SyntaxError(Production::FunctionCall))
                }
            },
            Err(e) => Err(e),
        }
    } else {
        match parse_expression_list(tokens, cur) {
            Ok(list) => {
                if peek_is(tokens, *cur, Sym::CloseParenthesis) {
                    *cur = *cur + 1;
                    Ok(list)
                } else {
                    Err(ParseError::SyntaxError(Production::FunctionCall))
                }
            },
            Err(e) => Err(e),
        }
    }
}

/// `name : expression` pairs separated by commas, as a `{` node over one
/// `:` node per pair.
pub fn parse_name_value_list(tokens: &Vec<Token>, cur: &mut usize) -> (r: Result<
    ParseNode,
    ParseError,
>)
    requires
        *old(cur) <= tokens.len(),
    ensures
        outcome(&r, *old(cur), *final(cur)) == name_values(
            tokens@,
            *old(cur) as int,
            sym_leaf(Sym::OpenBrace),
        ),
        advanced(&r, *old(cur), *final(cur), tokens.len()),
    decreases dist(tokens@, *old(cur) as int), 1nat,
{
    parse_name_values(tokens, cur, Token::Symbol(Sym::OpenBrace).to_leaf())
}

fn parse_name_values(tokens: &Vec<Token>, cur: &mut usize, acc: ParseNode) -> (r: Result<
    ParseNode,
    ParseError,
>)
    requires
        *old(cur) <= tokens.len(),
    ensures
        outcome(&r, *old(cur), *final(cur)) == name_values(tokens@, *old(cur) as int, acc@),
        advanced(&r, *old(cur), *final(cur), tokens.len()),
    decreases dist(tokens@, *old(cur) as int), 0nat,
{
    let name = peek(tokens, *cur);
    if matches!(name, Token::Identifier(_)) {
        if peek_is(tokens, *cur + 1, Sym::Colon) {
            *cur = *cur + 2;
            match parse_expression(tokens, cur) {
                Ok(value) => {
                    let mut pair = Token::Symbol(Sym::Colon).to_leaf();
                    pair.add_child(name);
                    pair.attach(value);
                    let mut acc = acc;
                    acc.attach(pair);
                    if peek_is(tokens, *cur, Sym::Comma) {
                        *cur = *cur + 1;
                        parse_name_values(tokens, cur, acc)
                    } else {
                        Ok(acc)
                    }
                },
                Err(e) => Err(e),
            }
        } else {
            Err(ParseError::SyntaxError(Production::NameValueList))
        }
    } else {
        Ok(acc)
    }
}

/// Expressions separated by commas, as a `(` node over them; stops at the
/// first position where no expression starts.
pub fn parse_expression_list(tokens: &Vec<Token>, cur: &mut usize) -> (r: Result<
    ParseNode,
    ParseError,
>)
    requires
        *old(cur) <= tokens.len(),
    ensures
        outcome(&r, *old(cur), *final(cur)) == expression_list(
            tokens@,
            *old(cur) as int,
            sym_leaf(Sym::OpenParenthesis),
        ),
        advanced(&r, *old(cur), *final(cur), tokens.len()),
    decreases dist(tokens@, *old(cur) as int), 2nat,
{
    parse_expression_items(tokens, cur, Token::Symbol(Sym::OpenParenthesis).to_leaf())
}

fn parse_expression_items(tokens: &Vec<Token>, cur: &mut usize, acc: ParseNode) -> (r: Result<
    ParseNode,
    ParseError,
>)
    requires
        *old(cur) <= tokens.len(),
    ensures
        outcome(&r, *old(cur), *final(cur)) == expression_list(tokens@, *old(cur) as int, acc@),
        advanced(&r, *old(cur), *final(cur), tokens.len()),
    decreases dist(tokens@, *old(cur) as int), 1nat,
{
    match parse_expression(tokens, cur) {
        Ok(e) => {
            if matches!(e.node, Token::NoMatch) {
                Ok(acc)
            } else {
                let mut acc = acc;
                acc.attach(e);
                if peek_is(tokens, *cur, Sym::Comma) {
                    *cur = *cur + 1;
                    parse_expression_items(tokens, cur, acc)
                } else {
                    Ok(acc)
                }
            }
        },
        Err(e) => Err(e),
    }
}

} // verus!
