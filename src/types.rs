//! Type names.
use vstd::prelude::*;
use crate::cursor::{advanced, outcome, peek, peek_is};
use crate::error::{ParseError, Production};
use crate::expression::parse_expression;
use crate::grammar::{
    array_type_name, dist, function_type_name, is_modifier, mapping, modifiers, name_segments,
    parameter_items, parameter_list, typename, user_defined_type_name,
};
use crate::token::{Sym, Token};
use crate::tree::ParseNode;

verus! {

fn is_modifier_keyword(k: &Token) -> (r: bool)
    ensures
        r == is_modifier(*k),
{
    match k {
        Token::Symbol(s) => *s == Sym::Internal || *s == Sym::External || *s == Sym::Pure || *s
            == Sym::Constant || *s == Sym::View || *s == Sym::Payable,
        _ => false,
    }
}

/// A type name: a user-defined name, a mapping, a function type, or an
/// elementary type with an optional array suffix.
pub fn parse_type_name(tokens: &Vec<Token>, cur: &mut usize) -> (r: Result<ParseNode, ParseError>)
    requires
        *old(cur) <= tokens.len(),
    ensures
        outcome(&r, *old(cur), *final(cur)) == typename(tokens@, *old(cur) as int),
        advanced(&r, *old(cur), *final(cur), tokens.len()),
    decreases dist(tokens@, *old(cur) as int), 1nat,
{
    let k = peek(tokens, *cur);
    if matches!(k, Token::Identifier(_)) {
        parse_user_defined_type_name(tokens, cur)
    } else if k.is(Sym::Mapping) {
        parse_mapping(tokens, cur)
    } else if k.is(Sym::Function) {
        parse_function_type_name(tokens, cur)
    } else if k.is_elementary_type() {
        *cur = *cur + 1;
        parse_array_type_name(tokens, cur, k.to_leaf())
    } else {
        Err(ParseError::SyntaxError(Production::TypeName))
    }
}

/// Dot-separated identifiers, as one flat `.` node over the segments.
pub fn parse_user_defined_type_name(tokens: &Vec<Token>, cur: &mut usize) -> (r: Result<
    ParseNode,
    ParseError,
>)
    requires
        *old(cur) <= tokens.len(),
    ensures
        outcome(&r, *old(cur), *final(cur)) == user_defined_type_name(tokens@, *old(cur) as int),
        advanced(&r, *old(cur), *final(cur), tokens.len()),
{
    parse_name_segments(tokens, cur, Token::Symbol(Sym::Dot).to_leaf())
}

fn parse_name_segments(tokens: &Vec<Token>, cur: &mut usize, acc: ParseNode) -> (r: Result<
    ParseNode,
    ParseError,
>)
    requires
        *old(cur) <= tokens.len(),
    ensures
        outcome(&r, *old(cur), *final(cur)) == name_segments(tokens@, *old(cur) as int, acc@),
        advanced(&r, *old(cur), *final(cur), tokens.len()),
    decreases dist(tokens@, *old(cur) as int),
{
    let segment = peek(tokens, *cur);
    if !matches!(segment, Token::Identifier(_)) {
        return Err(ParseError::SyntaxError(Production::UserDefinedTypeName));
    }
    let mut acc = acc;
    acc.add_child(segment);
    if peek_is(tokens, *cur + 1, Sym::Dot) {
        *cur = *cur + 2;
        parse_name_segments(tokens, cur, acc)
    } else {
        *cur = *cur + 1;
        Ok(acc)
    }
}

/// `mapping ( elementary => TypeName )`, as Mapping[key, value].
pub fn parse_mapping(tokens: &Vec<Token>, cur: &mut usize) -> (r: Result<ParseNode, ParseError>)
    requires
        *old(cur) <= tokens.len(),
    ensures
        outcome(&r, *old(cur), *final(cur)) == mapping(tokens@, *old(cur) as int),
        advanced(&r, *old(cur), *final(cur), tokens.len()),
    decreases dist(tokens@, *old(cur) as int), 0nat,
{
    if !peek_is(tokens, *cur, Sym::Mapping) || !peek_is(tokens, *cur + 1, Sym::OpenParenthesis) {
        return Err(ParseError::SyntaxError(Production::Mapping));
    }
    let key = peek(tokens, *cur + 2);
    if !key.is_elementary_type() || !peek_is(tokens, *cur + 3, Sym::Arrow) {
        return Err(ParseError::SyntaxError(Production::Mapping));
    }
    *cur = *cur + 4;
    match parse_type_name(tokens, cur) {
        Ok(value) => {
            if peek_is(tokens, *cur, Sym::CloseParenthesis) {
                *cur = *cur + 1;
                let mut node = Token::Symbol(Sym::Mapping).to_leaf();
                node.add_child(key);
                node.attach(value);
                Ok(node)
            } else {
                Err(ParseError::SyntaxError(Production::Mapping))
            }
        },
        Err(e) => Err(e),
    }
}

/// `function ( types ) modifiers [returns ( types )]`, as Function[params,
/// modifier leaves..., Returns[results] when present].
pub fn parse_function_type_name(tokens: &Vec<Token>, cur: &mut usize) -> (r: Result<
    ParseNode,
    ParseError,
>)
    requires
        *old(cur) <= tokens.len(),
    ensures
        outcome(&r, *old(cur), *final(cur)) == function_type_name(tokens@, *old(cur) as int),
        advanced(&r, *old(cur), *final(cur), tokens.len()),
    decreases dist(tokens@, *old(cur) as int), 0nat,
{
    if !peek_is(tokens, *cur, Sym::Function) {
        return Err(ParseError::SyntaxError(Production::FunctionType));
    }
    *cur = *cur + 1;
    let params = match parse_function_type_parameter_list(tokens, cur) {
        Ok(params) => params,
        Err(e) => return Err(e),
    };
    let mut head = Token::Symbol(Sym::Function).to_leaf();
    head.attach(params);
    parse_modifiers(tokens, cur, &mut head);
    if peek_is(tokens, *cur, Sym::Returns) {
        *cur = *cur + 1;
        match parse_function_type_parameter_list(tokens, cur) {
            Ok(results) => {
                let mut clause = Token::Symbol(Sym::Returns).to_leaf();
                clause.attach(results);
                head.attach(clause);
                Ok(head)
            },
            Err(e) => Err(e),
        }
    } else {
        Ok(head)
    }
}

/// Consumes modifier keywords, appending each to `head` as a leaf.
fn parse_modifiers(tokens: &Vec<Token>, cur: &mut usize, head: &mut ParseNode)
    requires
        *old(cur) <= tokens.len(),
    ensures
        modifiers(tokens@, *old(cur) as int, old(head)@) == (
            final(head)@,
            (*final(cur) - *old(cur)) as nat,
        ),
        *old(cur) <= *final(cur) <= tokens.len(),
    decreases dist(tokens@, *old(cur) as int),
{
    let k = peek(tokens, *cur);
    if is_modifier_keyword(&k) {
        *cur = *cur + 1;
        head.add_child(k);
        parse_modifiers(tokens, cur, head);
    }
}

/// `( TypeName, ... )`, as a `(` node over the types.
pub fn parse_function_type_parameter_list(tokens: &Vec<Token>, cur: &mut usize) -> (r: Result<
    ParseNode,
    ParseError,
>)
    requires
        *old(cur) <= tokens.len(),
    ensures
        outcome(&r, *old(cur), *final(cur)) == parameter_list(tokens@, *old(cur) as int),
        advanced(&r, *old(cur), *final(cur), tokens.len()),
    decreases dist(tokens@, *old(cur) as int), 0nat,
{
    if !peek_is(tokens, *cur, Sym::OpenParenthesis) {
        return Err(ParseError::SyntaxError(Production::ParameterList));
    }
    *cur = *cur + 1;
    match parse_parameter_items(tokens, cur, Token::Symbol(Sym::OpenParenthesis).to_leaf()) {
        Ok(list) => {
            if peek_is(tokens, *cur, Sym::CloseParenthesis) {
                *cur = *cur + 1;
                Ok(list)
            } else {
                Err(ParseError::SyntaxError(Production::ParameterList))
            }
        },
        Err(e) => Err(e),
    }
}

fn parse_parameter_items(tokens: &Vec<Token>, cur: &mut usize, acc: ParseNode) -> (r: Result<
    ParseNode,
    ParseError,
>)
    requires
        *old(cur) <= tokens.len(),
    ensures
        outcome(&r, *old(cur), *final(cur)) == parameter_items(tokens@, *old(cur) as int, acc@),
        advanced(&r, *old(cur), *final(cur), tokens.len()),
    decreases dist(tokens@, *old(cur) as int), 2nat,
{
    if peek_is(tokens, *cur, Sym::CloseParenthesis) {
        return Ok(acc);
    }
    match parse_type_name(tokens, cur) {
        Ok(ty) => {
            let mut acc = acc;
            acc.attach(ty);
            if peek_is(tokens, *cur, Sym::Comma) {
                *cur = *cur + 1;
                parse_parameter_items(tokens, cur, acc)
            } else {
                Ok(acc)
            }
        },
        Err(e) => Err(e),
    }
}

/// An optional `[ size ]` after the elementary type `left`: `left` itself
/// without a bracket, else a `[` node over `left` and the size, the size
/// left out for a dynamic array.
pub fn parse_array_type_name(tokens: &Vec<Token>, cur: &mut usize, left: ParseNode) -> (r: Result<
    ParseNode,
    ParseError,
>)
    requires
        *old(cur) <= tokens.len(),
    ensures
        outcome(&r, *old(cur), *final(cur)) == array_type_name(tokens@, *old(cur) as int, left@),
        advanced(&r, *old(cur), *final(cur), tokens.len()),
    decreases dist(tokens@, *old(cur) as int), 0nat,
{
    if !peek_is(tokens, *cur, Sym::OpenBracket) {
        return Ok(left);
    }
    *cur = *cur + 1;
    match parse_expression(tokens, cur) {
        Ok(size) => {
            if peek_is(tokens, *cur, Sym::CloseBracket) {
                *cur = *cur + 1;
                let mut node = Token::Symbol(Sym::OpenBracket).to_leaf();
                node.attach(left);
                if !matches!(size.node, Token::NoMatch) {
                    node.attach(size);
                }
                Ok(node)
            } else {
                Err(ParseError::SyntaxError(Production::ArrayTypeName))
            }
        },
        Err(e) => Err(e),
    }
}

} // verus!
