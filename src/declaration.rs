//! Top-level declarations: pragma, import, contract, library, interface.
use vstd::prelude::*;
use vstd::string::StrSliceExecFns;
use crate::cursor::{advanced, outcome, peek, peek_is};
use crate::error::{ParseError, Production, SourceIssue};
use crate::expression::parse_expression_list;
use crate::grammar::{
    contract, contract_body, contract_part, contract_parts, declarations, dist, enum_definition,
    enum_members, import_rest, inheritance_list, inheritance_specifier, pragma, source_unit,
};
use crate::token::{Sym, Token};
use crate::tree::{ParseNode, ParseTree, Tree};
use crate::types::parse_user_defined_type_name;

verus! {

/// Whether `s` holds exactly the characters of `lit`.
fn same_text(s: &String, lit: &str) -> (r: bool)
    ensures
        r == (s@ == lit@),
{
    let a = s.as_str();
    let n = a.unicode_len();
    if n != lit.unicode_len() {
        return false;
    }
    let mut i: usize = 0;
    while i < n
        invariant
            a@ == s@,
            n == a@.len(),
            n == lit@.len(),
            i <= n,
            forall|j: int| 0 <= j < i ==> a@[j] == lit@[j],
        decreases n - i,
    {
        if a.get_char(i) != lit.get_char(i) {
            return false;
        }
        i = i + 1;
    }
    assert(a@ =~= lit@);
    true
}

/// `pragma solidity <version> ;` where the version is `0.4.25` or
/// `^0.4.25`, as Pragma[Identifier, Version].
pub fn parse_pragma(tokens: &Vec<Token>, cur: &mut usize) -> (r: Result<ParseNode, ParseError>)
    requires
        *old(cur) <= tokens.len(),
    ensures
        outcome(&r, *old(cur), *final(cur)) == pragma(tokens@, *old(cur) as int),
        advanced(&r, *old(cur), *final(cur), tokens.len()),
{
    if !peek_is(tokens, *cur, Sym::Pragma) {
        return Err(ParseError::SyntaxError(Production::Pragma));
    }
    let name = peek(tokens, *cur + 1);
    match &name {
        Token::Identifier(text) => {
            if !same_text(text, "solidity") {
                return Err(ParseError::SourceFileError(SourceIssue::UnsupportedTarget));
            }
        },
        _ => return Err(ParseError::SyntaxError(Production::Pragma)),
    }
    let version = peek(tokens, *cur + 2);
    match &version {
        Token::Version(text) => {
            if !same_text(text, "0.4.25") && !same_text(text, "^0.4.25") {
                return Err(ParseError::SourceFileError(SourceIssue::UnsupportedVersion));
            }
        },
        _ => return Err(ParseError::SyntaxError(Production::Pragma)),
    }
    if !peek_is(tokens, *cur + 3, Sym::Semicolon) {
        return Err(ParseError::SyntaxError(Production::Pragma));
    }
    *cur = *cur + 4;
    let mut node = Token::Symbol(Sym::Pragma).to_leaf();
    node.add_child(name);
    node.add_child(version);
    Ok(node)
}

/// Skips an import directive after `import`, through its `;` or the end of
/// the input; imports are not resolved.
pub fn parse_import(tokens: &Vec<Token>, cur: &mut usize)
    requires
        *old(cur) <= tokens.len(),
    ensures
        *final(cur) == *old(cur) + import_rest(tokens@, *old(cur) as int),
        *final(cur) <= tokens.len(),
    decreases dist(tokens@, *old(cur) as int),
{
    if *cur < tokens.len() {
        let at_end = tokens[*cur].is(Sym::Semicolon);
        *cur = *cur + 1;
        if !at_end {
            parse_import(tokens, cur);
        }
    }
}

/// `enum Name { A, B, ... }`, as Enum[Identifier, {[members]}]; a trailing
/// comma is tolerated and no member is required.
pub fn parse_enum_definition(tokens: &Vec<Token>, cur: &mut usize) -> (r: Result<
    ParseNode,
    ParseError,
>)
    requires
        *old(cur) <= tokens.len(),
    ensures
        outcome(&r, *old(cur), *final(cur)) == enum_definition(tokens@, *old(cur) as int),
        advanced(&r, *old(cur), *final(cur), tokens.len()),
{
    if !peek_is(tokens, *cur, Sym::Enum) {
        return Err(ParseError::SyntaxError(Production::Enum));
    }
    let name = peek(tokens, *cur + 1);
    if !matches!(name, Token::Identifier(_)) || !peek_is(tokens, *cur + 2, Sym::OpenBrace) {
        return Err(ParseError::SyntaxError(Production::Enum));
    }
    *cur = *cur + 3;
    let mut members = Token::Symbol(Sym::OpenBrace).to_leaf();
    parse_enum_members(tokens, cur, &mut members);
    if !peek_is(tokens, *cur, Sym::CloseBrace) {
        return Err(ParseError::SyntaxError(Production::Enum));
    }
    *cur = *cur + 1;
    let mut node = Token::Symbol(Sym::Enum).to_leaf();
    node.add_child(name);
    node.attach(members);
    Ok(node)
}

fn parse_enum_members(tokens: &Vec<Token>, cur: &mut usize, acc: &mut ParseNode)
    requires
        *old(cur) <= tokens.len(),
    ensures
        enum_members(tokens@, *old(cur) as int, old(acc)@) == (
            final(acc)@,
            (*final(cur) - *old(cur)) as nat,
        ),
        *old(cur) <= *final(cur) <= tokens.len(),
    decreases dist(tokens@, *old(cur) as int),
{
    let member = peek(tokens, *cur);
    if matches!(member, Token::Identifier(_)) {
        acc.add_child(member);
        if peek_is(tokens, *cur + 1, Sym::Comma) {
            *cur = *cur + 2;
            parse_enum_members(tokens, cur, acc);
        } else {
            *cur = *cur + 1;
        }
    }
}

/// A user-defined type name, then optional `( arguments )`, as a `(` node
/// over the name and the argument list.
pub fn parse_inheritance_specifier(tokens: &Vec<Token>, cur: &mut usize) -> (r: Result<
    ParseNode,
    ParseError,
>)
    requires
        *old(cur) <= tokens.len(),
    ensures
        outcome(&r, *old(cur), *final(cur)) == inheritance_specifier(tokens@, *old(cur) as int),
        advanced(&r, *old(cur), *final(cur), tokens.len()),
{
    let name = match parse_user_defined_type_name(tokens, cur) {
        Ok(name) => name,
        Err(e) => return Err(e),
    };
    let mut node = Token::Symbol(Sym::OpenParenthesis).to_leaf();
    node.attach(name);
    if !peek_is(tokens, *cur, Sym::OpenParenthesis) {
        return Ok(node);
    }
    *cur = *cur + 1;
    match parse_expression_list(tokens, cur) {
        Ok(args) => {
            if peek_is(tokens, *cur, Sym::CloseParenthesis) {
                *cur = *cur + 1;
                node.attach(args);
                Ok(node)
            } else {
                Err(ParseError::SyntaxError(Production::InheritanceSpecifier))
            }
        },
        Err(e) => Err(e),
    }
}

fn parse_inheritance_list(tokens: &Vec<Token>, cur: &mut usize, acc: ParseNode) -> (r: Result<
    ParseNode,
    ParseError,
>)
    requires
        *old(cur) <= tokens.len(),
    ensures
        outcome(&r, *old(cur), *final(cur)) == inheritance_list(tokens@, *old(cur) as int, acc@),
        advanced(&r, *old(cur), *final(cur), tokens.len()),
    decreases dist(tokens@, *old(cur) as int),
{
    match parse_inheritance_specifier(tokens, cur) {
        Ok(spec) => {
            let mut acc = acc;
            acc.attach(spec);
            if peek_is(tokens, *cur, Sym::Comma) {
                *cur = *cur + 1;
                parse_inheritance_list(tokens, cur, acc)
            } else {
                Ok(acc)
            }
        },
        Err(e) => Err(e),
    }
}

/// The body of a contract, as a `{` node over its parts. Enum definitions
/// are the one kind of part recognised; each is kept, in order.
pub fn parse_contract_part(tokens: &Vec<Token>, cur: &mut usize) -> (r: Result<
    ParseNode,
    ParseError,
>)
    requires
        *old(cur) <= tokens.len(),
    ensures
        outcome(&r, *old(cur), *final(cur)) == contract_part(tokens@, *old(cur) as int),
        advanced(&r, *old(cur), *final(cur), tokens.len()),
{
    parse_contract_parts(tokens, cur, Token::Symbol(Sym::OpenBrace).to_leaf())
}

fn parse_contract_parts(tokens: &Vec<Token>, cur: &mut usize, acc: ParseNode) -> (r: Result<
    ParseNode,
    ParseError,
>)
    requires
        *old(cur) <= tokens.len(),
    ensures
        outcome(&r, *old(cur), *final(cur)) == contract_parts(tokens@, *old(cur) as int, acc@),
        advanced(&r, *old(cur), *final(cur), tokens.len()),
    decreases dist(tokens@, *old(cur) as int),
{
    if !peek_is(tokens, *cur, Sym::Enum) {
        return Ok(acc);
    }
    match parse_enum_definition(tokens, cur) {
        Ok(e) => {
            let mut acc = acc;
            acc.attach(e);
            parse_contract_parts(tokens, cur, acc)
        },
        Err(e) => Err(e),
    }
}

fn parse_contract_body(tokens: &Vec<Token>, cur: &mut usize, head: ParseNode) -> (r: Result<
    ParseNode,
    ParseError,
>)
    requires
        *old(cur) <= tokens.len(),
    ensures
        outcome(&r, *old(cur), *final(cur)) == contract_body(tokens@, *old(cur) as int, head@),
        advanced(&r, *old(cur), *final(cur), tokens.len()),
{
    match parse_contract_part(tokens, cur) {
        Ok(part) => {
            if peek_is(tokens, *cur, Sym::CloseBrace) {
                *cur = *cur + 1;
                let mut head = head;
                head.attach(part);
                Ok(head)
            } else {
                Err(ParseError::SyntaxError(Production::Contract))
            }
        },
        Err(e) => Err(e),
    }
}

/// `contract Name [is Spec, ...] { parts }`, or the same under `library`
/// or `interface`, as Contract[Identifier, Is-list when present, body].
#[verifier::rlimit(40)]
pub fn parse_contract(tokens: &Vec<Token>, cur: &mut usize) -> (r: Result<ParseNode, ParseError>)
    requires
        *old(cur) <= tokens.len(),
    ensures
        outcome(&r, *old(cur), *final(cur)) == contract(tokens@, *old(cur) as int),
        advanced(&r, *old(cur), *final(cur), tokens.len()),
{
    let keyword = peek(tokens, *cur);
    if !(keyword.is(Sym::Contract) || keyword.is(Sym::Library) || keyword.is(Sym::Interface)) {
        return Err(ParseError::SyntaxError(Production::Contract));
    }
    let name = peek(tokens, *cur + 1);
    if !matches!(name, Token::Identifier(_)) {
        return Err(ParseError::SyntaxError(Production::Contract));
    }
    let mut head = Token::Symbol(Sym::Contract).to_leaf();
    head.add_child(name);
    if peek_is(tokens, *cur + 2, Sym::OpenBrace) {
        *cur = *cur + 3;
        parse_contract_body(tokens, cur, head)
    } else if peek_is(tokens, *cur + 2, Sym::Is) {
        *cur = *cur + 3;
        match parse_inheritance_list(tokens, cur, Token::Symbol(Sym::Is).to_leaf()) {
            Ok(list) => {
                if peek_is(tokens, *cur, Sym::OpenBrace) {
                    *cur = *cur + 1;
                    head.attach(list);
                    parse_contract_body(tokens, cur, head)
                } else {
                    Err(ParseError::SyntaxError(Production::Contract))
                }
            },
            Err(e) => Err(e),
        }
    } else {
        Err(ParseError::SyntaxError(Production::Contract))
    }
}

/// Parses a whole token sequence into its top-level declarations. Pragmas
/// and contracts are kept in source order; imports are skipped; libraries
/// and interfaces are parsed and then dropped; any other leading token is a
/// syntax error.
pub fn parse(tokens: &Vec<Token>) -> (r: Result<ParseTree, ParseError>)
    ensures
        match r {
            Ok(tree) => source_unit(tokens@) == Ok::<Seq<Tree>, ParseError>(tree@),
            Err(e) => source_unit(tokens@) == Err::<Seq<Tree>, ParseError>(e),
        },
{
    let mut tree = ParseTree::new();
    let mut cur: usize = 0;
    while cur < tokens.len()
        invariant
            cur <= tokens.len(),
            source_unit(tokens@) == declarations(tokens@, cur as int, tree@),
        decreases tokens.len() - cur,
    {
        if peek_is(tokens, cur, Sym::Pragma) {
            match parse_pragma(tokens, &mut cur) {
                Ok(declaration) => tree.push(declaration),
                Err(e) => return Err(e),
            }
        } else if peek_is(tokens, cur, Sym::Import) {
            cur = cur + 1;
            parse_import(tokens, &mut cur);
        } else if peek_is(tokens, cur, Sym::Contract) {
            match parse_contract(tokens, &mut cur) {
                Ok(declaration) => tree.push(declaration),
                Err(e) => return Err(e),
            }
        } else if peek_is(tokens, cur, Sym::Library) || peek_is(tokens, cur, Sym::Interface) {
            match parse_contract(tokens, &mut cur) {
                Ok(_) => {},
                Err(e) => return Err(e),
            }
        } else {
            return Err(ParseError::SyntaxError(Production::TopLevel));
        }
    }
    Ok(tree)
}

} // verus!
