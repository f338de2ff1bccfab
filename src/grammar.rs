//! The grammar as spec functions. Each production reads the token sequence
//! `t` from position `p` and yields the tree it builds together with the
//! number of tokens it consumed, or the error that ends the parse.
use vstd::prelude::*;
use crate::error::{ParseError, Production, SourceIssue};
use crate::token::{Sym, Token, is_elementary, is_sym, is_unit, tier_of};
use crate::tree::Tree;

verus! {

pub type Parsed = Result<(Tree, nat), ParseError>;

/// The token at `p`; `NoMatch` outside the input.
pub open spec fn tok(t: Seq<Token>, p: int) -> Token {
    if 0 <= p < t.len() {
        t[p]
    } else {
        Token::NoMatch
    }
}

pub open spec fn at(t: Seq<Token>, p: int, s: Sym) -> bool {
    is_sym(tok(t, p), s)
}

/// Tokens left from `p` on.
pub open spec fn dist(t: Seq<Token>, p: int) -> int {
    if p < t.len() {
        t.len() - p
    } else {
        0
    }
}

/// `r` with `n` more tokens counted as consumed.
pub open spec fn shifted(r: Parsed, n: nat) -> Parsed {
    match r {
        Ok((x, m)) => Ok((x, n + m)),
        Err(e) => Err(e),
    }
}

pub open spec fn syntax(p: Production) -> ParseError {
    ParseError::SyntaxError(p)
}

pub open spec fn is_identifier(k: Token) -> bool {
    k is Identifier
}

pub open spec fn is_unary(k: Token) -> bool {
    ||| is_sym(k, Sym::Exclamation)
    ||| is_sym(k, Sym::Tilda)
    ||| is_sym(k, Sym::Delete)
    ||| is_sym(k, Sym::Increment)
    ||| is_sym(k, Sym::Decrement)
    ||| is_sym(k, Sym::Plus)
    ||| is_sym(k, Sym::Minus)
}

/// Tokens that stand alone as an operand.
pub open spec fn is_atom(k: Token) -> bool {
    ||| k is Identifier
    ||| k is HexLiteral
    ||| k is StringLiteral
    ||| is_sym(k, Sym::True)
    ||| is_sym(k, Sym::False)
    ||| is_elementary(k)
}

pub open spec fn is_modifier(k: Token) -> bool {
    ||| is_sym(k, Sym::Internal)
    ||| is_sym(k, Sym::External)
    ||| is_sym(k, Sym::Pure)
    ||| is_sym(k, Sym::Constant)
    ||| is_sym(k, Sym::View)
    ||| is_sym(k, Sym::Payable)
}

pub open spec fn sym_leaf(s: Sym) -> Tree {
    Tree::leaf(Token::Symbol(s))
}

// ---------------------------------------------------------------- expressions

/// An expression: a primary or prefix form, then whatever operators follow.
/// Where no expression starts, a `NoMatch` leaf and nothing consumed.
pub open spec fn expression(t: Seq<Token>, p: int) -> Parsed
    decreases dist(t, p), 0nat,
{
    let k = tok(t, p);
    if is_sym(k, Sym::New) {
        match typename(t, p + 1) {
            Ok((ty, n)) => shifted(operation(t, p + 1 + n, Tree::leaf(k).with(ty)), 1 + n),
            Err(e) => Err(e),
        }
    } else if k is DecimalNumber || k is HexNumber {
        if is_unit(tok(t, p + 1)) {
            shifted(operation(t, p + 2, Tree::leaf(k).with(Tree::leaf(tok(t, p + 1)))), 2)
        } else {
            shifted(operation(t, p + 1, Tree::leaf(k)), 1)
        }
    } else if is_atom(k) {
        shifted(operation(t, p + 1, Tree::leaf(k)), 1)
    } else if is_sym(k, Sym::OpenParenthesis) {
        match tuple_items(t, p + 1, sym_leaf(Sym::OpenParenthesis)) {
            Ok((tuple, n)) => shifted(operation(t, p + 1 + n, tuple), 1 + n),
            Err(e) => Err(e),
        }
    } else if is_unary(k) {
        match expression(t, p + 1) {
            Ok((e, n)) => Ok((Tree::leaf(k).with(e), 1 + n)),
            Err(e) => Err(e),
        }
    } else {
        Ok((Tree::leaf(Token::NoMatch), 0))
    }
}

/// The elements of a parenthesised expression after `(`, through the
/// closing `)`, appended to `acc`.
pub open spec fn tuple_items(t: Seq<Token>, p: int, acc: Tree) -> Parsed
    decreases dist(t, p), 1nat,
{
    match expression(t, p) {
        Ok((e, n)) => {
            if at(t, p + n, Sym::Comma) {
                shifted(tuple_items(t, p + n + 1, acc.with(e)), n + 1)
            } else if at(t, p + n, Sym::CloseParenthesis) {
                Ok((acc.with(e), n + 1))
            } else {
                Err(syntax(Production::Tuple))
            }
        },
        Err(e) => Err(e),
    }
}

/// The operator resolver: extends the finished operand `left` by the
/// operators that follow it. Postfix forms wrap `left` and go on; a binary,
/// ternary or assignment operator takes all the rest as its right operand,
/// rotated where its top operator binds no tighter (see `Tree::combine`).
pub open spec fn operation(t: Seq<Token>, p: int, left: Tree) -> Parsed
    decreases dist(t, p), 0nat,
{
    let k = tok(t, p);
    if is_sym(k, Sym::Increment) || is_sym(k, Sym::Decrement) {
        shifted(operation(t, p + 1, Tree::leaf(k).with(left)), 1)
    } else if is_sym(k, Sym::OpenBracket) {
        match expression(t, p + 1) {
            Ok((e, n)) => if at(t, p + 1 + n, Sym::CloseBracket) {
                shifted(operation(t, p + 2 + n, Tree::leaf(k).with(left).with(e)), 2 + n)
            } else {
                Err(syntax(Production::ArrayAccess))
            },
            Err(e) => Err(e),
        }
    } else if is_sym(k, Sym::Dot) {
        if is_identifier(tok(t, p + 1)) {
            shifted(operation(t, p + 2, Tree::leaf(k).with(left).with(Tree::leaf(tok(t, p + 1)))), 2)
        } else {
            Err(syntax(Production::MemberAccess))
        }
    } else if is_sym(k, Sym::OpenParenthesis) {
        match call_arguments(t, p + 1) {
            Ok((args, n)) => shifted(
                operation(t, p + 1 + n, sym_leaf(Sym::Function).with(left).with(args)),
                1 + n,
            ),
            Err(e) => Err(e),
        }
    } else if tier_of(k) > 0 {
        match expression(t, p + 1) {
            Ok((right, n)) => Ok((Tree::combine(Tree::leaf(k).with(left), right), 1 + n)),
            Err(e) => Err(e),
        }
    } else {
        Ok((left, 0))
    }
}

/// Call arguments after `(`, through the closing `)`: a name-value list in
/// braces, or an expression list.
pub open spec fn call_arguments(t: Seq<Token>, p: int) -> Parsed
    decreases dist(t, p), 2nat,
{
    if at(t, p, Sym::OpenBrace) {
        match name_values(t, p + 1, sym_leaf(Sym::OpenBrace)) {
            Ok((list, n)) => if at(t, p + 1 + n, Sym::CloseBrace) && at(
                t,
                p + 2 + n,
                Sym::CloseParenthesis,
            ) {
                Ok((list, n + 3))
            } else {
                Err(syntax(Production::FunctionCall))
            },
            Err(e) => Err(e),
        }
    } else {
        match expression_list(t, p, sym_leaf(Sym::OpenParenthesis)) {
            Ok((list, n)) => if at(t, p + n, Sym::CloseParenthesis) {
                Ok((list, n + 1))
            } else {
                Err(syntax(Production::FunctionCall))
            },
            Err(e) => Err(e),
        }
    }
}

/// `name : expression` pairs separated by commas, each appended to `acc` as
/// a `:` node; stops before the first position that holds no name.
pub open spec fn name_values(t: Seq<Token>, p: int, acc: Tree) -> Parsed
    decreases dist(t, p), 0nat,
{
    let k = tok(t, p);
    if is_identifier(k) {
        if at(t, p + 1, Sym::Colon) {
            match expression(t, p + 2) {
                Ok((e, n)) => {
                    let pair = sym_leaf(Sym::Colon).with(Tree::leaf(k)).with(e);
                    if at(t, p + 2 + n, Sym::Comma) {
                        shifted(name_values(t, p + 3 + n, acc.with(pair)), 3 + n)
                    } else {
                        Ok((acc.with(pair), 2 + n))
                    }
                },
                Err(e) => Err(e),
            }
        } else {
            Err(syntax(Production::NameValueList))
        }
    } else {
        Ok((acc, 0))
    }
}

/// Expressions separated by commas, appended to `acc`; stops at the first
/// position where no expression starts.
pub open spec fn expression_list(t: Seq<Token>, p: int, acc: Tree) -> Parsed
    decreases dist(t, p), 1nat,
{
    match expression(t, p) {
        Ok((e, n)) => if e.tag == Token::NoMatch {
            Ok((acc, n))
        } else if at(t, p + n, Sym::Comma) {
            shifted(expression_list(t, p + n + 1, acc.with(e)), n + 1)
        } else {
            Ok((acc.with(e), n))
        },
        Err(e) => Err(e),
    }
}

// ---------------------------------------------------------------- type names

/// A type name: user-defined, mapping, function type, or an elementary type
/// with an optional array suffix.
pub open spec fn typename(t: Seq<Token>, p: int) -> Parsed
    decreases dist(t, p), 1nat,
{
    let k = tok(t, p);
    if is_identifier(k) {
        user_defined_type_name(t, p)
    } else if is_sym(k, Sym::Mapping) {
        mapping(t, p)
    } else if is_sym(k, Sym::Function) {
        function_type_name(t, p)
    } else if is_elementary(k) {
        shifted(array_type_name(t, p + 1, Tree::leaf(k)), 1)
    } else {
        Err(syntax(Production::TypeName))
    }
}

/// `mapping ( elementary => TypeName )`, as Mapping[key, value].
pub open spec fn mapping(t: Seq<Token>, p: int) -> Parsed
    decreases dist(t, p), 0nat,
{
    if at(t, p, Sym::Mapping) && at(t, p + 1, Sym::OpenParenthesis) && is_elementary(tok(t, p + 2))
        && at(t, p + 3, Sym::Arrow) {
        match typename(t, p + 4) {
            Ok((value, n)) => if at(t, p + 4 + n, Sym::CloseParenthesis) {
                Ok((sym_leaf(Sym::Mapping).with(Tree::leaf(tok(t, p + 2))).with(value), n + 5))
            } else {
                Err(syntax(Production::Mapping))
            },
            Err(e) => Err(e),
        }
    } else {
        Err(syntax(Production::Mapping))
    }
}

/// `function` parameter types, modifier keywords, then an optional
/// `returns` parameter type list held under a `returns` node.
pub open spec fn function_type_name(t: Seq<Token>, p: int) -> Parsed
    decreases dist(t, p), 0nat,
{
    if at(t, p, Sym::Function) {
        match parameter_list(t, p + 1) {
            Ok((params, n)) => {
                let (head, m) = modifiers(t, p + 1 + n, sym_leaf(Sym::Function).with(params));
                let q = p + 1 + n + m;
                if at(t, q, Sym::Returns) {
                    match parameter_list(t, q + 1) {
                        Ok((results, r)) => Ok(
                            (head.with(sym_leaf(Sym::Returns).with(results)), 2 + n + m + r),
                        ),
                        Err(e) => Err(e),
                    }
                } else {
                    Ok((head, 1 + n + m))
                }
            },
            Err(e) => Err(e),
        }
    } else {
        Err(syntax(Production::FunctionType))
    }
}

/// `( TypeName, ... )`, as a `(` node over the types.
pub open spec fn parameter_list(t: Seq<Token>, p: int) -> Parsed
    decreases dist(t, p), 0nat,
{
    if at(t, p, Sym::OpenParenthesis) {
        match parameter_items(t, p + 1, sym_leaf(Sym::OpenParenthesis)) {
            Ok((list, n)) => if at(t, p + 1 + n, Sym::CloseParenthesis) {
                Ok((list, n + 2))
            } else {
                Err(syntax(Production::ParameterList))
            },
            Err(e) => Err(e),
        }
    } else {
        Err(syntax(Production::ParameterList))
    }
}

pub open spec fn parameter_items(t: Seq<Token>, p: int, acc: Tree) -> Parsed
    decreases dist(t, p), 2nat,
{
    if at(t, p, Sym::CloseParenthesis) {
        Ok((acc, 0))
    } else {
        match typename(t, p) {
            Ok((ty, n)) => if at(t, p + n, Sym::Comma) {
                shifted(parameter_items(t, p + n + 1, acc.with(ty)), n + 1)
            } else {
                Ok((acc.with(ty), n))
            },
            Err(e) => Err(e),
        }
    }
}

/// An optional `[ size ]` after the elementary type `left`: without a
/// bracket `left` itself; with one, a `[` node over `left` and the size
/// expression, the size left out for a dynamic array.
pub open spec fn array_type_name(t: Seq<Token>, p: int, left: Tree) -> Parsed
    decreases dist(t, p), 0nat,
{
    if at(t, p, Sym::OpenBracket) {
        match expression(t, p + 1) {
            Ok((size, n)) => {
                let node = sym_leaf(Sym::OpenBracket).with(left);
                if at(t, p + 1 + n, Sym::CloseBracket) {
                    if size.tag == Token::NoMatch {
                        Ok((node, n + 2))
                    } else {
                        Ok((node.with(size), n + 2))
                    }
                } else {
                    Err(syntax(Production::ArrayTypeName))
                }
            },
            Err(e) => Err(e),
        }
    } else {
        Ok((left, 0))
    }
}

/// Modifier keywords from `p` on, each appended to `acc` as a leaf.
pub open spec fn modifiers(t: Seq<Token>, p: int, acc: Tree) -> (Tree, nat)
    decreases dist(t, p),
{
    if is_modifier(tok(t, p)) {
        let (r, n) = modifiers(t, p + 1, acc.with(Tree::leaf(tok(t, p))));
        (r, n + 1)
    } else {
        (acc, 0)
    }
}

/// Dot-separated identifiers, each appended to `acc` as a leaf.
pub open spec fn name_segments(t: Seq<Token>, p: int, acc: Tree) -> Parsed
    decreases dist(t, p),
{
    let k = tok(t, p);
    if !is_identifier(k) {
        Err(syntax(Production::UserDefinedTypeName))
    } else if at(t, p + 1, Sym::Dot) {
        shifted(name_segments(t, p + 2, acc.with(Tree::leaf(k))), 2)
    } else {
        Ok((acc.with(Tree::leaf(k)), 1))
    }
}

/// `a.b.c`, as one flat `.` node over the segments in source order.
pub open spec fn user_defined_type_name(t: Seq<Token>, p: int) -> Parsed {
    name_segments(t, p, sym_leaf(Sym::Dot))
}

// ---------------------------------------------------------------- declarations

pub open spec fn supported_target(name: Seq<char>) -> bool {
    name == "solidity"@
}

pub open spec fn supported_version(v: Seq<char>) -> bool {
    v == "0.4.25"@ || v == "^0.4.25"@
}

/// `pragma solidity <version> ;`, as Pragma[Identifier, Version].
pub open spec fn pragma(t: Seq<Token>, p: int) -> Parsed {
    let name = tok(t, p + 1);
    let version = tok(t, p + 2);
    if !at(t, p, Sym::Pragma) || !is_identifier(name) {
        Err(syntax(Production::Pragma))
    } else if !supported_target(name->Identifier_0@) {
        Err(ParseError::SourceFileError(SourceIssue::UnsupportedTarget))
    } else if !(version is Version) {
        Err(syntax(Production::Pragma))
    } else if !supported_version(version->Version_0@) {
        Err(ParseError::SourceFileError(SourceIssue::UnsupportedVersion))
    } else if !at(t, p + 3, Sym::Semicolon) {
        Err(syntax(Production::Pragma))
    } else {
        Ok((sym_leaf(Sym::Pragma).with(Tree::leaf(name)).with(Tree::leaf(version)), 4))
    }
}

/// Identifiers separated by commas, each appended to `acc` as a leaf; a
/// trailing comma is consumed.
pub open spec fn enum_members(t: Seq<Token>, p: int, acc: Tree) -> (Tree, nat)
    decreases dist(t, p),
{
    let k = tok(t, p);
    if is_identifier(k) {
        if at(t, p + 1, Sym::Comma) {
            let (r, n) = enum_members(t, p + 2, acc.with(Tree::leaf(k)));
            (r, n + 2)
        } else {
            (acc.with(Tree::leaf(k)), 1)
        }
    } else {
        (acc, 0)
    }
}

/// `enum Name { A, B, ... }`, as Enum[Identifier, {[members]}].
pub open spec fn enum_definition(t: Seq<Token>, p: int) -> Parsed {
    let name = tok(t, p + 1);
    if at(t, p, Sym::Enum) && is_identifier(name) && at(t, p + 2, Sym::OpenBrace) {
        let (members, n) = enum_members(t, p + 3, sym_leaf(Sym::OpenBrace));
        if at(t, p + 3 + n, Sym::CloseBrace) {
            Ok((sym_leaf(Sym::Enum).with(Tree::leaf(name)).with(members), n + 4))
        } else {
            Err(syntax(Production::Enum))
        }
    } else {
        Err(syntax(Production::Enum))
    }
}

/// The parts of a contract body, appended to `acc`; enum definitions are
/// the one kind of part recognised.
pub open spec fn contract_parts(t: Seq<Token>, p: int, acc: Tree) -> Parsed
    decreases dist(t, p),
{
    if at(t, p, Sym::Enum) {
        match enum_definition(t, p) {
            Ok((e, n)) => shifted(contract_parts(t, p + n, acc.with(e)), n),
            Err(e) => Err(e),
        }
    } else {
        Ok((acc, 0))
    }
}

/// The body of a contract, as a `{` node over its parts.
pub open spec fn contract_part(t: Seq<Token>, p: int) -> Parsed {
    contract_parts(t, p, sym_leaf(Sym::OpenBrace))
}

/// A user-defined type name, then optional `( arguments )`, as a `(` node
/// over the name and the argument list.
pub open spec fn inheritance_specifier(t: Seq<Token>, p: int) -> Parsed {
    match user_defined_type_name(t, p) {
        Ok((name, n)) => {
            let node = sym_leaf(Sym::OpenParenthesis).with(name);
            if at(t, p + n, Sym::OpenParenthesis) {
                match expression_list(t, p + n + 1, sym_leaf(Sym::OpenParenthesis)) {
                    Ok((args, m)) => if at(t, p + n + 1 + m, Sym::CloseParenthesis) {
                        Ok((node.with(args), n + m + 2))
                    } else {
                        Err(syntax(Production::InheritanceSpecifier))
                    },
                    Err(e) => Err(e),
                }
            } else {
                Ok((node, n))
            }
        },
        Err(e) => Err(e),
    }
}

/// Inheritance specifiers separated by commas, appended to `acc`.
pub open spec fn inheritance_list(t: Seq<Token>, p: int, acc: Tree) -> Parsed
    decreases dist(t, p),
{
    match inheritance_specifier(t, p) {
        Ok((s, n)) => if at(t, p + n, Sym::Comma) {
            shifted(inheritance_list(t, p + n + 1, acc.with(s)), n + 1)
        } else {
            Ok((acc.with(s), n))
        },
        Err(e) => Err(e),
    }
}

pub open spec fn is_contract_keyword(k: Token) -> bool {
    is_sym(k, Sym::Contract) || is_sym(k, Sym::Library) || is_sym(k, Sym::Interface)
}

/// The body from `p` through the closing `}`, appended to the header `head`.
pub open spec fn contract_body(t: Seq<Token>, p: int, head: Tree) -> Parsed {
    match contract_part(t, p) {
        Ok((part, n)) => if at(t, p + n, Sym::CloseBrace) {
            Ok((head.with(part), n + 1))
        } else {
            Err(syntax(Production::Contract))
        },
        Err(e) => Err(e),
    }
}

/// `contract Name [is Spec, ...] { parts }` (or `library`, `interface`), as
/// Contract[Identifier, Is-list when there is one, body].
pub open spec fn contract(t: Seq<Token>, p: int) -> Parsed {
    let name = tok(t, p + 1);
    if !is_contract_keyword(tok(t, p)) || !is_identifier(name) {
        Err(syntax(Production::Contract))
    } else {
        let head = sym_leaf(Sym::Contract).with(Tree::leaf(name));
        if at(t, p + 2, Sym::OpenBrace) {
            shifted(contract_body(t, p + 3, head), 3)
        } else if at(t, p + 2, Sym::Is) {
            match inheritance_list(t, p + 3, sym_leaf(Sym::Is)) {
                Ok((list, n)) => if at(t, p + 3 + n, Sym::OpenBrace) {
                    shifted(contract_body(t, p + 4 + n, head.with(list)), 4 + n)
                } else {
                    Err(syntax(Production::Contract))
                },
                Err(e) => Err(e),
            }
        } else {
            Err(syntax(Production::Contract))
        }
    }
}

/// Tokens of an import directive after `import`, through its `;` or the
/// end of the input.
pub open spec fn import_rest(t: Seq<Token>, p: int) -> nat
    decreases dist(t, p),
{
    if p >= t.len() || p < 0 {
        0
    } else if at(t, p, Sym::Semicolon) {
        1
    } else {
        1 + import_rest(t, p + 1)
    }
}

/// The top-level declarations from `p` on, appended to `acc`. Pragmas and
/// contracts are kept; imports are skipped; libraries and interfaces are
/// parsed and dropped; any other token is an error.
pub open spec fn declarations(t: Seq<Token>, p: int, acc: Seq<Tree>) -> Result<
    Seq<Tree>,
    ParseError,
>
    decreases dist(t, p),
{
    let k = tok(t, p);
    if p >= t.len() || p < 0 {
        Ok(acc)
    } else if is_sym(k, Sym::Pragma) {
        match pragma(t, p) {
            Ok((d, n)) => declarations(t, p + n, acc.push(d)),
            Err(e) => Err(e),
        }
    } else if is_sym(k, Sym::Import) {
        declarations(t, p + 1 + import_rest(t, p + 1), acc)
    } else if is_sym(k, Sym::Contract) {
        match contract(t, p) {
            Ok((d, n)) => declarations(t, p + n, acc.push(d)),
            Err(e) => Err(e),
        }
    } else if is_sym(k, Sym::Library) || is_sym(k, Sym::Interface) {
        match contract(t, p) {
            Ok((d, n)) => declarations(t, p + n, acc),
            Err(e) => Err(e),
        }
    } else {
        Err(syntax(Production::TopLevel))
    }
}

/// The parse of a whole token sequence.
pub open spec fn source_unit(t: Seq<Token>) -> Result<Seq<Tree>, ParseError> {
    declarations(t, 0, Seq::empty())
}

} // verus!
