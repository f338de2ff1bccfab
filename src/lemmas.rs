//! Laws of the grammar that hold for every input.
use vstd::prelude::*;
use crate::error::{ParseError, Production, SourceIssue};
use crate::grammar::{
    array_type_name, at, call_arguments, contract, contract_parts, declarations, enum_definition,
    enum_members, expression, expression_list, mapping, operation, pragma, supported_target,
    supported_version, sym_leaf, syntax, tok, typename,
};
use crate::token::{Sym, Token, assignment_tier, elementary_sym, is_sym, tier_of};
use crate::tree::Tree;

verus! {

pub open spec fn opens_declaration(k: Token) -> bool {
    ||| is_sym(k, Sym::Pragma)
    ||| is_sym(k, Sym::Import)
    ||| is_sym(k, Sym::Contract)
    ||| is_sym(k, Sym::Library)
    ||| is_sym(k, Sym::Interface)
}

/// A pragma naming a target and a version is accepted exactly when the
/// target is `solidity`, the version is `0.4.25` or `^0.4.25` and a `;`
/// follows; the result then holds the two tokens as they were written. Any
/// other target, or any other version, is a source-file error.
pub proof fn lemma_pragma_acceptance(t: Seq<Token>, p: int, name: String, version: String)
    requires
        0 <= p,
        p + 2 < t.len(),
        t[p] == Token::Symbol(Sym::Pragma),
        t[p + 1] == Token::Identifier(name),
        t[p + 2] == Token::Version(version),
    ensures
        supported_target(name@) && supported_version(version@) && is_sym(
            tok(t, p + 3),
            Sym::Semicolon,
        ) ==> pragma(t, p) == Ok::<(Tree, nat), ParseError>(
            (
                sym_leaf(Sym::Pragma).with(Tree::leaf(Token::Identifier(name))).with(
                    Tree::leaf(Token::Version(version)),
                ),
                4nat,
            ),
        ),
        !supported_target(name@) ==> pragma(t, p) == Err::<(Tree, nat), ParseError>(
            ParseError::SourceFileError(SourceIssue::UnsupportedTarget),
        ),
        supported_target(name@) && !supported_version(version@) ==> pragma(t, p) == Err::<
            (Tree, nat),
            ParseError,
        >(ParseError::SourceFileError(SourceIssue::UnsupportedVersion)),
{
}

/// Wherever the driver stands on a token that opens no top-level
/// declaration, the whole parse fails with a syntax error.
pub proof fn lemma_unexpected_top_level(t: Seq<Token>, p: int, acc: Seq<Tree>)
    requires
        0 <= p < t.len(),
        !opens_declaration(t[p]),
    ensures
        declarations(t, p, acc) == Err::<Seq<Tree>, ParseError>(syntax(Production::TopLevel)),
{
}

/// `x o1 y o2 z` for identifiers and two binary operators.
pub open spec fn infix_pair(x: String, o1: Sym, y: String, o2: Sym, z: String) -> Seq<Token> {
    seq![
        Token::Identifier(x),
        Token::Symbol(o1),
        Token::Identifier(y),
        Token::Symbol(o2),
        Token::Identifier(z),
    ]
}

/// `o1[x, o2[y, z]]`: the second operator nested on the right.
pub open spec fn nested_right(x: String, o1: Sym, y: String, o2: Sym, z: String) -> Tree {
    sym_leaf(o1).with(Tree::leaf(Token::Identifier(x))).with(
        sym_leaf(o2).with(Tree::leaf(Token::Identifier(y))).with(Tree::leaf(Token::Identifier(z))),
    )
}

/// `o2[o1[x, y], z]`: the first operator nested on the left.
pub open spec fn nested_left(x: String, o1: Sym, y: String, o2: Sym, z: String) -> Tree {
    sym_leaf(o2).with(
        sym_leaf(o1).with(Tree::leaf(Token::Identifier(x))).with(Tree::leaf(Token::Identifier(y))),
    ).with(Tree::leaf(Token::Identifier(z)))
}

/// Of two binary operators between three operands, the one that binds
/// tighter is nested deeper, on whichever side it stands. Operators of one
/// tier group to the left, except assignments, which group to the right.
pub proof fn lemma_two_operators(x: String, o1: Sym, y: String, o2: Sym, z: String)
    requires
        tier_of(Token::Symbol(o1)) > 0,
        tier_of(Token::Symbol(o2)) > 0,
    ensures
        tier_of(Token::Symbol(o2)) < tier_of(Token::Symbol(o1)) ==> expression(
            infix_pair(x, o1, y, o2, z),
            0,
        ) == Ok::<(Tree, nat), ParseError>((nested_right(x, o1, y, o2, z), 5nat)),
        tier_of(Token::Symbol(o1)) <= tier_of(Token::Symbol(o2)) && tier_of(Token::Symbol(o1))
            < assignment_tier() ==> expression(infix_pair(x, o1, y, o2, z), 0) == Ok::<
            (Tree, nat),
            ParseError,
        >((nested_left(x, o1, y, o2, z), 5nat)),
        tier_of(Token::Symbol(o1)) == assignment_tier() ==> expression(
            infix_pair(x, o1, y, o2, z),
            0,
        ) == Ok::<(Tree, nat), ParseError>((nested_right(x, o1, y, o2, z), 5nat)),
{
    let t = infix_pair(x, o1, y, o2, z);
    let a = Tree::leaf(Token::Identifier(x));
    let b = Tree::leaf(Token::Identifier(y));
    let c = Tree::leaf(Token::Identifier(z));
    let inner = sym_leaf(o2).with(b).with(c);
    assert(tok(t, 5) == Token::NoMatch);
    assert(operation(t, 5, c) == Ok::<(Tree, nat), ParseError>((c, 0nat)));
    assert(expression(t, 4) == Ok::<(Tree, nat), ParseError>((c, 1nat)));
    assert(Tree::combine(sym_leaf(o2).with(b), c) == inner);
    assert(operation(t, 3, b) == Ok::<(Tree, nat), ParseError>((inner, 2nat)));
    assert(expression(t, 2) == Ok::<(Tree, nat), ParseError>((inner, 3nat)));
    let whole = Tree::combine(sym_leaf(o1).with(a), inner);
    assert(operation(t, 1, a) == Ok::<(Tree, nat), ParseError>((whole, 4nat)));
    assert(expression(t, 0) == Ok::<(Tree, nat), ParseError>((whole, 5nat)));
    assert(inner.is_binary());
    if tier_of(Token::Symbol(o1)) <= tier_of(Token::Symbol(o2)) && tier_of(Token::Symbol(o1))
        < assignment_tier() {
        assert(whole.kids =~= nested_left(x, o1, y, o2, z).kids);
    }
}

/// `n0, n1, ..., nk` as identifier tokens separated by commas.
pub open spec fn comma_separated(names: Seq<String>) -> Seq<Token>
    decreases names.len(),
{
    if names.len() == 0 {
        Seq::empty()
    } else if names.len() == 1 {
        seq![Token::Identifier(names[0])]
    } else {
        seq![Token::Identifier(names[0]), Token::Symbol(Sym::Comma)] + comma_separated(
            names.drop_first(),
        )
    }
}

/// One identifier leaf per name, in order.
pub open spec fn name_leaves(names: Seq<String>) -> Seq<Tree> {
    names.map_values(|n: String| Tree::leaf(Token::Identifier(n)))
}

/// `enum name { n0, n1, ..., nk }` as tokens.
pub open spec fn enum_source(name: String, names: Seq<String>) -> Seq<Token> {
    seq![Token::Symbol(Sym::Enum), Token::Identifier(name), Token::Symbol(Sym::OpenBrace)]
        + comma_separated(names) + seq![Token::Symbol(Sym::CloseBrace)]
}

proof fn lemma_members_in_order(t: Seq<Token>, p: int, names: Seq<String>, acc: Tree)
    requires
        0 <= p,
        p + comma_separated(names).len() < t.len(),
        t.subrange(p, p + comma_separated(names).len()) == comma_separated(names),
        at(t, p + comma_separated(names).len(), Sym::CloseBrace),
    ensures
        enum_members(t, p, acc) == (
            Tree { tag: acc.tag, kids: acc.kids + name_leaves(names) },
            comma_separated(names).len(),
        ),
    decreases names.len(),
{
    let cs = comma_separated(names);
    assert(t[p + cs.len()] == Token::Symbol(Sym::CloseBrace));
    if names.len() == 0 {
        assert(acc.kids + name_leaves(names) =~= acc.kids);
    } else if names.len() == 1 {
        assert(t[p] == cs[0]);
        assert(acc.kids + name_leaves(names) =~= acc.kids.push(
            Tree::leaf(Token::Identifier(names[0])),
        ));
    } else {
        let rest = names.drop_first();
        let rcs = comma_separated(rest);
        assert(t[p] == cs[0]);
        assert(t[p + 1] == cs[1]);
        assert(t.subrange(p + 2, p + 2 + rcs.len()) =~= rcs) by {
            assert forall|i: int| 0 <= i < rcs.len() implies t[p + 2 + i] == rcs[i] by {
                assert(t.subrange(p, p + cs.len())[2 + i] == cs[2 + i]);
            }
        }
        let next = acc.with(Tree::leaf(Token::Identifier(names[0])));
        lemma_members_in_order(t, p + 2, rest, next);
        assert(next.kids + name_leaves(rest) =~= acc.kids + name_leaves(names));
    }
}

/// The tree of `enum name { names }`.
pub open spec fn enum_tree(name: String, names: Seq<String>) -> Tree {
    sym_leaf(Sym::Enum).with(Tree::leaf(Token::Identifier(name))).with(
        Tree { tag: Token::Symbol(Sym::OpenBrace), kids: name_leaves(names) },
    )
}

proof fn lemma_enum_at(t: Seq<Token>, p: int, name: String, names: Seq<String>)
    requires
        0 <= p,
        p + enum_source(name, names).len() <= t.len(),
        t.subrange(p, p + enum_source(name, names).len()) == enum_source(name, names),
    ensures
        enum_definition(t, p) == Ok::<(Tree, nat), ParseError>(
            (enum_tree(name, names), enum_source(name, names).len()),
        ),
{
    let e = enum_source(name, names);
    let cs = comma_separated(names);
    assert forall|i: int| 0 <= i < e.len() implies t[p + i] == e[i] by {
        assert(t.subrange(p, p + e.len())[i] == e[i]);
    }
    assert(t.subrange(p + 3, p + 3 + cs.len()) =~= cs) by {
        assert forall|i: int| 0 <= i < cs.len() implies t[p + 3 + i] == cs[i] by {
            assert(e[3 + i] == cs[i]);
        }
    }
    assert(t[p + 3 + cs.len()] == e[3 + cs.len() as int]);
    assert(t[p] == e[0] && t[p + 1] == e[1] && t[p + 2] == e[2]);
    lemma_members_in_order(t, p + 3, names, sym_leaf(Sym::OpenBrace));
    assert(Seq::<Tree>::empty() + name_leaves(names) =~= name_leaves(names));
}

/// An enum definition keeps every member, in the order written; an enum
/// without members is accepted.
pub proof fn lemma_enum_members_in_order(name: String, names: Seq<String>)
    ensures
        enum_definition(enum_source(name, names), 0) == Ok::<(Tree, nat), ParseError>(
            (enum_tree(name, names), enum_source(name, names).len()),
        ),
{
    let t = enum_source(name, names);
    assert(t.subrange(0, t.len() as int) =~= t);
    lemma_enum_at(t, 0, name, names);
}

/// Enum definitions one after another, each a name and its members.
pub open spec fn enums_source(defs: Seq<(String, Seq<String>)>) -> Seq<Token>
    decreases defs.len(),
{
    if defs.len() == 0 {
        Seq::empty()
    } else {
        enum_source(defs[0].0, defs[0].1) + enums_source(defs.drop_first())
    }
}

pub open spec fn enum_trees(defs: Seq<(String, Seq<String>)>) -> Seq<Tree> {
    defs.map_values(|d: (String, Seq<String>)| enum_tree(d.0, d.1))
}

/// `contract name { enum ... enum ... }` as tokens.
pub open spec fn contract_source(name: String, defs: Seq<(String, Seq<String>)>) -> Seq<Token> {
    seq![Token::Symbol(Sym::Contract), Token::Identifier(name), Token::Symbol(Sym::OpenBrace)]
        + enums_source(defs) + seq![Token::Symbol(Sym::CloseBrace)]
}

proof fn lemma_parts_at(t: Seq<Token>, p: int, defs: Seq<(String, Seq<String>)>, acc: Tree)
    requires
        0 <= p,
        p + enums_source(defs).len() < t.len(),
        t.subrange(p, p + enums_source(defs).len()) == enums_source(defs),
        at(t, p + enums_source(defs).len(), Sym::CloseBrace),
    ensures
        contract_parts(t, p, acc) == Ok::<(Tree, nat), ParseError>(
            (
                Tree { tag: acc.tag, kids: acc.kids + enum_trees(defs) },
                enums_source(defs).len(),
            ),
        ),
    decreases defs.len(),
{
    let all = enums_source(defs);
    if defs.len() == 0 {
        assert(acc.kids + enum_trees(defs) =~= acc.kids);
    } else {
        let first = enum_source(defs[0].0, defs[0].1);
        let rest = defs.drop_first();
        let later = enums_source(rest);
        assert(all == first + later);
        assert(t.subrange(p, p + first.len()) =~= first) by {
            assert forall|i: int| 0 <= i < first.len() implies t[p + i] == first[i] by {
                assert(t.subrange(p, p + all.len())[i] == all[i]);
            }
        }
        assert(t.subrange(p + first.len(), p + first.len() + later.len()) =~= later) by {
            assert forall|i: int| 0 <= i < later.len() implies t[p + first.len() + i]
                == later[i] by {
                assert(t.subrange(p, p + all.len())[first.len() + i] == all[first.len() + i]);
            }
        }
        assert(t[p] == first[0]);
        lemma_enum_at(t, p, defs[0].0, defs[0].1);
        let next = acc.with(enum_tree(defs[0].0, defs[0].1));
        lemma_parts_at(t, p + first.len(), rest, next);
        assert(next.kids + enum_trees(rest) =~= acc.kids + enum_trees(defs));
    }
}

/// A contract keeps every enum definition of its body, in the order
/// written.
pub proof fn lemma_contract_keeps_every_enum(name: String, defs: Seq<(String, Seq<String>)>)
    ensures
        contract(contract_source(name, defs), 0) == Ok::<(Tree, nat), ParseError>(
            (
                sym_leaf(Sym::Contract).with(Tree::leaf(Token::Identifier(name))).with(
                    Tree { tag: Token::Symbol(Sym::OpenBrace), kids: enum_trees(defs) },
                ),
                contract_source(name, defs).len(),
            ),
        ),
{
    let t = contract_source(name, defs);
    let body = enums_source(defs);
    assert(t.subrange(3, 3 + body.len() as int) =~= body);
    assert(t[3 + body.len() as int] == Token::Symbol(Sym::CloseBrace));
    lemma_parts_at(t, 3, defs, sym_leaf(Sym::OpenBrace));
    assert(Seq::<Tree>::empty() + enum_trees(defs) =~= enum_trees(defs));
}

/// A mapping between two elementary types holds the key type and then the
/// value type.
pub proof fn lemma_elementary_mapping(key: Sym, value: Sym)
    requires
        elementary_sym(key),
        elementary_sym(value),
    ensures
        typename(
            seq![
                Token::Symbol(Sym::Mapping),
                Token::Symbol(Sym::OpenParenthesis),
                Token::Symbol(key),
                Token::Symbol(Sym::Arrow),
                Token::Symbol(value),
                Token::Symbol(Sym::CloseParenthesis),
            ],
            0,
        ) == Ok::<(Tree, nat), ParseError>(
            (sym_leaf(Sym::Mapping).with(sym_leaf(key)).with(sym_leaf(value)), 6nat),
        ),
{
    let t = seq![
        Token::Symbol(Sym::Mapping),
        Token::Symbol(Sym::OpenParenthesis),
        Token::Symbol(key),
        Token::Symbol(Sym::Arrow),
        Token::Symbol(value),
        Token::Symbol(Sym::CloseParenthesis),
    ];
    assert(array_type_name(t, 5, sym_leaf(value)) == Ok::<(Tree, nat), ParseError>(
        (sym_leaf(value), 0nat),
    ));
    assert(typename(t, 4) == Ok::<(Tree, nat), ParseError>((sym_leaf(value), 1nat)));
    assert(mapping(t, 0) == Ok::<(Tree, nat), ParseError>(
        (sym_leaf(Sym::Mapping).with(sym_leaf(key)).with(sym_leaf(value)), 6nat),
    ));
}

/// `a.b[n](x)` as tokens.
pub open spec fn postfix_chain(a: String, b: String, n: String, x: String) -> Seq<Token> {
    seq![
        Token::Identifier(a),
        Token::Symbol(Sym::Dot),
        Token::Identifier(b),
        Token::Symbol(Sym::OpenBracket),
        Token::DecimalNumber(n),
        Token::Symbol(Sym::CloseBracket),
        Token::Symbol(Sym::OpenParenthesis),
        Token::Identifier(x),
        Token::Symbol(Sym::CloseParenthesis),
    ]
}

/// Postfix operators nest strictly left to right: `a.b[n](x)` is the call
/// of the index of the member access, with no rotation.
pub proof fn lemma_postfix_left_to_right(a: String, b: String, n: String, x: String)
    ensures
        expression(postfix_chain(a, b, n, x), 0) == Ok::<(Tree, nat), ParseError>(
            (
                sym_leaf(Sym::Function).with(
                    sym_leaf(Sym::OpenBracket).with(
                        sym_leaf(Sym::Dot).with(Tree::leaf(Token::Identifier(a))).with(
                            Tree::leaf(Token::Identifier(b)),
                        ),
                    ).with(Tree::leaf(Token::DecimalNumber(n))),
                ).with(sym_leaf(Sym::OpenParenthesis).with(Tree::leaf(Token::Identifier(x)))),
                9nat,
            ),
        ),
{
    let t = postfix_chain(a, b, n, x);
    let la = Tree::leaf(Token::Identifier(a));
    let lb = Tree::leaf(Token::Identifier(b));
    let ln = Tree::leaf(Token::DecimalNumber(n));
    let lx = Tree::leaf(Token::Identifier(x));
    let member = sym_leaf(Sym::Dot).with(la).with(lb);
    let index = sym_leaf(Sym::OpenBracket).with(member).with(ln);
    let args = sym_leaf(Sym::OpenParenthesis).with(lx);
    let call = sym_leaf(Sym::Function).with(index).with(args);
    assert(tok(t, 9) == Token::NoMatch);
    assert(operation(t, 9, call) == Ok::<(Tree, nat), ParseError>((call, 0nat)));
    assert(operation(t, 8, lx) == Ok::<(Tree, nat), ParseError>((lx, 0nat)));
    assert(expression(t, 7) == Ok::<(Tree, nat), ParseError>((lx, 1nat)));
    assert(expression_list(t, 7, sym_leaf(Sym::OpenParenthesis)) == Ok::<(Tree, nat), ParseError>(
        (args, 1nat),
    ));
    assert(call_arguments(t, 7) == Ok::<(Tree, nat), ParseError>((args, 2nat)));
    assert(operation(t, 6, index) == Ok::<(Tree, nat), ParseError>((call, 3nat)));
    assert(operation(t, 5, ln) == Ok::<(Tree, nat), ParseError>((ln, 0nat)));
    assert(expression(t, 4) == Ok::<(Tree, nat), ParseError>((ln, 1nat)));
    assert(operation(t, 3, member) == Ok::<(Tree, nat), ParseError>((call, 6nat)));
    assert(operation(t, 1, la) == Ok::<(Tree, nat), ParseError>((call, 8nat)));
}

} // verus!
