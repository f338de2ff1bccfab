use solparse::declaration::{
    parse, parse_contract, parse_contract_part, parse_enum_definition, parse_import,
    parse_inheritance_specifier, parse_pragma,
};
use solparse::error::{ParseError, Production, SourceIssue};
use solparse::token::{Sym, Token};
use solparse::tree::ParseNode;

fn id(s: &str) -> Token {
    Token::Identifier(s.to_string())
}

fn version(s: &str) -> Token {
    Token::Version(s.to_string())
}

fn sym(s: Sym) -> Token {
    Token::Symbol(s)
}

fn leaf(t: Token) -> ParseNode {
    ParseNode { node: t, children: vec![] }
}

fn node(t: Token, children: Vec<ParseNode>) -> ParseNode {
    ParseNode { node: t, children }
}

fn pragma_tokens(target: &str, v: &str) -> Vec<Token> {
    vec![sym(Sym::Pragma), id(target), version(v), sym(Sym::Semicolon)]
}

fn enum_tokens(name: &str, members: &[&str]) -> Vec<Token> {
    let mut tokens = vec![sym(Sym::Enum), id(name), sym(Sym::OpenBrace)];
    for (i, m) in members.iter().enumerate() {
        if i > 0 {
            tokens.push(sym(Sym::Comma));
        }
        tokens.push(id(m));
    }
    tokens.push(sym(Sym::CloseBrace));
    tokens
}

fn enum_node(name: &str, members: &[&str]) -> ParseNode {
    let leaves = members.iter().map(|m| leaf(id(m))).collect();
    node(sym(Sym::Enum), vec![leaf(id(name)), node(sym(Sym::OpenBrace), leaves)])
}

#[test]
fn pragma_with_exact_version() {
    let tokens = pragma_tokens("solidity", "0.4.25");
    let mut cur: usize = 0;
    let r = parse_pragma(&tokens, &mut cur);
    let expected = node(sym(Sym::Pragma), vec![leaf(id("solidity")), leaf(version("0.4.25"))]);
    assert_eq!(r, Ok(expected));
    assert_eq!(cur, 4);
}

#[test]
fn pragma_with_caret_version() {
    let tokens = pragma_tokens("solidity", "^0.4.25");
    let mut cur: usize = 0;
    let r = parse_pragma(&tokens, &mut cur);
    let expected = node(sym(Sym::Pragma), vec![leaf(id("solidity")), leaf(version("^0.4.25"))]);
    assert_eq!(r, Ok(expected));
}

#[test]
fn pragma_for_another_target_is_refused() {
    let tokens = pragma_tokens("vyper", "0.4.25");
    let mut cur: usize = 0;
    let r = parse_pragma(&tokens, &mut cur);
    assert_eq!(r, Err(ParseError::SourceFileError(SourceIssue::UnsupportedTarget)));
}

#[test]
fn pragma_for_another_version_is_refused() {
    for v in ["0.4.24", "^0.5.0", ">=0.4.25", "0.4.25 "] {
        let tokens = pragma_tokens("solidity", v);
        let mut cur: usize = 0;
        let r = parse_pragma(&tokens, &mut cur);
        assert_eq!(r, Err(ParseError::SourceFileError(SourceIssue::UnsupportedVersion)));
    }
}

#[test]
fn pragma_without_semicolon_is_a_syntax_error() {
    let tokens = vec![sym(Sym::Pragma), id("solidity"), version("0.4.25")];
    let mut cur: usize = 0;
    let r = parse_pragma(&tokens, &mut cur);
    assert_eq!(r, Err(ParseError::SyntaxError(Production::Pragma)));
}

#[test]
fn enum_members_kept_in_order() {
    let tokens = enum_tokens("E", &["A", "B", "C"]);
    let mut cur: usize = 0;
    let r = parse_enum_definition(&tokens, &mut cur);
    assert_eq!(r, Ok(enum_node("E", &["A", "B", "C"])));
    assert_eq!(cur, tokens.len());
}

#[test]
fn enum_without_members() {
    let tokens = enum_tokens("E", &[]);
    let mut cur: usize = 0;
    let r = parse_enum_definition(&tokens, &mut cur);
    assert_eq!(r, Ok(enum_node("E", &[])));
    assert_eq!(cur, 4);
}

#[test]
fn enum_trailing_comma_is_tolerated() {
    let tokens = vec![
        sym(Sym::Enum),
        id("E"),
        sym(Sym::OpenBrace),
        id("A"),
        sym(Sym::Comma),
        sym(Sym::CloseBrace),
    ];
    let mut cur: usize = 0;
    let r = parse_enum_definition(&tokens, &mut cur);
    assert_eq!(r, Ok(enum_node("E", &["A"])));
}

#[test]
fn unclosed_enum_is_an_enum_error() {
    let tokens = vec![sym(Sym::Enum), id("E"), sym(Sym::OpenBrace), id("A"), sym(Sym::Semicolon)];
    let mut cur: usize = 0;
    let r = parse_enum_definition(&tokens, &mut cur);
    assert_eq!(r, Err(ParseError::SyntaxError(Production::Enum)));
}

#[test]
fn contract_keeps_every_enum_part() {
    let mut tokens = vec![sym(Sym::Contract), id("C"), sym(Sym::OpenBrace)];
    tokens.extend(enum_tokens("A", &["X"]));
    tokens.extend(enum_tokens("B", &["Y", "Z"]));
    tokens.push(sym(Sym::CloseBrace));
    let mut cur: usize = 0;
    let r = parse_contract(&tokens, &mut cur);
    let body = node(sym(Sym::OpenBrace), vec![enum_node("A", &["X"]), enum_node("B", &["Y", "Z"])]);
    assert_eq!(r, Ok(node(sym(Sym::Contract), vec![leaf(id("C")), body])));
    assert_eq!(cur, tokens.len());
}

#[test]
fn contract_part_without_enum_is_empty() {
    let tokens = vec![sym(Sym::CloseBrace)];
    let mut cur: usize = 0;
    let r = parse_contract_part(&tokens, &mut cur);
    assert_eq!(r, Ok(leaf(sym(Sym::OpenBrace))));
    assert_eq!(cur, 0);
}

#[test]
fn contract_with_inheritance_list() {
    let tokens = vec![
        sym(Sym::Contract),
        id("C"),
        sym(Sym::Is),
        id("A"),
        sym(Sym::Comma),
        id("lib"),
        sym(Sym::Dot),
        id("B"),
        sym(Sym::OpenParenthesis),
        Token::DecimalNumber("1".to_string()),
        sym(Sym::CloseParenthesis),
        sym(Sym::OpenBrace),
        sym(Sym::CloseBrace),
    ];
    let mut cur: usize = 0;
    let r = parse_contract(&tokens, &mut cur);
    let first = node(sym(Sym::OpenParenthesis), vec![node(sym(Sym::Dot), vec![leaf(id("A"))])]);
    let second_name = node(sym(Sym::Dot), vec![leaf(id("lib")), leaf(id("B"))]);
    let second_args =
        node(sym(Sym::OpenParenthesis), vec![leaf(Token::DecimalNumber("1".to_string()))]);
    let second = node(sym(Sym::OpenParenthesis), vec![second_name, second_args]);
    let list = node(sym(Sym::Is), vec![first, second]);
    let expected =
        node(sym(Sym::Contract), vec![leaf(id("C")), list, leaf(sym(Sym::OpenBrace))]);
    assert_eq!(r, Ok(expected));
    assert_eq!(cur, 13);
}

#[test]
fn inheritance_specifier_without_arguments() {
    let tokens = vec![id("A"), sym(Sym::OpenBrace)];
    let mut cur: usize = 0;
    let r = parse_inheritance_specifier(&tokens, &mut cur);
    let expected =
        node(sym(Sym::OpenParenthesis), vec![node(sym(Sym::Dot), vec![leaf(id("A"))])]);
    assert_eq!(r, Ok(expected));
    assert_eq!(cur, 1);
}

#[test]
fn unclosed_inheritance_arguments_are_an_error() {
    let tokens = vec![id("A"), sym(Sym::OpenParenthesis), id("x"), sym(Sym::OpenBrace)];
    let mut cur: usize = 0;
    let r = parse_inheritance_specifier(&tokens, &mut cur);
    assert_eq!(r, Err(ParseError::SyntaxError(Production::InheritanceSpecifier)));
}

#[test]
fn inheritance_name_must_be_an_identifier() {
    let tokens = vec![sym(Sym::Contract), id("C"), sym(Sym::Is), sym(Sym::OpenBrace)];
    let mut cur: usize = 0;
    let r = parse_contract(&tokens, &mut cur);
    assert_eq!(r, Err(ParseError::SyntaxError(Production::UserDefinedTypeName)));
}

#[test]
fn contract_without_name_is_a_contract_error() {
    let tokens = vec![sym(Sym::Contract), sym(Sym::OpenBrace), sym(Sym::CloseBrace)];
    let mut cur: usize = 0;
    let r = parse_contract(&tokens, &mut cur);
    assert_eq!(r, Err(ParseError::SyntaxError(Production::Contract)));
}

#[test]
fn import_is_skipped_through_its_semicolon() {
    let tokens = vec![
        Token::StringLiteral("a.sol".to_string()),
        sym(Sym::Semicolon),
        sym(Sym::Contract),
    ];
    let mut cur: usize = 0;
    parse_import(&tokens, &mut cur);
    assert_eq!(cur, 2);
}

#[test]
fn source_unit_keeps_pragma_and_contract() {
    let mut tokens = pragma_tokens("solidity", "^0.4.25");
    tokens.extend(vec![sym(Sym::Import), Token::StringLiteral("a.sol".to_string()), sym(Sym::Semicolon)]);
    tokens.extend(vec![sym(Sym::Contract), id("C"), sym(Sym::OpenBrace), sym(Sym::CloseBrace)]);
    let tree = parse(&tokens).unwrap();
    let pragma = node(sym(Sym::Pragma), vec![leaf(id("solidity")), leaf(version("^0.4.25"))]);
    let contract = node(sym(Sym::Contract), vec![leaf(id("C")), leaf(sym(Sym::OpenBrace))]);
    assert_eq!(tree.children, vec![pragma, contract]);
}

#[test]
fn library_and_interface_are_parsed_and_dropped() {
    let tokens = vec![
        sym(Sym::Library),
        id("L"),
        sym(Sym::OpenBrace),
        sym(Sym::CloseBrace),
        sym(Sym::Interface),
        id("I"),
        sym(Sym::OpenBrace),
        sym(Sym::CloseBrace),
    ];
    let tree = parse(&tokens).unwrap();
    assert!(tree.children.is_empty());
    let broken = vec![sym(Sym::Library), id("L"), sym(Sym::OpenBrace)];
    assert_eq!(parse(&broken).unwrap_err(), ParseError::SyntaxError(Production::Contract));
}

#[test]
fn empty_input_gives_empty_tree() {
    let tree = parse(&vec![]).unwrap();
    assert!(tree.children.is_empty());
}

#[test]
fn bare_top_level_token_is_a_syntax_error() {
    let tokens = enum_tokens("E", &["A"]);
    assert_eq!(parse(&tokens).unwrap_err(), ParseError::SyntaxError(Production::TopLevel));
    let mut later = pragma_tokens("solidity", "0.4.25");
    later.push(id("x"));
    assert_eq!(parse(&later).unwrap_err(), ParseError::SyntaxError(Production::TopLevel));
}

#[test]
fn top_level_pragma_error_is_passed_on() {
    let tokens = pragma_tokens("solidity", "0.5.0");
    assert_eq!(
        parse(&tokens).unwrap_err(),
        ParseError::SourceFileError(SourceIssue::UnsupportedVersion)
    );
}
