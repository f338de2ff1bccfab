use solparse::error::{ParseError, Production};
use solparse::types::{
    parse_array_type_name, parse_function_type_name, parse_function_type_parameter_list,
    parse_mapping, parse_type_name, parse_user_defined_type_name,
};
use solparse::token::{Sym, Token};
use solparse::tree::ParseNode;

fn id(s: &str) -> Token {
    Token::Identifier(s.to_string())
}

fn sym(s: Sym) -> Token {
    Token::Symbol(s)
}

fn leaf(t: Token) -> ParseNode {
    ParseNode { node: t, children: vec![] }
}

fn node(t: Token, children: Vec<ParseNode>) -> ParseNode {
    ParseNode { node: t, children }
}

fn parse_type(tokens: Vec<Token>) -> (Result<ParseNode, ParseError>, usize) {
    let mut cur: usize = 0;
    let r = parse_type_name(&tokens, &mut cur);
    (r, cur)
}

#[test]
fn mapping_from_uint_to_address() {
    let tokens = vec![
        sym(Sym::Mapping),
        sym(Sym::OpenParenthesis),
        sym(Sym::Uint(256)),
        sym(Sym::Arrow),
        sym(Sym::Address),
        sym(Sym::CloseParenthesis),
    ];
    let (r, cur) = parse_type(tokens);
    let expected = node(sym(Sym::Mapping), vec![leaf(sym(Sym::Uint(256))), leaf(sym(Sym::Address))]);
    assert_eq!(r, Ok(expected));
    assert_eq!(cur, 6);
}

#[test]
fn nested_mapping_value() {
    let tokens = vec![
        sym(Sym::Mapping),
        sym(Sym::OpenParenthesis),
        sym(Sym::Address),
        sym(Sym::Arrow),
        sym(Sym::Mapping),
        sym(Sym::OpenParenthesis),
        sym(Sym::Bytes(32)),
        sym(Sym::Arrow),
        sym(Sym::Bool),
        sym(Sym::CloseParenthesis),
        sym(Sym::CloseParenthesis),
    ];
    let mut cur: usize = 0;
    let r = parse_mapping(&tokens, &mut cur);
    let inner = node(sym(Sym::Mapping), vec![leaf(sym(Sym::Bytes(32))), leaf(sym(Sym::Bool))]);
    assert_eq!(r, Ok(node(sym(Sym::Mapping), vec![leaf(sym(Sym::Address)), inner])));
    assert_eq!(cur, 11);
}

#[test]
fn mapping_key_must_be_elementary() {
    let tokens = vec![
        sym(Sym::Mapping),
        sym(Sym::OpenParenthesis),
        id("C"),
        sym(Sym::Arrow),
        sym(Sym::Bool),
        sym(Sym::CloseParenthesis),
    ];
    let (r, _) = parse_type(tokens);
    assert_eq!(r, Err(ParseError::SyntaxError(Production::Mapping)));
}

#[test]
fn dotted_name_is_one_flat_node() {
    let tokens = vec![id("a"), sym(Sym::Dot), id("b"), sym(Sym::Dot), id("c")];
    let mut cur: usize = 0;
    let r = parse_user_defined_type_name(&tokens, &mut cur);
    let expected = node(sym(Sym::Dot), vec![leaf(id("a")), leaf(id("b")), leaf(id("c"))]);
    assert_eq!(r, Ok(expected));
    assert_eq!(cur, 5);
}

#[test]
fn dangling_dot_is_a_user_defined_type_error() {
    let tokens = vec![id("a"), sym(Sym::Dot), sym(Sym::Semicolon)];
    let (r, _) = parse_type(tokens);
    assert_eq!(r, Err(ParseError::SyntaxError(Production::UserDefinedTypeName)));
}

#[test]
fn elementary_type_without_brackets_is_a_leaf() {
    let (r, cur) = parse_type(vec![sym(Sym::Bool), sym(Sym::Semicolon)]);
    assert_eq!(r, Ok(leaf(sym(Sym::Bool))));
    assert_eq!(cur, 1);
}

#[test]
fn fixed_and_dynamic_arrays() {
    let tokens = vec![
        sym(Sym::Uint(8)),
        sym(Sym::OpenBracket),
        Token::DecimalNumber("10".to_string()),
        sym(Sym::CloseBracket),
    ];
    let (r, _) = parse_type(tokens);
    let sized = node(
        sym(Sym::OpenBracket),
        vec![leaf(sym(Sym::Uint(8))), leaf(Token::DecimalNumber("10".to_string()))],
    );
    assert_eq!(r, Ok(sized));
    let (r, cur) = parse_type(vec![sym(Sym::Address), sym(Sym::OpenBracket), sym(Sym::CloseBracket)]);
    assert_eq!(r, Ok(node(sym(Sym::OpenBracket), vec![leaf(sym(Sym::Address))])));
    assert_eq!(cur, 3);
}

#[test]
fn unclosed_array_is_an_array_type_error() {
    let tokens = vec![sym(Sym::OpenBracket), Token::DecimalNumber("1".to_string())];
    let mut cur: usize = 0;
    let r = parse_array_type_name(&tokens, &mut cur, leaf(sym(Sym::Bool)));
    assert_eq!(r, Err(ParseError::SyntaxError(Production::ArrayTypeName)));
}

#[test]
fn function_type_with_modifiers_and_results() {
    let tokens = vec![
        sym(Sym::Function),
        sym(Sym::OpenParenthesis),
        sym(Sym::Uint(256)),
        sym(Sym::Comma),
        sym(Sym::Bool),
        sym(Sym::CloseParenthesis),
        sym(Sym::External),
        sym(Sym::View),
        sym(Sym::Returns),
        sym(Sym::OpenParenthesis),
        sym(Sym::Address),
        sym(Sym::CloseParenthesis),
    ];
    let mut cur: usize = 0;
    let r = parse_function_type_name(&tokens, &mut cur);
    let params = node(sym(Sym::OpenParenthesis), vec![leaf(sym(Sym::Uint(256))), leaf(sym(Sym::Bool))]);
    let results = node(sym(Sym::OpenParenthesis), vec![leaf(sym(Sym::Address))]);
    let expected = node(
        sym(Sym::Function),
        vec![
            params,
            leaf(sym(Sym::External)),
            leaf(sym(Sym::View)),
            node(sym(Sym::Returns), vec![results]),
        ],
    );
    assert_eq!(r, Ok(expected));
    assert_eq!(cur, 12);
}

#[test]
fn function_type_without_parameters() {
    let tokens = vec![sym(Sym::Function), sym(Sym::OpenParenthesis), sym(Sym::CloseParenthesis)];
    let (r, _) = parse_type(tokens);
    let expected = node(sym(Sym::Function), vec![leaf(sym(Sym::OpenParenthesis))]);
    assert_eq!(r, Ok(expected));
}

#[test]
fn function_type_needs_the_keyword() {
    let tokens = vec![sym(Sym::OpenParenthesis), sym(Sym::CloseParenthesis)];
    let mut cur: usize = 0;
    let r = parse_function_type_name(&tokens, &mut cur);
    assert_eq!(r, Err(ParseError::SyntaxError(Production::FunctionType)));
}

#[test]
fn parameter_list_needs_parentheses() {
    let tokens = vec![sym(Sym::Function), sym(Sym::Uint(256))];
    let (r, _) = parse_type(tokens);
    assert_eq!(r, Err(ParseError::SyntaxError(Production::ParameterList)));
    let tokens = vec![sym(Sym::OpenParenthesis), sym(Sym::Bool), sym(Sym::Semicolon)];
    let mut cur: usize = 0;
    let r = parse_function_type_parameter_list(&tokens, &mut cur);
    assert_eq!(r, Err(ParseError::SyntaxError(Production::ParameterList)));
}

#[test]
fn other_lookahead_is_a_type_name_error() {
    let (r, _) = parse_type(vec![sym(Sym::Semicolon)]);
    assert_eq!(r, Err(ParseError::SyntaxError(Production::TypeName)));
}
