use vstd::prelude::*;

verus! {

/// Keywords, punctuation, operators, elementary type names and unit suffixes.
#[derive(Clone, Copy, Debug, PartialEq, Eq, Structural)]
pub enum Sym {
    Pragma,
    Import,
    Contract,
    Library,
    Interface,
    Is,
    Enum,
    Function,
    New,
    Delete,
    Mapping,
    Returns,
    True,
    False,
    Internal,
    External,
    Pure,
    Constant,
    View,
    Payable,
    Semicolon,
    Comma,
    Dot,
    Colon,
    Question,
    Arrow,
    OpenBrace,
    CloseBrace,
    OpenParenthesis,
    CloseParenthesis,
    OpenBracket,
    CloseBracket,
    Increment,
    Decrement,
    Exclamation,
    Tilda,
    Power,
    Multiply,
    Divide,
    Modulus,
    Plus,
    Minus,
    ShiftLeft,
    ShiftRight,
    BitwiseAnd,
    BitwiseXor,
    BitwiseOr,
    GreaterThan,
    LessThan,
    GreaterThanOrEquals,
    LessThanOrEquals,
    Equals,
    NotEquals,
    LogicalAnd,
    LogicalOr,
    Assign,
    OrEquals,
    XorEquals,
    AndEquals,
    ShiftLeftEquals,
    ShiftRightEquals,
    PlusEquals,
    MinusEquals,
    MultiplyEquals,
    DivideEquals,
    ModEquals,
    Address,
    Bool,
    StringType,
    Byte,
    Int(u16),
    Uint(u16),
    Bytes(u8),
    Fixed,
    Ufixed,
    Wei,
    Szabo,
    Finney,
    Ether,
    Seconds,
    Minutes,
    Hours,
    Days,
    Weeks,
    Years,
}

/// One lexical unit as handed over by the lexer. Literal-bearing kinds keep
/// their source text; `NoMatch` is the sentinel for "no production here" and
/// is also what the parser sees past the end of the input.
#[derive(Clone, Debug, PartialEq, Eq)]
pub enum Token {
    Symbol(Sym),
    Identifier(String),
    Version(String),
    DecimalNumber(String),
    HexNumber(String),
    HexLiteral(String),
    StringLiteral(String),
    NoMatch,
}

/// Types that may stand as a mapping key, an array element or a cast head.
pub open spec fn elementary_sym(s: Sym) -> bool {
    match s {
        Sym::Address | Sym::Bool | Sym::StringType | Sym::Byte | Sym::Int(_) | Sym::Uint(_)
        | Sym::Bytes(_) | Sym::Fixed | Sym::Ufixed => true,
        _ => false,
    }
}

/// Denominations and time units that may follow a number literal.
pub open spec fn unit_sym(s: Sym) -> bool {
    match s {
        Sym::Wei | Sym::Szabo | Sym::Finney | Sym::Ether | Sym::Seconds | Sym::Minutes
        | Sym::Hours | Sym::Days | Sym::Weeks | Sym::Years => true,
        _ => false,
    }
}

pub open spec fn is_sym(t: Token, s: Sym) -> bool {
    t == Token::Symbol(s)
}

pub open spec fn is_elementary(t: Token) -> bool {
    match t {
        Token::Symbol(s) => elementary_sym(s),
        _ => false,
    }
}

pub open spec fn is_unit(t: Token) -> bool {
    match t {
        Token::Symbol(s) => unit_sym(s),
        _ => false,
    }
}

/// Precedence tier of a binary, ternary-part or assignment operator, from
/// `**` (2) down to assignment (13); 0 for every other token.
pub open spec fn tier_of(t: Token) -> nat {
    match t {
        Token::Symbol(s) => match s {
            Sym::Power => 2,
            Sym::Multiply | Sym::Divide | Sym::Modulus => 3,
            Sym::Plus | Sym::Minus => 4,
            Sym::ShiftLeft | Sym::ShiftRight => 5,
            Sym::BitwiseAnd => 6,
            Sym::BitwiseXor => 7,
            Sym::BitwiseOr => 8,
            Sym::GreaterThan | Sym::LessThan | Sym::GreaterThanOrEquals
            | Sym::LessThanOrEquals => 9,
            Sym::Equals | Sym::NotEquals => 10,
            Sym::LogicalAnd | Sym::LogicalOr => 11,
            Sym::Question | Sym::Colon => 12,
            Sym::Assign | Sym::OrEquals | Sym::XorEquals | Sym::AndEquals | Sym::ShiftLeftEquals
            | Sym::ShiftRightEquals | Sym::PlusEquals | Sym::MinusEquals | Sym::MultiplyEquals
            | Sym::DivideEquals | Sym::ModEquals => 13,
            _ => 0,
        },
        _ => 0,
    }
}

/// The tier at which assignment operators stand.
pub open spec fn assignment_tier() -> nat {
    13
}

/// Whether an operator node tagged `inner`, found on top of the right operand
/// of `op`, must be rotated above `op`: its tier is `op`'s own or looser.
/// Assignment absorbs nothing, so chained assignments group to the right.
pub open spec fn absorbs(op: Token, inner: Token) -> bool {
    &&& tier_of(op) > 0
    &&& tier_of(inner) > 0
    &&& tier_of(op) < assignment_tier()
    &&& tier_of(inner) >= tier_of(op)
}

impl Sym {
    pub fn is_elementary_type(&self) -> (r: bool)
        ensures
            r == elementary_sym(*self),
    {
        match self {
            Sym::Address | Sym::Bool | Sym::StringType | Sym::Byte | Sym::Int(_) | Sym::Uint(_)
            | Sym::Bytes(_) | Sym::Fixed | Sym::Ufixed => true,
            _ => false,
        }
    }

    pub fn is_number_unit(&self) -> (r: bool)
        ensures
            r == unit_sym(*self),
    {
        match self {
            Sym::Wei | Sym::Szabo | Sym::Finney | Sym::Ether | Sym::Seconds | Sym::Minutes
            | Sym::Hours | Sym::Days | Sym::Weeks | Sym::Years => true,
            _ => false,
        }
    }

    pub fn tier(&self) -> (r: u8)
        ensures
            r as nat == tier_of(Token::Symbol(*self)),
    {
        match self {
            Sym::Power => 2,
            Sym::Multiply | Sym::Divide | Sym::Modulus => 3,
            Sym::Plus | Sym::Minus => 4,
            Sym::ShiftLeft | Sym::ShiftRight => 5,
            Sym::BitwiseAnd => 6,
            Sym::BitwiseXor => 7,
            Sym::BitwiseOr => 8,
            Sym::GreaterThan | Sym::LessThan | Sym::GreaterThanOrEquals
            | Sym::LessThanOrEquals => 9,
            Sym::Equals | Sym::NotEquals => 10,
            Sym::LogicalAnd | Sym::LogicalOr => 11,
            Sym::Question | Sym::Colon => 12,
            Sym::Assign | Sym::OrEquals | Sym::XorEquals | Sym::AndEquals | Sym::ShiftLeftEquals
            | Sym::ShiftRightEquals | Sym::PlusEquals | Sym::MinusEquals | Sym::MultiplyEquals
            | Sym::DivideEquals | Sym::ModEquals => 13,
            _ => 0,
        }
    }
}

impl Token {
    pub fn is_elementary_type(&self) -> (r: bool)
        ensures
            r == is_elementary(*self),
    {
        match self {
            Token::Symbol(s) => s.is_elementary_type(),
            _ => false,
        }
    }

    pub fn is_number_unit(&self) -> (r: bool)
        ensures
            r == is_unit(*self),
    {
        match self {
            Token::Symbol(s) => s.is_number_unit(),
            _ => false,
        }
    }

    pub fn tier(&self) -> (r: u8)
        ensures
            r as nat == tier_of(*self),
    {
        match self {
            Token::Symbol(s) => s.tier(),
            _ => 0,
        }
    }

    /// Whether this token is exactly the symbol `s`.
    pub fn is(&self, s: Sym) -> (r: bool)
        ensures
            r == is_sym(*self, s),
    {
        match self {
            Token::Symbol(x) => *x == s,
            _ => false,
        }
    }

    /// A copy of this token, literal text included.
    pub fn duplicate(&self) -> (r: Token)
        ensures
            r == *self,
    {
        match self {
            Token::Symbol(s) => Token::Symbol(*s),
            Token::Identifier(s) => Token::Identifier(s.clone()),
            Token::Version(s) => Token::Version(s.clone()),
            Token::DecimalNumber(s) => Token::DecimalNumber(s.clone()),
            Token::HexNumber(s) => Token::HexNumber(s.clone()),
            Token::HexLiteral(s) => Token::HexLiteral(s.clone()),
            Token::StringLiteral(s) => Token::StringLiteral(s.clone()),
            Token::NoMatch => Token::NoMatch,
        }
    }
}

} // verus!
