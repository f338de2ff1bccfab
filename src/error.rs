use vstd::prelude::*;

verus! {

/// The production whose expectation the input violated.
#[derive(Clone, Copy, Debug, PartialEq, Eq, Structural)]
pub enum Production {
    TopLevel,
    Pragma,
    Contract,
    Enum,
    InheritanceSpecifier,
    ArrayAccess,
    MemberAccess,
    FunctionCall,
    NameValueList,
    Tuple,
    TypeName,
    UserDefinedTypeName,
    Mapping,
    FunctionType,
    ParameterList,
    ArrayTypeName,
}

/// Why a well-formed pragma is still refused.
#[derive(Clone, Copy, Debug, PartialEq, Eq, Structural)]
pub enum SourceIssue {
    UnsupportedTarget,
    UnsupportedVersion,
}

/// Every failure is fatal to the whole parse.
#[derive(Clone, Copy, Debug, PartialEq, Eq, Structural)]
pub enum ParseError {
    SyntaxError(Production),
    SourceFileError(SourceIssue),
}

} // verus!
