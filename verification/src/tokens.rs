//! Tokens that name the nodes of a syntax tree, and source positions.
use vstd::prelude::*;

verus! {

/// Position of a syntax element in a source file.
#[derive(Clone, Copy, Debug, PartialEq, Eq, Structural)]
pub struct Line {
    pub line: usize,
    pub column: usize,
}

/// Operators of the language.
#[derive(Clone, Copy, Debug, PartialEq, Eq, Structural)]
pub enum Operators {
    Add,
    Sub,
    Mul,
    Div,
    Mod,
    AddEq,
    SubEq,
    MulEq,
    DivEq,
    ModEq,
    Equal,
    DoubleEq,
    NotEqual,
    Less,
    Greater,
    LessEq,
    GreaterEq,
    And,
    Or,
    Not,
}

/// A token: the name of a syntax-tree node is one of these.
#[derive(Debug, Clone)]
pub enum Tokens {
    /// An identifier or the name of a grammar rule.
    Text(String),
    /// A string literal.
    String(String),
    /// A character literal.
    Char(char),
    /// An operator.
    Operator(Operators),
}

/// The mathematical value of a token.
pub enum TokensV {
    Text(Seq<char>),
    String(Seq<char>),
    Char(char),
    Operator(Operators),
}

impl View for Tokens {
    type V = TokensV;

    open spec fn view(&self) -> TokensV {
        match self {
            Tokens::Text(s) => TokensV::Text(s@),
            Tokens::String(s) => TokensV::String(s@),
            Tokens::Char(c) => TokensV::Char(*c),
            Tokens::Operator(o) => TokensV::Operator(*o),
        }
    }
}

impl Tokens {
    /// A copy of the token.
    pub fn duplicate(&self) -> (res: Tokens)
        ensures
            res@ == self@,
    {
        match self {
            Tokens::Text(s) => Tokens::Text(s.clone()),
            Tokens::String(s) => Tokens::String(s.clone()),
            Tokens::Char(c) => Tokens::Char(*c),
            Tokens::Operator(o) => Tokens::Operator(*o),
        }
    }
}

} // verus!
