use vstd::prelude::*;

verus! {

/// One lexical unit of source text.
///
/// `EOF` closes every buffer; `Illegal` marks the point where the scanner met
/// a character it could not classify, and nothing follows it.
#[derive(Debug, Clone)]
pub enum Token {
    Illegal,
    EOF,
    // identifier and literals
    Ident(String),
    StringLiteral(String),
    IntLiteral(usize),
    BoolLiteral(bool),
    // statements
    Assign,
    If,
    Else,
    // operators
    Plus,
    Minus,
    Divide,
    Multiply,
    Equal,
    NotEqual,
    GreaterThan,
    LessThan,
    Not,
    // reserved words
    Function,
    Let,
    Return,
    // punctuations
    Comma,
    Colon,
    SemiColon,
    LParen,
    RParen,
    LBrace,
    RBrace,
    LBracket,
    RBracket,
}

/// Structural equality: the same variant with equal payloads, strings
/// compared by their characters.
pub open spec fn same_token(a: Token, b: Token) -> bool {
    match a {
        Token::Ident(x) => b is Ident && x@ == b->Ident_0@,
        Token::StringLiteral(x) => b is StringLiteral && x@ == b->StringLiteral_0@,
        _ => a == b,
    }
}

impl Token {
    /// A token counts as one unit of input.
    pub fn input_len(&self) -> (r: usize)
        ensures
            r == 1,
    {
        1
    }
}

impl PartialEq for Token {
    fn eq(&self, other: &Token) -> (r: bool) {
        match (self, other) {
            (Token::Ident(x), Token::Ident(y)) => *x == *y,
            (Token::StringLiteral(x), Token::StringLiteral(y)) => *x == *y,
            (Token::IntLiteral(x), Token::IntLiteral(y)) => *x == *y,
            (Token::BoolLiteral(x), Token::BoolLiteral(y)) => *x == *y,
            (Token::Illegal, Token::Illegal) => true,
            (Token::EOF, Token::EOF) => true,
            (Token::Assign, Token::Assign) => true,
            (Token::If, Token::If) => true,
            (Token::Else, Token::Else) => true,
            (Token::Plus, Token::Plus) => true,
            (Token::Minus, Token::Minus) => true,
            (Token::Divide, Token::Divide) => true,
            (Token::Multiply, Token::Multiply) => true,
            (Token::Equal, Token::Equal) => true,
            (Token::NotEqual, Token::NotEqual) => true,
            (Token::GreaterThan, Token::GreaterThan) => true,
            (Token::LessThan, Token::LessThan) => true,
            (Token::Not, Token::Not) => true,
            (Token::Function, Token::Function) => true,
            (Token::Let, Token::Let) => true,
            (Token::Return, Token::Return) => true,
            (Token::Comma, Token::Comma) => true,
            (Token::Colon, Token::Colon) => true,
            (Token::SemiColon, Token::SemiColon) => true,
            (Token::LParen, Token::LParen) => true,
            (Token::RParen, Token::RParen) => true,
            (Token::LBrace, Token::LBrace) => true,
            (Token::RBrace, Token::RBrace) => true,
            (Token::LBracket, Token::LBracket) => true,
            (Token::RBracket, Token::RBracket) => true,
            _ => false,
        }
    }
}

impl vstd::std_specs::cmp::PartialEqSpecImpl for Token {
    open spec fn obeys_eq_spec() -> bool {
        true
    }

    open spec fn eq_spec(&self, other: &Token) -> bool {
        same_token(*self, *other)
    }
}

} // verus!
