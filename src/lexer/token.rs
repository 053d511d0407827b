use vstd::prelude::*;

verus! {

/// Whether an identifier is one of the configured reserved words.
#[derive(Debug, PartialEq)]
pub enum Identifier {
    Reserved(String),
    Normal(String),
}

#[derive(Debug, PartialEq, Eq, Structural, Clone, Copy)]
pub enum BraceSide {
    Left,
    Right,
}

#[derive(Debug, PartialEq, Eq, Structural, Clone, Copy)]
pub enum BraceType {
    Paren(BraceSide),
    Bracket(BraceSide),
    Curly(BraceSide),
}

#[derive(Debug, PartialEq, Eq, Structural, Clone, Copy)]
pub enum Separator {
    Comma,
}

/// A literal keeps its lexeme verbatim; turning it into a value is left to later stages.
#[derive(Debug, PartialEq)]
pub enum Literal {
    Int(String),
    Float(String),
    Str(String),
}

/// One item of a token stream.
#[derive(Debug, PartialEq)]
pub enum Token {
    EOF,
    Sym(String),
    Lit(Literal),
    Ident(Identifier),
    Brace(BraceType),
    Sep(Separator),
    Comment(String),
}

/// The kind of a literal, as the mathematical model of a token sees it.
#[derive(Debug, PartialEq, Eq, Structural, Clone, Copy)]
pub enum LitKind {
    Int,
    Float,
    Str,
}

/// A token with its text as a sequence of characters.
pub enum Lexeme {
    EOF,
    Sym(Seq<char>),
    Lit(LitKind, Seq<char>),
    Ident(bool, Seq<char>),
    Brace(BraceType),
    Sep(Separator),
    Comment(Seq<char>),
}

impl View for Token {
    type V = Lexeme;

    open spec fn view(&self) -> Lexeme {
        match self {
            Token::EOF => Lexeme::EOF,
            Token::Sym(s) => Lexeme::Sym(s@),
            Token::Lit(Literal::Int(s)) => Lexeme::Lit(LitKind::Int, s@),
            Token::Lit(Literal::Float(s)) => Lexeme::Lit(LitKind::Float, s@),
            Token::Lit(Literal::Str(s)) => Lexeme::Lit(LitKind::Str, s@),
            Token::Ident(Identifier::Reserved(s)) => Lexeme::Ident(true, s@),
            Token::Ident(Identifier::Normal(s)) => Lexeme::Ident(false, s@),
            Token::Brace(b) => Lexeme::Brace(*b),
            Token::Sep(s) => Lexeme::Sep(*s),
            Token::Comment(s) => Lexeme::Comment(s@),
        }
    }
}

} // verus!
