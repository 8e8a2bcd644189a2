use vstd::prelude::*;

verus! {

/// The kind of a token: the symbolic tag the parser dispatches on.
///
/// `Id` and `NumLit` are the generic markers for identifiers and number
/// literals; `Eof` is the synthetic end-of-input token; every keyword,
/// word-operator, punctuation mark and operator has a kind of its own,
/// equal to its spelling in the source.
#[derive(Clone, Copy, PartialEq, Eq, Structural, Debug)]
pub enum TokenKind {
    Eof,
    Id,
    NumLit,
    KwAnd,
    KwEntry,
    KwFalse,
    KwFn,
    KwFragment,
    KwIn,
    KwLet,
    KwLoc,
    KwNot,
    KwOr,
    KwOut,
    KwReturn,
    KwTrue,
    KwVec2,
    KwVec3,
    KwVec4,
    KwVertex,
    KwVoid,
    LParen,
    RParen,
    LBrace,
    RBrace,
    LBracket,
    RBracket,
    Colon,
    Semi,
    Comma,
    Assign,
    Arrow,
    Plus,
    Minus,
    Star,
    Slash,
    Percent,
    Lt,
    Gt,
    Le,
    Ge,
    EqEq,
    BangEq,
    Amp,
    Pipe,
}

/// A position in the source text: 1-based line number and 1-based column.
#[derive(Clone, Copy, PartialEq, Eq, Structural, Debug)]
pub struct TextCoord {
    pub line_number: usize,
    pub column: usize,
}

/// The source region a token was scanned from: its start coordinate and the
/// coordinate one past its last character.
#[derive(Clone, Copy, PartialEq, Eq, Structural, Debug)]
pub struct Span {
    pub start: TextCoord,
    pub end: TextCoord,
}

/// Mathematical model of a token: its kind, its lexeme as a sequence of
/// characters, and its span.
#[verifier::ext_equal]
pub ghost struct TokenModel {
    pub kind: TokenKind,
    pub text: Seq<char>,
    pub span: Span,
}

/// A token: kind, the exact source substring it was scanned from, and its span.
#[derive(Debug)]
pub struct Token {
    pub kind: TokenKind,
    pub value: String,
    pub span: Span,
}

impl View for Token {
    type V = TokenModel;

    open spec fn view(&self) -> TokenModel {
        TokenModel { kind: self.kind, text: self.value@, span: self.span }
    }
}

impl Clone for Token {
    fn clone(&self) -> (r: Token)
        ensures
            r@ == self@,
    {
        Token { kind: self.kind, value: self.value.clone(), span: self.span }
    }
}

} // verus!
