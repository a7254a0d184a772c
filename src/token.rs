//! Tokens handed to the parser by a lexer, and the cursor it reads them through.
use vstd::prelude::*;

verus! {

/// A binary operator.
#[derive(Clone, Copy, PartialEq, Eq, Debug, Hash, Structural)]
pub enum Op {
    Plus,
    Minus,
    Mult,
    Div,
    Modulo,
}

/// One lexical unit. A numeric literal carries the bits of its IEEE-754
/// binary64 value, so the parser moves it along without touching it.
#[derive(Clone, PartialEq, Debug)]
pub enum Token {
    Def,
    Extern,
    Identifier(String),
    Number(u64),
    Operator(Op),
    OpenParen,
    ClosedParen,
    Comma,
    Semicolon,
}

/// A token with its identifier text as a sequence of characters.
pub enum TokenModel {
    Def,
    Extern,
    Identifier(Seq<char>),
    Number(u64),
    Operator(Op),
    OpenParen,
    ClosedParen,
    Comma,
    Semicolon,
}

impl Token {
    pub open spec fn view(&self) -> TokenModel {
        match self {
            Token::Def => TokenModel::Def,
            Token::Extern => TokenModel::Extern,
            Token::Identifier(s) => TokenModel::Identifier(s@),
            Token::Number(bits) => TokenModel::Number(*bits),
            Token::Operator(op) => TokenModel::Operator(*op),
            Token::OpenParen => TokenModel::OpenParen,
            Token::ClosedParen => TokenModel::ClosedParen,
            Token::Comma => TokenModel::Comma,
            Token::Semicolon => TokenModel::Semicolon,
        }
    }

    /// A copy of the token, equal to it.
    pub fn duplicate(&self) -> (r: Token)
        ensures
            r == *self,
    {
        match self {
            Token::Def => Token::Def,
            Token::Extern => Token::Extern,
            Token::Identifier(s) => Token::Identifier(s.clone()),
            Token::Number(bits) => Token::Number(*bits),
            Token::Operator(op) => Token::Operator(*op),
            Token::OpenParen => Token::OpenParen,
            Token::ClosedParen => Token::ClosedParen,
            Token::Comma => Token::Comma,
            Token::Semicolon => Token::Semicolon,
        }
    }
}

/// The token at position `p`, if there is one.
pub open spec fn token_at(t: Seq<Token>, p: int) -> Option<Token> {
    if 0 <= p < t.len() {
        Some(t[p])
    } else {
        None
    }
}

/// A sequence of tokens with a read position: one token of lookahead
/// (`peek`) and consumption (`next`) that advances by exactly one.
pub struct TokenStream {
    pub tokens: Vec<Token>,
    pub pos: usize,
}

impl TokenStream {
    pub fn new(tokens: Vec<Token>) -> (r: TokenStream)
        ensures
            r.tokens@ == tokens@,
            r.pos == 0,
    {
        TokenStream { tokens, pos: 0 }
    }

    /// The next token, without consuming it.
    pub fn peek(&self) -> (r: Option<&Token>)
        ensures
            match token_at(self.tokens@, self.pos as int) {
                Some(t) => r == Some(&t),
                None => r is None,
            },
    {
        if self.pos < self.tokens.len() {
            Some(&self.tokens[self.pos])
        } else {
            None
        }
    }

    /// Consumes the next token and returns it; at the end nothing changes.
    pub fn next(&mut self) -> (r: Option<Token>)
        ensures
            final(self).tokens@ == old(self).tokens@,
            r == token_at(old(self).tokens@, old(self).pos as int),
            final(self).pos == if r is Some { old(self).pos + 1 } else { old(self).pos as int },
    {
        if self.pos < self.tokens.len() {
            let t = self.tokens[self.pos].duplicate();
            self.pos = self.pos + 1;
            Some(t)
        } else {
            None
        }
    }

    /// Whether every token has been consumed.
    pub fn is_at_end(&self) -> (r: bool)
        ensures
            r == (self.pos >= self.tokens@.len()),
    {
        self.pos >= self.tokens.len()
    }
}

} // verus!
