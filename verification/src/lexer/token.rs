//! Tokens: what the lexer hands to the parser.
use vstd::prelude::*;

verus! {

/// A token: its type (a rule name such as `ID`), the text it matched, the
/// line and column where it was found (the column counts UTF-8 bytes), and
/// the byte span it covers.
#[derive(Debug, Clone)]
pub struct Token {
    pub token_type: String,
    pub value: String,
    pub line: usize,
    pub column: usize,
    pub start: usize,
    pub end: usize,
}

/// The contents of a token.
pub struct TokenView {
    pub token_type: Seq<char>,
    pub value: Seq<char>,
    pub line: usize,
    pub column: usize,
    pub start: usize,
    pub end: usize,
}

impl View for Token {
    type V = TokenView;

    open spec fn view(&self) -> TokenView {
        TokenView {
            token_type: self.token_type@,
            value: self.value@,
            line: self.line,
            column: self.column,
            start: self.start,
            end: self.end,
        }
    }
}

impl Token {
    /// A copy of the token.
    pub fn duplicate(&self) -> (t: Token)
        ensures
            t == *self,
    {
        Token {
            token_type: self.token_type.clone(),
            value: self.value.clone(),
            line: self.line,
            column: self.column,
            start: self.start,
            end: self.end,
        }
    }
}

} // verus!
