//! The concrete token value: a kind paired with the exact source text matched.

use vstd::prelude::*;
use crate::token_type::TokenType;

verus! {

/// The mathematical value of a token: its kind and the characters of its
/// source text. Contracts and the DFA model speak in this type.
pub ghost struct TokenModel {
    pub token_type: TokenType,
    pub text: Seq<char>,
}

/// A classified lexical token. Immutable after creation: the tokenizer builds
/// one at emission time, and `text` is the exact substring matched.
#[derive(Clone, Debug)]
pub struct SimpleToken {
    pub token_type: TokenType,
    pub text: String,
}

impl View for SimpleToken {
    type V = TokenModel;

    open spec fn view(&self) -> TokenModel {
        TokenModel { token_type: self.token_type, text: self.text@ }
    }
}

impl SimpleToken {
    /// The token's kind.
    pub fn get_type(&self) -> (r: &TokenType)
        ensures
            *r == self@.token_type,
    {
        &self.token_type
    }

    /// The exact source text the token matched.
    pub fn get_text(&self) -> (r: &str)
        ensures
            r@ == self@.text,
    {
        self.text.as_str()
    }
}

impl Default for SimpleToken {
    /// An empty token buffer: no text yet, kind still at its default.
    fn default() -> (r: Self)
        ensures
            r@ == (TokenModel { token_type: TokenType::Identifier, text: Seq::<char>::empty() }),
    {
        SimpleToken { token_type: TokenType::Identifier, text: String::new() }
    }
}

} // verus!
