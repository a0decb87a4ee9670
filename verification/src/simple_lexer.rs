//! The executable lexer: a hand-written DFA walk over the input characters,
//! proved to emit exactly the token sequence the model in `dfa` assigns.

use vstd::prelude::*;
use vstd::string::StrSliceExecFns;
use crate::dfa::{
    dispatch, is_alpha_char, is_blank_char, is_digit_char, lemma_lex_from_fresh, lex, lex_from,
    DfaState, LexState,
};
use crate::token::{SimpleToken, TokenModel};
use crate::token_reader::SimpleTokenReader;
use crate::token_type::TokenType;

verus! {

/// What a lexer value amounts to: the tokens it has already emitted, and the
/// kind and text of the token still being buffered.
pub ghost struct LexerModel {
    pub emitted: Seq<TokenModel>,
    pub kind: TokenType,
    pub text: Seq<char>,
}

/// The DFA tokenizer. It consumes the full input eagerly and hands the
/// finished token sequence to a [`SimpleTokenReader`]; no token is observable
/// before the whole input is scanned.
pub struct SimpleLexer {
    token_text: String,
    tokens: Vec<SimpleToken>,
    token: SimpleToken,
    dfastate: DfaState,
}

impl View for SimpleLexer {
    type V = LexerModel;

    closed spec fn view(&self) -> LexerModel {
        LexerModel {
            emitted: self.tokens@.map_values(|t: SimpleToken| t@),
            kind: self.token.token_type,
            text: self.token_text@,
        }
    }
}

/// Relies on `String::push`: appends the given character to the end of the
/// string.
#[verifier::external_body]
fn push_char(s: &mut String, ch: char)
    ensures
        final(s)@ == old(s)@.push(ch),
{
    s.push(ch);
}

impl Default for SimpleLexer {
    /// A fresh lexer: nothing emitted, nothing buffered.
    fn default() -> (r: Self)
        ensures
            r@.emitted == Seq::<TokenModel>::empty(),
            r@.text == Seq::<char>::empty(),
    {
        SimpleLexer {
            token_text: String::new(),
            tokens: Vec::new(),
            token: SimpleToken::default(),
            dfastate: DfaState::default(),
        }
    }
}

impl SimpleLexer {
    /// A lexer whose emitted tokens, pending buffer and pending kind are
    /// given outright.
    pub fn new(
        token_text: String,
        tokens: Vec<SimpleToken>,
        token: SimpleToken,
        dfastate: DfaState,
    ) -> (r: Self)
        ensures
            r@ == (LexerModel {
                emitted: tokens@.map_values(|t: SimpleToken| t@),
                kind: token@.token_type,
                text: token_text@,
            }),
    {
        SimpleLexer { token_text, tokens, token, dfastate }
    }

    /// The machine state a scan of this lexer starts from: the dispatch
    /// state over whatever the lexer already buffers.
    pub open spec fn start_state(self) -> LexState {
        LexState { state: DfaState::Initial, kind: self@.kind, text: self@.text }
    }

    fn is_alpha(&self, ch: char) -> (r: bool)
        ensures
            r == is_alpha_char(ch),
    {
        ch >= 'a' && ch <= 'z' || ch >= 'A' && ch <= 'Z'
    }

    fn is_digit(&self, ch: char) -> (r: bool)
        ensures
            r == is_digit_char(ch),
    {
        ch >= '0' && ch <= '9'
    }

    fn is_blank(&self, ch: char) -> (r: bool)
        ensures
            r == is_blank_char(ch),
    {
        ch == ' ' || ch == '\t' || ch == '\n'
    }

    /// Ends the pending token, if any, and classifies `ch` as the first
    /// character of the next one: the `Initial` dispatch of the automaton.
    fn init_token(&mut self, ch: char) -> (next: DfaState)
        ensures
            ({
                let (started, emitted) = dispatch(old(self)@.kind, old(self)@.text, ch);
                &&& next == started.state
                &&& final(self)@.kind == started.kind
                &&& final(self)@.text == started.text
                &&& final(self)@.emitted == old(self)@.emitted + emitted
            }),
    {
        let ghost pre = self@;
        if !self.token_text.as_str().is_empty() {
            let mut text = String::new();
            core::mem::swap(&mut self.token_text, &mut text);
            let done = SimpleToken { token_type: self.token.token_type, text };
            self.tokens.push(done);
            proof {
                assert(self@.emitted =~= pre.emitted + crate::dfa::flush(pre.kind, pre.text));
            }
        } else {
            proof {
                assert(self@.emitted =~= pre.emitted + crate::dfa::flush(pre.kind, pre.text));
            }
        }
        let new_state: DfaState;
        if self.is_alpha(ch) {
            if ch == 'i' {
                new_state = DfaState::Id_int1;
            } else {
                new_state = DfaState::Id;
            }
            self.token.token_type = TokenType::Identifier;
            push_char(&mut self.token_text, ch);
        } else if self.is_digit(ch) {
            new_state = DfaState::IntLiteral;
            self.token.token_type = TokenType::IntLiteral;
            push_char(&mut self.token_text, ch);
        } else {
            match ch {
                '>' => {
                    new_state = DfaState::GT;
                    self.token.token_type = TokenType::GT;
                    push_char(&mut self.token_text, ch);
                },
                '+' => {
                    new_state = DfaState::Plus;
                    self.token.token_type = TokenType::Plus;
                    push_char(&mut self.token_text, ch);
                },
                '-' => {
                    new_state = DfaState::Minus;
                    self.token.token_type = TokenType::Minus;
                    push_char(&mut self.token_text, ch);
                },
                '*' => {
                    new_state = DfaState::Star;
                    self.token.token_type = TokenType::Star;
                    push_char(&mut self.token_text, ch);
                },
                '/' => {
                    new_state = DfaState::Slash;
                    self.token.token_type = TokenType::Slash;
                    push_char(&mut self.token_text, ch);
                },
                ';' => {
                    new_state = DfaState::SemiColon;
                    self.token.token_type = TokenType::SemiColon;
                    push_char(&mut self.token_text, ch);
                },
                '(' => {
                    new_state = DfaState::LeftParen;
                    self.token.token_type = TokenType::LeftParen;
                    push_char(&mut self.token_text, ch);
                },
                ')' => {
                    new_state = DfaState::RightParen;
                    self.token.token_type = TokenType::RightParen;
                    push_char(&mut self.token_text, ch);
                },
                '=' => {
                    new_state = DfaState::Assignment;
                    self.token.token_type = TokenType::Assignment;
                    push_char(&mut self.token_text, ch);
                },
                _ => {
                    new_state = DfaState::Initial;
                },
            }
        }
        new_state
    }

    /// Walks the automaton over the whole of `code` and hands the finished
    /// token sequence to a reader with its cursor at the start.
    ///
    /// Whatever the lexer already carries comes first: tokens emitted before
    /// the call stay in front, and a pending buffer takes part in the scan.
    /// On a fresh lexer the result is exactly `lex(code@)` — in particular
    /// the final in-progress token is flushed when the input ends, so text
    /// like a trailing `;` or a bare digit run is not dropped. A pending
    /// `int` is flushed as a plain identifier: the keyword is recognized
    /// only when a blank follows it.
    pub fn tokenizer(self, code: String) -> (r: SimpleTokenReader)
        ensures
            r.pos == 0,
            r.model() == self@.emitted + lex_from(self.start_state(), code@),
            self@.emitted.len() == 0 && self@.text.len() == 0 ==> r.model() == lex(code@),
    {
        let mut this = self;
        let ghost init = this@;
        let ghost input = code@;
        let ghost total = init.emitted + lex_from(this.start_state(), input);
        let mut state = DfaState::Initial;
        let n = code.as_str().unicode_len();
        let mut i: usize = 0;
        proof {
            assert(input.skip(0) =~= input);
        }
        while i < n
            invariant
                n == input.len(),
                i <= n,
                code@ == input,
                this@.emitted + lex_from(
                    LexState { state, kind: this@.kind, text: this@.text },
                    input.skip(i as int),
                ) == total,
            decreases n - i,
        {
            let ch = code.as_str().get_char(i);
            proof {
                assert(input.skip(i as int)[0] == input[i as int]);
                assert(input.skip(i as int).drop_first() =~= input.skip(i as int + 1));
            }
            match state {
                DfaState::Initial => {
                    state = this.init_token(ch);
                },
                DfaState::Id => {
                    if this.is_alpha(ch) || this.is_digit(ch) {
                        push_char(&mut this.token_text, ch);
                    } else {
                        state = this.init_token(ch);
                    }
                },
                DfaState::GT => {
                    if ch == '=' {
                        this.token.token_type = TokenType::GE;
                        state = DfaState::GE;
                        push_char(&mut this.token_text, ch);
                    } else {
                        state = this.init_token(ch);
                    }
                },
                DfaState::GE => {
                    state = this.init_token(ch);
                },
                DfaState::Assignment => {
                    if this.is_blank(ch) {
                        state = this.init_token(ch);
                    } else {
                        this.token.token_type = TokenType::Assignment;
                        state = DfaState::Assignment;
                        push_char(&mut this.token_text, ch);
                    }
                },
                DfaState::Plus => {
                    state = this.init_token(ch);
                },
                DfaState::Minus => {
                    state = this.init_token(ch);
                },
                DfaState::Star => {
                    state = this.init_token(ch);
                },
                DfaState::Slash => {
                    state = this.init_token(ch);
                },
                DfaState::SemiColon => {
                    state = this.init_token(ch);
                },
                DfaState::LeftParen => {
                    state = this.init_token(ch);
                },
                DfaState::RightParen => {
                    state = this.init_token(ch);
                },
                DfaState::IntLiteral => {
                    if this.is_digit(ch) {
                        push_char(&mut this.token_text, ch);
                    } else {
                        state = this.init_token(ch);
                    }
                },
                DfaState::Id_int1 => {
                    if ch == 'n' {
                        state = DfaState::Id_int2;
                        push_char(&mut this.token_text, ch);
                    } else if this.is_digit(ch) || this.is_alpha(ch) {
                        state = DfaState::Id;
                        push_char(&mut this.token_text, ch);
                    } else {
                        state = this.init_token(ch);
                    }
                },
                DfaState::Id_int2 => {
                    if ch == 't' {
                        state = DfaState::Id_int3;
                        push_char(&mut this.token_text, ch);
                    } else if this.is_digit(ch) || this.is_alpha(ch) {
                        state = DfaState::Id;
                        push_char(&mut this.token_text, ch);
                    } else {
                        state = this.init_token(ch);
                    }
                },
                DfaState::Id_int3 => {
                    if this.is_blank(ch) {
                        this.token.token_type = TokenType::Int;
                        state = this.init_token(ch);
                    } else if this.is_digit(ch) || this.is_alpha(ch) {
                        state = DfaState::Id;
                        push_char(&mut this.token_text, ch);
                    } else {
                        state = this.init_token(ch);
                    }
                },
                _ => {},
            }
            i = i + 1;
        }
        proof {
            assert(input.skip(n as int).len() == 0);
        }
        if !this.token_text.as_str().is_empty() {
            let ghost pre = this@;
            let mut text = String::new();
            core::mem::swap(&mut this.token_text, &mut text);
            let done = SimpleToken { token_type: this.token.token_type, text };
            this.tokens.push(done);
            proof {
                assert(this@.emitted =~= pre.emitted + crate::dfa::flush(pre.kind, pre.text));
            }
        }
        proof {
            assert(this@.emitted == total);
            if init.emitted.len() == 0 && init.text.len() == 0 {
                assert(init.emitted =~= Seq::<TokenModel>::empty());
                assert(init.text =~= Seq::<char>::empty());
                lemma_lex_from_fresh(init.kind, input);
                assert(Seq::<TokenModel>::empty() + lex(input) =~= lex(input));
            }
        }
        SimpleTokenReader { tokens: this.tokens, pos: 0 }
    }
}

} // verus!
