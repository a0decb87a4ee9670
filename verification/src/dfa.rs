//! The deterministic finite automaton that classifies source text, stated as
//! a pure function.
//!
//! The whole engine is one step function from `(machine state, character)` to
//! `(machine state, emitted tokens)`, where the machine state couples the
//! dispatch state with the pending buffered text and its pending kind.
//! `lex` folds that step over an input and is the single statement of what
//! tokenizing means; the executable lexer is proved against it.

use vstd::prelude::*;
use crate::token::TokenModel;
use crate::token_type::TokenType;

verus! {

/// The dispatch states of the automaton.
///
/// `Initial` classifies a fresh character. The `Id_int*` chain speculatively
/// matches the keyword `int` character by character, falling back to the
/// generic `Id` state on any deviation. The `If`/`Else` chains are reserved:
/// the enumeration names them, but no transition reaches them.
#[allow(non_camel_case_types)]
#[derive(Clone, Copy, Debug, PartialEq, Eq, Structural)]
pub enum DfaState {
    Initial,
    If,
    Id_if1,
    Id_if2,
    Else,
    Id_else1,
    Id_else2,
    Id_else3,
    Id_else4,
    Int,
    Id_int1,
    Id_int2,
    Id_int3,
    Id,
    GT,
    GE,
    Assignment,
    Plus,
    Minus,
    Star,
    Slash,
    SemiColon,
    LeftParen,
    RightParen,
    IntLiteral,
}

impl Default for DfaState {
    /// The automaton starts at the dispatch state.
    fn default() -> (r: Self)
        ensures
            r == DfaState::Initial,
    {
        DfaState::Initial
    }
}

/// The full machine state of a scan in flight: the dispatch state, the kind
/// the pending buffered text would be emitted with, and that text itself.
pub ghost struct LexState {
    pub state: DfaState,
    pub kind: TokenType,
    pub text: Seq<char>,
}

/// An ASCII letter. The only letters the lexer recognizes.
pub open spec fn is_alpha_char(ch: char) -> bool {
    ('a' <= ch && ch <= 'z') || ('A' <= ch && ch <= 'Z')
}

/// An ASCII digit.
pub open spec fn is_digit_char(ch: char) -> bool {
    '0' <= ch && ch <= '9'
}

/// A whitespace separator: space, tab or newline. Never part of a token.
pub open spec fn is_blank_char(ch: char) -> bool {
    ch == ' ' || ch == '\t' || ch == '\n'
}

/// The tokens the pending buffer yields when the machine decides it is
/// complete: one token carrying the pending kind and text, or none at all if
/// nothing is buffered.
pub open spec fn flush(kind: TokenType, text: Seq<char>) -> Seq<TokenModel> {
    if text.len() > 0 {
        seq![TokenModel { token_type: kind, text }]
    } else {
        Seq::empty()
    }
}

/// Classification of a fresh character, as the `Initial` state performs it:
/// the pending buffer (if any) is emitted, and the character either starts a
/// new token — picking the state and kind its class dictates — or, if it is
/// outside the recognized vocabulary, is silently skipped, leaving the
/// machine at `Initial` with an empty buffer.
pub open spec fn dispatch(kind: TokenType, text: Seq<char>, ch: char) -> (LexState, Seq<
    TokenModel,
>) {
    let emitted = flush(kind, text);
    let started = if is_alpha_char(ch) {
        if ch == 'i' {
            LexState { state: DfaState::Id_int1, kind: TokenType::Identifier, text: seq![ch] }
        } else {
            LexState { state: DfaState::Id, kind: TokenType::Identifier, text: seq![ch] }
        }
    } else if is_digit_char(ch) {
        LexState { state: DfaState::IntLiteral, kind: TokenType::IntLiteral, text: seq![ch] }
    } else if ch == '>' {
        LexState { state: DfaState::GT, kind: TokenType::GT, text: seq![ch] }
    } else if ch == '+' {
        LexState { state: DfaState::Plus, kind: TokenType::Plus, text: seq![ch] }
    } else if ch == '-' {
        LexState { state: DfaState::Minus, kind: TokenType::Minus, text: seq![ch] }
    } else if ch == '*' {
        LexState { state: DfaState::Star, kind: TokenType::Star, text: seq![ch] }
    } else if ch == '/' {
        LexState { state: DfaState::Slash, kind: TokenType::Slash, text: seq![ch] }
    } else if ch == ';' {
        LexState { state: DfaState::SemiColon, kind: TokenType::SemiColon, text: seq![ch] }
    } else if ch == '(' {
        LexState { state: DfaState::LeftParen, kind: TokenType::LeftParen, text: seq![ch] }
    } else if ch == ')' {
        LexState { state: DfaState::RightParen, kind: TokenType::RightParen, text: seq![ch] }
    } else if ch == '=' {
        LexState { state: DfaState::Assignment, kind: TokenType::Assignment, text: seq![ch] }
    } else {
        LexState { state: DfaState::Initial, kind, text: Seq::empty() }
    };
    (started, emitted)
}

/// One step of the automaton: consume one character, yielding the next
/// machine state and the tokens emitted at this step (always zero or one).
///
/// A character that does not belong to the current token's continuation set
/// ends the token and is re-dispatched through `dispatch`, so it is never
/// consumed twice and never dropped — except at `Initial`, where a character
/// outside the vocabulary is skipped. The keyword chain retags the buffer as
/// `Int` only when the character after `int` is blank; on a letter or digit
/// it extends a plain identifier, and on anything else the buffered `int` is
/// still emitted as a plain identifier. The `Assignment` state is greedy: it
/// keeps consuming non-blank characters, an anomaly kept from the automaton's
/// design, where every other operator ends after its fixed characters.
pub open spec fn step(m: LexState, ch: char) -> (LexState, Seq<TokenModel>) {
    match m.state {
        DfaState::Initial => dispatch(m.kind, m.text, ch),
        DfaState::Id => if is_alpha_char(ch) || is_digit_char(ch) {
            (LexState { state: DfaState::Id, kind: m.kind, text: m.text.push(ch) }, Seq::empty())
        } else {
            dispatch(m.kind, m.text, ch)
        },
        DfaState::GT => if ch == '=' {
            (
                LexState { state: DfaState::GE, kind: TokenType::GE, text: m.text.push(ch) },
                Seq::empty(),
            )
        } else {
            dispatch(m.kind, m.text, ch)
        },
        DfaState::GE => dispatch(m.kind, m.text, ch),
        DfaState::Assignment => if is_blank_char(ch) {
            dispatch(m.kind, m.text, ch)
        } else {
            (
                LexState {
                    state: DfaState::Assignment,
                    kind: TokenType::Assignment,
                    text: m.text.push(ch),
                },
                Seq::empty(),
            )
        },
        DfaState::Plus => dispatch(m.kind, m.text, ch),
        DfaState::Minus => dispatch(m.kind, m.text, ch),
        DfaState::Star => dispatch(m.kind, m.text, ch),
        DfaState::Slash => dispatch(m.kind, m.text, ch),
        DfaState::SemiColon => dispatch(m.kind, m.text, ch),
        DfaState::LeftParen => dispatch(m.kind, m.text, ch),
        DfaState::RightParen => dispatch(m.kind, m.text, ch),
        DfaState::IntLiteral => if is_digit_char(ch) {
            (
                LexState { state: DfaState::IntLiteral, kind: m.kind, text: m.text.push(ch) },
                Seq::empty(),
            )
        } else {
            dispatch(m.kind, m.text, ch)
        },
        DfaState::Id_int1 => if ch == 'n' {
            (
                LexState { state: DfaState::Id_int2, kind: m.kind, text: m.text.push(ch) },
                Seq::empty(),
            )
        } else if is_alpha_char(ch) || is_digit_char(ch) {
            (LexState { state: DfaState::Id, kind: m.kind, text: m.text.push(ch) }, Seq::empty())
        } else {
            dispatch(m.kind, m.text, ch)
        },
        DfaState::Id_int2 => if ch == 't' {
            (
                LexState { state: DfaState::Id_int3, kind: m.kind, text: m.text.push(ch) },
                Seq::empty(),
            )
        } else if is_alpha_char(ch) || is_digit_char(ch) {
            (LexState { state: DfaState::Id, kind: m.kind, text: m.text.push(ch) }, Seq::empty())
        } else {
            dispatch(m.kind, m.text, ch)
        },
        DfaState::Id_int3 => if is_blank_char(ch) {
            dispatch(TokenType::Int, m.text, ch)
        } else if is_alpha_char(ch) || is_digit_char(ch) {
            (LexState { state: DfaState::Id, kind: m.kind, text: m.text.push(ch) }, Seq::empty())
        } else {
            dispatch(m.kind, m.text, ch)
        },
        _ => (m, Seq::empty()),
    }
}

/// The token sequence the automaton emits when run from machine state `m`
/// over `input`, flushing whatever is still buffered when the input ends.
pub open spec fn lex_from(m: LexState, input: Seq<char>) -> Seq<TokenModel>
    decreases input.len(),
{
    if input.len() == 0 {
        flush(m.kind, m.text)
    } else {
        let (m2, emitted) = step(m, input[0]);
        emitted + lex_from(m2, input.drop_first())
    }
}

/// The machine state a scan starts from: the dispatch state with an empty
/// buffer. The pending kind of an empty buffer is never emitted; the default
/// kind stands in for it.
pub open spec fn initial_lex_state() -> LexState {
    LexState { state: DfaState::Initial, kind: TokenType::Identifier, text: Seq::empty() }
}

/// What tokenizing an input means: every lexical unit of `input` in
/// left-to-right order, whitespace acting only as a separator, unrecognized
/// characters silently skipped, and the final in-progress token flushed at
/// end of input.
pub open spec fn lex(input: Seq<char>) -> Seq<TokenModel> {
    lex_from(initial_lex_state(), input)
}

/// The pending kind of an empty buffer never shows: two runs from `Initial`
/// with nothing buffered emit the same tokens whatever kinds their buffers
/// nominally carry.
pub proof fn lemma_lex_from_empty_kind(k1: TokenType, k2: TokenType, input: Seq<char>)
    ensures
        lex_from(LexState { state: DfaState::Initial, kind: k1, text: Seq::empty() }, input)
            == lex_from(LexState { state: DfaState::Initial, kind: k2, text: Seq::empty() }, input),
    decreases input.len(),
{
    let m1 = LexState { state: DfaState::Initial, kind: k1, text: Seq::<char>::empty() };
    let m2 = LexState { state: DfaState::Initial, kind: k2, text: Seq::<char>::empty() };
    if input.len() > 0 {
        let ch = input[0];
        let (n1, e1) = dispatch(k1, Seq::<char>::empty(), ch);
        let (n2, e2) = dispatch(k2, Seq::<char>::empty(), ch);
        assert(e1 =~= e2);
        if n1 == n2 {
            assert(lex_from(m1, input) == lex_from(m2, input));
        } else {
            // only the silent-skip branch keeps the buffer empty and the
            // kinds apart
            assert(n1.state == DfaState::Initial && n1.text =~= Seq::<char>::empty());
            assert(n2.state == DfaState::Initial && n2.text =~= Seq::<char>::empty());
            lemma_lex_from_empty_kind(n1.kind, n2.kind, input.drop_first());
        }
    }
}

/// Running from `Initial` with an empty buffer is tokenizing from scratch,
/// whatever kind the empty buffer carries.
pub proof fn lemma_lex_from_fresh(kind: TokenType, input: Seq<char>)
    ensures
        lex_from(LexState { state: DfaState::Initial, kind, text: Seq::empty() }, input) == lex(
            input,
        ),
{
    lemma_lex_from_empty_kind(kind, TokenType::Identifier, input);
}

/// While the machine sits in the integer-literal state, a run of digits only
/// ever grows the buffer, and the flush at end of input emits the whole run
/// as one literal.
proof fn lemma_digit_run_extends(text: Seq<char>, kind: TokenType, rest: Seq<char>)
    requires
        text.len() > 0,
        forall|i: int| 0 <= i < rest.len() ==> is_digit_char(rest[i]),
    ensures
        lex_from(LexState { state: DfaState::IntLiteral, kind, text }, rest) == seq![
            TokenModel { token_type: kind, text: text + rest },
        ],
    decreases rest.len(),
{
    if rest.len() == 0 {
        assert(text + rest =~= text);
    } else {
        let ch = rest[0];
        lemma_digit_run_extends(text.push(ch), kind, rest.drop_first());
        assert(text.push(ch) + rest.drop_first() =~= text + rest);
    }
}

/// Tokenizing a pure digit run yields exactly one integer literal carrying
/// the whole run — it is never split.
pub proof fn lemma_digit_run_single_literal(input: Seq<char>)
    requires
        input.len() > 0,
        forall|i: int| 0 <= i < input.len() ==> is_digit_char(input[i]),
    ensures
        lex(input) == seq![TokenModel { token_type: TokenType::IntLiteral, text: input }],
{
    let ch = input[0];
    assert(is_digit_char(ch));
    assert(!is_alpha_char(ch));
    lemma_digit_run_extends(seq![ch], TokenType::IntLiteral, input.drop_first());
    assert(seq![ch] + input.drop_first() =~= input);
    assert(Seq::<TokenModel>::empty() + seq![
        TokenModel { token_type: TokenType::IntLiteral, text: input },
    ] =~= seq![TokenModel { token_type: TokenType::IntLiteral, text: input }]);
}

} // verus!
