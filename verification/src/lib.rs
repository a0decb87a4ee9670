//! A tokenizer for a minimal imperative language (integer declarations,
//! assignment, arithmetic expressions), built as a hand-written deterministic
//! finite automaton, together with a cursor-based reader over the token
//! sequence that supports the access pattern of a backtracking parser.
//!
//! The DFA itself is stated once, as a pure step function over a ghost
//! machine state (`dfa`), and the executable lexer (`simple_lexer`) is proved
//! to emit exactly the token sequence that the model assigns to its input.

pub mod dfa;
pub mod simple_lexer;
pub mod token;
pub mod token_reader;
pub mod token_type;
