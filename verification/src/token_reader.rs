//! A cursor-based reader over a finished token sequence, with the sequential
//! read, non-consuming peek, single-step unread and absolute seek that a
//! backtracking parser needs.

use vstd::prelude::*;
use crate::token::{SimpleToken, TokenModel};

verus! {

/// The token the cursor stands on, if any: what `read` returns and `peek`
/// shows at position `pos`.
pub open spec fn read_result(tokens: Seq<TokenModel>, pos: int) -> Option<TokenModel> {
    if 0 <= pos < tokens.len() {
        Some(tokens[pos])
    } else {
        None
    }
}

/// Where the cursor stands after a `read`: one step forward on success,
/// unchanged at the end.
pub open spec fn read_next_pos(len: int, pos: int) -> int {
    if 0 <= pos < len {
        pos + 1
    } else {
        pos
    }
}

/// Where the cursor stands after an `unread`: one step back, except that at
/// the start it stays put.
pub open spec fn unread_pos(pos: int) -> int {
    if pos > 0 {
        pos - 1
    } else {
        pos
    }
}

/// Where the cursor stands after `set_position(p)`: at `p` only if `p` is a
/// valid index, strictly less than the length; otherwise unchanged. Seeking
/// to exactly the length — the at-end position — is impossible this way.
pub open spec fn seek_pos(len: int, pos: int, p: int) -> int {
    if p < len {
        p
    } else {
        pos
    }
}

/// A movable cursor over an ordered token sequence. The sequence is fixed at
/// construction; only the cursor mutates. A cursor in `[0, len]` stays in
/// that range under every operation.
pub struct SimpleTokenReader {
    pub tokens: Vec<SimpleToken>,
    pub pos: usize,
}

impl SimpleTokenReader {
    /// The token sequence, as mathematical values.
    pub open spec fn model(self) -> Seq<TokenModel> {
        self.tokens@.map_values(|t: SimpleToken| t@)
    }

    /// The cursor never stands past the end of the sequence.
    pub open spec fn wf(self) -> bool {
        self.pos <= self.tokens@.len()
    }

    /// Returns the token at the cursor and advances the cursor by one, or
    /// returns nothing and leaves the cursor alone if it stands at the end.
    /// `read` is the only operation that moves the cursor forward.
    pub fn read(&mut self) -> (r: Option<&SimpleToken>)
        ensures
            final(self).tokens == old(self).tokens,
            final(self).pos as int == read_next_pos(old(self).tokens@.len() as int, old(self).pos as int),
            match r {
                Some(t) => {
                    &&& old(self).pos < old(self).tokens@.len()
                    &&& *t == old(self).tokens@[old(self).pos as int]
                    &&& read_result(old(self).model(), old(self).pos as int) == Some(t@)
                },
                None => {
                    &&& old(self).pos >= old(self).tokens@.len()
                    &&& read_result(old(self).model(), old(self).pos as int) is None
                },
            },
            old(self).wf() ==> final(self).wf(),
    {
        if self.pos < self.tokens.len() {
            let pos = self.pos;
            self.pos = self.pos + 1;
            return Some(&self.tokens[pos]);
        }
        None
    }

    /// Shows the token at the cursor without moving it. The receiver is
    /// shared, so peeking changes nothing, and any two peeks with no
    /// mutation between them return the same result.
    pub fn peek(&self) -> (r: Option<&SimpleToken>)
        ensures
            match r {
                Some(t) => {
                    &&& self.pos < self.tokens@.len()
                    &&& *t == self.tokens@[self.pos as int]
                    &&& read_result(self.model(), self.pos as int) == Some(t@)
                },
                None => {
                    &&& self.pos >= self.tokens@.len()
                    &&& read_result(self.model(), self.pos as int) is None
                },
            },
    {
        if self.pos < self.tokens.len() {
            return Some(&self.tokens[self.pos]);
        }
        None
    }

    /// Moves the cursor back by one; at the start it stays put.
    pub fn unread(&mut self)
        ensures
            final(self).tokens == old(self).tokens,
            final(self).pos as int == unread_pos(old(self).pos as int),
            old(self).wf() ==> final(self).wf(),
    {
        if self.pos > 0 {
            self.pos = self.pos - 1;
        }
    }

    /// The cursor's current value.
    pub fn get_position(&self) -> (r: usize)
        ensures
            r == self.pos,
    {
        self.pos
    }

    /// An absolute seek: the cursor moves to `p` only if `p` is a valid
    /// index; for `p` at or past the length it is left unchanged.
    pub fn set_position(&mut self, pos: usize)
        ensures
            final(self).tokens == old(self).tokens,
            final(self).pos as int == seek_pos(old(self).tokens@.len() as int, old(self).pos as int, pos as int),
            old(self).wf() ==> final(self).wf(),
    {
        if pos < self.tokens.len() {
            self.pos = pos;
        }
    }
}

/// After any successful `read`, an immediate `unread` restores the cursor to
/// its pre-read value, and the next `read` returns the same token again.
pub proof fn lemma_read_unread_read(tokens: Seq<TokenModel>, pos: int)
    requires
        0 <= pos < tokens.len(),
    ensures
        read_result(tokens, pos) is Some,
        unread_pos(read_next_pos(tokens.len() as int, pos)) == pos,
        read_result(tokens, unread_pos(read_next_pos(tokens.len() as int, pos))) == read_result(
            tokens,
            pos,
        ),
{
}

/// Seeking to any position at or past the length leaves the cursor exactly
/// where it was — the seek does not clamp to the end.
pub proof fn lemma_seek_past_end_is_noop(len: int, pos: int, p: int)
    requires
        p >= len,
    ensures
        seek_pos(len, pos, p) == pos,
{
}

} // verus!
