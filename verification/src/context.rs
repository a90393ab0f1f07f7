//! The part of the parsed edit buffer that completion reads.

use std::sync::Arc;
use vstd::prelude::*;

verus! {

/// The word under the cursor, as the line parser located it.
///
/// Offsets and lengths count bytes of the edit buffer.
#[derive(Debug)]
pub struct InputContext {
    /// Byte offset of the current word in the edit buffer.
    pub current_word_offset: usize,
    /// Byte length of the current word.
    pub current_word_len: usize,
    /// Text of the current word, if the cursor is on one.
    pub word: Option<Arc<String>>,
}

impl InputContext {
    /// The text of the current word as a sequence of characters.
    pub open spec fn word_text(&self) -> Option<Seq<char>> {
        match self.word {
            Some(w) => Some(w@),
            None => None,
        }
    }

    /// The query that completion matches against: the current word, or the
    /// empty text where there is none.
    pub open spec fn query_text(&self) -> Seq<char> {
        match self.word {
            Some(w) => w@,
            None => Seq::empty(),
        }
    }

    /// The context of a cursor on `word`, which takes `current_word_len`
    /// bytes of the edit buffer from byte offset `current_word_offset` on.
    pub fn new(word: Option<Arc<String>>, current_word_offset: usize, current_word_len: usize) -> (ctx:
        InputContext)
        ensures
            ctx.word == word,
            ctx.current_word_offset == current_word_offset,
            ctx.current_word_len == current_word_len,
    {
        InputContext { current_word_offset, current_word_len, word }
    }

    /// The current word; the same shared text, not a copy.
    pub fn current_word(&self) -> (word: Option<Arc<String>>)
        ensures
            word == self.word,
    {
        match &self.word {
            Some(w) => Some(w.clone()),
            None => None,
        }
    }
}

} // verus!
