//! The completion selector: the candidates of one completion session, the
//! selection cursor and the window of candidates on display.

use crate::context::InputContext;
use crate::text::byte_len;
use crate::text::replace_range;
use crate::text::splice;
use std::sync::Arc;
use vstd::prelude::*;

verus! {

/// Number of candidates that the prompt shows at a time.
pub const COMPLETION_LINES: usize = 7;

/// The state of a selector.
pub struct SelectorState {
    /// The candidates; display order is navigation order.
    pub entries: Seq<Seq<char>>,
    /// Position of the selected candidate.
    pub selected_index: int,
    /// Height of the window.
    pub display_lines: int,
    /// Position of the first candidate in the window.
    pub display_index: int,
}

/// `target` brought into the positions of a list of `len` candidates; 0 for
/// the empty list.
pub open spec fn clamp_index(target: int, len: int) -> int {
    if len <= 0 || target < 0 {
        0
    } else if target > len - 1 {
        len - 1
    } else {
        target
    }
}

/// Where a window of `lines` candidates that began at `display` begins once
/// `selected` is selected. A selection behind the window becomes its last
/// line, one before the window its first.
pub open spec fn scroll(display: int, selected: int, lines: int) -> int {
    let forward = if selected >= display + lines {
        selected - lines + 1
    } else {
        display
    };
    if selected < forward {
        selected
    } else {
        forward
    }
}

impl SelectorState {
    /// The state of a new selector over `entries`.
    pub open spec fn initial(entries: Seq<Seq<char>>) -> SelectorState {
        SelectorState {
            entries,
            selected_index: 0,
            display_lines: COMPLETION_LINES as int,
            display_index: 0,
        }
    }

    /// The selection is a position of the list, or 0 where the list is
    /// empty, and lies in the window.
    pub open spec fn wf(self) -> bool {
        &&& self.display_lines >= 1
        &&& self.entries.len() > 0 ==> 0 <= self.selected_index < self.entries.len()
        &&& self.entries.len() == 0 ==> self.selected_index == 0
        &&& 0 <= self.display_index <= self.selected_index <= self.display_index
            + self.display_lines - 1
    }

    /// The state after the cursor has moved by `offset`.
    pub open spec fn move_cursor(self, offset: int) -> SelectorState {
        let selected = clamp_index(self.selected_index + offset, self.entries.len() as int);
        SelectorState {
            selected_index: selected,
            display_index: scroll(self.display_index, selected, self.display_lines),
            ..self
        }
    }

    /// The selected candidate, if there is one.
    pub open spec fn selected(self) -> Option<Seq<char>> {
        if 0 <= self.selected_index < self.entries.len() {
            Some(self.entries[self.selected_index])
        } else {
            None
        }
    }

    /// A new selector is well formed.
    pub proof fn lemma_initial_wf(entries: Seq<Seq<char>>)
        ensures
            SelectorState::initial(entries).wf(),
    {
    }

    /// After any move the selection is a position of the list, or 0 where
    /// the list is empty.
    pub proof fn lemma_move_cursor_in_range(self, offset: int)
        ensures
            self.entries.len() > 0 ==> 0 <= self.move_cursor(offset).selected_index
                < self.entries.len(),
            self.entries.len() == 0 ==> self.move_cursor(offset).selected_index == 0,
    {
    }

    /// After any move the selection lies in the window.
    pub proof fn lemma_move_cursor_in_window(self, offset: int)
        requires
            self.display_lines >= 1,
        ensures
            ({
                let moved = self.move_cursor(offset);
                moved.display_index <= moved.selected_index <= moved.display_index
                    + moved.display_lines - 1
            }),
    {
    }

    /// Moving keeps a selector well formed.
    pub proof fn lemma_move_cursor_wf(self, offset: int)
        requires
            self.wf(),
        ensures
            self.move_cursor(offset).wf(),
    {
    }

    /// Moving by 0 changes nothing.
    pub proof fn lemma_move_cursor_zero(self)
        requires
            self.wf(),
        ensures
            self.move_cursor(0) == self,
    {
    }

    /// A move back by at least the selected position selects the first
    /// candidate; a move forward by at least the distance to the last
    /// candidate selects the last.
    pub proof fn lemma_move_cursor_clamps(self, offset: int)
        requires
            self.wf(),
        ensures
            offset <= -self.selected_index ==> self.move_cursor(offset).selected_index == 0,
            self.entries.len() > 0 && offset >= self.entries.len() - 1 - self.selected_index
                ==> self.move_cursor(offset).selected_index == self.entries.len() - 1,
    {
    }

    /// A move back by 1,000,000 selects the first candidate, unless the
    /// selection lies farther down than that.
    pub proof fn lemma_move_cursor_far_back(self)
        requires
            self.selected_index <= 1_000_000,
        ensures
            self.move_cursor(-1_000_000).selected_index == 0,
    {
    }

    /// A move forward by 1,000,000 selects the last candidate, unless there
    /// is none or the last one lies farther down than that.
    pub proof fn lemma_move_cursor_far_forward(self)
        requires
            self.wf(),
            self.entries.len() > 0,
            self.entries.len() - 1 - self.selected_index <= 1_000_000,
        ensures
            self.move_cursor(1_000_000).selected_index == self.entries.len() - 1,
    {
    }
}

/// The two positions that move together.
struct Cursor {
    selected_index: usize,
    display_index: usize,
}

/// The candidates of one completion session with the selection cursor and
/// the scroll window.
pub struct CompletionSelector {
    entries: Vec<Arc<String>>,
    cursor: Cursor,
    display_lines: usize,
}

impl View for CompletionSelector {
    type V = SelectorState;

    closed spec fn view(&self) -> SelectorState {
        SelectorState {
            entries: self.entries.deep_view(),
            selected_index: self.cursor.selected_index as int,
            display_lines: self.display_lines as int,
            display_index: self.cursor.display_index as int,
        }
    }
}

impl CompletionSelector {
    #[verifier::type_invariant]
    spec fn well_formed(self) -> bool {
        self@.wf()
    }

    /// A selector over `entries`, with the first candidate selected and the
    /// window at the top.
    pub fn new(entries: Vec<Arc<String>>) -> (r: CompletionSelector)
        ensures
            r@ == SelectorState::initial(entries.deep_view()),
            r@.wf(),
    {
        CompletionSelector {
            entries,
            cursor: Cursor { selected_index: 0, display_index: 0 },
            display_lines: COMPLETION_LINES,
        }
    }

    /// Moves the selection by `offset` candidates, stopping at either end of
    /// the list, and scrolls the window so that it shows the selection.
    pub fn move_cursor(&mut self, offset: isize)
        ensures
            final(self)@ == old(self)@.move_cursor(offset as int),
            final(self)@.wf(),
            offset == 0 ==> final(self)@ == old(self)@,
    {
        proof {
            use_type_invariant(&*self);
        }
        let len = self.entries.len();
        let last = if len > 0 {
            len - 1
        } else {
            0
        };
        let selected = match self.cursor.selected_index.checked_add_signed(offset) {
            Some(target) => if target > last {
                last
            } else {
                target
            },
            None => if offset < 0 {
                0
            } else {
                last
            },
        };
        let display = if selected < self.cursor.display_index {
            selected
        } else if selected - self.cursor.display_index >= self.display_lines {
            selected - self.display_lines + 1
        } else {
            self.cursor.display_index
        };
        self.cursor = Cursor { selected_index: selected, display_index: display };
    }

    /// The candidates, shared with the selector.
    pub fn entries(&self) -> (r: Vec<Arc<String>>)
        ensures
            r.deep_view() == self@.entries,
    {
        let mut r: Vec<Arc<String>> = Vec::new();
        let mut i: usize = 0;
        while i < self.entries.len()
            invariant
                i <= self.entries.len(),
                r@ == self.entries@.take(i as int),
            decreases self.entries.len() - i,
        {
            r.push(self.entries[i].clone());
            i += 1;
        }
        r
    }

    /// Number of candidates.
    pub fn len(&self) -> (r: usize)
        ensures
            r == self@.entries.len(),
    {
        self.entries.len()
    }

    /// Position of the selected candidate.
    pub fn selected_index(&self) -> (r: usize)
        ensures
            r == self@.selected_index,
            self@.wf(),
    {
        proof {
            use_type_invariant(self);
        }
        self.cursor.selected_index
    }

    /// The candidate at `index`, or nothing where `index` is no position of
    /// the list.
    pub fn get(&self, index: usize) -> (r: Option<Arc<String>>)
        ensures
            index < self@.entries.len() ==> r.deep_view() == Some(self@.entries[index as int]),
            index >= self@.entries.len() ==> r is None,
    {
        if index < self.entries.len() {
            Some(self.entries[index].clone())
        } else {
            None
        }
    }

    /// Height of the window.
    pub fn display_lines(&self) -> (r: usize)
        ensures
            r == self@.display_lines,
            self@.wf(),
    {
        proof {
            use_type_invariant(self);
        }
        self.display_lines
    }

    /// Position of the first candidate in the window.
    pub fn display_index(&self) -> (r: usize)
        ensures
            r == self@.display_index,
            self@.wf(),
    {
        proof {
            use_type_invariant(self);
        }
        self.cursor.display_index
    }

    /// Accepts the selected candidate: replaces the current word in
    /// `user_input` by it and puts `user_cursor` behind it. Without
    /// candidates nothing changes.
    pub fn select_and_update_input_and_cursor(
        &self,
        input_ctx: &InputContext,
        user_input: &mut String,
        user_cursor: &mut usize,
    )
        requires
            self@.selected() matches Some(selected) ==> input_ctx.current_word_offset + byte_len(
                selected,
            ) <= usize::MAX,
        ensures
            self@.selected() matches Some(selected) ==> final(user_input)@ == splice(
                old(user_input)@,
                input_ctx.current_word_offset as int,
                input_ctx.current_word_len as int,
                selected,
            ) && *final(user_cursor) == input_ctx.current_word_offset + byte_len(selected),
            self@.selected() is None ==> *final(user_input) == *old(user_input),
            self@.selected() is None ==> *final(user_cursor) == *old(user_cursor),
            self@.selected() is None <==> self@.entries.len() == 0,
    {
        if let Some(selected) = self.get(self.selected_index()) {
            let text = selected.as_str();
            let updated = replace_range(
                user_input.as_str(),
                input_ctx.current_word_offset,
                input_ctx.current_word_len,
                text,
            );
            *user_input = updated;
            *user_cursor = input_ctx.current_word_offset + text.as_bytes().len();
        }
    }
}

} // verus!
