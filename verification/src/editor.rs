//! The inline text editor: a single-line buffer with a cursor and a
//! contiguous selection, supporting character editing, word-aware cursor
//! movement, selection growth and shrinkage, and clipboard exchange through
//! plain values.
//!
//! The selection is modelled by an anchor: when one is set, the selected
//! offsets are exactly those between the anchor and the cursor, the ground
//! passed over since selecting began.  Every operation is total: requests
//! past either end of the buffer clamp instead of failing.

use vstd::prelude::*;
use crate::text::{blank, chars_to_string, is_blank, str_to_chars};

verus! {

/// A single-line editable buffer: its characters, the cursor offset in
/// `0..=len`, and the selection anchor.
pub struct TextBuffer {
    pub chars: Vec<char>,
    pub cursor: usize,
    pub anchor: Option<usize>,
}

impl TextBuffer {
    /// Cursor and anchor stay inside the buffer.  An anchor resting on the
    /// cursor denotes an empty selection.
    pub open spec fn wf(self) -> bool {
        &&& self.cursor <= self.chars@.len()
        &&& match self.anchor {
            Some(a) => a <= self.chars@.len(),
            None => true,
        }
    }

    /// The inclusive lower end of the selection.
    pub open spec fn sel_lo(self) -> int {
        match self.anchor {
            Some(a) => if a < self.cursor {
                a as int
            } else {
                self.cursor as int
            },
            None => self.cursor as int,
        }
    }

    /// The exclusive upper end of the selection.
    pub open spec fn sel_hi(self) -> int {
        match self.anchor {
            Some(a) => if a < self.cursor {
                self.cursor as int
            } else {
                a as int
            },
            None => self.cursor as int,
        }
    }

    /// Whether any ground is selected: an anchor is set and stands apart
    /// from the cursor.
    pub open spec fn has_selection(self) -> bool {
        match self.anchor {
            Some(a) => a != self.cursor,
            None => false,
        }
    }

    /// An empty buffer with the cursor at the start.
    pub fn new() -> (r: TextBuffer)
        ensures
            r.wf(),
            r.chars@.len() == 0,
            r.cursor == 0,
            !r.has_selection(),
    {
        TextBuffer { chars: Vec::new(), cursor: 0, anchor: None }
    }

    /// A buffer seeded with the given text, the cursor at its end.
    pub fn from_text(text: &str) -> (r: TextBuffer)
        ensures
            r.wf(),
            r.chars@ == text@,
            r.cursor == text@.len(),
            !r.has_selection(),
    {
        let chars = str_to_chars(text);
        let cursor = chars.len();
        TextBuffer { chars, cursor, anchor: None }
    }

    /// The buffer's text.
    pub fn text(&self) -> (r: String)
        ensures
            r@ == self.chars@,
    {
        chars_to_string(&self.chars)
    }

    /// The cursor offset.
    pub fn cursor_idx(&self) -> (r: usize)
        ensures
            r == self.cursor,
    {
        self.cursor
    }

    /// The selected offsets as an inclusive pair `(first, last)`, or none
    /// when nothing is selected.
    pub fn selection_bounds(&self) -> (r: Option<(usize, usize)>)
        requires
            self.wf(),
        ensures
            self.has_selection() ==> (r matches Some(pair) && pair.0 == self.sel_lo()
                && pair.1 + 1 == self.sel_hi()),
            !self.has_selection() ==> r is None,
    {
        match self.anchor {
            Some(a) => {
                if a < self.cursor {
                    Some((a, self.cursor - 1))
                } else if a > self.cursor {
                    Some((self.cursor, a - 1))
                } else {
                    None
                }
            },
            None => None,
        }
    }

    /// Inserts one typed character: an active selection is replaced by the
    /// character, otherwise it lands at the cursor; the cursor ends just
    /// after it and the selection is cleared.
    pub fn insert_char(&mut self, ch: char)
        requires
            old(self).wf(),
            old(self).chars@.len() < usize::MAX,
        ensures
            final(self).wf(),
            final(self).chars@ == old(self).chars@.subrange(0, old(self).sel_lo()).push(ch)
                + old(self).chars@.subrange(
                old(self).sel_hi(),
                old(self).chars@.len() as int,
            ),
            final(self).cursor == old(self).sel_lo() + 1,
            !final(self).has_selection(),
    {
        let (lo, hi): (usize, usize) = match self.anchor {
            Some(a) => if a < self.cursor {
                (a, self.cursor)
            } else {
                (self.cursor, a)
            },
            None => (self.cursor, self.cursor),
        };
        let ghost before = self.chars@;
        let mut j: usize = hi;
        while j > lo
            invariant
                lo <= j <= hi <= before.len(),
                self.chars@ == before.subrange(0, j as int) + before.subrange(
                    hi as int,
                    before.len() as int,
                ),
            decreases j,
        {
            let ghost cur = self.chars@;
            self.chars.remove(j - 1);
            proof {
                assert(cur.remove(j - 1) =~= before.subrange(0, j - 1) + before.subrange(
                    hi as int,
                    before.len() as int,
                ));
            }
            j -= 1;
        }
        self.chars.insert(lo, ch);
        proof {
            assert(self.chars@ =~= before.subrange(0, lo as int).push(ch) + before.subrange(
                hi as int,
                before.len() as int,
            ));
        }
        self.cursor = lo + 1;
        self.anchor = None;
    }

    /// Deletes backward: an active selection is removed whole, the cursor
    /// landing at its start; with no selection the character before the
    /// cursor goes.  At offset zero with no selection nothing happens.
    pub fn delete_characters(&mut self)
        requires
            old(self).wf(),
        ensures
            final(self).wf(),
            !final(self).has_selection(),
            old(self).has_selection() ==> final(self).chars@ == old(self).chars@.subrange(
                0,
                old(self).sel_lo(),
            ) + old(self).chars@.subrange(old(self).sel_hi(), old(self).chars@.len() as int)
                && final(self).cursor == old(self).sel_lo(),
            !old(self).has_selection() && old(self).cursor > 0 ==> final(self).chars@ == old(
                self,
            ).chars@.remove(old(self).cursor - 1) && final(self).cursor == old(self).cursor
                - 1,
            !old(self).has_selection() && old(self).cursor == 0 ==> final(self).chars@ == old(
                self,
            ).chars@ && final(self).cursor == 0,
    {
        let sel: Option<(usize, usize)> = match self.anchor {
            Some(a) => {
                if a < self.cursor {
                    Some((a, self.cursor))
                } else if a > self.cursor {
                    Some((self.cursor, a))
                } else {
                    None
                }
            },
            None => None,
        };
        match sel {
            Some((lo, hi)) => {
                let ghost before = self.chars@;
                let mut j: usize = hi;
                while j > lo
                    invariant
                        lo <= j <= hi <= before.len(),
                        self.chars@ == before.subrange(0, j as int) + before.subrange(
                            hi as int,
                            before.len() as int,
                        ),
                    decreases j,
                {
                    let ghost cur = self.chars@;
                    self.chars.remove(j - 1);
                    proof {
                        assert(cur.remove(j - 1) =~= before.subrange(0, j - 1)
                            + before.subrange(hi as int, before.len() as int));
                    }
                    j -= 1;
                }
                self.cursor = lo;
                self.anchor = None;
            },
            None => {
                if self.cursor > 0 {
                    self.chars.remove(self.cursor - 1);
                    self.cursor = self.cursor - 1;
                }
                self.anchor = None;
            },
        }
    }

    /// Moves the cursor one offset left, clamped at the start; any
    /// selection is cleared without being deleted.
    pub fn move_cursor_left(&mut self)
        requires
            old(self).wf(),
        ensures
            final(self).wf(),
            final(self).chars == old(self).chars,
            final(self).cursor == if old(self).cursor > 0 {
                old(self).cursor - 1
            } else {
                0
            },
            !final(self).has_selection(),
    {
        if self.cursor > 0 {
            self.cursor = self.cursor - 1;
        }
        self.anchor = None;
    }

    /// Moves the cursor one offset right, clamped at the end; any selection
    /// is cleared without being deleted.
    pub fn move_cursor_right(&mut self)
        requires
            old(self).wf(),
        ensures
            final(self).wf(),
            final(self).chars == old(self).chars,
            final(self).cursor == if old(self).cursor < old(self).chars@.len() {
                old(self).cursor + 1
            } else {
                old(self).cursor as int
            },
            !final(self).has_selection(),
    {
        if self.cursor < self.chars.len() {
            self.cursor = self.cursor + 1;
        }
        self.anchor = None;
    }

    /// Grows or shrinks the selection one offset leftward and moves the
    /// cursor with it; clamps at the start.
    pub fn select_left_input(&mut self)
        requires
            old(self).wf(),
        ensures
            final(self).wf(),
            final(self).chars == old(self).chars,
            old(self).cursor == 0 ==> *final(self) == *old(self),
            old(self).cursor > 0 ==> {
                &&& final(self).cursor == old(self).cursor - 1
                &&& final(self).anchor == (match old(self).anchor {
                    Some(a) => if a == old(self).cursor - 1 {
                        Option::<usize>::None
                    } else {
                        Option::<usize>::Some(a)
                    },
                    None => Option::<usize>::Some(old(self).cursor),
                })
            },
    {
        if self.cursor == 0 {
            return ;
        }
        let next = self.cursor - 1;
        match self.anchor {
            Some(a) => {
                if a == next {
                    self.anchor = None;
                }
            },
            None => {
                self.anchor = Some(self.cursor);
            },
        }
        self.cursor = next;
    }

    /// Grows or shrinks the selection one offset rightward and moves the
    /// cursor with it; clamps at the end.
    pub fn select_right_input(&mut self)
        requires
            old(self).wf(),
        ensures
            final(self).wf(),
            final(self).chars == old(self).chars,
            old(self).cursor == old(self).chars@.len() ==> *final(self) == *old(self),
            old(self).cursor < old(self).chars@.len() ==> {
                &&& final(self).cursor == old(self).cursor + 1
                &&& final(self).anchor == (match old(self).anchor {
                    Some(a) => if a == old(self).cursor + 1 {
                        Option::<usize>::None
                    } else {
                        Option::<usize>::Some(a)
                    },
                    None => Option::<usize>::Some(old(self).cursor),
                })
            },
    {
        if self.cursor >= self.chars.len() {
            return ;
        }
        let next = self.cursor + 1;
        match self.anchor {
            Some(a) => {
                if a == next {
                    self.anchor = None;
                }
            },
            None => {
                self.anchor = Some(self.cursor);
            },
        }
        self.cursor = next;
    }

    /// The selected text, spanning the selection's minimum to maximum
    /// offset, or nothing when no selection is active.
    pub fn copy_selection(&self) -> (r: Option<String>)
        requires
            self.wf(),
        ensures
            self.has_selection() ==> (r matches Some(s) && s@ == self.chars@.subrange(
                self.sel_lo(),
                self.sel_hi(),
            )),
            !self.has_selection() ==> r is None,
    {
        match self.anchor {
            Some(a) => {
                if a == self.cursor {
                    return None;
                }
                let (lo, hi): (usize, usize) = if a < self.cursor {
                    (a, self.cursor)
                } else {
                    (self.cursor, a)
                };
                let mut out: Vec<char> = Vec::new();
                let mut i: usize = lo;
                while i < hi
                    invariant
                        lo <= i <= hi <= self.chars@.len(),
                        out@ == self.chars@.subrange(lo as int, i as int),
                    decreases hi - i,
                {
                    out.push(self.chars[i]);
                    proof {
                        assert(self.chars@.subrange(lo as int, i as int).push(
                            self.chars@[i as int],
                        ) =~= self.chars@.subrange(lo as int, i + 1));
                    }
                    i += 1;
                }
                Some(chars_to_string(&out))
            },
            None => None,
        }
    }

    /// Pastes text at the cursor without replacing an active selection; the
    /// cursor advances past the inserted text and the anchor stays put.
    pub fn paste(&mut self, text: &str)
        requires
            old(self).wf(),
            old(self).chars@.len() + text@.len() <= usize::MAX,
        ensures
            final(self).wf(),
            final(self).chars@ == old(self).chars@.subrange(0, old(self).cursor as int) + text@
                + old(self).chars@.subrange(
                old(self).cursor as int,
                old(self).chars@.len() as int,
            ),
            final(self).cursor == old(self).cursor + text@.len(),
            final(self).anchor == old(self).anchor,
    {
        let incoming = str_to_chars(text);
        let ghost before = self.chars@;
        let n = incoming.len();
        let mut i: usize = 0;
        while i < n
            invariant
                i <= n,
                n == incoming@.len(),
                incoming@ == text@,
                self.cursor + i <= self.chars@.len(),
                before.len() + i == self.chars@.len(),
                self.cursor == old(self).cursor,
                self.cursor <= before.len(),
                self.anchor == old(self).anchor,
                self.chars@ == before.subrange(0, self.cursor as int) + text@.take(i as int)
                    + before.subrange(self.cursor as int, before.len() as int),
            decreases n - i,
        {
            let ghost cur = self.chars@;
            proof {
                assert(self.chars.len() == self.chars@.len());
            }
            self.chars.insert(self.cursor + i, incoming[i]);
            proof {
                assert(cur.insert(self.cursor + i, incoming@[i as int]) =~= before.subrange(
                    0,
                    self.cursor as int,
                ) + text@.take(i + 1) + before.subrange(
                    self.cursor as int,
                    before.len() as int,
                ));
            }
            i += 1;
        }
        proof {
            assert(text@.take(text@.len() as int) =~= text@);
        }
        self.cursor = self.cursor + n;
    }

    /// The offset of the nearest word start strictly left of `cursor_idx`:
    /// the rightmost position below it whose character is not a blank while
    /// the one before is, or zero when no such boundary exists.
    pub open spec fn prev_word_pos(s: Seq<char>, c: int) -> int
        decreases c,
    {
        if c <= 1 {
            0
        } else if c > s.len() {
            Self::prev_word_pos(s, s.len() as int)
        } else if !is_blank(s[c - 1]) && is_blank(s[c - 2]) {
            c - 1
        } else {
            Self::prev_word_pos(s, c - 1)
        }
    }

    /// The offset just past the next blank-to-word boundary at or right of
    /// `cursor_idx`, or the buffer's end when no such boundary follows.
    pub open spec fn next_word_pos(s: Seq<char>, c: int) -> int
        decreases s.len() - c,
    {
        if c < 0 {
            Self::next_word_pos(s, 0)
        } else if c + 1 >= s.len() {
            s.len() as int
        } else if is_blank(s[c]) && !is_blank(s[c + 1]) {
            c + 1
        } else {
            Self::next_word_pos(s, c + 1)
        }
    }

    /// Moves the cursor to the nearest word start on its left, clamping at
    /// the buffer's start; clears the selection.
    pub fn move_cursor_left_word(&mut self)
        requires
            old(self).wf(),
        ensures
            final(self).wf(),
            final(self).chars == old(self).chars,
            final(self).cursor == Self::prev_word_pos(old(self).chars@, old(self).cursor as int),
            !final(self).has_selection(),
    {
        self.anchor = None;
        let mut c = self.cursor;
        while c > 1 && !(!blank(self.chars[c - 1]) && blank(self.chars[c - 2]))
            invariant
                c <= self.chars@.len(),
                Self::prev_word_pos(self.chars@, self.cursor as int) == Self::prev_word_pos(
                    self.chars@,
                    c as int,
                ),
            decreases c,
        {
            c -= 1;
        }
        if c <= 1 {
            self.cursor = 0;
        } else {
            self.cursor = c - 1;
        }
    }

    /// Moves the cursor just past the next word boundary on its right,
    /// clamping at the buffer's end; clears the selection.
    pub fn move_cursor_right_word(&mut self)
        requires
            old(self).wf(),
        ensures
            final(self).wf(),
            final(self).chars == old(self).chars,
            final(self).cursor == Self::next_word_pos(old(self).chars@, old(self).cursor as int),
            !final(self).has_selection(),
    {
        self.anchor = None;
        let n = self.chars.len();
        let mut c = self.cursor;
        while n - c > 1 && !(blank(self.chars[c]) && !blank(self.chars[c + 1]))
            invariant
                c <= n,
                n == self.chars@.len(),
                Self::next_word_pos(self.chars@, self.cursor as int) == Self::next_word_pos(
                    self.chars@,
                    c as int,
                ),
            decreases n - c,
        {
            c += 1;
        }
        if n - c <= 1 {
            self.cursor = n;
        } else {
            self.cursor = c + 1;
        }
    }
}

} // verus!
