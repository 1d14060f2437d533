//! The single-line query buffer: text as Unicode scalar values and a cursor
//! counted in scalar values.

use vstd::prelude::*;

verus! {

#[verifier::external_type_specification]
#[verifier::external_body]
pub struct ExStyle(ratatui::style::Style);

/// Relies on ratatui's `Style::new`: the plain style, carried for rendering only.
pub assume_specification[ ratatui::style::Style::new ]() -> ratatui::style::Style;

/// Relies on std's `FromIterator<char> for String`: the string holds the
/// collected characters in order.
#[verifier::external_body]
fn string_of(chars: &Vec<char>) -> (r: String)
    ensures
        r@ == chars@,
{
    chars.iter().collect()
}

/// The text the user typed, and where the next character goes.
pub struct Query {
    cursor_position: usize,
    style: ratatui::style::Style,
    text: Vec<char>,
}

/// The query split around its cursor: what stands before it, the character
/// under it (none at the end), and what follows that character.
pub struct CursorSplit {
    pub before: String,
    pub under: Option<char>,
    pub after: String,
}

impl Query {
    /// The text, as scalar values.
    pub closed spec fn chars(&self) -> Seq<char> {
        self.text@
    }

    /// The cursor, in scalar values from the start.
    pub closed spec fn cursor(&self) -> nat {
        self.cursor_position as nat
    }

    pub open spec fn wf(&self) -> bool {
        self.cursor() <= self.chars().len()
    }

    pub fn new(style: ratatui::style::Style) -> (r: Query)
        ensures
            r.wf(),
            r.chars() == Seq::<char>::empty(),
            r.cursor() == 0,
    {
        Query { cursor_position: 0, style, text: Vec::new() }
    }

    /// Inserts one character at the cursor and moves the cursor past it.
    pub fn push(&mut self, to_push: char)
        requires
            old(self).wf(),
        ensures
            final(self).wf(),
            final(self).chars() == old(self).chars().insert(old(self).cursor() as int, to_push),
            final(self).cursor() == old(self).cursor() + 1,
    {
        self.text.insert(self.cursor_position, to_push);
        let len = self.text.len();
        assert(self.cursor_position < len);
        self.cursor_position = self.cursor_position + 1;
    }

    /// The text as a string.
    pub fn text(&self) -> (r: String)
        ensures
            r@ == self.chars(),
    {
        string_of(&self.text)
    }

    /// The cursor position, in characters.
    pub fn cursor_position(&self) -> (r: usize)
        ensures
            r == self.cursor(),
    {
        self.cursor_position
    }

    /// Removes the character before the cursor and moves the cursor back over
    /// it. With nothing before the cursor, nothing changes and the result is
    /// `false`.
    pub fn pop(&mut self) -> (r: bool)
        requires
            old(self).wf(),
        ensures
            final(self).wf(),
            r == (old(self).cursor() > 0),
            r ==> final(self).chars() == old(self).chars().remove(old(self).cursor() - 1)
                && final(self).cursor() == old(self).cursor() - 1,
            !r ==> *final(self) == *old(self),
    {
        if self.cursor_position == 0 {
            false
        } else {
            self.cursor_position = self.cursor_position - 1;
            self.text.remove(self.cursor_position);
            true
        }
    }

    /// Inserts a whole string at the cursor in one step and moves the cursor
    /// past all of it.
    pub fn push_str(&mut self, to_paste: &str)
        requires
            old(self).wf(),
        ensures
            final(self).wf(),
            final(self).chars() == old(self).chars().take(old(self).cursor() as int) + to_paste@
                + old(self).chars().skip(old(self).cursor() as int),
            final(self).cursor() == old(self).cursor() + to_paste@.len(),
    {
        let ghost pre = self.text@;
        let ghost at = self.cursor_position as int;
        let mut joined: Vec<char> = Vec::new();
        let mut i: usize = 0;
        while i < self.cursor_position
            invariant
                self.text@ == pre,
                at == self.cursor_position,
                at <= pre.len(),
                i <= at,
                joined@ == pre.take(i as int),
            decreases at - i,
        {
            joined.push(self.text[i]);
            i = i + 1;
            assert(joined@ =~= pre.take(i as int));
        }
        for c in it: to_paste.chars()
            invariant
                it.seq() == to_paste@,
                joined@ == pre.take(at) + to_paste@.take(it.index() as int),
        {
            joined.push(c);
            assert(joined@ =~= pre.take(at) + to_paste@.take(it.index() + 1));
        }
        assert(to_paste@.take(to_paste@.len() as int) =~= to_paste@);
        let new_cursor = joined.len();
        let mut j: usize = self.cursor_position;
        while j < self.text.len()
            invariant
                self.text@ == pre,
                at == self.cursor_position,
                at <= j <= pre.len(),
                new_cursor == at + to_paste@.len(),
                joined@ == pre.take(at) + to_paste@ + pre.subrange(at, j as int),
            decreases pre.len() - j,
        {
            joined.push(self.text[j]);
            j = j + 1;
            assert(joined@ =~= pre.take(at) + to_paste@ + pre.subrange(at, j as int));
        }
        assert(pre.subrange(at, pre.len() as int) =~= pre.skip(at));
        self.text = joined;
        self.cursor_position = new_cursor;
    }

    /// Moves the cursor `how_much` characters left, stopping at the start.
    pub fn move_left(&mut self, how_much: usize)
        requires
            old(self).wf(),
        ensures
            final(self).wf(),
            final(self).chars() == old(self).chars(),
            final(self).cursor() == if how_much > old(self).cursor() {
                0
            } else {
                old(self).cursor() - how_much
            },
    {
        if how_much > self.cursor_position {
            self.cursor_position = 0;
        } else {
            self.cursor_position = self.cursor_position - how_much;
        }
    }

    /// Moves the cursor `how_much` characters right, stopping at the end.
    pub fn move_right(&mut self, how_much: usize)
        requires
            old(self).wf(),
        ensures
            final(self).wf(),
            final(self).chars() == old(self).chars(),
            final(self).cursor() == if old(self).cursor() + how_much > old(self).chars().len() {
                old(self).chars().len() as int
            } else {
                old(self).cursor() + how_much
            },
    {
        if how_much > self.text.len() - self.cursor_position {
            self.cursor_position = self.text.len();
        } else {
            self.cursor_position = self.cursor_position + how_much;
        }
    }

    /// The style the query is drawn with.
    pub fn style(&self) -> &ratatui::style::Style {
        &self.style
    }

    /// Splits the text around the cursor, for drawing the cursor in place.
    pub fn cursor_split(&self) -> (r: CursorSplit)
        requires
            self.wf(),
        ensures
            r.before@ == self.chars().take(self.cursor() as int),
            self.cursor() < self.chars().len() ==> r.under == Some(self.chars()[self.cursor() as int])
                && r.after@ == self.chars().skip(self.cursor() + 1 as int),
            self.cursor() == self.chars().len() ==> r.under is None && r.after@.len() == 0,
    {
        let mut head: Vec<char> = Vec::new();
        let mut i: usize = 0;
        while i < self.cursor_position
            invariant
                self.wf(),
                i <= self.cursor_position,
                head@ == self.text@.take(i as int),
            decreases self.cursor_position - i,
        {
            head.push(self.text[i]);
            i = i + 1;
            assert(head@ =~= self.text@.take(i as int));
        }
        let mut tail: Vec<char> = Vec::new();
        let under = if self.cursor_position < self.text.len() {
            let mut j: usize = self.cursor_position + 1;
            while j < self.text.len()
                invariant
                    self.wf(),
                    self.cursor_position < j <= self.text@.len(),
                    tail@ == self.text@.subrange(self.cursor_position + 1, j as int),
                decreases self.text@.len() - j,
            {
                tail.push(self.text[j]);
                j = j + 1;
                assert(tail@ =~= self.text@.subrange(self.cursor_position + 1, j as int));
            }
            assert(tail@ =~= self.text@.skip(self.cursor_position + 1));
            Some(self.text[self.cursor_position])
        } else {
            None
        };
        CursorSplit { before: string_of(&head), under, after: string_of(&tail) }
    }
}

impl Default for Query {
    fn default() -> (r: Query)
        ensures
            r.wf(),
            r.chars() == Seq::<char>::empty(),
            r.cursor() == 0,
    {
        Query::new(ratatui::style::Style::new())
    }
}

} // verus!
