//! The search session: query edits, ticks of the matcher, the selection
//! cursor and the growing result window, and the frame a renderer draws.

use crate::highlight::{highlight_positions, is_highlight_set};
use crate::query::Query;
use crate::search_engine::{parsed_pattern, SearchEngine, TickStatus};
use vstd::prelude::*;

verus! {

/// How many ranked results a new session materializes per frame.
pub const DEFAULT_TOP: u32 = 1000;

/// How far the window grows, and how close to its end the selection may come
/// before it does.
pub const TOP_STEP: u32 = 100;

/// How long one tick lets the matcher work, in milliseconds.
pub const TICK_MS: u64 = 10;

/// The selection after one step down: the next row, or the first row where
/// none was selected. At the largest index it stays put.
pub open spec fn step_down(sel: Option<usize>) -> Option<usize> {
    match sel {
        Some(i) => Some(if i < usize::MAX { (i + 1) as usize } else { i }),
        None => Some(0),
    }
}

/// The window cap after one step down from `sel`: one step larger (up to the
/// `u32` limit) when the new row comes within a step of the cap, else as it was.
pub open spec fn grown_top(sel: Option<usize>, top: u32) -> u32 {
    match sel {
        Some(i) => if i + 1 > top - TOP_STEP {
            if top + TOP_STEP <= u32::MAX {
                (top + TOP_STEP) as u32
            } else {
                u32::MAX
            }
        } else {
            top
        },
        None => top,
    }
}

/// The selection after one step up: the previous row, staying on the first.
pub open spec fn step_up(sel: Option<usize>) -> Option<usize> {
    match sel {
        Some(i) => Some(if i > 0 { (i - 1) as usize } else { 0 }),
        None => None,
    }
}

/// The selection after the query changed: the first row if anything matched.
pub open spec fn selection_after_edit(matched: nat) -> Option<usize> {
    if matched > 0 {
        Some(0)
    } else {
        None
    }
}

/// The item a selection stands for, if it is within the ranked matches.
pub open spec fn resolve(sel: Option<usize>, matches: Seq<Seq<char>>) -> Option<Seq<char>> {
    match sel {
        Some(i) => if i < matches.len() {
            Some(matches[i as int])
        } else {
            None
        },
        None => None,
    }
}

/// The session.
pub struct App {
    /// Whether the session goes on.
    pub running: bool,
    selected: Option<usize>,
    top: u32,
    matcher: SearchEngine,
    text_area: Query,
}

/// `post` is `pre` after its query became `text` with the cursor at `cursor`:
/// the matcher was handed the whole new text as its pattern and ticked once,
/// so that its workers now match with it,
/// the selection went back to the first row (or to none, with no matches),
/// and the window kept its size.
pub open spec fn edited(pre: App, post: App, text: Seq<char>, cursor: nat) -> bool {
    &&& post.wf()
    &&& post.query().chars() == text
    &&& post.query().cursor() == cursor
    &&& post.engine().pattern() == parsed_pattern(text)
    &&& post.engine().worker_pattern() == parsed_pattern(text)
    &&& text.len() == 0 ==> post.engine().pattern().len() == 0
    &&& post.selection() == selection_after_edit(post.engine().matches().len())
    &&& post.top() == pre.top()
    &&& post.runs() == pre.runs()
    &&& post.engine().matches().len() <= post.engine().total()
}

/// `post` is `pre` with the selection one row down and the window grown as
/// that step calls for.
pub open spec fn moved_down(pre: App, post: App) -> bool {
    &&& post.selection() == step_down(pre.selection())
    &&& post.top() == grown_top(pre.selection(), pre.top())
    &&& post.runs() == pre.runs()
    &&& post.engine() == pre.engine()
    &&& post.query() == pre.query()
}

/// `post` is `pre` with the selection one row up.
pub open spec fn moved_up(pre: App, post: App) -> bool {
    &&& post.selection() == step_up(pre.selection())
    &&& post.top() == pre.top()
    &&& post.runs() == pre.runs()
    &&& post.engine() == pre.engine()
    &&& post.query() == pre.query()
}

/// `post` is `pre` ended, its selection dropped when `esc`.
pub open spec fn quitted(pre: App, post: App, esc: bool) -> bool {
    &&& !post.runs()
    &&& post.selection() == if esc {
        None
    } else {
        pre.selection()
    }
    &&& post.top() == pre.top()
    &&& post.engine() == pre.engine()
    &&& post.query() == pre.query()
}

/// `post` is `pre` after `c` was typed at the cursor.
pub open spec fn typed(pre: App, post: App, c: char) -> bool {
    edited(
        pre,
        post,
        pre.query().chars().insert(pre.query().cursor() as int, c),
        pre.query().cursor() + 1,
    )
}

/// `post` is `pre` after deleting back from the cursor: the character before
/// it went, or, at the start, nothing changed.
pub open spec fn deleted_back(pre: App, post: App) -> bool {
    &&& pre.query().cursor() > 0 ==> edited(
        pre,
        post,
        pre.query().chars().remove(pre.query().cursor() - 1),
        (pre.query().cursor() - 1) as nat,
    )
    &&& pre.query().cursor() == 0 ==> post == pre
}

/// `post` is `pre` after one tick reporting `r`: only the matcher's snapshot
/// may have moved on. The item count never drops; a settled matcher publishes
/// nothing new; once nothing runs, an empty pattern matches every item and
/// highlights nothing.
pub open spec fn ticked(pre: App, post: App, r: TickStatus) -> bool {
    &&& post.wf()
    &&& post.runs() == pre.runs()
    &&& post.selection() == pre.selection()
    &&& post.top() == pre.top()
    &&& post.query() == pre.query()
    &&& post.engine().pattern() == pre.engine().pattern()
    &&& post.engine().worker_pattern() == post.engine().pattern()
    &&& post.engine().total() >= pre.engine().total()
    &&& post.engine().settled() == !r.running
    &&& pre.engine().settled() ==> !r.changed
    &&& !r.changed ==> post.engine().matches() == pre.engine().matches()
        && post.engine().total() == pre.engine().total()
        && post.engine().positions() == pre.engine().positions()
    &&& !r.running && post.engine().pattern().len() == 0 ==> post.engine().matches().len()
        == post.engine().total() && forall|k: int|
        0 <= k < post.engine().positions().len() ==> (
        #[trigger] post.engine().positions()[k]).len() == 0
}

/// Once a tick reports that nothing runs any more, a further tick leaves the
/// snapshot exactly as it was (the same matches, in the same order, with the
/// same positions, over the same item count), whatever items arrived between
/// the two.
pub proof fn tick_after_settling_is_idempotent(
    a: App,
    b: App,
    r1: TickStatus,
    c: App,
    r2: TickStatus,
)
    requires
        ticked(a, b, r1),
        !r1.running,
        ticked(b, c, r2),
    ensures
        c.engine().matches() == b.engine().matches(),
        c.engine().total() == b.engine().total(),
        c.engine().positions() == b.engine().positions(),
{
}

/// After an edit leaves the query empty, every tick keeps that empty pattern,
/// and as soon as one reports that nothing runs, every item matches and every
/// highlight set is empty.
pub proof fn cleared_query_matches_everything(
    pre: App,
    mid: App,
    cursor: nat,
    b: App,
    r: TickStatus,
)
    requires
        edited(pre, mid, Seq::<char>::empty(), cursor),
        ticked(mid, b, r),
        !r.running,
    ensures
        b.engine().matches().len() == b.engine().total(),
        forall|k: int, set: Seq<u32>|
            0 <= k < b.engine().matches().len() && #[trigger] is_highlight_set(set, b.engine().positions()[k]) ==> set.len() == 0,
{
    assert forall|k: int, set: Seq<u32>|
        0 <= k < b.engine().matches().len() && #[trigger] is_highlight_set(set, b.engine().positions()[k]) implies set.len() == 0 by {
        if set.len() > 0 {
            assert(set.contains(set[0]));
            assert(b.engine().positions()[k].len() == 0);
        }
    }
}

/// A step down that brings the selection within a step of the window's end
/// grows the window by one step, and a query edit after it leaves the window
/// at that size: the window never shrinks.
pub proof fn window_growth_is_kept(pre: App, mid: App, post: App, text: Seq<char>, cursor: nat)
    requires
        pre.selection() is Some,
        pre.selection()->0 + 1 > pre.top() - TOP_STEP,
        pre.top() + TOP_STEP <= u32::MAX,
        moved_down(pre, mid),
        edited(mid, post, text, cursor),
    ensures
        mid.top() == pre.top() + TOP_STEP,
        post.top() == pre.top() + TOP_STEP,
{
}

impl App {
    pub closed spec fn runs(&self) -> bool {
        self.running
    }

    pub closed spec fn selection(&self) -> Option<usize> {
        self.selected
    }

    pub closed spec fn top(&self) -> u32 {
        self.top
    }

    pub closed spec fn engine(&self) -> SearchEngine {
        self.matcher
    }

    pub closed spec fn query(&self) -> Query {
        self.text_area
    }

    pub open spec fn wf(&self) -> bool {
        self.query().wf() && self.engine().wf()
    }

    /// A session over `matcher`, with the given selection and window cap and an
    /// empty query drawn in `style`.
    pub fn new(
        selected: Option<usize>,
        top: u32,
        matcher: SearchEngine,
        style: ratatui::style::Style,
    ) -> (r: App)
        requires
            matcher.wf(),
        ensures
            r.wf(),
            r.runs(),
            r.selection() == selected,
            r.top() == top,
            r.engine() == matcher,
            r.query().chars().len() == 0,
            r.query().cursor() == 0,
    {
        App { running: true, selected, top, matcher, text_area: Query::new(style) }
    }

    /// One tick: the matcher makes progress; nothing else changes.
    pub fn tick(&mut self) -> (r: TickStatus)
        requires
            old(self).wf(),
        ensures
            ticked(*old(self), *final(self), r),
    {
        self.matcher.tick(TICK_MS)
    }

    /// Ends the session; with `esc` the selection is dropped, so that nothing
    /// is chosen.
    pub fn quit(&mut self, esc: bool)
        ensures
            quitted(*old(self), *final(self), esc),
    {
        if esc {
            self.selected = None;
        }
        self.running = false;
    }

    /// Whether the session goes on; the same as reading `running`.
    pub fn is_running(&self) -> (r: bool)
        ensures
            r == self.runs(),
    {
        self.running
    }

    /// The number of ranked matches in the current snapshot.
    pub fn get_matched_items(&self) -> (r: u32)
        ensures
            r == self.engine().matches().len(),
    {
        self.matcher.matched_item_count()
    }

    /// The number of items in the current snapshot.
    pub fn get_total_items(&self) -> (r: u32)
        ensures
            r == self.engine().total(),
    {
        self.matcher.item_count()
    }

    /// The selected row, if any.
    pub fn get_list_state(&self) -> (r: Option<usize>)
        ensures
            r == self.selection(),
    {
        self.selected
    }

    /// The window cap.
    pub fn get_top(&self) -> (r: u32)
        ensures
            r == self.top(),
    {
        self.top
    }

    /// The query buffer, for drawing.
    pub fn get_state_area(&self) -> (r: &Query)
        ensures
            *r == self.query(),
    {
        &self.text_area
    }

    /// Moves the selection one row down, growing the window when the
    /// selection nears its end.
    pub fn increment_counter(&mut self)
        ensures
            moved_down(*old(self), *final(self)),
            final(self).top() >= old(self).top(),
    {
        match self.selected {
            Some(c) => {
                if c < usize::MAX {
                    self.selected = Some(c + 1);
                }
                if TOP_STEP > self.top || c >= (self.top - TOP_STEP) as usize {
                    self.top = self.top.saturating_add(TOP_STEP);
                }
            },
            None => {
                self.selected = Some(0);
            },
        }
    }

    /// Moves the selection one row up, staying on the first row.
    pub fn decrement_counter(&mut self)
        ensures
            moved_up(*old(self), *final(self)),
    {
        if let Some(c) = self.selected {
            self.selected = Some(c.saturating_sub(1));
        }
    }

    /// The text of the selected item, if the selection lies within the
    /// ranked matches.
    pub fn selected(&self) -> (r: Option<String>)
        ensures
            match resolve(self.selection(), self.engine().matches()) {
                Some(t) => r is Some && r->0@ == t,
                None => r is None,
            },
    {
        match self.selected {
            Some(i) => {
                let matched = self.matcher.matched_item_count();
                if i < matched as usize {
                    Some(self.matcher.matched_item(i as u32))
                } else {
                    None
                }
            },
            None => None,
        }
    }

    /// Hands the current query to the matcher, ticks it once so that the next
    /// frame is not empty, and puts the selection back on the first row.
    fn reparse(&mut self)
        requires
            old(self).wf(),
        ensures
            final(self).wf(),
            final(self).query() == old(self).query(),
            final(self).engine().pattern() == parsed_pattern(old(self).query().chars()),
            final(self).engine().worker_pattern() == parsed_pattern(old(self).query().chars()),
            old(self).query().chars().len() == 0 ==> final(self).engine().pattern().len() == 0,
            final(self).selection() == selection_after_edit(final(self).engine().matches().len()),
            final(self).top() == old(self).top(),
            final(self).runs() == old(self).runs(),
            final(self).engine().matches().len() <= final(self).engine().total(),
    {
        let text = self.text_area.text();
        self.matcher.reparse(text.as_str());
        self.matcher.tick(TICK_MS);
        if self.matcher.matched_item_count() > 0 {
            self.selected = Some(0);
        } else {
            self.selected = None;
        }
    }

    /// Inserts pasted text at the cursor in one step.
    pub fn paste(&mut self, to_paste: &str)
        requires
            old(self).wf(),
        ensures
            edited(
                *old(self),
                *final(self),
                old(self).query().chars().take(old(self).query().cursor() as int) + to_paste@
                    + old(self).query().chars().skip(old(self).query().cursor() as int),
                old(self).query().cursor() + to_paste@.len(),
            ),
    {
        self.text_area.push_str(to_paste);
        self.reparse();
    }

    /// Inserts one typed character at the cursor.
    pub fn update_query(&mut self, c: char)
        requires
            old(self).wf(),
        ensures
            typed(*old(self), *final(self), c),
    {
        self.text_area.push(c);
        self.reparse();
    }

    /// Deletes the character before the cursor; with none there, nothing
    /// happens.
    pub fn delete(&mut self)
        requires
            old(self).wf(),
        ensures
            deleted_back(*old(self), *final(self)),
    {
        if self.text_area.pop() {
            self.reparse();
        }
    }

    /// A handle through which producers add items, from any thread.
    pub fn injector(&self) -> nucleo::Injector<String> {
        self.matcher.injector()
    }

    /// Adds one item. It shows in a later snapshot; nothing of the session
    /// changes now.
    pub fn add_item(&mut self, to_push: String)
        ensures
            *final(self) == *old(self),
    {
        self.matcher.add_item(to_push);
    }

    /// The visible window of the current snapshot: the first
    /// `min(matched, top)` ranked matches, each with its highlight set.
    pub fn get_items_with_indices(&self) -> (r: Vec<(String, Vec<u32>)>)
        requires
            self.wf(),
        ensures
            r@.len() == if self.engine().matches().len() < self.top() {
                self.engine().matches().len()
            } else {
                self.top() as nat
            },
            forall|k: int|
                0 <= k < r@.len() ==> (#[trigger] r@[k]).0@ == self.engine().matches()[k]
                    && is_highlight_set(r@[k].1@, self.engine().positions()[k]),
    {
        let matched = self.matcher.matched_item_count();
        let shown = if matched < self.top {
            matched
        } else {
            self.top
        };
        let mut frame: Vec<(String, Vec<u32>)> = Vec::new();
        let mut n: u32 = 0;
        while n < shown
            invariant
                self.wf(),
                shown <= matched,
                matched == self.engine().matches().len(),
                n <= shown,
                frame@.len() == n,
                forall|k: int|
                    0 <= k < n ==> (#[trigger] frame@[k]).0@ == self.engine().matches()[k]
                        && is_highlight_set(frame@[k].1@, self.engine().positions()[k]),
            decreases shown - n,
        {
            let text = self.matcher.matched_item(n);
            let raw = self.matcher.matched_item_positions(n);
            frame.push((text, highlight_positions(&raw)));
            n = n + 1;
        }
        frame
    }
}

impl Default for App {
    fn default() -> (r: App)
        ensures
            r.wf(),
            r.runs(),
            r.selection() == Some(0usize),
            r.top() == DEFAULT_TOP,
            r.query().chars().len() == 0,
            r.query().cursor() == 0,
            r.engine().matches().len() == 0,
            r.engine().total() == 0,
            r.engine().pattern().len() == 0,
    {
        App {
            running: true,
            selected: Some(0),
            top: DEFAULT_TOP,
            matcher: SearchEngine::default(),
            text_area: Query::default(),
        }
    }
}

} // verus!
