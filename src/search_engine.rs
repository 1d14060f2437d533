//! The boundary around nucleo's background matcher: its current snapshot is
//! described by the names below, and each call the session makes goes through
//! one small trusted item whose contract states what nucleo's source shows.

use nucleo::pattern::{CaseMatching, Normalization};
use nucleo::{Config, Matcher, Utf32String};
use std::sync::Arc;
use vstd::prelude::*;

verus! {

#[verifier::external_type_specification]
#[verifier::external_body]
#[verifier::reject_recursive_types(T)]
pub struct ExNucleo<T: Sync + Send + 'static>(nucleo::Nucleo<T>);

#[verifier::external_type_specification]
#[verifier::external_body]
#[verifier::reject_recursive_types(T)]
pub struct ExInjector<T>(nucleo::Injector<T>);

/// The texts of the matched items of the matcher's current snapshot, best
/// ranked first.
pub uninterp spec fn ranked_items(m: nucleo::Nucleo<String>) -> Seq<Seq<char>>;

/// The number of items that the matcher's current snapshot was computed over.
pub uninterp spec fn item_total(m: nucleo::Nucleo<String>) -> nat;

/// For each ranked match of the current snapshot, the character positions
/// that the snapshot's own pattern reports for it, as nucleo hands them out
/// (one run per pattern atom, neither sorted nor deduplicated).
pub uninterp spec fn ranked_positions(m: nucleo::Nucleo<String>) -> Seq<Seq<u32>>;

/// The number of matching columns the matcher was built with.
pub uninterp spec fn column_count(m: nucleo::Nucleo<String>) -> nat;

/// The pattern that the matcher's next tick hands to its workers: the atoms
/// of column 0 of its `pattern`, each by its text.
pub uninterp spec fn pending_pattern(m: nucleo::Nucleo<String>) -> Seq<Seq<char>>;

/// The pattern the background workers match with: the atoms of column 0 of the
/// pattern that the last tick handed over, each by its text.
pub uninterp spec fn worker_pattern(m: nucleo::Nucleo<String>) -> Seq<Seq<char>>;

/// What nucleo's `Pattern::reparse` makes of a query, with case ignored and no
/// Unicode normalization: its atoms, each by its text.
pub uninterp spec fn parsed_pattern(q: Seq<char>) -> Seq<Seq<char>>;

/// No matching work is pending or unpublished: the matcher's last tick
/// reported that nothing runs in the background, and its pattern has not been
/// replaced since.
pub uninterp spec fn settled(m: nucleo::Nucleo<String>) -> bool;

/// Relies on `Nucleo::injector`: a handle that feeds items to this matcher.
pub assume_specification<T: Sync + Send + 'static>[ nucleo::Nucleo::<T>::injector ](
    m: &nucleo::Nucleo<T>,
) -> nucleo::Injector<T>;

/// Relies on `Nucleo::new` with one column: a fresh matcher's snapshot is
/// empty (no items, no matches), its pattern has no atoms, and its first tick
/// still has work to start. With `None`, nucleo runs one worker per hardware
/// thread. A count of zero is left out: nucleo would then build no per-thread
/// matcher for the pool rayon sizes by itself.
#[verifier::external_body]
fn new_matcher(num_threads: Option<usize>) -> (r: nucleo::Nucleo<String>)
    requires
        num_threads != Some(0usize),
    ensures
        ranked_items(r).len() == 0,
        ranked_positions(r).len() == 0,
        item_total(r) == 0,
        column_count(r) == 1,
        pending_pattern(r).len() == 0,
        worker_pattern(r).len() == 0,
        !settled(r),
{
    nucleo::Nucleo::new(Config::DEFAULT, Arc::new(|| {}), num_threads, 1)
}

/// Relies on `MultiPattern::reparse` on column 0 (through `Pattern::reparse`):
/// the pattern the next tick hands to the workers becomes the parsed query (an
/// empty query has no atoms); the workers and the snapshot stay as they were.
#[verifier::external_body]
fn set_pattern(m: &mut nucleo::Nucleo<String>, query: &str)
    requires
        column_count(*old(m)) >= 1,
    ensures
        pending_pattern(*final(m)) == parsed_pattern(query@),
        query@.len() == 0 ==> pending_pattern(*final(m)).len() == 0,
        !settled(*final(m)),
        worker_pattern(*final(m)) == worker_pattern(*old(m)),
        ranked_items(*final(m)) == ranked_items(*old(m)),
        ranked_positions(*final(m)) == ranked_positions(*old(m)),
        item_total(*final(m)) == item_total(*old(m)),
        column_count(*final(m)) == column_count(*old(m)),
{
    m.pattern.reparse(0, query, CaseMatching::Ignore, Normalization::Never, false)
}

/// What one tick reports: whether the snapshot changed, and whether matching
/// work is still pending in the background.
#[derive(Clone, Copy, Debug, PartialEq, Eq, Structural)]
pub struct TickStatus {
    pub changed: bool,
    pub running: bool,
}

/// Relies on `Nucleo::tick`:
/// - the snapshot is only replaced when the returned status says it changed,
///   and a matcher that was settled has nothing new to publish;
/// - the matches of a snapshot are items of it, so there are never more of
///   them than items, and the item count only grows;
/// - the pending pattern is left alone, and the workers hold it afterwards (a
///   replaced pattern makes the tick cancel and restart them with it);
/// - when nothing runs any more, the snapshot was computed with the pending
///   pattern over every item counted; with one column and an empty pattern
///   every item matches and no position is reported.
#[verifier::external_body]
fn advance(m: &mut nucleo::Nucleo<String>, timeout: u64) -> (r: TickStatus)
    ensures
        ranked_items(*final(m)).len() <= item_total(*final(m)) <= u32::MAX,
        item_total(*final(m)) >= item_total(*old(m)),
        ranked_positions(*final(m)).len() == ranked_items(*final(m)).len(),
        column_count(*final(m)) == column_count(*old(m)),
        pending_pattern(*final(m)) == pending_pattern(*old(m)),
        worker_pattern(*final(m)) == pending_pattern(*final(m)),
        settled(*final(m)) == !r.running,
        settled(*old(m)) ==> !r.changed,
        !r.running && column_count(*final(m)) == 1 && pending_pattern(*final(m)).len() == 0
            ==> ranked_items(*final(m)).len() == item_total(*final(m)) && forall|k: int|
            0 <= k < ranked_positions(*final(m)).len() ==> (#[trigger] ranked_positions(
                *final(m),
            )[k]).len() == 0,
        !r.changed ==> ranked_items(*final(m)) == ranked_items(*old(m))
            && ranked_positions(*final(m)) == ranked_positions(*old(m))
            && item_total(*final(m)) == item_total(*old(m)),
{
    let status = m.tick(timeout);
    TickStatus { changed: status.changed, running: status.running }
}

/// Relies on `Snapshot::matched_item_count`: the number of matches.
#[verifier::external_body]
fn matched_count(m: &nucleo::Nucleo<String>) -> (r: u32)
    ensures
        r == ranked_items(*m).len(),
{
    m.snapshot().matched_item_count()
}

/// Relies on `Snapshot::item_count`: the number of items.
#[verifier::external_body]
fn total_count(m: &nucleo::Nucleo<String>) -> (r: u32)
    ensures
        r == item_total(*m),
{
    m.snapshot().item_count()
}

/// Relies on `Snapshot::get_matched_item`, which is `Some` for every index
/// below the match count: the text of the n-th ranked match.
#[verifier::external_body]
fn matched_text(m: &nucleo::Nucleo<String>, n: u32) -> (r: String)
    requires
        n < ranked_items(*m).len(),
    ensures
        r@ == ranked_items(*m)[n as int],
{
    m.snapshot().get_matched_item(n).map(|item| item.data.clone()).unwrap_or_default()
}

/// Relies on `Pattern::indices` of the snapshot's pattern (column 0) over the
/// n-th ranked match: the positions it appends, as it appends them.
#[verifier::external_body]
fn matched_positions(m: &nucleo::Nucleo<String>, n: u32) -> (r: Vec<u32>)
    requires
        n < ranked_items(*m).len(),
        column_count(*m) >= 1,
    ensures
        r@ == ranked_positions(*m)[n as int],
{
    let snapshot = m.snapshot();
    let mut indices: Vec<u32> = Vec::new();
    if let Some(item) = snapshot.get_matched_item(n) {
        let mut matcher = Matcher::new(Config::DEFAULT);
        let column = item.matcher_columns[0].slice(..);
        snapshot.pattern().column_pattern(0).indices(column, &mut matcher, &mut indices);
    }
    indices
}

/// Relies on `Injector::push`: the item is appended to the matcher's items,
/// each column holding its characters one by one (so that match positions are
/// character indices); it shows in a later snapshot.
#[verifier::external_body]
fn push_item(injector: &nucleo::Injector<String>, item: String) {
    injector.push(item, |data, columns| columns.fill(Utf32String::Unicode(data.chars().collect())));
}

/// Adds one item through `injector`, as every producer should, so that its
/// match positions count characters.
pub fn inject(injector: &nucleo::Injector<String>, item: String) {
    push_item(injector, item);
}

/// A fresh one-column matcher with `num_threads` workers (one per hardware
/// thread with `None`), ready for `SearchEngine::new`: no items, no matches,
/// an empty pattern.
pub fn fresh_matcher(num_threads: Option<usize>) -> (r: nucleo::Nucleo<String>)
    requires
        num_threads != Some(0usize),
    ensures
        column_count(r) == 1,
        ranked_items(r).len() == 0,
        ranked_positions(r).len() == 0,
        item_total(r) == 0,
        pending_pattern(r).len() == 0,
        worker_pattern(r).len() == 0,
        !settled(r),
{
    new_matcher(num_threads)
}

/// The matching engine of a session.
pub struct SearchEngine {
    matcher: nucleo::Nucleo<String>,
}

impl SearchEngine {
    /// The ranked matches of the current snapshot.
    pub closed spec fn matches(&self) -> Seq<Seq<char>> {
        ranked_items(self.matcher)
    }

    /// The item count of the current snapshot.
    pub closed spec fn total(&self) -> nat {
        item_total(self.matcher)
    }

    /// The raw match positions of each ranked match of the current snapshot.
    pub closed spec fn positions(&self) -> Seq<Seq<u32>> {
        ranked_positions(self.matcher)
    }

    /// The pattern the next tick hands to the workers.
    pub closed spec fn pattern(&self) -> Seq<Seq<char>> {
        pending_pattern(self.matcher)
    }

    /// The pattern the background workers match with.
    pub closed spec fn worker_pattern(&self) -> Seq<Seq<char>> {
        worker_pattern(self.matcher)
    }

    /// Whether no matching work is pending or unpublished.
    pub closed spec fn settled(&self) -> bool {
        settled(self.matcher)
    }

    /// One matching column; at most as many matches as items, and one list of
    /// positions per match.
    pub open spec fn wf(&self) -> bool {
        &&& self.columns() == 1
        &&& self.matches().len() <= self.total()
        &&& self.positions().len() == self.matches().len()
    }

    pub closed spec fn columns(&self) -> nat {
        column_count(self.matcher)
    }

    /// Wraps a matcher built by the caller with one column.
    pub fn new(matcher: nucleo::Nucleo<String>) -> (r: SearchEngine)
        requires
            column_count(matcher) == 1,
            ranked_items(matcher).len() <= item_total(matcher),
            ranked_positions(matcher).len() == ranked_items(matcher).len(),
        ensures
            r.wf(),
            r.matches() == ranked_items(matcher),
            r.total() == item_total(matcher),
            r.positions() == ranked_positions(matcher),
            r.pattern() == pending_pattern(matcher),
            r.worker_pattern() == worker_pattern(matcher),
            r.settled() == settled(matcher),
    {
        SearchEngine { matcher }
    }

    /// A fresh engine with `num_threads` workers.
    pub fn with_threads(num_threads: usize) -> (r: SearchEngine)
        requires
            num_threads > 0,
        ensures
            r.wf(),
            r.matches().len() == 0,
            r.total() == 0,
            r.pattern().len() == 0,
            r.worker_pattern().len() == 0,
            !r.settled(),
    {
        SearchEngine::new(fresh_matcher(Some(num_threads)))
    }

    /// A handle through which items are added, from any thread.
    pub fn injector(&self) -> nucleo::Injector<String> {
        self.matcher.injector()
    }

    /// Adds one item; it shows in a later snapshot, never in the current one.
    pub fn add_item(&self, item: String) {
        let injector = self.matcher.injector();
        inject(&injector, item);
    }

    /// Replaces the search pattern. The snapshot is untouched until the next
    /// tick.
    pub fn reparse(&mut self, query: &str)
        requires
            old(self).wf(),
        ensures
            final(self).wf(),
            final(self).pattern() == parsed_pattern(query@),
            query@.len() == 0 ==> final(self).pattern().len() == 0,
            !final(self).settled(),
            final(self).worker_pattern() == old(self).worker_pattern(),
            final(self).matches() == old(self).matches(),
            final(self).total() == old(self).total(),
            final(self).positions() == old(self).positions(),
    {
        set_pattern(&mut self.matcher, query);
    }

    /// Lets the background workers make progress for at most `timeout`
    /// milliseconds and takes up their latest results.
    pub fn tick(&mut self, timeout: u64) -> (r: TickStatus)
        requires
            old(self).wf(),
        ensures
            final(self).wf(),
            final(self).total() <= u32::MAX,
            final(self).total() >= old(self).total(),
            final(self).pattern() == old(self).pattern(),
            final(self).worker_pattern() == final(self).pattern(),
            final(self).settled() == !r.running,
            old(self).settled() ==> !r.changed,
            !r.changed ==> final(self).matches() == old(self).matches()
                && final(self).total() == old(self).total()
                && final(self).positions() == old(self).positions(),
            !r.running && final(self).pattern().len() == 0 ==> final(self).matches().len()
                == final(self).total() && forall|k: int|
                0 <= k < final(self).positions().len() ==> (
                #[trigger] final(self).positions()[k]).len() == 0,
    {
        advance(&mut self.matcher, timeout)
    }

    pub fn matched_item_count(&self) -> (r: u32)
        ensures
            r == self.matches().len(),
    {
        matched_count(&self.matcher)
    }

    pub fn item_count(&self) -> (r: u32)
        ensures
            r == self.total(),
    {
        total_count(&self.matcher)
    }

    /// The text of the n-th ranked match.
    pub fn matched_item(&self, n: u32) -> (r: String)
        requires
            n < self.matches().len(),
        ensures
            r@ == self.matches()[n as int],
    {
        matched_text(&self.matcher, n)
    }

    /// The raw match positions of the n-th ranked match.
    pub fn matched_item_positions(&self, n: u32) -> (r: Vec<u32>)
        requires
            self.wf(),
            n < self.matches().len(),
        ensures
            r@ == self.positions()[n as int],
    {
        matched_positions(&self.matcher, n)
    }
}

impl Default for SearchEngine {
    fn default() -> (r: SearchEngine)
        ensures
            r.wf(),
            r.matches().len() == 0,
            r.total() == 0,
            r.pattern().len() == 0,
            r.worker_pattern().len() == 0,
            !r.settled(),
    {
        SearchEngine::new(fresh_matcher(None))
    }
}

} // verus!
