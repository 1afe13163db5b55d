//! Decisions taken while walking a storage map entry by entry: which entries make up
//! a page of nuclei, and when a count of entries stops.
//!
//! The walk itself (awaiting the next entry) belongs to the caller, which reports each
//! outcome as a `StreamEvent` and follows the step it gets back.

use vstd::prelude::*;

verus! {

/// What the walk over a storage map produced next.
#[derive(Debug, Clone, Copy, PartialEq, Eq)]
pub enum StreamEvent {
    /// An entry was read.
    Entry,
    /// Reading the next entry failed; the walk ends here.
    Failed,
    /// The map has no more entries.
    Finished,
}

/// What to do with the entry just read.
#[derive(Debug, Clone, Copy, PartialEq, Eq)]
pub enum PageStep {
    /// The entry lies before the page: pass over it.
    Skip,
    /// The entry belongs to the page.
    Take,
    /// The page is complete, or the walk has ended: stop walking.
    Stop,
}

/// The abstract state of a pager: the page size, the number of entries before the
/// page, and how many entries have been skipped or taken so far.
pub struct PageWindow {
    pub limit: nat,
    pub offset: nat,
    pub seen: nat,
}

/// The page size used when none is asked for.
pub const DEFAULT_PAGE_LIMIT: u32 = 10;

/// The step a pager in state `w` takes on `e`.
pub open spec fn page_step(w: PageWindow, e: StreamEvent) -> PageStep {
    match e {
        StreamEvent::Entry => {
            if w.seen < w.offset {
                PageStep::Skip
            } else if w.seen < w.offset + w.limit {
                PageStep::Take
            } else {
                PageStep::Stop
            }
        },
        _ => PageStep::Stop,
    }
}

/// The state of a pager in state `w` after `e`.
pub open spec fn page_next(w: PageWindow, e: StreamEvent) -> PageWindow {
    match page_step(w, e) {
        PageStep::Stop => w,
        _ => PageWindow { seen: w.seen + 1, ..w },
    }
}

/// The page collected by a pager in state `w` from a walk that reads `entries` and then ends.
pub open spec fn collect_page<A>(w: PageWindow, entries: Seq<A>) -> Seq<A>
    decreases entries.len(),
{
    if entries.len() == 0 {
        Seq::empty()
    } else {
        match page_step(w, StreamEvent::Entry) {
            PageStep::Skip => collect_page(page_next(w, StreamEvent::Entry), entries.drop_first()),
            PageStep::Take => seq![entries[0]] + collect_page(
                page_next(w, StreamEvent::Entry),
                entries.drop_first(),
            ),
            PageStep::Stop => Seq::empty(),
        }
    }
}

/// The smaller of two integers.
pub open spec fn min_int(a: int, b: int) -> int {
    if a <= b {
        a
    } else {
        b
    }
}

/// Chooses the page of nuclei out of a walk over storage: it passes over `offset`
/// entries, takes the next `limit`, and then stops.
pub struct NucleusPager {
    limit: u32,
    offset: u32,
    seen: u64,
}

impl View for NucleusPager {
    type V = PageWindow;

    closed spec fn view(&self) -> PageWindow {
        PageWindow { limit: self.limit as nat, offset: self.offset as nat, seen: self.seen as nat }
    }
}

impl NucleusPager {
    /// The pager's state never goes past the end of the page.
    pub closed spec fn wf(&self) -> bool {
        self.seen <= self.offset + self.limit
    }

    /// A pager for the page of `limit` entries (10 when absent) after the first
    /// `offset` entries (none when absent).
    pub fn new(limit: Option<u32>, offset: Option<u32>) -> (p: Self)
        ensures
            p.wf(),
            p@.limit == match limit {
                Some(l) => l,
                None => DEFAULT_PAGE_LIMIT,
            },
            p@.offset == match offset {
                Some(o) => o,
                None => 0u32,
            },
            p@.seen == 0,
    {
        let limit = match limit {
            Some(l) => l,
            None => DEFAULT_PAGE_LIMIT,
        };
        let offset = match offset {
            Some(o) => o,
            None => 0,
        };
        NucleusPager { limit, offset, seen: 0 }
    }

    /// The page size.
    pub fn limit(&self) -> (l: u32)
        ensures
            l == self@.limit,
    {
        self.limit
    }

    /// The number of entries before the page.
    pub fn offset(&self) -> (o: u32)
        ensures
            o == self@.offset,
    {
        self.offset
    }

    /// Decides what to do with what the walk produced next.
    pub fn on_event(&mut self, event: StreamEvent) -> (step: PageStep)
        requires
            old(self).wf(),
        ensures
            final(self).wf(),
            step == page_step(old(self)@, event),
            final(self)@ == page_next(old(self)@, event),
            final(self)@.limit == old(self)@.limit,
            final(self)@.offset == old(self)@.offset,
            event != StreamEvent::Entry ==> step == PageStep::Stop && final(self)@ == old(self)@,
            event == StreamEvent::Entry && old(self)@.seen < old(self)@.offset ==> step
                == PageStep::Skip && final(self)@.seen == old(self)@.seen + 1,
            event == StreamEvent::Entry && old(self)@.offset <= old(self)@.seen
                < old(self)@.offset + old(self)@.limit ==> step == PageStep::Take
                && final(self)@.seen == old(self)@.seen + 1,
            event == StreamEvent::Entry && old(self)@.seen >= old(self)@.offset + old(
                self,
            )@.limit ==> step == PageStep::Stop && final(self)@ == old(self)@,
    {
        match event {
            StreamEvent::Entry => {
                if self.seen < self.offset as u64 {
                    self.seen = self.seen + 1;
                    PageStep::Skip
                } else if self.seen - (self.offset as u64) < self.limit as u64 {
                    self.seen = self.seen + 1;
                    PageStep::Take
                } else {
                    PageStep::Stop
                }
            },
            _ => PageStep::Stop,
        }
    }
}

/// Law: the page a pager collects from a walk over `entries` is the run of entries
/// that starts after the first `offset` and holds at most `limit` of them, so a page
/// never holds more than `limit` entries.
pub proof fn lemma_page_is_window<A>(limit: nat, offset: nat, entries: Seq<A>)
    ensures
        collect_page(PageWindow { limit, offset, seen: 0 }, entries) == entries.subrange(
            min_int(offset as int, entries.len() as int),
            min_int((offset + limit) as int, entries.len() as int),
        ),
        collect_page(PageWindow { limit, offset, seen: 0 }, entries).len() <= limit,
{
    lemma_collect_from(PageWindow { limit, offset, seen: 0 }, entries);
}

proof fn lemma_collect_from<A>(w: PageWindow, entries: Seq<A>)
    requires
        w.seen <= w.offset + w.limit,
    ensures
        collect_page(w, entries) == entries.subrange(
            min_int(if w.seen <= w.offset { w.offset - w.seen } else { 0 }, entries.len() as int),
            min_int(w.offset + w.limit - w.seen, entries.len() as int),
        ),
    decreases entries.len(),
{
    let lo = min_int(if w.seen <= w.offset { w.offset - w.seen } else { 0 }, entries.len() as int);
    let hi = min_int(w.offset + w.limit - w.seen, entries.len() as int);
    if entries.len() == 0 {
        assert(entries.subrange(lo, hi) =~= Seq::<A>::empty());
    } else {
        let next = page_next(w, StreamEvent::Entry);
        let rest = entries.drop_first();
        match page_step(w, StreamEvent::Entry) {
            PageStep::Skip => {
                lemma_collect_from(next, rest);
                assert(rest.subrange(lo - 1, hi - 1) =~= entries.subrange(lo, hi));
            },
            PageStep::Take => {
                lemma_collect_from(next, rest);
                assert(seq![entries[0]] + rest.subrange(0, hi - 1) =~= entries.subrange(lo, hi));
            },
            PageStep::Stop => {
                assert(entries.subrange(lo, hi) =~= Seq::<A>::empty());
            },
        }
    }
}

/// Law: a walk that ends, by failure or by the end of the map, always stops the pager
/// and leaves its state as it was.
pub proof fn lemma_end_stops(w: PageWindow)
    ensures
        page_step(w, StreamEvent::Failed) == PageStep::Stop,
        page_step(w, StreamEvent::Finished) == PageStep::Stop,
        page_next(w, StreamEvent::Failed) == w,
        page_next(w, StreamEvent::Finished) == w,
{
}


/// The abstract state of an entry counter: entries counted so far, and the count at
/// which it stops, if any.
pub struct TallyState {
    pub count: nat,
    pub cap: Option<nat>,
}

/// Whether a counter in state `t` walks on after `e`.
pub open spec fn tally_walks_on(t: TallyState, e: StreamEvent) -> bool {
    &&& e == StreamEvent::Entry
    &&& match t.cap {
        Some(c) => t.count + 1 < c,
        None => true,
    }
}

/// The state of a counter in state `t` after `e`: each entry read adds one.
pub open spec fn tally_next(t: TallyState, e: StreamEvent) -> TallyState {
    if e == StreamEvent::Entry {
        TallyState { count: t.count + 1, ..t }
    } else {
        t
    }
}

/// The count a counter in state `t` ends with, on a walk that reads `n` entries and
/// then ends.
pub open spec fn tally_of_walk(t: TallyState, n: nat) -> nat
    decreases n,
{
    if n == 0 {
        t.count
    } else if tally_walks_on(t, StreamEvent::Entry) {
        tally_of_walk(tally_next(t, StreamEvent::Entry), (n - 1) as nat)
    } else {
        tally_next(t, StreamEvent::Entry).count
    }
}

/// Counts the entries of a storage walk, stopping at an optional cap.
pub struct EntryCounter {
    count: u64,
    cap: Option<u64>,
}

impl View for EntryCounter {
    type V = TallyState;

    closed spec fn view(&self) -> TallyState {
        TallyState {
            count: self.count as nat,
            cap: match self.cap {
                Some(c) => Some(c as nat),
                None => None,
            },
        }
    }
}

impl EntryCounter {
    /// A counter that counts every entry of the walk.
    pub fn unbounded() -> (c: Self)
        ensures
            c@ == (TallyState { count: 0, cap: None }),
    {
        EntryCounter { count: 0, cap: None }
    }

    /// A counter that stops once it has counted `cap` entries.
    pub fn capped(cap: u64) -> (c: Self)
        ensures
            c@ == (TallyState { count: 0, cap: Some(cap as nat) }),
    {
        EntryCounter { count: 0, cap: Some(cap) }
    }

    /// The entries counted so far.
    pub fn count(&self) -> (n: u64)
        ensures
            n == self@.count,
    {
        self.count
    }

    /// Counts what the walk produced next, and says whether to walk on.
    pub fn on_event(&mut self, event: StreamEvent) -> (walk_on: bool)
        requires
            event == StreamEvent::Entry ==> old(self)@.count < u64::MAX,
        ensures
            walk_on == tally_walks_on(old(self)@, event),
            final(self)@ == tally_next(old(self)@, event),
            final(self)@.cap == old(self)@.cap,
            event != StreamEvent::Entry ==> !walk_on && final(self)@ == old(self)@,
            event == StreamEvent::Entry ==> final(self)@.count == old(self)@.count + 1,
            event == StreamEvent::Entry ==> (walk_on <==> match old(self)@.cap {
                Some(c) => old(self)@.count + 1 < c,
                None => true,
            }),
    {
        match event {
            StreamEvent::Entry => {
                self.count = self.count + 1;
                match self.cap {
                    Some(c) => self.count < c,
                    None => true,
                }
            },
            _ => false,
        }
    }
}

/// Law: a counter that stops at `cap` (at least one) ends a walk over `n` entries with
/// `min(n, cap)`; one without a cap ends with `n`.
pub proof fn lemma_tally_is_min(cap: Option<nat>, n: nat)
    requires
        cap matches Some(c) ==> c >= 1,
    ensures
        tally_of_walk(TallyState { count: 0, cap }, n) == match cap {
            Some(c) => min_int(n as int, c as int),
            None => n as int,
        },
{
    lemma_tally_from(TallyState { count: 0, cap }, n);
}

proof fn lemma_tally_from(t: TallyState, n: nat)
    requires
        t.cap matches Some(c) ==> t.count < c,
    ensures
        tally_of_walk(t, n) == match t.cap {
            Some(c) => t.count + min_int(n as int, c - t.count),
            None => (t.count + n) as int,
        },
    decreases n,
{
    if n > 0 && tally_walks_on(t, StreamEvent::Entry) {
        lemma_tally_from(tally_next(t, StreamEvent::Entry), (n - 1) as nat);
    }
}

} // verus!
