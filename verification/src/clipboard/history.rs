//! The window of committed clipboard history that the page keeps loaded,
//! and the small cache of records fetched for the detail panel.
//!
//! The window holds at most `MAX_HISTORY_PAGES` pages, newest first. Loading
//! past the bound evicts the page at the other end and records that a gap now
//! exists there. A pinned selection whose record leaves the window is kept in
//! the detail cache, which holds up to `DETAIL_CACHE_LIMIT` records in the
//! order they were last stored and never drops the pinned record.
use vstd::prelude::*;

use crate::ids::EventId;
use super::model::{
    ClipboardHistoryAnchor, ClipboardHistoryDirection, ClipboardHistoryPage, ClipboardRecord,
    anchor_of, concat_pages, distinct_events, first_with_event, has_event, lemma_concat_pages_first,
    lemma_concat_pages_prepend, lemma_first_with_event_at, lemma_first_with_event_found,
    lemma_first_with_event_none, lemma_has_event_concat,
    lemma_has_event_push, lemma_strip_event, lemma_without_event_facts, not_loaded, strip_event,
    without_event, lemma_concat_pages_push, lemma_distinct_concat, lemma_distinct_concat_parts,
    lemma_not_loaded_distinct, lemma_not_loaded_facts,
};

verus! {

pub const MAX_HISTORY_PAGES: usize = 6;

pub const DETAIL_CACHE_LIMIT: usize = 16;

/// Which record the detail panel follows.
#[derive(Clone, Copy, Debug, PartialEq, Eq, Structural)]
pub enum ClipboardSelection {
    LatestCommitted,
    Pinned(EventId),
}

impl ClipboardSelection {
    pub open spec fn matches_spec(self, event_id: EventId, latest_event_id: Option<EventId>) -> bool {
        match self {
            ClipboardSelection::LatestCommitted => latest_event_id == Some(event_id),
            ClipboardSelection::Pinned(selected_id) => selected_id == event_id,
        }
    }

    /// Whether the record `event_id` is the one this selection designates.
    pub fn matches(self, event_id: EventId, latest_event_id: Option<EventId>) -> (r: bool)
        ensures
            r == self.matches_spec(event_id, latest_event_id),
    {
        match self {
            ClipboardSelection::LatestCommitted => match latest_event_id {
                Some(latest) => latest == event_id,
                None => false,
            },
            ClipboardSelection::Pinned(selected_id) => selected_id == event_id,
        }
    }

    pub open spec fn pinned_id(self) -> Option<EventId> {
        match self {
            ClipboardSelection::Pinned(id) => Some(id),
            ClipboardSelection::LatestCommitted => None,
        }
    }
}

/// Whether a history page request is running, and of which kind.
#[derive(Clone, Copy, Debug, PartialEq, Eq, Structural)]
pub enum ClipboardHistoryLoadState {
    Idle,
    LoadingInitial,
    LoadingOlder,
    LoadingNewer,
}

/// The abstract state of the history window.
pub struct HistoryView {
    pub selection: ClipboardSelection,
    /// Loaded pages, newest first; each page newest first.
    pub pages: Seq<Seq<ClipboardRecord>>,
    /// Detail cache, least recently stored first.
    pub cache: Seq<ClipboardRecord>,
    pub older_anchor: Option<ClipboardHistoryAnchor>,
    pub newer_anchor: Option<ClipboardHistoryAnchor>,
    pub has_unloaded_older: bool,
    pub has_unloaded_newer: bool,
    pub load_state: ClipboardHistoryLoadState,
    pub bootstrapped: bool,
}

/// The cache after dropping, from its front, at most `excess` records; the
/// pinned record stops the dropping and is moved to the back instead.
pub open spec fn prune_front(cache: Seq<ClipboardRecord>, pinned: Option<EventId>, excess: nat) -> Seq<
    ClipboardRecord,
>
    decreases excess,
{
    if excess == 0 || cache.len() == 0 {
        cache
    } else if pinned == Some(cache[0].event_id) {
        cache.drop_first().push(cache[0])
    } else {
        prune_front(cache.drop_first(), pinned, (excess - 1) as nat)
    }
}

/// The cache brought back to `DETAIL_CACHE_LIMIT` records where the pinned
/// record allows it.
pub open spec fn pruned(cache: Seq<ClipboardRecord>, pinned: Option<EventId>) -> Seq<ClipboardRecord> {
    if cache.len() <= DETAIL_CACHE_LIMIT {
        cache
    } else {
        prune_front(cache, pinned, (cache.len() - DETAIL_CACHE_LIMIT) as nat)
    }
}

/// The anchor of the newest loaded record.
pub open spec fn newest_anchor(pages: Seq<Seq<ClipboardRecord>>) -> Option<ClipboardHistoryAnchor> {
    if pages.len() > 0 && pages[0].len() > 0 {
        Some(anchor_of(pages[0][0]))
    } else {
        None
    }
}

/// The anchor of the oldest loaded record.
pub open spec fn oldest_anchor(pages: Seq<Seq<ClipboardRecord>>) -> Option<ClipboardHistoryAnchor> {
    if pages.len() > 0 && pages.last().len() > 0 {
        Some(anchor_of(pages.last().last()))
    } else {
        None
    }
}

pub open spec fn opt_deref(o: Option<&ClipboardRecord>) -> Option<ClipboardRecord> {
    match o {
        Some(r) => Some(*r),
        None => None,
    }
}

impl HistoryView {
    /// An empty window following the latest committed record.
    pub open spec fn initial() -> Self {
        HistoryView {
            selection: ClipboardSelection::LatestCommitted,
            pages: Seq::empty(),
            cache: Seq::empty(),
            older_anchor: None,
            newer_anchor: None,
            has_unloaded_older: false,
            has_unloaded_newer: false,
            load_state: ClipboardHistoryLoadState::Idle,
            bootstrapped: false,
        }
    }

    pub open spec fn records(self) -> Seq<ClipboardRecord> {
        concat_pages(self.pages)
    }

    pub open spec fn wf(self) -> bool {
        &&& self.pages.len() <= MAX_HISTORY_PAGES
        &&& forall|i: int| 0 <= i < self.pages.len() ==> (#[trigger] self.pages[i]).len() > 0
        &&& distinct_events(self.cache)
    }

    pub open spec fn has_cached(self, id: EventId) -> bool {
        has_event(self.cache, id) || has_event(self.records(), id)
    }

    /// The state after storing `r` in the detail cache.
    pub open spec fn with_cached(self, r: ClipboardRecord) -> Self {
        HistoryView {
            cache: pruned(without_event(self.cache, r.event_id).push(r), self.selection.pinned_id()),
            ..self
        }
    }

    /// The state after keeping the pinned record of an evicted page in the cache.
    pub open spec fn retaining_selected(self, evicted: Seq<ClipboardRecord>) -> Self {
        match self.selection {
            ClipboardSelection::Pinned(id) => match first_with_event(evicted, id) {
                Some(r) => self.with_cached(r),
                None => self,
            },
            ClipboardSelection::LatestCommitted => self,
        }
    }

    /// The state after moving `r` to the front of the window.
    pub open spec fn promoted(self, r: ClipboardRecord) -> Self {
        let s = strip_event(self.pages, r.event_id);
        HistoryView {
            pages: if s.len() == 0 {
                seq![seq![r]]
            } else {
                s.update(0, seq![r] + s[0])
            },
            ..self
        }
    }

    /// The state after appending an older page at the back of the window.
    pub open spec fn with_older_page(self, page: ClipboardHistoryPage) -> Self {
        let fresh = not_loaded(page.records@, self.records());
        let base = HistoryView {
            has_unloaded_older: page.has_more,
            older_anchor: if page.has_more { page.next_anchor } else { None },
            ..self
        };
        if fresh.len() == 0 {
            base
        } else {
            let grown = base.pages.push(fresh);
            if grown.len() > MAX_HISTORY_PAGES {
                let kept = grown.drop_first();
                let after = HistoryView { pages: kept, ..base }.retaining_selected(grown[0]);
                HistoryView { has_unloaded_newer: true, newer_anchor: newest_anchor(kept), ..after }
            } else {
                HistoryView {
                    pages: grown,
                    newer_anchor: if base.has_unloaded_newer { base.newer_anchor } else { None },
                    ..base
                }
            }
        }
    }

    /// The state after prepending a newer page at the front of the window.
    pub open spec fn with_newer_page(self, page: ClipboardHistoryPage) -> Self {
        let fresh = not_loaded(page.records@, self.records());
        let base = HistoryView {
            has_unloaded_newer: page.has_more,
            newer_anchor: if page.has_more { page.next_anchor } else { None },
            ..self
        };
        if fresh.len() == 0 {
            base
        } else {
            let grown = seq![fresh] + base.pages;
            if grown.len() > MAX_HISTORY_PAGES {
                let kept = grown.drop_last();
                let after = HistoryView { pages: kept, ..base }.retaining_selected(grown.last());
                HistoryView { has_unloaded_older: true, older_anchor: oldest_anchor(kept), ..after }
            } else {
                HistoryView {
                    pages: grown,
                    older_anchor: if base.has_unloaded_older { base.older_anchor } else { None },
                    ..base
                }
            }
        }
    }

    /// The state after a history page arrived.
    pub open spec fn finished(self, direction: ClipboardHistoryDirection, page: ClipboardHistoryPage) -> Self {
        let ready = HistoryView {
            bootstrapped: true,
            load_state: ClipboardHistoryLoadState::Idle,
            ..self
        };
        match direction {
            ClipboardHistoryDirection::Older => ready.with_older_page(page),
            ClipboardHistoryDirection::Newer => ready.with_newer_page(page),
        }
    }

    /// The load state a new request of this kind starts.
    pub open spec fn loading_state(direction: ClipboardHistoryDirection, initial: bool) -> ClipboardHistoryLoadState {
        if initial {
            ClipboardHistoryLoadState::LoadingInitial
        } else {
            match direction {
                ClipboardHistoryDirection::Older => ClipboardHistoryLoadState::LoadingOlder,
                ClipboardHistoryDirection::Newer => ClipboardHistoryLoadState::LoadingNewer,
            }
        }
    }

    /// The record the detail panel shows, given the latest committed record.
    pub open spec fn selected_record(self, latest: Option<ClipboardRecord>) -> Option<ClipboardRecord> {
        match self.selection {
            ClipboardSelection::LatestCommitted => if latest is Some {
                latest
            } else if self.records().len() > 0 {
                Some(self.records()[0])
            } else {
                None
            },
            ClipboardSelection::Pinned(id) => match first_with_event(self.cache, id) {
                Some(r) => Some(r),
                None => if latest matches Some(l) && l.event_id == id {
                    latest
                } else {
                    first_with_event(self.records(), id)
                },
            },
        }
    }

    pub open spec fn has_newer_gap(self) -> bool {
        self.has_unloaded_newer && self.newer_anchor is Some
    }

    pub open spec fn has_older_gap(self) -> bool {
        self.has_unloaded_older && self.older_anchor is Some
    }
}

/// The loaded history window of the clipboard page.
pub struct ClipboardHistoryState {
    selection: ClipboardSelection,
    pages: Vec<Vec<ClipboardRecord>>,
    detail_cache: Vec<ClipboardRecord>,
    older_anchor: Option<ClipboardHistoryAnchor>,
    newer_anchor: Option<ClipboardHistoryAnchor>,
    has_unloaded_older: bool,
    has_unloaded_newer: bool,
    load_state: ClipboardHistoryLoadState,
    bootstrapped: bool,
}

pub open spec fn page_views(ps: Seq<Vec<ClipboardRecord>>) -> Seq<Seq<ClipboardRecord>> {
    Seq::new(ps.len(), |i: int| ps[i]@)
}

impl View for ClipboardHistoryState {
    type V = HistoryView;

    closed spec fn view(&self) -> HistoryView {
        HistoryView {
            selection: self.selection,
            pages: page_views(self.pages@),
            cache: self.detail_cache@,
            older_anchor: self.older_anchor,
            newer_anchor: self.newer_anchor,
            has_unloaded_older: self.has_unloaded_older,
            has_unloaded_newer: self.has_unloaded_newer,
            load_state: self.load_state,
            bootstrapped: self.bootstrapped,
        }
    }
}

fn vec_has_event(v: &Vec<ClipboardRecord>, id: EventId) -> (r: bool)
    ensures
        r == has_event(v@, id),
{
    let mut j: usize = 0;
    while j < v.len()
        invariant
            j <= v.len(),
            forall|k: int| 0 <= k < j ==> (#[trigger] v@[k]).event_id != id,
        decreases v.len() - j,
    {
        if v[j].event_id == id {
            return true;
        }
        j = j + 1;
    }
    false
}

fn vec_first_with_event(v: &Vec<ClipboardRecord>, id: EventId) -> (r: Option<ClipboardRecord>)
    ensures
        r == first_with_event(v@, id),
{
    let mut j: usize = 0;
    while j < v.len()
        invariant
            j <= v.len(),
            forall|k: int| 0 <= k < j ==> (#[trigger] v@[k]).event_id != id,
        decreases v.len() - j,
    {
        if v[j].event_id == id {
            proof {
                lemma_first_with_event_at(v@, id, j as int);
            }
            return Some(v[j].clone());
        }
        j = j + 1;
    }
    proof {
        lemma_first_with_event_none(v@, id);
    }
    None
}

fn vec_without_event(v: &Vec<ClipboardRecord>, id: EventId) -> (r: Vec<ClipboardRecord>)
    ensures
        r@ == without_event(v@, id),
{
    let mut out: Vec<ClipboardRecord> = Vec::new();
    let mut j: usize = 0;
    while j < v.len()
        invariant
            j <= v.len(),
            out@ == without_event(v@.take(j as int), id),
        decreases v.len() - j,
    {
        proof {
            assert(v@.take(j + 1).drop_last() =~= v@.take(j as int));
            assert(v@.take(j + 1).last() == v@[j as int]);
        }
        if v[j].event_id != id {
            out.push(v[j].clone());
        }
        j = j + 1;
    }
    assert(v@.take(v.len() as int) =~= v@);
    out
}

proof fn lemma_take_concat(ps: Seq<Seq<ClipboardRecord>>, i: int)
    requires
        0 <= i < ps.len(),
    ensures
        concat_pages(ps.take(i + 1)) == concat_pages(ps.take(i)) + ps[i],
{
    assert(ps.take(i + 1).drop_last() =~= ps.take(i));
    assert(ps.take(i + 1).last() == ps[i]);
}

proof fn lemma_prune_front_facts(cache: Seq<ClipboardRecord>, pinned: Option<EventId>, excess: nat)
    ensures
        distinct_events(cache) ==> distinct_events(prune_front(cache, pinned, excess)),
        forall|id: EventId| pinned == Some(id) && #[trigger] has_event(cache, id) ==> has_event(prune_front(cache, pinned, excess), id),
        excess <= cache.len() ==> prune_front(cache, pinned, excess).len() >= cache.len() - excess,
    decreases excess,
{
    if excess == 0 || cache.len() == 0 {
    } else {
        let rest = cache.drop_first();
        assert(cache =~= seq![cache[0]] + rest);
        if distinct_events(cache) {
            assert forall|i: int, j: int|
                0 <= i < rest.len() && 0 <= j < rest.len() && i != j
                    implies (#[trigger] rest[i]).event_id != (#[trigger] rest[j]).event_id by {
                assert(rest[i] == cache[i + 1]);
                assert(rest[j] == cache[j + 1]);
            }
        }
        if pinned == Some(cache[0].event_id) {
            let moved = rest.push(cache[0]);
            if distinct_events(cache) {
                assert forall|i: int, j: int|
                    0 <= i < moved.len() && 0 <= j < moved.len() && i != j
                        implies (#[trigger] moved[i]).event_id != (#[trigger] moved[j]).event_id by {
                    if i < rest.len() {
                        assert(moved[i] == cache[i + 1]);
                    } else {
                        assert(moved[i] == cache[0]);
                    }
                    if j < rest.len() {
                        assert(moved[j] == cache[j + 1]);
                    } else {
                        assert(moved[j] == cache[0]);
                    }
                }
            }
            assert(moved[moved.len() - 1] == cache[0]);
        } else {
            lemma_prune_front_facts(rest, pinned, (excess - 1) as nat);
            assert forall|id: EventId| pinned == Some(id) && #[trigger] has_event(cache, id)
                implies has_event(prune_front(cache, pinned, excess), id) by {
                let k = choose|k: int| 0 <= k < cache.len() && (#[trigger] cache[k]).event_id == id;
                assert(k != 0);
                assert(rest[k - 1] == cache[k]);
                assert(has_event(rest, id));
                assert(prune_front(cache, pinned, excess) == prune_front(rest, pinned, (excess - 1) as nat));
            }
        }
    }
}

proof fn lemma_with_cached_facts(v: HistoryView, r: ClipboardRecord)
    requires
        v.wf(),
    ensures
        v.with_cached(r).wf(),
        has_event(v.with_cached(r).cache, r.event_id),
        forall|id: EventId| v.selection.pinned_id() == Some(id) && #[trigger] has_event(v.cache, id)
            ==> has_event(v.with_cached(r).cache, id),
{
    let w = without_event(v.cache, r.event_id);
    let c = w.push(r);
    lemma_without_event_facts(v.cache, r.event_id);
    lemma_has_event_push(w, r, r.event_id);
    assert forall|i: int, j: int|
        0 <= i < c.len() && 0 <= j < c.len() && i != j
            implies (#[trigger] c[i]).event_id != (#[trigger] c[j]).event_id by {
        if i < w.len() && j < w.len() {
            assert(c[i] == w[i]);
            assert(c[j] == w[j]);
        } else if i < w.len() {
            assert(c[i] == w[i]);
            assert(c[j] == r);
            assert(!has_event(w, r.event_id));
        } else if j < w.len() {
            assert(c[j] == w[j]);
            assert(c[i] == r);
            assert(!has_event(w, r.event_id));
        }
    }
    let pinned = v.selection.pinned_id();
    lemma_prune_front_facts(c, pinned, (c.len() - DETAIL_CACHE_LIMIT) as nat);
    assert forall|id: EventId| pinned == Some(id) && #[trigger] has_event(v.cache, id)
        implies has_event(v.with_cached(r).cache, id) by {
        lemma_has_event_push(w, r, id);
        if id != r.event_id {
            lemma_without_event_keeps(v.cache, r.event_id, id);
        }
    }
    // the freshly stored record sits at the back, beyond anything pruning drops
    if c.len() > DETAIL_CACHE_LIMIT {
        lemma_prune_front_keeps_last(c, pinned, (c.len() - DETAIL_CACHE_LIMIT) as nat);
    }
}

proof fn lemma_without_event_keeps(s: Seq<ClipboardRecord>, id: EventId, other: EventId)
    requires
        other != id,
        has_event(s, other),
    ensures
        has_event(without_event(s, id), other),
    decreases s.len(),
{
    let rest = s.drop_last();
    assert(s =~= rest.push(s.last()));
    lemma_has_event_push(rest, s.last(), other);
    if s.last().event_id == other {
        lemma_has_event_push(without_event(rest, id), s.last(), other);
    } else {
        lemma_without_event_keeps(rest, id, other);
        if s.last().event_id != id {
            lemma_has_event_push(without_event(rest, id), s.last(), other);
        }
    }
}

proof fn lemma_prune_front_keeps_last(cache: Seq<ClipboardRecord>, pinned: Option<EventId>, excess: nat)
    requires
        excess < cache.len(),
    ensures
        has_event(prune_front(cache, pinned, excess), cache.last().event_id),
    decreases excess,
{
    if excess == 0 {
        assert(cache[cache.len() - 1] == cache.last());
    } else {
        let rest = cache.drop_first();
        if pinned == Some(cache[0].event_id) {
            let moved = rest.push(cache[0]);
            assert(moved[cache.len() - 2] == cache.last());
        } else {
            assert(rest.last() == cache.last());
            lemma_prune_front_keeps_last(rest, pinned, (excess - 1) as nat);
        }
    }
}

impl ClipboardHistoryState {
    /// An empty window following the latest committed record.
    pub fn new() -> (s: Self)
        ensures
            s@ == HistoryView::initial(),
            s@.wf(),
    {
        let s = ClipboardHistoryState {
            selection: ClipboardSelection::LatestCommitted,
            pages: Vec::new(),
            detail_cache: Vec::new(),
            older_anchor: None,
            newer_anchor: None,
            has_unloaded_older: false,
            has_unloaded_newer: false,
            load_state: ClipboardHistoryLoadState::Idle,
            bootstrapped: false,
        };
        assert(s@.pages =~= Seq::<Seq<ClipboardRecord>>::empty());
        s
    }

    pub fn selection(&self) -> (r: ClipboardSelection)
        ensures
            r == self@.selection,
    {
        self.selection
    }

    /// The loaded records, newest first.
    pub fn records(&self) -> (r: Vec<ClipboardRecord>)
        ensures
            r@ == self@.records(),
    {
        let ghost ps = self@.pages;
        let mut out: Vec<ClipboardRecord> = Vec::new();
        let mut i: usize = 0;
        while i < self.pages.len()
            invariant
                i <= self.pages.len(),
                ps == page_views(self.pages@),
                out@ == concat_pages(ps.take(i as int)),
            decreases self.pages.len() - i,
        {
            let page = &self.pages[i];
            assert(ps[i as int] == page@);
            let mut j: usize = 0;
            while j < page.len()
                invariant
                    j <= page.len(),
                    out@ == concat_pages(ps.take(i as int)) + page@.take(j as int),
                decreases page.len() - j,
            {
                out.push(page[j].clone());
                proof {
                    assert(page@.take(j + 1) =~= page@.take(j as int).push(page@[j as int]));
                    assert(concat_pages(ps.take(i as int)) + page@.take(j + 1) =~= (concat_pages(ps.take(i as int)) + page@.take(j as int)).push(page@[j as int]));
                }
                j = j + 1;
            }
            proof {
                lemma_take_concat(ps, i as int);
                assert(page@.take(page.len() as int) =~= page@);
            }
            i = i + 1;
        }
        assert(ps.take(ps.len() as int) =~= ps);
        out
    }

    /// Number of loaded pages.
    pub fn page_count(&self) -> (r: usize)
        ensures
            r == self@.pages.len(),
    {
        self.pages.len()
    }

    pub fn load_state(&self) -> (r: ClipboardHistoryLoadState)
        ensures
            r == self@.load_state,
    {
        self.load_state
    }

    pub fn bootstrapped(&self) -> (r: bool)
        ensures
            r == self@.bootstrapped,
    {
        self.bootstrapped
    }

    pub fn older_anchor(&self) -> (r: Option<ClipboardHistoryAnchor>)
        ensures
            r == self@.older_anchor,
    {
        self.older_anchor
    }

    pub fn newer_anchor(&self) -> (r: Option<ClipboardHistoryAnchor>)
        ensures
            r == self@.newer_anchor,
    {
        self.newer_anchor
    }

    /// Newer records exist beyond the window and can be requested.
    pub fn has_newer_gap(&self) -> (r: bool)
        ensures
            r == self@.has_newer_gap(),
    {
        self.has_unloaded_newer && self.newer_anchor.is_some()
    }

    /// Older records exist beyond the window and can be requested.
    pub fn has_older_gap(&self) -> (r: bool)
        ensures
            r == self@.has_older_gap(),
    {
        self.has_unloaded_older && self.older_anchor.is_some()
    }

    pub fn can_load_older(&self) -> (r: bool)
        ensures
            r == (self@.has_older_gap() && self@.load_state == ClipboardHistoryLoadState::Idle),
    {
        self.has_older_gap() && self.load_state == ClipboardHistoryLoadState::Idle
    }

    pub fn can_load_newer(&self) -> (r: bool)
        ensures
            r == (self@.has_newer_gap() && self@.load_state == ClipboardHistoryLoadState::Idle),
    {
        self.has_newer_gap() && self.load_state == ClipboardHistoryLoadState::Idle
    }

    /// Starts a page request unless one is running; says whether it started.
    pub fn begin_load(&mut self, direction: ClipboardHistoryDirection, initial: bool) -> (started: bool)
        ensures
            started == (old(self)@.load_state == ClipboardHistoryLoadState::Idle),
            final(self)@ == (if started {
                HistoryView { load_state: HistoryView::loading_state(direction, initial), ..old(self)@ }
            } else {
                old(self)@
            }),
    {
        if self.load_state != ClipboardHistoryLoadState::Idle {
            return false;
        }
        self.load_state = if initial {
            ClipboardHistoryLoadState::LoadingInitial
        } else {
            match direction {
                ClipboardHistoryDirection::Older => ClipboardHistoryLoadState::LoadingOlder,
                ClipboardHistoryDirection::Newer => ClipboardHistoryLoadState::LoadingNewer,
            }
        };
        true
    }

    /// Takes in the page a request returned.
    pub fn finish_load(&mut self, direction: ClipboardHistoryDirection, page: ClipboardHistoryPage)
        requires
            old(self)@.wf(),
        ensures
            final(self)@ == old(self)@.finished(direction, page),
            final(self)@.wf(),
    {
        self.bootstrapped = true;
        self.load_state = ClipboardHistoryLoadState::Idle;
        match direction {
            ClipboardHistoryDirection::Older => self.append_older_page(page),
            ClipboardHistoryDirection::Newer => self.prepend_newer_page(page),
        }
    }

    /// Ends a page request that failed.
    pub fn mark_load_failed(&mut self)
        ensures
            final(self)@ == (HistoryView {
                bootstrapped: true,
                load_state: ClipboardHistoryLoadState::Idle,
                ..old(self)@
            }),
    {
        self.bootstrapped = true;
        self.load_state = ClipboardHistoryLoadState::Idle;
    }

    pub fn select_latest(&mut self)
        ensures
            final(self)@ == (HistoryView { selection: ClipboardSelection::LatestCommitted, ..old(self)@ }),
    {
        self.selection = ClipboardSelection::LatestCommitted;
    }

    pub fn select_history(&mut self, event_id: EventId)
        ensures
            final(self)@ == (HistoryView { selection: ClipboardSelection::Pinned(event_id), ..old(self)@ }),
    {
        self.selection = ClipboardSelection::Pinned(event_id);
    }

    /// Whether the record `event_id` can be shown without a request.
    pub fn has_cached_record(&self, event_id: EventId) -> (r: bool)
        ensures
            r == self@.has_cached(event_id),
    {
        vec_has_event(&self.detail_cache, event_id) || self.contains_record(event_id)
    }

    /// The record the detail panel shows.
    pub fn selected_record(&self, latest_record: Option<&ClipboardRecord>) -> (r: Option<ClipboardRecord>)
        requires
            self@.wf(),
        ensures
            r == self@.selected_record(opt_deref(latest_record)),
    {
        match self.selection {
            ClipboardSelection::LatestCommitted => match latest_record {
                Some(latest) => Some(latest.clone()),
                None => {
                    if self.pages.len() > 0 && self.pages[0].len() > 0 {
                        proof {
                            lemma_concat_pages_first(self@.pages);
                        }
                        Some(self.pages[0][0].clone())
                    } else {
                        proof {
                            if self@.pages.len() > 0 {
                                assert(self@.pages[0].len() > 0);
                            }
                            lemma_records_empty_when_pages_empty(self@.pages);
                        }
                        None
                    }
                },
            },
            ClipboardSelection::Pinned(event_id) => {
                match vec_first_with_event(&self.detail_cache, event_id) {
                    Some(r) => Some(r),
                    None => {
                        match latest_record {
                            Some(latest) => {
                                if latest.event_id == event_id {
                                    return Some(latest.clone());
                                }
                            },
                            None => {},
                        }
                        self.first_loaded_with_event(event_id)
                    },
                }
            },
        }
    }

    fn first_loaded_with_event(&self, event_id: EventId) -> (r: Option<ClipboardRecord>)
        ensures
            r == first_with_event(self@.records(), event_id),
    {
        let records = self.records();
        vec_first_with_event(&records, event_id)
    }

    /// Stores a record fetched for the detail panel.
    pub fn cache_record(&mut self, record: ClipboardRecord)
        requires
            old(self)@.wf(),
        ensures
            final(self)@ == old(self)@.with_cached(record),
            final(self)@.wf(),
    {
        self.insert_detail_cache(record);
    }

    /// Moves a record (the latest committed one) to the front of the window,
    /// dropping any other copy of it.
    pub fn promote_record(&mut self, record: ClipboardRecord)
        requires
            old(self)@.wf(),
        ensures
            final(self)@ == old(self)@.promoted(record),
            final(self)@.wf(),
            final(self)@.records() == seq![record] + without_event(old(self)@.records(), record.event_id),
    {
        let ghost before = self@;
        proof {
            lemma_strip_event(before.pages, record.event_id);
        }
        self.remove_record(record.event_id);
        let ghost stripped = self@.pages;
        if self.pages.len() > 0 {
            let mut first = self.pages.remove(0);
            first.insert(0, record);
            proof {
                assert(first@ =~= seq![record] + stripped[0]);
            }
            self.pages.insert(0, first);
            proof {
                assert(self@.pages =~= stripped.update(0, seq![record] + stripped[0]));
                lemma_concat_pages_first(stripped);
                lemma_concat_pages_first(self@.pages);
                assert(self@.pages.drop_first() =~= stripped.drop_first());
                assert(seq![record] + stripped[0] + concat_pages(stripped.drop_first()) =~= seq![record] + (stripped[0] + concat_pages(stripped.drop_first())));
            }
        } else {
            let single = vec![record];
            proof {
                assert(single@ =~= seq![record]);
            }
            self.pages.push(single);
            proof {
                assert(self@.pages =~= seq![seq![record]]);
                lemma_concat_pages_first(self@.pages);
                assert(self@.pages.drop_first() =~= Seq::<Seq<ClipboardRecord>>::empty());
                lemma_records_empty_when_pages_empty(stripped);
                assert(seq![record] + concat_pages(Seq::<Seq<ClipboardRecord>>::empty()) =~= seq![record]);
                assert(seq![record] + without_event(before.records(), record.event_id) =~= seq![record]);
            }
        }
        proof {
            assert(self@ == before.promoted(record));
        }
    }

    fn not_loaded_records(&self, records: &Vec<ClipboardRecord>) -> (r: Vec<ClipboardRecord>)
        ensures
            r@ == not_loaded(records@, self@.records()),
    {
        let mut out: Vec<ClipboardRecord> = Vec::new();
        let mut j: usize = 0;
        while j < records.len()
            invariant
                j <= records.len(),
                out@ == not_loaded(records@.take(j as int), self@.records()),
            decreases records.len() - j,
        {
            proof {
                assert(records@.take(j + 1).drop_last() =~= records@.take(j as int));
                assert(records@.take(j + 1).last() == records@[j as int]);
            }
            if !self.contains_record(records[j].event_id) {
                out.push(records[j].clone());
            }
            j = j + 1;
        }
        assert(records@.take(records.len() as int) =~= records@);
        out
    }

    fn append_older_page(&mut self, page: ClipboardHistoryPage)
        requires
            old(self)@.wf(),
        ensures
            final(self)@ == old(self)@.with_older_page(page),
            final(self)@.wf(),
    {
        let ghost before = self@;
        let fresh = self.not_loaded_records(&page.records);
        self.has_unloaded_older = page.has_more;
        self.older_anchor = if page.has_more { page.next_anchor } else { None };
        if fresh.len() == 0 {
            return;
        }
        let ghost fresh_view = fresh@;
        self.pages.push(fresh);
        let ghost grown = self@.pages;
        proof {
            assert(grown =~= before.pages.push(fresh_view));
        }
        // The window held at most MAX_HISTORY_PAGES pages, so one eviction restores the bound.
        if self.pages.len() > MAX_HISTORY_PAGES {
            let evicted = self.pages.remove(0);
            proof {
                assert(self@.pages =~= grown.drop_first());
                assert(evicted@ == grown[0]);
            }
            self.retain_selected_record(&evicted);
            self.has_unloaded_newer = true;
            self.newer_anchor = self.current_newest_anchor();
        }
        if !self.has_unloaded_newer {
            self.newer_anchor = None;
        }
    }

    fn prepend_newer_page(&mut self, page: ClipboardHistoryPage)
        requires
            old(self)@.wf(),
        ensures
            final(self)@ == old(self)@.with_newer_page(page),
            final(self)@.wf(),
    {
        let ghost before = self@;
        let fresh = self.not_loaded_records(&page.records);
        self.has_unloaded_newer = page.has_more;
        self.newer_anchor = if page.has_more { page.next_anchor } else { None };
        if fresh.len() == 0 {
            return;
        }
        let ghost fresh_view = fresh@;
        self.pages.insert(0, fresh);
        let ghost grown = self@.pages;
        proof {
            assert(grown =~= seq![fresh_view] + before.pages);
        }
        // The window held at most MAX_HISTORY_PAGES pages, so one eviction restores the bound.
        if self.pages.len() > MAX_HISTORY_PAGES {
            let evicted = self.pages.pop().unwrap();
            proof {
                assert(self@.pages =~= grown.drop_last());
                assert(evicted@ == grown.last());
            }
            self.retain_selected_record(&evicted);
            self.has_unloaded_older = true;
            self.older_anchor = self.current_oldest_anchor();
        }
        if !self.has_unloaded_older {
            self.older_anchor = None;
        }
    }

    /// Whether a loaded record carries `event_id`.
    pub fn contains_record(&self, event_id: EventId) -> (r: bool)
        ensures
            r == has_event(self@.records(), event_id),
    {
        let ghost ps = self@.pages;
        let mut i: usize = 0;
        while i < self.pages.len()
            invariant
                i <= self.pages.len(),
                ps == page_views(self.pages@),
                !has_event(concat_pages(ps.take(i as int)), event_id),
            decreases self.pages.len() - i,
        {
            proof {
                lemma_take_concat(ps, i as int);
                lemma_has_event_concat(concat_pages(ps.take(i as int)), ps[i as int], event_id);
            }
            if vec_has_event(&self.pages[i], event_id) {
                proof {
                    lemma_records_take_has(ps, i as int + 1, event_id);
                }
                return true;
            }
            i = i + 1;
        }
        assert(ps.take(ps.len() as int) =~= ps);
        false
    }

    fn remove_record(&mut self, event_id: EventId)
        requires
            old(self)@.wf(),
        ensures
            final(self)@ == (HistoryView { pages: strip_event(old(self)@.pages, event_id), ..old(self)@ }),
            final(self)@.wf(),
    {
        let ghost ps = self@.pages;
        let mut kept: Vec<Vec<ClipboardRecord>> = Vec::new();
        let mut i: usize = 0;
        while i < self.pages.len()
            invariant
                i <= self.pages.len(),
                ps == page_views(self.pages@),
                page_views(kept@) == strip_event(ps.take(i as int), event_id),
            decreases self.pages.len() - i,
        {
            let filtered = vec_without_event(&self.pages[i], event_id);
            proof {
                assert(ps.take(i + 1).drop_last() =~= ps.take(i as int));
                assert(ps.take(i + 1).last() == ps[i as int]);
            }
            if filtered.len() > 0 {
                let ghost kept_before = kept@;
                let ghost fv = filtered@;
                kept.push(filtered);
                proof {
                    assert(page_views(kept@) =~= page_views(kept_before).push(fv));
                }
            }
            i = i + 1;
        }
        assert(ps.take(ps.len() as int) =~= ps);
        self.pages = kept;
        proof {
            lemma_strip_event(ps, event_id);
        }
    }

    fn current_newest_anchor(&self) -> (r: Option<ClipboardHistoryAnchor>)
        ensures
            r == newest_anchor(self@.pages),
    {
        if self.pages.len() > 0 && self.pages[0].len() > 0 {
            let record = &self.pages[0][0];
            Some(ClipboardHistoryAnchor { created_at_ms: record.created_at_ms, event_id: record.event_id })
        } else {
            None
        }
    }

    fn current_oldest_anchor(&self) -> (r: Option<ClipboardHistoryAnchor>)
        ensures
            r == oldest_anchor(self@.pages),
    {
        let n = self.pages.len();
        if n > 0 && self.pages[n - 1].len() > 0 {
            let m = self.pages[n - 1].len();
            let record = &self.pages[n - 1][m - 1];
            Some(ClipboardHistoryAnchor { created_at_ms: record.created_at_ms, event_id: record.event_id })
        } else {
            None
        }
    }

    fn retain_selected_record(&mut self, records: &Vec<ClipboardRecord>)
        requires
            old(self)@.wf(),
        ensures
            final(self)@ == old(self)@.retaining_selected(records@),
            final(self)@.wf(),
    {
        let selected_id = match self.selection {
            ClipboardSelection::Pinned(id) => id,
            ClipboardSelection::LatestCommitted => {
                return;
            },
        };
        match vec_first_with_event(records, selected_id) {
            Some(record) => self.insert_detail_cache(record),
            None => {},
        }
    }

    fn insert_detail_cache(&mut self, record: ClipboardRecord)
        requires
            old(self)@.wf(),
        ensures
            final(self)@ == old(self)@.with_cached(record),
            final(self)@.wf(),
    {
        proof {
            lemma_with_cached_facts(self@, record);
        }
        let mut next = vec_without_event(&self.detail_cache, record.event_id);
        next.push(record);
        self.detail_cache = next;
        self.prune_detail_cache();
    }

    fn prune_detail_cache(&mut self)
        ensures
            final(self)@ == (HistoryView {
                cache: pruned(old(self)@.cache, old(self)@.selection.pinned_id()),
                ..old(self)@
            }),
    {
        let pinned = match self.selection {
            ClipboardSelection::Pinned(event_id) => Some(event_id),
            ClipboardSelection::LatestCommitted => None,
        };
        let ghost initial_cache = self.detail_cache@;
        let ghost before = self@;
        if self.detail_cache.len() <= DETAIL_CACHE_LIMIT {
            return;
        }
        while self.detail_cache.len() > DETAIL_CACHE_LIMIT
            invariant_except_break
                self.detail_cache@.len() >= DETAIL_CACHE_LIMIT,
                pruned(initial_cache, pinned) == (if self.detail_cache@.len() == DETAIL_CACHE_LIMIT {
                    self.detail_cache@
                } else {
                    prune_front(self.detail_cache@, pinned, (self.detail_cache@.len() - DETAIL_CACHE_LIMIT) as nat)
                }),
            invariant
                pinned == before.selection.pinned_id(),
                initial_cache == before.cache,
                initial_cache.len() > DETAIL_CACHE_LIMIT,
                self@ == (HistoryView { cache: self.detail_cache@, ..before }),
            ensures
                self.detail_cache@ == pruned(initial_cache, pinned),
            decreases self.detail_cache.len(),
        {
            let ghost current = self.detail_cache@;
            let candidate = self.detail_cache.remove(0);
            let is_pinned = match pinned {
                Some(event_id) => event_id == candidate.event_id,
                None => false,
            };
            if is_pinned {
                self.detail_cache.push(candidate);
                proof {
                    assert(self.detail_cache@ =~= current.drop_first().push(current[0]));
                }
                break;
            }
            proof {
                assert(candidate == current[0]);
                assert(pinned != Some(current[0].event_id));
                assert(prune_front(current, pinned, (current.len() - DETAIL_CACHE_LIMIT) as nat)
                    == prune_front(current.drop_first(), pinned, (current.len() - 1 - DETAIL_CACHE_LIMIT) as nat));
                assert(self.detail_cache@ =~= current.drop_first());
            }
        }
    }
}

proof fn lemma_records_empty_when_pages_empty(ps: Seq<Seq<ClipboardRecord>>)
    requires
        ps.len() == 0,
    ensures
        concat_pages(ps) =~= Seq::<ClipboardRecord>::empty(),
{
}

proof fn lemma_records_take_has(ps: Seq<Seq<ClipboardRecord>>, i: int, id: EventId)
    requires
        0 < i <= ps.len(),
        has_event(ps[i - 1], id),
    ensures
        has_event(concat_pages(ps), id),
    decreases ps.len() - i,
{
    if i == ps.len() {
        assert(ps.last() == ps[i - 1]);
        lemma_has_event_concat(concat_pages(ps.drop_last()), ps.last(), id);
    } else {
        assert(ps.drop_last()[i - 1] == ps[i - 1]);
        lemma_records_take_has(ps.drop_last(), i, id);
        lemma_has_event_concat(concat_pages(ps.drop_last()), ps.last(), id);
    }
}

} // verus!

verus! {

proof fn lemma_retaining_selected_facts(v: HistoryView, evicted: Seq<ClipboardRecord>)
    requires
        v.wf(),
    ensures
        v.retaining_selected(evicted).wf(),
        v.retaining_selected(evicted).pages == v.pages,
        v.retaining_selected(evicted).selection == v.selection,
        forall|id: EventId| v.selection == ClipboardSelection::Pinned(id) && #[trigger] has_event(v.cache, id)
            ==> has_event(v.retaining_selected(evicted).cache, id),
        forall|id: EventId| v.selection == ClipboardSelection::Pinned(id) && #[trigger] has_event(evicted, id)
            ==> has_event(v.retaining_selected(evicted).cache, id),
{
    match v.selection {
        ClipboardSelection::Pinned(id) => {
            lemma_first_with_event_found(evicted, id);
            match first_with_event(evicted, id) {
                Some(r) => {
                    lemma_with_cached_facts(v, r);
                },
                None => {},
            }
        },
        ClipboardSelection::LatestCommitted => {},
    }
}

proof fn lemma_older_page_facts(v: HistoryView, page: ClipboardHistoryPage)
    requires
        v.wf(),
    ensures
        v.with_older_page(page).wf(),
        v.with_older_page(page).selection == v.selection,
        forall|id: EventId| v.selection == ClipboardSelection::Pinned(id) && #[trigger] v.has_cached(id)
            ==> v.with_older_page(page).has_cached(id),
{
    let fresh = not_loaded(page.records@, v.records());
    let base = HistoryView {
        has_unloaded_older: page.has_more,
        older_anchor: if page.has_more { page.next_anchor } else { None },
        ..v
    };
    if fresh.len() > 0 {
        let grown = base.pages.push(fresh);
        assert(grown.drop_last() =~= base.pages);
        assert(grown.last() == fresh);
        assert(concat_pages(grown) == concat_pages(base.pages) + fresh);
        assert forall|id: EventId| #[trigger] has_event(v.records(), id) implies has_event(concat_pages(grown), id) by {
            lemma_has_event_concat(concat_pages(base.pages), fresh, id);
        }
        if grown.len() > MAX_HISTORY_PAGES {
            let kept = grown.drop_first();
            let mid = HistoryView { pages: kept, ..base };
            assert forall|i: int| 0 <= i < kept.len() implies (#[trigger] kept[i]).len() > 0 by {
                assert(kept[i] == grown[i + 1]);
            }
            assert(mid.wf());
            lemma_retaining_selected_facts(mid, grown[0]);
            lemma_concat_pages_first(grown);
            assert forall|id: EventId| v.selection == ClipboardSelection::Pinned(id) && #[trigger] v.has_cached(id)
                implies v.with_older_page(page).has_cached(id) by {
                if has_event(v.records(), id) {
                    lemma_has_event_concat(grown[0], concat_pages(kept), id);
                }
            }
        } else {
            assert forall|i: int| 0 <= i < grown.len() implies (#[trigger] grown[i]).len() > 0 by {
                if i < base.pages.len() {
                    assert(grown[i] == base.pages[i]);
                }
            }
        }
    }
}

proof fn lemma_newer_page_facts(v: HistoryView, page: ClipboardHistoryPage)
    requires
        v.wf(),
    ensures
        v.with_newer_page(page).wf(),
        v.with_newer_page(page).selection == v.selection,
        forall|id: EventId| v.selection == ClipboardSelection::Pinned(id) && #[trigger] v.has_cached(id)
            ==> v.with_newer_page(page).has_cached(id),
{
    let fresh = not_loaded(page.records@, v.records());
    let base = HistoryView {
        has_unloaded_newer: page.has_more,
        newer_anchor: if page.has_more { page.next_anchor } else { None },
        ..v
    };
    if fresh.len() > 0 {
        let grown = seq![fresh] + base.pages;
        lemma_concat_pages_prepend(fresh, base.pages);
        assert forall|id: EventId| #[trigger] has_event(v.records(), id) implies has_event(concat_pages(grown), id) by {
            lemma_has_event_concat(fresh, concat_pages(base.pages), id);
        }
        if grown.len() > MAX_HISTORY_PAGES {
            let kept = grown.drop_last();
            let mid = HistoryView { pages: kept, ..base };
            assert forall|i: int| 0 <= i < kept.len() implies (#[trigger] kept[i]).len() > 0 by {
                assert(kept[i] == grown[i]);
                if i > 0 {
                    assert(grown[i] == base.pages[i - 1]);
                }
            }
            assert(mid.wf());
            lemma_retaining_selected_facts(mid, grown.last());
            assert(concat_pages(grown) == concat_pages(kept) + grown.last());
            assert forall|id: EventId| v.selection == ClipboardSelection::Pinned(id) && #[trigger] v.has_cached(id)
                implies v.with_newer_page(page).has_cached(id) by {
                if has_event(v.records(), id) {
                    lemma_has_event_concat(concat_pages(kept), grown.last(), id);
                }
            }
        } else {
            assert forall|i: int| 0 <= i < grown.len() implies (#[trigger] grown[i]).len() > 0 by {
                if i > 0 {
                    assert(grown[i] == base.pages[i - 1]);
                }
            }
        }
    }
}

/// Loading a page, in either direction, keeps the window within
/// `MAX_HISTORY_PAGES` non-empty pages and the detail cache free of
/// duplicate events.
pub proof fn law_loading_keeps_window_bounded(
    v: HistoryView,
    direction: ClipboardHistoryDirection,
    page: ClipboardHistoryPage,
)
    requires
        v.wf(),
    ensures
        v.finished(direction, page).wf(),
        v.finished(direction, page).pages.len() <= MAX_HISTORY_PAGES,
{
    let ready = HistoryView { bootstrapped: true, load_state: ClipboardHistoryLoadState::Idle, ..v };
    match direction {
        ClipboardHistoryDirection::Older => lemma_older_page_facts(ready, page),
        ClipboardHistoryDirection::Newer => lemma_newer_page_facts(ready, page),
    }
}

/// A pinned record that can be shown without a request stays so when pages
/// are loaded, whichever page the window evicts.
pub proof fn law_pinned_record_survives_loading(
    v: HistoryView,
    direction: ClipboardHistoryDirection,
    page: ClipboardHistoryPage,
    id: EventId,
)
    requires
        v.wf(),
        v.selection == ClipboardSelection::Pinned(id),
        v.has_cached(id),
    ensures
        v.finished(direction, page).has_cached(id),
{
    let ready = HistoryView { bootstrapped: true, load_state: ClipboardHistoryLoadState::Idle, ..v };
    assert(ready.has_cached(id));
    match direction {
        ClipboardHistoryDirection::Older => lemma_older_page_facts(ready, page),
        ClipboardHistoryDirection::Newer => lemma_newer_page_facts(ready, page),
    }
}

/// Storing a record in the detail cache never drops the pinned record, and
/// the stored record can be shown afterwards.
pub proof fn law_caching_keeps_pinned_record(v: HistoryView, r: ClipboardRecord, id: EventId)
    requires
        v.wf(),
        v.selection == ClipboardSelection::Pinned(id),
        v.has_cached(id),
    ensures
        v.with_cached(r).wf(),
        v.with_cached(r).has_cached(id),
        v.with_cached(r).has_cached(r.event_id),
{
    lemma_with_cached_facts(v, r);
}

/// Promoting a record puts it first and removes every other copy of its
/// event; the rest of the history keeps its order.
pub proof fn law_promote_moves_record_to_front(v: HistoryView, r: ClipboardRecord)
    requires
        v.wf(),
    ensures
        v.promoted(r).wf(),
        v.promoted(r).records() == seq![r] + without_event(v.records(), r.event_id),
        v.promoted(r).records()[0] == r,
{
    let s = strip_event(v.pages, r.event_id);
    lemma_strip_event(v.pages, r.event_id);
    let p = v.promoted(r).pages;
    if s.len() == 0 {
        assert(p == seq![seq![r]]);
        lemma_concat_pages_first(p);
        assert(p.drop_first() =~= Seq::<Seq<ClipboardRecord>>::empty());
        assert(concat_pages(s) =~= Seq::<ClipboardRecord>::empty());
        assert(seq![r] + concat_pages(p.drop_first()) =~= seq![r]);
        assert(seq![r] + without_event(v.records(), r.event_id) =~= seq![r]);
    } else {
        lemma_concat_pages_first(s);
        lemma_concat_pages_first(p);
        assert(p.drop_first() =~= s.drop_first());
        assert(seq![r] + s[0] + concat_pages(s.drop_first()) =~= seq![r] + (s[0] + concat_pages(s.drop_first())));
        assert forall|i: int| 0 <= i < p.len() implies (#[trigger] p[i]).len() > 0 by {
            if i > 0 {
                assert(p[i] == s[i]);
            }
        }
    }
    assert((seq![r] + without_event(v.records(), r.event_id))[0] == r);
}

/// When a pinned record can be shown without a request, the detail panel
/// shows a record of that event.
pub proof fn law_pinned_selection_shows_its_record(v: HistoryView, latest: Option<ClipboardRecord>, id: EventId)
    requires
        v.selection == ClipboardSelection::Pinned(id),
        v.has_cached(id),
    ensures
        v.selected_record(latest) matches Some(r) && r.event_id == id,
{
    lemma_first_with_event_found(v.cache, id);
    lemma_first_with_event_found(v.records(), id);
}

/// Loading an older page into a full window evicts its newest page and
/// leaves a gap of newer records that can be loaded again.
pub proof fn law_full_window_opens_newer_gap(v: HistoryView, page: ClipboardHistoryPage)
    requires
        v.wf(),
        v.pages.len() == MAX_HISTORY_PAGES,
        not_loaded(page.records@, v.records()).len() > 0,
    ensures
        v.finished(ClipboardHistoryDirection::Older, page).has_newer_gap(),
        v.finished(ClipboardHistoryDirection::Older, page).pages.len() == MAX_HISTORY_PAGES,
{
    let ready = HistoryView { bootstrapped: true, load_state: ClipboardHistoryLoadState::Idle, ..v };
    let fresh = not_loaded(page.records@, v.records());
    let grown = v.pages.push(fresh);
    let kept = grown.drop_first();
    assert(kept[0] == grown[1]);
    assert(kept[0] == v.pages[1]);
    let base = HistoryView {
        has_unloaded_older: page.has_more,
        older_anchor: if page.has_more { page.next_anchor } else { None },
        ..ready
    };
    lemma_retaining_selected_facts(HistoryView { pages: kept, ..base }, grown[0]);
}

/// Loading a page never shows a record twice: the records already shown
/// are skipped, and an evicted page only removes records.
pub proof fn law_loading_shows_each_record_once(
    v: HistoryView,
    direction: ClipboardHistoryDirection,
    page: ClipboardHistoryPage,
)
    requires
        distinct_events(v.records()),
        distinct_events(page.records@),
    ensures
        distinct_events(v.finished(direction, page).records()),
{
    let ready = HistoryView { bootstrapped: true, load_state: ClipboardHistoryLoadState::Idle, ..v };
    let fresh = not_loaded(page.records@, ready.records());
    lemma_not_loaded_distinct(page.records@, ready.records());
    lemma_not_loaded_facts(page.records@, ready.records());
    if fresh.len() > 0 {
        match direction {
            ClipboardHistoryDirection::Older => {
                let grown = ready.pages.push(fresh);
                lemma_concat_pages_push(ready.pages, fresh);
                lemma_distinct_concat(ready.records(), fresh);
                if grown.len() > MAX_HISTORY_PAGES {
                    lemma_concat_pages_first(grown);
                    lemma_distinct_concat_parts(grown[0], concat_pages(grown.drop_first()));
                }
            },
            ClipboardHistoryDirection::Newer => {
                let grown = seq![fresh] + ready.pages;
                lemma_concat_pages_prepend(fresh, ready.pages);
                assert forall|x: EventId| #[trigger] has_event(ready.records(), x) implies !has_event(fresh, x) by {
                }
                lemma_distinct_concat(fresh, ready.records());
                if grown.len() > MAX_HISTORY_PAGES {
                    lemma_distinct_concat_parts(concat_pages(grown.drop_last()), grown.last());
                }
            },
        }
    }
}

/// Moving a record to the front of the window leaves it there once.
pub proof fn law_promote_shows_record_once(v: HistoryView, r: ClipboardRecord)
    requires
        distinct_events(v.records()),
    ensures
        distinct_events(v.promoted(r).records()),
{
    let s = strip_event(v.pages, r.event_id);
    lemma_strip_event(v.pages, r.event_id);
    lemma_without_event_facts(v.records(), r.event_id);
    let rest = without_event(v.records(), r.event_id);
    assert(distinct_events(seq![r]));
    assert forall|x: EventId| #[trigger] has_event(rest, x) implies !has_event(seq![r], x) by {
        if has_event(seq![r], x) {
            let k = choose|k: int| 0 <= k < 1 && (#[trigger] seq![r][k]).event_id == x;
            assert(seq![r][k] == r);
        }
    }
    lemma_distinct_concat(seq![r], rest);
    if s.len() == 0 {
        let ps = seq![seq![r]];
        lemma_concat_pages_push(Seq::<Seq<ClipboardRecord>>::empty(), seq![r]);
        assert(Seq::<Seq<ClipboardRecord>>::empty().push(seq![r]) =~= ps);
        assert(concat_pages(Seq::<Seq<ClipboardRecord>>::empty()) =~= Seq::<ClipboardRecord>::empty());
        assert(Seq::<ClipboardRecord>::empty() + seq![r] =~= seq![r]);
    } else {
        let ps = s.update(0, seq![r] + s[0]);
        lemma_concat_pages_first(s);
        lemma_concat_pages_first(ps);
        assert(ps.drop_first() =~= s.drop_first());
        assert(concat_pages(ps) =~= seq![r] + concat_pages(s));
    }
}

proof fn lemma_contains_concat(a: Seq<ClipboardRecord>, b: Seq<ClipboardRecord>, x: ClipboardRecord)
    ensures
        (a + b).contains(x) == (a.contains(x) || b.contains(x)),
{
    if (a + b).contains(x) {
        let k = choose|k: int| 0 <= k < (a + b).len() && (a + b)[k] == x;
        if k < a.len() {
            assert(a[k] == x);
        } else {
            assert(b[k - a.len()] == x);
        }
    }
    if a.contains(x) {
        let k = choose|k: int| 0 <= k < a.len() && a[k] == x;
        assert((a + b)[k] == x);
    }
    if b.contains(x) {
        let k = choose|k: int| 0 <= k < b.len() && b[k] == x;
        assert((a + b)[k + a.len()] == x);
    }
}

proof fn lemma_not_loaded_within(s: Seq<ClipboardRecord>, loaded: Seq<ClipboardRecord>)
    ensures
        forall|x: ClipboardRecord| #[trigger] not_loaded(s, loaded).contains(x) ==> s.contains(x),
    decreases s.len(),
{
    if s.len() > 0 {
        let rest = s.drop_last();
        lemma_not_loaded_within(rest, loaded);
        let w = not_loaded(rest, loaded);
        assert forall|x: ClipboardRecord| #[trigger] not_loaded(s, loaded).contains(x) implies s.contains(x) by {
            if w.contains(x) {
                let k = choose|k: int| 0 <= k < rest.len() && rest[k] == x;
                assert(s[k] == x);
            } else {
                let n = not_loaded(s, loaded);
                let k = choose|k: int| 0 <= k < n.len() && n[k] == x;
                assert(!has_event(loaded, s.last().event_id));
                assert(n == w.push(s.last()));
                if k < w.len() {
                    assert(w[k] == x);
                }
                assert(s[s.len() - 1] == x);
            }
        }
    }
}

/// A finished load shows only records that were shown before or that the
/// page brought, and leaves the history bootstrapped and idle.
pub proof fn law_loading_shows_only_known_records(
    v: HistoryView,
    direction: ClipboardHistoryDirection,
    page: ClipboardHistoryPage,
)
    ensures
        forall|x: ClipboardRecord| #[trigger] v.finished(direction, page).records().contains(x)
            ==> v.records().contains(x) || page.records@.contains(x),
        v.finished(direction, page).bootstrapped,
        v.finished(direction, page).load_state == ClipboardHistoryLoadState::Idle,
{
    let ready = HistoryView { bootstrapped: true, load_state: ClipboardHistoryLoadState::Idle, ..v };
    let fresh = not_loaded(page.records@, ready.records());
    lemma_not_loaded_within(page.records@, ready.records());
    let after = v.finished(direction, page);
    if fresh.len() > 0 {
        match direction {
            ClipboardHistoryDirection::Older => {
                let grown = ready.pages.push(fresh);
                lemma_concat_pages_push(ready.pages, fresh);
                assert forall|x: ClipboardRecord| #[trigger] concat_pages(grown).contains(x)
                    implies v.records().contains(x) || page.records@.contains(x) by {
                    lemma_contains_concat(ready.records(), fresh, x);
                }
                if grown.len() > MAX_HISTORY_PAGES {
                    lemma_concat_pages_first(grown);
                    assert(after.pages == grown.drop_first());
                    assert forall|x: ClipboardRecord| #[trigger] after.records().contains(x)
                        implies v.records().contains(x) || page.records@.contains(x) by {
                        lemma_contains_concat(grown[0], concat_pages(grown.drop_first()), x);
                    }
                } else {
                    assert(after.pages == grown);
                }
            },
            ClipboardHistoryDirection::Newer => {
                let grown = seq![fresh] + ready.pages;
                lemma_concat_pages_prepend(fresh, ready.pages);
                assert forall|x: ClipboardRecord| #[trigger] concat_pages(grown).contains(x)
                    implies v.records().contains(x) || page.records@.contains(x) by {
                    lemma_contains_concat(fresh, ready.records(), x);
                }
                if grown.len() > MAX_HISTORY_PAGES {
                    assert(concat_pages(grown) == concat_pages(grown.drop_last()) + grown.last());
                    assert(after.pages == grown.drop_last());
                    assert forall|x: ClipboardRecord| #[trigger] after.records().contains(x)
                        implies v.records().contains(x) || page.records@.contains(x) by {
                        lemma_contains_concat(concat_pages(grown.drop_last()), grown.last(), x);
                    }
                } else {
                    assert(after.pages == grown);
                }
            },
        }
    }
}

proof fn lemma_prune_front_within(cache: Seq<ClipboardRecord>, pinned: Option<EventId>, excess: nat)
    ensures
        forall|x: ClipboardRecord| #[trigger] prune_front(cache, pinned, excess).contains(x) ==> cache.contains(x),
    decreases excess,
{
    if excess > 0 && cache.len() > 0 {
        let rest = cache.drop_first();
        if pinned == Some(cache[0].event_id) {
            let moved = rest.push(cache[0]);
            assert forall|x: ClipboardRecord| #[trigger] moved.contains(x) implies cache.contains(x) by {
                let k = choose|k: int| 0 <= k < moved.len() && moved[k] == x;
                if k < rest.len() {
                    assert(cache[k + 1] == x);
                } else {
                    assert(cache[0] == x);
                }
            }
        } else {
            lemma_prune_front_within(rest, pinned, (excess - 1) as nat);
            assert forall|x: ClipboardRecord| #[trigger] prune_front(cache, pinned, excess).contains(x)
                implies cache.contains(x) by {
                assert(prune_front(cache, pinned, excess) == prune_front(rest, pinned, (excess - 1) as nat));
                let k = choose|k: int| 0 <= k < rest.len() && rest[k] == x;
                assert(cache[k + 1] == x);
            }
        }
    }
}

proof fn lemma_prune_front_unpinned_len(cache: Seq<ClipboardRecord>, excess: nat)
    requires
        excess <= cache.len(),
    ensures
        prune_front(cache, None, excess).len() == cache.len() - excess,
    decreases excess,
{
    if excess > 0 {
        lemma_prune_front_unpinned_len(cache.drop_first(), (excess - 1) as nat);
    }
}

/// Storing a record in the detail cache makes its event available; when that
/// event is the pinned selection, the detail panel shows the stored record
/// whatever the latest record is; and while the latest record is selected, a
/// cache within `DETAIL_CACHE_LIMIT` records stays within it.
pub proof fn law_caching_shows_record_and_bounds_cache(v: HistoryView, r: ClipboardRecord)
    requires
        v.wf(),
    ensures
        v.with_cached(r).has_cached(r.event_id),
        v.selection == ClipboardSelection::Pinned(r.event_id) ==> forall|latest: Option<ClipboardRecord>|
            #[trigger] v.with_cached(r).selected_record(latest) == Some(r),
        v.selection == ClipboardSelection::LatestCommitted && v.cache.len() <= DETAIL_CACHE_LIMIT
            ==> v.with_cached(r).cache.len() <= DETAIL_CACHE_LIMIT,
{
    lemma_with_cached_facts(v, r);
    lemma_without_event_facts(v.cache, r.event_id);
    let w = without_event(v.cache, r.event_id);
    let c = w.push(r);
    let after = v.with_cached(r);
    let pinned = v.selection.pinned_id();
    if v.selection == ClipboardSelection::Pinned(r.event_id) {
        if c.len() > DETAIL_CACHE_LIMIT {
            lemma_prune_front_within(c, pinned, (c.len() - DETAIL_CACHE_LIMIT) as nat);
        }
        lemma_first_with_event_found(after.cache, r.event_id);
        let found = first_with_event(after.cache, r.event_id)->0;
        assert(c.contains(found));
        let k = choose|k: int| 0 <= k < c.len() && c[k] == found;
        if k < w.len() {
            assert(w[k] == found);
            assert(has_event(w, r.event_id));
        }
        assert(found == r);
    }
    if v.selection == ClipboardSelection::LatestCommitted && v.cache.len() <= DETAIL_CACHE_LIMIT {
        if c.len() > DETAIL_CACHE_LIMIT {
            lemma_prune_front_unpinned_len(c, (c.len() - DETAIL_CACHE_LIMIT) as nat);
        }
    }
}

/// A loaded page decides the gap on its own side of the window: after a
/// newer page, more newer records remain to load exactly when the page says
/// it has more, from the anchor it carries; likewise for an older page and
/// older records. Eviction only ever opens the gap on the other side.
pub proof fn law_loaded_page_sets_gap_on_its_side(
    v: HistoryView,
    direction: ClipboardHistoryDirection,
    page: ClipboardHistoryPage,
)
    ensures
        direction == ClipboardHistoryDirection::Newer ==> {
            let after = v.finished(direction, page);
            &&& after.has_unloaded_newer == page.has_more
            &&& after.newer_anchor == (if page.has_more { page.next_anchor } else { None })
            &&& after.has_newer_gap() == (page.has_more && page.next_anchor is Some)
        },
        direction == ClipboardHistoryDirection::Older ==> {
            let after = v.finished(direction, page);
            &&& after.has_unloaded_older == page.has_more
            &&& after.older_anchor == (if page.has_more { page.next_anchor } else { None })
            &&& after.has_older_gap() == (page.has_more && page.next_anchor is Some)
        },
{
    let ready = HistoryView { bootstrapped: true, load_state: ClipboardHistoryLoadState::Idle, ..v };
    let fresh = not_loaded(page.records@, ready.records());
    match direction {
        ClipboardHistoryDirection::Newer => {
            let base = HistoryView {
                has_unloaded_newer: page.has_more,
                newer_anchor: if page.has_more { page.next_anchor } else { None },
                ..ready
            };
            let grown = seq![fresh] + base.pages;
            if fresh.len() > 0 && grown.len() > MAX_HISTORY_PAGES {
                let mid = HistoryView { pages: grown.drop_last(), ..base };
                let after = mid.retaining_selected(grown.last());
                assert(after.has_unloaded_newer == base.has_unloaded_newer);
                assert(after.newer_anchor == base.newer_anchor);
            }
        },
        ClipboardHistoryDirection::Older => {
            let base = HistoryView {
                has_unloaded_older: page.has_more,
                older_anchor: if page.has_more { page.next_anchor } else { None },
                ..ready
            };
            let grown = base.pages.push(fresh);
            if fresh.len() > 0 && grown.len() > MAX_HISTORY_PAGES {
                let mid = HistoryView { pages: grown.drop_first(), ..base };
                let after = mid.retaining_selected(grown[0]);
                assert(after.has_unloaded_older == base.has_unloaded_older);
                assert(after.older_anchor == base.older_anchor);
            }
        },
    }
}

} // verus!
