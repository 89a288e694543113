//! Committed clipboard records and the sequence facts the clipboard page
//! state is specified with.
use vstd::prelude::*;

use crate::ids::{EventId, SessionId};

verus! {

/// Where a committed clipboard record came from.
#[derive(Clone, Copy, Debug, PartialEq, Eq, Structural)]
pub enum ClipboardRecordSource {
    LocalCapture,
    RemoteSync,
    UserSubmit,
}

/// A committed clipboard record.
#[derive(Debug)]
pub struct ClipboardRecord {
    pub event_id: EventId,
    pub source: ClipboardRecordSource,
    pub origin_noob_id: String,
    pub origin_device_id: String,
    pub created_at_ms: i64,
    pub applied_at_ms: i64,
    pub content: String,
}

impl Clone for ClipboardRecord {
    fn clone(&self) -> (r: Self)
        ensures
            r == *self,
    {
        ClipboardRecord {
            event_id: self.event_id,
            source: self.source,
            origin_noob_id: self.origin_noob_id.clone(),
            origin_device_id: self.origin_device_id.clone(),
            created_at_ms: self.created_at_ms,
            applied_at_ms: self.applied_at_ms,
            content: self.content.clone(),
        }
    }
}

/// Position in the committed history from which a page is read.
#[derive(Clone, Copy, Debug, PartialEq, Eq, Structural)]
pub struct ClipboardHistoryAnchor {
    pub created_at_ms: i64,
    pub event_id: EventId,
}

/// Direction of a history page relative to its anchor.
#[derive(Clone, Copy, Debug, PartialEq, Eq, Structural)]
pub enum ClipboardHistoryDirection {
    Older,
    Newer,
}

/// One page of committed history as the core returns it.
#[derive(Debug)]
pub struct ClipboardHistoryPage {
    pub records: Vec<ClipboardRecord>,
    pub has_more: bool,
    pub next_anchor: Option<ClipboardHistoryAnchor>,
}

/// A connected session that clipboard content can be sent to.
#[derive(Clone, Debug)]
pub struct WorkspaceSessionTargetViewState {
    pub id: SessionId,
    pub device_id: String,
    pub mode_label: String,
    pub remote_addr_label: String,
}

/// The clipboard part of the workspace snapshot.
#[derive(Clone, Debug)]
pub struct ClipboardWorkspaceViewState {
    pub latest_record: Option<ClipboardRecord>,
    pub session_targets: Vec<WorkspaceSessionTargetViewState>,
    pub max_text_bytes: usize,
}

/// The anchor that designates a record.
pub open spec fn anchor_of(r: ClipboardRecord) -> ClipboardHistoryAnchor {
    ClipboardHistoryAnchor { created_at_ms: r.created_at_ms, event_id: r.event_id }
}

/// Some record of `s` carries `id`.
pub open spec fn has_event(s: Seq<ClipboardRecord>, id: EventId) -> bool {
    exists|i: int| 0 <= i < s.len() && (#[trigger] s[i]).event_id == id
}

/// No two records of `s` carry the same event id.
pub open spec fn distinct_events(s: Seq<ClipboardRecord>) -> bool {
    forall|i: int, j: int|
        0 <= i < s.len() && 0 <= j < s.len() && i != j ==> (#[trigger] s[i]).event_id
            != (#[trigger] s[j]).event_id
}

/// `s` without the records that carry `id`, in order.
pub open spec fn without_event(s: Seq<ClipboardRecord>, id: EventId) -> Seq<ClipboardRecord>
    decreases s.len(),
{
    if s.len() == 0 {
        s
    } else if s.last().event_id == id {
        without_event(s.drop_last(), id)
    } else {
        without_event(s.drop_last(), id).push(s.last())
    }
}

/// The first record of `s` that carries `id`.
pub open spec fn first_with_event(s: Seq<ClipboardRecord>, id: EventId) -> Option<ClipboardRecord>
    decreases s.len(),
{
    if s.len() == 0 {
        None
    } else if s[0].event_id == id {
        Some(s[0])
    } else {
        first_with_event(s.drop_first(), id)
    }
}

/// The records of `s` whose event is not among `loaded`, in order.
pub open spec fn not_loaded(s: Seq<ClipboardRecord>, loaded: Seq<ClipboardRecord>) -> Seq<
    ClipboardRecord,
>
    decreases s.len(),
{
    if s.len() == 0 {
        s
    } else if has_event(loaded, s.last().event_id) {
        not_loaded(s.drop_last(), loaded)
    } else {
        not_loaded(s.drop_last(), loaded).push(s.last())
    }
}

/// The pages one after another.
pub open spec fn concat_pages(ps: Seq<Seq<ClipboardRecord>>) -> Seq<ClipboardRecord>
    decreases ps.len(),
{
    if ps.len() == 0 {
        Seq::empty()
    } else {
        concat_pages(ps.drop_last()) + ps.last()
    }
}

/// The pages with the records of `id` removed, and pages left empty dropped.
pub open spec fn strip_event(ps: Seq<Seq<ClipboardRecord>>, id: EventId) -> Seq<
    Seq<ClipboardRecord>,
>
    decreases ps.len(),
{
    if ps.len() == 0 {
        ps
    } else {
        let rest = strip_event(ps.drop_last(), id);
        let p = without_event(ps.last(), id);
        if p.len() == 0 {
            rest
        } else {
            rest.push(p)
        }
    }
}

pub proof fn lemma_has_event_concat(a: Seq<ClipboardRecord>, b: Seq<ClipboardRecord>, id: EventId)
    ensures
        has_event(a + b, id) == (has_event(a, id) || has_event(b, id)),
{
    if has_event(a + b, id) {
        let i = choose|i: int| 0 <= i < (a + b).len() && (#[trigger] (a + b)[i]).event_id == id;
        if i < a.len() {
            assert(a[i] == (a + b)[i]);
        } else {
            assert(b[i - a.len()] == (a + b)[i]);
        }
    }
    if has_event(a, id) {
        let i = choose|i: int| 0 <= i < a.len() && (#[trigger] a[i]).event_id == id;
        assert((a + b)[i] == a[i]);
    }
    if has_event(b, id) {
        let i = choose|i: int| 0 <= i < b.len() && (#[trigger] b[i]).event_id == id;
        assert((a + b)[a.len() + i] == b[i]);
    }
}

pub proof fn lemma_has_event_push(a: Seq<ClipboardRecord>, r: ClipboardRecord, id: EventId)
    ensures
        has_event(a.push(r), id) == (has_event(a, id) || r.event_id == id),
{
    lemma_has_event_concat(a, seq![r], id);
    assert(a.push(r) =~= a + seq![r]);
    if has_event(seq![r], id) {
        let i = choose|i: int| 0 <= i < 1 && (#[trigger] seq![r][i]).event_id == id;
        assert(seq![r][i] == r);
    }
    if r.event_id == id {
        assert(seq![r][0] == r);
    }
}

pub proof fn lemma_without_event_facts(s: Seq<ClipboardRecord>, id: EventId)
    ensures
        !has_event(without_event(s, id), id),
        without_event(s, id).len() <= s.len(),
        forall|x: EventId| #[trigger] has_event(without_event(s, id), x) ==> has_event(s, x),
        !has_event(s, id) ==> without_event(s, id) == s,
        distinct_events(s) ==> distinct_events(without_event(s, id)),
    decreases s.len(),
{
    if s.len() > 0 {
        let rest = s.drop_last();
        lemma_without_event_facts(rest, id);
        assert(s =~= rest.push(s.last()));
        assert forall|x: EventId| has_event(rest, x) implies #[trigger] has_event(s, x) by {
            lemma_has_event_push(rest, s.last(), x);
        }
        if s.last().event_id != id {
            let w = without_event(rest, id);
            assert forall|x: EventId| #[trigger] has_event(w.push(s.last()), x) implies has_event(s, x) by {
                lemma_has_event_push(w, s.last(), x);
                lemma_has_event_push(rest, s.last(), x);
            }
            lemma_has_event_push(w, s.last(), id);
            if !has_event(s, id) {
                lemma_has_event_push(rest, s.last(), id);
            }
            if distinct_events(s) {
                assert forall|i: int| 0 <= i < rest.len() implies (#[trigger] rest[i]).event_id != s.last().event_id by {
                    assert(s[i] == rest[i]);
                    assert(s[s.len() - 1] == s.last());
                }
                assert(!has_event(rest, s.last().event_id));
                assert(!has_event(w, s.last().event_id));
                assert forall|i: int, j: int|
                    0 <= i < w.push(s.last()).len() && 0 <= j < w.push(s.last()).len() && i != j
                        implies (#[trigger] w.push(s.last())[i]).event_id != (#[trigger] w.push(s.last())[j]).event_id by {
                    if i < w.len() && j < w.len() {
                        assert(w.push(s.last())[i] == w[i]);
                        assert(w.push(s.last())[j] == w[j]);
                    } else if i < w.len() {
                        assert(w.push(s.last())[i] == w[i]);
                    } else if j < w.len() {
                        assert(w.push(s.last())[j] == w[j]);
                    }
                }
            }
        } else {
            lemma_has_event_push(rest, s.last(), id);
            if distinct_events(s) {
                assert(distinct_events(rest)) by {
                    assert forall|i: int, j: int|
                        0 <= i < rest.len() && 0 <= j < rest.len() && i != j
                            implies (#[trigger] rest[i]).event_id != (#[trigger] rest[j]).event_id by {
                        assert(s[i] == rest[i]);
                        assert(s[j] == rest[j]);
                    }
                }
            }
        }
        if distinct_events(s) {
            assert(distinct_events(rest)) by {
                assert forall|i: int, j: int|
                    0 <= i < rest.len() && 0 <= j < rest.len() && i != j
                        implies (#[trigger] rest[i]).event_id != (#[trigger] rest[j]).event_id by {
                    assert(s[i] == rest[i]);
                    assert(s[j] == rest[j]);
                }
            }
        }
    }
}

pub proof fn lemma_without_event_concat(a: Seq<ClipboardRecord>, b: Seq<ClipboardRecord>, id: EventId)
    ensures
        without_event(a + b, id) == without_event(a, id) + without_event(b, id),
    decreases b.len(),
{
    if b.len() == 0 {
        assert(a + b =~= a);
        assert(without_event(a, id) + without_event(b, id) =~= without_event(a, id));
    } else {
        lemma_without_event_concat(a, b.drop_last(), id);
        assert((a + b).drop_last() =~= a + b.drop_last());
        assert((a + b).last() == b.last());
        if b.last().event_id == id {
        } else {
            assert(without_event(a, id) + without_event(b.drop_last(), id).push(b.last()) =~=
                (without_event(a, id) + without_event(b.drop_last(), id)).push(b.last()));
        }
    }
}

pub proof fn lemma_concat_pages_prepend(p: Seq<ClipboardRecord>, ps: Seq<Seq<ClipboardRecord>>)
    ensures
        concat_pages(seq![p] + ps) == p + concat_pages(ps),
    decreases ps.len(),
{
    if ps.len() == 0 {
        assert(seq![p] + ps =~= seq![p]);
        assert(seq![p].drop_last() =~= Seq::<Seq<ClipboardRecord>>::empty());
        assert(seq![p].last() == p);
        assert(concat_pages(seq![p].drop_last()) =~= Seq::<ClipboardRecord>::empty());
        assert(concat_pages(seq![p]) == concat_pages(seq![p].drop_last()) + seq![p].last());
        assert(Seq::<ClipboardRecord>::empty() + p =~= p);
        assert(p + concat_pages(ps) =~= p);
    } else {
        lemma_concat_pages_prepend(p, ps.drop_last());
        assert((seq![p] + ps).drop_last() =~= seq![p] + ps.drop_last());
        assert((seq![p] + ps).last() == ps.last());
        assert(p + (concat_pages(ps.drop_last()) + ps.last()) =~= (p + concat_pages(ps.drop_last())) + ps.last());
    }
}

/// A non-empty list of pages is its first page followed by the others.
pub proof fn lemma_concat_pages_first(ps: Seq<Seq<ClipboardRecord>>)
    requires
        ps.len() > 0,
    ensures
        concat_pages(ps) == ps[0] + concat_pages(ps.drop_first()),
{
    assert(ps =~= seq![ps[0]] + ps.drop_first());
    lemma_concat_pages_prepend(ps[0], ps.drop_first());
}

pub proof fn lemma_strip_event(ps: Seq<Seq<ClipboardRecord>>, id: EventId)
    ensures
        concat_pages(strip_event(ps, id)) == without_event(concat_pages(ps), id),
        strip_event(ps, id).len() <= ps.len(),
        forall|i: int| 0 <= i < strip_event(ps, id).len() ==> (#[trigger] strip_event(ps, id)[i]).len() > 0,
    decreases ps.len(),
{
    if ps.len() == 0 {
        assert(concat_pages(ps) =~= Seq::<ClipboardRecord>::empty());
    } else {
        lemma_strip_event(ps.drop_last(), id);
        lemma_without_event_concat(concat_pages(ps.drop_last()), ps.last(), id);
        let rest = strip_event(ps.drop_last(), id);
        let p = without_event(ps.last(), id);
        if p.len() == 0 {
            assert(without_event(concat_pages(ps.drop_last()), id) + p =~= without_event(concat_pages(ps.drop_last()), id));
        } else {
            assert(rest.push(p).drop_last() =~= rest);
            assert forall|i: int| 0 <= i < rest.push(p).len() implies (#[trigger] rest.push(p)[i]).len() > 0 by {
                if i < rest.len() {
                    assert(rest.push(p)[i] == rest[i]);
                }
            }
        }
    }
}

pub proof fn lemma_not_loaded_facts(s: Seq<ClipboardRecord>, loaded: Seq<ClipboardRecord>)
    ensures
        forall|x: EventId| #[trigger] has_event(not_loaded(s, loaded), x) ==> has_event(s, x) && !has_event(loaded, x),
        not_loaded(s, loaded).len() <= s.len(),
    decreases s.len(),
{
    if s.len() > 0 {
        let rest = s.drop_last();
        lemma_not_loaded_facts(rest, loaded);
        assert(s =~= rest.push(s.last()));
        let w = not_loaded(rest, loaded);
        assert forall|x: EventId| #[trigger] has_event(not_loaded(s, loaded), x) implies has_event(s, x) && !has_event(loaded, x) by {
            lemma_has_event_push(rest, s.last(), x);
            if !has_event(loaded, s.last().event_id) {
                lemma_has_event_push(w, s.last(), x);
            }
        }
    }
}

/// The first record carrying `id` is found at the first position that carries it.
pub proof fn lemma_first_with_event_at(s: Seq<ClipboardRecord>, id: EventId, i: int)
    requires
        0 <= i < s.len(),
        s[i].event_id == id,
        forall|k: int| 0 <= k < i ==> (#[trigger] s[k]).event_id != id,
    ensures
        first_with_event(s, id) == Some(s[i]),
    decreases i,
{
    if i > 0 {
        assert(s[0].event_id != id);
        assert forall|k: int| 0 <= k < i - 1 implies (#[trigger] s.drop_first()[k]).event_id != id by {
            assert(s.drop_first()[k] == s[k + 1]);
        }
        lemma_first_with_event_at(s.drop_first(), id, i - 1);
    }
}

pub proof fn lemma_first_with_event_none(s: Seq<ClipboardRecord>, id: EventId)
    requires
        !has_event(s, id),
    ensures
        first_with_event(s, id) == None::<ClipboardRecord>,
    decreases s.len(),
{
    if s.len() > 0 {
        assert(s[0].event_id != id);
        assert(!has_event(s.drop_first(), id)) by {
            if has_event(s.drop_first(), id) {
                let k = choose|k: int| 0 <= k < s.drop_first().len() && (#[trigger] s.drop_first()[k]).event_id == id;
                assert(s[k + 1] == s.drop_first()[k]);
            }
        }
        lemma_first_with_event_none(s.drop_first(), id);
    }
}

pub proof fn lemma_first_with_event_found(s: Seq<ClipboardRecord>, id: EventId)
    ensures
        first_with_event(s, id) matches Some(r) ==> r.event_id == id && s.contains(r),
        first_with_event(s, id) is Some <==> has_event(s, id),
    decreases s.len(),
{
    if s.len() > 0 {
        lemma_first_with_event_found(s.drop_first(), id);
        if s[0].event_id != id {
            if has_event(s, id) {
                let k = choose|k: int| 0 <= k < s.len() && (#[trigger] s[k]).event_id == id;
                assert(s.drop_first()[k - 1] == s[k]);
            }
            if has_event(s.drop_first(), id) {
                let k = choose|k: int| 0 <= k < s.drop_first().len() && (#[trigger] s.drop_first()[k]).event_id == id;
                assert(s[k + 1] == s.drop_first()[k]);
            }
            if first_with_event(s, id) is Some {
                let r = first_with_event(s, id)->0;
                let k = choose|k: int| 0 <= k < s.drop_first().len() && s.drop_first()[k] == r;
                assert(s[k + 1] == r);
            }
        } else {
            assert(s[0] == s[0]);
        }
    }
}

/// A sequence without repeated events keeps that property in any part of it.
pub proof fn lemma_distinct_concat_parts(a: Seq<ClipboardRecord>, b: Seq<ClipboardRecord>)
    requires
        distinct_events(a + b),
    ensures
        distinct_events(a),
        distinct_events(b),
{
    assert forall|i: int, j: int| 0 <= i < a.len() && 0 <= j < a.len() && i != j
        implies (#[trigger] a[i]).event_id != (#[trigger] a[j]).event_id by {
        assert((a + b)[i] == a[i]);
        assert((a + b)[j] == a[j]);
    }
    assert forall|i: int, j: int| 0 <= i < b.len() && 0 <= j < b.len() && i != j
        implies (#[trigger] b[i]).event_id != (#[trigger] b[j]).event_id by {
        assert((a + b)[a.len() + i] == b[i]);
        assert((a + b)[a.len() + j] == b[j]);
    }
}

/// Two sequences without repeated events, sharing no event, make one
/// without repeated events.
pub proof fn lemma_distinct_concat(a: Seq<ClipboardRecord>, b: Seq<ClipboardRecord>)
    requires
        distinct_events(a),
        distinct_events(b),
        forall|x: EventId| #[trigger] has_event(b, x) ==> !has_event(a, x),
    ensures
        distinct_events(a + b),
{
    let c = a + b;
    assert forall|i: int, j: int| 0 <= i < c.len() && 0 <= j < c.len() && i != j
        implies (#[trigger] c[i]).event_id != (#[trigger] c[j]).event_id by {
        if i < a.len() && j < a.len() {
            assert(c[i] == a[i] && c[j] == a[j]);
        } else if i >= a.len() && j >= a.len() {
            assert(c[i] == b[i - a.len()] && c[j] == b[j - a.len()]);
        } else if i < a.len() {
            assert(c[i] == a[i] && c[j] == b[j - a.len()]);
            assert(has_event(b, c[j].event_id));
            assert(has_event(a, c[i].event_id));
        } else {
            assert(c[j] == a[j] && c[i] == b[i - a.len()]);
            assert(has_event(b, c[i].event_id));
            assert(has_event(a, c[j].event_id));
        }
    }
}

/// The records of a page that are not shown yet repeat no event when the page does not.
pub proof fn lemma_not_loaded_distinct(s: Seq<ClipboardRecord>, loaded: Seq<ClipboardRecord>)
    requires
        distinct_events(s),
    ensures
        distinct_events(not_loaded(s, loaded)),
    decreases s.len(),
{
    if s.len() > 0 {
        let rest = s.drop_last();
        assert(s =~= rest + seq![s.last()]);
        lemma_distinct_concat_parts(rest, seq![s.last()]);
        lemma_not_loaded_distinct(rest, loaded);
        if !has_event(loaded, s.last().event_id) {
            let w = not_loaded(rest, loaded);
            lemma_not_loaded_facts(rest, loaded);
            assert(!has_event(rest, s.last().event_id)) by {
                if has_event(rest, s.last().event_id) {
                    let k = choose|k: int| 0 <= k < rest.len() && (#[trigger] rest[k]).event_id == s.last().event_id;
                    assert(s[k] == rest[k]);
                    assert(s[s.len() - 1] == s.last());
                }
            }
            assert forall|x: EventId| #[trigger] has_event(seq![s.last()], x) implies !has_event(w, x) by {
                let k = choose|k: int| 0 <= k < 1 && (#[trigger] seq![s.last()][k]).event_id == x;
                assert(seq![s.last()][k] == s.last());
            }
            assert(distinct_events(seq![s.last()]));
            lemma_distinct_concat(w, seq![s.last()]);
            assert(w.push(s.last()) =~= w + seq![s.last()]);
        }
    }
}

/// Appending a page puts its records after those of the others.
pub proof fn lemma_concat_pages_push(ps: Seq<Seq<ClipboardRecord>>, p: Seq<ClipboardRecord>)
    ensures
        concat_pages(ps.push(p)) == concat_pages(ps) + p,
{
    assert(ps.push(p).drop_last() =~= ps);
}

} // verus!
