//! Which connected sessions a rebroadcast goes to, and which adopt or
//! rebroadcast request is running.
use vstd::prelude::*;

use crate::ids::{EventId, SessionId};
use super::model::WorkspaceSessionTargetViewState;

verus! {

/// Whether a rebroadcast goes to every connected session or to a chosen set.
#[derive(Clone, Copy, Debug, PartialEq, Eq, Structural)]
pub enum ClipboardBroadcastScope {
    AllConnected,
    SelectedSessions,
}

/// The sessions a rebroadcast request names.
#[derive(Debug)]
pub enum SessionTarget {
    AllConnected,
    Sessions(Vec<SessionId>),
}

/// Session ids in strictly increasing order (as a `BTreeSet` walks them).
pub open spec fn sorted_sessions(s: Seq<SessionId>) -> bool {
    forall|i: int, j: int| 0 <= i < j < s.len() ==> (#[trigger] s[i]).0 < (#[trigger] s[j]).0
}

/// The abstract state of the target selection.
pub struct TargetsView {
    pub broadcast_scope: ClipboardBroadcastScope,
    pub selected_session_ids: Seq<SessionId>,
    pub adopt_in_flight_event_id: Option<EventId>,
    pub rebroadcast_in_flight_event_id: Option<EventId>,
}

impl TargetsView {
    pub open spec fn initial() -> Self {
        TargetsView {
            broadcast_scope: ClipboardBroadcastScope::AllConnected,
            selected_session_ids: Seq::empty(),
            adopt_in_flight_event_id: None,
            rebroadcast_in_flight_event_id: None,
        }
    }

    pub open spec fn wf(self) -> bool {
        sorted_sessions(self.selected_session_ids)
    }
}

/// Selected sessions and in-flight requests of the clipboard page.
pub struct ClipboardTargetSelectionState {
    broadcast_scope: ClipboardBroadcastScope,
    selected_session_ids: Vec<SessionId>,
    adopt_in_flight_event_id: Option<EventId>,
    rebroadcast_in_flight_event_id: Option<EventId>,
}

impl View for ClipboardTargetSelectionState {
    type V = TargetsView;

    closed spec fn view(&self) -> TargetsView {
        TargetsView {
            broadcast_scope: self.broadcast_scope,
            selected_session_ids: self.selected_session_ids@,
            adopt_in_flight_event_id: self.adopt_in_flight_event_id,
            rebroadcast_in_flight_event_id: self.rebroadcast_in_flight_event_id,
        }
    }
}

/// `after` holds exactly the members of `before`, with `id` added when it
/// was absent and removed when it was present.
pub open spec fn toggled_membership(before: Seq<SessionId>, after: Seq<SessionId>, id: SessionId) -> bool {
    forall|x: SessionId| #[trigger] after.contains(x) == (if x == id {
        !before.contains(id)
    } else {
        before.contains(x)
    })
}

/// Some target of `sessions` has id `id`.
pub open spec fn session_listed(sessions: Seq<WorkspaceSessionTargetViewState>, id: SessionId) -> bool {
    exists|i: int| 0 <= i < sessions.len() && (#[trigger] sessions[i]).id == id
}

/// Two sorted lists of session ids with the same members are equal.
pub proof fn lemma_sorted_sessions_unique(a: Seq<SessionId>, b: Seq<SessionId>)
    requires
        sorted_sessions(a),
        sorted_sessions(b),
        forall|x: SessionId| a.contains(x) <==> b.contains(x),
    ensures
        a == b,
    decreases a.len() + b.len(),
{
    if a.len() == 0 {
        if b.len() > 0 {
            assert(b.contains(b[0]));
        }
        assert(a =~= b);
    } else if b.len() == 0 {
        assert(a.contains(a[0]));
    } else {
        // the smallest members agree
        assert(a.contains(a[0]));
        assert(b.contains(b[0]));
        let ia = choose|i: int| 0 <= i < b.len() && b[i] == a[0];
        let ib = choose|i: int| 0 <= i < a.len() && a[i] == b[0];
        if ia > 0 {
            assert(b[0].0 < b[ia].0);
        }
        if ib > 0 {
            assert(a[0].0 < a[ib].0);
        }
        assert(a[0] == b[0]);
        let ta = a.drop_first();
        let tb = b.drop_first();
        assert forall|x: SessionId| ta.contains(x) <==> tb.contains(x) by {
            if ta.contains(x) {
                let k = choose|k: int| 0 <= k < ta.len() && ta[k] == x;
                assert(a[k + 1] == x);
                assert(a[0].0 < a[k + 1].0);
                assert(a.contains(x));
                let m = choose|m: int| 0 <= m < b.len() && b[m] == x;
                assert(m != 0);
                assert(tb[m - 1] == x);
            }
            if tb.contains(x) {
                let k = choose|k: int| 0 <= k < tb.len() && tb[k] == x;
                assert(b[k + 1] == x);
                assert(b[0].0 < b[k + 1].0);
                assert(b.contains(x));
                let m = choose|m: int| 0 <= m < a.len() && a[m] == x;
                assert(m != 0);
                assert(ta[m - 1] == x);
            }
        }
        assert forall|i: int, j: int| 0 <= i < j < ta.len() implies (#[trigger] ta[i]).0 < (#[trigger] ta[j]).0 by {
            assert(ta[i] == a[i + 1]);
            assert(ta[j] == a[j + 1]);
        }
        assert forall|i: int, j: int| 0 <= i < j < tb.len() implies (#[trigger] tb[i]).0 < (#[trigger] tb[j]).0 by {
            assert(tb[i] == b[i + 1]);
            assert(tb[j] == b[j + 1]);
        }
        lemma_sorted_sessions_unique(ta, tb);
        assert(a =~= seq![a[0]] + ta);
        assert(b =~= seq![b[0]] + tb);
    }
}

impl ClipboardTargetSelectionState {
    pub fn new() -> (s: Self)
        ensures
            s@ == TargetsView::initial(),
            s@.wf(),
    {
        ClipboardTargetSelectionState {
            broadcast_scope: ClipboardBroadcastScope::AllConnected,
            selected_session_ids: Vec::new(),
            adopt_in_flight_event_id: None,
            rebroadcast_in_flight_event_id: None,
        }
    }

    pub fn broadcast_scope(&self) -> (r: ClipboardBroadcastScope)
        ensures
            r == self@.broadcast_scope,
    {
        self.broadcast_scope
    }

    /// The chosen sessions, in increasing order.
    pub fn selected_session_ids(&self) -> (r: &Vec<SessionId>)
        ensures
            r@ == self@.selected_session_ids,
    {
        &self.selected_session_ids
    }

    pub fn adopt_in_flight_event_id(&self) -> (r: Option<EventId>)
        ensures
            r == self@.adopt_in_flight_event_id,
    {
        self.adopt_in_flight_event_id
    }

    pub fn rebroadcast_in_flight_event_id(&self) -> (r: Option<EventId>)
        ensures
            r == self@.rebroadcast_in_flight_event_id,
    {
        self.rebroadcast_in_flight_event_id
    }

    pub fn set_broadcast_scope(&mut self, scope: ClipboardBroadcastScope)
        ensures
            final(self)@ == (TargetsView { broadcast_scope: scope, ..old(self)@ }),
    {
        self.broadcast_scope = scope;
    }

    /// Adds `session_id` to the chosen sessions, or removes it if chosen;
    /// nothing happens unless the scope is `SelectedSessions`.
    pub fn toggle_session_target(&mut self, session_id: SessionId)
        requires
            old(self)@.wf(),
        ensures
            final(self)@.wf(),
            final(self)@.broadcast_scope == old(self)@.broadcast_scope,
            final(self)@.adopt_in_flight_event_id == old(self)@.adopt_in_flight_event_id,
            final(self)@.rebroadcast_in_flight_event_id == old(self)@.rebroadcast_in_flight_event_id,
            old(self)@.broadcast_scope != ClipboardBroadcastScope::SelectedSessions
                ==> final(self)@.selected_session_ids == old(self)@.selected_session_ids,
            old(self)@.broadcast_scope == ClipboardBroadcastScope::SelectedSessions ==> toggled_membership(
                old(self)@.selected_session_ids,
                final(self)@.selected_session_ids,
                session_id,
            ),
    {
        if self.broadcast_scope != ClipboardBroadcastScope::SelectedSessions {
            return;
        }
        let ghost s = self.selected_session_ids@;
        let mut i: usize = 0;
        while i < self.selected_session_ids.len() && self.selected_session_ids[i].0 < session_id.0
            invariant
                i <= s.len(),
                s == self.selected_session_ids@,
                forall|k: int| 0 <= k < i ==> (#[trigger] s[k]).0 < session_id.0,
            decreases s.len() - i,
        {
            i = i + 1;
        }
        if i < self.selected_session_ids.len() && self.selected_session_ids[i].0 == session_id.0 {
            self.selected_session_ids.remove(i);
            proof {
                let t = self.selected_session_ids@;
                assert(t =~= s.remove(i as int));
                assert forall|x: SessionId| #[trigger] t.contains(x) == (if x == session_id {
                    !s.contains(session_id)
                } else {
                    s.contains(x)
                }) by {
                    if t.contains(x) {
                        let k = choose|k: int| 0 <= k < t.len() && t[k] == x;
                        if k < i {
                            assert(s[k] == x);
                        } else {
                            assert(s[k + 1] == x);
                            assert(s[i as int].0 < s[k + 1].0);
                        }
                    }
                    if x != session_id && s.contains(x) {
                        let k = choose|k: int| 0 <= k < s.len() && s[k] == x;
                        assert(k != i);
                        if k < i {
                            assert(t[k] == x);
                        } else {
                            assert(t[k - 1] == x);
                        }
                    }
                    assert(s[i as int] == session_id);
                }
            }
        } else {
            self.selected_session_ids.insert(i, session_id);
            proof {
                let t = self.selected_session_ids@;
                assert(t =~= s.insert(i as int, session_id));
                assert(!s.contains(session_id)) by {
                    if s.contains(session_id) {
                        let k = choose|k: int| 0 <= k < s.len() && s[k] == session_id;
                        if k < i {
                        } else if k > i {
                            assert(s[i as int].0 < s[k].0);
                        }
                    }
                }
                assert forall|a: int, b: int| 0 <= a < b < t.len() implies (#[trigger] t[a]).0 < (#[trigger] t[b]).0 by {
                    if b < i {
                        assert(t[a] == s[a] && t[b] == s[b]);
                    } else if b == i {
                        assert(t[a] == s[a]);
                    } else if a < i {
                        assert(t[a] == s[a] && t[b] == s[b - 1]);
                    } else if a == i {
                        assert(t[b] == s[b - 1]);
                        assert(s[i as int].0 <= s[b - 1].0 || b - 1 == i);
                    } else {
                        assert(t[a] == s[a - 1] && t[b] == s[b - 1]);
                    }
                }
                assert forall|x: SessionId| #[trigger] t.contains(x) == (if x == session_id {
                    !s.contains(session_id)
                } else {
                    s.contains(x)
                }) by {
                    assert(t[i as int] == session_id);
                    if t.contains(x) && x != session_id {
                        let k = choose|k: int| 0 <= k < t.len() && t[k] == x;
                        if k < i {
                            assert(s[k] == x);
                        } else {
                            assert(s[k - 1] == x);
                        }
                    }
                    if s.contains(x) {
                        let k = choose|k: int| 0 <= k < s.len() && s[k] == x;
                        if k < i {
                            assert(t[k] == x);
                        } else {
                            assert(t[k + 1] == x);
                        }
                    }
                }
            }
        }
    }

    /// The target a rebroadcast names: every connected session, or the
    /// chosen sessions in increasing order.
    pub fn rebroadcast_target(&self) -> (r: SessionTarget)
        ensures
            self@.broadcast_scope == ClipboardBroadcastScope::AllConnected ==> r is AllConnected,
            self@.broadcast_scope == ClipboardBroadcastScope::SelectedSessions ==> (r matches SessionTarget::Sessions(ids)
                && ids@ == self@.selected_session_ids),
    {
        match self.broadcast_scope {
            ClipboardBroadcastScope::AllConnected => SessionTarget::AllConnected,
            ClipboardBroadcastScope::SelectedSessions => SessionTarget::Sessions(self.selected_session_ids.clone()),
        }
    }

    /// Forgets chosen sessions that are no longer connected.
    pub fn retain_connected_sessions(&mut self, sessions: &[WorkspaceSessionTargetViewState])
        requires
            old(self)@.wf(),
        ensures
            final(self)@.wf(),
            final(self)@.broadcast_scope == old(self)@.broadcast_scope,
            final(self)@.adopt_in_flight_event_id == old(self)@.adopt_in_flight_event_id,
            final(self)@.rebroadcast_in_flight_event_id == old(self)@.rebroadcast_in_flight_event_id,
            forall|x: SessionId| #[trigger] final(self)@.selected_session_ids.contains(x)
                == (old(self)@.selected_session_ids.contains(x) && session_listed(sessions@, x)),
    {
        let ghost s = self.selected_session_ids@;
        let mut kept: Vec<SessionId> = Vec::new();
        let mut i: usize = 0;
        while i < self.selected_session_ids.len()
            invariant
                i <= s.len(),
                s == self.selected_session_ids@,
                sorted_sessions(s),
                sorted_sessions(kept@),
                forall|k: int| 0 <= k < kept@.len() ==> exists|m: int| 0 <= m < i && s[m] == #[trigger] kept@[k],
                forall|x: SessionId| #[trigger] kept@.contains(x)
                    == (s.take(i as int).contains(x) && session_listed(sessions@, x)),
            decreases s.len() - i,
        {
            let id = self.selected_session_ids[i];
            let mut connected = false;
            let mut j: usize = 0;
            while j < sessions.len()
                invariant
                    j <= sessions@.len(),
                    connected == exists|m: int| 0 <= m < j && (#[trigger] sessions@[m]).id == id,
                decreases sessions@.len() - j,
            {
                if sessions[j].id == id {
                    connected = true;
                }
                j = j + 1;
            }
            let ghost kept_before = kept@;
            if connected {
                kept.push(id);
                proof {
                    assert forall|a: int, b: int| 0 <= a < b < kept@.len() implies (#[trigger] kept@[a]).0 < (#[trigger] kept@[b]).0 by {
                        if b == kept@.len() - 1 {
                            let m = choose|m: int| 0 <= m < i && s[m] == kept_before[a];
                            assert(s[m].0 < s[i as int].0);
                        } else {
                            assert(kept@[a] == kept_before[a] && kept@[b] == kept_before[b]);
                        }
                    }
                    assert forall|k: int| 0 <= k < kept@.len() implies exists|m: int| 0 <= m < i + 1 && s[m] == #[trigger] kept@[k] by {
                        if k == kept@.len() - 1 {
                            assert(s[i as int] == kept@[k]);
                        } else {
                            assert(kept@[k] == kept_before[k]);
                            let m = choose|m: int| 0 <= m < i && s[m] == kept_before[k];
                        }
                    }
                }
            }
            proof {
                assert(s.take(i + 1) =~= s.take(i as int).push(s[i as int]));
                assert forall|x: SessionId| #[trigger] kept@.contains(x)
                    == (s.take(i + 1).contains(x) && session_listed(sessions@, x)) by {
                    if x == id {
                        if session_listed(sessions@, x) {
                            let m = choose|m: int| 0 <= m < sessions@.len() && (#[trigger] sessions@[m]).id == x;
                            assert(sessions@[m].id == id);
                        }
                        if connected {
                            assert(kept@[kept@.len() - 1] == x);
                        }
                        assert(s.take(i + 1)[i as int] == x);
                    } else {
                        if connected {
                            assert(kept@ =~= kept_before.push(id));
                            if kept_before.contains(x) {
                                let k = choose|k: int| 0 <= k < kept_before.len() && kept_before[k] == x;
                                assert(kept@[k] == x);
                            }
                            if kept@.contains(x) {
                                let k = choose|k: int| 0 <= k < kept@.len() && kept@[k] == x;
                                assert(kept_before[k] == x);
                            }
                        }
                        if s.take(i + 1).contains(x) {
                            let k = choose|k: int| 0 <= k < i + 1 && #[trigger] s.take(i + 1)[k] == x;
                            assert(s.take(i as int)[k] == x);
                        }
                        if s.take(i as int).contains(x) {
                            let k = choose|k: int| 0 <= k < i && #[trigger] s.take(i as int)[k] == x;
                            assert(s.take(i + 1)[k] == x);
                        }
                    }
                }
            }
            i = i + 1;
        }
        assert(s.take(s.len() as int) =~= s);
        self.selected_session_ids = kept;
    }

    pub fn start_adopt(&mut self, event_id: EventId)
        ensures
            final(self)@ == (TargetsView { adopt_in_flight_event_id: Some(event_id), ..old(self)@ }),
    {
        self.adopt_in_flight_event_id = Some(event_id);
    }

    /// Clears the adopt marker if it belongs to `event_id`.
    pub fn finish_adopt(&mut self, event_id: EventId)
        ensures
            final(self)@ == (if old(self)@.adopt_in_flight_event_id == Some(event_id) {
                TargetsView { adopt_in_flight_event_id: None, ..old(self)@ }
            } else {
                old(self)@
            }),
    {
        match self.adopt_in_flight_event_id {
            Some(current) => {
                if current == event_id {
                    self.adopt_in_flight_event_id = None;
                }
            },
            None => {},
        }
    }

    pub fn start_rebroadcast(&mut self, event_id: EventId)
        ensures
            final(self)@ == (TargetsView { rebroadcast_in_flight_event_id: Some(event_id), ..old(self)@ }),
    {
        self.rebroadcast_in_flight_event_id = Some(event_id);
    }

    /// Clears the rebroadcast marker if it belongs to `event_id`.
    pub fn finish_rebroadcast(&mut self, event_id: EventId)
        ensures
            final(self)@ == (if old(self)@.rebroadcast_in_flight_event_id == Some(event_id) {
                TargetsView { rebroadcast_in_flight_event_id: None, ..old(self)@ }
            } else {
                old(self)@
            }),
    {
        match self.rebroadcast_in_flight_event_id {
            Some(current) => {
                if current == event_id {
                    self.rebroadcast_in_flight_event_id = None;
                }
            },
            None => {},
        }
    }
}

/// Toggling the same session twice restores the chosen sessions exactly.
pub proof fn law_toggle_twice_restores(a: Seq<SessionId>, b: Seq<SessionId>, c: Seq<SessionId>, id: SessionId)
    requires
        sorted_sessions(a),
        sorted_sessions(b),
        sorted_sessions(c),
        toggled_membership(a, b, id),
        toggled_membership(b, c, id),
    ensures
        c == a,
{
    assert forall|x: SessionId| c.contains(x) <==> a.contains(x) by {
        assert(b.contains(x) == (if x == id { !a.contains(id) } else { a.contains(x) }));
        assert(c.contains(x) == (if x == id { !b.contains(id) } else { b.contains(x) }));
        assert(b.contains(id) == !a.contains(id));
    }
    lemma_sorted_sessions_unique(c, a);
}

} // verus!
