//! State of the clipboard page: history window, edit session, broadcast
//! targets, the record shown in the read-only panel, and the feedback line.
use vstd::prelude::*;

use crate::ids::{EventId, SessionId};
use super::editor::{ClipboardDetailTab, ClipboardEditorState, EditorView};
use super::history::{
    ClipboardHistoryLoadState, ClipboardHistoryState, ClipboardSelection, HistoryView, opt_deref,
};
use super::model::{
    ClipboardHistoryAnchor, ClipboardHistoryDirection, ClipboardHistoryPage, ClipboardRecord,
    ClipboardWorkspaceViewState,
};
use super::targets::{
    ClipboardBroadcastScope, ClipboardTargetSelectionState, SessionTarget, TargetsView, session_listed, toggled_membership,
};

verus! {

/// The abstract state of the clipboard page.
pub struct PageView {
    pub history: HistoryView,
    pub editor: EditorView,
    pub targets: TargetsView,
    /// The record whose content the read-only panel holds.
    pub read_event_id: Option<EventId>,
    pub feedback: Option<Seq<char>>,
}

impl PageView {
    pub open spec fn wf(self) -> bool {
        self.history.wf() && self.targets.wf()
    }
}

pub open spec fn opt_string_view(s: Option<String>) -> Option<Seq<char>> {
    match s {
        Some(t) => Some(t@),
        None => None,
    }
}

pub open spec fn opt_ref_string_view(s: Option<&String>) -> Option<Seq<char>> {
    match s {
        Some(t) => Some(t@),
        None => None,
    }
}

/// The event id of an optional record.
pub open spec fn opt_event_id(r: Option<ClipboardRecord>) -> Option<EventId> {
    match r {
        Some(r) => Some(r.event_id),
        None => None,
    }
}

/// The text the read-only panel shows for an optional record.
pub open spec fn read_content(r: Option<ClipboardRecord>) -> Seq<char> {
    match r {
        Some(r) => r.content@,
        None => Seq::empty(),
    }
}

/// The clipboard page state.
pub struct ClipboardPageState {
    history: ClipboardHistoryState,
    editor: ClipboardEditorState,
    targets: ClipboardTargetSelectionState,
    read_event_id: Option<EventId>,
    feedback: Option<String>,
}

impl View for ClipboardPageState {
    type V = PageView;

    closed spec fn view(&self) -> PageView {
        PageView {
            history: self.history@,
            editor: self.editor@,
            targets: self.targets@,
            read_event_id: self.read_event_id,
            feedback: opt_string_view(self.feedback),
        }
    }
}

impl ClipboardPageState {
    pub fn new() -> (s: Self)
        ensures
            s@.wf(),
            s@.history == HistoryView::initial(),
            s@.editor == EditorView::initial(),
            s@.targets == TargetsView::initial(),
            s@.read_event_id is None,
            s@.feedback is None,
    {
        ClipboardPageState {
            history: ClipboardHistoryState::new(),
            editor: ClipboardEditorState::new(),
            targets: ClipboardTargetSelectionState::new(),
            read_event_id: None,
            feedback: None,
        }
    }

    pub fn selection(&self) -> (r: ClipboardSelection)
        ensures
            r == self@.history.selection,
    {
        self.history.selection()
    }

    pub fn detail_tab(&self) -> (r: ClipboardDetailTab)
        ensures
            r == self@.editor.detail_tab,
    {
        self.editor.detail_tab()
    }

    pub fn broadcast_scope(&self) -> (r: ClipboardBroadcastScope)
        ensures
            r == self@.targets.broadcast_scope,
    {
        self.targets.broadcast_scope()
    }

    /// The loaded history, newest first.
    pub fn history_records(&self) -> (r: Vec<ClipboardRecord>)
        ensures
            r@ == self@.history.records(),
    {
        self.history.records()
    }

    pub fn history_load_state(&self) -> (r: ClipboardHistoryLoadState)
        ensures
            r == self@.history.load_state,
    {
        self.history.load_state()
    }

    pub fn history_bootstrapped(&self) -> (r: bool)
        ensures
            r == self@.history.bootstrapped,
    {
        self.history.bootstrapped()
    }

    pub fn older_anchor(&self) -> (r: Option<ClipboardHistoryAnchor>)
        ensures
            r == self@.history.older_anchor,
    {
        self.history.older_anchor()
    }

    pub fn newer_anchor(&self) -> (r: Option<ClipboardHistoryAnchor>)
        ensures
            r == self@.history.newer_anchor,
    {
        self.history.newer_anchor()
    }

    pub fn can_load_older(&self) -> (r: bool)
        ensures
            r == (self@.history.has_older_gap() && self@.history.load_state == ClipboardHistoryLoadState::Idle),
    {
        self.history.can_load_older()
    }

    pub fn can_load_newer(&self) -> (r: bool)
        ensures
            r == (self@.history.has_newer_gap() && self@.history.load_state == ClipboardHistoryLoadState::Idle),
    {
        self.history.can_load_newer()
    }

    /// Whether a page can be requested in either direction.
    pub fn can_load_more(&self) -> (r: bool)
        ensures
            r == (self@.history.load_state == ClipboardHistoryLoadState::Idle && (self@.history.has_older_gap()
                || self@.history.has_newer_gap())),
    {
        self.history.can_load_older() || self.history.can_load_newer()
    }

    pub fn selected_session_ids(&self) -> (r: &Vec<SessionId>)
        ensures
            r@ == self@.targets.selected_session_ids,
    {
        self.targets.selected_session_ids()
    }

    pub fn feedback(&self) -> (r: Option<&String>)
        ensures
            opt_ref_string_view(r) == self@.feedback,
    {
        self.feedback.as_ref()
    }

    pub fn submit_in_flight(&self) -> (r: bool)
        ensures
            r == self@.editor.submit_in_flight,
    {
        self.editor.submit_in_flight()
    }

    pub fn adopt_in_flight_event_id(&self) -> (r: Option<EventId>)
        ensures
            r == self@.targets.adopt_in_flight_event_id,
    {
        self.targets.adopt_in_flight_event_id()
    }

    pub fn rebroadcast_in_flight_event_id(&self) -> (r: Option<EventId>)
        ensures
            r == self@.targets.rebroadcast_in_flight_event_id,
    {
        self.targets.rebroadcast_in_flight_event_id()
    }

    /// Points the read-only panel at `record`; returns the text to load into
    /// it when that changes the record it shows.
    pub fn sync_read_record(&mut self, record: Option<&ClipboardRecord>) -> (update: Option<String>)
        ensures
            final(self)@ == (PageView { read_event_id: opt_event_id(opt_deref(record)), ..old(self)@ }),
            old(self)@.read_event_id == opt_event_id(opt_deref(record)) ==> update is None,
            old(self)@.read_event_id != opt_event_id(opt_deref(record)) ==> (update matches Some(text)
                && text@ == read_content(opt_deref(record))),
    {
        let next_event_id = match record {
            Some(record) => Some(record.event_id),
            None => None,
        };
        let same = match (self.read_event_id, next_event_id) {
            (Some(a), Some(b)) => a == b,
            (None, None) => true,
            _ => false,
        };
        if same {
            return None;
        }
        let next_content = match record {
            Some(record) => record.content.clone(),
            None => String::new(),
        };
        self.read_event_id = next_event_id;
        Some(next_content)
    }

    /// Takes in a new workspace snapshot: the latest record moves to the
    /// front of the history, disconnected sessions leave the target set, and
    /// the read-only panel follows the selection. Returns the text to load
    /// into the read-only panel when it changes.
    pub fn sync_from_workspace(&mut self, page: Option<&ClipboardWorkspaceViewState>) -> (update: Option<String>)
        requires
            old(self)@.wf(),
        ensures
            final(self)@.wf(),
            final(self)@.editor == old(self)@.editor,
            final(self)@.feedback == old(self)@.feedback,
            page is None ==> final(self)@ == (PageView { read_event_id: None, ..old(self)@ }),
            page is None ==> (update is Some <==> old(self)@.read_event_id is Some),
            page is None && update is Some ==> update->0@ == Seq::<char>::empty(),
            page matches Some(p) ==> {
                &&& final(self)@.history == (match p.latest_record {
                    Some(latest) => old(self)@.history.promoted(latest),
                    None => old(self)@.history,
                })
                &&& final(self)@.targets.broadcast_scope == old(self)@.targets.broadcast_scope
                &&& final(self)@.targets.adopt_in_flight_event_id == old(self)@.targets.adopt_in_flight_event_id
                &&& final(self)@.targets.rebroadcast_in_flight_event_id == old(self)@.targets.rebroadcast_in_flight_event_id
                &&& forall|x: SessionId| #[trigger] final(self)@.targets.selected_session_ids.contains(x)
                    == (old(self)@.targets.selected_session_ids.contains(x) && session_listed(p.session_targets@, x))
                &&& final(self)@.read_event_id == opt_event_id(final(self)@.history.selected_record(p.latest_record))
                &&& (update is Some <==> old(self)@.read_event_id != final(self)@.read_event_id)
                &&& (update matches Some(text) ==> text@ == read_content(final(self)@.history.selected_record(p.latest_record)))
            },
    {
        let page = match page {
            Some(page) => page,
            None => {
                return self.sync_read_record(None);
            },
        };
        match &page.latest_record {
            Some(record) => self.history.promote_record(record.clone()),
            None => {},
        }
        self.targets.retain_connected_sessions(page.session_targets.as_slice());
        let selected = self.history.selected_record(page.latest_record.as_ref());
        self.sync_read_record(selected.as_ref())
    }

    pub fn begin_history_load(&mut self, direction: ClipboardHistoryDirection, initial: bool) -> (started: bool)
        ensures
            started == (old(self)@.history.load_state == ClipboardHistoryLoadState::Idle),
            final(self)@ == (PageView {
                history: if started {
                    HistoryView { load_state: HistoryView::loading_state(direction, initial), ..old(self)@.history }
                } else {
                    old(self)@.history
                },
                ..old(self)@
            }),
    {
        self.history.begin_load(direction, initial)
    }

    pub fn finish_history_load(&mut self, direction: ClipboardHistoryDirection, page: ClipboardHistoryPage)
        requires
            old(self)@.wf(),
        ensures
            final(self)@ == (PageView { history: old(self)@.history.finished(direction, page), ..old(self)@ }),
            final(self)@.wf(),
    {
        self.history.finish_load(direction, page);
    }

    /// A history or record request failed: the message becomes the feedback.
    pub fn fail_history_load(&mut self, message: String)
        ensures
            final(self)@ == (PageView {
                history: HistoryView {
                    bootstrapped: true,
                    load_state: ClipboardHistoryLoadState::Idle,
                    ..old(self)@.history
                },
                feedback: Some(message@),
                ..old(self)@
            }),
    {
        self.history.mark_load_failed();
        self.feedback = Some(message);
    }

    /// Follows the latest committed record again; any edit session ends.
    pub fn select_latest(&mut self)
        ensures
            final(self)@ == (PageView {
                history: HistoryView { selection: ClipboardSelection::LatestCommitted, ..old(self)@.history },
                editor: old(self)@.editor.cleared(),
                feedback: None,
                ..old(self)@
            }),
    {
        self.history.select_latest();
        self.editor.clear_session();
        self.feedback = None;
    }

    /// Pins the record `event_id`; any edit session ends.
    pub fn select_history(&mut self, event_id: EventId)
        ensures
            final(self)@ == (PageView {
                history: HistoryView { selection: ClipboardSelection::Pinned(event_id), ..old(self)@.history },
                editor: old(self)@.editor.cleared(),
                feedback: None,
                ..old(self)@
            }),
    {
        self.history.select_history(event_id);
        self.editor.clear_session();
        self.feedback = None;
    }

    pub fn has_cached_record(&self, event_id: EventId) -> (r: bool)
        ensures
            r == self@.history.has_cached(event_id),
    {
        self.history.has_cached_record(event_id)
    }

    pub fn selected_record(&self, latest_record: Option<&ClipboardRecord>) -> (r: Option<ClipboardRecord>)
        requires
            self@.wf(),
        ensures
            r == self@.history.selected_record(opt_deref(latest_record)),
    {
        self.history.selected_record(latest_record)
    }

    /// Opens an edit session on `record`; the edit field is to be loaded
    /// with the record's content.
    pub fn begin_edit_session(&mut self, record: &ClipboardRecord)
        ensures
            final(self)@ == (PageView {
                editor: EditorView {
                    detail_tab: ClipboardDetailTab::Edit,
                    edit_event_id: Some(record.event_id),
                    edit_base_content: record.content@,
                    ..old(self)@.editor
                },
                ..old(self)@
            }),
    {
        self.editor.begin_session(record);
    }

    /// Ends the edit session; the edit field is to be emptied.
    pub fn clear_edit_session(&mut self)
        ensures
            final(self)@ == (PageView { editor: old(self)@.editor.cleared(), ..old(self)@ }),
    {
        self.editor.clear_session();
    }

    pub fn is_edit_dirty(&self, edit_text: &str) -> (r: bool)
        ensures
            r == self@.editor.is_dirty(edit_text@),
    {
        self.editor.is_dirty(edit_text)
    }

    pub fn can_submit_edit(&self, edit_text: &str, max_text_bytes: usize) -> (r: bool)
        ensures
            r == self@.editor.can_submit(edit_text, max_text_bytes),
    {
        self.editor.can_submit(edit_text, max_text_bytes)
    }

    pub fn start_submit(&mut self)
        ensures
            final(self)@ == (PageView {
                editor: EditorView { submit_in_flight: true, ..old(self)@.editor },
                feedback: Some("Saving edited clipboard content as a new record."@),
                ..old(self)@
            }),
    {
        self.editor.start_submit();
        self.feedback = Some(String::from_str("Saving edited clipboard content as a new record."));
    }

    /// The edited text was saved: the page follows the latest record again
    /// and the session ends; the edit field is to be emptied.
    pub fn finish_submit(&mut self, message: String)
        ensures
            final(self)@ == (PageView {
                history: HistoryView { selection: ClipboardSelection::LatestCommitted, ..old(self)@.history },
                editor: (EditorView { submit_in_flight: false, ..old(self)@.editor }).cleared(),
                feedback: Some(message@),
                ..old(self)@
            }),
    {
        self.history.select_latest();
        self.editor.finish_submit();
        self.feedback = Some(message);
    }

    pub fn fail_submit(&mut self, message: String)
        ensures
            final(self)@ == (PageView {
                editor: EditorView { submit_in_flight: false, ..old(self)@.editor },
                feedback: Some(message@),
                ..old(self)@
            }),
    {
        self.editor.fail_submit();
        self.feedback = Some(message);
    }

    pub fn start_adopt(&mut self, event_id: EventId)
        ensures
            final(self)@ == (PageView {
                targets: TargetsView { adopt_in_flight_event_id: Some(event_id), ..old(self)@.targets },
                feedback: Some("Adopting selected committed record locally."@),
                ..old(self)@
            }),
    {
        self.targets.start_adopt(event_id);
        self.feedback = Some(String::from_str("Adopting selected committed record locally."));
    }

    pub fn finish_adopt(&mut self, event_id: EventId, message: String)
        ensures
            final(self)@ == (PageView {
                targets: if old(self)@.targets.adopt_in_flight_event_id == Some(event_id) {
                    TargetsView { adopt_in_flight_event_id: None, ..old(self)@.targets }
                } else {
                    old(self)@.targets
                },
                feedback: Some(message@),
                ..old(self)@
            }),
    {
        self.targets.finish_adopt(event_id);
        self.feedback = Some(message);
    }

    pub fn start_rebroadcast(&mut self, event_id: EventId)
        ensures
            final(self)@ == (PageView {
                targets: TargetsView { rebroadcast_in_flight_event_id: Some(event_id), ..old(self)@.targets },
                feedback: Some("Rebroadcasting selected record to connected sessions."@),
                ..old(self)@
            }),
    {
        self.targets.start_rebroadcast(event_id);
        self.feedback = Some(String::from_str("Rebroadcasting selected record to connected sessions."));
    }

    pub fn finish_rebroadcast(&mut self, event_id: EventId, message: String)
        ensures
            final(self)@ == (PageView {
                targets: if old(self)@.targets.rebroadcast_in_flight_event_id == Some(event_id) {
                    TargetsView { rebroadcast_in_flight_event_id: None, ..old(self)@.targets }
                } else {
                    old(self)@.targets
                },
                feedback: Some(message@),
                ..old(self)@
            }),
    {
        self.targets.finish_rebroadcast(event_id);
        self.feedback = Some(message);
    }

    pub fn cache_record(&mut self, record: ClipboardRecord)
        requires
            old(self)@.wf(),
        ensures
            final(self)@ == (PageView { history: old(self)@.history.with_cached(record), ..old(self)@ }),
            final(self)@.wf(),
    {
        self.history.cache_record(record);
    }

    pub fn set_broadcast_scope(&mut self, scope: ClipboardBroadcastScope)
        ensures
            final(self)@ == (PageView {
                targets: TargetsView { broadcast_scope: scope, ..old(self)@.targets },
                ..old(self)@
            }),
    {
        self.targets.set_broadcast_scope(scope);
    }

    pub fn toggle_session_target(&mut self, session_id: SessionId)
        requires
            old(self)@.wf(),
        ensures
            final(self)@.wf(),
            final(self)@.history == old(self)@.history,
            final(self)@.editor == old(self)@.editor,
            final(self)@.read_event_id == old(self)@.read_event_id,
            final(self)@.feedback == old(self)@.feedback,
            final(self)@.targets.broadcast_scope == old(self)@.targets.broadcast_scope,
            final(self)@.targets.adopt_in_flight_event_id == old(self)@.targets.adopt_in_flight_event_id,
            final(self)@.targets.rebroadcast_in_flight_event_id == old(self)@.targets.rebroadcast_in_flight_event_id,
            old(self)@.targets.broadcast_scope != ClipboardBroadcastScope::SelectedSessions
                ==> final(self)@.targets.selected_session_ids == old(self)@.targets.selected_session_ids,
            old(self)@.targets.broadcast_scope == ClipboardBroadcastScope::SelectedSessions ==> toggled_membership(
                old(self)@.targets.selected_session_ids,
                final(self)@.targets.selected_session_ids,
                session_id,
            ),
    {
        self.targets.toggle_session_target(session_id);
    }

    pub fn rebroadcast_target(&self) -> (r: SessionTarget)
        ensures
            self@.targets.broadcast_scope == ClipboardBroadcastScope::AllConnected ==> r is AllConnected,
            self@.targets.broadcast_scope == ClipboardBroadcastScope::SelectedSessions ==> (r matches SessionTarget::Sessions(ids)
                && ids@ == self@.targets.selected_session_ids),
    {
        self.targets.rebroadcast_target()
    }
}

} // verus!
