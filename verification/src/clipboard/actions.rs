//! The steps of the clipboard page's actions: which request an action
//! makes, what it marks as running, and what its outcome leaves. The caller
//! runs the request in between and hands back its outcome, with the error's
//! message.
use vstd::prelude::*;

use crate::ids::EventId;
use super::editor::{ClipboardDetailTab, EditorView};
use super::history::{ClipboardHistoryLoadState, ClipboardSelection, HistoryView, opt_deref};
use super::model::{ClipboardHistoryAnchor, ClipboardHistoryDirection, ClipboardHistoryPage, ClipboardRecord};
use super::page::{ClipboardPageState, PageView};
use super::targets::TargetsView;

verus! {

broadcast use vstd::string::group_string_axioms;

/// Rows a history page request asks for.
pub const CLIPBOARD_HISTORY_LIMIT: usize = 24;

/// `ok` on success, otherwise `failed`, ": " and the error's message.
pub open spec fn outcome_message<T>(result: Result<T, String>, ok: Seq<char>, failed: Seq<char>) -> Seq<char> {
    match result {
        Ok(_) => ok,
        Err(e) => failed + ": "@ + e@,
    }
}

fn failed_with(failed: &str, error: &String) -> (r: String)
    ensures
        r@ == failed@ + ": "@ + error@,
{
    let mut s = String::from_str(failed);
    s.append(": ");
    s.append(error.as_str());
    s
}

/// The page state after a failed or empty history request.
pub open spec fn failed_load(v: PageView, message: Seq<char>) -> PageView {
    PageView {
        history: HistoryView { bootstrapped: true, load_state: ClipboardHistoryLoadState::Idle, ..v.history },
        feedback: Some(message),
        ..v
    }
}

impl ClipboardPageState {
    /// The record the adopt button acts on: the selected one, unless it is
    /// being adopted already.
    pub fn adopt_candidate(&self, latest_record: Option<&ClipboardRecord>) -> (id: Option<EventId>)
        requires
            self@.wf(),
        ensures
            id == (match self@.history.selected_record(opt_deref(latest_record)) {
                Some(r) => if self@.targets.adopt_in_flight_event_id == Some(r.event_id) {
                    None
                } else {
                    Some(r.event_id)
                },
                None => None,
            }),
    {
        match self.selected_record(latest_record) {
            Some(record) => match self.adopt_in_flight_event_id() {
                Some(running) => if running == record.event_id {
                    None
                } else {
                    Some(record.event_id)
                },
                None => Some(record.event_id),
            },
            None => None,
        }
    }

    /// The record the rebroadcast button acts on: the selected one, unless
    /// it is being rebroadcast already.
    pub fn rebroadcast_candidate(&self, latest_record: Option<&ClipboardRecord>) -> (id: Option<EventId>)
        requires
            self@.wf(),
        ensures
            id == (match self@.history.selected_record(opt_deref(latest_record)) {
                Some(r) => if self@.targets.rebroadcast_in_flight_event_id == Some(r.event_id) {
                    None
                } else {
                    Some(r.event_id)
                },
                None => None,
            }),
    {
        match self.selected_record(latest_record) {
            Some(record) => match self.rebroadcast_in_flight_event_id() {
                Some(running) => if running == record.event_id {
                    None
                } else {
                    Some(record.event_id)
                },
                None => Some(record.event_id),
            },
            None => None,
        }
    }

    /// Adopting `event_id` ended.
    pub fn finish_adopt_outcome(&mut self, event_id: EventId, result: Result<(), String>)
        ensures
            final(self)@ == (PageView {
                targets: if old(self)@.targets.adopt_in_flight_event_id == Some(event_id) {
                    TargetsView { adopt_in_flight_event_id: None, ..old(self)@.targets }
                } else {
                    old(self)@.targets
                },
                feedback: Some(
                    outcome_message(result, "Selected record adopted locally."@, "Failed to adopt selected record"@),
                ),
                ..old(self)@
            }),
    {
        let message = match &result {
            Ok(()) => String::from_str("Selected record adopted locally."),
            Err(e) => failed_with("Failed to adopt selected record", e),
        };
        self.finish_adopt(event_id, message);
    }

    /// Rebroadcasting `event_id` ended.
    pub fn finish_rebroadcast_outcome(&mut self, event_id: EventId, result: Result<(), String>)
        ensures
            final(self)@ == (PageView {
                targets: if old(self)@.targets.rebroadcast_in_flight_event_id == Some(event_id) {
                    TargetsView { rebroadcast_in_flight_event_id: None, ..old(self)@.targets }
                } else {
                    old(self)@.targets
                },
                feedback: Some(
                    outcome_message(
                        result,
                        "Rebroadcast queued for the selected session target."@,
                        "Failed to rebroadcast selected record"@,
                    ),
                ),
                ..old(self)@
            }),
    {
        let message = match &result {
            Ok(()) => String::from_str("Rebroadcast queued for the selected session target."),
            Err(e) => failed_with("Failed to rebroadcast selected record", e),
        };
        self.finish_rebroadcast(event_id, message);
    }

    /// Saving the edited text ended: on success the page follows the latest
    /// record again and the edit field is to be emptied.
    pub fn finish_submit_outcome(&mut self, result: Result<(), String>)
        ensures
            result is Ok ==> final(self)@ == (PageView {
                history: HistoryView {
                    selection: ClipboardSelection::LatestCommitted,
                    ..old(self)@.history
                },
                editor: (EditorView { submit_in_flight: false, ..old(self)@.editor }).cleared(),
                feedback: Some("Edited record saved. Waiting for the latest committed snapshot update."@),
                ..old(self)@
            }),
            result matches Err(e) ==> final(self)@ == (PageView {
                editor: EditorView { submit_in_flight: false, ..old(self)@.editor },
                feedback: Some("Failed to save edited clipboard content"@ + ": "@ + e@),
                ..old(self)@
            }),
    {
        match &result {
            Ok(()) => self.finish_submit(
                String::from_str("Edited record saved. Waiting for the latest committed snapshot update."),
            ),
            Err(e) => self.fail_submit(failed_with("Failed to save edited clipboard content", e)),
        }
    }

    /// Opens a tab of the detail panel: the read tab ends any edit session
    /// and the edit field is to be emptied (`Some` of an empty text); the
    /// edit tab starts a session on the selected record and the field is to
    /// be loaded with its content. Without a selected record the edit tab
    /// does nothing (`None`).
    pub fn open_detail_tab(&mut self, tab: ClipboardDetailTab, latest_record: Option<&ClipboardRecord>) -> (edit_text: Option<String>)
        requires
            old(self)@.wf(),
        ensures
            final(self)@.wf(),
            tab == ClipboardDetailTab::Read ==> {
                &&& final(self)@ == (PageView { editor: old(self)@.editor.cleared(), ..old(self)@ })
                &&& edit_text matches Some(t) && t@.len() == 0
            },
            tab == ClipboardDetailTab::Edit ==> match old(self)@.history.selected_record(opt_deref(latest_record)) {
                Some(r) => {
                    &&& final(self)@ == (PageView {
                        editor: EditorView {
                            detail_tab: ClipboardDetailTab::Edit,
                            edit_event_id: Some(r.event_id),
                            edit_base_content: r.content@,
                            ..old(self)@.editor
                        },
                        ..old(self)@
                    })
                    &&& edit_text matches Some(t) && t@ == r.content@
                },
                None => final(self)@ == old(self)@ && edit_text is None,
            },
    {
        match tab {
            ClipboardDetailTab::Read => {
                self.clear_edit_session();
                Some(String::new())
            },
            ClipboardDetailTab::Edit => match self.selected_record(latest_record) {
                Some(record) => {
                    self.begin_edit_session(&record);
                    Some(record.content)
                },
                None => None,
            },
        }
    }

    /// Starts loading the older side of the window: the anchor to load
    /// from, when a gap is there and no load is running.
    pub fn begin_older_load(&mut self) -> (anchor: Option<ClipboardHistoryAnchor>)
        ensures
            (old(self)@.history.has_older_gap() && old(self)@.history.load_state == ClipboardHistoryLoadState::Idle)
                ==> {
                &&& anchor == old(self)@.history.older_anchor
                &&& final(self)@ == (PageView {
                    history: HistoryView {
                        load_state: ClipboardHistoryLoadState::LoadingOlder,
                        ..old(self)@.history
                    },
                    ..old(self)@
                })
            },
            !(old(self)@.history.has_older_gap() && old(self)@.history.load_state == ClipboardHistoryLoadState::Idle)
                ==> anchor is None && final(self)@ == old(self)@,
    {
        if !self.can_load_older() {
            return None;
        }
        let anchor = match self.older_anchor() {
            Some(anchor) => anchor,
            None => {
                return None;
            },
        };
        if !self.begin_history_load(ClipboardHistoryDirection::Older, false) {
            return None;
        }
        Some(anchor)
    }

    /// Starts loading the newer side of the window: the anchor to load
    /// from, when a gap is there and no load is running.
    pub fn begin_newer_load(&mut self) -> (anchor: Option<ClipboardHistoryAnchor>)
        ensures
            (old(self)@.history.has_newer_gap() && old(self)@.history.load_state == ClipboardHistoryLoadState::Idle)
                ==> {
                &&& anchor == old(self)@.history.newer_anchor
                &&& final(self)@ == (PageView {
                    history: HistoryView {
                        load_state: ClipboardHistoryLoadState::LoadingNewer,
                        ..old(self)@.history
                    },
                    ..old(self)@
                })
            },
            !(old(self)@.history.has_newer_gap() && old(self)@.history.load_state == ClipboardHistoryLoadState::Idle)
                ==> anchor is None && final(self)@ == old(self)@,
    {
        if !self.can_load_newer() {
            return None;
        }
        let anchor = match self.newer_anchor() {
            Some(anchor) => anchor,
            None => {
                return None;
            },
        };
        if !self.begin_history_load(ClipboardHistoryDirection::Newer, false) {
            return None;
        }
        Some(anchor)
    }

    /// Starts the first history load when none has been made yet; says
    /// whether a page (the newest one, without anchor) is to be requested.
    pub fn begin_bootstrap_load(&mut self) -> (started: bool)
        ensures
            started == (!old(self)@.history.bootstrapped && old(self)@.history.load_state
                == ClipboardHistoryLoadState::Idle),
            started ==> final(self)@ == (PageView {
                history: HistoryView { load_state: ClipboardHistoryLoadState::LoadingInitial, ..old(self)@.history },
                ..old(self)@
            }),
            !started ==> final(self)@ == old(self)@,
    {
        if self.history_bootstrapped() {
            return false;
        }
        self.begin_history_load(ClipboardHistoryDirection::Older, true)
    }

    /// No history request could be made yet.
    pub fn report_history_unavailable(&mut self)
        ensures
            final(self)@ == failed_load(old(self)@, "Clipboard history is still loading."@),
    {
        self.fail_history_load(String::from_str("Clipboard history is still loading."));
    }

    /// A history page request ended. An empty page that leaves the window
    /// empty says that there is no saved item yet.
    pub fn finish_history_page(&mut self, direction: ClipboardHistoryDirection, result: Result<ClipboardHistoryPage, String>)
        requires
            old(self)@.wf(),
        ensures
            final(self)@.wf(),
            result matches Err(e) ==> final(self)@ == failed_load(
                old(self)@,
                "Couldn't load clipboard history"@ + ": "@ + e@,
            ),
            result matches Ok(page) ==> {
                let loaded = PageView { history: old(self)@.history.finished(direction, page), ..old(self)@ };
                if page.records@.len() == 0 && loaded.history.records().len() == 0 {
                    final(self)@ == failed_load(loaded, "No saved clipboard items yet."@)
                } else {
                    final(self)@ == loaded
                }
            },
    {
        match result {
            Ok(page) => {
                let loaded_empty = page.records.len() == 0;
                self.finish_history_load(direction, page);
                if loaded_empty && self.history_records().len() == 0 {
                    self.fail_history_load(String::from_str("No saved clipboard items yet."));
                }
            },
            Err(e) => {
                self.fail_history_load(failed_with("Couldn't load clipboard history", &e));
            },
        }
    }

    /// Fetching a selected record that was not cached ended.
    pub fn finish_record_fetch(&mut self, result: Result<ClipboardRecord, String>)
        requires
            old(self)@.wf(),
        ensures
            final(self)@.wf(),
            result matches Ok(r) ==> final(self)@ == (PageView {
                history: old(self)@.history.with_cached(r),
                ..old(self)@
            }),
            result matches Err(e) ==> final(self)@ == failed_load(old(self)@, "Couldn't load this clipboard item"@ + ": "@ + e@),
    {
        match result {
            Ok(record) => self.cache_record(record),
            Err(e) => self.fail_history_load(failed_with("Couldn't load this clipboard item", &e)),
        }
    }
}

} // verus!
