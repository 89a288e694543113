//! The edit session of the clipboard detail panel.
use vstd::prelude::*;

use crate::ids::EventId;
use super::model::ClipboardRecord;

verus! {

/// Which tab of the detail panel is open.
#[derive(Clone, Copy, Debug, PartialEq, Eq, Structural)]
pub enum ClipboardDetailTab {
    Read,
    Edit,
}

/// The abstract state of an edit session.
pub struct EditorView {
    pub detail_tab: ClipboardDetailTab,
    pub edit_event_id: Option<EventId>,
    pub edit_base_content: Seq<char>,
    pub submit_in_flight: bool,
}

/// Edit session: the record being edited, the text it started from, and
/// whether a save is running.
pub struct ClipboardEditorState {
    detail_tab: ClipboardDetailTab,
    edit_event_id: Option<EventId>,
    edit_base_content: String,
    submit_in_flight: bool,
}

impl View for ClipboardEditorState {
    type V = EditorView;

    closed spec fn view(&self) -> EditorView {
        EditorView {
            detail_tab: self.detail_tab,
            edit_event_id: self.edit_event_id,
            edit_base_content: self.edit_base_content@,
            submit_in_flight: self.submit_in_flight,
        }
    }
}

impl EditorView {
    pub open spec fn initial() -> Self {
        EditorView {
            detail_tab: ClipboardDetailTab::Read,
            edit_event_id: None,
            edit_base_content: Seq::empty(),
            submit_in_flight: false,
        }
    }

    /// The session ended: the read tab is open and nothing is being edited.
    pub open spec fn cleared(self) -> Self {
        EditorView {
            detail_tab: ClipboardDetailTab::Read,
            edit_event_id: None,
            edit_base_content: Seq::empty(),
            ..self
        }
    }

    pub open spec fn is_dirty(self, current_text: Seq<char>) -> bool {
        self.edit_event_id is Some && current_text != self.edit_base_content
    }

    pub open spec fn can_submit(self, current_text: &str, max_text_bytes: usize) -> bool {
        &&& self.edit_event_id is Some
        &&& !self.submit_in_flight
        &&& current_text@ != self.edit_base_content
        &&& current_text.len() <= max_text_bytes
    }
}

impl ClipboardEditorState {
    pub fn new() -> (s: Self)
        ensures
            s@ == EditorView::initial(),
    {
        ClipboardEditorState {
            detail_tab: ClipboardDetailTab::Read,
            edit_event_id: None,
            edit_base_content: String::new(),
            submit_in_flight: false,
        }
    }

    pub fn detail_tab(&self) -> (r: ClipboardDetailTab)
        ensures
            r == self@.detail_tab,
    {
        self.detail_tab
    }

    pub fn submit_in_flight(&self) -> (r: bool)
        ensures
            r == self@.submit_in_flight,
    {
        self.submit_in_flight
    }

    /// Opens the edit tab on `record`, remembering the text it starts from.
    pub fn begin_session(&mut self, record: &ClipboardRecord)
        ensures
            final(self)@ == (EditorView {
                detail_tab: ClipboardDetailTab::Edit,
                edit_event_id: Some(record.event_id),
                edit_base_content: record.content@,
                ..old(self)@
            }),
    {
        self.detail_tab = ClipboardDetailTab::Edit;
        self.edit_event_id = Some(record.event_id);
        self.edit_base_content = record.content.clone();
    }

    /// Ends the session and returns to the read tab.
    pub fn clear_session(&mut self)
        ensures
            final(self)@ == old(self)@.cleared(),
    {
        self.detail_tab = ClipboardDetailTab::Read;
        self.edit_event_id = None;
        self.edit_base_content = String::new();
    }

    /// Whether `current_text` differs from the text the session started from.
    pub fn is_dirty(&self, current_text: &str) -> (r: bool)
        ensures
            r == self@.is_dirty(current_text@),
    {
        self.edit_event_id.is_some() && !crate::text::str_eq(current_text, self.edit_base_content.as_str())
    }

    /// Whether `current_text` may be saved as a new record.
    pub fn can_submit(&self, current_text: &str, max_text_bytes: usize) -> (r: bool)
        ensures
            r == self@.can_submit(current_text, max_text_bytes),
    {
        self.edit_event_id.is_some() && !self.submit_in_flight
            && !crate::text::str_eq(current_text, self.edit_base_content.as_str())
            && current_text.len() <= max_text_bytes
    }

    pub fn start_submit(&mut self)
        ensures
            final(self)@ == (EditorView { submit_in_flight: true, ..old(self)@ }),
    {
        self.submit_in_flight = true;
    }

    /// The save succeeded: the session ends.
    pub fn finish_submit(&mut self)
        ensures
            final(self)@ == (EditorView { submit_in_flight: false, ..old(self)@ }).cleared(),
    {
        self.submit_in_flight = false;
        self.clear_session();
    }

    /// The save failed: the session stays open.
    pub fn fail_submit(&mut self)
        ensures
            final(self)@ == (EditorView { submit_in_flight: false, ..old(self)@ }),
    {
        self.submit_in_flight = false;
    }
}

/// A session that has just opened on a record is not dirty for the
/// record's own text, and cannot be saved until that text changes.
pub proof fn law_fresh_session_is_clean(e: EditorView, record: ClipboardRecord, text: &str, max_text_bytes: usize)
    requires
        text@ == record.content@,
    ensures
        !(EditorView {
            detail_tab: ClipboardDetailTab::Edit,
            edit_event_id: Some(record.event_id),
            edit_base_content: record.content@,
            ..e
        }).is_dirty(text@),
        !(EditorView {
            detail_tab: ClipboardDetailTab::Edit,
            edit_event_id: Some(record.event_id),
            edit_base_content: record.content@,
            ..e
        }).can_submit(text, max_text_bytes),
{
}

} // verus!
