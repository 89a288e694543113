//! What the broadcast-target panel and the history panel of the clipboard
//! page show besides their rows.
use vstd::prelude::*;

use crate::text::decimal_digits;
use crate::text::decimal_string;
use super::model::{ClipboardHistoryDirection, ClipboardRecord};
use super::editor::ClipboardDetailTab;
use super::targets::ClipboardBroadcastScope;
use super::time_label::{clipboard_record_time_label, local_clock_label_spec, readable_offset};
use super::view_state::{
    ClipboardPageViewState, clipboard_record_preview, clipboard_short_event_id, clipboard_source_label,
    preview_spec, short_event_id_spec, source_label_spec,
};

verus! {

broadcast use vstd::string::group_string_axioms;

/// The header and empty notice of the broadcast-target panel.
#[derive(Clone, Debug)]
pub struct ClipboardTargetsPanelViewState {
    /// e.g. "Rebroadcast mode: All sessions."
    pub scope_line: String,
    pub all_chip_active: bool,
    pub selected_chip_active: bool,
    /// Shown in place of the target rows when no session is connected.
    pub empty_notice: Option<&'static str>,
}

pub open spec fn scope_label_spec(scope: ClipboardBroadcastScope) -> Seq<char> {
    match scope {
        ClipboardBroadcastScope::AllConnected => "All sessions"@,
        ClipboardBroadcastScope::SelectedSessions => "Selected sessions"@,
    }
}

pub open spec fn opt_static_view(o: Option<&'static str>) -> Option<Seq<char>> {
    match o {
        Some(s) => Some(s@),
        None => None,
    }
}

pub fn clipboard_targets_panel_view_state(snapshot: &ClipboardPageViewState) -> (v: ClipboardTargetsPanelViewState)
    ensures
        v.scope_line@ == "Rebroadcast mode: "@ + scope_label_spec(snapshot.broadcast_scope) + "."@,
        v.all_chip_active == (snapshot.broadcast_scope == ClipboardBroadcastScope::AllConnected),
        v.selected_chip_active == (snapshot.broadcast_scope == ClipboardBroadcastScope::SelectedSessions),
        snapshot.target_rows@.len() == 0 ==> opt_static_view(v.empty_notice) == Some(
            "No active sessions are available for clipboard rebroadcast."@,
        ),
        snapshot.target_rows@.len() > 0 ==> v.empty_notice is None,
{
    let scope_label = match snapshot.broadcast_scope {
        ClipboardBroadcastScope::AllConnected => "All sessions",
        ClipboardBroadcastScope::SelectedSessions => "Selected sessions",
    };
    let mut scope_line = String::from_str("Rebroadcast mode: ");
    scope_line.append(scope_label);
    scope_line.append(".");
    ClipboardTargetsPanelViewState {
        scope_line,
        all_chip_active: snapshot.broadcast_scope == ClipboardBroadcastScope::AllConnected,
        selected_chip_active: snapshot.broadcast_scope == ClipboardBroadcastScope::SelectedSessions,
        empty_notice: if snapshot.target_rows.len() == 0 {
            Some("No active sessions are available for clipboard rebroadcast.")
        } else {
            None
        },
    }
}

/// Characters of content the history list shows per record.
pub const HISTORY_PREVIEW_CHARS: usize = 92;

/// The local creation time and the short event id of a record, e.g.
/// "09:14:02 · event 67e55044": the clock time of the creation in the zone of
/// some offset from UTC in which it can be read.
pub open spec fn meta_line_is(line: Seq<char>, record: ClipboardRecord) -> bool {
    exists|offset: int|
        readable_offset(record.created_at_ms as int, offset)
        && line == #[trigger] local_clock_label_spec(record.created_at_ms as int, offset)
            + " \u{b7} event "@ + short_event_id_spec(record.event_id)
}

/// The creation time and short event id shown under a record.
pub fn record_meta_line(record: &ClipboardRecord) -> (line: String)
    ensures
        meta_line_is(line@, *record),
{
    let mut line = clipboard_record_time_label(record);
    line.append(" \u{b7} event ");
    let short = clipboard_short_event_id(record);
    line.append(short.as_str());
    line
}

/// A record in the history list (or the latest record above it).
#[derive(Clone, Debug)]
pub struct ClipboardRecordItemViewState {
    pub device_id: String,
    pub source_label: &'static str,
    pub meta_line: String,
    pub preview: String,
    pub selected: bool,
}

pub open spec fn record_item_is(item: ClipboardRecordItemViewState, record: ClipboardRecord, selected: bool) -> bool {
    &&& item.device_id@ == record.origin_device_id@
    &&& item.source_label@ == source_label_spec(record.source)
    &&& meta_line_is(item.meta_line@, record)
    &&& item.preview@ == preview_spec(record.content@, HISTORY_PREVIEW_CHARS as nat)
    &&& item.selected == selected
}

/// What the list shows of `record`.
pub fn record_item_view_state(record: &ClipboardRecord, selected: bool) -> (item: ClipboardRecordItemViewState)
    ensures
        record_item_is(item, *record, selected),
{
    ClipboardRecordItemViewState {
        device_id: record.origin_device_id.clone(),
        source_label: clipboard_source_label(record.source),
        meta_line: record_meta_line(record),
        preview: clipboard_record_preview(record.content.as_str(), HISTORY_PREVIEW_CHARS),
        selected,
    }
}

/// The header, latest item and empty notice of the history panel.
#[derive(Clone, Debug)]
pub struct ClipboardHistoryPanelViewState {
    /// e.g. "12 loaded".
    pub loaded_line: String,
    pub latest: Option<ClipboardRecordItemViewState>,
    /// Shown in place of the history list when it has no row.
    pub empty_notice: Option<&'static str>,
}

pub fn clipboard_history_panel_view_state(snapshot: &ClipboardPageViewState) -> (v: ClipboardHistoryPanelViewState)
    ensures
        v.loaded_line@ == decimal_digits(snapshot.loaded_history_count as nat) + " loaded"@,
        snapshot.latest_record is None ==> v.latest is None,
        snapshot.latest_record matches Some(r) ==> (v.latest matches Some(item) && record_item_is(
            item,
            r,
            snapshot.latest_selected,
        )),
        snapshot.history_rows@.len() == 0 ==> opt_static_view(v.empty_notice) == Some(
            "No earlier committed records are loaded yet."@,
        ),
        snapshot.history_rows@.len() > 0 ==> v.empty_notice is None,
{
    let mut loaded_line = decimal_string(snapshot.loaded_history_count as u64);
    loaded_line.append(" loaded");
    let latest = match &snapshot.latest_record {
        Some(record) => Some(record_item_view_state(record, snapshot.latest_selected)),
        None => None,
    };
    let empty_notice = if snapshot.history_rows.len() == 0 {
        Some("No earlier committed records are loaded yet.")
    } else {
        None
    };
    ClipboardHistoryPanelViewState { loaded_line, latest, empty_notice }
}

/// A range of history that is not loaded, shown between records.
#[derive(Clone, Debug)]
pub struct ClipboardHistoryGapItemViewState {
    pub label: String,
    /// A click loads the range.
    pub interactive: bool,
}

pub open spec fn gap_label_spec(direction: ClipboardHistoryDirection, loading: bool, label: Seq<char>) -> Seq<char> {
    if loading {
        match direction {
            ClipboardHistoryDirection::Older => "Loading older history\u{2026}"@,
            ClipboardHistoryDirection::Newer => "Loading newer history\u{2026}"@,
        }
    } else {
        label
    }
}

/// The gap item for a range in `direction`; while it loads it says so and
/// cannot be clicked.
pub fn history_gap_item_view_state(
    direction: ClipboardHistoryDirection,
    loading: bool,
    label: &str,
    interactive: bool,
) -> (v: ClipboardHistoryGapItemViewState)
    ensures
        v.label@ == gap_label_spec(direction, loading, label@),
        v.interactive == (interactive && !loading),
{
    let text: &str = if loading {
        match direction {
            ClipboardHistoryDirection::Older => "Loading older history\u{2026}",
            ClipboardHistoryDirection::Newer => "Loading newer history\u{2026}",
        }
    } else {
        label
    };
    ClipboardHistoryGapItemViewState { label: text.to_owned(), interactive: interactive && !loading }
}

/// The counters of the clipboard page header.
#[derive(Clone, Debug)]
pub struct ClipboardHeaderViewState {
    pub sessions: String,
    pub history: String,
    /// "All connected", or the number of selected sessions, e.g. "2 selected".
    pub broadcast: String,
}

pub fn clipboard_header_view_state(snapshot: &ClipboardPageViewState) -> (v: ClipboardHeaderViewState)
    ensures
        v.sessions@ == decimal_digits(snapshot.connected_target_count as nat),
        v.history@ == decimal_digits(snapshot.loaded_history_count as nat),
        v.broadcast@ == (match snapshot.broadcast_scope {
            ClipboardBroadcastScope::AllConnected => "All connected"@,
            ClipboardBroadcastScope::SelectedSessions => decimal_digits(snapshot.selected_target_count as nat)
                + " selected"@,
        }),
{
    let broadcast = match snapshot.broadcast_scope {
        ClipboardBroadcastScope::AllConnected => String::from_str("All connected"),
        ClipboardBroadcastScope::SelectedSessions => {
            let mut s = decimal_string(snapshot.selected_target_count as u64);
            s.append(" selected");
            s
        },
    };
    ClipboardHeaderViewState {
        sessions: decimal_string(snapshot.connected_target_count as u64),
        history: decimal_string(snapshot.loaded_history_count as u64),
        broadcast,
    }
}

/// The selected record in the detail panel.
#[derive(Clone, Debug)]
pub struct ClipboardSelectedInfoViewState {
    pub source_label: &'static str,
    /// "Latest saved" when the panel follows the latest record, "Pinned item" otherwise.
    pub selection_badge: &'static str,
    pub device_id: String,
    pub meta_line: String,
}

/// The head of the detail panel.
#[derive(Clone, Debug)]
pub struct ClipboardInfoPanelViewState {
    pub selected: Option<ClipboardSelectedInfoViewState>,
    /// Title and hint shown when no record is selected.
    pub empty_title: Option<&'static str>,
    pub empty_hint: Option<&'static str>,
    pub feedback: Option<String>,
}

pub open spec fn opt_string_view(o: Option<String>) -> Option<Seq<char>> {
    match o {
        Some(s) => Some(s@),
        None => None,
    }
}

pub fn clipboard_info_panel_view_state(snapshot: &ClipboardPageViewState) -> (v: ClipboardInfoPanelViewState)
    ensures
        snapshot.selected_record matches Some(r) ==> {
            &&& v.selected matches Some(info) && {
                &&& info.source_label@ == source_label_spec(r.source)
                &&& info.selection_badge@ == (if snapshot.latest_selected { "Latest saved"@ } else { "Pinned item"@ })
                &&& info.device_id@ == r.origin_device_id@
                &&& meta_line_is(info.meta_line@, r)
            }
            &&& v.empty_title is None
            &&& v.empty_hint is None
        },
        snapshot.selected_record is None ==> {
            &&& v.selected is None
            &&& opt_static_view(v.empty_title) == Some("No clipboard item selected"@)
            &&& opt_static_view(v.empty_hint) == Some("Choose an item from history or wait for the next one."@)
        },
        opt_string_view(v.feedback) == opt_string_view(snapshot.feedback),
{
    let feedback = match &snapshot.feedback {
        Some(message) => Some(message.clone()),
        None => None,
    };
    match &snapshot.selected_record {
        Some(record) => ClipboardInfoPanelViewState {
            selected: Some(ClipboardSelectedInfoViewState {
                source_label: clipboard_source_label(record.source),
                selection_badge: if snapshot.latest_selected { "Latest saved" } else { "Pinned item" },
                device_id: record.origin_device_id.clone(),
                meta_line: record_meta_line(record),
            }),
            empty_title: None,
            empty_hint: None,
            feedback,
        },
        None => ClipboardInfoPanelViewState {
            selected: None,
            empty_title: Some("No clipboard item selected"),
            empty_hint: Some("Choose an item from history or wait for the next one."),
            feedback,
        },
    }
}

/// How the edit field's byte counter is shown.
#[derive(Clone, Copy, Debug, PartialEq, Eq, Structural)]
pub enum EditBytesState {
    /// The text is larger than a record may be.
    OverLimit,
    Dirty,
    Unchanged,
}

/// A button of the detail panel.
#[derive(Clone, Copy, Debug)]
pub struct DetailButtonViewState {
    pub label: &'static str,
    pub enabled: bool,
}

/// The detail panel besides its text fields.
#[derive(Clone, Debug)]
pub struct ClipboardContentPanelViewState {
    /// Title and hint shown in place of the panel while no record is selected.
    pub placeholder: Option<(&'static str, &'static str)>,
    pub heading: &'static str,
    pub read_tab_enabled: bool,
    pub edit_tab_enabled: bool,
    /// Read tab: adopt and send; edit tab: save and cancel.
    pub primary: DetailButtonViewState,
    pub secondary: DetailButtonViewState,
    /// e.g. "12 / 4096 bytes"; shown on the edit tab.
    pub edit_bytes_line: String,
    pub edit_bytes_state: EditBytesState,
}

/// A rebroadcast has somewhere to go: some session is connected, or some
/// is selected when only selected sessions receive it.
pub open spec fn can_rebroadcast_spec(snapshot: ClipboardPageViewState) -> bool {
    match snapshot.broadcast_scope {
        ClipboardBroadcastScope::AllConnected => snapshot.connected_target_count > 0,
        ClipboardBroadcastScope::SelectedSessions => snapshot.selected_target_count > 0,
    }
}

pub fn clipboard_content_panel_view_state(snapshot: &ClipboardPageViewState) -> (v: ClipboardContentPanelViewState)
    ensures
        snapshot.selected_record is None ==> (v.placeholder matches Some((t, h)) && t@ == "Clipboard detail"@ && h@
            == "Committed records will appear here once they are loaded."@),
        snapshot.selected_record is Some ==> v.placeholder is None,
        v.heading@ == (if snapshot.detail_tab == ClipboardDetailTab::Read { "Content"@ } else { "Edit"@ }),
        v.read_tab_enabled,
        v.edit_tab_enabled == snapshot.can_enter_edit,
        snapshot.detail_tab == ClipboardDetailTab::Read ==> {
            &&& v.primary.label@ == (if snapshot.adopt_in_flight { "Using"@ } else { "Adopt"@ })
            &&& v.primary.enabled == (snapshot.selected_record is Some && !snapshot.adopt_in_flight)
            &&& v.secondary.label@ == (if snapshot.rebroadcast_in_flight { "Sending"@ } else { "Send"@ })
            &&& v.secondary.enabled == (can_rebroadcast_spec(*snapshot) && snapshot.selected_record is Some
                && !snapshot.rebroadcast_in_flight)
        },
        snapshot.detail_tab == ClipboardDetailTab::Edit ==> {
            &&& v.primary.label@ == (if snapshot.submit_in_flight { "Saving"@ } else { "Save"@ })
            &&& v.primary.enabled == (snapshot.can_submit_edit && !snapshot.submit_in_flight)
            &&& v.secondary.label@ == "Cancel"@
            &&& v.secondary.enabled
        },
        v.edit_bytes_line@ == decimal_digits(snapshot.edit_bytes as nat) + " / "@ + decimal_digits(
            snapshot.max_text_bytes as nat,
        ) + " bytes"@,
        v.edit_bytes_state == (if snapshot.edit_bytes > snapshot.max_text_bytes {
            EditBytesState::OverLimit
        } else if snapshot.edit_dirty {
            EditBytesState::Dirty
        } else {
            EditBytesState::Unchanged
        }),
{
    let placeholder = match &snapshot.selected_record {
        Some(_) => None,
        None => Some(("Clipboard detail", "Committed records will appear here once they are loaded.")),
    };
    let can_rebroadcast = match snapshot.broadcast_scope {
        ClipboardBroadcastScope::AllConnected => snapshot.connected_target_count > 0,
        ClipboardBroadcastScope::SelectedSessions => snapshot.selected_target_count > 0,
    };
    let has_record = snapshot.selected_record.is_some();
    let (heading, primary, secondary) = match snapshot.detail_tab {
        ClipboardDetailTab::Read => (
            "Content",
            DetailButtonViewState {
                label: if snapshot.adopt_in_flight { "Using" } else { "Adopt" },
                enabled: has_record && !snapshot.adopt_in_flight,
            },
            DetailButtonViewState {
                label: if snapshot.rebroadcast_in_flight { "Sending" } else { "Send" },
                enabled: can_rebroadcast && has_record && !snapshot.rebroadcast_in_flight,
            },
        ),
        ClipboardDetailTab::Edit => (
            "Edit",
            DetailButtonViewState {
                label: if snapshot.submit_in_flight { "Saving" } else { "Save" },
                enabled: snapshot.can_submit_edit && !snapshot.submit_in_flight,
            },
            DetailButtonViewState { label: "Cancel", enabled: true },
        ),
    };
    let mut edit_bytes_line = decimal_string(snapshot.edit_bytes as u64);
    edit_bytes_line.append(" / ");
    let max_text = decimal_string(snapshot.max_text_bytes as u64);
    edit_bytes_line.append(max_text.as_str());
    edit_bytes_line.append(" bytes");
    let edit_bytes_state = if snapshot.edit_bytes > snapshot.max_text_bytes {
        EditBytesState::OverLimit
    } else if snapshot.edit_dirty {
        EditBytesState::Dirty
    } else {
        EditBytesState::Unchanged
    };
    ClipboardContentPanelViewState {
        placeholder,
        heading,
        read_tab_enabled: true,
        edit_tab_enabled: snapshot.can_enter_edit,
        primary,
        secondary,
        edit_bytes_line,
        edit_bytes_state,
    }
}

} // verus!
