//! The clipboard page as the view renders it, and the labels of a record.
use vstd::prelude::*;
use vstd::std_specs::iter::IteratorSpec;

use crate::ids::{EventId, SessionId};
use crate::text::{hex_char, string_push};
use super::editor::ClipboardDetailTab;
use super::history::{ClipboardHistoryLoadState, ClipboardSelection, opt_deref};
use super::model::{
    ClipboardRecord, ClipboardRecordSource, ClipboardWorkspaceViewState, WorkspaceSessionTargetViewState,
};
use super::page::{ClipboardPageState, PageView, opt_event_id, opt_string_view};
use super::targets::ClipboardBroadcastScope;

verus! {

broadcast use vstd::string::group_string_axioms;

/// One row of the history list.
#[derive(Debug)]
pub struct ClipboardHistoryRowViewState {
    pub record: ClipboardRecord,
    pub selected: bool,
}

/// One connected session in the target list.
#[derive(Debug)]
pub struct ClipboardTargetViewState {
    pub id: SessionId,
    pub device_id: String,
    pub secondary_label: String,
    pub selected: bool,
    pub interactive: bool,
}

/// Everything the clipboard page renders.
#[derive(Debug)]
pub struct ClipboardPageViewState {
    pub page_ready: bool,
    pub latest_record: Option<ClipboardRecord>,
    pub selected_record: Option<ClipboardRecord>,
    pub latest_selected: bool,
    pub history_rows: Vec<ClipboardHistoryRowViewState>,
    pub target_rows: Vec<ClipboardTargetViewState>,
    pub detail_tab: ClipboardDetailTab,
    pub broadcast_scope: ClipboardBroadcastScope,
    pub connected_target_count: usize,
    pub selected_target_count: usize,
    pub loaded_history_count: usize,
    pub max_text_bytes: usize,
    pub edit_bytes: usize,
    pub edit_dirty: bool,
    pub can_submit_edit: bool,
    pub can_enter_edit: bool,
    pub history_load_state: ClipboardHistoryLoadState,
    pub can_load_more: bool,
    pub feedback: Option<String>,
    pub submit_in_flight: bool,
    pub adopt_in_flight: bool,
    pub rebroadcast_in_flight: bool,
}

/// The history rows: every loaded record except the latest one, each marked
/// when the selection designates it.
pub open spec fn history_rows_spec(
    records: Seq<ClipboardRecord>,
    latest_id: Option<EventId>,
    selection: ClipboardSelection,
) -> Seq<ClipboardHistoryRowViewState>
    decreases records.len(),
{
    if records.len() == 0 {
        Seq::empty()
    } else {
        let rest = history_rows_spec(records.drop_last(), latest_id, selection);
        let r = records.last();
        if latest_id == Some(r.event_id) {
            rest
        } else {
            rest.push(ClipboardHistoryRowViewState { record: r, selected: selection.matches_spec(r.event_id, latest_id) })
        }
    }
}

/// The row of one connected session.
pub open spec fn target_row_matches(
    row: ClipboardTargetViewState,
    target: WorkspaceSessionTargetViewState,
    selected: Seq<SessionId>,
    scope: ClipboardBroadcastScope,
) -> bool {
    &&& row.id == target.id
    &&& row.device_id@ == target.device_id@
    &&& row.secondary_label@ == target.mode_label@ + " \u{b7} "@ + target.remote_addr_label@
    &&& row.selected == selected.contains(target.id)
    &&& row.interactive == (scope == ClipboardBroadcastScope::SelectedSessions)
}

/// The view of a page that has not loaded yet.
pub open spec fn empty_page_view(v: ClipboardPageViewState) -> bool {
    &&& !v.page_ready
    &&& v.latest_record is None
    &&& v.selected_record is None
    &&& !v.latest_selected
    &&& v.history_rows@.len() == 0
    &&& v.target_rows@.len() == 0
    &&& v.detail_tab == ClipboardDetailTab::Read
    &&& v.broadcast_scope == ClipboardBroadcastScope::AllConnected
    &&& v.connected_target_count == 0
    &&& v.selected_target_count == 0
    &&& v.loaded_history_count == 0
    &&& v.max_text_bytes == 0
    &&& v.edit_bytes == 0
    &&& !v.edit_dirty
    &&& !v.can_submit_edit
    &&& !v.can_enter_edit
    &&& v.history_load_state == ClipboardHistoryLoadState::Idle
    &&& !v.can_load_more
    &&& v.feedback is None
    &&& !v.submit_in_flight
    &&& !v.adopt_in_flight
    &&& !v.rebroadcast_in_flight
}

/// The view of a loaded page.
pub open spec fn loaded_page_view(
    v: ClipboardPageViewState,
    page: ClipboardWorkspaceViewState,
    s: PageView,
    edit_text: &str,
) -> bool {
    let latest_id = opt_event_id(page.latest_record);
    let selected = s.history.selected_record(page.latest_record);
    let selected_id = opt_event_id(selected);
    let targets = page.session_targets@;
    &&& v.page_ready
    &&& v.latest_record == page.latest_record
    &&& v.selected_record == selected
    &&& v.latest_selected == (s.history.selection == ClipboardSelection::LatestCommitted)
    &&& v.history_rows@ == history_rows_spec(s.history.records(), latest_id, s.history.selection)
    &&& v.target_rows@.len() == targets.len()
    &&& forall|i: int| 0 <= i < targets.len() ==> target_row_matches(
        #[trigger] v.target_rows@[i],
        targets[i],
        s.targets.selected_session_ids,
        s.targets.broadcast_scope,
    )
    &&& v.detail_tab == s.editor.detail_tab
    &&& v.broadcast_scope == s.targets.broadcast_scope
    &&& v.connected_target_count == targets.len()
    &&& v.selected_target_count == (match s.targets.broadcast_scope {
        ClipboardBroadcastScope::AllConnected => targets.len(),
        ClipboardBroadcastScope::SelectedSessions => s.targets.selected_session_ids.len(),
    })
    &&& v.loaded_history_count == s.history.records().len()
    &&& v.max_text_bytes == page.max_text_bytes
    &&& v.edit_bytes == edit_text.len()
    &&& v.edit_dirty == s.editor.is_dirty(edit_text@)
    &&& v.can_submit_edit == s.editor.can_submit(edit_text, page.max_text_bytes)
    &&& v.can_enter_edit == (selected_id is Some)
    &&& v.history_load_state == s.history.load_state
    &&& v.can_load_more == (s.history.load_state == ClipboardHistoryLoadState::Idle && (
    s.history.has_older_gap() || s.history.has_newer_gap()))
    &&& opt_string_view(v.feedback) == s.feedback
    &&& v.submit_in_flight == s.editor.submit_in_flight
    &&& v.adopt_in_flight == (s.targets.adopt_in_flight_event_id == selected_id)
    &&& v.rebroadcast_in_flight == (s.targets.rebroadcast_in_flight_event_id == selected_id)
}

fn opt_id_eq(a: Option<EventId>, b: Option<EventId>) -> (r: bool)
    ensures
        r == (a == b),
{
    match (a, b) {
        (Some(x), Some(y)) => x == y,
        (None, None) => true,
        _ => false,
    }
}

fn contains_session(ids: &Vec<SessionId>, id: SessionId) -> (r: bool)
    ensures
        r == ids@.contains(id),
{
    let mut i: usize = 0;
    while i < ids.len()
        invariant
            i <= ids.len(),
            forall|k: int| 0 <= k < i ==> ids@[k] != id,
        decreases ids.len() - i,
    {
        if ids[i] == id {
            return true;
        }
        i = i + 1;
    }
    false
}

fn history_rows(
    records: &Vec<ClipboardRecord>,
    latest_id: Option<EventId>,
    selection: ClipboardSelection,
) -> (rows: Vec<ClipboardHistoryRowViewState>)
    ensures
        rows@ == history_rows_spec(records@, latest_id, selection),
{
    let mut rows: Vec<ClipboardHistoryRowViewState> = Vec::new();
    let mut i: usize = 0;
    while i < records.len()
        invariant
            i <= records.len(),
            rows@ == history_rows_spec(records@.take(i as int), latest_id, selection),
        decreases records.len() - i,
    {
        proof {
            assert(records@.take(i + 1).drop_last() =~= records@.take(i as int));
            assert(records@.take(i + 1).last() == records@[i as int]);
        }
        let record = &records[i];
        if !opt_id_eq(latest_id, Some(record.event_id)) {
            let selected = selection.matches(record.event_id, latest_id);
            rows.push(ClipboardHistoryRowViewState { record: record.clone(), selected });
        }
        i = i + 1;
    }
    assert(records@.take(records.len() as int) =~= records@);
    rows
}

fn target_rows(
    targets: &Vec<WorkspaceSessionTargetViewState>,
    selected: &Vec<SessionId>,
    scope: ClipboardBroadcastScope,
) -> (rows: Vec<ClipboardTargetViewState>)
    ensures
        rows@.len() == targets@.len(),
        forall|i: int| 0 <= i < targets@.len() ==> target_row_matches(#[trigger] rows@[i], targets@[i], selected@, scope),
{
    let mut rows: Vec<ClipboardTargetViewState> = Vec::new();
    let mut i: usize = 0;
    while i < targets.len()
        invariant
            i <= targets.len(),
            rows@.len() == i,
            forall|k: int| 0 <= k < i ==> target_row_matches(#[trigger] rows@[k], targets@[k], selected@, scope),
        decreases targets.len() - i,
    {
        let target = &targets[i];
        let mut secondary_label = target.mode_label.clone();
        secondary_label.append(" \u{b7} ");
        secondary_label.append(target.remote_addr_label.as_str());
        let row = ClipboardTargetViewState {
            id: target.id,
            device_id: target.device_id.clone(),
            secondary_label,
            selected: contains_session(selected, target.id),
            interactive: scope == ClipboardBroadcastScope::SelectedSessions,
        };
        rows.push(row);
        i = i + 1;
    }
    rows
}

/// Builds what the clipboard page renders from the workspace snapshot, the
/// page state and the text of the edit field.
pub fn build_clipboard_page_view_state(
    page: Option<&ClipboardWorkspaceViewState>,
    state: &ClipboardPageState,
    edit_text: &str,
) -> (v: ClipboardPageViewState)
    requires
        state@.wf(),
    ensures
        page is None ==> empty_page_view(v),
        page matches Some(p) ==> loaded_page_view(v, *p, state@, edit_text),
{
    let page = match page {
        Some(page) => page,
        None => {
            return ClipboardPageViewState {
                page_ready: false,
                latest_record: None,
                selected_record: None,
                latest_selected: false,
                history_rows: Vec::new(),
                target_rows: Vec::new(),
                detail_tab: ClipboardDetailTab::Read,
                broadcast_scope: ClipboardBroadcastScope::AllConnected,
                connected_target_count: 0,
                selected_target_count: 0,
                loaded_history_count: 0,
                max_text_bytes: 0,
                edit_bytes: 0,
                edit_dirty: false,
                can_submit_edit: false,
                can_enter_edit: false,
                history_load_state: ClipboardHistoryLoadState::Idle,
                can_load_more: false,
                feedback: None,
                submit_in_flight: false,
                adopt_in_flight: false,
                rebroadcast_in_flight: false,
            };
        },
    };

    let latest_record = match &page.latest_record {
        Some(record) => Some(record.clone()),
        None => None,
    };
    let latest_event_id = match &latest_record {
        Some(record) => Some(record.event_id),
        None => None,
    };
    let selected_record = state.selected_record(latest_record.as_ref());
    let selected_event_id = match &selected_record {
        Some(record) => Some(record.event_id),
        None => None,
    };
    let scope = state.broadcast_scope();
    let target_rows = target_rows(&page.session_targets, state.selected_session_ids(), scope);
    let connected_target_count = target_rows.len();
    let selected_target_count = match scope {
        ClipboardBroadcastScope::AllConnected => connected_target_count,
        ClipboardBroadcastScope::SelectedSessions => state.selected_session_ids().len(),
    };
    let selection = state.selection();
    let records = state.history_records();
    let history_rows = history_rows(&records, latest_event_id, selection);
    let latest_selected = match selection {
        ClipboardSelection::LatestCommitted => true,
        ClipboardSelection::Pinned(_) => false,
    };
    let feedback = match state.feedback() {
        Some(message) => Some(message.clone()),
        None => None,
    };

    ClipboardPageViewState {
        page_ready: true,
        latest_record,
        selected_record,
        latest_selected,
        history_rows,
        target_rows,
        detail_tab: state.detail_tab(),
        broadcast_scope: scope,
        connected_target_count,
        selected_target_count,
        loaded_history_count: records.len(),
        max_text_bytes: page.max_text_bytes,
        edit_bytes: edit_text.len(),
        edit_dirty: state.is_edit_dirty(edit_text),
        can_submit_edit: state.can_submit_edit(edit_text, page.max_text_bytes),
        can_enter_edit: selected_event_id.is_some(),
        history_load_state: state.history_load_state(),
        can_load_more: state.can_load_more(),
        feedback,
        submit_in_flight: state.submit_in_flight(),
        adopt_in_flight: opt_id_eq(state.adopt_in_flight_event_id(), selected_event_id),
        rebroadcast_in_flight: opt_id_eq(state.rebroadcast_in_flight_event_id(), selected_event_id),
    }
}

pub open spec fn source_label_spec(source: ClipboardRecordSource) -> Seq<char> {
    match source {
        ClipboardRecordSource::LocalCapture => "Local Capture"@,
        ClipboardRecordSource::RemoteSync => "Remote Sync"@,
        ClipboardRecordSource::UserSubmit => "User Submit"@,
    }
}

/// The label shown for where a record came from.
pub fn clipboard_source_label(source: ClipboardRecordSource) -> (label: &'static str)
    ensures
        label@ == source_label_spec(source),
{
    match source {
        ClipboardRecordSource::LocalCapture => "Local Capture",
        ClipboardRecordSource::RemoteSync => "Remote Sync",
        ClipboardRecordSource::UserSubmit => "User Submit",
    }
}

pub open spec fn newline_to_space(c: char) -> char {
    if c == '\n' {
        ' '
    } else {
        c
    }
}

/// The text with every newline replaced by a space.
pub open spec fn flatten_newlines(s: Seq<char>) -> Seq<char> {
    Seq::new(s.len(), |i: int| newline_to_space(s[i]))
}

/// A one-line preview: newlines become spaces, and text longer than
/// `max_chars` characters is cut there and ends with an ellipsis.
pub open spec fn preview_spec(content: Seq<char>, max_chars: nat) -> Seq<char> {
    let flat = flatten_newlines(content);
    if content.len() > max_chars {
        flat.take(max_chars as int) + "\u{2026}"@
    } else {
        flat
    }
}

/// The one-line preview of a record's content.
pub fn clipboard_record_preview(content: &str, max_chars: usize) -> (preview: String)
    ensures
        preview@ == preview_spec(content@, max_chars as nat),
{
    let ghost flat = flatten_newlines(content@);
    let mut chars = content.chars();
    let mut out = String::new();
    let mut taken: usize = 0;
    while taken < max_chars
        invariant_except_break
            taken <= max_chars,
        invariant
            taken <= content@.len(),
            chars.remaining() == content@.skip(taken as int),
            out@ == flat.take(taken as int),
            flat == flatten_newlines(content@),
        ensures
            taken <= max_chars,
            taken == max_chars || taken == content@.len(),
            taken < max_chars ==> out@ == flat,
        decreases max_chars - taken,
    {
        match chars.next() {
            Some(c) => {
                proof {
                    assert(content@.skip(taken as int)[0] == content@[taken as int]);
                    assert(content@.skip(taken as int).drop_first() =~= content@.skip(taken + 1));
                }
                let mapped = if c == '\n' { ' ' } else { c };
                string_push(&mut out, mapped);
                proof {
                    assert(flat.take(taken + 1) =~= flat.take(taken as int).push(flat[taken as int]));
                }
                taken = taken + 1;
            },
            None => {
                proof {
                    assert(content@.skip(taken as int).len() == 0);
                    assert(flat.take(taken as int) =~= flat);
                }
                break;
            },
        }
    }
    if taken < max_chars {
        return out;
    }
    match chars.next() {
        Some(_) => {
            out.append("\u{2026}");
        },
        None => {
            proof {
                assert(content@.skip(taken as int).len() == 0);
                assert(flat.take(taken as int) =~= flat);
            }
        },
    }
    out
}

/// Powers of sixteen.
pub open spec fn pow16(n: nat) -> nat
    decreases n,
{
    if n == 0 {
        1
    } else {
        16 * pow16((n - 1) as nat)
    }
}

/// The first eight characters of the event id's lower-case, zero-padded
/// 32-digit hexadecimal form (the UUID's simple form).
pub open spec fn short_event_id_spec(id: EventId) -> Seq<char> {
    Seq::new(8, |i: int| hex_char(((id.0 as nat) / pow16((31 - i) as nat)) % 16))
}

fn hex_digit_char(d: u128) -> (c: char)
    requires
        d < 16,
    ensures
        c == hex_char(d as nat),
{
    if d == 0 { '0' }
    else if d == 1 { '1' }
    else if d == 2 { '2' }
    else if d == 3 { '3' }
    else if d == 4 { '4' }
    else if d == 5 { '5' }
    else if d == 6 { '6' }
    else if d == 7 { '7' }
    else if d == 8 { '8' }
    else if d == 9 { '9' }
    else if d == 10 { 'a' }
    else if d == 11 { 'b' }
    else if d == 12 { 'c' }
    else if d == 13 { 'd' }
    else if d == 14 { 'e' }
    else { 'f' }
}

proof fn lemma_pow16_positive(n: nat)
    ensures
        pow16(n) >= 1,
    decreases n,
{
    if n > 0 {
        lemma_pow16_positive((n - 1) as nat);
    }
}

/// The short form of a record's event id shown in the detail panel.
pub fn clipboard_short_event_id(record: &ClipboardRecord) -> (short: String)
    ensures
        short@ == short_event_id_spec(record.event_id),
{
    let value = record.event_id.0;
    let mut divisor: u128 = 0x1000_0000_0000_0000_0000_0000_0000_0000;
    proof {
        reveal_with_fuel(pow16, 32);
        assert(divisor == pow16(31));
    }
    let mut out = String::new();
    let mut i: usize = 0;
    while i < 8
        invariant
            i <= 8,
            divisor as nat == pow16((31 - i) as nat),
            out@ =~= short_event_id_spec(record.event_id).take(i as int),
            value == record.event_id.0,
        decreases 8 - i,
    {
        proof {
            assert(pow16((31 - i) as nat) == 16 * pow16((30 - i) as nat));
            lemma_pow16_positive((31 - i) as nat);
        }
        let digit = (value / divisor) % 16;
        string_push(&mut out, hex_digit_char(digit));
        divisor = divisor / 16;
        i = i + 1;
    }
    out
}

/// A preview holds no newline and at most `max_chars` characters of the
/// content plus the ellipsis; content that fits is shown whole.
pub proof fn law_preview_is_one_bounded_line(content: Seq<char>, max_chars: nat)
    ensures
        !preview_spec(content, max_chars).contains('\n'),
        preview_spec(content, max_chars).len() <= max_chars + 1,
        content.len() <= max_chars ==> preview_spec(content, max_chars).len() == content.len(),
{
    let p = preview_spec(content, max_chars);
    let flat = flatten_newlines(content);
    if p.contains('\n') {
        let k = choose|k: int| 0 <= k < p.len() && p[k] == '\n';
        if content.len() > max_chars {
            if k < max_chars {
                assert(p[k] == flat[k]);
            } else {
                assert(p[k] == "\u{2026}"@[k - max_chars]);
                reveal_strlit("\u{2026}");
            }
        } else {
            assert(p[k] == flat[k]);
        }
    }
    if content.len() > max_chars {
        reveal_strlit("\u{2026}");
    }
}

/// The short event id is always eight lower-case hexadecimal characters.
pub proof fn law_short_event_id_has_eight_chars(id: EventId)
    ensures
        short_event_id_spec(id).len() == 8,
{
}

} // verus!
