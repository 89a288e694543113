use nooboard_gui::clipboard::editor::{ClipboardDetailTab, ClipboardEditorState};
use nooboard_gui::clipboard::history::{ClipboardHistoryLoadState, ClipboardSelection};
use nooboard_gui::clipboard::model::{
    ClipboardHistoryDirection, ClipboardHistoryPage, ClipboardRecord, ClipboardRecordSource,
    ClipboardWorkspaceViewState, WorkspaceSessionTargetViewState,
};
use nooboard_gui::clipboard::page::ClipboardPageState;
use nooboard_gui::clipboard::targets::{ClipboardBroadcastScope, ClipboardTargetSelectionState, SessionTarget};
use nooboard_gui::clipboard::time_label::{clipboard_record_time_label, clock_label, offset_is_readable, record_clock_label_at};
use nooboard_gui::clipboard::view_state::{
    build_clipboard_page_view_state, clipboard_record_preview, clipboard_short_event_id, clipboard_source_label,
};
use nooboard_gui::ids::{EventId, SessionId};
use nooboard_gui::clipboard::panels::clipboard_targets_panel_view_state;
use nooboard_gui::clipboard::panels::{
    clipboard_content_panel_view_state, EditBytesState,
    clipboard_header_view_state, clipboard_history_panel_view_state, clipboard_info_panel_view_state,
    history_gap_item_view_state, record_item_view_state,
};

fn record(event_id: EventId, content: &str, created_at_ms: i64) -> ClipboardRecord {
    ClipboardRecord {
        event_id,
        source: ClipboardRecordSource::UserSubmit,
        origin_noob_id: "local".to_string(),
        origin_device_id: "desk-01".to_string(),
        created_at_ms,
        applied_at_ms: created_at_ms,
        content: content.to_string(),
    }
}

fn session(id: u128, device: &str) -> WorkspaceSessionTargetViewState {
    WorkspaceSessionTargetViewState {
        id: SessionId(id),
        device_id: device.to_string(),
        mode_label: "LAN".to_string(),
        remote_addr_label: "10.0.0.2:4000".to_string(),
    }
}

#[test]
fn preview_replaces_newlines_and_truncates() {
    assert_eq!(clipboard_record_preview("alpha\nbeta", 32), "alpha beta");
    assert_eq!(clipboard_record_preview("abcdef", 4), "abcd…");
}

#[test]
fn preview_keeps_content_that_fits() {
    assert_eq!(clipboard_record_preview("abcd", 4), "abcd");
    assert_eq!(clipboard_record_preview("", 4), "");
    assert_eq!(clipboard_record_preview("a\nb\nc", 0), "…");
    assert_eq!(clipboard_record_preview("héllo\nwörld", 7), "héllo w…");
}

#[test]
fn source_label_maps_all_core_variants() {
    assert_eq!(clipboard_source_label(ClipboardRecordSource::LocalCapture), "Local Capture");
    assert_eq!(clipboard_source_label(ClipboardRecordSource::RemoteSync), "Remote Sync");
    assert_eq!(clipboard_source_label(ClipboardRecordSource::UserSubmit), "User Submit");
}

#[test]
fn short_event_id_is_trimmed() {
    let record = ClipboardRecord {
        event_id: EventId(0x67e5_5044_10b1_426f_9247_bb68_0e5f_e0c8),
        source: ClipboardRecordSource::UserSubmit,
        origin_noob_id: "local".to_string(),
        origin_device_id: "desk-01".to_string(),
        created_at_ms: 0,
        applied_at_ms: 0,
        content: "hello".to_string(),
    };

    assert_eq!(clipboard_short_event_id(&record).len(), 8);
}

#[test]
fn short_event_id_is_leading_hex_digits() {
    let r = record(EventId(0x67e5_5044_10b1_426f_9247_bb68_0e5f_e0c8), "x", 0);
    assert_eq!(clipboard_short_event_id(&r), "67e55044");
    let small = record(EventId(0xff), "x", 0);
    assert_eq!(clipboard_short_event_id(&small), "00000000");
    let top = record(EventId(u128::MAX), "x", 0);
    assert_eq!(clipboard_short_event_id(&top), "ffffffff");
}

#[test]
fn clock_label_pads_each_part() {
    assert_eq!(clock_label(7, 5, 9), "07:05:09");
    assert_eq!(clock_label(23, 59, 0), "23:59:00");
    assert_eq!(clock_label(123, 5, 200), "123:05:200");
}

#[test]
fn record_time_label_has_clock_shape() {
    for created in [0i64, 1_700_000_000_123, -86_400_000, i64::MAX, i64::MIN] {
        let label = clipboard_record_time_label(&record(EventId(1), "x", created));
        let chars: Vec<char> = label.chars().collect();
        assert_eq!(chars.len(), 8);
        assert_eq!(chars[2], ':');
        assert_eq!(chars[5], ':');
        let hour: u32 = label[0..2].parse().unwrap();
        let minute: u32 = label[3..5].parse().unwrap();
        let second: u32 = label[6..8].parse().unwrap();
        assert!(hour < 24 && minute < 60 && second < 60);
    }
}

#[test]
fn record_time_label_keeps_seconds_of_the_instant() {
    // current time-zone offsets are whole minutes, so the seconds are those of the instant
    let label = clipboard_record_time_label(&record(EventId(1), "x", 42_000));
    assert!(label.ends_with(":42"));
}

#[test]
fn record_clock_label_at_reads_the_instant_in_the_offset() {
    assert_eq!(record_clock_label_at(0, 0), "00:00:00");
    assert_eq!(record_clock_label_at(1_700_000_000_999, 0), "22:13:20");
    assert_eq!(record_clock_label_at(1_700_000_000_123, 19_800), "03:43:20");
    assert_eq!(record_clock_label_at(1_000, -18_000), "19:00:01");
    assert_eq!(record_clock_label_at(42_000, -93_599), "22:00:43");
}

#[test]
fn record_clock_label_at_floors_times_before_the_epoch() {
    assert_eq!(record_clock_label_at(-1, 0), "23:59:59");
    assert_eq!(record_clock_label_at(-86_400_000, 0), "00:00:00");
}

#[test]
fn offsets_that_leave_the_supported_years_are_not_readable() {
    assert!(offset_is_readable(0, 0));
    assert!(offset_is_readable(253_402_300_799_000, 0));
    assert!(!offset_is_readable(253_402_300_799_000, 3_600));
    assert!(!offset_is_readable(-377_705_116_800_000, -1));
    assert!(offset_is_readable(-377_705_116_800_000, 1));
    assert!(!offset_is_readable(0, 93_600));
    assert!(offset_is_readable(i64::MAX, 3_600));
    assert_eq!(record_clock_label_at(253_402_300_799_000, -3_600), "22:59:59");
}

#[test]
fn record_clock_label_at_falls_back_to_the_epoch_outside_the_supported_years() {
    assert_eq!(record_clock_label_at(i64::MAX, 3_600), "01:00:00");
    assert_eq!(record_clock_label_at(i64::MIN, 0), "00:00:00");
    assert_eq!(record_clock_label_at(-377_705_116_801_000, -1), "23:59:59");
}

#[test]
fn editor_session_tracks_dirty_text() {
    let mut editor = ClipboardEditorState::new();
    assert_eq!(editor.detail_tab(), ClipboardDetailTab::Read);
    assert!(!editor.is_dirty("anything"));
    let r = record(EventId(5), "base", 1);
    editor.begin_session(&r);
    assert_eq!(editor.detail_tab(), ClipboardDetailTab::Edit);
    assert!(!editor.is_dirty("base"));
    assert!(editor.is_dirty("base!"));
    assert!(!editor.can_submit("base", 100));
    assert!(editor.can_submit("base!", 100));
    assert!(!editor.can_submit("base!", 4));
    editor.start_submit();
    assert!(editor.submit_in_flight());
    assert!(!editor.can_submit("base!", 100));
    editor.fail_submit();
    assert!(!editor.submit_in_flight());
    assert!(editor.is_dirty("base!"));
    editor.start_submit();
    editor.finish_submit();
    assert!(!editor.submit_in_flight());
    assert_eq!(editor.detail_tab(), ClipboardDetailTab::Read);
    assert!(!editor.is_dirty("base!"));
}

#[test]
fn toggling_needs_selected_scope() {
    let mut targets = ClipboardTargetSelectionState::new();
    targets.toggle_session_target(SessionId(3));
    assert!(targets.selected_session_ids().is_empty());
    assert!(matches!(targets.rebroadcast_target(), SessionTarget::AllConnected));
    targets.set_broadcast_scope(ClipboardBroadcastScope::SelectedSessions);
    targets.toggle_session_target(SessionId(3));
    targets.toggle_session_target(SessionId(1));
    assert_eq!(targets.selected_session_ids(), &vec![SessionId(1), SessionId(3)]);
    match targets.rebroadcast_target() {
        SessionTarget::Sessions(ids) => assert_eq!(ids, vec![SessionId(1), SessionId(3)]),
        SessionTarget::AllConnected => panic!("selected scope names sessions"),
    }
}

#[test]
fn toggling_twice_restores_selection() {
    let mut targets = ClipboardTargetSelectionState::new();
    targets.set_broadcast_scope(ClipboardBroadcastScope::SelectedSessions);
    targets.toggle_session_target(SessionId(2));
    targets.toggle_session_target(SessionId(8));
    let before = targets.selected_session_ids().clone();
    targets.toggle_session_target(SessionId(5));
    targets.toggle_session_target(SessionId(5));
    assert_eq!(targets.selected_session_ids(), &before);
    targets.toggle_session_target(SessionId(2));
    targets.toggle_session_target(SessionId(2));
    assert_eq!(targets.selected_session_ids(), &before);
}

#[test]
fn disconnected_sessions_leave_selection() {
    let mut targets = ClipboardTargetSelectionState::new();
    targets.set_broadcast_scope(ClipboardBroadcastScope::SelectedSessions);
    targets.toggle_session_target(SessionId(1));
    targets.toggle_session_target(SessionId(2));
    targets.toggle_session_target(SessionId(3));
    targets.retain_connected_sessions(&[session(3, "c"), session(1, "a"), session(9, "z")]);
    assert_eq!(targets.selected_session_ids(), &vec![SessionId(1), SessionId(3)]);
}

#[test]
fn in_flight_requests_clear_only_for_their_event() {
    let mut targets = ClipboardTargetSelectionState::new();
    targets.start_adopt(EventId(1));
    targets.finish_adopt(EventId(2));
    assert_eq!(targets.adopt_in_flight_event_id(), Some(EventId(1)));
    targets.finish_adopt(EventId(1));
    assert_eq!(targets.adopt_in_flight_event_id(), None);
    targets.start_rebroadcast(EventId(4));
    targets.finish_rebroadcast(EventId(5));
    assert_eq!(targets.rebroadcast_in_flight_event_id(), Some(EventId(4)));
    targets.finish_rebroadcast(EventId(4));
    assert_eq!(targets.rebroadcast_in_flight_event_id(), None);
}

#[test]
fn sync_promotes_latest_and_loads_read_panel() {
    let mut page = ClipboardPageState::new();
    let snapshot = ClipboardWorkspaceViewState {
        latest_record: Some(record(EventId(9), "latest text", 9)),
        session_targets: vec![session(1, "peer")],
        max_text_bytes: 1024,
    };
    assert_eq!(page.sync_from_workspace(Some(&snapshot)), Some("latest text".to_string()));
    assert_eq!(page.history_records()[0].event_id, EventId(9));
    // the same record again changes nothing in the read panel
    assert_eq!(page.sync_from_workspace(Some(&snapshot)), None);
    assert_eq!(page.history_records().len(), 1);
    // no snapshot empties the read panel
    assert_eq!(page.sync_from_workspace(None), Some(String::new()));
    assert_eq!(page.sync_from_workspace(None), None);
}

#[test]
fn selecting_history_clears_edit_and_feedback() {
    let mut page = ClipboardPageState::new();
    page.begin_history_load(ClipboardHistoryDirection::Older, true);
    assert_eq!(page.history_load_state(), ClipboardHistoryLoadState::LoadingInitial);
    page.fail_history_load("history unavailable".to_string());
    assert_eq!(page.feedback(), Some(&"history unavailable".to_string()));
    assert!(page.history_bootstrapped());
    page.finish_history_load(
        ClipboardHistoryDirection::Older,
        ClipboardHistoryPage { records: vec![record(EventId(3), "three", 3)], has_more: false, next_anchor: None },
    );
    let r = record(EventId(3), "three", 3);
    page.begin_edit_session(&r);
    assert_eq!(page.detail_tab(), ClipboardDetailTab::Edit);
    page.select_history(EventId(3));
    assert_eq!(page.selection(), ClipboardSelection::Pinned(EventId(3)));
    assert_eq!(page.detail_tab(), ClipboardDetailTab::Read);
    assert_eq!(page.feedback(), None);
}

#[test]
fn submit_flow_sets_feedback() {
    let mut page = ClipboardPageState::new();
    let r = record(EventId(3), "three", 3);
    page.begin_edit_session(&r);
    assert!(page.can_submit_edit("three!", 100));
    page.start_submit();
    assert!(page.submit_in_flight());
    page.fail_submit("too large".to_string());
    assert!(!page.submit_in_flight());
    assert_eq!(page.feedback(), Some(&"too large".to_string()));
    page.start_submit();
    page.finish_submit("saved".to_string());
    assert_eq!(page.feedback(), Some(&"saved".to_string()));
    assert_eq!(page.detail_tab(), ClipboardDetailTab::Read);
}

#[test]
fn view_state_without_snapshot_is_not_ready() {
    let page = ClipboardPageState::new();
    let v = build_clipboard_page_view_state(None, &page, "");
    assert!(!v.page_ready);
    assert!(v.history_rows.is_empty());
    assert!(v.target_rows.is_empty());
}

#[test]
fn view_state_marks_selected_rows_and_targets() {
    let mut page = ClipboardPageState::new();
    page.finish_history_load(
        ClipboardHistoryDirection::Older,
        ClipboardHistoryPage {
            records: vec![record(EventId(1), "one", 1), record(EventId(2), "two", 2)],
            has_more: false,
            next_anchor: None,
        },
    );
    page.set_broadcast_scope(ClipboardBroadcastScope::SelectedSessions);
    page.toggle_session_target(SessionId(7));
    let snapshot = ClipboardWorkspaceViewState {
        latest_record: Some(record(EventId(1), "one", 1)),
        session_targets: vec![session(7, "peer-7"), session(8, "peer-8")],
        max_text_bytes: 64,
    };
    let v = build_clipboard_page_view_state(Some(&snapshot), &page, "hello");
    assert!(v.page_ready);
    assert!(v.latest_selected);
    // the latest record is shown apart, not as a history row
    assert_eq!(v.history_rows.len(), 1);
    assert_eq!(v.history_rows[0].record.event_id, EventId(2));
    assert!(!v.history_rows[0].selected);
    assert_eq!(v.selected_record.as_ref().map(|r| r.event_id), Some(EventId(1)));
    assert!(v.can_enter_edit);
    assert_eq!(v.target_rows[0].secondary_label, "LAN · 10.0.0.2:4000");
    assert!(v.target_rows[0].interactive);
    assert_eq!(v.target_rows.len(), 2);
    assert!(v.target_rows[0].selected);
    assert!(!v.target_rows[1].selected);
    assert_eq!(v.connected_target_count, 2);
    assert_eq!(v.selected_target_count, 1);
    assert_eq!(v.loaded_history_count, 2);
    assert_eq!(v.max_text_bytes, 64);
    assert_eq!(v.edit_bytes, 5);
}

#[test]
fn targets_panel_header_and_notice() {
    let page = ClipboardPageState::new();
    let snapshot = ClipboardWorkspaceViewState { latest_record: None, session_targets: vec![], max_text_bytes: 8 };
    let v = build_clipboard_page_view_state(Some(&snapshot), &page, "");
    let panel = clipboard_targets_panel_view_state(&v);
    assert_eq!(panel.scope_line, "Rebroadcast mode: All sessions.");
    assert!(panel.all_chip_active);
    assert!(!panel.selected_chip_active);
    assert_eq!(panel.empty_notice, Some("No active sessions are available for clipboard rebroadcast."));

    let mut page = ClipboardPageState::new();
    page.set_broadcast_scope(ClipboardBroadcastScope::SelectedSessions);
    let snapshot =
        ClipboardWorkspaceViewState { latest_record: None, session_targets: vec![session(1, "a")], max_text_bytes: 8 };
    let v = build_clipboard_page_view_state(Some(&snapshot), &page, "");
    let panel = clipboard_targets_panel_view_state(&v);
    assert_eq!(panel.scope_line, "Rebroadcast mode: Selected sessions.");
    assert!(panel.selected_chip_active);
    assert_eq!(panel.empty_notice, None);
}

#[test]
fn history_panel_shows_latest_item() {
    let page = ClipboardPageState::new();
    let long = "x".repeat(100);
    let mut latest = record(EventId(0x67e5_5044_10b1_426f_9247_bb68_0e5f_e0c8), &long, 5_000);
    latest.source = ClipboardRecordSource::RemoteSync;
    let snapshot =
        ClipboardWorkspaceViewState { latest_record: Some(latest), session_targets: vec![], max_text_bytes: 8 };
    let v = build_clipboard_page_view_state(Some(&snapshot), &page, "");
    let panel = clipboard_history_panel_view_state(&v);
    assert_eq!(panel.loaded_line, "0 loaded");
    let item = panel.latest.expect("latest record is shown");
    assert_eq!(item.device_id, "desk-01");
    assert_eq!(item.source_label, "Remote Sync");
    assert!(item.meta_line.ends_with(" · event 67e55044"));
    assert_eq!(item.meta_line.chars().count(), 8 + " · event ".chars().count() + 8);
    assert_eq!(item.preview, format!("{}…", "x".repeat(92)));
    assert!(item.selected);

    assert_eq!(panel.empty_notice, Some("No earlier committed records are loaded yet."));

    let empty = ClipboardWorkspaceViewState { latest_record: None, session_targets: vec![], max_text_bytes: 8 };
    let v = build_clipboard_page_view_state(Some(&empty), &page, "");
    assert!(clipboard_history_panel_view_state(&v).latest.is_none());
}

#[test]
fn record_item_and_gap_item() {
    let r = record(EventId(0xabcdef01 << 96), "line one\nline two", 0);
    let item = record_item_view_state(&r, false);
    assert_eq!(item.preview, "line one line two");
    assert_eq!(item.source_label, "User Submit");
    assert!(item.meta_line.ends_with(" · event abcdef01"));
    assert!(!item.selected);

    let gap = history_gap_item_view_state(ClipboardHistoryDirection::Older, true, "12 older records", true);
    assert_eq!(gap.label, "Loading older history…");
    assert!(!gap.interactive);
    let gap = history_gap_item_view_state(ClipboardHistoryDirection::Newer, true, "x", true);
    assert_eq!(gap.label, "Loading newer history…");
    let gap = history_gap_item_view_state(ClipboardHistoryDirection::Newer, false, "Newer records", true);
    assert_eq!(gap.label, "Newer records");
    assert!(gap.interactive);
}

#[test]
fn header_and_info_panel() {
    let mut page = ClipboardPageState::new();
    let snapshot = ClipboardWorkspaceViewState {
        latest_record: None,
        session_targets: vec![session(1, "a"), session(2, "b")],
        max_text_bytes: 8,
    };
    let v = build_clipboard_page_view_state(Some(&snapshot), &page, "");
    let header = clipboard_header_view_state(&v);
    assert_eq!(header.sessions, "2");
    assert_eq!(header.history, "0");
    assert_eq!(header.broadcast, "All connected");
    let info = clipboard_info_panel_view_state(&v);
    assert!(info.selected.is_none());
    assert_eq!(info.empty_title, Some("No clipboard item selected"));
    assert_eq!(info.empty_hint, Some("Choose an item from history or wait for the next one."));

    page.set_broadcast_scope(ClipboardBroadcastScope::SelectedSessions);
    page.toggle_session_target(SessionId(2));
    page.cache_record(record(EventId(4), "pinned", 4));
    page.select_history(EventId(4));
    page.fail_submit("nothing to save".to_string());
    let v = build_clipboard_page_view_state(Some(&snapshot), &page, "");
    assert_eq!(clipboard_header_view_state(&v).broadcast, "1 selected");
    let info = clipboard_info_panel_view_state(&v);
    let selected = info.selected.expect("pinned record is shown");
    assert_eq!(selected.selection_badge, "Pinned item");
    assert_eq!(selected.device_id, "desk-01");
    assert!(selected.meta_line.ends_with(" · event 00000000"));
    assert_eq!(info.empty_title, None);
    assert_eq!(info.feedback, Some("nothing to save".to_string()));
}

#[test]
fn content_panel_buttons_follow_tab_and_requests() {
    let mut page = ClipboardPageState::new();
    let none = ClipboardWorkspaceViewState { latest_record: None, session_targets: vec![], max_text_bytes: 10 };
    let v = build_clipboard_page_view_state(Some(&none), &page, "");
    let panel = clipboard_content_panel_view_state(&v);
    assert_eq!(panel.placeholder, Some(("Clipboard detail", "Committed records will appear here once they are loaded.")));

    let latest = record(EventId(3), "hello", 3);
    let snapshot = ClipboardWorkspaceViewState {
        latest_record: Some(latest.clone()),
        session_targets: vec![],
        max_text_bytes: 10,
    };
    let v = build_clipboard_page_view_state(Some(&snapshot), &page, "");
    let panel = clipboard_content_panel_view_state(&v);
    assert_eq!(panel.placeholder, None);
    assert_eq!(panel.heading, "Content");
    assert_eq!(panel.primary.label, "Adopt");
    assert!(panel.primary.enabled);
    assert_eq!(panel.secondary.label, "Send");
    // no connected session to send to
    assert!(!panel.secondary.enabled);
    assert!(panel.edit_tab_enabled);

    page.begin_edit_session(&latest);
    let v = build_clipboard_page_view_state(Some(&snapshot), &page, "hello world!");
    let panel = clipboard_content_panel_view_state(&v);
    assert_eq!(panel.heading, "Edit");
    assert_eq!(panel.primary.label, "Save");
    assert!(!panel.primary.enabled);
    assert_eq!(panel.secondary.label, "Cancel");
    assert_eq!(panel.edit_bytes_line, "12 / 10 bytes");
    assert_eq!(panel.edit_bytes_state, EditBytesState::OverLimit);
    let v = build_clipboard_page_view_state(Some(&snapshot), &page, "hello!");
    let panel = clipboard_content_panel_view_state(&v);
    assert!(panel.primary.enabled);
    assert_eq!(panel.edit_bytes_state, EditBytesState::Dirty);
    page.start_submit();
    let v = build_clipboard_page_view_state(Some(&snapshot), &page, "hello!");
    let panel = clipboard_content_panel_view_state(&v);
    assert_eq!(panel.primary.label, "Saving");
    assert!(!panel.primary.enabled);
}
