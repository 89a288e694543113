use nooboard_gui::clipboard::editor::ClipboardDetailTab;
use nooboard_gui::clipboard::history::{ClipboardHistoryLoadState, ClipboardSelection};
use nooboard_gui::clipboard::model::{
    ClipboardHistoryAnchor, ClipboardHistoryDirection, ClipboardHistoryPage, ClipboardRecord, ClipboardRecordSource,
};
use nooboard_gui::clipboard::page::ClipboardPageState;
use nooboard_gui::ids::{DirectRequestId, DirectSeedId, EventId, SessionId};
use nooboard_gui::network::actions::{runtime_toggle_for, ConnectDirectOutcome, NetworkStatusKind, RuntimeToggle};
use nooboard_gui::network::panels::network_seed_editor_view_state;
use nooboard_gui::network::state::NetworkPageState;
use nooboard_gui::settings::state::{SettingsPageState, SettingsSectionKey};

fn record(id: u128, content: &str) -> ClipboardRecord {
    ClipboardRecord {
        event_id: EventId(id),
        source: ClipboardRecordSource::LocalCapture,
        origin_noob_id: "me".to_string(),
        origin_device_id: "desk".to_string(),
        created_at_ms: id as i64,
        applied_at_ms: id as i64,
        content: content.to_string(),
    }
}

fn feedback(state: &NetworkPageState) -> String {
    state.feedback().cloned().unwrap_or_default()
}

#[test]
fn runtime_toggle_messages() {
    assert_eq!(runtime_toggle_for(NetworkStatusKind::Stopped), RuntimeToggle::Start);
    assert_eq!(runtime_toggle_for(NetworkStatusKind::Starting), RuntimeToggle::Stop);
    assert_eq!(runtime_toggle_for(NetworkStatusKind::Running), RuntimeToggle::Stop);
    assert_eq!(runtime_toggle_for(NetworkStatusKind::Error), RuntimeToggle::Stop);
    let mut state = NetworkPageState::new();
    state.report_still_loading();
    assert_eq!(feedback(&state), "Network details are still loading.");
    state.begin_runtime_toggle(RuntimeToggle::Start);
    assert_eq!(feedback(&state), "Starting network sharing...");
    state.finish_runtime_toggle(RuntimeToggle::Start, Ok(()));
    assert_eq!(feedback(&state), "Network sharing started.");
    state.begin_runtime_toggle(RuntimeToggle::Stop);
    assert_eq!(feedback(&state), "Stopping network sharing...");
    state.finish_runtime_toggle(RuntimeToggle::Stop, Err("busy".to_string()));
    assert_eq!(feedback(&state), "Couldn't stop network sharing: busy");
    state.finish_runtime_toggle(RuntimeToggle::Start, Err("port taken".to_string()));
    assert_eq!(feedback(&state), "Couldn't start network sharing: port taken");
}

#[test]
fn lan_toggle_messages() {
    let mut state = NetworkPageState::new();
    state.begin_lan_toggle(false);
    assert_eq!(feedback(&state), "Disabling LAN auto sync.");
    state.finish_lan_toggle(false, Ok(()));
    assert_eq!(feedback(&state), "LAN auto sync disabled.");
    state.begin_lan_toggle(true);
    assert_eq!(feedback(&state), "Enabling LAN auto sync.");
    state.finish_lan_toggle(true, Err("denied".to_string()));
    assert_eq!(feedback(&state), "Failed to enable LAN auto sync: denied");
}

#[test]
fn seed_actions_mark_and_clear_pending() {
    let mut state = NetworkPageState::new();
    state.begin_remove_seed(DirectSeedId(1), "Office");
    assert!(state.seed_pending(DirectSeedId(1)));
    assert_eq!(feedback(&state), "Removing saved device 'Office'.");
    state.finish_remove_seed(DirectSeedId(1), "Office", Err("gone".to_string()));
    assert!(!state.seed_pending(DirectSeedId(1)));
    assert_eq!(feedback(&state), "Couldn't remove saved device 'Office': gone");
    state.finish_remove_seed(DirectSeedId(1), "Office", Ok(()));
    assert_eq!(feedback(&state), "Removed saved device 'Office'.");

    state.begin_connect_seed(DirectSeedId(2), "Laptop");
    assert_eq!(feedback(&state), "Connecting to saved device 'Laptop'.");
    state.finish_connect_seed(DirectSeedId(2), "Laptop", Ok(ConnectDirectOutcome::Started));
    assert_eq!(feedback(&state), "Connecting to 'Laptop'.");
    assert!(!state.seed_pending(DirectSeedId(2)));
    state.finish_connect_seed(DirectSeedId(2), "Laptop", Ok(ConnectDirectOutcome::AlreadyConnected("s-9".to_string())));
    assert_eq!(feedback(&state), "'Laptop' is already connected (session s-9).");
    state.finish_connect_seed(DirectSeedId(2), "Laptop", Err("timeout".to_string()));
    assert_eq!(feedback(&state), "Couldn't connect to 'Laptop': timeout");

    state.finish_save_outcome(Err("duplicate".to_string()));
    assert_eq!(feedback(&state), "Couldn't save this device: duplicate");
    state.finish_save_outcome(Ok(DirectSeedId(7)));
    assert_eq!(state.editing_seed_id(), Some(DirectSeedId(7)));
    state.clear_seed_form();
    assert_eq!(state.editing_seed_id(), None);
    assert_eq!(feedback(&state), "Cleared the saved device form.");
}

#[test]
fn request_and_session_actions() {
    let mut state = NetworkPageState::new();
    state.begin_answer_request(DirectRequestId(3), "tablet", true);
    assert!(state.request_pending(DirectRequestId(3)));
    assert_eq!(feedback(&state), "Approving request from 'tablet'.");
    state.finish_answer_request(DirectRequestId(3), "tablet", true, Ok(()));
    assert!(!state.request_pending(DirectRequestId(3)));
    assert_eq!(feedback(&state), "Approved request from 'tablet'.");
    state.begin_answer_request(DirectRequestId(4), "phone", false);
    assert_eq!(feedback(&state), "Rejecting request from 'phone'.");
    state.finish_answer_request(DirectRequestId(4), "phone", false, Err("expired".to_string()));
    assert_eq!(feedback(&state), "Failed to reject request from 'phone': expired");
    state.finish_answer_request(DirectRequestId(4), "phone", true, Err("expired".to_string()));
    assert_eq!(feedback(&state), "Failed to approve request from 'phone': expired");
    state.finish_answer_request(DirectRequestId(4), "phone", false, Ok(()));
    assert_eq!(feedback(&state), "Rejected request from 'phone'.");
    state.begin_disconnect_session(SessionId(5), "desk");
    assert!(state.session_pending(SessionId(5)));
    assert_eq!(feedback(&state), "Disconnecting from 'desk'.");
    state.finish_disconnect_session(SessionId(5), "desk", Ok(()));
    assert!(!state.session_pending(SessionId(5)));
    assert_eq!(feedback(&state), "Disconnected from 'desk'.");
    state.finish_disconnect_session(SessionId(5), "desk", Err("x".to_string()));
    assert_eq!(feedback(&state), "Couldn't disconnect from 'desk': x");
}

#[test]
fn seed_editor_labels() {
    let v = network_seed_editor_view_state(false, false);
    assert_eq!(v.hint, "Create a reusable direct preset for manual connections.");
    assert_eq!(v.save_label, "Create");
    assert!(!v.save_disabled);
    let v = network_seed_editor_view_state(true, true);
    assert_eq!(v.hint, "Editing an existing direct preset.");
    assert_eq!(v.save_label, "Save");
    assert!(v.save_disabled);
}

#[test]
fn settings_save_messages() {
    let mut state = SettingsPageState::new();
    state.begin_section_save(SettingsSectionKey::Transfers);
    assert_eq!(state.applying(), Some(SettingsSectionKey::Transfers));
    assert_eq!(state.feedback(), Some(&"Saving transfer settings.".to_string()));
    state.finish_section_save(SettingsSectionKey::Transfers, Ok(()));
    assert_eq!(state.applying(), None);
    assert_eq!(state.feedback(), Some(&"Transfer settings saved.".to_string()));
    state.begin_section_save(SettingsSectionKey::Connection);
    state.finish_section_save(SettingsSectionKey::Connection, Err("port in use".to_string()));
    assert_eq!(state.feedback(), Some(&"Couldn't save connection settings: port in use".to_string()));
    state.report_section_restored(SettingsSectionKey::Storage);
    assert_eq!(state.feedback(), Some(&"Storage settings restored.".to_string()));
    state.report_section_restored(SettingsSectionKey::Clipboard);
    assert_eq!(state.feedback(), Some(&"Clipboard settings restored.".to_string()));
    state.report_config_path_copied();
    assert_eq!(state.feedback(), Some(&"Config file path copied.".to_string()));
    state.begin_section_save(SettingsSectionKey::Storage);
    state.report_settings_loading();
    assert_eq!(state.applying(), None);
    assert_eq!(state.feedback(), Some(&"Settings are still loading.".to_string()));
}

#[test]
fn clipboard_adopt_and_rebroadcast_candidates() {
    let mut page = ClipboardPageState::new();
    assert_eq!(page.adopt_candidate(None), None);
    let latest = record(9, "latest");
    assert_eq!(page.adopt_candidate(Some(&latest)), Some(EventId(9)));
    page.start_adopt(EventId(9));
    assert_eq!(page.adopt_candidate(Some(&latest)), None);
    page.finish_adopt_outcome(EventId(9), Ok(()));
    assert_eq!(page.adopt_in_flight_event_id(), None);
    assert_eq!(page.feedback(), Some(&"Selected record adopted locally.".to_string()));
    page.start_adopt(EventId(9));
    page.finish_adopt_outcome(EventId(9), Err("clipboard busy".to_string()));
    assert_eq!(page.feedback(), Some(&"Failed to adopt selected record: clipboard busy".to_string()));

    assert_eq!(page.rebroadcast_candidate(Some(&latest)), Some(EventId(9)));
    page.start_rebroadcast(EventId(9));
    assert_eq!(page.rebroadcast_candidate(Some(&latest)), None);
    page.finish_rebroadcast_outcome(EventId(9), Ok(()));
    assert_eq!(page.feedback(), Some(&"Rebroadcast queued for the selected session target.".to_string()));
    page.finish_rebroadcast_outcome(EventId(9), Err("offline".to_string()));
    assert_eq!(page.feedback(), Some(&"Failed to rebroadcast selected record: offline".to_string()));
}

#[test]
fn clipboard_detail_tabs_and_submit() {
    let mut page = ClipboardPageState::new();
    assert_eq!(page.open_detail_tab(ClipboardDetailTab::Edit, None), None);
    assert_eq!(page.detail_tab(), ClipboardDetailTab::Read);
    let latest = record(4, "text to edit");
    assert_eq!(page.open_detail_tab(ClipboardDetailTab::Edit, Some(&latest)), Some("text to edit".to_string()));
    assert_eq!(page.detail_tab(), ClipboardDetailTab::Edit);
    assert!(page.is_edit_dirty("text to edit!"));
    page.start_submit();
    page.finish_submit_outcome(Err("too long".to_string()));
    assert_eq!(page.feedback(), Some(&"Failed to save edited clipboard content: too long".to_string()));
    assert_eq!(page.detail_tab(), ClipboardDetailTab::Edit);
    page.select_history(EventId(4));
    page.open_detail_tab(ClipboardDetailTab::Edit, Some(&latest));
    page.start_submit();
    page.finish_submit_outcome(Ok(()));
    assert_eq!(page.selection(), ClipboardSelection::LatestCommitted);
    assert_eq!(page.detail_tab(), ClipboardDetailTab::Read);
    assert_eq!(
        page.feedback(),
        Some(&"Edited record saved. Waiting for the latest committed snapshot update.".to_string())
    );
    page.open_detail_tab(ClipboardDetailTab::Edit, Some(&latest));
    assert_eq!(page.open_detail_tab(ClipboardDetailTab::Read, Some(&latest)), Some(String::new()));
    assert_eq!(page.detail_tab(), ClipboardDetailTab::Read);
}

#[test]
fn clipboard_history_loading_steps() {
    let mut page = ClipboardPageState::new();
    assert_eq!(page.begin_older_load(), None);
    assert!(page.begin_bootstrap_load());
    assert_eq!(page.history_load_state(), ClipboardHistoryLoadState::LoadingInitial);
    assert!(!page.begin_bootstrap_load());
    page.finish_history_page(
        ClipboardHistoryDirection::Older,
        Ok(ClipboardHistoryPage { records: vec![], has_more: false, next_anchor: None }),
    );
    assert_eq!(page.feedback(), Some(&"No saved clipboard items yet.".to_string()));
    assert!(page.history_bootstrapped());
    assert!(!page.begin_bootstrap_load());

    let anchor = ClipboardHistoryAnchor { created_at_ms: 1, event_id: EventId(1) };
    page.finish_history_page(
        ClipboardHistoryDirection::Older,
        Ok(ClipboardHistoryPage { records: vec![record(1, "one")], has_more: true, next_anchor: Some(anchor) }),
    );
    assert_eq!(page.begin_older_load(), Some(anchor));
    assert_eq!(page.history_load_state(), ClipboardHistoryLoadState::LoadingOlder);
    assert_eq!(page.begin_older_load(), None);
    page.finish_history_page(ClipboardHistoryDirection::Older, Err("disk".to_string()));
    assert_eq!(page.feedback(), Some(&"Couldn't load clipboard history: disk".to_string()));
    assert_eq!(page.history_load_state(), ClipboardHistoryLoadState::Idle);
    assert_eq!(page.begin_newer_load(), None);
    page.report_history_unavailable();
    assert_eq!(page.feedback(), Some(&"Clipboard history is still loading.".to_string()));

    page.finish_record_fetch(Err("missing".to_string()));
    assert_eq!(page.feedback(), Some(&"Couldn't load this clipboard item: missing".to_string()));
    page.finish_record_fetch(Ok(record(50, "fetched")));
    assert!(page.has_cached_record(EventId(50)));
}
