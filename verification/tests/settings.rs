use nooboard_gui::settings::derived::{
    clipboard_settings_dirty, connection_settings_dirty, connection_settings_input, settings_banner_status,
    settings_section_status, storage_settings_dirty, storage_settings_input, transfer_download_dir_input,
    transfer_settings_dirty,
    };
use nooboard_gui::settings::state::{
    ClipboardSettingsState, ConnectionInputValues, ConnectionSettingsState, SettingsClipboardViewState,
    SettingsConnectionViewState, SettingsInputValues, SettingsPageState, SettingsPageViewState, SettingsSectionKey,
    SettingsTransfersViewState, TransferSettingsState,
    };
use nooboard_gui::settings::storage::{
    SettingsStorageViewState, StorageBytesUnit, StorageDurationUnit, StorageFieldValues, StorageSettingsState, GIB,
    KIB, MIB,
    };
use nooboard_gui::settings::panels::{
    settings_banner_view_state,
    clipboard_panel_view_state, connection_panel_view_state, on_off_label, section_panel_view_state,
};

fn connection_page(device: &str, token: &str, port: u16, lan: bool) -> SettingsConnectionViewState {
    SettingsConnectionViewState { device_id: device.to_string(), token: token.to_string(), listen_port: port, lan_enabled: lan }
}

fn storage_page(history: u32, dedup: u32, bytes: usize) -> SettingsStorageViewState {
    SettingsStorageViewState {
        db_root: "/data/nooboard".to_string(),
        history_window_days: history,
        dedup_window_days: dedup,
        max_text_bytes: bytes,
        gc_batch_size: 128,
    }
}

fn values(device: &str, token: &str, port: &str) -> ConnectionInputValues {
    ConnectionInputValues { device_id: device.to_string(), token: token.to_string(), listen_port: port.to_string() }
}

#[test]
fn clipboard_draft_follows_snapshot_until_edited() {
    let mut state = ClipboardSettingsState::new();
    assert!(state.local_capture_enabled());
    state.sync_from_workspace(&SettingsClipboardViewState { local_capture_enabled: false });
    assert!(!state.local_capture_enabled());
    state.toggle_local_capture_enabled();
    assert!(state.local_capture_enabled());
    // the user's edit survives a snapshot
    state.sync_from_workspace(&SettingsClipboardViewState { local_capture_enabled: false });
    assert!(state.local_capture_enabled());
    state.reset_from_workspace(&SettingsClipboardViewState { local_capture_enabled: false });
    assert!(!state.local_capture_enabled());
    state.sync_from_workspace(&SettingsClipboardViewState { local_capture_enabled: true });
    assert!(state.local_capture_enabled());
}

#[test]
fn first_connection_snapshot_sets_every_field() {
    let mut state = ConnectionSettingsState::new();
    let updates = state.sync_from_workspace(&connection_page("desk", "secret", 17890, false), &values("", "", ""));
    assert_eq!(updates.device_id, Some("desk".to_string()));
    assert_eq!(updates.token, Some("secret".to_string()));
    assert_eq!(updates.listen_port, Some("17890".to_string()));
    assert!(!state.lan_enabled());
    assert!(state.token_masked());
}

#[test]
fn connection_snapshot_keeps_edited_fields() {
    let mut state = ConnectionSettingsState::new();
    state.sync_from_workspace(&connection_page("desk", "secret", 17890, true), &values("", "", ""));
    state.toggle_lan_enabled();
    let updates =
        state.sync_from_workspace(&connection_page("laptop", "other", 9000, true), &values("my-desk", "secret", "17890"));
    assert_eq!(updates.device_id, None);
    assert_eq!(updates.token, Some("other".to_string()));
    assert_eq!(updates.listen_port, Some("9000".to_string()));
    // LAN flag was edited, so it stays
    assert!(!state.lan_enabled());
    assert!(!state.toggle_token_masked());
    let reset = state.reset_from_workspace(&connection_page("laptop", "other", 9000, true));
    assert_eq!(reset.device_id, Some("laptop".to_string()));
    assert!(state.lan_enabled());
}

#[test]
fn transfer_snapshot_keeps_edited_folder() {
    let mut state = TransferSettingsState::new();
    let page = SettingsTransfersViewState { download_dir: "/dl".to_string() };
    assert_eq!(state.sync_from_workspace(&page, ""), Some("/dl".to_string()));
    let next = SettingsTransfersViewState { download_dir: "/new".to_string() };
    assert_eq!(state.sync_from_workspace(&next, "/mine"), None);
    assert_eq!(state.sync_from_workspace(&next, "/mine"), None);
    assert_eq!(state.reset_from_workspace(&next), "/new".to_string());
    let third = SettingsTransfersViewState { download_dir: "/third".to_string() };
    assert_eq!(state.sync_from_workspace(&third, "/new"), Some("/third".to_string()));
}

#[test]
fn settings_page_sync_and_apply() {
    let mut state = SettingsPageState::new();
    let page = SettingsPageViewState {
        connection: connection_page("desk", "t", 1, true),
        clipboard: SettingsClipboardViewState { local_capture_enabled: false },
        transfers: SettingsTransfersViewState { download_dir: "/dl".to_string() },
        storage: storage_page(7, 14, 4096),
    };
    let current = SettingsInputValues {
        connection: values("", "", ""),
        download_dir: String::new(),
        storage: StorageFieldValues { history_window_days: None, dedup_window_days: None, max_text_bytes: None },
    };
    let updates = state.sync_from_workspace(&page, &current);
    assert_eq!(updates.connection.listen_port, Some("1".to_string()));
    assert_eq!(updates.download_dir, Some("/dl".to_string()));
    assert_eq!(updates.storage.history_window, Some((7, StorageDurationUnit::Weeks)));
    assert_eq!(updates.storage.max_text_bytes, Some((4096, StorageBytesUnit::Kilobytes)));
    assert_eq!(state.history_window_unit(), StorageDurationUnit::Weeks);
    assert_eq!(state.dedup_window_unit(), StorageDurationUnit::Weeks);
    assert_eq!(state.max_text_bytes_unit(), StorageBytesUnit::Kilobytes);
    assert!(!state.local_capture_enabled());
    assert!(state.lan_enabled());
    assert!(state.token_masked());

    state.begin_apply(SettingsSectionKey::Clipboard, "Saving clipboard settings".to_string());
    assert_eq!(state.applying(), Some(SettingsSectionKey::Clipboard));
    assert_eq!(state.feedback(), Some(&"Saving clipboard settings".to_string()));
    state.fail_apply("failed".to_string());
    assert_eq!(state.applying(), None);
    assert_eq!(state.feedback(), Some(&"failed".to_string()));
    state.begin_apply(SettingsSectionKey::Connection, "Saving".to_string());
    state.finish_apply("Saved".to_string());
    assert_eq!(state.applying(), None);
    assert_eq!(state.feedback(), Some(&"Saved".to_string()));
    state.set_feedback("hello".to_string());
    assert_eq!(state.feedback(), Some(&"hello".to_string()));
}

#[test]
fn status_labels() {
    assert_eq!(settings_banner_status(true, Some(SettingsSectionKey::Storage)), "Applying");
    assert_eq!(settings_banner_status(true, None), "Draft");
    assert_eq!(settings_banner_status(false, None), "Current");
    assert_eq!(settings_section_status(Some(SettingsSectionKey::Storage), SettingsSectionKey::Storage, false), "Applying");
    assert_eq!(settings_section_status(Some(SettingsSectionKey::Storage), SettingsSectionKey::Connection, true), "Draft");
    assert_eq!(settings_section_status(None, SettingsSectionKey::Connection, false), "Current");
}

#[test]
fn dirty_checks_compare_trimmed_text() {
    let page = connection_page("desk", "tok", 80, true);
    assert!(!connection_settings_dirty(&values(" desk ", "tok", " 80"), true, &page));
    assert!(connection_settings_dirty(&values("desk", "tok", "080"), true, &page));
    assert!(connection_settings_dirty(&values("desk", "tok", "80"), false, &page));
    assert!(clipboard_settings_dirty(true, &SettingsClipboardViewState { local_capture_enabled: false }));
    assert!(!clipboard_settings_dirty(false, &SettingsClipboardViewState { local_capture_enabled: false }));
    let transfers = SettingsTransfersViewState { download_dir: "/dl".to_string() };
    assert!(!transfer_settings_dirty("  /dl\n", &transfers));
    assert!(transfer_settings_dirty("/dl2", &transfers));
}

#[test]
fn connection_input_checks_port() {
    let page = connection_page("desk", "tok", 80, true);
    let err = connection_settings_input(&values("d", "t", "70000"), true, &page).unwrap_err();
    assert_eq!(err, "Port must be a valid number.");
    let err = connection_settings_input(&values("d", "t", "-1"), true, &page).unwrap_err();
    assert_eq!(err, "Port must be a valid number.");
    let input = connection_settings_input(&values(" laptop ", " t2 ", " 8080 "), false, &page).unwrap();
    assert_eq!(input.device_id, "laptop");
    assert_eq!(input.token, "t2");
    assert_eq!(input.listen_port, 8080);
    assert!(!input.lan_enabled);
    assert_eq!(input.current_device_id, "desk");
    assert_eq!(input.current_token, "tok");
    assert_eq!(input.current_listen_port, 80);
    assert!(input.current_lan_enabled);
}

#[test]
fn download_dir_input_rejects_blank() {
    assert_eq!(transfer_download_dir_input("   "), Err("Download directory cannot be empty.".to_string()));
    assert_eq!(transfer_download_dir_input(" /tmp/x "), Ok("/tmp/x".to_string()));
}

#[test]
fn storage_input_orders_windows() {
    let err = storage_settings_input(30, 7, 1024, 100).unwrap_err();
    assert_eq!(err, "Duplicate check window must be at least as long as history retention.");
    let input = storage_settings_input(7, 30, 2048, 100).unwrap();
    assert_eq!(input.history_window_days, 7);
    assert_eq!(input.dedup_window_days, 30);
    assert_eq!(input.max_text_bytes, 2048);
    assert_eq!(input.gc_batch_size, 100);
    assert!(storage_settings_input(14, 14, 1, 1).is_ok());
}

#[test]
fn storage_units() {
    assert_eq!(StorageDurationUnit::all(), [StorageDurationUnit::Days, StorageDurationUnit::Weeks, StorageDurationUnit::Months]);
    assert_eq!(StorageDurationUnit::Weeks.label(), "Weeks");
    assert_eq!(StorageDurationUnit::from_days(60), StorageDurationUnit::Months);
    assert_eq!(StorageDurationUnit::from_days(14), StorageDurationUnit::Weeks);
    assert_eq!(StorageDurationUnit::from_days(210), StorageDurationUnit::Months);
    assert_eq!(StorageDurationUnit::from_days(10), StorageDurationUnit::Days);
    assert_eq!(StorageDurationUnit::from_days(0), StorageDurationUnit::Months);
    assert_eq!(StorageBytesUnit::all().len(), 4);
    assert_eq!(StorageBytesUnit::Kilobytes.label(), "KB");
    assert_eq!(StorageBytesUnit::Bytes.label(), "Bytes");
    assert_eq!(StorageBytesUnit::from_bytes(2 * GIB), StorageBytesUnit::Gigabytes);
    assert_eq!(StorageBytesUnit::from_bytes(3 * MIB), StorageBytesUnit::Megabytes);
    assert_eq!(StorageBytesUnit::from_bytes(KIB), StorageBytesUnit::Kilobytes);
    assert_eq!(StorageBytesUnit::from_bytes(1000), StorageBytesUnit::Bytes);
    assert_eq!(StorageBytesUnit::from_bytes(0), StorageBytesUnit::Bytes);
}

#[test]
fn section_panels_show_status_and_actions() {
    assert_eq!(on_off_label(true), "On");
    assert_eq!(on_off_label(false), "Off");
    let v = section_panel_view_state(SettingsSectionKey::Storage, true, None);
    assert_eq!(v.status_label, "Draft");
    assert!(v.actions_enabled);
    let v = section_panel_view_state(SettingsSectionKey::Storage, true, Some(SettingsSectionKey::Connection));
    assert_eq!(v.status_label, "Draft");
    assert!(!v.actions_enabled);
    let v = section_panel_view_state(SettingsSectionKey::Transfers, false, Some(SettingsSectionKey::Transfers));
    assert_eq!(v.status_label, "Applying");
    assert!(!v.actions_enabled);

    let c = connection_panel_view_state(None, true, false, false, None);
    assert_eq!(c.endpoint_label, "Not available yet");
    assert_eq!(c.token_toggle_tooltip, "Show network token");
    assert_eq!(c.lan_label, "Off");
    assert_eq!(c.section.status_label, "Current");
    let c = connection_panel_view_state(Some("10.0.0.2:17890"), false, true, true, None);
    assert_eq!(c.endpoint_label, "10.0.0.2:17890");
    assert_eq!(c.token_toggle_tooltip, "Hide network token");
    assert_eq!(c.lan_label, "On");
    assert!(c.section.actions_enabled);

    let p = clipboard_panel_view_state(true, false, true, None);
    assert_eq!(p.capture_label, "On");
    assert_eq!(p.saved_label, "Saved setting: Off");
    assert_eq!(p.section.status_label, "Draft");
}

#[test]
fn storage_draft_follows_snapshot_until_edited() {
    let mut state = StorageSettingsState::new();
    assert_eq!(state.history_window_unit(), StorageDurationUnit::Days);
    assert_eq!(state.max_text_bytes_unit(), StorageBytesUnit::Bytes);
    let none = StorageFieldValues { history_window_days: None, dedup_window_days: None, max_text_bytes: None };
    let first = state.sync_from_workspace(&storage_page(30, 10, 1000), &none);
    assert_eq!(first.history_window, Some((30, StorageDurationUnit::Months)));
    assert_eq!(first.dedup_window, Some((10, StorageDurationUnit::Days)));
    assert_eq!(first.max_text_bytes, Some((1000, StorageBytesUnit::Bytes)));

    // the history field was edited, the others still show the snapshot
    let current = StorageFieldValues { history_window_days: Some(60), dedup_window_days: Some(10), max_text_bytes: Some(1000) };
    let next = state.sync_from_workspace(&storage_page(90, 21, 2048), &current);
    assert_eq!(next.history_window, None);
    assert_eq!(next.dedup_window, Some((21, StorageDurationUnit::Days)));
    assert_eq!(next.max_text_bytes, Some((2048, StorageBytesUnit::Bytes)));
    // units stay as the user had them
    assert_eq!(state.history_window_unit(), StorageDurationUnit::Months);

    // an invalid field is left alone
    let invalid = StorageFieldValues { history_window_days: None, dedup_window_days: Some(21), max_text_bytes: None };
    let next = state.sync_from_workspace(&storage_page(90, 28, 2048), &invalid);
    assert_eq!(next.history_window, None);
    assert_eq!(next.dedup_window, Some((28, StorageDurationUnit::Days)));
    assert_eq!(next.max_text_bytes, None);

    let reset = state.reset_from_workspace(&storage_page(90, 28, 2 * MIB));
    assert_eq!(reset.history_window, Some((90, StorageDurationUnit::Months)));
    assert_eq!(reset.dedup_window, Some((28, StorageDurationUnit::Weeks)));
    assert_eq!(reset.max_text_bytes, Some((2 * MIB, StorageBytesUnit::Megabytes)));
}

#[test]
fn switching_unit_keeps_the_amount() {
    let mut state = StorageSettingsState::new();
    assert_eq!(state.select_history_window_unit(StorageDurationUnit::Days, Some(14)), None);
    assert_eq!(state.select_history_window_unit(StorageDurationUnit::Weeks, Some(14)), Some((14, StorageDurationUnit::Weeks)));
    assert_eq!(state.history_window_unit(), StorageDurationUnit::Weeks);
    assert_eq!(state.select_dedup_window_unit(StorageDurationUnit::Months, None), None);
    assert_eq!(state.dedup_window_unit(), StorageDurationUnit::Months);
    assert_eq!(
        state.select_max_text_bytes_unit(StorageBytesUnit::Kilobytes, Some(4096)),
        Some((4096, StorageBytesUnit::Kilobytes))
    );
    let mut page = SettingsPageState::new();
    assert_eq!(page.select_max_text_bytes_unit(StorageBytesUnit::Gigabytes, Some(GIB)), Some((GIB, StorageBytesUnit::Gigabytes)));
    assert_eq!(page.max_text_bytes_unit(), StorageBytesUnit::Gigabytes);
    let r = page.reset_storage_from_workspace(&storage_page(7, 7, 100));
    assert_eq!(r.max_text_bytes, Some((100, StorageBytesUnit::Bytes)));
}

#[test]
fn storage_dirty_counts_invalid_fields() {
    let page = storage_page(7, 14, 4096);
    let same = StorageFieldValues { history_window_days: Some(7), dedup_window_days: Some(14), max_text_bytes: Some(4096) };
    assert!(!storage_settings_dirty(&same, &page));
    let changed = StorageFieldValues { history_window_days: Some(7), dedup_window_days: Some(15), max_text_bytes: Some(4096) };
    assert!(storage_settings_dirty(&changed, &page));
    let invalid = StorageFieldValues { history_window_days: None, dedup_window_days: Some(14), max_text_bytes: Some(4096) };
    assert!(storage_settings_dirty(&invalid, &page));
}

#[test]
fn reset_draft_is_clean_and_saves_current_values() {
    let page = connection_page("desk", "tok", 17890, false);
    let mut state = SettingsPageState::new();
    let updates = state.reset_connection_from_workspace(&page);
    let fields = values(
        &updates.device_id.unwrap(),
        &updates.token.unwrap(),
        &updates.listen_port.unwrap(),
    );
    assert!(!connection_settings_dirty(&fields, state.lan_enabled(), &page));
    let input = connection_settings_input(&fields, state.lan_enabled(), &page).unwrap();
    assert_eq!(input.listen_port, 17890);
    assert_eq!(input.device_id, "desk");
    assert_eq!(input.token, "tok");
    assert!(!input.lan_enabled);
    let transfers = SettingsTransfersViewState { download_dir: "/dl".to_string() };
    let text = state.reset_transfer_from_workspace(&transfers);
    assert!(!transfer_settings_dirty(&text, &transfers));
}

#[test]
fn settings_banner_follows_feedback_and_drafts() {
    let v = settings_banner_view_state(None, [false, false, false, false], None);
    assert_eq!(v.status_label, "Current");
    assert_eq!(v.message, "These settings show what nooboard is using right now.");
    let v = settings_banner_view_state(None, [false, false, true, false], None);
    assert_eq!(v.status_label, "Draft");
    assert_eq!(v.message, "You have unsaved changes on this page.");
    let v = settings_banner_view_state(Some("Saving storage settings."), [false, false, false, true], Some(SettingsSectionKey::Storage));
    assert_eq!(v.status_label, "Applying");
    assert_eq!(v.message, "Saving storage settings.");
}

#[test]
fn connection_save_step_checks_then_starts() {
    let values = ConnectionInputValues {
        device_id: " dev ".to_string(),
        token: " tok ".to_string(),
        listen_port: " 17890 ".to_string(),
    };
    let page = connection_page("old-dev", "old-tok", 4000, false);
    let mut state = SettingsPageState::new();
    assert!(state.begin_connection_save(&values, None, true).is_none());
    assert_eq!(state.feedback().map(|s| s.as_str()), Some("Settings are still loading."));
    assert!(state.begin_connection_save(&values, Some(&page), false).is_none());
    assert_eq!(state.feedback().map(|s| s.as_str()), Some("Settings are still loading."));
    let bad = ConnectionInputValues { listen_port: "port".to_string(), ..values };
    assert!(state.begin_connection_save(&bad, Some(&page), true).is_none());
    assert_eq!(state.feedback().map(|s| s.as_str()), Some("Port must be a valid number."));
    assert_eq!(state.applying(), None);
    let good = ConnectionInputValues { listen_port: " 17890 ".to_string(), ..bad };
    let input = state.begin_connection_save(&good, Some(&page), true).unwrap();
    assert_eq!(input.device_id, "dev");
    assert_eq!(input.token, "tok");
    assert_eq!(input.listen_port, 17890);
    assert_eq!(input.current_device_id, "old-dev");
    assert_eq!(input.current_listen_port, 4000);
    assert!(input.lan_enabled);
    assert!(!input.current_lan_enabled);
    assert_eq!(state.applying(), Some(SettingsSectionKey::Connection));
    assert_eq!(state.feedback().map(|s| s.as_str()), Some("Saving connection settings."));
}
