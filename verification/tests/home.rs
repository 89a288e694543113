use nooboard_gui::home::dock::{dock_click, dock_controls, DockAction, DockCommand};
use nooboard_gui::ids::EventId;
use nooboard_gui::home::activity::{
    recent_activity_count_label, recent_activity_row_view_state, ActivityAccent, ActivityIcon,
    RecentActivitySeverity, RecentActivityViewState,
};
use nooboard_gui::clipboard::model::ClipboardRecordSource;
use nooboard_gui::home::clipboard::{home_clipboard_panel_view_state, HomeClipboardAccent, HomeClipboardRecordViewState};

#[test]
fn running_network_port_stops_service() {
    let d = dock_controls(false, true, None);
    assert_eq!(d.network.tooltip_title, "Stop network service");
    assert_eq!(d.network.tooltip_detail, "pause sync discovery and transfers");
    assert!(d.network.active);
    assert!(!d.network.disabled);
    assert_eq!(d.network.action, Some(DockAction::Network));
    assert_eq!(dock_click(&d.network), Some(DockCommand::StopNetwork));
}

#[test]
fn stopped_network_port_starts_service() {
    let d = dock_controls(true, false, None);
    assert_eq!(d.network.tooltip_title, "Start network service");
    assert!(!d.network.active);
    assert_eq!(dock_click(&d.network), Some(DockCommand::StartNetwork));
}

#[test]
fn settling_network_port_does_nothing() {
    let d = dock_controls(false, false, None);
    assert_eq!(d.network.tooltip_title, "Network action unavailable");
    assert_eq!(d.network.tooltip_detail, "wait for the workspace runtime to settle");
    assert!(d.network.disabled);
    assert_eq!(d.network.action, None);
    assert_eq!(dock_click(&d.network), None);
}

#[test]
fn clipboard_port_adopts_latest_record() {
    let d = dock_controls(true, false, Some(EventId(31)));
    assert_eq!(d.clipboard.tooltip_title, "Adopt latest clipboard");
    assert!(d.clipboard.active);
    assert!(!d.clipboard.disabled);
    assert_eq!(dock_click(&d.clipboard), Some(DockCommand::AdoptClipboardRecord(EventId(31))));
    let empty = dock_controls(true, false, None);
    assert_eq!(empty.clipboard.tooltip_title, "No committed clipboard");
    assert_eq!(empty.clipboard.tooltip_detail, "wait for the first committed clipboard record to arrive");
    assert!(empty.clipboard.disabled);
    assert_eq!(dock_click(&empty.clipboard), None);
}

#[test]
fn activity_rows_pick_icon_accent_and_copy() {
    let item = |label: &str, severity| RecentActivityViewState {
        label: label.to_string(),
        title: format!("{label} happened"),
        time_label: "12:00".to_string(),
        severity,
    };
    let row = recent_activity_row_view_state(&item("Clipboard", RecentActivitySeverity::Info));
    assert_eq!(row.icon, ActivityIcon::Copy);
    assert_eq!(row.accent, ActivityAccent::Blue);
    assert_eq!(row.copy_message, None);
    let row = recent_activity_row_view_state(&item("Transfer Complete", RecentActivitySeverity::Info));
    assert_eq!(row.icon, ActivityIcon::Folder);
    assert_eq!(row.accent, ActivityAccent::Amber);
    let row = recent_activity_row_view_state(&item("Network Running", RecentActivitySeverity::Info));
    assert_eq!(row.icon, ActivityIcon::Globe);
    assert_eq!(row.accent, ActivityAccent::Cyan);
    let row = recent_activity_row_view_state(&item("Sync Failed", RecentActivitySeverity::Error));
    assert_eq!(row.icon, ActivityIcon::Alert);
    assert_eq!(row.accent, ActivityAccent::Rose);
    assert_eq!(row.copy_message, Some("Sync Failed happened".to_string()));
    let row = recent_activity_row_view_state(&item("Clipboard", RecentActivitySeverity::Warning));
    assert_eq!(row.accent, ActivityAccent::Amber);
    assert_eq!(row.copy_message, Some("Clipboard happened".to_string()));
    assert_eq!(recent_activity_count_label(3), "3 items");
    assert_eq!(recent_activity_count_label(0), "0 items");
}

#[test]
fn home_clipboard_panel_shows_latest_or_placeholder() {
    let empty = home_clipboard_panel_view_state(None);
    assert_eq!(empty.heading, "No committed record");
    assert_eq!(empty.subheading, "waiting for clipboard commit");
    assert_eq!(empty.accent, HomeClipboardAccent::Muted);
    assert_eq!(empty.adopt_event_id, None);
    let record = HomeClipboardRecordViewState {
        event_id: EventId(8),
        source: ClipboardRecordSource::RemoteSync,
        device_label: "laptop".to_string(),
        recorded_at_label: "09:00:00".to_string(),
        content: "hello".to_string(),
    };
    let v = home_clipboard_panel_view_state(Some(&record));
    assert_eq!(v.heading, "laptop");
    assert_eq!(v.body, "hello");
    assert_eq!(v.accent, HomeClipboardAccent::Remote);
    assert_eq!(v.adopt_event_id, Some(EventId(8)));
    let local = HomeClipboardRecordViewState { source: ClipboardRecordSource::LocalCapture, ..record };
    assert_eq!(home_clipboard_panel_view_state(Some(&local)).accent, HomeClipboardAccent::Local);
}
