use nooboard_gui::ids::{DirectRequestId, DirectSeedId, SessionId};
use nooboard_gui::network::page::{mask_token, validate_seed_draft};
use nooboard_gui::network::panels::{
    network_feedback_tone, network_page_banner, network_request_tab_notice, network_seed_tab_view_state,
    network_session_tab_notice, NetworkFeedbackTone,
    network_header_view_state, network_lan_panel_view_state, network_lan_peer_card_view_state,
    network_request_card_view_state, network_seed_card_view_state, network_session_card_view_state,
};
use nooboard_gui::network::state::{
    DirectPanelTab, NetworkDirectSeedViewState, NetworkLanPeerViewState, NetworkPageState, NetworkPageViewState, NetworkPendingRequestViewState,
    NetworkSessionViewState, SeedPanelMode,
};

fn seed(id: u128, label: &str, learned: Option<&str>) -> NetworkDirectSeedViewState {
    NetworkDirectSeedViewState {
        id: DirectSeedId(id),
        label: label.to_string(),
        host: "10.0.0.1".to_string(),
        port: 4000,
        enabled: id % 2 == 0,
        endpoint_label: "10.0.0.1:4000".to_string(),
        learned_device_id: learned.map(|d| d.to_string()),
        last_connected_addr_label: None,
    }
}

fn snapshot(seeds: Vec<NetworkDirectSeedViewState>) -> NetworkPageViewState {
    NetworkPageViewState {
        local_device_id: "desk".to_string(),
        local_noob_id: "noob-1".to_string(),
        endpoint_label: "192.168.1.5:17890".to_string(),
        network_token: "secret-token".to_string(),
        network_enabled: true,
        status_label: "Running".to_string(),
        lan_enabled: true,
        lan_peers: vec![],
        direct_seed_count: seeds.len(),
        pending_request_count: 1,
        direct_session_count: 1,
        connected_lan_peer_count: 0,
        direct_seeds: seeds,
        pending_requests: vec![NetworkPendingRequestViewState {
            id: DirectRequestId(5),
            peer_noob_id: "noob-5".to_string(),
            peer_device_id: "tablet".to_string(),
            remote_addr_label: "10.0.0.7:4000".to_string(),
            expires_label: "12:30".to_string(),
        }],
        direct_sessions: vec![NetworkSessionViewState {
            id: SessionId(6),
            peer_noob_id: "noob-6".to_string(),
            peer_device_id: "phone".to_string(),
            remote_addr_label: "10.0.0.8:4000".to_string(),
            local_bind_addr_label: Some("10.0.0.1:17890".to_string()),
            connected_at_label: "12:00".to_string(),
        }],
    }
}

fn labels(seeds: &[NetworkDirectSeedViewState]) -> Vec<String> {
    seeds.iter().map(|s| s.label.clone()).collect()
}

#[test]
fn mask_token_hides_every_character() {
    assert_eq!(mask_token(""), "unset");
    assert_eq!(mask_token("abc"), "********");
    assert_eq!(mask_token("0123456789"), "**********");
    assert_eq!(mask_token("ééé"), "********");
}

#[test]
fn seed_draft_requires_all_fields() {
    let err = validate_seed_draft(None, "  ", "host", "1", true).unwrap_err();
    assert_eq!(err, "Name, host, and port are required.");
    let err = validate_seed_draft(None, "name", "", "1", true).unwrap_err();
    assert_eq!(err, "Name, host, and port are required.");
    let err = validate_seed_draft(None, "name", "host", " \t", true).unwrap_err();
    assert_eq!(err, "Name, host, and port are required.");
}

#[test]
fn seed_draft_checks_port() {
    let err = validate_seed_draft(None, "name", "host", "65536", true).unwrap_err();
    assert_eq!(err, "Port must be a valid number.");
    let err = validate_seed_draft(None, "name", "host", "12ab", true).unwrap_err();
    assert_eq!(err, "Port must be a valid number.");
    let input = validate_seed_draft(Some(DirectSeedId(3)), " office ", " 192.168.1.2 ", " 65535 ", false).unwrap();
    assert_eq!(input.id, Some(DirectSeedId(3)));
    assert_eq!(input.label, "office");
    assert_eq!(input.host, "192.168.1.2");
    assert_eq!(input.port, 65535);
    assert!(!input.enabled);
    let input = validate_seed_draft(None, "a", "b", "+7", true).unwrap();
    assert_eq!(input.port, 7);
}

#[test]
fn filter_matches_label_or_learned_device_ignoring_case() {
    let state = NetworkPageState::new();
    let page = snapshot(vec![
        seed(1, "Office Desk", None),
        seed(2, "Laptop", Some("DESK-02")),
        seed(3, "Phone", Some("mobile")),
    ]);
    assert_eq!(labels(&state.filtered_direct_seeds(&page, "   ")), vec!["Office Desk", "Laptop", "Phone"]);
    assert_eq!(labels(&state.filtered_direct_seeds(&page, " desk ")), vec!["Office Desk", "Laptop"]);
    assert_eq!(labels(&state.filtered_direct_seeds(&page, "MOBILE")), vec!["Phone"]);
    assert!(state.filtered_direct_seeds(&page, "tablet").is_empty());
}

#[test]
fn vanished_seed_clears_the_editor() {
    let mut state = NetworkPageState::new();
    let s = seed(4, "Home", None);
    state.load_seed_into_draft(&s);
    assert_eq!(state.editing_seed_id(), Some(DirectSeedId(4)));
    assert!(state.draft_enabled());
    assert_eq!(state.feedback(), Some(&"Loaded direct seed 'Home' into the editor.".to_string()));
    assert!(!state.sync_from_workspace(None));
    assert!(!state.sync_from_workspace(Some(&snapshot(vec![seed(4, "Home", None)]))));
    assert_eq!(state.editing_seed_id(), Some(DirectSeedId(4)));
    assert!(state.sync_from_workspace(Some(&snapshot(vec![seed(1, "Other", None)]))));
    assert_eq!(state.editing_seed_id(), None);
    assert_eq!(state.seed_panel_mode(), SeedPanelMode::Create);
}

#[test]
fn vanished_items_lose_pending_marks() {
    let mut state = NetworkPageState::new();
    state.mark_seed_pending(DirectSeedId(1), "Removing".to_string());
    state.mark_request_pending(DirectRequestId(5), "Accepting".to_string());
    state.mark_request_pending(DirectRequestId(9), "Accepting".to_string());
    state.mark_session_pending(SessionId(6), "Closing".to_string());
    assert!(state.seed_pending(DirectSeedId(1)));
    assert_eq!(state.feedback(), Some(&"Closing".to_string()));
    state.sync_from_workspace(Some(&snapshot(vec![seed(2, "Two", None)])));
    assert!(!state.seed_pending(DirectSeedId(1)));
    assert!(state.request_pending(DirectRequestId(5)));
    assert!(!state.request_pending(DirectRequestId(9)));
    assert!(state.session_pending(SessionId(6)));
    state.finish_session_pending(SessionId(6), "Closed".to_string());
    assert!(!state.session_pending(SessionId(6)));
    state.finish_request_pending(DirectRequestId(5), "Accepted".to_string());
    assert!(!state.request_pending(DirectRequestId(5)));
    state.mark_seed_pending(DirectSeedId(2), "x".to_string());
    state.finish_seed_pending(DirectSeedId(2), "done".to_string());
    assert!(!state.seed_pending(DirectSeedId(2)));
    assert_eq!(state.feedback(), Some(&"done".to_string()));
}

#[test]
fn save_flow() {
    let mut state = NetworkPageState::new();
    assert_eq!(state.direct_tab(), DirectPanelTab::Seeds);
    state.set_direct_tab(DirectPanelTab::Sessions);
    assert_eq!(state.direct_tab(), DirectPanelTab::Sessions);
    state.set_seed_panel_mode(SeedPanelMode::Search);
    state.toggle_draft_enabled();
    assert!(!state.draft_enabled());
    state.begin_save();
    assert!(state.save_in_flight());
    assert_eq!(state.feedback(), Some(&"Saving direct preset.".to_string()));
    state.fail_save("host unreachable".to_string());
    assert!(!state.save_in_flight());
    state.begin_save();
    state.finish_save(DirectSeedId(11));
    assert_eq!(state.editing_seed_id(), Some(DirectSeedId(11)));
    assert_eq!(state.feedback(), Some(&"Direct preset saved.".to_string()));
    state.clear_seed_draft();
    assert_eq!(state.editing_seed_id(), None);
    assert!(state.draft_enabled());
    assert_eq!(state.seed_panel_mode(), SeedPanelMode::Create);
    assert!(!state.token_revealed());
    state.toggle_token_revealed();
    assert!(state.token_revealed());
    state.set_feedback("hi".to_string());
    assert_eq!(state.feedback(), Some(&"hi".to_string()));
}

fn peer(device: &str, connected: bool) -> NetworkLanPeerViewState {
    NetworkLanPeerViewState {
        noob_id: format!("noob-{device}"),
        device_id: device.to_string(),
        endpoint_label: "192.168.1.9:17890".to_string(),
        connected,
        connected_at_label: None,
        last_seen_label: "just now".to_string(),
    }
}

#[test]
fn header_masks_token_until_revealed() {
    let page = snapshot(vec![seed(1, "a", None), seed(2, "b", None)]);
    let hidden = network_header_view_state(&page, false);
    assert_eq!(hidden.token_text, "************");
    assert_eq!(hidden.token_toggle_tooltip, "Show token");
    assert_eq!(hidden.status_line, "Status: Running");
    assert_eq!(hidden.saved_count, "2");
    assert_eq!(hidden.request_count, "1");
    assert_eq!(hidden.direct_count, "1");
    assert_eq!(hidden.nearby_count, "0");
    let shown = network_header_view_state(&page, true);
    assert_eq!(shown.token_text, "secret-token");
    assert_eq!(shown.token_toggle_tooltip, "Hide token");
}

#[test]
fn lan_panel_lists_connected_peers() {
    let mut page = snapshot(vec![]);
    page.lan_peers = vec![peer("a", true), peer("b", false), peer("c", true)];
    let v = network_lan_panel_view_state(&page);
    assert_eq!(v.lan_label, "On");
    assert_eq!(v.notice, None);
    let devices: Vec<String> = v.peers.iter().map(|p| p.device_id.clone()).collect();
    assert_eq!(devices, vec!["a", "c"]);

    page.lan_peers = vec![peer("b", false)];
    let v = network_lan_panel_view_state(&page);
    assert_eq!(v.notice, Some("No connected LAN peers."));
    assert!(v.peers.is_empty());

    page.lan_enabled = false;
    page.lan_peers = vec![peer("a", true)];
    let v = network_lan_panel_view_state(&page);
    assert_eq!(v.lan_label, "Off");
    assert_eq!(v.notice, Some("LAN auto sync is disabled."));
    assert!(v.peers.is_empty());
}

#[test]
fn seed_card_disables_actions_while_pending() {
    let mut s = seed(2, "Office", Some("desk-9"));
    s.last_connected_addr_label = Some("10.0.0.1:4000".to_string());
    let v = network_seed_card_view_state(&s, false);
    assert_eq!(v.status_label, "Enabled");
    assert_eq!(v.learned_line, "Learned device code desk-9");
    assert_eq!(v.last_connected_line, Some("Last connected 10.0.0.1:4000".to_string()));
    assert!(!v.edit_disabled && !v.connect_disabled && !v.delete_disabled);
    let v = network_seed_card_view_state(&s, true);
    assert!(v.edit_disabled && v.connect_disabled && v.delete_disabled);
    let disabled = seed(3, "Off", None);
    let v = network_seed_card_view_state(&disabled, false);
    assert_eq!(v.status_label, "Disabled");
    assert_eq!(v.learned_line, "No learned device code yet");
    assert_eq!(v.last_connected_line, None);
    assert!(v.connect_disabled);
    assert!(!v.edit_disabled);
}

#[test]
fn request_and_session_cards() {
    let page = snapshot(vec![]);
    let r = network_request_card_view_state(&page.pending_requests[0], false);
    assert_eq!(r.detail_line, "10.0.0.7:4000 · Expires at 12:30");
    assert!(!r.accept_disabled && !r.reject_disabled);
    let r = network_request_card_view_state(&page.pending_requests[0], true);
    assert!(r.accept_disabled && r.reject_disabled);
    let s = network_session_card_view_state(&page.direct_sessions[0], true);
    assert_eq!(s.remote_line, "Remote 10.0.0.8:4000");
    assert_eq!(s.local_line, Some("Local address 10.0.0.1:17890".to_string()));
    assert_eq!(s.connected_line, "Connected at 12:00");
    assert!(s.disconnect_disabled);
    let mut p = peer("a", true);
    assert_eq!(network_lan_peer_card_view_state(&p).connected_line, None);
    p.connected_at_label = Some("09:00".to_string());
    let card = network_lan_peer_card_view_state(&p);
    assert_eq!(card.connected_line, Some("connected at 09:00".to_string()));
    assert_eq!(card.last_seen_line, "last seen just now");
}

#[test]
fn feedback_tone_reads_words_ignoring_case() {
    assert_eq!(network_feedback_tone("FAILED to approve request"), NetworkFeedbackTone::Problem);
    assert_eq!(network_feedback_tone("Network Error: port"), NetworkFeedbackTone::Problem);
    assert_eq!(network_feedback_tone("Disconnected from 'desk'."), NetworkFeedbackTone::Caution);
    assert_eq!(network_feedback_tone("REMOVED saved device"), NetworkFeedbackTone::Caution);
    assert_eq!(network_feedback_tone("Direct preset saved."), NetworkFeedbackTone::Info);
}

#[test]
fn page_banner_prefers_feedback_then_error_status() {
    assert_eq!(
        network_page_banner(Some("Removed saved device 'x'."), "Error: boom"),
        Some((NetworkFeedbackTone::Caution, "Removed saved device 'x'.".to_string()))
    );
    assert_eq!(
        network_page_banner(None, "Error: bind failed"),
        Some((NetworkFeedbackTone::Problem, "Error: bind failed".to_string()))
    );
    assert_eq!(network_page_banner(None, "Running"), None);
    assert_eq!(network_page_banner(None, "Error"), None);
}

#[test]
fn tabs_show_counts_and_notices() {
    let v = network_seed_tab_view_state(3, "");
    assert_eq!(v.count_line, "3 visible");
    assert_eq!(v.empty_notice, None);
    assert_eq!(network_seed_tab_view_state(0, "  ").empty_notice, Some("No saved devices yet."));
    assert_eq!(network_seed_tab_view_state(0, "desk").empty_notice, Some("No saved devices match your search."));
    let mut page = snapshot(vec![]);
    assert_eq!(network_request_tab_notice(&page), None);
    assert_eq!(network_session_tab_notice(&page), None);
    page.pending_requests.clear();
    page.direct_sessions.clear();
    assert_eq!(network_request_tab_notice(&page), Some("No connection requests waiting."));
    assert_eq!(network_session_tab_notice(&page), Some("No active direct connections."));
}

#[test]
fn save_seed_step_checks_fields_then_starts() {
    let mut state = NetworkPageState::new();
    assert!(state.begin_save_seed(" ", "host", "1", true).is_none());
    assert_eq!(state.feedback().map(|s| s.as_str()), Some("Name, host, and port are required."));
    assert!(!state.save_in_flight());
    assert!(state.begin_save_seed("desk", "host", "70000", true).is_none());
    assert_eq!(state.feedback().map(|s| s.as_str()), Some("Port must be a valid number."));
    assert!(state.begin_save_seed("desk", "host", "4000", false).is_none());
    assert_eq!(state.feedback().map(|s| s.as_str()), Some("Network details are still loading."));
    assert!(!state.save_in_flight());
    let input = state.begin_save_seed(" desk ", " 10.0.0.2 ", " 4000 ", true).unwrap();
    assert_eq!(input.id, None);
    assert_eq!(input.label, "desk");
    assert_eq!(input.host, "10.0.0.2");
    assert_eq!(input.port, 4000);
    assert!(input.enabled);
    assert!(state.save_in_flight());
    assert_eq!(state.feedback().map(|s| s.as_str()), Some("Saving direct preset."));
}
