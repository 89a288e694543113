//! What the panels of the network page show besides their controls: the
//! header with the token and the counters, the LAN peer list, and the card
//! of a saved seed.
use vstd::prelude::*;

use crate::text::{
    decimal_digits, decimal_string, seq_contains_run, spec_to_lowercase, str_contains, str_eq, str_to_lowercase,
    str_trim, trim_seq,
};
use super::page::{mask_token, mask_token_spec};
use super::state::{
    NetworkDirectSeedViewState, NetworkLanPeerViewState, NetworkPageViewState, NetworkPendingRequestViewState,
    NetworkSessionViewState,
};

verus! {

broadcast use vstd::string::group_string_axioms;

/// The header of the network page.
#[derive(Clone, Debug)]
pub struct NetworkHeaderViewState {
    /// The token, or its masked form while it is hidden.
    pub token_text: String,
    pub token_toggle_tooltip: &'static str,
    /// "Status: " and the runtime's status.
    pub status_line: String,
    pub saved_count: String,
    pub request_count: String,
    pub direct_count: String,
    pub nearby_count: String,
}

pub fn network_header_view_state(page: &NetworkPageViewState, token_revealed: bool) -> (v: NetworkHeaderViewState)
    ensures
        v.token_text@ == (if token_revealed { page.network_token@ } else { mask_token_spec(page.network_token@) }),
        v.token_toggle_tooltip@ == (if token_revealed { "Hide token"@ } else { "Show token"@ }),
        v.status_line@ == "Status: "@ + page.status_label@,
        v.saved_count@ == decimal_digits(page.direct_seed_count as nat),
        v.request_count@ == decimal_digits(page.pending_request_count as nat),
        v.direct_count@ == decimal_digits(page.direct_session_count as nat),
        v.nearby_count@ == decimal_digits(page.connected_lan_peer_count as nat),
{
    let token_text = if token_revealed {
        page.network_token.clone()
    } else {
        mask_token(page.network_token.as_str())
    };
    let mut status_line = String::from_str("Status: ");
    status_line.append(page.status_label.as_str());
    NetworkHeaderViewState {
        token_text,
        token_toggle_tooltip: if token_revealed { "Hide token" } else { "Show token" },
        status_line,
        saved_count: decimal_string(page.direct_seed_count as u64),
        request_count: decimal_string(page.pending_request_count as u64),
        direct_count: decimal_string(page.direct_session_count as u64),
        nearby_count: decimal_string(page.connected_lan_peer_count as u64),
    }
}

/// The connected peers among `peers`, in order.
pub open spec fn connected_peers(peers: Seq<NetworkLanPeerViewState>) -> Seq<NetworkLanPeerViewState>
    decreases peers.len(),
{
    if peers.len() == 0 {
        peers
    } else if peers.last().connected {
        connected_peers(peers.drop_last()).push(peers.last())
    } else {
        connected_peers(peers.drop_last())
    }
}

/// The LAN auto-sync panel.
#[derive(Clone, Debug)]
pub struct NetworkLanPanelViewState {
    pub lan_label: &'static str,
    /// Shown in place of the peer list when there is nothing to list.
    pub notice: Option<&'static str>,
    /// The connected peers, each shown as a card.
    pub peers: Vec<NetworkLanPeerViewState>,
}

pub open spec fn opt_static_view(o: Option<&'static str>) -> Option<Seq<char>> {
    match o {
        Some(s) => Some(s@),
        None => None,
    }
}

pub fn network_lan_panel_view_state(page: &NetworkPageViewState) -> (v: NetworkLanPanelViewState)
    ensures
        v.lan_label@ == (if page.lan_enabled { "On"@ } else { "Off"@ }),
        !page.lan_enabled ==> opt_static_view(v.notice) == Some("LAN auto sync is disabled."@) && v.peers@.len() == 0,
        page.lan_enabled && connected_peers(page.lan_peers@).len() == 0 ==> opt_static_view(v.notice) == Some(
            "No connected LAN peers."@,
        ) && v.peers@.len() == 0,
        page.lan_enabled && connected_peers(page.lan_peers@).len() > 0 ==> v.notice is None && v.peers@
            == connected_peers(page.lan_peers@),
{
    let lan_label = if page.lan_enabled { "On" } else { "Off" };
    if !page.lan_enabled {
        return NetworkLanPanelViewState { lan_label, notice: Some("LAN auto sync is disabled."), peers: Vec::new() };
    }
    let peers = &page.lan_peers;
    let mut connected: Vec<NetworkLanPeerViewState> = Vec::new();
    let mut i: usize = 0;
    while i < peers.len()
        invariant
            i <= peers.len(),
            connected@ == connected_peers(peers@.take(i as int)),
        decreases peers.len() - i,
    {
        proof {
            assert(peers@.take(i + 1).drop_last() =~= peers@.take(i as int));
            assert(peers@.take(i + 1).last() == peers@[i as int]);
        }
        if peers[i].connected {
            connected.push(peers[i].clone());
        }
        i = i + 1;
    }
    assert(peers@.take(peers.len() as int) =~= peers@);
    if connected.len() == 0 {
        return NetworkLanPanelViewState { lan_label, notice: Some("No connected LAN peers."), peers: connected };
    }
    NetworkLanPanelViewState { lan_label, notice: None, peers: connected }
}

/// The card of a saved seed.
#[derive(Clone, Debug)]
pub struct NetworkSeedCardViewState {
    pub status_label: &'static str,
    pub learned_line: String,
    pub last_connected_line: Option<String>,
    pub edit_disabled: bool,
    pub connect_disabled: bool,
    pub delete_disabled: bool,
}

pub open spec fn opt_string_view(o: Option<String>) -> Option<Seq<char>> {
    match o {
        Some(s) => Some(s@),
        None => None,
    }
}

/// The card of `seed`; `pending` says whether an action on it is running.
pub fn network_seed_card_view_state(seed: &NetworkDirectSeedViewState, pending: bool) -> (v: NetworkSeedCardViewState)
    ensures
        v.status_label@ == (if seed.enabled { "Enabled"@ } else { "Disabled"@ }),
        v.learned_line@ == (match seed.learned_device_id {
            Some(d) => "Learned device code "@ + d@,
            None => "No learned device code yet"@,
        }),
        opt_string_view(v.last_connected_line) == (match seed.last_connected_addr_label {
            Some(a) => Some("Last connected "@ + a@),
            None => None,
        }),
        v.edit_disabled == pending,
        v.connect_disabled == (pending || !seed.enabled),
        v.delete_disabled == pending,
{
    let learned_line = match &seed.learned_device_id {
        Some(d) => {
            let mut line = String::from_str("Learned device code ");
            line.append(d.as_str());
            line
        },
        None => String::from_str("No learned device code yet"),
    };
    let last_connected_line = match &seed.last_connected_addr_label {
        Some(a) => {
            let mut line = String::from_str("Last connected ");
            line.append(a.as_str());
            Some(line)
        },
        None => None,
    };
    NetworkSeedCardViewState {
        status_label: if seed.enabled { "Enabled" } else { "Disabled" },
        learned_line,
        last_connected_line,
        edit_disabled: pending,
        connect_disabled: pending || !seed.enabled,
        delete_disabled: pending,
    }
}

/// The card of a pending connection request.
#[derive(Clone, Debug)]
pub struct NetworkRequestCardViewState {
    /// e.g. "10.0.0.7:4000 · Expires at 12:30".
    pub detail_line: String,
    pub accept_disabled: bool,
    pub reject_disabled: bool,
}

/// The card of `request`; `pending` says whether an answer to it is running.
pub fn network_request_card_view_state(request: &NetworkPendingRequestViewState, pending: bool) -> (v: NetworkRequestCardViewState)
    ensures
        v.detail_line@ == request.remote_addr_label@ + " \u{b7} Expires at "@ + request.expires_label@,
        v.accept_disabled == pending,
        v.reject_disabled == pending,
{
    let mut detail_line = request.remote_addr_label.clone();
    detail_line.append(" \u{b7} Expires at ");
    detail_line.append(request.expires_label.as_str());
    NetworkRequestCardViewState { detail_line, accept_disabled: pending, reject_disabled: pending }
}

/// The card of a live direct session.
#[derive(Clone, Debug)]
pub struct NetworkSessionCardViewState {
    pub remote_line: String,
    pub local_line: Option<String>,
    pub connected_line: String,
    pub disconnect_disabled: bool,
}

/// The card of `session`; `pending` says whether its disconnection is running.
pub fn network_session_card_view_state(session: &NetworkSessionViewState, pending: bool) -> (v: NetworkSessionCardViewState)
    ensures
        v.remote_line@ == "Remote "@ + session.remote_addr_label@,
        opt_string_view(v.local_line) == (match session.local_bind_addr_label {
            Some(a) => Some("Local address "@ + a@),
            None => None,
        }),
        v.connected_line@ == "Connected at "@ + session.connected_at_label@,
        v.disconnect_disabled == pending,
{
    let mut remote_line = String::from_str("Remote ");
    remote_line.append(session.remote_addr_label.as_str());
    let local_line = match &session.local_bind_addr_label {
        Some(a) => {
            let mut line = String::from_str("Local address ");
            line.append(a.as_str());
            Some(line)
        },
        None => None,
    };
    let mut connected_line = String::from_str("Connected at ");
    connected_line.append(session.connected_at_label.as_str());
    NetworkSessionCardViewState { remote_line, local_line, connected_line, disconnect_disabled: pending }
}

/// The card of a connected LAN peer.
#[derive(Clone, Debug)]
pub struct NetworkLanPeerCardViewState {
    pub connected_line: Option<String>,
    pub last_seen_line: String,
}

pub fn network_lan_peer_card_view_state(peer: &NetworkLanPeerViewState) -> (v: NetworkLanPeerCardViewState)
    ensures
        opt_string_view(v.connected_line) == (match peer.connected_at_label {
            Some(a) => Some("connected at "@ + a@),
            None => None,
        }),
        v.last_seen_line@ == "last seen "@ + peer.last_seen_label@,
{
    let connected_line = match &peer.connected_at_label {
        Some(a) => {
            let mut line = String::from_str("connected at ");
            line.append(a.as_str());
            Some(line)
        },
        None => None,
    };
    let mut last_seen_line = String::from_str("last seen ");
    last_seen_line.append(peer.last_seen_label.as_str());
    NetworkLanPeerCardViewState { connected_line, last_seen_line }
}

/// The seed editor's hint and save button.
#[derive(Clone, Copy, Debug)]
pub struct NetworkSeedEditorViewState {
    pub hint: &'static str,
    pub save_label: &'static str,
    pub save_disabled: bool,
}

/// `editing` says whether the editor holds a saved seed.
pub fn network_seed_editor_view_state(editing: bool, save_in_flight: bool) -> (v: NetworkSeedEditorViewState)
    ensures
        v.hint@ == (if editing {
            "Editing an existing direct preset."@
        } else {
            "Create a reusable direct preset for manual connections."@
        }),
        v.save_label@ == (if editing { "Save"@ } else { "Create"@ }),
        v.save_disabled == save_in_flight,
{
    NetworkSeedEditorViewState {
        hint: if editing {
            "Editing an existing direct preset."
        } else {
            "Create a reusable direct preset for manual connections."
        },
        save_label: if editing { "Save" } else { "Create" },
        save_disabled: save_in_flight,
    }
}

/// How a feedback message of the network page is coloured.
#[derive(Clone, Copy, Debug, PartialEq, Eq, Structural)]
pub enum NetworkFeedbackTone {
    /// The message speaks of a failure or an error.
    Problem,
    /// The message speaks of disconnecting or removing.
    Caution,
    Info,
}

pub open spec fn feedback_tone_spec(message: Seq<char>) -> NetworkFeedbackTone {
    let lower = spec_to_lowercase(message);
    if seq_contains_run(lower, "fail"@) || seq_contains_run(lower, "error"@) {
        NetworkFeedbackTone::Problem
    } else if seq_contains_run(lower, "disconnect"@) || seq_contains_run(lower, "remove"@) {
        NetworkFeedbackTone::Caution
    } else {
        NetworkFeedbackTone::Info
    }
}

/// The tone of a feedback message, read from its words, ignoring case.
pub fn network_feedback_tone(message: &str) -> (t: NetworkFeedbackTone)
    ensures
        t == feedback_tone_spec(message@),
{
    let lower = str_to_lowercase(message);
    let l = lower.as_str();
    if str_contains(l, "fail") || str_contains(l, "error") {
        NetworkFeedbackTone::Problem
    } else if str_contains(l, "disconnect") || str_contains(l, "remove") {
        NetworkFeedbackTone::Caution
    } else {
        NetworkFeedbackTone::Info
    }
}

/// The status reports a failure of the network service.
pub open spec fn status_is_error(status: Seq<char>) -> bool {
    status.len() >= 6 && status.subrange(0, 6) == "Error:"@
}

fn starts_with_error(status: &str) -> (r: bool)
    ensures
        r == status_is_error(status@),
{
    if status.unicode_len() < 6 {
        return false;
    }
    let head = status.substring_char(0, 6);
    proof {
        assert(head@ =~= status@.subrange(0, 6));
    }
    str_eq(head, "Error:")
}

/// The banner under the network header: the page's feedback with its
/// tone; without feedback, a status that reports an error; else none.
pub fn network_page_banner(feedback: Option<&str>, status_label: &str) -> (b: Option<(NetworkFeedbackTone, String)>)
    ensures
        feedback matches Some(m) ==> (b matches Some((t, text)) && t == feedback_tone_spec(m@) && text@ == m@),
        feedback is None && status_is_error(status_label@) ==> (b matches Some((t, text)) && t
            == NetworkFeedbackTone::Problem && text@ == status_label@),
        feedback is None && !status_is_error(status_label@) ==> b is None,
{
    match feedback {
        Some(message) => Some((network_feedback_tone(message), message.to_owned())),
        None => if starts_with_error(status_label) {
            Some((NetworkFeedbackTone::Problem, status_label.to_owned()))
        } else {
            None
        },
    }
}

/// The saved-devices tab besides its cards.
#[derive(Clone, Debug)]
pub struct NetworkSeedTabViewState {
    /// e.g. "3 visible".
    pub count_line: String,
    pub empty_notice: Option<&'static str>,
}

/// `visible` is the number of seeds that pass the filter text `filter`.
pub fn network_seed_tab_view_state(visible: usize, filter: &str) -> (v: NetworkSeedTabViewState)
    ensures
        v.count_line@ == decimal_digits(visible as nat) + " visible"@,
        visible > 0 ==> v.empty_notice is None,
        visible == 0 ==> opt_static_view(v.empty_notice) == Some(
            if trim_seq(filter@).len() == 0 { "No saved devices yet."@ } else { "No saved devices match your search."@ },
        ),
{
    let mut count_line = decimal_string(visible as u64);
    count_line.append(" visible");
    let empty_notice = if visible > 0 {
        None
    } else if str_trim(filter).unicode_len() == 0 {
        Some("No saved devices yet.")
    } else {
        Some("No saved devices match your search.")
    };
    NetworkSeedTabViewState { count_line, empty_notice }
}

/// The notice of the requests tab when no request waits.
pub fn network_request_tab_notice(page: &NetworkPageViewState) -> (n: Option<&'static str>)
    ensures
        page.pending_requests@.len() == 0 ==> opt_static_view(n) == Some("No connection requests waiting."@),
        page.pending_requests@.len() > 0 ==> n is None,
{
    if page.pending_requests.len() == 0 { Some("No connection requests waiting.") } else { None }
}

/// The notice of the sessions tab when no direct connection is open.
pub fn network_session_tab_notice(page: &NetworkPageViewState) -> (n: Option<&'static str>)
    ensures
        page.direct_sessions@.len() == 0 ==> opt_static_view(n) == Some("No active direct connections."@),
        page.direct_sessions@.len() > 0 ==> n is None,
{
    if page.direct_sessions.len() == 0 { Some("No active direct connections.") } else { None }
}

} // verus!
