//! State of the network page: the direct-seed editor, the filter over saved
//! seeds, and the seeds, requests and sessions with an action running.
use std::collections::HashSet;

use vstd::prelude::*;

use crate::ids::{DirectRequestId, DirectSeedId, SessionId};
use crate::text::{seq_contains_run, spec_to_lowercase, str_contains, str_to_lowercase, str_trim, trim_seq};

verus! {

broadcast use vstd::std_specs::hash::group_hash_axioms;

/// Tabs of the direct-connection panel.
#[derive(Clone, Copy, Debug, PartialEq, Eq, Structural)]
pub enum DirectPanelTab {
    Seeds,
    Pending,
    Sessions,
}

/// Whether the seed panel edits a seed or searches the saved ones.
#[derive(Clone, Copy, Debug, PartialEq, Eq, Structural)]
pub enum SeedPanelMode {
    Create,
    Search,
}

/// A saved direct seed as the workspace reports it.
#[derive(Debug)]
pub struct NetworkDirectSeedViewState {
    pub id: DirectSeedId,
    pub label: String,
    pub host: String,
    pub port: u16,
    pub enabled: bool,
    pub endpoint_label: String,
    pub learned_device_id: Option<String>,
    pub last_connected_addr_label: Option<String>,
}

impl Clone for NetworkDirectSeedViewState {
    fn clone(&self) -> (r: Self)
        ensures
            r == *self,
    {
        NetworkDirectSeedViewState {
            id: self.id,
            label: self.label.clone(),
            host: self.host.clone(),
            port: self.port,
            enabled: self.enabled,
            endpoint_label: self.endpoint_label.clone(),
            learned_device_id: match &self.learned_device_id {
                Some(d) => Some(d.clone()),
                None => None,
            },
            last_connected_addr_label: match &self.last_connected_addr_label {
                Some(a) => Some(a.clone()),
                None => None,
            },
        }
    }
}

/// A pending direct connection request.
#[derive(Debug)]
pub struct NetworkPendingRequestViewState {
    pub id: DirectRequestId,
    pub peer_noob_id: String,
    pub peer_device_id: String,
    pub remote_addr_label: String,
    pub expires_label: String,
}

impl Clone for NetworkPendingRequestViewState {
    fn clone(&self) -> (r: Self)
        ensures
            r == *self,
    {
        NetworkPendingRequestViewState {
            id: self.id,
            peer_noob_id: self.peer_noob_id.clone(),
            peer_device_id: self.peer_device_id.clone(),
            remote_addr_label: self.remote_addr_label.clone(),
            expires_label: self.expires_label.clone(),
        }
    }
}

/// A live direct session.
#[derive(Debug)]
pub struct NetworkSessionViewState {
    pub id: SessionId,
    pub peer_noob_id: String,
    pub peer_device_id: String,
    pub remote_addr_label: String,
    pub local_bind_addr_label: Option<String>,
    pub connected_at_label: String,
}

impl Clone for NetworkSessionViewState {
    fn clone(&self) -> (r: Self)
        ensures
            r == *self,
    {
        NetworkSessionViewState {
            id: self.id,
            peer_noob_id: self.peer_noob_id.clone(),
            peer_device_id: self.peer_device_id.clone(),
            remote_addr_label: self.remote_addr_label.clone(),
            local_bind_addr_label: match &self.local_bind_addr_label {
                Some(a) => Some(a.clone()),
                None => None,
            },
            connected_at_label: self.connected_at_label.clone(),
        }
    }
}

/// A peer found on the local network.
#[derive(Debug)]
pub struct NetworkLanPeerViewState {
    pub noob_id: String,
    pub device_id: String,
    pub endpoint_label: String,
    pub connected: bool,
    pub connected_at_label: Option<String>,
    pub last_seen_label: String,
}

impl Clone for NetworkLanPeerViewState {
    fn clone(&self) -> (r: Self)
        ensures
            r == *self,
    {
        NetworkLanPeerViewState {
            noob_id: self.noob_id.clone(),
            device_id: self.device_id.clone(),
            endpoint_label: self.endpoint_label.clone(),
            connected: self.connected,
            connected_at_label: match &self.connected_at_label {
                Some(a) => Some(a.clone()),
                None => None,
            },
            last_seen_label: self.last_seen_label.clone(),
        }
    }
}

/// The network part of the workspace snapshot.
#[derive(Clone, Debug)]
pub struct NetworkPageViewState {
    pub local_device_id: String,
    pub local_noob_id: String,
    pub endpoint_label: String,
    pub network_token: String,
    pub network_enabled: bool,
    pub status_label: String,
    pub lan_enabled: bool,
    pub lan_peers: Vec<NetworkLanPeerViewState>,
    pub direct_seed_count: usize,
    pub pending_request_count: usize,
    pub direct_session_count: usize,
    pub connected_lan_peer_count: usize,
    pub direct_seeds: Vec<NetworkDirectSeedViewState>,
    pub pending_requests: Vec<NetworkPendingRequestViewState>,
    pub direct_sessions: Vec<NetworkSessionViewState>,
}

/// The abstract state of the network page.
pub struct NetworkView {
    pub direct_tab: DirectPanelTab,
    pub seed_panel_mode: SeedPanelMode,
    pub draft_enabled: bool,
    pub editing_seed_id: Option<DirectSeedId>,
    pub token_revealed: bool,
    pub pending_seed_ids: Set<DirectSeedId>,
    pub pending_request_ids: Set<DirectRequestId>,
    pub pending_session_ids: Set<SessionId>,
    pub save_in_flight: bool,
    pub feedback: Option<Seq<char>>,
}

impl NetworkView {
    /// The editor is back to a new, enabled seed.
    pub open spec fn draft_cleared(self) -> Self {
        NetworkView {
            editing_seed_id: None,
            seed_panel_mode: SeedPanelMode::Create,
            draft_enabled: true,
            ..self
        }
    }
}

pub open spec fn seed_listed(seeds: Seq<NetworkDirectSeedViewState>, id: DirectSeedId) -> bool {
    exists|i: int| 0 <= i < seeds.len() && (#[trigger] seeds[i]).id == id
}

pub open spec fn request_listed(requests: Seq<NetworkPendingRequestViewState>, id: DirectRequestId) -> bool {
    exists|i: int| 0 <= i < requests.len() && (#[trigger] requests[i]).id == id
}

pub open spec fn session_listed(sessions: Seq<NetworkSessionViewState>, id: SessionId) -> bool {
    exists|i: int| 0 <= i < sessions.len() && (#[trigger] sessions[i]).id == id
}

/// A seed passes the filter `query` (already trimmed and lower-cased) when
/// its label or its learned device id contains it, ignoring case.
pub open spec fn seed_matches(seed: NetworkDirectSeedViewState, query: Seq<char>) -> bool {
    ||| seq_contains_run(spec_to_lowercase(seed.label@), query)
    ||| (seed.learned_device_id matches Some(d) && seq_contains_run(spec_to_lowercase(d@), query))
}

/// The seeds that pass the filter, in order.
pub open spec fn filter_seeds(seeds: Seq<NetworkDirectSeedViewState>, query: Seq<char>) -> Seq<NetworkDirectSeedViewState>
    decreases seeds.len(),
{
    if seeds.len() == 0 {
        seeds
    } else if seed_matches(seeds.last(), query) {
        filter_seeds(seeds.drop_last(), query).push(seeds.last())
    } else {
        filter_seeds(seeds.drop_last(), query)
    }
}

pub open spec fn opt_string_view(s: Option<String>) -> Option<Seq<char>> {
    match s {
        Some(t) => Some(t@),
        None => None,
    }
}

/// State of the network page (the editor's field texts are kept by the view).
pub struct NetworkPageState {
    direct_tab: DirectPanelTab,
    seed_panel_mode: SeedPanelMode,
    draft_enabled: bool,
    editing_seed_id: Option<DirectSeedId>,
    token_revealed: bool,
    pending_seed_ids: HashSet<u128>,
    pending_request_ids: HashSet<u128>,
    pending_session_ids: HashSet<u128>,
    save_in_flight: bool,
    feedback: Option<String>,
}

impl View for NetworkPageState {
    type V = NetworkView;

    closed spec fn view(&self) -> NetworkView {
        NetworkView {
            direct_tab: self.direct_tab,
            seed_panel_mode: self.seed_panel_mode,
            draft_enabled: self.draft_enabled,
            editing_seed_id: self.editing_seed_id,
            token_revealed: self.token_revealed,
            pending_seed_ids: Set::new(|id: DirectSeedId| self.pending_seed_ids@.contains(id.0)),
            pending_request_ids: Set::new(|id: DirectRequestId| self.pending_request_ids@.contains(id.0)),
            pending_session_ids: Set::new(|id: SessionId| self.pending_session_ids@.contains(id.0)),
            save_in_flight: self.save_in_flight,
            feedback: opt_string_view(self.feedback),
        }
    }
}

fn id_set_contains(ids: &HashSet<u128>, x: u128) -> (r: bool)
    ensures
        r == ids@.contains(x),
{
    ids.contains(&x)
}

fn id_set_insert(ids: &mut HashSet<u128>, x: u128)
    ensures
        final(ids)@ == old(ids)@.insert(x),
{
    ids.insert(x);
}

fn id_set_remove(ids: &mut HashSet<u128>, x: u128)
    ensures
        final(ids)@ == old(ids)@.remove(x),
{
    ids.remove(&x);
}

impl NetworkPageState {
    pub fn new() -> (s: Self)
        ensures
            s@ == (NetworkView {
                direct_tab: DirectPanelTab::Seeds,
                seed_panel_mode: SeedPanelMode::Create,
                draft_enabled: true,
                editing_seed_id: None,
                token_revealed: false,
                pending_seed_ids: Set::empty(),
                pending_request_ids: Set::empty(),
                pending_session_ids: Set::empty(),
                save_in_flight: false,
                feedback: None,
            }),
    {
        let s = NetworkPageState {
            direct_tab: DirectPanelTab::Seeds,
            seed_panel_mode: SeedPanelMode::Create,
            draft_enabled: true,
            editing_seed_id: None,
            token_revealed: false,
            pending_seed_ids: HashSet::new(),
            pending_request_ids: HashSet::new(),
            pending_session_ids: HashSet::new(),
            save_in_flight: false,
            feedback: None,
        };
        assert(s@.pending_seed_ids =~= Set::<DirectSeedId>::empty());
        assert(s@.pending_request_ids =~= Set::<DirectRequestId>::empty());
        assert(s@.pending_session_ids =~= Set::<SessionId>::empty());
        s
    }

    pub fn direct_tab(&self) -> (r: DirectPanelTab)
        ensures
            r == self@.direct_tab,
    {
        self.direct_tab
    }

    pub fn set_direct_tab(&mut self, tab: DirectPanelTab)
        ensures
            final(self)@ == (NetworkView { direct_tab: tab, ..old(self)@ }),
    {
        self.direct_tab = tab;
    }

    pub fn seed_panel_mode(&self) -> (r: SeedPanelMode)
        ensures
            r == self@.seed_panel_mode,
    {
        self.seed_panel_mode
    }

    pub fn set_seed_panel_mode(&mut self, mode: SeedPanelMode)
        ensures
            final(self)@ == (NetworkView { seed_panel_mode: mode, ..old(self)@ }),
    {
        self.seed_panel_mode = mode;
    }

    pub fn draft_enabled(&self) -> (r: bool)
        ensures
            r == self@.draft_enabled,
    {
        self.draft_enabled
    }

    pub fn editing_seed_id(&self) -> (r: Option<DirectSeedId>)
        ensures
            r == self@.editing_seed_id,
    {
        self.editing_seed_id
    }

    pub fn token_revealed(&self) -> (r: bool)
        ensures
            r == self@.token_revealed,
    {
        self.token_revealed
    }

    pub fn toggle_token_revealed(&mut self)
        ensures
            final(self)@ == (NetworkView { token_revealed: !old(self)@.token_revealed, ..old(self)@ }),
    {
        self.token_revealed = !self.token_revealed;
    }

    pub fn feedback(&self) -> (r: Option<&String>)
        ensures
            match r {
                Some(m) => self@.feedback == Some(m@),
                None => self@.feedback is None,
            },
    {
        self.feedback.as_ref()
    }

    pub fn save_in_flight(&self) -> (r: bool)
        ensures
            r == self@.save_in_flight,
    {
        self.save_in_flight
    }

    pub fn seed_pending(&self, id: DirectSeedId) -> (r: bool)
        ensures
            r == self@.pending_seed_ids.contains(id),
    {
        id_set_contains(&self.pending_seed_ids, id.0)
    }

    pub fn request_pending(&self, id: DirectRequestId) -> (r: bool)
        ensures
            r == self@.pending_request_ids.contains(id),
    {
        id_set_contains(&self.pending_request_ids, id.0)
    }

    pub fn session_pending(&self, id: SessionId) -> (r: bool)
        ensures
            r == self@.pending_session_ids.contains(id),
    {
        id_set_contains(&self.pending_session_ids, id.0)
    }

    /// The saved seeds that pass the filter text: all of them when the
    /// trimmed filter is empty, otherwise those whose label or learned
    /// device id contains it, ignoring case.
    pub fn filtered_direct_seeds(&self, page: &NetworkPageViewState, filter: &str) -> (seeds: Vec<NetworkDirectSeedViewState>)
        ensures
            spec_to_lowercase(trim_seq(filter@)).len() == 0 ==> seeds@ == page.direct_seeds@,
            spec_to_lowercase(trim_seq(filter@)).len() > 0 ==> seeds@ == filter_seeds(
                page.direct_seeds@,
                spec_to_lowercase(trim_seq(filter@)),
            ),
    {
        let query = str_to_lowercase(str_trim(filter));
        if query.as_str().is_empty() {
            return page.direct_seeds.clone();
        }
        let seeds = &page.direct_seeds;
        let mut out: Vec<NetworkDirectSeedViewState> = Vec::new();
        let mut i: usize = 0;
        while i < seeds.len()
            invariant
                i <= seeds.len(),
                query@ == spec_to_lowercase(trim_seq(filter@)),
                out@ == filter_seeds(seeds@.take(i as int), query@),
            decreases seeds.len() - i,
        {
            proof {
                assert(seeds@.take(i + 1).drop_last() =~= seeds@.take(i as int));
                assert(seeds@.take(i + 1).last() == seeds@[i as int]);
            }
            let seed = &seeds[i];
            let label_matches = str_contains(str_to_lowercase(seed.label.as_str()).as_str(), query.as_str());
            let matches = label_matches || match &seed.learned_device_id {
                Some(device_id) => str_contains(str_to_lowercase(device_id.as_str()).as_str(), query.as_str()),
                None => false,
            };
            if matches {
                out.push(seed.clone());
            }
            i = i + 1;
        }
        assert(seeds@.take(seeds.len() as int) =~= seeds@);
        out
    }

    /// Takes in a network snapshot: a seed being edited that no longer
    /// exists clears the editor (true is returned, the editor's fields are
    /// to be emptied), and pending marks of vanished items are dropped.
    pub fn sync_from_workspace(&mut self, page: Option<&NetworkPageViewState>) -> (cleared: bool)
        ensures
            page is None ==> !cleared && final(self)@ == old(self)@,
            page matches Some(p) ==> {
                &&& cleared == (old(self)@.editing_seed_id matches Some(id) && !seed_listed(p.direct_seeds@, id))
                &&& final(self)@.direct_tab == old(self)@.direct_tab
                &&& final(self)@.token_revealed == old(self)@.token_revealed
                &&& final(self)@.save_in_flight == old(self)@.save_in_flight
                &&& final(self)@.feedback == old(self)@.feedback
                &&& (cleared ==> final(self)@.editing_seed_id is None && final(self)@.seed_panel_mode
                    == SeedPanelMode::Create && final(self)@.draft_enabled)
                &&& (!cleared ==> final(self)@.editing_seed_id == old(self)@.editing_seed_id
                    && final(self)@.seed_panel_mode == old(self)@.seed_panel_mode
                    && final(self)@.draft_enabled == old(self)@.draft_enabled)
                &&& forall|id: DirectSeedId| #[trigger] final(self)@.pending_seed_ids.contains(id)
                    == (old(self)@.pending_seed_ids.contains(id) && seed_listed(p.direct_seeds@, id))
                &&& forall|id: DirectRequestId| #[trigger] final(self)@.pending_request_ids.contains(id)
                    == (old(self)@.pending_request_ids.contains(id) && request_listed(p.pending_requests@, id))
                &&& forall|id: SessionId| #[trigger] final(self)@.pending_session_ids.contains(id)
                    == (old(self)@.pending_session_ids.contains(id) && session_listed(p.direct_sessions@, id))
            },
    {
        let page = match page {
            Some(page) => page,
            None => {
                return false;
            },
        };
        let mut cleared = false;
        match self.editing_seed_id {
            Some(editing) => {
                if !Self::seed_in(&page.direct_seeds, editing) {
                    self.clear_seed_draft();
                    cleared = true;
                }
            },
            None => {},
        }
        let ghost before = self@;
        let mut kept_seeds: HashSet<u128> = HashSet::new();
        let mut i: usize = 0;
        while i < page.direct_seeds.len()
            invariant
                i <= page.direct_seeds.len(),
                self@ == before,
                forall|raw: u128| #[trigger] kept_seeds@.contains(raw)
                    == (self.pending_seed_ids@.contains(raw) && seed_listed(page.direct_seeds@.take(i as int), DirectSeedId(raw))),
            decreases page.direct_seeds.len() - i,
        {
            let id = page.direct_seeds[i].id.0;
            if id_set_contains(&self.pending_seed_ids, id) {
                kept_seeds.insert(id);
            }
            proof {
                let listed = page.direct_seeds@;
                assert forall|raw: u128| #[trigger] seed_listed(listed.take(i + 1), DirectSeedId(raw))
                    == (seed_listed(listed.take(i as int), DirectSeedId(raw)) || raw == id) by {
                    if seed_listed(listed.take(i as int), DirectSeedId(raw)) {
                        let k = choose|k: int| 0 <= k < i && (#[trigger] listed.take(i as int)[k]).id == DirectSeedId(raw);
                        assert(listed.take(i + 1)[k] == listed.take(i as int)[k]);
                    }
                    if raw == id {
                        assert(listed.take(i + 1)[i as int] == listed[i as int]);
                    }
                    if seed_listed(listed.take(i + 1), DirectSeedId(raw)) && raw != id {
                        let k = choose|k: int| 0 <= k < i + 1 && (#[trigger] listed.take(i + 1)[k]).id == DirectSeedId(raw);
                        assert(listed.take(i as int)[k] == listed.take(i + 1)[k]);
                    }
                }
            }
            i = i + 1;
        }
        assert(page.direct_seeds@.take(i as int) =~= page.direct_seeds@);
        let mut kept_requests: HashSet<u128> = HashSet::new();
        let mut i: usize = 0;
        while i < page.pending_requests.len()
            invariant
                i <= page.pending_requests.len(),
                self@ == before,
                forall|raw: u128| #[trigger] kept_requests@.contains(raw)
                    == (self.pending_request_ids@.contains(raw) && request_listed(page.pending_requests@.take(i as int), DirectRequestId(raw))),
            decreases page.pending_requests.len() - i,
        {
            let id = page.pending_requests[i].id.0;
            if id_set_contains(&self.pending_request_ids, id) {
                kept_requests.insert(id);
            }
            proof {
                let listed = page.pending_requests@;
                assert forall|raw: u128| #[trigger] request_listed(listed.take(i + 1), DirectRequestId(raw))
                    == (request_listed(listed.take(i as int), DirectRequestId(raw)) || raw == id) by {
                    if request_listed(listed.take(i as int), DirectRequestId(raw)) {
                        let k = choose|k: int| 0 <= k < i && (#[trigger] listed.take(i as int)[k]).id == DirectRequestId(raw);
                        assert(listed.take(i + 1)[k] == listed.take(i as int)[k]);
                    }
                    if raw == id {
                        assert(listed.take(i + 1)[i as int] == listed[i as int]);
                    }
                    if request_listed(listed.take(i + 1), DirectRequestId(raw)) && raw != id {
                        let k = choose|k: int| 0 <= k < i + 1 && (#[trigger] listed.take(i + 1)[k]).id == DirectRequestId(raw);
                        assert(listed.take(i as int)[k] == listed.take(i + 1)[k]);
                    }
                }
            }
            i = i + 1;
        }
        assert(page.pending_requests@.take(i as int) =~= page.pending_requests@);
        let mut kept_sessions: HashSet<u128> = HashSet::new();
        let mut i: usize = 0;
        while i < page.direct_sessions.len()
            invariant
                i <= page.direct_sessions.len(),
                self@ == before,
                forall|raw: u128| #[trigger] kept_sessions@.contains(raw)
                    == (self.pending_session_ids@.contains(raw) && session_listed(page.direct_sessions@.take(i as int), SessionId(raw))),
            decreases page.direct_sessions.len() - i,
        {
            let id = page.direct_sessions[i].id.0;
            if id_set_contains(&self.pending_session_ids, id) {
                kept_sessions.insert(id);
            }
            proof {
                let listed = page.direct_sessions@;
                assert forall|raw: u128| #[trigger] session_listed(listed.take(i + 1), SessionId(raw))
                    == (session_listed(listed.take(i as int), SessionId(raw)) || raw == id) by {
                    if session_listed(listed.take(i as int), SessionId(raw)) {
                        let k = choose|k: int| 0 <= k < i && (#[trigger] listed.take(i as int)[k]).id == SessionId(raw);
                        assert(listed.take(i + 1)[k] == listed.take(i as int)[k]);
                    }
                    if raw == id {
                        assert(listed.take(i + 1)[i as int] == listed[i as int]);
                    }
                    if session_listed(listed.take(i + 1), SessionId(raw)) && raw != id {
                        let k = choose|k: int| 0 <= k < i + 1 && (#[trigger] listed.take(i + 1)[k]).id == SessionId(raw);
                        assert(listed.take(i as int)[k] == listed.take(i + 1)[k]);
                    }
                }
            }
            i = i + 1;
        }
        assert(page.direct_sessions@.take(i as int) =~= page.direct_sessions@);
        self.pending_seed_ids = kept_seeds;
        self.pending_request_ids = kept_requests;
        self.pending_session_ids = kept_sessions;
        proof {
            assert forall|id: DirectSeedId| #[trigger] self@.pending_seed_ids.contains(id)
                == (before.pending_seed_ids.contains(id) && seed_listed(page.direct_seeds@, id)) by {
                assert(DirectSeedId(id.0) == id);
            }
            assert forall|id: DirectRequestId| #[trigger] self@.pending_request_ids.contains(id)
                == (before.pending_request_ids.contains(id) && request_listed(page.pending_requests@, id)) by {
                assert(DirectRequestId(id.0) == id);
            }
            assert forall|id: SessionId| #[trigger] self@.pending_session_ids.contains(id)
                == (before.pending_session_ids.contains(id) && session_listed(page.direct_sessions@, id)) by {
                assert(SessionId(id.0) == id);
            }
        }
        cleared
    }

    fn seed_in(seeds: &Vec<NetworkDirectSeedViewState>, id: DirectSeedId) -> (r: bool)
        ensures
            r == seed_listed(seeds@, id),
    {
        let mut i: usize = 0;
        while i < seeds.len()
            invariant
                i <= seeds.len(),
                forall|k: int| 0 <= k < i ==> (#[trigger] seeds@[k]).id != id,
            decreases seeds.len() - i,
        {
            if seeds[i].id == id {
                return true;
            }
            i = i + 1;
        }
        false
    }

    fn request_in(requests: &Vec<NetworkPendingRequestViewState>, id: DirectRequestId) -> (r: bool)
        ensures
            r == request_listed(requests@, id),
    {
        let mut i: usize = 0;
        while i < requests.len()
            invariant
                i <= requests.len(),
                forall|k: int| 0 <= k < i ==> (#[trigger] requests@[k]).id != id,
            decreases requests.len() - i,
        {
            if requests[i].id == id {
                return true;
            }
            i = i + 1;
        }
        false
    }

    fn session_in(sessions: &Vec<NetworkSessionViewState>, id: SessionId) -> (r: bool)
        ensures
            r == session_listed(sessions@, id),
    {
        let mut i: usize = 0;
        while i < sessions.len()
            invariant
                i <= sessions.len(),
                forall|k: int| 0 <= k < i ==> (#[trigger] sessions@[k]).id != id,
            decreases sessions.len() - i,
        {
            if sessions[i].id == id {
                return true;
            }
            i = i + 1;
        }
        false
    }

    /// Empties the seed editor: a new, enabled seed in the create panel.
    pub fn clear_seed_draft(&mut self)
        ensures
            final(self)@ == old(self)@.draft_cleared(),
    {
        self.editing_seed_id = None;
        self.seed_panel_mode = SeedPanelMode::Create;
        self.draft_enabled = true;
    }

    /// Opens a saved seed in the editor (its label, host and port go into
    /// the editor's fields).
    pub fn load_seed_into_draft(&mut self, seed: &NetworkDirectSeedViewState)
        ensures
            final(self)@ == (NetworkView {
                direct_tab: DirectPanelTab::Seeds,
                seed_panel_mode: SeedPanelMode::Create,
                editing_seed_id: Some(seed.id),
                draft_enabled: seed.enabled,
                feedback: Some("Loaded direct seed '"@ + seed.label@ + "' into the editor."@),
                ..old(self)@
            }),
    {
        self.direct_tab = DirectPanelTab::Seeds;
        self.seed_panel_mode = SeedPanelMode::Create;
        self.editing_seed_id = Some(seed.id);
        self.draft_enabled = seed.enabled;
        let mut message = String::from_str("Loaded direct seed '");
        message.append(seed.label.as_str());
        message.append("' into the editor.");
        self.feedback = Some(message);
    }

    pub fn toggle_draft_enabled(&mut self)
        ensures
            final(self)@ == (NetworkView { draft_enabled: !old(self)@.draft_enabled, ..old(self)@ }),
    {
        self.draft_enabled = !self.draft_enabled;
    }

    pub fn begin_save(&mut self)
        ensures
            final(self)@ == (NetworkView { save_in_flight: true, feedback: Some("Saving direct preset."@), ..old(self)@ }),
    {
        self.save_in_flight = true;
        self.feedback = Some(String::from_str("Saving direct preset."));
    }

    /// The seed was saved; the editor now edits it.
    pub fn finish_save(&mut self, saved_id: DirectSeedId)
        ensures
            final(self)@ == (NetworkView {
                save_in_flight: false,
                editing_seed_id: Some(saved_id),
                feedback: Some("Direct preset saved."@),
                ..old(self)@
            }),
    {
        self.save_in_flight = false;
        self.editing_seed_id = Some(saved_id);
        self.feedback = Some(String::from_str("Direct preset saved."));
    }

    pub fn fail_save(&mut self, message: String)
        ensures
            final(self)@ == (NetworkView { save_in_flight: false, feedback: Some(message@), ..old(self)@ }),
    {
        self.save_in_flight = false;
        self.feedback = Some(message);
    }

    pub fn mark_seed_pending(&mut self, id: DirectSeedId, message: String)
        ensures
            final(self)@ == (NetworkView {
                pending_seed_ids: old(self)@.pending_seed_ids.insert(id),
                feedback: Some(message@),
                ..old(self)@
            }),
    {
        id_set_insert(&mut self.pending_seed_ids, id.0);
        self.feedback = Some(message);
        assert(self@.pending_seed_ids =~= old(self)@.pending_seed_ids.insert(id));
    }

    pub fn finish_seed_pending(&mut self, id: DirectSeedId, message: String)
        ensures
            final(self)@ == (NetworkView {
                pending_seed_ids: old(self)@.pending_seed_ids.remove(id),
                feedback: Some(message@),
                ..old(self)@
            }),
    {
        id_set_remove(&mut self.pending_seed_ids, id.0);
        self.feedback = Some(message);
        assert(self@.pending_seed_ids =~= old(self)@.pending_seed_ids.remove(id));
    }

    pub fn mark_request_pending(&mut self, id: DirectRequestId, message: String)
        ensures
            final(self)@ == (NetworkView {
                pending_request_ids: old(self)@.pending_request_ids.insert(id),
                feedback: Some(message@),
                ..old(self)@
            }),
    {
        id_set_insert(&mut self.pending_request_ids, id.0);
        self.feedback = Some(message);
        assert(self@.pending_request_ids =~= old(self)@.pending_request_ids.insert(id));
    }

    pub fn finish_request_pending(&mut self, id: DirectRequestId, message: String)
        ensures
            final(self)@ == (NetworkView {
                pending_request_ids: old(self)@.pending_request_ids.remove(id),
                feedback: Some(message@),
                ..old(self)@
            }),
    {
        id_set_remove(&mut self.pending_request_ids, id.0);
        self.feedback = Some(message);
        assert(self@.pending_request_ids =~= old(self)@.pending_request_ids.remove(id));
    }

    pub fn mark_session_pending(&mut self, id: SessionId, message: String)
        ensures
            final(self)@ == (NetworkView {
                pending_session_ids: old(self)@.pending_session_ids.insert(id),
                feedback: Some(message@),
                ..old(self)@
            }),
    {
        id_set_insert(&mut self.pending_session_ids, id.0);
        self.feedback = Some(message);
        assert(self@.pending_session_ids =~= old(self)@.pending_session_ids.insert(id));
    }

    pub fn finish_session_pending(&mut self, id: SessionId, message: String)
        ensures
            final(self)@ == (NetworkView {
                pending_session_ids: old(self)@.pending_session_ids.remove(id),
                feedback: Some(message@),
                ..old(self)@
            }),
    {
        id_set_remove(&mut self.pending_session_ids, id.0);
        self.feedback = Some(message);
        assert(self@.pending_session_ids =~= old(self)@.pending_session_ids.remove(id));
    }

    pub fn set_feedback(&mut self, message: String)
        ensures
            final(self)@ == (NetworkView { feedback: Some(message@), ..old(self)@ }),
    {
        self.feedback = Some(message);
    }
}

/// The filter keeps a seed exactly when its lower-cased label contains the
/// query or it has a learned device id whose lower-cased form contains it;
/// each test stands on its own, and nothing else enters the result.
pub proof fn law_filter_keeps_seeds_by_label_or_device(seeds: Seq<NetworkDirectSeedViewState>, query: Seq<char>)
    ensures
        forall|x: NetworkDirectSeedViewState| #[trigger] filter_seeds(seeds, query).contains(x) <==> seeds.contains(x) && (
            seq_contains_run(spec_to_lowercase(x.label@), query)
            || (x.learned_device_id is Some && seq_contains_run(spec_to_lowercase(x.learned_device_id->0@), query))
        ),
        filter_seeds(seeds, query).len() <= seeds.len(),
    decreases seeds.len(),
{
    if seeds.len() > 0 {
        let rest = seeds.drop_last();
        law_filter_keeps_seeds_by_label_or_device(rest, query);
        let kept = filter_seeds(rest, query);
        assert forall|x: NetworkDirectSeedViewState| #[trigger] filter_seeds(seeds, query).contains(x) <==> seeds.contains(x) && (
            seq_contains_run(spec_to_lowercase(x.label@), query)
            || (x.learned_device_id is Some && seq_contains_run(spec_to_lowercase(x.learned_device_id->0@), query))
        ) by {
            let last = seeds.last();
            assert(seeds =~= rest.push(last));
            if seeds.contains(x) && x != last {
                let k = choose|k: int| 0 <= k < seeds.len() && seeds[k] == x;
                assert(k != seeds.len() - 1);
                assert(rest[k] == x);
            }
            if rest.contains(x) {
                let k = choose|k: int| 0 <= k < rest.len() && rest[k] == x;
                assert(seeds[k] == x);
            }
            if x == last {
                assert(seeds[seeds.len() - 1] == x);
            }
            if seed_matches(last, query) {
                let grown = kept.push(last);
                if grown.contains(x) && x != last {
                    let k = choose|k: int| 0 <= k < grown.len() && grown[k] == x;
                    assert(kept[k] == x);
                }
                if kept.contains(x) {
                    let k = choose|k: int| 0 <= k < kept.len() && kept[k] == x;
                    assert(grown[k] == x);
                }
                if x == last {
                    assert(grown[kept.len() as int] == x);
                }
            }
        }
    }
}

} // verus!
