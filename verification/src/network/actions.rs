//! The steps of the network page's actions: what an action marks as running
//! and says when it starts, and what its outcome says when it ends. The
//! caller runs the request in between and hands back its outcome, with the
//! error's message.
use vstd::prelude::*;

use crate::ids::{DirectRequestId, DirectSeedId, SessionId};
use crate::text::{parse_u16_spec, trim_seq};
use super::page::{validate_seed_draft, UpsertDirectSeedInput};
use super::state::{NetworkPageState, NetworkView};

verus! {

broadcast use vstd::string::group_string_axioms;

/// Said when the workspace has no network snapshot yet to act on.
pub open spec fn still_loading_spec() -> Seq<char> {
    "Network details are still loading."@
}

/// The state of the network service as the snapshot reports it.
#[derive(Clone, Copy, Debug, PartialEq, Eq, Structural)]
pub enum NetworkStatusKind {
    Stopped,
    Starting,
    Running,
    Error,
}

/// What the network sharing switch asks for.
#[derive(Clone, Copy, Debug, PartialEq, Eq, Structural)]
pub enum RuntimeToggle {
    Start,
    Stop,
}

/// A stopped service is started; one that is starting, running or failed is stopped.
pub fn runtime_toggle_for(status: NetworkStatusKind) -> (t: RuntimeToggle)
    ensures
        t == (if status == NetworkStatusKind::Stopped { RuntimeToggle::Start } else { RuntimeToggle::Stop }),
{
    match status {
        NetworkStatusKind::Stopped => RuntimeToggle::Start,
        _ => RuntimeToggle::Stop,
    }
}

/// How a saved-seed connection attempt ended, with the session id as shown.
#[derive(Clone, Debug)]
pub enum ConnectDirectOutcome {
    Started,
    AlreadyConnected(String),
}

fn concat2(a: &str, b: &str) -> (r: String)
    ensures
        r@ == a@ + b@,
{
    let mut s = String::from_str(a);
    s.append(b);
    s
}

fn concat3(a: &str, b: &str, c: &str) -> (r: String)
    ensures
        r@ == a@ + b@ + c@,
{
    let mut s = concat2(a, b);
    s.append(c);
    s
}

fn concat4(a: &str, b: &str, c: &str, d: &str) -> (r: String)
    ensures
        r@ == a@ + b@ + c@ + d@,
{
    let mut s = concat3(a, b, c);
    s.append(d);
    s
}

fn concat5(a: &str, b: &str, c: &str, d: &str, e: &str) -> (r: String)
    ensures
        r@ == a@ + b@ + c@ + d@ + e@,
{
    let mut s = concat4(a, b, c, d);
    s.append(e);
    s
}

/// The message an outcome leaves: `ok` on success, otherwise `failed`
/// followed by ": " and the error's message.
pub open spec fn outcome_message(result: Result<(), String>, ok: Seq<char>, failed: Seq<char>) -> Seq<char> {
    match result {
        Ok(()) => ok,
        Err(e) => failed + ": "@ + e@,
    }
}

pub open spec fn quoted(prefix: Seq<char>, name: Seq<char>, suffix: Seq<char>) -> Seq<char> {
    prefix + "'"@ + name + "'"@ + suffix
}

fn quoted_message(prefix: &str, name: &str, suffix: &str) -> (r: String)
    ensures
        r@ == quoted(prefix@, name@, suffix@),
{
    concat5(prefix, "'", name, "'", suffix)
}

fn failure_message(failed: String, result: &Result<(), String>) -> (r: String)
    requires
        result is Err,
    ensures
        r@ == outcome_message(*result, Seq::empty(), failed@),
{
    match result {
        Ok(()) => failed,
        Err(e) => {
            let mut s = failed;
            s.append(": ");
            s.append(e.as_str());
            s
        },
    }
}

/// A refused save of the seed editor: it is not running and `message` says why.
pub open spec fn save_refused(before: NetworkView, after: NetworkView, message: Seq<char>) -> bool {
    after == (NetworkView { save_in_flight: false, feedback: Some(message), ..before })
}

impl NetworkPageState {
    /// No snapshot to act on yet.
    pub fn report_still_loading(&mut self)
        ensures
            final(self)@ == (NetworkView { feedback: Some(still_loading_spec()), ..old(self)@ }),
    {
        self.set_feedback(String::from_str("Network details are still loading."));
    }

    /// The network sharing switch starts its request.
    pub fn begin_runtime_toggle(&mut self, toggle: RuntimeToggle)
        ensures
            final(self)@ == (NetworkView {
                feedback: Some(
                    if toggle == RuntimeToggle::Start {
                        "Starting network sharing..."@
                    } else {
                        "Stopping network sharing..."@
                    },
                ),
                ..old(self)@
            }),
    {
        let message = match toggle {
            RuntimeToggle::Start => "Starting network sharing...",
            RuntimeToggle::Stop => "Stopping network sharing...",
        };
        self.set_feedback(String::from_str(message));
    }

    /// The network sharing request ended.
    pub fn finish_runtime_toggle(&mut self, toggle: RuntimeToggle, result: Result<(), String>)
        ensures
            final(self)@ == (NetworkView {
                feedback: Some(
                    if toggle == RuntimeToggle::Start {
                        outcome_message(result, "Network sharing started."@, "Couldn't start network sharing"@)
                    } else {
                        outcome_message(result, "Network sharing stopped."@, "Couldn't stop network sharing"@)
                    },
                ),
                ..old(self)@
            }),
    {
        let message = match (toggle, &result) {
            (RuntimeToggle::Start, Ok(())) => String::from_str("Network sharing started."),
            (RuntimeToggle::Stop, Ok(())) => String::from_str("Network sharing stopped."),
            (RuntimeToggle::Start, Err(_)) => failure_message(
                String::from_str("Couldn't start network sharing"),
                &result,
            ),
            (RuntimeToggle::Stop, Err(_)) => failure_message(
                String::from_str("Couldn't stop network sharing"),
                &result,
            ),
        };
        self.set_feedback(message);
    }

    /// The LAN switch starts its request; `next_enabled` is the setting asked for.
    pub fn begin_lan_toggle(&mut self, next_enabled: bool)
        ensures
            final(self)@ == (NetworkView {
                feedback: Some(if next_enabled { "Enabling LAN auto sync."@ } else { "Disabling LAN auto sync."@ }),
                ..old(self)@
            }),
    {
        let message = if next_enabled { "Enabling LAN auto sync." } else { "Disabling LAN auto sync." };
        self.set_feedback(String::from_str(message));
    }

    /// The LAN switch's request ended.
    pub fn finish_lan_toggle(&mut self, next_enabled: bool, result: Result<(), String>)
        ensures
            final(self)@ == (NetworkView {
                feedback: Some(
                    if next_enabled {
                        outcome_message(result, "LAN auto sync enabled."@, "Failed to enable LAN auto sync"@)
                    } else {
                        outcome_message(result, "LAN auto sync disabled."@, "Failed to disable LAN auto sync"@)
                    },
                ),
                ..old(self)@
            }),
    {
        let message = match (next_enabled, &result) {
            (true, Ok(())) => String::from_str("LAN auto sync enabled."),
            (false, Ok(())) => String::from_str("LAN auto sync disabled."),
            (true, Err(_)) => failure_message(String::from_str("Failed to enable LAN auto sync"), &result),
            (false, Err(_)) => failure_message(String::from_str("Failed to disable LAN auto sync"), &result),
        };
        self.set_feedback(message);
    }

    /// Empties the seed editor and says so.
    pub fn clear_seed_form(&mut self)
        ensures
            final(self)@ == (NetworkView {
                feedback: Some("Cleared the saved device form."@),
                ..old(self)@.draft_cleared()
            }),
    {
        self.clear_seed_draft();
        self.set_feedback(String::from_str("Cleared the saved device form."));
    }

    /// The save step of the seed editor, given its field texts and whether a
    /// network snapshot is there to save into. All three fields are required
    /// (after trimming) and the port must be a number from 0 to 65535; on
    /// either error, or with no snapshot, the save is refused with a message
    /// and nothing is returned. Otherwise the save is marked running and the
    /// seed to save is returned: the edited seed (if any), the trimmed texts,
    /// the port and the draft's enabled flag.
    pub fn begin_save_seed(&mut self, label: &str, host: &str, port: &str, snapshot_ready: bool) -> (r: Option<
        UpsertDirectSeedInput,
    >)
        ensures
            ({
                let missing = trim_seq(label@).len() == 0 || trim_seq(host@).len() == 0 || trim_seq(port@).len() == 0;
                let parsed = parse_u16_spec(trim_seq(port@));
                &&& missing ==> r is None && save_refused(old(self)@, final(self)@, "Name, host, and port are required."@)
                &&& !missing && parsed is None ==> r is None
                    && save_refused(old(self)@, final(self)@, "Port must be a valid number."@)
                &&& !missing && parsed is Some && !snapshot_ready ==> r is None
                    && save_refused(old(self)@, final(self)@, still_loading_spec())
                &&& !missing && parsed is Some && snapshot_ready ==> {
                    &&& r matches Some(input) && {
                        &&& input.id == old(self)@.editing_seed_id
                        &&& input.label@ == trim_seq(label@)
                        &&& input.host@ == trim_seq(host@)
                        &&& Some(input.port) == parsed
                        &&& input.enabled == old(self)@.draft_enabled
                    }
                    &&& final(self)@ == (NetworkView {
                        save_in_flight: true,
                        feedback: Some("Saving direct preset."@),
                        ..old(self)@
                    })
                }
            }),
    {
        let input = match validate_seed_draft(self.editing_seed_id(), label, host, port, self.draft_enabled()) {
            Ok(input) => input,
            Err(message) => {
                self.fail_save(message);
                return None;
            },
        };
        if !snapshot_ready {
            self.fail_save(String::from_str("Network details are still loading."));
            return None;
        }
        self.begin_save();
        Some(input)
    }

    /// The save request of the seed editor ended.
    pub fn finish_save_outcome(&mut self, result: Result<DirectSeedId, String>)
        ensures
            final(self)@ == (match result {
                Ok(id) => NetworkView {
                    save_in_flight: false,
                    editing_seed_id: Some(id),
                    feedback: Some("Direct preset saved."@),
                    ..old(self)@
                },
                Err(e) => NetworkView {
                    save_in_flight: false,
                    feedback: Some("Couldn't save this device: "@ + e@),
                    ..old(self)@
                },
            }),
    {
        match result {
            Ok(id) => self.finish_save(id),
            Err(e) => self.fail_save(concat2("Couldn't save this device: ", e.as_str())),
        }
    }

    /// Removing a saved seed starts.
    pub fn begin_remove_seed(&mut self, id: DirectSeedId, label: &str)
        ensures
            final(self)@ == (NetworkView {
                pending_seed_ids: old(self)@.pending_seed_ids.insert(id),
                feedback: Some(quoted("Removing saved device "@, label@, "."@)),
                ..old(self)@
            }),
    {
        self.mark_seed_pending(id, quoted_message("Removing saved device ", label, "."));
    }

    /// Removing a saved seed ended.
    pub fn finish_remove_seed(&mut self, id: DirectSeedId, label: &str, result: Result<(), String>)
        ensures
            final(self)@ == (NetworkView {
                pending_seed_ids: old(self)@.pending_seed_ids.remove(id),
                feedback: Some(
                    outcome_message(
                        result,
                        quoted("Removed saved device "@, label@, "."@),
                        quoted("Couldn't remove saved device "@, label@, ""@),
                    ),
                ),
                ..old(self)@
            }),
    {
        let message = match &result {
            Ok(()) => quoted_message("Removed saved device ", label, "."),
            Err(_) => failure_message(quoted_message("Couldn't remove saved device ", label, ""), &result),
        };
        self.finish_seed_pending(id, message);
    }

    /// Connecting to a saved seed starts.
    pub fn begin_connect_seed(&mut self, id: DirectSeedId, label: &str)
        ensures
            final(self)@ == (NetworkView {
                pending_seed_ids: old(self)@.pending_seed_ids.insert(id),
                feedback: Some(quoted("Connecting to saved device "@, label@, "."@)),
                ..old(self)@
            }),
    {
        self.mark_seed_pending(id, quoted_message("Connecting to saved device ", label, "."));
    }

    /// Connecting to a saved seed ended.
    pub fn finish_connect_seed(&mut self, id: DirectSeedId, label: &str, result: Result<ConnectDirectOutcome, String>)
        ensures
            final(self)@ == (NetworkView {
                pending_seed_ids: old(self)@.pending_seed_ids.remove(id),
                feedback: Some(
                    match result {
                        Ok(ConnectDirectOutcome::Started) => quoted("Connecting to "@, label@, "."@),
                        Ok(ConnectDirectOutcome::AlreadyConnected(session)) => quoted(""@, label@, " is already connected (session "@)
                            + session@ + ")."@,
                        Err(e) => quoted("Couldn't connect to "@, label@, ": "@) + e@,
                    },
                ),
                ..old(self)@
            }),
    {
        let message = match &result {
            Ok(ConnectDirectOutcome::Started) => quoted_message("Connecting to ", label, "."),
            Ok(ConnectDirectOutcome::AlreadyConnected(session)) => {
                let mut s = quoted_message("", label, " is already connected (session ");
                s.append(session.as_str());
                s.append(").");
                s
            },
            Err(e) => {
                let mut s = quoted_message("Couldn't connect to ", label, ": ");
                s.append(e.as_str());
                s
            },
        };
        self.finish_seed_pending(id, message);
    }

    /// Answering a connection request starts; `approve` says which answer.
    pub fn begin_answer_request(&mut self, id: DirectRequestId, peer_device_id: &str, approve: bool)
        ensures
            final(self)@ == (NetworkView {
                pending_request_ids: old(self)@.pending_request_ids.insert(id),
                feedback: Some(
                    quoted(
                        if approve { "Approving request from "@ } else { "Rejecting request from "@ },
                        peer_device_id@,
                        "."@,
                    ),
                ),
                ..old(self)@
            }),
    {
        let prefix = if approve { "Approving request from " } else { "Rejecting request from " };
        self.mark_request_pending(id, quoted_message(prefix, peer_device_id, "."));
    }

    /// The answer to a connection request ended.
    pub fn finish_answer_request(&mut self, id: DirectRequestId, peer_device_id: &str, approve: bool, result: Result<(), String>)
        ensures
            final(self)@ == (NetworkView {
                pending_request_ids: old(self)@.pending_request_ids.remove(id),
                feedback: Some(
                    if approve {
                        outcome_message(
                            result,
                            quoted("Approved request from "@, peer_device_id@, "."@),
                            quoted("Failed to approve request from "@, peer_device_id@, ""@),
                        )
                    } else {
                        outcome_message(
                            result,
                            quoted("Rejected request from "@, peer_device_id@, "."@),
                            quoted("Failed to reject request from "@, peer_device_id@, ""@),
                        )
                    },
                ),
                ..old(self)@
            }),
    {
        let message = match (approve, &result) {
            (true, Ok(())) => quoted_message("Approved request from ", peer_device_id, "."),
            (false, Ok(())) => quoted_message("Rejected request from ", peer_device_id, "."),
            (true, Err(_)) => failure_message(
                quoted_message("Failed to approve request from ", peer_device_id, ""),
                &result,
            ),
            (false, Err(_)) => failure_message(
                quoted_message("Failed to reject request from ", peer_device_id, ""),
                &result,
            ),
        };
        self.finish_request_pending(id, message);
    }

    /// Disconnecting a session starts.
    pub fn begin_disconnect_session(&mut self, id: SessionId, peer_device_id: &str)
        ensures
            final(self)@ == (NetworkView {
                pending_session_ids: old(self)@.pending_session_ids.insert(id),
                feedback: Some(quoted("Disconnecting from "@, peer_device_id@, "."@)),
                ..old(self)@
            }),
    {
        self.mark_session_pending(id, quoted_message("Disconnecting from ", peer_device_id, "."));
    }

    /// Disconnecting a session ended.
    pub fn finish_disconnect_session(&mut self, id: SessionId, peer_device_id: &str, result: Result<(), String>)
        ensures
            final(self)@ == (NetworkView {
                pending_session_ids: old(self)@.pending_session_ids.remove(id),
                feedback: Some(
                    outcome_message(
                        result,
                        quoted("Disconnected from "@, peer_device_id@, "."@),
                        quoted("Couldn't disconnect from "@, peer_device_id@, ""@),
                    ),
                ),
                ..old(self)@
            }),
    {
        let message = match &result {
            Ok(()) => quoted_message("Disconnected from ", peer_device_id, "."),
            Err(_) => failure_message(quoted_message("Couldn't disconnect from ", peer_device_id, ""), &result),
        };
        self.finish_session_pending(id, message);
    }
}

} // verus!
