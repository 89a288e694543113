//! The control dock of the home page: one port for the network service and
//! one for adopting the latest committed clipboard record.
use vstd::prelude::*;

use crate::ids::EventId;

verus! {

/// What a port of the dock is bound to.
#[derive(Clone, Copy, Debug, PartialEq, Eq, Structural)]
pub enum DockAction {
    Network,
    AdoptLatestClipboard(EventId),
}

/// What a click on a port asks the workspace to do.
#[derive(Clone, Copy, Debug, PartialEq, Eq, Structural)]
pub enum DockCommand {
    StartNetwork,
    StopNetwork,
    AdoptClipboardRecord(EventId),
}

/// One port of the dock as the view renders it.
#[derive(Clone, Copy, Debug)]
pub struct DockPort {
    pub tooltip_title: &'static str,
    pub tooltip_detail: &'static str,
    pub active: bool,
    pub disabled: bool,
    pub action: Option<DockAction>,
}

/// Both ports of the dock.
#[derive(Clone, Copy, Debug)]
pub struct DockControls {
    pub network: DockPort,
    pub clipboard: DockPort,
}

pub open spec fn network_port_spec(can_start: bool, can_stop: bool) -> (Seq<char>, Seq<char>, bool, bool, Option<DockAction>) {
    let disabled = !can_start && !can_stop;
    if can_stop {
        ("Stop network service"@, "pause sync discovery and transfers"@, true, disabled, Some(DockAction::Network))
    } else if can_start {
        ("Start network service"@, "enable sync discovery and transfers"@, false, disabled, Some(DockAction::Network))
    } else {
        ("Network action unavailable"@, "wait for the workspace runtime to settle"@, false, disabled, None)
    }
}

pub open spec fn clipboard_port_spec(adopt_event_id: Option<EventId>) -> (Seq<char>, Seq<char>, bool, bool, Option<DockAction>) {
    match adopt_event_id {
        Some(id) => (
            "Adopt latest clipboard"@,
            "write the latest committed text into the local clipboard"@,
            true,
            false,
            Some(DockAction::AdoptLatestClipboard(id)),
        ),
        None => (
            "No committed clipboard"@,
            "wait for the first committed clipboard record to arrive"@,
            false,
            true,
            None,
        ),
    }
}

pub open spec fn port_is(p: DockPort, s: (Seq<char>, Seq<char>, bool, bool, Option<DockAction>)) -> bool {
    &&& p.tooltip_title@ == s.0
    &&& p.tooltip_detail@ == s.1
    &&& p.active == s.2
    &&& p.disabled == s.3
    &&& p.action == s.4
}

/// The dock for the current network controls and the record that can be adopted.
pub fn dock_controls(network_can_start: bool, network_can_stop: bool, adopt_event_id: Option<EventId>) -> (d: DockControls)
    ensures
        port_is(d.network, network_port_spec(network_can_start, network_can_stop)),
        port_is(d.clipboard, clipboard_port_spec(adopt_event_id)),
{
    let (network_title, network_detail) = if network_can_stop {
        ("Stop network service", "pause sync discovery and transfers")
    } else if network_can_start {
        ("Start network service", "enable sync discovery and transfers")
    } else {
        ("Network action unavailable", "wait for the workspace runtime to settle")
    };
    let network_disabled = !network_can_start && !network_can_stop;
    let network = DockPort {
        tooltip_title: network_title,
        tooltip_detail: network_detail,
        active: network_can_stop,
        disabled: network_disabled,
        action: if network_disabled { None } else { Some(DockAction::Network) },
    };
    let clipboard_active = adopt_event_id.is_some();
    let (clipboard_title, clipboard_detail) = if clipboard_active {
        ("Adopt latest clipboard", "write the latest committed text into the local clipboard")
    } else {
        ("No committed clipboard", "wait for the first committed clipboard record to arrive")
    };
    let clipboard = DockPort {
        tooltip_title: clipboard_title,
        tooltip_detail: clipboard_detail,
        active: clipboard_active,
        disabled: !clipboard_active,
        action: match adopt_event_id {
            Some(id) => Some(DockAction::AdoptLatestClipboard(id)),
            None => None,
        },
    };
    DockControls { network, clipboard }
}

pub open spec fn click_spec(active: bool, disabled: bool, action: Option<DockAction>) -> Option<DockCommand> {
    if disabled {
        None
    } else {
        match action {
            Some(DockAction::Network) => if active {
                Some(DockCommand::StopNetwork)
            } else {
                Some(DockCommand::StartNetwork)
            },
            Some(DockAction::AdoptLatestClipboard(id)) => Some(DockCommand::AdoptClipboardRecord(id)),
            None => None,
        }
    }
}

/// What a click on `port` asks for: nothing on a disabled port; an active
/// network port stops the service, an inactive one starts it.
pub fn dock_click(port: &DockPort) -> (c: Option<DockCommand>)
    ensures
        c == click_spec(port.active, port.disabled, port.action),
{
    if port.disabled {
        return None;
    }
    match port.action {
        Some(DockAction::Network) => if port.active {
            Some(DockCommand::StopNetwork)
        } else {
            Some(DockCommand::StartNetwork)
        },
        Some(DockAction::AdoptLatestClipboard(id)) => Some(DockCommand::AdoptClipboardRecord(id)),
        None => None,
    }
}

/// A click on the dock does what its port promises: the network port stops
/// a running service and starts a stopped one, and does nothing while
/// neither is possible; the clipboard port adopts exactly the latest
/// committed record, and does nothing while there is none.
pub proof fn law_dock_click_follows_controls(can_start: bool, can_stop: bool, adopt_event_id: Option<EventId>)
    ensures
        ({
            let n = network_port_spec(can_start, can_stop);
            &&& can_stop ==> click_spec(n.2, n.3, n.4) == Some(DockCommand::StopNetwork)
            &&& (!can_stop && can_start) ==> click_spec(n.2, n.3, n.4) == Some(DockCommand::StartNetwork)
            &&& (!can_stop && !can_start) ==> click_spec(n.2, n.3, n.4) is None
        }),
        ({
            let c = clipboard_port_spec(adopt_event_id);
            &&& adopt_event_id matches Some(id) ==> click_spec(c.2, c.3, c.4) == Some(DockCommand::AdoptClipboardRecord(id))
            &&& adopt_event_id is None ==> click_spec(c.2, c.3, c.4) is None
        }),
{
}

} // verus!
