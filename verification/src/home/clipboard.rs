//! The clipboard panel of the home page: the latest committed record.
use vstd::prelude::*;

use crate::clipboard::model::ClipboardRecordSource;
use crate::ids::EventId;

verus! {

/// The latest committed record as the home page gets it.
#[derive(Clone, Debug)]
pub struct HomeClipboardRecordViewState {
    pub event_id: EventId,
    pub source: ClipboardRecordSource,
    pub device_label: String,
    pub recorded_at_label: String,
    pub content: String,
}

/// The accent of the panel.
#[derive(Clone, Copy, Debug, PartialEq, Eq, Structural)]
pub enum HomeClipboardAccent {
    /// A record synced from another device.
    Remote,
    /// A record made on this device.
    Local,
    /// No record yet.
    Muted,
}

/// What the panel shows.
#[derive(Clone, Debug)]
pub struct HomeClipboardPanelViewState {
    pub heading: String,
    pub subheading: String,
    pub body: String,
    pub accent: HomeClipboardAccent,
    /// The record the adopt button writes to the local clipboard.
    pub adopt_event_id: Option<EventId>,
}

pub fn home_clipboard_panel_view_state(latest: Option<&HomeClipboardRecordViewState>) -> (v: HomeClipboardPanelViewState)
    ensures
        latest matches Some(r) ==> {
            &&& v.heading@ == r.device_label@
            &&& v.subheading@ == r.recorded_at_label@
            &&& v.body@ == r.content@
            &&& v.accent == (if r.source == ClipboardRecordSource::RemoteSync {
                HomeClipboardAccent::Remote
            } else {
                HomeClipboardAccent::Local
            })
            &&& v.adopt_event_id == Some(r.event_id)
        },
        latest is None ==> {
            &&& v.heading@ == "No committed record"@
            &&& v.subheading@ == "waiting for clipboard commit"@
            &&& v.body@ == "The Home panel shows the latest committed clipboard record available from nooboard-core."@
            &&& v.accent == HomeClipboardAccent::Muted
            &&& v.adopt_event_id is None
        },
{
    match latest {
        Some(record) => HomeClipboardPanelViewState {
            heading: record.device_label.clone(),
            subheading: record.recorded_at_label.clone(),
            body: record.content.clone(),
            accent: match record.source {
                ClipboardRecordSource::RemoteSync => HomeClipboardAccent::Remote,
                _ => HomeClipboardAccent::Local,
            },
            adopt_event_id: Some(record.event_id),
        },
        None => HomeClipboardPanelViewState {
            heading: String::from_str("No committed record"),
            subheading: String::from_str("waiting for clipboard commit"),
            body: String::from_str(
                "The Home panel shows the latest committed clipboard record available from nooboard-core.",
            ),
            accent: HomeClipboardAccent::Muted,
            adopt_event_id: None,
        },
    }
}

} // verus!
