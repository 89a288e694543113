//! What the section panels of the settings page show besides their fields:
//! the status chip, whether Reset and Apply can be used, and the on/off texts.
use vstd::prelude::*;

use super::derived::{settings_banner_status, settings_section_status, status_label};
use super::state::SettingsSectionKey;

verus! {

/// Status chip and action buttons of a settings section.
#[derive(Clone, Copy, Debug)]
pub struct SectionPanelViewState {
    pub status_label: &'static str,
    /// Reset and Apply can be used: the section differs and no save is running.
    pub actions_enabled: bool,
}

pub open spec fn on_off_spec(enabled: bool) -> Seq<char> {
    if enabled { "On"@ } else { "Off"@ }
}

/// "On" or "Off".
pub fn on_off_label(enabled: bool) -> (label: &'static str)
    ensures
        label@ == on_off_spec(enabled),
{
    if enabled { "On" } else { "Off" }
}

/// The status chip and actions of the section `key`.
pub fn section_panel_view_state(
    key: SettingsSectionKey,
    dirty: bool,
    applying: Option<SettingsSectionKey>,
) -> (v: SectionPanelViewState)
    ensures
        v.status_label@ == status_label(applying == Some(key), dirty),
        v.actions_enabled == (dirty && applying is None),
{
    SectionPanelViewState {
        status_label: settings_section_status(applying, key, dirty),
        actions_enabled: dirty && applying.is_none(),
    }
}

/// The connection section besides its fields.
#[derive(Clone, Debug)]
pub struct ConnectionPanelViewState {
    pub section: SectionPanelViewState,
    /// The address other devices reach this one at.
    pub endpoint_label: String,
    /// Tooltip of the button that shows or hides the token.
    pub token_toggle_tooltip: &'static str,
    pub lan_label: &'static str,
}

pub open spec fn endpoint_label_spec(endpoint_label: Option<Seq<char>>) -> Seq<char> {
    match endpoint_label {
        Some(label) => label,
        None => "Not available yet"@,
    }
}

pub open spec fn opt_str_view(o: Option<&str>) -> Option<Seq<char>> {
    match o {
        Some(s) => Some(s@),
        None => None,
    }
}

pub fn connection_panel_view_state(
    endpoint_label: Option<&str>,
    token_masked: bool,
    lan_enabled: bool,
    dirty: bool,
    applying: Option<SettingsSectionKey>,
) -> (v: ConnectionPanelViewState)
    ensures
        v.section.status_label@ == status_label(applying == Some(SettingsSectionKey::Connection), dirty),
        v.section.actions_enabled == (dirty && applying is None),
        v.endpoint_label@ == endpoint_label_spec(opt_str_view(endpoint_label)),
        v.token_toggle_tooltip@ == (if token_masked { "Show network token"@ } else { "Hide network token"@ }),
        v.lan_label@ == on_off_spec(lan_enabled),
{
    let endpoint: &str = match endpoint_label {
        Some(label) => label,
        None => "Not available yet",
    };
    ConnectionPanelViewState {
        section: section_panel_view_state(SettingsSectionKey::Connection, dirty, applying),
        endpoint_label: endpoint.to_owned(),
        token_toggle_tooltip: if token_masked { "Show network token" } else { "Hide network token" },
        lan_label: on_off_label(lan_enabled),
    }
}

/// The clipboard section besides its switch.
#[derive(Clone, Debug)]
pub struct ClipboardPanelViewState {
    pub section: SectionPanelViewState,
    /// The draft value of local capture.
    pub capture_label: &'static str,
    /// The value the workspace has, e.g. "Saved setting: On".
    pub saved_label: String,
}

pub fn clipboard_panel_view_state(
    draft_local_capture_enabled: bool,
    saved_local_capture_enabled: bool,
    dirty: bool,
    applying: Option<SettingsSectionKey>,
) -> (v: ClipboardPanelViewState)
    ensures
        v.section.status_label@ == status_label(applying == Some(SettingsSectionKey::Clipboard), dirty),
        v.section.actions_enabled == (dirty && applying is None),
        v.capture_label@ == on_off_spec(draft_local_capture_enabled),
        v.saved_label@ == "Saved setting: "@ + on_off_spec(saved_local_capture_enabled),
{
    let mut saved_label = String::from_str("Saved setting: ");
    saved_label.append(on_off_label(saved_local_capture_enabled));
    ClipboardPanelViewState {
        section: section_panel_view_state(SettingsSectionKey::Clipboard, dirty, applying),
        capture_label: on_off_label(draft_local_capture_enabled),
        saved_label,
    }
}

/// No section can be reset or applied while any save is running, and a
/// section that matches the workspace offers neither.
pub proof fn law_actions_wait_for_running_save(key: SettingsSectionKey, dirty: bool, applying: Option<SettingsSectionKey>)
    ensures
        ({
            let enabled = dirty && applying is None;
            &&& applying is Some ==> !enabled
            &&& !dirty ==> !enabled
            &&& applying == Some(key) ==> status_label(applying == Some(key), dirty) == "Applying"@
        }),
{
}

/// The banner at the top of the settings page.
#[derive(Clone, Debug)]
pub struct SettingsBannerViewState {
    pub status_label: &'static str,
    pub message: String,
}

pub open spec fn opt_ref_view(o: Option<&str>) -> Option<Seq<char>> {
    match o {
        Some(s) => Some(s@),
        None => None,
    }
}

/// The banner for the page's feedback and the sections' dirty flags
/// (connection, clipboard, transfers, storage).
pub fn settings_banner_view_state(
    feedback: Option<&str>,
    dirty: [bool; 4],
    applying: Option<SettingsSectionKey>,
) -> (v: SettingsBannerViewState)
    ensures
        ({
            let any_dirty = dirty[0] || dirty[1] || dirty[2] || dirty[3];
            &&& v.status_label@ == status_label(applying is Some, any_dirty)
            &&& v.message@ == (match opt_ref_view(feedback) {
                Some(m) => m,
                None => if any_dirty {
                    "You have unsaved changes on this page."@
                } else {
                    "These settings show what nooboard is using right now."@
                },
            })
        }),
{
    let any_dirty = dirty[0] || dirty[1] || dirty[2] || dirty[3];
    let message = match feedback {
        Some(m) => m.to_owned(),
        None => if any_dirty {
            String::from_str("You have unsaved changes on this page.")
        } else {
            String::from_str("These settings show what nooboard is using right now.")
        },
    };
    SettingsBannerViewState { status_label: settings_banner_status(any_dirty, applying), message }
}

} // verus!
