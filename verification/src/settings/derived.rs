//! What the settings page derives from its drafts: the status of each
//! section, whether a section differs from the workspace, and the inputs a
//! save sends, checked first.
use vstd::prelude::*;

use crate::text::{
    decimal_digits, decimal_string, law_port_text_reads_back, parse_u16_spec, str_eq, str_parse_u16, str_trim, trim_seq,
};
use super::storage::{SettingsStorageViewState, StorageFieldValues};
use super::state::{
    ConnectionInputValues, SettingsClipboardViewState, SettingsConnectionViewState, SettingsSectionKey,
    SettingsTransfersViewState,
};

verus! {

pub open spec fn status_label(applying: bool, dirty: bool) -> Seq<char> {
    if applying {
        "Applying"@
    } else if dirty {
        "Draft"@
    } else {
        "Current"@
    }
}

/// Status of the whole page: a save is running, a section differs, or all is current.
pub fn settings_banner_status(any_dirty: bool, applying: Option<SettingsSectionKey>) -> (label: &'static str)
    ensures
        label@ == status_label(applying is Some, any_dirty),
{
    if applying.is_some() {
        "Applying"
    } else if any_dirty {
        "Draft"
    } else {
        "Current"
    }
}

/// Status of one section.
pub fn settings_section_status(applying: Option<SettingsSectionKey>, key: SettingsSectionKey, dirty: bool) -> (label: &'static str)
    ensures
        label@ == status_label(applying == Some(key), dirty),
{
    let is_applying = match applying {
        Some(section) => section == key,
        None => false,
    };
    if is_applying {
        "Applying"
    } else if dirty {
        "Draft"
    } else {
        "Current"
    }
}

pub open spec fn connection_dirty_spec(
    values: ConnectionInputValues,
    lan_enabled: bool,
    page: SettingsConnectionViewState,
) -> bool {
    ||| trim_seq(values.device_id@) != page.device_id@
    ||| trim_seq(values.token@) != page.token@
    ||| trim_seq(values.listen_port@) != decimal_digits(page.listen_port as nat)
    ||| lan_enabled != page.lan_enabled
}

/// The connection draft differs from the workspace (field texts compared trimmed).
pub fn connection_settings_dirty(
    values: &ConnectionInputValues,
    lan_enabled: bool,
    page: &SettingsConnectionViewState,
) -> (dirty: bool)
    ensures
        dirty == connection_dirty_spec(*values, lan_enabled, *page),
{
    let port = decimal_string(page.listen_port as u64);
    !str_eq(str_trim(values.device_id.as_str()), page.device_id.as_str())
        || !str_eq(str_trim(values.token.as_str()), page.token.as_str())
        || !str_eq(str_trim(values.listen_port.as_str()), port.as_str())
        || lan_enabled != page.lan_enabled
}

/// The clipboard draft differs from the workspace.
pub fn clipboard_settings_dirty(local_capture_enabled: bool, page: &SettingsClipboardViewState) -> (dirty: bool)
    ensures
        dirty == (local_capture_enabled != page.local_capture_enabled),
{
    local_capture_enabled != page.local_capture_enabled
}

/// The download folder draft differs from the workspace (compared trimmed).
pub fn transfer_settings_dirty(download_dir: &str, page: &SettingsTransfersViewState) -> (dirty: bool)
    ensures
        dirty == (trim_seq(download_dir@) != page.download_dir@),
{
    !str_eq(str_trim(download_dir), page.download_dir.as_str())
}

/// The storage draft differs from the workspace: a field that is not a
/// valid amount counts as a difference.
pub fn storage_settings_dirty(values: &StorageFieldValues, page: &SettingsStorageViewState) -> (dirty: bool)
    ensures
        dirty == (values.history_window_days != Some(page.history_window_days)
            || values.dedup_window_days != Some(page.dedup_window_days)
            || values.max_text_bytes != Some(page.max_text_bytes)),
{
    let history_differs = match values.history_window_days {
        Some(days) => days != page.history_window_days,
        None => true,
    };
    let dedup_differs = match values.dedup_window_days {
        Some(days) => days != page.dedup_window_days,
        None => true,
    };
    let bytes_differ = match values.max_text_bytes {
        Some(bytes) => bytes != page.max_text_bytes,
        None => true,
    };
    history_differs || dedup_differs || bytes_differ
}

/// The connection settings a save sends, with the values they replace.
#[derive(Debug)]
pub struct ApplyConnectionSettingsInput {
    pub device_id: String,
    pub token: String,
    pub listen_port: u16,
    pub lan_enabled: bool,
    pub current_device_id: String,
    pub current_token: String,
    pub current_listen_port: u16,
    pub current_lan_enabled: bool,
}

/// Checks the connection draft and forms what a save sends: the trimmed
/// field texts, or an error when the port is not a number from 0 to 65535.
pub fn connection_settings_input(
    values: &ConnectionInputValues,
    lan_enabled: bool,
    page: &SettingsConnectionViewState,
) -> (r: Result<ApplyConnectionSettingsInput, String>)
    ensures
        parse_u16_spec(trim_seq(values.listen_port@)) is None ==> (r matches Err(m) && m@ == "Port must be a valid number."@),
        parse_u16_spec(trim_seq(values.listen_port@)) matches Some(port) ==> (r matches Ok(input) && {
            &&& input.device_id@ == trim_seq(values.device_id@)
            &&& input.token@ == trim_seq(values.token@)
            &&& input.listen_port == port
            &&& input.lan_enabled == lan_enabled
            &&& input.current_device_id@ == page.device_id@
            &&& input.current_token@ == page.token@
            &&& input.current_listen_port == page.listen_port
            &&& input.current_lan_enabled == page.lan_enabled
        }),
{
    let listen_port = match str_parse_u16(str_trim(values.listen_port.as_str())) {
        Some(port) => port,
        None => {
            return Err(String::from_str("Port must be a valid number."));
        },
    };
    Ok(ApplyConnectionSettingsInput {
        device_id: str_trim(values.device_id.as_str()).to_owned(),
        token: str_trim(values.token.as_str()).to_owned(),
        listen_port,
        lan_enabled,
        current_device_id: page.device_id.clone(),
        current_token: page.token.clone(),
        current_listen_port: page.listen_port,
        current_lan_enabled: page.lan_enabled,
    })
}

/// Checks the download folder draft: the trimmed text, or an error when it is empty.
pub fn transfer_download_dir_input(download_dir: &str) -> (r: Result<String, String>)
    ensures
        trim_seq(download_dir@).len() == 0 ==> (r matches Err(m) && m@ == "Download directory cannot be empty."@),
        trim_seq(download_dir@).len() > 0 ==> (r matches Ok(d) && d@ == trim_seq(download_dir@)),
{
    let trimmed = str_trim(download_dir);
    if trimmed.is_empty() {
        return Err(String::from_str("Download directory cannot be empty."));
    }
    Ok(trimmed.to_owned())
}

/// The storage settings a save sends.
#[derive(Clone, Copy, Debug)]
pub struct StorageSettingsInput {
    pub history_window_days: u32,
    pub dedup_window_days: u32,
    pub max_text_bytes: usize,
    pub gc_batch_size: usize,
}

/// Checks the parsed storage draft: the duplicate-check window may not be
/// shorter than the history window. The batch size is kept as it is.
pub fn storage_settings_input(
    history_window_days: u32,
    dedup_window_days: u32,
    max_text_bytes: usize,
    current_gc_batch_size: usize,
) -> (r: Result<StorageSettingsInput, String>)
    ensures
        dedup_window_days < history_window_days ==> (r matches Err(m)
            && m@ == "Duplicate check window must be at least as long as history retention."@),
        dedup_window_days >= history_window_days ==> r == Ok::<StorageSettingsInput, String>(StorageSettingsInput {
            history_window_days,
            dedup_window_days,
            max_text_bytes,
            gc_batch_size: current_gc_batch_size,
        }),
{
    if dedup_window_days < history_window_days {
        return Err(String::from_str("Duplicate check window must be at least as long as history retention."));
    }
    Ok(StorageSettingsInput {
        history_window_days,
        dedup_window_days,
        max_text_bytes,
        gc_batch_size: current_gc_batch_size,
    })
}

/// A connection draft that matches the workspace is accepted by the save
/// check and sends back exactly the workspace's values.
pub proof fn law_clean_connection_draft_saves_current_values(
    values: ConnectionInputValues,
    lan_enabled: bool,
    page: SettingsConnectionViewState,
)
    requires
        !connection_dirty_spec(values, lan_enabled, page),
    ensures
        parse_u16_spec(trim_seq(values.listen_port@)) == Some(page.listen_port),
        trim_seq(values.device_id@) == page.device_id@,
        trim_seq(values.token@) == page.token@,
        lan_enabled == page.lan_enabled,
{
    law_port_text_reads_back(page.listen_port);
}

/// Resetting the connection, clipboard or transfer section leaves it
/// current: the fields then show the workspace's values, which the dirty
/// checks compare equal (for workspace texts without surrounding whitespace).
pub proof fn law_reset_leaves_sections_clean(
    connection: SettingsConnectionViewState,
    fields: ConnectionInputValues,
    transfers: SettingsTransfersViewState,
    download_dir: Seq<char>,
)
    requires
        trim_seq(connection.device_id@) == connection.device_id@,
        trim_seq(connection.token@) == connection.token@,
        trim_seq(transfers.download_dir@) == transfers.download_dir@,
        fields.device_id@ == connection.device_id@,
        fields.token@ == connection.token@,
        fields.listen_port@ == decimal_digits(connection.listen_port as nat),
        download_dir == transfers.download_dir@,
    ensures
        !connection_dirty_spec(fields, connection.lan_enabled, connection),
        !(trim_seq(download_dir) != transfers.download_dir@),
{
    law_port_text_reads_back(connection.listen_port);
}

} // verus!
