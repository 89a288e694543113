//! Drafts of the settings page. Each section keeps the values it last took
//! from the workspace; a new snapshot replaces a field only while the user
//! has not changed it since, so edits in progress survive background updates.
use vstd::prelude::*;

use crate::text::{decimal_digits, decimal_string, str_eq};
use super::storage::{
    SettingsStorageViewState, StorageBytesUnit, StorageDurationUnit, StorageFieldUpdates, StorageFieldValues,
    StorageSettingsState, StorageSettingsView, storage_reset_spec, storage_sync_spec,
};

verus! {

/// The sections of the settings page.
#[derive(Clone, Copy, Debug, PartialEq, Eq, Structural)]
pub enum SettingsSectionKey {
    Connection,
    Clipboard,
    Transfers,
    Storage,
}

/// Clipboard settings as the workspace has them.
#[derive(Clone, Copy, Debug)]
pub struct SettingsClipboardViewState {
    pub local_capture_enabled: bool,
}

/// Connection settings as the workspace has them.
#[derive(Clone, Debug)]
pub struct SettingsConnectionViewState {
    pub device_id: String,
    pub token: String,
    pub listen_port: u16,
    pub lan_enabled: bool,
}

/// Transfer settings as the workspace has them.
#[derive(Clone, Debug)]
pub struct SettingsTransfersViewState {
    pub download_dir: String,
}

/// Draft of the clipboard section.
pub struct ClipboardSettingsState {
    local_capture_enabled: bool,
    synced_local_capture_enabled: Option<bool>,
}

pub struct ClipboardSettingsView {
    pub local_capture_enabled: bool,
    pub synced_local_capture_enabled: Option<bool>,
}

impl View for ClipboardSettingsState {
    type V = ClipboardSettingsView;

    closed spec fn view(&self) -> ClipboardSettingsView {
        ClipboardSettingsView {
            local_capture_enabled: self.local_capture_enabled,
            synced_local_capture_enabled: self.synced_local_capture_enabled,
        }
    }
}

impl ClipboardSettingsView {
    /// The draft after taking in a snapshot's value.
    pub open spec fn after_sync(self, snapshot: bool) -> Self {
        ClipboardSettingsView {
            local_capture_enabled: if self.clean() { snapshot } else { self.local_capture_enabled },
            synced_local_capture_enabled: Some(snapshot),
        }
    }

    /// The user has not changed the draft since the last snapshot.
    pub open spec fn clean(self) -> bool {
        match self.synced_local_capture_enabled {
            None => true,
            Some(previous) => self.local_capture_enabled == previous,
        }
    }
}

impl ClipboardSettingsState {
    pub fn new() -> (s: Self)
        ensures
            s@ == (ClipboardSettingsView { local_capture_enabled: true, synced_local_capture_enabled: None }),
    {
        ClipboardSettingsState { local_capture_enabled: true, synced_local_capture_enabled: None }
    }

    /// Takes in a snapshot: the draft follows it unless the user changed it.
    pub fn sync_from_workspace(&mut self, page: &SettingsClipboardViewState)
        ensures
            final(self)@ == old(self)@.after_sync(page.local_capture_enabled),
    {
        let clean = match self.synced_local_capture_enabled {
            None => true,
            Some(previous) => self.local_capture_enabled == previous,
        };
        if clean {
            self.local_capture_enabled = page.local_capture_enabled;
        }
        self.synced_local_capture_enabled = Some(page.local_capture_enabled);
    }

    pub fn local_capture_enabled(&self) -> (r: bool)
        ensures
            r == self@.local_capture_enabled,
    {
        self.local_capture_enabled
    }

    pub fn toggle_local_capture_enabled(&mut self)
        ensures
            final(self)@ == (ClipboardSettingsView {
                local_capture_enabled: !old(self)@.local_capture_enabled,
                ..old(self)@
            }),
    {
        self.local_capture_enabled = !self.local_capture_enabled;
    }

    /// Discards the draft for the workspace's value.
    pub fn reset_from_workspace(&mut self, page: &SettingsClipboardViewState)
        ensures
            final(self)@ == (ClipboardSettingsView {
                local_capture_enabled: page.local_capture_enabled,
                synced_local_capture_enabled: Some(page.local_capture_enabled),
            }),
    {
        self.local_capture_enabled = page.local_capture_enabled;
        self.synced_local_capture_enabled = Some(page.local_capture_enabled);
    }
}

/// The connection values last taken from the workspace, as the fields show them.
pub struct ConnectionSyncedValues {
    pub device_id: String,
    pub token: String,
    pub listen_port: String,
    pub lan_enabled: bool,
}

/// The current text of the connection fields.
#[derive(Debug)]
pub struct ConnectionInputValues {
    pub device_id: String,
    pub token: String,
    pub listen_port: String,
}

/// New text for the connection fields; `None` leaves a field as it is.
#[derive(Debug)]
pub struct ConnectionInputUpdates {
    pub device_id: Option<String>,
    pub token: Option<String>,
    pub listen_port: Option<String>,
}

/// Draft of the connection section, apart from the field texts.
pub struct ConnectionSettingsState {
    lan_enabled: bool,
    token_masked: bool,
    synced: Option<ConnectionSyncedValues>,
}

pub struct ConnectionSettingsView {
    pub lan_enabled: bool,
    pub token_masked: bool,
    /// The synced values: device id, token, port text, LAN flag.
    pub synced: Option<(Seq<char>, Seq<char>, Seq<char>, bool)>,
}

impl View for ConnectionSettingsState {
    type V = ConnectionSettingsView;

    closed spec fn view(&self) -> ConnectionSettingsView {
        ConnectionSettingsView {
            lan_enabled: self.lan_enabled,
            token_masked: self.token_masked,
            synced: match self.synced {
                Some(v) => Some((v.device_id@, v.token@, v.listen_port@, v.lan_enabled)),
                None => None,
            },
        }
    }
}

/// The values a snapshot makes the fields show.
pub open spec fn connection_values_of(page: SettingsConnectionViewState) -> (Seq<char>, Seq<char>, Seq<char>, bool) {
    (page.device_id@, page.token@, decimal_digits(page.listen_port as nat), page.lan_enabled)
}

/// The new text of one field: the snapshot's value when the field still
/// shows the previously synced one, nothing otherwise.
pub open spec fn field_update(current: Seq<char>, previous: Option<Seq<char>>, next: Seq<char>) -> Option<Seq<char>> {
    match previous {
        None => Some(next),
        Some(p) => if current == p { Some(next) } else { None },
    }
}

pub open spec fn opt_string_view(s: Option<String>) -> Option<Seq<char>> {
    match s {
        Some(t) => Some(t@),
        None => None,
    }
}

fn synced_field_update(current: &String, previous: &String, next: &String) -> (r: Option<String>)
    ensures
        opt_string_view(r) == field_update(current@, Some(previous@), next@),
{
    if str_eq(current.as_str(), previous.as_str()) {
        Some(next.clone())
    } else {
        None
    }
}

impl ConnectionSettingsState {
    pub fn new() -> (s: Self)
        ensures
            s@ == (ConnectionSettingsView { lan_enabled: true, token_masked: true, synced: None }),
    {
        ConnectionSettingsState { lan_enabled: true, token_masked: true, synced: None }
    }

    fn values_of(page: &SettingsConnectionViewState) -> (v: ConnectionSyncedValues)
        ensures
            (v.device_id@, v.token@, v.listen_port@, v.lan_enabled) == connection_values_of(*page),
    {
        ConnectionSyncedValues {
            device_id: page.device_id.clone(),
            token: page.token.clone(),
            listen_port: decimal_string(page.listen_port as u64),
            lan_enabled: page.lan_enabled,
        }
    }

    /// Takes in a snapshot given the current field texts: returns the new
    /// texts of the fields the user has not changed since the last snapshot;
    /// the LAN flag follows likewise. The first snapshot sets everything.
    pub fn sync_from_workspace(
        &mut self,
        page: &SettingsConnectionViewState,
        current: &ConnectionInputValues,
    ) -> (updates: ConnectionInputUpdates)
        ensures
            final(self)@.synced == Some(connection_values_of(*page)),
            final(self)@.token_masked == old(self)@.token_masked,
            ({
                let next = connection_values_of(*page);
                match old(self)@.synced {
                    None => {
                        &&& final(self)@.lan_enabled == page.lan_enabled
                        &&& opt_string_view(updates.device_id) == Some(next.0)
                        &&& opt_string_view(updates.token) == Some(next.1)
                        &&& opt_string_view(updates.listen_port) == Some(next.2)
                    },
                    Some(prev) => {
                        &&& final(self)@.lan_enabled == (if old(self)@.lan_enabled == prev.3 {
                            page.lan_enabled
                        } else {
                            old(self)@.lan_enabled
                        })
                        &&& opt_string_view(updates.device_id) == field_update(current.device_id@, Some(prev.0), next.0)
                        &&& opt_string_view(updates.token) == field_update(current.token@, Some(prev.1), next.1)
                        &&& opt_string_view(updates.listen_port) == field_update(current.listen_port@, Some(prev.2), next.2)
                    },
                }
            }),
    {
        let next = Self::values_of(page);
        let updates = match &self.synced {
            Some(previous) => {
                let updates = ConnectionInputUpdates {
                    device_id: synced_field_update(&current.device_id, &previous.device_id, &next.device_id),
                    token: synced_field_update(&current.token, &previous.token, &next.token),
                    listen_port: synced_field_update(&current.listen_port, &previous.listen_port, &next.listen_port),
                };
                if self.lan_enabled == previous.lan_enabled {
                    self.lan_enabled = next.lan_enabled;
                }
                updates
            },
            None => {
                self.lan_enabled = next.lan_enabled;
                ConnectionInputUpdates {
                    device_id: Some(next.device_id.clone()),
                    token: Some(next.token.clone()),
                    listen_port: Some(next.listen_port.clone()),
                }
            },
        };
        self.synced = Some(next);
        updates
    }

    pub fn lan_enabled(&self) -> (r: bool)
        ensures
            r == self@.lan_enabled,
    {
        self.lan_enabled
    }

    pub fn token_masked(&self) -> (r: bool)
        ensures
            r == self@.token_masked,
    {
        self.token_masked
    }

    pub fn toggle_lan_enabled(&mut self)
        ensures
            final(self)@ == (ConnectionSettingsView { lan_enabled: !old(self)@.lan_enabled, ..old(self)@ }),
    {
        self.lan_enabled = !self.lan_enabled;
    }

    /// Flips whether the token field is masked; returns the new setting for the field.
    pub fn toggle_token_masked(&mut self) -> (masked: bool)
        ensures
            masked == !old(self)@.token_masked,
            final(self)@ == (ConnectionSettingsView { token_masked: masked, ..old(self)@ }),
    {
        self.token_masked = !self.token_masked;
        self.token_masked
    }

    /// Discards the draft: every field takes the snapshot's value and the
    /// token is masked again.
    pub fn reset_from_workspace(&mut self, page: &SettingsConnectionViewState) -> (updates: ConnectionInputUpdates)
        ensures
            final(self)@ == (ConnectionSettingsView {
                lan_enabled: page.lan_enabled,
                token_masked: true,
                synced: Some(connection_values_of(*page)),
            }),
            opt_string_view(updates.device_id) == Some(page.device_id@),
            opt_string_view(updates.token) == Some(page.token@),
            opt_string_view(updates.listen_port) == Some(decimal_digits(page.listen_port as nat)),
    {
        let next = Self::values_of(page);
        let updates = ConnectionInputUpdates {
            device_id: Some(next.device_id.clone()),
            token: Some(next.token.clone()),
            listen_port: Some(next.listen_port.clone()),
        };
        self.lan_enabled = next.lan_enabled;
        self.token_masked = true;
        self.synced = Some(next);
        updates
    }
}

/// Draft of the transfers section, apart from the field text.
pub struct TransferSettingsState {
    synced_download_dir: Option<String>,
}

impl View for TransferSettingsState {
    type V = Option<Seq<char>>;

    closed spec fn view(&self) -> Option<Seq<char>> {
        opt_string_view(self.synced_download_dir)
    }
}

impl TransferSettingsState {
    pub fn new() -> (s: Self)
        ensures
            s@ is None,
    {
        TransferSettingsState { synced_download_dir: None }
    }

    /// Takes in a snapshot given the current text of the download folder
    /// field; returns the new text when the user has not changed the field.
    pub fn sync_from_workspace(&mut self, page: &SettingsTransfersViewState, current: &str) -> (update: Option<String>)
        ensures
            final(self)@ == Some(page.download_dir@),
            opt_string_view(update) == field_update(current@, old(self)@, page.download_dir@),
    {
        let next = page.download_dir.clone();
        let update = match &self.synced_download_dir {
            None => Some(next.clone()),
            Some(previous) => if str_eq(current, previous.as_str()) {
                Some(next.clone())
            } else {
                None
            },
        };
        self.synced_download_dir = Some(next);
        update
    }

    /// Discards the draft; returns the snapshot's folder for the field.
    pub fn reset_from_workspace(&mut self, page: &SettingsTransfersViewState) -> (update: String)
        ensures
            final(self)@ == Some(page.download_dir@),
            update@ == page.download_dir@,
    {
        let next = page.download_dir.clone();
        self.synced_download_dir = Some(next.clone());
        next
    }
}

/// The settings snapshot of the workspace.
#[derive(Clone, Debug)]
pub struct SettingsPageViewState {
    pub connection: SettingsConnectionViewState,
    pub clipboard: SettingsClipboardViewState,
    pub transfers: SettingsTransfersViewState,
    pub storage: SettingsStorageViewState,
}

/// The current contents of the connection, transfer and storage fields.
#[derive(Debug)]
pub struct SettingsInputValues {
    pub connection: ConnectionInputValues,
    pub download_dir: String,
    pub storage: StorageFieldValues,
}

/// New contents for the connection, transfer and storage fields.
#[derive(Debug)]
pub struct SettingsInputUpdates {
    pub connection: ConnectionInputUpdates,
    pub download_dir: Option<String>,
    pub storage: StorageFieldUpdates,
}

/// The abstract state of the settings page.
pub struct SettingsPageView {
    pub connection: ConnectionSettingsView,
    pub clipboard: ClipboardSettingsView,
    pub transfers: Option<Seq<char>>,
    pub storage: StorageSettingsView,
    pub applying: Option<SettingsSectionKey>,
    pub feedback: Option<Seq<char>>,
}

/// State of the settings page: the section drafts, the section being
/// saved, and the feedback line.
pub struct SettingsPageState {
    connection: ConnectionSettingsState,
    clipboard: ClipboardSettingsState,
    transfers: TransferSettingsState,
    storage: StorageSettingsState,
    applying: Option<SettingsSectionKey>,
    feedback: Option<String>,
}

impl View for SettingsPageState {
    type V = SettingsPageView;

    closed spec fn view(&self) -> SettingsPageView {
        SettingsPageView {
            connection: self.connection@,
            clipboard: self.clipboard@,
            transfers: self.transfers@,
            storage: self.storage@,
            applying: self.applying,
            feedback: opt_string_view(self.feedback),
        }
    }
}

impl SettingsPageState {
    pub fn new() -> (s: Self)
        ensures
            s@ == (SettingsPageView {
                connection: ConnectionSettingsView { lan_enabled: true, token_masked: true, synced: None },
                clipboard: ClipboardSettingsView { local_capture_enabled: true, synced_local_capture_enabled: None },
                transfers: None,
                storage: StorageSettingsView {
                    history_window_unit: StorageDurationUnit::Days,
                    dedup_window_unit: StorageDurationUnit::Days,
                    max_text_bytes_unit: StorageBytesUnit::Bytes,
                    synced: None,
                },
                applying: None,
                feedback: None,
            }),
    {
        SettingsPageState {
            connection: ConnectionSettingsState::new(),
            clipboard: ClipboardSettingsState::new(),
            transfers: TransferSettingsState::new(),
            storage: StorageSettingsState::new(),
            applying: None,
            feedback: None,
        }
    }

    /// Takes in a settings snapshot given the current field texts; returns
    /// the new texts of the fields the user has not changed.
    pub fn sync_from_workspace(&mut self, page: &SettingsPageViewState, current: &SettingsInputValues) -> (updates: SettingsInputUpdates)
        ensures
            final(self)@.applying == old(self)@.applying,
            final(self)@.feedback == old(self)@.feedback,
            final(self)@.connection.synced == Some(connection_values_of(page.connection)),
            final(self)@.connection.token_masked == old(self)@.connection.token_masked,
            ({
                let next = connection_values_of(page.connection);
                match old(self)@.connection.synced {
                    None => {
                        &&& final(self)@.connection.lan_enabled == page.connection.lan_enabled
                        &&& opt_string_view(updates.connection.device_id) == Some(next.0)
                        &&& opt_string_view(updates.connection.token) == Some(next.1)
                        &&& opt_string_view(updates.connection.listen_port) == Some(next.2)
                    },
                    Some(prev) => {
                        &&& final(self)@.connection.lan_enabled == (if old(self)@.connection.lan_enabled == prev.3 {
                            page.connection.lan_enabled
                        } else {
                            old(self)@.connection.lan_enabled
                        })
                        &&& opt_string_view(updates.connection.device_id) == field_update(current.connection.device_id@, Some(prev.0), next.0)
                        &&& opt_string_view(updates.connection.token) == field_update(current.connection.token@, Some(prev.1), next.1)
                        &&& opt_string_view(updates.connection.listen_port) == field_update(current.connection.listen_port@, Some(prev.2), next.2)
                    },
                }
            }),
            final(self)@.clipboard == old(self)@.clipboard.after_sync(page.clipboard.local_capture_enabled),
            final(self)@.transfers == Some(page.transfers.download_dir@),
            opt_string_view(updates.download_dir) == field_update(current.download_dir@, old(self)@.transfers, page.transfers.download_dir@),
            storage_sync_spec(old(self)@.storage, final(self)@.storage, page.storage, current.storage, updates.storage),
    {
        let connection = self.connection.sync_from_workspace(&page.connection, &current.connection);
        self.clipboard.sync_from_workspace(&page.clipboard);
        let download_dir = self.transfers.sync_from_workspace(&page.transfers, current.download_dir.as_str());
        let storage = self.storage.sync_from_workspace(&page.storage, &current.storage);
        SettingsInputUpdates { connection, download_dir, storage }
    }

    pub fn lan_enabled(&self) -> (r: bool)
        ensures
            r == self@.connection.lan_enabled,
    {
        self.connection.lan_enabled()
    }

    pub fn token_masked(&self) -> (r: bool)
        ensures
            r == self@.connection.token_masked,
    {
        self.connection.token_masked()
    }

    pub fn local_capture_enabled(&self) -> (r: bool)
        ensures
            r == self@.clipboard.local_capture_enabled,
    {
        self.clipboard.local_capture_enabled()
    }

    pub fn applying(&self) -> (r: Option<SettingsSectionKey>)
        ensures
            r == self@.applying,
    {
        self.applying
    }

    pub fn feedback(&self) -> (r: Option<&String>)
        ensures
            match r {
                Some(m) => self@.feedback == Some(m@),
                None => self@.feedback is None,
            },
    {
        self.feedback.as_ref()
    }

    pub fn toggle_lan_enabled(&mut self)
        ensures
            final(self)@ == (SettingsPageView {
                connection: ConnectionSettingsView { lan_enabled: !old(self)@.connection.lan_enabled, ..old(self)@.connection },
                ..old(self)@
            }),
    {
        self.connection.toggle_lan_enabled();
    }

    /// Flips the token mask; returns the new setting for the token field.
    pub fn toggle_token_masked(&mut self) -> (masked: bool)
        ensures
            masked == !old(self)@.connection.token_masked,
            final(self)@ == (SettingsPageView {
                connection: ConnectionSettingsView { token_masked: masked, ..old(self)@.connection },
                ..old(self)@
            }),
    {
        self.connection.toggle_token_masked()
    }

    pub fn toggle_local_capture_enabled(&mut self)
        ensures
            final(self)@ == (SettingsPageView {
                clipboard: ClipboardSettingsView {
                    local_capture_enabled: !old(self)@.clipboard.local_capture_enabled,
                    ..old(self)@.clipboard
                },
                ..old(self)@
            }),
    {
        self.clipboard.toggle_local_capture_enabled();
    }

    /// Discards the connection draft; returns the texts for its fields.
    pub fn reset_connection_from_workspace(&mut self, page: &SettingsConnectionViewState) -> (updates: ConnectionInputUpdates)
        ensures
            final(self)@ == (SettingsPageView {
                connection: ConnectionSettingsView {
                    lan_enabled: page.lan_enabled,
                    token_masked: true,
                    synced: Some(connection_values_of(*page)),
                },
                ..old(self)@
            }),
            opt_string_view(updates.device_id) == Some(page.device_id@),
            opt_string_view(updates.token) == Some(page.token@),
            opt_string_view(updates.listen_port) == Some(decimal_digits(page.listen_port as nat)),
    {
        self.connection.reset_from_workspace(page)
    }

    /// Discards the clipboard draft.
    pub fn reset_clipboard_from_workspace(&mut self, page: &SettingsClipboardViewState)
        ensures
            final(self)@ == (SettingsPageView {
                clipboard: ClipboardSettingsView {
                    local_capture_enabled: page.local_capture_enabled,
                    synced_local_capture_enabled: Some(page.local_capture_enabled),
                },
                ..old(self)@
            }),
    {
        self.clipboard.reset_from_workspace(page);
    }

    /// Discards the transfer draft; returns the text for the folder field.
    pub fn reset_transfer_from_workspace(&mut self, page: &SettingsTransfersViewState) -> (update: String)
        ensures
            final(self)@ == (SettingsPageView { transfers: Some(page.download_dir@), ..old(self)@ }),
            update@ == page.download_dir@,
    {
        self.transfers.reset_from_workspace(page)
    }

    pub fn history_window_unit(&self) -> (u: StorageDurationUnit)
        ensures
            u == self@.storage.history_window_unit,
    {
        self.storage.history_window_unit()
    }

    pub fn dedup_window_unit(&self) -> (u: StorageDurationUnit)
        ensures
            u == self@.storage.dedup_window_unit,
    {
        self.storage.dedup_window_unit()
    }

    pub fn max_text_bytes_unit(&self) -> (u: StorageBytesUnit)
        ensures
            u == self@.storage.max_text_bytes_unit,
    {
        self.storage.max_text_bytes_unit()
    }

    /// Discards the storage draft; returns the contents for its fields.
    pub fn reset_storage_from_workspace(&mut self, page: &SettingsStorageViewState) -> (updates: StorageFieldUpdates)
        ensures
            storage_reset_spec(final(self)@.storage, *page, updates),
            final(self)@ == (SettingsPageView { storage: final(self)@.storage, ..old(self)@ }),
    {
        self.storage.reset_from_workspace(page)
    }

    /// Switches the unit of the history window field; returns the field's
    /// new contents when its amount is valid.
    pub fn select_history_window_unit(&mut self, next_unit: StorageDurationUnit, current_days: Option<u32>) -> (update: Option<(u32, StorageDurationUnit)>)
        ensures
            old(self)@.storage.history_window_unit == next_unit ==> update is None && final(self)@ == old(self)@,
            old(self)@.storage.history_window_unit != next_unit ==> {
                &&& final(self)@ == (SettingsPageView {
                    storage: StorageSettingsView { history_window_unit: next_unit, ..old(self)@.storage },
                    ..old(self)@
                })
                &&& update == (match current_days {
                    Some(days) => Some((days, next_unit)),
                    None => None,
                })
            },
    {
        self.storage.select_history_window_unit(next_unit, current_days)
    }

    /// Switches the unit of the dedup window field; returns the field's new
    /// contents when its amount is valid.
    pub fn select_dedup_window_unit(&mut self, next_unit: StorageDurationUnit, current_days: Option<u32>) -> (update: Option<(u32, StorageDurationUnit)>)
        ensures
            old(self)@.storage.dedup_window_unit == next_unit ==> update is None && final(self)@ == old(self)@,
            old(self)@.storage.dedup_window_unit != next_unit ==> {
                &&& final(self)@ == (SettingsPageView {
                    storage: StorageSettingsView { dedup_window_unit: next_unit, ..old(self)@.storage },
                    ..old(self)@
                })
                &&& update == (match current_days {
                    Some(days) => Some((days, next_unit)),
                    None => None,
                })
            },
    {
        self.storage.select_dedup_window_unit(next_unit, current_days)
    }

    /// Switches the unit of the text limit field; returns the field's new
    /// contents when its amount is valid.
    pub fn select_max_text_bytes_unit(&mut self, next_unit: StorageBytesUnit, current_bytes: Option<usize>) -> (update: Option<(usize, StorageBytesUnit)>)
        ensures
            old(self)@.storage.max_text_bytes_unit == next_unit ==> update is None && final(self)@ == old(self)@,
            old(self)@.storage.max_text_bytes_unit != next_unit ==> {
                &&& final(self)@ == (SettingsPageView {
                    storage: StorageSettingsView { max_text_bytes_unit: next_unit, ..old(self)@.storage },
                    ..old(self)@
                })
                &&& update == (match current_bytes {
                    Some(bytes) => Some((bytes, next_unit)),
                    None => None,
                })
            },
    {
        self.storage.select_max_text_bytes_unit(next_unit, current_bytes)
    }

    /// A section starts saving.
    pub fn begin_apply(&mut self, section: SettingsSectionKey, message: String)
        ensures
            final(self)@ == (SettingsPageView { applying: Some(section), feedback: Some(message@), ..old(self)@ }),
    {
        self.applying = Some(section);
        self.feedback = Some(message);
    }

    pub fn finish_apply(&mut self, message: String)
        ensures
            final(self)@ == (SettingsPageView { applying: None, feedback: Some(message@), ..old(self)@ }),
    {
        self.applying = None;
        self.feedback = Some(message);
    }

    pub fn fail_apply(&mut self, message: String)
        ensures
            final(self)@ == (SettingsPageView { applying: None, feedback: Some(message@), ..old(self)@ }),
    {
        self.applying = None;
        self.feedback = Some(message);
    }

    pub fn set_feedback(&mut self, message: String)
        ensures
            final(self)@ == (SettingsPageView { feedback: Some(message@), ..old(self)@ }),
    {
        self.feedback = Some(message);
    }
}

/// A snapshot never overwrites a clipboard setting the user changed since
/// the previous snapshot; an unchanged one follows the snapshot.
pub proof fn law_sync_keeps_user_edit(before: ClipboardSettingsView, snapshot: bool)
    ensures
        !before.clean() ==> before.after_sync(snapshot).local_capture_enabled == before.local_capture_enabled,
        before.clean() ==> before.after_sync(snapshot).local_capture_enabled == snapshot,
        before.after_sync(snapshot).after_sync(snapshot) == before.after_sync(snapshot),
{
}

/// A field the user has edited since the last snapshot keeps its text;
/// an untouched one takes the snapshot's value.
pub proof fn law_field_update_keeps_edits(current: Seq<char>, previous: Seq<char>, next: Seq<char>)
    ensures
        current != previous ==> field_update(current, Some(previous), next) is None,
        current == previous ==> field_update(current, Some(previous), next) == Some(next),
{
}

} // verus!
