//! Units in which the storage section shows its durations and sizes.
use vstd::prelude::*;

verus! {

pub const KIB: usize = 1024;

pub const MIB: usize = 1048576;

pub const GIB: usize = 1073741824;

/// Unit of the history and duplicate-check windows.
#[derive(Clone, Copy, Debug, PartialEq, Eq, Structural)]
pub enum StorageDurationUnit {
    Days,
    Weeks,
    Months,
}

impl StorageDurationUnit {
    /// The units in the order the picker lists them.
    pub fn all() -> (units: [Self; 3])
        ensures
            units@ == seq![StorageDurationUnit::Days, StorageDurationUnit::Weeks, StorageDurationUnit::Months],
    {
        let units = [StorageDurationUnit::Days, StorageDurationUnit::Weeks, StorageDurationUnit::Months];
        assert(units@ =~= seq![StorageDurationUnit::Days, StorageDurationUnit::Weeks, StorageDurationUnit::Months]);
        units
    }

    pub fn label(self) -> (l: &'static str)
        ensures
            l@ == (match self {
                StorageDurationUnit::Days => "Days"@,
                StorageDurationUnit::Weeks => "Weeks"@,
                StorageDurationUnit::Months => "Months"@,
            }),
    {
        match self {
            StorageDurationUnit::Days => "Days",
            StorageDurationUnit::Weeks => "Weeks",
            StorageDurationUnit::Months => "Months",
        }
    }

    /// The largest unit that divides `days` exactly (a month counts 30 days).
    pub fn from_days(days: u32) -> (unit: Self)
        ensures
            unit == duration_unit_of(days),
    {
        if days % 30 == 0 {
            StorageDurationUnit::Months
        } else if days % 7 == 0 {
            StorageDurationUnit::Weeks
        } else {
            StorageDurationUnit::Days
        }
    }
}

/// Unit of the text size limit.
#[derive(Clone, Copy, Debug, PartialEq, Eq, Structural)]
pub enum StorageBytesUnit {
    Bytes,
    Kilobytes,
    Megabytes,
    Gigabytes,
}

impl StorageBytesUnit {
    /// The units in the order the picker lists them.
    pub fn all() -> (units: [Self; 4])
        ensures
            units@ == seq![
                StorageBytesUnit::Bytes,
                StorageBytesUnit::Kilobytes,
                StorageBytesUnit::Megabytes,
                StorageBytesUnit::Gigabytes,
            ],
    {
        let units = [
            StorageBytesUnit::Bytes,
            StorageBytesUnit::Kilobytes,
            StorageBytesUnit::Megabytes,
            StorageBytesUnit::Gigabytes,
        ];
        assert(units@ =~= seq![
            StorageBytesUnit::Bytes,
            StorageBytesUnit::Kilobytes,
            StorageBytesUnit::Megabytes,
            StorageBytesUnit::Gigabytes,
        ]);
        units
    }

    pub fn label(self) -> (l: &'static str)
        ensures
            l@ == (match self {
                StorageBytesUnit::Bytes => "Bytes"@,
                StorageBytesUnit::Kilobytes => "KB"@,
                StorageBytesUnit::Megabytes => "MB"@,
                StorageBytesUnit::Gigabytes => "GB"@,
            }),
    {
        match self {
            StorageBytesUnit::Bytes => "Bytes",
            StorageBytesUnit::Kilobytes => "KB",
            StorageBytesUnit::Megabytes => "MB",
            StorageBytesUnit::Gigabytes => "GB",
        }
    }

    /// The largest binary unit that `bytes` is a whole, non-zero multiple of.
    pub fn from_bytes(bytes: usize) -> (unit: Self)
        ensures
            unit == bytes_unit_of(bytes),
    {
        if bytes >= GIB && bytes % GIB == 0 {
            StorageBytesUnit::Gigabytes
        } else if bytes >= MIB && bytes % MIB == 0 {
            StorageBytesUnit::Megabytes
        } else if bytes >= KIB && bytes % KIB == 0 {
            StorageBytesUnit::Kilobytes
        } else {
            StorageBytesUnit::Bytes
        }
    }
}

/// Storage settings as the workspace has them.
#[derive(Clone, Debug)]
pub struct SettingsStorageViewState {
    pub db_root: String,
    pub history_window_days: u32,
    pub dedup_window_days: u32,
    pub max_text_bytes: usize,
    pub gc_batch_size: usize,
}

/// The storage fields as numbers: each field's text read in the field's
/// current unit, `None` where it is not a valid amount.
#[derive(Clone, Copy, Debug)]
pub struct StorageFieldValues {
    pub history_window_days: Option<u32>,
    pub dedup_window_days: Option<u32>,
    pub max_text_bytes: Option<usize>,
}

/// New contents for the storage fields: an amount to be written in a unit;
/// `None` leaves a field as it is.
#[derive(Clone, Copy, Debug)]
pub struct StorageFieldUpdates {
    pub history_window: Option<(u32, StorageDurationUnit)>,
    pub dedup_window: Option<(u32, StorageDurationUnit)>,
    pub max_text_bytes: Option<(usize, StorageBytesUnit)>,
}

#[derive(Clone, Copy, Debug)]
struct StorageSyncedValues {
    history_window_days: u32,
    dedup_window_days: u32,
    max_text_bytes: usize,
}

/// Draft of the storage section apart from the field texts: the unit of
/// each field and the values last taken from the workspace.
pub struct StorageSettingsState {
    history_window_unit: StorageDurationUnit,
    dedup_window_unit: StorageDurationUnit,
    max_text_bytes_unit: StorageBytesUnit,
    synced: Option<StorageSyncedValues>,
}

pub struct StorageSettingsView {
    pub history_window_unit: StorageDurationUnit,
    pub dedup_window_unit: StorageDurationUnit,
    pub max_text_bytes_unit: StorageBytesUnit,
    /// History window, dedup window and text limit last taken from the workspace.
    pub synced: Option<(u32, u32, usize)>,
}

impl View for StorageSettingsState {
    type V = StorageSettingsView;

    closed spec fn view(&self) -> StorageSettingsView {
        StorageSettingsView {
            history_window_unit: self.history_window_unit,
            dedup_window_unit: self.dedup_window_unit,
            max_text_bytes_unit: self.max_text_bytes_unit,
            synced: match self.synced {
                Some(v) => Some((v.history_window_days, v.dedup_window_days, v.max_text_bytes)),
                None => None,
            },
        }
    }
}

pub open spec fn duration_unit_of(days: u32) -> StorageDurationUnit {
    if days % 30 == 0 {
        StorageDurationUnit::Months
    } else if days % 7 == 0 {
        StorageDurationUnit::Weeks
    } else {
        StorageDurationUnit::Days
    }
}

pub open spec fn bytes_unit_of(bytes: usize) -> StorageBytesUnit {
    if bytes >= GIB && bytes % GIB == 0 {
        StorageBytesUnit::Gigabytes
    } else if bytes >= MIB && bytes % MIB == 0 {
        StorageBytesUnit::Megabytes
    } else if bytes >= KIB && bytes % KIB == 0 {
        StorageBytesUnit::Kilobytes
    } else {
        StorageBytesUnit::Bytes
    }
}

/// After a reset every field shows the workspace's value in the largest
/// unit that holds it whole.
pub open spec fn storage_reset_spec(
    new: StorageSettingsView,
    page: SettingsStorageViewState,
    updates: StorageFieldUpdates,
) -> bool {
    &&& new == (StorageSettingsView {
        history_window_unit: duration_unit_of(page.history_window_days),
        dedup_window_unit: duration_unit_of(page.dedup_window_days),
        max_text_bytes_unit: bytes_unit_of(page.max_text_bytes),
        synced: Some((page.history_window_days, page.dedup_window_days, page.max_text_bytes)),
    })
    &&& updates.history_window == Some((page.history_window_days, duration_unit_of(page.history_window_days)))
    &&& updates.dedup_window == Some((page.dedup_window_days, duration_unit_of(page.dedup_window_days)))
    &&& updates.max_text_bytes == Some((page.max_text_bytes, bytes_unit_of(page.max_text_bytes)))
}

/// A snapshot taken in: the first one resets the section; a later one
/// rewrites, in the field's current unit, each field that still holds the
/// previously synced value.
pub open spec fn storage_sync_spec(
    old: StorageSettingsView,
    new: StorageSettingsView,
    page: SettingsStorageViewState,
    current: StorageFieldValues,
    updates: StorageFieldUpdates,
) -> bool {
    match old.synced {
        None => storage_reset_spec(new, page, updates),
        Some(prev) => {
            &&& new == (StorageSettingsView {
                synced: Some((page.history_window_days, page.dedup_window_days, page.max_text_bytes)),
                ..old
            })
            &&& updates.history_window == (if current.history_window_days == Some(prev.0) {
                Some((page.history_window_days, old.history_window_unit))
            } else {
                None
            })
            &&& updates.dedup_window == (if current.dedup_window_days == Some(prev.1) {
                Some((page.dedup_window_days, old.dedup_window_unit))
            } else {
                None
            })
            &&& updates.max_text_bytes == (if current.max_text_bytes == Some(prev.2) {
                Some((page.max_text_bytes, old.max_text_bytes_unit))
            } else {
                None
            })
        },
    }
}

impl StorageSettingsState {
    pub fn new() -> (s: Self)
        ensures
            s@ == (StorageSettingsView {
                history_window_unit: StorageDurationUnit::Days,
                dedup_window_unit: StorageDurationUnit::Days,
                max_text_bytes_unit: StorageBytesUnit::Bytes,
                synced: None,
            }),
    {
        StorageSettingsState {
            history_window_unit: StorageDurationUnit::Days,
            dedup_window_unit: StorageDurationUnit::Days,
            max_text_bytes_unit: StorageBytesUnit::Bytes,
            synced: None,
        }
    }

    pub fn history_window_unit(&self) -> (u: StorageDurationUnit)
        ensures
            u == self@.history_window_unit,
    {
        self.history_window_unit
    }

    pub fn dedup_window_unit(&self) -> (u: StorageDurationUnit)
        ensures
            u == self@.dedup_window_unit,
    {
        self.dedup_window_unit
    }

    pub fn max_text_bytes_unit(&self) -> (u: StorageBytesUnit)
        ensures
            u == self@.max_text_bytes_unit,
    {
        self.max_text_bytes_unit
    }

    /// Discards the draft: each field shows the workspace's value in the
    /// largest unit that holds it whole.
    pub fn reset_from_workspace(&mut self, page: &SettingsStorageViewState) -> (updates: StorageFieldUpdates)
        ensures
            storage_reset_spec(final(self)@, *page, updates),
    {
        self.history_window_unit = StorageDurationUnit::from_days(page.history_window_days);
        self.dedup_window_unit = StorageDurationUnit::from_days(page.dedup_window_days);
        self.max_text_bytes_unit = StorageBytesUnit::from_bytes(page.max_text_bytes);
        self.synced = Some(StorageSyncedValues {
            history_window_days: page.history_window_days,
            dedup_window_days: page.dedup_window_days,
            max_text_bytes: page.max_text_bytes,
        });
        StorageFieldUpdates {
            history_window: Some((page.history_window_days, self.history_window_unit)),
            dedup_window: Some((page.dedup_window_days, self.dedup_window_unit)),
            max_text_bytes: Some((page.max_text_bytes, self.max_text_bytes_unit)),
        }
    }

    /// Takes in a snapshot given the fields' current values: the first
    /// snapshot resets the section; later ones rewrite, in its current unit,
    /// each field that still holds the previously synced value.
    pub fn sync_from_workspace(
        &mut self,
        page: &SettingsStorageViewState,
        current: &StorageFieldValues,
    ) -> (updates: StorageFieldUpdates)
        ensures
            storage_sync_spec(old(self)@, final(self)@, *page, *current, updates),
    {
        let previous = match self.synced {
            Some(previous) => previous,
            None => {
                return self.reset_from_workspace(page);
            },
        };
        let history_window = match current.history_window_days {
            Some(days) => if days == previous.history_window_days {
                Some((page.history_window_days, self.history_window_unit))
            } else {
                None
            },
            None => None,
        };
        let dedup_window = match current.dedup_window_days {
            Some(days) => if days == previous.dedup_window_days {
                Some((page.dedup_window_days, self.dedup_window_unit))
            } else {
                None
            },
            None => None,
        };
        let max_text_bytes = match current.max_text_bytes {
            Some(bytes) => if bytes == previous.max_text_bytes {
                Some((page.max_text_bytes, self.max_text_bytes_unit))
            } else {
                None
            },
            None => None,
        };
        self.synced = Some(StorageSyncedValues {
            history_window_days: page.history_window_days,
            dedup_window_days: page.dedup_window_days,
            max_text_bytes: page.max_text_bytes,
        });
        StorageFieldUpdates { history_window, dedup_window, max_text_bytes }
    }

    /// Switches the unit of the history window field; the field's amount,
    /// when valid, is rewritten in the new unit.
    pub fn select_history_window_unit(&mut self, next_unit: StorageDurationUnit, current_days: Option<u32>) -> (update: Option<(u32, StorageDurationUnit)>)
        ensures
            old(self)@.history_window_unit == next_unit ==> update is None && final(self)@ == old(self)@,
            old(self)@.history_window_unit != next_unit ==> {
                &&& final(self)@ == (StorageSettingsView { history_window_unit: next_unit, ..old(self)@ })
                &&& update == (match current_days {
                    Some(days) => Some((days, next_unit)),
                    None => None,
                })
            },
    {
        if self.history_window_unit == next_unit {
            return None;
        }
        self.history_window_unit = next_unit;
        match current_days {
            Some(days) => Some((days, next_unit)),
            None => None,
        }
    }

    /// Switches the unit of the dedup window field; the field's amount,
    /// when valid, is rewritten in the new unit.
    pub fn select_dedup_window_unit(&mut self, next_unit: StorageDurationUnit, current_days: Option<u32>) -> (update: Option<(u32, StorageDurationUnit)>)
        ensures
            old(self)@.dedup_window_unit == next_unit ==> update is None && final(self)@ == old(self)@,
            old(self)@.dedup_window_unit != next_unit ==> {
                &&& final(self)@ == (StorageSettingsView { dedup_window_unit: next_unit, ..old(self)@ })
                &&& update == (match current_days {
                    Some(days) => Some((days, next_unit)),
                    None => None,
                })
            },
    {
        if self.dedup_window_unit == next_unit {
            return None;
        }
        self.dedup_window_unit = next_unit;
        match current_days {
            Some(days) => Some((days, next_unit)),
            None => None,
        }
    }

    /// Switches the unit of the text limit field; the field's amount, when
    /// valid, is rewritten in the new unit.
    pub fn select_max_text_bytes_unit(&mut self, next_unit: StorageBytesUnit, current_bytes: Option<usize>) -> (update: Option<(usize, StorageBytesUnit)>)
        ensures
            old(self)@.max_text_bytes_unit == next_unit ==> update is None && final(self)@ == old(self)@,
            old(self)@.max_text_bytes_unit != next_unit ==> {
                &&& final(self)@ == (StorageSettingsView { max_text_bytes_unit: next_unit, ..old(self)@ })
                &&& update == (match current_bytes {
                    Some(bytes) => Some((bytes, next_unit)),
                    None => None,
                })
            },
    {
        if self.max_text_bytes_unit == next_unit {
            return None;
        }
        self.max_text_bytes_unit = next_unit;
        match current_bytes {
            Some(bytes) => Some((bytes, next_unit)),
            None => None,
        }
    }
}

/// Once the section has taken in a snapshot, a later snapshot never
/// rewrites a storage field the user has changed since, and never changes
/// the unit a field is shown in.
pub proof fn law_storage_sync_keeps_user_edit(
    old: StorageSettingsView,
    new: StorageSettingsView,
    page: SettingsStorageViewState,
    current: StorageFieldValues,
    updates: StorageFieldUpdates,
)
    requires
        old.synced is Some,
        storage_sync_spec(old, new, page, current, updates),
    ensures
        ({
            let (history, dedup, bytes) = old.synced.unwrap();
            &&& current.history_window_days != Some(history) ==> updates.history_window is None
            &&& current.dedup_window_days != Some(dedup) ==> updates.dedup_window is None
            &&& current.max_text_bytes != Some(bytes) ==> updates.max_text_bytes is None
        }),
        new.history_window_unit == old.history_window_unit,
        new.dedup_window_unit == old.dedup_window_unit,
        new.max_text_bytes_unit == old.max_text_bytes_unit,
{
}

} // verus!
