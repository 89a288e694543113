//! The recent-activity card of the home page.
use vstd::prelude::*;

use crate::text::{decimal_digits, decimal_string, str_eq};

verus! {

broadcast use vstd::string::group_string_axioms;

/// How serious an activity entry is.
#[derive(Clone, Copy, Debug, PartialEq, Eq, Structural)]
pub enum RecentActivitySeverity {
    Info,
    Warning,
    Error,
}

/// An activity entry as the workspace reports it.
#[derive(Clone, Debug)]
pub struct RecentActivityViewState {
    pub label: String,
    pub title: String,
    pub time_label: String,
    pub severity: RecentActivitySeverity,
}

/// The icon of an entry, chosen by its label.
#[derive(Clone, Copy, Debug, PartialEq, Eq, Structural)]
pub enum ActivityIcon {
    Copy,
    Folder,
    Globe,
    Alert,
}

/// The accent colour of an entry.
#[derive(Clone, Copy, Debug, PartialEq, Eq, Structural)]
pub enum ActivityAccent {
    Blue,
    Amber,
    Cyan,
    Rose,
}

pub open spec fn activity_icon_spec(label: Seq<char>) -> ActivityIcon {
    if label == "Clipboard"@ {
        ActivityIcon::Copy
    } else if label == "Incoming Transfer"@ || label == "Transfer Complete"@ {
        ActivityIcon::Folder
    } else if label == "Network Starting"@ || label == "Network Running"@ || label == "Network Stopped"@ {
        ActivityIcon::Globe
    } else {
        ActivityIcon::Alert
    }
}

pub open spec fn activity_accent_spec(severity: RecentActivitySeverity, label: Seq<char>) -> ActivityAccent {
    match severity {
        RecentActivitySeverity::Info => if label == "Clipboard"@ {
            ActivityAccent::Blue
        } else if label == "Incoming Transfer"@ || label == "Transfer Complete"@ {
            ActivityAccent::Amber
        } else {
            ActivityAccent::Cyan
        },
        RecentActivitySeverity::Warning => ActivityAccent::Amber,
        RecentActivitySeverity::Error => ActivityAccent::Rose,
    }
}

/// One row of the card.
#[derive(Clone, Debug)]
pub struct RecentActivityRowViewState {
    pub icon: ActivityIcon,
    pub accent: ActivityAccent,
    /// The message a copy button puts on the clipboard; warnings and errors only.
    pub copy_message: Option<String>,
}

pub open spec fn opt_string_view(o: Option<String>) -> Option<Seq<char>> {
    match o {
        Some(s) => Some(s@),
        None => None,
    }
}

pub fn recent_activity_row_view_state(item: &RecentActivityViewState) -> (v: RecentActivityRowViewState)
    ensures
        v.icon == activity_icon_spec(item.label@),
        v.accent == activity_accent_spec(item.severity, item.label@),
        item.severity == RecentActivitySeverity::Info ==> v.copy_message is None,
        item.severity != RecentActivitySeverity::Info ==> opt_string_view(v.copy_message) == Some(item.title@),
{
    let label = item.label.as_str();
    let clipboard = str_eq(label, "Clipboard");
    let transfer = str_eq(label, "Incoming Transfer") || str_eq(label, "Transfer Complete");
    let network = str_eq(label, "Network Starting") || str_eq(label, "Network Running") || str_eq(
        label,
        "Network Stopped",
    );
    let icon = if clipboard {
        ActivityIcon::Copy
    } else if transfer {
        ActivityIcon::Folder
    } else if network {
        ActivityIcon::Globe
    } else {
        ActivityIcon::Alert
    };
    let accent = match item.severity {
        RecentActivitySeverity::Info => if clipboard {
            ActivityAccent::Blue
        } else if transfer {
            ActivityAccent::Amber
        } else {
            ActivityAccent::Cyan
        },
        RecentActivitySeverity::Warning => ActivityAccent::Amber,
        RecentActivitySeverity::Error => ActivityAccent::Rose,
    };
    let copy_message = match item.severity {
        RecentActivitySeverity::Info => None,
        _ => Some(item.title.clone()),
    };
    RecentActivityRowViewState { icon, accent, copy_message }
}

/// The count shown in the card's header, e.g. "3 items".
pub fn recent_activity_count_label(count: usize) -> (label: String)
    ensures
        label@ == decimal_digits(count as nat) + " items"@,
{
    let mut label = decimal_string(count as u64);
    label.append(" items");
    label
}

} // verus!
