//! How the chooser window lays out its view state: which preset buttons it
//! lists, which action buttons it shows and which of them can be used.
use vstd::prelude::*;

use super::controller::ControllerView;
use super::state::BootstrapPreset;
use super::view_state::BootstrapViewState;

verus! {

broadcast use vstd::string::group_string_axioms;

/// The file dialog the Browse button opens.
#[derive(Clone, Copy, Debug, PartialEq, Eq, Structural)]
pub enum BrowseTarget {
    /// Pick an existing config file.
    ExistingConfig,
    /// Pick a folder for a new config.
    CustomLocation,
}

pub open spec fn browse_target_spec(preset: BootstrapPreset) -> Option<BrowseTarget> {
    match preset {
        BootstrapPreset::ExistingConfig => Some(BrowseTarget::ExistingConfig),
        BootstrapPreset::CustomLocation => Some(BrowseTarget::CustomLocation),
        BootstrapPreset::DefaultConfig | BootstrapPreset::RepoDevelopment => None,
    }
}

/// The dialog Browse opens for the selected preset; none for the presets
/// that need no pick.
pub fn browse_target(preset: BootstrapPreset) -> (t: Option<BrowseTarget>)
    ensures
        t == browse_target_spec(preset),
{
    match preset {
        BootstrapPreset::ExistingConfig => Some(BrowseTarget::ExistingConfig),
        BootstrapPreset::CustomLocation => Some(BrowseTarget::CustomLocation),
        BootstrapPreset::DefaultConfig | BootstrapPreset::RepoDevelopment => None,
    }
}

/// The chooser window's buttons and texts.
#[derive(Clone, Debug)]
pub struct ChooserLayout {
    /// The preset buttons, in order.
    pub presets: Vec<BootstrapPreset>,
    /// Heading of the description: the selected preset's title.
    pub preset_title: &'static str,
    /// e.g. "Repo development preset: available".
    pub repo_development_line: String,
    /// Browse is shown (in place of an empty slot); when shown it can be used.
    pub browse_shown: bool,
    pub rewrite_shown: bool,
    pub rewrite_disabled: bool,
    pub confirm_disabled: bool,
    /// Quit waits while a launch is being prepared.
    pub quit_disabled: bool,
}

pub open spec fn listed_presets(can_use_repo_development: bool) -> Seq<BootstrapPreset> {
    if can_use_repo_development {
        seq![
            BootstrapPreset::DefaultConfig,
            BootstrapPreset::ExistingConfig,
            BootstrapPreset::CustomLocation,
            BootstrapPreset::RepoDevelopment,
        ]
    } else {
        seq![BootstrapPreset::DefaultConfig, BootstrapPreset::ExistingConfig, BootstrapPreset::CustomLocation]
    }
}

pub fn chooser_layout(view: &BootstrapViewState) -> (l: ChooserLayout)
    ensures
        l.presets@ == listed_presets(view.can_use_repo_development),
        l.preset_title@ == view.selected_preset.title_spec(),
        l.repo_development_line@ == "Repo development preset: "@ + (if view.can_use_repo_development {
            "available"@
        } else {
            "unavailable"@
        }),
        l.browse_shown == view.browse_enabled,
        l.rewrite_shown == view.rewrite_visible,
        l.rewrite_disabled == !view.rewrite_enabled,
        l.confirm_disabled == !view.confirm_enabled,
        l.quit_disabled == view.launch_in_flight,
{
    let mut presets: Vec<BootstrapPreset> = Vec::new();
    presets.push(BootstrapPreset::DefaultConfig);
    presets.push(BootstrapPreset::ExistingConfig);
    presets.push(BootstrapPreset::CustomLocation);
    if view.can_use_repo_development {
        presets.push(BootstrapPreset::RepoDevelopment);
    }
    let mut repo_development_line = String::from_str("Repo development preset: ");
    repo_development_line.append(if view.can_use_repo_development { "available" } else { "unavailable" });
    let l = ChooserLayout {
        presets,
        preset_title: view.selected_preset.title(),
        repo_development_line,
        browse_shown: view.browse_enabled,
        rewrite_shown: view.rewrite_visible,
        rewrite_disabled: !view.rewrite_enabled,
        confirm_disabled: !view.confirm_enabled,
        quit_disabled: view.launch_in_flight,
    };
    assert(l.presets@ =~= listed_presets(view.can_use_repo_development));
    l
}

/// The window's buttons never lead nowhere: a shown Browse button opens a
/// dialog for the selected preset, and Confirm is usable for the
/// development preset only when that preset is listed.
pub proof fn law_shown_buttons_have_targets(c: ControllerView, v: BootstrapViewState, file_name: Option<Seq<char>>)
    requires
        c.shows(v, file_name),
    ensures
        v.browse_enabled ==> browse_target_spec(v.selected_preset) is Some,
        (v.confirm_enabled && v.selected_preset == BootstrapPreset::RepoDevelopment)
            ==> listed_presets(v.can_use_repo_development).contains(BootstrapPreset::RepoDevelopment),
{
    if v.confirm_enabled && v.selected_preset == BootstrapPreset::RepoDevelopment {
        assert(listed_presets(v.can_use_repo_development)[3] == BootstrapPreset::RepoDevelopment);
    }
}

} // verus!
