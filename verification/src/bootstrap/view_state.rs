//! What the configuration chooser window renders.
use vstd::prelude::*;

use super::state::BootstrapPreset;

verus! {

/// The chooser window as the view renders it.
#[derive(Clone, Debug)]
pub struct BootstrapViewState {
    pub chooser_title: &'static str,
    pub selected_preset: BootstrapPreset,
    pub description: String,
    pub feedback: Option<String>,
    pub launch_in_flight: bool,
    pub can_use_repo_development: bool,
    pub confirm_enabled: bool,
    pub browse_enabled: bool,
    pub rewrite_visible: bool,
    pub rewrite_enabled: bool,
}

} // verus!
