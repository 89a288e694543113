//! Decisions of the configuration chooser window: when an action may start,
//! what a finished inspection or launch changes, and what the window shows.
//!
//! The inspections, the config rewrite and the launch preparation are done
//! by the caller; the controller says which one to run and takes in the
//! outcome.
use vstd::prelude::*;

use super::state::{
    BootstrapChooserContext, BootstrapChooserReason, BootstrapChooserState, BootstrapPreset,
    CustomLocationProbe, CustomLocationSelection, ExistingConfigProbe, ExistingConfigSelection,
    custom_selection_of, description_spec, is_plain_path, plain_file_name, possible_file_name, existing_selection_of, opt_str_view,
};
use super::view_state::BootstrapViewState;

verus! {

/// The launch preparation a confirmed selection asks for.
#[derive(Clone, Debug, PartialEq, Eq)]
pub enum LaunchRequest {
    DefaultConfig,
    ExistingConfig { path: String },
    CustomLocation { directory: String },
    RepoDevelopment,
}

/// The abstract state of the chooser window.
pub struct ControllerView {
    pub chooser_context: BootstrapChooserContext,
    pub chooser_state: BootstrapChooserState,
    pub can_use_repo_development: bool,
    /// The launch channel to the application is still open.
    pub launch_sender_open: bool,
    pub launch_in_flight: bool,
    pub feedback: Option<Seq<char>>,
}

impl ControllerView {
    /// An action may start: none is running and the window can still launch.
    pub open spec fn can_begin(self) -> bool {
        !self.launch_in_flight && self.launch_sender_open
    }

    pub open spec fn begun(self) -> Self {
        ControllerView { launch_in_flight: true, feedback: None, ..self }
    }

    pub open spec fn chooser_title(self) -> Seq<char> {
        match self.chooser_context.reason {
            BootstrapChooserReason::ExplicitChooserRequest => "Choose Configuration"@,
            BootstrapChooserReason::MissingDefaultConfig => "Missing Default Config"@,
            BootstrapChooserReason::DefaultConfigVersionMismatch => "Update Configuration"@,
        }
    }

    /// The launch preparation the selected preset asks for, if it can launch.
    pub open spec fn launch_request(self) -> Option<LaunchRequest> {
        match self.chooser_state.selected_preset {
            BootstrapPreset::DefaultConfig => Some(LaunchRequest::DefaultConfig),
            BootstrapPreset::ExistingConfig => match self.chooser_state.existing_config {
                ExistingConfigSelection::Valid { path } => Some(LaunchRequest::ExistingConfig { path }),
                _ => None,
            },
            BootstrapPreset::CustomLocation => match self.chooser_state.custom_location {
                CustomLocationSelection::ReadyToCreate { directory, .. } => Some(
                    LaunchRequest::CustomLocation { directory },
                ),
                CustomLocationSelection::ExistingConfig { directory, .. } => Some(
                    LaunchRequest::CustomLocation { directory },
                ),
                CustomLocationSelection::InvalidConfig { directory, .. } => Some(
                    LaunchRequest::CustomLocation { directory },
                ),
                CustomLocationSelection::Unselected => None,
            },
            BootstrapPreset::RepoDevelopment => if self.can_use_repo_development {
                Some(LaunchRequest::RepoDevelopment)
            } else {
                None
            },
        }
    }

    /// What the window shows, with the description built from `file_name`.
    pub open spec fn shows(self, v: BootstrapViewState, file_name: Option<Seq<char>>) -> bool {
        &&& v.chooser_title@ == self.chooser_title()
        &&& v.selected_preset == self.chooser_state.selected_preset
        &&& v.description@ == description_spec(self.chooser_state, self.chooser_context.default_config_path@, file_name)
        &&& opt_string_view(v.feedback) == self.feedback
        &&& v.launch_in_flight == self.launch_in_flight
        &&& v.can_use_repo_development == self.can_use_repo_development
        &&& v.confirm_enabled == (self.chooser_state.confirm_enabled_spec(self.can_use_repo_development)
            && !self.launch_in_flight)
        &&& v.browse_enabled == (self.chooser_state.browse_enabled_spec() && !self.launch_in_flight)
        &&& v.rewrite_visible == self.chooser_state.rewrite_visible_spec()
        &&& v.rewrite_enabled == (self.chooser_state.rewrite_visible_spec() && !self.launch_in_flight)
    }
}

pub open spec fn opt_string_view(s: Option<String>) -> Option<Seq<char>> {
    match s {
        Some(t) => Some(t@),
        None => None,
    }
}

/// The chooser window's state.
pub struct BootstrapController {
    chooser_context: BootstrapChooserContext,
    chooser_state: BootstrapChooserState,
    can_use_repo_development: bool,
    launch_sender_open: bool,
    launch_in_flight: bool,
    feedback: Option<String>,
}

impl View for BootstrapController {
    type V = ControllerView;

    closed spec fn view(&self) -> ControllerView {
        ControllerView {
            chooser_context: self.chooser_context,
            chooser_state: self.chooser_state,
            can_use_repo_development: self.can_use_repo_development,
            launch_sender_open: self.launch_sender_open,
            launch_in_flight: self.launch_in_flight,
            feedback: opt_string_view(self.feedback),
        }
    }
}

impl BootstrapController {
    /// A chooser with the default preset selected and its launch channel open.
    pub fn new(context: BootstrapChooserContext, can_use_repo_development: bool) -> (c: Self)
        ensures
            c@ == (ControllerView {
                chooser_context: context,
                chooser_state: BootstrapChooserState::initial(),
                can_use_repo_development,
                launch_sender_open: true,
                launch_in_flight: false,
                feedback: None,
            }),
    {
        BootstrapController {
            chooser_context: context,
            chooser_state: BootstrapChooserState::default(),
            can_use_repo_development,
            launch_sender_open: true,
            launch_in_flight: false,
            feedback: None,
        }
    }

    fn chooser_title(&self) -> (t: &'static str)
        ensures
            t@ == self@.chooser_title(),
    {
        match self.chooser_context.reason {
            BootstrapChooserReason::ExplicitChooserRequest => "Choose Configuration",
            BootstrapChooserReason::MissingDefaultConfig => "Missing Default Config",
            BootstrapChooserReason::DefaultConfigVersionMismatch => "Update Configuration",
        }
    }

    /// What the window shows, with the description built from the given
    /// file name of the default config path.
    pub fn view_state_with_file_name(&self, file_name: Option<&str>) -> (v: BootstrapViewState)
        ensures
            self@.shows(v, opt_str_view(file_name)),
    {
        let feedback = match &self.feedback {
            Some(message) => Some(message.clone()),
            None => None,
        };
        BootstrapViewState {
            chooser_title: self.chooser_title(),
            selected_preset: self.chooser_state.selected_preset,
            description: self.chooser_state.description_with_file_name(&self.chooser_context, file_name),
            feedback,
            launch_in_flight: self.launch_in_flight,
            can_use_repo_development: self.can_use_repo_development,
            confirm_enabled: self.chooser_state.confirm_enabled(self.can_use_repo_development)
                && !self.launch_in_flight,
            browse_enabled: self.chooser_state.browse_enabled() && !self.launch_in_flight,
            rewrite_visible: self.chooser_state.rewrite_visible(),
            rewrite_enabled: self.chooser_state.rewrite_visible() && !self.launch_in_flight,
        }
    }

    /// What the window shows.
    pub fn view_state(&self) -> (v: BootstrapViewState)
        ensures
            exists|file_name: Option<Seq<char>>|
                possible_file_name(self@.chooser_context.default_config_path@, file_name)
                && #[trigger] self@.shows(v, file_name),
            is_plain_path(self@.chooser_context.default_config_path@) ==> self@.shows(
                v,
                plain_file_name(self@.chooser_context.default_config_path@),
            ),
    {
        let description = self.chooser_state.description(&self.chooser_context);
        let ghost file_name = choose|file_name: Option<Seq<char>>|
            possible_file_name(self.chooser_context.default_config_path@, file_name)
            && description@ == description_spec(
            self.chooser_state,
            self.chooser_context.default_config_path@,
            file_name,
        );
        let feedback = match &self.feedback {
            Some(message) => Some(message.clone()),
            None => None,
        };
        let v = BootstrapViewState {
            chooser_title: self.chooser_title(),
            selected_preset: self.chooser_state.selected_preset,
            description,
            feedback,
            launch_in_flight: self.launch_in_flight,
            can_use_repo_development: self.can_use_repo_development,
            confirm_enabled: self.chooser_state.confirm_enabled(self.can_use_repo_development)
                && !self.launch_in_flight,
            browse_enabled: self.chooser_state.browse_enabled() && !self.launch_in_flight,
            rewrite_visible: self.chooser_state.rewrite_visible(),
            rewrite_enabled: self.chooser_state.rewrite_visible() && !self.launch_in_flight,
        };
        assert(self@.shows(v, file_name));
        v
    }

    /// Selects a preset; any feedback is cleared.
    pub fn set_selected_preset(&mut self, preset: BootstrapPreset)
        ensures
            final(self)@ == (ControllerView {
                chooser_state: BootstrapChooserState { selected_preset: preset, ..old(self)@.chooser_state },
                feedback: None,
                ..old(self)@
            }),
    {
        self.feedback = None;
        self.chooser_state.select_preset(preset);
    }

    pub fn selected_preset(&self) -> (p: BootstrapPreset)
        ensures
            p == self@.chooser_state.selected_preset,
    {
        self.chooser_state.selected_preset
    }

    pub fn can_use_repo_development(&self) -> (r: bool)
        ensures
            r == self@.can_use_repo_development,
    {
        self.can_use_repo_development
    }

    /// Starts an action when none is running and the window can still
    /// launch; says whether it started.
    pub fn begin_action(&mut self) -> (started: bool)
        ensures
            started == old(self)@.can_begin(),
            final(self)@ == (if started { old(self)@.begun() } else { old(self)@ }),
    {
        if self.launch_in_flight || !self.launch_sender_open {
            return false;
        }
        self.launch_in_flight = true;
        self.feedback = None;
        true
    }

    pub fn end_action(&mut self)
        ensures
            final(self)@ == (ControllerView { launch_in_flight: false, ..old(self)@ }),
    {
        self.launch_in_flight = false;
    }

    /// Takes in the inspection of a picked config file: its probe, or the
    /// message of the error that stopped the inspection.
    pub fn apply_existing_config_selection(&mut self, path: String, inspection: Result<ExistingConfigProbe, String>)
        ensures
            final(self)@ == (ControllerView {
                chooser_state: BootstrapChooserState {
                    existing_config: match inspection {
                        Ok(probe) => existing_selection_of(probe),
                        Err(message) => ExistingConfigSelection::Invalid { path, message },
                    },
                    ..old(self)@.chooser_state
                },
                launch_in_flight: false,
                feedback: None,
                ..old(self)@
            }),
    {
        self.launch_in_flight = false;
        self.feedback = None;
        match inspection {
            Ok(probe) => self.chooser_state.set_existing_config_probe(probe),
            Err(message) => {
                self.chooser_state.existing_config = ExistingConfigSelection::Invalid { path, message };
            },
        }
    }

    /// Takes in the inspection of a picked folder: its probe, or the message
    /// of the error that stopped the inspection.
    pub fn apply_custom_location_selection(&mut self, directory: String, inspection: Result<CustomLocationProbe, String>)
        ensures
            final(self)@ == (ControllerView {
                chooser_state: BootstrapChooserState {
                    custom_location: match inspection {
                        Ok(probe) => custom_selection_of(probe),
                        Err(message) => CustomLocationSelection::InvalidConfig {
                            directory,
                            config_path: old(self)@.chooser_context.default_config_path,
                            message,
                        },
                    },
                    ..old(self)@.chooser_state
                },
                launch_in_flight: false,
                feedback: None,
                ..old(self)@
            }),
    {
        self.launch_in_flight = false;
        self.feedback = None;
        match inspection {
            Ok(probe) => self.chooser_state.set_custom_location_probe(probe),
            Err(message) => {
                self.chooser_state.custom_location = CustomLocationSelection::InvalidConfig {
                    config_path: self.chooser_context.default_config_path.clone(),
                    directory,
                    message,
                };
            },
        }
    }

    /// Starts rewriting the picked config file: returns its path when a file
    /// was picked and an action could start.
    pub fn begin_rewrite_existing_config(&mut self) -> (path: Option<String>)
        ensures
            old(self)@.chooser_state.existing_config.path_spec() is None ==> path is None && final(self)@ == old(self)@,
            old(self)@.chooser_state.existing_config.path_spec() is Some ==> {
                &&& (path is Some <==> old(self)@.can_begin())
                &&& path matches Some(p) ==> Some(p@) == old(self)@.chooser_state.existing_config.path_spec()
                &&& final(self)@ == (if old(self)@.can_begin() { old(self)@.begun() } else { old(self)@ })
            },
    {
        let path = match self.chooser_state.existing_config.path() {
            Some(path) => path.to_owned(),
            None => {
                return None;
            },
        };
        if !self.begin_action() {
            return None;
        }
        Some(path)
    }

    /// Takes in the outcome of the rewrite: the path of the rewritten config,
    /// or the error's message.
    pub fn finish_rewrite_existing_config(&mut self, outcome: Result<String, String>)
        ensures
            final(self)@ == (match outcome {
                Ok(config_path) => ControllerView {
                    chooser_state: BootstrapChooserState {
                        existing_config: ExistingConfigSelection::Valid { path: config_path },
                        ..old(self)@.chooser_state
                    },
                    feedback: Some("Configuration file rewritten successfully."@),
                    launch_in_flight: false,
                    ..old(self)@
                },
                Err(message) => ControllerView {
                    feedback: Some(message@),
                    launch_in_flight: false,
                    ..old(self)@
                },
            }),
    {
        match outcome {
            Ok(config_path) => {
                self.chooser_state.existing_config = ExistingConfigSelection::Valid { path: config_path };
                self.feedback = Some(String::from_str("Configuration file rewritten successfully."));
                self.end_action();
            },
            Err(message) => {
                self.feedback = Some(message);
                self.end_action();
            },
        }
    }

    /// Starts confirming the selection: returns the launch preparation to run
    /// when an action could start and the selected preset can launch. When
    /// the preset cannot launch the action ends at once.
    pub fn begin_confirm_selection(&mut self) -> (request: Option<LaunchRequest>)
        ensures
            !old(self)@.can_begin() ==> request is None && final(self)@ == old(self)@,
            old(self)@.can_begin() ==> request == old(self)@.launch_request(),
            old(self)@.can_begin() && request is Some ==> final(self)@ == old(self)@.begun(),
            old(self)@.can_begin() && request is None ==> final(self)@ == (ControllerView {
                launch_in_flight: false,
                ..old(self)@.begun()
            }),
    {
        if !self.begin_action() {
            return None;
        }
        let request = match self.chooser_state.selected_preset {
            BootstrapPreset::DefaultConfig => Some(LaunchRequest::DefaultConfig),
            BootstrapPreset::ExistingConfig => match &self.chooser_state.existing_config {
                ExistingConfigSelection::Valid { path } => Some(LaunchRequest::ExistingConfig { path: path.clone() }),
                _ => None,
            },
            BootstrapPreset::CustomLocation => match &self.chooser_state.custom_location {
                CustomLocationSelection::ReadyToCreate { directory, .. }
                | CustomLocationSelection::ExistingConfig { directory, .. }
                | CustomLocationSelection::InvalidConfig { directory, .. } => Some(
                    LaunchRequest::CustomLocation { directory: directory.clone() },
                ),
                CustomLocationSelection::Unselected => None,
            },
            BootstrapPreset::RepoDevelopment => if self.can_use_repo_development {
                Some(LaunchRequest::RepoDevelopment)
            } else {
                None
            },
        };
        if request.is_none() {
            self.end_action();
        }
        request
    }

    /// Takes in the outcome of the launch preparation: on failure its
    /// message becomes the feedback.
    pub fn finish_confirm_selection(&mut self, outcome: Result<(), String>)
        ensures
            final(self)@ == (match outcome {
                Ok(()) => ControllerView { launch_in_flight: false, ..old(self)@ },
                Err(message) => ControllerView { launch_in_flight: false, feedback: Some(message@), ..old(self)@ },
            }),
    {
        self.end_action();
        match outcome {
            Ok(()) => {},
            Err(message) => {
                self.feedback = Some(message);
            },
        }
    }

    /// Hands over the launch channel: true the first time, when the launch
    /// is to be sent; the channel is closed afterwards.
    pub fn take_launch_sender(&mut self) -> (send: bool)
        ensures
            send == old(self)@.launch_sender_open,
            final(self)@ == (ControllerView { launch_sender_open: false, ..old(self)@ }),
    {
        let open = self.launch_sender_open;
        self.launch_sender_open = false;
        open
    }

    /// Closes the window without launching.
    pub fn quit(&mut self)
        ensures
            final(self)@ == (ControllerView { launch_sender_open: false, launch_in_flight: false, ..old(self)@ }),
    {
        self.launch_sender_open = false;
        self.launch_in_flight = false;
    }
}

/// Actions of the chooser never overlap: once one has started, no other
/// can start until it ends.
pub proof fn law_one_action_at_a_time(v: ControllerView)
    requires
        v.can_begin(),
    ensures
        !v.begun().can_begin(),
        (ControllerView { launch_in_flight: false, ..v.begun() }).can_begin(),
{
}

/// Once the launch channel is handed over, or the window quits, no action
/// can start and the channel is not handed over again.
pub proof fn law_launch_sent_at_most_once(v: ControllerView)
    ensures
        !(ControllerView { launch_sender_open: false, ..v }).can_begin(),
        !(ControllerView { launch_sender_open: false, launch_in_flight: false, ..v }).can_begin(),
{
}

/// The window offers to confirm exactly when the selected preset has a
/// launch to prepare and no action runs; a confirmation it offers always
/// leads to a launch preparation.
pub proof fn law_confirm_enabled_means_launchable(v: ControllerView)
    requires
        v.chooser_state.confirm_enabled_spec(v.can_use_repo_development),
    ensures
        v.launch_request() is Some,
{
}

/// The launch prepared on confirmation is the selected preset's own: the
/// default config exactly for that preset; an existing file only for a valid
/// pick, with its path; a custom location only for a picked folder, with
/// exactly that folder; the development setup exactly where it is chosen and
/// allowed. A preset with what it needs always gets its request.
pub proof fn law_launch_follows_selected_preset(v: ControllerView)
    ensures
        (v.launch_request() == Some(LaunchRequest::DefaultConfig))
            == (v.chooser_state.selected_preset == BootstrapPreset::DefaultConfig),
        (v.launch_request() == Some(LaunchRequest::RepoDevelopment))
            == (v.chooser_state.selected_preset == BootstrapPreset::RepoDevelopment && v.can_use_repo_development),
        v.launch_request() matches Some(LaunchRequest::ExistingConfig { path }) ==> {
            &&& v.chooser_state.selected_preset == BootstrapPreset::ExistingConfig
            &&& v.chooser_state.existing_config matches ExistingConfigSelection::Valid { path: p } && p == path
        },
        v.chooser_state.selected_preset == BootstrapPreset::ExistingConfig ==> (
            v.chooser_state.existing_config matches ExistingConfigSelection::Valid { path }
                ==> v.launch_request() == Some(LaunchRequest::ExistingConfig { path })),
        v.launch_request() matches Some(LaunchRequest::CustomLocation { directory }) ==> {
            &&& v.chooser_state.selected_preset == BootstrapPreset::CustomLocation
            &&& {
                ||| v.chooser_state.custom_location matches CustomLocationSelection::ReadyToCreate { directory: d, .. }
                    && d == directory
                ||| v.chooser_state.custom_location matches CustomLocationSelection::ExistingConfig { directory: d, .. }
                    && d == directory
                ||| v.chooser_state.custom_location matches CustomLocationSelection::InvalidConfig { directory: d, .. }
                    && d == directory
            }
        },
        v.chooser_state.selected_preset == BootstrapPreset::CustomLocation ==> (
            v.chooser_state.custom_location matches CustomLocationSelection::ReadyToCreate { directory, .. }
                ==> v.launch_request() == Some(LaunchRequest::CustomLocation { directory })),
        v.chooser_state.selected_preset == BootstrapPreset::CustomLocation ==> (
            v.chooser_state.custom_location matches CustomLocationSelection::ExistingConfig { directory, .. }
                ==> v.launch_request() == Some(LaunchRequest::CustomLocation { directory })),
        v.chooser_state.selected_preset == BootstrapPreset::CustomLocation ==> (
            v.chooser_state.custom_location matches CustomLocationSelection::InvalidConfig { directory, .. }
                ==> v.launch_request() == Some(LaunchRequest::CustomLocation { directory })),
{
}

} // verus!
