//! The configuration chooser shown when nooboard cannot start on its own:
//! which preset is selected, what the user picked for it, and the text that
//! explains the choice.
use vstd::prelude::*;

use crate::text::seq_contains_run;

verus! {

/// The ways to obtain a configuration for this run.
#[derive(Clone, Copy, Debug, PartialEq, Eq, Structural)]
pub enum BootstrapPreset {
    DefaultConfig,
    ExistingConfig,
    CustomLocation,
    RepoDevelopment,
}

impl BootstrapPreset {
    pub open spec fn title_spec(self) -> Seq<char> {
        match self {
            BootstrapPreset::DefaultConfig => "Use default configuration"@,
            BootstrapPreset::ExistingConfig => "Use existing config"@,
            BootstrapPreset::CustomLocation => "Create config in custom location"@,
            BootstrapPreset::RepoDevelopment => "Use local development setup"@,
        }
    }

    /// The button title of the preset.
    pub fn title(self) -> (t: &'static str)
        ensures
            t@ == self.title_spec(),
    {
        match self {
            BootstrapPreset::DefaultConfig => "Use default configuration",
            BootstrapPreset::ExistingConfig => "Use existing config",
            BootstrapPreset::CustomLocation => "Create config in custom location",
            BootstrapPreset::RepoDevelopment => "Use local development setup",
        }
    }
}

/// What the inspection of an existing config file found.
#[derive(Clone, Debug, PartialEq, Eq)]
pub enum ExistingConfigProbe {
    Valid { path: String },
    Invalid { path: String, message: String },
}

/// What the inspection of a folder chosen for a new config found.
#[derive(Clone, Debug, PartialEq, Eq)]
pub enum CustomLocationProbe {
    ReadyToCreate { directory: String, config_path: String },
    ExistingValidConfig { directory: String, config_path: String },
    ExistingInvalidConfig { directory: String, config_path: String, message: String },
}

/// Why the chooser is shown.
#[derive(Clone, Copy, Debug, PartialEq, Eq, Structural)]
pub enum BootstrapChooserReason {
    ExplicitChooserRequest,
    MissingDefaultConfig,
    DefaultConfigVersionMismatch,
}

/// What the chooser is told when it opens.
#[derive(Clone, Debug)]
pub struct BootstrapChooserContext {
    pub reason: BootstrapChooserReason,
    pub default_config_path: String,
}

/// The existing config file the user picked, if any.
#[derive(Clone, Debug, PartialEq, Eq)]
pub enum ExistingConfigSelection {
    Unselected,
    Valid { path: String },
    Invalid { path: String, message: String },
}

impl ExistingConfigSelection {
    pub open spec fn path_spec(self) -> Option<Seq<char>> {
        match self {
            ExistingConfigSelection::Unselected => None,
            ExistingConfigSelection::Valid { path } => Some(path@),
            ExistingConfigSelection::Invalid { path, .. } => Some(path@),
        }
    }

    pub open spec fn valid_path_spec(self) -> Option<Seq<char>> {
        match self {
            ExistingConfigSelection::Valid { path } => Some(path@),
            _ => None,
        }
    }

    /// The picked file, valid or not.
    pub fn path(&self) -> (r: Option<&str>)
        ensures
            opt_str_view(r) == self.path_spec(),
    {
        match self {
            ExistingConfigSelection::Unselected => None,
            ExistingConfigSelection::Valid { path } => Some(path.as_str()),
            ExistingConfigSelection::Invalid { path, .. } => Some(path.as_str()),
        }
    }

    /// The picked file when it is a valid config.
    pub fn valid_path(&self) -> (r: Option<&str>)
        ensures
            opt_str_view(r) == self.valid_path_spec(),
    {
        match self {
            ExistingConfigSelection::Valid { path } => Some(path.as_str()),
            ExistingConfigSelection::Unselected | ExistingConfigSelection::Invalid { .. } => None,
        }
    }
}

/// The folder the user picked for a new config, if any.
#[derive(Clone, Debug, PartialEq, Eq)]
pub enum CustomLocationSelection {
    Unselected,
    ReadyToCreate { directory: String, config_path: String },
    ExistingConfig { directory: String, config_path: String },
    InvalidConfig { directory: String, config_path: String, message: String },
}

impl CustomLocationSelection {
    pub open spec fn confirm_path_spec(self) -> Option<Seq<char>> {
        match self {
            CustomLocationSelection::ReadyToCreate { config_path, .. } => Some(config_path@),
            CustomLocationSelection::ExistingConfig { config_path, .. } => Some(config_path@),
            _ => None,
        }
    }

    pub open spec fn directory_spec(self) -> Option<Seq<char>> {
        match self {
            CustomLocationSelection::Unselected => None,
            CustomLocationSelection::ReadyToCreate { directory, .. } => Some(directory@),
            CustomLocationSelection::ExistingConfig { directory, .. } => Some(directory@),
            CustomLocationSelection::InvalidConfig { directory, .. } => Some(directory@),
        }
    }

    /// The config path a launch would use: present when the folder can be used.
    pub fn confirm_path(&self) -> (r: Option<&str>)
        ensures
            opt_str_view(r) == self.confirm_path_spec(),
    {
        match self {
            CustomLocationSelection::ReadyToCreate { config_path, .. }
            | CustomLocationSelection::ExistingConfig { config_path, .. } => Some(config_path.as_str()),
            CustomLocationSelection::Unselected | CustomLocationSelection::InvalidConfig { .. } => None,
        }
    }

    /// The picked folder, usable or not.
    pub fn directory(&self) -> (r: Option<&str>)
        ensures
            opt_str_view(r) == self.directory_spec(),
    {
        match self {
            CustomLocationSelection::ReadyToCreate { directory, .. }
            | CustomLocationSelection::ExistingConfig { directory, .. }
            | CustomLocationSelection::InvalidConfig { directory, .. } => Some(directory.as_str()),
            CustomLocationSelection::Unselected => None,
        }
    }
}

pub open spec fn opt_str_view(o: Option<&str>) -> Option<Seq<char>> {
    match o {
        Some(s) => Some(s@),
        None => None,
    }
}

/// The chooser: selected preset and the picks made for the presets.
#[derive(Clone, Debug)]
pub struct BootstrapChooserState {
    pub selected_preset: BootstrapPreset,
    pub existing_config: ExistingConfigSelection,
    pub custom_location: CustomLocationSelection,
}

/// The selection a probe of an existing config file leads to.
pub open spec fn existing_selection_of(probe: ExistingConfigProbe) -> ExistingConfigSelection {
    match probe {
        ExistingConfigProbe::Valid { path } => ExistingConfigSelection::Valid { path },
        ExistingConfigProbe::Invalid { path, message } => ExistingConfigSelection::Invalid { path, message },
    }
}

/// The selection a probe of a folder leads to.
pub open spec fn custom_selection_of(probe: CustomLocationProbe) -> CustomLocationSelection {
    match probe {
        CustomLocationProbe::ReadyToCreate { directory, config_path } => CustomLocationSelection::ReadyToCreate {
            directory,
            config_path,
        },
        CustomLocationProbe::ExistingValidConfig { directory, config_path } => CustomLocationSelection::ExistingConfig {
            directory,
            config_path,
        },
        CustomLocationProbe::ExistingInvalidConfig { directory, config_path, message } => CustomLocationSelection::InvalidConfig {
            directory,
            config_path,
            message,
        },
    }
}

/// The text that explains the selected preset. `file_name` is the file
/// name of the default config path; "nooboard.toml" stands in when it has none.
pub open spec fn description_spec(
    state: BootstrapChooserState,
    default_config_path: Seq<char>,
    file_name: Option<Seq<char>>,
) -> Seq<char> {
    let name = match file_name {
        Some(n) => n,
        None => "nooboard.toml"@,
    };
    match state.selected_preset {
        BootstrapPreset::DefaultConfig => "Create a default config and start nooboard.\n"@ + default_config_path,
        BootstrapPreset::ExistingConfig => match state.existing_config {
            ExistingConfigSelection::Unselected => "Choose an existing "@ + name + " file to use for this run."@,
            ExistingConfigSelection::Valid { path } => "Selected config will be used for this run.\n"@ + path@,
            ExistingConfigSelection::Invalid { path, message } => "Selected file is not a valid nooboard config.\n"@
                + path@ + "\n"@ + message@,
        },
        BootstrapPreset::CustomLocation => match state.custom_location {
            CustomLocationSelection::Unselected => "Choose a folder. nooboard will create "@ + name
                + " there if needed."@,
            CustomLocationSelection::ReadyToCreate { directory, config_path } =>
                "A new config will be created in the selected folder.\n"@ + directory@ + "\n"@ + config_path@,
            CustomLocationSelection::ExistingConfig { directory, config_path } =>
                "The selected folder already contains a valid config and it will be reused.\n"@ + directory@
                    + "\n"@ + config_path@,
            CustomLocationSelection::InvalidConfig { directory, config_path, message } =>
                "The selected folder already contains an invalid "@ + name
                    + ". Choose another folder.\n"@ + directory@ + "\n"@ + config_path@ + "\n"@ + message@,
        },
        BootstrapPreset::RepoDevelopment => "Use the repository-local development setup for this run."@,
    }
}

/// A path that begins with the Windows verbatim prefix `\\?\`, in which `/`
/// does not separate components.
pub open spec fn is_verbatim_path(path: Seq<char>) -> bool {
    "\\\\?\\"@.is_prefix_of(path)
}

/// What holds of a file name `name` taken from `path` on every platform: it is
/// a non-empty run of the path's characters, and, unless the path is a
/// verbatim one, it holds no `/`, which separates components elsewhere.
pub open spec fn file_name_facts(path: Seq<char>, name: Seq<char>) -> bool {
    &&& name.len() > 0
    &&& seq_contains_run(path, name)
    &&& !is_verbatim_path(path) ==> !name.contains('/')
}

/// A file name the default config path may have, `None` standing for none.
pub open spec fn possible_file_name(path: Seq<char>, file_name: Option<Seq<char>>) -> bool {
    file_name matches Some(n) ==> file_name_facts(path, n)
}

/// A path that every platform splits the same way: no Windows verbatim,
/// drive or network prefix can start it (it holds no backslash and no `:`, and
/// does not begin with `//`), so `/` alone separates its components.
pub open spec fn is_plain_path(path: Seq<char>) -> bool {
    &&& !path.contains('\\')
    &&& !path.contains(':')
    &&& !"//"@.is_prefix_of(path)
}

/// `path` without its trailing separators and trailing `.` components, which
/// do not count as components.
pub open spec fn strip_path_tail(path: Seq<char>) -> Seq<char>
    decreases path.len(),
{
    if path.len() > 0 && path.last() == '/' {
        strip_path_tail(path.drop_last())
    } else if path.len() == 1 && path[0] == '.' {
        Seq::empty()
    } else if path.len() >= 2 && path.last() == '.' && path[path.len() - 2] == '/' {
        strip_path_tail(path.drop_last())
    } else {
        path
    }
}

/// The characters of `path` after its last `/`.
pub open spec fn last_segment(path: Seq<char>) -> Seq<char>
    decreases path.len(),
{
    if path.len() == 0 || path.last() == '/' {
        Seq::empty()
    } else {
        last_segment(path.drop_last()).push(path.last())
    }
}

/// The file name of a plain path: its final component, unless there is none
/// or it is `..`.
pub open spec fn plain_file_name(path: Seq<char>) -> Option<Seq<char>> {
    let last = last_segment(strip_path_tail(path));
    if last.len() == 0 || last == ".."@ {
        None
    } else {
        Some(last)
    }
}

/// std's `Path::file_name` followed by `OsStr::to_str`: the final component
/// of a path, when it has one and it is valid Unicode (a component of a
/// `&str` always is). The two calls (with `Path::new` and `to_string`
/// converting in and out) stand together because the value between them is
/// an `OsStr`, which the library cannot name.
/// As std documents it, components are the runs between separators, with
/// repeated and trailing separators and `.` components after the first
/// ignored; `file_name` is the final component, `None` when there is none or
/// it is `..`; and `/` is a separator on every platform except inside a
/// Windows verbatim path. So a plain path's file name is stated exactly, and
/// of any other path that a name is a non-empty run of it; which separators
/// and prefixes a platform knows besides is left unsaid.
#[verifier::external_body]
fn path_file_name(path: &str) -> (name: Option<String>)
    ensures
        name matches Some(n) ==> file_name_facts(path@, n@),
        is_plain_path(path@) ==> match name {
            Some(n) => plain_file_name(path@) == Some(n@),
            None => plain_file_name(path@) is None,
        },
{
    std::path::Path::new(path).file_name().and_then(|value| value.to_str()).map(|value| value.to_string())
}

/// A path made of `/` alone has no file name, so the description names
/// `nooboard.toml` for it.
pub proof fn law_separator_path_has_no_file_name(
    state: BootstrapChooserState,
    path: Seq<char>,
    file_name: Option<Seq<char>>,
)
    requires
        forall|i: int| 0 <= i < path.len() ==> path[i] == '/',
        possible_file_name(path, file_name),
    ensures
        file_name is None,
        description_spec(state, path, file_name) == description_spec(state, path, None),
{
    if file_name is Some {
        let n = file_name->0;
        let i = choose|i: int| 0 <= i <= path.len() - n.len() && #[trigger] path.subrange(i, i + n.len()) == n;
        assert(n[0] == path[i]);
        assert(n.contains('/'));
        reveal_strlit("\\\\?\\");
        assert(!is_verbatim_path(path)) by {
            if is_verbatim_path(path) {
                assert(path[0] == "\\\\?\\"@[0]);
            }
        }
    }
}

fn concat2(a: &str, b: &str) -> (r: String)
    ensures
        r@ == a@ + b@,
{
    let mut s = String::from_str(a);
    s.append(b);
    s
}

fn concat3(a: &str, b: &str, c: &str) -> (r: String)
    ensures
        r@ == a@ + b@ + c@,
{
    let mut s = concat2(a, b);
    s.append(c);
    s
}

impl BootstrapChooserState {
    pub open spec fn initial() -> Self {
        BootstrapChooserState {
            selected_preset: BootstrapPreset::DefaultConfig,
            existing_config: ExistingConfigSelection::Unselected,
            custom_location: CustomLocationSelection::Unselected,
        }
    }

    /// Default configuration selected, nothing picked.
    pub fn default() -> (s: Self)
        ensures
            s == Self::initial(),
    {
        BootstrapChooserState {
            selected_preset: BootstrapPreset::DefaultConfig,
            existing_config: ExistingConfigSelection::Unselected,
            custom_location: CustomLocationSelection::Unselected,
        }
    }

    pub fn select_preset(&mut self, preset: BootstrapPreset)
        ensures
            *final(self) == (BootstrapChooserState { selected_preset: preset, ..*old(self) }),
    {
        self.selected_preset = preset;
    }

    /// Records what the inspection of a picked config file found.
    pub fn set_existing_config_probe(&mut self, probe: ExistingConfigProbe)
        ensures
            *final(self) == (BootstrapChooserState { existing_config: existing_selection_of(probe), ..*old(self) }),
    {
        self.existing_config = match probe {
            ExistingConfigProbe::Valid { path } => ExistingConfigSelection::Valid { path },
            ExistingConfigProbe::Invalid { path, message } => ExistingConfigSelection::Invalid { path, message },
        };
    }

    /// Records what the inspection of a picked folder found.
    pub fn set_custom_location_probe(&mut self, probe: CustomLocationProbe)
        ensures
            *final(self) == (BootstrapChooserState { custom_location: custom_selection_of(probe), ..*old(self) }),
    {
        self.custom_location = match probe {
            CustomLocationProbe::ReadyToCreate { directory, config_path } => CustomLocationSelection::ReadyToCreate {
                directory,
                config_path,
            },
            CustomLocationProbe::ExistingValidConfig { directory, config_path } => CustomLocationSelection::ExistingConfig {
                directory,
                config_path,
            },
            CustomLocationProbe::ExistingInvalidConfig { directory, config_path, message } => CustomLocationSelection::InvalidConfig {
                directory,
                config_path,
                message,
            },
        };
    }

    pub open spec fn browse_enabled_spec(self) -> bool {
        self.selected_preset == BootstrapPreset::ExistingConfig || self.selected_preset == BootstrapPreset::CustomLocation
    }

    pub open spec fn rewrite_visible_spec(self) -> bool {
        self.existing_config is Invalid && self.selected_preset == BootstrapPreset::ExistingConfig
    }

    pub open spec fn confirm_enabled_spec(self, can_use_repo_development: bool) -> bool {
        match self.selected_preset {
            BootstrapPreset::DefaultConfig => true,
            BootstrapPreset::ExistingConfig => self.existing_config.valid_path_spec() is Some,
            BootstrapPreset::CustomLocation => self.custom_location.confirm_path_spec() is Some,
            BootstrapPreset::RepoDevelopment => can_use_repo_development,
        }
    }

    /// The selected preset needs a file or folder to be picked.
    pub fn browse_enabled(&self) -> (r: bool)
        ensures
            r == self.browse_enabled_spec(),
    {
        match self.selected_preset {
            BootstrapPreset::ExistingConfig | BootstrapPreset::CustomLocation => true,
            _ => false,
        }
    }

    /// The picked config file is invalid and may be rewritten.
    pub fn rewrite_visible(&self) -> (r: bool)
        ensures
            r == self.rewrite_visible_spec(),
    {
        let invalid = match self.existing_config {
            ExistingConfigSelection::Invalid { .. } => true,
            _ => false,
        };
        invalid && self.selected_preset == BootstrapPreset::ExistingConfig
    }

    /// The selected preset can be launched.
    pub fn confirm_enabled(&self, can_use_repo_development: bool) -> (r: bool)
        ensures
            r == self.confirm_enabled_spec(can_use_repo_development),
    {
        match self.selected_preset {
            BootstrapPreset::DefaultConfig => true,
            BootstrapPreset::ExistingConfig => self.existing_config.valid_path().is_some(),
            BootstrapPreset::CustomLocation => self.custom_location.confirm_path().is_some(),
            BootstrapPreset::RepoDevelopment => can_use_repo_development,
        }
    }

    /// The text explaining the selected preset, given the file name of the
    /// default config path.
    pub fn description_with_file_name(&self, chooser: &BootstrapChooserContext, file_name: Option<&str>) -> (d: String)
        ensures
            d@ == description_spec(*self, chooser.default_config_path@, opt_str_view(file_name)),
    {
        let name: &str = match file_name {
            Some(n) => n,
            None => "nooboard.toml",
        };
        match self.selected_preset {
            BootstrapPreset::DefaultConfig => concat2(
                "Create a default config and start nooboard.\n",
                chooser.default_config_path.as_str(),
            ),
            BootstrapPreset::ExistingConfig => match &self.existing_config {
                ExistingConfigSelection::Unselected => concat3("Choose an existing ", name, " file to use for this run."),
                ExistingConfigSelection::Valid { path } => concat2(
                    "Selected config will be used for this run.\n",
                    path.as_str(),
                ),
                ExistingConfigSelection::Invalid { path, message } => {
                    let mut s = concat3(
                        "Selected file is not a valid nooboard config.\n",
                        path.as_str(),
                        "\n",
                    );
                    s.append(message.as_str());
                    s
                },
            },
            BootstrapPreset::CustomLocation => match &self.custom_location {
                CustomLocationSelection::Unselected => concat3(
                    "Choose a folder. nooboard will create ",
                    name,
                    " there if needed.",
                ),
                CustomLocationSelection::ReadyToCreate { directory, config_path } => {
                    let mut s = concat3(
                        "A new config will be created in the selected folder.\n",
                        directory.as_str(),
                        "\n",
                    );
                    s.append(config_path.as_str());
                    s
                },
                CustomLocationSelection::ExistingConfig { directory, config_path } => {
                    let mut s = concat3(
                        "The selected folder already contains a valid config and it will be reused.\n",
                        directory.as_str(),
                        "\n",
                    );
                    s.append(config_path.as_str());
                    s
                },
                CustomLocationSelection::InvalidConfig { directory, config_path, message } => {
                    let mut s = concat3(
                        "The selected folder already contains an invalid ",
                        name,
                        ". Choose another folder.\n",
                    );
                    s.append(directory.as_str());
                    s.append("\n");
                    s.append(config_path.as_str());
                    s.append("\n");
                    s.append(message.as_str());
                    s
                },
            },
            BootstrapPreset::RepoDevelopment => String::from_str(
                "Use the repository-local development setup for this run.",
            ),
        }
    }

    /// The text explaining the selected preset.
    pub fn description(&self, chooser: &BootstrapChooserContext) -> (d: String)
        ensures
            exists|file_name: Option<Seq<char>>|
                possible_file_name(chooser.default_config_path@, file_name)
                && d@ == #[trigger] description_spec(*self, chooser.default_config_path@, file_name),
            is_plain_path(chooser.default_config_path@) ==> d@ == description_spec(
                *self,
                chooser.default_config_path@,
                plain_file_name(chooser.default_config_path@),
            ),
    {
        let file_name = path_file_name(chooser.default_config_path.as_str());
        let d = match &file_name {
            Some(n) => self.description_with_file_name(chooser, Some(n.as_str())),
            None => self.description_with_file_name(chooser, None),
        };
        proof {
            let f = match file_name {
                Some(n) => Some(n@),
                None => None,
            };
            assert(possible_file_name(chooser.default_config_path@, f));
            assert(d@ == description_spec(*self, chooser.default_config_path@, f));
        }
        d
    }
}

} // verus!
