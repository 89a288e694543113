//! Command-line options of the desktop client and the bootstrap request they form.
use vstd::prelude::*;

verus! {

/// The command-line options.
#[derive(Clone, Debug)]
pub struct GuiCli {
    /// Show the configuration chooser even when a config exists.
    pub choose_config: bool,
    /// Use this config file.
    pub config: Option<String>,
    /// Use the repository-local development setup.
    pub dev: bool,
}

/// What the core is asked to resolve at start-up.
#[derive(Clone, Debug)]
pub struct BootstrapRequest {
    pub cli_choose_config: bool,
    pub cli_config_path: Option<String>,
    pub cli_use_repo_dev: bool,
}

impl GuiCli {
    /// The bootstrap request the options form.
    pub fn bootstrap_request(&self) -> (r: BootstrapRequest)
        ensures
            r.cli_choose_config == self.choose_config,
            r.cli_config_path == self.config,
            r.cli_use_repo_dev == self.dev,
    {
        BootstrapRequest {
            cli_choose_config: self.choose_config,
            cli_config_path: match &self.config {
                Some(path) => Some(path.clone()),
                None => None,
            },
            cli_use_repo_dev: self.dev,
        }
    }
}

} // verus!
