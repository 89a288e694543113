use nooboard_gui::bootstrap::controller::{BootstrapController, LaunchRequest};
use nooboard_gui::bootstrap::state::{
    BootstrapChooserContext, BootstrapChooserReason, BootstrapChooserState, BootstrapPreset, CustomLocationProbe,
    CustomLocationSelection, ExistingConfigProbe, ExistingConfigSelection,
};
use nooboard_gui::cli::GuiCli;
use nooboard_gui::bootstrap::layout::{browse_target, chooser_layout, BrowseTarget};

fn context(reason: BootstrapChooserReason) -> BootstrapChooserContext {
    BootstrapChooserContext { reason, default_config_path: "/home/me/.config/nooboard/nooboard.toml".to_string() }
}

#[test]
fn preset_titles() {
    assert_eq!(BootstrapPreset::DefaultConfig.title(), "Use default configuration");
    assert_eq!(BootstrapPreset::ExistingConfig.title(), "Use existing config");
    assert_eq!(BootstrapPreset::CustomLocation.title(), "Create config in custom location");
    assert_eq!(BootstrapPreset::RepoDevelopment.title(), "Use local development setup");
}

#[test]
fn existing_selection_paths() {
    assert_eq!(ExistingConfigSelection::Unselected.path(), None);
    let valid = ExistingConfigSelection::Valid { path: "/a.toml".to_string() };
    assert_eq!(valid.path(), Some("/a.toml"));
    assert_eq!(valid.valid_path(), Some("/a.toml"));
    let invalid = ExistingConfigSelection::Invalid { path: "/b.toml".to_string(), message: "bad".to_string() };
    assert_eq!(invalid.path(), Some("/b.toml"));
    assert_eq!(invalid.valid_path(), None);
}

#[test]
fn custom_selection_paths() {
    assert_eq!(CustomLocationSelection::Unselected.confirm_path(), None);
    assert_eq!(CustomLocationSelection::Unselected.directory(), None);
    let ready = CustomLocationSelection::ReadyToCreate { directory: "/d".to_string(), config_path: "/d/n.toml".to_string() };
    assert_eq!(ready.confirm_path(), Some("/d/n.toml"));
    assert_eq!(ready.directory(), Some("/d"));
    let existing =
        CustomLocationSelection::ExistingConfig { directory: "/e".to_string(), config_path: "/e/n.toml".to_string() };
    assert_eq!(existing.confirm_path(), Some("/e/n.toml"));
    let invalid = CustomLocationSelection::InvalidConfig {
        directory: "/f".to_string(),
        config_path: "/f/n.toml".to_string(),
        message: "bad".to_string(),
    };
    assert_eq!(invalid.confirm_path(), None);
    assert_eq!(invalid.directory(), Some("/f"));
}

#[test]
fn chooser_enables_by_preset() {
    let mut state = BootstrapChooserState::default();
    assert_eq!(state.selected_preset, BootstrapPreset::DefaultConfig);
    assert!(state.confirm_enabled(false));
    assert!(!state.browse_enabled());
    assert!(!state.rewrite_visible());

    state.select_preset(BootstrapPreset::ExistingConfig);
    assert!(state.browse_enabled());
    assert!(!state.confirm_enabled(true));
    state.set_existing_config_probe(ExistingConfigProbe::Invalid {
        path: "/x.toml".to_string(),
        message: "version".to_string(),
    });
    assert!(state.rewrite_visible());
    assert!(!state.confirm_enabled(true));
    state.set_existing_config_probe(ExistingConfigProbe::Valid { path: "/x.toml".to_string() });
    assert!(state.confirm_enabled(false));

    state.select_preset(BootstrapPreset::CustomLocation);
    assert!(state.browse_enabled());
    assert!(!state.rewrite_visible());
    assert!(!state.confirm_enabled(true));
    state.set_custom_location_probe(CustomLocationProbe::ReadyToCreate {
        directory: "/d".to_string(),
        config_path: "/d/nooboard.toml".to_string(),
    });
    assert!(state.confirm_enabled(false));

    state.select_preset(BootstrapPreset::RepoDevelopment);
    assert!(!state.confirm_enabled(false));
    assert!(state.confirm_enabled(true));
}

#[test]
fn description_texts() {
    let ctx = context(BootstrapChooserReason::MissingDefaultConfig);
    let mut state = BootstrapChooserState::default();
    assert_eq!(
        state.description_with_file_name(&ctx, Some("nooboard.toml")),
        "Create a default config and start nooboard.\n/home/me/.config/nooboard/nooboard.toml"
    );
    state.select_preset(BootstrapPreset::ExistingConfig);
    assert_eq!(
        state.description_with_file_name(&ctx, Some("custom.toml")),
        "Choose an existing custom.toml file to use for this run."
    );
    assert_eq!(
        state.description_with_file_name(&ctx, None),
        "Choose an existing nooboard.toml file to use for this run."
    );
    state.set_existing_config_probe(ExistingConfigProbe::Invalid {
        path: "/x.toml".to_string(),
        message: "missing field".to_string(),
    });
    assert_eq!(
        state.description_with_file_name(&ctx, None),
        "Selected file is not a valid nooboard config.\n/x.toml\nmissing field"
    );
    state.select_preset(BootstrapPreset::CustomLocation);
    state.set_custom_location_probe(CustomLocationProbe::ExistingInvalidConfig {
        directory: "/d".to_string(),
        config_path: "/d/nooboard.toml".to_string(),
        message: "oops".to_string(),
    });
    assert_eq!(
        state.description_with_file_name(&ctx, Some("nooboard.toml")),
        "The selected folder already contains an invalid nooboard.toml. Choose another folder.\n/d\n/d/nooboard.toml\noops"
    );
    state.select_preset(BootstrapPreset::RepoDevelopment);
    assert_eq!(
        state.description(&ctx),
        "Use the repository-local development setup for this run."
    );
}

#[test]
fn description_uses_file_name_of_default_path() {
    let ctx = BootstrapChooserContext {
        reason: BootstrapChooserReason::ExplicitChooserRequest,
        default_config_path: "/etc/nooboard/main.toml".to_string(),
    };
    let mut state = BootstrapChooserState::default();
    state.select_preset(BootstrapPreset::CustomLocation);
    assert_eq!(state.description(&ctx), "Choose a folder. nooboard will create main.toml there if needed.");
}

#[test]
fn controller_titles_follow_reason() {
    let c = BootstrapController::new(context(BootstrapChooserReason::ExplicitChooserRequest), false);
    assert_eq!(c.view_state().chooser_title, "Choose Configuration");
    let c = BootstrapController::new(context(BootstrapChooserReason::MissingDefaultConfig), false);
    assert_eq!(c.view_state().chooser_title, "Missing Default Config");
    let c = BootstrapController::new(context(BootstrapChooserReason::DefaultConfigVersionMismatch), false);
    assert_eq!(c.view_state().chooser_title, "Update Configuration");
}

#[test]
fn one_action_at_a_time() {
    let mut c = BootstrapController::new(context(BootstrapChooserReason::MissingDefaultConfig), true);
    assert!(c.begin_action());
    assert!(!c.begin_action());
    let v = c.view_state();
    assert!(v.launch_in_flight);
    assert!(!v.confirm_enabled);
    assert!(!v.browse_enabled);
    assert_eq!(c.begin_confirm_selection(), None);
    c.end_action();
    assert!(c.begin_action());
}

#[test]
fn confirm_default_asks_for_default_launch() {
    let mut c = BootstrapController::new(context(BootstrapChooserReason::MissingDefaultConfig), false);
    assert_eq!(c.begin_confirm_selection(), Some(LaunchRequest::DefaultConfig));
    assert!(c.view_state().launch_in_flight);
    c.finish_confirm_selection(Err("disk full".to_string()));
    let v = c.view_state();
    assert!(!v.launch_in_flight);
    assert_eq!(v.feedback, Some("disk full".to_string()));
    assert!(c.take_launch_sender());
    assert!(!c.take_launch_sender());
    assert!(!c.begin_action());
}

#[test]
fn confirm_without_choice_ends_at_once() {
    let mut c = BootstrapController::new(context(BootstrapChooserReason::MissingDefaultConfig), false);
    c.set_selected_preset(BootstrapPreset::ExistingConfig);
    assert_eq!(c.begin_confirm_selection(), None);
    assert!(!c.view_state().launch_in_flight);
    c.set_selected_preset(BootstrapPreset::RepoDevelopment);
    assert_eq!(c.begin_confirm_selection(), None);
    assert!(c.begin_action());
}

#[test]
fn existing_config_flow() {
    let mut c = BootstrapController::new(context(BootstrapChooserReason::DefaultConfigVersionMismatch), false);
    c.set_selected_preset(BootstrapPreset::ExistingConfig);
    assert_eq!(c.selected_preset(), BootstrapPreset::ExistingConfig);
    assert_eq!(c.begin_rewrite_existing_config(), None);
    c.apply_existing_config_selection("/old.toml".to_string(), Err("unreadable".to_string()));
    let v = c.view_state_with_file_name(Some("nooboard.toml"));
    assert_eq!(v.description, "Selected file is not a valid nooboard config.\n/old.toml\nunreadable");
    assert!(v.rewrite_visible);
    assert!(v.rewrite_enabled);
    assert_eq!(c.begin_rewrite_existing_config(), Some("/old.toml".to_string()));
    assert!(!c.view_state().rewrite_enabled);
    c.finish_rewrite_existing_config(Ok("/old.toml".to_string()));
    let v = c.view_state();
    assert_eq!(v.feedback, Some("Configuration file rewritten successfully.".to_string()));
    assert!(v.confirm_enabled);
    assert_eq!(
        c.begin_confirm_selection(),
        Some(LaunchRequest::ExistingConfig { path: "/old.toml".to_string() })
    );
    // starting the launch cleared the feedback
    c.finish_confirm_selection(Ok(()));
    assert_eq!(c.view_state().feedback, None);
    assert!(!c.view_state().launch_in_flight);
}

#[test]
fn custom_location_flow() {
    let mut c = BootstrapController::new(context(BootstrapChooserReason::MissingDefaultConfig), false);
    c.set_selected_preset(BootstrapPreset::CustomLocation);
    c.apply_custom_location_selection("/data".to_string(), Err("denied".to_string()));
    let v = c.view_state_with_file_name(Some("nooboard.toml"));
    assert_eq!(
        v.description,
        "The selected folder already contains an invalid nooboard.toml. Choose another folder.\n/data\n/home/me/.config/nooboard/nooboard.toml\ndenied"
    );
    // an unusable folder still launches with that folder
    assert_eq!(
        c.begin_confirm_selection(),
        Some(LaunchRequest::CustomLocation { directory: "/data".to_string() })
    );
    c.finish_confirm_selection(Ok(()));
    c.apply_custom_location_selection(
        "/data".to_string(),
        Ok(CustomLocationProbe::ExistingValidConfig {
            directory: "/data".to_string(),
            config_path: "/data/nooboard.toml".to_string(),
        }),
    );
    let v = c.view_state_with_file_name(None);
    assert_eq!(
        v.description,
        "The selected folder already contains a valid config and it will be reused.\n/data\n/data/nooboard.toml"
    );
}

#[test]
fn quit_closes_the_window() {
    let mut c = BootstrapController::new(context(BootstrapChooserReason::MissingDefaultConfig), true);
    assert!(c.can_use_repo_development());
    c.begin_action();
    c.quit();
    assert!(!c.view_state().launch_in_flight);
    assert!(!c.begin_action());
    assert!(!c.take_launch_sender());
}

#[test]
fn cli_forms_bootstrap_request() {
    let cli = GuiCli { choose_config: true, config: Some("/c.toml".to_string()), dev: false };
    let request = cli.bootstrap_request();
    assert!(request.cli_choose_config);
    assert_eq!(request.cli_config_path, Some("/c.toml".to_string()));
    assert!(!request.cli_use_repo_dev);
}

#[test]
fn chooser_layout_lists_presets_and_buttons() {
    let c = BootstrapController::new(context(BootstrapChooserReason::MissingDefaultConfig), false);
    let l = chooser_layout(&c.view_state());
    assert_eq!(
        l.presets,
        vec![BootstrapPreset::DefaultConfig, BootstrapPreset::ExistingConfig, BootstrapPreset::CustomLocation]
    );
    assert_eq!(l.preset_title, "Use default configuration");
    assert_eq!(l.repo_development_line, "Repo development preset: unavailable");
    assert!(!l.browse_shown);
    assert!(!l.rewrite_shown);
    assert!(!l.confirm_disabled);
    assert!(!l.quit_disabled);

    let mut c = BootstrapController::new(context(BootstrapChooserReason::MissingDefaultConfig), true);
    c.set_selected_preset(BootstrapPreset::ExistingConfig);
    c.apply_existing_config_selection(
        "/bad.toml".to_string(),
        Ok(ExistingConfigProbe::Invalid { path: "/bad.toml".to_string(), message: "old".to_string() }),
    );
    let l = chooser_layout(&c.view_state());
    assert_eq!(l.presets.len(), 4);
    assert_eq!(l.repo_development_line, "Repo development preset: available");
    assert!(l.browse_shown);
    assert!(l.rewrite_shown);
    assert!(!l.rewrite_disabled);
    assert!(l.confirm_disabled);
    c.begin_rewrite_existing_config();
    let l = chooser_layout(&c.view_state());
    assert!(l.rewrite_disabled);
    assert!(l.quit_disabled);

    assert_eq!(browse_target(BootstrapPreset::ExistingConfig), Some(BrowseTarget::ExistingConfig));
    assert_eq!(browse_target(BootstrapPreset::CustomLocation), Some(BrowseTarget::CustomLocation));
    assert_eq!(browse_target(BootstrapPreset::DefaultConfig), None);
    assert_eq!(browse_target(BootstrapPreset::RepoDevelopment), None);
}

#[test]
fn description_names_default_file_when_path_has_none() {
    let ctx = BootstrapChooserContext {
        reason: BootstrapChooserReason::ExplicitChooserRequest,
        default_config_path: "/".to_string(),
    };
    let mut state = BootstrapChooserState::default();
    state.select_preset(BootstrapPreset::ExistingConfig);
    assert_eq!(state.description(&ctx), "Choose an existing nooboard.toml file to use for this run.");
}

#[test]
fn description_texts_of_alt_default_path() {
    let ctx = BootstrapChooserContext {
        reason: BootstrapChooserReason::ExplicitChooserRequest,
        default_config_path: "/cfg/alt.toml".to_string(),
    };
    let mut state = BootstrapChooserState::default();
    state.select_preset(BootstrapPreset::ExistingConfig);
    assert_eq!(state.description(&ctx), "Choose an existing alt.toml file to use for this run.");
    state.select_preset(BootstrapPreset::DefaultConfig);
    assert_eq!(state.description(&ctx), "Create a default config and start nooboard.\n/cfg/alt.toml");
    state.select_preset(BootstrapPreset::RepoDevelopment);
    assert_eq!(state.description(&ctx), "Use the repository-local development setup for this run.");
}

#[test]
fn window_description_is_the_chooser_description() {
    let ctx = BootstrapChooserContext {
        reason: BootstrapChooserReason::MissingDefaultConfig,
        default_config_path: "/cfg/alt.toml".to_string(),
    };
    let c = BootstrapController::new(ctx.clone(), false);
    assert_eq!(c.view_state().description, BootstrapChooserState::default().description(&ctx));
}
