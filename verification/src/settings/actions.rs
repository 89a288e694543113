//! The steps of the settings page's actions: what a save says when it
//! starts and what its outcome leaves, and what a reset or a copy says.
use vstd::prelude::*;

use crate::text::{parse_u16_spec, trim_seq};
use super::derived::{connection_settings_input, ApplyConnectionSettingsInput};
use super::state::{
    ConnectionInputValues, SettingsConnectionViewState, SettingsPageState, SettingsPageView, SettingsSectionKey,
};

verus! {

broadcast use vstd::string::group_string_axioms;

/// The section's name inside a sentence, e.g. "connection".
pub open spec fn section_noun(key: SettingsSectionKey) -> Seq<char> {
    match key {
        SettingsSectionKey::Connection => "connection"@,
        SettingsSectionKey::Clipboard => "clipboard"@,
        SettingsSectionKey::Transfers => "transfer"@,
        SettingsSectionKey::Storage => "storage"@,
    }
}

/// The section's name at the start of a sentence, e.g. "Connection".
pub open spec fn section_title(key: SettingsSectionKey) -> Seq<char> {
    match key {
        SettingsSectionKey::Connection => "Connection"@,
        SettingsSectionKey::Clipboard => "Clipboard"@,
        SettingsSectionKey::Transfers => "Transfer"@,
        SettingsSectionKey::Storage => "Storage"@,
    }
}

fn noun(key: SettingsSectionKey) -> (n: &'static str)
    ensures
        n@ == section_noun(key),
{
    match key {
        SettingsSectionKey::Connection => "connection",
        SettingsSectionKey::Clipboard => "clipboard",
        SettingsSectionKey::Transfers => "transfer",
        SettingsSectionKey::Storage => "storage",
    }
}

fn title(key: SettingsSectionKey) -> (t: &'static str)
    ensures
        t@ == section_title(key),
{
    match key {
        SettingsSectionKey::Connection => "Connection",
        SettingsSectionKey::Clipboard => "Clipboard",
        SettingsSectionKey::Transfers => "Transfer",
        SettingsSectionKey::Storage => "Storage",
    }
}

fn concat2(a: &str, b: &str) -> (r: String)
    ensures
        r@ == a@ + b@,
{
    let mut s = String::from_str(a);
    s.append(b);
    s
}

fn concat3(a: &str, b: &str, c: &str) -> (r: String)
    ensures
        r@ == a@ + b@ + c@,
{
    let mut s = String::from_str(a);
    s.append(b);
    s.append(c);
    s
}

impl SettingsPageState {
    /// A save or reset was asked for before the workspace had settings.
    pub fn report_settings_loading(&mut self)
        ensures
            final(self)@ == (SettingsPageView {
                applying: None,
                feedback: Some("Settings are still loading."@),
                ..old(self)@
            }),
    {
        self.fail_apply(String::from_str("Settings are still loading."));
    }

    /// A section's draft was discarded.
    pub fn report_section_restored(&mut self, key: SettingsSectionKey)
        ensures
            final(self)@ == (SettingsPageView {
                feedback: Some(section_title(key) + " settings restored."@),
                ..old(self)@
            }),
    {
        self.set_feedback(concat2(title(key), " settings restored."));
    }

    /// The config file path was put on the clipboard.
    pub fn report_config_path_copied(&mut self)
        ensures
            final(self)@ == (SettingsPageView { feedback: Some("Config file path copied."@), ..old(self)@ }),
    {
        self.set_feedback(String::from_str("Config file path copied."));
    }

    /// Saving a section starts.
    pub fn begin_section_save(&mut self, key: SettingsSectionKey)
        ensures
            final(self)@ == (SettingsPageView {
                applying: Some(key),
                feedback: Some("Saving "@ + section_noun(key) + " settings."@),
                ..old(self)@
            }),
    {
        self.begin_apply(key, concat3("Saving ", noun(key), " settings."));
    }

    /// The save step of the connection section, given the field texts, the
    /// workspace's connection settings (none before they are loaded) and
    /// whether there is a service to send the save to. Without settings or a
    /// service the save is refused as still loading; with a port that is not
    /// a number from 0 to 65535 it is refused as such. Otherwise the section
    /// is marked saving and what the save sends is returned: the trimmed
    /// texts, the port, the draft's LAN flag, and the values they replace.
    pub fn begin_connection_save(
        &mut self,
        values: &ConnectionInputValues,
        page: Option<&SettingsConnectionViewState>,
        service_ready: bool,
    ) -> (r: Option<ApplyConnectionSettingsInput>)
        ensures
            ({
                let parsed = parse_u16_spec(trim_seq(values.listen_port@));
                &&& page is None ==> r is None && final(self)@ == (SettingsPageView {
                    applying: None,
                    feedback: Some("Settings are still loading."@),
                    ..old(self)@
                })
                &&& page is Some && parsed is None ==> r is None && final(self)@ == (SettingsPageView {
                    applying: None,
                    feedback: Some("Port must be a valid number."@),
                    ..old(self)@
                })
                &&& page is Some && parsed is Some && !service_ready ==> r is None && final(self)@
                    == (SettingsPageView {
                    applying: None,
                    feedback: Some("Settings are still loading."@),
                    ..old(self)@
                })
                &&& page is Some && parsed is Some && service_ready ==> {
                    let p = page->0;
                    let port = parsed->0;
                    &&& r matches Some(input) && {
                        &&& input.device_id@ == trim_seq(values.device_id@)
                        &&& input.token@ == trim_seq(values.token@)
                        &&& input.listen_port == port
                        &&& input.lan_enabled == old(self)@.connection.lan_enabled
                        &&& input.current_device_id@ == p.device_id@
                        &&& input.current_token@ == p.token@
                        &&& input.current_listen_port == p.listen_port
                        &&& input.current_lan_enabled == p.lan_enabled
                    }
                    &&& final(self)@ == (SettingsPageView {
                        applying: Some(SettingsSectionKey::Connection),
                        feedback: Some("Saving connection settings."@),
                        ..old(self)@
                    })
                }
            }),
    {
        let page = match page {
            Some(page) => page,
            None => {
                self.report_settings_loading();
                return None;
            },
        };
        let input = match connection_settings_input(values, self.lan_enabled(), page) {
            Ok(input) => input,
            Err(message) => {
                self.fail_apply(message);
                return None;
            },
        };
        if !service_ready {
            self.report_settings_loading();
            return None;
        }
        self.begin_apply(SettingsSectionKey::Connection, String::from_str("Saving connection settings."));
        Some(input)
    }

    /// Saving a section ended.
    pub fn finish_section_save(&mut self, key: SettingsSectionKey, result: Result<(), String>)
        ensures
            final(self)@ == (SettingsPageView {
                applying: None,
                feedback: Some(
                    match result {
                        Ok(()) => section_title(key) + " settings saved."@,
                        Err(e) => "Couldn't save "@ + section_noun(key) + " settings"@ + ": "@ + e@,
                    },
                ),
                ..old(self)@
            }),
    {
        match &result {
            Ok(()) => self.finish_apply(concat2(title(key), " settings saved.")),
            Err(e) => {
                let mut message = concat3("Couldn't save ", noun(key), " settings");
                message.append(": ");
                message.append(e.as_str());
                self.fail_apply(message);
            },
        }
    }
}

} // verus!
