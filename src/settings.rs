use vstd::prelude::*;
use vstd::string::StringExecFns;

verus! {

/// The colour theme of the user interface.
#[derive(Debug)]
pub struct Theme {
    pub mode: String,
    pub accent_color: String,
}

/// The user's settings.
#[derive(Debug)]
pub struct Settings {
    pub theme: Theme,
    pub notifications: bool,
    pub sound: bool,
    pub language: String,
}

/// Settings as a mathematical value.
pub struct SettingsView {
    pub mode: Seq<char>,
    pub accent_color: Seq<char>,
    pub notifications: bool,
    pub sound: bool,
    pub language: Seq<char>,
}

impl View for Settings {
    type V = SettingsView;

    open spec fn view(&self) -> SettingsView {
        SettingsView {
            mode: self.theme.mode@,
            accent_color: self.theme.accent_color@,
            notifications: self.notifications,
            sound: self.sound,
            language: self.language@,
        }
    }
}

/// The settings that are always reported: nothing stores others.
pub open spec fn fixed_settings() -> SettingsView {
    SettingsView {
        mode: "auto"@,
        accent_color: "#6366F1"@,
        notifications: true,
        sound: true,
        language: "zh-CN"@,
    }
}

/// The greeting for `name`.
pub open spec fn greeting(name: Seq<char>) -> Seq<char> {
    "Hello, "@ + name + "! Welcome to Coworker!"@
}

/// The placeholder document that export produces.
pub open spec fn export_document() -> Seq<char> {
    "{\"exported\":true}"@
}

/// Greets `name` by name.
pub fn greet(name: &str) -> (r: String)
    ensures
        r@ == greeting(name@),
{
    let r = String::from_str("Hello, ").concat(name).concat("! Welcome to Coworker!");
    r
}

/// The user's settings. They are fixed: no call changes them.
pub fn get_settings() -> (r: Result<Settings, String>)
    ensures
        r matches Ok(s) && s@ == fixed_settings(),
{
    Ok(
        Settings {
            theme: Theme {
                mode: String::from_str("auto"),
                accent_color: String::from_str("#6366F1"),
            },
            notifications: true,
            sound: true,
            language: String::from_str("zh-CN"),
        },
    )
}

/// Accepts new settings. They are not stored; success is always reported.
pub fn update_settings(_settings: serde_json::Value) -> (r: Result<bool, String>)
    ensures
        r == Ok::<bool, String>(true),
{
    Ok(true)
}

/// Exports the user's data as a JSON document; for now a fixed placeholder that does
/// not depend on the store.
pub fn export_data() -> (r: Result<String, String>)
    ensures
        r matches Ok(s) && s@ == export_document(),
{
    Ok(String::from_str("{\"exported\":true}"))
}

/// Imports data from the file at `_file_path`. The file is not read; success is
/// always reported.
pub fn import_data(_file_path: &str) -> (r: Result<bool, String>)
    ensures
        r == Ok::<bool, String>(true),
{
    Ok(true)
}

} // verus!
