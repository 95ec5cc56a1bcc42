//! User preferences and the error that storing them can give.

use vstd::prelude::*;
use vstd::std_specs::convert::FromSpecImpl;
use vstd::string::StringExecFns;

verus! {

/// How to reach the Home Assistant server.
#[derive(Clone, Debug, PartialEq, Eq, Hash)]
pub struct HomeAssistantSettings {
    pub access_token: String,
    pub host: String,
    pub port: u16,
    pub ssl: bool,
}

/// What the tray icon does.
#[derive(Clone, Debug, PartialEq, Eq, Hash)]
pub struct TraySettings {
    /// The key of the action that a double click on the icon runs.
    pub double_click_action: String,
}

/// The preferences as they are stored. A document may lack `tray`; a value
/// that [`Settings::backfilled`] returned never does.
#[derive(Clone, Debug, PartialEq, Eq, Hash)]
pub struct Settings {
    pub autostart: bool,
    pub home_assistant: HomeAssistantSettings,
    pub tray: Option<TraySettings>,
}

/// The mathematical value of [`HomeAssistantSettings`].
pub struct HomeAssistantModel {
    pub access_token: Seq<char>,
    pub host: Seq<char>,
    pub port: u16,
    pub ssl: bool,
}

/// The mathematical value of [`TraySettings`].
pub struct TrayModel {
    pub double_click_action: Seq<char>,
}

/// The mathematical value of [`Settings`].
pub struct SettingsModel {
    pub autostart: bool,
    pub home_assistant: HomeAssistantModel,
    pub tray: Option<TrayModel>,
}

impl View for HomeAssistantSettings {
    type V = HomeAssistantModel;

    open spec fn view(&self) -> HomeAssistantModel {
        HomeAssistantModel {
            access_token: self.access_token@,
            host: self.host@,
            port: self.port,
            ssl: self.ssl,
        }
    }
}

impl View for TraySettings {
    type V = TrayModel;

    open spec fn view(&self) -> TrayModel {
        TrayModel { double_click_action: self.double_click_action@ }
    }
}

impl View for Settings {
    type V = SettingsModel;

    open spec fn view(&self) -> SettingsModel {
        SettingsModel {
            autostart: self.autostart,
            home_assistant: self.home_assistant@,
            tray: match self.tray {
                Some(tray) => Some(tray@),
                None => None,
            },
        }
    }
}

/// The tray preference of a document that states none: a double click
/// toggles the window.
pub open spec fn default_tray() -> TrayModel {
    TrayModel { double_click_action: "toggle_window"@ }
}

/// The server that a fresh installation points at.
pub open spec fn default_home_assistant() -> HomeAssistantModel {
    HomeAssistantModel {
        access_token: Seq::empty(),
        host: "homeassistant.local"@,
        port: 8123,
        ssl: false,
    }
}

/// The preferences of a fresh installation.
pub open spec fn default_settings() -> SettingsModel {
    SettingsModel {
        autostart: false,
        home_assistant: default_home_assistant(),
        tray: Some(default_tray()),
    }
}

/// `settings` with a missing tray preference filled in.
pub open spec fn backfill(settings: SettingsModel) -> SettingsModel {
    SettingsModel {
        autostart: settings.autostart,
        home_assistant: settings.home_assistant,
        tray: match settings.tray {
            Some(tray) => Some(tray),
            None => Some(default_tray()),
        },
    }
}

impl Default for TraySettings {
    fn default() -> (tray: TraySettings)
        ensures
            tray@ == default_tray(),
    {
        TraySettings { double_click_action: String::from_str("toggle_window") }
    }
}

impl Default for HomeAssistantSettings {
    fn default() -> (server: HomeAssistantSettings)
        ensures
            server@ == default_home_assistant(),
    {
        HomeAssistantSettings {
            access_token: String::new(),
            host: String::from_str("homeassistant.local"),
            port: 8123,
            ssl: false,
        }
    }
}

impl Default for Settings {
    fn default() -> (settings: Settings)
        ensures
            settings@ == default_settings(),
    {
        Settings {
            autostart: false,
            home_assistant: HomeAssistantSettings::default(),
            tray: Some(TraySettings::default()),
        }
    }
}

impl Settings {
    /// The value with a missing tray preference filled in by the default.
    /// Nothing else changes, and a stated preference is kept as it is.
    pub fn backfilled(self) -> (complete: Settings)
        ensures
            complete@ == backfill(self@),
    {
        let Settings { autostart, home_assistant, tray } = self;
        let tray = match tray {
            Some(tray) => tray,
            None => TraySettings::default(),
        };
        Settings { autostart, home_assistant, tray: Some(tray) }
    }
}

/// A storage failure as the caller of a command sees it.
#[derive(Clone, Debug, PartialEq, Eq, Hash)]
pub struct CommandError {
    /// What went wrong, for a human reader.
    pub message: String,
}

impl View for CommandError {
    type V = Seq<char>;

    open spec fn view(&self) -> Seq<char> {
        self.message@
    }
}

impl CommandError {
    /// The failure that `message` describes.
    pub fn new(message: String) -> (error: CommandError)
        ensures
            error.message == message,
    {
        CommandError { message }
    }
}

#[verifier::external_type_specification]
#[verifier::external_body]
pub struct ExJsonError(serde_json::Error);

impl From<serde_json::Error> for CommandError {
    /// The failure whose message is the text that the JSON error displays.
    fn from(error: serde_json::Error) -> (failure: CommandError)
        ensures
            vstd::string::to_string_from_display_ensures::<serde_json::Error>(
                &error,
                failure.message,
            ),
    {
        CommandError::new(error.to_string())
    }
}

impl FromSpecImpl<serde_json::Error> for CommandError {
    open spec fn obeys_from_spec() -> bool {
        false
    }

    open spec fn from_spec(error: serde_json::Error) -> CommandError {
        arbitrary()
    }
}

/// Back-filling gives a value with a tray preference, keeps a stated one,
/// and changes nothing when applied again.
pub proof fn backfill_completes(settings: SettingsModel)
    ensures
        backfill(settings).tray is Some,
        settings.tray is Some ==> backfill(settings) == settings,
        settings.tray is None ==> backfill(settings).tray == Some(default_tray()),
        backfill(backfill(settings)) == backfill(settings),
        backfill(settings).autostart == settings.autostart,
        backfill(settings).home_assistant == settings.home_assistant,
{
}

} // verus!
