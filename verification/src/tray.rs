//! The tray icon: its menu, and the action behind each click.

use crate::action::Action;
use crate::settings::{Settings, SettingsModel};
use crate::text::same_text;
use vstd::prelude::*;
use vstd::string::StringExecFns;

verus! {

/// One line of the tray menu.
#[derive(Clone, Debug, PartialEq, Eq, Hash)]
pub enum MenuEntry {
    /// A line that can be clicked; a click reports `id`.
    Item { id: String, title: String },
    /// A line that separates groups of items.
    Separator,
}

/// The mathematical value of a [`MenuEntry`].
pub enum MenuEntryModel {
    Item { id: Seq<char>, title: Seq<char> },
    Separator,
}

impl View for MenuEntry {
    type V = MenuEntryModel;

    open spec fn view(&self) -> MenuEntryModel {
        match *self {
            MenuEntry::Item { id, title } => MenuEntryModel::Item { id: id@, title: title@ },
            MenuEntry::Separator => MenuEntryModel::Separator,
        }
    }
}

/// The mathematical value of a menu.
pub open spec fn menu_view(entries: Seq<MenuEntry>) -> Seq<MenuEntryModel> {
    Seq::new(entries.len(), |i: int| entries[i]@)
}

/// The menu of the tray icon. Only the title of the update item varies: it
/// shows the running `version`.
pub open spec fn tray_menu_model(version: Seq<char>) -> Seq<MenuEntryModel> {
    seq![
        MenuEntryModel::Item { id: "toggle_window"@, title: "Show/Hide Window (Ctrl+Alt+A)"@ },
        MenuEntryModel::Item {
            id: "trigger_voice_pipeline"@,
            title: "Trigger Voice Pipeline (Ctrl+Shift+A)"@,
        },
        MenuEntryModel::Separator,
        MenuEntryModel::Item { id: "open_settings"@, title: "Settings"@ },
        MenuEntryModel::Item { id: "open_logs_directory"@, title: "Open Logs"@ },
        MenuEntryModel::Separator,
        MenuEntryModel::Item {
            id: "check_for_updates"@,
            title: "Check for Updates ("@ + version + ")"@,
        },
        MenuEntryModel::Separator,
        MenuEntryModel::Item { id: "quit_application"@, title: "Quit"@ },
    ]
}

/// The action behind the menu item `id`; `None` for an id that no item of
/// the menu has.
pub open spec fn menu_action_of(id: Seq<char>) -> Option<Action> {
    if id == "toggle_window"@ {
        Some(Action::ToggleWindow)
    } else if id == "trigger_voice_pipeline"@ {
        Some(Action::TriggerPipeline)
    } else if id == "open_settings"@ {
        Some(Action::OpenSettings)
    } else if id == "open_logs_directory"@ {
        Some(Action::OpenLogsDirectory)
    } else if id == "check_for_updates"@ {
        Some(Action::CheckUpdates)
    } else if id == "quit_application"@ {
        Some(Action::Quit)
    } else {
        None
    }
}

/// The action that a double click on the tray icon runs under `settings`.
///
/// Settings without a tray preference toggle the window. A preference is
/// honoured where it names the toggle or the voice pipeline; any other
/// preference makes the double click do nothing.
pub open spec fn double_click_action_of(settings: SettingsModel) -> Option<Action> {
    let key = match settings.tray {
        Some(tray) => tray.double_click_action,
        None => "toggle_window"@,
    };
    if key == "toggle_window"@ {
        Some(Action::ToggleWindow)
    } else if key == "trigger_voice_pipeline"@ {
        Some(Action::TriggerPipeline)
    } else {
        None
    }
}

fn item(id: &str, title: &str) -> (entry: MenuEntry)
    ensures
        entry@ == (MenuEntryModel::Item { id: id@, title: title@ }),
{
    MenuEntry::Item { id: String::from_str(id), title: String::from_str(title) }
}

/// Builds the menu of the tray icon for the running `version`.
pub fn tray_menu(version: &str) -> (menu: Vec<MenuEntry>)
    ensures
        menu_view(menu@) == tray_menu_model(version@),
{
    let updates = String::from_str("Check for Updates (").concat(version).concat(")");
    let mut menu: Vec<MenuEntry> = Vec::new();
    menu.push(item("toggle_window", "Show/Hide Window (Ctrl+Alt+A)"));
    menu.push(item("trigger_voice_pipeline", "Trigger Voice Pipeline (Ctrl+Shift+A)"));
    menu.push(MenuEntry::Separator);
    menu.push(item("open_settings", "Settings"));
    menu.push(item("open_logs_directory", "Open Logs"));
    menu.push(MenuEntry::Separator);
    menu.push(item("check_for_updates", updates.as_str()));
    menu.push(MenuEntry::Separator);
    menu.push(item("quit_application", "Quit"));
    assert(menu_view(menu@) =~= tray_menu_model(version@));
    menu
}

/// Resolves a click on the menu item `id`. A click on an unknown id
/// resolves to nothing and is to be ignored.
pub fn menu_action(id: &str) -> (action: Option<Action>)
    ensures
        action == menu_action_of(id@),
{
    if same_text(id, "toggle_window") {
        Some(Action::ToggleWindow)
    } else if same_text(id, "trigger_voice_pipeline") {
        Some(Action::TriggerPipeline)
    } else if same_text(id, "open_settings") {
        Some(Action::OpenSettings)
    } else if same_text(id, "open_logs_directory") {
        Some(Action::OpenLogsDirectory)
    } else if same_text(id, "check_for_updates") {
        Some(Action::CheckUpdates)
    } else if same_text(id, "quit_application") {
        Some(Action::Quit)
    } else {
        None
    }
}

/// Resolves a double click on the tray icon under freshly loaded
/// `settings`.
pub fn double_click_action(settings: &Settings) -> (action: Option<Action>)
    ensures
        action == double_click_action_of(settings@),
        settings.tray is None ==> action == Some(Action::ToggleWindow),
{
    match &settings.tray {
        Some(tray) => {
            if same_text(tray.double_click_action.as_str(), "toggle_window") {
                Some(Action::ToggleWindow)
            } else if same_text(tray.double_click_action.as_str(), "trigger_voice_pipeline") {
                Some(Action::TriggerPipeline)
            } else {
                None
            }
        },
        None => Some(Action::ToggleWindow),
    }
}

/// The six menu ids are told apart: each resolves to an action of its own.
pub proof fn menu_ids_resolve()
    ensures
        menu_action_of("toggle_window"@) == Some(Action::ToggleWindow),
        menu_action_of("trigger_voice_pipeline"@) == Some(Action::TriggerPipeline),
        menu_action_of("open_settings"@) == Some(Action::OpenSettings),
        menu_action_of("open_logs_directory"@) == Some(Action::OpenLogsDirectory),
        menu_action_of("check_for_updates"@) == Some(Action::CheckUpdates),
        menu_action_of("quit_application"@) == Some(Action::Quit),
{
    reveal_menu_ids();
}

/// Every item of the tray menu has an action behind it, whatever the
/// version shown.
pub proof fn every_menu_item_resolves(version: Seq<char>, i: int)
    requires
        0 <= i < tray_menu_model(version).len(),
    ensures
        tray_menu_model(version)[i] matches MenuEntryModel::Item { id, .. } ==> menu_action_of(id)
            is Some,
{
}

/// A double click without a tray preference toggles the window; with the
/// default preference it does the same; with the preference
/// `trigger_voice_pipeline` it starts the voice pipeline; settings that a
/// load returned for a document without a preference toggle the window.
pub proof fn double_click_defaults_to_toggle(settings: SettingsModel)
    ensures
        settings.tray is None ==> double_click_action_of(settings) == Some(Action::ToggleWindow),
        settings.tray == Some(crate::settings::default_tray()) ==> double_click_action_of(settings)
            == Some(Action::ToggleWindow),
        settings.tray matches Some(tray) && tray.double_click_action == "trigger_voice_pipeline"@
            ==> double_click_action_of(settings) == Some(Action::TriggerPipeline),
        settings.tray is None ==> double_click_action_of(crate::settings::backfill(settings))
            == Some(Action::ToggleWindow),
{
    reveal_menu_ids();
}

proof fn reveal_menu_ids()
    ensures
        "toggle_window"@.len() == 13,
        "trigger_voice_pipeline"@.len() == 22,
        "open_settings"@.len() == 13,
        "open_settings"@[0] == 'o',
        "toggle_window"@[0] == 't',
        "open_logs_directory"@.len() == 19,
        "check_for_updates"@.len() == 17,
        "quit_application"@.len() == 16,
{
    reveal_strlit("toggle_window");
    reveal_strlit("trigger_voice_pipeline");
    reveal_strlit("open_settings");
    reveal_strlit("open_logs_directory");
    reveal_strlit("check_for_updates");
    reveal_strlit("quit_application");
}

} // verus!
