use assist_desktop::action::{Action, InstanceCommand};
use assist_desktop::instance::{instance_command, on_forwarded, on_launch, Launch};
use assist_desktop::registry::{dispatch, release_page};
use assist_desktop::settings::{Settings, TraySettings};
use assist_desktop::shortcut::{shortcut_action, shortcuts};
use assist_desktop::tray::{double_click_action, menu_action, tray_menu, MenuEntry};
use assist_desktop::window::{
    hide_window, open_settings, quit_application, toggle_window, trigger_voice_pipeline, Effect,
    NavigationError, Signal, Visibility, WindowState,
};

fn window(visibility: Visibility, location: &str) -> WindowState {
    WindowState { visibility, location: location.to_string() }
}

fn arguments(list: &[&str]) -> Vec<String> {
    list.iter().map(|a| a.to_string()).collect()
}

fn with_preference(key: &str) -> Settings {
    let mut settings = Settings::default();
    settings.tray = Some(TraySettings { double_click_action: key.to_string() });
    settings
}

fn item(id: &str, title: &str) -> MenuEntry {
    MenuEntry::Item { id: id.to_string(), title: title.to_string() }
}

const ALL_ACTIONS: [Action; 7] = [
    Action::ToggleWindow,
    Action::TriggerPipeline,
    Action::OpenSettings,
    Action::OpenLogs,
    Action::CheckUpdates,
    Action::OpenLogsDirectory,
    Action::Quit,
];

#[test]
fn dispatch_routes_to_the_window_operations() {
    for visibility in [Visibility::Hidden, Visibility::Visible] {
        let state = window(visibility, "http://localhost:1420/");
        assert_eq!(dispatch(Action::ToggleWindow, &state), toggle_window(&state));
        assert_eq!(dispatch(Action::TriggerPipeline, &state), trigger_voice_pipeline(&state));
        assert_eq!(dispatch(Action::OpenSettings, &state), open_settings(&state));
        assert_eq!(dispatch(Action::Quit, &state), Ok(quit_application(&state)));
    }
}

#[test]
fn dispatch_trigger_while_hidden() {
    let hidden = window(Visibility::Hidden, "http://localhost:1420/");
    let outcome = dispatch(Action::TriggerPipeline, &hidden).unwrap();
    assert_eq!(outcome.window.visibility, Visibility::Visible);
    let triggers = outcome
        .effects
        .iter()
        .filter(|e| **e == Effect::Emit(Signal::TriggerVoicePipeline))
        .count();
    assert_eq!(triggers, 1);
}

#[test]
fn dispatch_trigger_while_visible_does_not_show_again() {
    let visible = window(Visibility::Visible, "http://localhost:1420/");
    let outcome = dispatch(Action::TriggerPipeline, &visible).unwrap();
    assert_eq!(outcome.effects, vec![Effect::Emit(Signal::TriggerVoicePipeline)]);
    assert_eq!(outcome.window, visible);
}

#[test]
fn dispatch_log_actions_leave_the_window_alone() {
    let state = window(Visibility::Hidden, "no url at all");
    for action in [Action::OpenLogs, Action::OpenLogsDirectory] {
        let outcome = dispatch(action, &state).unwrap();
        assert_eq!(outcome.window, state);
        assert_eq!(outcome.effects, vec![Effect::OpenLogsDirectory]);
    }
}

#[test]
fn dispatch_check_updates_opens_the_release_page() {
    let state = window(Visibility::Visible, "http://localhost:1420/");
    let outcome = dispatch(Action::CheckUpdates, &state).unwrap();
    assert_eq!(outcome.window, state);
    assert_eq!(outcome.effects, vec![Effect::OpenReleasePage]);
    assert_eq!(
        release_page(),
        "https://github.com/timmo001/home-assistant-assist-desktop/releases"
    );
}

#[test]
fn dispatch_open_settings_fails_on_what_is_no_url() {
    let state = window(Visibility::Visible, "no url at all");
    assert_eq!(dispatch(Action::OpenSettings, &state), Err(NavigationError::InvalidLocation));
}

#[test]
fn only_quit_exits_and_with_code_zero() {
    for visibility in [Visibility::Hidden, Visibility::Visible] {
        for location in ["http://localhost:1420/", "http://localhost:1420/settings"] {
            let state = window(visibility, location);
            for action in ALL_ACTIONS {
                let outcome = dispatch(action, &state).unwrap();
                let exits: Vec<&Effect> = outcome
                    .effects
                    .iter()
                    .filter(|e| matches!(e, Effect::Exit { .. }))
                    .collect();
                if action == Action::Quit {
                    assert_eq!(exits, vec![&Effect::Exit { code: 0 }]);
                    assert_eq!(outcome.effects[0], Effect::Hide);
                    assert_eq!(outcome.window.visibility, Visibility::Hidden);
                } else {
                    assert!(exits.is_empty());
                }
            }
        }
    }
}

#[test]
fn quit_while_hidden_still_hides_first() {
    let hidden = window(Visibility::Hidden, "http://localhost:1420/");
    let outcome = dispatch(Action::Quit, &hidden).unwrap();
    assert_eq!(outcome.effects, vec![Effect::Hide, Effect::Exit { code: 0 }]);
    assert_eq!(outcome.window, hide_window(&hidden).window);
}

#[test]
fn tray_menu_is_fixed_but_for_the_version() {
    assert_eq!(
        tray_menu("1.2.3"),
        vec![
            item("toggle_window", "Show/Hide Window (Ctrl+Alt+A)"),
            item("trigger_voice_pipeline", "Trigger Voice Pipeline (Ctrl+Shift+A)"),
            MenuEntry::Separator,
            item("open_settings", "Settings"),
            item("open_logs_directory", "Open Logs"),
            MenuEntry::Separator,
            item("check_for_updates", "Check for Updates (1.2.3)"),
            MenuEntry::Separator,
            item("quit_application", "Quit"),
        ]
    );
}

#[test]
fn tray_menu_with_empty_version() {
    let menu = tray_menu("");
    assert_eq!(menu[6], item("check_for_updates", "Check for Updates ()"));
    assert_eq!(menu.len(), 9);
}

#[test]
fn every_menu_item_has_an_action() {
    for entry in tray_menu("0.0.0") {
        if let MenuEntry::Item { id, .. } = entry {
            assert!(menu_action(&id).is_some());
        }
    }
}

#[test]
fn menu_ids_map_to_their_actions() {
    assert_eq!(menu_action("toggle_window"), Some(Action::ToggleWindow));
    assert_eq!(menu_action("trigger_voice_pipeline"), Some(Action::TriggerPipeline));
    assert_eq!(menu_action("open_settings"), Some(Action::OpenSettings));
    assert_eq!(menu_action("open_logs_directory"), Some(Action::OpenLogsDirectory));
    assert_eq!(menu_action("check_for_updates"), Some(Action::CheckUpdates));
    assert_eq!(menu_action("quit_application"), Some(Action::Quit));
}

#[test]
fn unknown_menu_ids_are_ignored() {
    assert_eq!(menu_action(""), None);
    assert_eq!(menu_action("open_logs"), None);
    assert_eq!(menu_action("Toggle_Window"), None);
    assert_eq!(menu_action("toggle_window "), None);
    assert_eq!(menu_action("quit"), None);
}

#[test]
fn double_click_without_preference_toggles() {
    let mut settings = Settings::default();
    settings.tray = None;
    assert_eq!(double_click_action(&settings), Some(Action::ToggleWindow));
}

#[test]
fn double_click_with_default_preference_toggles() {
    assert_eq!(double_click_action(&Settings::default()), Some(Action::ToggleWindow));
}

#[test]
fn double_click_with_trigger_preference_triggers() {
    assert_eq!(
        double_click_action(&with_preference("trigger_voice_pipeline")),
        Some(Action::TriggerPipeline)
    );
}

#[test]
fn double_click_with_unknown_preference_does_nothing() {
    assert_eq!(double_click_action(&with_preference("open_settings")), None);
    assert_eq!(double_click_action(&with_preference("quit_application")), None);
    assert_eq!(double_click_action(&with_preference("")), None);
}

#[test]
fn shortcuts_are_toggle_and_trigger() {
    let list = shortcuts();
    assert_eq!(list.len(), 2);
    assert_eq!(list[0].accelerator, "Ctrl+Alt+A");
    assert_eq!(list[0].action, Action::ToggleWindow);
    assert_eq!(list[1].accelerator, "Ctrl+Shift+A");
    assert_eq!(list[1].action, Action::TriggerPipeline);
}

#[test]
fn shortcut_presses_resolve() {
    for shortcut in shortcuts() {
        assert_eq!(shortcut_action(shortcut.accelerator), Some(shortcut.action));
    }
    assert_eq!(shortcut_action("Ctrl+Alt+B"), None);
    assert_eq!(shortcut_action("ctrl+alt+a"), None);
    assert_eq!(shortcut_action(""), None);
}

#[test]
fn instance_command_finds_the_flag_anywhere() {
    let found = Some(InstanceCommand::TriggerVoicePipeline);
    assert_eq!(instance_command(&arguments(&["app", "--trigger-voice"])), found);
    assert_eq!(instance_command(&arguments(&["--trigger-voice", "app"])), found);
    assert_eq!(
        instance_command(&arguments(&["app", "--verbose", "--trigger-voice", "x"])),
        found
    );
    assert_eq!(
        instance_command(&arguments(&["--trigger-voice", "--trigger-voice"])),
        found
    );
}

#[test]
fn instance_command_needs_the_exact_flag() {
    assert_eq!(instance_command(&arguments(&[])), None);
    assert_eq!(instance_command(&arguments(&["app"])), None);
    assert_eq!(instance_command(&arguments(&["app", "--trigger-voice=1"])), None);
    assert_eq!(instance_command(&arguments(&["app", "--Trigger-Voice"])), None);
    assert_eq!(instance_command(&arguments(&["app", "trigger-voice"])), None);
}

#[test]
fn instance_command_action() {
    assert_eq!(InstanceCommand::TriggerVoicePipeline.action(), Action::TriggerPipeline);
}

#[test]
fn first_launch_becomes_primary() {
    assert_eq!(on_launch(false, arguments(&["app"])), Launch::Primary { startup: None });
    assert_eq!(
        on_launch(false, arguments(&["app", "--trigger-voice"])),
        Launch::Primary { startup: Some(Action::TriggerPipeline) }
    );
}

#[test]
fn second_launch_forwards_its_arguments_whole() {
    let args = arguments(&["app", "--trigger-voice", "extra"]);
    assert_eq!(on_launch(true, args.clone()), Launch::Secondary { arguments: args });
    assert_eq!(on_launch(true, arguments(&[])), Launch::Secondary { arguments: arguments(&[]) });
}

#[test]
fn second_launch_with_flag_reaches_the_one_window_once() {
    let mut windows = 0;
    let mut dispatched: Vec<Action> = Vec::new();
    let mut running = window(Visibility::Hidden, "http://localhost:1420/");
    let launches =
        [arguments(&["app"]), arguments(&["app", "--trigger-voice", "--trigger-voice"])];
    for args in launches {
        match on_launch(windows > 0, args) {
            Launch::Primary { startup } => {
                windows += 1;
                dispatched.extend(startup);
            }
            Launch::Secondary { arguments } => {
                if let Some(action) = on_forwarded(&arguments) {
                    running = dispatch(action, &running).unwrap().window;
                    dispatched.push(action);
                }
            }
        }
    }
    assert_eq!(windows, 1);
    assert_eq!(dispatched, vec![Action::TriggerPipeline]);
    assert_eq!(running.visibility, Visibility::Visible);
}

#[test]
fn forwarded_arguments_without_flag_do_nothing() {
    assert_eq!(on_forwarded(&arguments(&["app", "--other"])), None);
    assert_eq!(on_forwarded(&arguments(&["app", "--trigger-voice"])), Some(Action::TriggerPipeline));
}
