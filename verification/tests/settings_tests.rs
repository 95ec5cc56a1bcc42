use assist_desktop::settings::{CommandError, HomeAssistantSettings, Settings, TraySettings};

fn sample(tray: Option<&str>) -> Settings {
    Settings {
        autostart: true,
        home_assistant: HomeAssistantSettings {
            access_token: "token".to_string(),
            host: "ha.example".to_string(),
            port: 443,
            ssl: true,
        },
        tray: tray.map(|key| TraySettings { double_click_action: key.to_string() }),
    }
}

#[test]
fn default_settings_of_a_fresh_installation() {
    let settings = Settings::default();
    assert!(!settings.autostart);
    assert_eq!(settings.home_assistant.access_token, "");
    assert_eq!(settings.home_assistant.host, "homeassistant.local");
    assert_eq!(settings.home_assistant.port, 8123);
    assert!(!settings.home_assistant.ssl);
    assert_eq!(
        settings.tray,
        Some(TraySettings { double_click_action: "toggle_window".to_string() })
    );
}

#[test]
fn default_parts_agree_with_default_settings() {
    let settings = Settings::default();
    assert_eq!(settings.home_assistant, HomeAssistantSettings::default());
    assert_eq!(settings.tray, Some(TraySettings::default()));
}

#[test]
fn backfill_fills_a_missing_tray_preference() {
    let complete = sample(None).backfilled();
    assert_eq!(complete, sample(Some("toggle_window")));
}

#[test]
fn backfill_keeps_a_stated_preference() {
    let complete = sample(Some("trigger_voice_pipeline")).backfilled();
    assert_eq!(complete, sample(Some("trigger_voice_pipeline")));
    let odd = sample(Some("something else")).backfilled();
    assert_eq!(odd, sample(Some("something else")));
}

#[test]
fn backfill_is_idempotent() {
    let once = sample(None).backfilled();
    assert_eq!(once.clone().backfilled(), once);
}

#[test]
fn command_error_keeps_its_message() {
    let error = CommandError::new("disk full".to_string());
    assert_eq!(error.message, "disk full");
}

#[test]
fn command_error_from_json_error_carries_its_text() {
    let first = serde_json::from_str::<serde_json::Value>("{\"autostart\": tru").unwrap_err();
    let second = serde_json::from_str::<serde_json::Value>("{\"autostart\": tru").unwrap_err();
    let text = second.to_string();
    let error = CommandError::from(first);
    assert_eq!(error.message, text);
    assert!(!error.message.is_empty());
}
