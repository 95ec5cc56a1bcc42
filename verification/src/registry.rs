//! The action registry: the one path from an action to what the host does.
//!
//! Tray clicks, global shortcuts, forwarded launches and the command-line
//! flag all end in [`dispatch`], so that an action does the same whatever
//! asked for it.

use crate::action::Action;
use crate::window::{
    navigate_model, navigate_to, quit_application, quit_model, result_view, terminates,
    toggle_model, toggle_window, trigger_model, trigger_voice_pipeline, Effect, NavigationError,
    Outcome, OutcomeModel, Route, WindowModel, WindowState,
};
use vstd::prelude::*;

verus! {

/// What `action` does to `window`.
///
/// The two log actions and the update check leave the window alone and ask
/// the host for one thing each. Quitting never fails.
pub open spec fn dispatch_model(action: Action, window: WindowModel) -> Result<
    OutcomeModel,
    NavigationError,
> {
    match action {
        Action::ToggleWindow => toggle_model(window),
        Action::TriggerPipeline => trigger_model(window),
        Action::OpenSettings => navigate_model(window, Route::Settings),
        Action::OpenLogs | Action::OpenLogsDirectory => Ok(
            OutcomeModel { window, effects: seq![Effect::OpenLogsDirectory] },
        ),
        Action::CheckUpdates => Ok(OutcomeModel { window, effects: seq![Effect::OpenReleasePage] }),
        Action::Quit => Ok(quit_model(window)),
    }
}

/// The address of the page that lists the published releases.
pub open spec fn release_page_of() -> Seq<char> {
    "https://github.com/timmo001/home-assistant-assist-desktop/releases"@
}

/// The address of the page that lists the published releases, which
/// `Effect::OpenReleasePage` asks the host to open.
pub fn release_page() -> (address: &'static str)
    ensures
        address@ == release_page_of(),
{
    "https://github.com/timmo001/home-assistant-assist-desktop/releases"
}

fn untouched(window: &WindowState, effect: Effect) -> (outcome: Outcome)
    ensures
        outcome@ == (OutcomeModel { window: window@, effects: seq![effect] }),
{
    let effects = vec![effect];
    assert(effects@ =~= seq![effect]);
    Outcome {
        window: WindowState { visibility: window.visibility, location: window.location.clone() },
        effects,
    }
}

/// Runs `action` against the window as the host observed it.
pub fn dispatch(action: Action, window: &WindowState) -> (result: Result<Outcome, NavigationError>)
    ensures
        result_view(result) == dispatch_model(action, window@),
{
    match action {
        Action::ToggleWindow => toggle_window(window),
        Action::TriggerPipeline => trigger_voice_pipeline(window),
        Action::OpenSettings => navigate_to(window, Route::Settings),
        Action::OpenLogs => Ok(untouched(window, Effect::OpenLogsDirectory)),
        Action::OpenLogsDirectory => Ok(untouched(window, Effect::OpenLogsDirectory)),
        Action::CheckUpdates => Ok(untouched(window, Effect::OpenReleasePage)),
        Action::Quit => Ok(quit_application(window)),
    }
}

/// Of all actions only quitting ends the process. Quitting cannot fail, it
/// hides the window first, and the exit code is 0.
pub proof fn only_quit_terminates(action: Action, window: WindowModel)
    ensures
        dispatch_model(action, window) matches Ok(outcome) ==> (terminates(outcome.effects)
            <==> action == Action::Quit),
        dispatch_model(Action::Quit, window) matches Ok(outcome) && outcome.effects == seq![
            Effect::Hide,
            Effect::Exit { code: 0 },
        ] && outcome.window.visibility == crate::window::Visibility::Hidden,
{
    match dispatch_model(action, window) {
        Ok(outcome) => {
            if action == Action::Quit {
                assert(outcome.effects[1] is Exit);
            }
        },
        Err(_) => {},
    }
}

} // verus!
