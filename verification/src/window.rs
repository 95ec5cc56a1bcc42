//! The primary window: its visibility, its location, and what each
//! operation on it asks of the host.
//!
//! The window itself belongs to the host. The functions here take what the
//! host observed of it and return an [`Outcome`]: the state the window will be
//! in and the effects that bring it there, in the order to perform them.

use crate::text::{contains, contains_text, text_view};
use vstd::prelude::*;
use vstd::string::StringExecFns;
use vstd::utf8::encode_utf8;

verus! {

/// Longest location, in bytes of UTF-8, that navigation accepts: 2^24.
///
/// The `url` crate keeps its offsets into a URL in 32 bits and panics when
/// a path is set on a URL whose part before the query has outgrown them.
/// Parsing enlarges a text: percent-encoding threefold, and the mapping and
/// Punycode encoding of an international host name by more than that (a
/// label of one character can come out seventeen bytes long). The limit
/// leaves room for a factor of 255; see [`limits_fit_offsets`].
pub const MAX_LOCATION_BYTES: usize = 16_777_216;

/// Longest path, in bytes of UTF-8, that can be put into a location: 2^20.
/// Percent-encoded it takes at most three times as much, and three bytes
/// more where a leading slash has to be encoded too.
pub const MAX_PATH_BYTES: usize = 1_048_576;

/// Whether the window is on screen.
#[derive(Clone, Copy, Debug, PartialEq, Eq, Hash, Structural)]
pub enum Visibility {
    Hidden,
    Visible,
}

/// A notification for the renderer. It carries no payload.
#[derive(Clone, Copy, Debug, PartialEq, Eq, Hash, Structural)]
pub enum Signal {
    /// The window was shown and brought to the foreground.
    Focus,
    /// The voice pipeline is to start.
    TriggerVoicePipeline,
}

/// One thing the host has to do to the window or the process.
#[derive(Clone, Copy, Debug, PartialEq, Eq, Hash, Structural)]
pub enum Effect {
    /// Put the window on screen.
    Show,
    /// Bring the window to the foreground.
    Focus,
    /// Take the window off screen.
    Hide,
    /// Send the renderer a notification.
    Emit(Signal),
    /// Point the renderer at the location of the outcome's window.
    Navigate,
    /// Open the log directory in the desktop's file manager.
    OpenLogsDirectory,
    /// Open the release page in the desktop's browser.
    OpenReleasePage,
    /// Keep the windowing system from destroying the window.
    PreventClose,
    /// End the process with this exit code.
    Exit { code: i32 },
}

/// Why a window could not be navigated.
#[derive(Clone, Copy, Debug, PartialEq, Eq, Hash, Structural)]
pub enum NavigationError {
    /// The location is longer than [`MAX_LOCATION_BYTES`], more than the
    /// URL parser can keep offsets into once a path is set.
    LocationTooLong,
    /// The location is not an absolute URL.
    InvalidLocation,
}

/// A view of the application that the window can be brought to.
#[derive(Clone, Copy, Debug, PartialEq, Eq, Hash, Structural)]
pub enum Route {
    /// The main view.
    Main,
    /// The settings view.
    Settings,
}

/// What the host observed of the window: whether it is on screen and where
/// its renderer points.
#[derive(Clone, Debug, PartialEq, Eq, Hash)]
pub struct WindowState {
    pub visibility: Visibility,
    pub location: String,
}

/// The mathematical value of a [`WindowState`].
pub struct WindowModel {
    pub visibility: Visibility,
    pub location: Seq<char>,
}

impl View for WindowState {
    type V = WindowModel;

    open spec fn view(&self) -> WindowModel {
        WindowModel { visibility: self.visibility, location: self.location@ }
    }
}

/// The window after an operation and the effects that bring it there.
#[derive(Clone, Debug, PartialEq, Eq, Hash)]
pub struct Outcome {
    pub window: WindowState,
    pub effects: Vec<Effect>,
}

/// The mathematical value of an [`Outcome`].
pub struct OutcomeModel {
    pub window: WindowModel,
    pub effects: Seq<Effect>,
}

impl View for Outcome {
    type V = OutcomeModel;

    open spec fn view(&self) -> OutcomeModel {
        OutcomeModel { window: self.window@, effects: self.effects@ }
    }
}

/// The mathematical value of an operation's result.
pub open spec fn result_view(result: Result<Outcome, NavigationError>) -> Result<
    OutcomeModel,
    NavigationError,
> {
    match result {
        Ok(outcome) => Ok(outcome@),
        Err(error) => Err(error),
    }
}

/// The serialization of the URL that `location` parses to, once its path has
/// been replaced by `path`; `None` where `location` is not an absolute URL.
/// This is what the `url` crate computes; nothing more is known of it here.
pub uninterp spec fn url_with_path(location: Seq<char>, path: Seq<char>) -> Option<Seq<char>>;

/// Calls `url::Url::parse` on `location`, `Url::set_path` with `path` on the
/// result, and hands back the serialization. The contract claims only that
/// the answer is determined by the two texts. Both are bounded because
/// `set_path` panics once what precedes the query no longer fits 32 bits;
/// [`limits_fit_offsets`] says how far the bounds stay below that.
#[verifier::external_body]
fn replace_path(location: &str, path: &str) -> (replaced: Option<String>)
    requires
        encode_utf8(location@).len() <= MAX_LOCATION_BYTES,
        encode_utf8(path@).len() <= MAX_PATH_BYTES,
    ensures
        text_view(replaced) == url_with_path(location@, path@),
{
    match url::Url::parse(location) {
        Ok(mut parsed) => {
            parsed.set_path(path);
            Some(String::from(parsed))
        },
        Err(_) => None,
    }
}

impl Route {
    /// The path under which the renderer serves the view.
    pub open spec fn path_of(self) -> Seq<char> {
        match self {
            Route::Main => "/"@,
            Route::Settings => "/settings"@,
        }
    }

    /// The path under which the renderer serves the view.
    pub fn path(self) -> (path: &'static str)
        ensures
            path@ == self.path_of(),
            encode_utf8(path@).len() <= MAX_PATH_BYTES,
    {
        proof {
            reveal_strlit("/");
            reveal_strlit("/settings");
            vstd::utf8::is_ascii_chars_encode_utf8(self.path_of());
        }
        match self {
            Route::Main => "/",
            Route::Settings => "/settings",
        }
    }
}

/// A window is in the settings context when its location mentions
/// `settings`. The test is on the location as a text and needs no parsing,
/// so that whether a window can be shown where it is never depends on its
/// location being a URL.
pub open spec fn in_settings_context(location: Seq<char>) -> bool {
    contains_text(location, "settings"@)
}

/// The end of a navigation. With a target the window is visible, in the
/// foreground and at the target, and the renderer is told to go there;
/// without one the navigation has failed.
pub open spec fn arrival_model(target: Option<Seq<char>>) -> Result<OutcomeModel, NavigationError> {
    match target {
        Some(target) => Ok(
            OutcomeModel {
                window: WindowModel { visibility: Visibility::Visible, location: target },
                effects: seq![Effect::Show, Effect::Focus, Effect::Navigate],
            },
        ),
        None => Err(NavigationError::InvalidLocation),
    }
}

/// Navigation: a location within the length limit is given the path of
/// `route`, and the window arrives at what comes of it.
pub open spec fn navigate_model(window: WindowModel, route: Route) -> Result<
    OutcomeModel,
    NavigationError,
> {
    if encode_utf8(window.location).len() > MAX_LOCATION_BYTES {
        Err(NavigationError::LocationTooLong)
    } else {
        arrival_model(url_with_path(window.location, route.path_of()))
    }
}

/// Showing: from the settings context the window is navigated to the
/// settings view; otherwise it is shown where it is, brought to the
/// foreground, and the renderer is sent `Signal::Focus`.
pub open spec fn show_model(window: WindowModel) -> Result<OutcomeModel, NavigationError> {
    if in_settings_context(window.location) {
        navigate_model(window, Route::Settings)
    } else {
        Ok(
            OutcomeModel {
                window: WindowModel { visibility: Visibility::Visible, location: window.location },
                effects: seq![Effect::Show, Effect::Focus, Effect::Emit(Signal::Focus)],
            },
        )
    }
}

/// Hiding: the window leaves the screen and stays where it is.
pub open spec fn hide_model(window: WindowModel) -> OutcomeModel {
    OutcomeModel {
        window: WindowModel { visibility: Visibility::Hidden, location: window.location },
        effects: seq![Effect::Hide],
    }
}

/// Toggling: a visible window is hidden, a hidden one is shown.
pub open spec fn toggle_model(window: WindowModel) -> Result<OutcomeModel, NavigationError> {
    if window.visibility == Visibility::Visible {
        Ok(hide_model(window))
    } else {
        show_model(window)
    }
}

/// Triggering the voice pipeline: a hidden window is shown first; then the
/// renderer is sent `Signal::TriggerVoicePipeline`, once.
pub open spec fn trigger_model(window: WindowModel) -> Result<OutcomeModel, NavigationError> {
    if window.visibility == Visibility::Hidden {
        match show_model(window) {
            Ok(shown) => Ok(
                OutcomeModel {
                    window: shown.window,
                    effects: shown.effects.push(Effect::Emit(Signal::TriggerVoicePipeline)),
                },
            ),
            Err(error) => Err(error),
        }
    } else {
        Ok(OutcomeModel { window, effects: seq![Effect::Emit(Signal::TriggerVoicePipeline)] })
    }
}

/// Quitting: the window is hidden, then the process ends with code 0.
pub open spec fn quit_model(window: WindowModel) -> OutcomeModel {
    OutcomeModel {
        window: WindowModel { visibility: Visibility::Hidden, location: window.location },
        effects: seq![Effect::Hide, Effect::Exit { code: 0 }],
    }
}

/// A close request: the window is hidden and its destruction is suppressed.
pub open spec fn close_request_model(window: WindowModel) -> OutcomeModel {
    OutcomeModel {
        window: WindowModel { visibility: Visibility::Hidden, location: window.location },
        effects: seq![Effect::Hide, Effect::PreventClose],
    }
}

/// How often `effect` occurs in `effects`.
pub open spec fn occurrences(effects: Seq<Effect>, effect: Effect) -> nat
    decreases effects.len(),
{
    if effects.len() == 0 {
        0
    } else {
        occurrences(effects.drop_last(), effect) + if effects.last() == effect {
            1nat
        } else {
            0nat
        }
    }
}

/// Whether `effects` end the process.
pub open spec fn terminates(effects: Seq<Effect>) -> bool {
    exists|i: int| 0 <= i < effects.len() && #[trigger] effects[i] is Exit
}

impl Signal {
    /// The name under which the renderer listens for the signal.
    pub open spec fn name_of(self) -> Seq<char> {
        match self {
            Signal::Focus => "focus"@,
            Signal::TriggerVoicePipeline => "trigger-voice-pipeline"@,
        }
    }

    /// The name under which the renderer listens for the signal.
    pub fn name(self) -> (name: &'static str)
        ensures
            name@ == self.name_of(),
    {
        match self {
            Signal::Focus => "focus",
            Signal::TriggerVoicePipeline => "trigger-voice-pipeline",
        }
    }
}

/// Ends a navigation whose target location is `target`, or which has none
/// because the window's location was not an absolute URL.
pub fn arrive(target: Option<String>) -> (result: Result<Outcome, NavigationError>)
    ensures
        result_view(result) == arrival_model(text_view(target)),
{
    match target {
        Some(target) => {
            let effects = vec![Effect::Show, Effect::Focus, Effect::Navigate];
            Ok(
                Outcome {
                    window: WindowState { visibility: Visibility::Visible, location: target },
                    effects,
                },
            )
        },
        None => Err(NavigationError::InvalidLocation),
    }
}

/// Brings the window to `route`: visible, in the foreground, the renderer
/// pointed at the window's location with its path replaced.
///
/// Fails, changing nothing, when the location is too long or is not an
/// absolute URL.
pub fn navigate_to(window: &WindowState, route: Route) -> (result: Result<Outcome, NavigationError>)
    ensures
        result_view(result) == navigate_model(window@, route),
{
    if window.location.as_str().as_bytes().len() > MAX_LOCATION_BYTES {
        return Err(NavigationError::LocationTooLong);
    }
    arrive(replace_path(window.location.as_str(), route.path()))
}

/// Brings the window to the main view.
pub fn open_app(window: &WindowState) -> (result: Result<Outcome, NavigationError>)
    ensures
        result_view(result) == navigate_model(window@, Route::Main),
{
    navigate_to(window, Route::Main)
}

/// Brings the window to the settings view.
pub fn open_settings(window: &WindowState) -> (result: Result<Outcome, NavigationError>)
    ensures
        result_view(result) == navigate_model(window@, Route::Settings),
{
    navigate_to(window, Route::Settings)
}

/// Shows the window. From the settings context this is a navigation to the
/// settings view, which sends the renderer no `Signal::Focus`.
pub fn show_window_app(window: &WindowState) -> (result: Result<Outcome, NavigationError>)
    ensures
        result_view(result) == show_model(window@),
{
    if contains(window.location.as_str(), "settings") {
        return open_settings(window);
    }
    let effects = vec![Effect::Show, Effect::Focus, Effect::Emit(Signal::Focus)];
    Ok(
        Outcome {
            window: WindowState {
                visibility: Visibility::Visible,
                location: window.location.clone(),
            },
            effects,
        },
    )
}

/// Hides the window.
pub fn hide_window(window: &WindowState) -> (outcome: Outcome)
    ensures
        outcome@ == hide_model(window@),
{
    let effects = vec![Effect::Hide];
    assert(effects@ =~= seq![Effect::Hide]);
    Outcome {
        window: WindowState { visibility: Visibility::Hidden, location: window.location.clone() },
        effects,
    }
}

/// Hides a visible window and shows a hidden one.
pub fn toggle_window(window: &WindowState) -> (result: Result<Outcome, NavigationError>)
    ensures
        result_view(result) == toggle_model(window@),
{
    match window.visibility {
        Visibility::Visible => Ok(hide_window(window)),
        Visibility::Hidden => show_window_app(window),
    }
}

/// Starts the voice pipeline, showing the window first if it is hidden.
pub fn trigger_voice_pipeline(window: &WindowState) -> (result: Result<Outcome, NavigationError>)
    ensures
        result_view(result) == trigger_model(window@),
{
    match window.visibility {
        Visibility::Hidden => {
            match show_window_app(window) {
                Ok(shown) => {
                    let Outcome { window: next, effects } = shown;
                    let mut effects = effects;
                    effects.push(Effect::Emit(Signal::TriggerVoicePipeline));
                    Ok(Outcome { window: next, effects })
                },
                Err(error) => Err(error),
            }
        },
        Visibility::Visible => {
            let effects = vec![Effect::Emit(Signal::TriggerVoicePipeline)];
            assert(effects@ =~= seq![Effect::Emit(Signal::TriggerVoicePipeline)]);
            Ok(
                Outcome {
                    window: WindowState {
                        visibility: Visibility::Visible,
                        location: window.location.clone(),
                    },
                    effects,
                },
            )
        },
    }
}

/// Hides the window and ends the process with exit code 0.
pub fn quit_application(window: &WindowState) -> (outcome: Outcome)
    ensures
        outcome@ == quit_model(window@),
{
    let effects = vec![Effect::Hide, Effect::Exit { code: 0 }];
    Outcome {
        window: WindowState { visibility: Visibility::Hidden, location: window.location.clone() },
        effects,
    }
}

/// Answers the windowing system's request to close the window: the window
/// is hidden instead and the process goes on.
pub fn close_requested(window: &WindowState) -> (outcome: Outcome)
    ensures
        outcome@ == close_request_model(window@),
{
    let effects = vec![Effect::Hide, Effect::PreventClose];
    Outcome {
        window: WindowState { visibility: Visibility::Hidden, location: window.location.clone() },
        effects,
    }
}

/// The script that points the renderer at `location`.
pub open spec fn navigation_script_of(location: Seq<char>) -> Seq<char> {
    "window.location.href = '"@ + location + "';"@
}

/// The script that points the renderer at `location`.
pub fn navigation_script(location: &str) -> (script: String)
    ensures
        script@ == navigation_script_of(location@),
{
    String::from_str("window.location.href = '").concat(location).concat("';")
}

/// The two limits keep a URL within what 32-bit offsets can address, even
/// where parsing enlarges the location 255 times and percent-encoding
/// triples the path.
pub proof fn limits_fit_offsets()
    ensures
        255 * MAX_LOCATION_BYTES + 3 * MAX_PATH_BYTES + 3 <= u32::MAX,
{
}

/// A successful show leaves the window visible; outside the settings
/// context showing cannot fail, and showing a window that is already visible
/// leaves it as it is.
pub proof fn show_is_idempotent(window: WindowModel)
    ensures
        show_model(window) matches Ok(shown) ==> shown.window.visibility == Visibility::Visible,
        !in_settings_context(window.location) ==> (show_model(window) matches Ok(shown)
            && show_model(shown.window) == Ok::<OutcomeModel, NavigationError>(shown)),
        !in_settings_context(window.location) && window.visibility == Visibility::Visible ==> (
        show_model(window) matches Ok(shown) && shown.window == window),
{
}

/// Hiding leaves the window hidden where it was, and hiding again changes
/// nothing more.
pub proof fn hide_is_idempotent(window: WindowModel)
    ensures
        hide_model(window).window.visibility == Visibility::Hidden,
        hide_model(window).window.location == window.location,
        hide_model(hide_model(window).window) == hide_model(window),
        window.visibility == Visibility::Hidden ==> hide_model(window).window == window,
{
}

/// Toggling a hidden window shows it, and toggling it again hides it.
/// Outside the settings context the first toggle cannot fail, sends the
/// renderer `Signal::Focus` exactly once, and the second toggle gives back
/// the window as it was.
pub proof fn toggle_twice_from_hidden(window: WindowModel)
    requires
        window.visibility == Visibility::Hidden,
    ensures
        toggle_model(window) matches Ok(shown) ==> {
            &&& shown.window.visibility == Visibility::Visible
            &&& toggle_model(shown.window) matches Ok(hidden)
            &&& hidden.window.visibility == Visibility::Hidden
            &&& hidden.window.location == shown.window.location
        },
        !in_settings_context(window.location) ==> {
            &&& toggle_model(window) matches Ok(shown)
            &&& occurrences(shown.effects, Effect::Emit(Signal::Focus)) == 1
            &&& toggle_model(shown.window) matches Ok(hidden)
            &&& hidden.window == window
        },
{
    reveal_with_fuel(occurrences, 4);
}

/// Triggering the voice pipeline, where it succeeds, leaves the window
/// visible and sends the renderer `Signal::TriggerVoicePipeline` exactly
/// once. A hidden window outside the settings context is always shown. A
/// visible window is left as it is: nothing but the one signal is asked of
/// the host.
pub proof fn trigger_emits_once(window: WindowModel)
    ensures
        trigger_model(window) matches Ok(outcome) ==> {
            &&& outcome.window.visibility == Visibility::Visible
            &&& occurrences(outcome.effects, Effect::Emit(Signal::TriggerVoicePipeline)) == 1
        },
        window.visibility == Visibility::Hidden && !in_settings_context(window.location) ==> {
            &&& trigger_model(window) matches Ok(outcome)
            &&& outcome.window.location == window.location
            &&& occurrences(outcome.effects, Effect::Show) == 1
        },
        window.visibility == Visibility::Visible ==> {
            &&& trigger_model(window) matches Ok(outcome)
            &&& outcome.window == window
            &&& outcome.effects == seq![Effect::Emit(Signal::TriggerVoicePipeline)]
        },
{
    reveal_with_fuel(occurrences, 5);
}

/// A close request hides the window, wherever it was, and never ends the
/// process.
pub proof fn close_request_hides(window: WindowModel)
    ensures
        close_request_model(window).window.visibility == Visibility::Hidden,
        close_request_model(window).window.location == window.location,
        !terminates(close_request_model(window).effects),
{
}

} // verus!
