//! The global shortcuts and the actions bound to them.

use crate::action::Action;
use crate::text::{same_text, text_view};
use vstd::prelude::*;
use vstd::string::StringExecFns;

verus! {

/// A key combination and the action it runs.
#[derive(Clone, Copy, Debug, PartialEq, Eq, Hash)]
pub struct Shortcut {
    /// The combination, as the desktop's shortcut manager spells it.
    pub accelerator: &'static str,
    pub action: Action,
}

/// The mathematical value of a [`Shortcut`].
pub struct ShortcutModel {
    pub accelerator: Seq<char>,
    pub action: Action,
}

impl View for Shortcut {
    type V = ShortcutModel;

    open spec fn view(&self) -> ShortcutModel {
        ShortcutModel { accelerator: self.accelerator@, action: self.action }
    }
}

/// The mathematical value of a list of shortcuts.
pub open spec fn shortcuts_view(list: Seq<Shortcut>) -> Seq<ShortcutModel> {
    Seq::new(list.len(), |i: int| list[i]@)
}

/// The shortcuts to register at startup, in the order to register them.
pub open spec fn shortcuts_model() -> Seq<ShortcutModel> {
    seq![
        ShortcutModel { accelerator: "Ctrl+Alt+A"@, action: Action::ToggleWindow },
        ShortcutModel { accelerator: "Ctrl+Shift+A"@, action: Action::TriggerPipeline },
    ]
}

/// The action bound to `accelerator`, if any.
pub open spec fn shortcut_action_of(accelerator: Seq<char>) -> Option<Action> {
    if accelerator == "Ctrl+Alt+A"@ {
        Some(Action::ToggleWindow)
    } else if accelerator == "Ctrl+Shift+A"@ {
        Some(Action::TriggerPipeline)
    } else {
        None
    }
}

/// The warning that a refused registration leaves behind; a registration
/// that went through leaves none.
pub open spec fn registration_warning_of(
    accelerator: Seq<char>,
    outcome: Result<(), Seq<char>>,
) -> Option<Seq<char>> {
    match outcome {
        Ok(_) => None,
        Err(reason) => Some("Could not register "@ + accelerator + " shortcut: "@ + reason),
    }
}

/// The mathematical value of what the desktop answered to a registration.
pub open spec fn outcome_view(outcome: Result<(), String>) -> Result<(), Seq<char>> {
    match outcome {
        Ok(_) => Ok(()),
        Err(reason) => Err(reason@),
    }
}

/// The shortcuts to register at startup. Each is registered on its own:
/// what one registration comes to is judged by [`registration_warning`]
/// without regard to the others.
pub fn shortcuts() -> (list: Vec<Shortcut>)
    ensures
        shortcuts_view(list@) == shortcuts_model(),
{
    let mut list: Vec<Shortcut> = Vec::new();
    list.push(Shortcut { accelerator: "Ctrl+Alt+A", action: Action::ToggleWindow });
    list.push(Shortcut { accelerator: "Ctrl+Shift+A", action: Action::TriggerPipeline });
    assert(shortcuts_view(list@) =~= shortcuts_model());
    list
}

/// Resolves a press of `accelerator`.
pub fn shortcut_action(accelerator: &str) -> (action: Option<Action>)
    ensures
        action == shortcut_action_of(accelerator@),
{
    if same_text(accelerator, "Ctrl+Alt+A") {
        Some(Action::ToggleWindow)
    } else if same_text(accelerator, "Ctrl+Shift+A") {
        Some(Action::TriggerPipeline)
    } else {
        None
    }
}

/// Judges what the desktop answered when `shortcut` was registered. A
/// refusal, such as a combination that another application owns, is worth a
/// warning and nothing more: the shortcut is skipped and startup goes on.
pub fn registration_warning(shortcut: &Shortcut, outcome: &Result<(), String>) -> (warning: Option<
    String,
>)
    ensures
        text_view(warning) == registration_warning_of(
            shortcut.accelerator@,
            outcome_view(*outcome),
        ),
{
    match outcome {
        Ok(_) => None,
        Err(reason) => Some(
            String::from_str("Could not register ").concat(shortcut.accelerator).concat(
                " shortcut: ",
            ).concat(reason.as_str()),
        ),
    }
}

/// A press of a registered shortcut resolves to the action it was
/// registered for.
pub proof fn shortcuts_resolve(i: int)
    requires
        0 <= i < shortcuts_model().len(),
    ensures
        shortcut_action_of(shortcuts_model()[i].accelerator) == Some(shortcuts_model()[i].action),
{
    reveal_strlit("Ctrl+Alt+A");
    reveal_strlit("Ctrl+Shift+A");
    assert("Ctrl+Alt+A"@.len() != "Ctrl+Shift+A"@.len());
}

} // verus!
