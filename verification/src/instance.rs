//! The single-instance gateway: what a launch of the executable does when
//! an instance may already be running.

use crate::action::{Action, InstanceCommand};
use crate::text::{same_text, texts};
use vstd::prelude::*;

verus! {

/// What a launch decides.
#[derive(Clone, Debug, PartialEq, Eq, Hash)]
pub enum Launch {
    /// No instance is running: this process becomes the instance, creates
    /// the window and the tray icon, and runs `startup` if there is one.
    Primary { startup: Option<Action> },
    /// An instance is running: this process hands it `arguments` and exits
    /// without creating anything.
    Secondary { arguments: Vec<String> },
}

/// The mathematical value of a [`Launch`].
pub enum LaunchModel {
    Primary { startup: Option<Action> },
    Secondary { arguments: Seq<Seq<char>> },
}

impl View for Launch {
    type V = LaunchModel;

    open spec fn view(&self) -> LaunchModel {
        match *self {
            Launch::Primary { startup } => LaunchModel::Primary { startup },
            Launch::Secondary { arguments } => LaunchModel::Secondary {
                arguments: texts(arguments@),
            },
        }
    }
}

/// The flag that asks for the voice pipeline.
pub open spec fn trigger_flag() -> Seq<char> {
    "--trigger-voice"@
}

/// The command that `arguments` carry: the voice pipeline where the flag
/// occurs among them, however often; otherwise none.
pub open spec fn instance_command_of(arguments: Seq<Seq<char>>) -> Option<InstanceCommand> {
    if exists|i: int| 0 <= i < arguments.len() && arguments[i] == trigger_flag() {
        Some(InstanceCommand::TriggerVoicePipeline)
    } else {
        None
    }
}

/// The action that `arguments` ask of the instance that receives them.
pub open spec fn requested_action(arguments: Seq<Seq<char>>) -> Option<Action> {
    match instance_command_of(arguments) {
        Some(command) => Some(command.action_of()),
        None => None,
    }
}

/// What a launch with `arguments` decides, given whether an instance is
/// running.
pub open spec fn launch_model(running: bool, arguments: Seq<Seq<char>>) -> LaunchModel {
    if running {
        LaunchModel::Secondary { arguments }
    } else {
        LaunchModel::Primary { startup: requested_action(arguments) }
    }
}

/// Scans `arguments` for a command.
pub fn instance_command(arguments: &Vec<String>) -> (command: Option<InstanceCommand>)
    ensures
        command == instance_command_of(texts(arguments@)),
{
    let mut i: usize = 0;
    while i < arguments.len()
        invariant
            i <= arguments.len(),
            forall|j: int| 0 <= j < i ==> texts(arguments@)[j] != trigger_flag(),
        decreases arguments.len() - i,
    {
        if same_text(arguments[i].as_str(), "--trigger-voice") {
            assert(texts(arguments@)[i as int] == trigger_flag());
            return Some(InstanceCommand::TriggerVoicePipeline);
        }
        i += 1;
    }
    None
}

/// Decides what this launch does. `running` says whether another process
/// already owns the instance.
pub fn on_launch(running: bool, arguments: Vec<String>) -> (launch: Launch)
    ensures
        launch@ == launch_model(running, texts(arguments@)),
{
    if running {
        Launch::Secondary { arguments }
    } else {
        Launch::Primary { startup: on_forwarded(&arguments) }
    }
}

/// Resolves the arguments that a later launch handed to the running
/// instance.
pub fn on_forwarded(arguments: &Vec<String>) -> (action: Option<Action>)
    ensures
        action == requested_action(texts(arguments@)),
{
    match instance_command(arguments) {
        Some(command) => Some(command.action()),
        None => None,
    }
}

/// The desktop as the gateway sees it: how many windows of the application
/// exist, and the actions dispatched to the running instance so far.
pub struct DesktopModel {
    pub windows: nat,
    pub dispatched: Seq<Action>,
}

/// `dispatched` followed by `action`, if there is one.
pub open spec fn then_dispatch(dispatched: Seq<Action>, action: Option<Action>) -> Seq<Action> {
    match action {
        Some(action) => dispatched.push(action),
        None => dispatched,
    }
}

/// The desktop after a launch with `arguments`, where what a secondary
/// launch hands over arrives.
pub open spec fn after_launch(desktop: DesktopModel, arguments: Seq<Seq<char>>) -> DesktopModel {
    match launch_model(desktop.windows > 0, arguments) {
        LaunchModel::Primary { startup } => DesktopModel {
            windows: desktop.windows + 1,
            dispatched: then_dispatch(desktop.dispatched, startup),
        },
        LaunchModel::Secondary { arguments } => DesktopModel {
            windows: desktop.windows,
            dispatched: then_dispatch(desktop.dispatched, requested_action(arguments)),
        },
    }
}

/// After any launch at most one window exists, given that at most one
/// existed before; a desktop without a window has one afterwards.
pub proof fn at_most_one_window(desktop: DesktopModel, arguments: Seq<Seq<char>>)
    requires
        desktop.windows <= 1,
    ensures
        after_launch(desktop, arguments).windows == 1,
{
}

/// A launch with the trigger flag while an instance is running creates no
/// window, and the running instance is dispatched the voice pipeline exactly
/// once, however often the flag occurs.
pub proof fn second_launch_forwards_trigger(
    desktop: DesktopModel,
    arguments: Seq<Seq<char>>,
    at: int,
)
    requires
        desktop.windows == 1,
        0 <= at < arguments.len(),
        arguments[at] == trigger_flag(),
    ensures
        launch_model(true, arguments) == (LaunchModel::Secondary { arguments }),
        after_launch(desktop, arguments).windows == 1,
        after_launch(desktop, arguments).dispatched == desktop.dispatched.push(
            Action::TriggerPipeline,
        ),
{
}

/// A launch without the trigger flag dispatches nothing.
pub proof fn launch_without_flag_is_silent(desktop: DesktopModel, arguments: Seq<Seq<char>>)
    requires
        forall|i: int| 0 <= i < arguments.len() ==> arguments[i] != trigger_flag(),
    ensures
        after_launch(desktop, arguments).dispatched == desktop.dispatched,
{
}

} // verus!
