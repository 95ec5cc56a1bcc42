//! The closed set of operations a user can trigger.

use vstd::prelude::*;

verus! {

/// One operation of the control plane. Every stimulus, whatever its source,
/// is resolved to one of these before anything happens to the window.
#[derive(Clone, Copy, Debug, PartialEq, Eq, Hash, Structural)]
pub enum Action {
    /// Hide the window if it is visible, show it otherwise.
    ToggleWindow,
    /// Start the voice pipeline, showing the window first if it is hidden.
    TriggerPipeline,
    /// Bring the window to the settings view.
    OpenSettings,
    /// Open the place where the logs are kept.
    OpenLogs,
    /// Open the page that lists the published releases.
    CheckUpdates,
    /// Open the log directory in the desktop's file manager.
    OpenLogsDirectory,
    /// Hide the window and end the process.
    Quit,
}

/// A command that a launch of the executable carries in its arguments.
#[derive(Clone, Copy, Debug, PartialEq, Eq, Hash, Structural)]
pub enum InstanceCommand {
    /// The launch asks for the voice pipeline.
    TriggerVoicePipeline,
}

impl InstanceCommand {
    /// The action that carries the command out.
    pub open spec fn action_of(self) -> Action {
        Action::TriggerPipeline
    }

    /// The action that carries the command out.
    pub fn action(self) -> (action: Action)
        ensures
            action == self.action_of(),
    {
        match self {
            InstanceCommand::TriggerVoicePipeline => Action::TriggerPipeline,
        }
    }
}

} // verus!
