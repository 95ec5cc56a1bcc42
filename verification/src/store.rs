//! The settings store: loading and saving the preferences, step by step.
//!
//! The store keeps nothing in memory between calls and touches no file
//! itself. A load or a save is a short conversation: each step names the one
//! thing the host has to do next, and the host's reply decides the step after
//! it. [`DiskModel`] describes a disk that answers faithfully, and the
//! theorems at the end of the file say what loading and saving come to on
//! such a disk.

use crate::settings::{
    backfill, default_settings, default_tray, CommandError, Settings, SettingsModel,
};
use vstd::prelude::*;

verus! {

/// Where a load stands: what the host is asked to do next, or how the load
/// ended.
#[derive(Clone, Debug, PartialEq, Eq, Hash)]
pub enum LoadStep {
    /// Say whether the configuration directory exists.
    CheckDirectory,
    /// Create the configuration directory and what lies above it.
    CreateDirectory,
    /// Say whether the settings file exists.
    CheckFile,
    /// Create the settings file with this content.
    WriteDefaults(Settings),
    /// Read the settings file and decode it.
    ReadDocument,
    /// The load is over: these are the settings, tray preference included.
    Loaded(Settings),
    /// The load is over: it failed.
    Failed(CommandError),
}

/// Where a save stands.
#[derive(Clone, Debug, PartialEq, Eq, Hash)]
pub enum SaveStep {
    /// Replace the content of the settings file by this value.
    WriteDocument(Settings),
    /// The save is over: the file holds the value.
    Saved,
    /// The save is over: it failed.
    Failed(CommandError),
}

/// What the host answers to a step.
#[derive(Debug, PartialEq, Eq)]
pub enum StoreReply {
    /// Whether the directory or file asked about exists.
    Exists(bool),
    /// How creating the directory or writing the file went.
    Completed(Result<(), CommandError>),
    /// What the file decoded to, or why it could not be opened or decoded.
    Document(Result<Settings, CommandError>),
}

/// The mathematical value of a [`LoadStep`].
pub enum LoadStepModel {
    CheckDirectory,
    CreateDirectory,
    CheckFile,
    WriteDefaults(SettingsModel),
    ReadDocument,
    Loaded(SettingsModel),
    Failed(Seq<char>),
}

/// The mathematical value of a [`SaveStep`].
pub enum SaveStepModel {
    WriteDocument(SettingsModel),
    Saved,
    Failed(Seq<char>),
}

/// The mathematical value of a [`StoreReply`].
pub enum StoreReplyModel {
    Exists(bool),
    Completed(Result<(), Seq<char>>),
    Document(Result<SettingsModel, Seq<char>>),
}

impl View for LoadStep {
    type V = LoadStepModel;

    open spec fn view(&self) -> LoadStepModel {
        match *self {
            LoadStep::CheckDirectory => LoadStepModel::CheckDirectory,
            LoadStep::CreateDirectory => LoadStepModel::CreateDirectory,
            LoadStep::CheckFile => LoadStepModel::CheckFile,
            LoadStep::WriteDefaults(settings) => LoadStepModel::WriteDefaults(settings@),
            LoadStep::ReadDocument => LoadStepModel::ReadDocument,
            LoadStep::Loaded(settings) => LoadStepModel::Loaded(settings@),
            LoadStep::Failed(error) => LoadStepModel::Failed(error@),
        }
    }
}

impl View for SaveStep {
    type V = SaveStepModel;

    open spec fn view(&self) -> SaveStepModel {
        match *self {
            SaveStep::WriteDocument(settings) => SaveStepModel::WriteDocument(settings@),
            SaveStep::Saved => SaveStepModel::Saved,
            SaveStep::Failed(error) => SaveStepModel::Failed(error@),
        }
    }
}

impl View for StoreReply {
    type V = StoreReplyModel;

    open spec fn view(&self) -> StoreReplyModel {
        match *self {
            StoreReply::Exists(exists) => StoreReplyModel::Exists(exists),
            StoreReply::Completed(Ok(())) => StoreReplyModel::Completed(Ok(())),
            StoreReply::Completed(Err(error)) => StoreReplyModel::Completed(Err(error@)),
            StoreReply::Document(Ok(settings)) => StoreReplyModel::Document(Ok(settings@)),
            StoreReply::Document(Err(error)) => StoreReplyModel::Document(Err(error@)),
        }
    }
}

/// The step that follows `step` once the host has answered `reply`.
///
/// A missing directory is created and a missing file is written with the
/// default settings before anything is read. What is read is back-filled. A
/// failure to create, write, open or decode ends the load with the host's
/// message. A reply that does not answer the step leaves the step as it is.
pub open spec fn load_next(step: LoadStepModel, reply: StoreReplyModel) -> LoadStepModel {
    match (step, reply) {
        (LoadStepModel::CheckDirectory, StoreReplyModel::Exists(true)) => LoadStepModel::CheckFile,
        (LoadStepModel::CheckDirectory, StoreReplyModel::Exists(false)) => {
            LoadStepModel::CreateDirectory
        },
        (LoadStepModel::CreateDirectory, StoreReplyModel::Completed(Ok(_))) => {
            LoadStepModel::CheckFile
        },
        (LoadStepModel::CreateDirectory, StoreReplyModel::Completed(Err(message))) => {
            LoadStepModel::Failed(message)
        },
        (LoadStepModel::CheckFile, StoreReplyModel::Exists(true)) => LoadStepModel::ReadDocument,
        (LoadStepModel::CheckFile, StoreReplyModel::Exists(false)) => LoadStepModel::WriteDefaults(
            default_settings(),
        ),
        (LoadStepModel::WriteDefaults(_), StoreReplyModel::Completed(Ok(_))) => {
            LoadStepModel::ReadDocument
        },
        (LoadStepModel::WriteDefaults(_), StoreReplyModel::Completed(Err(message))) => {
            LoadStepModel::Failed(message)
        },
        (LoadStepModel::ReadDocument, StoreReplyModel::Document(Ok(settings))) => {
            LoadStepModel::Loaded(backfill(settings))
        },
        (LoadStepModel::ReadDocument, StoreReplyModel::Document(Err(message))) => {
            LoadStepModel::Failed(message)
        },
        _ => step,
    }
}

/// The step that follows `step` of a save once the host has answered
/// `reply`.
pub open spec fn save_next(step: SaveStepModel, reply: StoreReplyModel) -> SaveStepModel {
    match (step, reply) {
        (SaveStepModel::WriteDocument(_), StoreReplyModel::Completed(Ok(_))) => SaveStepModel::Saved,
        (SaveStepModel::WriteDocument(_), StoreReplyModel::Completed(Err(message))) => {
            SaveStepModel::Failed(message)
        },
        _ => step,
    }
}

/// Begins a load of the settings.
pub fn load_settings() -> (step: LoadStep)
    ensures
        step@ == LoadStepModel::CheckDirectory,
{
    LoadStep::CheckDirectory
}

/// Begins a save of `settings`, which replaces the stored value whole.
pub fn update_settings(settings: Settings) -> (step: SaveStep)
    ensures
        step@ == SaveStepModel::WriteDocument(settings@),
{
    SaveStep::WriteDocument(settings)
}

impl LoadStep {
    /// The step that follows once the host has answered `reply`.
    pub fn advance(self, reply: StoreReply) -> (next: LoadStep)
        ensures
            next@ == load_next(self@, reply@),
    {
        match (self, reply) {
            (LoadStep::CheckDirectory, StoreReply::Exists(exists)) => {
                if exists {
                    LoadStep::CheckFile
                } else {
                    LoadStep::CreateDirectory
                }
            },
            (LoadStep::CreateDirectory, StoreReply::Completed(done)) => {
                match done {
                    Ok(_) => LoadStep::CheckFile,
                    Err(error) => LoadStep::Failed(error),
                }
            },
            (LoadStep::CheckFile, StoreReply::Exists(exists)) => {
                if exists {
                    LoadStep::ReadDocument
                } else {
                    LoadStep::WriteDefaults(Settings::default())
                }
            },
            (LoadStep::WriteDefaults(_), StoreReply::Completed(done)) => {
                match done {
                    Ok(_) => LoadStep::ReadDocument,
                    Err(error) => LoadStep::Failed(error),
                }
            },
            (LoadStep::ReadDocument, StoreReply::Document(document)) => {
                match document {
                    Ok(settings) => LoadStep::Loaded(settings.backfilled()),
                    Err(error) => LoadStep::Failed(error),
                }
            },
            (step, _) => step,
        }
    }
}

impl SaveStep {
    /// The step that follows once the host has answered `reply`.
    pub fn advance(self, reply: StoreReply) -> (next: SaveStep)
        ensures
            next@ == save_next(self@, reply@),
    {
        match (self, reply) {
            (SaveStep::WriteDocument(_), StoreReply::Completed(done)) => {
                match done {
                    Ok(_) => SaveStep::Saved,
                    Err(error) => SaveStep::Failed(error),
                }
            },
            (step, _) => step,
        }
    }
}

/// A disk as the store sees it: whether the configuration directory exists,
/// and what the settings file decodes to if there is one.
pub struct DiskModel {
    pub directory: bool,
    pub document: Option<SettingsModel>,
}

/// The disk after a faithful host has carried out `step`, and the host's
/// reply. Creating the directory succeeds. Writing succeeds where the
/// directory exists, and the file then decodes to what was written. Reading
/// fails only where there is no file.
pub open spec fn serve_load(disk: DiskModel, step: LoadStepModel) -> (DiskModel, StoreReplyModel) {
    match step {
        LoadStepModel::CheckDirectory => (disk, StoreReplyModel::Exists(disk.directory)),
        LoadStepModel::CreateDirectory => (
            DiskModel { directory: true, document: disk.document },
            StoreReplyModel::Completed(Ok(())),
        ),
        LoadStepModel::CheckFile => (disk, StoreReplyModel::Exists(disk.document is Some)),
        LoadStepModel::WriteDefaults(settings) => write_document(disk, settings),
        LoadStepModel::ReadDocument => (
            disk,
            match disk.document {
                Some(settings) => StoreReplyModel::Document(Ok(settings)),
                None => StoreReplyModel::Document(Err("no such file"@)),
            },
        ),
        LoadStepModel::Loaded(_) => (disk, StoreReplyModel::Exists(true)),
        LoadStepModel::Failed(_) => (disk, StoreReplyModel::Exists(true)),
    }
}

/// The disk after a faithful host was asked to write `settings`, and the
/// host's reply.
pub open spec fn write_document(disk: DiskModel, settings: SettingsModel) -> (
    DiskModel,
    StoreReplyModel,
) {
    if disk.directory {
        (
            DiskModel { directory: true, document: Some(settings) },
            StoreReplyModel::Completed(Ok(())),
        )
    } else {
        (disk, StoreReplyModel::Completed(Err("no such directory"@)))
    }
}

/// The disk and the step after at most `rounds` exchanges with a faithful
/// host, starting at `step`.
pub open spec fn load_run(disk: DiskModel, step: LoadStepModel, rounds: nat) -> (
    DiskModel,
    LoadStepModel,
)
    decreases rounds,
{
    if rounds == 0 || step is Loaded || step is Failed {
        (disk, step)
    } else {
        let (after, reply) = serve_load(disk, step);
        load_run(after, load_next(step, reply), (rounds - 1) as nat)
    }
}

/// A whole load on `disk`: no load asks the host for more than five things.
pub open spec fn load_on(disk: DiskModel) -> (DiskModel, LoadStepModel) {
    load_run(disk, LoadStepModel::CheckDirectory, 5)
}

/// A whole save of `settings` on `disk`.
pub open spec fn save_on(disk: DiskModel, settings: SettingsModel) -> (DiskModel, SaveStepModel) {
    let (after, reply) = write_document(disk, settings);
    (after, save_next(SaveStepModel::WriteDocument(settings), reply))
}

/// On a disk without a settings file a load creates what is missing, leaves
/// the default settings in the file and returns them, tray preference
/// included.
pub proof fn load_creates_defaults(disk: DiskModel)
    requires
        disk.document is None,
    ensures
        load_on(disk).1 == LoadStepModel::Loaded(default_settings()),
        load_on(disk).0 == (DiskModel { directory: true, document: Some(default_settings()) }),
        default_settings().tray is Some,
{
    reveal_with_fuel(load_run, 6);
}

/// On a disk with a settings file a load returns what the file holds, with
/// a missing tray preference filled in, and leaves the disk as it was: the
/// file is not rewritten.
pub proof fn load_leaves_file_alone(disk: DiskModel)
    requires
        disk.directory,
        disk.document is Some,
    ensures
        load_on(disk).1 == LoadStepModel::Loaded(backfill(disk.document->0)),
        load_on(disk).0 == disk,
{
    reveal_with_fuel(load_run, 6);
}

/// A save succeeds where the configuration directory exists, and a load
/// after a successful save returns what was saved: the value itself where
/// it states a tray preference, and the value with the default preference
/// where it does not.
pub proof fn load_returns_what_was_saved(disk: DiskModel, settings: SettingsModel)
    ensures
        disk.directory ==> save_on(disk, settings).1 is Saved,
        save_on(disk, settings).1 is Saved ==> load_on(save_on(disk, settings).0).1
            == LoadStepModel::Loaded(backfill(settings)),
        settings.tray is Some ==> backfill(settings) == settings,
        settings.tray is None ==> backfill(settings) == (SettingsModel {
            autostart: settings.autostart,
            home_assistant: settings.home_assistant,
            tray: Some(default_tray()),
        }),
{
    reveal_with_fuel(load_run, 6);
}

/// Whether `reply` is an answer to what `step` asks.
pub open spec fn answers(step: LoadStepModel, reply: StoreReplyModel) -> bool {
    match step {
        LoadStepModel::CheckDirectory | LoadStepModel::CheckFile => reply is Exists,
        LoadStepModel::CreateDirectory | LoadStepModel::WriteDefaults(_) => reply is Completed,
        LoadStepModel::ReadDocument => reply is Document,
        LoadStepModel::Loaded(_) | LoadStepModel::Failed(_) => false,
    }
}

/// An upper bound on the requests that a load at `step` still makes.
pub open spec fn requests_left(step: LoadStepModel) -> nat {
    match step {
        LoadStepModel::CheckDirectory => 5,
        LoadStepModel::CreateDirectory => 4,
        LoadStepModel::CheckFile => 3,
        LoadStepModel::WriteDefaults(_) => 2,
        LoadStepModel::ReadDocument => 1,
        LoadStepModel::Loaded(_) | LoadStepModel::Failed(_) => 0,
    }
}

/// Every answer brings a load nearer to its end, so that no load makes more
/// than five requests; anything else leaves the load where it stands. A
/// load that ended in `Loaded` holds settings with a tray preference.
pub proof fn load_makes_progress(step: LoadStepModel, reply: StoreReplyModel)
    ensures
        answers(step, reply) ==> requests_left(load_next(step, reply)) < requests_left(step),
        !answers(step, reply) ==> load_next(step, reply) == step,
        answers(step, reply) ==> (load_next(step, reply) matches LoadStepModel::Loaded(settings)
            ==> settings.tray is Some),
{
}

} // verus!
