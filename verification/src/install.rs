use vstd::prelude::*;
use crate::error::{ErrorView, UpdateError};
use crate::progress::{
    complete_report, downloading_report, extracting_report, starting_report, DownloadProgress,
};

verus! {

/// How far an install has come. From `CreatingDirectory` to
/// `RecordingVersion` the install waits for the outcome of the action it
/// asked for last; `Complete` and `Failed` are final.
#[derive(Clone, Copy, Debug, PartialEq, Eq, Structural)]
pub enum InstallStage {
    Idle,
    CreatingDirectory,
    Requesting,
    CreatingArchive,
    Transferring,
    Extracting,
    RemovingArchive,
    RecordingVersion,
    Complete,
    Failed,
}

/// What the caller tells an install: how the action that it was asked to
/// perform came out.
#[derive(Debug, Clone, PartialEq, Eq)]
pub enum InstallEvent {
    /// The install is to start.
    Begin,
    /// The action succeeded and has nothing to tell.
    Done,
    /// The server answered the request; the length is the one it declared
    /// for the archive, if it declared one.
    ResponseStarted(Option<u64>),
    /// A chunk of so many bytes arrived and was appended to the archive.
    ChunkStored(u64),
    /// The download has no more chunks.
    StreamEnded,
    /// The action failed at the transport layer.
    NetworkFailed(String),
    /// The action failed on the file system, or the archive could not be
    /// unpacked.
    DiskFailed(String),
}

/// What an install asks of its caller.
#[derive(Debug, Clone, PartialEq, Eq)]
pub enum InstallAction {
    /// There is nothing to do.
    Nothing,
    /// Create the install directory, unless it exists.
    CreateInstallDir,
    /// Request the archive at this address.
    RequestArchive(String),
    /// Create the temporary archive, empty.
    CreateTempArchive,
    /// Read the next chunk of the download and append it to the archive.
    TransferChunk,
    /// Unpack the archive over the install directory.
    ExtractArchive,
    /// Remove the temporary archive.
    RemoveTempArchive,
    /// Write the version record for this version.
    WriteVersionRecord(String),
    /// The install is done.
    Finished,
    /// The install has ended with this error.
    Failed(UpdateError),
}

/// One step of an install: a report to pass on first, if there is one,
/// then the action to perform.
#[derive(Debug, Clone, PartialEq, Eq)]
pub struct InstallStep {
    pub report: Option<DownloadProgress>,
    pub action: InstallAction,
}

/// An install of one version from one address.
#[derive(Debug, Clone, PartialEq, Eq)]
pub struct Installer {
    pub version: String,
    pub download_url: String,
    pub stage: InstallStage,
    pub total_bytes: u64,
    pub downloaded_bytes: u64,
}

/// The mathematical value of an [`InstallEvent`].
pub enum EventView {
    Begin,
    Done,
    ResponseStarted(Option<u64>),
    ChunkStored(u64),
    StreamEnded,
    NetworkFailed(Seq<char>),
    DiskFailed(Seq<char>),
}

/// The mathematical value of an [`InstallAction`].
pub enum ActionView {
    Nothing,
    CreateInstallDir,
    RequestArchive(Seq<char>),
    CreateTempArchive,
    TransferChunk,
    ExtractArchive,
    RemoveTempArchive,
    WriteVersionRecord(Seq<char>),
    Finished,
    Failed(ErrorView),
}

/// The mathematical value of an [`InstallStep`].
pub struct StepView {
    pub report: Option<DownloadProgress>,
    pub action: ActionView,
}

/// The mathematical value of an [`Installer`].
pub struct InstallerView {
    pub version: Seq<char>,
    pub download_url: Seq<char>,
    pub stage: InstallStage,
    pub total_bytes: u64,
    pub downloaded_bytes: u64,
}

impl View for InstallEvent {
    type V = EventView;

    open spec fn view(&self) -> EventView {
        match self {
            InstallEvent::Begin => EventView::Begin,
            InstallEvent::Done => EventView::Done,
            InstallEvent::ResponseStarted(length) => EventView::ResponseStarted(*length),
            InstallEvent::ChunkStored(length) => EventView::ChunkStored(*length),
            InstallEvent::StreamEnded => EventView::StreamEnded,
            InstallEvent::NetworkFailed(cause) => EventView::NetworkFailed(cause@),
            InstallEvent::DiskFailed(cause) => EventView::DiskFailed(cause@),
        }
    }
}

impl View for InstallAction {
    type V = ActionView;

    open spec fn view(&self) -> ActionView {
        match self {
            InstallAction::Nothing => ActionView::Nothing,
            InstallAction::CreateInstallDir => ActionView::CreateInstallDir,
            InstallAction::RequestArchive(url) => ActionView::RequestArchive(url@),
            InstallAction::CreateTempArchive => ActionView::CreateTempArchive,
            InstallAction::TransferChunk => ActionView::TransferChunk,
            InstallAction::ExtractArchive => ActionView::ExtractArchive,
            InstallAction::RemoveTempArchive => ActionView::RemoveTempArchive,
            InstallAction::WriteVersionRecord(version) => ActionView::WriteVersionRecord(version@),
            InstallAction::Finished => ActionView::Finished,
            InstallAction::Failed(error) => ActionView::Failed(error@),
        }
    }
}

impl View for InstallStep {
    type V = StepView;

    open spec fn view(&self) -> StepView {
        StepView { report: self.report, action: self.action@ }
    }
}

impl View for Installer {
    type V = InstallerView;

    open spec fn view(&self) -> InstallerView {
        InstallerView {
            version: self.version@,
            download_url: self.download_url@,
            stage: self.stage,
            total_bytes: self.total_bytes,
            downloaded_bytes: self.downloaded_bytes,
        }
    }
}

impl InstallStage {
    /// The install waits for the outcome of an action.
    pub open spec fn is_pending(self) -> bool {
        !(self is Idle) && !(self is Complete) && !(self is Failed)
    }

    /// The install waits for the outcome of an action.
    pub fn pending(self) -> (waiting: bool)
        ensures
            waiting == self.is_pending(),
    {
        match self {
            InstallStage::Idle => false,
            InstallStage::Complete => false,
            InstallStage::Failed => false,
            _ => true,
        }
    }
}

impl InstallerView {
    /// The same install at another stage.
    pub open spec fn at(self, stage: InstallStage) -> InstallerView {
        InstallerView { stage, ..self }
    }
}

/// An install that has not begun.
pub open spec fn fresh_install(version: Seq<char>, download_url: Seq<char>) -> InstallerView {
    InstallerView {
        version,
        download_url,
        stage: InstallStage::Idle,
        total_bytes: 0,
        downloaded_bytes: 0,
    }
}

/// The step that asks for nothing.
pub open spec fn idle_step() -> StepView {
    StepView { report: None, action: ActionView::Nothing }
}

/// A step without a report.
pub open spec fn silent(action: ActionView) -> StepView {
    StepView { report: None, action }
}

/// The count of stored bytes stays within the machine's range when the
/// event is taken in.
pub open spec fn fits(state: InstallerView, event: EventView) -> bool {
    state.stage is Transferring && event is ChunkStored ==> state.downloaded_bytes
        + event->ChunkStored_0 <= u64::MAX
}

/// The install after an event, and the step it takes on it.
///
/// The install goes through its stages in one order: it reports the start
/// and has the directory created, requests the archive, has the temporary
/// archive created, has chunk after chunk transferred with a report after
/// each, reports the extraction and has the archive unpacked, has the
/// temporary archive removed, and only then has the version record
/// written; last it reports completion. A failure at any pending stage ends
/// the install with its error. An event that the stage does not wait for
/// changes nothing and asks for nothing.
pub open spec fn next(state: InstallerView, event: EventView) -> (InstallerView, StepView)
    recommends
        fits(state, event),
{
    match event {
        EventView::Begin => if state.stage is Idle {
            (
                state.at(InstallStage::CreatingDirectory),
                StepView { report: Some(starting_report()), action: ActionView::CreateInstallDir },
            )
        } else {
            (state, idle_step())
        },
        EventView::Done => match state.stage {
            InstallStage::CreatingDirectory => (
                state.at(InstallStage::Requesting),
                silent(ActionView::RequestArchive(state.download_url)),
            ),
            InstallStage::CreatingArchive => (
                state.at(InstallStage::Transferring),
                silent(ActionView::TransferChunk),
            ),
            InstallStage::Extracting => (
                state.at(InstallStage::RemovingArchive),
                silent(ActionView::RemoveTempArchive),
            ),
            InstallStage::RemovingArchive => (
                state.at(InstallStage::RecordingVersion),
                silent(ActionView::WriteVersionRecord(state.version)),
            ),
            InstallStage::RecordingVersion => (
                state.at(InstallStage::Complete),
                StepView {
                    report: Some(complete_report(state.total_bytes)),
                    action: ActionView::Finished,
                },
            ),
            _ => (state, idle_step()),
        },
        EventView::ResponseStarted(declared) => if state.stage is Requesting {
            (
                InstallerView {
                    stage: InstallStage::CreatingArchive,
                    total_bytes: match declared {
                        Some(length) => length,
                        None => 0,
                    },
                    ..state
                },
                silent(ActionView::CreateTempArchive),
            )
        } else {
            (state, idle_step())
        },
        EventView::ChunkStored(length) => if state.stage is Transferring {
            let downloaded = (state.downloaded_bytes + length) as u64;
            (
                InstallerView { downloaded_bytes: downloaded, ..state },
                StepView {
                    report: Some(downloading_report(downloaded, state.total_bytes)),
                    action: ActionView::TransferChunk,
                },
            )
        } else {
            (state, idle_step())
        },
        EventView::StreamEnded => if state.stage is Transferring {
            (
                state.at(InstallStage::Extracting),
                StepView {
                    report: Some(extracting_report(state.total_bytes)),
                    action: ActionView::ExtractArchive,
                },
            )
        } else {
            (state, idle_step())
        },
        EventView::NetworkFailed(cause) => if state.stage.is_pending() {
            (
                state.at(InstallStage::Failed),
                silent(ActionView::Failed(ErrorView::Network(cause))),
            )
        } else {
            (state, idle_step())
        },
        EventView::DiskFailed(cause) => if state.stage.is_pending() {
            (
                state.at(InstallStage::Failed),
                silent(ActionView::Failed(ErrorView::Filesystem(cause))),
            )
        } else {
            (state, idle_step())
        },
    }
}

/// Sets up the install of `version` from `download_url`. Nothing happens
/// until the install is told to begin.
pub fn download_update(version: &str, download_url: &str) -> (installer: Installer)
    ensures
        installer@ == fresh_install(version@, download_url@),
{
    Installer {
        version: version.to_owned(),
        download_url: download_url.to_owned(),
        stage: InstallStage::Idle,
        total_bytes: 0,
        downloaded_bytes: 0,
    }
}

impl Installer {
    fn quiet(action: InstallAction) -> (taken: InstallStep)
        ensures
            taken@ == silent(action@),
    {
        InstallStep { report: None, action }
    }

    fn on_done(&mut self) -> (taken: InstallStep)
        ensures
            (final(self)@, taken@) == next(old(self)@, EventView::Done),
    {
        match self.stage {
            InstallStage::CreatingDirectory => {
                self.stage = InstallStage::Requesting;
                Self::quiet(InstallAction::RequestArchive(self.download_url.clone()))
            },
            InstallStage::CreatingArchive => {
                self.stage = InstallStage::Transferring;
                Self::quiet(InstallAction::TransferChunk)
            },
            InstallStage::Extracting => {
                self.stage = InstallStage::RemovingArchive;
                Self::quiet(InstallAction::RemoveTempArchive)
            },
            InstallStage::RemovingArchive => {
                self.stage = InstallStage::RecordingVersion;
                Self::quiet(InstallAction::WriteVersionRecord(self.version.clone()))
            },
            InstallStage::RecordingVersion => {
                self.stage = InstallStage::Complete;
                InstallStep {
                    report: Some(DownloadProgress::complete(self.total_bytes)),
                    action: InstallAction::Finished,
                }
            },
            _ => Self::quiet(InstallAction::Nothing),
        }
    }

    fn on_failure(&mut self, error: UpdateError) -> (taken: InstallStep)
        ensures
            final(self)@ == if old(self).stage.is_pending() {
                old(self)@.at(InstallStage::Failed)
            } else {
                old(self)@
            },
            taken@ == if old(self).stage.is_pending() {
                silent(ActionView::Failed(error@))
            } else {
                idle_step()
            },
    {
        if self.stage.pending() {
            self.stage = InstallStage::Failed;
            Self::quiet(InstallAction::Failed(error))
        } else {
            Self::quiet(InstallAction::Nothing)
        }
    }

    /// Takes in the outcome of the action asked for last, and says what
    /// is to be done next.
    pub fn step(&mut self, event: InstallEvent) -> (taken: InstallStep)
        requires
            fits(old(self)@, event@),
        ensures
            (final(self)@, taken@) == next(old(self)@, event@),
    {
        match event {
            InstallEvent::Begin => {
                if let InstallStage::Idle = self.stage {
                    self.stage = InstallStage::CreatingDirectory;
                    InstallStep {
                        report: Some(DownloadProgress::starting()),
                        action: InstallAction::CreateInstallDir,
                    }
                } else {
                    Self::quiet(InstallAction::Nothing)
                }
            },
            InstallEvent::Done => self.on_done(),
            InstallEvent::ResponseStarted(declared) => {
                if let InstallStage::Requesting = self.stage {
                    self.stage = InstallStage::CreatingArchive;
                    self.total_bytes = match declared {
                        Some(length) => length,
                        None => 0,
                    };
                    Self::quiet(InstallAction::CreateTempArchive)
                } else {
                    Self::quiet(InstallAction::Nothing)
                }
            },
            InstallEvent::ChunkStored(length) => {
                if let InstallStage::Transferring = self.stage {
                    self.downloaded_bytes = self.downloaded_bytes + length;
                    InstallStep {
                        report: Some(
                            DownloadProgress::downloading(self.downloaded_bytes, self.total_bytes),
                        ),
                        action: InstallAction::TransferChunk,
                    }
                } else {
                    Self::quiet(InstallAction::Nothing)
                }
            },
            InstallEvent::StreamEnded => {
                if let InstallStage::Transferring = self.stage {
                    self.stage = InstallStage::Extracting;
                    InstallStep {
                        report: Some(DownloadProgress::extracting(self.total_bytes)),
                        action: InstallAction::ExtractArchive,
                    }
                } else {
                    Self::quiet(InstallAction::Nothing)
                }
            },
            InstallEvent::NetworkFailed(cause) => self.on_failure(UpdateError::Network(cause)),
            InstallEvent::DiskFailed(cause) => self.on_failure(UpdateError::Filesystem(cause)),
        }
    }

    /// Whether `event` can be taken in: the count of stored bytes must
    /// stay within the machine's range.
    pub fn accepts(&self, event: &InstallEvent) -> (fitting: bool)
        ensures
            fitting == fits(self@, event@),
    {
        match (self.stage, event) {
            (InstallStage::Transferring, InstallEvent::ChunkStored(length)) => *length
                <= u64::MAX - self.downloaded_bytes,
            _ => true,
        }
    }
}

/// What is to be done when the application is to be removed.
#[derive(Clone, Copy, Debug, PartialEq, Eq, Structural)]
pub enum UninstallAction {
    /// The install directory does not exist: there is nothing to do.
    Nothing,
    /// Remove the install directory with all that it holds, the version
    /// record among it.
    RemoveInstallDir,
}

/// Decides how the application is removed: the whole install directory
/// goes if it exists, and nothing is touched if it does not.
pub fn uninstall_game(install_dir_exists: bool) -> (action: UninstallAction)
    ensures
        action == if install_dir_exists {
            UninstallAction::RemoveInstallDir
        } else {
            UninstallAction::Nothing
        },
{
    if install_dir_exists {
        UninstallAction::RemoveInstallDir
    } else {
        UninstallAction::Nothing
    }
}

} // verus!
