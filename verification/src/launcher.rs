//! The course of one launch, from the first directory to the started game.
//!
//! The launcher touches neither disk nor network nor processes. It says what
//! has to be done next, is told how that went, and decides what follows.

use vstd::prelude::*;
use crate::descriptor::{DescriptorView, VersionDescriptor};
use crate::error::{LaunchError, LaunchErrorView};
use crate::layout::{folder_path, following, DirectoryLayout, Folder, LayoutView};
use crate::plan::{launch_plan, plan_launch, LaunchPlan, PlanView};
use crate::platform::Platform;
use crate::resolve::{all_have_artifacts, first_missing, lemma_first_missing_is_unique};

verus! {

/// What the caller reports back, as a contract sees it.
pub enum EventView {
    FolderPresent,
    FolderMissing,
    FolderBlocked,
    FolderCreated,
    FolderAlreadyExists,
    FolderRefused { reason: Seq<char> },
    Fetched { descriptor: DescriptorView },
    FetchFailed { reason: Seq<char> },
    Spawned,
    SpawnFailed { reason: Seq<char> },
}

/// What the caller reports back to the launcher.
#[derive(Debug, PartialEq, Eq)]
pub enum Event {
    /// The directory asked about exists.
    FolderPresent,
    /// Nothing exists at the path asked about.
    FolderMissing,
    /// Something that is no directory exists at the path asked about.
    FolderBlocked,
    /// The directory was created.
    FolderCreated,
    /// The directory was not created because it had come to exist meanwhile.
    FolderAlreadyExists,
    /// The directory could not be created, for the reason given.
    FolderRefused { reason: String },
    /// The version was fetched, and its libraries and assets are on disk.
    Fetched { descriptor: VersionDescriptor },
    /// The version could not be fetched.
    FetchFailed { reason: String },
    /// The runtime was started.
    Spawned,
    /// The runtime could not be started.
    SpawnFailed { reason: String },
}

impl View for Event {
    type V = EventView;

    open spec fn view(&self) -> EventView {
        match self {
            Event::FolderPresent => EventView::FolderPresent,
            Event::FolderMissing => EventView::FolderMissing,
            Event::FolderBlocked => EventView::FolderBlocked,
            Event::FolderCreated => EventView::FolderCreated,
            Event::FolderAlreadyExists => EventView::FolderAlreadyExists,
            Event::FolderRefused { reason } => EventView::FolderRefused { reason: reason@ },
            Event::Fetched { descriptor } => EventView::Fetched { descriptor: descriptor@ },
            Event::FetchFailed { reason } => EventView::FetchFailed { reason: reason@ },
            Event::Spawned => EventView::Spawned,
            Event::SpawnFailed { reason } => EventView::SpawnFailed { reason: reason@ },
        }
    }
}

/// What the launcher asks of the caller, as a contract sees it.
pub enum ActionView {
    ProbeFolder { path: Seq<char> },
    CreateFolder { path: Seq<char> },
    Fetch { version_id: Seq<char> },
    Spawn { plan: PlanView },
    Finish,
    Abort { error: LaunchErrorView },
}

/// What the launcher asks of the caller.
#[derive(Debug, PartialEq, Eq)]
pub enum Action {
    /// Find out what exists at `path`.
    ProbeFolder { path: String },
    /// Create the directory `path`; its parent exists.
    CreateFolder { path: String },
    /// Fetch the version and everything it refers to.
    Fetch { version_id: String },
    /// Start the runtime as the plan says, with the streams of this process,
    /// and do not wait for it.
    Spawn { plan: LaunchPlan },
    /// Nothing is left to do: the game runs.
    Finish,
    /// Nothing is left to do: the launch failed.
    Abort { error: LaunchError },
}

impl View for Action {
    type V = ActionView;

    open spec fn view(&self) -> ActionView {
        match self {
            Action::ProbeFolder { path } => ActionView::ProbeFolder { path: path@ },
            Action::CreateFolder { path } => ActionView::CreateFolder { path: path@ },
            Action::Fetch { version_id } => ActionView::Fetch { version_id: version_id@ },
            Action::Spawn { plan } => ActionView::Spawn { plan: plan@ },
            Action::Finish => ActionView::Finish,
            Action::Abort { error } => ActionView::Abort { error: error@ },
        }
    }
}

/// How far a launch has come, as a contract sees it.
pub enum PhaseView {
    Probing { folder: Folder },
    Creating { folder: Folder },
    Fetching,
    Spawning { plan: PlanView },
    Started,
    Failed { error: LaunchErrorView },
}

/// How far a launch has come.
enum Phase {
    /// Waiting to hear what exists at the path of `folder`.
    Probing { folder: Folder },
    /// Waiting to hear whether `folder` was created.
    Creating { folder: Folder },
    /// The layout is complete; waiting for the version.
    Fetching,
    /// Waiting to hear whether the runtime started.
    Spawning { plan: LaunchPlan },
    /// The runtime was started.
    Started,
    /// The launch was given up.
    Failed { error: LaunchError },
}

impl View for Phase {
    type V = PhaseView;

    closed spec fn view(&self) -> PhaseView {
        match self {
            Phase::Probing { folder } => PhaseView::Probing { folder: *folder },
            Phase::Creating { folder } => PhaseView::Creating { folder: *folder },
            Phase::Fetching => PhaseView::Fetching,
            Phase::Spawning { plan } => PhaseView::Spawning { plan: plan@ },
            Phase::Started => PhaseView::Started,
            Phase::Failed { error } => PhaseView::Failed { error: error@ },
        }
    }
}

/// The phase that follows when `folder` is known to exist.
pub open spec fn after_folder(folder: Folder) -> PhaseView {
    match following(folder) {
        Some(next) => PhaseView::Probing { folder: next },
        None => PhaseView::Fetching,
    }
}

/// A launcher as a contract sees it.
pub struct LauncherView {
    pub username: Seq<char>,
    pub version_id: Seq<char>,
    pub layout: LayoutView,
    pub platform: Platform,
    pub phase: PhaseView,
}

impl LauncherView {
    /// The phase that follows once the version has been fetched: the runtime
    /// is started if every library can be located, and the launch fails
    /// with the first that cannot otherwise.
    pub open spec fn judged(self, descriptor: DescriptorView) -> PhaseView {
        if all_have_artifacts(descriptor.libraries) {
            PhaseView::Spawning {
                plan: launch_plan(self.username, descriptor, self.layout, self.platform),
            }
        } else {
            let index = first_missing(descriptor.libraries);
            PhaseView::Failed {
                error: LaunchErrorView::MissingArtifact {
                    index,
                    library: descriptor.libraries[index].name,
                },
            }
        }
    }

    /// The phase after `event`. An event that does not answer what was asked
    /// changes nothing.
    pub open spec fn next_phase(self, event: EventView) -> PhaseView {
        match self.phase {
            PhaseView::Probing { folder } => match event {
                EventView::FolderPresent => after_folder(folder),
                EventView::FolderMissing => PhaseView::Creating { folder },
                EventView::FolderBlocked => PhaseView::Failed {
                    error: LaunchErrorView::Filesystem {
                        path: folder_path(self.layout, folder),
                        reason: "not a directory"@,
                    },
                },
                _ => self.phase,
            },
            PhaseView::Creating { folder } => match event {
                EventView::FolderCreated => after_folder(folder),
                EventView::FolderAlreadyExists => after_folder(folder),
                EventView::FolderRefused { reason } => PhaseView::Failed {
                    error: LaunchErrorView::Filesystem {
                        path: folder_path(self.layout, folder),
                        reason,
                    },
                },
                _ => self.phase,
            },
            PhaseView::Fetching => match event {
                EventView::Fetched { descriptor } => self.judged(descriptor),
                EventView::FetchFailed { reason } => PhaseView::Failed {
                    error: LaunchErrorView::Download { reason },
                },
                _ => self.phase,
            },
            PhaseView::Spawning { plan } => match event {
                EventView::Spawned => PhaseView::Started,
                EventView::SpawnFailed { reason } => PhaseView::Failed {
                    error: LaunchErrorView::Spawn { reason },
                },
                _ => self.phase,
            },
            PhaseView::Started => self.phase,
            PhaseView::Failed { error } => self.phase,
        }
    }

    /// The launcher after `event`.
    pub open spec fn after(self, event: EventView) -> LauncherView {
        LauncherView { phase: self.next_phase(event), ..self }
    }

    /// What the launcher in this phase asks of the caller.
    pub open spec fn pending(self) -> ActionView {
        match self.phase {
            PhaseView::Probing { folder } => ActionView::ProbeFolder {
                path: folder_path(self.layout, folder),
            },
            PhaseView::Creating { folder } => ActionView::CreateFolder {
                path: folder_path(self.layout, folder),
            },
            PhaseView::Fetching => ActionView::Fetch { version_id: self.version_id },
            PhaseView::Spawning { plan } => ActionView::Spawn { plan },
            PhaseView::Started => ActionView::Finish,
            PhaseView::Failed { error } => ActionView::Abort { error },
        }
    }

    /// The launcher after all of `events`, in order.
    pub open spec fn run(self, events: Seq<EventView>) -> LauncherView
        decreases events.len(),
    {
        if events.len() == 0 {
            self
        } else {
            self.run(events.drop_last()).after(events.last())
        }
    }
}

/// A launcher that has not begun: it asks about the game root first.
pub open spec fn fresh_launcher(
    username: Seq<char>,
    version_id: Seq<char>,
    layout: LayoutView,
    platform: Platform,
) -> LauncherView {
    LauncherView {
        username,
        version_id,
        layout,
        platform,
        phase: PhaseView::Probing { folder: Folder::GameRoot },
    }
}

/// One launch of one version for one player.
pub struct Launcher {
    username: String,
    version_id: String,
    layout: DirectoryLayout,
    platform: Platform,
    phase: Phase,
}

impl View for Launcher {
    type V = LauncherView;

    closed spec fn view(&self) -> LauncherView {
        LauncherView {
            username: self.username@,
            version_id: self.version_id@,
            layout: self.layout@,
            platform: self.platform,
            phase: self.phase@,
        }
    }
}

/// The phase in which `folder` is known to exist.
fn phase_after(folder: Folder) -> (phase: Phase)
    ensures
        phase@ == after_folder(folder),
{
    match folder.next() {
        Some(next) => Phase::Probing { folder: next },
        None => Phase::Fetching,
    }
}

impl Launcher {
    /// Begins the launch of the version `version_id` for the player
    /// `username`, on `platform` and in the directories of `layout`.
    pub fn new(
        username: &str,
        version_id: &str,
        layout: DirectoryLayout,
        platform: Platform,
    ) -> (launcher: Launcher)
        ensures
            launcher@ == fresh_launcher(username@, version_id@, layout@, platform),
    {
        Launcher {
            username: String::from_str(username),
            version_id: String::from_str(version_id),
            layout,
            platform,
            phase: Phase::Probing { folder: Folder::GameRoot },
        }
    }

    /// What the caller has to do next.
    pub fn pending(&self) -> (action: Action)
        ensures
            action@ == self@.pending(),
    {
        match &self.phase {
            Phase::Probing { folder } => Action::ProbeFolder {
                path: self.layout.path_of(*folder).clone(),
            },
            Phase::Creating { folder } => Action::CreateFolder {
                path: self.layout.path_of(*folder).clone(),
            },
            Phase::Fetching => Action::Fetch { version_id: self.version_id.clone() },
            Phase::Spawning { plan } => Action::Spawn { plan: plan.duplicate() },
            Phase::Started => Action::Finish,
            Phase::Failed { error } => Action::Abort { error: error.duplicate() },
        }
    }

    /// Takes note of how the pending action went.
    pub fn advance(&mut self, event: Event)
        ensures
            final(self)@ == old(self)@.after(event@),
    {
        let next: Option<Phase> = match &self.phase {
            Phase::Probing { folder } => match event {
                Event::FolderPresent => Some(phase_after(*folder)),
                Event::FolderMissing => Some(Phase::Creating { folder: *folder }),
                Event::FolderBlocked => Some(
                    Phase::Failed {
                        error: LaunchError::Filesystem {
                            path: self.layout.path_of(*folder).clone(),
                            reason: String::from_str("not a directory"),
                        },
                    },
                ),
                _ => None,
            },
            Phase::Creating { folder } => match event {
                Event::FolderCreated => Some(phase_after(*folder)),
                Event::FolderAlreadyExists => Some(phase_after(*folder)),
                Event::FolderRefused { reason } => Some(
                    Phase::Failed {
                        error: LaunchError::Filesystem {
                            path: self.layout.path_of(*folder).clone(),
                            reason,
                        },
                    },
                ),
                _ => None,
            },
            Phase::Fetching => match event {
                Event::Fetched { descriptor } => {
                    match plan_launch(
                        self.username.as_str(),
                        &descriptor,
                        &self.layout,
                        self.platform,
                    ) {
                        Ok(plan) => Some(Phase::Spawning { plan }),
                        Err(error) => {
                            proof {
                                let index = error@->MissingArtifact_index;
                                lemma_first_missing_is_unique(descriptor@.libraries, index);
                            }
                            Some(Phase::Failed { error })
                        },
                    }
                },
                Event::FetchFailed { reason } => Some(
                    Phase::Failed { error: LaunchError::Download { reason } },
                ),
                _ => None,
            },
            Phase::Spawning { plan } => match event {
                Event::Spawned => Some(Phase::Started),
                Event::SpawnFailed { reason } => Some(
                    Phase::Failed { error: LaunchError::Spawn { reason } },
                ),
                _ => None,
            },
            Phase::Started => None,
            Phase::Failed { error } => None,
        };
        match next {
            Some(phase) => {
                self.phase = phase;
            },
            None => {},
        }
    }
}

} // verus!
