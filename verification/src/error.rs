//! Why a launch did not start the game.

use vstd::prelude::*;

verus! {

/// A launch error as a contract sees it.
pub enum LaunchErrorView {
    Filesystem { path: Seq<char>, reason: Seq<char> },
    MissingArtifact { index: int, library: Seq<char> },
    Download { reason: Seq<char> },
    Spawn { reason: Seq<char> },
}

/// Every failure ends the launch it occurred in; none is retried.
#[derive(Debug, PartialEq, Eq)]
pub enum LaunchError {
    /// A directory of the layout could not be created.
    Filesystem { path: String, reason: String },
    /// The library at `index` of the descriptor has no artifact path.
    MissingArtifact { index: usize, library: String },
    /// The version could not be fetched; `reason` is the downloader's own.
    Download { reason: String },
    /// The runtime could not be started; `reason` is the system's own.
    Spawn { reason: String },
}

impl View for LaunchError {
    type V = LaunchErrorView;

    open spec fn view(&self) -> LaunchErrorView {
        match self {
            LaunchError::Filesystem { path, reason } => LaunchErrorView::Filesystem {
                path: path@,
                reason: reason@,
            },
            LaunchError::MissingArtifact { index, library } => LaunchErrorView::MissingArtifact {
                index: *index as int,
                library: library@,
            },
            LaunchError::Download { reason } => LaunchErrorView::Download { reason: reason@ },
            LaunchError::Spawn { reason } => LaunchErrorView::Spawn { reason: reason@ },
        }
    }
}

impl LaunchError {
    /// A copy of this error.
    pub fn duplicate(&self) -> (copy: LaunchError)
        ensures
            copy@ == self@,
    {
        match self {
            LaunchError::Filesystem { path, reason } => LaunchError::Filesystem {
                path: path.clone(),
                reason: reason.clone(),
            },
            LaunchError::MissingArtifact { index, library } => LaunchError::MissingArtifact {
                index: *index,
                library: library.clone(),
            },
            LaunchError::Download { reason } => LaunchError::Download { reason: reason.clone() },
            LaunchError::Spawn { reason } => LaunchError::Spawn { reason: reason.clone() },
        }
    }
}

} // verus!
