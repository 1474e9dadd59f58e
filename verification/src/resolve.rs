//! From the libraries of a descriptor to the files on disk.

use vstd::prelude::*;
use crate::descriptor::{LibraryView, VersionDescriptor};
use crate::error::{LaunchError, LaunchErrorView};
use crate::layout::{joined, join_path, DirectoryLayout};

verus! {

/// A library can be located only if its artifact path is there and not empty.
pub open spec fn has_artifact(library: LibraryView) -> bool {
    library.artifact_path matches Some(path) && path.len() > 0
}

/// Every library of the list can be located.
pub open spec fn all_have_artifacts(libraries: Seq<LibraryView>) -> bool {
    forall|i: int| 0 <= i < libraries.len() ==> has_artifact(#[trigger] libraries[i])
}

/// `index` is the first library of the list that cannot be located.
pub open spec fn is_first_missing(libraries: Seq<LibraryView>, index: int) -> bool {
    &&& 0 <= index < libraries.len()
    &&& !has_artifact(libraries[index])
    &&& forall|i: int| 0 <= i < index ==> has_artifact(#[trigger] libraries[i])
}

/// The first library of the list that cannot be located, where there is one.
pub open spec fn first_missing(libraries: Seq<LibraryView>) -> int {
    choose|index: int| is_first_missing(libraries, index)
}

/// At most one library is the first that cannot be located.
pub proof fn lemma_first_missing_is_unique(libraries: Seq<LibraryView>, index: int)
    requires
        is_first_missing(libraries, index),
    ensures
        !all_have_artifacts(libraries),
        first_missing(libraries) == index,
{
    let chosen = first_missing(libraries);
    assert(is_first_missing(libraries, chosen));
    if chosen < index {
        assert(has_artifact(libraries[chosen]));
    } else if index < chosen {
        assert(has_artifact(libraries[index]));
    }
}

/// Where a library cannot be located, one of the list is the first that
/// cannot, and it stands no later.
pub proof fn lemma_first_missing_exists(libraries: Seq<LibraryView>, index: int)
    requires
        0 <= index < libraries.len(),
        !has_artifact(libraries[index]),
    ensures
        !all_have_artifacts(libraries),
        is_first_missing(libraries, first_missing(libraries)),
        first_missing(libraries) <= index,
    decreases index,
{
    if exists|i: int| 0 <= i < index && !has_artifact(#[trigger] libraries[i]) {
        let earlier = choose|i: int| 0 <= i < index && !has_artifact(#[trigger] libraries[i]);
        lemma_first_missing_exists(libraries, earlier);
    } else {
        assert(is_first_missing(libraries, index));
        lemma_first_missing_is_unique(libraries, index);
    }
}

/// The file of each library below `root`, in manifest order.
pub open spec fn library_paths(root: Seq<char>, libraries: Seq<LibraryView>) -> Seq<Seq<char>> {
    Seq::new(libraries.len(), |i: int| joined(root, libraries[i].artifact_path->0))
}

/// Resolves each library of `version` to its file below the libraries root of
/// `layout`, keeping manifest order.
///
/// Whether the files exist is not looked at: whoever fetched the version
/// answers for that. The first library without a usable artifact path is
/// reported by position and name, and nothing is resolved.
pub fn get_libraries(version: &VersionDescriptor, layout: &DirectoryLayout) -> (result: Result<
    Vec<String>,
    LaunchError,
>)
    ensures
        result is Ok <==> all_have_artifacts(version@.libraries),
        result matches Ok(paths) ==> paths.deep_view() == library_paths(
            layout@.libraries,
            version@.libraries,
        ),
        result matches Err(error) ==> error@ matches LaunchErrorView::MissingArtifact {
            index,
            library,
        } && is_first_missing(version@.libraries, index) && library
            == version@.libraries[index].name,
{
    let mut paths: Vec<String> = Vec::new();
    let count: usize = version.libraries.len();
    let mut i: usize = 0;
    while i < count
        invariant
            i <= count,
            count == version.libraries@.len(),
            paths@.len() == i,
            forall|j: int| 0 <= j < i ==> has_artifact(#[trigger] version@.libraries[j]),
            forall|j: int|
                0 <= j < i ==> (#[trigger] paths@[j])@ == joined(
                    layout@.libraries,
                    version@.libraries[j].artifact_path->0,
                ),
        decreases count - i,
    {
        let library = &version.libraries[i];
        assert(version@.libraries[i as int] == library@);
        let usable: Option<&String> = match &library.artifact_path {
            Some(path) => if path.as_str().is_empty() {
                None
            } else {
                Some(path)
            },
            None => None,
        };
        match usable {
            Some(path) => {
                paths.push(join_path(layout.libraries.as_str(), path.as_str()));
            },
            None => {
                return Err(
                    LaunchError::MissingArtifact { index: i, library: library.name.clone() },
                );
            },
        }
        i = i + 1;
    }
    assert(paths.deep_view() =~= library_paths(layout@.libraries, version@.libraries));
    Ok(paths)
}

} // verus!
