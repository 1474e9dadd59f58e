//! What holds of every launch, whatever the caller reports.

use vstd::prelude::*;
use crate::descriptor::DescriptorView;
use crate::error::LaunchErrorView;
use crate::launcher::{after_folder, ActionView, EventView, LauncherView, PhaseView};
use crate::layout::{folder_list, folder_path, Folder};
use crate::resolve::{
    all_have_artifacts, first_missing, has_artifact, is_first_missing, lemma_first_missing_exists,
    lemma_first_missing_is_unique,
};

verus! {

/// A launch that has started the game or has failed stays as it is: no event
/// brings it back.
pub proof fn lemma_outcome_is_final(launcher: LauncherView, events: Seq<EventView>)
    requires
        launcher.phase is Started || launcher.phase is Failed,
    ensures
        launcher.run(events) == launcher,
    decreases events.len(),
{
    if events.len() > 0 {
        lemma_outcome_is_final(launcher, events.drop_last());
    }
}

/// A missing artifact fails closed. When the version arrives and one of its
/// libraries has no usable artifact path, the launch fails with the error
/// that names the first such library, which is that one if no earlier one is
/// without. Whatever is reported later, the launcher asks for nothing but to
/// give up: it never asks to start the runtime.
pub proof fn lemma_missing_artifact_fails_closed(
    launcher: LauncherView,
    descriptor: DescriptorView,
    index: int,
    later: Seq<EventView>,
)
    requires
        launcher.phase is Fetching,
        0 <= index < descriptor.libraries.len(),
        !has_artifact(descriptor.libraries[index]),
    ensures
        ({
            let first = first_missing(descriptor.libraries);
            let error = LaunchErrorView::MissingArtifact {
                index: first,
                library: descriptor.libraries[first].name,
            };
            let end = launcher.after(EventView::Fetched { descriptor }).run(later);
            &&& is_first_missing(descriptor.libraries, first)
            &&& first <= index
            &&& is_first_missing(descriptor.libraries, index) ==> first == index
            &&& end.phase == PhaseView::Failed { error }
            &&& end.pending() == ActionView::Abort { error }
        }),
{
    lemma_first_missing_exists(descriptor.libraries, index);
    if is_first_missing(descriptor.libraries, index) {
        lemma_first_missing_is_unique(descriptor.libraries, index);
    }
    lemma_outcome_is_final(launcher.after(EventView::Fetched { descriptor }), later);
}

/// The runtime is started only for a version whose libraries can all be
/// located. As long as every version that arrives lacks an artifact, a launch
/// that has not reached the start of the runtime never reaches it.
pub proof fn lemma_spawn_needs_complete_descriptor(launcher: LauncherView, events: Seq<EventView>)
    requires
        !(launcher.phase is Spawning),
        !(launcher.phase is Started),
        forall|k: int|
            0 <= k < events.len() ==> (#[trigger] events[k] matches EventView::Fetched {
                descriptor,
            } ==> !all_have_artifacts(descriptor.libraries)),
    ensures
        !(launcher.run(events).phase is Spawning),
        !(launcher.run(events).phase is Started),
        !(launcher.run(events).pending() is Spawn),
    decreases events.len(),
{
    if events.len() > 0 {
        let earlier = events.drop_last();
        assert forall|k: int| 0 <= k < earlier.len() implies (#[trigger] earlier[k]
            matches EventView::Fetched { descriptor } ==> !all_have_artifacts(
            descriptor.libraries,
        )) by {
            assert(earlier[k] == events[k]);
        }
        lemma_spawn_needs_complete_descriptor(launcher, earlier);
        let last = events.last();
        assert(last == events[events.len() - 1]);
    }
}

/// Where a role stands in the order of creation.
pub open spec fn position(folder: Folder) -> int {
    match folder {
        Folder::GameRoot => 0,
        Folder::Libraries => 1,
        Folder::Assets => 2,
        Folder::Versions => 3,
        Folder::Natives => 4,
    }
}

/// `event` tells `launcher`, which is asking about `folder`, that the
/// directory exists: it was found, it was created, or it had come to exist.
pub open spec fn confirms(launcher: LauncherView, event: EventView, folder: Folder) -> bool {
    ||| launcher.phase == (PhaseView::Probing { folder }) && event == EventView::FolderPresent
    ||| launcher.phase == (PhaseView::Creating { folder }) && (event == EventView::FolderCreated
        || event == EventView::FolderAlreadyExists)
}

/// In the course of `events`, the launcher was told that `folder` exists.
pub open spec fn confirmed(launcher: LauncherView, events: Seq<EventView>, folder: Folder) -> bool {
    exists|k: int|
        0 <= k < events.len() && confirms(
            launcher.run(events.take(k)),
            #[trigger] events[k],
            folder,
        )
}

/// A launch in `phase` has left `folder` behind.
spec fn passed(phase: PhaseView, folder: Folder) -> bool {
    match phase {
        PhaseView::Probing { folder: current } => position(folder) < position(current),
        PhaseView::Creating { folder: current } => position(folder) < position(current),
        PhaseView::Fetching => true,
        PhaseView::Spawning { plan } => true,
        PhaseView::Started => true,
        PhaseView::Failed { error } => false,
    }
}

/// Every directory that a launch has left behind was reported to exist.
proof fn lemma_passed_folders_are_confirmed(
    launcher: LauncherView,
    events: Seq<EventView>,
    folder: Folder,
)
    requires
        launcher.phase == (PhaseView::Probing { folder: Folder::GameRoot }),
    ensures
        passed(launcher.run(events).phase, folder) ==> confirmed(launcher, events, folder),
    decreases events.len(),
{
    if events.len() > 0 {
        let earlier = events.drop_last();
        let before = launcher.run(earlier);
        lemma_passed_folders_are_confirmed(launcher, earlier, folder);
        if passed(before.after(events.last()).phase, folder) {
            if passed(before.phase, folder) {
                let k = choose|k: int|
                    0 <= k < earlier.len() && confirms(
                        launcher.run(earlier.take(k)),
                        #[trigger] earlier[k],
                        folder,
                    );
                assert(events.take(k) =~= earlier.take(k));
                assert(events[k] == earlier[k]);
            } else {
                let k = earlier.len() as int;
                assert(events.take(k) =~= earlier);
                assert(confirms(before, events[k], folder));
            }
        }
    }
}

/// The layout is complete before anything else happens. A launch that has
/// come to fetch the version, to start the runtime or to its good end was
/// told of each of the five directories that it exists, at the time when it
/// was asking about that directory.
pub proof fn lemma_layout_complete_before_fetch(
    launcher: LauncherView,
    events: Seq<EventView>,
    folder: Folder,
)
    requires
        launcher.phase == (PhaseView::Probing { folder: Folder::GameRoot }),
        ({
            let phase = launcher.run(events).phase;
            phase is Fetching || phase is Spawning || phase is Started
        }),
    ensures
        confirmed(launcher, events, folder),
{
    lemma_passed_folders_are_confirmed(launcher, events, folder);
}

/// The directories of a layout as a set.
pub open spec fn folder_set(launcher: LauncherView) -> Set<Seq<char>> {
    folder_list(launcher.layout).to_set()
}

/// How a directory tree in which nothing is in the way and nothing is refused
/// answers a question about a directory, and which directories exist then;
/// `directories` are those that exist before. Such a tree has no answer to
/// anything else.
pub open spec fn willing_answer(directories: Set<Seq<char>>, action: ActionView) -> Option<
    (EventView, Set<Seq<char>>),
> {
    match action {
        ActionView::ProbeFolder { path } => if directories.contains(path) {
            Some((EventView::FolderPresent, directories))
        } else {
            Some((EventView::FolderMissing, directories))
        },
        ActionView::CreateFolder { path } => if directories.contains(path) {
            Some((EventView::FolderAlreadyExists, directories))
        } else {
            Some((EventView::FolderCreated, directories.insert(path)))
        },
        _ => None,
    }
}

/// The launcher and the tree after at most `steps` questions about the layout
/// and their answers; they stop when the launcher asks for something else.
pub open spec fn prepared_in(
    launcher: LauncherView,
    directories: Set<Seq<char>>,
    steps: nat,
) -> (LauncherView, Set<Seq<char>>)
    decreases steps,
{
    match willing_answer(directories, launcher.pending()) {
        Some((event, tree)) => if steps == 0 {
            (launcher, directories)
        } else {
            prepared_in(launcher.after(event), tree, (steps - 1) as nat)
        },
        None => (launcher, directories),
    }
}

/// The launcher and the tree once the layout has been prepared: each of the
/// five directories takes at most two questions.
pub open spec fn prepared(launcher: LauncherView, directories: Set<Seq<char>>) -> (
    LauncherView,
    Set<Seq<char>>,
) {
    prepared_in(launcher, directories, 10)
}

/// Taking care of one directory: after the one or two questions that it
/// takes, it exists, nothing else has changed, and the launcher has gone on.
proof fn lemma_one_folder(
    launcher: LauncherView,
    directories: Set<Seq<char>>,
    folder: Folder,
    steps: nat,
) -> (used: nat)
    requires
        launcher.phase == (PhaseView::Probing { folder }),
        steps >= 2,
    ensures
        1 <= used <= 2,
        prepared_in(launcher, directories, steps) == prepared_in(
            LauncherView { phase: after_folder(folder), ..launcher },
            directories.insert(folder_path(launcher.layout, folder)),
            (steps - used) as nat,
        ),
{
    let path = folder_path(launcher.layout, folder);
    reveal_with_fuel(prepared_in, 3);
    if directories.contains(path) {
        assert(directories.insert(path) =~= directories);
        1
    } else {
        2
    }
}

/// Preparation completes the layout. In a tree that refuses nothing, a
/// launcher that has not begun comes to wait for the version, without an
/// error, and the directories that exist then are those that existed before
/// and the five of the layout, no other.
pub proof fn lemma_preparation_completes_layout(
    launcher: LauncherView,
    directories: Set<Seq<char>>,
)
    requires
        launcher.phase == (PhaseView::Probing { folder: Folder::GameRoot }),
    ensures
        prepared(launcher, directories) == (
            LauncherView { phase: PhaseView::Fetching, ..launcher },
            directories.union(folder_set(launcher)),
        ),
{
    let layout = launcher.layout;
    let l1 = LauncherView { phase: PhaseView::Probing { folder: Folder::Libraries }, ..launcher };
    let l2 = LauncherView { phase: PhaseView::Probing { folder: Folder::Assets }, ..launcher };
    let l3 = LauncherView { phase: PhaseView::Probing { folder: Folder::Versions }, ..launcher };
    let l4 = LauncherView { phase: PhaseView::Probing { folder: Folder::Natives }, ..launcher };
    let l5 = LauncherView { phase: PhaseView::Fetching, ..launcher };
    let d1 = directories.insert(folder_path(layout, Folder::GameRoot));
    let d2 = d1.insert(folder_path(layout, Folder::Libraries));
    let d3 = d2.insert(folder_path(layout, Folder::Assets));
    let d4 = d3.insert(folder_path(layout, Folder::Versions));
    let d5 = d4.insert(folder_path(layout, Folder::Natives));
    let u1 = lemma_one_folder(launcher, directories, Folder::GameRoot, 10);
    let s1 = (10 - u1) as nat;
    let u2 = lemma_one_folder(l1, d1, Folder::Libraries, s1);
    let s2 = (s1 - u2) as nat;
    let u3 = lemma_one_folder(l2, d2, Folder::Assets, s2);
    let s3 = (s2 - u3) as nat;
    let u4 = lemma_one_folder(l3, d3, Folder::Versions, s3);
    let s4 = (s3 - u4) as nat;
    let u5 = lemma_one_folder(l4, d4, Folder::Natives, s4);
    let s5 = (s4 - u5) as nat;
    assert(prepared_in(l5, d5, s5) == (l5, d5));
    let list = folder_list(layout);
    assert(d5 =~= directories.union(list.to_set())) by {
        assert(list.len() == 5);
        assert(list[0] == folder_path(layout, Folder::GameRoot));
        assert(list[1] == folder_path(layout, Folder::Libraries));
        assert(list[2] == folder_path(layout, Folder::Assets));
        assert(list[3] == folder_path(layout, Folder::Versions));
        assert(list[4] == folder_path(layout, Folder::Natives));
        assert forall|path: Seq<char>| list.to_set().contains(path) <==> (path == list[0] || path
            == list[1] || path == list[2] || path == list[3] || path == list[4]) by {
            if list.to_set().contains(path) {
                let i = choose|i: int| 0 <= i < list.len() && list[i] == path;
            }
            assert(list.contains(list[0]) && list.contains(list[1]) && list.contains(list[2])
                && list.contains(list[3]) && list.contains(list[4]));
        }
    }
}

/// Preparation is idempotent. In a tree that refuses nothing, preparing the
/// layout a second time right after the first ends without an error, as the
/// first did, and leaves exactly the directories that the first left.
pub proof fn lemma_preparation_is_idempotent(launcher: LauncherView, directories: Set<Seq<char>>)
    requires
        launcher.phase == (PhaseView::Probing { folder: Folder::GameRoot }),
    ensures
        ({
            let once = prepared(launcher, directories);
            let twice = prepared(launcher, once.1);
            &&& once.0.phase is Fetching
            &&& twice == once
        }),
{
    let once = prepared(launcher, directories);
    lemma_preparation_completes_layout(launcher, directories);
    lemma_preparation_completes_layout(launcher, once.1);
    assert(once.1.union(folder_set(launcher)) =~= once.1);
}

} // verus!
