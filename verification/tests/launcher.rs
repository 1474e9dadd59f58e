use game_launch::descriptor::{AssetIndex, LibraryRef, VersionDescriptor};
use game_launch::error::LaunchError;
use game_launch::launcher::{Action, Event, Launcher};
use game_launch::layout::DirectoryLayout;
use game_launch::platform::{CpuFamily, OsFamily, Platform};
use std::collections::BTreeSet;

fn unix() -> Platform {
    Platform { os: OsFamily::Unix, cpu: CpuFamily::Other }
}

fn steve() -> Launcher {
    Launcher::new("Steve", "1.20", DirectoryLayout::standard(), unix())
}

fn version(libraries: Vec<LibraryRef>) -> VersionDescriptor {
    VersionDescriptor {
        id: "1.20".to_string(),
        main_class: "net.game.Main".to_string(),
        version_type: "release".to_string(),
        asset_index: AssetIndex { id: "8".to_string() },
        libraries,
    }
}

fn foo() -> LibraryRef {
    LibraryRef {
        name: "com.foo:foo:1.0".to_string(),
        artifact_path: Some("com/foo/foo-1.0.jar".to_string()),
    }
}

fn probe(path: &str) -> Action {
    Action::ProbeFolder { path: path.to_string() }
}

fn create(path: &str) -> Action {
    Action::CreateFolder { path: path.to_string() }
}

/// Answers the questions about directories from a set of paths, creates what
/// is asked for, and returns the creations in order.
fn prepare(launcher: &mut Launcher, tree: &mut BTreeSet<String>) -> Vec<String> {
    let mut created = Vec::new();
    loop {
        match launcher.pending() {
            Action::ProbeFolder { path } => {
                if tree.contains(&path) {
                    launcher.advance(Event::FolderPresent);
                } else {
                    launcher.advance(Event::FolderMissing);
                }
            }
            Action::CreateFolder { path } => {
                if tree.insert(path.clone()) {
                    created.push(path);
                    launcher.advance(Event::FolderCreated);
                } else {
                    launcher.advance(Event::FolderAlreadyExists);
                }
            }
            _ => return created,
        }
    }
}

fn past_folders() -> Launcher {
    let mut launcher = steve();
    for _ in 0..5 {
        launcher.advance(Event::FolderPresent);
    }
    launcher
}

#[test]
fn launch_of_steve_from_an_empty_root() {
    let mut launcher = steve();
    let mut tree = BTreeSet::new();
    let created = prepare(&mut launcher, &mut tree);
    assert_eq!(
        created,
        vec![
            "minecraft",
            "minecraft/libraries",
            "minecraft/assets",
            "minecraft/versions",
            "minecraft/bin"
        ]
    );
    assert_eq!(launcher.pending(), Action::Fetch { version_id: "1.20".to_string() });
    launcher.advance(Event::Fetched { descriptor: version(vec![foo()]) });
    let plan = match launcher.pending() {
        Action::Spawn { plan } => plan,
        other => panic!("no start was asked for: {:?}", other),
    };
    assert_eq!(plan.executable, "java");
    assert_eq!(plan.arguments[6], "-cp");
    assert_eq!(
        plan.arguments[7],
        "minecraft/versions/1.20/1.20.jar:minecraft/libraries/com/foo/foo-1.0.jar"
    );
    assert_eq!(plan.arguments[9..13], ["--username", "Steve", "--version", "1.20"]);
    assert_eq!(plan.arguments[17..19], ["--assetIndex", "8"]);
    assert_eq!(plan.arguments[23..25], ["--versionType", "release"]);
    launcher.advance(Event::Spawned);
    assert_eq!(launcher.pending(), Action::Finish);
}

#[test]
fn launcher_asks_about_each_folder_before_creating_it() {
    let mut launcher = steve();
    assert_eq!(launcher.pending(), probe("minecraft"));
    launcher.advance(Event::FolderMissing);
    assert_eq!(launcher.pending(), create("minecraft"));
    launcher.advance(Event::FolderCreated);
    assert_eq!(launcher.pending(), probe("minecraft/libraries"));
    launcher.advance(Event::FolderPresent);
    assert_eq!(launcher.pending(), probe("minecraft/assets"));
    launcher.advance(Event::FolderMissing);
    assert_eq!(launcher.pending(), create("minecraft/assets"));
    launcher.advance(Event::FolderAlreadyExists);
    assert_eq!(launcher.pending(), probe("minecraft/versions"));
    launcher.advance(Event::FolderPresent);
    assert_eq!(launcher.pending(), probe("minecraft/bin"));
    launcher.advance(Event::FolderPresent);
    assert_eq!(launcher.pending(), Action::Fetch { version_id: "1.20".to_string() });
}

#[test]
fn preparing_twice_equals_preparing_once() {
    let mut tree = BTreeSet::new();
    tree.insert("minecraft".to_string());
    tree.insert("elsewhere".to_string());
    let mut first = steve();
    let created = prepare(&mut first, &mut tree);
    assert_eq!(created.len(), 4);
    assert_eq!(first.pending(), Action::Fetch { version_id: "1.20".to_string() });
    let once = tree.clone();
    let mut second = steve();
    let created = prepare(&mut second, &mut tree);
    assert!(created.is_empty());
    assert_eq!(second.pending(), Action::Fetch { version_id: "1.20".to_string() });
    assert_eq!(tree, once);
    assert_eq!(tree.len(), 6);
}

#[test]
fn refused_folder_ends_the_launch() {
    let mut launcher = steve();
    launcher.advance(Event::FolderPresent);
    launcher.advance(Event::FolderMissing);
    launcher.advance(Event::FolderRefused { reason: "permission denied".to_string() });
    let error = LaunchError::Filesystem {
        path: "minecraft/libraries".to_string(),
        reason: "permission denied".to_string(),
    };
    assert_eq!(launcher.pending(), Action::Abort { error: error.duplicate() });
    launcher.advance(Event::FolderCreated);
    launcher.advance(Event::Fetched { descriptor: version(vec![foo()]) });
    launcher.advance(Event::Spawned);
    assert_eq!(launcher.pending(), Action::Abort { error });
}

#[test]
fn blocked_folder_ends_the_launch() {
    let mut launcher = steve();
    launcher.advance(Event::FolderBlocked);
    assert_eq!(
        launcher.pending(),
        Action::Abort {
            error: LaunchError::Filesystem {
                path: "minecraft".to_string(),
                reason: "not a directory".to_string(),
            }
        }
    );
}

#[test]
fn failed_fetch_ends_the_launch() {
    let mut launcher = past_folders();
    launcher.advance(Event::FetchFailed { reason: "no route to host".to_string() });
    assert_eq!(
        launcher.pending(),
        Action::Abort { error: LaunchError::Download { reason: "no route to host".to_string() } }
    );
}

#[test]
fn failed_start_ends_the_launch() {
    let mut launcher = past_folders();
    launcher.advance(Event::Fetched { descriptor: version(vec![foo()]) });
    launcher.advance(Event::SpawnFailed { reason: "java: not found".to_string() });
    assert_eq!(
        launcher.pending(),
        Action::Abort { error: LaunchError::Spawn { reason: "java: not found".to_string() } }
    );
}

#[test]
fn missing_artifact_ends_the_launch_before_any_start() {
    let mut launcher = steve();
    let mut asked = Vec::new();
    let broken = LibraryRef { name: "org.bar:bar:2".to_string(), artifact_path: None };
    let events = vec![
        Event::FolderPresent,
        Event::FolderPresent,
        Event::FolderPresent,
        Event::FolderPresent,
        Event::FolderPresent,
        Event::Fetched { descriptor: version(vec![foo(), broken]) },
        Event::Spawned,
        Event::Fetched { descriptor: version(vec![foo()]) },
        Event::Spawned,
    ];
    asked.push(launcher.pending());
    for event in events {
        launcher.advance(event);
        asked.push(launcher.pending());
    }
    assert!(asked.iter().all(|action| !matches!(action, Action::Spawn { .. })));
    assert_eq!(
        launcher.pending(),
        Action::Abort {
            error: LaunchError::MissingArtifact {
                index: 1,
                library: "org.bar:bar:2".to_string()
            }
        }
    );
}

#[test]
fn events_that_answer_nothing_change_nothing() {
    let mut launcher = steve();
    launcher.advance(Event::Spawned);
    launcher.advance(Event::FolderCreated);
    launcher.advance(Event::Fetched { descriptor: version(vec![foo()]) });
    launcher.advance(Event::FolderRefused { reason: "x".to_string() });
    assert_eq!(launcher.pending(), probe("minecraft"));
    launcher.advance(Event::FolderMissing);
    launcher.advance(Event::FolderPresent);
    launcher.advance(Event::FolderMissing);
    launcher.advance(Event::FolderBlocked);
    assert_eq!(launcher.pending(), create("minecraft"));
    let mut launcher = past_folders();
    launcher.advance(Event::FolderPresent);
    launcher.advance(Event::Spawned);
    launcher.advance(Event::SpawnFailed { reason: "x".to_string() });
    assert_eq!(launcher.pending(), Action::Fetch { version_id: "1.20".to_string() });
    launcher.advance(Event::Fetched { descriptor: version(vec![]) });
    launcher.advance(Event::FetchFailed { reason: "late".to_string() });
    launcher.advance(Event::Fetched { descriptor: version(vec![foo()]) });
    match launcher.pending() {
        Action::Spawn { plan } => assert_eq!(plan.arguments[7], "minecraft/versions/1.20/1.20.jar"),
        other => panic!("no start was asked for: {:?}", other),
    }
}

#[test]
fn started_launch_stays_started() {
    let mut launcher = past_folders();
    launcher.advance(Event::Fetched { descriptor: version(vec![foo()]) });
    launcher.advance(Event::Spawned);
    launcher.advance(Event::SpawnFailed { reason: "late".to_string() });
    launcher.advance(Event::FolderRefused { reason: "late".to_string() });
    launcher.advance(Event::FetchFailed { reason: "late".to_string() });
    assert_eq!(launcher.pending(), Action::Finish);
}

#[test]
fn launcher_uses_its_platform_and_layout() {
    let windows = Platform { os: OsFamily::Windows, cpu: CpuFamily::X86 };
    let mut launcher = Launcher::new("Alex", "b1.7.3", DirectoryLayout::rooted_at("/srv/mc"), windows);
    assert_eq!(launcher.pending(), probe("/srv/mc"));
    for _ in 0..5 {
        launcher.advance(Event::FolderPresent);
    }
    assert_eq!(launcher.pending(), Action::Fetch { version_id: "b1.7.3".to_string() });
    launcher.advance(Event::Fetched { descriptor: version(vec![foo()]) });
    match launcher.pending() {
        Action::Spawn { plan } => {
            assert_eq!(plan.executable, "javaw");
            assert_eq!(plan.arguments[1], "-Xss1M");
            assert_eq!(plan.arguments[2], "-Djava.library.path=/srv/mc/bin");
            assert_eq!(
                plan.arguments[9],
                "/srv/mc/versions/1.20/1.20.jar;/srv/mc/libraries/com/foo/foo-1.0.jar"
            );
            assert_eq!(plan.arguments[11..13], ["--username", "Alex"]);
        }
        other => panic!("no start was asked for: {:?}", other),
    }
}
