use game_launch::error::LaunchError;

#[test]
fn error_copy_equals_the_error() {
    let errors = vec![
        LaunchError::Filesystem { path: "minecraft".to_string(), reason: "full".to_string() },
        LaunchError::MissingArtifact { index: 3, library: "a:b:c".to_string() },
        LaunchError::Download { reason: "timeout".to_string() },
        LaunchError::Spawn { reason: "not found".to_string() },
    ];
    for error in errors {
        assert_eq!(error.duplicate(), error);
    }
}

#[test]
fn errors_of_different_kinds_differ() {
    let download = LaunchError::Download { reason: "x".to_string() };
    let spawn = LaunchError::Spawn { reason: "x".to_string() };
    assert_ne!(download, spawn);
}
