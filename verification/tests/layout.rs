use game_launch::layout::{join_path, DirectoryLayout, Folder};

#[test]
fn join_path_inserts_one_slash() {
    assert_eq!(join_path("minecraft/libraries", "a/a.jar"), "minecraft/libraries/a/a.jar");
    assert_eq!(join_path("", "x"), "/x");
    assert_eq!(join_path("root/", "x"), "root//x");
    assert_eq!(join_path("root", ""), "root/");
}

#[test]
fn standard_layout_lies_below_minecraft() {
    let layout = DirectoryLayout::standard();
    assert_eq!(layout.game_root, "minecraft");
    assert_eq!(layout.libraries, "minecraft/libraries");
    assert_eq!(layout.assets, "minecraft/assets");
    assert_eq!(layout.versions, "minecraft/versions");
    assert_eq!(layout.natives, "minecraft/bin");
}

#[test]
fn rooted_layout_lies_below_its_root() {
    let layout = DirectoryLayout::rooted_at("/srv/games/one");
    assert_eq!(layout.game_root, "/srv/games/one");
    assert_eq!(layout.libraries, "/srv/games/one/libraries");
    assert_eq!(layout.assets, "/srv/games/one/assets");
    assert_eq!(layout.versions, "/srv/games/one/versions");
    assert_eq!(layout.natives, "/srv/games/one/bin");
    assert_eq!(DirectoryLayout::rooted_at("minecraft"), DirectoryLayout::standard());
}

#[test]
fn folders_come_in_creation_order() {
    let layout = DirectoryLayout::standard();
    assert_eq!(
        layout.folders(),
        vec![
            "minecraft".to_string(),
            "minecraft/libraries".to_string(),
            "minecraft/assets".to_string(),
            "minecraft/versions".to_string(),
            "minecraft/bin".to_string(),
        ]
    );
}

#[test]
fn folders_follow_the_fields_of_a_custom_layout() {
    let layout = DirectoryLayout {
        game_root: "g".to_string(),
        libraries: "l".to_string(),
        assets: "a".to_string(),
        versions: "v".to_string(),
        natives: "n".to_string(),
    };
    assert_eq!(layout.folders(), vec!["g", "l", "a", "v", "n"]);
    assert_eq!(layout.path_of(Folder::GameRoot), "g");
    assert_eq!(layout.path_of(Folder::Libraries), "l");
    assert_eq!(layout.path_of(Folder::Assets), "a");
    assert_eq!(layout.path_of(Folder::Versions), "v");
    assert_eq!(layout.path_of(Folder::Natives), "n");
}

#[test]
fn roles_follow_each_other_in_creation_order() {
    assert_eq!(Folder::GameRoot.next(), Some(Folder::Libraries));
    assert_eq!(Folder::Libraries.next(), Some(Folder::Assets));
    assert_eq!(Folder::Assets.next(), Some(Folder::Versions));
    assert_eq!(Folder::Versions.next(), Some(Folder::Natives));
    assert_eq!(Folder::Natives.next(), None);
}
