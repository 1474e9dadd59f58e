use game_launch::classpath::build_classpath;
use game_launch::layout::DirectoryLayout;
use game_launch::platform::{CpuFamily, OsFamily, Platform};

fn paths(list: &[&str]) -> Vec<String> {
    list.iter().map(|p| p.to_string()).collect()
}

const TWO: [&str; 2] = ["minecraft/libraries/a/a.jar", "minecraft/libraries/b/b.jar"];

#[test]
fn classpath_has_jar_first_then_libraries_with_colons() {
    let unix = Platform { os: OsFamily::Unix, cpu: CpuFamily::Other };
    assert_eq!(
        build_classpath("1.20", &paths(&TWO), &DirectoryLayout::standard(), unix),
        "minecraft/versions/1.20/1.20.jar:minecraft/libraries/a/a.jar:minecraft/libraries/b/b.jar"
    );
    let macos = Platform { os: OsFamily::MacOs, cpu: CpuFamily::Other };
    assert_eq!(
        build_classpath("1.20", &paths(&TWO), &DirectoryLayout::standard(), macos),
        "minecraft/versions/1.20/1.20.jar:minecraft/libraries/a/a.jar:minecraft/libraries/b/b.jar"
    );
}

#[test]
fn classpath_has_semicolons_on_windows() {
    let windows = Platform { os: OsFamily::Windows, cpu: CpuFamily::Other };
    assert_eq!(
        build_classpath("1.20", &paths(&TWO), &DirectoryLayout::standard(), windows),
        "minecraft/versions/1.20/1.20.jar;minecraft/libraries/a/a.jar;minecraft/libraries/b/b.jar"
    );
}

#[test]
fn classpath_keeps_the_order_given() {
    let unix = Platform { os: OsFamily::Unix, cpu: CpuFamily::Other };
    assert_eq!(
        build_classpath("x", &paths(&["z", "a", "m", "a"]), &DirectoryLayout::standard(), unix),
        "minecraft/versions/x/x.jar:z:a:m:a"
    );
}

#[test]
fn classpath_without_libraries_is_the_jar_alone() {
    let unix = Platform { os: OsFamily::Unix, cpu: CpuFamily::Other };
    assert_eq!(
        build_classpath("1.20", &paths(&[]), &DirectoryLayout::standard(), unix),
        "minecraft/versions/1.20/1.20.jar"
    );
}

#[test]
fn classpath_takes_the_jar_from_the_versions_root() {
    let unix = Platform { os: OsFamily::Unix, cpu: CpuFamily::Other };
    let mut layout = DirectoryLayout::standard();
    layout.versions = "/data/v".to_string();
    assert_eq!(
        build_classpath("23w14a", &paths(&["/l/a.jar"]), &layout, unix),
        "/data/v/23w14a/23w14a.jar:/l/a.jar"
    );
}
