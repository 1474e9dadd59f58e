use game_launch::platform::{CpuFamily, OsFamily, Platform};

const HEAP_DUMP: &str =
    "-XX:HeapDumpPath=MojangTricksIntelDriversForPerformance_javaw.exe_minecraft.exe.heapdump";

fn on(os: OsFamily, cpu: CpuFamily) -> Platform {
    Platform { os, cpu }
}

#[test]
fn separator_is_semicolon_on_windows_only() {
    assert_eq!(on(OsFamily::Windows, CpuFamily::Other).path_list_separator(), ";");
    assert_eq!(on(OsFamily::Windows, CpuFamily::X86).path_list_separator(), ";");
    assert_eq!(on(OsFamily::MacOs, CpuFamily::Other).path_list_separator(), ":");
    assert_eq!(on(OsFamily::Unix, CpuFamily::Other).path_list_separator(), ":");
    assert_eq!(on(OsFamily::Unix, CpuFamily::X86).path_list_separator(), ":");
}

#[test]
fn executable_is_javaw_on_windows_only() {
    assert_eq!(on(OsFamily::Windows, CpuFamily::Other).executable_name(), "javaw");
    assert_eq!(on(OsFamily::Windows, CpuFamily::X86).executable_name(), "javaw");
    assert_eq!(on(OsFamily::MacOs, CpuFamily::Other).executable_name(), "java");
    assert_eq!(on(OsFamily::Unix, CpuFamily::Other).executable_name(), "java");
}

#[test]
fn plain_unix_has_no_conditional_flag() {
    assert!(on(OsFamily::Unix, CpuFamily::Other).conditional_flags().is_empty());
}

#[test]
fn macos_starts_on_the_first_thread() {
    assert_eq!(
        on(OsFamily::MacOs, CpuFamily::Other).conditional_flags(),
        vec!["-XstartOnFirstThread"]
    );
}

#[test]
fn windows_sets_the_heap_dump_path() {
    assert_eq!(on(OsFamily::Windows, CpuFamily::Other).conditional_flags(), vec![HEAP_DUMP]);
}

#[test]
fn x86_reduces_the_stack() {
    assert_eq!(on(OsFamily::Unix, CpuFamily::X86).conditional_flags(), vec!["-Xss1M"]);
}

#[test]
fn operating_system_flag_precedes_processor_flag() {
    assert_eq!(
        on(OsFamily::Windows, CpuFamily::X86).conditional_flags(),
        vec![HEAP_DUMP, "-Xss1M"]
    );
    assert_eq!(
        on(OsFamily::MacOs, CpuFamily::X86).conditional_flags(),
        vec!["-XstartOnFirstThread", "-Xss1M"]
    );
}
