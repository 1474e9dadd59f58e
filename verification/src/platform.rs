//! The build target, reduced to what the command line depends on.

use vstd::prelude::*;

verus! {

/// Operating-system family of the build target.
#[derive(Clone, Copy, Debug, PartialEq, Eq, Structural)]
pub enum OsFamily {
    /// The Windows family.
    Windows,
    /// macOS.
    MacOs,
    /// Every other target; all of them follow POSIX conventions.
    Unix,
}

/// Processor family of the build target.
#[derive(Clone, Copy, Debug, PartialEq, Eq, Structural)]
pub enum CpuFamily {
    /// 32-bit x86.
    X86,
    /// Every other architecture.
    Other,
}

/// The two facts about the build target that select flags, the path-list
/// separator and the executable.
#[derive(Clone, Copy, Debug, PartialEq, Eq, Structural)]
pub struct Platform {
    pub os: OsFamily,
    pub cpu: CpuFamily,
}

/// Separator between the entries of a path list: `;` on Windows, `:` elsewhere.
pub open spec fn separator_text(platform: Platform) -> Seq<char> {
    if platform.os == OsFamily::Windows {
        ";"@
    } else {
        ":"@
    }
}

/// Name of the runtime executable: `javaw` on Windows, `java` elsewhere.
pub open spec fn executable_text(platform: Platform) -> Seq<char> {
    if platform.os == OsFamily::Windows {
        "javaw"@
    } else {
        "java"@
    }
}

/// The runtime flags that depend on the build target, in the order in which
/// they are passed: first-thread start on macOS, the heap-dump path on
/// Windows, the reduced stack size on 32-bit x86.
pub open spec fn platform_flags(platform: Platform) -> Seq<Seq<char>> {
    let first_thread: Seq<Seq<char>> = if platform.os == OsFamily::MacOs {
        seq!["-XstartOnFirstThread"@]
    } else {
        seq![]
    };
    let heap_dump: Seq<Seq<char>> = if platform.os == OsFamily::Windows {
        seq![
            "-XX:HeapDumpPath=MojangTricksIntelDriversForPerformance_javaw.exe_minecraft.exe.heapdump"@,
        ]
    } else {
        seq![]
    };
    let small_stack: Seq<Seq<char>> = if platform.cpu == CpuFamily::X86 {
        seq!["-Xss1M"@]
    } else {
        seq![]
    };
    first_thread + heap_dump + small_stack
}

impl Platform {
    /// The separator between the entries of a path list on this platform.
    pub fn path_list_separator(&self) -> (sep: &'static str)
        ensures
            sep@ == separator_text(*self),
    {
        match self.os {
            OsFamily::Windows => ";",
            _ => ":",
        }
    }

    /// The name under which the runtime is started on this platform.
    pub fn executable_name(&self) -> (name: &'static str)
        ensures
            name@ == executable_text(*self),
    {
        match self.os {
            OsFamily::Windows => "javaw",
            _ => "java",
        }
    }

    /// The runtime flags that this platform adds in front of all others.
    pub fn conditional_flags(&self) -> (flags: Vec<String>)
        ensures
            flags.deep_view() == platform_flags(*self),
    {
        let mut flags: Vec<String> = Vec::new();
        if self.os == OsFamily::MacOs {
            flags.push(String::from_str("-XstartOnFirstThread"));
        }
        if self.os == OsFamily::Windows {
            flags.push(
                String::from_str(
                    "-XX:HeapDumpPath=MojangTricksIntelDriversForPerformance_javaw.exe_minecraft.exe.heapdump",
                ),
            );
        }
        if self.cpu == CpuFamily::X86 {
            flags.push(String::from_str("-Xss1M"));
        }
        assert(flags.deep_view() =~= platform_flags(*self));
        flags
    }
}

} // verus!
