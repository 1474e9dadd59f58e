//! The argument vector handed to the runtime.

use vstd::prelude::*;
use crate::descriptor::{DescriptorView, VersionDescriptor};
use crate::layout::{DirectoryLayout, LayoutView};
use crate::platform::{platform_flags, Platform};

verus! {

/// The system properties: four that point the runtime and its native
/// loaders at the natives directory, then brand and version of the launcher.
pub open spec fn system_properties(natives: Seq<char>) -> Seq<Seq<char>> {
    seq![
        "-Djava.library.path="@ + natives,
        "-Djna.tmpdir="@ + natives,
        "-Dorg.lwjgl.system.SharedLibraryExtractPath="@ + natives,
        "-Dio.netty.native.workdir="@ + natives,
        "-Dminecraft.launcher.brand=Kawaii"@,
        "-Dminecraft.launcher.version=100"@,
    ]
}

/// The classpath flag, its value, and the class to start.
pub open spec fn entry_point(classpath: Seq<char>, main_class: Seq<char>) -> Seq<Seq<char>> {
    seq!["-cp"@, classpath, main_class]
}

/// The arguments of the game itself, as pairs of flag and value.
///
/// The launcher signs nobody in: the player identifier is all zeros and the
/// access token is `0`.
pub open spec fn game_arguments(
    username: Seq<char>,
    version: DescriptorView,
    layout: LayoutView,
) -> Seq<Seq<char>> {
    seq![
        "--username"@,
        username,
        "--version"@,
        version.id,
        "--gameDir"@,
        layout.game_root,
        "--assetsDir"@,
        layout.assets,
        "--assetIndex"@,
        version.asset_index_id,
        "--uuid"@,
        "00000000-0000-0000-0000-000000000000"@,
        "--accessToken"@,
        "0"@,
        "--versionType"@,
        version.version_type,
    ]
}

/// The whole argument vector: the flags of the platform, the system
/// properties, the entry point, the arguments of the game.
pub open spec fn argument_list(
    username: Seq<char>,
    version: DescriptorView,
    layout: LayoutView,
    classpath: Seq<char>,
    platform: Platform,
) -> Seq<Seq<char>> {
    platform_flags(platform) + system_properties(layout.natives) + entry_point(
        classpath,
        version.main_class,
    ) + game_arguments(username, version, layout)
}

/// Where the classpath flag stands: behind the flags of the platform and the
/// six system properties.
pub open spec fn classpath_flag_position(platform: Platform) -> int {
    platform_flags(platform).len() as int + 6
}

/// `text` is one of the eight flags that introduce an argument of the game.
pub open spec fn is_game_flag(text: Seq<char>) -> bool {
    ||| text == "--username"@
    ||| text == "--version"@
    ||| text == "--gameDir"@
    ||| text == "--assetsDir"@
    ||| text == "--assetIndex"@
    ||| text == "--uuid"@
    ||| text == "--accessToken"@
    ||| text == "--versionType"@
}

/// Every flag of a platform and every system property has a capital letter
/// behind its dash, which neither the classpath flag nor a game flag has.
proof fn lemma_leading_arguments(natives: Seq<char>, platform: Platform)
    ensures
        platform_flags(platform).len() <= 2,
        forall|i: int|
            0 <= i < platform_flags(platform).len() ==> {
                let text = #[trigger] platform_flags(platform)[i];
                text.len() >= 2 && text[1] == 'X'
            },
        forall|i: int|
            0 <= i < 6 ==> {
                let text = #[trigger] system_properties(natives)[i];
                text.len() >= 2 && text[1] == 'D'
            },
{
    reveal_strlit("-XstartOnFirstThread");
    reveal_strlit(
        "-XX:HeapDumpPath=MojangTricksIntelDriversForPerformance_javaw.exe_minecraft.exe.heapdump",
    );
    reveal_strlit("-Xss1M");
    reveal_strlit("-Djava.library.path=");
    reveal_strlit("-Djna.tmpdir=");
    reveal_strlit("-Dorg.lwjgl.system.SharedLibraryExtractPath=");
    reveal_strlit("-Dio.netty.native.workdir=");
    reveal_strlit("-Dminecraft.launcher.brand=Kawaii");
    reveal_strlit("-Dminecraft.launcher.version=100");
}

/// A game flag begins with two dashes, the classpath flag with `-c`.
proof fn lemma_flag_shapes()
    ensures
        "-cp"@.len() == 3,
        "-cp"@[1] == 'c',
        forall|text: Seq<char>| #[trigger] is_game_flag(text) ==> text.len() >= 2 && text[1] == '-',
{
    reveal_strlit("-cp");
    reveal_strlit("--username");
    reveal_strlit("--version");
    reveal_strlit("--gameDir");
    reveal_strlit("--assetsDir");
    reveal_strlit("--assetIndex");
    reveal_strlit("--uuid");
    reveal_strlit("--accessToken");
    reveal_strlit("--versionType");
}

/// The order of the argument vector: the classpath flag stands where
/// [`classpath_flag_position`] says and nowhere before it, its value and the
/// main class follow at once, and the arguments of the game are the rest.
/// So the first classpath flag comes before the main class, and every flag
/// of the game comes behind the main class: none stands before it.
pub proof fn lemma_argument_order(
    username: Seq<char>,
    version: DescriptorView,
    layout: LayoutView,
    classpath: Seq<char>,
    platform: Platform,
)
    ensures
        ({
            let arguments = argument_list(username, version, layout, classpath, platform);
            let at = classpath_flag_position(platform);
            &&& 6 <= at
            &&& arguments.len() == at + 19
            &&& arguments[at] == "-cp"@
            &&& arguments[at + 1] == classpath
            &&& arguments[at + 2] == version.main_class
            &&& arguments.subrange(at + 3, at + 19) == game_arguments(username, version, layout)
            &&& forall|i: int| 0 <= i < at ==> #[trigger] arguments[i] != "-cp"@
            &&& forall|i: int| 0 <= i <= at ==> !is_game_flag(#[trigger] arguments[i])
            &&& forall|i: int|
                at + 3 <= i < at + 19 && (i - at - 3) % 2 == 0 ==> is_game_flag(
                    #[trigger] arguments[i],
                )
        }),
{
    let arguments = argument_list(username, version, layout, classpath, platform);
    let at = classpath_flag_position(platform);
    let flags = platform_flags(platform);
    let properties = system_properties(layout.natives);
    let game = game_arguments(username, version, layout);
    lemma_leading_arguments(layout.natives, platform);
    lemma_flag_shapes();
    assert(arguments.subrange(at + 3, at + 19) =~= game);
    assert forall|i: int| 0 <= i < at implies {
        let text = #[trigger] arguments[i];
        text.len() >= 2 && (text[1] == 'X' || text[1] == 'D')
    } by {
        if i < flags.len() {
            assert(arguments[i] == flags[i]);
        } else {
            assert(arguments[i] == properties[i - flags.len()]);
        }
    }
    assert forall|i: int| at + 3 <= i < at + 19 && (i - at - 3) % 2 == 0 implies is_game_flag(
        #[trigger] arguments[i],
    ) by {
        assert(arguments[i] == game[i - at - 3]);
    }
}

/// Assembly is deterministic: two argument vectors assembled for inputs of
/// the same content on the same platform are equal, argument by argument and
/// character by character, and so byte by byte.
pub proof fn lemma_assembly_is_deterministic(
    first: Vec<String>,
    second: Vec<String>,
    username: Seq<char>,
    version: DescriptorView,
    layout: LayoutView,
    classpath: Seq<char>,
    platform: Platform,
)
    requires
        first.deep_view() == argument_list(username, version, layout, classpath, platform),
        second.deep_view() == argument_list(username, version, layout, classpath, platform),
    ensures
        first.deep_view() == second.deep_view(),
        first@.len() == second@.len(),
        forall|i: int|
            0 <= i < first@.len() ==> vstd::utf8::encode_utf8(#[trigger] first@[i]@)
                == vstd::utf8::encode_utf8(second@[i]@),
{
    assert(first@.len() == first.deep_view().len());
    assert(second@.len() == second.deep_view().len());
    assert forall|i: int| 0 <= i < first@.len() implies #[trigger] first@[i]@ == second@[i]@ by {
        assert(first.deep_view()[i] == first@[i]@);
        assert(second.deep_view()[i] == second@[i]@);
    }
}

/// A system property: `key`, which ends in `=`, then `value`.
fn property(key: &str, value: &str) -> (text: String)
    ensures
        text@ == key@ + value@,
{
    let mut text = String::from_str(key);
    text.append(value);
    text
}

/// Appends `flag` and `value` to `arguments`.
fn push_pair(arguments: &mut Vec<String>, flag: &str, value: &str)
    ensures
        final(arguments).deep_view() == old(arguments).deep_view() + seq![flag@, value@],
{
    arguments.push(String::from_str(flag));
    arguments.push(String::from_str(value));
    assert(arguments.deep_view() =~= old(arguments).deep_view() + seq![flag@, value@]);
}

/// Assembles the argument vector with which the runtime starts `version` for
/// the player `username`.
///
/// The result depends on the arguments alone.
pub fn assemble_arguments(
    username: &str,
    version: &VersionDescriptor,
    layout: &DirectoryLayout,
    classpath: &str,
    platform: Platform,
) -> (arguments: Vec<String>)
    ensures
        arguments.deep_view() == argument_list(
            username@,
            version@,
            layout@,
            classpath@,
            platform,
        ),
{
    let natives = layout.natives.as_str();
    let mut arguments = platform.conditional_flags();
    arguments.push(property("-Djava.library.path=", natives));
    arguments.push(property("-Djna.tmpdir=", natives));
    arguments.push(property("-Dorg.lwjgl.system.SharedLibraryExtractPath=", natives));
    arguments.push(property("-Dio.netty.native.workdir=", natives));
    arguments.push(String::from_str("-Dminecraft.launcher.brand=Kawaii"));
    arguments.push(String::from_str("-Dminecraft.launcher.version=100"));
    assert(arguments.deep_view() =~= platform_flags(platform) + system_properties(layout@.natives));
    arguments.push(String::from_str("-cp"));
    arguments.push(String::from_str(classpath));
    arguments.push(version.main_class.clone());
    assert(arguments.deep_view() =~= platform_flags(platform) + system_properties(layout@.natives)
        + entry_point(classpath@, version@.main_class));
    let ghost head = arguments.deep_view();
    push_pair(&mut arguments, "--username", username);
    push_pair(&mut arguments, "--version", version.id.as_str());
    push_pair(&mut arguments, "--gameDir", layout.game_root.as_str());
    push_pair(&mut arguments, "--assetsDir", layout.assets.as_str());
    push_pair(&mut arguments, "--assetIndex", version.asset_index.id.as_str());
    push_pair(&mut arguments, "--uuid", "00000000-0000-0000-0000-000000000000");
    push_pair(&mut arguments, "--accessToken", "0");
    push_pair(&mut arguments, "--versionType", version.version_type.as_str());
    assert(arguments.deep_view() =~= head + game_arguments(username@, version@, layout@));
    arguments
}

} // verus!
