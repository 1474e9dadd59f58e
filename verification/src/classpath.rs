//! The list of places in which the runtime looks for classes.

use vstd::prelude::*;
use crate::layout::{joined, join_path, DirectoryLayout};
use crate::platform::{separator_text, Platform};

verus! {

/// The jar of a version: `<versions>/<id>/<id>.jar`.
pub open spec fn version_jar(versions: Seq<char>, id: Seq<char>) -> Seq<char> {
    joined(joined(versions, id), id + ".jar"@)
}

/// `first`, then each of `entries` in order, each with `separator` in front.
pub open spec fn classpath_text(
    first: Seq<char>,
    entries: Seq<Seq<char>>,
    separator: Seq<char>,
) -> Seq<char>
    decreases entries.len(),
{
    if entries.len() == 0 {
        first
    } else {
        classpath_text(first, entries.drop_last(), separator) + separator + entries.last()
    }
}

/// A classpath begins with its first entry, whatever follows: classes of the
/// version's own jar are found before those of any library.
pub proof fn lemma_classpath_begins_with_first(
    first: Seq<char>,
    entries: Seq<Seq<char>>,
    separator: Seq<char>,
)
    ensures
        first.is_prefix_of(classpath_text(first, entries, separator)),
    decreases entries.len(),
{
    if entries.len() > 0 {
        lemma_classpath_begins_with_first(first, entries.drop_last(), separator);
    }
}

/// Builds the classpath of the version `version_id`: its own jar below the
/// versions root of `layout`, then `library_paths` in the order given, with
/// the platform's path-list separator between neighbours.
pub fn build_classpath(
    version_id: &str,
    library_paths: &Vec<String>,
    layout: &DirectoryLayout,
    platform: Platform,
) -> (classpath: String)
    ensures
        classpath@ == classpath_text(
            version_jar(layout@.versions, version_id@),
            library_paths.deep_view(),
            separator_text(platform),
        ),
{
    let separator = platform.path_list_separator();
    let mut file_name = String::from_str(version_id);
    file_name.append(".jar");
    let directory = join_path(layout.versions.as_str(), version_id);
    let mut classpath = join_path(directory.as_str(), file_name.as_str());
    let ghost first = classpath@;
    let ghost entries = library_paths.deep_view();
    let count: usize = library_paths.len();
    let mut i: usize = 0;
    while i < count
        invariant
            i <= count,
            count == library_paths@.len(),
            entries == library_paths.deep_view(),
            separator@ == separator_text(platform),
            classpath@ == classpath_text(first, entries.take(i as int), separator@),
        decreases count - i,
    {
        classpath.append(separator);
        classpath.append(library_paths[i].as_str());
        proof {
            let grown = entries.take(i + 1);
            assert(grown.drop_last() =~= entries.take(i as int));
            assert(grown.last() == library_paths@[i as int]@);
        }
        i = i + 1;
    }
    assert(entries.take(count as int) =~= entries);
    classpath
}

} // verus!
