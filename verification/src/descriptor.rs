//! What a version manifest says about one build of the game.

use vstd::prelude::*;

verus! {

/// A library as a contract sees it.
pub struct LibraryView {
    pub name: Seq<char>,
    pub artifact_path: Option<Seq<char>>,
}

/// One library that a version needs on its classpath.
#[derive(Debug, PartialEq, Eq)]
pub struct LibraryRef {
    /// Identifier of the library, used to report it.
    pub name: String,
    /// Path of the artifact relative to the libraries root, where the
    /// manifest gives one.
    pub artifact_path: Option<String>,
}

impl View for LibraryRef {
    type V = LibraryView;

    open spec fn view(&self) -> LibraryView {
        LibraryView {
            name: self.name@,
            artifact_path: match self.artifact_path {
                Some(path) => Some(path@),
                None => None,
            },
        }
    }
}

/// Names the set of asset files that belongs to a version.
#[derive(Debug, PartialEq, Eq)]
pub struct AssetIndex {
    pub id: String,
}

/// A version descriptor as a contract sees it.
pub struct DescriptorView {
    pub id: Seq<char>,
    pub main_class: Seq<char>,
    pub version_type: Seq<char>,
    pub asset_index_id: Seq<char>,
    pub libraries: Seq<LibraryView>,
}

/// The metadata of one build of the game. It is not changed once fetched.
#[derive(Debug, PartialEq, Eq)]
pub struct VersionDescriptor {
    /// Version identifier, such as `1.20`.
    pub id: String,
    /// Fully qualified name of the entry-point class.
    pub main_class: String,
    /// Type tag of the build, such as `release` or `snapshot`.
    pub version_type: String,
    /// The asset index of the build.
    pub asset_index: AssetIndex,
    /// The libraries in manifest order.
    pub libraries: Vec<LibraryRef>,
}

impl View for VersionDescriptor {
    type V = DescriptorView;

    open spec fn view(&self) -> DescriptorView {
        DescriptorView {
            id: self.id@,
            main_class: self.main_class@,
            version_type: self.version_type@,
            asset_index_id: self.asset_index.id@,
            libraries: Seq::new(self.libraries@.len(), |i: int| self.libraries@[i]@),
        }
    }
}

} // verus!
