//! Where the installation keeps its files.

use vstd::prelude::*;

verus! {

/// `base`, one `/`, then `relative`.
pub open spec fn joined(base: Seq<char>, relative: Seq<char>) -> Seq<char> {
    base + "/"@ + relative
}

/// Joins a path below a directory with exactly one `/`, on every platform.
pub fn join_path(base: &str, relative: &str) -> (path: String)
    ensures
        path@ == joined(base@, relative@),
{
    let mut path = String::from_str(base);
    path.append("/");
    path.append(relative);
    path
}

/// The five directories of an installation, as character sequences.
pub struct LayoutView {
    pub game_root: Seq<char>,
    pub libraries: Seq<char>,
    pub assets: Seq<char>,
    pub versions: Seq<char>,
    pub natives: Seq<char>,
}

/// The five directories of an installation.
///
/// The launcher creates them when they are missing and never deletes them.
#[derive(Debug, PartialEq, Eq)]
pub struct DirectoryLayout {
    /// Working directory of the game.
    pub game_root: String,
    /// Root below which library artifacts are stored.
    pub libraries: String,
    /// Root of the asset store.
    pub assets: String,
    /// Root below which each version keeps its own jar.
    pub versions: String,
    /// Directory into which native libraries are extracted.
    pub natives: String,
}

impl View for DirectoryLayout {
    type V = LayoutView;

    open spec fn view(&self) -> LayoutView {
        LayoutView {
            game_root: self.game_root@,
            libraries: self.libraries@,
            assets: self.assets@,
            versions: self.versions@,
            natives: self.natives@,
        }
    }
}

/// The conventional layout below `root`.
pub open spec fn layout_under(root: Seq<char>) -> LayoutView {
    LayoutView {
        game_root: root,
        libraries: joined(root, "libraries"@),
        assets: joined(root, "assets"@),
        versions: joined(root, "versions"@),
        natives: joined(root, "bin"@),
    }
}

/// The role of a directory in the layout.
#[derive(Clone, Copy, Debug, PartialEq, Eq, Structural)]
pub enum Folder {
    GameRoot,
    Libraries,
    Assets,
    Versions,
    Natives,
}

/// The directory that has the role `folder` in `layout`.
pub open spec fn folder_path(layout: LayoutView, folder: Folder) -> Seq<char> {
    match folder {
        Folder::GameRoot => layout.game_root,
        Folder::Libraries => layout.libraries,
        Folder::Assets => layout.assets,
        Folder::Versions => layout.versions,
        Folder::Natives => layout.natives,
    }
}

/// The role that is taken care of after `folder`, if there is one. The game
/// root comes first, since the other four lie below it in the conventional
/// layout.
pub open spec fn following(folder: Folder) -> Option<Folder> {
    match folder {
        Folder::GameRoot => Some(Folder::Libraries),
        Folder::Libraries => Some(Folder::Assets),
        Folder::Assets => Some(Folder::Versions),
        Folder::Versions => Some(Folder::Natives),
        Folder::Natives => None,
    }
}

/// The directories in the order in which they have to be created.
pub open spec fn folder_list(layout: LayoutView) -> Seq<Seq<char>> {
    seq![
        folder_path(layout, Folder::GameRoot),
        folder_path(layout, Folder::Libraries),
        folder_path(layout, Folder::Assets),
        folder_path(layout, Folder::Versions),
        folder_path(layout, Folder::Natives),
    ]
}

impl Folder {
    /// The role that is taken care of after this one, if there is one.
    pub fn next(self) -> (next: Option<Folder>)
        ensures
            next == following(self),
    {
        match self {
            Folder::GameRoot => Some(Folder::Libraries),
            Folder::Libraries => Some(Folder::Assets),
            Folder::Assets => Some(Folder::Versions),
            Folder::Versions => Some(Folder::Natives),
            Folder::Natives => None,
        }
    }
}

impl DirectoryLayout {
    /// The conventional layout below the installation root `root`.
    pub fn rooted_at(root: &str) -> (layout: DirectoryLayout)
        ensures
            layout@ == layout_under(root@),
    {
        DirectoryLayout {
            game_root: String::from_str(root),
            libraries: join_path(root, "libraries"),
            assets: join_path(root, "assets"),
            versions: join_path(root, "versions"),
            natives: join_path(root, "bin"),
        }
    }

    /// The conventional layout below `minecraft`, relative to the working
    /// directory of the launcher.
    pub fn standard() -> (layout: DirectoryLayout)
        ensures
            layout@ == layout_under("minecraft"@),
    {
        DirectoryLayout::rooted_at("minecraft")
    }

    /// The directory that has the role `folder`.
    pub fn path_of(&self, folder: Folder) -> (path: &String)
        ensures
            path@ == folder_path(self@, folder),
    {
        match folder {
            Folder::GameRoot => &self.game_root,
            Folder::Libraries => &self.libraries,
            Folder::Assets => &self.assets,
            Folder::Versions => &self.versions,
            Folder::Natives => &self.natives,
        }
    }

    /// The five directories in creation order.
    pub fn folders(&self) -> (list: Vec<String>)
        ensures
            list.deep_view() == folder_list(self@),
    {
        let mut list: Vec<String> = Vec::new();
        list.push(self.game_root.clone());
        list.push(self.libraries.clone());
        list.push(self.assets.clone());
        list.push(self.versions.clone());
        list.push(self.natives.clone());
        assert(list.deep_view() =~= folder_list(self@));
        list
    }
}

} // verus!
