//! The process invocation that starts the game.

use vstd::prelude::*;
use crate::arguments::{argument_list, assemble_arguments};
use crate::classpath::{build_classpath, classpath_text, version_jar};
use crate::descriptor::{DescriptorView, VersionDescriptor};
use crate::error::{LaunchError, LaunchErrorView};
use crate::layout::{DirectoryLayout, LayoutView};
use crate::platform::{executable_text, separator_text, Platform};
use crate::resolve::{all_have_artifacts, get_libraries, is_first_missing, library_paths};

verus! {

/// A launch plan as a contract sees it.
pub struct PlanView {
    pub executable: Seq<char>,
    pub arguments: Seq<Seq<char>>,
}

/// What to start and with which arguments. A plan is made for one launch and
/// not kept.
#[derive(Debug, PartialEq, Eq)]
pub struct LaunchPlan {
    /// Name of the runtime executable, looked up by the system.
    pub executable: String,
    /// The arguments in the order in which the runtime reads them.
    pub arguments: Vec<String>,
}

impl View for LaunchPlan {
    type V = PlanView;

    open spec fn view(&self) -> PlanView {
        PlanView { executable: self.executable@, arguments: self.arguments.deep_view() }
    }
}

impl LaunchPlan {
    /// A copy of this plan.
    pub fn duplicate(&self) -> (copy: LaunchPlan)
        ensures
            copy@ == self@,
    {
        let mut arguments: Vec<String> = Vec::new();
        let count: usize = self.arguments.len();
        let mut i: usize = 0;
        while i < count
            invariant
                i <= count,
                count == self.arguments@.len(),
                arguments@.len() == i,
                forall|j: int| 0 <= j < i ==> (#[trigger] arguments@[j])@ == self.arguments@[j]@,
            decreases count - i,
        {
            arguments.push(self.arguments[i].clone());
            i = i + 1;
        }
        assert(arguments.deep_view() =~= self.arguments.deep_view());
        LaunchPlan { executable: self.executable.clone(), arguments }
    }
}

/// The classpath of a version whose libraries can all be located.
pub open spec fn classpath_of(
    version: DescriptorView,
    layout: LayoutView,
    platform: Platform,
) -> Seq<char> {
    classpath_text(
        version_jar(layout.versions, version.id),
        library_paths(layout.libraries, version.libraries),
        separator_text(platform),
    )
}

/// The plan that starts `version` for the player `username`.
pub open spec fn launch_plan(
    username: Seq<char>,
    version: DescriptorView,
    layout: LayoutView,
    platform: Platform,
) -> PlanView {
    PlanView {
        executable: executable_text(platform),
        arguments: argument_list(
            username,
            version,
            layout,
            classpath_of(version, layout, platform),
            platform,
        ),
    }
}

/// Plans the launch of `version` for the player `username`: resolves the
/// libraries, builds the classpath, assembles the arguments and picks the
/// executable of the platform.
///
/// There is a plan exactly if every library of the version can be located.
/// Otherwise the first that cannot is reported, and there is nothing to start.
pub fn plan_launch(
    username: &str,
    version: &VersionDescriptor,
    layout: &DirectoryLayout,
    platform: Platform,
) -> (result: Result<LaunchPlan, LaunchError>)
    ensures
        result is Ok <==> all_have_artifacts(version@.libraries),
        result matches Ok(plan) ==> plan@ == launch_plan(username@, version@, layout@, platform),
        result matches Err(error) ==> error@ matches LaunchErrorView::MissingArtifact {
            index,
            library,
        } && is_first_missing(version@.libraries, index) && library
            == version@.libraries[index].name,
{
    match get_libraries(version, layout) {
        Ok(paths) => {
            let classpath = build_classpath(version.id.as_str(), &paths, layout, platform);
            let arguments = assemble_arguments(
                username,
                version,
                layout,
                classpath.as_str(),
                platform,
            );
            Ok(LaunchPlan { executable: String::from_str(platform.executable_name()), arguments })
        },
        Err(error) => Err(error),
    }
}

} // verus!
