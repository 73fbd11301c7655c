//! The request to scaffold a project.

use crate::architecture::Architecture;
use crate::template::{folder_paths, folder_paths_below};
use vstd::prelude::*;
use vstd::string::StringExecFns;

verus! {

/// What to scaffold: the project's name, which is also its directory and
/// the generator's argument, and its architectural style.
#[derive(Debug)]
pub struct ProjectRequest {
    pub name: String,
    pub architecture: Architecture,
}

/// What a [`ProjectRequest`] holds, as a mathematical value.
pub struct ProjectRequestView {
    pub name: Seq<char>,
    pub architecture: Architecture,
}

impl View for ProjectRequest {
    type V = ProjectRequestView;

    open spec fn view(&self) -> ProjectRequestView {
        ProjectRequestView { name: self.name@, architecture: self.architecture }
    }
}

impl ProjectRequestView {
    /// The project's source directory: `lib` below the project.
    pub open spec fn source_root(self) -> Seq<char> {
        self.name + "/lib"@
    }

    /// The directories of the project's skeleton, each below the source
    /// directory.
    pub open spec fn directories(self) -> Seq<Seq<char>> {
        folder_paths_below(self.source_root(), self.architecture)
    }
}

impl ProjectRequest {
    /// Path of the project's source directory.
    pub fn source_root(&self) -> (path: String)
        ensures
            path@ == self@.source_root(),
    {
        let mut path = String::from_str(self.name.as_str());
        path.append("/lib");
        path
    }

    /// Lists the directories of the project's skeleton.
    pub fn directories(&self) -> (paths: Vec<String>)
        ensures
            paths.deep_view() == self@.directories(),
    {
        let root = self.source_root();
        folder_paths(root.as_str(), self.architecture)
    }
}

} // verus!
