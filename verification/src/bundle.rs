//! Where the parts of a bundle go.

use crate::text::join_path;
use crate::text::joined_path;
use vstd::prelude::*;

verus! {

/// The target a bundle is made for and the directory that holds all bundles.
#[derive(Debug)]
pub struct BundlePlan {
    /// Name of the target; the bundle's directory is named after it.
    pub target: String,
    /// Directory under which each target has its own directory.
    pub dist_dir: String,
}

impl BundlePlan {
    /// A plan for the given target under the given directory.
    pub fn new(target: &str, dist_dir: &str) -> (plan: BundlePlan)
        ensures
            plan.target@ == target@,
            plan.dist_dir@ == dist_dir@,
    {
        BundlePlan { target: String::from_str(target), dist_dir: String::from_str(dist_dir) }
    }

    /// The directory the bundle is written to: the target's own, under the
    /// directory of all bundles.
    pub fn output_dir(&self) -> (dir: String)
        ensures
            dir@ == joined_path(self.dist_dir@, self.target@),
    {
        join_path(self.dist_dir.as_str(), self.target.as_str())
    }

    /// The place of a named part inside the bundle.
    pub fn destination(&self, name: &str) -> (path: String)
        ensures
            path@ == joined_path(joined_path(self.dist_dir@, self.target@), name@),
    {
        let dir = self.output_dir();
        join_path(dir.as_str(), name)
    }
}

} // verus!
