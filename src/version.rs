use vstd::prelude::*;

use crate::error::MissingVersionError;
use crate::model::{Project, ProjectView};

verus! {

/// The current version that a component declares: its tag, else its branch,
/// else its version.
pub open spec fn current_version(p: ProjectView) -> Option<Seq<char>> {
    if p.tag is Some {
        p.tag
    } else if p.branch is Some {
        p.branch
    } else {
        p.version
    }
}

/// The current version of `project`, taken from `tag`, `branch` and `version`
/// in that order of precedence.
pub fn get_version_string(project: &Project) -> (r: Result<String, MissingVersionError>)
    ensures
        r is Ok <==> current_version(project@) is Some,
        r matches Ok(v) ==> current_version(project@) == Some(v@),
        project@.tag is Some ==> (r matches Ok(v) && Some(v@) == project@.tag),
        (project@.tag is None && project@.branch is Some) ==> (r matches Ok(v) && Some(v@)
            == project@.branch),
        (project@.tag is None && project@.branch is None && project@.version is None) ==> r
            is Err,
{
    match &project.tag {
        Some(tag) => Ok(tag.clone()),
        None => match &project.branch {
            Some(branch) => Ok(branch.clone()),
            None => match &project.version {
                Some(version) => Ok(version.clone()),
                None => Err(MissingVersionError {  }),
            },
        },
    }
}

} // verus!
