use vstd::prelude::*;

verus! {

/// The settings of one run.
#[derive(Debug, Clone)]
pub struct Args {
    /// Path of the manifest to audit.
    pub versions_file: String,
    /// Path of a file that the report is appended to, if any.
    pub outfile: Option<String>,
    /// Whether the report stays off the console.
    pub quiet: bool,
    /// GitHub token; an empty one counts as none.
    pub github_token: Option<String>,
}

} // verus!
