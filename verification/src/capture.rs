//! Line capture: the tags under which a child process's output is captured.
//! The read loop itself lives in the surrounding binary; it builds records
//! through [`crate::types::record_from_line`].

use vstd::prelude::*;

verus! {

/// The project tag and command of one capture run.
#[derive(Debug, Clone)]
pub struct ProcessCapture {
    pub project: String,
    pub command: Vec<String>,
}

impl ProcessCapture {
    /// Bundle the tags for a capture run of `command`.
    pub fn new(project: String, command: Vec<String>) -> (r: ProcessCapture)
        ensures
            r.project == project,
            r.command == command,
    {
        ProcessCapture { project, command }
    }
}

} // verus!
