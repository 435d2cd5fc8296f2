//! V61: adds `project_directories.executor_sessions`.
use vstd::prelude::*;

use super::Migration;

verus! {

/// V61: adds `project_directories.executor_sessions`.
pub struct V61AddProjectDirectoriesExecutorSessions;

impl Migration for V61AddProjectDirectoriesExecutorSessions {
    fn version(&self) -> (v: i64)
        ensures
            v == 61,
    {
        61
    }

    fn name(&self) -> (n: &'static str)
        ensures
            n@ == "add_project_directories_executor_sessions"@,
    {
        "add_project_directories_executor_sessions"
    }
}

} // verus!
