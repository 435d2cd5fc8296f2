//! V73: task management: creates `tasks` and adds `task_id` to loops and loop executions.
use vstd::prelude::*;

use super::Migration;

verus! {

/// V73: task management: creates `tasks` and adds `task_id` to loops and loop executions.
pub struct V73TaskManagement;

impl Migration for V73TaskManagement {
    fn version(&self) -> (v: i64)
        ensures
            v == 73,
    {
        73
    }

    fn name(&self) -> (n: &'static str)
        ensures
            n@ == "V73TaskManagement"@,
    {
        "V73TaskManagement"
    }
}

} // verus!
