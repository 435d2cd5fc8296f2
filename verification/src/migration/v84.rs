//! V84: adds `todos.skills`.
use vstd::prelude::*;

use super::Migration;

verus! {

/// V84: adds the `skills` column to `todos`.
pub struct V84AddTodoSkills;

impl Migration for V84AddTodoSkills {
    fn version(&self) -> (v: i64)
        ensures
            v == 84,
    {
        84
    }

    fn name(&self) -> (n: &'static str)
        ensures
            n@ == "V84AddTodoSkills"@,
    {
        "V84AddTodoSkills"
    }
}

} // verus!
