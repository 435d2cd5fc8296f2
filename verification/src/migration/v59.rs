//! V59: indexes `todos.archived_at`.
use vstd::prelude::*;

use super::Migration;

verus! {

/// V59: indexes `todos.archived_at`.
pub struct V59AddTodosArchivedAtIndex;

impl Migration for V59AddTodosArchivedAtIndex {
    fn version(&self) -> (v: i64)
        ensures
            v == 59,
    {
        59
    }

    fn name(&self) -> (n: &'static str)
        ensures
            n@ == "add_todos_archived_at_index"@,
    {
        "add_todos_archived_at_index"
    }
}

} // verus!
