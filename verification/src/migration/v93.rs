//! V93: a sort index on `todos.updated_at`.
use vstd::prelude::*;

use super::Migration;

verus! {

/// V93: a sort index on `todos.updated_at`.
pub struct V93AddTodosUpdatedAtIndex;

impl Migration for V93AddTodosUpdatedAtIndex {
    fn version(&self) -> (v: i64)
        ensures
            v == 93,
    {
        93
    }

    fn name(&self) -> (n: &'static str)
        ensures
            n@ == "add_todos_updated_at_index"@,
    {
        "add_todos_updated_at_index"
    }
}

} // verus!
