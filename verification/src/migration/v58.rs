//! V58: adds `todos.archived_at`.
use vstd::prelude::*;

use super::Migration;

verus! {

/// V58: adds `todos.archived_at`.
pub struct V58AddTodosArchivedAt;

impl Migration for V58AddTodosArchivedAt {
    fn version(&self) -> (v: i64)
        ensures
            v == 58,
    {
        58
    }

    fn name(&self) -> (n: &'static str)
        ensures
            n@ == "add_todos_archived_at"@,
    {
        "add_todos_archived_at"
    }
}

} // verus!
