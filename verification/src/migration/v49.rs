//! V49: adds `blackboards.pending_todo_ids`.
use vstd::prelude::*;

use super::Migration;

verus! {

/// V49: adds `blackboards.pending_todo_ids`.
pub struct V49AddBlackboardPendingTodoIds;

impl Migration for V49AddBlackboardPendingTodoIds {
    fn version(&self) -> (v: i64)
        ensures
            v == 49,
    {
        49
    }

    fn name(&self) -> (n: &'static str)
        ensures
            n@ == "add_blackboard_pending_todo_ids"@,
    {
        "add_blackboard_pending_todo_ids"
    }
}

} // verus!
