//! V52: drops `blackboards.pending_todo_ids`.
use vstd::prelude::*;

use super::Migration;

verus! {

/// V52: drops `blackboards.pending_todo_ids`.
pub struct V52DropBlackboardPendingTodoIds;

impl Migration for V52DropBlackboardPendingTodoIds {
    fn version(&self) -> (v: i64)
        ensures
            v == 52,
    {
        52
    }

    fn name(&self) -> (n: &'static str)
        ensures
            n@ == "drop_blackboard_pending_todo_ids"@,
    {
        "drop_blackboard_pending_todo_ids"
    }
}

} // verus!
