//! V53: creates the `blackboard_pages` table.
use vstd::prelude::*;

use super::Migration;

verus! {

/// V53: creates the `blackboard_pages` table.
pub struct V53CreateBlackboardPagesTable;

impl Migration for V53CreateBlackboardPagesTable {
    fn version(&self) -> (v: i64)
        ensures
            v == 53,
    {
        53
    }

    fn name(&self) -> (n: &'static str)
        ensures
            n@ == "create_blackboard_pages_table"@,
    {
        "create_blackboard_pages_table"
    }
}

} // verus!
