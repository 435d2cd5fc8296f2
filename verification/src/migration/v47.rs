//! V47: creates the `blackboards` table.
use vstd::prelude::*;

use super::Migration;

verus! {

/// V47: creates the `blackboards` table.
pub struct V47CreateBlackboardsTable;

impl Migration for V47CreateBlackboardsTable {
    fn version(&self) -> (v: i64)
        ensures
            v == 47,
    {
        47
    }

    fn name(&self) -> (n: &'static str)
        ensures
            n@ == "create_blackboards_table"@,
    {
        "create_blackboards_table"
    }
}

} // verus!
