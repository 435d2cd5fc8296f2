//! V56: adds the evolved columns that `blackboards` may lack.
use vstd::prelude::*;

use super::Migration;

verus! {

/// V56: adds the evolved columns that `blackboards` may lack.
pub struct V56AddMissingBlackboardColumns;

impl Migration for V56AddMissingBlackboardColumns {
    fn version(&self) -> (v: i64)
        ensures
            v == 56,
    {
        56
    }

    fn name(&self) -> (n: &'static str)
        ensures
            n@ == "add_missing_blackboard_columns"@,
    {
        "add_missing_blackboard_columns"
    }
}

} // verus!
