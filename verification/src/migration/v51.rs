//! V51: adds `blackboards.pending_record_ids`.
use vstd::prelude::*;

use super::Migration;

verus! {

/// V51: adds `blackboards.pending_record_ids`.
pub struct V51AddBlackboardPendingRecordIds;

impl Migration for V51AddBlackboardPendingRecordIds {
    fn version(&self) -> (v: i64)
        ensures
            v == 51,
    {
        51
    }

    fn name(&self) -> (n: &'static str)
        ensures
            n@ == "add_blackboard_pending_record_ids"@,
    {
        "add_blackboard_pending_record_ids"
    }
}

} // verus!
