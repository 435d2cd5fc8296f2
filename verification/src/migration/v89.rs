//! v89: adds `execution_records.workspace_id`.
use vstd::prelude::*;

use super::Migration;

verus! {

/// v89: adds `execution_records.workspace_id`, so a record belongs to a workspace directly.
pub struct V89AddExecutionRecordsWorkspaceId;

impl Migration for V89AddExecutionRecordsWorkspaceId {
    fn version(&self) -> (v: i64)
        ensures
            v == 89,
    {
        89
    }

    fn name(&self) -> (n: &'static str)
        ensures
            n@ == "V89AddExecutionRecordsWorkspaceId"@,
    {
        "V89AddExecutionRecordsWorkspaceId"
    }
}

} // verus!
