//! V67: adds `execution_records.agent_runs`.
use vstd::prelude::*;

use super::Migration;

verus! {

/// V67: adds `execution_records.agent_runs`.
pub struct V67AddExecutionRecordsAgentRuns;

impl Migration for V67AddExecutionRecordsAgentRuns {
    fn version(&self) -> (v: i64)
        ensures
            v == 67,
    {
        67
    }

    fn name(&self) -> (n: &'static str)
        ensures
            n@ == "V67AddExecutionRecordsAgentRuns"@,
    {
        "V67AddExecutionRecordsAgentRuns"
    }
}

} // verus!
