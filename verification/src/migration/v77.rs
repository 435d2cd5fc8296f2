//! V77: drops the dead `loop_phases.acceptance_criteria` column.
use vstd::prelude::*;

use super::Migration;

verus! {

/// Drops the dead `loop_phases.acceptance_criteria` column (acceptance criteria belong to steps only).
pub struct V77DropLoopPhaseAcceptanceCriteria;

impl Migration for V77DropLoopPhaseAcceptanceCriteria {
    fn version(&self) -> (v: i64)
        ensures
            v == 77,
    {
        77
    }

    fn name(&self) -> (n: &'static str)
        ensures
            n@ == "V77DropLoopPhaseAcceptanceCriteria"@,
    {
        "V77DropLoopPhaseAcceptanceCriteria"
    }
}

} // verus!
