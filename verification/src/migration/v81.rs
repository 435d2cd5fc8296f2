//! V81: drops `loop_steps.review_type`.
use vstd::prelude::*;

use super::Migration;

verus! {

/// Drops the unused `loop_steps.review_type` column.
pub struct V81DropLoopStepReviewType;

impl Migration for V81DropLoopStepReviewType {
    fn version(&self) -> (v: i64)
        ensures
            v == 81,
    {
        81
    }

    fn name(&self) -> (n: &'static str)
        ensures
            n@ == "V81DropLoopStepReviewType"@,
    {
        "V81DropLoopStepReviewType"
    }
}

} // verus!
