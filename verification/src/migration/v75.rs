//! V75: adds `loop_steps.review_prompt`.
use vstd::prelude::*;

use super::Migration;

verus! {

/// Adds `loop_steps.review_prompt` (nullable TEXT), the step's inline review template.
pub struct V75AddLoopStepReviewPrompt;

impl Migration for V75AddLoopStepReviewPrompt {
    fn version(&self) -> (v: i64)
        ensures
            v == 75,
    {
        75
    }

    fn name(&self) -> (n: &'static str)
        ensures
            n@ == "V75AddLoopStepReviewPrompt"@,
    {
        "V75AddLoopStepReviewPrompt"
    }
}

} // verus!
