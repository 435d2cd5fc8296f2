//! V83: adds `loop_steps.step_template_refs`.
use vstd::prelude::*;

use super::Migration;

verus! {

/// V83: adds the `step_template_refs` column to `loop_steps`.
pub struct V83AddLoopStepTemplateRefs;

impl Migration for V83AddLoopStepTemplateRefs {
    fn version(&self) -> (v: i64)
        ensures
            v == 83,
    {
        83
    }

    fn name(&self) -> (n: &'static str)
        ensures
            n@ == "V83AddLoopStepTemplateRefs"@,
    {
        "V83AddLoopStepTemplateRefs"
    }
}

} // verus!
