//! V47-V48: the consolidated blackboard migration (the `blackboards` table and the todos index fix).
use vstd::prelude::*;

use super::Migration;

verus! {

/// V47-V48: the consolidated blackboard migration (the `blackboards` table and the todos index fix).
pub struct V47ConsolidatedBlackboardFeatures;

impl Migration for V47ConsolidatedBlackboardFeatures {
    fn version(&self) -> (v: i64)
        ensures
            v == 47,
    {
        47
    }

    fn name(&self) -> (n: &'static str)
        ensures
            n@ == "consolidated_blackboard_features"@,
    {
        "consolidated_blackboard_features"
    }
}

} // verus!
