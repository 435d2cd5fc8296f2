//! V74: data backfill: turns on auto review for the todos of `loop_steps` whose review type is `ai`.
use vstd::prelude::*;

use super::Migration;

verus! {

/// V74: data backfill: turns on auto review for the todos of `loop_steps` whose review type is `ai`.
pub struct V74BackfillAutoReview;

impl Migration for V74BackfillAutoReview {
    fn version(&self) -> (v: i64)
        ensures
            v == 74,
    {
        74
    }

    fn name(&self) -> (n: &'static str)
        ensures
            n@ == "V74BackfillAutoReview"@,
    {
        "V74BackfillAutoReview"
    }
}

} // verus!
