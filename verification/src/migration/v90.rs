//! V90: performance indexes for frequent read paths.
use vstd::prelude::*;

use super::Migration;

verus! {

/// V90: performance indexes for frequent read paths.
pub struct V90AddPerformanceIndexes;

impl Migration for V90AddPerformanceIndexes {
    fn version(&self) -> (v: i64)
        ensures
            v == 90,
    {
        90
    }

    fn name(&self) -> (n: &'static str)
        ensures
            n@ == "add_performance_indexes"@,
    {
        "add_performance_indexes"
    }
}

} // verus!
