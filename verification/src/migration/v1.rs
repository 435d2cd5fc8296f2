//! Migration structs of v1.
use vstd::prelude::*;

use super::Migration;

verus! {

/// v1: every initial table, index and trigger, plus the columns added over time for older databases.
pub struct V1InitialSchema;

impl Migration for V1InitialSchema {
    fn version(&self) -> (v: i64)
        ensures
            v == 1,
    {
        1
    }

    fn name(&self) -> (n: &'static str)
        ensures
            n@ == "initial_schema"@,
    {
        "initial_schema"
    }
}

} // verus!
