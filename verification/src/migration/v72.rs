//! V72: process template versioning and reserved tables.
use vstd::prelude::*;

use super::Migration;

verus! {

/// V72: the process version chain and reserved tables.
pub struct V72ProcessManagementV2;

impl Migration for V72ProcessManagementV2 {
    fn version(&self) -> (v: i64)
        ensures
            v == 72,
    {
        72
    }

    fn name(&self) -> (n: &'static str)
        ensures
            n@ == "V72ProcessManagementV2"@,
    {
        "V72ProcessManagementV2"
    }
}

} // verus!
