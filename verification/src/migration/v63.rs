//! V63: adds `executors.is_default`.
use vstd::prelude::*;

use super::Migration;

verus! {

/// V63: adds `executors.is_default`.
pub struct V63AddExecutorIsDefault;

impl Migration for V63AddExecutorIsDefault {
    fn version(&self) -> (v: i64)
        ensures
            v == 63,
    {
        63
    }

    fn name(&self) -> (n: &'static str)
        ensures
            n@ == "V63AddExecutorIsDefault"@,
    {
        "V63AddExecutorIsDefault"
    }
}

} // verus!
