//! V82: drops the retired `process_step_templates` table.
use vstd::prelude::*;

use super::Migration;

verus! {

/// Drops the dead `process_step_templates` table.
pub struct V82DropProcessStepTemplates;

impl Migration for V82DropProcessStepTemplates {
    fn version(&self) -> (v: i64)
        ensures
            v == 82,
    {
        82
    }

    fn name(&self) -> (n: &'static str)
        ensures
            n@ == "V82DropProcessStepTemplates"@,
    {
        "V82DropProcessStepTemplates"
    }
}

} // verus!
