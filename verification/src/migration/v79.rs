//! V79: `process_templates` gets a `guid` identity column.
use vstd::prelude::*;

use super::Migration;

verus! {

/// Rebuilds `process_templates`: the guid becomes the unique identity, names may repeat, old rows are cleared.
pub struct V79ProcessTemplateGuid;

impl Migration for V79ProcessTemplateGuid {
    fn version(&self) -> (v: i64)
        ensures
            v == 79,
    {
        79
    }

    fn name(&self) -> (n: &'static str)
        ensures
            n@ == "V79ProcessTemplateGuid"@,
    {
        "V79ProcessTemplateGuid"
    }
}

} // verus!
