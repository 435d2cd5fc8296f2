//! V78: drops `process_templates.definition`.
use vstd::prelude::*;

use super::Migration;

verus! {

/// Drops `process_templates.definition` (the definition is read from the file at `source_path`).
pub struct V78ProcessDefinitionToFile;

impl Migration for V78ProcessDefinitionToFile {
    fn version(&self) -> (v: i64)
        ensures
            v == 78,
    {
        78
    }

    fn name(&self) -> (n: &'static str)
        ensures
            n@ == "V78ProcessDefinitionToFile"@,
    {
        "V78ProcessDefinitionToFile"
    }
}

} // verus!
