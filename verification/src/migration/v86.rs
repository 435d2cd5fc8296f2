//! v86: creates the `process_template_versions` snapshot table.
use vstd::prelude::*;

use super::Migration;

verus! {

/// v86: creates the `process_template_versions` snapshot table.
pub struct V86ProcessTemplateVersions;

impl Migration for V86ProcessTemplateVersions {
    fn version(&self) -> (v: i64)
        ensures
            v == 86,
    {
        86
    }

    fn name(&self) -> (n: &'static str)
        ensures
            n@ == "process_template_versions"@,
    {
        "process_template_versions"
    }
}

} // verus!
