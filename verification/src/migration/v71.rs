//! V71: the process management data model.
use vstd::prelude::*;

use super::Migration;

verus! {

/// V71: the process management data model.
pub struct V71ProcessManagement;

impl Migration for V71ProcessManagement {
    fn version(&self) -> (v: i64)
        ensures
            v == 71,
    {
        71
    }

    fn name(&self) -> (n: &'static str)
        ensures
            n@ == "V71ProcessManagement"@,
    {
        "V71ProcessManagement"
    }
}

} // verus!
