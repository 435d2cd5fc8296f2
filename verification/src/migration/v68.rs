//! V68: adds `executors.default_model` and `todos.model`.
use vstd::prelude::*;

use super::Migration;

verus! {

/// V68: adds `executors.default_model` and `todos.model`.
pub struct V68AddModelColumns;

impl Migration for V68AddModelColumns {
    fn version(&self) -> (v: i64)
        ensures
            v == 68,
    {
        68
    }

    fn name(&self) -> (n: &'static str)
        ensures
            n@ == "V68AddModelColumns"@,
    {
        "V68AddModelColumns"
    }
}

} // verus!
