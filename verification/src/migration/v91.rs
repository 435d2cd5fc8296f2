//! v91: the delegated-execution columns of `tasks`.
use vstd::prelude::*;

use super::Migration;

verus! {

/// v91: five `tasks` columns for delegated task execution.
pub struct V91TaskDelegateExecution;

impl Migration for V91TaskDelegateExecution {
    fn version(&self) -> (v: i64)
        ensures
            v == 91,
    {
        91
    }

    fn name(&self) -> (n: &'static str)
        ensures
            n@ == "V91TaskDelegateExecution"@,
    {
        "V91TaskDelegateExecution"
    }
}

} // verus!
