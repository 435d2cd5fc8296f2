//! v92: adds `delegate_max_rounds` to `tasks` and `workspace_settings`.
use vstd::prelude::*;

use super::Migration;

verus! {

/// v92: adds `delegate_max_rounds` to `tasks` and `workspace_settings`.
pub struct V92DelegateMaxRounds;

impl Migration for V92DelegateMaxRounds {
    fn version(&self) -> (v: i64)
        ensures
            v == 92,
    {
        92
    }

    fn name(&self) -> (n: &'static str)
        ensures
            n@ == "V92DelegateMaxRounds"@,
    {
        "V92DelegateMaxRounds"
    }
}

} // verus!
