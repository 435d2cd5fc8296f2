//! V50: the per-workspace configuration columns of `blackboards`.
use vstd::prelude::*;

use super::Migration;

verus! {

/// V50: the per-workspace configuration columns of `blackboards`.
pub struct V50AddBlackboardWorkspaceConfig;

impl Migration for V50AddBlackboardWorkspaceConfig {
    fn version(&self) -> (v: i64)
        ensures
            v == 50,
    {
        50
    }

    fn name(&self) -> (n: &'static str)
        ensures
            n@ == "add_blackboard_workspace_config"@,
    {
        "add_blackboard_workspace_config"
    }
}

} // verus!
