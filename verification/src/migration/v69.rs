//! V69: adds `quick_buttons.workspace_id`, isolating buttons per workspace.
use vstd::prelude::*;

use super::Migration;

verus! {

/// V69: adds `quick_buttons.workspace_id`, isolating buttons per workspace.
pub struct V69AddQuickButtonsWorkspaceId;

impl Migration for V69AddQuickButtonsWorkspaceId {
    fn version(&self) -> (v: i64)
        ensures
            v == 69,
    {
        69
    }

    fn name(&self) -> (n: &'static str)
        ensures
            n@ == "V69AddQuickButtonsWorkspaceId"@,
    {
        "V69AddQuickButtonsWorkspaceId"
    }
}

} // verus!
