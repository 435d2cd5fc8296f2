//! V70: adds `workspace_settings.system_prompt`.
use vstd::prelude::*;

use super::Migration;

verus! {

/// V70: adds `workspace_settings.system_prompt`.
pub struct V70AddWorkspaceSettingsSystemPrompt;

impl Migration for V70AddWorkspaceSettingsSystemPrompt {
    fn version(&self) -> (v: i64)
        ensures
            v == 70,
    {
        70
    }

    fn name(&self) -> (n: &'static str)
        ensures
            n@ == "V70AddWorkspaceSettingsSystemPrompt"@,
    {
        "V70AddWorkspaceSettingsSystemPrompt"
    }
}

} // verus!
