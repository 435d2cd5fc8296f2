//! V76: adds `loops.abnormal_handler_prompt`.
use vstd::prelude::*;

use super::Migration;

verus! {

/// Adds `loops.abnormal_handler_prompt` (nullable TEXT), a snapshot of the process's abnormal-handling prompt.
pub struct V76AddLoopAbnormalHandlerPrompt;

impl Migration for V76AddLoopAbnormalHandlerPrompt {
    fn version(&self) -> (v: i64)
        ensures
            v == 76,
    {
        76
    }

    fn name(&self) -> (n: &'static str)
        ensures
            n@ == "V76AddLoopAbnormalHandlerPrompt"@,
    {
        "V76AddLoopAbnormalHandlerPrompt"
    }
}

} // verus!
