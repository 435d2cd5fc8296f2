//! V60: adds `feishu_messages.error`.
use vstd::prelude::*;

use super::Migration;

verus! {

/// V60: adds `feishu_messages.error`.
pub struct V60AddFeishuMessagesError;

impl Migration for V60AddFeishuMessagesError {
    fn version(&self) -> (v: i64)
        ensures
            v == 60,
    {
        60
    }

    fn name(&self) -> (n: &'static str)
        ensures
            n@ == "add_feishu_messages_error"@,
    {
        "add_feishu_messages_error"
    }
}

} // verus!
