//! V54: adds `blackboards.wiki_chat_executor`.
use vstd::prelude::*;

use super::Migration;

verus! {

/// V54: adds `blackboards.wiki_chat_executor`.
pub struct V54AddWikiChatExecutor;

impl Migration for V54AddWikiChatExecutor {
    fn version(&self) -> (v: i64)
        ensures
            v == 54,
    {
        54
    }

    fn name(&self) -> (n: &'static str)
        ensures
            n@ == "add_blackboards_wiki_chat_executor"@,
    {
        "add_blackboards_wiki_chat_executor"
    }
}

} // verus!
