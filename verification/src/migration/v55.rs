//! V55: adds `blackboards.wiki_chat_sessions`.
use vstd::prelude::*;

use super::Migration;

verus! {

/// V55: adds `blackboards.wiki_chat_sessions`.
pub struct V55AddWikiChatSessions;

impl Migration for V55AddWikiChatSessions {
    fn version(&self) -> (v: i64)
        ensures
            v == 55,
    {
        55
    }

    fn name(&self) -> (n: &'static str)
        ensures
            n@ == "add_blackboards_wiki_chat_sessions"@,
    {
        "add_blackboards_wiki_chat_sessions"
    }
}

} // verus!
