//! V57: adds `blackboards.wiki_timeout_secs`.
use vstd::prelude::*;

use super::Migration;

verus! {

/// V57: adds `blackboards.wiki_timeout_secs`.
pub struct V57AddWikiTimeoutSecs;

impl Migration for V57AddWikiTimeoutSecs {
    fn version(&self) -> (v: i64)
        ensures
            v == 57,
    {
        57
    }

    fn name(&self) -> (n: &'static str)
        ensures
            n@ == "add_blackboards_wiki_timeout_secs"@,
    {
        "add_blackboards_wiki_timeout_secs"
    }
}

} // verus!
