//! V64: adds `agent_bots.owner_open_id` and moves existing data into it.
use vstd::prelude::*;

use super::Migration;

verus! {

/// V64: adds `agent_bots.owner_open_id` and moves existing data into it.
pub struct V64AddAgentBotOwnerOpenId;

impl Migration for V64AddAgentBotOwnerOpenId {
    fn version(&self) -> (v: i64)
        ensures
            v == 64,
    {
        64
    }

    fn name(&self) -> (n: &'static str)
        ensures
            n@ == "V64AddAgentBotOwnerOpenId"@,
    {
        "V64AddAgentBotOwnerOpenId"
    }
}

} // verus!
