//! V48: scopes the unique `(action_type, action_key)` index of `todos` by workspace.
use vstd::prelude::*;

use super::Migration;

verus! {

/// V48: scopes the unique `(action_type, action_key)` index of `todos` by workspace.
pub struct V48ScopeTodosActionKeyByWorkspace;

impl Migration for V48ScopeTodosActionKeyByWorkspace {
    fn version(&self) -> (v: i64)
        ensures
            v == 48,
    {
        48
    }

    fn name(&self) -> (n: &'static str)
        ensures
            n@ == "scope_todos_action_key_by_workspace"@,
    {
        "scope_todos_action_key_by_workspace"
    }
}

} // verus!
