//! v88: creates the `task_posts` table (task discussion posts).
use vstd::prelude::*;

use super::Migration;

verus! {

/// v88: the task discussion posts table.
pub struct V88TaskDiscussionPosts;

impl Migration for V88TaskDiscussionPosts {
    fn version(&self) -> (v: i64)
        ensures
            v == 88,
    {
        88
    }

    fn name(&self) -> (n: &'static str)
        ensures
            n@ == "V88TaskDiscussionPosts"@,
    {
        "V88TaskDiscussionPosts"
    }
}

} // verus!
