//! V66: creates the `quick_buttons` table (user-defined quick reply buttons).
use vstd::prelude::*;

use super::Migration;

verus! {

/// V66: creates the `quick_buttons` table (user-defined quick reply buttons).
pub struct V66AddQuickButtonsTable;

impl Migration for V66AddQuickButtonsTable {
    fn version(&self) -> (v: i64)
        ensures
            v == 66,
    {
        66
    }

    fn name(&self) -> (n: &'static str)
        ensures
            n@ == "V66AddQuickButtonsTable"@,
    {
        "V66AddQuickButtonsTable"
    }
}

} // verus!
