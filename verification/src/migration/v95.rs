//! V95: retires the four default-response columns of `workspace_settings` and adds the two butler columns.
use vstd::prelude::*;

use super::Migration;

verus! {

/// V95: retires the four default-response columns of `workspace_settings` and adds the two butler columns.
pub struct V95WorkspaceButler;

impl Migration for V95WorkspaceButler {
    fn version(&self) -> (v: i64)
        ensures
            v == 95,
    {
        95
    }

    fn name(&self) -> (n: &'static str)
        ensures
            n@ == "workspace_butler_columns"@,
    {
        "workspace_butler_columns"
    }
}

/// The retired default-response columns of `workspace_settings`.
pub fn legacy_default_response_columns() -> (v: Vec<&'static str>)
    ensures
        v.len() == 4,
        v[0]@ == "default_response_type"@,
        v[1]@ == "default_response_todo_id"@,
        v[2]@ == "default_response_loop_id"@,
        v[3]@ == "default_response_executor"@,
{
    vec![
        "default_response_type",
        "default_response_todo_id",
        "default_response_loop_id",
        "default_response_executor",
    ]
}

/// v95's column additions and carry-over, from which columns exist: add each
/// butler column that is missing, then copy the legacy executor into
/// `butler_executor` where the legacy column is still there (the legacy
/// columns are dropped afterwards, each guarded by its own presence check).
pub fn butler_column_sql(
    has_butler_expert_name: bool,
    has_butler_executor: bool,
    has_default_response_executor: bool,
) -> (v: Vec<&'static str>)
    ensures
        v.len() == (if has_butler_expert_name { 0int } else { 1 }) + (if has_butler_executor { 0int } else { 1 }) + (if has_default_response_executor { 1int } else { 0 }),
        !has_butler_expert_name ==> v[0]@ == "ALTER TABLE workspace_settings ADD COLUMN butler_expert_name TEXT"@,
        !has_butler_executor ==> v[if has_butler_expert_name { 0int } else { 1 }]@
            == "ALTER TABLE workspace_settings ADD COLUMN butler_executor TEXT"@,
        has_default_response_executor ==> v@.last()@ == "UPDATE workspace_settings SET butler_executor = default_response_executor
                 WHERE butler_executor IS NULL AND default_response_executor IS NOT NULL"@,
{
    let mut v: Vec<&'static str> = Vec::new();
    if !has_butler_expert_name {
        v.push("ALTER TABLE workspace_settings ADD COLUMN butler_expert_name TEXT");
    }
    if !has_butler_executor {
        v.push("ALTER TABLE workspace_settings ADD COLUMN butler_executor TEXT");
    }
    if has_default_response_executor {
        v.push(
            "UPDATE workspace_settings SET butler_executor = default_response_executor
                 WHERE butler_executor IS NULL AND default_response_executor IS NOT NULL",
        );
    }
    v
}

} // verus!
