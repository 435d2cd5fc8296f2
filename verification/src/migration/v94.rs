//! V94: renames the project directory entity to workspace.
use vstd::prelude::*;

use super::Migration;

verus! {

/// V94: renames the project directory entity to workspace.
pub struct V94RenameProjectDirectoriesToWorkspaces;

impl Migration for V94RenameProjectDirectoriesToWorkspaces {
    fn version(&self) -> (v: i64)
        ensures
            v == 94,
    {
        94
    }

    fn name(&self) -> (n: &'static str)
        ensures
            n@ == "rename_project_directories_to_workspaces"@,
    {
        "rename_project_directories_to_workspaces"
    }
}

/// v94's statements from the schema it finds: nothing once `workspaces`
/// exists, `project_directories` is gone and the bindings no longer have
/// `project_dir_id`; otherwise drop the old trigger and index, rename the
/// table if it is still there, create the new index and trigger, and rename
/// the bindings column if it is still there. Every step is guarded, so a run
/// interrupted half-way finishes on the next start.
pub fn rename_to_workspaces_sql(
    workspaces_exists: bool,
    project_directories_exists: bool,
    bindings_have_project_dir_id: bool,
) -> (v: Vec<&'static str>)
    ensures
        workspaces_exists && !project_directories_exists && !bindings_have_project_dir_id ==> v.len()
            == 0,
        !(workspaces_exists && !project_directories_exists && !bindings_have_project_dir_id) ==> {
            &&& v.len() == 4 + (if project_directories_exists { 1int } else { 0 }) + (if bindings_have_project_dir_id { 1int } else { 0 })
            &&& v[0]@ == "DROP TRIGGER IF EXISTS set_project_directories_created_at_utc"@
            &&& v[1]@ == "DROP INDEX IF EXISTS idx_project_directories_path"@
            &&& project_directories_exists ==> v[2]@ == "ALTER TABLE project_directories RENAME TO workspaces"@
            &&& v[if project_directories_exists { 3int } else { 2 }]@
                == "CREATE INDEX IF NOT EXISTS idx_workspaces_path ON workspaces(path)"@
            &&& v[if project_directories_exists { 4int } else { 3 }]@ == "CREATE TRIGGER IF NOT EXISTS set_workspaces_created_at_utc AFTER INSERT ON workspaces
             BEGIN
                 UPDATE workspaces SET created_at = strftime('%Y-%m-%dT%H:%M:%SZ', 'now', 'utc') WHERE rowid = new.rowid;
             END"@
            &&& v@.last()@ == if bindings_have_project_dir_id {
                "ALTER TABLE feishu_project_bindings RENAME COLUMN project_dir_id TO workspace_id"@
            } else {
                "CREATE TRIGGER IF NOT EXISTS set_workspaces_created_at_utc AFTER INSERT ON workspaces
             BEGIN
                 UPDATE workspaces SET created_at = strftime('%Y-%m-%dT%H:%M:%SZ', 'now', 'utc') WHERE rowid = new.rowid;
             END"@
            }
        },
{
    let mut v: Vec<&'static str> = Vec::new();
    if workspaces_exists && !project_directories_exists && !bindings_have_project_dir_id {
        return v;
    }
    v.push("DROP TRIGGER IF EXISTS set_project_directories_created_at_utc");
    v.push("DROP INDEX IF EXISTS idx_project_directories_path");
    if project_directories_exists {
        v.push("ALTER TABLE project_directories RENAME TO workspaces");
    }
    v.push("CREATE INDEX IF NOT EXISTS idx_workspaces_path ON workspaces(path)");
    v.push(
        "CREATE TRIGGER IF NOT EXISTS set_workspaces_created_at_utc AFTER INSERT ON workspaces
             BEGIN
                 UPDATE workspaces SET created_at = strftime('%Y-%m-%dT%H:%M:%SZ', 'now', 'utc') WHERE rowid = new.rowid;
             END",
    );
    if bindings_have_project_dir_id {
        v.push("ALTER TABLE feishu_project_bindings RENAME COLUMN project_dir_id TO workspace_id");
    }
    v
}

} // verus!
