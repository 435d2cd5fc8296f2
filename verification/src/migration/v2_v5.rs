//! Migration structs of v2_v5.
use vstd::prelude::*;

use std::collections::HashSet;

use super::{safe_identifier, Migration};
use crate::text::{chars_of, contains_seq, contains_str, join_strings, join_with, push_all, push_unsigned, nat_digits};

verus! {

/// Migration v2.
pub struct V2TodoRatingDropColumn;

impl Migration for V2TodoRatingDropColumn {
    fn version(&self) -> (v: i64)
        ensures
            v == 2,
    {
        2
    }

    fn name(&self) -> (n: &'static str)
        ensures
            n@ == "todo_rating_to_execution_records"@,
    {
        "todo_rating_to_execution_records"
    }
}

/// v3: moves the legacy `execution_records.logs` data into the `execution_logs` table.
pub struct V3LogsToExecutionLogs;

impl Migration for V3LogsToExecutionLogs {
    fn version(&self) -> (v: i64)
        ensures
            v == 3,
    {
        3
    }

    fn name(&self) -> (n: &'static str)
        ensures
            n@ == "logs_to_execution_logs"@,
    {
        "logs_to_execution_logs"
    }
}

/// v4: gives the Feishu child tables `ON DELETE CASCADE` foreign keys.
pub struct V4FeishuFkCascade;

impl Migration for V4FeishuFkCascade {
    fn version(&self) -> (v: i64)
        ensures
            v == 4,
    {
        4
    }

    fn name(&self) -> (n: &'static str)
        ensures
            n@ == "feishu_fk_cascade"@,
    {
        "feishu_fk_cascade"
    }
}

/// v5: adds the worktree columns.
pub struct V5ProjectDirectoryWorktree;

impl Migration for V5ProjectDirectoryWorktree {
    fn version(&self) -> (v: i64)
        ensures
            v == 5,
    {
        5
    }

    fn name(&self) -> (n: &'static str)
        ensures
            n@ == "project_directory_worktree"@,
    {
        "project_directory_worktree"
    }
}

broadcast use vstd::std_specs::hash::group_hash_axioms;

/// The versions among decoded `schema_version` rows; rows whose version did
/// not decode (`None`) are left out.
pub fn applied_versions_from_rows(rows: &Vec<Option<i64>>) -> (set: HashSet<i64>)
    ensures
        set@ == Set::new(|v: i64| exists|i: int| 0 <= i < rows.len() && rows[i] == Some(v)),
{
    let mut set: HashSet<i64> = HashSet::new();
    let mut i: usize = 0;
    while i < rows.len()
        invariant
            i <= rows.len(),
            set@ == Set::new(|v: i64| exists|j: int| 0 <= j < i && rows[j] == Some(v)),
        decreases rows.len() - i,
    {
        let ghost before = set@;
        match rows[i] {
            Some(v) => {
                set.insert(v);
            },
            None => {},
        }
        proof {
            assert forall|v: i64| set@.contains(v) <==> (exists|j: int| 0 <= j < i + 1 && rows[j] == Some(v)) by {
                if set@.contains(v) && !before.contains(v) {
                    assert(rows[i as int] == Some(v));
                }
                if exists|j: int| 0 <= j < i + 1 && rows[j] == Some(v) {
                    let j = choose|j: int| 0 <= j < i + 1 && rows[j] == Some(v);
                    if j < i {
                        assert(before.contains(v));
                    }
                }
            }
            assert(set@ =~= Set::new(|v: i64| exists|j: int| 0 <= j < i + 1 && rows[j] == Some(v)));
        }
        i += 1;
    }
    set
}

/// v2, per legacy rated todo: the rating to copy (narrowed to `i32`) and the
/// execution record to copy it onto. A row whose rating did not decode, or
/// whose todo has no finished execution record, is skipped.
pub fn rating_update(rating: Option<i64>, latest_record_id: Option<i64>) -> (r: Option<(i32, i64)>)
    ensures
        r == match (rating, latest_record_id) {
            (Some(v), Some(id)) => Some((v as i32, id)),
            _ => None,
        },
{
    match (rating, latest_record_id) {
        (Some(v), Some(id)) => Some((v as i32, id)),
        _ => None,
    }
}

/// v3: a legacy `logs` value holds log lines to move: neither empty nor `[]`.
pub fn logs_need_migration(logs_json: &str) -> (b: bool)
    ensures
        b == (logs_json@.len() > 0 && logs_json@ != "[]"@),
{
    let cs = chars_of(logs_json);
    proof {
        reveal_strlit("[]");
    }
    if cs.len() == 0 {
        return false;
    }
    if cs.len() == 2 && cs[0] == '[' && cs[1] == ']' {
        assert(logs_json@ =~= "[]"@);
        return false;
    }
    assert(logs_json@ != "[]"@) by {
        if logs_json@ == "[]"@ {
            assert(cs@[0] == '[' && cs@[1] == ']');
        }
    }
    true
}

/// v3 outcome: any failed record keeps the legacy column and fails the
/// migration so that the next start retries it.
pub fn logs_migration_outcome(migrated: u64, failed: u64) -> (r: Result<(), String>)
    requires
        migrated + failed <= u64::MAX,
    ensures
        failed == 0 ==> r is Ok,
        failed > 0 ==> (r matches Err(msg) && msg@ == "V3 logs migration partial: "@ + nat_digits(
            failed as nat,
        ) + "/"@ + nat_digits((migrated + failed) as nat) + " failed"@),
{
    if failed > 0 {
        let mut msg = String::new();
        push_all(&mut msg, "V3 logs migration partial: ");
        push_unsigned(&mut msg, failed);
        push_all(&mut msg, "/");
        push_unsigned(&mut msg, migrated + failed);
        push_all(&mut msg, " failed");
        Err(msg)
    } else {
        Ok(())
    }
}

/// v4 probe: the stored `CREATE TABLE` text of `table`, if it exists.
pub fn table_sql_probe(table: &str) -> (s: String)
    requires
        safe_identifier(table@),
    ensures
        s@ == "SELECT sql FROM sqlite_master WHERE type='table' AND name='"@ + table@ + "'"@,
{
    let mut s = String::new();
    push_all(&mut s, "SELECT sql FROM sqlite_master WHERE type='table' AND name='");
    push_all(&mut s, table);
    push_all(&mut s, "'");
    s
}

/// v4 probe: one row per foreign-key column of `table`.
pub fn foreign_key_list_sql(table: &str) -> (s: String)
    requires
        safe_identifier(table@),
    ensures
        s@ == "PRAGMA foreign_key_list('"@ + table@ + "')"@,
{
    let mut s = String::new();
    push_all(&mut s, "PRAGMA foreign_key_list('");
    push_all(&mut s, table);
    push_all(&mut s, "')");
    s
}

/// The column listing of `table`.
pub fn table_info_sql(table: &str) -> (s: String)
    ensures
        s@ == "PRAGMA table_info('"@ + table@ + "')"@,
{
    let mut s = String::new();
    push_all(&mut s, "PRAGMA table_info('");
    push_all(&mut s, table);
    push_all(&mut s, "')");
    s
}

/// v4: a table needs rebuilding when it exists and at least one of its
/// foreign keys (their `on_delete` actions, as `PRAGMA foreign_key_list`
/// reports them) is not `CASCADE`. A missing table is created with the right
/// schema later; a table without foreign keys needs nothing.
pub fn needs_fk_migration(table_found: bool, on_delete: &Vec<String>) -> (b: bool)
    ensures
        b == (table_found && exists|i: int| 0 <= i < on_delete.len() && #[trigger] on_delete[i]@
            != "CASCADE"@),
{
    if !table_found {
        return false;
    }
    let cascade = String::from_str("CASCADE");
    let mut i: usize = 0;
    while i < on_delete.len()
        invariant
            i <= on_delete.len(),
            table_found,
            cascade@ == "CASCADE"@,
            forall|j: int| 0 <= j < i ==> #[trigger] on_delete[j]@ == "CASCADE"@,
        decreases on_delete.len() - i,
    {
        if !(on_delete[i] == cascade) {
            assert(on_delete[i as int]@ != "CASCADE"@);
            return true;
        }
        i += 1;
    }
    false
}

/// The columns of the rebuilt table that the old table also has, in the
/// rebuilt table's order.
pub open spec fn shared_columns(old_cols: Seq<Seq<char>>, new_cols: Seq<Seq<char>>) -> Seq<Seq<char>>
    decreases new_cols.len(),
{
    if new_cols.len() == 0 {
        Seq::empty()
    } else {
        let rest = shared_columns(old_cols, new_cols.drop_last());
        if old_cols.contains(new_cols.last()) {
            rest.push(new_cols.last())
        } else {
            rest
        }
    }
}

/// The columns copied by a v4 rebuild are exactly those both versions of
/// the table have: none that the old table lacks (which would fail the copy
/// with "no such column") and none that the rebuilt table lacks.
pub proof fn copied_columns_are_the_shared_ones(old_cols: Seq<Seq<char>>, new_cols: Seq<Seq<char>>)
    ensures
        forall|c: Seq<char>|
            #[trigger] shared_columns(old_cols, new_cols).contains(c) <==> (old_cols.contains(c)
                && new_cols.contains(c)),
    decreases new_cols.len(),
{
    if new_cols.len() > 0 {
        let p = new_cols.drop_last();
        let last = new_cols.last();
        copied_columns_are_the_shared_ones(old_cols, p);
        let rest = shared_columns(old_cols, p);
        assert forall|c: Seq<char>|
            #[trigger] shared_columns(old_cols, new_cols).contains(c) <==> (old_cols.contains(c)
                && new_cols.contains(c)) by {
            if new_cols.contains(c) && !p.contains(c) {
                let i = choose|i: int| 0 <= i < new_cols.len() && new_cols[i] == c;
                if i < p.len() {
                    assert(p[i] == c);
                }
                assert(c == last);
            }
            if p.contains(c) {
                let i = choose|i: int| 0 <= i < p.len() && p[i] == c;
                assert(new_cols[i] == c);
            }
            if old_cols.contains(last) {
                assert(shared_columns(old_cols, new_cols) == rest.push(last));
                if rest.push(last).contains(c) && c != last {
                    let i = choose|i: int| 0 <= i < rest.len() + 1 && rest.push(last)[i] == c;
                    assert(rest[i] == c);
                }
                if rest.contains(c) {
                    let i = choose|i: int| 0 <= i < rest.len() && rest[i] == c;
                    assert(rest.push(last)[i] == c);
                }
                if c == last {
                    assert(rest.push(last)[rest.len() as int] == c);
                }
            } else {
                assert(shared_columns(old_cols, new_cols) == rest);
            }
        }
    }
}

/// v4 rebuild: the column list copied from the old table, the rebuilt
/// table's columns that the old table also has, joined with `, ` (the new
/// schema is authoritative; columns only one side has are not copied).
pub fn copied_columns(old_cols: &Vec<String>, new_cols: &Vec<String>) -> (s: String)
    ensures
        s@ == join_with(
            shared_columns(
                old_cols@.map_values(|c: String| c@),
                new_cols@.map_values(|c: String| c@),
            ),
            ", "@,
        ),
{
    let ghost ov = old_cols@.map_values(|c: String| c@);
    let ghost nv = new_cols@.map_values(|c: String| c@);
    let mut kept: Vec<String> = Vec::new();
    let mut i: usize = 0;
    while i < new_cols.len()
        invariant
            ov == old_cols@.map_values(|c: String| c@),
            nv == new_cols@.map_values(|c: String| c@),
            i <= new_cols.len(),
            kept@.map_values(|c: String| c@) == shared_columns(ov, nv.take(i as int)),
        decreases new_cols.len() - i,
    {
        let mut found = false;
        let mut j: usize = 0;
        while j < old_cols.len()
            invariant
                ov == old_cols@.map_values(|c: String| c@),
                j <= old_cols.len(),
                i < new_cols.len(),
                found == exists|k: int| 0 <= k < j && ov[k] == new_cols@[i as int]@,
            decreases old_cols.len() - j,
        {
            if old_cols[j] == new_cols[i] {
                found = true;
            }
            proof {
                if found && !(exists|k: int| 0 <= k < j && ov[k] == new_cols@[i as int]@) {
                    assert(ov[j as int] == new_cols@[i as int]@);
                }
            }
            j += 1;
        }
        proof {
            assert(nv.take(i + 1).drop_last() =~= nv.take(i as int));
            assert(nv.take(i + 1).last() == new_cols@[i as int]@);
            if found {
                let k = choose|k: int| 0 <= k < old_cols.len() && ov[k] == new_cols@[i as int]@;
                assert(ov.contains(new_cols@[i as int]@));
            } else {
                assert(!ov.contains(new_cols@[i as int]@));
            }
        }
        if found {
            let c = new_cols[i].clone();
            kept.push(c);
            proof {
                assert(kept@.map_values(|c: String| c@) =~= shared_columns(ov, nv.take(i as int)).push(
                    new_cols@[i as int]@,
                ));
            }
        }
        i += 1;
    }
    assert(nv.take(new_cols.len() as int) =~= nv);
    join_strings(&kept, ", ")
}

/// v4 rebuild, first half: clear a leftover temporary table from an
/// interrupted run, then create `<table>_new` from the target column DDL.
pub fn rebuild_prelude_sql(table: &str, columns: &str) -> (v: Vec<String>)
    requires
        safe_identifier(table@),
    ensures
        v.len() == 2,
        v[0]@ == "DROP TABLE IF EXISTS "@ + table@ + "_new"@,
        v[1]@ == "CREATE TABLE IF NOT EXISTS "@ + table@ + "_new ("@ + columns@ + ")"@,
{
    let mut a = String::new();
    push_all(&mut a, "DROP TABLE IF EXISTS ");
    push_all(&mut a, table);
    push_all(&mut a, "_new");
    let mut b = String::new();
    push_all(&mut b, "CREATE TABLE IF NOT EXISTS ");
    push_all(&mut b, table);
    push_all(&mut b, "_new (");
    push_all(&mut b, columns);
    push_all(&mut b, ")");
    vec![a, b]
}

/// v4 rebuild, second half: copy the shared columns, drop the old table,
/// rename the new one into place and re-enable foreign keys.
pub fn rebuild_copy_sql(table: &str, cols: &str) -> (v: Vec<String>)
    requires
        safe_identifier(table@),
    ensures
        v.len() == 4,
        v[0]@ == "INSERT INTO "@ + table@ + "_new ("@ + cols@ + ") SELECT "@ + cols@ + " FROM "@
            + table@,
        v[1]@ == "DROP TABLE "@ + table@,
        v[2]@ == "ALTER TABLE "@ + table@ + "_new RENAME TO "@ + table@,
        v[3]@ == "PRAGMA foreign_keys = ON"@,
{
    let mut a = String::new();
    push_all(&mut a, "INSERT INTO ");
    push_all(&mut a, table);
    push_all(&mut a, "_new (");
    push_all(&mut a, cols);
    push_all(&mut a, ") SELECT ");
    push_all(&mut a, cols);
    push_all(&mut a, " FROM ");
    push_all(&mut a, table);
    let mut b = String::new();
    push_all(&mut b, "DROP TABLE ");
    push_all(&mut b, table);
    let mut c = String::new();
    push_all(&mut c, "ALTER TABLE ");
    push_all(&mut c, table);
    push_all(&mut c, "_new RENAME TO ");
    push_all(&mut c, table);
    let mut d = String::new();
    push_all(&mut d, "PRAGMA foreign_keys = ON");
    vec![a, b, c, d]
}

/// v5: an `ADD COLUMN` failure is the harmless "column already exists" kind
/// exactly when its message mentions `duplicate column name`; any other
/// failure must fail the migration.
pub fn is_duplicate_column_error(msg: &str) -> (b: bool)
    ensures
        b == contains_seq(msg@, "duplicate column name"@),
{
    contains_str(msg, "duplicate column name")
}

/// v4: the Feishu child tables to give `ON DELETE CASCADE`, with the column
/// DDL of their rebuilt form; every name is a plain identifier, so it can be
/// spliced into the probe and rebuild statements.
pub fn feishu_fk_tables() -> (v: Vec<(&'static str, &'static str)>)
    ensures
        v.len() == 6,
        forall|i: int| 0 <= i < v.len() ==> safe_identifier(#[trigger] v[i].0@),
        v[0].0@ == "feishu_homes"@,
        v[0].1@ == "id INTEGER PRIMARY KEY AUTOINCREMENT, bot_id INTEGER NOT NULL, user_open_id TEXT NOT NULL, chat_id TEXT, receive_id TEXT NOT NULL, receive_id_type TEXT NOT NULL, created_at TEXT, updated_at TEXT, FOREIGN KEY (bot_id) REFERENCES agent_bots(id) ON DELETE CASCADE, UNIQUE(bot_id, user_open_id)"@,
        v[1].0@ == "feishu_messages"@,
        v[1].1@ == "id INTEGER PRIMARY KEY AUTOINCREMENT, bot_id INTEGER NOT NULL, message_id TEXT NOT NULL UNIQUE, chat_id TEXT NOT NULL, chat_type TEXT NOT NULL, sender_open_id TEXT NOT NULL, sender_nickname TEXT, sender_type TEXT, content TEXT, msg_type TEXT NOT NULL DEFAULT 'text', is_mention INTEGER DEFAULT 0, processed INTEGER DEFAULT 0, is_history INTEGER DEFAULT 0, fetch_time TEXT, created_at TEXT, processed_todo_id INTEGER, execution_record_id INTEGER, FOREIGN KEY (bot_id) REFERENCES agent_bots(id) ON DELETE CASCADE"@,
        v[2].0@ == "feishu_history_chats"@,
        v[2].1@ == "id INTEGER PRIMARY KEY AUTOINCREMENT, bot_id INTEGER NOT NULL, chat_id TEXT NOT NULL, chat_name TEXT, enabled INTEGER DEFAULT 1, last_fetch_time TEXT, polling_interval_secs INTEGER DEFAULT 60, created_at TEXT, FOREIGN KEY (bot_id) REFERENCES agent_bots(id) ON DELETE CASCADE, UNIQUE(bot_id, chat_id)"@,
        v[3].0@ == "feishu_push_targets"@,
        v[3].1@ == "id INTEGER PRIMARY KEY AUTOINCREMENT, bot_id INTEGER NOT NULL, p2p_receive_id TEXT NOT NULL DEFAULT '', group_chat_id TEXT NOT NULL DEFAULT '', receive_id_type TEXT NOT NULL DEFAULT 'open_id', push_level TEXT DEFAULT 'result_only', p2p_response_enabled INTEGER NOT NULL DEFAULT 1, group_response_enabled INTEGER NOT NULL DEFAULT 1, created_at TEXT, updated_at TEXT, FOREIGN KEY (bot_id) REFERENCES agent_bots(id) ON DELETE CASCADE"@,
        v[4].0@ == "feishu_response_config"@,
        v[4].1@ == "id INTEGER PRIMARY KEY AUTOINCREMENT, bot_id INTEGER NOT NULL, target_type TEXT NOT NULL, enabled INTEGER NOT NULL DEFAULT 1, debounce_secs INTEGER DEFAULT 20, created_at TEXT, updated_at TEXT, FOREIGN KEY (bot_id) REFERENCES agent_bots(id) ON DELETE CASCADE, UNIQUE(bot_id, target_type)"@,
        v[5].0@ == "feishu_group_whitelist"@,
        v[5].1@ == "id INTEGER PRIMARY KEY AUTOINCREMENT, bot_id INTEGER NOT NULL, sender_open_id TEXT NOT NULL, sender_name TEXT, created_at TEXT, FOREIGN KEY (bot_id) REFERENCES agent_bots(id) ON DELETE CASCADE, UNIQUE(bot_id, sender_open_id)"@,
{
    let v = vec![
        ("feishu_homes", "id INTEGER PRIMARY KEY AUTOINCREMENT, bot_id INTEGER NOT NULL, user_open_id TEXT NOT NULL, chat_id TEXT, receive_id TEXT NOT NULL, receive_id_type TEXT NOT NULL, created_at TEXT, updated_at TEXT, FOREIGN KEY (bot_id) REFERENCES agent_bots(id) ON DELETE CASCADE, UNIQUE(bot_id, user_open_id)"),
        ("feishu_messages", "id INTEGER PRIMARY KEY AUTOINCREMENT, bot_id INTEGER NOT NULL, message_id TEXT NOT NULL UNIQUE, chat_id TEXT NOT NULL, chat_type TEXT NOT NULL, sender_open_id TEXT NOT NULL, sender_nickname TEXT, sender_type TEXT, content TEXT, msg_type TEXT NOT NULL DEFAULT 'text', is_mention INTEGER DEFAULT 0, processed INTEGER DEFAULT 0, is_history INTEGER DEFAULT 0, fetch_time TEXT, created_at TEXT, processed_todo_id INTEGER, execution_record_id INTEGER, FOREIGN KEY (bot_id) REFERENCES agent_bots(id) ON DELETE CASCADE"),
        ("feishu_history_chats", "id INTEGER PRIMARY KEY AUTOINCREMENT, bot_id INTEGER NOT NULL, chat_id TEXT NOT NULL, chat_name TEXT, enabled INTEGER DEFAULT 1, last_fetch_time TEXT, polling_interval_secs INTEGER DEFAULT 60, created_at TEXT, FOREIGN KEY (bot_id) REFERENCES agent_bots(id) ON DELETE CASCADE, UNIQUE(bot_id, chat_id)"),
        ("feishu_push_targets", "id INTEGER PRIMARY KEY AUTOINCREMENT, bot_id INTEGER NOT NULL, p2p_receive_id TEXT NOT NULL DEFAULT '', group_chat_id TEXT NOT NULL DEFAULT '', receive_id_type TEXT NOT NULL DEFAULT 'open_id', push_level TEXT DEFAULT 'result_only', p2p_response_enabled INTEGER NOT NULL DEFAULT 1, group_response_enabled INTEGER NOT NULL DEFAULT 1, created_at TEXT, updated_at TEXT, FOREIGN KEY (bot_id) REFERENCES agent_bots(id) ON DELETE CASCADE"),
        ("feishu_response_config", "id INTEGER PRIMARY KEY AUTOINCREMENT, bot_id INTEGER NOT NULL, target_type TEXT NOT NULL, enabled INTEGER NOT NULL DEFAULT 1, debounce_secs INTEGER DEFAULT 20, created_at TEXT, updated_at TEXT, FOREIGN KEY (bot_id) REFERENCES agent_bots(id) ON DELETE CASCADE, UNIQUE(bot_id, target_type)"),
        ("feishu_group_whitelist", "id INTEGER PRIMARY KEY AUTOINCREMENT, bot_id INTEGER NOT NULL, sender_open_id TEXT NOT NULL, sender_name TEXT, created_at TEXT, FOREIGN KEY (bot_id) REFERENCES agent_bots(id) ON DELETE CASCADE, UNIQUE(bot_id, sender_open_id)"),
    ];
    proof {
        reveal_strlit("feishu_homes");
        reveal_strlit("feishu_messages");
        reveal_strlit("feishu_history_chats");
        reveal_strlit("feishu_push_targets");
        reveal_strlit("feishu_response_config");
        reveal_strlit("feishu_group_whitelist");
        assert forall|i: int| 0 <= i < v.len() implies safe_identifier(#[trigger] v[i].0@) by {
            let n = v[i].0@;
            assert(forall|k: int| 0 <= k < n.len() ==> #[trigger] super::identifier_char(n[k]));
        }
    }
    v
}

} // verus!
