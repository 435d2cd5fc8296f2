use std::collections::BTreeMap;

use ntd_db::migration::v2_v5::{
    applied_versions_from_rows, copied_columns, feishu_fk_tables, foreign_key_list_sql,
    is_duplicate_column_error, logs_migration_outcome, logs_need_migration, needs_fk_migration,
    rating_update, rebuild_copy_sql, rebuild_prelude_sql, table_info_sql, table_sql_probe,
};
use ntd_db::migration::v80::{join_id_list, manual_loop_delete_sql, manual_loops_sql};
use ntd_db::migration::v85::{phase_exec_fix_action, PhaseExecFixAction};
use ntd_db::migration::v94::rename_to_workspaces_sql;
use ntd_db::migration::v95::{butler_column_sql, legacy_default_response_columns};
use ntd_db::migration::is_safe_identifier;

fn strings(v: &[&str]) -> Vec<String> {
    v.iter().map(|s| s.to_string()).collect()
}

#[test]
fn test_join_id_list() {
    let mut m: BTreeMap<i64, String> = BTreeMap::new();
    assert_eq!(join_id_list(&m), "");
    m.insert(3, "c".into());
    m.insert(1, "a".into());
    m.insert(2, "b".into());
    assert_eq!(join_id_list(&m), "1,2,3");
}

#[test]
fn join_id_list_orders_negative_and_large_ids() {
    let mut m: BTreeMap<i64, String> = BTreeMap::new();
    m.insert(100, String::new());
    m.insert(-5, String::new());
    m.insert(i64::MAX, String::new());
    assert_eq!(join_id_list(&m), format!("-5,100,{}", i64::MAX));
}

#[test]
fn manual_loop_cascade_statements() {
    let v = manual_loop_delete_sql("1,2");
    assert_eq!(v.len(), 10);
    assert!(v[0].starts_with("DELETE FROM loop_step_execution_gates"));
    assert!(v[0].contains("SELECT id FROM loop_executions WHERE loop_id IN (1,2)"));
    assert_eq!(v[4], "DELETE FROM loop_executions WHERE loop_id IN (1,2)");
    assert_eq!(v[9], "DELETE FROM loops WHERE id IN (1,2)");
    assert_eq!(manual_loops_sql(), "SELECT id, name FROM loops WHERE process_template_id IS NULL");
}

#[test]
fn applied_versions_skip_undecodable_rows() {
    let set = applied_versions_from_rows(&vec![Some(1), None, Some(5), Some(1)]);
    let mut v: Vec<i64> = set.into_iter().collect();
    v.sort();
    assert_eq!(v, vec![1, 5]);
    assert!(applied_versions_from_rows(&Vec::new()).is_empty());
}

#[test]
fn rating_copy_decision() {
    assert_eq!(rating_update(Some(4), Some(10)), Some((4, 10)));
    assert_eq!(rating_update(None, Some(10)), None);
    assert_eq!(rating_update(Some(4), None), None);
    // the rating is narrowed to i32 the way `as i32` does
    assert_eq!(rating_update(Some(1 << 32 | 3), Some(1)), Some((3, 1)));
}

#[test]
fn legacy_logs_decisions() {
    assert!(!logs_need_migration(""));
    assert!(!logs_need_migration("[]"));
    assert!(logs_need_migration("[{\"a\":1}]"));
    assert!(logs_need_migration("[ ]"));
    assert_eq!(logs_migration_outcome(5, 0), Ok(()));
    assert_eq!(logs_migration_outcome(0, 0), Ok(()));
    assert_eq!(
        logs_migration_outcome(3, 2),
        Err("V3 logs migration partial: 2/5 failed".to_string())
    );
}

#[test]
fn fk_cascade_decision() {
    // table missing
    assert!(!needs_fk_migration(false, &strings(&["NO ACTION"])));
    // no foreign keys
    assert!(!needs_fk_migration(true, &Vec::new()));
    // all cascade
    assert!(!needs_fk_migration(true, &strings(&["CASCADE", "CASCADE"])));
    // one not cascade
    assert!(needs_fk_migration(true, &strings(&["NO ACTION"])));
    // mixed
    assert!(needs_fk_migration(true, &strings(&["CASCADE", "RESTRICT"])));
}

#[test]
fn fk_probe_and_rebuild_statements() {
    assert_eq!(
        table_sql_probe("feishu_homes"),
        "SELECT sql FROM sqlite_master WHERE type='table' AND name='feishu_homes'"
    );
    assert_eq!(foreign_key_list_sql("feishu_homes"), "PRAGMA foreign_key_list('feishu_homes')");
    assert_eq!(table_info_sql("feishu_homes_new"), "PRAGMA table_info('feishu_homes_new')");
    let pre = rebuild_prelude_sql("t", "id INTEGER");
    assert_eq!(pre, vec!["DROP TABLE IF EXISTS t_new".to_string(), "CREATE TABLE IF NOT EXISTS t_new (id INTEGER)".to_string()]);
    let old = strings(&["id", "legacy", "name"]);
    let new = strings(&["id", "name", "added"]);
    let cols = copied_columns(&old, &new);
    assert_eq!(cols, "id, name");
    let copy = rebuild_copy_sql("t", &cols);
    assert_eq!(copy[0], "INSERT INTO t_new (id, name) SELECT id, name FROM t");
    assert_eq!(copy[1], "DROP TABLE t");
    assert_eq!(copy[2], "ALTER TABLE t_new RENAME TO t");
    assert_eq!(copy[3], "PRAGMA foreign_keys = ON");
    assert_eq!(copied_columns(&old, &Vec::new()), "");
}

#[test]
fn feishu_tables_are_safe_identifiers() {
    let tables = feishu_fk_tables();
    let names: Vec<&str> = tables.iter().map(|t| t.0).collect();
    assert_eq!(
        names,
        vec![
            "feishu_homes",
            "feishu_messages",
            "feishu_history_chats",
            "feishu_push_targets",
            "feishu_response_config",
            "feishu_group_whitelist"
        ]
    );
    for (t, ddl) in tables {
        assert!(is_safe_identifier(t));
        assert!(ddl.contains("REFERENCES agent_bots(id) ON DELETE CASCADE"));
    }
}

#[test]
fn duplicate_column_errors_are_recognised() {
    assert!(is_duplicate_column_error("error returned from database: (code: 1) duplicate column name: auto_cleanup"));
    assert!(!is_duplicate_column_error("no such table: project_directories"));
}

#[test]
fn phase_exec_fix_decisions() {
    let set_null = "CREATE TABLE loop_phase_executions (phase_id INTEGER, FOREIGN KEY (phase_id) REFERENCES loop_phases(id) ON DELETE SET NULL)";
    let cascade = "CREATE TABLE loop_phase_executions (phase_id INTEGER, FOREIGN KEY (phase_id) REFERENCES loop_phases(id) ON DELETE CASCADE)";
    assert!(matches!(phase_exec_fix_action(set_null, None), PhaseExecFixAction::Skip));
    assert!(matches!(phase_exec_fix_action(cascade, None), PhaseExecFixAction::Rebuild));
    assert!(matches!(phase_exec_fix_action("", None), PhaseExecFixAction::ProbeLeftover));
    assert!(matches!(phase_exec_fix_action("", Some(true)), PhaseExecFixAction::RecoverLeftover));
    assert!(matches!(phase_exec_fix_action("", Some(false)), PhaseExecFixAction::CreateFresh));
}

#[test]
fn workspace_rename_steps() {
    assert!(rename_to_workspaces_sql(true, false, false).is_empty());
    let full = rename_to_workspaces_sql(false, true, true);
    assert_eq!(full.len(), 6);
    assert_eq!(full[2], "ALTER TABLE project_directories RENAME TO workspaces");
    assert_eq!(full[3], "CREATE INDEX IF NOT EXISTS idx_workspaces_path ON workspaces(path)");
    assert_eq!(full[5], "ALTER TABLE feishu_project_bindings RENAME COLUMN project_dir_id TO workspace_id");
    // half-finished: table already renamed, bindings column not yet
    let half = rename_to_workspaces_sql(true, false, true);
    assert_eq!(half.len(), 5);
    assert_eq!(half[4], "ALTER TABLE feishu_project_bindings RENAME COLUMN project_dir_id TO workspace_id");
}

#[test]
fn butler_column_steps() {
    assert_eq!(legacy_default_response_columns().len(), 4);
    assert!(butler_column_sql(true, true, false).is_empty());
    let all = butler_column_sql(false, false, true);
    assert_eq!(all.len(), 3);
    assert_eq!(all[0], "ALTER TABLE workspace_settings ADD COLUMN butler_expert_name TEXT");
    assert_eq!(all[1], "ALTER TABLE workspace_settings ADD COLUMN butler_executor TEXT");
    assert!(all[2].starts_with("UPDATE workspace_settings SET butler_executor = default_response_executor"));
    assert_eq!(butler_column_sql(true, false, false), vec!["ALTER TABLE workspace_settings ADD COLUMN butler_executor TEXT"]);
}

#[test]
fn copied_columns_are_those_both_tables_have_in_new_order() {
    let old = strings(&["legacy", "b", "id", "a"]);
    let new = strings(&["id", "a", "fresh", "b"]);
    assert_eq!(copied_columns(&old, &new), "id, a, b");
    assert_eq!(copied_columns(&Vec::new(), &new), "");
}
