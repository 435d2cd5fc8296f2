use std::collections::HashSet;

use ntd_db::migration::v85::V85PhaseExecSetNull;
use ntd_db::migration::v86::V86ProcessTemplateVersions;
use ntd_db::migration::v87::V87SelfHealResidual;
use ntd_db::migration::v88::V88TaskDiscussionPosts;
use ntd_db::migration::v89::V89AddExecutionRecordsWorkspaceId;
use ntd_db::migration::v91::V91TaskDelegateExecution;
use ntd_db::migration::v92::V92DelegateMaxRounds;
use ntd_db::migration::{
    all_migrations, count_is_positive, drop_column_sql, is_safe_identifier, pending_migrations,
    project_directory_id_by_path_sql, table_exists_sql, table_has_column_sql, Migration,
};

#[test]
fn registry_is_strictly_ascending_from_one() {
    let es = all_migrations();
    assert!(es[0].version >= 1);
    for w in es.windows(2) {
        assert!(w[0].version < w[1].version, "{} then {}", w[0].version, w[1].version);
    }
    assert_eq!(es.len(), 52);
    assert_eq!(es.first().map(|e| e.name), Some("initial_schema"));
    assert_eq!(es.last().map(|e| (e.version, e.name)), Some((95, "workspace_butler_columns")));
}

#[test]
fn public_migration_structs() {
    assert_eq!((V85PhaseExecSetNull.version(), V85PhaseExecSetNull.name()), (85, "fix_phase_exec_cascade"));
    assert_eq!((V86ProcessTemplateVersions.version(), V86ProcessTemplateVersions.name()), (86, "process_template_versions"));
    assert_eq!((V87SelfHealResidual.version(), V87SelfHealResidual.name()), (87, "self_heal_residual"));
    assert_eq!((V88TaskDiscussionPosts.version(), V88TaskDiscussionPosts.name()), (88, "V88TaskDiscussionPosts"));
    assert_eq!(
        (V89AddExecutionRecordsWorkspaceId.version(), V89AddExecutionRecordsWorkspaceId.name()),
        (89, "V89AddExecutionRecordsWorkspaceId")
    );
    assert_eq!((V91TaskDelegateExecution.version(), V91TaskDelegateExecution.name()), (91, "V91TaskDelegateExecution"));
    assert_eq!((V92DelegateMaxRounds.version(), V92DelegateMaxRounds.name()), (92, "V92DelegateMaxRounds"));
}

#[test]
fn fresh_database_runs_every_migration_in_order() {
    let es = all_migrations();
    let pending = pending_migrations(&es, &HashSet::new());
    assert_eq!(pending, (0..es.len()).collect::<Vec<_>>());
    // recording them all leaves nothing pending, and the highest recorded is the last one
    let recorded: HashSet<i64> = pending.iter().map(|&i| es[i].version).collect();
    assert_eq!(recorded.len(), es.len());
    assert_eq!(recorded.iter().max(), Some(&95));
    assert!(pending_migrations(&es, &recorded).is_empty());
}

#[test]
fn partially_migrated_database_runs_the_rest() {
    let es = all_migrations();
    let applied: HashSet<i64> = [1, 2, 3, 4, 5, 41, 90, 1000].into_iter().collect();
    let pending = pending_migrations(&es, &applied);
    let versions: Vec<i64> = pending.iter().map(|&i| es[i].version).collect();
    assert_eq!(versions.len(), es.len() - 7);
    assert_eq!(versions[0], 42);
    assert!(!versions.contains(&90));
    assert!(versions.windows(2).all(|w| w[0] < w[1]));
}

#[test]
fn identifier_guard() {
    assert!(is_safe_identifier("feishu_homes"));
    assert!(is_safe_identifier("T1"));
    assert!(!is_safe_identifier(""));
    assert!(!is_safe_identifier("evil'; DROP TABLE x; --"));
    assert!(!is_safe_identifier("a-b"));
    assert!(!is_safe_identifier("表"));
}

#[test]
fn probe_statements() {
    assert_eq!(
        table_has_column_sql("todos", "workspace"),
        "SELECT COUNT(*) FROM pragma_table_info('todos') WHERE name='workspace'"
    );
    assert_eq!(
        table_exists_sql("todos"),
        "SELECT COUNT(*) FROM sqlite_master WHERE type='table' AND name='todos'"
    );
    assert_eq!(drop_column_sql("loops", "color"), "ALTER TABLE loops DROP COLUMN color");
    assert_eq!(project_directory_id_by_path_sql(), "SELECT id FROM project_directories WHERE path = ?1");
    assert!(count_is_positive(Some(1)));
    assert!(!count_is_positive(Some(0)));
    assert!(!count_is_positive(Some(-1)));
    assert!(!count_is_positive(None));
}
