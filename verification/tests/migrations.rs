use ntd_db::migrations::{
    all_migrations, current_version_sql, one_line, plan_run, record_version_sql, schema_version_ddl,
    SCHEMA_VERSION_TABLE,
};

#[test]
fn migrations_are_ordered_and_unique() {
    // versions must strictly increase, otherwise the runner would skip a migration
    let mut last: Option<i64> = None;
    for m in all_migrations().iter() {
        match last {
            None => assert!(m.version >= 1, "version must be >= 1: {}", m.version),
            Some(v) => assert!(
                m.version > v,
                "migration versions must be strictly ascending: {} after {}",
                m.version,
                v
            ),
        }
        last = Some(m.version);
    }
}

#[test]
fn no_empty_migration() {
    for m in all_migrations().iter() {
        assert!(
            !m.statements.is_empty(),
            "migration {} ({}) has no statements",
            m.version,
            m.name
        );
    }
}

#[test]
fn one_line_collapses_whitespace() {
    let s = "CREATE TABLE foo (\n  id INT\n)";
    assert_eq!(one_line(s), "CREATE TABLE foo ( id INT )");
}

#[test]
fn one_line_trims_and_is_idempotent() {
    let s = "  \t SELECT\n\n   1  \r\n";
    let once = one_line(s);
    assert_eq!(once, "SELECT 1");
    assert_eq!(one_line(&once), once);
    assert_eq!(one_line(""), "");
    assert_eq!(one_line(" \n\t "), "");
    // non-ASCII whitespace (ideographic space, no-break space) also separates words
    assert_eq!(one_line("a\u{3000}b\u{a0}c"), "a b c");
}

#[test]
fn registry_versions_and_names() {
    let ms = all_migrations();
    let versions: Vec<i64> = ms.iter().map(|m| m.version).collect();
    assert_eq!(versions, vec![1, 2, 3, 9]);
    let names: Vec<&str> = ms.iter().map(|m| m.name).collect();
    assert_eq!(names, vec!["initial_schema", "loop_studio", "todo_kind", "independent_steps"]);
    let counts: Vec<usize> = ms.iter().map(|m| m.statements.len()).collect();
    assert_eq!(counts, vec![106, 20, 3, 5]);
}

#[test]
fn plan_run_on_fresh_database_applies_everything() {
    let ms = all_migrations();
    let plan = plan_run(&ms, 0);
    assert_eq!(plan.to_apply, vec![0, 1, 2, 3]);
    assert_eq!(plan.new_version, 9);
    assert_eq!(plan.skipped_statements, 0);
}

#[test]
fn plan_run_partially_applied() {
    let ms = all_migrations();
    let plan = plan_run(&ms, 2);
    assert_eq!(plan.to_apply, vec![2, 3]);
    assert_eq!(plan.new_version, 9);
    assert_eq!(plan.skipped_statements, 126);
    // a version between registered ones
    let plan = plan_run(&ms, 5);
    assert_eq!(plan.to_apply, vec![3]);
    assert_eq!(plan.skipped_statements, 129);
}

#[test]
fn plan_run_is_idempotent_once_up_to_date() {
    let ms = all_migrations();
    let first = plan_run(&ms, 0);
    let second = plan_run(&ms, first.new_version);
    assert!(second.to_apply.is_empty());
    assert_eq!(second.new_version, 9);
    // a database ahead of the registry keeps its version
    let ahead = plan_run(&ms, 42);
    assert!(ahead.to_apply.is_empty());
    assert_eq!(ahead.new_version, 42);
}

#[test]
fn plan_run_empty_registry() {
    let plan = plan_run(&Vec::new(), -3);
    assert!(plan.to_apply.is_empty());
    assert_eq!(plan.new_version, -3);
}

#[test]
fn schema_version_sql_texts() {
    assert_eq!(SCHEMA_VERSION_TABLE, "schema_version");
    assert_eq!(current_version_sql(), "SELECT COALESCE(MAX(version), 0) FROM schema_version");
    assert_eq!(
        record_version_sql(),
        "INSERT OR REPLACE INTO schema_version (version, name, applied_at) VALUES ($1, $2, $3)"
    );
    assert!(schema_version_ddl().starts_with("CREATE TABLE IF NOT EXISTS schema_version ("));
}
