use ntd_db::migration::v41_steps::{v41_step, V41Event, V41Op, V41Phase};
use ntd_db::migration::v41_v46::{
    default_review_template_sql, delete_review_step_refs_sql, escape_sql_literal,
    mark_step_todos_sql, v42_plan, V42Action, V42Probes, null_workspace_patch_sql, orphan_loops_sql,
    orphan_todos_sql, todos_workspace_backfill_sql, workspace_path_column,
    DEFAULT_TEMPLATE_SEED_HEAD, DEFAULT_TEMPLATE_SEED_TAIL,
};

/// Reads an SQL string literal body back the way SQLite does.
fn read_back(body: &str) -> String {
    body.replace("''", "'")
}

#[test]
fn escape_doubles_every_quote() {
    assert_eq!(escape_sql_literal(""), "");
    assert_eq!(escape_sql_literal("plain"), "plain");
    assert_eq!(escape_sql_literal("it's"), "it''s");
    assert_eq!(escape_sql_literal("'a''b'"), "''a''''b''");
    assert_eq!(escape_sql_literal("评审 'x'"), "评审 ''x''");
}

#[test]
fn escaped_literal_reads_back_as_the_text() {
    for s in ["", "'", "''", "a'b", "don't 'quote' me", "末尾'"] {
        assert_eq!(read_back(&escape_sql_literal(s)), s);
    }
}

#[test]
fn default_template_seed_embeds_the_escaped_prompt() {
    let sql = default_review_template_sql("Rate it; don't guess.");
    assert_eq!(
        sql,
        format!("{}Rate it; don''t guess.{}", DEFAULT_TEMPLATE_SEED_HEAD, DEFAULT_TEMPLATE_SEED_TAIL)
    );
    assert!(sql.starts_with("INSERT OR IGNORE INTO review_templates"));
    assert!(sql.ends_with("WHERE name = '默认评审任务')"));
}

#[test]
fn workspace_column_follows_the_rename() {
    assert_eq!(workspace_path_column(true), "workspace");
    assert_eq!(workspace_path_column(false), "workspace_path");
}

#[test]
fn backfill_and_orphan_statements_use_the_column() {
    assert_eq!(
        todos_workspace_backfill_sql("workspace"),
        "UPDATE todos SET workspace_id = (SELECT pd.id FROM project_directories pd WHERE pd.path = todos.workspace LIMIT 1) WHERE workspace IS NOT NULL AND workspace != '' AND (workspace_id IS NULL OR workspace_id = 0)"
    );
    assert_eq!(
        orphan_todos_sql("workspace_path"),
        "UPDATE todos SET workspace_path = '/tmp', workspace_id = ?1, updated_at = strftime('%Y-%m-%dT%H:%M:%SZ','now','utc') WHERE deleted_at IS NULL AND (workspace_path IS NULL OR workspace_path = '' OR workspace_id IS NULL OR workspace_id = 0)"
    );
    assert_eq!(
        orphan_loops_sql("workspace"),
        "UPDATE loops SET workspace = '/tmp', updated_at = strftime('%Y-%m-%dT%H:%M:%SZ','now','utc') WHERE workspace IS NULL OR workspace = ''"
    );
}

#[test]
fn null_workspace_patch_renders_the_id() {
    assert_eq!(null_workspace_patch_sql(7), "UPDATE todos SET workspace_id = 7 WHERE workspace_id IS NULL");
    assert_eq!(null_workspace_patch_sql(-3), "UPDATE todos SET workspace_id = -3 WHERE workspace_id IS NULL");
    assert_eq!(
        null_workspace_patch_sql(i64::MIN),
        "UPDATE todos SET workspace_id = -9223372036854775808 WHERE workspace_id IS NULL"
    );
}

#[test]
fn step_references_follow_the_loop_steps_rebuild() {
    assert_eq!(
        mark_step_todos_sql("todo_id"),
        "UPDATE todos SET kind = 'step' WHERE id IN (SELECT DISTINCT todo_id FROM loop_steps)"
    );
    assert_eq!(
        delete_review_step_refs_sql("step_id"),
        "DELETE FROM loop_steps WHERE step_id IN (SELECT id FROM todos WHERE todo_type = 1)"
    );
}

fn describe(actions: &[V42Action]) -> Vec<String> {
    actions
        .iter()
        .map(|a| match a {
            V42Action::Run(s) => format!("run {}", s),
            V42Action::LookupTempWorkspace => "lookup".to_string(),
            V42Action::RunWithTempId(s) => format!("bind {}", s),
            V42Action::PatchNullWorkspace => "patch".to_string(),
        })
        .collect()
}

#[test]
fn v42_plan_on_a_legacy_schema_adds_renames_and_moves_orphans() {
    let probes = V42Probes {
        agent_bots_has_workspace_id: false,
        todos_has_workspace_id: false,
        todos_has_workspace: true,
        todos_has_workspace_path: false,
        review_has_workspace_id: true,
        review_workspace_id_is_integer: false,
        review_has_workspace_id_int: false,
        loops_has_workspace: true,
        loops_has_workspace_path: false,
        loops_has_workspace_id: false,
    };
    let steps = describe(&v42_plan(&probes));
    assert_eq!(steps.len(), 16);
    assert!(steps[0].starts_with("run CREATE TABLE IF NOT EXISTS workspace_slash_commands"));
    assert!(steps[1].starts_with("run CREATE TABLE IF NOT EXISTS workspace_settings"));
    assert_eq!(steps[2], "run ALTER TABLE agent_bots ADD COLUMN workspace_id INTEGER NOT NULL DEFAULT 0");
    assert_eq!(steps[3], "run ALTER TABLE todos ADD COLUMN workspace_id INTEGER NOT NULL DEFAULT 0");
    assert!(steps[4].contains("WHERE pd.path = todos.workspace LIMIT 1"));
    assert_eq!(steps[5], "run ALTER TABLE review_templates ADD COLUMN workspace_id_int INTEGER");
    assert!(steps[6].starts_with("run INSERT OR IGNORE INTO project_directories"));
    assert_eq!(steps[7], "lookup");
    assert!(steps[8].starts_with("bind UPDATE todos SET workspace = '/tmp'"));
    assert!(steps[9].starts_with("run UPDATE loops SET workspace = '/tmp'"));
    assert_eq!(steps[10], "run ALTER TABLE todos RENAME COLUMN workspace TO workspace_path");
    assert_eq!(steps[11], "run ALTER TABLE loops RENAME COLUMN workspace TO workspace_path");
    assert_eq!(steps[12], "run ALTER TABLE loops ADD COLUMN workspace_id INTEGER");
    assert!(steps[13].starts_with("run UPDATE loops SET workspace_id"));
    assert!(steps[14].contains("WHERE pd.path = todos.workspace_path LIMIT 1"));
    assert_eq!(steps[15], "patch");
}

#[test]
fn v42_plan_on_a_migrated_schema_only_backfills() {
    let probes = V42Probes {
        agent_bots_has_workspace_id: true,
        todos_has_workspace_id: true,
        todos_has_workspace: false,
        todos_has_workspace_path: true,
        review_has_workspace_id: true,
        review_workspace_id_is_integer: true,
        review_has_workspace_id_int: false,
        loops_has_workspace: false,
        loops_has_workspace_path: true,
        loops_has_workspace_id: true,
    };
    let steps = describe(&v42_plan(&probes));
    assert_eq!(steps.len(), 10);
    assert!(steps[2].contains("WHERE pd.path = todos.workspace_path LIMIT 1"));
    assert_eq!(steps[4], "lookup");
    assert!(steps[5].starts_with("bind UPDATE todos SET workspace_path = '/tmp'"));
    assert!(steps[6].starts_with("run UPDATE loops SET workspace_path = '/tmp'"));
    assert_eq!(steps[9], "patch");
}

fn v41_run(answers: &[bool]) -> (Vec<V41Op>, usize) {
    let mut phase = V41Phase::Start;
    let mut event = V41Event::Started;
    let mut ops = Vec::new();
    let mut answers = answers.iter();
    let mut steps = 0;
    loop {
        let (next, action) = v41_step(phase, event);
        steps += 1;
        phase = next;
        ops.extend(action.ops);
        match action.probe {
            None => break,
            Some(_) => event = V41Event::Answer(*answers.next().expect("an answer for each probe")),
        }
    }
    assert_eq!(phase, V41Phase::Finished);
    (ops, steps)
}

#[test]
fn v41_on_a_legacy_schema_marks_rebuilds_and_falls_back() {
    // kind added, loop_steps exists with step_id, todos has auto review, FK drop fails
    let (ops, steps) = v41_run(&[true, true, false, false, true, true, false]);
    assert_eq!(steps, 8);
    assert!(matches!(ops[0], V41Op::RunWarn(s) if s.contains("ADD COLUMN kind")));
    assert!(matches!(ops[1], V41Op::MarkStepTodos { ref_column: "step_id" }));
    assert!(ops.iter().any(|o| matches!(o, V41Op::DeleteReviewStepRefs { ref_column: "step_id" })));
    assert!(ops.iter().any(|o| matches!(o, V41Op::Run(s) if s.starts_with("CREATE TABLE loop_steps_new"))));
    assert!(ops.iter().any(|o| matches!(o, V41Op::Run(s) if s.starts_with("UPDATE todos SET auto_review_enabled = 0"))));
    assert!(ops.iter().any(|o| matches!(o, V41Op::Run(s) if *s == "DROP TABLE loop_step_executions_backup_v28")));
    assert!(matches!(ops.last(), Some(V41Op::AddIfMissing { table: "loops", column: "webhook_enabled", .. })));
}

#[test]
fn v41_on_an_upgraded_schema_skips_done_work() {
    // kind present, loop_steps with todo_id, no step_id, no auto review switch, FK drop succeeds
    let (ops, steps) = v41_run(&[true, true, true, true, false, false, true]);
    assert_eq!(steps, 8);
    assert!(matches!(ops[1], V41Op::MarkStepTodos { ref_column: "todo_id" }));
    assert!(!ops.iter().any(|o| matches!(o, V41Op::Run(s) if s.starts_with("CREATE TABLE loop_steps_new"))));
    assert!(!ops.iter().any(|o| matches!(o, V41Op::Run(s) if s.contains("backup_v28"))));
    assert!(!ops.iter().any(|o| matches!(o, V41Op::Run(s) if s.starts_with("UPDATE todos SET auto_review_enabled"))));
    assert_eq!(ops.iter().filter(|o| matches!(o, V41Op::SeedDefaultReviewTemplate)).count(), 1);
}

#[test]
fn v41_without_loop_steps_skips_the_marking() {
    // kind present but no loop_steps yet: the schema is created, then todo_id is there
    let (ops, steps) = v41_run(&[true, false, true, false, false, true]);
    assert_eq!(steps, 7);
    assert!(!ops.iter().any(|o| matches!(o, V41Op::MarkStepTodos { .. })));
    assert!(ops.iter().any(|o| matches!(o, V41Op::DeleteReviewStepRefs { ref_column: "todo_id" })));
}
