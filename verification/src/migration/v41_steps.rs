//! The steps of the consolidated v41 migration (loop studio, reviews and
//! loop execution). It alternates database work with decisions that
//! depend on what the schema looks like at that point, so it is a state
//! machine: each step takes the answer to the last probe and gives the
//! operations to run next and the probe to answer after them. Every
//! decision checks whether its work is already done, so a start-up that
//! repeats v41 on a partly upgraded database finishes it; column additions
//! that may already have been made elsewhere only log their failure, every
//! other failure stops the migration.
use vstd::prelude::*;

verus! {

/// One database operation of v41.
pub enum V41Op {
    /// Run the statement; a failure stops the migration.
    Run(&'static str),
    /// Run a column addition; a failure (the column exists) is only logged.
    RunWarn(&'static str),
    /// Run `sql` unless `table` already has `column`.
    AddIfMissing { table: &'static str, column: &'static str, sql: &'static str },
    /// Drop `table.column` when it exists.
    DropColumnIfExists { table: &'static str, column: &'static str },
    /// Mark as steps the todos that loop steps refer to through
    /// `ref_column` (`mark_step_todos_sql`).
    MarkStepTodos { ref_column: &'static str },
    /// Delete the loop steps that refer, through `ref_column`, to a legacy
    /// review todo (`delete_review_step_refs_sql`).
    DeleteReviewStepRefs { ref_column: &'static str },
    /// Seed the default review template (`default_review_template_sql`).
    SeedDefaultReviewTemplate,
}

/// A question about the database that the next step depends on.
pub enum V41Probe {
    /// Does `table` have `column`?
    HasColumn { table: &'static str, column: &'static str },
    /// Does `table` exist?
    TableExists { table: &'static str },
    /// Run `sql`: did it succeed?
    TryRun { sql: &'static str },
}

/// The operations to run, in order, and the probe to answer after them;
/// no probe once v41 is done.
pub struct V41Action {
    pub ops: Vec<V41Op>,
    pub probe: Option<V41Probe>,
}

/// Where v41 stands: which probe it waits for.
#[derive(Debug, Clone, Copy, PartialEq, Eq, Structural)]
pub enum V41Phase {
    Start,
    /// Waits for: does `todos` have `kind` (after adding it)?
    AwaitKind,
    /// Waits for: does `loop_steps` exist yet?
    AwaitLoopSteps,
    /// Waits for: does `loop_steps` refer to todos through `todo_id`?
    AwaitMarkRef,
    /// Waits for the same, once the loop studio schema exists.
    AwaitDeleteRef,
    /// Waits for: does `loop_steps` still have the old `step_id`?
    AwaitStepId,
    /// Waits for: does `todos` have `auto_review_enabled`?
    AwaitAutoReview,
    /// Waits for: did dropping the `step_id` foreign key succeed?
    AwaitFkDrop,
    Finished,
}

/// The answer to the last probe.
#[derive(Debug, Clone, Copy, PartialEq, Eq, Structural)]
pub enum V41Event {
    Started,
    Answer(bool),
}

/// `event` is what `phase` waits for.
pub open spec fn v41_accepts(phase: V41Phase, event: V41Event) -> bool {
    match phase {
        V41Phase::Start => event is Started,
        V41Phase::Finished => false,
        _ => event is Answer,
    }
}

/// How many steps `phase` can still take at most.
pub open spec fn v41_remaining(phase: V41Phase) -> nat {
    match phase {
        V41Phase::Start => 8,
        V41Phase::AwaitKind => 7,
        V41Phase::AwaitLoopSteps => 6,
        V41Phase::AwaitMarkRef => 5,
        V41Phase::AwaitDeleteRef => 4,
        V41Phase::AwaitStepId => 3,
        V41Phase::AwaitAutoReview => 2,
        V41Phase::AwaitFkDrop => 1,
        V41Phase::Finished => 0,
    }
}

/// The column through which loop steps refer to todos.
pub open spec fn ref_column(has_todo_id: bool) -> &'static str {
    if has_todo_id {
        "todo_id"
    } else {
        "step_id"
    }
}

/// The operations when `c` holds, none otherwise.
pub open spec fn ops_if(c: bool, ops: Seq<V41Op>) -> Seq<V41Op> {
    if c {
        ops
    } else {
        seq![]
    }
}

/// Does `loop_steps` refer to todos through `todo_id`?
pub open spec fn probe_todo_ref() -> V41Probe {
    V41Probe::HasColumn { table: "loop_steps", column: "todo_id" }
}

/// v41's decisions: from the phase and the answer to its probe, the next
/// phase, the operations to run and the next probe.
/// - It adds `todos.kind`; only when the column is there and `loop_steps`
///   exists does it mark the referenced todos as steps, through whichever
///   column `loop_steps` has.
/// - It creates the loop studio and review schema, then deletes the loop
///   steps of legacy review todos, again through the column `loop_steps`
///   has then.
/// - It rebuilds `loop_steps` only while the old `step_id` column is there,
///   and turns off auto review only where `todos` has the switch.
/// - It tries to drop the `step_id` foreign key of `loop_step_executions`
///   and rebuilds that table through a backup only when the drop fails.
pub open spec fn v41_next(phase: V41Phase, event: V41Event) -> (V41Phase, Seq<V41Op>, Option<V41Probe>) {
    match (phase, event) {
        (V41Phase::Start, _) => (
            V41Phase::AwaitKind,
            seq![V41Op::RunWarn(V41_ADD_TODOS_KIND)],
            Some(V41Probe::HasColumn { table: "todos", column: "kind" }),
        ),
        (V41Phase::AwaitKind, V41Event::Answer(true)) => (
            V41Phase::AwaitLoopSteps,
            seq![],
            Some(V41Probe::TableExists { table: "loop_steps" }),
        ),
        (V41Phase::AwaitKind, _) => (V41Phase::AwaitDeleteRef, v41_schema_ops(), Some(probe_todo_ref())),
        (V41Phase::AwaitLoopSteps, V41Event::Answer(true)) => (
            V41Phase::AwaitMarkRef,
            seq![],
            Some(probe_todo_ref()),
        ),
        (V41Phase::AwaitLoopSteps, _) => (V41Phase::AwaitDeleteRef, v41_schema_ops(), Some(probe_todo_ref())),
        (V41Phase::AwaitMarkRef, V41Event::Answer(b)) => (
            V41Phase::AwaitDeleteRef,
            seq![V41Op::MarkStepTodos { ref_column: ref_column(b) }] + v41_schema_ops(),
            Some(probe_todo_ref()),
        ),
        (V41Phase::AwaitDeleteRef, V41Event::Answer(b)) => (
            V41Phase::AwaitStepId,
            seq![V41Op::DeleteReviewStepRefs { ref_column: ref_column(b) }] + v41_review_cleanup_ops(),
            Some(V41Probe::HasColumn { table: "loop_steps", column: "step_id" }),
        ),
        (V41Phase::AwaitStepId, V41Event::Answer(b)) => (
            V41Phase::AwaitAutoReview,
            ops_if(b, v41_loop_steps_rebuild_ops()),
            Some(V41Probe::HasColumn { table: "todos", column: "auto_review_enabled" }),
        ),
        (V41Phase::AwaitAutoReview, V41Event::Answer(b)) => (
            V41Phase::AwaitFkDrop,
            ops_if(b, seq![V41Op::Run(V41_DISABLE_AUTO_REVIEW)]) + v41_abnormal_handler_ops(),
            Some(V41Probe::TryRun { sql: V41_DROP_STEP_EXEC_FK }),
        ),
        (V41Phase::AwaitFkDrop, V41Event::Answer(dropped)) => (
            V41Phase::Finished,
            ops_if(!dropped, v41_step_exec_rebuild_ops()) + v41_webhook_ops(),
            None,
        ),
        _ => (V41Phase::Finished, seq![], None),
    }
}

/// v41's first operation: the step/item kind of a todo.
pub const V41_ADD_TODOS_KIND: &'static str = "ALTER TABLE todos ADD COLUMN kind TEXT NOT NULL DEFAULT 'item'";

/// v41: plain todos no longer review themselves after running.
pub const V41_DISABLE_AUTO_REVIEW: &'static str = "UPDATE todos SET auto_review_enabled = 0 WHERE auto_review_enabled IS NULL OR auto_review_enabled = 1";

/// v41: the attempt to drop the `step_id` foreign key in place.
pub const V41_DROP_STEP_EXEC_FK: &'static str = "ALTER TABLE loop_step_executions DROP FOREIGN KEY step_id";

/// v41 operations: the Loop Studio schema and its column additions, the steps table with its copy of the step todos, and the review templates with the legacy review todos and the default template.
pub open spec fn v41_schema_ops() -> Seq<V41Op> {
    seq![
        V41Op::Run("CREATE INDEX IF NOT EXISTS idx_todos_kind ON todos(kind)"),
        V41Op::Run("CREATE TABLE IF NOT EXISTS loops (
 id INTEGER PRIMARY KEY AUTOINCREMENT,
 name TEXT NOT NULL, description TEXT DEFAULT '',
 workspace TEXT, webhook_enabled INTEGER NOT NULL DEFAULT 0,
 status TEXT NOT NULL DEFAULT 'draft', color TEXT DEFAULT '#722ed1',
 icon TEXT DEFAULT 'loop', created_at TEXT, updated_at TEXT)"),
        V41Op::Run("CREATE INDEX IF NOT EXISTS idx_loops_status ON loops(status)"),
        V41Op::Run("CREATE INDEX IF NOT EXISTS idx_loops_updated_at ON loops(updated_at DESC)"),
        V41Op::Run("CREATE TRIGGER IF NOT EXISTS set_loops_created_at_utc AFTER INSERT ON loops
 WHEN new.created_at IS NULL OR new.created_at = ''
 BEGIN UPDATE loops SET created_at = strftime('%Y-%m-%dT%H:%M:%SZ','now','utc') WHERE rowid = new.rowid; END"),
        V41Op::Run("CREATE TRIGGER IF NOT EXISTS set_loops_updated_at_utc BEFORE UPDATE ON loops
 WHEN new.updated_at IS NULL OR new.updated_at = ''
 BEGIN UPDATE loops SET updated_at = strftime('%Y-%m-%dT%H:%M:%SZ','now','utc') WHERE rowid = new.rowid; END"),
        V41Op::Run("CREATE TABLE IF NOT EXISTS loop_triggers (
 id INTEGER PRIMARY KEY AUTOINCREMENT,
 loop_id INTEGER NOT NULL, trigger_type TEXT NOT NULL,
 config TEXT DEFAULT '{}', enabled INTEGER NOT NULL DEFAULT 1,
 priority INTEGER NOT NULL DEFAULT 0, created_at TEXT,
 FOREIGN KEY (loop_id) REFERENCES loops(id) ON DELETE CASCADE)"),
        V41Op::Run("CREATE INDEX IF NOT EXISTS idx_loop_triggers_loop_id ON loop_triggers(loop_id)"),
        V41Op::Run("CREATE INDEX IF NOT EXISTS idx_loop_triggers_type_enabled ON loop_triggers(trigger_type, enabled)"),
        V41Op::Run("CREATE TRIGGER IF NOT EXISTS set_loop_triggers_created_at_utc AFTER INSERT ON loop_triggers
 WHEN new.created_at IS NULL OR new.created_at = ''
 BEGIN UPDATE loop_triggers SET created_at = strftime('%Y-%m-%dT%H:%M:%SZ','now','utc') WHERE rowid = new.rowid; END"),
        V41Op::Run("CREATE TABLE IF NOT EXISTS loop_steps (
 id INTEGER PRIMARY KEY AUTOINCREMENT,
 loop_id INTEGER NOT NULL, name TEXT NOT NULL,
 description TEXT DEFAULT '', order_index INTEGER NOT NULL DEFAULT 0,
 todo_id BIGINT NOT NULL,
 run_mode TEXT NOT NULL DEFAULT 'sequential',
 skip_on_source_failed INTEGER NOT NULL DEFAULT 0,
 min_rating INTEGER,
 unrated_policy TEXT NOT NULL DEFAULT 'skip',
 on_success TEXT NOT NULL DEFAULT 'next',
 success_goto_step_id BIGINT,
 on_rating_fail TEXT NOT NULL DEFAULT 'break',
 fail_goto_step_id BIGINT,
 review_type TEXT NOT NULL DEFAULT 'ai',
 enabled INTEGER NOT NULL DEFAULT 1, created_at TEXT,
 FOREIGN KEY (loop_id) REFERENCES loops(id) ON DELETE CASCADE,
 FOREIGN KEY (todo_id) REFERENCES todos(id) ON DELETE RESTRICT)"),
        V41Op::Run("CREATE INDEX IF NOT EXISTS idx_loop_steps_loop_id ON loop_steps(loop_id)"),
        V41Op::Run("CREATE INDEX IF NOT EXISTS idx_loop_steps_loop_order ON loop_steps(loop_id, order_index)"),
        V41Op::Run("CREATE TRIGGER IF NOT EXISTS set_loop_steps_created_at_utc AFTER INSERT ON loop_steps
 WHEN new.created_at IS NULL OR new.created_at = ''
 BEGIN UPDATE loop_steps SET created_at = strftime('%Y-%m-%dT%H:%M:%SZ','now','utc') WHERE rowid = new.rowid; END"),
        V41Op::Run("CREATE TABLE IF NOT EXISTS loop_hooks (
 id INTEGER PRIMARY KEY AUTOINCREMENT,
 loop_id INTEGER NOT NULL, hook_position TEXT NOT NULL,
 source_step_id INTEGER, target_todo_id INTEGER NOT NULL,
 skip_if_missing INTEGER NOT NULL DEFAULT 0,
 enabled INTEGER NOT NULL DEFAULT 1,
 min_rating INTEGER,
 unrated_policy TEXT NOT NULL DEFAULT 'skip', created_at TEXT,
 FOREIGN KEY (loop_id) REFERENCES loops(id) ON DELETE CASCADE,
 FOREIGN KEY (source_step_id) REFERENCES loop_steps(id) ON DELETE CASCADE,
 FOREIGN KEY (target_todo_id) REFERENCES todos(id) ON DELETE RESTRICT)"),
        V41Op::Run("CREATE INDEX IF NOT EXISTS idx_loop_hooks_loop_id ON loop_hooks(loop_id)"),
        V41Op::Run("CREATE INDEX IF NOT EXISTS idx_loop_hooks_source_stage ON loop_hooks(source_step_id)"),
        V41Op::Run("CREATE TRIGGER IF NOT EXISTS set_loop_hooks_created_at_utc AFTER INSERT ON loop_hooks
 WHEN new.created_at IS NULL OR new.created_at = ''
 BEGIN UPDATE loop_hooks SET created_at = strftime('%Y-%m-%dT%H:%M:%SZ','now','utc') WHERE rowid = new.rowid; END"),
        V41Op::Run("CREATE TABLE IF NOT EXISTS loop_executions (
 id INTEGER PRIMARY KEY AUTOINCREMENT,
 loop_id INTEGER NOT NULL, trigger_id INTEGER,
 trigger_type TEXT NOT NULL, trigger_meta TEXT DEFAULT '{}',
 started_at TEXT NOT NULL, finished_at TEXT,
 status TEXT NOT NULL DEFAULT 'running',
 total_steps INTEGER NOT NULL DEFAULT 0,
 completed_steps INTEGER NOT NULL DEFAULT 0,
 failed_steps INTEGER NOT NULL DEFAULT 0,
 FOREIGN KEY (loop_id) REFERENCES loops(id) ON DELETE CASCADE,
 FOREIGN KEY (trigger_id) REFERENCES loop_triggers(id) ON DELETE SET NULL)"),
        V41Op::Run("CREATE INDEX IF NOT EXISTS idx_loop_executions_loop_id ON loop_executions(loop_id)"),
        V41Op::Run("CREATE INDEX IF NOT EXISTS idx_loop_executions_started_at ON loop_executions(started_at DESC)"),
        V41Op::Run("CREATE INDEX IF NOT EXISTS idx_loop_executions_status ON loop_executions(status)"),
        V41Op::Run("CREATE TABLE IF NOT EXISTS loop_step_executions (
 id INTEGER PRIMARY KEY AUTOINCREMENT,
 loop_execution_id INTEGER NOT NULL,
 step_id INTEGER NOT NULL, todo_id INTEGER NOT NULL,
 execution_record_id INTEGER,
 status TEXT NOT NULL DEFAULT 'pending',
 started_at TEXT, finished_at TEXT, error_message TEXT,
 FOREIGN KEY (loop_execution_id) REFERENCES loop_executions(id) ON DELETE CASCADE,
 FOREIGN KEY (execution_record_id) REFERENCES execution_records(id) ON DELETE SET NULL)"),
        V41Op::Run("CREATE INDEX IF NOT EXISTS idx_loop_step_executions_loop_exec ON loop_step_executions(loop_execution_id)"),
        V41Op::Run("CREATE INDEX IF NOT EXISTS idx_loop_step_executions_record ON loop_step_executions(execution_record_id)"),
        V41Op::RunWarn("ALTER TABLE loops ADD COLUMN workspace TEXT"),
        V41Op::Run("CREATE TABLE IF NOT EXISTS steps (
 id INTEGER PRIMARY KEY AUTOINCREMENT,
 title TEXT NOT NULL,
 prompt TEXT NOT NULL DEFAULT '',
 executor TEXT,
 acceptance_criteria TEXT,
 source_todo_id INTEGER,
 created_at TEXT,
 updated_at TEXT,
 FOREIGN KEY (source_todo_id) REFERENCES todos(id) ON DELETE SET NULL
 )"),
        V41Op::Run("CREATE INDEX IF NOT EXISTS idx_steps_source_todo ON steps(source_todo_id)"),
        V41Op::Run("CREATE TRIGGER IF NOT EXISTS set_steps_created_at_utc AFTER INSERT ON steps
 WHEN new.created_at IS NULL OR new.created_at = ''
 BEGIN UPDATE steps SET created_at = strftime('%Y-%m-%dT%H:%M:%SZ', 'now', 'utc') WHERE rowid = new.rowid; END"),
        V41Op::Run("CREATE TRIGGER IF NOT EXISTS set_steps_updated_at_utc AFTER UPDATE ON steps
 WHEN new.updated_at IS NULL OR new.updated_at = ''
 BEGIN UPDATE steps SET updated_at = strftime('%Y-%m-%dT%H:%M:%SZ', 'now', 'utc') WHERE rowid = new.rowid; END"),
        V41Op::Run("INSERT INTO steps (title, prompt, executor, acceptance_criteria, source_todo_id, created_at, updated_at)
 SELECT title, COALESCE(prompt, ''), executor, acceptance_criteria, id, created_at, updated_at
 FROM todos WHERE kind = 'step' AND id NOT IN (SELECT source_todo_id FROM steps WHERE source_todo_id IS NOT NULL)"),
        V41Op::RunWarn("ALTER TABLE steps ADD COLUMN color TEXT NOT NULL DEFAULT '#722ed1'"),
        V41Op::RunWarn("ALTER TABLE loop_steps ADD COLUMN on_success TEXT NOT NULL DEFAULT 'next'"),
        V41Op::RunWarn("ALTER TABLE loop_steps ADD COLUMN success_goto_step_id BIGINT"),
        V41Op::RunWarn("ALTER TABLE loop_steps ADD COLUMN on_rating_fail TEXT NOT NULL DEFAULT 'break'"),
        V41Op::RunWarn("ALTER TABLE loop_steps ADD COLUMN fail_goto_step_id BIGINT"),
        V41Op::RunWarn("ALTER TABLE loops ADD COLUMN limits_config TEXT NOT NULL DEFAULT '{}'"),
        V41Op::RunWarn("ALTER TABLE loop_executions ADD COLUMN total_executed_steps INTEGER NOT NULL DEFAULT 0"),
        V41Op::RunWarn("ALTER TABLE loop_step_executions ADD COLUMN sequence_index INTEGER NOT NULL DEFAULT 0"),
        V41Op::RunWarn("ALTER TABLE loop_step_executions ADD COLUMN conclusion TEXT"),
        V41Op::RunWarn("ALTER TABLE execution_records ADD COLUMN loop_step_execution_id BIGINT"),
        V41Op::RunWarn("ALTER TABLE execution_records ADD COLUMN step_id BIGINT"),
        V41Op::RunWarn("ALTER TABLE loops ADD COLUMN review_template_id INTEGER"),
        V41Op::Run("CREATE TABLE IF NOT EXISTS review_templates (
 id INTEGER PRIMARY KEY,
 name VARCHAR(128) NOT NULL,
 description VARCHAR(512),
 prompt TEXT NOT NULL,
 created_at TEXT,
 updated_at TEXT
 )"),
        V41Op::Run("INSERT OR IGNORE INTO review_templates (id, name, description, prompt, created_at, updated_at)
 SELECT id, '默认评审任务', NULL, prompt, created_at, updated_at
 FROM todos WHERE todo_type = 1"),
        V41Op::SeedDefaultReviewTemplate,
    ]
}

fn v41_schema_ops_vec() -> (v: Vec<V41Op>)
    ensures
        v@ == v41_schema_ops(),
{
    vec![
        V41Op::Run("CREATE INDEX IF NOT EXISTS idx_todos_kind ON todos(kind)"),
        V41Op::Run("CREATE TABLE IF NOT EXISTS loops (
 id INTEGER PRIMARY KEY AUTOINCREMENT,
 name TEXT NOT NULL, description TEXT DEFAULT '',
 workspace TEXT, webhook_enabled INTEGER NOT NULL DEFAULT 0,
 status TEXT NOT NULL DEFAULT 'draft', color TEXT DEFAULT '#722ed1',
 icon TEXT DEFAULT 'loop', created_at TEXT, updated_at TEXT)"),
        V41Op::Run("CREATE INDEX IF NOT EXISTS idx_loops_status ON loops(status)"),
        V41Op::Run("CREATE INDEX IF NOT EXISTS idx_loops_updated_at ON loops(updated_at DESC)"),
        V41Op::Run("CREATE TRIGGER IF NOT EXISTS set_loops_created_at_utc AFTER INSERT ON loops
 WHEN new.created_at IS NULL OR new.created_at = ''
 BEGIN UPDATE loops SET created_at = strftime('%Y-%m-%dT%H:%M:%SZ','now','utc') WHERE rowid = new.rowid; END"),
        V41Op::Run("CREATE TRIGGER IF NOT EXISTS set_loops_updated_at_utc BEFORE UPDATE ON loops
 WHEN new.updated_at IS NULL OR new.updated_at = ''
 BEGIN UPDATE loops SET updated_at = strftime('%Y-%m-%dT%H:%M:%SZ','now','utc') WHERE rowid = new.rowid; END"),
        V41Op::Run("CREATE TABLE IF NOT EXISTS loop_triggers (
 id INTEGER PRIMARY KEY AUTOINCREMENT,
 loop_id INTEGER NOT NULL, trigger_type TEXT NOT NULL,
 config TEXT DEFAULT '{}', enabled INTEGER NOT NULL DEFAULT 1,
 priority INTEGER NOT NULL DEFAULT 0, created_at TEXT,
 FOREIGN KEY (loop_id) REFERENCES loops(id) ON DELETE CASCADE)"),
        V41Op::Run("CREATE INDEX IF NOT EXISTS idx_loop_triggers_loop_id ON loop_triggers(loop_id)"),
        V41Op::Run("CREATE INDEX IF NOT EXISTS idx_loop_triggers_type_enabled ON loop_triggers(trigger_type, enabled)"),
        V41Op::Run("CREATE TRIGGER IF NOT EXISTS set_loop_triggers_created_at_utc AFTER INSERT ON loop_triggers
 WHEN new.created_at IS NULL OR new.created_at = ''
 BEGIN UPDATE loop_triggers SET created_at = strftime('%Y-%m-%dT%H:%M:%SZ','now','utc') WHERE rowid = new.rowid; END"),
        V41Op::Run("CREATE TABLE IF NOT EXISTS loop_steps (
 id INTEGER PRIMARY KEY AUTOINCREMENT,
 loop_id INTEGER NOT NULL, name TEXT NOT NULL,
 description TEXT DEFAULT '', order_index INTEGER NOT NULL DEFAULT 0,
 todo_id BIGINT NOT NULL,
 run_mode TEXT NOT NULL DEFAULT 'sequential',
 skip_on_source_failed INTEGER NOT NULL DEFAULT 0,
 min_rating INTEGER,
 unrated_policy TEXT NOT NULL DEFAULT 'skip',
 on_success TEXT NOT NULL DEFAULT 'next',
 success_goto_step_id BIGINT,
 on_rating_fail TEXT NOT NULL DEFAULT 'break',
 fail_goto_step_id BIGINT,
 review_type TEXT NOT NULL DEFAULT 'ai',
 enabled INTEGER NOT NULL DEFAULT 1, created_at TEXT,
 FOREIGN KEY (loop_id) REFERENCES loops(id) ON DELETE CASCADE,
 FOREIGN KEY (todo_id) REFERENCES todos(id) ON DELETE RESTRICT)"),
        V41Op::Run("CREATE INDEX IF NOT EXISTS idx_loop_steps_loop_id ON loop_steps(loop_id)"),
        V41Op::Run("CREATE INDEX IF NOT EXISTS idx_loop_steps_loop_order ON loop_steps(loop_id, order_index)"),
        V41Op::Run("CREATE TRIGGER IF NOT EXISTS set_loop_steps_created_at_utc AFTER INSERT ON loop_steps
 WHEN new.created_at IS NULL OR new.created_at = ''
 BEGIN UPDATE loop_steps SET created_at = strftime('%Y-%m-%dT%H:%M:%SZ','now','utc') WHERE rowid = new.rowid; END"),
        V41Op::Run("CREATE TABLE IF NOT EXISTS loop_hooks (
 id INTEGER PRIMARY KEY AUTOINCREMENT,
 loop_id INTEGER NOT NULL, hook_position TEXT NOT NULL,
 source_step_id INTEGER, target_todo_id INTEGER NOT NULL,
 skip_if_missing INTEGER NOT NULL DEFAULT 0,
 enabled INTEGER NOT NULL DEFAULT 1,
 min_rating INTEGER,
 unrated_policy TEXT NOT NULL DEFAULT 'skip', created_at TEXT,
 FOREIGN KEY (loop_id) REFERENCES loops(id) ON DELETE CASCADE,
 FOREIGN KEY (source_step_id) REFERENCES loop_steps(id) ON DELETE CASCADE,
 FOREIGN KEY (target_todo_id) REFERENCES todos(id) ON DELETE RESTRICT)"),
        V41Op::Run("CREATE INDEX IF NOT EXISTS idx_loop_hooks_loop_id ON loop_hooks(loop_id)"),
        V41Op::Run("CREATE INDEX IF NOT EXISTS idx_loop_hooks_source_stage ON loop_hooks(source_step_id)"),
        V41Op::Run("CREATE TRIGGER IF NOT EXISTS set_loop_hooks_created_at_utc AFTER INSERT ON loop_hooks
 WHEN new.created_at IS NULL OR new.created_at = ''
 BEGIN UPDATE loop_hooks SET created_at = strftime('%Y-%m-%dT%H:%M:%SZ','now','utc') WHERE rowid = new.rowid; END"),
        V41Op::Run("CREATE TABLE IF NOT EXISTS loop_executions (
 id INTEGER PRIMARY KEY AUTOINCREMENT,
 loop_id INTEGER NOT NULL, trigger_id INTEGER,
 trigger_type TEXT NOT NULL, trigger_meta TEXT DEFAULT '{}',
 started_at TEXT NOT NULL, finished_at TEXT,
 status TEXT NOT NULL DEFAULT 'running',
 total_steps INTEGER NOT NULL DEFAULT 0,
 completed_steps INTEGER NOT NULL DEFAULT 0,
 failed_steps INTEGER NOT NULL DEFAULT 0,
 FOREIGN KEY (loop_id) REFERENCES loops(id) ON DELETE CASCADE,
 FOREIGN KEY (trigger_id) REFERENCES loop_triggers(id) ON DELETE SET NULL)"),
        V41Op::Run("CREATE INDEX IF NOT EXISTS idx_loop_executions_loop_id ON loop_executions(loop_id)"),
        V41Op::Run("CREATE INDEX IF NOT EXISTS idx_loop_executions_started_at ON loop_executions(started_at DESC)"),
        V41Op::Run("CREATE INDEX IF NOT EXISTS idx_loop_executions_status ON loop_executions(status)"),
        V41Op::Run("CREATE TABLE IF NOT EXISTS loop_step_executions (
 id INTEGER PRIMARY KEY AUTOINCREMENT,
 loop_execution_id INTEGER NOT NULL,
 step_id INTEGER NOT NULL, todo_id INTEGER NOT NULL,
 execution_record_id INTEGER,
 status TEXT NOT NULL DEFAULT 'pending',
 started_at TEXT, finished_at TEXT, error_message TEXT,
 FOREIGN KEY (loop_execution_id) REFERENCES loop_executions(id) ON DELETE CASCADE,
 FOREIGN KEY (execution_record_id) REFERENCES execution_records(id) ON DELETE SET NULL)"),
        V41Op::Run("CREATE INDEX IF NOT EXISTS idx_loop_step_executions_loop_exec ON loop_step_executions(loop_execution_id)"),
        V41Op::Run("CREATE INDEX IF NOT EXISTS idx_loop_step_executions_record ON loop_step_executions(execution_record_id)"),
        V41Op::RunWarn("ALTER TABLE loops ADD COLUMN workspace TEXT"),
        V41Op::Run("CREATE TABLE IF NOT EXISTS steps (
 id INTEGER PRIMARY KEY AUTOINCREMENT,
 title TEXT NOT NULL,
 prompt TEXT NOT NULL DEFAULT '',
 executor TEXT,
 acceptance_criteria TEXT,
 source_todo_id INTEGER,
 created_at TEXT,
 updated_at TEXT,
 FOREIGN KEY (source_todo_id) REFERENCES todos(id) ON DELETE SET NULL
 )"),
        V41Op::Run("CREATE INDEX IF NOT EXISTS idx_steps_source_todo ON steps(source_todo_id)"),
        V41Op::Run("CREATE TRIGGER IF NOT EXISTS set_steps_created_at_utc AFTER INSERT ON steps
 WHEN new.created_at IS NULL OR new.created_at = ''
 BEGIN UPDATE steps SET created_at = strftime('%Y-%m-%dT%H:%M:%SZ', 'now', 'utc') WHERE rowid = new.rowid; END"),
        V41Op::Run("CREATE TRIGGER IF NOT EXISTS set_steps_updated_at_utc AFTER UPDATE ON steps
 WHEN new.updated_at IS NULL OR new.updated_at = ''
 BEGIN UPDATE steps SET updated_at = strftime('%Y-%m-%dT%H:%M:%SZ', 'now', 'utc') WHERE rowid = new.rowid; END"),
        V41Op::Run("INSERT INTO steps (title, prompt, executor, acceptance_criteria, source_todo_id, created_at, updated_at)
 SELECT title, COALESCE(prompt, ''), executor, acceptance_criteria, id, created_at, updated_at
 FROM todos WHERE kind = 'step' AND id NOT IN (SELECT source_todo_id FROM steps WHERE source_todo_id IS NOT NULL)"),
        V41Op::RunWarn("ALTER TABLE steps ADD COLUMN color TEXT NOT NULL DEFAULT '#722ed1'"),
        V41Op::RunWarn("ALTER TABLE loop_steps ADD COLUMN on_success TEXT NOT NULL DEFAULT 'next'"),
        V41Op::RunWarn("ALTER TABLE loop_steps ADD COLUMN success_goto_step_id BIGINT"),
        V41Op::RunWarn("ALTER TABLE loop_steps ADD COLUMN on_rating_fail TEXT NOT NULL DEFAULT 'break'"),
        V41Op::RunWarn("ALTER TABLE loop_steps ADD COLUMN fail_goto_step_id BIGINT"),
        V41Op::RunWarn("ALTER TABLE loops ADD COLUMN limits_config TEXT NOT NULL DEFAULT '{}'"),
        V41Op::RunWarn("ALTER TABLE loop_executions ADD COLUMN total_executed_steps INTEGER NOT NULL DEFAULT 0"),
        V41Op::RunWarn("ALTER TABLE loop_step_executions ADD COLUMN sequence_index INTEGER NOT NULL DEFAULT 0"),
        V41Op::RunWarn("ALTER TABLE loop_step_executions ADD COLUMN conclusion TEXT"),
        V41Op::RunWarn("ALTER TABLE execution_records ADD COLUMN loop_step_execution_id BIGINT"),
        V41Op::RunWarn("ALTER TABLE execution_records ADD COLUMN step_id BIGINT"),
        V41Op::RunWarn("ALTER TABLE loops ADD COLUMN review_template_id INTEGER"),
        V41Op::Run("CREATE TABLE IF NOT EXISTS review_templates (
 id INTEGER PRIMARY KEY,
 name VARCHAR(128) NOT NULL,
 description VARCHAR(512),
 prompt TEXT NOT NULL,
 created_at TEXT,
 updated_at TEXT
 )"),
        V41Op::Run("INSERT OR IGNORE INTO review_templates (id, name, description, prompt, created_at, updated_at)
 SELECT id, '默认评审任务', NULL, prompt, created_at, updated_at
 FROM todos WHERE todo_type = 1"),
        V41Op::SeedDefaultReviewTemplate,
    ]
}

/// v41 operations: the rest of the legacy review todos dropped, the review and approval columns, the tag tables, and the hook columns dropped.
pub open spec fn v41_review_cleanup_ops() -> Seq<V41Op> {
    seq![
        V41Op::Run("DELETE FROM loop_hooks WHERE target_todo_id IN (SELECT id FROM todos WHERE todo_type = 1)"),
        V41Op::Run("DELETE FROM todos WHERE todo_type = 1"),
        V41Op::RunWarn("ALTER TABLE todos ADD COLUMN review_template_id INTEGER"),
        V41Op::Run("CREATE INDEX IF NOT EXISTS idx_todos_review_template_id ON todos(review_template_id)"),
        V41Op::AddIfMissing { table: "loop_step_executions", column: "min_rating", sql: "ALTER TABLE loop_step_executions ADD COLUMN min_rating INTEGER" },
        V41Op::AddIfMissing { table: "loop_step_executions", column: "unrated_policy", sql: "ALTER TABLE loop_step_executions ADD COLUMN unrated_policy TEXT" },
        V41Op::AddIfMissing { table: "loop_step_executions", column: "rating", sql: "ALTER TABLE loop_step_executions ADD COLUMN rating INTEGER" },
        V41Op::Run("DELETE FROM todos
 WHERE todo_type = 2
 AND deleted_at IS NULL
 AND id NOT IN (
 SELECT MAX(id) FROM todos
 WHERE todo_type = 2 AND deleted_at IS NULL
 GROUP BY review_template_id
 )"),
        V41Op::RunWarn("ALTER TABLE loop_steps ADD COLUMN review_type TEXT NOT NULL DEFAULT 'ai'"),
        V41Op::RunWarn("ALTER TABLE loop_step_executions ADD COLUMN approval_status TEXT"),
        V41Op::RunWarn("ALTER TABLE loop_step_executions ADD COLUMN approval_comment TEXT"),
        V41Op::Run("CREATE TABLE IF NOT EXISTS step_tags (
 step_id INTEGER NOT NULL, tag_id INTEGER NOT NULL,
 PRIMARY KEY (step_id, tag_id),
 FOREIGN KEY (step_id) REFERENCES steps(id) ON DELETE CASCADE,
 FOREIGN KEY (tag_id) REFERENCES tags(id) ON DELETE CASCADE
 )"),
        V41Op::Run("CREATE INDEX IF NOT EXISTS idx_step_tags_step_id ON step_tags(step_id)"),
        V41Op::Run("CREATE TABLE IF NOT EXISTS loop_tags (
 loop_id INTEGER NOT NULL, tag_id INTEGER NOT NULL,
 PRIMARY KEY (loop_id, tag_id),
 FOREIGN KEY (loop_id) REFERENCES loops(id) ON DELETE CASCADE,
 FOREIGN KEY (tag_id) REFERENCES tags(id) ON DELETE CASCADE
 )"),
        V41Op::Run("CREATE INDEX IF NOT EXISTS idx_loop_tags_loop_id ON loop_tags(loop_id)"),
        V41Op::DropColumnIfExists { table: "todos", column: "hooks" },
        V41Op::DropColumnIfExists { table: "execution_records", column: "source_hook_id" },
    ]
}

fn v41_review_cleanup_ops_vec() -> (v: Vec<V41Op>)
    ensures
        v@ == v41_review_cleanup_ops(),
{
    vec![
        V41Op::Run("DELETE FROM loop_hooks WHERE target_todo_id IN (SELECT id FROM todos WHERE todo_type = 1)"),
        V41Op::Run("DELETE FROM todos WHERE todo_type = 1"),
        V41Op::RunWarn("ALTER TABLE todos ADD COLUMN review_template_id INTEGER"),
        V41Op::Run("CREATE INDEX IF NOT EXISTS idx_todos_review_template_id ON todos(review_template_id)"),
        V41Op::AddIfMissing { table: "loop_step_executions", column: "min_rating", sql: "ALTER TABLE loop_step_executions ADD COLUMN min_rating INTEGER" },
        V41Op::AddIfMissing { table: "loop_step_executions", column: "unrated_policy", sql: "ALTER TABLE loop_step_executions ADD COLUMN unrated_policy TEXT" },
        V41Op::AddIfMissing { table: "loop_step_executions", column: "rating", sql: "ALTER TABLE loop_step_executions ADD COLUMN rating INTEGER" },
        V41Op::Run("DELETE FROM todos
 WHERE todo_type = 2
 AND deleted_at IS NULL
 AND id NOT IN (
 SELECT MAX(id) FROM todos
 WHERE todo_type = 2 AND deleted_at IS NULL
 GROUP BY review_template_id
 )"),
        V41Op::RunWarn("ALTER TABLE loop_steps ADD COLUMN review_type TEXT NOT NULL DEFAULT 'ai'"),
        V41Op::RunWarn("ALTER TABLE loop_step_executions ADD COLUMN approval_status TEXT"),
        V41Op::RunWarn("ALTER TABLE loop_step_executions ADD COLUMN approval_comment TEXT"),
        V41Op::Run("CREATE TABLE IF NOT EXISTS step_tags (
 step_id INTEGER NOT NULL, tag_id INTEGER NOT NULL,
 PRIMARY KEY (step_id, tag_id),
 FOREIGN KEY (step_id) REFERENCES steps(id) ON DELETE CASCADE,
 FOREIGN KEY (tag_id) REFERENCES tags(id) ON DELETE CASCADE
 )"),
        V41Op::Run("CREATE INDEX IF NOT EXISTS idx_step_tags_step_id ON step_tags(step_id)"),
        V41Op::Run("CREATE TABLE IF NOT EXISTS loop_tags (
 loop_id INTEGER NOT NULL, tag_id INTEGER NOT NULL,
 PRIMARY KEY (loop_id, tag_id),
 FOREIGN KEY (loop_id) REFERENCES loops(id) ON DELETE CASCADE,
 FOREIGN KEY (tag_id) REFERENCES tags(id) ON DELETE CASCADE
 )"),
        V41Op::Run("CREATE INDEX IF NOT EXISTS idx_loop_tags_loop_id ON loop_tags(loop_id)"),
        V41Op::DropColumnIfExists { table: "todos", column: "hooks" },
        V41Op::DropColumnIfExists { table: "execution_records", column: "source_hook_id" },
    ]
}

/// v41 operations: the rebuild of `loop_steps` that renames `step_id` to `todo_id` with a foreign key to `todos`.
pub open spec fn v41_loop_steps_rebuild_ops() -> Seq<V41Op> {
    seq![
        V41Op::Run("PRAGMA foreign_keys = OFF"),
        V41Op::Run("DROP TABLE IF EXISTS loop_steps_new"),
        V41Op::Run("CREATE TABLE loop_steps_new (
 id INTEGER NOT NULL PRIMARY KEY AUTOINCREMENT,
 loop_id BIGINT NOT NULL, name TEXT NOT NULL,
 description TEXT NOT NULL DEFAULT '',
 order_index INTEGER NOT NULL DEFAULT 0,
 todo_id BIGINT NOT NULL,
 run_mode TEXT NOT NULL DEFAULT 'sequential',
 skip_on_source_failed INTEGER NOT NULL DEFAULT 0,
 min_rating BIGINT,
 unrated_policy TEXT NOT NULL DEFAULT 'skip',
 on_success TEXT NOT NULL DEFAULT 'next',
 success_goto_step_id BIGINT,
 on_rating_fail TEXT NOT NULL DEFAULT 'break',
 fail_goto_step_id BIGINT,
 review_type TEXT NOT NULL DEFAULT 'ai',
 enabled INTEGER NOT NULL DEFAULT 1,
 created_at TEXT,
 FOREIGN KEY (loop_id) REFERENCES loops(id) ON DELETE CASCADE,
 FOREIGN KEY (todo_id) REFERENCES todos(id) ON DELETE RESTRICT
 )"),
        V41Op::Run("INSERT INTO loop_steps_new (id, loop_id, name, description, order_index,
 todo_id, run_mode, skip_on_source_failed, min_rating, unrated_policy,
 on_success, success_goto_step_id, on_rating_fail, fail_goto_step_id,
 review_type, enabled, created_at)
 SELECT id, loop_id, name, description, order_index,
 step_id, run_mode, skip_on_source_failed, min_rating, unrated_policy,
 on_success, success_goto_step_id, on_rating_fail, fail_goto_step_id,
 review_type, enabled, created_at
 FROM loop_steps"),
        V41Op::Run("DROP TABLE loop_steps"),
        V41Op::Run("ALTER TABLE loop_steps_new RENAME TO loop_steps"),
        V41Op::Run("CREATE INDEX IF NOT EXISTS idx_loop_steps_loop_id ON loop_steps(loop_id)"),
        V41Op::Run("CREATE INDEX IF NOT EXISTS idx_loop_steps_loop_order ON loop_steps(loop_id, order_index)"),
        V41Op::Run("PRAGMA foreign_keys = ON"),
    ]
}

fn v41_loop_steps_rebuild_ops_vec() -> (v: Vec<V41Op>)
    ensures
        v@ == v41_loop_steps_rebuild_ops(),
{
    vec![
        V41Op::Run("PRAGMA foreign_keys = OFF"),
        V41Op::Run("DROP TABLE IF EXISTS loop_steps_new"),
        V41Op::Run("CREATE TABLE loop_steps_new (
 id INTEGER NOT NULL PRIMARY KEY AUTOINCREMENT,
 loop_id BIGINT NOT NULL, name TEXT NOT NULL,
 description TEXT NOT NULL DEFAULT '',
 order_index INTEGER NOT NULL DEFAULT 0,
 todo_id BIGINT NOT NULL,
 run_mode TEXT NOT NULL DEFAULT 'sequential',
 skip_on_source_failed INTEGER NOT NULL DEFAULT 0,
 min_rating BIGINT,
 unrated_policy TEXT NOT NULL DEFAULT 'skip',
 on_success TEXT NOT NULL DEFAULT 'next',
 success_goto_step_id BIGINT,
 on_rating_fail TEXT NOT NULL DEFAULT 'break',
 fail_goto_step_id BIGINT,
 review_type TEXT NOT NULL DEFAULT 'ai',
 enabled INTEGER NOT NULL DEFAULT 1,
 created_at TEXT,
 FOREIGN KEY (loop_id) REFERENCES loops(id) ON DELETE CASCADE,
 FOREIGN KEY (todo_id) REFERENCES todos(id) ON DELETE RESTRICT
 )"),
        V41Op::Run("INSERT INTO loop_steps_new (id, loop_id, name, description, order_index,
 todo_id, run_mode, skip_on_source_failed, min_rating, unrated_policy,
 on_success, success_goto_step_id, on_rating_fail, fail_goto_step_id,
 review_type, enabled, created_at)
 SELECT id, loop_id, name, description, order_index,
 step_id, run_mode, skip_on_source_failed, min_rating, unrated_policy,
 on_success, success_goto_step_id, on_rating_fail, fail_goto_step_id,
 review_type, enabled, created_at
 FROM loop_steps"),
        V41Op::Run("DROP TABLE loop_steps"),
        V41Op::Run("ALTER TABLE loop_steps_new RENAME TO loop_steps"),
        V41Op::Run("CREATE INDEX IF NOT EXISTS idx_loop_steps_loop_id ON loop_steps(loop_id)"),
        V41Op::Run("CREATE INDEX IF NOT EXISTS idx_loop_steps_loop_order ON loop_steps(loop_id, order_index)"),
        V41Op::Run("PRAGMA foreign_keys = ON"),
    ]
}

/// v41 operations: the abnormal-handler columns of loops, then foreign keys off for the step execution rebuild.
pub open spec fn v41_abnormal_handler_ops() -> Seq<V41Op> {
    seq![
        V41Op::AddIfMissing { table: "loops", column: "abnormal_handler_todo_id", sql: "ALTER TABLE loops ADD COLUMN abnormal_handler_todo_id INTEGER REFERENCES todos(id) ON DELETE SET NULL" },
        V41Op::AddIfMissing { table: "loops", column: "abnormal_handler_trigger_on", sql: "ALTER TABLE loops ADD COLUMN abnormal_handler_trigger_on TEXT NOT NULL DEFAULT '[\"capped_step\",\"capped_token\",\"failed\"]'" },
        V41Op::Run("PRAGMA foreign_keys = OFF"),
    ]
}

fn v41_abnormal_handler_ops_vec() -> (v: Vec<V41Op>)
    ensures
        v@ == v41_abnormal_handler_ops(),
{
    vec![
        V41Op::AddIfMissing { table: "loops", column: "abnormal_handler_todo_id", sql: "ALTER TABLE loops ADD COLUMN abnormal_handler_todo_id INTEGER REFERENCES todos(id) ON DELETE SET NULL" },
        V41Op::AddIfMissing { table: "loops", column: "abnormal_handler_trigger_on", sql: "ALTER TABLE loops ADD COLUMN abnormal_handler_trigger_on TEXT NOT NULL DEFAULT '[\"capped_step\",\"capped_token\",\"failed\"]'" },
        V41Op::Run("PRAGMA foreign_keys = OFF"),
    ]
}

/// v41 operations: the rebuild of `loop_step_executions` without the foreign key on `step_id`, through a backup table.
pub open spec fn v41_step_exec_rebuild_ops() -> Seq<V41Op> {
    seq![
        V41Op::Run("ALTER TABLE loop_step_executions RENAME TO loop_step_executions_backup_v28"),
        V41Op::Run(r#"CREATE TABLE loop_step_executions (
 id INTEGER PRIMARY KEY AUTOINCREMENT,
 loop_execution_id INTEGER NOT NULL, step_id INTEGER NOT NULL,
 todo_id INTEGER NOT NULL, execution_record_id INTEGER,
 status TEXT NOT NULL DEFAULT 'pending',
 started_at TEXT, finished_at TEXT, error_message TEXT,
 rating INTEGER, unrated_policy TEXT, conclusion TEXT,
 approval_status TEXT, approval_comment TEXT,
 min_rating INTEGER, sequence_index INTEGER NOT NULL DEFAULT 0,
 FOREIGN KEY (loop_execution_id) REFERENCES loop_executions(id) ON DELETE CASCADE,
 FOREIGN KEY (execution_record_id) REFERENCES execution_records(id) ON DELETE SET NULL
 )"#),
        V41Op::Run("INSERT INTO loop_step_executions (id, loop_execution_id, step_id, todo_id, execution_record_id, status, started_at, finished_at, error_message, rating, unrated_policy, conclusion, approval_status, approval_comment, min_rating, sequence_index)
 SELECT id, loop_execution_id, step_id, todo_id, execution_record_id, status, started_at, finished_at, error_message, rating, unrated_policy, conclusion, approval_status, approval_comment, min_rating, sequence_index FROM loop_step_executions_backup_v28"),
        V41Op::Run("CREATE INDEX IF NOT EXISTS idx_loop_step_executions_loop_exec ON loop_step_executions(loop_execution_id)"),
        V41Op::Run("CREATE INDEX IF NOT EXISTS idx_loop_step_executions_record ON loop_step_executions(execution_record_id)"),
        V41Op::Run("DROP TABLE loop_step_executions_backup_v28"),
    ]
}

fn v41_step_exec_rebuild_ops_vec() -> (v: Vec<V41Op>)
    ensures
        v@ == v41_step_exec_rebuild_ops(),
{
    vec![
        V41Op::Run("ALTER TABLE loop_step_executions RENAME TO loop_step_executions_backup_v28"),
        V41Op::Run(r#"CREATE TABLE loop_step_executions (
 id INTEGER PRIMARY KEY AUTOINCREMENT,
 loop_execution_id INTEGER NOT NULL, step_id INTEGER NOT NULL,
 todo_id INTEGER NOT NULL, execution_record_id INTEGER,
 status TEXT NOT NULL DEFAULT 'pending',
 started_at TEXT, finished_at TEXT, error_message TEXT,
 rating INTEGER, unrated_policy TEXT, conclusion TEXT,
 approval_status TEXT, approval_comment TEXT,
 min_rating INTEGER, sequence_index INTEGER NOT NULL DEFAULT 0,
 FOREIGN KEY (loop_execution_id) REFERENCES loop_executions(id) ON DELETE CASCADE,
 FOREIGN KEY (execution_record_id) REFERENCES execution_records(id) ON DELETE SET NULL
 )"#),
        V41Op::Run("INSERT INTO loop_step_executions (id, loop_execution_id, step_id, todo_id, execution_record_id, status, started_at, finished_at, error_message, rating, unrated_policy, conclusion, approval_status, approval_comment, min_rating, sequence_index)
 SELECT id, loop_execution_id, step_id, todo_id, execution_record_id, status, started_at, finished_at, error_message, rating, unrated_policy, conclusion, approval_status, approval_comment, min_rating, sequence_index FROM loop_step_executions_backup_v28"),
        V41Op::Run("CREATE INDEX IF NOT EXISTS idx_loop_step_executions_loop_exec ON loop_step_executions(loop_execution_id)"),
        V41Op::Run("CREATE INDEX IF NOT EXISTS idx_loop_step_executions_record ON loop_step_executions(execution_record_id)"),
        V41Op::Run("DROP TABLE loop_step_executions_backup_v28"),
    ]
}

/// v41 operations: foreign keys back on, and the webhook switches of todos and loops.
pub open spec fn v41_webhook_ops() -> Seq<V41Op> {
    seq![
        V41Op::Run("PRAGMA foreign_keys = ON"),
        V41Op::AddIfMissing { table: "todos", column: "webhook_enabled", sql: "ALTER TABLE todos ADD COLUMN webhook_enabled INTEGER NOT NULL DEFAULT 0" },
        V41Op::AddIfMissing { table: "loops", column: "webhook_enabled", sql: "ALTER TABLE loops ADD COLUMN webhook_enabled INTEGER NOT NULL DEFAULT 0" },
    ]
}

fn v41_webhook_ops_vec() -> (v: Vec<V41Op>)
    ensures
        v@ == v41_webhook_ops(),
{
    vec![
        V41Op::Run("PRAGMA foreign_keys = ON"),
        V41Op::AddIfMissing { table: "todos", column: "webhook_enabled", sql: "ALTER TABLE todos ADD COLUMN webhook_enabled INTEGER NOT NULL DEFAULT 0" },
        V41Op::AddIfMissing { table: "loops", column: "webhook_enabled", sql: "ALTER TABLE loops ADD COLUMN webhook_enabled INTEGER NOT NULL DEFAULT 0" },
    ]
}

fn ref_column_exec(has_todo_id: bool) -> (c: &'static str)
    ensures
        c == ref_column(has_todo_id),
{
    if has_todo_id {
        "todo_id"
    } else {
        "step_id"
    }
}

fn with_first(first: V41Op, rest: Vec<V41Op>) -> (v: Vec<V41Op>)
    ensures
        v@ == seq![first] + rest@,
{
    let mut v = vec![first];
    let mut rest = rest;
    v.append(&mut rest);
    v
}

fn joined(first: Vec<V41Op>, rest: Vec<V41Op>) -> (v: Vec<V41Op>)
    ensures
        v@ == first@ + rest@,
{
    let mut v = first;
    let mut rest = rest;
    v.append(&mut rest);
    v
}

/// One step of v41: from the phase and the answer to its probe, the next
/// phase and action. Every step lowers the number of steps left, so v41
/// ends after at most eight of them, and it ends with no probe exactly when
/// it reaches `Finished`.
pub fn v41_step(phase: V41Phase, event: V41Event) -> (next: (V41Phase, V41Action))
    requires
        v41_accepts(phase, event),
    ensures
        next.0 == v41_next(phase, event).0,
        next.1.ops@ == v41_next(phase, event).1,
        next.1.probe == v41_next(phase, event).2,
        v41_remaining(next.0) < v41_remaining(phase),
        next.1.probe is None <==> next.0 is Finished,
{
    match (phase, event) {
        (V41Phase::Start, _) => (
            V41Phase::AwaitKind,
            V41Action {
                ops: vec![V41Op::RunWarn(V41_ADD_TODOS_KIND)],
                probe: Some(V41Probe::HasColumn { table: "todos", column: "kind" }),
            },
        ),
        (V41Phase::AwaitKind, V41Event::Answer(true)) => (
            V41Phase::AwaitLoopSteps,
            V41Action { ops: Vec::new(), probe: Some(V41Probe::TableExists { table: "loop_steps" }) },
        ),
        (V41Phase::AwaitKind, _) | (V41Phase::AwaitLoopSteps, V41Event::Answer(false)) => (
            V41Phase::AwaitDeleteRef,
            V41Action {
                ops: v41_schema_ops_vec(),
                probe: Some(V41Probe::HasColumn { table: "loop_steps", column: "todo_id" }),
            },
        ),
        (V41Phase::AwaitLoopSteps, _) => (
            V41Phase::AwaitMarkRef,
            V41Action {
                ops: Vec::new(),
                probe: Some(V41Probe::HasColumn { table: "loop_steps", column: "todo_id" }),
            },
        ),
        (V41Phase::AwaitMarkRef, V41Event::Answer(b)) => (
            V41Phase::AwaitDeleteRef,
            V41Action {
                ops: with_first(V41Op::MarkStepTodos { ref_column: ref_column_exec(b) }, v41_schema_ops_vec()),
                probe: Some(V41Probe::HasColumn { table: "loop_steps", column: "todo_id" }),
            },
        ),
        (V41Phase::AwaitDeleteRef, V41Event::Answer(b)) => (
            V41Phase::AwaitStepId,
            V41Action {
                ops: with_first(
                    V41Op::DeleteReviewStepRefs { ref_column: ref_column_exec(b) },
                    v41_review_cleanup_ops_vec(),
                ),
                probe: Some(V41Probe::HasColumn { table: "loop_steps", column: "step_id" }),
            },
        ),
        (V41Phase::AwaitStepId, V41Event::Answer(b)) => (
            V41Phase::AwaitAutoReview,
            V41Action {
                ops: if b {
                    v41_loop_steps_rebuild_ops_vec()
                } else {
                    Vec::new()
                },
                probe: Some(V41Probe::HasColumn { table: "todos", column: "auto_review_enabled" }),
            },
        ),
        (V41Phase::AwaitAutoReview, V41Event::Answer(b)) => {
            let first = if b {
                vec![V41Op::Run(V41_DISABLE_AUTO_REVIEW)]
            } else {
                Vec::new()
            };
            (
                V41Phase::AwaitFkDrop,
                V41Action {
                    ops: joined(first, v41_abnormal_handler_ops_vec()),
                    probe: Some(V41Probe::TryRun { sql: V41_DROP_STEP_EXEC_FK }),
                },
            )
        },
        (V41Phase::AwaitFkDrop, V41Event::Answer(dropped)) => {
            let first = if dropped {
                Vec::new()
            } else {
                v41_step_exec_rebuild_ops_vec()
            };
            (V41Phase::Finished, V41Action { ops: joined(first, v41_webhook_ops_vec()), probe: None })
        },
        _ => (V41Phase::Finished, V41Action { ops: Vec::new(), probe: None }),
    }
}

/// v41 keeps the legacy review todos (`todo_type = 1`): the step that leads
/// to the review cleanup copies them into `review_templates` with their id
/// and prompt, and no step but the cleanup deletes them, so they are always
/// copied before they are deleted.
pub proof fn v41_moves_legacy_review_todos_before_deleting_them(phase: V41Phase, event: V41Event)
    requires
        v41_accepts(phase, event),
    ensures
        v41_next(phase, event).0 is AwaitDeleteRef ==> v41_next(phase, event).1.contains(
            V41Op::Run(
                "INSERT OR IGNORE INTO review_templates (id, name, description, prompt, created_at, updated_at)
 SELECT id, '默认评审任务', NULL, prompt, created_at, updated_at
 FROM todos WHERE todo_type = 1",
            ),
        ),
        v41_next(phase, event).1.contains(V41Op::Run("DELETE FROM todos WHERE todo_type = 1"))
            ==> phase is AwaitDeleteRef,
        forall|j: int|
            0 <= j < v41_next(phase, event).1.len() && #[trigger] v41_next(phase, event).1[j]
                == V41Op::SeedDefaultReviewTemplate ==> exists|i: int|
                0 <= i < j && v41_next(phase, event).1[i] == V41Op::Run(
                    "INSERT OR IGNORE INTO review_templates (id, name, description, prompt, created_at, updated_at)
 SELECT id, '默认评审任务', NULL, prompt, created_at, updated_at
 FROM todos WHERE todo_type = 1",
                ),
{
    let copy = V41Op::Run(
        "INSERT OR IGNORE INTO review_templates (id, name, description, prompt, created_at, updated_at)
 SELECT id, '默认评审任务', NULL, prompt, created_at, updated_at
 FROM todos WHERE todo_type = 1",
    );
    let del = V41Op::Run("DELETE FROM todos WHERE todo_type = 1");
    let ops = v41_next(phase, event).1;
    let schema = v41_schema_ops();
    assert(schema[44] == copy);
    assert(!schema.contains(del)) by {
        assert forall|i: int| 0 <= i < schema.len() implies schema[i] != del by {}
    }
    let seed = V41Op::SeedDefaultReviewTemplate;
    let rebuild = v41_loop_steps_rebuild_ops();
    let abnormal = v41_abnormal_handler_ops();
    let fallback = v41_step_exec_rebuild_ops();
    let webhook = v41_webhook_ops();
    let cleanup = v41_review_cleanup_ops();
    assert(forall|k: int| 0 <= k < schema.len() && k != 45 ==> schema[k] != seed);
    if v41_next(phase, event).0 is AwaitDeleteRef {
        if phase is AwaitMarkRef {
            assert(ops[45] == copy);
            assert forall|j: int| 0 <= j < ops.len() && #[trigger] ops[j] == seed implies exists|i: int|
                0 <= i < j && ops[i] == copy by {
                assert(j == 46);
                assert(ops[45] == copy);
            }
        } else {
            assert(ops[44] == copy);
            assert forall|j: int| 0 <= j < ops.len() && #[trigger] ops[j] == seed implies exists|i: int|
                0 <= i < j && ops[i] == copy by {
                assert(j == 45);
                assert(ops[44] == copy);
            }
        }
    } else {
        assert(forall|k: int| 0 <= k < rebuild.len() ==> rebuild[k] != seed);
        assert(forall|k: int| 0 <= k < abnormal.len() ==> abnormal[k] != seed);
        assert(forall|k: int| 0 <= k < fallback.len() ==> fallback[k] != seed);
        assert(forall|k: int| 0 <= k < webhook.len() ==> webhook[k] != seed);
        assert(forall|k: int| 0 <= k < cleanup.len() ==> cleanup[k] != seed);
        assert forall|j: int| 0 <= j < ops.len() implies #[trigger] ops[j] != seed by {}
    }
    if !(phase is AwaitDeleteRef) {
        assert(!ops.contains(del)) by {
            assert forall|i: int| 0 <= i < ops.len() implies ops[i] != del by {
                let rebuild = v41_loop_steps_rebuild_ops();
                let abnormal = v41_abnormal_handler_ops();
                let fallback = v41_step_exec_rebuild_ops();
                let webhook = v41_webhook_ops();
                assert(forall|k: int| 0 <= k < rebuild.len() ==> rebuild[k] != del);
                assert(forall|k: int| 0 <= k < abnormal.len() ==> abnormal[k] != del);
                assert(forall|k: int| 0 <= k < fallback.len() ==> fallback[k] != del);
                assert(forall|k: int| 0 <= k < webhook.len() ==> webhook[k] != del);
                assert(forall|k: int| 0 <= k < schema.len() ==> schema[k] != del);
            }
        }
    }
}

/// When the foreign key cannot be dropped in place, v41 copies every row
/// and column of the renamed `loop_step_executions_backup_v28` into the new
/// `loop_step_executions` before anything drops the backup.
pub proof fn v41_step_exec_rebuild_keeps_every_row()
    ensures
        ({
            let ops = v41_next(V41Phase::AwaitFkDrop, V41Event::Answer(false)).1;
            &&& ops.contains(V41Op::Run("ALTER TABLE loop_step_executions RENAME TO loop_step_executions_backup_v28"))
            &&& forall|j: int|
                0 <= j < ops.len() && #[trigger] ops[j] == V41Op::Run("DROP TABLE loop_step_executions_backup_v28")
                    ==> exists|i: int|
                    0 <= i < j && ops[i] == V41Op::Run(
                        "INSERT INTO loop_step_executions (id, loop_execution_id, step_id, todo_id, execution_record_id, status, started_at, finished_at, error_message, rating, unrated_policy, conclusion, approval_status, approval_comment, min_rating, sequence_index)
 SELECT id, loop_execution_id, step_id, todo_id, execution_record_id, status, started_at, finished_at, error_message, rating, unrated_policy, conclusion, approval_status, approval_comment, min_rating, sequence_index FROM loop_step_executions_backup_v28",
                    )
        }),
{
    let ops = v41_next(V41Phase::AwaitFkDrop, V41Event::Answer(false)).1;
    let insert = V41Op::Run(
        "INSERT INTO loop_step_executions (id, loop_execution_id, step_id, todo_id, execution_record_id, status, started_at, finished_at, error_message, rating, unrated_policy, conclusion, approval_status, approval_comment, min_rating, sequence_index)
 SELECT id, loop_execution_id, step_id, todo_id, execution_record_id, status, started_at, finished_at, error_message, rating, unrated_policy, conclusion, approval_status, approval_comment, min_rating, sequence_index FROM loop_step_executions_backup_v28",
    );
    let drop = V41Op::Run("DROP TABLE loop_step_executions_backup_v28");
    assert(ops =~= v41_step_exec_rebuild_ops() + v41_webhook_ops());
    assert(ops[0] == V41Op::Run("ALTER TABLE loop_step_executions RENAME TO loop_step_executions_backup_v28"));
    assert(ops[2] == insert);
    assert forall|j: int| 0 <= j < ops.len() && #[trigger] ops[j] == drop implies exists|i: int|
        0 <= i < j && ops[i] == insert by {
        assert(j > 2);
        assert(ops[2] == insert);
    }
}

} // verus!
