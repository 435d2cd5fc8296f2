//! The statement-list schema registry: each migration is a version, a name,
//! a description and an ordered list of idempotent DDL statements. The runner
//! reads the highest applied version and applies every later migration.
use vstd::prelude::*;

use crate::text::{collapsed, one_line as collapse_whitespace};

verus! {

/// Name of the meta table that records the highest applied migration version.
pub const SCHEMA_VERSION_TABLE: &'static str = "schema_version";

/// A versioned, named bundle of DDL statements. Each statement is
/// idempotent (`IF NOT EXISTS` and the like), so re-running one on a
/// partially upgraded database is harmless.
pub struct Migration {
    pub version: i64,
    pub name: &'static str,
    /// Human-readable description used in startup logs.
    pub description: &'static str,
    /// Ordered DDL statements to apply for this migration.
    pub statements: Vec<&'static str>,
}

/// The versions of the registry, in registry order.
pub open spec fn registered_versions() -> Seq<i64> {
    seq![1i64, 2, 3, 9]
}

/// The number of statements of each migration, in registry order.
pub open spec fn registered_statement_counts() -> Seq<nat> {
    seq![106nat, 20, 3, 5]
}

/// The versions of `ms`, in order.
pub open spec fn versions_of(ms: Seq<Migration>) -> Seq<i64> {
    ms.map_values(|m: Migration| m.version)
}

/// Versions start at 1 and strictly increase.
pub open spec fn strictly_ascending_from_one(vs: Seq<i64>) -> bool {
    &&& vs.len() > 0 ==> vs[0] >= 1
    &&& forall|i: int, j: int| 0 <= i < j < vs.len() ==> vs[i] < vs[j]
}

/// The version of the last registered migration, or 0 for an empty list.
pub open spec fn last_version(ms: Seq<Migration>) -> i64 {
    if ms.len() == 0 {
        0
    } else {
        ms.last().version
    }
}

/// Sum of the statement counts of the migrations among the first `n` whose
/// version is at most `current`.
pub open spec fn skipped_statements(ms: Seq<Migration>, current: i64, n: int) -> nat
    decreases n,
{
    if n <= 0 {
        0
    } else {
        skipped_statements(ms, current, n - 1) + if ms[n - 1].version <= current {
            ms[n - 1].statements@.len()
        } else {
            0
        }
    }
}

/// Sum of the statement counts of the first `n` migrations.
pub open spec fn total_statements(ms: Seq<Migration>, n: int) -> nat
    decreases n,
{
    if n <= 0 {
        0
    } else {
        total_statements(ms, n - 1) + ms[n - 1].statements@.len()
    }
}

/// What one start-up run does: the registry indices to apply, in order, the
/// version it reports afterwards, and how many statements it skips because
/// their migration is already applied.
pub struct RunPlan {
    pub to_apply: Vec<usize>,
    pub new_version: i64,
    pub skipped_statements: usize,
}

/// `idx` lists, in increasing order, exactly the indices of `ms` whose
/// version exceeds `current`.
pub open spec fn indices_above(ms: Seq<Migration>, current: i64, idx: Seq<usize>) -> bool {
    &&& forall|k: int| 0 <= k < idx.len() ==> #[trigger] idx[k] < ms.len()
    &&& forall|k: int| 0 <= k < idx.len() ==> ms[#[trigger] idx[k] as int].version > current
    &&& forall|a: int, b: int| 0 <= a < b < idx.len() ==> idx[a] < idx[b]
    &&& forall|i: int|
        0 <= i < ms.len() && #[trigger] ms[i].version > current ==> exists|k: int|
            0 <= k < idx.len() && idx[k] == i
}

/// The statements of the initial schema migration, in order.
pub open spec fn initial_schema_ddl() -> Seq<&'static str> {
    seq![
        "CREATE TABLE IF NOT EXISTS todos (
        id INTEGER PRIMARY KEY AUTOINCREMENT,
        title TEXT NOT NULL,
        prompt TEXT DEFAULT '',
        status TEXT DEFAULT 'pending',
        created_at TEXT,
        updated_at TEXT,
        deleted_at TEXT,
        executor TEXT DEFAULT 'claudecode',
        scheduler_enabled INTEGER DEFAULT 0,
        scheduler_config TEXT,
        task_id TEXT,
        workspace TEXT
    )",
        "CREATE TABLE IF NOT EXISTS tags (
        id INTEGER PRIMARY KEY AUTOINCREMENT,
        name TEXT NOT NULL UNIQUE,
        color TEXT DEFAULT '#1890ff',
        created_at TEXT
    )",
        "CREATE TABLE IF NOT EXISTS todo_tags (
        todo_id INTEGER,
        tag_id INTEGER,
        PRIMARY KEY (todo_id, tag_id),
        FOREIGN KEY (todo_id) REFERENCES todos(id) ON DELETE CASCADE,
        FOREIGN KEY (tag_id) REFERENCES tags(id) ON DELETE CASCADE
    )",
        "CREATE TABLE IF NOT EXISTS execution_records (
        id INTEGER PRIMARY KEY AUTOINCREMENT,
        todo_id INTEGER,
        status TEXT DEFAULT 'running',
        command TEXT,
        stdout TEXT DEFAULT '',
        stderr TEXT DEFAULT '',
        result TEXT,
        usage TEXT,
        executor TEXT,
        model TEXT,
        started_at TEXT DEFAULT (strftime('%Y-%m-%dT%H:%M:%SZ', 'now')),
        finished_at TEXT,
        trigger_type TEXT DEFAULT 'manual',
        pid INTEGER,
        task_id TEXT,
        session_id TEXT,
        FOREIGN KEY (todo_id) REFERENCES todos(id) ON DELETE CASCADE
    )",
        "CREATE TABLE IF NOT EXISTS execution_logs (
        id INTEGER PRIMARY KEY AUTOINCREMENT,
        record_id INTEGER NOT NULL,
        timestamp TEXT NOT NULL,
        log_type TEXT NOT NULL DEFAULT 'info',
        content TEXT NOT NULL DEFAULT '',
        metadata TEXT DEFAULT '{}',
        FOREIGN KEY (record_id) REFERENCES execution_records(id) ON DELETE CASCADE
    )",
        "CREATE INDEX IF NOT EXISTS idx_execution_logs_record ON execution_logs(record_id)",
        "CREATE TABLE IF NOT EXISTS skill_invocations (
        id INTEGER PRIMARY KEY AUTOINCREMENT,
        skill_name TEXT NOT NULL,
        executor TEXT NOT NULL,
        todo_id INTEGER,
        status TEXT DEFAULT 'invoked',
        duration_ms INTEGER,
        invoked_at TEXT DEFAULT (strftime('%Y-%m-%dT%H:%M:%SZ', 'now', 'utc')),
        FOREIGN KEY (todo_id) REFERENCES todos(id) ON DELETE CASCADE
    )",
        "CREATE INDEX IF NOT EXISTS idx_todos_deleted_at ON todos(deleted_at)",
        "CREATE INDEX IF NOT EXISTS idx_todos_status ON todos(status)",
        "CREATE INDEX IF NOT EXISTS idx_todos_task_id ON todos(task_id)",
        "CREATE INDEX IF NOT EXISTS idx_execution_records_todo_id ON execution_records(todo_id)",
        "CREATE INDEX IF NOT EXISTS idx_execution_records_task_id ON execution_records(task_id)",
        "CREATE INDEX IF NOT EXISTS idx_execution_records_pid ON execution_records(pid)",
        "CREATE INDEX IF NOT EXISTS idx_execution_records_session_id ON execution_records(session_id)",
        "CREATE INDEX IF NOT EXISTS idx_execution_records_status ON execution_records(status)",
        "CREATE INDEX IF NOT EXISTS idx_todo_tags_todo_id ON todo_tags(todo_id)",
        "CREATE INDEX IF NOT EXISTS idx_skill_invocations_skill_name ON skill_invocations(skill_name)",
        "CREATE INDEX IF NOT EXISTS idx_skill_invocations_executor ON skill_invocations(executor)",
        "CREATE INDEX IF NOT EXISTS idx_skill_invocations_todo_id ON skill_invocations(todo_id)",
        "CREATE INDEX IF NOT EXISTS idx_execution_records_started_at ON execution_records(started_at)",
        "CREATE INDEX IF NOT EXISTS idx_execution_records_executor ON execution_records(executor)",
        "CREATE INDEX IF NOT EXISTS idx_execution_records_model ON execution_records(model)",
        "CREATE INDEX IF NOT EXISTS idx_execution_records_todo_finished ON execution_records(todo_id, finished_at DESC)",
        "CREATE TRIGGER IF NOT EXISTS set_todos_created_at_utc AFTER INSERT ON todos
     WHEN new.created_at IS NULL OR new.created_at = ''
     BEGIN
         UPDATE todos SET created_at = strftime('%Y-%m-%dT%H:%M:%SZ', 'now', 'utc') WHERE rowid = new.rowid;
     END",
        "CREATE TRIGGER IF NOT EXISTS set_todos_updated_at_utc BEFORE UPDATE OF updated_at ON todos
     WHEN new.updated_at IS NULL OR new.updated_at = ''
     BEGIN
         UPDATE todos SET updated_at = strftime('%Y-%m-%dT%H:%M:%SZ', 'now', 'utc') WHERE rowid = new.rowid;
     END",
        "CREATE TRIGGER IF NOT EXISTS set_tags_created_at_utc AFTER INSERT ON tags
     WHEN new.created_at IS NULL OR new.created_at = ''
     BEGIN
         UPDATE tags SET created_at = strftime('%Y-%m-%dT%H:%M:%SZ', 'now', 'utc') WHERE rowid = new.rowid;
     END",
        "CREATE TABLE IF NOT EXISTS agent_bots (
        id INTEGER PRIMARY KEY AUTOINCREMENT,
        bot_type TEXT NOT NULL,
        bot_name TEXT NOT NULL,
        app_id TEXT NOT NULL,
        app_secret TEXT NOT NULL,
        bot_open_id TEXT,
        domain TEXT,
        enabled INTEGER DEFAULT 1,
        config TEXT DEFAULT '{}',
        created_at TEXT,
        updated_at TEXT
    )",
        "CREATE TABLE IF NOT EXISTS feishu_homes (
        id INTEGER PRIMARY KEY AUTOINCREMENT,
        bot_id INTEGER NOT NULL,
        user_open_id TEXT NOT NULL,
        chat_id TEXT,
        receive_id TEXT NOT NULL,
        receive_id_type TEXT NOT NULL,
        created_at TEXT,
        updated_at TEXT,
        FOREIGN KEY (bot_id) REFERENCES agent_bots(id) ON DELETE CASCADE,
        UNIQUE(bot_id, user_open_id)
    )",
        "CREATE TABLE IF NOT EXISTS feishu_messages (
        id INTEGER PRIMARY KEY AUTOINCREMENT,
        bot_id INTEGER NOT NULL,
        message_id TEXT NOT NULL UNIQUE,
        chat_id TEXT NOT NULL,
        chat_type TEXT NOT NULL,
        sender_open_id TEXT NOT NULL,
        sender_nickname TEXT,
        sender_type TEXT,
        content TEXT,
        msg_type TEXT NOT NULL DEFAULT 'text',
        is_mention INTEGER DEFAULT 0,
        processed INTEGER DEFAULT 0,
        is_history INTEGER DEFAULT 0,
        fetch_time TEXT,
        created_at TEXT,
        FOREIGN KEY (bot_id) REFERENCES agent_bots(id) ON DELETE CASCADE
    )",
        "CREATE INDEX IF NOT EXISTS idx_feishu_messages_chat_id ON feishu_messages(chat_id)",
        "CREATE INDEX IF NOT EXISTS idx_feishu_messages_created_at ON feishu_messages(created_at)",
        "CREATE TABLE IF NOT EXISTS feishu_history_chats (
        id INTEGER PRIMARY KEY AUTOINCREMENT,
        bot_id INTEGER NOT NULL,
        chat_id TEXT NOT NULL,
        chat_name TEXT,
        enabled INTEGER DEFAULT 1,
        last_fetch_time TEXT,
        polling_interval_secs INTEGER DEFAULT 60,
        created_at TEXT,
        FOREIGN KEY (bot_id) REFERENCES agent_bots(id) ON DELETE CASCADE,
        UNIQUE(bot_id, chat_id)
    )",
        "CREATE TABLE IF NOT EXISTS feishu_push_targets (
        id INTEGER PRIMARY KEY AUTOINCREMENT,
        bot_id INTEGER NOT NULL,
        p2p_receive_id TEXT NOT NULL DEFAULT '',
        group_chat_id TEXT NOT NULL DEFAULT '',
        receive_id_type TEXT NOT NULL DEFAULT 'open_id',
        push_level TEXT DEFAULT 'result_only',
        p2p_response_enabled INTEGER DEFAULT 1,
        group_response_enabled INTEGER DEFAULT 1,
        created_at TEXT,
        updated_at TEXT,
        FOREIGN KEY (bot_id) REFERENCES agent_bots(id) ON DELETE CASCADE
    )",
        "CREATE TABLE IF NOT EXISTS feishu_response_config (
        id INTEGER PRIMARY KEY AUTOINCREMENT,
        bot_id INTEGER NOT NULL,
        target_type TEXT NOT NULL,
        enabled INTEGER NOT NULL DEFAULT 1,
        debounce_secs INTEGER DEFAULT 20,
        created_at TEXT,
        updated_at TEXT,
        FOREIGN KEY (bot_id) REFERENCES agent_bots(id) ON DELETE CASCADE,
        UNIQUE(bot_id, target_type)
    )",
        "CREATE TABLE IF NOT EXISTS feishu_group_whitelist (
        id INTEGER PRIMARY KEY AUTOINCREMENT,
        bot_id INTEGER NOT NULL,
        sender_open_id TEXT NOT NULL,
        sender_name TEXT,
        created_at TEXT,
        FOREIGN KEY (bot_id) REFERENCES agent_bots(id) ON DELETE CASCADE,
        UNIQUE(bot_id, sender_open_id)
    )",
        "CREATE TABLE IF NOT EXISTS feishu_project_bindings (
        id INTEGER PRIMARY KEY AUTOINCREMENT,
        bot_id INTEGER NOT NULL,
        chat_id TEXT NOT NULL,
        chat_type TEXT NOT NULL,
        project_dir_id INTEGER NOT NULL,
        todo_id INTEGER NOT NULL,
        session_id TEXT,
        latest_record_id INTEGER,
        status TEXT NOT NULL DEFAULT 'idle',
        created_at TEXT NOT NULL,
        updated_at TEXT NOT NULL
    )",
        "CREATE UNIQUE INDEX IF NOT EXISTS idx_feishu_bindings_active ON feishu_project_bindings(bot_id, chat_id) WHERE chat_id != '__pending__' AND enabled = 1",
        "CREATE INDEX IF NOT EXISTS idx_feishu_bindings_record_id ON feishu_project_bindings(latest_record_id)",
        "CREATE INDEX IF NOT EXISTS idx_feishu_bindings_bot_id ON feishu_project_bindings(bot_id)",
        "CREATE TABLE IF NOT EXISTS executors (
        id INTEGER PRIMARY KEY AUTOINCREMENT,
        name TEXT NOT NULL UNIQUE,
        path TEXT NOT NULL DEFAULT '',
        enabled INTEGER NOT NULL DEFAULT 1,
        display_name TEXT NOT NULL DEFAULT '',
        session_dir TEXT NOT NULL DEFAULT '',
        created_at TEXT,
        updated_at TEXT
    )",
        "CREATE INDEX IF NOT EXISTS idx_executors_name ON executors(name)",
        "CREATE TABLE IF NOT EXISTS project_directories (
        id INTEGER PRIMARY KEY AUTOINCREMENT,
        path TEXT NOT NULL UNIQUE,
        name TEXT,
        created_at TEXT,
        updated_at TEXT
    )",
        "CREATE INDEX IF NOT EXISTS idx_project_directories_path ON project_directories(path)",
        "CREATE TRIGGER IF NOT EXISTS set_project_directories_created_at_utc AFTER INSERT ON project_directories
     WHEN new.created_at IS NULL OR new.created_at = ''
     BEGIN
         UPDATE project_directories SET created_at = strftime('%Y-%m-%dT%H:%M:%SZ', 'now', 'utc') WHERE rowid = new.rowid;
     END",
        "CREATE TABLE IF NOT EXISTS todo_templates (
        id INTEGER PRIMARY KEY AUTOINCREMENT,
        title TEXT NOT NULL,
        prompt TEXT,
        category TEXT NOT NULL DEFAULT '',
        sort_order INTEGER,
        is_system INTEGER NOT NULL DEFAULT 0,
        created_at TEXT,
        updated_at TEXT
    )",
        "CREATE TRIGGER IF NOT EXISTS set_todo_templates_created_at_utc AFTER INSERT ON todo_templates
     WHEN new.created_at IS NULL OR new.created_at = ''
     BEGIN
         UPDATE todo_templates SET created_at = strftime('%Y-%m-%dT%H:%M:%SZ', 'now', 'utc') WHERE rowid = new.rowid;
     END",
        "CREATE TRIGGER IF NOT EXISTS set_project_directories_updated_at_utc BEFORE UPDATE ON project_directories
     WHEN new.updated_at IS NULL OR new.updated_at = ''
     BEGIN
         SELECT raise(IGNORE);
     END",
        "CREATE TRIGGER IF NOT EXISTS set_executors_created_at_utc AFTER INSERT ON executors
     WHEN new.created_at IS NULL OR new.created_at = ''
     BEGIN
         UPDATE executors SET created_at = strftime('%Y-%m-%dT%H:%M:%SZ', 'now', 'utc') WHERE rowid = new.rowid;
     END",
        "CREATE TRIGGER IF NOT EXISTS set_executors_updated_at_utc BEFORE UPDATE ON executors
     WHEN new.updated_at IS NULL OR new.updated_at = ''
     BEGIN
         SELECT raise(IGNORE);
     END",
        "CREATE TABLE IF NOT EXISTS webhooks (
        id INTEGER PRIMARY KEY AUTOINCREMENT,
        name TEXT NOT NULL,
        enabled INTEGER NOT NULL DEFAULT 1,
        default_todo_id INTEGER,
        created_at TEXT,
        updated_at TEXT
    )",
        "CREATE TRIGGER IF NOT EXISTS set_webhooks_created_at_utc AFTER INSERT ON webhooks
     WHEN new.created_at IS NULL OR new.created_at = ''
     BEGIN
         UPDATE webhooks SET created_at = strftime('%Y-%m-%dT%H:%M:%SZ', 'now', 'utc') WHERE rowid = new.rowid;
     END",
        "CREATE TRIGGER IF NOT EXISTS set_webhooks_updated_at_utc BEFORE UPDATE ON webhooks
     WHEN new.updated_at IS NULL OR new.updated_at = ''
     BEGIN
         SELECT raise(IGNORE);
     END",
        "CREATE TABLE IF NOT EXISTS webhook_records (
        id INTEGER PRIMARY KEY AUTOINCREMENT,
        webhook_id INTEGER,
        method TEXT NOT NULL,
        path TEXT NOT NULL,
        query_params TEXT,
        body TEXT,
        content_type TEXT,
        triggered_todo_id INTEGER,
        status_code INTEGER,
        response_body TEXT,
        created_at TEXT
    )",
        "CREATE INDEX IF NOT EXISTS idx_webhook_records_webhook_id ON webhook_records(webhook_id)",
        "CREATE INDEX IF NOT EXISTS idx_webhook_records_triggered_todo_id ON webhook_records(triggered_todo_id)",
        "CREATE INDEX IF NOT EXISTS idx_webhook_records_created_at ON webhook_records(created_at)",
        "CREATE TRIGGER IF NOT EXISTS set_webhook_records_created_at_utc AFTER INSERT ON webhook_records
     WHEN new.created_at IS NULL OR new.created_at = ''
     BEGIN
         UPDATE webhook_records SET created_at = strftime('%Y-%m-%dT%H:%M:%SZ', 'now', 'utc') WHERE rowid = new.rowid;
     END",
        "CREATE TABLE IF NOT EXISTS usage_daily_stats (
        id INTEGER PRIMARY KEY AUTOINCREMENT,
        date TEXT NOT NULL,
        project_path TEXT,
        session_id TEXT,
        input_tokens INTEGER NOT NULL DEFAULT 0,
        output_tokens INTEGER NOT NULL DEFAULT 0,
        cache_creation_tokens INTEGER NOT NULL DEFAULT 0,
        cache_read_tokens INTEGER NOT NULL DEFAULT 0,
        extra_total_tokens INTEGER NOT NULL DEFAULT 0,
        total_cost REAL NOT NULL DEFAULT 0.0,
        credits REAL,
        message_count INTEGER,
        models_used TEXT NOT NULL DEFAULT '[]',
        project TEXT,
        versions TEXT,
        last_activity TEXT,
        stats_type TEXT NOT NULL DEFAULT 'daily',
        created_at TEXT
    )",
        "CREATE INDEX IF NOT EXISTS idx_usage_daily_stats_date ON usage_daily_stats(date)",
        "CREATE INDEX IF NOT EXISTS idx_usage_daily_stats_stats_type ON usage_daily_stats(stats_type)",
        "CREATE TABLE IF NOT EXISTS usage_model_breakdowns (
        id INTEGER PRIMARY KEY AUTOINCREMENT,
        daily_stat_id INTEGER NOT NULL,
        model_name TEXT NOT NULL,
        input_tokens INTEGER NOT NULL DEFAULT 0,
        output_tokens INTEGER NOT NULL DEFAULT 0,
        cache_creation_tokens INTEGER NOT NULL DEFAULT 0,
        cache_read_tokens INTEGER NOT NULL DEFAULT 0,
        extra_total_tokens INTEGER NOT NULL DEFAULT 0,
        cost REAL NOT NULL DEFAULT 0.0,
        FOREIGN KEY (daily_stat_id) REFERENCES usage_daily_stats(id) ON DELETE CASCADE
    )",
        "CREATE INDEX IF NOT EXISTS idx_usage_model_breakdowns_daily_stat_id ON usage_model_breakdowns(daily_stat_id)",
        "CREATE TRIGGER IF NOT EXISTS set_usage_daily_stats_created_at_utc AFTER INSERT ON usage_daily_stats
     WHEN new.created_at IS NULL OR new.created_at = ''
     BEGIN
         UPDATE usage_daily_stats SET created_at = strftime('%Y-%m-%dT%H:%M:%SZ', 'now', 'utc') WHERE rowid = new.rowid;
     END",
        "CREATE TABLE IF NOT EXISTS usage_executor_daily_stats (
        id INTEGER PRIMARY KEY AUTOINCREMENT,
        date TEXT NOT NULL,
        executor TEXT NOT NULL,
        input_tokens INTEGER NOT NULL DEFAULT 0,
        output_tokens INTEGER NOT NULL DEFAULT 0,
        cache_creation_tokens INTEGER NOT NULL DEFAULT 0,
        cache_read_tokens INTEGER NOT NULL DEFAULT 0,
        extra_total_tokens INTEGER NOT NULL DEFAULT 0,
        total_cost REAL NOT NULL DEFAULT 0.0,
        credits REAL,
        message_count INTEGER,
        model TEXT,
        execution_count INTEGER NOT NULL DEFAULT 0,
        created_at TEXT,
        UNIQUE(date, executor)
    )",
        "CREATE INDEX IF NOT EXISTS idx_usage_executor_daily_stats_date ON usage_executor_daily_stats(date)",
        "CREATE INDEX IF NOT EXISTS idx_usage_executor_daily_stats_executor ON usage_executor_daily_stats(executor)",
        "CREATE TRIGGER IF NOT EXISTS set_usage_executor_daily_stats_created_at_utc AFTER INSERT ON usage_executor_daily_stats
     WHEN new.created_at IS NULL OR new.created_at = ''
     BEGIN
         UPDATE usage_executor_daily_stats SET created_at = strftime('%Y-%m-%dT%H:%M:%SZ', 'now', 'utc') WHERE rowid = new.rowid;
     END",
        "CREATE TABLE IF NOT EXISTS sync_records (
        id INTEGER PRIMARY KEY AUTOINCREMENT,
        direction TEXT NOT NULL,
        conflict_mode TEXT NOT NULL,
        status TEXT NOT NULL,
        data_type TEXT NOT NULL,
        details TEXT,
        error_message TEXT,
        created_at TEXT
    )",
        "CREATE INDEX IF NOT EXISTS idx_sync_records_created_at ON sync_records(created_at DESC)",
        "ALTER TABLE execution_records ADD COLUMN pid INTEGER",
        "ALTER TABLE execution_records ADD COLUMN task_id TEXT",
        "ALTER TABLE execution_records ADD COLUMN session_id TEXT",
        "ALTER TABLE todos ADD COLUMN workspace TEXT",
        "ALTER TABLE todos ADD COLUMN worktree_enabled INTEGER DEFAULT 0",
        "ALTER TABLE execution_records ADD COLUMN todo_progress TEXT",
        "ALTER TABLE execution_records ADD COLUMN execution_stats TEXT",
        "ALTER TABLE execution_records ADD COLUMN resume_message TEXT",
        "ALTER TABLE execution_records ADD COLUMN source_todo_id INTEGER",
        "ALTER TABLE execution_records ADD COLUMN source_todo_title TEXT",
        "ALTER TABLE execution_records ADD COLUMN source_hook_id INTEGER",
        "ALTER TABLE todos ADD COLUMN scheduler_timezone TEXT",
        "ALTER TABLE todos ADD COLUMN hooks TEXT",
        "ALTER TABLE todos ADD COLUMN acceptance_criteria TEXT",
        "ALTER TABLE execution_records ADD COLUMN rating INTEGER",
        "ALTER TABLE todos ADD COLUMN todo_type INTEGER DEFAULT 0",
        "ALTER TABLE todos ADD COLUMN parent_todo_id INTEGER",
        "ALTER TABLE todos ADD COLUMN auto_review_enabled INTEGER DEFAULT 1",
        "ALTER TABLE execution_records ADD COLUMN source_execution_record_id INTEGER",
        "ALTER TABLE execution_records ADD COLUMN last_review_status TEXT",
        "ALTER TABLE execution_records ADD COLUMN last_reviewed_at TEXT",
        "ALTER TABLE feishu_messages ADD COLUMN IF NOT EXISTS sender_nickname TEXT",
        "ALTER TABLE feishu_messages ADD COLUMN IF NOT EXISTS sender_type TEXT",
        "ALTER TABLE feishu_messages ADD COLUMN IF NOT EXISTS is_history INTEGER DEFAULT 0",
        "ALTER TABLE feishu_messages ADD COLUMN IF NOT EXISTS fetch_time TEXT",
        "ALTER TABLE feishu_messages ADD COLUMN IF NOT EXISTS processed_todo_id INTEGER",
        "ALTER TABLE feishu_messages ADD COLUMN IF NOT EXISTS execution_record_id INTEGER",
        "ALTER TABLE feishu_response_config ADD COLUMN debounce_secs INTEGER DEFAULT 20",
        "ALTER TABLE feishu_project_bindings ADD COLUMN enabled INTEGER NOT NULL DEFAULT 1",
        "ALTER TABLE executors ADD COLUMN session_dir TEXT NOT NULL DEFAULT ''",
        "ALTER TABLE todo_templates ADD COLUMN is_system INTEGER NOT NULL DEFAULT 0",
        "ALTER TABLE todo_templates ADD COLUMN source_url TEXT",
        "ALTER TABLE todo_templates ADD COLUMN last_sync_at TEXT",
        "ALTER TABLE agent_bots ADD COLUMN config TEXT DEFAULT '{}'",
        "CREATE INDEX IF NOT EXISTS idx_todos_parent_todo_id ON todos(parent_todo_id)",
        "CREATE INDEX IF NOT EXISTS idx_todos_todo_type ON todos(todo_type)",
        "CREATE INDEX IF NOT EXISTS idx_execution_records_source_record_id ON execution_records(source_execution_record_id)",
    ]
}

/// DDL of the initial schema: all base tables, indexes, UTC timestamp triggers and the backward-compatible column additions.
fn initial_schema_statements() -> (v: Vec<&'static str>)
    ensures
        v@ == initial_schema_ddl(),
        v.len() == 106,
{
    vec![
        "CREATE TABLE IF NOT EXISTS todos (
        id INTEGER PRIMARY KEY AUTOINCREMENT,
        title TEXT NOT NULL,
        prompt TEXT DEFAULT '',
        status TEXT DEFAULT 'pending',
        created_at TEXT,
        updated_at TEXT,
        deleted_at TEXT,
        executor TEXT DEFAULT 'claudecode',
        scheduler_enabled INTEGER DEFAULT 0,
        scheduler_config TEXT,
        task_id TEXT,
        workspace TEXT
    )",
        "CREATE TABLE IF NOT EXISTS tags (
        id INTEGER PRIMARY KEY AUTOINCREMENT,
        name TEXT NOT NULL UNIQUE,
        color TEXT DEFAULT '#1890ff',
        created_at TEXT
    )",
        "CREATE TABLE IF NOT EXISTS todo_tags (
        todo_id INTEGER,
        tag_id INTEGER,
        PRIMARY KEY (todo_id, tag_id),
        FOREIGN KEY (todo_id) REFERENCES todos(id) ON DELETE CASCADE,
        FOREIGN KEY (tag_id) REFERENCES tags(id) ON DELETE CASCADE
    )",
        "CREATE TABLE IF NOT EXISTS execution_records (
        id INTEGER PRIMARY KEY AUTOINCREMENT,
        todo_id INTEGER,
        status TEXT DEFAULT 'running',
        command TEXT,
        stdout TEXT DEFAULT '',
        stderr TEXT DEFAULT '',
        result TEXT,
        usage TEXT,
        executor TEXT,
        model TEXT,
        started_at TEXT DEFAULT (strftime('%Y-%m-%dT%H:%M:%SZ', 'now')),
        finished_at TEXT,
        trigger_type TEXT DEFAULT 'manual',
        pid INTEGER,
        task_id TEXT,
        session_id TEXT,
        FOREIGN KEY (todo_id) REFERENCES todos(id) ON DELETE CASCADE
    )",
        "CREATE TABLE IF NOT EXISTS execution_logs (
        id INTEGER PRIMARY KEY AUTOINCREMENT,
        record_id INTEGER NOT NULL,
        timestamp TEXT NOT NULL,
        log_type TEXT NOT NULL DEFAULT 'info',
        content TEXT NOT NULL DEFAULT '',
        metadata TEXT DEFAULT '{}',
        FOREIGN KEY (record_id) REFERENCES execution_records(id) ON DELETE CASCADE
    )",
        "CREATE INDEX IF NOT EXISTS idx_execution_logs_record ON execution_logs(record_id)",
        "CREATE TABLE IF NOT EXISTS skill_invocations (
        id INTEGER PRIMARY KEY AUTOINCREMENT,
        skill_name TEXT NOT NULL,
        executor TEXT NOT NULL,
        todo_id INTEGER,
        status TEXT DEFAULT 'invoked',
        duration_ms INTEGER,
        invoked_at TEXT DEFAULT (strftime('%Y-%m-%dT%H:%M:%SZ', 'now', 'utc')),
        FOREIGN KEY (todo_id) REFERENCES todos(id) ON DELETE CASCADE
    )",
        "CREATE INDEX IF NOT EXISTS idx_todos_deleted_at ON todos(deleted_at)",
        "CREATE INDEX IF NOT EXISTS idx_todos_status ON todos(status)",
        "CREATE INDEX IF NOT EXISTS idx_todos_task_id ON todos(task_id)",
        "CREATE INDEX IF NOT EXISTS idx_execution_records_todo_id ON execution_records(todo_id)",
        "CREATE INDEX IF NOT EXISTS idx_execution_records_task_id ON execution_records(task_id)",
        "CREATE INDEX IF NOT EXISTS idx_execution_records_pid ON execution_records(pid)",
        "CREATE INDEX IF NOT EXISTS idx_execution_records_session_id ON execution_records(session_id)",
        "CREATE INDEX IF NOT EXISTS idx_execution_records_status ON execution_records(status)",
        "CREATE INDEX IF NOT EXISTS idx_todo_tags_todo_id ON todo_tags(todo_id)",
        "CREATE INDEX IF NOT EXISTS idx_skill_invocations_skill_name ON skill_invocations(skill_name)",
        "CREATE INDEX IF NOT EXISTS idx_skill_invocations_executor ON skill_invocations(executor)",
        "CREATE INDEX IF NOT EXISTS idx_skill_invocations_todo_id ON skill_invocations(todo_id)",
        "CREATE INDEX IF NOT EXISTS idx_execution_records_started_at ON execution_records(started_at)",
        "CREATE INDEX IF NOT EXISTS idx_execution_records_executor ON execution_records(executor)",
        "CREATE INDEX IF NOT EXISTS idx_execution_records_model ON execution_records(model)",
        "CREATE INDEX IF NOT EXISTS idx_execution_records_todo_finished ON execution_records(todo_id, finished_at DESC)",
        "CREATE TRIGGER IF NOT EXISTS set_todos_created_at_utc AFTER INSERT ON todos
     WHEN new.created_at IS NULL OR new.created_at = ''
     BEGIN
         UPDATE todos SET created_at = strftime('%Y-%m-%dT%H:%M:%SZ', 'now', 'utc') WHERE rowid = new.rowid;
     END",
        "CREATE TRIGGER IF NOT EXISTS set_todos_updated_at_utc BEFORE UPDATE OF updated_at ON todos
     WHEN new.updated_at IS NULL OR new.updated_at = ''
     BEGIN
         UPDATE todos SET updated_at = strftime('%Y-%m-%dT%H:%M:%SZ', 'now', 'utc') WHERE rowid = new.rowid;
     END",
        "CREATE TRIGGER IF NOT EXISTS set_tags_created_at_utc AFTER INSERT ON tags
     WHEN new.created_at IS NULL OR new.created_at = ''
     BEGIN
         UPDATE tags SET created_at = strftime('%Y-%m-%dT%H:%M:%SZ', 'now', 'utc') WHERE rowid = new.rowid;
     END",
        "CREATE TABLE IF NOT EXISTS agent_bots (
        id INTEGER PRIMARY KEY AUTOINCREMENT,
        bot_type TEXT NOT NULL,
        bot_name TEXT NOT NULL,
        app_id TEXT NOT NULL,
        app_secret TEXT NOT NULL,
        bot_open_id TEXT,
        domain TEXT,
        enabled INTEGER DEFAULT 1,
        config TEXT DEFAULT '{}',
        created_at TEXT,
        updated_at TEXT
    )",
        "CREATE TABLE IF NOT EXISTS feishu_homes (
        id INTEGER PRIMARY KEY AUTOINCREMENT,
        bot_id INTEGER NOT NULL,
        user_open_id TEXT NOT NULL,
        chat_id TEXT,
        receive_id TEXT NOT NULL,
        receive_id_type TEXT NOT NULL,
        created_at TEXT,
        updated_at TEXT,
        FOREIGN KEY (bot_id) REFERENCES agent_bots(id) ON DELETE CASCADE,
        UNIQUE(bot_id, user_open_id)
    )",
        "CREATE TABLE IF NOT EXISTS feishu_messages (
        id INTEGER PRIMARY KEY AUTOINCREMENT,
        bot_id INTEGER NOT NULL,
        message_id TEXT NOT NULL UNIQUE,
        chat_id TEXT NOT NULL,
        chat_type TEXT NOT NULL,
        sender_open_id TEXT NOT NULL,
        sender_nickname TEXT,
        sender_type TEXT,
        content TEXT,
        msg_type TEXT NOT NULL DEFAULT 'text',
        is_mention INTEGER DEFAULT 0,
        processed INTEGER DEFAULT 0,
        is_history INTEGER DEFAULT 0,
        fetch_time TEXT,
        created_at TEXT,
        FOREIGN KEY (bot_id) REFERENCES agent_bots(id) ON DELETE CASCADE
    )",
        "CREATE INDEX IF NOT EXISTS idx_feishu_messages_chat_id ON feishu_messages(chat_id)",
        "CREATE INDEX IF NOT EXISTS idx_feishu_messages_created_at ON feishu_messages(created_at)",
        "CREATE TABLE IF NOT EXISTS feishu_history_chats (
        id INTEGER PRIMARY KEY AUTOINCREMENT,
        bot_id INTEGER NOT NULL,
        chat_id TEXT NOT NULL,
        chat_name TEXT,
        enabled INTEGER DEFAULT 1,
        last_fetch_time TEXT,
        polling_interval_secs INTEGER DEFAULT 60,
        created_at TEXT,
        FOREIGN KEY (bot_id) REFERENCES agent_bots(id) ON DELETE CASCADE,
        UNIQUE(bot_id, chat_id)
    )",
        "CREATE TABLE IF NOT EXISTS feishu_push_targets (
        id INTEGER PRIMARY KEY AUTOINCREMENT,
        bot_id INTEGER NOT NULL,
        p2p_receive_id TEXT NOT NULL DEFAULT '',
        group_chat_id TEXT NOT NULL DEFAULT '',
        receive_id_type TEXT NOT NULL DEFAULT 'open_id',
        push_level TEXT DEFAULT 'result_only',
        p2p_response_enabled INTEGER DEFAULT 1,
        group_response_enabled INTEGER DEFAULT 1,
        created_at TEXT,
        updated_at TEXT,
        FOREIGN KEY (bot_id) REFERENCES agent_bots(id) ON DELETE CASCADE
    )",
        "CREATE TABLE IF NOT EXISTS feishu_response_config (
        id INTEGER PRIMARY KEY AUTOINCREMENT,
        bot_id INTEGER NOT NULL,
        target_type TEXT NOT NULL,
        enabled INTEGER NOT NULL DEFAULT 1,
        debounce_secs INTEGER DEFAULT 20,
        created_at TEXT,
        updated_at TEXT,
        FOREIGN KEY (bot_id) REFERENCES agent_bots(id) ON DELETE CASCADE,
        UNIQUE(bot_id, target_type)
    )",
        "CREATE TABLE IF NOT EXISTS feishu_group_whitelist (
        id INTEGER PRIMARY KEY AUTOINCREMENT,
        bot_id INTEGER NOT NULL,
        sender_open_id TEXT NOT NULL,
        sender_name TEXT,
        created_at TEXT,
        FOREIGN KEY (bot_id) REFERENCES agent_bots(id) ON DELETE CASCADE,
        UNIQUE(bot_id, sender_open_id)
    )",
        "CREATE TABLE IF NOT EXISTS feishu_project_bindings (
        id INTEGER PRIMARY KEY AUTOINCREMENT,
        bot_id INTEGER NOT NULL,
        chat_id TEXT NOT NULL,
        chat_type TEXT NOT NULL,
        project_dir_id INTEGER NOT NULL,
        todo_id INTEGER NOT NULL,
        session_id TEXT,
        latest_record_id INTEGER,
        status TEXT NOT NULL DEFAULT 'idle',
        created_at TEXT NOT NULL,
        updated_at TEXT NOT NULL
    )",
        "CREATE UNIQUE INDEX IF NOT EXISTS idx_feishu_bindings_active ON feishu_project_bindings(bot_id, chat_id) WHERE chat_id != '__pending__' AND enabled = 1",
        "CREATE INDEX IF NOT EXISTS idx_feishu_bindings_record_id ON feishu_project_bindings(latest_record_id)",
        "CREATE INDEX IF NOT EXISTS idx_feishu_bindings_bot_id ON feishu_project_bindings(bot_id)",
        "CREATE TABLE IF NOT EXISTS executors (
        id INTEGER PRIMARY KEY AUTOINCREMENT,
        name TEXT NOT NULL UNIQUE,
        path TEXT NOT NULL DEFAULT '',
        enabled INTEGER NOT NULL DEFAULT 1,
        display_name TEXT NOT NULL DEFAULT '',
        session_dir TEXT NOT NULL DEFAULT '',
        created_at TEXT,
        updated_at TEXT
    )",
        "CREATE INDEX IF NOT EXISTS idx_executors_name ON executors(name)",
        "CREATE TABLE IF NOT EXISTS project_directories (
        id INTEGER PRIMARY KEY AUTOINCREMENT,
        path TEXT NOT NULL UNIQUE,
        name TEXT,
        created_at TEXT,
        updated_at TEXT
    )",
        "CREATE INDEX IF NOT EXISTS idx_project_directories_path ON project_directories(path)",
        "CREATE TRIGGER IF NOT EXISTS set_project_directories_created_at_utc AFTER INSERT ON project_directories
     WHEN new.created_at IS NULL OR new.created_at = ''
     BEGIN
         UPDATE project_directories SET created_at = strftime('%Y-%m-%dT%H:%M:%SZ', 'now', 'utc') WHERE rowid = new.rowid;
     END",
        "CREATE TABLE IF NOT EXISTS todo_templates (
        id INTEGER PRIMARY KEY AUTOINCREMENT,
        title TEXT NOT NULL,
        prompt TEXT,
        category TEXT NOT NULL DEFAULT '',
        sort_order INTEGER,
        is_system INTEGER NOT NULL DEFAULT 0,
        created_at TEXT,
        updated_at TEXT
    )",
        "CREATE TRIGGER IF NOT EXISTS set_todo_templates_created_at_utc AFTER INSERT ON todo_templates
     WHEN new.created_at IS NULL OR new.created_at = ''
     BEGIN
         UPDATE todo_templates SET created_at = strftime('%Y-%m-%dT%H:%M:%SZ', 'now', 'utc') WHERE rowid = new.rowid;
     END",
        "CREATE TRIGGER IF NOT EXISTS set_project_directories_updated_at_utc BEFORE UPDATE ON project_directories
     WHEN new.updated_at IS NULL OR new.updated_at = ''
     BEGIN
         SELECT raise(IGNORE);
     END",
        "CREATE TRIGGER IF NOT EXISTS set_executors_created_at_utc AFTER INSERT ON executors
     WHEN new.created_at IS NULL OR new.created_at = ''
     BEGIN
         UPDATE executors SET created_at = strftime('%Y-%m-%dT%H:%M:%SZ', 'now', 'utc') WHERE rowid = new.rowid;
     END",
        "CREATE TRIGGER IF NOT EXISTS set_executors_updated_at_utc BEFORE UPDATE ON executors
     WHEN new.updated_at IS NULL OR new.updated_at = ''
     BEGIN
         SELECT raise(IGNORE);
     END",
        "CREATE TABLE IF NOT EXISTS webhooks (
        id INTEGER PRIMARY KEY AUTOINCREMENT,
        name TEXT NOT NULL,
        enabled INTEGER NOT NULL DEFAULT 1,
        default_todo_id INTEGER,
        created_at TEXT,
        updated_at TEXT
    )",
        "CREATE TRIGGER IF NOT EXISTS set_webhooks_created_at_utc AFTER INSERT ON webhooks
     WHEN new.created_at IS NULL OR new.created_at = ''
     BEGIN
         UPDATE webhooks SET created_at = strftime('%Y-%m-%dT%H:%M:%SZ', 'now', 'utc') WHERE rowid = new.rowid;
     END",
        "CREATE TRIGGER IF NOT EXISTS set_webhooks_updated_at_utc BEFORE UPDATE ON webhooks
     WHEN new.updated_at IS NULL OR new.updated_at = ''
     BEGIN
         SELECT raise(IGNORE);
     END",
        "CREATE TABLE IF NOT EXISTS webhook_records (
        id INTEGER PRIMARY KEY AUTOINCREMENT,
        webhook_id INTEGER,
        method TEXT NOT NULL,
        path TEXT NOT NULL,
        query_params TEXT,
        body TEXT,
        content_type TEXT,
        triggered_todo_id INTEGER,
        status_code INTEGER,
        response_body TEXT,
        created_at TEXT
    )",
        "CREATE INDEX IF NOT EXISTS idx_webhook_records_webhook_id ON webhook_records(webhook_id)",
        "CREATE INDEX IF NOT EXISTS idx_webhook_records_triggered_todo_id ON webhook_records(triggered_todo_id)",
        "CREATE INDEX IF NOT EXISTS idx_webhook_records_created_at ON webhook_records(created_at)",
        "CREATE TRIGGER IF NOT EXISTS set_webhook_records_created_at_utc AFTER INSERT ON webhook_records
     WHEN new.created_at IS NULL OR new.created_at = ''
     BEGIN
         UPDATE webhook_records SET created_at = strftime('%Y-%m-%dT%H:%M:%SZ', 'now', 'utc') WHERE rowid = new.rowid;
     END",
        "CREATE TABLE IF NOT EXISTS usage_daily_stats (
        id INTEGER PRIMARY KEY AUTOINCREMENT,
        date TEXT NOT NULL,
        project_path TEXT,
        session_id TEXT,
        input_tokens INTEGER NOT NULL DEFAULT 0,
        output_tokens INTEGER NOT NULL DEFAULT 0,
        cache_creation_tokens INTEGER NOT NULL DEFAULT 0,
        cache_read_tokens INTEGER NOT NULL DEFAULT 0,
        extra_total_tokens INTEGER NOT NULL DEFAULT 0,
        total_cost REAL NOT NULL DEFAULT 0.0,
        credits REAL,
        message_count INTEGER,
        models_used TEXT NOT NULL DEFAULT '[]',
        project TEXT,
        versions TEXT,
        last_activity TEXT,
        stats_type TEXT NOT NULL DEFAULT 'daily',
        created_at TEXT
    )",
        "CREATE INDEX IF NOT EXISTS idx_usage_daily_stats_date ON usage_daily_stats(date)",
        "CREATE INDEX IF NOT EXISTS idx_usage_daily_stats_stats_type ON usage_daily_stats(stats_type)",
        "CREATE TABLE IF NOT EXISTS usage_model_breakdowns (
        id INTEGER PRIMARY KEY AUTOINCREMENT,
        daily_stat_id INTEGER NOT NULL,
        model_name TEXT NOT NULL,
        input_tokens INTEGER NOT NULL DEFAULT 0,
        output_tokens INTEGER NOT NULL DEFAULT 0,
        cache_creation_tokens INTEGER NOT NULL DEFAULT 0,
        cache_read_tokens INTEGER NOT NULL DEFAULT 0,
        extra_total_tokens INTEGER NOT NULL DEFAULT 0,
        cost REAL NOT NULL DEFAULT 0.0,
        FOREIGN KEY (daily_stat_id) REFERENCES usage_daily_stats(id) ON DELETE CASCADE
    )",
        "CREATE INDEX IF NOT EXISTS idx_usage_model_breakdowns_daily_stat_id ON usage_model_breakdowns(daily_stat_id)",
        "CREATE TRIGGER IF NOT EXISTS set_usage_daily_stats_created_at_utc AFTER INSERT ON usage_daily_stats
     WHEN new.created_at IS NULL OR new.created_at = ''
     BEGIN
         UPDATE usage_daily_stats SET created_at = strftime('%Y-%m-%dT%H:%M:%SZ', 'now', 'utc') WHERE rowid = new.rowid;
     END",
        "CREATE TABLE IF NOT EXISTS usage_executor_daily_stats (
        id INTEGER PRIMARY KEY AUTOINCREMENT,
        date TEXT NOT NULL,
        executor TEXT NOT NULL,
        input_tokens INTEGER NOT NULL DEFAULT 0,
        output_tokens INTEGER NOT NULL DEFAULT 0,
        cache_creation_tokens INTEGER NOT NULL DEFAULT 0,
        cache_read_tokens INTEGER NOT NULL DEFAULT 0,
        extra_total_tokens INTEGER NOT NULL DEFAULT 0,
        total_cost REAL NOT NULL DEFAULT 0.0,
        credits REAL,
        message_count INTEGER,
        model TEXT,
        execution_count INTEGER NOT NULL DEFAULT 0,
        created_at TEXT,
        UNIQUE(date, executor)
    )",
        "CREATE INDEX IF NOT EXISTS idx_usage_executor_daily_stats_date ON usage_executor_daily_stats(date)",
        "CREATE INDEX IF NOT EXISTS idx_usage_executor_daily_stats_executor ON usage_executor_daily_stats(executor)",
        "CREATE TRIGGER IF NOT EXISTS set_usage_executor_daily_stats_created_at_utc AFTER INSERT ON usage_executor_daily_stats
     WHEN new.created_at IS NULL OR new.created_at = ''
     BEGIN
         UPDATE usage_executor_daily_stats SET created_at = strftime('%Y-%m-%dT%H:%M:%SZ', 'now', 'utc') WHERE rowid = new.rowid;
     END",
        "CREATE TABLE IF NOT EXISTS sync_records (
        id INTEGER PRIMARY KEY AUTOINCREMENT,
        direction TEXT NOT NULL,
        conflict_mode TEXT NOT NULL,
        status TEXT NOT NULL,
        data_type TEXT NOT NULL,
        details TEXT,
        error_message TEXT,
        created_at TEXT
    )",
        "CREATE INDEX IF NOT EXISTS idx_sync_records_created_at ON sync_records(created_at DESC)",
        "ALTER TABLE execution_records ADD COLUMN pid INTEGER",
        "ALTER TABLE execution_records ADD COLUMN task_id TEXT",
        "ALTER TABLE execution_records ADD COLUMN session_id TEXT",
        "ALTER TABLE todos ADD COLUMN workspace TEXT",
        "ALTER TABLE todos ADD COLUMN worktree_enabled INTEGER DEFAULT 0",
        "ALTER TABLE execution_records ADD COLUMN todo_progress TEXT",
        "ALTER TABLE execution_records ADD COLUMN execution_stats TEXT",
        "ALTER TABLE execution_records ADD COLUMN resume_message TEXT",
        "ALTER TABLE execution_records ADD COLUMN source_todo_id INTEGER",
        "ALTER TABLE execution_records ADD COLUMN source_todo_title TEXT",
        "ALTER TABLE execution_records ADD COLUMN source_hook_id INTEGER",
        "ALTER TABLE todos ADD COLUMN scheduler_timezone TEXT",
        "ALTER TABLE todos ADD COLUMN hooks TEXT",
        "ALTER TABLE todos ADD COLUMN acceptance_criteria TEXT",
        "ALTER TABLE execution_records ADD COLUMN rating INTEGER",
        "ALTER TABLE todos ADD COLUMN todo_type INTEGER DEFAULT 0",
        "ALTER TABLE todos ADD COLUMN parent_todo_id INTEGER",
        "ALTER TABLE todos ADD COLUMN auto_review_enabled INTEGER DEFAULT 1",
        "ALTER TABLE execution_records ADD COLUMN source_execution_record_id INTEGER",
        "ALTER TABLE execution_records ADD COLUMN last_review_status TEXT",
        "ALTER TABLE execution_records ADD COLUMN last_reviewed_at TEXT",
        "ALTER TABLE feishu_messages ADD COLUMN IF NOT EXISTS sender_nickname TEXT",
        "ALTER TABLE feishu_messages ADD COLUMN IF NOT EXISTS sender_type TEXT",
        "ALTER TABLE feishu_messages ADD COLUMN IF NOT EXISTS is_history INTEGER DEFAULT 0",
        "ALTER TABLE feishu_messages ADD COLUMN IF NOT EXISTS fetch_time TEXT",
        "ALTER TABLE feishu_messages ADD COLUMN IF NOT EXISTS processed_todo_id INTEGER",
        "ALTER TABLE feishu_messages ADD COLUMN IF NOT EXISTS execution_record_id INTEGER",
        "ALTER TABLE feishu_response_config ADD COLUMN debounce_secs INTEGER DEFAULT 20",
        "ALTER TABLE feishu_project_bindings ADD COLUMN enabled INTEGER NOT NULL DEFAULT 1",
        "ALTER TABLE executors ADD COLUMN session_dir TEXT NOT NULL DEFAULT ''",
        "ALTER TABLE todo_templates ADD COLUMN is_system INTEGER NOT NULL DEFAULT 0",
        "ALTER TABLE todo_templates ADD COLUMN source_url TEXT",
        "ALTER TABLE todo_templates ADD COLUMN last_sync_at TEXT",
        "ALTER TABLE agent_bots ADD COLUMN config TEXT DEFAULT '{}'",
        "CREATE INDEX IF NOT EXISTS idx_todos_parent_todo_id ON todos(parent_todo_id)",
        "CREATE INDEX IF NOT EXISTS idx_todos_todo_type ON todos(todo_type)",
        "CREATE INDEX IF NOT EXISTS idx_execution_records_source_record_id ON execution_records(source_execution_record_id)",
    ]
}
/// The statements of the Loop Studio migration, in order.
pub open spec fn loop_studio_ddl() -> Seq<&'static str> {
    seq![
        "CREATE TABLE IF NOT EXISTS loops (
        id INTEGER PRIMARY KEY AUTOINCREMENT,
        name TEXT NOT NULL,
        description TEXT DEFAULT '',
        product TEXT DEFAULT '',
        repo TEXT DEFAULT '',
        branch TEXT DEFAULT '',
        status TEXT NOT NULL DEFAULT 'draft',
        color TEXT DEFAULT '#722ed1',
        icon TEXT DEFAULT 'loop',
        created_at TEXT,
        updated_at TEXT
    )",
        "CREATE INDEX IF NOT EXISTS idx_loops_status ON loops(status)",
        "CREATE INDEX IF NOT EXISTS idx_loops_updated_at ON loops(updated_at DESC)",
        "CREATE TRIGGER IF NOT EXISTS set_loops_created_at_utc AFTER INSERT ON loops
     WHEN new.created_at IS NULL OR new.created_at = ''
     BEGIN
         UPDATE loops SET created_at = strftime('%Y-%m-%dT%H:%M:%SZ', 'now', 'utc') WHERE rowid = new.rowid;
     END",
        "CREATE TRIGGER IF NOT EXISTS set_loops_updated_at_utc BEFORE UPDATE ON loops
     WHEN new.updated_at IS NULL OR new.updated_at = ''
     BEGIN
         UPDATE loops SET updated_at = strftime('%Y-%m-%dT%H:%M:%SZ', 'now', 'utc') WHERE rowid = new.rowid;
     END",
        "CREATE TABLE IF NOT EXISTS loop_triggers (
        id INTEGER PRIMARY KEY AUTOINCREMENT,
        loop_id INTEGER NOT NULL,
        trigger_type TEXT NOT NULL,
        config TEXT DEFAULT '{}',
        enabled INTEGER NOT NULL DEFAULT 1,
        priority INTEGER NOT NULL DEFAULT 0,
        created_at TEXT,
        FOREIGN KEY (loop_id) REFERENCES loops(id) ON DELETE CASCADE
    )",
        "CREATE INDEX IF NOT EXISTS idx_loop_triggers_loop_id ON loop_triggers(loop_id)",
        "CREATE INDEX IF NOT EXISTS idx_loop_triggers_type_enabled ON loop_triggers(trigger_type, enabled)",
        "CREATE TRIGGER IF NOT EXISTS set_loop_triggers_created_at_utc AFTER INSERT ON loop_triggers
     WHEN new.created_at IS NULL OR new.created_at = ''
     BEGIN
         UPDATE loop_triggers SET created_at = strftime('%Y-%m-%dT%H:%M:%SZ', 'now', 'utc') WHERE rowid = new.rowid;
     END",
        "CREATE TABLE IF NOT EXISTS loop_stages (
        id INTEGER PRIMARY KEY AUTOINCREMENT,
        loop_id INTEGER NOT NULL,
        name TEXT NOT NULL,
        description TEXT DEFAULT '',
        order_index INTEGER NOT NULL DEFAULT 0,
        todo_id INTEGER NOT NULL,
        run_mode TEXT NOT NULL DEFAULT 'sequential',
        skip_on_source_failed INTEGER NOT NULL DEFAULT 0,
        min_rating INTEGER,
        unrated_policy TEXT NOT NULL DEFAULT 'skip',
        enabled INTEGER NOT NULL DEFAULT 1,
        created_at TEXT,
        FOREIGN KEY (loop_id) REFERENCES loops(id) ON DELETE CASCADE,
        FOREIGN KEY (todo_id) REFERENCES todos(id) ON DELETE RESTRICT
    )",
        "CREATE INDEX IF NOT EXISTS idx_loop_stages_loop_id ON loop_stages(loop_id)",
        "CREATE INDEX IF NOT EXISTS idx_loop_stages_loop_order ON loop_stages(loop_id, order_index)",
        "CREATE TRIGGER IF NOT EXISTS set_loop_stages_created_at_utc AFTER INSERT ON loop_stages
     WHEN new.created_at IS NULL OR new.created_at = ''
     BEGIN
         UPDATE loop_stages SET created_at = strftime('%Y-%m-%dT%H:%M:%SZ', 'now', 'utc') WHERE rowid = new.rowid;
     END",
        "CREATE TABLE IF NOT EXISTS loop_executions (
        id INTEGER PRIMARY KEY AUTOINCREMENT,
        loop_id INTEGER NOT NULL,
        trigger_id INTEGER,
        trigger_type TEXT NOT NULL,
        trigger_meta TEXT DEFAULT '{}',
        started_at TEXT NOT NULL,
        finished_at TEXT,
        status TEXT NOT NULL DEFAULT 'running',
        total_stages INTEGER NOT NULL DEFAULT 0,
        completed_stages INTEGER NOT NULL DEFAULT 0,
        failed_stages INTEGER NOT NULL DEFAULT 0,
        FOREIGN KEY (loop_id) REFERENCES loops(id) ON DELETE CASCADE,
        FOREIGN KEY (trigger_id) REFERENCES loop_triggers(id) ON DELETE SET NULL
    )",
        "CREATE INDEX IF NOT EXISTS idx_loop_executions_loop_id ON loop_executions(loop_id)",
        "CREATE INDEX IF NOT EXISTS idx_loop_executions_started_at ON loop_executions(started_at DESC)",
        "CREATE INDEX IF NOT EXISTS idx_loop_executions_status ON loop_executions(status)",
        "CREATE TABLE IF NOT EXISTS loop_stage_executions (
        id INTEGER PRIMARY KEY AUTOINCREMENT,
        loop_execution_id INTEGER NOT NULL,
        stage_id INTEGER NOT NULL,
        todo_id INTEGER NOT NULL,
        execution_record_id INTEGER,
        status TEXT NOT NULL DEFAULT 'pending',
        started_at TEXT,
        finished_at TEXT,
        error_message TEXT,
        FOREIGN KEY (loop_execution_id) REFERENCES loop_executions(id) ON DELETE CASCADE,
        FOREIGN KEY (stage_id) REFERENCES loop_stages(id) ON DELETE CASCADE,
        FOREIGN KEY (execution_record_id) REFERENCES execution_records(id) ON DELETE SET NULL
    )",
        "CREATE INDEX IF NOT EXISTS idx_loop_stage_executions_loop_exec ON loop_stage_executions(loop_execution_id)",
        "CREATE INDEX IF NOT EXISTS idx_loop_stage_executions_record ON loop_stage_executions(execution_record_id)",
    ]
}

/// DDL of the loop orchestration layer: loops, triggers, stages, executions and their indexes and triggers.
fn loop_studio_statements() -> (v: Vec<&'static str>)
    ensures
        v@ == loop_studio_ddl(),
        v.len() == 20,
{
    vec![
        "CREATE TABLE IF NOT EXISTS loops (
        id INTEGER PRIMARY KEY AUTOINCREMENT,
        name TEXT NOT NULL,
        description TEXT DEFAULT '',
        product TEXT DEFAULT '',
        repo TEXT DEFAULT '',
        branch TEXT DEFAULT '',
        status TEXT NOT NULL DEFAULT 'draft',
        color TEXT DEFAULT '#722ed1',
        icon TEXT DEFAULT 'loop',
        created_at TEXT,
        updated_at TEXT
    )",
        "CREATE INDEX IF NOT EXISTS idx_loops_status ON loops(status)",
        "CREATE INDEX IF NOT EXISTS idx_loops_updated_at ON loops(updated_at DESC)",
        "CREATE TRIGGER IF NOT EXISTS set_loops_created_at_utc AFTER INSERT ON loops
     WHEN new.created_at IS NULL OR new.created_at = ''
     BEGIN
         UPDATE loops SET created_at = strftime('%Y-%m-%dT%H:%M:%SZ', 'now', 'utc') WHERE rowid = new.rowid;
     END",
        "CREATE TRIGGER IF NOT EXISTS set_loops_updated_at_utc BEFORE UPDATE ON loops
     WHEN new.updated_at IS NULL OR new.updated_at = ''
     BEGIN
         UPDATE loops SET updated_at = strftime('%Y-%m-%dT%H:%M:%SZ', 'now', 'utc') WHERE rowid = new.rowid;
     END",
        "CREATE TABLE IF NOT EXISTS loop_triggers (
        id INTEGER PRIMARY KEY AUTOINCREMENT,
        loop_id INTEGER NOT NULL,
        trigger_type TEXT NOT NULL,
        config TEXT DEFAULT '{}',
        enabled INTEGER NOT NULL DEFAULT 1,
        priority INTEGER NOT NULL DEFAULT 0,
        created_at TEXT,
        FOREIGN KEY (loop_id) REFERENCES loops(id) ON DELETE CASCADE
    )",
        "CREATE INDEX IF NOT EXISTS idx_loop_triggers_loop_id ON loop_triggers(loop_id)",
        "CREATE INDEX IF NOT EXISTS idx_loop_triggers_type_enabled ON loop_triggers(trigger_type, enabled)",
        "CREATE TRIGGER IF NOT EXISTS set_loop_triggers_created_at_utc AFTER INSERT ON loop_triggers
     WHEN new.created_at IS NULL OR new.created_at = ''
     BEGIN
         UPDATE loop_triggers SET created_at = strftime('%Y-%m-%dT%H:%M:%SZ', 'now', 'utc') WHERE rowid = new.rowid;
     END",
        "CREATE TABLE IF NOT EXISTS loop_stages (
        id INTEGER PRIMARY KEY AUTOINCREMENT,
        loop_id INTEGER NOT NULL,
        name TEXT NOT NULL,
        description TEXT DEFAULT '',
        order_index INTEGER NOT NULL DEFAULT 0,
        todo_id INTEGER NOT NULL,
        run_mode TEXT NOT NULL DEFAULT 'sequential',
        skip_on_source_failed INTEGER NOT NULL DEFAULT 0,
        min_rating INTEGER,
        unrated_policy TEXT NOT NULL DEFAULT 'skip',
        enabled INTEGER NOT NULL DEFAULT 1,
        created_at TEXT,
        FOREIGN KEY (loop_id) REFERENCES loops(id) ON DELETE CASCADE,
        FOREIGN KEY (todo_id) REFERENCES todos(id) ON DELETE RESTRICT
    )",
        "CREATE INDEX IF NOT EXISTS idx_loop_stages_loop_id ON loop_stages(loop_id)",
        "CREATE INDEX IF NOT EXISTS idx_loop_stages_loop_order ON loop_stages(loop_id, order_index)",
        "CREATE TRIGGER IF NOT EXISTS set_loop_stages_created_at_utc AFTER INSERT ON loop_stages
     WHEN new.created_at IS NULL OR new.created_at = ''
     BEGIN
         UPDATE loop_stages SET created_at = strftime('%Y-%m-%dT%H:%M:%SZ', 'now', 'utc') WHERE rowid = new.rowid;
     END",
        "CREATE TABLE IF NOT EXISTS loop_executions (
        id INTEGER PRIMARY KEY AUTOINCREMENT,
        loop_id INTEGER NOT NULL,
        trigger_id INTEGER,
        trigger_type TEXT NOT NULL,
        trigger_meta TEXT DEFAULT '{}',
        started_at TEXT NOT NULL,
        finished_at TEXT,
        status TEXT NOT NULL DEFAULT 'running',
        total_stages INTEGER NOT NULL DEFAULT 0,
        completed_stages INTEGER NOT NULL DEFAULT 0,
        failed_stages INTEGER NOT NULL DEFAULT 0,
        FOREIGN KEY (loop_id) REFERENCES loops(id) ON DELETE CASCADE,
        FOREIGN KEY (trigger_id) REFERENCES loop_triggers(id) ON DELETE SET NULL
    )",
        "CREATE INDEX IF NOT EXISTS idx_loop_executions_loop_id ON loop_executions(loop_id)",
        "CREATE INDEX IF NOT EXISTS idx_loop_executions_started_at ON loop_executions(started_at DESC)",
        "CREATE INDEX IF NOT EXISTS idx_loop_executions_status ON loop_executions(status)",
        "CREATE TABLE IF NOT EXISTS loop_stage_executions (
        id INTEGER PRIMARY KEY AUTOINCREMENT,
        loop_execution_id INTEGER NOT NULL,
        stage_id INTEGER NOT NULL,
        todo_id INTEGER NOT NULL,
        execution_record_id INTEGER,
        status TEXT NOT NULL DEFAULT 'pending',
        started_at TEXT,
        finished_at TEXT,
        error_message TEXT,
        FOREIGN KEY (loop_execution_id) REFERENCES loop_executions(id) ON DELETE CASCADE,
        FOREIGN KEY (stage_id) REFERENCES loop_stages(id) ON DELETE CASCADE,
        FOREIGN KEY (execution_record_id) REFERENCES execution_records(id) ON DELETE SET NULL
    )",
        "CREATE INDEX IF NOT EXISTS idx_loop_stage_executions_loop_exec ON loop_stage_executions(loop_execution_id)",
        "CREATE INDEX IF NOT EXISTS idx_loop_stage_executions_record ON loop_stage_executions(execution_record_id)",
    ]
}
/// The statements of the todo kind migration, in order.
pub open spec fn todo_kind_ddl() -> Seq<&'static str> {
    seq![
        "ALTER TABLE todos ADD COLUMN kind TEXT NOT NULL DEFAULT 'item'",
        "UPDATE todos SET kind = 'step' WHERE id IN (SELECT DISTINCT todo_id FROM loop_stages)",
        "CREATE INDEX IF NOT EXISTS idx_todos_kind ON todos(kind)",
    ]
}

/// Adds `todos.kind` (`item` or `step`) and marks the todos that loop stages reference as steps.
fn todo_kind_statements() -> (v: Vec<&'static str>)
    ensures
        v@ == todo_kind_ddl(),
        v.len() == 3,
{
    vec![
        "ALTER TABLE todos ADD COLUMN kind TEXT NOT NULL DEFAULT 'item'",
        "UPDATE todos SET kind = 'step' WHERE id IN (SELECT DISTINCT todo_id FROM loop_stages)",
        "CREATE INDEX IF NOT EXISTS idx_todos_kind ON todos(kind)",
    ]
}
/// The statements of the independent steps migration, in order.
pub open spec fn independent_steps_ddl() -> Seq<&'static str> {
    seq![
        "CREATE TABLE IF NOT EXISTS steps (
        id INTEGER PRIMARY KEY AUTOINCREMENT,
        title TEXT NOT NULL,
        prompt TEXT NOT NULL DEFAULT '',
        executor TEXT,
        acceptance_criteria TEXT,
        source_todo_id INTEGER,
        created_at TEXT,
        updated_at TEXT,
        FOREIGN KEY (source_todo_id) REFERENCES todos(id) ON DELETE SET NULL
    )",
        "CREATE INDEX IF NOT EXISTS idx_steps_source_todo ON steps(source_todo_id)",
        "CREATE TRIGGER IF NOT EXISTS set_steps_created_at_utc AFTER INSERT ON steps
     WHEN new.created_at IS NULL OR new.created_at = ''
     BEGIN
         UPDATE steps SET created_at = strftime('%Y-%m-%dT%H:%M:%SZ', 'now', 'utc') WHERE rowid = new.rowid;
     END",
        "CREATE TRIGGER IF NOT EXISTS set_steps_updated_at_utc AFTER UPDATE ON steps
     WHEN new.updated_at IS NULL OR new.updated_at = ''
     BEGIN
         UPDATE steps SET updated_at = strftime('%Y-%m-%dT%H:%M:%SZ', 'now', 'utc') WHERE rowid = new.rowid;
     END",
        "INSERT INTO steps (title, prompt, executor, acceptance_criteria, source_todo_id, created_at, updated_at)
     SELECT title, COALESCE(prompt, ''), executor, acceptance_criteria, id, created_at, updated_at
     FROM todos WHERE kind = 'step' AND id NOT IN (SELECT source_todo_id FROM steps WHERE source_todo_id IS NOT NULL)",
    ]
}

/// Moves steps into their own `steps` table, copying the existing step todos.
fn independent_steps_statements() -> (v: Vec<&'static str>)
    ensures
        v@ == independent_steps_ddl(),
        v.len() == 5,
{
    vec![
        "CREATE TABLE IF NOT EXISTS steps (
        id INTEGER PRIMARY KEY AUTOINCREMENT,
        title TEXT NOT NULL,
        prompt TEXT NOT NULL DEFAULT '',
        executor TEXT,
        acceptance_criteria TEXT,
        source_todo_id INTEGER,
        created_at TEXT,
        updated_at TEXT,
        FOREIGN KEY (source_todo_id) REFERENCES todos(id) ON DELETE SET NULL
    )",
        "CREATE INDEX IF NOT EXISTS idx_steps_source_todo ON steps(source_todo_id)",
        "CREATE TRIGGER IF NOT EXISTS set_steps_created_at_utc AFTER INSERT ON steps
     WHEN new.created_at IS NULL OR new.created_at = ''
     BEGIN
         UPDATE steps SET created_at = strftime('%Y-%m-%dT%H:%M:%SZ', 'now', 'utc') WHERE rowid = new.rowid;
     END",
        "CREATE TRIGGER IF NOT EXISTS set_steps_updated_at_utc AFTER UPDATE ON steps
     WHEN new.updated_at IS NULL OR new.updated_at = ''
     BEGIN
         UPDATE steps SET updated_at = strftime('%Y-%m-%dT%H:%M:%SZ', 'now', 'utc') WHERE rowid = new.rowid;
     END",
        "INSERT INTO steps (title, prompt, executor, acceptance_criteria, source_todo_id, created_at, updated_at)
     SELECT title, COALESCE(prompt, ''), executor, acceptance_criteria, id, created_at, updated_at
     FROM todos WHERE kind = 'step' AND id NOT IN (SELECT source_todo_id FROM steps WHERE source_todo_id IS NOT NULL)",
    ]
}
/// All schema migrations in ascending version order. New entries are
/// appended; a version is never reordered or reused.
pub fn all_migrations() -> (ms: Vec<Migration>)
    ensures
        versions_of(ms@) == registered_versions(),
        strictly_ascending_from_one(versions_of(ms@)),
        forall|i: int| 0 <= i < ms.len() ==> #[trigger] ms[i].statements.len()
            == registered_statement_counts()[i],
        forall|i: int| 0 <= i < ms.len() ==> #[trigger] ms[i].statements.len() > 0,
        ms[0].statements@ == initial_schema_ddl(),
        ms[1].statements@ == loop_studio_ddl(),
        ms[2].statements@ == todo_kind_ddl(),
        ms[3].statements@ == independent_steps_ddl(),
        ms[0].name@ == "initial_schema"@,
        ms[1].name@ == "loop_studio"@,
        ms[2].name@ == "todo_kind"@,
        ms[3].name@ == "independent_steps"@,
        ms[2].statements@[0]@ == "ALTER TABLE todos ADD COLUMN kind TEXT NOT NULL DEFAULT 'item'"@,
        ms[2].statements@[1]@ == "UPDATE todos SET kind = 'step' WHERE id IN (SELECT DISTINCT todo_id FROM loop_stages)"@,
        ms[2].statements@[2]@ == "CREATE INDEX IF NOT EXISTS idx_todos_kind ON todos(kind)"@,
        ms[3].statements@[4]@ == "INSERT INTO steps (title, prompt, executor, acceptance_criteria, source_todo_id, created_at, updated_at)
     SELECT title, COALESCE(prompt, ''), executor, acceptance_criteria, id, created_at, updated_at
     FROM todos WHERE kind = 'step' AND id NOT IN (SELECT source_todo_id FROM steps WHERE source_todo_id IS NOT NULL)"@,
{
    let ms = vec![
        Migration {
            version: 1,
            name: "initial_schema",
            description:
                "Initial schema: todos, tags, todo_tags, execution_records, execution_logs, \
                 skill_invocations, agent_bots, feishu_*, executors, project_directories, \
                 todo_templates, webhooks, webhook_records, usage_*, sync_records + all \
                 indexes/triggers and backward-compat ALTER TABLE migrations",
            statements: initial_schema_statements(),
        },
        Migration {
            version: 2,
            name: "loop_studio",
            description:
                "Loop Studio: loops, loop_triggers, loop_stages, \
                 loop_executions, loop_stage_executions + indexes/triggers",
            statements: loop_studio_statements(),
        },
        Migration {
            version: 3,
            name: "todo_kind",
            description:
                "Items vs steps: todos gets a kind column ('item'|'step'), default 'item'; \
                 the todos that loop_stages reference become 'step'. Existing data is kept.",
            statements: todo_kind_statements(),
        },
        Migration {
            version: 9,
            name: "independent_steps",
            description:
                "Steps get their own table: it is created and filled from todos; \
                 promoting a todo later writes to steps instead of changing its kind.",
            statements: independent_steps_statements(),
        },
    ];
    assert(versions_of(ms@) =~= registered_versions());
    ms
}

/// Decides one start-up run from the version recorded in the database
/// (`current`, 0 when nothing is recorded): nothing to do when `current`
/// already reaches the last registered version; otherwise every migration
/// whose version exceeds `current`, in registry order, and the run then
/// reports the version of the last one applied.
pub fn plan_run(ms: &Vec<Migration>, current: i64) -> (p: RunPlan)
    requires
        total_statements(ms@, ms.len() as int) <= usize::MAX,
    ensures
        current >= last_version(ms@) || ms.len() == 0 ==> p.to_apply@.len() == 0
            && p.new_version == current,
        current < last_version(ms@) && ms.len() > 0 ==> {
            &&& indices_above(ms@, current, p.to_apply@)
            &&& p.to_apply@.len() > 0
            &&& p.new_version == ms@[p.to_apply@.last() as int].version
        },
        p.skipped_statements == skipped_statements(ms@, current, ms.len() as int),
{
    let n = ms.len();
    let mut skipped: usize = 0;
    let mut k: usize = 0;
    while k < n
        invariant
            n == ms.len(),
            k <= n,
            total_statements(ms@, ms.len() as int) <= usize::MAX,
            skipped == skipped_statements(ms@, current, k as int),
        decreases n - k,
    {
        proof {
            lemma_skipped_le_total(ms@, current, k as int + 1);
            lemma_total_monotone(ms@, k as int + 1, ms.len() as int);
        }
        if ms[k].version <= current {
            skipped = skipped + ms[k].statements.len();
        }
        k += 1;
    }
    let last: i64 = if n == 0 {
        0
    } else {
        ms[n - 1].version
    };
    if n == 0 || current >= last {
        return RunPlan { to_apply: Vec::new(), new_version: current, skipped_statements: skipped };
    }
    let mut to_apply: Vec<usize> = Vec::new();
    let mut new_version = current;
    let mut i: usize = 0;
    while i < n
        invariant
            n == ms.len(),
            i <= n,
            n > 0,
            last == ms@.last().version,
            current < last,
            forall|k: int| 0 <= k < to_apply.len() ==> #[trigger] to_apply@[k] < i,
            forall|k: int| 0 <= k < to_apply.len() ==> ms@[#[trigger] to_apply@[k] as int].version
                > current,
            forall|a: int, b: int| 0 <= a < b < to_apply.len() ==> to_apply@[a] < to_apply@[b],
            forall|j: int|
                0 <= j < i && #[trigger] ms@[j].version > current ==> exists|k: int|
                    0 <= k < to_apply.len() && to_apply@[k] == j,
            to_apply.len() > 0 ==> new_version == ms@[to_apply@.last() as int].version,
            i == n ==> to_apply.len() > 0,
        decreases n - i,
    {
        if ms[i].version > current {
            let ghost before = to_apply@;
            to_apply.push(i);
            new_version = ms[i].version;
            proof {
                assert forall|j: int|
                    0 <= j < i + 1 && #[trigger] ms@[j].version > current implies exists|k: int|
                    0 <= k < to_apply.len() && to_apply@[k] == j by {
                    if j < i {
                        let k0 = choose|k: int| 0 <= k < before.len() && before[k] == j;
                        assert(to_apply@[k0] == j);
                    } else {
                        assert(to_apply@[to_apply.len() - 1] == j);
                    }
                }
            }
        }
        proof {
            if i + 1 == n {
                assert(ms@[i as int].version == last);
            }
        }
        i += 1;
    }
    RunPlan { to_apply, new_version, skipped_statements: skipped }
}

proof fn lemma_skipped_le_total(ms: Seq<Migration>, current: i64, n: int)
    ensures
        skipped_statements(ms, current, n) <= total_statements(ms, n),
    decreases n,
{
    if n > 0 {
        lemma_skipped_le_total(ms, current, n - 1);
    }
}

proof fn lemma_total_monotone(ms: Seq<Migration>, a: int, b: int)
    requires
        a <= b,
    ensures
        total_statements(ms, a) <= total_statements(ms, b),
    decreases b - a,
{
    if a < b {
        lemma_total_monotone(ms, a, b - 1);
    }
}

/// With versions in ascending order, a run ends at the larger of the
/// recorded version and the last registered one, and a second run from
/// there applies nothing.
pub proof fn run_reaches_last_version_and_is_idempotent(ms: Seq<Migration>, current: i64, idx: Seq<usize>, new_version: i64)
    requires
        ms.len() > 0,
        strictly_ascending_from_one(versions_of(ms)),
        current < last_version(ms) ==> {
            &&& indices_above(ms, current, idx)
            &&& idx.len() > 0
            &&& new_version == ms[idx.last() as int].version
        },
        current >= last_version(ms) ==> new_version == current,
    ensures
        new_version == if current >= last_version(ms) { current } else { last_version(ms) },
        new_version >= last_version(ms),
        forall|i: int| 0 <= i < ms.len() ==> #[trigger] ms[i].version <= new_version,
{
    {
        assert(versions_of(ms)[ms.len() - 1] == ms.last().version);
        assert forall|i: int| 0 <= i < ms.len() implies #[trigger] ms[i].version <= ms.last().version by {
            if i < ms.len() - 1 {
                assert(versions_of(ms)[i] == ms[i].version);
            }
        }
    }
    if current < last_version(ms) {
        let li = (ms.len() - 1) as int;
        assert(ms[li].version == last_version(ms));
        let k = choose|k: int| 0 <= k < idx.len() && idx[k] == li;
        assert(idx[idx.len() - 1] < ms.len());
        assert(idx[k] == li);
        if k < idx.len() - 1 {
            assert(idx[k] < idx[idx.len() - 1]);
        }
        assert(idx.last() == li);
    }
}

/// The SQL that creates the `schema_version` meta table; idempotent.
pub fn schema_version_ddl() -> (s: &'static str)
    ensures
        s@ == "CREATE TABLE IF NOT EXISTS schema_version (
    version INTEGER PRIMARY KEY,
    name TEXT NOT NULL,
    applied_at TEXT NOT NULL
)"@,
{
    "CREATE TABLE IF NOT EXISTS schema_version (
    version INTEGER PRIMARY KEY,
    name TEXT NOT NULL,
    applied_at TEXT NOT NULL
)"
}

/// The query for the highest recorded version, 0 when none is recorded.
pub fn current_version_sql() -> (s: String)
    ensures
        s@ == "SELECT COALESCE(MAX(version), 0) FROM "@ + SCHEMA_VERSION_TABLE@,
{
    let mut s = String::new();
    crate::text::push_all(&mut s, "SELECT COALESCE(MAX(version), 0) FROM ");
    crate::text::push_all(&mut s, SCHEMA_VERSION_TABLE);
    s
}

/// The parameterised insert that records one applied migration
/// (`$1` version, `$2` name, `$3` applied-at timestamp).
pub fn record_version_sql() -> (s: String)
    ensures
        s@ == "INSERT OR REPLACE INTO "@ + SCHEMA_VERSION_TABLE@
            + " (version, name, applied_at) VALUES ($1, $2, $3)"@,
{
    let mut s = String::new();
    crate::text::push_all(&mut s, "INSERT OR REPLACE INTO ");
    crate::text::push_all(&mut s, SCHEMA_VERSION_TABLE);
    crate::text::push_all(&mut s, " (version, name, applied_at) VALUES ($1, $2, $3)");
    s
}

/// Collapses a DDL statement to a single line for compact log output.
pub fn one_line(s: &str) -> (r: String)
    ensures
        r@ == collapsed(s@),
{
    collapse_whitespace(s)
}

} // verus!
