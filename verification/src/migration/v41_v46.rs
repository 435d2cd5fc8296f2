//! Migrations v41 to v46, and the statements of the two consolidated ones
//! that depend on data: the default review template's prompt as an SQL
//! string literal, and the workspace columns that v42 reads before or after
//! their rename.
use vstd::prelude::*;

use super::Migration;
use crate::text::{chars_of, int_decimal, push_all, push_decimal};

verus! {

/// Migration v41.
pub struct V41ConsolidatedLoopFeatures;

impl Migration for V41ConsolidatedLoopFeatures {
    fn version(&self) -> (v: i64)
        ensures
            v == 41,
    {
        41
    }

    fn name(&self) -> (n: &'static str)
        ensures
            n@ == "consolidated_loop_features"@,
    {
        "consolidated_loop_features"
    }
}

/// V42, consolidated: the multi-tenant workspace architecture.
pub struct V42ConsolidatedWorkspaceRefactor;

impl Migration for V42ConsolidatedWorkspaceRefactor {
    fn version(&self) -> (v: i64)
        ensures
            v == 42,
    {
        42
    }

    fn name(&self) -> (n: &'static str)
        ensures
            n@ == "consolidated_workspace_refactor"@,
    {
        "consolidated_workspace_refactor"
    }
}

/// V43, consolidated: the final feature additions.
pub struct V43ConsolidatedFinalFeatures;

impl Migration for V43ConsolidatedFinalFeatures {
    fn version(&self) -> (v: i64)
        ensures
            v == 43,
    {
        43
    }

    fn name(&self) -> (n: &'static str)
        ensures
            n@ == "consolidated_final_features"@,
    {
        "consolidated_final_features"
    }
}

/// V44: adds `feishu_messages.processed_id` and `processed_type`.
pub struct V44AddFeishuMessagesProcessedId;

impl Migration for V44AddFeishuMessagesProcessedId {
    fn version(&self) -> (v: i64)
        ensures
            v == 44,
    {
        44
    }

    fn name(&self) -> (n: &'static str)
        ensures
            n@ == "add_feishu_messages_processed_id"@,
    {
        "add_feishu_messages_processed_id"
    }
}

/// V45: adds `todos.action_type`.
pub struct V45AddTodosActionType;

impl Migration for V45AddTodosActionType {
    fn version(&self) -> (v: i64)
        ensures
            v == 45,
    {
        45
    }

    fn name(&self) -> (n: &'static str)
        ensures
            n@ == "add_todos_action_type"@,
    {
        "add_todos_action_type"
    }
}

/// V46: adds `todos.action_key` and a unique index on `(action_type, action_key)`.
pub struct V46AddTodosActionKey;

impl Migration for V46AddTodosActionKey {
    fn version(&self) -> (v: i64)
        ensures
            v == 46,
    {
        46
    }

    fn name(&self) -> (n: &'static str)
        ensures
            n@ == "add_todos_action_key"@,
    {
        "add_todos_action_key"
    }
}

/// The body of an SQL string literal that reads as `s`: every single quote
/// doubled (`str::replace('\'', "''")`).
pub open spec fn sql_escaped(s: Seq<char>) -> Seq<char>
    decreases s.len(),
{
    if s.len() == 0 {
        Seq::empty()
    } else if s.last() == '\'' {
        sql_escaped(s.drop_last()) + seq!['\'', '\'']
    } else {
        sql_escaped(s.drop_last()).push(s.last())
    }
}

/// What SQL reads from the body `t` of a string literal: a doubled quote
/// stands for one quote.
pub open spec fn sql_unescaped(t: Seq<char>) -> Seq<char>
    decreases t.len(),
{
    if t.len() == 0 {
        Seq::empty()
    } else if t.len() >= 2 && t.last() == '\'' && t[t.len() - 2] == '\'' {
        sql_unescaped(t.subrange(0, t.len() - 2)).push('\'')
    } else {
        sql_unescaped(t.drop_last()).push(t.last())
    }
}

/// An escaped literal reads back as the text it was made from, whatever
/// quotes the text holds.
pub proof fn escaped_literal_reads_back(s: Seq<char>)
    ensures
        sql_unescaped(sql_escaped(s)) == s,
    decreases s.len(),
{
    if s.len() > 0 {
        let e = sql_escaped(s.drop_last());
        escaped_literal_reads_back(s.drop_last());
        if s.last() == '\'' {
            let t = e + seq!['\'', '\''];
            assert(t.subrange(0, t.len() - 2) =~= e);
        } else {
            let t = e.push(s.last());
            assert(t.drop_last() =~= e);
        }
        assert(s.drop_last().push(s.last()) =~= s);
    }
}

/// `s` as the body of an SQL string literal: each single quote doubled.
pub fn escape_sql_literal(s: &str) -> (r: String)
    ensures
        r@ == sql_escaped(s@),
{
    let cs = chars_of(s);
    let mut r = String::new();
    let mut i: usize = 0;
    while i < cs.len()
        invariant
            cs@ == s@,
            i <= cs.len(),
            r@ == sql_escaped(s@.take(i as int)),
        decreases cs.len() - i,
    {
        let c = cs[i];
        proof {
            assert(s@.take(i as int + 1).drop_last() =~= s@.take(i as int));
            assert(s@.take(i as int + 1).last() == c);
        }
        let ghost before = r@;
        if c == '\'' {
            r.push('\'');
            r.push('\'');
            assert(r@ =~= before + seq!['\'', '\'']);
        } else {
            r.push(c);
        }
        i += 1;
    }
    proof {
        assert(s@.take(s@.len() as int) =~= s@);
    }
    r
}

/// The start of v41's seed of the default review template, up to the
/// prompt literal's body.
pub const DEFAULT_TEMPLATE_SEED_HEAD: &'static str = "INSERT OR IGNORE INTO review_templates (name, description, prompt, created_at, updated_at)
             SELECT '默认评审任务', NULL, '";

/// The rest of that seed after the prompt literal's body: the timestamps,
/// and the guard that keeps an existing template of that name.
pub const DEFAULT_TEMPLATE_SEED_TAIL: &'static str = "', strftime('%Y-%m-%dT%H:%M:%SZ', 'now'), strftime('%Y-%m-%dT%H:%M:%SZ', 'now')
             WHERE NOT EXISTS (SELECT 1 FROM review_templates WHERE name = '默认评审任务')";

/// v41: seeds the default review template with `prompt`, unless a template
/// of that name exists; the prompt goes in as an escaped string literal.
pub fn default_review_template_sql(prompt: &str) -> (s: String)
    ensures
        s@ == DEFAULT_TEMPLATE_SEED_HEAD@ + sql_escaped(prompt@) + DEFAULT_TEMPLATE_SEED_TAIL@,
{
    let mut s = String::new();
    push_all(&mut s, DEFAULT_TEMPLATE_SEED_HEAD);
    let body = escape_sql_literal(prompt);
    push_all(&mut s, body.as_str());
    push_all(&mut s, DEFAULT_TEMPLATE_SEED_TAIL);
    s
}

/// v42 reads a todo's or loop's workspace path from `workspace` while that
/// column exists, and from `workspace_path` once it has been renamed.
pub fn workspace_path_column(has_workspace_column: bool) -> (c: &'static str)
    ensures
        c@ == (if has_workspace_column { "workspace"@ } else { "workspace_path"@ }),
{
    if has_workspace_column {
        "workspace"
    } else {
        "workspace_path"
    }
}

/// The v42 backfill of the todos' workspace ids from path column `col`.
pub open spec fn todos_workspace_backfill_text(col: Seq<char>) -> Seq<char> {
    "UPDATE todos SET workspace_id = (SELECT pd.id FROM project_directories pd WHERE pd.path = todos."@
        + col + " LIMIT 1) WHERE "@ + col + " IS NOT NULL AND "@ + col
        + " != '' AND (workspace_id IS NULL OR workspace_id = 0)"@
}

/// The v42 move of orphan todos (path column `col`) to `/tmp`.
pub open spec fn orphan_todos_text(col: Seq<char>) -> Seq<char> {
    "UPDATE todos SET "@ + col
        + " = '/tmp', workspace_id = ?1, updated_at = strftime('%Y-%m-%dT%H:%M:%SZ','now','utc') WHERE deleted_at IS NULL AND ("@
        + col + " IS NULL OR "@ + col + " = '' OR workspace_id IS NULL OR workspace_id = 0)"@
}

/// The v42 move of orphan loops (path column `col`) to `/tmp`.
pub open spec fn orphan_loops_text(col: Seq<char>) -> Seq<char> {
    "UPDATE loops SET "@ + col
        + " = '/tmp', updated_at = strftime('%Y-%m-%dT%H:%M:%SZ','now','utc') WHERE "@ + col
        + " IS NULL OR "@ + col + " = ''"@
}

/// v42: points each todo without a workspace id at the directory whose path
/// its path column `col` holds.
pub fn todos_workspace_backfill_sql(col: &str) -> (s: String)
    ensures
        s@ == todos_workspace_backfill_text(col@),
{
    let mut s = String::new();
    push_all(&mut s, "UPDATE todos SET workspace_id = (SELECT pd.id FROM project_directories pd WHERE pd.path = todos.");
    push_all(&mut s, col);
    push_all(&mut s, " LIMIT 1) WHERE ");
    push_all(&mut s, col);
    push_all(&mut s, " IS NOT NULL AND ");
    push_all(&mut s, col);
    push_all(&mut s, " != '' AND (workspace_id IS NULL OR workspace_id = 0)");
    s
}

/// v42: moves every live todo without a path or a workspace id (path column
/// `col`) to the `/tmp` workspace, whose id is bound as `?1`.
pub fn orphan_todos_sql(col: &str) -> (s: String)
    ensures
        s@ == orphan_todos_text(col@),
{
    let mut s = String::new();
    push_all(&mut s, "UPDATE todos SET ");
    push_all(&mut s, col);
    push_all(
        &mut s,
        " = '/tmp', workspace_id = ?1, updated_at = strftime('%Y-%m-%dT%H:%M:%SZ','now','utc') WHERE deleted_at IS NULL AND (",
    );
    push_all(&mut s, col);
    push_all(&mut s, " IS NULL OR ");
    push_all(&mut s, col);
    push_all(&mut s, " = '' OR workspace_id IS NULL OR workspace_id = 0)");
    s
}

/// v42: gives every loop without a path (path column `col`) the `/tmp` path.
pub fn orphan_loops_sql(col: &str) -> (s: String)
    ensures
        s@ == orphan_loops_text(col@),
{
    let mut s = String::new();
    push_all(&mut s, "UPDATE loops SET ");
    push_all(&mut s, col);
    push_all(&mut s, " = '/tmp', updated_at = strftime('%Y-%m-%dT%H:%M:%SZ','now','utc') WHERE ");
    push_all(&mut s, col);
    push_all(&mut s, " IS NULL OR ");
    push_all(&mut s, col);
    push_all(&mut s, " = ''");
    s
}

/// v42's last step: todos still without a workspace id go to workspace
/// `temp_id` (the `/tmp` workspace).
pub fn null_workspace_patch_sql(temp_id: i64) -> (s: String)
    ensures
        s@ == "UPDATE todos SET workspace_id = "@ + int_decimal(temp_id as int)
            + " WHERE workspace_id IS NULL"@,
{
    let mut s = String::new();
    push_all(&mut s, "UPDATE todos SET workspace_id = ");
    push_decimal(&mut s, temp_id);
    push_all(&mut s, " WHERE workspace_id IS NULL");
    s
}

/// v41: marks as steps the todos that loop steps refer to through `col`.
pub fn mark_step_todos_sql(col: &str) -> (s: String)
    ensures
        s@ == "UPDATE todos SET kind = 'step' WHERE id IN (SELECT DISTINCT "@ + col@
            + " FROM loop_steps)"@,
{
    let mut s = String::new();
    push_all(&mut s, "UPDATE todos SET kind = 'step' WHERE id IN (SELECT DISTINCT ");
    push_all(&mut s, col);
    push_all(&mut s, " FROM loop_steps)");
    s
}

/// v41: deletes the loop steps that refer (through `col`) to a legacy
/// review todo, whose template now lives in `review_templates`.
pub fn delete_review_step_refs_sql(col: &str) -> (s: String)
    ensures
        s@ == "DELETE FROM loop_steps WHERE "@ + col@
            + " IN (SELECT id FROM todos WHERE todo_type = 1)"@,
{
    let mut s = String::new();
    push_all(&mut s, "DELETE FROM loop_steps WHERE ");
    push_all(&mut s, col);
    push_all(&mut s, " IN (SELECT id FROM todos WHERE todo_type = 1)");
    s
}

/// v42: the slash-command table.
pub const V42_CREATE_SLASH_COMMANDS: &'static str = "CREATE TABLE IF NOT EXISTS workspace_slash_commands (id INTEGER PRIMARY KEY AUTOINCREMENT, workspace_id INTEGER NOT NULL, slash_command TEXT NOT NULL, todo_id INTEGER NOT NULL, enabled INTEGER NOT NULL DEFAULT 1, created_at TEXT, updated_at TEXT, UNIQUE(workspace_id, slash_command))";
/// v42: the workspace settings table.
pub const V42_CREATE_SETTINGS: &'static str = "CREATE TABLE IF NOT EXISTS workspace_settings (id INTEGER PRIMARY KEY AUTOINCREMENT, workspace_id INTEGER NOT NULL UNIQUE, default_response_todo_id INTEGER, updated_at TEXT)";
/// v42: the workspace of an agent bot.
pub const V42_ADD_AGENT_BOTS_WORKSPACE_ID: &'static str = "ALTER TABLE agent_bots ADD COLUMN workspace_id INTEGER NOT NULL DEFAULT 0";
/// v42: the workspace of a todo.
pub const V42_ADD_TODOS_WORKSPACE_ID: &'static str = "ALTER TABLE todos ADD COLUMN workspace_id INTEGER NOT NULL DEFAULT 0";
/// v42: the workspace of a review template.
pub const V42_ADD_REVIEW_WORKSPACE_ID: &'static str = "ALTER TABLE review_templates ADD COLUMN workspace_id INTEGER";
/// v42: an integer workspace column beside a review template workspace id
/// that an earlier build added with another type.
pub const V42_ADD_REVIEW_WORKSPACE_ID_INT: &'static str = "ALTER TABLE review_templates ADD COLUMN workspace_id_int INTEGER";
/// v42: the `/tmp` workspace that orphan todos and loops move to.
pub const V42_CREATE_TMP_WORKSPACE: &'static str = "INSERT OR IGNORE INTO project_directories (path, name, created_at, updated_at) SELECT '/tmp', '临时工作空间', strftime('%Y-%m-%dT%H:%M:%SZ','now','utc'), strftime('%Y-%m-%dT%H:%M:%SZ','now','utc') WHERE NOT EXISTS (SELECT 1 FROM project_directories WHERE path = '/tmp')";
/// v42: a todo's path column gets its final name.
pub const V42_RENAME_TODOS_WORKSPACE: &'static str = "ALTER TABLE todos RENAME COLUMN workspace TO workspace_path";
/// v42: a loop's path column gets its final name.
pub const V42_RENAME_LOOPS_WORKSPACE: &'static str = "ALTER TABLE loops RENAME COLUMN workspace TO workspace_path";
/// v42: the workspace of a loop.
pub const V42_ADD_LOOPS_WORKSPACE_ID: &'static str = "ALTER TABLE loops ADD COLUMN workspace_id INTEGER";
/// v42: the loops' workspace ids from their paths.
pub const V42_LOOPS_BACKFILL: &'static str = "UPDATE loops SET workspace_id = (SELECT pd.id FROM project_directories pd WHERE pd.path = loops.workspace_path LIMIT 1) WHERE workspace_path IS NOT NULL AND workspace_path != ''";

/// What v42 reads of the schema before it starts. None of its own steps
/// changes one of these facts before the step that depends on it.
pub struct V42Probes {
    pub agent_bots_has_workspace_id: bool,
    pub todos_has_workspace_id: bool,
    pub todos_has_workspace: bool,
    pub todos_has_workspace_path: bool,
    pub review_has_workspace_id: bool,
    /// The type of `review_templates.workspace_id` is `INTEGER`.
    pub review_workspace_id_is_integer: bool,
    pub review_has_workspace_id_int: bool,
    pub loops_has_workspace: bool,
    pub loops_has_workspace_path: bool,
    pub loops_has_workspace_id: bool,
}

/// One step of v42.
pub enum V42Action {
    /// Run the statement.
    Run(String),
    /// Look up the id of the `/tmp` workspace (1 when it is missing).
    LookupTempWorkspace,
    /// Run the statement with the `/tmp` workspace id bound as `?1`.
    RunWithTempId(String),
    /// Give the todos still without a workspace the `/tmp` workspace
    /// ([`null_workspace_patch_sql`]).
    PatchNullWorkspace,
}

/// A v42 step with its statement as characters.
pub enum V42Step {
    Run(Seq<char>),
    LookupTempWorkspace,
    RunWithTempId(Seq<char>),
    PatchNullWorkspace,
}

/// The step an action stands for.
pub open spec fn step_of(a: V42Action) -> V42Step {
    match a {
        V42Action::Run(s) => V42Step::Run(s@),
        V42Action::LookupTempWorkspace => V42Step::LookupTempWorkspace,
        V42Action::RunWithTempId(s) => V42Step::RunWithTempId(s@),
        V42Action::PatchNullWorkspace => V42Step::PatchNullWorkspace,
    }
}

/// The steps that `actions` stand for.
pub open spec fn steps_of(actions: Seq<V42Action>) -> Seq<V42Step> {
    actions.map_values(|a: V42Action| step_of(a))
}

/// `step` when `c` holds, nothing otherwise.
pub open spec fn step_if(c: bool, step: V42Step) -> Seq<V42Step> {
    if c {
        seq![step]
    } else {
        seq![]
    }
}

/// The path column v42 reads while `workspace` still exists.
pub open spec fn path_column(has_workspace: bool) -> Seq<char> {
    if has_workspace {
        "workspace"@
    } else {
        "workspace_path"@
    }
}

/// v42's first part: the workspace tables, the workspace id columns of
/// agent bots and todos, and the todos' backfill from their paths.
pub open spec fn v42_columns_steps(p: V42Probes) -> Seq<V42Step> {
    seq![V42Step::Run(V42_CREATE_SLASH_COMMANDS@), V42Step::Run(V42_CREATE_SETTINGS@)]
        + step_if(!p.agent_bots_has_workspace_id, V42Step::Run(V42_ADD_AGENT_BOTS_WORKSPACE_ID@))
        + step_if(!p.todos_has_workspace_id, V42Step::Run(V42_ADD_TODOS_WORKSPACE_ID@))
        + seq![V42Step::Run(todos_workspace_backfill_text(path_column(p.todos_has_workspace)))]
}

/// v42's second part: the review template workspace column (and an integer
/// one beside a column of another type), then the `/tmp` workspace and the
/// move of orphan todos and loops to it.
pub open spec fn v42_orphan_steps(p: V42Probes) -> Seq<V42Step> {
    step_if(!p.review_has_workspace_id, V42Step::Run(V42_ADD_REVIEW_WORKSPACE_ID@))
        + step_if(
        p.review_has_workspace_id && !p.review_workspace_id_is_integer && !p.review_has_workspace_id_int,
        V42Step::Run(V42_ADD_REVIEW_WORKSPACE_ID_INT@),
    ) + seq![
        V42Step::Run(V42_CREATE_TMP_WORKSPACE@),
        V42Step::LookupTempWorkspace,
        V42Step::RunWithTempId(orphan_todos_text(path_column(p.todos_has_workspace))),
        V42Step::Run(orphan_loops_text(path_column(p.loops_has_workspace))),
    ]
}

/// v42's last part: the path columns get their final names, loops get a
/// workspace id, both are backfilled from the paths, and todos still
/// without a workspace go to `/tmp`.
pub open spec fn v42_rename_steps(p: V42Probes) -> Seq<V42Step> {
    step_if(p.todos_has_workspace && !p.todos_has_workspace_path, V42Step::Run(V42_RENAME_TODOS_WORKSPACE@))
        + step_if(p.loops_has_workspace && !p.loops_has_workspace_path, V42Step::Run(V42_RENAME_LOOPS_WORKSPACE@))
        + step_if(!p.loops_has_workspace_id, V42Step::Run(V42_ADD_LOOPS_WORKSPACE_ID@))
        + seq![
        V42Step::Run(V42_LOOPS_BACKFILL@),
        V42Step::Run(todos_workspace_backfill_text("workspace_path"@)),
        V42Step::PatchNullWorkspace,
    ]
}

/// All of v42's steps, in order.
pub open spec fn v42_steps(p: V42Probes) -> Seq<V42Step> {
    v42_columns_steps(p) + v42_orphan_steps(p) + v42_rename_steps(p)
}

fn push_action(v: &mut Vec<V42Action>, a: V42Action)
    ensures
        steps_of(final(v)@) == steps_of(old(v)@) + seq![step_of(a)],
{
    let ghost step = step_of(a);
    v.push(a);
    proof {
        assert(steps_of(v@) =~= steps_of(old(v)@) + seq![step]);
    }
}

fn push_if(v: &mut Vec<V42Action>, c: bool, sql: &str)
    ensures
        steps_of(final(v)@) == steps_of(old(v)@) + step_if(c, V42Step::Run(sql@)),
{
    if c {
        push_action(v, V42Action::Run(String::from_str(sql)));
    } else {
        assert(steps_of(v@) =~= steps_of(old(v)@) + step_if(c, V42Step::Run(sql@)));
    }
}

fn push_columns_steps(p: &V42Probes, v: &mut Vec<V42Action>)
    ensures
        steps_of(final(v)@) == steps_of(old(v)@) + v42_columns_steps(*p),
{
    let ghost s0 = steps_of(v@);
    push_action(v, V42Action::Run(String::from_str(V42_CREATE_SLASH_COMMANDS)));
    push_action(v, V42Action::Run(String::from_str(V42_CREATE_SETTINGS)));
    let ghost s1 = steps_of(v@);
    push_if(v, !p.agent_bots_has_workspace_id, V42_ADD_AGENT_BOTS_WORKSPACE_ID);
    let ghost s2 = steps_of(v@);
    push_if(v, !p.todos_has_workspace_id, V42_ADD_TODOS_WORKSPACE_ID);
    let ghost s3 = steps_of(v@);
    let todos_col = workspace_path_column(p.todos_has_workspace);
    push_action(v, V42Action::Run(todos_workspace_backfill_sql(todos_col)));
    proof {
        let a = seq![V42Step::Run(V42_CREATE_SLASH_COMMANDS@), V42Step::Run(V42_CREATE_SETTINGS@)];
        let b = step_if(!p.agent_bots_has_workspace_id, V42Step::Run(V42_ADD_AGENT_BOTS_WORKSPACE_ID@));
        let c = step_if(!p.todos_has_workspace_id, V42Step::Run(V42_ADD_TODOS_WORKSPACE_ID@));
        let d = seq![V42Step::Run(todos_workspace_backfill_text(path_column(p.todos_has_workspace)))];
        assert(s1 =~= s0 + a);
        assert(steps_of(v@) =~= s3 + d);
        assert(steps_of(v@) =~= s0 + (a + b + c + d));
    }
}

fn push_orphan_steps(p: &V42Probes, v: &mut Vec<V42Action>)
    ensures
        steps_of(final(v)@) == steps_of(old(v)@) + v42_orphan_steps(*p),
{
    let ghost s0 = steps_of(v@);
    push_if(v, !p.review_has_workspace_id, V42_ADD_REVIEW_WORKSPACE_ID);
    push_if(
        v,
        p.review_has_workspace_id && !p.review_workspace_id_is_integer && !p.review_has_workspace_id_int,
        V42_ADD_REVIEW_WORKSPACE_ID_INT,
    );
    let ghost s2 = steps_of(v@);
    push_action(v, V42Action::Run(String::from_str(V42_CREATE_TMP_WORKSPACE)));
    push_action(v, V42Action::LookupTempWorkspace);
    let todos_col = workspace_path_column(p.todos_has_workspace);
    push_action(v, V42Action::RunWithTempId(orphan_todos_sql(todos_col)));
    let loops_col = workspace_path_column(p.loops_has_workspace);
    push_action(v, V42Action::Run(orphan_loops_sql(loops_col)));
    proof {
        let a = step_if(!p.review_has_workspace_id, V42Step::Run(V42_ADD_REVIEW_WORKSPACE_ID@));
        let b = step_if(
            p.review_has_workspace_id && !p.review_workspace_id_is_integer && !p.review_has_workspace_id_int,
            V42Step::Run(V42_ADD_REVIEW_WORKSPACE_ID_INT@),
        );
        let c = seq![
            V42Step::Run(V42_CREATE_TMP_WORKSPACE@),
            V42Step::LookupTempWorkspace,
            V42Step::RunWithTempId(orphan_todos_text(path_column(p.todos_has_workspace))),
            V42Step::Run(orphan_loops_text(path_column(p.loops_has_workspace))),
        ];
        assert(s2 =~= s0 + a + b);
        assert(steps_of(v@) =~= s2 + c);
        assert(steps_of(v@) =~= s0 + (a + b + c));
    }
}

fn push_rename_steps(p: &V42Probes, v: &mut Vec<V42Action>)
    ensures
        steps_of(final(v)@) == steps_of(old(v)@) + v42_rename_steps(*p),
{
    let ghost s0 = steps_of(v@);
    push_if(v, p.todos_has_workspace && !p.todos_has_workspace_path, V42_RENAME_TODOS_WORKSPACE);
    push_if(v, p.loops_has_workspace && !p.loops_has_workspace_path, V42_RENAME_LOOPS_WORKSPACE);
    push_if(v, !p.loops_has_workspace_id, V42_ADD_LOOPS_WORKSPACE_ID);
    let ghost s3 = steps_of(v@);
    push_action(v, V42Action::Run(String::from_str(V42_LOOPS_BACKFILL)));
    push_action(v, V42Action::Run(todos_workspace_backfill_sql("workspace_path")));
    push_action(v, V42Action::PatchNullWorkspace);
    proof {
        let a = step_if(p.todos_has_workspace && !p.todos_has_workspace_path, V42Step::Run(V42_RENAME_TODOS_WORKSPACE@));
        let b = step_if(p.loops_has_workspace && !p.loops_has_workspace_path, V42Step::Run(V42_RENAME_LOOPS_WORKSPACE@));
        let c = step_if(!p.loops_has_workspace_id, V42Step::Run(V42_ADD_LOOPS_WORKSPACE_ID@));
        let d = seq![
            V42Step::Run(V42_LOOPS_BACKFILL@),
            V42Step::Run(todos_workspace_backfill_text("workspace_path"@)),
            V42Step::PatchNullWorkspace,
        ];
        assert(s3 =~= s0 + a + b + c);
        assert(steps_of(v@) =~= s3 + d);
        assert(steps_of(v@) =~= s0 + (a + b + c + d));
    }
}

/// v42's steps from what it reads of the schema before it starts: the
/// workspace tables and id columns (each added only when missing), the
/// todos' backfill from whichever path column exists, the review template
/// workspace column, the `/tmp` workspace with the move of orphan todos and
/// loops to it, the renames of the path columns that still have the old
/// name, the loops' workspace id with both backfills, and last the todos
/// still without a workspace.
pub fn v42_plan(p: &V42Probes) -> (v: Vec<V42Action>)
    ensures
        steps_of(v@) == v42_steps(*p),
{
    let mut v: Vec<V42Action> = Vec::new();
    proof {
        assert(steps_of(v@) =~= Seq::<V42Step>::empty());
    }
    push_columns_steps(p, &mut v);
    push_orphan_steps(p, &mut v);
    push_rename_steps(p, &mut v);
    proof {
        assert(v42_steps(*p) =~= Seq::<V42Step>::empty() + v42_columns_steps(*p) + v42_orphan_steps(*p) + v42_rename_steps(*p));
    }
    v
}


/// v42 adds every workspace column that the schema lacks: the workspace id
/// of agent bots, todos, review templates and loops, an integer review
/// template column beside a workspace id of another type, and the final
/// name of each path column still called `workspace`.
pub proof fn v42_adds_every_missing_column(p: V42Probes)
    ensures
        !p.agent_bots_has_workspace_id ==> v42_steps(p).contains(
            V42Step::Run("ALTER TABLE agent_bots ADD COLUMN workspace_id INTEGER NOT NULL DEFAULT 0"@),
        ),
        !p.todos_has_workspace_id ==> v42_steps(p).contains(
            V42Step::Run("ALTER TABLE todos ADD COLUMN workspace_id INTEGER NOT NULL DEFAULT 0"@),
        ),
        !p.review_has_workspace_id ==> v42_steps(p).contains(
            V42Step::Run("ALTER TABLE review_templates ADD COLUMN workspace_id INTEGER"@),
        ),
        p.review_has_workspace_id && !p.review_workspace_id_is_integer && !p.review_has_workspace_id_int
            ==> v42_steps(p).contains(V42Step::Run("ALTER TABLE review_templates ADD COLUMN workspace_id_int INTEGER"@)),
        !p.loops_has_workspace_id ==> v42_steps(p).contains(
            V42Step::Run("ALTER TABLE loops ADD COLUMN workspace_id INTEGER"@),
        ),
        p.todos_has_workspace && !p.todos_has_workspace_path ==> v42_steps(p).contains(
            V42Step::Run("ALTER TABLE todos RENAME COLUMN workspace TO workspace_path"@),
        ),
        p.loops_has_workspace && !p.loops_has_workspace_path ==> v42_steps(p).contains(
            V42Step::Run("ALTER TABLE loops RENAME COLUMN workspace TO workspace_path"@),
        ),
{
    let c = v42_columns_steps(p);
    let o = v42_orphan_steps(p);
    let r = v42_rename_steps(p);
    let all = v42_steps(p);
    assert(all == c + o + r);
    let agent = step_if(!p.agent_bots_has_workspace_id, V42Step::Run(V42_ADD_AGENT_BOTS_WORKSPACE_ID@));
    if !p.agent_bots_has_workspace_id {
        assert(all[2] == V42Step::Run(V42_ADD_AGENT_BOTS_WORKSPACE_ID@));
    }
    if !p.todos_has_workspace_id {
        assert(all[2 + agent.len() as int] == V42Step::Run(V42_ADD_TODOS_WORKSPACE_ID@));
    }
    if !p.review_has_workspace_id {
        assert(all[c.len() as int] == V42Step::Run(V42_ADD_REVIEW_WORKSPACE_ID@));
    }
    if p.review_has_workspace_id && !p.review_workspace_id_is_integer && !p.review_has_workspace_id_int {
        assert(all[c.len() as int] == V42Step::Run(V42_ADD_REVIEW_WORKSPACE_ID_INT@));
    }
    let base: int = c.len() as int + o.len() as int;
    let todos_rename = step_if(p.todos_has_workspace && !p.todos_has_workspace_path, V42Step::Run(V42_RENAME_TODOS_WORKSPACE@));
    let loops_rename = step_if(p.loops_has_workspace && !p.loops_has_workspace_path, V42Step::Run(V42_RENAME_LOOPS_WORKSPACE@));
    if p.todos_has_workspace && !p.todos_has_workspace_path {
        assert(all[base] == V42Step::Run(V42_RENAME_TODOS_WORKSPACE@));
    }
    if p.loops_has_workspace && !p.loops_has_workspace_path {
        assert(all[base + todos_rename.len() as int] == V42Step::Run(V42_RENAME_LOOPS_WORKSPACE@));
    }
    if !p.loops_has_workspace_id {
        assert(all[base + todos_rename.len() as int + loops_rename.len() as int] == V42Step::Run(V42_ADD_LOOPS_WORKSPACE_ID@));
    }
}

} // verus!
