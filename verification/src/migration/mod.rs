//! The trait-based schema registry. Every migration is a unit struct with a
//! version and a name; the runner reads the set of versions recorded in
//! `schema_version` and applies, in registry order, each migration whose
//! version is not recorded yet. This module decides which ones; running their
//! DDL is the caller's part.
use vstd::prelude::*;

use std::collections::HashSet;

use crate::text::{int_decimal, push_all, push_decimal};

pub mod v1;
pub mod v2_v5;
pub mod v41_v46;
pub mod v41_steps;
pub mod v47;
pub mod v47_v53;
pub mod v48;
pub mod v49;
pub mod v50;
pub mod v51;
pub mod v52;
pub mod v53;
pub mod v54;
pub mod v55;
pub mod v56;
pub mod v57;
pub mod v58;
pub mod v59;
pub mod v60;
pub mod v61;
pub mod v63;
pub mod v64;
pub mod v66;
pub mod v67;
pub mod v68;
pub mod v69;
pub mod v70;
pub mod v71;
pub mod v72;
pub mod v73;
pub mod v74;
pub mod v75;
pub mod v76;
pub mod v77;
pub mod v78;
pub mod v79;
pub mod v80;
pub mod v81;
pub mod v82;
pub mod v83;
pub mod v84;
pub mod v85;
pub mod v86;
pub mod v87;
pub mod v88;
pub mod v89;
pub mod v90;
pub mod v91;
pub mod v92;
pub mod v93;
pub mod v94;
pub mod v95;
pub mod v6_v11;

verus! {

broadcast use vstd::std_specs::hash::group_hash_axioms;

/// A database migration: an immutable pairing of a version and a name.
pub trait Migration {
    /// Strictly increasing version number; a new migration's version is
    /// larger than every existing one.
    fn version(&self) -> i64;

    /// Short readable name, used in logs and the `schema_version.name` column.
    fn name(&self) -> &'static str;
}

/// One registered migration, by version and name.
pub struct MigrationEntry {
    pub version: i64,
    pub name: &'static str,
}

/// The versions of the registry, in registry order.
pub open spec fn registry_versions() -> Seq<i64> {
    seq![1i64, 2, 3, 4, 5, 41, 42, 43, 44, 45, 46, 47, 54, 55, 56, 57, 58, 59, 60, 61, 63, 64, 66, 67, 68, 69, 70, 71, 72, 73, 74, 75, 76, 77, 78, 79, 80, 81, 82, 83, 84, 85, 86, 87, 88, 89, 90, 91, 92, 93, 94, 95]
}

/// The names of the registry, in registry order.
pub open spec fn registry_names() -> Seq<Seq<char>> {
    seq![
        "initial_schema"@,
        "todo_rating_to_execution_records"@,
        "logs_to_execution_logs"@,
        "feishu_fk_cascade"@,
        "project_directory_worktree"@,
        "consolidated_loop_features"@,
        "consolidated_workspace_refactor"@,
        "consolidated_final_features"@,
        "add_feishu_messages_processed_id"@,
        "add_todos_action_type"@,
        "add_todos_action_key"@,
        "consolidated_blackboard_features"@,
        "add_blackboards_wiki_chat_executor"@,
        "add_blackboards_wiki_chat_sessions"@,
        "add_missing_blackboard_columns"@,
        "add_blackboards_wiki_timeout_secs"@,
        "add_todos_archived_at"@,
        "add_todos_archived_at_index"@,
        "add_feishu_messages_error"@,
        "add_project_directories_executor_sessions"@,
        "V63AddExecutorIsDefault"@,
        "V64AddAgentBotOwnerOpenId"@,
        "V66AddQuickButtonsTable"@,
        "V67AddExecutionRecordsAgentRuns"@,
        "V68AddModelColumns"@,
        "V69AddQuickButtonsWorkspaceId"@,
        "V70AddWorkspaceSettingsSystemPrompt"@,
        "V71ProcessManagement"@,
        "V72ProcessManagementV2"@,
        "V73TaskManagement"@,
        "V74BackfillAutoReview"@,
        "V75AddLoopStepReviewPrompt"@,
        "V76AddLoopAbnormalHandlerPrompt"@,
        "V77DropLoopPhaseAcceptanceCriteria"@,
        "V78ProcessDefinitionToFile"@,
        "V79ProcessTemplateGuid"@,
        "V80LoopSlim"@,
        "V81DropLoopStepReviewType"@,
        "V82DropProcessStepTemplates"@,
        "V83AddLoopStepTemplateRefs"@,
        "V84AddTodoSkills"@,
        "fix_phase_exec_cascade"@,
        "process_template_versions"@,
        "self_heal_residual"@,
        "V88TaskDiscussionPosts"@,
        "V89AddExecutionRecordsWorkspaceId"@,
        "add_performance_indexes"@,
        "V91TaskDelegateExecution"@,
        "V92DelegateMaxRounds"@,
        "add_todos_updated_at_index"@,
        "rename_project_directories_to_workspaces"@,
        "workspace_butler_columns"@,
    ]
}

/// The versions of `es`, in order.
pub open spec fn entry_versions(es: Seq<MigrationEntry>) -> Seq<i64> {
    es.map_values(|e: MigrationEntry| e.version)
}

/// Versions start at 1 and strictly increase.
pub open spec fn ascending_from_one(vs: Seq<i64>) -> bool {
    &&& vs.len() > 0 ==> vs[0] >= 1
    &&& forall|i: int, j: int| 0 <= i < j < vs.len() ==> vs[i] < vs[j]
}

/// All registered migrations in ascending version order. New migrations are
/// appended at the end. Versions 62 and 65 are not registered: their
/// migrations (the blackboard `enabled` switch and `todos.expert_name`) are
/// not part of this crate. Versions 88 to 95 follow version 87 in the order
/// of their numbers.
pub fn all_migrations() -> (es: Vec<MigrationEntry>)
    ensures
        entry_versions(es@) == registry_versions(),
        es.len() == registry_names().len(),
        forall|i: int| 0 <= i < es.len() ==> #[trigger] es[i].name@ == registry_names()[i],
{
    let es = vec![
        MigrationEntry { version: v1::V1InitialSchema.version(), name: v1::V1InitialSchema.name() },
        MigrationEntry { version: v2_v5::V2TodoRatingDropColumn.version(), name: v2_v5::V2TodoRatingDropColumn.name() },
        MigrationEntry { version: v2_v5::V3LogsToExecutionLogs.version(), name: v2_v5::V3LogsToExecutionLogs.name() },
        MigrationEntry { version: v2_v5::V4FeishuFkCascade.version(), name: v2_v5::V4FeishuFkCascade.name() },
        MigrationEntry { version: v2_v5::V5ProjectDirectoryWorktree.version(), name: v2_v5::V5ProjectDirectoryWorktree.name() },
        MigrationEntry { version: v41_v46::V41ConsolidatedLoopFeatures.version(), name: v41_v46::V41ConsolidatedLoopFeatures.name() },
        MigrationEntry { version: v41_v46::V42ConsolidatedWorkspaceRefactor.version(), name: v41_v46::V42ConsolidatedWorkspaceRefactor.name() },
        MigrationEntry { version: v41_v46::V43ConsolidatedFinalFeatures.version(), name: v41_v46::V43ConsolidatedFinalFeatures.name() },
        MigrationEntry { version: v41_v46::V44AddFeishuMessagesProcessedId.version(), name: v41_v46::V44AddFeishuMessagesProcessedId.name() },
        MigrationEntry { version: v41_v46::V45AddTodosActionType.version(), name: v41_v46::V45AddTodosActionType.name() },
        MigrationEntry { version: v41_v46::V46AddTodosActionKey.version(), name: v41_v46::V46AddTodosActionKey.name() },
        MigrationEntry { version: v47_v53::V47ConsolidatedBlackboardFeatures.version(), name: v47_v53::V47ConsolidatedBlackboardFeatures.name() },
        MigrationEntry { version: v54::V54AddWikiChatExecutor.version(), name: v54::V54AddWikiChatExecutor.name() },
        MigrationEntry { version: v55::V55AddWikiChatSessions.version(), name: v55::V55AddWikiChatSessions.name() },
        MigrationEntry { version: v56::V56AddMissingBlackboardColumns.version(), name: v56::V56AddMissingBlackboardColumns.name() },
        MigrationEntry { version: v57::V57AddWikiTimeoutSecs.version(), name: v57::V57AddWikiTimeoutSecs.name() },
        MigrationEntry { version: v58::V58AddTodosArchivedAt.version(), name: v58::V58AddTodosArchivedAt.name() },
        MigrationEntry { version: v59::V59AddTodosArchivedAtIndex.version(), name: v59::V59AddTodosArchivedAtIndex.name() },
        MigrationEntry { version: v60::V60AddFeishuMessagesError.version(), name: v60::V60AddFeishuMessagesError.name() },
        MigrationEntry { version: v61::V61AddProjectDirectoriesExecutorSessions.version(), name: v61::V61AddProjectDirectoriesExecutorSessions.name() },
        MigrationEntry { version: v63::V63AddExecutorIsDefault.version(), name: v63::V63AddExecutorIsDefault.name() },
        MigrationEntry { version: v64::V64AddAgentBotOwnerOpenId.version(), name: v64::V64AddAgentBotOwnerOpenId.name() },
        MigrationEntry { version: v66::V66AddQuickButtonsTable.version(), name: v66::V66AddQuickButtonsTable.name() },
        MigrationEntry { version: v67::V67AddExecutionRecordsAgentRuns.version(), name: v67::V67AddExecutionRecordsAgentRuns.name() },
        MigrationEntry { version: v68::V68AddModelColumns.version(), name: v68::V68AddModelColumns.name() },
        MigrationEntry { version: v69::V69AddQuickButtonsWorkspaceId.version(), name: v69::V69AddQuickButtonsWorkspaceId.name() },
        MigrationEntry { version: v70::V70AddWorkspaceSettingsSystemPrompt.version(), name: v70::V70AddWorkspaceSettingsSystemPrompt.name() },
        MigrationEntry { version: v71::V71ProcessManagement.version(), name: v71::V71ProcessManagement.name() },
        MigrationEntry { version: v72::V72ProcessManagementV2.version(), name: v72::V72ProcessManagementV2.name() },
        MigrationEntry { version: v73::V73TaskManagement.version(), name: v73::V73TaskManagement.name() },
        MigrationEntry { version: v74::V74BackfillAutoReview.version(), name: v74::V74BackfillAutoReview.name() },
        MigrationEntry { version: v75::V75AddLoopStepReviewPrompt.version(), name: v75::V75AddLoopStepReviewPrompt.name() },
        MigrationEntry { version: v76::V76AddLoopAbnormalHandlerPrompt.version(), name: v76::V76AddLoopAbnormalHandlerPrompt.name() },
        MigrationEntry { version: v77::V77DropLoopPhaseAcceptanceCriteria.version(), name: v77::V77DropLoopPhaseAcceptanceCriteria.name() },
        MigrationEntry { version: v78::V78ProcessDefinitionToFile.version(), name: v78::V78ProcessDefinitionToFile.name() },
        MigrationEntry { version: v79::V79ProcessTemplateGuid.version(), name: v79::V79ProcessTemplateGuid.name() },
        MigrationEntry { version: v80::V80LoopSlim.version(), name: v80::V80LoopSlim.name() },
        MigrationEntry { version: v81::V81DropLoopStepReviewType.version(), name: v81::V81DropLoopStepReviewType.name() },
        MigrationEntry { version: v82::V82DropProcessStepTemplates.version(), name: v82::V82DropProcessStepTemplates.name() },
        MigrationEntry { version: v83::V83AddLoopStepTemplateRefs.version(), name: v83::V83AddLoopStepTemplateRefs.name() },
        MigrationEntry { version: v84::V84AddTodoSkills.version(), name: v84::V84AddTodoSkills.name() },
        MigrationEntry { version: v85::V85PhaseExecSetNull.version(), name: v85::V85PhaseExecSetNull.name() },
        MigrationEntry { version: v86::V86ProcessTemplateVersions.version(), name: v86::V86ProcessTemplateVersions.name() },
        MigrationEntry { version: v87::V87SelfHealResidual.version(), name: v87::V87SelfHealResidual.name() },
        MigrationEntry { version: v88::V88TaskDiscussionPosts.version(), name: v88::V88TaskDiscussionPosts.name() },
        MigrationEntry { version: v89::V89AddExecutionRecordsWorkspaceId.version(), name: v89::V89AddExecutionRecordsWorkspaceId.name() },
        MigrationEntry { version: v90::V90AddPerformanceIndexes.version(), name: v90::V90AddPerformanceIndexes.name() },
        MigrationEntry { version: v91::V91TaskDelegateExecution.version(), name: v91::V91TaskDelegateExecution.name() },
        MigrationEntry { version: v92::V92DelegateMaxRounds.version(), name: v92::V92DelegateMaxRounds.name() },
        MigrationEntry { version: v93::V93AddTodosUpdatedAtIndex.version(), name: v93::V93AddTodosUpdatedAtIndex.name() },
        MigrationEntry { version: v94::V94RenameProjectDirectoriesToWorkspaces.version(), name: v94::V94RenameProjectDirectoriesToWorkspaces.name() },
        MigrationEntry { version: v95::V95WorkspaceButler.version(), name: v95::V95WorkspaceButler.name() },
    ];
    assert(entry_versions(es@) =~= registry_versions());
    es
}

/// The registered versions start at 1 and strictly increase, so the runner
/// applies migrations in version order and no two share a version.
pub proof fn registry_versions_ascending()
    ensures
        ascending_from_one(registry_versions()),
{
    let vs = registry_versions();
    assert(steps_up(vs, 0)) by {
        reveal_with_fuel(steps_up, 52);
    }
    lemma_steps_up(vs, 0);
    lemma_adjacent_ascending(vs);
}

/// Each version from index `i` on is smaller than the next one.
spec fn steps_up(vs: Seq<i64>, i: nat) -> bool
    decreases vs.len() - i,
{
    if i + 1 >= vs.len() {
        true
    } else {
        vs[i as int] < vs[(i + 1) as int] && steps_up(vs, i + 1)
    }
}

proof fn lemma_steps_up(vs: Seq<i64>, i: nat)
    requires
        steps_up(vs, i),
    ensures
        forall|k: int| i <= k < vs.len() - 1 ==> #[trigger] vs[k] < vs[k + 1],
    decreases vs.len() - i,
{
    if i + 1 < vs.len() {
        lemma_steps_up(vs, i + 1);
    }
}

/// Pairwise-adjacent increase gives increase across every pair.
proof fn lemma_adjacent_ascending(vs: Seq<i64>)
    requires
        forall|i: int| 0 <= i < vs.len() - 1 ==> #[trigger] vs[i] < vs[i + 1],
        vs.len() > 0 ==> vs[0] >= 1,
    ensures
        ascending_from_one(vs),
    decreases vs.len(),
{
    if vs.len() > 1 {
        let init = vs.drop_last();
        assert forall|i: int| 0 <= i < init.len() - 1 implies #[trigger] init[i] < init[i + 1] by {
            assert(vs[i] < vs[i + 1]);
        }
        lemma_adjacent_ascending(init);
        assert forall|i: int, j: int| 0 <= i < j < vs.len() implies vs[i] < vs[j] by {
            if j < vs.len() - 1 {
                assert(init[i] < init[j]);
            } else if i < j - 1 {
                assert(init[i] < init[j - 1]);
                assert(vs[j - 1] < vs[j]);
            } else {
                assert(vs[i] < vs[i + 1]);
            }
        }
    }
}


/// `idx` lists, in increasing order, exactly the indices of `es` whose
/// version is not in `applied`.
pub open spec fn unapplied_indices(es: Seq<MigrationEntry>, applied: Set<i64>, idx: Seq<usize>) -> bool {
    &&& forall|k: int| 0 <= k < idx.len() ==> #[trigger] idx[k] < es.len()
    &&& forall|k: int| 0 <= k < idx.len() ==> !applied.contains(es[#[trigger] idx[k] as int].version)
    &&& forall|a: int, b: int| 0 <= a < b < idx.len() ==> idx[a] < idx[b]
    &&& forall|i: int|
        0 <= i < es.len() && !applied.contains(#[trigger] es[i].version) ==> exists|k: int|
            0 <= k < idx.len() && idx[k] == i
}

/// The versions recorded after applying the migrations at `idx` on top of
/// `applied`.
pub open spec fn recorded_after(es: Seq<MigrationEntry>, applied: Set<i64>, idx: Seq<usize>) -> Set<i64> {
    applied.union(Set::new(|v: i64| exists|k: int| 0 <= k < idx.len() && es[idx[k] as int].version == v))
}

/// The registry indices of the migrations still to apply, in registry order:
/// each one whose version is not among the `applied` versions.
pub fn pending_migrations(es: &Vec<MigrationEntry>, applied: &HashSet<i64>) -> (idx: Vec<usize>)
    ensures
        unapplied_indices(es@, applied@, idx@),
{
    let mut idx: Vec<usize> = Vec::new();
    let mut i: usize = 0;
    while i < es.len()
        invariant
            i <= es.len(),
            forall|k: int| 0 <= k < idx.len() ==> #[trigger] idx@[k] < i,
            forall|k: int| 0 <= k < idx.len() ==> !applied@.contains(es@[#[trigger] idx@[k] as int].version),
            forall|a: int, b: int| 0 <= a < b < idx.len() ==> idx@[a] < idx@[b],
            forall|j: int|
                0 <= j < i && !applied@.contains(#[trigger] es@[j].version) ==> exists|k: int|
                    0 <= k < idx.len() && idx@[k] == j,
        decreases es.len() - i,
    {
        let v = es[i].version;
        if !applied.contains(&v) {
            let ghost before = idx@;
            idx.push(i);
            proof {
                assert forall|j: int|
                    0 <= j < i + 1 && !applied@.contains(#[trigger] es@[j].version) implies exists|k: int|
                    0 <= k < idx.len() && idx@[k] == j by {
                    if j < i {
                        let k0 = choose|k: int| 0 <= k < before.len() && before[k] == j;
                        assert(idx@[k0] == j);
                    } else {
                        assert(idx@[idx.len() - 1] == j);
                    }
                }
            }
        }
        i += 1;
    }
    idx
}

/// Running the pending migrations records every registered version: once
/// they are recorded, nothing is pending any more, so a second start-up
/// applies nothing.
pub proof fn run_records_every_version(es: Seq<MigrationEntry>, applied: Set<i64>, idx: Seq<usize>)
    requires
        unapplied_indices(es, applied, idx),
    ensures
        forall|i: int| 0 <= i < es.len() ==> recorded_after(es, applied, idx).contains(#[trigger] es[i].version),
        unapplied_indices(es, recorded_after(es, applied, idx), Seq::empty()),
{
    let rec = recorded_after(es, applied, idx);
    assert forall|i: int| 0 <= i < es.len() implies rec.contains(#[trigger] es[i].version) by {
        if !applied.contains(es[i].version) {
            let k = choose|k: int| 0 <= k < idx.len() && idx[k] == i;
            assert(es[idx[k] as int].version == es[i].version);
        }
    }
}

/// On a database with nothing recorded, a run records exactly the set of
/// registered versions.
pub proof fn fresh_database_records_registry(es: Seq<MigrationEntry>, idx: Seq<usize>)
    requires
        unapplied_indices(es, Set::empty(), idx),
    ensures
        recorded_after(es, Set::empty(), idx) == entry_versions(es).to_set(),
{
    let rec = recorded_after(es, Set::empty(), idx);
    let vs = entry_versions(es);
    assert forall|v: i64| rec.contains(v) <==> vs.to_set().contains(v) by {
        if rec.contains(v) {
            let k = choose|k: int| 0 <= k < idx.len() && es[idx[k] as int].version == v;
            assert(vs[idx[k] as int] == v);
        }
        if vs.to_set().contains(v) {
            let i = choose|i: int| 0 <= i < vs.len() && vs[i] == v;
            assert(es[i].version == v);
            assert(!Set::<i64>::empty().contains(es[i].version));
            let k = choose|k: int| 0 <= k < idx.len() && idx[k] == i;
            assert(es[idx[k] as int].version == v);
        }
    }
    assert(rec =~= vs.to_set());
}

/// With the registry's ascending versions, the pending migrations are applied
/// in increasing version order.
pub proof fn pending_in_version_order(es: Seq<MigrationEntry>, applied: Set<i64>, idx: Seq<usize>)
    requires
        ascending_from_one(entry_versions(es)),
        unapplied_indices(es, applied, idx),
    ensures
        forall|a: int, b: int|
            0 <= a < b < idx.len() ==> es[idx[a] as int].version < es[idx[b] as int].version,
{
    assert forall|a: int, b: int| 0 <= a < b < idx.len() implies es[idx[a] as int].version
        < es[idx[b] as int].version by {
        assert(idx[a] < idx[b]);
        assert(idx[b] < es.len());
        assert(entry_versions(es)[idx[a] as int] < entry_versions(es)[idx[b] as int]);
    }
}

/// `s` is a plain SQL identifier: non-empty ASCII letters, digits and `_`.
pub open spec fn safe_identifier(s: Seq<char>) -> bool {
    s.len() > 0 && forall|k: int| 0 <= k < s.len() ==> #[trigger] identifier_char(s[k])
}

/// An ASCII letter, digit or `_`.
pub open spec fn identifier_char(c: char) -> bool {
    ('a' <= c && c <= 'z') || ('A' <= c && c <= 'Z') || ('0' <= c && c <= '9') || c == '_'
}

/// Exec test of [`safe_identifier`]; names that fail it are never spliced
/// into SQL.
pub fn is_safe_identifier(s: &str) -> (b: bool)
    ensures
        b == safe_identifier(s@),
{
    let cs = crate::text::chars_of(s);
    if cs.len() == 0 {
        return false;
    }
    let mut i: usize = 0;
    while i < cs.len()
        invariant
            cs@ == s@,
            i <= cs.len(),
            forall|k: int| 0 <= k < i ==> #[trigger] identifier_char(s@[k]),
        decreases cs.len() - i,
    {
        let c = cs[i];
        if !(('a' <= c && c <= 'z') || ('A' <= c && c <= 'Z') || ('0' <= c && c <= '9') || c == '_') {
            assert(!identifier_char(s@[i as int]));
            return false;
        }
        i += 1;
    }
    true
}

/// A `COUNT(*)` probe reports a match: the row decoded to a positive count.
pub fn count_is_positive(count: Option<i64>) -> (b: bool)
    ensures
        b == (count matches Some(n) && n > 0),
{
    match count {
        Some(n) => n > 0,
        None => false,
    }
}

/// The probe for whether `table` has a column named `column`.
pub fn table_has_column_sql(table: &str, column: &str) -> (s: String)
    ensures
        s@ == "SELECT COUNT(*) FROM pragma_table_info('"@ + table@ + "') WHERE name='"@ + column@
            + "'"@,
{
    let mut s = String::new();
    push_all(&mut s, "SELECT COUNT(*) FROM pragma_table_info('");
    push_all(&mut s, table);
    push_all(&mut s, "') WHERE name='");
    push_all(&mut s, column);
    push_all(&mut s, "'");
    s
}

/// The probe for whether a table named `table` exists.
pub fn table_exists_sql(table: &str) -> (s: String)
    requires
        safe_identifier(table@),
    ensures
        s@ == "SELECT COUNT(*) FROM sqlite_master WHERE type='table' AND name='"@ + table@ + "'"@,
{
    let mut s = String::new();
    push_all(&mut s, "SELECT COUNT(*) FROM sqlite_master WHERE type='table' AND name='");
    push_all(&mut s, table);
    push_all(&mut s, "'");
    s
}

/// The statement that drops `table.column`.
pub fn drop_column_sql(table: &str, column: &str) -> (s: String)
    ensures
        s@ == "ALTER TABLE "@ + table@ + " DROP COLUMN "@ + column@,
{
    let mut s = String::new();
    push_all(&mut s, "ALTER TABLE ");
    push_all(&mut s, table);
    push_all(&mut s, " DROP COLUMN ");
    push_all(&mut s, column);
    s
}

/// The lookup of a project directory's id by its path (`?1`).
pub fn project_directory_id_by_path_sql() -> (s: &'static str)
    ensures
        s@ == "SELECT id FROM project_directories WHERE path = ?1"@,
{
    "SELECT id FROM project_directories WHERE path = ?1"
}

} // verus!
