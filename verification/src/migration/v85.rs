//! v85: stops upgrades from cascade-deleting `loop_phase_executions` rows.
use vstd::prelude::*;

use super::Migration;
use crate::text::{contains_seq, contains_str};

verus! {

/// v85: stops upgrades from cascade-deleting `loop_phase_executions` rows.
pub struct V85PhaseExecSetNull;

impl Migration for V85PhaseExecSetNull {
    fn version(&self) -> (v: i64)
        ensures
            v == 85,
    {
        85
    }

    fn name(&self) -> (n: &'static str)
        ensures
            n@ == "fix_phase_exec_cascade"@,
    {
        "fix_phase_exec_cascade"
    }
}

/// What v85 does next, from what it has seen of `loop_phase_executions`.
pub enum PhaseExecFixAction {
    /// The foreign key already says `ON DELETE SET NULL`: nothing to do.
    Skip,
    /// The table is missing: look for a `_loop_phase_executions_new` left by
    /// an interrupted rebuild.
    ProbeLeftover,
    /// Rename the leftover rebuilt table into place, keeping its rows.
    RecoverLeftover,
    /// Create the table afresh with the `SET NULL` foreign key.
    CreateFresh,
    /// Rebuild the existing `CASCADE` table into a `SET NULL` one.
    Rebuild,
}

/// v85's decision. `table_ddl` is the stored `CREATE TABLE` text of
/// `loop_phase_executions` (empty when the table is missing);
/// `leftover_found` is the answer of the leftover probe once it was made.
pub fn phase_exec_fix_action(table_ddl: &str, leftover_found: Option<bool>) -> (a: PhaseExecFixAction)
    ensures
        contains_seq(table_ddl@, "ON DELETE SET NULL"@) ==> a is Skip,
        !contains_seq(table_ddl@, "ON DELETE SET NULL"@) && table_ddl@.len() == 0 ==> match leftover_found {
            None => a is ProbeLeftover,
            Some(true) => a is RecoverLeftover,
            Some(false) => a is CreateFresh,
        },
        !contains_seq(table_ddl@, "ON DELETE SET NULL"@) && table_ddl@.len() > 0 ==> a is Rebuild,
{
    if contains_str(table_ddl, "ON DELETE SET NULL") {
        return PhaseExecFixAction::Skip;
    }
    if crate::text::chars_of(table_ddl).len() == 0 {
        match leftover_found {
            None => PhaseExecFixAction::ProbeLeftover,
            Some(true) => PhaseExecFixAction::RecoverLeftover,
            Some(false) => PhaseExecFixAction::CreateFresh,
        }
    } else {
        PhaseExecFixAction::Rebuild
    }
}

} // verus!
