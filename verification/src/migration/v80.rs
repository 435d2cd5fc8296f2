//! V80: loop slimming.
use vstd::prelude::*;

use std::collections::BTreeMap;

use super::Migration;
use crate::text::{int_decimal, join_with, push_all, push_decimal};
use vstd::std_specs::btree::spec_keys_iter;
use vstd::std_specs::iter::IteratorSpec;
use vstd::std_specs::cmp::OrdSpec;

verus! {

/// Loop slimming: cascade-deletes manual loops and drops the trigger table and redundant columns.
pub struct V80LoopSlim;

impl Migration for V80LoopSlim {
    fn version(&self) -> (v: i64)
        ensures
            v == 80,
    {
        80
    }

    fn name(&self) -> (n: &'static str)
        ensures
            n@ == "V80LoopSlim"@,
    {
        "V80LoopSlim"
    }
}

/// The decimal renderings of `ids`, in order.
pub open spec fn id_texts(ids: Seq<i64>) -> Seq<Seq<char>> {
    ids.map_values(|k: i64| int_decimal(k as int))
}

/// The ids of `manual_loops` (id to name) in ascending order, joined with
/// `,` for an `IN (...)` list; empty for an empty map.
pub fn join_id_list(manual_loops: &BTreeMap<i64, String>) -> (r: String)
    ensures
        exists|ks: Seq<i64>|
            {
                &&& forall|i: int, j: int| 0 <= i < j < ks.len() ==> ks[i] < ks[j]
                &&& ks.to_set() == manual_loops@.dom()
                &&& r@ == join_with(#[trigger] id_texts(ks), ","@)
            },
{
    broadcast use vstd::std_specs::btree::group_btree_axioms;
    broadcast use vstd::laws_cmp::group_laws_cmp;

    let mut out = String::new();
    let mut first = true;
    let ghost mut done: Seq<i64> = Seq::empty();
    for k in it: manual_loops.keys()
        invariant
            it.seq() == spec_keys_iter(manual_loops).remaining(),
            done == it.seq().take(it.index()).map_values(|r: &i64| *r),
            first == (it.index() == 0),
            out@ == join_with(id_texts(done), ","@),
    {
        let ghost before = done;
        if !first {
            push_all(&mut out, ",");
        }
        push_decimal(&mut out, *k);
        first = false;
        proof {
            done = before.push(*k);
            assert(done =~= it.seq().take(it.index() + 1).map_values(|r: &i64| *r));
            assert(id_texts(done).drop_last() =~= id_texts(before));
            if before.len() == 0 {
                assert(out@ =~= id_texts(done)[0]);
            } else {
                assert(out@ =~= join_with(id_texts(before), ","@) + ","@ + id_texts(done).last());
            }
        }
    }
    proof {
        let full = spec_keys_iter(manual_loops).remaining();
        assert(done =~= full.map_values(|r: &i64| *r));
        assert(full.unref() =~= done);
        vstd::std_specs::btree::axiom_spec_keys_iter(manual_loops);
        assert(vstd::std_specs::btree::increasing_seq(full));
        assert(vstd::laws_cmp::obeys_cmp::<&i64>());
        vstd::std_specs::btree::axiom_increasing_seq_meaning(full);
        assert forall|i: int, j: int| 0 <= i < j < done.len() implies done[i] < done[j] by {
            assert(done.len() == full.len());
            assert(OrdSpec::cmp_spec(&full[i], &full[j]) is Less);
        }
    }
    out
}

/// The cascading delete of the manual loops whose ids `id_list` lists
/// (`1,2,3`): deepest child tables first (gates, artifacts, step and phase
/// executions, executions, triggers, tags, steps, phases), the loops last, so
/// every child row is still reachable through its loop id when it is removed.
pub fn manual_loop_delete_sql(id_list: &str) -> (v: Vec<String>)
    ensures
        v.len() == 10,
        v[0]@ == "DELETE FROM loop_step_execution_gates
                         WHERE loop_step_execution_id IN (
                             SELECT id FROM loop_step_executions WHERE loop_execution_id IN (
                                 SELECT id FROM loop_executions WHERE loop_id IN ("@ + id_list@ + ")
                             )
                         )"@,
        v[1]@ == "DELETE FROM loop_step_artifacts
                         WHERE loop_step_execution_id IN (
                             SELECT id FROM loop_step_executions WHERE loop_execution_id IN (
                                 SELECT id FROM loop_executions WHERE loop_id IN ("@ + id_list@ + ")
                             )
                         )"@,
        v[2]@ == "DELETE FROM loop_step_executions
                         WHERE loop_execution_id IN (
                             SELECT id FROM loop_executions WHERE loop_id IN ("@ + id_list@ + ")
                         )"@,
        v[3]@ == "DELETE FROM loop_phase_executions
                         WHERE loop_execution_id IN (
                             SELECT id FROM loop_executions WHERE loop_id IN ("@ + id_list@ + ")
                         )"@,
        v[4]@ == "DELETE FROM loop_executions WHERE loop_id IN ("@ + id_list@ + ")"@,
        v[5]@ == "DELETE FROM loop_triggers WHERE loop_id IN ("@ + id_list@ + ")"@,
        v[6]@ == "DELETE FROM loop_tags WHERE loop_id IN ("@ + id_list@ + ")"@,
        v[7]@ == "DELETE FROM loop_steps WHERE loop_id IN ("@ + id_list@ + ")"@,
        v[8]@ == "DELETE FROM loop_phases WHERE loop_id IN ("@ + id_list@ + ")"@,
        v[9]@ == "DELETE FROM loops WHERE id IN ("@ + id_list@ + ")"@,
{
    let mut s0 = String::new();
    push_all(&mut s0, "DELETE FROM loop_step_execution_gates
                         WHERE loop_step_execution_id IN (
                             SELECT id FROM loop_step_executions WHERE loop_execution_id IN (
                                 SELECT id FROM loop_executions WHERE loop_id IN (");
    push_all(&mut s0, id_list);
    push_all(&mut s0, ")
                             )
                         )");
    let mut s1 = String::new();
    push_all(&mut s1, "DELETE FROM loop_step_artifacts
                         WHERE loop_step_execution_id IN (
                             SELECT id FROM loop_step_executions WHERE loop_execution_id IN (
                                 SELECT id FROM loop_executions WHERE loop_id IN (");
    push_all(&mut s1, id_list);
    push_all(&mut s1, ")
                             )
                         )");
    let mut s2 = String::new();
    push_all(&mut s2, "DELETE FROM loop_step_executions
                         WHERE loop_execution_id IN (
                             SELECT id FROM loop_executions WHERE loop_id IN (");
    push_all(&mut s2, id_list);
    push_all(&mut s2, ")
                         )");
    let mut s3 = String::new();
    push_all(&mut s3, "DELETE FROM loop_phase_executions
                         WHERE loop_execution_id IN (
                             SELECT id FROM loop_executions WHERE loop_id IN (");
    push_all(&mut s3, id_list);
    push_all(&mut s3, ")
                         )");
    let mut s4 = String::new();
    push_all(&mut s4, "DELETE FROM loop_executions WHERE loop_id IN (");
    push_all(&mut s4, id_list);
    push_all(&mut s4, ")");
    let mut s5 = String::new();
    push_all(&mut s5, "DELETE FROM loop_triggers WHERE loop_id IN (");
    push_all(&mut s5, id_list);
    push_all(&mut s5, ")");
    let mut s6 = String::new();
    push_all(&mut s6, "DELETE FROM loop_tags WHERE loop_id IN (");
    push_all(&mut s6, id_list);
    push_all(&mut s6, ")");
    let mut s7 = String::new();
    push_all(&mut s7, "DELETE FROM loop_steps WHERE loop_id IN (");
    push_all(&mut s7, id_list);
    push_all(&mut s7, ")");
    let mut s8 = String::new();
    push_all(&mut s8, "DELETE FROM loop_phases WHERE loop_id IN (");
    push_all(&mut s8, id_list);
    push_all(&mut s8, ")");
    let mut s9 = String::new();
    push_all(&mut s9, "DELETE FROM loops WHERE id IN (");
    push_all(&mut s9, id_list);
    push_all(&mut s9, ")");
    vec![s0, s1, s2, s3, s4, s5, s6, s7, s8, s9]
}

/// The manual loops (no process template), by id and name.
pub fn manual_loops_sql() -> (s: &'static str)
    ensures
        s@ == "SELECT id, name FROM loops WHERE process_template_id IS NULL"@,
{
    "SELECT id, name FROM loops WHERE process_template_id IS NULL"
}

} // verus!
