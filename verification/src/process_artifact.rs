//! Batch lookup of step-execution gates, grouped by the step execution they
//! belong to.
use vstd::prelude::*;

use std::collections::HashMap;

verus! {

broadcast use vstd::std_specs::hash::group_hash_axioms;

/// The items of `rows` whose key is `k`, in row order.
pub open spec fn items_with_key<T>(rows: Seq<(i64, T)>, k: i64) -> Seq<T>
    decreases rows.len(),
{
    if rows.len() == 0 {
        Seq::empty()
    } else {
        let rest = items_with_key(rows.drop_last(), k);
        if rows.last().0 == k {
            rest.push(rows.last().1)
        } else {
            rest
        }
    }
}

/// The keys that occur in `rows`.
pub open spec fn keys_of<T>(rows: Seq<(i64, T)>) -> Set<i64> {
    Set::new(|k: i64| exists|i: int| 0 <= i < rows.len() && rows[i].0 == k)
}

/// Groups `(step_execution_id, gate)` rows by step execution. Each group
/// keeps the rows' order (the rows come sorted by gate id, so each group is
/// too); step executions without gates get no entry.
pub fn group_by_step_execution<T>(rows: Vec<(i64, T)>) -> (m: HashMap<i64, Vec<T>>)
    ensures
        m@.dom() == keys_of(rows@),
        forall|k: i64| #[trigger] m@.contains_key(k) ==> m@[k]@ == items_with_key(rows@, k),
{
    let ghost all = rows@;
    let mut m: HashMap<i64, Vec<T>> = HashMap::new();
    assert(m@.dom() =~= keys_of(all.take(0)));
    for row in it: rows.into_iter()
        invariant
            it.seq() == all,
            m@.dom() == keys_of(all.take(it.index())),
            forall|k: i64| #[trigger] m@.contains_key(k) ==> m@[k]@ == items_with_key(all.take(it.index()), k),
    {
        let ghost done = it.index();
        let ghost before = m@;
        let (k, t) = row;
        proof {
            assert((k, t) == all[done]);
        }
        let mut group = match m.remove(&k) {
            Some(g) => g,
            None => Vec::new(),
        };
        group.push(t);
        m.insert(k, group);
        proof {
            let p = all.take(done);
            let q = all.take(done + 1);
            assert(q.drop_last() =~= p);
            assert(q.last() == (k, t));
            assert forall|j: i64| #[trigger] m@.contains_key(j) implies m@[j]@ == items_with_key(q, j) by {
                if j != k {
                    assert(before.contains_key(j));
                }
                else if !before.contains_key(k) {
                    assert(!keys_of(p).contains(k));
                    lemma_no_items_without_key(p, k);
                }
            }
            assert forall|j: i64| m@.dom().contains(j) <==> keys_of(q).contains(j) by {
                if keys_of(q).contains(j) && j != k {
                    let i = choose|i: int| 0 <= i < q.len() && q[i].0 == j;
                    assert(p[i].0 == j);
                }
                if before.dom().contains(j) {
                    let i = choose|i: int| 0 <= i < p.len() && p[i].0 == j;
                    assert(q[i].0 == j);
                }
                if j == k {
                    assert(q[done].0 == k);
                }
            }
            assert(m@.dom() =~= keys_of(q));
        }
    }
    assert(all.take(all.len() as int) =~= all);
    m
}

proof fn lemma_no_items_without_key<T>(rows: Seq<(i64, T)>, k: i64)
    requires
        !keys_of(rows).contains(k),
    ensures
        items_with_key(rows, k) == Seq::<T>::empty(),
    decreases rows.len(),
{
    if rows.len() > 0 {
        let p = rows.drop_last();
        assert(!keys_of(p).contains(k)) by {
            if keys_of(p).contains(k) {
                let i = choose|i: int| 0 <= i < p.len() && p[i].0 == k;
                assert(rows[i].0 == k);
            }
        }
        lemma_no_items_without_key(p, k);
        assert(rows[rows.len() - 1].0 != k);
    }
}

} // verus!
