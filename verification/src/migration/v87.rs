//! v87: self-heal of databases left in a residual state.
use vstd::prelude::*;

use super::Migration;

verus! {

/// v87: idempotently adds the key columns that residual historical states lack.
pub struct V87SelfHealResidual;

impl Migration for V87SelfHealResidual {
    fn version(&self) -> (v: i64)
        ensures
            v == 87,
    {
        87
    }

    fn name(&self) -> (n: &'static str)
        ensures
            n@ == "self_heal_residual"@,
    {
        "self_heal_residual"
    }
}

} // verus!
