//! The loop-orchestration migrations v6 to v11 of the first trait-based
//! registry, later folded into the consolidated v41 migration.
use vstd::prelude::*;

use super::Migration;

verus! {

/// v6: adds `todos.kind`, telling one-off items ('item') from reusable steps ('step').
pub struct V6TodoKind;

impl Migration for V6TodoKind {
    fn version(&self) -> (v: i64)
        ensures
            v == 6,
    {
        6
    }

    fn name(&self) -> (n: &'static str)
        ensures
            n@ == "todo_kind"@,
    {
        "todo_kind"
    }
}

/// v7: the six Loop Studio tables with their indexes and triggers.
pub struct V7LoopStudio;

impl Migration for V7LoopStudio {
    fn version(&self) -> (v: i64)
        ensures
            v == 7,
    {
        7
    }

    fn name(&self) -> (n: &'static str)
        ensures
            n@ == "loop_studio"@,
    {
        "loop_studio"
    }
}

/// v8: adds `loops.workspace`, replacing the product/repo/branch columns.
pub struct V8LoopWorkspace;

impl Migration for V8LoopWorkspace {
    fn version(&self) -> (v: i64)
        ensures
            v == 8,
    {
        8
    }

    fn name(&self) -> (n: &'static str)
        ensures
            n@ == "loop_workspace"@,
    {
        "loop_workspace"
    }
}

/// v9: steps get a table of their own.
pub struct V9IndependentSteps;

impl Migration for V9IndependentSteps {
    fn version(&self) -> (v: i64)
        ensures
            v == 9,
    {
        9
    }

    fn name(&self) -> (n: &'static str)
        ensures
            n@ == "independent_steps"@,
    {
        "independent_steps"
    }
}

/// v10: adds a color to steps.
pub struct V10StepColor;

impl Migration for V10StepColor {
    fn version(&self) -> (v: i64)
        ensures
            v == 10,
    {
        10
    }

    fn name(&self) -> (n: &'static str)
        ensures
            n@ == "step_color"@,
    {
        "step_color"
    }
}

/// v11: the loop flow-control columns.
pub struct V11LoopFlowControl;

impl Migration for V11LoopFlowControl {
    fn version(&self) -> (v: i64)
        ensures
            v == 11,
    {
        11
    }

    fn name(&self) -> (n: &'static str)
        ensures
            n@ == "loop_flow_control"@,
    {
        "loop_flow_control"
    }
}

} // verus!
