//! What a graph costs before its functions are checked.
use crate::bytecode::model::{BytecodeGraphUsage, UnverifiedFunctionMetadata, no_usage};
use crate::bytecode::preflight::{
    PreflightInput, closures_from, counted_bytes_from, mappings_from, preflight, variables_from,
    with_function, with_functions_from, within_limits,
};
use vstd::prelude::*;

verus! {

/// Frame states of the functions from `at` on: one for each instruction and
/// binding that is followed.
pub open spec fn frame_states_from(input: PreflightInput, at: int) -> int
    decreases input.metadata.len() - at,
{
    if at < 0 || at >= input.metadata.len() {
        0
    } else {
        input.functions[at].control_flow.spec_instructions().len() * input.followed[at]
            + frame_states_from(input, at + 1)
    }
}

/// Whether what is used already and what the functions from `at` on cost stays
/// within the limits.
pub open spec fn can_be_paid(input: PreflightInput, usage: BytecodeGraphUsage, at: int) -> bool {
    let limits = input.limits;
    &&& usage.variable_definitions + variables_from(input.metadata, at)
        <= limits.max_variable_definitions
    &&& usage.closure_definitions + closures_from(input.metadata, at)
        <= limits.max_closure_definitions
    &&& usage.source_mappings + mappings_from(input.metadata, at) <= limits.max_source_mappings
    &&& usage.source_bytes + counted_bytes_from(input.metadata, input.counts, at)
        <= limits.max_source_bytes
    &&& usage.frame_state_entries + frame_states_from(input, at) <= limits.max_frame_state_entries
}

proof fn lemma_sizes(metadata: UnverifiedFunctionMetadata)
    ensures
        metadata.variables@.len() <= u64::MAX,
        metadata.closures@.len() <= u64::MAX,
        metadata.source.mappings@.len() <= u64::MAX,
{
    assert(vstd::slice::spec_slice_len(&*metadata.variables) == metadata.variables@.len());
    assert(vstd::slice::spec_slice_len(&*metadata.closures) == metadata.closures@.len());
    assert(vstd::slice::spec_slice_len(&*metadata.source.mappings)
        == metadata.source.mappings@.len());
}

proof fn lemma_states_are_counted(input: PreflightInput, at: int)
    ensures
        0 <= frame_states_from(input, at),
    decreases input.metadata.len() - at,
{
    if 0 <= at < input.metadata.len() {
        lemma_states_are_counted(input, at + 1);
        let instructions = input.functions[at].control_flow.spec_instructions().len() as int;
        let followed = input.followed[at] as int;
        assert(0 <= instructions * followed) by (nonlinear_arith)
            requires
                0 <= instructions,
                0 <= followed,
        ;
    }
}

proof fn lemma_paid_one_by_one(input: PreflightInput, at: int, usage: BytecodeGraphUsage)
    requires
        0 <= at <= input.metadata.len(),
        within_limits(usage, input.limits),
    ensures
        with_functions_from(input, at, usage).is_ok() <==> can_be_paid(input, usage, at),
        with_functions_from(input, at, usage).is_ok() ==> with_functions_from(
            input,
            at,
            usage,
        )->Ok_0.frame_state_entries == usage.frame_state_entries + frame_states_from(input, at),
    decreases input.metadata.len() - at,
{
    if at < input.metadata.len() {
        lemma_sizes(input.metadata[at]);
        lemma_states_are_counted(input, at + 1);
        let instructions = input.functions[at].control_flow.instructions@.len() as int;
        let followed = input.followed[at] as int;
        assert(0 <= instructions * followed) by (nonlinear_arith)
            requires
                0 <= instructions,
                0 <= followed,
        ;
        if with_function(input, at, usage).is_ok() {
            let next = with_function(input, at, usage)->Ok_0;
            lemma_paid_one_by_one(input, at + 1, next);
            assert(can_be_paid(input, next, at + 1) == can_be_paid(input, usage, at));
        } else {
            assert(!can_be_paid(input, usage, at));
        }
    }
}

/// A graph is charged exactly if the closure edges that were evaluated to build
/// it, its definitions, its mappings, its counted texts and its frame states stay
/// within the limits, each sum on its own.
pub proof fn lemma_graphs_are_charged_what_they_hold(
    input: PreflightInput,
    closure_edge_evaluations: u64,
)
    ensures
        ({
            let paid = preflight(input, closure_edge_evaluations);
            let limits = input.limits;
            &&& paid.is_ok() <==> {
                &&& closure_edge_evaluations <= limits.max_policy_transfers
                &&& variables_from(input.metadata, 0) <= limits.max_variable_definitions
                &&& closures_from(input.metadata, 0) <= limits.max_closure_definitions
                &&& mappings_from(input.metadata, 0) <= limits.max_source_mappings
                &&& counted_bytes_from(input.metadata, input.counts, 0) <= limits.max_source_bytes
                &&& frame_states_from(input, 0) <= limits.max_frame_state_entries
            }
            &&& paid.is_ok() ==> paid->Ok_0.frame_state_entries == frame_states_from(input, 0)
        }),
{
    let first = BytecodeGraphUsage { policy_transfers: closure_edge_evaluations, ..no_usage() };
    if closure_edge_evaluations <= input.limits.max_policy_transfers {
        lemma_paid_one_by_one(input, 0, first);
    }
}

} // verus!
