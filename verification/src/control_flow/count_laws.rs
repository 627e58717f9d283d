//! Which counts and layouts a body may declare.
use crate::checks::{first_failure, lemma_no_failure, lemma_success_means_all};
use crate::control_flow::layouts::{capture_layout_check, constant_layout_check};
use crate::control_flow::limits::{VerificationLimits, limits_and_counts_checks};
use crate::control_flow::model::{
    CompilerCaptureLayout, CompilerConstantLayout, FunctionIndexDomains,
};
use crate::control_flow::pipeline::{StackVerificationMode, capture_check, constant_check};
use crate::function::{UnverifiedFunctionHeader, VerifiedFunctionHeader};
use vstd::prelude::*;

verus! {

/// Most entries of a domain that two bytes index, with two numbers kept free.
pub open spec fn most_entries() -> int {
    0x1_0000 - 2
}

/// Counts are accepted exactly if code, constants and atoms stay within the
/// limits, arguments, locals, cells and closure variables each can be indexed, and
/// neither the limit of the stack nor a stored size of it exceeds what can be
/// addressed. A stored size stays within the limit of the stack too.
pub proof fn lemma_counts_are_accepted_within_limits(
    bytecode_len: nat,
    domains: FunctionIndexDomains,
    header: UnverifiedFunctionHeader,
    stored: Option<u32>,
    limits: VerificationLimits,
)
    requires
        bytecode_len <= u64::MAX,
    ensures
        first_failure(
            limits_and_counts_checks(bytecode_len, domains, header, stored, limits),
        ).is_ok() <==> {
            &&& limits.max_stack_depth <= most_entries()
            &&& bytecode_len <= limits.max_bytecode_bytes_per_function
            &&& domains.constant_pool_len <= limits.max_constants_per_function
            &&& domains.atom_pool_len <= limits.max_atom_pool_entries
            &&& domains.argument_count <= most_entries()
            &&& domains.local_count <= most_entries()
            &&& header.variable_reference_count <= most_entries()
            &&& domains.closure_var_count <= most_entries()
            &&& match stored {
                Some(size) => size <= most_entries() && size <= limits.max_stack_depth,
                None => true,
            }
        },
{
    let checks = limits_and_counts_checks(bytecode_len, domains, header, stored, limits);
    if first_failure(checks).is_ok() {
        lemma_success_means_all(checks);
        assert(checks[0].is_ok() && checks[1].is_ok() && checks[2].is_ok() && checks[3].is_ok());
        assert(checks[4].is_ok() && checks[5].is_ok() && checks[6].is_ok() && checks[7].is_ok());
        if stored.is_some() {
            assert(checks[8].is_ok() && checks[9].is_ok());
        }
    } else if forall|i: int| 0 <= i < checks.len() ==> (#[trigger] checks[i]).is_ok() {
        lemma_no_failure(checks);
    }
}

/// A body that a compiler generated needs a capture layout if it declares cells,
/// and a constant layout if it has constants. A stored body needs neither. A
/// layout that is there has to fit.
pub proof fn lemma_layouts_are_there_where_needed(
    mode: StackVerificationMode,
    capture: Option<CompilerCaptureLayout>,
    constants: Option<CompilerConstantLayout>,
    domains: FunctionIndexDomains,
    header: VerifiedFunctionHeader,
)
    ensures
        capture.is_some() ==> (capture_check(mode, capture, domains, header).is_ok()
            <==> capture_layout_check(capture.unwrap(), domains, header).is_ok()),
        constants.is_some() ==> (constant_check(mode, constants, domains).is_ok()
            <==> constant_layout_check(constants.unwrap(), domains).is_ok()),
        capture.is_none() ==> (capture_check(mode, capture, domains, header).is_ok() <==> match mode {
            StackVerificationMode::CompilerGenerated => header.variable_reference_count == 0,
            StackVerificationMode::Serialized { .. } => true,
        }),
        constants.is_none() ==> (constant_check(mode, constants, domains).is_ok() <==> match mode {
            StackVerificationMode::CompilerGenerated => domains.constant_pool_len == 0,
            StackVerificationMode::Serialized { .. } => true,
        }),
{
}

} // verus!
