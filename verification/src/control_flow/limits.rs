//! Resource limits of control-flow verification.
use crate::control_flow::error::{
    FunctionCountDomain, VerificationError, VerificationErrorKind, error_at, root_error,
};
use crate::checks::first_failure;
use crate::function::UnverifiedFunctionHeader;
use crate::instruction::DecodedInstruction;
use crate::control_flow::model::FunctionIndexDomains;
use vstd::prelude::*;

verus! {

/// Maximum argument, local, closure-reference, or stack count of one function.
pub const MAX_FUNCTION_INDEX_ENTRIES: u32 = 65_534;

/// Structural maximum operand-stack depth.
pub const MAX_OPERAND_STACK_DEPTH: u32 = 65_534;

/// Inclusive resource maxima of one verification.
#[derive(Clone, Copy, Debug, PartialEq, Eq, Hash, Structural)]
pub struct VerificationLimits {
    /// The per-function bytecode-byte maximum.
    pub max_bytecode_bytes_per_function: u32,
    /// The per-function instruction maximum.
    pub max_instructions_per_function: u32,
    /// The per-function constant count maximum.
    pub max_constants_per_function: u32,
    /// The function-local atom-pool entry maximum.
    pub max_atom_pool_entries: u32,
    /// The transfer-function evaluation maximum.
    pub max_transfer_evaluations: u64,
    /// The configured stack-depth maximum.
    pub max_stack_depth: u32,
}

impl VerificationLimits {
    /// Limits for untrusted bytecode.
    pub open spec fn spec_untrusted() -> VerificationLimits {
        VerificationLimits {
            max_bytecode_bytes_per_function: 0x100_0000,
            max_instructions_per_function: 4_194_304,
            max_constants_per_function: 262_144,
            max_atom_pool_entries: 1_048_576,
            max_transfer_evaluations: 33_554_432,
            max_stack_depth: MAX_OPERAND_STACK_DEPTH,
        }
    }

    /// Returns the limits for untrusted bytecode: sixteen mebibytes of
    /// bytecode per function, and the matching instruction, pool and work
    /// budgets.
    pub fn untrusted() -> (limits: Self)
        ensures
            limits == Self::spec_untrusted(),
    {
        VerificationLimits {
            max_bytecode_bytes_per_function: 16 * 1024 * 1024,
            max_instructions_per_function: 4_194_304,
            max_constants_per_function: 262_144,
            max_atom_pool_entries: 1_048_576,
            max_transfer_evaluations: 33_554_432,
            max_stack_depth: MAX_OPERAND_STACK_DEPTH,
        }
    }

    /// Creates an explicit verification profile.
    pub fn new(
        max_bytecode_bytes_per_function: u32,
        max_instructions_per_function: u32,
        max_constants_per_function: u32,
        max_atom_pool_entries: u32,
        max_transfer_evaluations: u64,
        max_stack_depth: u32,
    ) -> (limits: Self)
        ensures
            limits == (VerificationLimits {
                max_bytecode_bytes_per_function,
                max_instructions_per_function,
                max_constants_per_function,
                max_atom_pool_entries,
                max_transfer_evaluations,
                max_stack_depth,
            }),
    {
        VerificationLimits {
            max_bytecode_bytes_per_function,
            max_instructions_per_function,
            max_constants_per_function,
            max_atom_pool_entries,
            max_transfer_evaluations,
            max_stack_depth,
        }
    }

    /// Returns the per-function bytecode-byte maximum.
    pub fn max_bytecode_bytes_per_function(self) -> (maximum: u32)
        ensures
            maximum == self.max_bytecode_bytes_per_function,
    {
        self.max_bytecode_bytes_per_function
    }

    /// Returns the per-function instruction maximum.
    pub fn max_instructions_per_function(self) -> (maximum: u32)
        ensures
            maximum == self.max_instructions_per_function,
    {
        self.max_instructions_per_function
    }

    /// Returns the per-function constant count maximum.
    pub fn max_constants_per_function(self) -> (maximum: u32)
        ensures
            maximum == self.max_constants_per_function,
    {
        self.max_constants_per_function
    }

    /// Returns the function-local atom-pool entry maximum.
    pub fn max_atom_pool_entries(self) -> (maximum: u32)
        ensures
            maximum == self.max_atom_pool_entries,
    {
        self.max_atom_pool_entries
    }

    /// Returns the transfer-function evaluation maximum.
    pub fn max_transfer_evaluations(self) -> (maximum: u64)
        ensures
            maximum == self.max_transfer_evaluations,
    {
        self.max_transfer_evaluations
    }

    /// Returns the configured stack-depth maximum.
    pub fn max_stack_depth(self) -> (maximum: u32)
        ensures
            maximum == self.max_stack_depth,
    {
        self.max_stack_depth
    }
}

impl Default for VerificationLimits {
    fn default() -> (limits: Self)
        ensures
            limits == VerificationLimits::spec_untrusted(),
    {
        VerificationLimits::untrusted()
    }
}

/// Resource named by a verifier budget or allocation error.
#[derive(Clone, Copy, Debug, PartialEq, Eq, Hash, Structural)]
pub enum VerificationResource {
    /// Encoded bytes in one function.
    BytecodeBytes,
    /// Decoded instructions in one function.
    Instructions,
    /// Constants in one function.
    Constants,
    /// Entries in one function-local atom pool.
    AtomPoolEntries,
    /// Abstract transfer-function evaluations.
    TransferEvaluations,
    /// Operand-stack entries.
    StackDepth,
    /// Instruction-start bitmap words.
    InstructionBoundaryWords,
    /// Worklist entries.
    WorklistEntries,
    /// Compiler capture-layout entries.
    CompilerCaptures,
}

impl VerificationResource {
    /// Words that name the value in messages.
    pub open spec fn spec_label(self) -> Seq<char> {
        match self {
            VerificationResource::BytecodeBytes => "bytecode bytes"@,
            VerificationResource::Instructions => "instructions"@,
            VerificationResource::Constants => "constants"@,
            VerificationResource::AtomPoolEntries => "atom-pool entries"@,
            VerificationResource::TransferEvaluations => "transfer evaluations"@,
            VerificationResource::StackDepth => "stack entries"@,
            VerificationResource::InstructionBoundaryWords => "instruction-boundary words"@,
            VerificationResource::WorklistEntries => "worklist entries"@,
            VerificationResource::CompilerCaptures => "compiler capture entries"@,
        }
    }

    /// Returns the words that name the value in messages.
    pub fn label(self) -> (label: &'static str)
        ensures
            label@ == self.spec_label(),
    {
        match self {
            VerificationResource::BytecodeBytes => "bytecode bytes",
            VerificationResource::Instructions => "instructions",
            VerificationResource::Constants => "constants",
            VerificationResource::AtomPoolEntries => "atom-pool entries",
            VerificationResource::TransferEvaluations => "transfer evaluations",
            VerificationResource::StackDepth => "stack entries",
            VerificationResource::InstructionBoundaryWords => "instruction-boundary words",
            VerificationResource::WorklistEntries => "worklist entries",
            VerificationResource::CompilerCaptures => "compiler capture entries",
        }
    }
}

/// Failure to reserve `requested` entries of `resource` for the function.
pub open spec fn allocation_failure(
    resource: VerificationResource,
    requested: u64,
) -> VerificationError {
    root_error(VerificationErrorKind::AllocationFailed { resource, requested })
}

/// Failure to reserve `requested` entries of `resource` at one instruction.
pub open spec fn allocation_failure_at(
    decoded: DecodedInstruction,
    resource: VerificationResource,
    requested: u64,
) -> VerificationError {
    error_at(decoded, VerificationErrorKind::AllocationFailed { resource, requested })
}

/// The check of one count against its structural maximum.
pub open spec fn structural_count_check(domain: FunctionCountDomain, value: u32) -> Result<
    (),
    VerificationError,
> {
    if value > MAX_FUNCTION_INDEX_ENTRIES {
        Err(
            root_error(
                VerificationErrorKind::MetadataCountOutOfRange {
                    domain,
                    value,
                    maximum: MAX_FUNCTION_INDEX_ENTRIES,
                },
            ),
        )
    } else {
        Ok(())
    }
}

fn check_structural_count(domain: FunctionCountDomain, value: u32) -> (checked: Result<
    (),
    VerificationError,
>)
    ensures
        checked == structural_count_check(domain, value),
{
    if value > MAX_FUNCTION_INDEX_ENTRIES {
        return Err(
            VerificationError::root(
                VerificationErrorKind::MetadataCountOutOfRange {
                    domain,
                    value,
                    maximum: MAX_FUNCTION_INDEX_ENTRIES,
                },
            ),
        );
    }
    Ok(())
}

/// The check of one observed amount against its configured limit.
pub open spec fn limit_check(resource: VerificationResource, observed: u64, limit: u64) -> Result<
    (),
    VerificationError,
> {
    if observed > limit {
        Err(root_error(VerificationErrorKind::LimitExceeded { resource, limit, observed }))
    } else {
        Ok(())
    }
}

fn check_limit(resource: VerificationResource, observed: u64, limit: u64) -> (checked: Result<
    (),
    VerificationError,
>)
    ensures
        checked == limit_check(resource, observed, limit),
{
    if observed > limit {
        return Err(
            VerificationError::root(
                VerificationErrorKind::LimitExceeded { resource, limit, observed },
            ),
        );
    }
    Ok(())
}

/// Checks of the configured limits and declared counts, in order.
pub open spec fn limits_and_counts_checks(
    bytecode_len: nat,
    domains: FunctionIndexDomains,
    function_header: UnverifiedFunctionHeader,
    expected_stack_size: Option<u32>,
    limits: VerificationLimits,
) -> Seq<Result<(), VerificationError>> {
    let declared = seq![
        if limits.max_stack_depth > MAX_OPERAND_STACK_DEPTH {
            Err(
                root_error(
                    VerificationErrorKind::InvalidStackLimit {
                        value: limits.max_stack_depth,
                        maximum: MAX_OPERAND_STACK_DEPTH,
                    },
                ),
            )
        } else {
            Ok(())
        },
        limit_check(
            VerificationResource::BytecodeBytes,
            bytecode_len as u64,
            limits.max_bytecode_bytes_per_function as u64,
        ),
        limit_check(
            VerificationResource::Constants,
            domains.constant_pool_len as u64,
            limits.max_constants_per_function as u64,
        ),
        limit_check(
            VerificationResource::AtomPoolEntries,
            domains.atom_pool_len as u64,
            limits.max_atom_pool_entries as u64,
        ),
        structural_count_check(FunctionCountDomain::Arguments, domains.argument_count),
        structural_count_check(FunctionCountDomain::Locals, domains.local_count),
        structural_count_check(
            FunctionCountDomain::VariableReferences,
            function_header.variable_reference_count,
        ),
        structural_count_check(FunctionCountDomain::ClosureVariables, domains.closure_var_count),
    ];
    match expected_stack_size {
        None => declared,
        Some(size) => declared + seq![
            structural_count_check(FunctionCountDomain::ExpectedStackSize, size),
            limit_check(
                VerificationResource::StackDepth,
                size as u64,
                limits.max_stack_depth as u64,
            ),
        ],
    }
}

/// Checks the configured limits and declared counts.
pub(crate) fn validate_limits_and_counts(
    bytecode_len: usize,
    domains: FunctionIndexDomains,
    function_header: UnverifiedFunctionHeader,
    expected_stack_size: Option<u32>,
    limits: VerificationLimits,
) -> (checked: Result<(), VerificationError>)
    ensures
        checked == first_failure(
            limits_and_counts_checks(
                bytecode_len as nat,
                domains,
                function_header,
                expected_stack_size,
                limits,
            ),
        ),
{
    proof {
        reveal_with_fuel(first_failure, 11);
    }
    let ghost checks = limits_and_counts_checks(
        bytecode_len as nat,
        domains,
        function_header,
        expected_stack_size,
        limits,
    );
    if limits.max_stack_depth > MAX_OPERAND_STACK_DEPTH {
        return Err(
            VerificationError::root(
                VerificationErrorKind::InvalidStackLimit {
                    value: limits.max_stack_depth,
                    maximum: MAX_OPERAND_STACK_DEPTH,
                },
            ),
        );
    }
    check_limit(
        VerificationResource::BytecodeBytes,
        bytecode_len as u64,
        limits.max_bytecode_bytes_per_function as u64,
    )?;
    check_limit(
        VerificationResource::Constants,
        domains.constant_pool_len as u64,
        limits.max_constants_per_function as u64,
    )?;
    check_limit(
        VerificationResource::AtomPoolEntries,
        domains.atom_pool_len as u64,
        limits.max_atom_pool_entries as u64,
    )?;
    check_structural_count(FunctionCountDomain::Arguments, domains.argument_count)?;
    check_structural_count(FunctionCountDomain::Locals, domains.local_count)?;
    check_structural_count(
        FunctionCountDomain::VariableReferences,
        function_header.variable_reference_count,
    )?;
    check_structural_count(FunctionCountDomain::ClosureVariables, domains.closure_var_count)?;
    if let Some(expected_stack_size) = expected_stack_size {
        check_structural_count(FunctionCountDomain::ExpectedStackSize, expected_stack_size)?;
        check_limit(
            VerificationResource::StackDepth,
            expected_stack_size as u64,
            limits.max_stack_depth as u64,
        )?;
    }
    Ok(())
}

} // verus!
