//! Source evidence of a function against its body.
use crate::bytecode::error::{
    BytecodeVerificationError, BytecodeVerificationErrorKind, function_error,
};
use crate::bytecode::model::{
    PcSourceSpan, SourceByteSpan, UnverifiedFunctionMetadata, span_of_text, strictly_increasing,
};
use crate::bytecode::operand_use::{saturated_u32, usize_to_u32};
use crate::checks::{
    first_failure, lemma_first_failure_at, lemma_no_failure, lemma_success_means_all,
};
use crate::control_flow::model::{VerifiedControlFlow, VerifiedInstruction};
use crate::function_graph::FunctionTemplateId;
use crate::instruction::BytecodePc;
use vstd::prelude::*;
use vstd::string::StringSliceAdditionalSpecFns;

verus! {

/// The check that a span is a range of whole characters.
pub open spec fn span_check(id: FunctionTemplateId, bytes: Seq<u8>, span: SourceByteSpan) -> Result<
    (),
    BytecodeVerificationError,
> {
    if span_of_text(bytes, span) {
        Ok(())
    } else {
        Err(function_error(id, BytecodeVerificationErrorKind::InvalidSourceSpan { span }))
    }
}

/// Whether a span lies inside another.
pub open spec fn spec_contains(outer: SourceByteSpan, inner: SourceByteSpan) -> bool {
    outer.start <= inner.start && inner.end <= outer.end
}

#[verifier::when_used_as_spec(spec_contains)]
fn contains(outer: SourceByteSpan, inner: SourceByteSpan) -> (inside: bool)
    ensures
        inside == spec_contains(outer, inner),
{
    outer.start <= inner.start && inner.end <= outer.end
}

fn validate_source_span(id: FunctionTemplateId, text: &str, span: SourceByteSpan) -> (checked:
    Result<(), BytecodeVerificationError>)
    ensures
        checked == span_check(id, text.spec_bytes(), span),
{
    let start: usize = span.start as usize;
    let end: usize = span.end as usize;
    if start > end || end > text.as_bytes().len() || !text.is_char_boundary(start)
        || !text.is_char_boundary(end) {
        return Err(
            BytecodeVerificationError::function(
                id,
                BytecodeVerificationErrorKind::InvalidSourceSpan { span },
            ),
        );
    }
    Ok(())
}

/// The check of a function's name against its span.
pub open spec fn name_span_check(
    id: FunctionTemplateId,
    metadata: UnverifiedFunctionMetadata,
) -> Result<(), BytecodeVerificationError> {
    let source = metadata.source;
    if metadata.function_name.is_some() != source.name_span.is_some() {
        Err(function_error(id, BytecodeVerificationErrorKind::FunctionNameSourceMismatch))
    } else {
        match source.name_span {
            Some(span) => if !span_of_text(source.text.spec_bytes(), span) {
                Err(function_error(id, BytecodeVerificationErrorKind::InvalidSourceSpan { span }))
            } else if !spec_contains(source.function_span, span) {
                Err(
                    function_error(id, BytecodeVerificationErrorKind::FunctionNameOutsideFunction),
                )
            } else {
                Ok(())
            },
            None => Ok(()),
        }
    }
}

/// The checks that each strict-mode offset lies behind the one before it.
pub open spec fn strict_order_checks(id: FunctionTemplateId, pcs: Seq<BytecodePc>) -> Seq<
    Result<(), BytecodeVerificationError>,
> {
    Seq::new(
        if pcs.len() == 0 {
            0
        } else {
            (pcs.len() - 1) as nat
        },
        |i: int|
            if pcs[i].0 >= pcs[i + 1].0 {
                Err(
                    function_error(
                        id,
                        BytecodeVerificationErrorKind::StrictModePcNotIncreasing {
                            index: saturated_u32(i + 1),
                            previous: pcs[i],
                            current: pcs[i + 1],
                        },
                    ),
                )
            } else {
                Ok(())
            },
    )
}

/// Whether an offset starts an instruction.
pub open(crate) spec fn starts_instruction(
    instructions: Seq<VerifiedInstruction>,
    pc: BytecodePc,
) -> bool {
    exists|i: int|
        0 <= i < instructions.len() && (#[trigger] instructions[i]).decoded.pc == pc
}

/// The checks that each strict-mode offset starts an instruction.
pub open(crate) spec fn strict_start_checks(
    id: FunctionTemplateId,
    instructions: Seq<VerifiedInstruction>,
    pcs: Seq<BytecodePc>,
) -> Seq<Result<(), BytecodeVerificationError>> {
    Seq::new(
        pcs.len(),
        |i: int|
            if !starts_instruction(instructions, pcs[i]) {
                Err(
                    function_error(
                        id,
                        BytecodeVerificationErrorKind::StrictModePcNotInstruction {
                            index: saturated_u32(i),
                            pc: pcs[i],
                        },
                    ),
                )
            } else {
                Ok(())
            },
    )
}

/// The check of one source mapping: it names its instruction's offset and a
/// range inside the function.
pub open(crate) spec fn mapping_check(
    id: FunctionTemplateId,
    instruction: VerifiedInstruction,
    mapping: PcSourceSpan,
    bytes: Seq<u8>,
    function_span: SourceByteSpan,
    at: int,
) -> Result<(), BytecodeVerificationError> {
    if mapping.pc != instruction.decoded.pc {
        Err(
            function_error(
                id,
                BytecodeVerificationErrorKind::SourcePcMismatch {
                    mapping: saturated_u32(at),
                    declared: mapping.pc,
                    actual: instruction.decoded.pc,
                },
            ),
        )
    } else if !span_of_text(bytes, mapping.span) {
        Err(
            function_error(
                id,
                BytecodeVerificationErrorKind::InvalidSourceSpan { span: mapping.span },
            ),
        )
    } else if !spec_contains(function_span, mapping.span) {
        Err(
            function_error(
                id,
                BytecodeVerificationErrorKind::InstructionSourceOutsideFunction {
                    mapping: saturated_u32(at),
                },
            ),
        )
    } else {
        Ok(())
    }
}

/// The checks of all source mappings.
pub open(crate) spec fn mapping_checks(
    id: FunctionTemplateId,
    instructions: Seq<VerifiedInstruction>,
    metadata: UnverifiedFunctionMetadata,
) -> Seq<Result<(), BytecodeVerificationError>> {
    let source = metadata.source;
    Seq::new(
        instructions.len(),
        |i: int|
            mapping_check(
                id,
                instructions[i],
                source.mappings@[i],
                source.text.spec_bytes(),
                source.function_span,
                i,
            ),
    )
}

/// Strict-mode offsets of a source, none where it lists none.
pub open spec fn strict_pcs(metadata: UnverifiedFunctionMetadata) -> Seq<BytecodePc> {
    match metadata.source.strict_mode_pcs {
        Some(pcs) => pcs@,
        None => Seq::empty(),
    }
}

/// The check of a function's source evidence.
pub open(crate) spec fn source_check(
    id: FunctionTemplateId,
    instructions: Seq<VerifiedInstruction>,
    metadata: UnverifiedFunctionMetadata,
) -> Result<(), BytecodeVerificationError> {
    let source = metadata.source;
    let pcs = strict_pcs(metadata);
    let function_span = span_check(id, source.text.spec_bytes(), source.function_span);
    let name_span = name_span_check(id, metadata);
    let order = first_failure(strict_order_checks(id, pcs));
    let starts = first_failure(strict_start_checks(id, instructions, pcs));
    if source.display_name@.len() == 0 {
        Err(function_error(id, BytecodeVerificationErrorKind::EmptySourceDisplayName))
    } else if function_span.is_err() {
        function_span
    } else if name_span.is_err() {
        name_span
    } else if source.mappings@.len() != instructions.len() {
        Err(
            function_error(
                id,
                BytecodeVerificationErrorKind::SourceMappingCountMismatch {
                    instructions: instructions.len() as u64,
                    mappings: source.mappings@.len() as u64,
                },
            ),
        )
    } else if pcs.len() > instructions.len() {
        Err(
            function_error(
                id,
                BytecodeVerificationErrorKind::StrictModeInstructionCountOutOfBounds {
                    strict_instructions: pcs.len() as u64,
                    instructions: instructions.len() as u64,
                },
            ),
        )
    } else if order.is_err() {
        order
    } else if starts.is_err() {
        starts
    } else {
        first_failure(mapping_checks(id, instructions, metadata))
    }
}

/// Offsets that each lie behind the one before them strictly increase.
proof fn lemma_ordered(id: FunctionTemplateId, pcs: Seq<BytecodePc>)
    requires
        first_failure(strict_order_checks(id, pcs)).is_ok(),
    ensures
        strictly_increasing(pcs),
{
    lemma_success_means_all(strict_order_checks(id, pcs));
    assert forall|i: int, j: int| 0 <= i < j < pcs.len() implies (#[trigger] pcs[i]).0 < (
    #[trigger] pcs[j]).0 by {
        lemma_ordered_between(id, pcs, i, j);
    }
}

proof fn lemma_ordered_between(id: FunctionTemplateId, pcs: Seq<BytecodePc>, i: int, j: int)
    requires
        0 <= i < j < pcs.len(),
        forall|k: int|
            0 <= k < strict_order_checks(id, pcs).len() ==> (#[trigger] strict_order_checks(
                id,
                pcs,
            )[k]).is_ok(),
    ensures
        pcs[i].0 < pcs[j].0,
    decreases j - i,
{
    assert(strict_order_checks(id, pcs)[j - 1].is_ok());
    if i + 1 < j {
        lemma_ordered_between(id, pcs, i, j - 1);
    }
}

fn verify_strict_mode_order(id: FunctionTemplateId, pcs: &[BytecodePc]) -> (checked: Result<
    (),
    BytecodeVerificationError,
>)
    ensures
        checked == first_failure(strict_order_checks(id, pcs@)),
{
    let ghost checks = strict_order_checks(id, pcs@);
    let count: usize = pcs.len();
    let mut at: usize = 1;
    while at < count
        invariant
            1 <= at,
            count == pcs@.len(),
            count > 0 ==> at <= count,
            checks == strict_order_checks(id, pcs@),
            forall|i: int| 0 <= i < at - 1 ==> (#[trigger] checks[i]).is_ok(),
        decreases count - at,
    {
        if pcs[at - 1].0 >= pcs[at].0 {
            proof {
                lemma_first_failure_at(checks, at - 1);
            }
            return Err(
                BytecodeVerificationError::function(
                    id,
                    BytecodeVerificationErrorKind::StrictModePcNotIncreasing {
                        index: usize_to_u32(at),
                        previous: pcs[at - 1],
                        current: pcs[at],
                    },
                ),
            );
        }
        assert(checks[at - 1].is_ok());
        at = at + 1;
    }
    proof {
        lemma_no_failure(checks);
    }
    Ok(())
}

fn verify_strict_mode_starts(
    id: FunctionTemplateId,
    flow: &VerifiedControlFlow,
    pcs: &[BytecodePc],
) -> (checked: Result<(), BytecodeVerificationError>)
    ensures
        checked == first_failure(strict_start_checks(id, flow.instructions@, pcs@)),
{
    let ghost checks = strict_start_checks(id, flow.instructions@, pcs@);
    let mut at: usize = 0;
    while at < pcs.len()
        invariant
            at <= pcs@.len(),
            checks == strict_start_checks(id, flow.instructions@, pcs@),
            forall|i: int| 0 <= i < at ==> (#[trigger] checks[i]).is_ok(),
        decreases pcs@.len() - at,
    {
        let starts: bool = flow.is_instruction_start(pcs[at]);
        proof {
            let instructions = flow.instructions@;
            if starts {
                let i = choose|i: int|
                    0 <= i < flow.spec_instructions().len() && (
                    #[trigger] flow.spec_instructions()[i]).spec_decoded().pc == pcs@[at as int];
                assert(instructions[i].decoded.pc == pcs@[at as int]);
            }
            if starts_instruction(instructions, pcs@[at as int]) {
                let i = choose|i: int|
                    0 <= i < instructions.len() && (#[trigger] instructions[i]).decoded.pc
                        == pcs@[at as int];
                assert(flow.spec_instructions()[i].spec_decoded().pc == pcs@[at as int]);
            }
        }
        if !starts {
            proof {
                lemma_first_failure_at(checks, at as int);
            }
            return Err(
                BytecodeVerificationError::function(
                    id,
                    BytecodeVerificationErrorKind::StrictModePcNotInstruction {
                        index: usize_to_u32(at),
                        pc: pcs[at],
                    },
                ),
            );
        }
        assert(checks[at as int].is_ok());
        at = at + 1;
    }
    proof {
        lemma_no_failure(checks);
    }
    Ok(())
}

fn verify_mappings(
    id: FunctionTemplateId,
    instructions: &[VerifiedInstruction],
    metadata: &UnverifiedFunctionMetadata,
) -> (checked: Result<(), BytecodeVerificationError>)
    requires
        metadata.source.mappings@.len() == instructions@.len(),
    ensures
        checked == first_failure(mapping_checks(id, instructions@, *metadata)),
{
    let source = &metadata.source;
    let ghost checks = mapping_checks(id, instructions@, *metadata);
    let mut at: usize = 0;
    while at < instructions.len()
        invariant
            at <= instructions@.len(),
            *source == metadata.source,
            source.mappings@.len() == instructions@.len(),
            checks == mapping_checks(id, instructions@, *metadata),
            forall|i: int| 0 <= i < at ==> (#[trigger] checks[i]).is_ok(),
        decreases instructions@.len() - at,
    {
        let mapping = source.mappings[at];
        let actual = instructions[at].decoded.pc;
        assert(checks[at as int] == mapping_check(
            id,
            instructions@[at as int],
            mapping,
            source.text.spec_bytes(),
            source.function_span,
            at as int,
        ));
        proof {
            if checks[at as int].is_err() {
                lemma_first_failure_at(checks, at as int);
            }
        }
        if mapping.pc.0 != actual.0 {
            return Err(
                BytecodeVerificationError::function(
                    id,
                    BytecodeVerificationErrorKind::SourcePcMismatch {
                        mapping: usize_to_u32(at),
                        declared: mapping.pc,
                        actual,
                    },
                ),
            );
        }
        validate_source_span(id, &source.text, mapping.span)?;
        if !contains(source.function_span, mapping.span) {
            return Err(
                BytecodeVerificationError::function(
                    id,
                    BytecodeVerificationErrorKind::InstructionSourceOutsideFunction {
                        mapping: usize_to_u32(at),
                    },
                ),
            );
        }
        at = at + 1;
    }
    proof {
        lemma_no_failure(checks);
    }
    Ok(())
}

/// Checks the source evidence of a function: its spans are ranges of the text
/// inside the function, one per instruction, and its strict-mode offsets are
/// instructions in order.
pub fn verify_source(
    id: FunctionTemplateId,
    flow: &VerifiedControlFlow,
    metadata: &UnverifiedFunctionMetadata,
) -> (checked: Result<(), BytecodeVerificationError>)
    ensures
        checked == source_check(id, flow.spec_instructions(), *metadata),
        checked.is_ok() ==> span_of_text(
            metadata.source.text.spec_bytes(),
            metadata.source.function_span,
        ) && strictly_increasing(strict_pcs(*metadata)),
{
    let source = &metadata.source;
    let instructions = flow.instructions();
    if source.display_name.is_empty() {
        return Err(
            BytecodeVerificationError::function(
                id,
                BytecodeVerificationErrorKind::EmptySourceDisplayName,
            ),
        );
    }
    validate_source_span(id, &source.text, source.function_span)?;
    if metadata.function_name.is_some() != source.name_span.is_some() {
        return Err(
            BytecodeVerificationError::function(
                id,
                BytecodeVerificationErrorKind::FunctionNameSourceMismatch,
            ),
        );
    }
    if let Some(name_span) = source.name_span {
        validate_source_span(id, &source.text, name_span)?;
        if !contains(source.function_span, name_span) {
            return Err(
                BytecodeVerificationError::function(
                    id,
                    BytecodeVerificationErrorKind::FunctionNameOutsideFunction,
                ),
            );
        }
    }
    if source.mappings.len() != instructions.len() {
        return Err(
            BytecodeVerificationError::function(
                id,
                BytecodeVerificationErrorKind::SourceMappingCountMismatch {
                    instructions: instructions.len() as u64,
                    mappings: source.mappings.len() as u64,
                },
            ),
        );
    }
    if let Some(pcs) = &source.strict_mode_pcs {
        if pcs.len() > instructions.len() {
            return Err(
                BytecodeVerificationError::function(
                    id,
                    BytecodeVerificationErrorKind::StrictModeInstructionCountOutOfBounds {
                        strict_instructions: pcs.len() as u64,
                        instructions: instructions.len() as u64,
                    },
                ),
            );
        }
        verify_strict_mode_order(id, pcs)?;
        proof {
            lemma_ordered(id, pcs@);
        }
        verify_strict_mode_starts(id, flow, pcs)?;
    }
    proof {
        if source.strict_mode_pcs.is_none() {
            lemma_no_failure(strict_order_checks(id, strict_pcs(*metadata)));
            lemma_no_failure(strict_start_checks(id, instructions@, strict_pcs(*metadata)));
        }
    }
    verify_mappings(id, instructions, metadata)
}

} // verus!
