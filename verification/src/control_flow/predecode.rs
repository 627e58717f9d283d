//! Complete decoding of a body and the map of its instruction boundaries.
use crate::instruction::{
    BytecodePc, DecodeError, DecodedInstruction, InstructionDecoder, decode_at_spec,
    lemma_decoded_operands_match_format,
};
use crate::control_flow::error::{VerificationError, VerificationErrorKind, decode_error, error_at};
use crate::reserve::reserve_vec_exact;
use crate::control_flow::limits::{VerificationResource, allocation_failure, allocation_failure_at};
use vstd::prelude::*;

verus! {

/// Completely decoded instructions and their exact byte-boundary map.
///
/// This stage is structural evidence only. It cannot construct a public
/// control-flow certificate or authorize execution.
pub struct PredecodedBody {
    /// Instructions in byte order.
    pub instructions: Vec<DecodedInstruction>,
    /// One bit per byte, set where an instruction starts.
    pub instruction_start_bitmap: Vec<u64>,
}

/// Whether the bit of byte `offset` is set.
pub open spec fn bitmap_bit(bitmap: Seq<u64>, offset: int) -> bool {
    0 <= offset && offset / 64 < bitmap.len() && bitmap[offset / 64] & (1u64 << ((offset
        % 64) as u64)) != 0
}

/// Whether an instruction starts at byte `offset`.
pub open spec fn starts_at(decoded: Seq<DecodedInstruction>, offset: u32) -> bool {
    exists|i: int| 0 <= i < decoded.len() && (#[trigger] decoded[i]).pc.0 == offset
}

/// The instructions stand in increasing byte order.
pub open spec fn increasing_pcs(decoded: Seq<DecodedInstruction>) -> bool {
    forall|i: int, j: int|
        0 <= i < j < decoded.len() ==> (#[trigger] decoded[i]).pc.0 < (#[trigger] decoded[j]).pc.0
}

/// The set bits inside the bytecode are exactly the instruction starts.
pub open spec fn boundary_map(
    bitmap: Seq<u64>,
    bytecode_len: nat,
    decoded: Seq<DecodedInstruction>,
) -> bool {
    forall|offset: u32|
        #![trigger bitmap_bit(bitmap, offset as int)]
        #![trigger starts_at(decoded, offset)]
        (offset < bytecode_len && bitmap_bit(bitmap, offset as int)) <==> starts_at(decoded, offset)
}

/// No bit behind the bytecode is set.
pub open spec fn marks_end_by(bitmap: Seq<u64>, bytecode_len: nat) -> bool {
    forall|offset: u32| #[trigger]
        bitmap_bit(bitmap, offset as int) ==> offset < bytecode_len
}

/// Decoding of the bytes from `pc` on, behind the instructions `done`.
///
/// The first undecodable instruction, or the first one over the instruction
/// limit, fails the whole body.
pub open spec fn predecode_from(
    bytes: Seq<u8>,
    pc: BytecodePc,
    done: Seq<DecodedInstruction>,
    max_instructions: u32,
) -> Result<Seq<DecodedInstruction>, VerificationError>
    decreases bytes.len() - pc.0 via predecode_from_decreases
{
    if pc.0 >= bytes.len() {
        Ok(done)
    } else {
        match decode_at_spec(bytes, pc) {
            Err(source) => Err(decode_error(source)),
            Ok(decoded) => if done.len() + 1 > max_instructions {
                Err(
                    error_at(
                        decoded,
                        VerificationErrorKind::LimitExceeded {
                            resource: VerificationResource::Instructions,
                            limit: max_instructions as u64,
                            observed: (done.len() + 1) as u64,
                        },
                    ),
                )
            } else {
                predecode_from(bytes, decoded.next_pc, done.push(decoded), max_instructions)
            },
        }
    }
}

#[via_fn]
proof fn predecode_from_decreases(
    bytes: Seq<u8>,
    pc: BytecodePc,
    done: Seq<DecodedInstruction>,
    max_instructions: u32,
) {
    lemma_decoded_operands_match_format(bytes, pc);
}

/// Decoding of a complete body.
pub open spec fn predecode(bytes: Seq<u8>, max_instructions: u32) -> Result<
    Seq<DecodedInstruction>,
    VerificationError,
> {
    predecode_from(bytes, BytecodePc(0), Seq::empty(), max_instructions)
}

/// A decoded body stands in increasing byte order, starts at byte zero, and
/// every instruction ends where the next one starts.
pub open spec fn contiguous(decoded: Seq<DecodedInstruction>, end: nat) -> bool {
    &&& decoded.len() > 0 ==> decoded[0].pc.0 == 0
    &&& decoded.len() > 0 ==> decoded.last().next_pc.0 == end
    &&& decoded.len() == 0 ==> end == 0
    &&& forall|i: int, j: int|
        0 <= i < decoded.len() && j == i + 1 && j < decoded.len() ==> (
        #[trigger] decoded[i]).next_pc == (#[trigger] decoded[j]).pc
    &&& forall|i: int|
        0 <= i < decoded.len() ==> (#[trigger] decoded[i]).pc.0 < decoded[i].next_pc.0
}

proof fn lemma_predecode_from_contiguous(
    bytes: Seq<u8>,
    pc: BytecodePc,
    done: Seq<DecodedInstruction>,
    max_instructions: u32,
)
    requires
        contiguous(done, pc.0 as nat),
        increasing_pcs(done),
        forall|i: int| 0 <= i < done.len() ==> (#[trigger] done[i]).pc.0 < pc.0,
        done.len() <= max_instructions,
        pc.0 <= bytes.len(),
        forall|i: int|
            0 <= i < done.len() ==> decode_at_spec(bytes, (#[trigger] done[i]).pc) == Ok::<
                DecodedInstruction,
                DecodeError,
            >(done[i]),
    ensures
        match predecode_from(bytes, pc, done, max_instructions) {
            Ok(decoded) => contiguous(decoded, bytes.len()) && increasing_pcs(decoded)
                && decoded.len() <= max_instructions && forall|i: int|
                0 <= i < decoded.len() ==> decode_at_spec(bytes, (#[trigger] decoded[i]).pc)
                    == Ok::<DecodedInstruction, DecodeError>(decoded[i]),
            Err(_) => true,
        },
    decreases bytes.len() - pc.0,
{
    lemma_decoded_operands_match_format(bytes, pc);
    if pc.0 < bytes.len() {
        if let Ok(decoded) = decode_at_spec(bytes, pc) {
            if done.len() + 1 <= max_instructions {
                let next = done.push(decoded);
                assert(next.last() == decoded);
                assert forall|i: int, j: int|
                    0 <= i < next.len() && j == i + 1 && j < next.len() implies (
                #[trigger] next[i]).next_pc == (#[trigger] next[j]).pc by {
                    if j < done.len() {
                        assert(done[i].next_pc == done[j].pc);
                    } else {
                        assert(done.last() == done[i]);
                    }
                }
                lemma_predecode_from_contiguous(bytes, decoded.next_pc, next, max_instructions);
            }
        }
    }
}

/// Decoding covers the body without gap or overlap: the instructions start at
/// byte zero, each ends where the next starts, the last ends at the end of the
/// bytecode, and each is what its own bytes decode to.
pub proof fn lemma_predecode_covers_body(bytes: Seq<u8>, max_instructions: u32)
    ensures
        match predecode(bytes, max_instructions) {
            Ok(decoded) => contiguous(decoded, bytes.len()) && increasing_pcs(decoded)
                && decoded.len() <= max_instructions && forall|i: int|
                0 <= i < decoded.len() ==> decode_at_spec(bytes, (#[trigger] decoded[i]).pc)
                    == Ok::<DecodedInstruction, DecodeError>(decoded[i]),
            Err(_) => true,
        },
{
    lemma_predecode_from_contiguous(bytes, BytecodePc(0), Seq::empty(), max_instructions);
}

/// Decodes the complete body and records every instruction boundary.
///
/// The result is all-or-nothing: neither the decoded vector nor its boundary
/// map escapes when decoding, limits, or allocation fail.
pub fn predecode_complete(bytecode: &[u8], max_instructions: u32) -> (body: Result<
    PredecodedBody,
    VerificationError,
>)
    ensures
        match body {
            Ok(body) => predecode(bytecode@, max_instructions) == Ok::<
                Seq<DecodedInstruction>,
                VerificationError,
            >(body.instructions@) && boundary_map(
                body.instruction_start_bitmap@,
                bytecode@.len(),
                body.instructions@,
            ) && marks_end_by(body.instruction_start_bitmap@, bytecode@.len())
                && body.instruction_start_bitmap@.len() == (bytecode@.len() + 63) / 64
                && increasing_pcs(body.instructions@),
            Err(error) => predecode(bytecode@, max_instructions) == Err::<
                Seq<DecodedInstruction>,
                VerificationError,
            >(error) || boundary_words_failure(bytecode@.len(), error) || instruction_room_failure(
                bytecode@,
                error,
            ),
        },
{
    let mut bitmap = allocate_boundary_bitmap(bytecode.len())?;
    let mut instructions: Vec<DecodedInstruction> = Vec::new();
    let mut stream = InstructionDecoder::new(bytecode);
    proof {
        assert forall|offset: u32| !(#[trigger] bitmap_bit(bitmap@, offset as int)) by {
            if offset as int / 64 < bitmap@.len() {
                let k = (offset as int % 64) as u64;
                assert(0u64 & (1u64 << k) == 0) by (bit_vector);
            }
        }
    }
    loop
        invariant
            bitmap@.len() == (bytecode@.len() + 63) / 64,
            stream.bytes() == bytecode@,
            stream.position().0 <= bytecode@.len(),
            !stream.has_failed(),
            instructions@.len() <= max_instructions,
            predecode(bytecode@, max_instructions) == predecode_from(
                bytecode@,
                stream.position(),
                instructions@,
                max_instructions,
            ),
            increasing_pcs(instructions@),
            forall|i: int|
                0 <= i < instructions@.len() ==> (#[trigger] instructions@[i]).pc.0
                    < stream.position().0,
            boundary_map(bitmap@, bytecode@.len(), instructions@),
            marks_end_by(bitmap@, bytecode@.len()),
        ensures
            predecode(bytecode@, max_instructions) == Ok::<
                Seq<DecodedInstruction>,
                VerificationError,
            >(instructions@),
            increasing_pcs(instructions@),
            boundary_map(bitmap@, bytecode@.len(), instructions@),
            marks_end_by(bitmap@, bytecode@.len()),
            bitmap@.len() == (bytecode@.len() + 63) / 64,
        decreases bytecode@.len() - stream.position().0,
    {
        let ghost position = stream.position();
        let item = match stream.next() {
            None => {
                break;
            },
            Some(item) => item,
        };
        proof {
            lemma_decoded_operands_match_format(bytecode@, position);
        }
        let decoded = match item {
            Ok(decoded) => decoded,
            Err(source) => {
                return Err(VerificationError::from_decode(source));
            },
        };
        if instructions.len() as u64 >= max_instructions as u64 {
            return Err(
                VerificationError::at_instruction(
                    decoded,
                    VerificationErrorKind::LimitExceeded {
                        resource: VerificationResource::Instructions,
                        limit: max_instructions as u64,
                        observed: instructions.len() as u64 + 1,
                    },
                ),
            );
        }
        let ghost before = bitmap@;
        let ghost shorter = instructions@;
        mark_instruction_start(&mut bitmap, bytecode.len(), decoded.pc)?;
        if instructions.try_reserve(1).is_err() {
            let error = VerificationError::at_instruction(
                decoded,
                VerificationErrorKind::AllocationFailed {
                    resource: VerificationResource::Instructions,
                    requested: 1,
                },
            );
            assert(decode_at_spec(bytecode@, position) == Ok::<DecodedInstruction, DecodeError>(
                decoded,
            ));
            return Err(error);
        }
        instructions.push(decoded);
        proof {
            assert forall|offset: u32| #[trigger]
                bitmap_bit(bitmap@, offset as int) implies offset < bytecode@.len() by {
                lemma_marked_bits(before, bitmap@, decoded.pc.0, offset);
            }
            assert forall|offset: u32|
                (offset < bytecode@.len() && #[trigger] bitmap_bit(bitmap@, offset as int))
                    <==> starts_at(instructions@, offset) by {
                lemma_marked_bits(before, bitmap@, decoded.pc.0, offset);
                assert(instructions@[instructions@.len() - 1] == decoded);
                if starts_at(shorter, offset) {
                    let i = choose|i: int|
                        0 <= i < shorter.len() && (#[trigger] shorter[i]).pc.0 == offset;
                    assert(instructions@[i] == shorter[i]);
                }
                if starts_at(instructions@, offset) && offset != decoded.pc.0 {
                    let i = choose|i: int|
                        0 <= i < instructions@.len() && (#[trigger] instructions@[i]).pc.0
                            == offset;
                    assert(instructions@[i] == shorter[i]);
                }
            }
        }
    }
    Ok(PredecodedBody { instructions, instruction_start_bitmap: bitmap })
}

/// Whether `error` reports that room for one more instruction could not be
/// reserved, at an instruction of the body.
pub open spec fn instruction_room_failure(bytes: Seq<u8>, error: VerificationError) -> bool {
    exists|pc: BytecodePc|
        match #[trigger] decode_at_spec(bytes, pc) {
            Ok(decoded) => error == allocation_failure_at(
                decoded,
                VerificationResource::Instructions,
                1,
            ),
            Err(_) => false,
        }
}

/// Whether `error` reports that the words of a boundary map could not be
/// reserved.
pub open spec fn boundary_words_failure(bytecode_len: nat, error: VerificationError) -> bool {
    error == allocation_failure(
        VerificationResource::InstructionBoundaryWords,
        if bytecode_len + 63 > usize::MAX {
            u64::MAX
        } else {
            ((bytecode_len + 63) / 64) as u64
        },
    )
}

fn allocate_boundary_bitmap(bytecode_len: usize) -> (bitmap: Result<Vec<u64>, VerificationError>)
    ensures
        match bitmap {
            Ok(bitmap) => bitmap@.len() == (bytecode_len + 63) / 64 && forall|i: int|
                0 <= i < bitmap@.len() ==> bitmap@[i] == 0,
            Err(error) => boundary_words_failure(bytecode_len as nat, error),
        },
{
    let padded = match bytecode_len.checked_add(63) {
        Some(padded) => padded,
        None => {
            return Err(
                VerificationError::root(
                    VerificationErrorKind::AllocationFailed {
                        resource: VerificationResource::InstructionBoundaryWords,
                        requested: u64::MAX,
                    },
                ),
            );
        },
    };
    let word_count: usize = padded / 64;
    let mut bitmap: Vec<u64> = Vec::new();
    if reserve_vec_exact(&mut bitmap, word_count).is_err() {
        return Err(
            VerificationError::root(
                VerificationErrorKind::AllocationFailed {
                    resource: VerificationResource::InstructionBoundaryWords,
                    requested: word_count as u64,
                },
            ),
        );
    }
    bitmap.resize(word_count, 0);
    Ok(bitmap)
}

proof fn lemma_set_bit(word: u64, set: u64, read: u64)
    requires
        set < 64,
        read < 64,
    ensures
        ((word | (1u64 << set)) & (1u64 << read) != 0) <==> (read == set || word & (1u64 << read)
            != 0),
{
    assert(((word | (1u64 << set)) & (1u64 << read) != 0) <==> (read == set || word & (1u64 << read)
        != 0)) by (bit_vector)
        requires
            set < 64,
            read < 64,
    ;
}

proof fn lemma_marked_bits(before: Seq<u64>, after: Seq<u64>, marked: u32, offset: u32)
    requires
        marked as int / 64 < before.len(),
        after == before.update(
            marked as int / 64,
            before[marked as int / 64] | (1u64 << ((marked as int % 64) as u64)),
        ),
    ensures
        bitmap_bit(after, offset as int) <==> (offset == marked || bitmap_bit(
            before,
            offset as int,
        )),
{
    if offset as int / 64 == marked as int / 64 {
        lemma_set_bit(
            before[marked as int / 64],
            (marked as int % 64) as u64,
            (offset as int % 64) as u64,
        );
    }
}

fn mark_instruction_start(
    bitmap: &mut Vec<u64>,
    bytecode_len: usize,
    pc: BytecodePc,
) -> (marked: Result<(), VerificationError>)
    ensures
        match marked {
            Ok(_) => (pc.0 as int) / 64 < old(bitmap)@.len() && final(bitmap)@ == old(bitmap)@.update(
                pc.0 as int / 64,
                old(bitmap)@[pc.0 as int / 64] | (1u64 << ((pc.0 as int % 64) as u64)),
            ),
            Err(error) => pc.0 as int / 64 >= old(bitmap)@.len() && final(bitmap)@ == old(bitmap)@
                && error == decode_error(DecodeError::PcOutOfBounds { pc, bytecode_len }),
        },
{
    let offset: usize = pc.0 as usize;
    if offset / 64 >= bitmap.len() {
        return Err(
            VerificationError::from_decode(DecodeError::PcOutOfBounds { pc, bytecode_len }),
        );
    }
    let bit: u64 = (offset % 64) as u64;
    let word: u64 = bitmap[offset / 64] | (1u64 << bit);
    bitmap.set(offset / 64, word);
    Ok(())
}

/// Returns whether the bit of `pc` is set and `pc` lies inside the bytecode.
pub(crate) fn is_instruction_start(bitmap: &[u64], bytecode_len: usize, pc: BytecodePc) -> (starts:
    bool)
    ensures
        starts == (pc.0 < bytecode_len && bitmap_bit(bitmap@, pc.0 as int)),
{
    let offset: usize = pc.0 as usize;
    if offset >= bytecode_len || offset / 64 >= bitmap.len() {
        return false;
    }
    let bit: u64 = (offset % 64) as u64;
    bitmap[offset / 64] & (1u64 << bit) != 0
}

} // verus!
