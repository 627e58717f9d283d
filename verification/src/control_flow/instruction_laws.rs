//! What single instructions of a body may do, and what its header may say.
use crate::control_flow::error::VerificationErrorKind;
use crate::control_flow::header::header_validation;
use crate::control_flow::limits::VerificationLimits;
use crate::control_flow::model::{
    CompilerCapturedBinding, CompilerConstantKind, FunctionIndexDomains, VerifiedInstruction,
    VerifiedSuccessorKind,
};
use crate::control_flow::opcode_semantics::CapabilityProfile;
use crate::control_flow::operands::{
    invalid_method_flags, operand_indices_check, secondary_operands_check,
};
use crate::control_flow::predecode::{contiguous, increasing_pcs};
use crate::control_flow::stack::{
    body_rules, depth_transfer, exit_check, spec_installs_catch_marker,
};
use crate::control_flow::static_control_flow::{
    StaticContext, admission_check, structural_instruction,
};
use crate::control_flow::targets::{lemma_index_at_is_unique, resolved_relative_target};
use crate::function::{FunctionHeaderFlags, FunctionKind, UnverifiedFunctionHeader};
use crate::instruction::{BytecodePc, DecodedInstruction, Operands, StackEffect, StackEffectError};
use crate::opcode::FinalOpcode;
use vstd::prelude::*;

verus! {

/// Whether an instruction of the body has the opcode.
pub open spec fn holds_opcode(
    instructions: Seq<VerifiedInstruction>,
    opcode: FinalOpcode,
) -> bool {
    exists|i: int|
        0 <= i < instructions.len() && (
        #[trigger] instructions[i]).spec_decoded().instruction.opcode == opcode
}

/// A terminal of compiler output must leave nothing on the stack, with these
/// exceptions. A `throw` may leave anything in a body that holds a `catch` or a
/// `for_of_start`, and with extended capabilities so may a `throw_error`, and a
/// `for_await_of_start` will do. `ret` may. `return_async` may in a generator
/// with extended capabilities. `return`, `return_undef` and `throw` may in a body
/// that holds a `gosub`. Serialized bytecode may leave anything anywhere.
pub proof fn lemma_exits_leave_what_is_exempt(
    profile: CapabilityProfile,
    function_kind: FunctionKind,
    limits: VerificationLimits,
    require_empty_exits: bool,
    instructions: Seq<VerifiedInstruction>,
    decoded: DecodedInstruction,
    remaining: u32,
)
    ensures
        ({
            let extended = profile == CapabilityProfile::Extended;
            let opcode = decoded.instruction.opcode;
            let caught = holds_opcode(instructions, FinalOpcode::Catch) || holds_opcode(
                instructions,
                FinalOpcode::ForOfStart,
            ) || (extended && holds_opcode(instructions, FinalOpcode::ForAwaitOfStart));
            let generator = function_kind == FunctionKind::Generator || function_kind
                == FunctionKind::AsyncGenerator;
            let exempt = {
                ||| caught && opcode == FinalOpcode::Throw
                ||| caught && extended && opcode == FinalOpcode::ThrowError
                ||| opcode == FinalOpcode::Ret
                ||| extended && generator && opcode == FinalOpcode::ReturnAsync
                ||| holds_opcode(instructions, FinalOpcode::Gosub) && (opcode
                    == FinalOpcode::Return || opcode == FinalOpcode::ReturnUndef || opcode
                    == FinalOpcode::Throw)
            };
            match exit_check(
                body_rules(profile, function_kind, limits, require_empty_exits, instructions),
                decoded,
                remaining,
            ) {
                Ok(_) => !require_empty_exits || remaining == 0 || exempt,
                Err(error) => require_empty_exits && remaining != 0 && !exempt && error.kind
                    == (VerificationErrorKind::NonEmptyCompilerExitStack { remaining })
                    && error.pc == Some(decoded.pc) && error.opcode == Some(opcode),
            }
        }),
{
    let rules = body_rules(profile, function_kind, limits, require_empty_exits, instructions);
    if holds_opcode(instructions, FinalOpcode::Catch) {
        let i = choose|i: int|
            0 <= i < instructions.len() && (
            #[trigger] instructions[i]).spec_decoded().instruction.opcode == FinalOpcode::Catch;
        assert(instructions[i].decoded.instruction.opcode == FinalOpcode::Catch);
        assert(rules.has_catch_marker);
    }
    if holds_opcode(instructions, FinalOpcode::ForOfStart) {
        let i = choose|i: int|
            0 <= i < instructions.len() && (
            #[trigger] instructions[i]).spec_decoded().instruction.opcode
                == FinalOpcode::ForOfStart;
        assert(instructions[i].decoded.instruction.opcode == FinalOpcode::ForOfStart);
        assert(rules.has_catch_marker);
    }
    if holds_opcode(instructions, FinalOpcode::ForAwaitOfStart) {
        let i = choose|i: int|
            0 <= i < instructions.len() && (
            #[trigger] instructions[i]).spec_decoded().instruction.opcode
                == FinalOpcode::ForAwaitOfStart;
        assert(instructions[i].decoded.instruction.opcode == FinalOpcode::ForAwaitOfStart);
        assert(profile == CapabilityProfile::Extended ==> rules.has_catch_marker);
    }
    if holds_opcode(instructions, FinalOpcode::Gosub) {
        let i = choose|i: int|
            0 <= i < instructions.len() && (
            #[trigger] instructions[i]).spec_decoded().instruction.opcode == FinalOpcode::Gosub;
        assert(instructions[i].decoded.instruction.opcode == FinalOpcode::Gosub);
        assert(rules.has_gosub);
    }
    if rules.has_catch_marker {
        let i = choose|i: int|
            0 <= i < instructions.len()
                && spec_installs_catch_marker(
                profile,
                (#[trigger] instructions[i]).decoded.instruction.opcode,
            );
        assert(instructions[i].spec_decoded() == instructions[i].decoded);
    }
    if rules.has_gosub {
        let i = choose|i: int|
            0 <= i < instructions.len() && (
            #[trigger] instructions[i]).decoded.instruction.opcode == FinalOpcode::Gosub;
        assert(instructions[i].spec_decoded() == instructions[i].decoded);
    }
}

/// The depth behind an instruction is its entry depth less what it pops plus
/// what it pushes. The taken edge of a `gosub`, and with extended capabilities
/// that of a `with_get_var`, carries one value more. The instruction is refused
/// where it pops more than there is, and where a depth behind it is over the
/// limit; nothing else refuses it.
pub proof fn lemma_depths_follow_the_effect(
    profile: CapabilityProfile,
    function_kind: FunctionKind,
    limits: VerificationLimits,
    require_empty_exits: bool,
    instructions: Seq<VerifiedInstruction>,
    decoded: DecodedInstruction,
    entry: u32,
    effect: StackEffect,
)
    requires
        decoded.instruction.spec_stack_effect() == Ok::<StackEffect, StackEffectError>(effect),
    ensures
        ({
            let after = entry - effect.pops + effect.pushes;
            let more: int = if decoded.instruction.opcode == FinalOpcode::Gosub || (profile
                == CapabilityProfile::Extended && decoded.instruction.opcode
                == FinalOpcode::WithGetVar) {
                1
            } else {
                0
            };
            match depth_transfer(
                body_rules(profile, function_kind, limits, require_empty_exits, instructions),
                decoded,
                entry,
            ) {
                Ok(transfer) => entry >= effect.pops && transfer.output_depth == after
                    && transfer.taken_depth == after + more && after + more
                    <= limits.max_stack_depth,
                Err(_) => entry < effect.pops || after + more > limits.max_stack_depth,
            }
        }),
{
}

/// The successors of an instruction are told by its opcode. `if_false`,
/// `if_true`, `catch`, `gosub` and the `with` instructions branch, `goto` jumps,
/// calls in tail position, returns, throws and `ret` end the path, and everything
/// else goes on to the next instruction.
pub proof fn lemma_opcodes_tell_successors(
    context: StaticContext,
    instructions: Seq<DecodedInstruction>,
    current: DecodedInstruction,
)
    requires
        structural_instruction(context, instructions, current).is_ok(),
    ensures
        ({
            let verified = structural_instruction(context, instructions, current)->Ok_0;
            let opcode = current.instruction.opcode;
            let kind = verified.spec_successors().spec_kind();
            &&& verified.spec_decoded() == current
            &&& verified.spec_entry_stack_depth().is_none()
            &&& opcode != FinalOpcode::Invalid
            &&& kind == VerifiedSuccessorKind::Branch <==> {
                ||| opcode == FinalOpcode::IfFalse || opcode == FinalOpcode::IfTrue
                ||| opcode == FinalOpcode::IfFalse8 || opcode == FinalOpcode::IfTrue8
                ||| opcode == FinalOpcode::Catch || opcode == FinalOpcode::Gosub
                ||| opcode == FinalOpcode::WithGetVar || opcode == FinalOpcode::WithPutVar
                ||| opcode == FinalOpcode::WithDeleteVar || opcode == FinalOpcode::WithMakeRef
                ||| opcode == FinalOpcode::WithGetRef
            }
            &&& kind == VerifiedSuccessorKind::Jump <==> {
                ||| opcode == FinalOpcode::Goto || opcode == FinalOpcode::Goto8
                ||| opcode == FinalOpcode::Goto16
            }
            &&& kind == VerifiedSuccessorKind::Terminate <==> {
                ||| opcode == FinalOpcode::TailCall || opcode == FinalOpcode::TailCallMethod
                ||| opcode == FinalOpcode::Return || opcode == FinalOpcode::ReturnUndef
                ||| opcode == FinalOpcode::ReturnAsync || opcode == FinalOpcode::Throw
                ||| opcode == FinalOpcode::ThrowError || opcode == FinalOpcode::Ret
            }
        }),
{
}

/// Byte offset that a branching or jumping instruction names: its displacement
/// counts from the byte behind the opcode, or from the byte behind opcode and
/// atom where an atom comes first.
pub open spec fn named_offset(decoded: DecodedInstruction) -> Option<int> {
    match decoded.instruction.operands {
        Operands::Label8(distance) => Some(decoded.pc.0 + 1 + distance),
        Operands::Label16(distance) => Some(decoded.pc.0 + 1 + distance),
        Operands::Label(distance) => Some(decoded.pc.0 + 1 + distance),
        Operands::AtomLabelU8 { label, .. } => Some(decoded.pc.0 + 5 + label),
        _ => None,
    }
}

/// A branch or jump reaches the instruction that starts at the offset it names,
/// and is refused where none starts there; a `catch` may not name offset zero.
pub proof fn lemma_targets_start_instructions(
    decoded: DecodedInstruction,
    instructions: Seq<DecodedInstruction>,
    bytecode_len: nat,
    at: int,
)
    requires
        increasing_pcs(instructions),
        contiguous(instructions, bytecode_len),
        bytecode_len <= u32::MAX,
        instructions.len() <= u32::MAX,
        named_offset(decoded).is_some(),
        ({
            let opcode = decoded.instruction.opcode;
            match decoded.instruction.operands {
                Operands::Label8(_) => opcode == FinalOpcode::IfFalse8 || opcode
                    == FinalOpcode::IfTrue8 || opcode == FinalOpcode::Goto8,
                Operands::Label16(_) => opcode == FinalOpcode::Goto16,
                Operands::Label(_) => opcode == FinalOpcode::IfFalse || opcode
                    == FinalOpcode::IfTrue || opcode == FinalOpcode::Goto || opcode
                    == FinalOpcode::Catch || opcode == FinalOpcode::Gosub,
                _ => opcode == FinalOpcode::WithGetVar || opcode == FinalOpcode::WithPutVar
                    || opcode == FinalOpcode::WithDeleteVar || opcode == FinalOpcode::WithMakeRef
                    || opcode == FinalOpcode::WithGetRef,
            }
        }),
        0 <= at < instructions.len(),
    ensures
        ({
            let offset = named_offset(decoded).unwrap();
            let resolved = resolved_relative_target(decoded, instructions, bytecode_len);
            &&& instructions[at].pc.0 == offset && !(decoded.instruction.opcode
                == FinalOpcode::Catch && offset == 0) ==> match resolved {
                Ok(Some(index)) => index.spec_get() == at,
                _ => false,
            }
            &&& match resolved {
                Ok(Some(index)) => index.spec_get() < instructions.len() && instructions[
                index.spec_get() as int].pc.0 == offset && !(decoded.instruction.opcode
                    == FinalOpcode::Catch && offset == 0),
                Ok(None) => false,
                Err(_) => true,
            }
        }),
{
    let offset = named_offset(decoded).unwrap();
    if instructions[at].pc.0 == offset {
        lemma_index_at_is_unique(instructions, BytecodePc(offset as u32), at);
        lemma_starts_inside(instructions, bytecode_len, at);
    }
}

proof fn lemma_starts_inside(
    instructions: Seq<DecodedInstruction>,
    bytecode_len: nat,
    at: int,
)
    requires
        increasing_pcs(instructions),
        contiguous(instructions, bytecode_len),
        0 <= at < instructions.len(),
    ensures
        instructions[at].pc.0 < bytecode_len,
{
    let last = instructions.len() - 1;
    assert(instructions[last].pc.0 < instructions[last].next_pc.0);
    if at < last {
        assert(instructions[at].pc.0 < instructions[last].pc.0);
    }
}

/// Indices that an instruction names lie in their domains: that is checked, and
/// nothing more. A short opcode names the index in its name.
pub proof fn lemma_indices_lie_in_their_domains(
    decoded: DecodedInstruction,
    domains: FunctionIndexDomains,
)
    ensures
        ({
            let accepted = operand_indices_check(decoded, domains).is_ok();
            let opcode = decoded.instruction.opcode;
            match decoded.instruction.operands {
                Operands::Const(index) => accepted <==> index < domains.constant_pool_len,
                Operands::Const8(index) => accepted <==> index < domains.constant_pool_len,
                Operands::Loc(index) => accepted <==> index < domains.local_count,
                Operands::Loc8(index) => accepted <==> index < domains.local_count,
                Operands::Arg(index) => accepted <==> index < domains.argument_count,
                Operands::VarRef(index) => accepted <==> index < domains.closure_var_count,
                Operands::Atom(atom) => accepted <==> atom.0 < domains.atom_pool_len,
                Operands::AtomU8 { atom, .. } => accepted <==> atom.0 < domains.atom_pool_len,
                Operands::AtomLabelU8 { atom, .. } => accepted <==> atom.0 < domains.atom_pool_len,
                Operands::AtomLabelU16 { atom, .. } => accepted <==> atom.0 < domains.atom_pool_len,
                Operands::AtomU16 { atom, value } => accepted <==> atom.0 < domains.atom_pool_len
                    && (opcode == FinalOpcode::MakeLocRef ==> value < domains.local_count) && (
                opcode == FinalOpcode::MakeArgRef ==> value < domains.argument_count) && (opcode
                    == FinalOpcode::MakeVarRefRef ==> value < domains.closure_var_count),
                Operands::NoneLoc => match opcode {
                    FinalOpcode::GetLoc0 | FinalOpcode::PutLoc0 | FinalOpcode::SetLoc0 => accepted
                        <==> domains.local_count > 0,
                    FinalOpcode::GetLoc1 | FinalOpcode::PutLoc1 | FinalOpcode::SetLoc1 => accepted
                        <==> domains.local_count > 1,
                    FinalOpcode::GetLoc2 | FinalOpcode::PutLoc2 | FinalOpcode::SetLoc2 => accepted
                        <==> domains.local_count > 2,
                    FinalOpcode::GetLoc3 | FinalOpcode::PutLoc3 | FinalOpcode::SetLoc3 => accepted
                        <==> domains.local_count > 3,
                    _ => !accepted,
                },
                Operands::NoneArg => match opcode {
                    FinalOpcode::GetArg0 | FinalOpcode::PutArg0 | FinalOpcode::SetArg0 => accepted
                        <==> domains.argument_count > 0,
                    FinalOpcode::GetArg1 | FinalOpcode::PutArg1 | FinalOpcode::SetArg1 => accepted
                        <==> domains.argument_count > 1,
                    FinalOpcode::GetArg2 | FinalOpcode::PutArg2 | FinalOpcode::SetArg2 => accepted
                        <==> domains.argument_count > 2,
                    FinalOpcode::GetArg3 | FinalOpcode::PutArg3 | FinalOpcode::SetArg3 => accepted
                        <==> domains.argument_count > 3,
                    _ => !accepted,
                },
                Operands::NoneVarRef => match opcode {
                    FinalOpcode::GetVarRef0
                    | FinalOpcode::PutVarRef0
                    | FinalOpcode::SetVarRef0 => accepted <==> domains.closure_var_count > 0,
                    FinalOpcode::GetVarRef1
                    | FinalOpcode::PutVarRef1
                    | FinalOpcode::SetVarRef1 => accepted <==> domains.closure_var_count > 1,
                    FinalOpcode::GetVarRef2
                    | FinalOpcode::PutVarRef2
                    | FinalOpcode::SetVarRef2 => accepted <==> domains.closure_var_count > 2,
                    FinalOpcode::GetVarRef3
                    | FinalOpcode::PutVarRef3
                    | FinalOpcode::SetVarRef3 => accepted <==> domains.closure_var_count > 3,
                    _ => !accepted,
                },
                _ => accepted,
            }
        }),
{
}

/// The instruction-specific fields hold known values: kinds of special objects
/// up to six, of thrown errors up to four, modes of `apply` up to two, flags of
/// methods with a kind up to two, flags of classes up to one or, extended, three,
/// and so on. Nothing else is asked of them.
pub proof fn lemma_fields_hold_known_values(
    profile: CapabilityProfile,
    decoded: DecodedInstruction,
    domains: FunctionIndexDomains,
)
    ensures
        ({
            let accepted = secondary_operands_check(profile, decoded, domains).is_ok();
            let extended = profile == CapabilityProfile::Extended;
            match (decoded.instruction.opcode, decoded.instruction.operands) {
                (FinalOpcode::SpecialObject, Operands::U8(value)) => accepted <==> value <= 6,
                (FinalOpcode::Rest, Operands::U16(value)) => accepted <==> value
                    <= domains.argument_count,
                (FinalOpcode::Apply, Operands::U16(value)) => accepted <==> value <= 2,
                (FinalOpcode::ThrowError, Operands::AtomU8 { value, .. }) => accepted <==> value
                    <= 4,
                (FinalOpcode::DefineMethod, Operands::AtomU8 { value, .. }) => accepted <==> value
                    == 0 || value == 1 || value == 2 || value == 4 || value == 5 || value == 6,
                (FinalOpcode::DefineMethodComputed, Operands::U8(value)) => accepted <==> value
                    == 0 || value == 1 || value == 2 || value == 4 || value == 5 || value == 6,
                (FinalOpcode::DefinePrivateField, Operands::U8(value)) => accepted <==> !extended
                    || value <= 3,
                (FinalOpcode::DefineClass, Operands::AtomU8 { value, .. }) => accepted <==> value
                    <= 1 || (extended && value <= 3),
                (FinalOpcode::DefineClassComputed, Operands::AtomU8 { value, .. }) => accepted
                    <==> value <= 1 || (extended && value <= 3),
                (FinalOpcode::WithGetVar, Operands::AtomLabelU8 { value, .. }) => accepted
                    <==> value <= 1,
                (FinalOpcode::WithPutVar, Operands::AtomLabelU8 { value, .. }) => accepted
                    <==> value <= 1,
                (FinalOpcode::WithDeleteVar, Operands::AtomLabelU8 { value, .. }) => accepted
                    <==> value <= 1,
                (FinalOpcode::WithMakeRef, Operands::AtomLabelU8 { value, .. }) => accepted
                    <==> value <= 1,
                (FinalOpcode::WithGetRef, Operands::AtomLabelU8 { value, .. }) => accepted
                    <==> value <= 1,
                (FinalOpcode::IteratorCall, Operands::U8(value)) => accepted <==> value <= 2,
                _ => accepted,
            }
        }),
{
    assert forall|value: u8|
        #![trigger invalid_method_flags(value)]
        invalid_method_flags(value) <==> !(value == 0 || value == 1
            || value == 2 || value == 4 || value == 5 || value == 6) by {
        assert((value & !0b111u8 != 0 || value & 0b11u8 == 0b11u8) <==> !(value == 0 || value == 1
            || value == 2 || value == 4 || value == 5 || value == 6)) by (bit_vector);
    }
}

/// Which opcodes a body may use. Reading a constant needs the layout of the
/// constants, where a value is pushed and a function closed over. Closing a local
/// needs the layout of the captures, where the local is block-scoped. Iterations
/// and, extended, delegations, packed copies and direct evals need a compiler.
/// References to cells, `with_put_var`, computed class names and the for-await
/// step are never admitted; definitions of classes and the other `with`
/// instructions are only with extended capabilities. All others are, if they fit
/// the kind of the function.
pub proof fn lemma_admitted_opcodes_are_these(context: StaticContext, decoded: DecodedInstruction)
    ensures
        ({
            let extended = context.profile == CapabilityProfile::Extended;
            let kind = context.function_kind;
            let generator = kind == FunctionKind::Generator || kind
                == FunctionKind::AsyncGenerator;
            let accepted = admission_check(context, decoded).is_ok();
            let constant = |index: int, expected: CompilerConstantKind|
                match context.kinds {
                    Some(kinds) => index < kinds.len() && kinds[index] == expected,
                    None => false,
                };
            match decoded.instruction.opcode {
                FinalOpcode::PushConst => match decoded.instruction.operands {
                    Operands::Const(index) => accepted <==> constant(
                        index as int,
                        CompilerConstantKind::Value,
                    ),
                    _ => !accepted,
                },
                FinalOpcode::PushConst8 => match decoded.instruction.operands {
                    Operands::Const8(index) => accepted <==> constant(
                        index as int,
                        CompilerConstantKind::Value,
                    ),
                    _ => !accepted,
                },
                FinalOpcode::FClosure => match decoded.instruction.operands {
                    Operands::Const(index) => accepted <==> constant(
                        index as int,
                        CompilerConstantKind::Function,
                    ),
                    _ => !accepted,
                },
                FinalOpcode::FClosure8 => match decoded.instruction.operands {
                    Operands::Const8(index) => accepted <==> constant(
                        index as int,
                        CompilerConstantKind::Function,
                    ),
                    _ => !accepted,
                },
                FinalOpcode::CloseLoc => match (context.bindings, decoded.instruction.operands) {
                    (Some(bindings), Operands::Loc(local)) => accepted <==> bindings.contains(
                        CompilerCapturedBinding::ScopedLocal(local as u32),
                    ),
                    _ => !accepted,
                },
                FinalOpcode::ForOfStart | FinalOpcode::ForOfNext | FinalOpcode::IteratorClose => {
                    accepted <==> context.compiler_generated
                },
                FinalOpcode::ForAwaitOfStart
                | FinalOpcode::IteratorNext
                | FinalOpcode::IteratorCall
                | FinalOpcode::CopyDataProperties
                | FinalOpcode::Eval
                | FinalOpcode::ApplyEval => accepted <==> context.compiler_generated && extended,
                FinalOpcode::ForAwaitOfNext
                | FinalOpcode::IteratorGetValueDone
                | FinalOpcode::DefineClassComputed
                | FinalOpcode::MakeLocRef
                | FinalOpcode::MakeArgRef
                | FinalOpcode::MakeVarRefRef
                | FinalOpcode::MakeVarRef
                | FinalOpcode::WithPutVar => !accepted,
                FinalOpcode::DefineClass
                | FinalOpcode::WithGetVar
                | FinalOpcode::WithDeleteVar
                | FinalOpcode::WithMakeRef
                | FinalOpcode::WithGetRef => accepted <==> extended,
                FinalOpcode::TailCall
                | FinalOpcode::TailCallMethod
                | FinalOpcode::Return
                | FinalOpcode::ReturnUndef => accepted <==> kind == FunctionKind::Normal,
                FinalOpcode::InitialYield | FinalOpcode::Yield => accepted <==> generator,
                FinalOpcode::YieldStar => accepted <==> kind == FunctionKind::Generator,
                FinalOpcode::AsyncYieldStar => accepted <==> kind == FunctionKind::AsyncGenerator,
                FinalOpcode::Await => accepted <==> kind == FunctionKind::Async || kind
                    == FunctionKind::AsyncGenerator,
                FinalOpcode::ReturnAsync => accepted <==> kind != FunctionKind::Normal,
                _ => accepted,
            }
        }),
{
}

/// A header is accepted exactly if its flags are among the low thirteen bits and
/// its mode among the low one, it defines no more arguments than there are, has
/// no more cells than arguments and locals, and does not claim a prototype for a
/// derived constructor, nor either of the two for a generator or an asynchronous
/// function. The verified header says what the bits say.
pub proof fn lemma_headers_say_what_their_bits_say(
    header: UnverifiedFunctionHeader,
    domains: FunctionIndexDomains,
)
    ensures
        ({
            let bits = header.serialized_flags;
            let prototype = bits & 1 != 0;
            let derived = bits & 4 != 0;
            let kind = (bits / 16) % 4;
            match header_validation(header, domains) {
                Ok(verified) => {
                    &&& verified.flags == FunctionHeaderFlags(bits)
                    &&& verified.mode.0 == header.js_mode
                    &&& verified.defined_argument_count == header.defined_argument_count
                    &&& verified.variable_reference_count == header.variable_reference_count
                    &&& verified.kind == if kind == 0 {
                        FunctionKind::Normal
                    } else if kind == 1 {
                        FunctionKind::Generator
                    } else if kind == 2 {
                        FunctionKind::Async
                    } else {
                        FunctionKind::AsyncGenerator
                    }
                    &&& bits < 0x2000
                    &&& header.js_mode <= 1
                    &&& header.defined_argument_count <= domains.argument_count
                    &&& header.variable_reference_count <= domains.argument_count
                        + domains.local_count
                    &&& !(prototype && derived)
                    &&& kind != 0 ==> !prototype && !derived
                },
                Err(_) => {
                    ||| bits >= 0x2000
                    ||| header.js_mode > 1
                    ||| header.defined_argument_count > domains.argument_count
                    ||| header.variable_reference_count > domains.argument_count
                        + domains.local_count
                    ||| prototype && derived
                    ||| kind != 0 && (prototype || derived)
                },
            }
        }),
{
    let bits = header.serialized_flags;
    let mode = header.js_mode;
    assert((bits & !0x1fffu16 != 0) <==> bits >= 0x2000) by (bit_vector);
    assert((mode & !0x01u8 != 0) <==> mode > 1) by (bit_vector);
    assert((bits & 0x30 == 0x00) <==> (bits / 16) % 4 == 0) by (bit_vector);
    assert((bits & 0x30 == 0x10) <==> (bits / 16) % 4 == 1) by (bit_vector);
    assert((bits & 0x30 == 0x20) <==> (bits / 16) % 4 == 2) by (bit_vector);
    assert(bits & 0x0001 == bits & 1) by (bit_vector);
    assert(bits & 0x0004 == bits & 4) by (bit_vector);
}

} // verus!
