//! Opcodes that each kind of compiled function may use.
use crate::bytecode::error::{
    BytecodeVerificationError, BytecodeVerificationErrorKind, function_error,
};
use crate::bytecode::model::{
    ClosureVariableDefinition, CompilerBindingKind, CompilerExecutableKind,
    UnverifiedFunctionMetadata, VariableDefinition,
};
use crate::bytecode::object_verifier::{is_generator_kind, spec_is_generator_kind};
use crate::bytecode::operand_use::{
    argument_operand, local_operand, saturated_u32, spec_argument_operand, spec_local_operand,
    spec_is_unchecked_local_put, is_unchecked_local_put, usize_to_u32,
};
use crate::control_flow::model::{
    InstructionIndex, VerifiedControlFlow, VerifiedInstruction, VerifiedSuccessorKind,
};
use crate::function::VerifiedFunctionHeader;
use crate::function_graph::FunctionTemplateId;
use crate::instruction::{BytecodePc, DecodedInstruction, Operands};
use crate::opcode::FinalOpcode;
use vstd::prelude::*;

verus! {

/// Whether the compiler may emit an opcode at all.
pub open spec fn spec_supported_compiler_opcode(opcode: FinalOpcode) -> bool {
    match opcode {
        FinalOpcode::Invalid | FinalOpcode::Nip1 | FinalOpcode::Swap2 | FinalOpcode::Rot5l
        | FinalOpcode::CheckBrand | FinalOpcode::AddBrand | FinalOpcode::GetRefValue
        | FinalOpcode::DefineClassComputed | FinalOpcode::GetLocCheckThis
        | FinalOpcode::PutVarRefCheckInit | FinalOpcode::WithPutVar | FinalOpcode::MakeLocRef
        | FinalOpcode::MakeArgRef | FinalOpcode::MakeVarRefRef | FinalOpcode::MakeVarRef
        | FinalOpcode::DecLoc | FinalOpcode::IncLoc | FinalOpcode::AddLoc
        | FinalOpcode::GetLength | FinalOpcode::IsUndefined | FinalOpcode::TypeofIsUndefined
        | FinalOpcode::TypeofIsFunction => false,
        _ => true,
    }
}

/// Returns whether the compiler may emit an opcode at all.
#[verifier::when_used_as_spec(spec_supported_compiler_opcode)]
pub fn supported_compiler_opcode(opcode: FinalOpcode) -> (supported: bool)
    ensures
        supported == spec_supported_compiler_opcode(opcode),
{
    match opcode {
        FinalOpcode::PushI32 | FinalOpcode::PushConst | FinalOpcode::FClosure
        | FinalOpcode::SetName | FinalOpcode::SetNameComputed | FinalOpcode::SetHomeObject
        | FinalOpcode::PushAtomValue | FinalOpcode::Undefined | FinalOpcode::Null
        | FinalOpcode::PushThis | FinalOpcode::PushFalse | FinalOpcode::PushTrue
        | FinalOpcode::Object | FinalOpcode::RegExp | FinalOpcode::SpecialObject
        | FinalOpcode::Rest | FinalOpcode::Drop | FinalOpcode::Nip | FinalOpcode::Dup
        | FinalOpcode::Dup1 | FinalOpcode::Dup2 | FinalOpcode::Dup3 | FinalOpcode::Insert2
        | FinalOpcode::Insert3 | FinalOpcode::Insert4 | FinalOpcode::Swap | FinalOpcode::Rot3l
        | FinalOpcode::Rot3r | FinalOpcode::Rot4l | FinalOpcode::CallConstructor
        | FinalOpcode::Call | FinalOpcode::CallMethod | FinalOpcode::Apply
        | FinalOpcode::TailCall | FinalOpcode::TailCallMethod | FinalOpcode::Eval
        | FinalOpcode::ApplyEval | FinalOpcode::Import | FinalOpcode::WithGetVar
        | FinalOpcode::WithDeleteVar | FinalOpcode::WithMakeRef | FinalOpcode::WithGetRef
        | FinalOpcode::PutRefValue | FinalOpcode::ArrayFrom | FinalOpcode::CheckCtorReturn
        | FinalOpcode::CheckCtor | FinalOpcode::InitCtor | FinalOpcode::GetSuper
        | FinalOpcode::GetSuperValue | FinalOpcode::PutSuperValue | FinalOpcode::Perm3
        | FinalOpcode::Perm4 | FinalOpcode::Perm5 | FinalOpcode::Return
        | FinalOpcode::ReturnUndef | FinalOpcode::ReturnAsync | FinalOpcode::Await
        | FinalOpcode::InitialYield | FinalOpcode::Yield | FinalOpcode::YieldStar
        | FinalOpcode::AsyncYieldStar | FinalOpcode::IteratorNext | FinalOpcode::IteratorCall
        | FinalOpcode::IteratorCheckObject | FinalOpcode::ThrowError | FinalOpcode::Throw
        | FinalOpcode::Catch | FinalOpcode::NipCatch | FinalOpcode::Gosub | FinalOpcode::Ret
        | FinalOpcode::GetVarUndef | FinalOpcode::GetVar | FinalOpcode::PutVar
        | FinalOpcode::PutVarInit | FinalOpcode::GetLoc | FinalOpcode::PutLoc
        | FinalOpcode::SetLoc | FinalOpcode::GetArg | FinalOpcode::PutArg | FinalOpcode::SetArg
        | FinalOpcode::GetVarRef | FinalOpcode::PutVarRef | FinalOpcode::SetVarRef
        | FinalOpcode::SetLocUninitialized | FinalOpcode::GetLocCheck | FinalOpcode::PutLocCheck
        | FinalOpcode::PutLocCheckInit | FinalOpcode::SetLocCheck | FinalOpcode::GetVarRefCheck
        | FinalOpcode::PutVarRefCheck | FinalOpcode::CloseLoc | FinalOpcode::PrivateSymbol
        | FinalOpcode::GetField | FinalOpcode::GetField2 | FinalOpcode::GetPrivateField
        | FinalOpcode::PrivateIn | FinalOpcode::GetArrayEl | FinalOpcode::GetArrayEl2
        | FinalOpcode::GetArrayEl3 | FinalOpcode::PutField | FinalOpcode::PutPrivateField
        | FinalOpcode::PutArrayEl | FinalOpcode::Delete | FinalOpcode::SetProto
        | FinalOpcode::ToObject | FinalOpcode::ToPropKey | FinalOpcode::CopyDataProperties
        | FinalOpcode::DefineField | FinalOpcode::DefinePrivateField
        | FinalOpcode::DefineArrayEl | FinalOpcode::Append | FinalOpcode::DefineClass
        | FinalOpcode::DefineMethod | FinalOpcode::DefineMethodComputed
        | FinalOpcode::ForInStart | FinalOpcode::ForInNext | FinalOpcode::ForOfStart
        | FinalOpcode::ForAwaitOfStart | FinalOpcode::ForOfNext | FinalOpcode::ForAwaitOfNext
        | FinalOpcode::IteratorGetValueDone | FinalOpcode::IteratorClose | FinalOpcode::IfFalse
        | FinalOpcode::IfTrue | FinalOpcode::Goto | FinalOpcode::Neg | FinalOpcode::Plus
        | FinalOpcode::Dec | FinalOpcode::Inc | FinalOpcode::PostDec | FinalOpcode::PostInc
        | FinalOpcode::Not | FinalOpcode::Lnot | FinalOpcode::Typeof | FinalOpcode::DeleteVar
        | FinalOpcode::Mul | FinalOpcode::Div | FinalOpcode::Mod | FinalOpcode::Add
        | FinalOpcode::Sub | FinalOpcode::Pow | FinalOpcode::Shl | FinalOpcode::Sar
        | FinalOpcode::Shr | FinalOpcode::Lt | FinalOpcode::Lte | FinalOpcode::Gt
        | FinalOpcode::Gte | FinalOpcode::InstanceOf | FinalOpcode::In | FinalOpcode::Eq
        | FinalOpcode::Neq | FinalOpcode::StrictEq | FinalOpcode::StrictNeq | FinalOpcode::And
        | FinalOpcode::Xor | FinalOpcode::Or | FinalOpcode::IsNull
        | FinalOpcode::IsUndefinedOrNull | FinalOpcode::PushBigIntI32 | FinalOpcode::Nop
        | FinalOpcode::PushMinus1 | FinalOpcode::Push0 | FinalOpcode::Push1 | FinalOpcode::Push2
        | FinalOpcode::Push3 | FinalOpcode::Push4 | FinalOpcode::Push5 | FinalOpcode::Push6
        | FinalOpcode::Push7 | FinalOpcode::PushI8 | FinalOpcode::PushI16
        | FinalOpcode::PushConst8 | FinalOpcode::FClosure8 | FinalOpcode::PushEmptyString
        | FinalOpcode::GetLoc8 | FinalOpcode::PutLoc8 | FinalOpcode::SetLoc8
        | FinalOpcode::GetLoc0 | FinalOpcode::GetLoc1 | FinalOpcode::GetLoc2
        | FinalOpcode::GetLoc3 | FinalOpcode::PutLoc0 | FinalOpcode::PutLoc1
        | FinalOpcode::PutLoc2 | FinalOpcode::PutLoc3 | FinalOpcode::SetLoc0
        | FinalOpcode::SetLoc1 | FinalOpcode::SetLoc2 | FinalOpcode::SetLoc3
        | FinalOpcode::GetArg0 | FinalOpcode::GetArg1 | FinalOpcode::GetArg2
        | FinalOpcode::GetArg3 | FinalOpcode::PutArg0 | FinalOpcode::PutArg1
        | FinalOpcode::PutArg2 | FinalOpcode::PutArg3 | FinalOpcode::SetArg0
        | FinalOpcode::SetArg1 | FinalOpcode::SetArg2 | FinalOpcode::SetArg3
        | FinalOpcode::GetVarRef0 | FinalOpcode::GetVarRef1 | FinalOpcode::GetVarRef2
        | FinalOpcode::GetVarRef3 | FinalOpcode::PutVarRef0 | FinalOpcode::PutVarRef1
        | FinalOpcode::PutVarRef2 | FinalOpcode::PutVarRef3 | FinalOpcode::SetVarRef0
        | FinalOpcode::SetVarRef1 | FinalOpcode::SetVarRef2 | FinalOpcode::SetVarRef3
        | FinalOpcode::Call0 | FinalOpcode::Call1 | FinalOpcode::Call2 | FinalOpcode::Call3
        | FinalOpcode::IfFalse8 | FinalOpcode::IfTrue8 | FinalOpcode::Goto8
        | FinalOpcode::Goto16 => true,
        _ => false,
    }
}

/// Whether a function is asynchronous.
pub open spec fn spec_is_async_kind(kind: CompilerExecutableKind) -> bool {
    match kind {
        CompilerExecutableKind::AsyncArrow
        | CompilerExecutableKind::AsyncFunction
        | CompilerExecutableKind::AsyncMethod
        | CompilerExecutableKind::AsyncGeneratorFunction
        | CompilerExecutableKind::AsyncGeneratorMethod => true,
        _ => false,
    }
}

#[verifier::when_used_as_spec(spec_is_async_kind)]
fn is_async_kind(kind: CompilerExecutableKind) -> (asynchronous: bool)
    ensures
        asynchronous == spec_is_async_kind(kind),
{
    match kind {
        CompilerExecutableKind::AsyncArrow
        | CompilerExecutableKind::AsyncFunction
        | CompilerExecutableKind::AsyncMethod
        | CompilerExecutableKind::AsyncGeneratorFunction
        | CompilerExecutableKind::AsyncGeneratorMethod => true,
        _ => false,
    }
}

/// Whether a function is an arrow.
pub open spec fn spec_is_arrow_kind(kind: CompilerExecutableKind) -> bool {
    kind == CompilerExecutableKind::OrdinaryArrow || kind == CompilerExecutableKind::AsyncArrow
}

#[verifier::when_used_as_spec(spec_is_arrow_kind)]
fn is_arrow_kind(kind: CompilerExecutableKind) -> (arrow: bool)
    ensures
        arrow == spec_is_arrow_kind(kind),
{
    matches!(kind, CompilerExecutableKind::OrdinaryArrow | CompilerExecutableKind::AsyncArrow)
}

/// Whether a function has, or inherits lexically, a home object.
pub open spec fn spec_has_home_object_kind(kind: CompilerExecutableKind) -> bool {
    match kind {
        CompilerExecutableKind::OrdinaryArrow
        | CompilerExecutableKind::AsyncArrow
        | CompilerExecutableKind::OrdinaryMethod
        | CompilerExecutableKind::ClassInstanceInitializer
        | CompilerExecutableKind::GeneratorMethod
        | CompilerExecutableKind::AsyncMethod
        | CompilerExecutableKind::AsyncGeneratorMethod
        | CompilerExecutableKind::ClassConstructor => true,
        _ => false,
    }
}

#[verifier::when_used_as_spec(spec_has_home_object_kind)]
fn has_home_object_kind(kind: CompilerExecutableKind) -> (has: bool)
    ensures
        has == spec_has_home_object_kind(kind),
{
    match kind {
        CompilerExecutableKind::OrdinaryArrow
        | CompilerExecutableKind::AsyncArrow
        | CompilerExecutableKind::OrdinaryMethod
        | CompilerExecutableKind::ClassInstanceInitializer
        | CompilerExecutableKind::GeneratorMethod
        | CompilerExecutableKind::AsyncMethod
        | CompilerExecutableKind::AsyncGeneratorMethod
        | CompilerExecutableKind::ClassConstructor => true,
        _ => false,
    }
}

/// Facts about a function that decide which opcodes it may use.
#[derive(Clone, Copy, Debug, PartialEq, Eq, Hash, Structural)]
pub struct OpcodeAuthority {
    /// What the function is executed as.
    pub kind: CompilerExecutableKind,
    /// Its validated header.
    pub header: VerifiedFunctionHeader,
    /// Its argument count.
    pub argument_count: u32,
    /// Whether its compiler authorized a mapped arguments object.
    pub mapped_arguments: bool,
    /// Whether it has a class receiver cell for static fields.
    pub static_field_super: bool,
}

impl OpcodeAuthority {
    /// Whether `super` properties may be used.
    pub open spec fn super_property_authorized(self) -> bool {
        ||| self.kind == CompilerExecutableKind::DirectEvalScript && (
        self.header.flags.spec_super_allowed() || self.header.flags.spec_super_call_allowed())
        ||| spec_has_home_object_kind(self.kind)
        ||| self.static_field_super
    }

    /// Whether `super(..)` may be called.
    pub open spec fn super_call_authorized(self) -> bool {
        ||| spec_is_arrow_kind(self.kind)
        ||| self.kind == CompilerExecutableKind::DirectEvalScript
            && self.header.flags.spec_super_call_allowed()
        ||| self.kind == CompilerExecutableKind::ClassConstructor
            && self.header.flags.spec_is_derived_class_constructor()
    }

    fn authorizes_super_property(&self) -> (authorized: bool)
        ensures
            authorized == self.super_property_authorized(),
    {
        (matches!(self.kind, CompilerExecutableKind::DirectEvalScript) && (
        self.header.flags.super_allowed() || self.header.flags.super_call_allowed()))
            || has_home_object_kind(self.kind) || self.static_field_super
    }

    fn authorizes_super_call(&self) -> (authorized: bool)
        ensures
            authorized == self.super_call_authorized(),
    {
        is_arrow_kind(self.kind) || (matches!(
            self.kind,
            CompilerExecutableKind::DirectEvalScript
        ) && self.header.flags.super_call_allowed()) || (matches!(
            self.kind,
            CompilerExecutableKind::ClassConstructor
        ) && self.header.flags.is_derived_class_constructor())
    }
}

/// Whether a `special_object` may be created, after `arguments_objects`
/// arguments objects, this one included, and `rests` rest arrays.
pub open spec fn special_object_authorized(
    authority: OpcodeAuthority,
    operands: Operands,
    arguments_objects: nat,
    rests: nat,
) -> bool {
    let kind = authority.kind;
    let flags = authority.header.flags;
    let strict = authority.header.mode.spec_is_strict();
    let simple = flags.spec_has_simple_parameter_list();
    let script = match kind {
        CompilerExecutableKind::GlobalScript
        | CompilerExecutableKind::IndirectEvalScript
        | CompilerExecutableKind::DynamicFunctionScript
        | CompilerExecutableKind::Module => true,
        _ => false,
    };
    !script && match operands {
        Operands::U8(selector) => if selector == 0 {
            !spec_is_arrow_kind(kind) && (strict || !simple) && arguments_objects == 1 && rests == 0
                && !authority.mapped_arguments
        } else if selector == 1 {
            !spec_is_arrow_kind(kind) && !strict && simple && arguments_objects == 1 && rests == 0
                && authority.mapped_arguments
        } else if selector == 3 {
            flags.spec_new_target_allowed()
        } else if selector == 4 {
            authority.super_call_authorized()
        } else if selector == 5 {
            (kind == CompilerExecutableKind::DirectEvalScript && flags.spec_super_allowed())
                || spec_has_home_object_kind(kind)
        } else if selector == 6 {
            (kind == CompilerExecutableKind::DirectEvalScript
                && flags.spec_direct_eval_has_instance_elements()) || spec_is_arrow_kind(kind)
        } else {
            false
        },
        _ => false,
    }
}

fn compiler_special_object_is_authorized(
    authority: OpcodeAuthority,
    operands: Operands,
    arguments_objects: usize,
    rests: usize,
) -> (authorized: bool)
    ensures
        authorized == special_object_authorized(
            authority,
            operands,
            arguments_objects as nat,
            rests as nat,
        ),
{
    let kind = authority.kind;
    let flags = authority.header.flags;
    let strict: bool = authority.header.mode.is_strict();
    let simple: bool = flags.has_simple_parameter_list();
    if matches!(
        kind,
        CompilerExecutableKind::GlobalScript
        | CompilerExecutableKind::IndirectEvalScript
        | CompilerExecutableKind::DynamicFunctionScript
        | CompilerExecutableKind::Module
    ) {
        return false;
    }
    match operands {
        Operands::U8(selector) => {
            if selector == 0 {
                !is_arrow_kind(kind) && (strict || !simple) && arguments_objects == 1 && rests == 0
                    && !authority.mapped_arguments
            } else if selector == 1 {
                !is_arrow_kind(kind) && !strict && simple && arguments_objects == 1 && rests == 0
                    && authority.mapped_arguments
            } else if selector == 3 {
                flags.new_target_allowed()
            } else if selector == 4 {
                authority.authorizes_super_call()
            } else if selector == 5 {
                (matches!(kind, CompilerExecutableKind::DirectEvalScript) && flags.super_allowed())
                    || has_home_object_kind(kind)
            } else if selector == 6 {
                (matches!(kind, CompilerExecutableKind::DirectEvalScript)
                    && flags.direct_eval_has_instance_elements()) || is_arrow_kind(kind)
            } else {
                false
            }
        },
        _ => false,
    }
}

/// Whether an instruction creates the arguments object.
pub open spec fn creates_arguments_object(decoded: DecodedInstruction) -> bool {
    decoded.instruction.opcode == FinalOpcode::SpecialObject && (decoded.instruction.operands
        == Operands::U8(0) || decoded.instruction.operands == Operands::U8(1))
}

fn is_arguments_object(decoded: DecodedInstruction) -> (creates: bool)
    ensures
        creates == creates_arguments_object(decoded),
{
    match (decoded.instruction.opcode, decoded.instruction.operands) {
        (FinalOpcode::SpecialObject, Operands::U8(selector)) => selector <= 1,
        _ => false,
    }
}

/// Arguments objects created by the first `count` instructions.
pub open(crate) spec fn arguments_objects(
    instructions: Seq<VerifiedInstruction>,
    count: int,
) -> nat
    decreases count,
{
    if count <= 0 {
        0
    } else {
        arguments_objects(instructions, count - 1) + if creates_arguments_object(
            instructions[count - 1].decoded,
        ) {
            1nat
        } else {
            0nat
        }
    }
}

/// Last of the first `count` instructions that creates the arguments object.
pub open(crate) spec fn last_arguments_object(
    instructions: Seq<VerifiedInstruction>,
    count: int,
) -> Option<int>
    decreases count,
{
    if count <= 0 {
        None
    } else if creates_arguments_object(instructions[count - 1].decoded) {
        Some(count - 1)
    } else {
        last_arguments_object(instructions, count - 1)
    }
}

/// How often `opcode` occurs among the first `count` instructions.
pub open(crate) spec fn occurrences(
    instructions: Seq<VerifiedInstruction>,
    opcode: FinalOpcode,
    count: int,
) -> nat
    decreases count,
{
    if count <= 0 {
        0
    } else {
        occurrences(instructions, opcode, count - 1) + if instructions[count
            - 1].decoded.instruction.opcode == opcode {
            1nat
        } else {
            0nat
        }
    }
}

/// Whether a structural edge leads from an instruction to `target`.
pub open(crate) spec fn has_structural_edge(verified: VerifiedInstruction, target: u32) -> bool {
    let to = |index: Option<InstructionIndex>|
        match index {
            Some(index) => index.spec_get() == target,
            None => false,
        };
    to(verified.successors.spec_fallthrough()) || to(verified.successors.spec_branch_target())
        || to(verified.successors.spec_jump_target())
}

/// Structural predecessors of `target` among the first `count` instructions.
pub open(crate) spec fn predecessors(
    instructions: Seq<VerifiedInstruction>,
    target: u32,
    count: int,
) -> nat
    decreases count,
{
    if count <= 0 {
        0
    } else {
        predecessors(instructions, target, count - 1) + if has_structural_edge(
            instructions[count - 1],
            target,
        ) {
            1nat
        } else {
            0nat
        }
    }
}

fn index_is(index: Option<InstructionIndex>, target: u32) -> (is: bool)
    ensures
        is == match index {
            Some(index) => index.spec_get() == target,
            None => false,
        },
{
    match index {
        Some(index) => index.get() == target,
        None => false,
    }
}

fn count_predecessors(instructions: &[VerifiedInstruction], target: u32) -> (count: usize)
    ensures
        count == predecessors(instructions@, target, instructions@.len() as int),
{
    let mut count: usize = 0;
    let mut i: usize = 0;
    while i < instructions.len()
        invariant
            i <= instructions@.len(),
            count <= i,
            count == predecessors(instructions@, target, i as int),
        decreases instructions@.len() - i,
    {
        let successors = instructions[i].successors();
        if index_is(successors.fallthrough(), target) || index_is(
            successors.branch_target(),
            target,
        ) || index_is(successors.jump_target(), target) {
            count = count + 1;
        }
        i = i + 1;
    }
    count
}

/// Whether a yield of an async generator directly and only follows an await.
pub open(crate) spec fn immediately_awaited(
    instructions: Seq<VerifiedInstruction>,
    index: int,
) -> bool {
    let target = saturated_u32(index);
    &&& index > 0
    &&& instructions[index - 1].decoded.instruction.opcode == FinalOpcode::Await
    &&& instructions[index - 1].successors.spec_kind() == VerifiedSuccessorKind::Fallthrough
    &&& match instructions[index - 1].successors.spec_fallthrough() {
        Some(next) => next.spec_get() == target,
        None => false,
    }
    &&& predecessors(instructions, target, instructions.len() as int) == 1
}

fn is_immediately_awaited(instructions: &[VerifiedInstruction], index: usize) -> (awaited: bool)
    requires
        index < instructions@.len(),
    ensures
        awaited == immediately_awaited(instructions@, index as int),
{
    if index == 0 {
        return false;
    }
    let target: u32 = usize_to_u32(index);
    let prior = instructions[index - 1];
    matches!(prior.decoded.instruction.opcode, FinalOpcode::Await) && matches!(
        prior.successors.kind(),
        VerifiedSuccessorKind::Fallthrough
    ) && index_is(prior.successors.fallthrough(), target) && count_predecessors(
        instructions,
        target,
    ) == 1
}

/// Whether a checked instance-initializer sequence starts at `index`.
pub open spec fn sequence_at(sequences: Seq<bool>, index: int) -> bool {
    0 <= index < sequences.len() && sequences[index]
}

fn is_sequence(sequences: &[bool], index: usize) -> (starts: bool)
    ensures
        starts == sequence_at(sequences@, index as int),
{
    index < sequences.len() && sequences[index]
}

/// Whether instruction `index` may stand in the function.
///
/// Generators suspend, async functions await, an async generator yields only
/// what it awaited, returns match the kind, tail calls need a strict ordinary
/// function, capabilities of constructors and home objects need their
/// authority, and definition and error operands need admitted values.
pub open(crate) spec fn opcode_admitted(
    authority: OpcodeAuthority,
    instructions: Seq<VerifiedInstruction>,
    sequences: Seq<bool>,
    index: int,
) -> bool {
    let decoded = instructions[index].decoded;
    let opcode = decoded.instruction.opcode;
    let operands = decoded.instruction.operands;
    let kind = authority.kind;
    let generator = spec_is_generator_kind(kind);
    let asynchronous = spec_is_async_kind(kind);
    let flags = authority.header.flags;
    &&& spec_supported_compiler_opcode(opcode)
    &&& match opcode {
        FinalOpcode::InitialYield => generator && occurrences(instructions, opcode, index) == 0,
        FinalOpcode::Yield => generator && (asynchronous ==> immediately_awaited(
            instructions,
            index,
        )),
        FinalOpcode::YieldStar => generator && !asynchronous,
        FinalOpcode::AsyncYieldStar => generator && asynchronous,
        FinalOpcode::Await
        | FinalOpcode::ForAwaitOfStart
        | FinalOpcode::ForAwaitOfNext
        | FinalOpcode::IteratorGetValueDone => asynchronous,
        FinalOpcode::ReturnAsync => generator || asynchronous,
        FinalOpcode::IteratorNext
        | FinalOpcode::IteratorCall
        | FinalOpcode::IteratorCheckObject => generator,
        FinalOpcode::Return | FinalOpcode::ReturnUndef => !generator && !asynchronous,
        FinalOpcode::TailCall | FinalOpcode::TailCallMethod => authority.header.mode.spec_is_strict()
            && match kind {
            CompilerExecutableKind::OrdinaryFunction
            | CompilerExecutableKind::OrdinaryArrow
            | CompilerExecutableKind::OrdinaryMethod
            | CompilerExecutableKind::ClassConstructor => true,
            _ => false,
        },
        FinalOpcode::CheckCtorReturn => authority.super_call_authorized() && (kind
            == CompilerExecutableKind::DirectEvalScript
            && flags.spec_direct_eval_has_instance_elements() ==> sequence_at(sequences, index)),
        FinalOpcode::GetSuper
        | FinalOpcode::GetSuperValue
        | FinalOpcode::PutSuperValue => authority.super_property_authorized(),
        FinalOpcode::SpecialObject => special_object_authorized(
            authority,
            operands,
            arguments_objects(instructions, index + 1),
            occurrences(instructions, FinalOpcode::Rest, index + 1),
        ) && (operands == Operands::U8(6) ==> sequence_at(sequences, index - 1)),
        FinalOpcode::Rest => match operands {
            Operands::U16(first) => first == authority.argument_count
                && !flags.spec_has_simple_parameter_list() && rest_kind(kind) && occurrences(
                instructions,
                opcode,
                index + 1,
            ) == 1,
            _ => true,
        },
        FinalOpcode::DefineMethod => match operands {
            Operands::AtomU8 { value, .. } => method_flags_admitted(value),
            _ => true,
        },
        FinalOpcode::DefineMethodComputed => match operands {
            Operands::U8(value) => method_flags_admitted(value),
            _ => true,
        },
        FinalOpcode::ThrowError => match operands {
            Operands::AtomU8 { value, .. } => if value == 3 {
                authority.super_property_authorized()
            } else {
                value == 4 && generator
            },
            _ => false,
        },
        _ => true,
    }
}

/// Method, getter and setter, enumerable or not.
pub open spec fn method_flags_admitted(value: u8) -> bool {
    value <= 2 || 4 <= value <= 6
}

/// Kinds of function that may collect rest arguments.
pub open spec fn rest_kind(kind: CompilerExecutableKind) -> bool {
    match kind {
        CompilerExecutableKind::OrdinaryFunction
        | CompilerExecutableKind::OrdinaryArrow
        | CompilerExecutableKind::AsyncArrow
        | CompilerExecutableKind::OrdinaryMethod
        | CompilerExecutableKind::ClassConstructor
        | CompilerExecutableKind::GeneratorFunction
        | CompilerExecutableKind::GeneratorMethod
        | CompilerExecutableKind::AsyncFunction
        | CompilerExecutableKind::AsyncMethod
        | CompilerExecutableKind::AsyncGeneratorFunction
        | CompilerExecutableKind::AsyncGeneratorMethod => true,
        _ => false,
    }
}

fn is_rest_kind(kind: CompilerExecutableKind) -> (is: bool)
    ensures
        is == rest_kind(kind),
{
    match kind {
        CompilerExecutableKind::OrdinaryFunction
        | CompilerExecutableKind::OrdinaryArrow
        | CompilerExecutableKind::AsyncArrow
        | CompilerExecutableKind::OrdinaryMethod
        | CompilerExecutableKind::ClassConstructor
        | CompilerExecutableKind::GeneratorFunction
        | CompilerExecutableKind::GeneratorMethod
        | CompilerExecutableKind::AsyncFunction
        | CompilerExecutableKind::AsyncMethod
        | CompilerExecutableKind::AsyncGeneratorFunction
        | CompilerExecutableKind::AsyncGeneratorMethod => true,
        _ => false,
    }
}

fn is_opcode_admitted(
    authority: OpcodeAuthority,
    instructions: &[VerifiedInstruction],
    sequences: &[bool],
    index: usize,
    arguments_seen: usize,
    rests_seen: usize,
    yields_before: usize,
) -> (admitted: bool)
    requires
        index < instructions@.len(),
        arguments_seen == arguments_objects(instructions@, index + 1),
        rests_seen == occurrences(instructions@, FinalOpcode::Rest, index + 1),
        yields_before == occurrences(instructions@, FinalOpcode::InitialYield, index as int),
    ensures
        admitted == opcode_admitted(authority, instructions@, sequences@, index as int),
{
    let decoded = instructions[index].decoded;
    let opcode = decoded.instruction.opcode;
    let operands = decoded.instruction.operands;
    let kind = authority.kind;
    let generator: bool = is_generator_kind(kind);
    let asynchronous: bool = is_async_kind(kind);
    let flags = authority.header.flags;
    if !supported_compiler_opcode(opcode) {
        return false;
    }
    match opcode {
        FinalOpcode::InitialYield => generator && yields_before == 0,
        FinalOpcode::Yield => generator && (!asynchronous || is_immediately_awaited(
            instructions,
            index,
        )),
        FinalOpcode::YieldStar => generator && !asynchronous,
        FinalOpcode::AsyncYieldStar => generator && asynchronous,
        FinalOpcode::Await
        | FinalOpcode::ForAwaitOfStart
        | FinalOpcode::ForAwaitOfNext
        | FinalOpcode::IteratorGetValueDone => asynchronous,
        FinalOpcode::ReturnAsync => generator || asynchronous,
        FinalOpcode::IteratorNext
        | FinalOpcode::IteratorCall
        | FinalOpcode::IteratorCheckObject => generator,
        FinalOpcode::Return | FinalOpcode::ReturnUndef => !generator && !asynchronous,
        FinalOpcode::TailCall | FinalOpcode::TailCallMethod => authority.header.mode.is_strict()
            && matches!(
            kind,
            CompilerExecutableKind::OrdinaryFunction
            | CompilerExecutableKind::OrdinaryArrow
            | CompilerExecutableKind::OrdinaryMethod
            | CompilerExecutableKind::ClassConstructor
        ),
        FinalOpcode::CheckCtorReturn => authority.authorizes_super_call() && (!matches!(
            kind,
            CompilerExecutableKind::DirectEvalScript
        ) || !flags.direct_eval_has_instance_elements() || is_sequence(sequences, index)),
        FinalOpcode::GetSuper
        | FinalOpcode::GetSuperValue
        | FinalOpcode::PutSuperValue => authority.authorizes_super_property(),
        FinalOpcode::SpecialObject => {
            if !compiler_special_object_is_authorized(
                authority,
                operands,
                arguments_seen,
                rests_seen,
            ) {
                return false;
            }
            match operands {
                Operands::U8(6) => index > 0 && is_sequence(sequences, index - 1),
                _ => true,
            }
        },
        FinalOpcode::Rest => match operands {
            Operands::U16(first) => first as u32 == authority.argument_count
                && !flags.has_simple_parameter_list() && is_rest_kind(kind) && rests_seen == 1,
            _ => true,
        },
        FinalOpcode::DefineMethod => match operands {
            Operands::AtomU8 { value, .. } => value <= 2 || (4 <= value && value <= 6),
            _ => true,
        },
        FinalOpcode::DefineMethodComputed => match operands {
            Operands::U8(value) => value <= 2 || (4 <= value && value <= 6),
            _ => true,
        },
        FinalOpcode::ThrowError => match operands {
            Operands::AtomU8 { value, .. } => if value == 3 {
                authority.authorizes_super_property()
            } else {
                value == 4 && generator
            },
            _ => false,
        },
        _ => true,
    }
}

/// Variable definition that a put instruction initializes: an argument, or a
/// local behind the arguments.
pub open spec fn spec_initializer_put_definition(
    opcode: FinalOpcode,
    operands: Operands,
    argument_count: u32,
) -> Option<int> {
    match opcode {
        FinalOpcode::PutArg
        | FinalOpcode::PutArg0
        | FinalOpcode::PutArg1
        | FinalOpcode::PutArg2
        | FinalOpcode::PutArg3 => match spec_argument_operand(opcode, operands) {
            Some(index) => Some(index as int),
            None => None,
        },
        _ => if spec_is_unchecked_local_put(opcode) {
            match spec_local_operand(opcode, operands) {
                Some(index) => Some(argument_count + index),
                None => None,
            }
        } else {
            None
        },
    }
}

pub(crate) fn initializer_put_definition(
    opcode: FinalOpcode,
    operands: Operands,
    argument_count: u32,
) -> (definition: Option<u64>)
    ensures
        match definition {
            Some(definition) => spec_initializer_put_definition(opcode, operands, argument_count)
                == Some(definition as int),
            None => spec_initializer_put_definition(opcode, operands, argument_count).is_none(),
        },
{
    match opcode {
        FinalOpcode::PutArg
        | FinalOpcode::PutArg0
        | FinalOpcode::PutArg1
        | FinalOpcode::PutArg2
        | FinalOpcode::PutArg3 => match argument_operand(opcode, operands) {
            Some(index) => Some(index as u64),
            None => None,
        },
        _ => {
            if is_unchecked_local_put(opcode) {
                match local_operand(opcode, operands) {
                    Some(index) => Some(argument_count as u64 + index as u64),
                    None => None,
                }
            } else {
                None
            }
        },
    }
}

/// First definition of the arguments object, if there is one.
pub open spec fn arguments_definition_from(variables: Seq<VariableDefinition>, at: int) -> Option<
    u32,
>
    decreases variables.len() - at,
{
    if at >= variables.len() {
        None
    } else if variables[at].arguments_object {
        Some(saturated_u32(at))
    } else {
        arguments_definition_from(variables, at + 1)
    }
}

fn find_arguments_definition(variables: &[VariableDefinition]) -> (definition: Option<u32>)
    ensures
        definition == arguments_definition_from(variables@, 0),
{
    let mut at: usize = 0;
    while at < variables.len()
        invariant
            at <= variables@.len(),
            arguments_definition_from(variables@, 0) == arguments_definition_from(
                variables@,
                at as int,
            ),
        decreases variables@.len() - at,
    {
        if variables[at].arguments_object {
            return Some(usize_to_u32(at));
        }
        at = at + 1;
    }
    None
}

/// Definition that the instruction behind `at` initializes.
pub open(crate) spec fn definition_initialized_after(
    instructions: Seq<VerifiedInstruction>,
    argument_count: u32,
    at: Option<int>,
) -> Option<u32> {
    match at {
        Some(at) => if at + 1 < instructions.len() {
            let put = instructions[at + 1].decoded.instruction;
            match spec_initializer_put_definition(put.opcode, put.operands, argument_count) {
                Some(definition) => Some(saturated_u32(definition)),
                None => None,
            }
        } else {
            None
        },
        None => None,
    }
}

/// First instruction from `at` on that is not admitted.
pub open(crate) spec fn refused_from(
    authority: OpcodeAuthority,
    instructions: Seq<VerifiedInstruction>,
    sequences: Seq<bool>,
    at: int,
) -> Option<int>
    decreases instructions.len() - at,
{
    if at >= instructions.len() {
        None
    } else if !opcode_admitted(authority, instructions, sequences, at) {
        Some(at)
    } else {
        refused_from(authority, instructions, sequences, at + 1)
    }
}

/// The check of all opcodes of a function: every instruction must be admitted,
/// the arguments object must be stored in its binding, a mapped arguments
/// authority must be used, and a generator must have an initial yield.
pub open(crate) spec fn supported_opcodes_check(
    id: FunctionTemplateId,
    authority: OpcodeAuthority,
    instructions: Seq<VerifiedInstruction>,
    variables: Seq<VariableDefinition>,
    sequences: Seq<bool>,
) -> Result<(), BytecodeVerificationError> {
    let count = instructions.len() as int;
    let last = last_arguments_object(instructions, count);
    let definition = arguments_definition_from(variables, 0);
    match refused_from(authority, instructions, sequences, 0) {
        Some(at) => Err(
            function_error(
                id,
                BytecodeVerificationErrorKind::UnsupportedCompilerOpcode {
                    pc: instructions[at].decoded.pc,
                    opcode: instructions[at].decoded.instruction.opcode,
                },
            ),
        ),
        None => if definition != definition_initialized_after(
            instructions,
            authority.argument_count,
            last,
        ) {
            Err(
                function_error(
                    id,
                    BytecodeVerificationErrorKind::ArgumentsObjectMetadataMismatch {
                        definition,
                        pc: match last {
                            Some(at) => Some(instructions[at].decoded.pc),
                            None => None,
                        },
                    },
                ),
            )
        } else if last.is_none() && authority.mapped_arguments {
            Err(
                function_error(
                    id,
                    BytecodeVerificationErrorKind::UnsupportedCompilerOpcode {
                        pc: BytecodePc(0),
                        opcode: FinalOpcode::SpecialObject,
                    },
                ),
            )
        } else if spec_is_generator_kind(authority.kind) && occurrences(
            instructions,
            FinalOpcode::InitialYield,
            count,
        ) == 0 {
            Err(
                function_error(
                    id,
                    BytecodeVerificationErrorKind::UnsupportedCompilerOpcode {
                        pc: BytecodePc(0),
                        opcode: FinalOpcode::InitialYield,
                    },
                ),
            )
        } else {
            Ok(())
        },
    }
}

/// Whether some binding is a class receiver for static fields.
pub open spec fn has_static_receiver(
    variables: Seq<VariableDefinition>,
    closures: Seq<ClosureVariableDefinition>,
) -> bool {
    ||| exists|i: int|
        0 <= i < variables.len() && (#[trigger] variables[i]).policy.kind
            == CompilerBindingKind::ClassStaticReceiver
    ||| exists|i: int|
        0 <= i < closures.len() && (#[trigger] closures[i]).spec_policy().kind
            == CompilerBindingKind::ClassStaticReceiver
}

pub(crate) fn find_static_receiver(
    variables: &[VariableDefinition],
    closures: &[ClosureVariableDefinition],
) -> (found: bool)
    ensures
        found == has_static_receiver(variables@, closures@),
{
    let mut i: usize = 0;
    while i < variables.len()
        invariant
            i <= variables@.len(),
            forall|j: int|
                0 <= j < i ==> (#[trigger] variables@[j]).policy.kind
                    != CompilerBindingKind::ClassStaticReceiver,
        decreases variables@.len() - i,
    {
        if matches!(variables[i].policy.kind, CompilerBindingKind::ClassStaticReceiver) {
            assert(variables@[i as int].policy.kind == CompilerBindingKind::ClassStaticReceiver);
            return true;
        }
        i = i + 1;
    }
    let mut k: usize = 0;
    while k < closures.len()
        invariant
            k <= closures@.len(),
            forall|j: int|
                0 <= j < k ==> (#[trigger] closures@[j]).spec_policy().kind
                    != CompilerBindingKind::ClassStaticReceiver,
        decreases closures@.len() - k,
    {
        if matches!(closures[k].policy().kind, CompilerBindingKind::ClassStaticReceiver) {
            assert(closures@[k as int].spec_policy().kind
                == CompilerBindingKind::ClassStaticReceiver);
            return true;
        }
        k = k + 1;
    }
    false
}

/// The facts that decide which opcodes a function may use.
pub open(crate) spec fn authority_of(
    flow: VerifiedControlFlow,
    metadata: UnverifiedFunctionMetadata,
) -> OpcodeAuthority {
    OpcodeAuthority {
        kind: metadata.executable_kind,
        header: flow.function_header,
        argument_count: flow.domains.argument_count,
        mapped_arguments: match flow.compiler_capture_layout {
            Some(layout) => layout.mapped_arguments.is_some(),
            None => false,
        },
        static_field_super: has_static_receiver(metadata.variables@, metadata.closures@),
    }
}

fn unsupported_opcode(id: FunctionTemplateId, pc: BytecodePc, opcode: FinalOpcode) -> (error:
    BytecodeVerificationError)
    ensures
        error == function_error(
            id,
            BytecodeVerificationErrorKind::UnsupportedCompilerOpcode { pc, opcode },
        ),
{
    BytecodeVerificationError::function(
        id,
        BytecodeVerificationErrorKind::UnsupportedCompilerOpcode { pc, opcode },
    )
}

/// Checks all opcodes of a function. `instance_initializer_sequences` marks the
/// instructions at which a checked instance-initializer sequence starts.
pub(crate) fn verify_supported_opcodes(
    id: FunctionTemplateId,
    flow: &VerifiedControlFlow,
    metadata: &UnverifiedFunctionMetadata,
    instance_initializer_sequences: &[bool],
) -> (checked: Result<(), BytecodeVerificationError>)
    ensures
        checked == supported_opcodes_check(
            id,
            authority_of(*flow, *metadata),
            flow.instructions@,
            metadata.variables@,
            instance_initializer_sequences@,
        ),
{
    let mapped_arguments: bool = match &flow.compiler_capture_layout {
        Some(layout) => layout.mapped_arguments.is_some(),
        None => false,
    };
    let static_field_super: bool = find_static_receiver(&metadata.variables, &metadata.closures);
    let authority = OpcodeAuthority {
        kind: metadata.executable_kind,
        header: flow.function_header,
        argument_count: flow.domains.argument_count,
        mapped_arguments,
        static_field_super,
    };
    let instructions = flow.instructions();
    let sequences = instance_initializer_sequences;
    let mut arguments_seen: usize = 0;
    let mut last: Option<usize> = None;
    let mut rests_seen: usize = 0;
    let mut yields_seen: usize = 0;
    let mut i: usize = 0;
    while i < instructions.len()
        invariant
            i <= instructions@.len(),
            authority == authority_of(*flow, *metadata),
            instructions@ == flow.instructions@,
            sequences@ == instance_initializer_sequences@,
            arguments_seen == arguments_objects(instructions@, i as int),
            arguments_seen <= i,
            rests_seen == occurrences(instructions@, FinalOpcode::Rest, i as int),
            rests_seen <= i,
            yields_seen == occurrences(instructions@, FinalOpcode::InitialYield, i as int),
            yields_seen <= i,
            match last {
                Some(at) => last_arguments_object(instructions@, i as int) == Some(at as int) && at
                    < i,
                None => last_arguments_object(instructions@, i as int).is_none(),
            },
            refused_from(authority, instructions@, sequences@, 0) == refused_from(
                authority,
                instructions@,
                sequences@,
                i as int,
            ),
        decreases instructions@.len() - i,
    {
        let decoded = instructions[i].decoded;
        if is_arguments_object(decoded) {
            arguments_seen = arguments_seen + 1;
            last = Some(i);
        }
        if matches!(decoded.instruction.opcode, FinalOpcode::Rest) {
            rests_seen = rests_seen + 1;
        }
        if !is_opcode_admitted(
            authority,
            instructions,
            sequences,
            i,
            arguments_seen,
            rests_seen,
            yields_seen,
        ) {
            return Err(unsupported_opcode(id, decoded.pc, decoded.instruction.opcode));
        }
        if matches!(decoded.instruction.opcode, FinalOpcode::InitialYield) {
            yields_seen = yields_seen + 1;
        }
        i = i + 1;
    }
    let definition = find_arguments_definition(&metadata.variables);
    let initialized: Option<u32> = match last {
        Some(at) => {
            if at < instructions.len() - 1 {
                let put = instructions[at + 1].decoded.instruction;
                match initializer_put_definition(
                    put.opcode,
                    put.operands,
                    authority.argument_count,
                ) {
                    Some(definition) => Some(
                        if definition > u32::MAX as u64 {
                            u32::MAX
                        } else {
                            definition as u32
                        },
                    ),
                    None => None,
                }
            } else {
                None
            }
        },
        None => None,
    };
    if definition != initialized {
        return Err(
            BytecodeVerificationError::function(
                id,
                BytecodeVerificationErrorKind::ArgumentsObjectMetadataMismatch {
                    definition,
                    pc: match last {
                        Some(at) => Some(instructions[at].decoded.pc),
                        None => None,
                    },
                },
            ),
        );
    }
    if last.is_none() && mapped_arguments {
        return Err(unsupported_opcode(id, BytecodePc(0), FinalOpcode::SpecialObject));
    }
    if is_generator_kind(authority.kind) && yields_seen == 0 {
        return Err(unsupported_opcode(id, BytecodePc(0), FinalOpcode::InitialYield));
    }
    Ok(())
}

} // verus!
