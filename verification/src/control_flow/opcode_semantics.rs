//! Capability policy for the semantics that control-flow verification can
//! prove.
//!
//! The policy is separate from the encoding metadata of opcodes. Every opcode
//! stands in exactly one partition.
use crate::control_flow::error::UnsupportedVerifierFeature;
use crate::opcode::FinalOpcode;
use vstd::prelude::*;

verus! {

/// Which opcodes and operand values a verification admits.
#[derive(Clone, Copy, Debug, PartialEq, Eq, Hash, Structural)]
pub enum CapabilityProfile {
    /// Ordinary values and synchronous iteration only.
    Baseline,
    /// Classes, `with` environments, async iteration, delegation and eval too.
    Extended,
}

/// What the verifier knows of an opcode.
#[derive(Clone, Copy, Debug, PartialEq, Eq, Hash, Structural)]
pub enum OpcodeSemantics {
    /// Never a valid instruction.
    Invalid,
    /// Continues with the next instruction.
    Ordinary,
    /// Continues with the next instruction or at an encoded target.
    Conditional,
    /// Continues at an encoded target.
    Jump,
    /// Ends the function.
    Terminate,
    /// Needs a semantic component beyond ordinary stack depths.
    Unsupported(UnsupportedVerifierFeature, SuccessorShape),
}

/// Where control continues after an instruction.
#[derive(Clone, Copy, Debug, PartialEq, Eq, Hash, Structural)]
pub enum SuccessorShape {
    /// At the next instruction.
    Fallthrough,
    /// At the next instruction or at an encoded target.
    Branch,
    /// At an encoded target.
    Jump,
    /// Nowhere.
    Terminate,
}

impl OpcodeSemantics {
    /// Where control continues, unless the opcode is invalid.
    pub open spec fn spec_successor_shape(self) -> Option<SuccessorShape> {
        match self {
            OpcodeSemantics::Invalid => None,
            OpcodeSemantics::Ordinary => Some(SuccessorShape::Fallthrough),
            OpcodeSemantics::Conditional => Some(SuccessorShape::Branch),
            OpcodeSemantics::Jump => Some(SuccessorShape::Jump),
            OpcodeSemantics::Terminate => Some(SuccessorShape::Terminate),
            OpcodeSemantics::Unsupported(_, shape) => Some(shape),
        }
    }

    /// Returns where control continues, unless the opcode is invalid.
    #[verifier::when_used_as_spec(spec_successor_shape)]
    pub fn successor_shape(self) -> (shape: Option<SuccessorShape>)
        ensures
            shape == self.spec_successor_shape(),
    {
        match self {
            OpcodeSemantics::Invalid => None,
            OpcodeSemantics::Ordinary => Some(SuccessorShape::Fallthrough),
            OpcodeSemantics::Conditional => Some(SuccessorShape::Branch),
            OpcodeSemantics::Jump => Some(SuccessorShape::Jump),
            OpcodeSemantics::Terminate => Some(SuccessorShape::Terminate),
            OpcodeSemantics::Unsupported(_, shape) => Some(shape),
        }
    }
}

/// Semantics of each opcode under the extended profile: listed opcodes branch,
/// jump, terminate or need a further component, all others are ordinary.
pub open spec fn spec_opcode_semantics(opcode: FinalOpcode) -> OpcodeSemantics {
    match opcode {
        FinalOpcode::Invalid => OpcodeSemantics::Invalid,
        FinalOpcode::IfFalse | FinalOpcode::IfTrue | FinalOpcode::IfFalse8
        | FinalOpcode::IfTrue8 | FinalOpcode::Catch | FinalOpcode::Gosub
        | FinalOpcode::WithGetVar | FinalOpcode::WithDeleteVar | FinalOpcode::WithMakeRef
        | FinalOpcode::WithGetRef => OpcodeSemantics::Conditional,
        FinalOpcode::Goto | FinalOpcode::Goto8 | FinalOpcode::Goto16 => OpcodeSemantics::Jump,
        FinalOpcode::TailCall | FinalOpcode::TailCallMethod | FinalOpcode::Return
        | FinalOpcode::ReturnUndef | FinalOpcode::ReturnAsync | FinalOpcode::Throw
        | FinalOpcode::ThrowError | FinalOpcode::Ret => OpcodeSemantics::Terminate,
        FinalOpcode::PushConst | FinalOpcode::FClosure | FinalOpcode::PushConst8
        | FinalOpcode::FClosure8 => OpcodeSemantics::Unsupported(
            UnsupportedVerifierFeature::ConstantPoolTyping,
            SuccessorShape::Fallthrough,
        ),
        FinalOpcode::DefineClassComputed => OpcodeSemantics::Unsupported(
            UnsupportedVerifierFeature::RawFunctionStack,
            SuccessorShape::Fallthrough,
        ),
        FinalOpcode::Eval | FinalOpcode::ApplyEval => OpcodeSemantics::Unsupported(
            UnsupportedVerifierFeature::EvalScopeMetadata,
            SuccessorShape::Fallthrough,
        ),
        FinalOpcode::CloseLoc | FinalOpcode::MakeLocRef | FinalOpcode::MakeArgRef
        | FinalOpcode::MakeVarRefRef | FinalOpcode::MakeVarRef => OpcodeSemantics::Unsupported(
            UnsupportedVerifierFeature::CapturedBindingMetadata,
            SuccessorShape::Fallthrough,
        ),
        FinalOpcode::WithPutVar => OpcodeSemantics::Unsupported(
            UnsupportedVerifierFeature::WithEnvironmentBranches,
            SuccessorShape::Branch,
        ),
        FinalOpcode::ForOfStart | FinalOpcode::ForAwaitOfStart | FinalOpcode::ForOfNext
        | FinalOpcode::ForAwaitOfNext | FinalOpcode::IteratorGetValueDone
        | FinalOpcode::IteratorClose | FinalOpcode::IteratorNext | FinalOpcode::IteratorCall => OpcodeSemantics::Unsupported(
            UnsupportedVerifierFeature::IteratorMarkers,
            SuccessorShape::Fallthrough,
        ),
        FinalOpcode::CopyDataProperties => OpcodeSemantics::Unsupported(
            UnsupportedVerifierFeature::PackedStackOffsets,
            SuccessorShape::Fallthrough,
        ),
        _ => OpcodeSemantics::Ordinary,
    }
}

/// Returns the semantics of an opcode under the extended profile.
#[verifier::when_used_as_spec(spec_opcode_semantics)]
pub fn opcode_semantics(opcode: FinalOpcode) -> (semantics: OpcodeSemantics)
    ensures
        semantics == spec_opcode_semantics(opcode),
{
    match opcode {
        FinalOpcode::Invalid => OpcodeSemantics::Invalid,
        FinalOpcode::IfFalse | FinalOpcode::IfTrue | FinalOpcode::IfFalse8
        | FinalOpcode::IfTrue8 | FinalOpcode::Catch | FinalOpcode::Gosub
        | FinalOpcode::WithGetVar | FinalOpcode::WithDeleteVar | FinalOpcode::WithMakeRef
        | FinalOpcode::WithGetRef => OpcodeSemantics::Conditional,
        FinalOpcode::Goto | FinalOpcode::Goto8 | FinalOpcode::Goto16 => OpcodeSemantics::Jump,
        FinalOpcode::TailCall | FinalOpcode::TailCallMethod | FinalOpcode::Return
        | FinalOpcode::ReturnUndef | FinalOpcode::ReturnAsync | FinalOpcode::Throw
        | FinalOpcode::ThrowError | FinalOpcode::Ret => OpcodeSemantics::Terminate,
        FinalOpcode::PushConst | FinalOpcode::FClosure | FinalOpcode::PushConst8
        | FinalOpcode::FClosure8 => OpcodeSemantics::Unsupported(
            UnsupportedVerifierFeature::ConstantPoolTyping,
            SuccessorShape::Fallthrough,
        ),
        FinalOpcode::DefineClassComputed => OpcodeSemantics::Unsupported(
            UnsupportedVerifierFeature::RawFunctionStack,
            SuccessorShape::Fallthrough,
        ),
        FinalOpcode::Eval | FinalOpcode::ApplyEval => OpcodeSemantics::Unsupported(
            UnsupportedVerifierFeature::EvalScopeMetadata,
            SuccessorShape::Fallthrough,
        ),
        FinalOpcode::CloseLoc | FinalOpcode::MakeLocRef | FinalOpcode::MakeArgRef
        | FinalOpcode::MakeVarRefRef | FinalOpcode::MakeVarRef => OpcodeSemantics::Unsupported(
            UnsupportedVerifierFeature::CapturedBindingMetadata,
            SuccessorShape::Fallthrough,
        ),
        FinalOpcode::WithPutVar => OpcodeSemantics::Unsupported(
            UnsupportedVerifierFeature::WithEnvironmentBranches,
            SuccessorShape::Branch,
        ),
        FinalOpcode::ForOfStart | FinalOpcode::ForAwaitOfStart | FinalOpcode::ForOfNext
        | FinalOpcode::ForAwaitOfNext | FinalOpcode::IteratorGetValueDone
        | FinalOpcode::IteratorClose | FinalOpcode::IteratorNext | FinalOpcode::IteratorCall => OpcodeSemantics::Unsupported(
            UnsupportedVerifierFeature::IteratorMarkers,
            SuccessorShape::Fallthrough,
        ),
        FinalOpcode::CopyDataProperties => OpcodeSemantics::Unsupported(
            UnsupportedVerifierFeature::PackedStackOffsets,
            SuccessorShape::Fallthrough,
        ),
        FinalOpcode::DefineClass | FinalOpcode::NipCatch | FinalOpcode::PushI32
        | FinalOpcode::InitialYield | FinalOpcode::Yield | FinalOpcode::YieldStar
        | FinalOpcode::AsyncYieldStar | FinalOpcode::Await | FinalOpcode::PushAtomValue
        | FinalOpcode::PrivateSymbol | FinalOpcode::Undefined | FinalOpcode::Null
        | FinalOpcode::PushThis | FinalOpcode::PushFalse | FinalOpcode::PushTrue
        | FinalOpcode::Object | FinalOpcode::SpecialObject | FinalOpcode::Rest
        | FinalOpcode::Drop | FinalOpcode::Nip | FinalOpcode::Nip1 | FinalOpcode::Dup
        | FinalOpcode::Dup1 | FinalOpcode::Dup2 | FinalOpcode::Dup3 | FinalOpcode::Insert2
        | FinalOpcode::Insert3 | FinalOpcode::Insert4 | FinalOpcode::Perm3
        | FinalOpcode::Perm4 | FinalOpcode::Perm5 | FinalOpcode::Swap | FinalOpcode::Swap2
        | FinalOpcode::Rot3l | FinalOpcode::Rot3r | FinalOpcode::Rot4l | FinalOpcode::Rot5l
        | FinalOpcode::CallConstructor | FinalOpcode::Call | FinalOpcode::CallMethod
        | FinalOpcode::ArrayFrom | FinalOpcode::Apply | FinalOpcode::CheckCtorReturn
        | FinalOpcode::CheckCtor | FinalOpcode::InitCtor | FinalOpcode::CheckBrand
        | FinalOpcode::AddBrand | FinalOpcode::RegExp | FinalOpcode::GetSuper
        | FinalOpcode::Import | FinalOpcode::GetVarUndef | FinalOpcode::GetVar
        | FinalOpcode::PutVar | FinalOpcode::PutVarInit | FinalOpcode::GetRefValue
        | FinalOpcode::PutRefValue | FinalOpcode::GetField | FinalOpcode::GetField2
        | FinalOpcode::PutField | FinalOpcode::GetPrivateField
        | FinalOpcode::PutPrivateField | FinalOpcode::DefinePrivateField
        | FinalOpcode::GetArrayEl | FinalOpcode::GetArrayEl2 | FinalOpcode::GetArrayEl3
        | FinalOpcode::PutArrayEl | FinalOpcode::GetSuperValue | FinalOpcode::PutSuperValue
        | FinalOpcode::DefineField | FinalOpcode::SetName | FinalOpcode::SetNameComputed
        | FinalOpcode::SetProto | FinalOpcode::SetHomeObject | FinalOpcode::DefineArrayEl
        | FinalOpcode::Append | FinalOpcode::DefineMethod
        | FinalOpcode::DefineMethodComputed | FinalOpcode::GetLoc | FinalOpcode::PutLoc
        | FinalOpcode::SetLoc | FinalOpcode::GetArg | FinalOpcode::PutArg
        | FinalOpcode::SetArg | FinalOpcode::GetVarRef | FinalOpcode::PutVarRef
        | FinalOpcode::SetVarRef | FinalOpcode::SetLocUninitialized
        | FinalOpcode::GetLocCheck | FinalOpcode::PutLocCheck | FinalOpcode::SetLocCheck
        | FinalOpcode::PutLocCheckInit | FinalOpcode::GetLocCheckThis
        | FinalOpcode::GetVarRefCheck | FinalOpcode::PutVarRefCheck
        | FinalOpcode::PutVarRefCheckInit | FinalOpcode::ToObject | FinalOpcode::ToPropKey
        | FinalOpcode::ForInStart | FinalOpcode::ForInNext
        | FinalOpcode::IteratorCheckObject | FinalOpcode::Neg | FinalOpcode::Plus
        | FinalOpcode::Dec | FinalOpcode::Inc | FinalOpcode::PostDec | FinalOpcode::PostInc
        | FinalOpcode::DecLoc | FinalOpcode::IncLoc | FinalOpcode::AddLoc | FinalOpcode::Not
        | FinalOpcode::Lnot | FinalOpcode::Typeof | FinalOpcode::Delete
        | FinalOpcode::DeleteVar | FinalOpcode::Mul | FinalOpcode::Div | FinalOpcode::Mod
        | FinalOpcode::Add | FinalOpcode::Sub | FinalOpcode::Pow | FinalOpcode::Shl
        | FinalOpcode::Sar | FinalOpcode::Shr | FinalOpcode::Lt | FinalOpcode::Lte
        | FinalOpcode::Gt | FinalOpcode::Gte | FinalOpcode::InstanceOf | FinalOpcode::In
        | FinalOpcode::Eq | FinalOpcode::Neq | FinalOpcode::StrictEq
        | FinalOpcode::StrictNeq | FinalOpcode::And | FinalOpcode::Xor | FinalOpcode::Or
        | FinalOpcode::IsUndefinedOrNull | FinalOpcode::PrivateIn
        | FinalOpcode::PushBigIntI32 | FinalOpcode::Nop | FinalOpcode::PushMinus1
        | FinalOpcode::Push0 | FinalOpcode::Push1 | FinalOpcode::Push2 | FinalOpcode::Push3
        | FinalOpcode::Push4 | FinalOpcode::Push5 | FinalOpcode::Push6 | FinalOpcode::Push7
        | FinalOpcode::PushI8 | FinalOpcode::PushI16 | FinalOpcode::PushEmptyString
        | FinalOpcode::GetLoc8 | FinalOpcode::PutLoc8 | FinalOpcode::SetLoc8
        | FinalOpcode::GetLoc0 | FinalOpcode::GetLoc1 | FinalOpcode::GetLoc2
        | FinalOpcode::GetLoc3 | FinalOpcode::PutLoc0 | FinalOpcode::PutLoc1
        | FinalOpcode::PutLoc2 | FinalOpcode::PutLoc3 | FinalOpcode::SetLoc0
        | FinalOpcode::SetLoc1 | FinalOpcode::SetLoc2 | FinalOpcode::SetLoc3
        | FinalOpcode::GetArg0 | FinalOpcode::GetArg1 | FinalOpcode::GetArg2
        | FinalOpcode::GetArg3 | FinalOpcode::PutArg0 | FinalOpcode::PutArg1
        | FinalOpcode::PutArg2 | FinalOpcode::PutArg3 | FinalOpcode::SetArg0
        | FinalOpcode::SetArg1 | FinalOpcode::SetArg2 | FinalOpcode::SetArg3
        | FinalOpcode::GetVarRef0 | FinalOpcode::GetVarRef1 | FinalOpcode::GetVarRef2
        | FinalOpcode::GetVarRef3 | FinalOpcode::PutVarRef0 | FinalOpcode::PutVarRef1
        | FinalOpcode::PutVarRef2 | FinalOpcode::PutVarRef3 | FinalOpcode::SetVarRef0
        | FinalOpcode::SetVarRef1 | FinalOpcode::SetVarRef2 | FinalOpcode::SetVarRef3
        | FinalOpcode::GetLength | FinalOpcode::Call0 | FinalOpcode::Call1
        | FinalOpcode::Call2 | FinalOpcode::Call3 | FinalOpcode::IsUndefined
        | FinalOpcode::IsNull | FinalOpcode::TypeofIsUndefined
        | FinalOpcode::TypeofIsFunction => OpcodeSemantics::Ordinary,
    }
}

/// Semantics of each opcode under the baseline profile: class definition and
/// every `with` transfer need a further component there.
pub open spec fn spec_baseline_opcode_semantics(opcode: FinalOpcode) -> OpcodeSemantics {
    match opcode {
        FinalOpcode::DefineClass => OpcodeSemantics::Unsupported(
            UnsupportedVerifierFeature::RawFunctionStack,
            SuccessorShape::Fallthrough,
        ),
        FinalOpcode::WithGetVar
        | FinalOpcode::WithDeleteVar
        | FinalOpcode::WithMakeRef
        | FinalOpcode::WithGetRef => OpcodeSemantics::Unsupported(
            UnsupportedVerifierFeature::WithEnvironmentBranches,
            SuccessorShape::Branch,
        ),
        _ => spec_opcode_semantics(opcode),
    }
}

/// Returns the semantics of an opcode under the baseline profile.
#[verifier::when_used_as_spec(spec_baseline_opcode_semantics)]
pub fn baseline_opcode_semantics(opcode: FinalOpcode) -> (semantics: OpcodeSemantics)
    ensures
        semantics == spec_baseline_opcode_semantics(opcode),
{
    match opcode {
        FinalOpcode::Invalid => OpcodeSemantics::Invalid,
        FinalOpcode::IfFalse | FinalOpcode::IfTrue | FinalOpcode::IfFalse8
        | FinalOpcode::IfTrue8 | FinalOpcode::Catch | FinalOpcode::Gosub => OpcodeSemantics::Conditional,
        FinalOpcode::Goto | FinalOpcode::Goto8 | FinalOpcode::Goto16 => OpcodeSemantics::Jump,
        FinalOpcode::TailCall | FinalOpcode::TailCallMethod | FinalOpcode::Return
        | FinalOpcode::ReturnUndef | FinalOpcode::ReturnAsync | FinalOpcode::Throw
        | FinalOpcode::ThrowError | FinalOpcode::Ret => OpcodeSemantics::Terminate,
        FinalOpcode::PushConst | FinalOpcode::FClosure | FinalOpcode::PushConst8
        | FinalOpcode::FClosure8 => OpcodeSemantics::Unsupported(
            UnsupportedVerifierFeature::ConstantPoolTyping,
            SuccessorShape::Fallthrough,
        ),
        FinalOpcode::DefineClass | FinalOpcode::DefineClassComputed => OpcodeSemantics::Unsupported(
            UnsupportedVerifierFeature::RawFunctionStack,
            SuccessorShape::Fallthrough,
        ),
        FinalOpcode::Eval | FinalOpcode::ApplyEval => OpcodeSemantics::Unsupported(
            UnsupportedVerifierFeature::EvalScopeMetadata,
            SuccessorShape::Fallthrough,
        ),
        FinalOpcode::CloseLoc | FinalOpcode::MakeLocRef | FinalOpcode::MakeArgRef
        | FinalOpcode::MakeVarRefRef | FinalOpcode::MakeVarRef => OpcodeSemantics::Unsupported(
            UnsupportedVerifierFeature::CapturedBindingMetadata,
            SuccessorShape::Fallthrough,
        ),
        FinalOpcode::WithGetVar | FinalOpcode::WithPutVar | FinalOpcode::WithDeleteVar
        | FinalOpcode::WithMakeRef | FinalOpcode::WithGetRef => OpcodeSemantics::Unsupported(
            UnsupportedVerifierFeature::WithEnvironmentBranches,
            SuccessorShape::Branch,
        ),
        FinalOpcode::ForOfStart | FinalOpcode::ForAwaitOfStart | FinalOpcode::ForOfNext
        | FinalOpcode::ForAwaitOfNext | FinalOpcode::IteratorGetValueDone
        | FinalOpcode::IteratorClose | FinalOpcode::IteratorNext | FinalOpcode::IteratorCall => OpcodeSemantics::Unsupported(
            UnsupportedVerifierFeature::IteratorMarkers,
            SuccessorShape::Fallthrough,
        ),
        FinalOpcode::CopyDataProperties => OpcodeSemantics::Unsupported(
            UnsupportedVerifierFeature::PackedStackOffsets,
            SuccessorShape::Fallthrough,
        ),
        FinalOpcode::NipCatch | FinalOpcode::PushI32 | FinalOpcode::InitialYield
        | FinalOpcode::Yield | FinalOpcode::YieldStar | FinalOpcode::AsyncYieldStar
        | FinalOpcode::Await | FinalOpcode::PushAtomValue | FinalOpcode::PrivateSymbol
        | FinalOpcode::Undefined | FinalOpcode::Null | FinalOpcode::PushThis
        | FinalOpcode::PushFalse | FinalOpcode::PushTrue | FinalOpcode::Object
        | FinalOpcode::SpecialObject | FinalOpcode::Rest | FinalOpcode::Drop
        | FinalOpcode::Nip | FinalOpcode::Nip1 | FinalOpcode::Dup | FinalOpcode::Dup1
        | FinalOpcode::Dup2 | FinalOpcode::Dup3 | FinalOpcode::Insert2
        | FinalOpcode::Insert3 | FinalOpcode::Insert4 | FinalOpcode::Perm3
        | FinalOpcode::Perm4 | FinalOpcode::Perm5 | FinalOpcode::Swap | FinalOpcode::Swap2
        | FinalOpcode::Rot3l | FinalOpcode::Rot3r | FinalOpcode::Rot4l | FinalOpcode::Rot5l
        | FinalOpcode::CallConstructor | FinalOpcode::Call | FinalOpcode::CallMethod
        | FinalOpcode::ArrayFrom | FinalOpcode::Apply | FinalOpcode::CheckCtorReturn
        | FinalOpcode::CheckCtor | FinalOpcode::InitCtor | FinalOpcode::CheckBrand
        | FinalOpcode::AddBrand | FinalOpcode::RegExp | FinalOpcode::GetSuper
        | FinalOpcode::Import | FinalOpcode::GetVarUndef | FinalOpcode::GetVar
        | FinalOpcode::PutVar | FinalOpcode::PutVarInit | FinalOpcode::GetRefValue
        | FinalOpcode::PutRefValue | FinalOpcode::GetField | FinalOpcode::GetField2
        | FinalOpcode::PutField | FinalOpcode::GetPrivateField
        | FinalOpcode::PutPrivateField | FinalOpcode::DefinePrivateField
        | FinalOpcode::GetArrayEl | FinalOpcode::GetArrayEl2 | FinalOpcode::GetArrayEl3
        | FinalOpcode::PutArrayEl | FinalOpcode::GetSuperValue | FinalOpcode::PutSuperValue
        | FinalOpcode::DefineField | FinalOpcode::SetName | FinalOpcode::SetNameComputed
        | FinalOpcode::SetProto | FinalOpcode::SetHomeObject | FinalOpcode::DefineArrayEl
        | FinalOpcode::Append | FinalOpcode::DefineMethod
        | FinalOpcode::DefineMethodComputed | FinalOpcode::GetLoc | FinalOpcode::PutLoc
        | FinalOpcode::SetLoc | FinalOpcode::GetArg | FinalOpcode::PutArg
        | FinalOpcode::SetArg | FinalOpcode::GetVarRef | FinalOpcode::PutVarRef
        | FinalOpcode::SetVarRef | FinalOpcode::SetLocUninitialized
        | FinalOpcode::GetLocCheck | FinalOpcode::PutLocCheck | FinalOpcode::SetLocCheck
        | FinalOpcode::PutLocCheckInit | FinalOpcode::GetLocCheckThis
        | FinalOpcode::GetVarRefCheck | FinalOpcode::PutVarRefCheck
        | FinalOpcode::PutVarRefCheckInit | FinalOpcode::ToObject | FinalOpcode::ToPropKey
        | FinalOpcode::ForInStart | FinalOpcode::ForInNext
        | FinalOpcode::IteratorCheckObject | FinalOpcode::Neg | FinalOpcode::Plus
        | FinalOpcode::Dec | FinalOpcode::Inc | FinalOpcode::PostDec | FinalOpcode::PostInc
        | FinalOpcode::DecLoc | FinalOpcode::IncLoc | FinalOpcode::AddLoc | FinalOpcode::Not
        | FinalOpcode::Lnot | FinalOpcode::Typeof | FinalOpcode::Delete
        | FinalOpcode::DeleteVar | FinalOpcode::Mul | FinalOpcode::Div | FinalOpcode::Mod
        | FinalOpcode::Add | FinalOpcode::Sub | FinalOpcode::Pow | FinalOpcode::Shl
        | FinalOpcode::Sar | FinalOpcode::Shr | FinalOpcode::Lt | FinalOpcode::Lte
        | FinalOpcode::Gt | FinalOpcode::Gte | FinalOpcode::InstanceOf | FinalOpcode::In
        | FinalOpcode::Eq | FinalOpcode::Neq | FinalOpcode::StrictEq
        | FinalOpcode::StrictNeq | FinalOpcode::And | FinalOpcode::Xor | FinalOpcode::Or
        | FinalOpcode::IsUndefinedOrNull | FinalOpcode::PrivateIn
        | FinalOpcode::PushBigIntI32 | FinalOpcode::Nop | FinalOpcode::PushMinus1
        | FinalOpcode::Push0 | FinalOpcode::Push1 | FinalOpcode::Push2 | FinalOpcode::Push3
        | FinalOpcode::Push4 | FinalOpcode::Push5 | FinalOpcode::Push6 | FinalOpcode::Push7
        | FinalOpcode::PushI8 | FinalOpcode::PushI16 | FinalOpcode::PushEmptyString
        | FinalOpcode::GetLoc8 | FinalOpcode::PutLoc8 | FinalOpcode::SetLoc8
        | FinalOpcode::GetLoc0 | FinalOpcode::GetLoc1 | FinalOpcode::GetLoc2
        | FinalOpcode::GetLoc3 | FinalOpcode::PutLoc0 | FinalOpcode::PutLoc1
        | FinalOpcode::PutLoc2 | FinalOpcode::PutLoc3 | FinalOpcode::SetLoc0
        | FinalOpcode::SetLoc1 | FinalOpcode::SetLoc2 | FinalOpcode::SetLoc3
        | FinalOpcode::GetArg0 | FinalOpcode::GetArg1 | FinalOpcode::GetArg2
        | FinalOpcode::GetArg3 | FinalOpcode::PutArg0 | FinalOpcode::PutArg1
        | FinalOpcode::PutArg2 | FinalOpcode::PutArg3 | FinalOpcode::SetArg0
        | FinalOpcode::SetArg1 | FinalOpcode::SetArg2 | FinalOpcode::SetArg3
        | FinalOpcode::GetVarRef0 | FinalOpcode::GetVarRef1 | FinalOpcode::GetVarRef2
        | FinalOpcode::GetVarRef3 | FinalOpcode::PutVarRef0 | FinalOpcode::PutVarRef1
        | FinalOpcode::PutVarRef2 | FinalOpcode::PutVarRef3 | FinalOpcode::SetVarRef0
        | FinalOpcode::SetVarRef1 | FinalOpcode::SetVarRef2 | FinalOpcode::SetVarRef3
        | FinalOpcode::GetLength | FinalOpcode::Call0 | FinalOpcode::Call1
        | FinalOpcode::Call2 | FinalOpcode::Call3 | FinalOpcode::IsUndefined
        | FinalOpcode::IsNull | FinalOpcode::TypeofIsUndefined
        | FinalOpcode::TypeofIsFunction => OpcodeSemantics::Ordinary,
    }
}

/// Semantics of an opcode under `profile`.
pub open spec fn spec_profile_semantics(
    profile: CapabilityProfile,
    opcode: FinalOpcode,
) -> OpcodeSemantics {
    match profile {
        CapabilityProfile::Baseline => spec_baseline_opcode_semantics(opcode),
        CapabilityProfile::Extended => spec_opcode_semantics(opcode),
    }
}

/// Returns the semantics of an opcode under `profile`.
#[verifier::when_used_as_spec(spec_profile_semantics)]
pub fn profile_semantics(profile: CapabilityProfile, opcode: FinalOpcode) -> (semantics:
    OpcodeSemantics)
    ensures
        semantics == spec_profile_semantics(profile, opcode),
{
    match profile {
        CapabilityProfile::Baseline => baseline_opcode_semantics(opcode),
        CapabilityProfile::Extended => opcode_semantics(opcode),
    }
}

/// The extended profile changes nothing that the baseline profile supports.
pub proof fn lemma_extended_profile_keeps_baseline(opcode: FinalOpcode)
    ensures
        !(spec_baseline_opcode_semantics(opcode) is Unsupported) ==> spec_opcode_semantics(opcode)
            == spec_baseline_opcode_semantics(opcode),
        spec_opcode_semantics(opcode) is Unsupported ==> spec_baseline_opcode_semantics(opcode)
            == spec_opcode_semantics(opcode),
{
}

/// Exactly the reserved opcode is invalid, under either profile.
pub proof fn lemma_only_reserved_opcode_is_invalid(profile: CapabilityProfile, opcode: FinalOpcode)
    ensures
        spec_profile_semantics(profile, opcode) == OpcodeSemantics::Invalid <==> opcode
            == FinalOpcode::Invalid,
{
}

} // verus!
