//! What the opcodes take from the stack, give to it and carry, and how they are
//! numbered.
use crate::opcode::{FINAL_OPCODE_COUNT, FinalOpcode, OperandFormat};
use vstd::prelude::*;

verus! {

/// Values that an opcode takes, beside arguments that it counts.
pub open spec fn takes(opcode: FinalOpcode) -> int {
    match opcode {
        FinalOpcode::Drop
        | FinalOpcode::Dup
        | FinalOpcode::Call
        | FinalOpcode::TailCall
        | FinalOpcode::Return
        | FinalOpcode::CheckCtorReturn
        | FinalOpcode::ReturnAsync
        | FinalOpcode::Throw
        | FinalOpcode::Eval
        | FinalOpcode::GetSuper
        | FinalOpcode::PutVar
        | FinalOpcode::PutVarInit
        | FinalOpcode::GetField
        | FinalOpcode::GetField2
        | FinalOpcode::SetName
        | FinalOpcode::PutLoc
        | FinalOpcode::SetLoc
        | FinalOpcode::PutArg
        | FinalOpcode::SetArg
        | FinalOpcode::PutVarRef
        | FinalOpcode::SetVarRef
        | FinalOpcode::PutLocCheck
        | FinalOpcode::SetLocCheck
        | FinalOpcode::PutLocCheckInit
        | FinalOpcode::PutVarRefCheck
        | FinalOpcode::PutVarRefCheckInit
        | FinalOpcode::IfFalse
        | FinalOpcode::IfTrue
        | FinalOpcode::Ret
        | FinalOpcode::ToObject
        | FinalOpcode::ToPropKey
        | FinalOpcode::WithGetVar
        | FinalOpcode::WithDeleteVar
        | FinalOpcode::WithMakeRef
        | FinalOpcode::WithGetRef
        | FinalOpcode::ForInStart
        | FinalOpcode::ForOfStart
        | FinalOpcode::ForAwaitOfStart
        | FinalOpcode::ForInNext
        | FinalOpcode::IteratorCheckObject
        | FinalOpcode::Yield
        | FinalOpcode::YieldStar
        | FinalOpcode::AsyncYieldStar
        | FinalOpcode::Await
        | FinalOpcode::Neg
        | FinalOpcode::Plus
        | FinalOpcode::Dec
        | FinalOpcode::Inc
        | FinalOpcode::PostDec
        | FinalOpcode::PostInc
        | FinalOpcode::AddLoc
        | FinalOpcode::Not
        | FinalOpcode::Lnot
        | FinalOpcode::Typeof
        | FinalOpcode::IsUndefinedOrNull
        | FinalOpcode::PutLoc8
        | FinalOpcode::SetLoc8
        | FinalOpcode::PutLoc0
        | FinalOpcode::PutLoc1
        | FinalOpcode::PutLoc2
        | FinalOpcode::PutLoc3
        | FinalOpcode::SetLoc0
        | FinalOpcode::SetLoc1
        | FinalOpcode::SetLoc2
        | FinalOpcode::SetLoc3
        | FinalOpcode::PutArg0
        | FinalOpcode::PutArg1
        | FinalOpcode::PutArg2
        | FinalOpcode::PutArg3
        | FinalOpcode::SetArg0
        | FinalOpcode::SetArg1
        | FinalOpcode::SetArg2
        | FinalOpcode::SetArg3
        | FinalOpcode::PutVarRef0
        | FinalOpcode::PutVarRef1
        | FinalOpcode::PutVarRef2
        | FinalOpcode::PutVarRef3
        | FinalOpcode::SetVarRef0
        | FinalOpcode::SetVarRef1
        | FinalOpcode::SetVarRef2
        | FinalOpcode::SetVarRef3
        | FinalOpcode::GetLength
        | FinalOpcode::IfFalse8
        | FinalOpcode::IfTrue8
        | FinalOpcode::Call0
        | FinalOpcode::Call1
        | FinalOpcode::Call2
        | FinalOpcode::Call3
        | FinalOpcode::IsUndefined
        | FinalOpcode::IsNull
        | FinalOpcode::TypeofIsUndefined
        | FinalOpcode::TypeofIsFunction => 1,
        FinalOpcode::Nip
        | FinalOpcode::Dup1
        | FinalOpcode::Dup2
        | FinalOpcode::Insert2
        | FinalOpcode::Swap
        | FinalOpcode::CallConstructor
        | FinalOpcode::CallMethod
        | FinalOpcode::TailCallMethod
        | FinalOpcode::CheckBrand
        | FinalOpcode::AddBrand
        | FinalOpcode::ApplyEval
        | FinalOpcode::RegExp
        | FinalOpcode::Import
        | FinalOpcode::GetRefValue
        | FinalOpcode::PutField
        | FinalOpcode::GetPrivateField
        | FinalOpcode::GetArrayEl
        | FinalOpcode::GetArrayEl2
        | FinalOpcode::GetArrayEl3
        | FinalOpcode::DefineField
        | FinalOpcode::SetNameComputed
        | FinalOpcode::SetProto
        | FinalOpcode::SetHomeObject
        | FinalOpcode::DefineMethod
        | FinalOpcode::DefineClass
        | FinalOpcode::NipCatch
        | FinalOpcode::WithPutVar
        | FinalOpcode::IteratorGetValueDone
        | FinalOpcode::Delete
        | FinalOpcode::Mul
        | FinalOpcode::Div
        | FinalOpcode::Mod
        | FinalOpcode::Add
        | FinalOpcode::Sub
        | FinalOpcode::Pow
        | FinalOpcode::Shl
        | FinalOpcode::Sar
        | FinalOpcode::Shr
        | FinalOpcode::Lt
        | FinalOpcode::Lte
        | FinalOpcode::Gt
        | FinalOpcode::Gte
        | FinalOpcode::InstanceOf
        | FinalOpcode::In
        | FinalOpcode::Eq
        | FinalOpcode::Neq
        | FinalOpcode::StrictEq
        | FinalOpcode::StrictNeq
        | FinalOpcode::And
        | FinalOpcode::Xor
        | FinalOpcode::Or
        | FinalOpcode::PrivateIn => 2,
        FinalOpcode::Nip1
        | FinalOpcode::Dup3
        | FinalOpcode::Insert3
        | FinalOpcode::Perm3
        | FinalOpcode::Rot3l
        | FinalOpcode::Rot3r
        | FinalOpcode::Apply
        | FinalOpcode::PutRefValue
        | FinalOpcode::PutPrivateField
        | FinalOpcode::DefinePrivateField
        | FinalOpcode::PutArrayEl
        | FinalOpcode::GetSuperValue
        | FinalOpcode::DefineArrayEl
        | FinalOpcode::Append
        | FinalOpcode::CopyDataProperties
        | FinalOpcode::DefineMethodComputed
        | FinalOpcode::DefineClassComputed
        | FinalOpcode::ForOfNext
        | FinalOpcode::ForAwaitOfNext
        | FinalOpcode::IteratorClose => 3,
        FinalOpcode::Insert4
        | FinalOpcode::Perm4
        | FinalOpcode::Swap2
        | FinalOpcode::Rot4l
        | FinalOpcode::PutSuperValue
        | FinalOpcode::IteratorNext
        | FinalOpcode::IteratorCall => 4,
        FinalOpcode::Perm5
        | FinalOpcode::Rot5l => 5,
        _ => 0,
    }
}

/// Values that an opcode gives.
pub open spec fn gives(opcode: FinalOpcode) -> int {
    match opcode {
        FinalOpcode::PushI32
        | FinalOpcode::PushConst
        | FinalOpcode::FClosure
        | FinalOpcode::PushAtomValue
        | FinalOpcode::PrivateSymbol
        | FinalOpcode::Undefined
        | FinalOpcode::Null
        | FinalOpcode::PushThis
        | FinalOpcode::PushFalse
        | FinalOpcode::PushTrue
        | FinalOpcode::Object
        | FinalOpcode::SpecialObject
        | FinalOpcode::Rest
        | FinalOpcode::Nip
        | FinalOpcode::CallConstructor
        | FinalOpcode::Call
        | FinalOpcode::CallMethod
        | FinalOpcode::ArrayFrom
        | FinalOpcode::Apply
        | FinalOpcode::InitCtor
        | FinalOpcode::Eval
        | FinalOpcode::ApplyEval
        | FinalOpcode::RegExp
        | FinalOpcode::GetSuper
        | FinalOpcode::Import
        | FinalOpcode::GetVarUndef
        | FinalOpcode::GetVar
        | FinalOpcode::GetField
        | FinalOpcode::GetPrivateField
        | FinalOpcode::DefinePrivateField
        | FinalOpcode::GetArrayEl
        | FinalOpcode::GetSuperValue
        | FinalOpcode::DefineField
        | FinalOpcode::SetName
        | FinalOpcode::SetProto
        | FinalOpcode::DefineMethod
        | FinalOpcode::DefineMethodComputed
        | FinalOpcode::GetLoc
        | FinalOpcode::SetLoc
        | FinalOpcode::GetArg
        | FinalOpcode::SetArg
        | FinalOpcode::GetVarRef
        | FinalOpcode::SetVarRef
        | FinalOpcode::GetLocCheck
        | FinalOpcode::SetLocCheck
        | FinalOpcode::GetLocCheckThis
        | FinalOpcode::GetVarRefCheck
        | FinalOpcode::Catch
        | FinalOpcode::NipCatch
        | FinalOpcode::ToObject
        | FinalOpcode::ToPropKey
        | FinalOpcode::WithPutVar
        | FinalOpcode::ForInStart
        | FinalOpcode::IteratorCheckObject
        | FinalOpcode::Await
        | FinalOpcode::Neg
        | FinalOpcode::Plus
        | FinalOpcode::Dec
        | FinalOpcode::Inc
        | FinalOpcode::Not
        | FinalOpcode::Lnot
        | FinalOpcode::Typeof
        | FinalOpcode::Delete
        | FinalOpcode::DeleteVar
        | FinalOpcode::Mul
        | FinalOpcode::Div
        | FinalOpcode::Mod
        | FinalOpcode::Add
        | FinalOpcode::Sub
        | FinalOpcode::Pow
        | FinalOpcode::Shl
        | FinalOpcode::Sar
        | FinalOpcode::Shr
        | FinalOpcode::Lt
        | FinalOpcode::Lte
        | FinalOpcode::Gt
        | FinalOpcode::Gte
        | FinalOpcode::InstanceOf
        | FinalOpcode::In
        | FinalOpcode::Eq
        | FinalOpcode::Neq
        | FinalOpcode::StrictEq
        | FinalOpcode::StrictNeq
        | FinalOpcode::And
        | FinalOpcode::Xor
        | FinalOpcode::Or
        | FinalOpcode::IsUndefinedOrNull
        | FinalOpcode::PrivateIn
        | FinalOpcode::PushBigIntI32
        | FinalOpcode::PushMinus1
        | FinalOpcode::Push0
        | FinalOpcode::Push1
        | FinalOpcode::Push2
        | FinalOpcode::Push3
        | FinalOpcode::Push4
        | FinalOpcode::Push5
        | FinalOpcode::Push6
        | FinalOpcode::Push7
        | FinalOpcode::PushI8
        | FinalOpcode::PushI16
        | FinalOpcode::PushConst8
        | FinalOpcode::FClosure8
        | FinalOpcode::PushEmptyString
        | FinalOpcode::GetLoc8
        | FinalOpcode::SetLoc8
        | FinalOpcode::GetLoc0
        | FinalOpcode::GetLoc1
        | FinalOpcode::GetLoc2
        | FinalOpcode::GetLoc3
        | FinalOpcode::SetLoc0
        | FinalOpcode::SetLoc1
        | FinalOpcode::SetLoc2
        | FinalOpcode::SetLoc3
        | FinalOpcode::GetArg0
        | FinalOpcode::GetArg1
        | FinalOpcode::GetArg2
        | FinalOpcode::GetArg3
        | FinalOpcode::SetArg0
        | FinalOpcode::SetArg1
        | FinalOpcode::SetArg2
        | FinalOpcode::SetArg3
        | FinalOpcode::GetVarRef0
        | FinalOpcode::GetVarRef1
        | FinalOpcode::GetVarRef2
        | FinalOpcode::GetVarRef3
        | FinalOpcode::SetVarRef0
        | FinalOpcode::SetVarRef1
        | FinalOpcode::SetVarRef2
        | FinalOpcode::SetVarRef3
        | FinalOpcode::GetLength
        | FinalOpcode::Call0
        | FinalOpcode::Call1
        | FinalOpcode::Call2
        | FinalOpcode::Call3
        | FinalOpcode::IsUndefined
        | FinalOpcode::IsNull
        | FinalOpcode::TypeofIsUndefined
        | FinalOpcode::TypeofIsFunction => 1,
        FinalOpcode::Nip1
        | FinalOpcode::Dup
        | FinalOpcode::Swap
        | FinalOpcode::CheckCtorReturn
        | FinalOpcode::CheckBrand
        | FinalOpcode::GetField2
        | FinalOpcode::GetArrayEl2
        | FinalOpcode::SetNameComputed
        | FinalOpcode::SetHomeObject
        | FinalOpcode::DefineArrayEl
        | FinalOpcode::Append
        | FinalOpcode::DefineClass
        | FinalOpcode::MakeLocRef
        | FinalOpcode::MakeArgRef
        | FinalOpcode::MakeVarRefRef
        | FinalOpcode::MakeVarRef
        | FinalOpcode::Yield
        | FinalOpcode::YieldStar
        | FinalOpcode::AsyncYieldStar
        | FinalOpcode::PostDec
        | FinalOpcode::PostInc => 2,
        FinalOpcode::Dup1
        | FinalOpcode::Insert2
        | FinalOpcode::Perm3
        | FinalOpcode::Rot3l
        | FinalOpcode::Rot3r
        | FinalOpcode::GetRefValue
        | FinalOpcode::GetArrayEl3
        | FinalOpcode::CopyDataProperties
        | FinalOpcode::DefineClassComputed
        | FinalOpcode::ForOfStart
        | FinalOpcode::ForAwaitOfStart
        | FinalOpcode::ForInNext
        | FinalOpcode::IteratorGetValueDone => 3,
        FinalOpcode::Dup2
        | FinalOpcode::Insert3
        | FinalOpcode::Perm4
        | FinalOpcode::Swap2
        | FinalOpcode::Rot4l
        | FinalOpcode::ForAwaitOfNext
        | FinalOpcode::IteratorNext => 4,
        FinalOpcode::Insert4
        | FinalOpcode::Perm5
        | FinalOpcode::Rot5l
        | FinalOpcode::ForOfNext
        | FinalOpcode::IteratorCall => 5,
        FinalOpcode::Dup3 => 6,
        _ => 0,
    }
}

/// What an opcode carries.
pub open spec fn carries(opcode: FinalOpcode) -> OperandFormat {
    match opcode {
        FinalOpcode::GetArg
        | FinalOpcode::PutArg
        | FinalOpcode::SetArg => OperandFormat::Arg,
        FinalOpcode::PushAtomValue
        | FinalOpcode::PrivateSymbol
        | FinalOpcode::GetField
        | FinalOpcode::GetField2
        | FinalOpcode::PutField
        | FinalOpcode::DefineField
        | FinalOpcode::SetName
        | FinalOpcode::MakeVarRef
        | FinalOpcode::DeleteVar => OperandFormat::Atom,
        FinalOpcode::WithGetVar
        | FinalOpcode::WithPutVar
        | FinalOpcode::WithDeleteVar
        | FinalOpcode::WithMakeRef
        | FinalOpcode::WithGetRef => OperandFormat::AtomLabelU8,
        FinalOpcode::MakeLocRef
        | FinalOpcode::MakeArgRef
        | FinalOpcode::MakeVarRefRef => OperandFormat::AtomU16,
        FinalOpcode::ThrowError
        | FinalOpcode::DefineMethod
        | FinalOpcode::DefineClass
        | FinalOpcode::DefineClassComputed => OperandFormat::AtomU8,
        FinalOpcode::PushConst
        | FinalOpcode::FClosure => OperandFormat::Const,
        FinalOpcode::PushConst8
        | FinalOpcode::FClosure8 => OperandFormat::Const8,
        FinalOpcode::PushI16 => OperandFormat::I16,
        FinalOpcode::PushI32
        | FinalOpcode::PushBigIntI32 => OperandFormat::I32,
        FinalOpcode::PushI8 => OperandFormat::I8,
        FinalOpcode::IfFalse
        | FinalOpcode::IfTrue
        | FinalOpcode::Goto
        | FinalOpcode::Catch
        | FinalOpcode::Gosub => OperandFormat::Label,
        FinalOpcode::Goto16 => OperandFormat::Label16,
        FinalOpcode::IfFalse8
        | FinalOpcode::IfTrue8
        | FinalOpcode::Goto8 => OperandFormat::Label8,
        FinalOpcode::GetLoc
        | FinalOpcode::PutLoc
        | FinalOpcode::SetLoc
        | FinalOpcode::SetLocUninitialized
        | FinalOpcode::GetLocCheck
        | FinalOpcode::PutLocCheck
        | FinalOpcode::SetLocCheck
        | FinalOpcode::PutLocCheckInit
        | FinalOpcode::GetLocCheckThis
        | FinalOpcode::CloseLoc => OperandFormat::Loc,
        FinalOpcode::DecLoc
        | FinalOpcode::IncLoc
        | FinalOpcode::AddLoc
        | FinalOpcode::GetLoc8
        | FinalOpcode::PutLoc8
        | FinalOpcode::SetLoc8 => OperandFormat::Loc8,
        FinalOpcode::CallConstructor
        | FinalOpcode::Call
        | FinalOpcode::TailCall
        | FinalOpcode::CallMethod
        | FinalOpcode::TailCallMethod
        | FinalOpcode::ArrayFrom => OperandFormat::NPop,
        FinalOpcode::Eval => OperandFormat::NPopU16,
        FinalOpcode::Call0
        | FinalOpcode::Call1
        | FinalOpcode::Call2
        | FinalOpcode::Call3 => OperandFormat::NPopX,
        FinalOpcode::GetArg0
        | FinalOpcode::GetArg1
        | FinalOpcode::GetArg2
        | FinalOpcode::GetArg3
        | FinalOpcode::PutArg0
        | FinalOpcode::PutArg1
        | FinalOpcode::PutArg2
        | FinalOpcode::PutArg3
        | FinalOpcode::SetArg0
        | FinalOpcode::SetArg1
        | FinalOpcode::SetArg2
        | FinalOpcode::SetArg3 => OperandFormat::NoneArg,
        FinalOpcode::PushMinus1
        | FinalOpcode::Push0
        | FinalOpcode::Push1
        | FinalOpcode::Push2
        | FinalOpcode::Push3
        | FinalOpcode::Push4
        | FinalOpcode::Push5
        | FinalOpcode::Push6
        | FinalOpcode::Push7 => OperandFormat::NoneInt,
        FinalOpcode::GetLoc0
        | FinalOpcode::GetLoc1
        | FinalOpcode::GetLoc2
        | FinalOpcode::GetLoc3
        | FinalOpcode::PutLoc0
        | FinalOpcode::PutLoc1
        | FinalOpcode::PutLoc2
        | FinalOpcode::PutLoc3
        | FinalOpcode::SetLoc0
        | FinalOpcode::SetLoc1
        | FinalOpcode::SetLoc2
        | FinalOpcode::SetLoc3 => OperandFormat::NoneLoc,
        FinalOpcode::GetVarRef0
        | FinalOpcode::GetVarRef1
        | FinalOpcode::GetVarRef2
        | FinalOpcode::GetVarRef3
        | FinalOpcode::PutVarRef0
        | FinalOpcode::PutVarRef1
        | FinalOpcode::PutVarRef2
        | FinalOpcode::PutVarRef3
        | FinalOpcode::SetVarRef0
        | FinalOpcode::SetVarRef1
        | FinalOpcode::SetVarRef2
        | FinalOpcode::SetVarRef3 => OperandFormat::NoneVarRef,
        FinalOpcode::Rest
        | FinalOpcode::Apply
        | FinalOpcode::ApplyEval => OperandFormat::U16,
        FinalOpcode::SpecialObject
        | FinalOpcode::DefinePrivateField
        | FinalOpcode::CopyDataProperties
        | FinalOpcode::DefineMethodComputed
        | FinalOpcode::ForOfNext
        | FinalOpcode::IteratorCall => OperandFormat::U8,
        FinalOpcode::GetVarUndef
        | FinalOpcode::GetVar
        | FinalOpcode::PutVar
        | FinalOpcode::PutVarInit
        | FinalOpcode::GetVarRef
        | FinalOpcode::PutVarRef
        | FinalOpcode::SetVarRef
        | FinalOpcode::GetVarRefCheck
        | FinalOpcode::PutVarRefCheck
        | FinalOpcode::PutVarRefCheckInit => OperandFormat::VarRef,
        _ => OperandFormat::Empty,
    }
}

/// The opcode behind another in the order of their bytes.
pub open spec fn next_in_order(opcode: FinalOpcode) -> Option<FinalOpcode> {
    match opcode {
        FinalOpcode::Invalid => Some(FinalOpcode::PushI32),
        FinalOpcode::PushI32 => Some(FinalOpcode::PushConst),
        FinalOpcode::PushConst => Some(FinalOpcode::FClosure),
        FinalOpcode::FClosure => Some(FinalOpcode::PushAtomValue),
        FinalOpcode::PushAtomValue => Some(FinalOpcode::PrivateSymbol),
        FinalOpcode::PrivateSymbol => Some(FinalOpcode::Undefined),
        FinalOpcode::Undefined => Some(FinalOpcode::Null),
        FinalOpcode::Null => Some(FinalOpcode::PushThis),
        FinalOpcode::PushThis => Some(FinalOpcode::PushFalse),
        FinalOpcode::PushFalse => Some(FinalOpcode::PushTrue),
        FinalOpcode::PushTrue => Some(FinalOpcode::Object),
        FinalOpcode::Object => Some(FinalOpcode::SpecialObject),
        FinalOpcode::SpecialObject => Some(FinalOpcode::Rest),
        FinalOpcode::Rest => Some(FinalOpcode::Drop),
        FinalOpcode::Drop => Some(FinalOpcode::Nip),
        FinalOpcode::Nip => Some(FinalOpcode::Nip1),
        FinalOpcode::Nip1 => Some(FinalOpcode::Dup),
        FinalOpcode::Dup => Some(FinalOpcode::Dup1),
        FinalOpcode::Dup1 => Some(FinalOpcode::Dup2),
        FinalOpcode::Dup2 => Some(FinalOpcode::Dup3),
        FinalOpcode::Dup3 => Some(FinalOpcode::Insert2),
        FinalOpcode::Insert2 => Some(FinalOpcode::Insert3),
        FinalOpcode::Insert3 => Some(FinalOpcode::Insert4),
        FinalOpcode::Insert4 => Some(FinalOpcode::Perm3),
        FinalOpcode::Perm3 => Some(FinalOpcode::Perm4),
        FinalOpcode::Perm4 => Some(FinalOpcode::Perm5),
        FinalOpcode::Perm5 => Some(FinalOpcode::Swap),
        FinalOpcode::Swap => Some(FinalOpcode::Swap2),
        FinalOpcode::Swap2 => Some(FinalOpcode::Rot3l),
        FinalOpcode::Rot3l => Some(FinalOpcode::Rot3r),
        FinalOpcode::Rot3r => Some(FinalOpcode::Rot4l),
        FinalOpcode::Rot4l => Some(FinalOpcode::Rot5l),
        FinalOpcode::Rot5l => Some(FinalOpcode::CallConstructor),
        FinalOpcode::CallConstructor => Some(FinalOpcode::Call),
        FinalOpcode::Call => Some(FinalOpcode::TailCall),
        FinalOpcode::TailCall => Some(FinalOpcode::CallMethod),
        FinalOpcode::CallMethod => Some(FinalOpcode::TailCallMethod),
        FinalOpcode::TailCallMethod => Some(FinalOpcode::ArrayFrom),
        FinalOpcode::ArrayFrom => Some(FinalOpcode::Apply),
        FinalOpcode::Apply => Some(FinalOpcode::Return),
        FinalOpcode::Return => Some(FinalOpcode::ReturnUndef),
        FinalOpcode::ReturnUndef => Some(FinalOpcode::CheckCtorReturn),
        FinalOpcode::CheckCtorReturn => Some(FinalOpcode::CheckCtor),
        FinalOpcode::CheckCtor => Some(FinalOpcode::InitCtor),
        FinalOpcode::InitCtor => Some(FinalOpcode::CheckBrand),
        FinalOpcode::CheckBrand => Some(FinalOpcode::AddBrand),
        FinalOpcode::AddBrand => Some(FinalOpcode::ReturnAsync),
        FinalOpcode::ReturnAsync => Some(FinalOpcode::Throw),
        FinalOpcode::Throw => Some(FinalOpcode::ThrowError),
        FinalOpcode::ThrowError => Some(FinalOpcode::Eval),
        FinalOpcode::Eval => Some(FinalOpcode::ApplyEval),
        FinalOpcode::ApplyEval => Some(FinalOpcode::RegExp),
        FinalOpcode::RegExp => Some(FinalOpcode::GetSuper),
        FinalOpcode::GetSuper => Some(FinalOpcode::Import),
        FinalOpcode::Import => Some(FinalOpcode::GetVarUndef),
        FinalOpcode::GetVarUndef => Some(FinalOpcode::GetVar),
        FinalOpcode::GetVar => Some(FinalOpcode::PutVar),
        FinalOpcode::PutVar => Some(FinalOpcode::PutVarInit),
        FinalOpcode::PutVarInit => Some(FinalOpcode::GetRefValue),
        FinalOpcode::GetRefValue => Some(FinalOpcode::PutRefValue),
        FinalOpcode::PutRefValue => Some(FinalOpcode::GetField),
        FinalOpcode::GetField => Some(FinalOpcode::GetField2),
        FinalOpcode::GetField2 => Some(FinalOpcode::PutField),
        FinalOpcode::PutField => Some(FinalOpcode::GetPrivateField),
        FinalOpcode::GetPrivateField => Some(FinalOpcode::PutPrivateField),
        FinalOpcode::PutPrivateField => Some(FinalOpcode::DefinePrivateField),
        FinalOpcode::DefinePrivateField => Some(FinalOpcode::GetArrayEl),
        FinalOpcode::GetArrayEl => Some(FinalOpcode::GetArrayEl2),
        FinalOpcode::GetArrayEl2 => Some(FinalOpcode::GetArrayEl3),
        FinalOpcode::GetArrayEl3 => Some(FinalOpcode::PutArrayEl),
        FinalOpcode::PutArrayEl => Some(FinalOpcode::GetSuperValue),
        FinalOpcode::GetSuperValue => Some(FinalOpcode::PutSuperValue),
        FinalOpcode::PutSuperValue => Some(FinalOpcode::DefineField),
        FinalOpcode::DefineField => Some(FinalOpcode::SetName),
        FinalOpcode::SetName => Some(FinalOpcode::SetNameComputed),
        FinalOpcode::SetNameComputed => Some(FinalOpcode::SetProto),
        FinalOpcode::SetProto => Some(FinalOpcode::SetHomeObject),
        FinalOpcode::SetHomeObject => Some(FinalOpcode::DefineArrayEl),
        FinalOpcode::DefineArrayEl => Some(FinalOpcode::Append),
        FinalOpcode::Append => Some(FinalOpcode::CopyDataProperties),
        FinalOpcode::CopyDataProperties => Some(FinalOpcode::DefineMethod),
        FinalOpcode::DefineMethod => Some(FinalOpcode::DefineMethodComputed),
        FinalOpcode::DefineMethodComputed => Some(FinalOpcode::DefineClass),
        FinalOpcode::DefineClass => Some(FinalOpcode::DefineClassComputed),
        FinalOpcode::DefineClassComputed => Some(FinalOpcode::GetLoc),
        FinalOpcode::GetLoc => Some(FinalOpcode::PutLoc),
        FinalOpcode::PutLoc => Some(FinalOpcode::SetLoc),
        FinalOpcode::SetLoc => Some(FinalOpcode::GetArg),
        FinalOpcode::GetArg => Some(FinalOpcode::PutArg),
        FinalOpcode::PutArg => Some(FinalOpcode::SetArg),
        FinalOpcode::SetArg => Some(FinalOpcode::GetVarRef),
        FinalOpcode::GetVarRef => Some(FinalOpcode::PutVarRef),
        FinalOpcode::PutVarRef => Some(FinalOpcode::SetVarRef),
        FinalOpcode::SetVarRef => Some(FinalOpcode::SetLocUninitialized),
        FinalOpcode::SetLocUninitialized => Some(FinalOpcode::GetLocCheck),
        FinalOpcode::GetLocCheck => Some(FinalOpcode::PutLocCheck),
        FinalOpcode::PutLocCheck => Some(FinalOpcode::SetLocCheck),
        FinalOpcode::SetLocCheck => Some(FinalOpcode::PutLocCheckInit),
        FinalOpcode::PutLocCheckInit => Some(FinalOpcode::GetLocCheckThis),
        FinalOpcode::GetLocCheckThis => Some(FinalOpcode::GetVarRefCheck),
        FinalOpcode::GetVarRefCheck => Some(FinalOpcode::PutVarRefCheck),
        FinalOpcode::PutVarRefCheck => Some(FinalOpcode::PutVarRefCheckInit),
        FinalOpcode::PutVarRefCheckInit => Some(FinalOpcode::CloseLoc),
        FinalOpcode::CloseLoc => Some(FinalOpcode::IfFalse),
        FinalOpcode::IfFalse => Some(FinalOpcode::IfTrue),
        FinalOpcode::IfTrue => Some(FinalOpcode::Goto),
        FinalOpcode::Goto => Some(FinalOpcode::Catch),
        FinalOpcode::Catch => Some(FinalOpcode::Gosub),
        FinalOpcode::Gosub => Some(FinalOpcode::Ret),
        FinalOpcode::Ret => Some(FinalOpcode::NipCatch),
        FinalOpcode::NipCatch => Some(FinalOpcode::ToObject),
        FinalOpcode::ToObject => Some(FinalOpcode::ToPropKey),
        FinalOpcode::ToPropKey => Some(FinalOpcode::WithGetVar),
        FinalOpcode::WithGetVar => Some(FinalOpcode::WithPutVar),
        FinalOpcode::WithPutVar => Some(FinalOpcode::WithDeleteVar),
        FinalOpcode::WithDeleteVar => Some(FinalOpcode::WithMakeRef),
        FinalOpcode::WithMakeRef => Some(FinalOpcode::WithGetRef),
        FinalOpcode::WithGetRef => Some(FinalOpcode::MakeLocRef),
        FinalOpcode::MakeLocRef => Some(FinalOpcode::MakeArgRef),
        FinalOpcode::MakeArgRef => Some(FinalOpcode::MakeVarRefRef),
        FinalOpcode::MakeVarRefRef => Some(FinalOpcode::MakeVarRef),
        FinalOpcode::MakeVarRef => Some(FinalOpcode::ForInStart),
        FinalOpcode::ForInStart => Some(FinalOpcode::ForOfStart),
        FinalOpcode::ForOfStart => Some(FinalOpcode::ForAwaitOfStart),
        FinalOpcode::ForAwaitOfStart => Some(FinalOpcode::ForInNext),
        FinalOpcode::ForInNext => Some(FinalOpcode::ForOfNext),
        FinalOpcode::ForOfNext => Some(FinalOpcode::ForAwaitOfNext),
        FinalOpcode::ForAwaitOfNext => Some(FinalOpcode::IteratorCheckObject),
        FinalOpcode::IteratorCheckObject => Some(FinalOpcode::IteratorGetValueDone),
        FinalOpcode::IteratorGetValueDone => Some(FinalOpcode::IteratorClose),
        FinalOpcode::IteratorClose => Some(FinalOpcode::IteratorNext),
        FinalOpcode::IteratorNext => Some(FinalOpcode::IteratorCall),
        FinalOpcode::IteratorCall => Some(FinalOpcode::InitialYield),
        FinalOpcode::InitialYield => Some(FinalOpcode::Yield),
        FinalOpcode::Yield => Some(FinalOpcode::YieldStar),
        FinalOpcode::YieldStar => Some(FinalOpcode::AsyncYieldStar),
        FinalOpcode::AsyncYieldStar => Some(FinalOpcode::Await),
        FinalOpcode::Await => Some(FinalOpcode::Neg),
        FinalOpcode::Neg => Some(FinalOpcode::Plus),
        FinalOpcode::Plus => Some(FinalOpcode::Dec),
        FinalOpcode::Dec => Some(FinalOpcode::Inc),
        FinalOpcode::Inc => Some(FinalOpcode::PostDec),
        FinalOpcode::PostDec => Some(FinalOpcode::PostInc),
        FinalOpcode::PostInc => Some(FinalOpcode::DecLoc),
        FinalOpcode::DecLoc => Some(FinalOpcode::IncLoc),
        FinalOpcode::IncLoc => Some(FinalOpcode::AddLoc),
        FinalOpcode::AddLoc => Some(FinalOpcode::Not),
        FinalOpcode::Not => Some(FinalOpcode::Lnot),
        FinalOpcode::Lnot => Some(FinalOpcode::Typeof),
        FinalOpcode::Typeof => Some(FinalOpcode::Delete),
        FinalOpcode::Delete => Some(FinalOpcode::DeleteVar),
        FinalOpcode::DeleteVar => Some(FinalOpcode::Mul),
        FinalOpcode::Mul => Some(FinalOpcode::Div),
        FinalOpcode::Div => Some(FinalOpcode::Mod),
        FinalOpcode::Mod => Some(FinalOpcode::Add),
        FinalOpcode::Add => Some(FinalOpcode::Sub),
        FinalOpcode::Sub => Some(FinalOpcode::Pow),
        FinalOpcode::Pow => Some(FinalOpcode::Shl),
        FinalOpcode::Shl => Some(FinalOpcode::Sar),
        FinalOpcode::Sar => Some(FinalOpcode::Shr),
        FinalOpcode::Shr => Some(FinalOpcode::Lt),
        FinalOpcode::Lt => Some(FinalOpcode::Lte),
        FinalOpcode::Lte => Some(FinalOpcode::Gt),
        FinalOpcode::Gt => Some(FinalOpcode::Gte),
        FinalOpcode::Gte => Some(FinalOpcode::InstanceOf),
        FinalOpcode::InstanceOf => Some(FinalOpcode::In),
        FinalOpcode::In => Some(FinalOpcode::Eq),
        FinalOpcode::Eq => Some(FinalOpcode::Neq),
        FinalOpcode::Neq => Some(FinalOpcode::StrictEq),
        FinalOpcode::StrictEq => Some(FinalOpcode::StrictNeq),
        FinalOpcode::StrictNeq => Some(FinalOpcode::And),
        FinalOpcode::And => Some(FinalOpcode::Xor),
        FinalOpcode::Xor => Some(FinalOpcode::Or),
        FinalOpcode::Or => Some(FinalOpcode::IsUndefinedOrNull),
        FinalOpcode::IsUndefinedOrNull => Some(FinalOpcode::PrivateIn),
        FinalOpcode::PrivateIn => Some(FinalOpcode::PushBigIntI32),
        FinalOpcode::PushBigIntI32 => Some(FinalOpcode::Nop),
        FinalOpcode::Nop => Some(FinalOpcode::PushMinus1),
        FinalOpcode::PushMinus1 => Some(FinalOpcode::Push0),
        FinalOpcode::Push0 => Some(FinalOpcode::Push1),
        FinalOpcode::Push1 => Some(FinalOpcode::Push2),
        FinalOpcode::Push2 => Some(FinalOpcode::Push3),
        FinalOpcode::Push3 => Some(FinalOpcode::Push4),
        FinalOpcode::Push4 => Some(FinalOpcode::Push5),
        FinalOpcode::Push5 => Some(FinalOpcode::Push6),
        FinalOpcode::Push6 => Some(FinalOpcode::Push7),
        FinalOpcode::Push7 => Some(FinalOpcode::PushI8),
        FinalOpcode::PushI8 => Some(FinalOpcode::PushI16),
        FinalOpcode::PushI16 => Some(FinalOpcode::PushConst8),
        FinalOpcode::PushConst8 => Some(FinalOpcode::FClosure8),
        FinalOpcode::FClosure8 => Some(FinalOpcode::PushEmptyString),
        FinalOpcode::PushEmptyString => Some(FinalOpcode::GetLoc8),
        FinalOpcode::GetLoc8 => Some(FinalOpcode::PutLoc8),
        FinalOpcode::PutLoc8 => Some(FinalOpcode::SetLoc8),
        FinalOpcode::SetLoc8 => Some(FinalOpcode::GetLoc0),
        FinalOpcode::GetLoc0 => Some(FinalOpcode::GetLoc1),
        FinalOpcode::GetLoc1 => Some(FinalOpcode::GetLoc2),
        FinalOpcode::GetLoc2 => Some(FinalOpcode::GetLoc3),
        FinalOpcode::GetLoc3 => Some(FinalOpcode::PutLoc0),
        FinalOpcode::PutLoc0 => Some(FinalOpcode::PutLoc1),
        FinalOpcode::PutLoc1 => Some(FinalOpcode::PutLoc2),
        FinalOpcode::PutLoc2 => Some(FinalOpcode::PutLoc3),
        FinalOpcode::PutLoc3 => Some(FinalOpcode::SetLoc0),
        FinalOpcode::SetLoc0 => Some(FinalOpcode::SetLoc1),
        FinalOpcode::SetLoc1 => Some(FinalOpcode::SetLoc2),
        FinalOpcode::SetLoc2 => Some(FinalOpcode::SetLoc3),
        FinalOpcode::SetLoc3 => Some(FinalOpcode::GetArg0),
        FinalOpcode::GetArg0 => Some(FinalOpcode::GetArg1),
        FinalOpcode::GetArg1 => Some(FinalOpcode::GetArg2),
        FinalOpcode::GetArg2 => Some(FinalOpcode::GetArg3),
        FinalOpcode::GetArg3 => Some(FinalOpcode::PutArg0),
        FinalOpcode::PutArg0 => Some(FinalOpcode::PutArg1),
        FinalOpcode::PutArg1 => Some(FinalOpcode::PutArg2),
        FinalOpcode::PutArg2 => Some(FinalOpcode::PutArg3),
        FinalOpcode::PutArg3 => Some(FinalOpcode::SetArg0),
        FinalOpcode::SetArg0 => Some(FinalOpcode::SetArg1),
        FinalOpcode::SetArg1 => Some(FinalOpcode::SetArg2),
        FinalOpcode::SetArg2 => Some(FinalOpcode::SetArg3),
        FinalOpcode::SetArg3 => Some(FinalOpcode::GetVarRef0),
        FinalOpcode::GetVarRef0 => Some(FinalOpcode::GetVarRef1),
        FinalOpcode::GetVarRef1 => Some(FinalOpcode::GetVarRef2),
        FinalOpcode::GetVarRef2 => Some(FinalOpcode::GetVarRef3),
        FinalOpcode::GetVarRef3 => Some(FinalOpcode::PutVarRef0),
        FinalOpcode::PutVarRef0 => Some(FinalOpcode::PutVarRef1),
        FinalOpcode::PutVarRef1 => Some(FinalOpcode::PutVarRef2),
        FinalOpcode::PutVarRef2 => Some(FinalOpcode::PutVarRef3),
        FinalOpcode::PutVarRef3 => Some(FinalOpcode::SetVarRef0),
        FinalOpcode::SetVarRef0 => Some(FinalOpcode::SetVarRef1),
        FinalOpcode::SetVarRef1 => Some(FinalOpcode::SetVarRef2),
        FinalOpcode::SetVarRef2 => Some(FinalOpcode::SetVarRef3),
        FinalOpcode::SetVarRef3 => Some(FinalOpcode::GetLength),
        FinalOpcode::GetLength => Some(FinalOpcode::IfFalse8),
        FinalOpcode::IfFalse8 => Some(FinalOpcode::IfTrue8),
        FinalOpcode::IfTrue8 => Some(FinalOpcode::Goto8),
        FinalOpcode::Goto8 => Some(FinalOpcode::Goto16),
        FinalOpcode::Goto16 => Some(FinalOpcode::Call0),
        FinalOpcode::Call0 => Some(FinalOpcode::Call1),
        FinalOpcode::Call1 => Some(FinalOpcode::Call2),
        FinalOpcode::Call2 => Some(FinalOpcode::Call3),
        FinalOpcode::Call3 => Some(FinalOpcode::IsUndefined),
        FinalOpcode::IsUndefined => Some(FinalOpcode::IsNull),
        FinalOpcode::IsNull => Some(FinalOpcode::TypeofIsUndefined),
        FinalOpcode::TypeofIsUndefined => Some(FinalOpcode::TypeofIsFunction),
        FinalOpcode::TypeofIsFunction => None,
    }
}

/// Every opcode takes, gives and carries what is listed for it.
pub proof fn lemma_opcodes_do_what_is_listed(opcode: FinalOpcode)
    ensures
        opcode.spec_metadata().pops == takes(opcode),
        opcode.spec_metadata().pushes == gives(opcode),
        opcode.spec_metadata().operand_format == carries(opcode),
{
}

/// The reserved opcode has byte zero, each opcode has the byte behind that of the
/// one before it in the order, and the last one fills the count.
pub proof fn lemma_opcodes_are_numbered_in_order(opcode: FinalOpcode)
    ensures
        FinalOpcode::Invalid.spec_encoded_byte() == 0,
        match next_in_order(opcode) {
            Some(next) => next.spec_encoded_byte() == opcode.spec_encoded_byte() + 1,
            None => opcode.spec_encoded_byte() == FINAL_OPCODE_COUNT - 1,
        },
{
}

/// Whether an opcode is another with its slot, constant, distance or number in
/// fewer bytes.
pub open spec fn shortens(short: FinalOpcode, long: FinalOpcode) -> bool {
    match long {
        FinalOpcode::GetLoc => short == FinalOpcode::GetLoc8 || short == FinalOpcode::GetLoc0
            || short == FinalOpcode::GetLoc1 || short == FinalOpcode::GetLoc2 || short
            == FinalOpcode::GetLoc3,
        FinalOpcode::PutLoc => short == FinalOpcode::PutLoc8 || short == FinalOpcode::PutLoc0
            || short == FinalOpcode::PutLoc1 || short == FinalOpcode::PutLoc2 || short
            == FinalOpcode::PutLoc3,
        FinalOpcode::SetLoc => short == FinalOpcode::SetLoc8 || short == FinalOpcode::SetLoc0
            || short == FinalOpcode::SetLoc1 || short == FinalOpcode::SetLoc2 || short
            == FinalOpcode::SetLoc3,
        FinalOpcode::GetArg => short == FinalOpcode::GetArg0 || short == FinalOpcode::GetArg1
            || short == FinalOpcode::GetArg2 || short == FinalOpcode::GetArg3,
        FinalOpcode::PutArg => short == FinalOpcode::PutArg0 || short == FinalOpcode::PutArg1
            || short == FinalOpcode::PutArg2 || short == FinalOpcode::PutArg3,
        FinalOpcode::SetArg => short == FinalOpcode::SetArg0 || short == FinalOpcode::SetArg1
            || short == FinalOpcode::SetArg2 || short == FinalOpcode::SetArg3,
        FinalOpcode::GetVarRef => short == FinalOpcode::GetVarRef0 || short
            == FinalOpcode::GetVarRef1 || short == FinalOpcode::GetVarRef2 || short
            == FinalOpcode::GetVarRef3,
        FinalOpcode::PutVarRef => short == FinalOpcode::PutVarRef0 || short
            == FinalOpcode::PutVarRef1 || short == FinalOpcode::PutVarRef2 || short
            == FinalOpcode::PutVarRef3,
        FinalOpcode::SetVarRef => short == FinalOpcode::SetVarRef0 || short
            == FinalOpcode::SetVarRef1 || short == FinalOpcode::SetVarRef2 || short
            == FinalOpcode::SetVarRef3,
        FinalOpcode::Call => short == FinalOpcode::Call0 || short == FinalOpcode::Call1 || short
            == FinalOpcode::Call2 || short == FinalOpcode::Call3,
        FinalOpcode::PushConst => short == FinalOpcode::PushConst8,
        FinalOpcode::FClosure => short == FinalOpcode::FClosure8,
        FinalOpcode::IfFalse => short == FinalOpcode::IfFalse8,
        FinalOpcode::IfTrue => short == FinalOpcode::IfTrue8,
        FinalOpcode::Goto => short == FinalOpcode::Goto8 || short == FinalOpcode::Goto16,
        FinalOpcode::PushI32 => short == FinalOpcode::PushI8 || short == FinalOpcode::PushI16
            || short == FinalOpcode::PushMinus1 || short == FinalOpcode::Push0 || short
            == FinalOpcode::Push1 || short == FinalOpcode::Push2 || short == FinalOpcode::Push3
            || short == FinalOpcode::Push4 || short == FinalOpcode::Push5 || short
            == FinalOpcode::Push6 || short == FinalOpcode::Push7,
        _ => false,
    }
}

/// A short opcode takes and gives what its long form does, in fewer bytes, and
/// stands behind it in the order.
pub proof fn lemma_short_opcodes_do_the_same(short: FinalOpcode, long: FinalOpcode)
    requires
        shortens(short, long),
    ensures
        short.spec_metadata().pops == long.spec_metadata().pops,
        short.spec_metadata().pushes == long.spec_metadata().pushes,
        short.spec_metadata().operand_format.spec_payload_len()
            < long.spec_metadata().operand_format.spec_payload_len(),
        short.spec_encoded_byte() > long.spec_encoded_byte(),
{
}

} // verus!
