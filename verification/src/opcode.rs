//! Final opcode set: encoded bytes, operand formats and declared stack effects.
use vstd::prelude::*;

verus! {

/// Number of final opcodes, the reserved zero byte among them.
pub const FINAL_OPCODE_COUNT: u8 = 244;

/// Layout of the payload that follows an opcode byte.
#[derive(Clone, Copy, Debug, PartialEq, Eq, Hash, Structural)]
pub enum OperandFormat {
    Empty,
    NoneInt,
    NoneLoc,
    NoneArg,
    NoneVarRef,
    U8,
    I8,
    Loc8,
    Const8,
    Label8,
    U16,
    I16,
    Label16,
    NPop,
    NPopX,
    NPopU16,
    Loc,
    Arg,
    VarRef,
    U32,
    I32,
    Const,
    Label,
    Atom,
    AtomU8,
    AtomU16,
    AtomLabelU8,
    AtomLabelU16,
    LabelU16,
}

impl OperandFormat {
    /// Number of payload bytes of this format.
    pub open spec fn spec_payload_len(self) -> u8 {
        match self {
            OperandFormat::Empty
            | OperandFormat::NoneInt
            | OperandFormat::NoneLoc
            | OperandFormat::NoneArg
            | OperandFormat::NoneVarRef
            | OperandFormat::NPopX => 0,
            OperandFormat::U8
            | OperandFormat::I8
            | OperandFormat::Loc8
            | OperandFormat::Const8
            | OperandFormat::Label8 => 1,
            OperandFormat::U16
            | OperandFormat::I16
            | OperandFormat::Label16
            | OperandFormat::NPop
            | OperandFormat::Loc
            | OperandFormat::Arg
            | OperandFormat::VarRef => 2,
            OperandFormat::NPopU16
            | OperandFormat::U32
            | OperandFormat::I32
            | OperandFormat::Const
            | OperandFormat::Label
            | OperandFormat::Atom => 4,
            OperandFormat::AtomU8 => 5,
            OperandFormat::AtomU16
            | OperandFormat::LabelU16 => 6,
            OperandFormat::AtomLabelU8 => 9,
            OperandFormat::AtomLabelU16 => 10,
        }
    }

    /// Returns the number of bytes that follow the opcode byte.
    #[verifier::when_used_as_spec(spec_payload_len)]
    pub fn payload_len(self) -> (len: u8)
        ensures
            len == self.spec_payload_len(),
            len <= 10,
    {
        match self {
            OperandFormat::Empty
            | OperandFormat::NoneInt
            | OperandFormat::NoneLoc
            | OperandFormat::NoneArg
            | OperandFormat::NoneVarRef
            | OperandFormat::NPopX => 0,
            OperandFormat::U8
            | OperandFormat::I8
            | OperandFormat::Loc8
            | OperandFormat::Const8
            | OperandFormat::Label8 => 1,
            OperandFormat::U16
            | OperandFormat::I16
            | OperandFormat::Label16
            | OperandFormat::NPop
            | OperandFormat::Loc
            | OperandFormat::Arg
            | OperandFormat::VarRef => 2,
            OperandFormat::NPopU16
            | OperandFormat::U32
            | OperandFormat::I32
            | OperandFormat::Const
            | OperandFormat::Label
            | OperandFormat::Atom => 4,
            OperandFormat::AtomU8 => 5,
            OperandFormat::AtomU16
            | OperandFormat::LabelU16 => 6,
            OperandFormat::AtomLabelU8 => 9,
            OperandFormat::AtomLabelU16 => 10,
        }
    }

    /// Name of the format in the engine's opcode table.
    pub open spec fn spec_upstream_name(self) -> Seq<char> {
        match self {
            OperandFormat::Empty => "none"@,
            OperandFormat::NoneInt => "none_int"@,
            OperandFormat::NoneLoc => "none_loc"@,
            OperandFormat::NoneArg => "none_arg"@,
            OperandFormat::NoneVarRef => "none_var_ref"@,
            OperandFormat::U8 => "u8"@,
            OperandFormat::I8 => "i8"@,
            OperandFormat::Loc8 => "loc8"@,
            OperandFormat::Const8 => "const8"@,
            OperandFormat::Label8 => "label8"@,
            OperandFormat::U16 => "u16"@,
            OperandFormat::I16 => "i16"@,
            OperandFormat::Label16 => "label16"@,
            OperandFormat::NPop => "npop"@,
            OperandFormat::NPopX => "npopx"@,
            OperandFormat::NPopU16 => "npop_u16"@,
            OperandFormat::Loc => "loc"@,
            OperandFormat::Arg => "arg"@,
            OperandFormat::VarRef => "var_ref"@,
            OperandFormat::U32 => "u32"@,
            OperandFormat::I32 => "i32"@,
            OperandFormat::Const => "const"@,
            OperandFormat::Label => "label"@,
            OperandFormat::Atom => "atom"@,
            OperandFormat::AtomU8 => "atom_u8"@,
            OperandFormat::AtomU16 => "atom_u16"@,
            OperandFormat::AtomLabelU8 => "atom_label_u8"@,
            OperandFormat::AtomLabelU16 => "atom_label_u16"@,
            OperandFormat::LabelU16 => "label_u16"@,
        }
    }

    /// Returns the name of the format in the engine's opcode table.
    pub fn upstream_name(self) -> (name: &'static str)
        ensures
            name@ == self.spec_upstream_name(),
    {
        match self {
            OperandFormat::Empty => "none",
            OperandFormat::NoneInt => "none_int",
            OperandFormat::NoneLoc => "none_loc",
            OperandFormat::NoneArg => "none_arg",
            OperandFormat::NoneVarRef => "none_var_ref",
            OperandFormat::U8 => "u8",
            OperandFormat::I8 => "i8",
            OperandFormat::Loc8 => "loc8",
            OperandFormat::Const8 => "const8",
            OperandFormat::Label8 => "label8",
            OperandFormat::U16 => "u16",
            OperandFormat::I16 => "i16",
            OperandFormat::Label16 => "label16",
            OperandFormat::NPop => "npop",
            OperandFormat::NPopX => "npopx",
            OperandFormat::NPopU16 => "npop_u16",
            OperandFormat::Loc => "loc",
            OperandFormat::Arg => "arg",
            OperandFormat::VarRef => "var_ref",
            OperandFormat::U32 => "u32",
            OperandFormat::I32 => "i32",
            OperandFormat::Const => "const",
            OperandFormat::Label => "label",
            OperandFormat::Atom => "atom",
            OperandFormat::AtomU8 => "atom_u8",
            OperandFormat::AtomU16 => "atom_u16",
            OperandFormat::AtomLabelU8 => "atom_label_u8",
            OperandFormat::AtomLabelU16 => "atom_label_u16",
            OperandFormat::LabelU16 => "label_u16",
        }
    }
}

/// Declared encoding and stack behaviour of one opcode.
#[derive(Clone, Copy, Debug, PartialEq, Eq, Hash, Structural)]
pub struct OpcodeMetadata {
    /// Layout of the operand payload.
    pub operand_format: OperandFormat,
    /// Values removed from the stack, dynamic arguments excluded.
    pub pops: u8,
    /// Values pushed on the stack.
    pub pushes: u8,
}

impl OpcodeMetadata {
    /// Returns the layout of the operand payload.
    pub fn operand_format(self) -> (format: OperandFormat)
        ensures
            format == self.operand_format,
    {
        self.operand_format
    }
}

/// Why a byte is not an executable opcode.
#[derive(Clone, Copy, Debug, PartialEq, Eq, Hash, Structural)]
pub enum FinalOpcodeDecodeError {
    /// Byte zero is reserved and never emitted.
    ReservedInvalid,
    /// The byte names no opcode.
    Unassigned {
        /// The rejected byte.
        byte: u8,
    },
}

/// Every opcode of final bytecode, in the order of the encoded bytes.
#[derive(Clone, Copy, Debug, PartialEq, Eq, Hash, Structural)]
pub enum FinalOpcode {
    Invalid,
    PushI32,
    PushConst,
    FClosure,
    PushAtomValue,
    PrivateSymbol,
    Undefined,
    Null,
    PushThis,
    PushFalse,
    PushTrue,
    Object,
    SpecialObject,
    Rest,
    Drop,
    Nip,
    Nip1,
    Dup,
    Dup1,
    Dup2,
    Dup3,
    Insert2,
    Insert3,
    Insert4,
    Perm3,
    Perm4,
    Perm5,
    Swap,
    Swap2,
    Rot3l,
    Rot3r,
    Rot4l,
    Rot5l,
    CallConstructor,
    Call,
    TailCall,
    CallMethod,
    TailCallMethod,
    ArrayFrom,
    Apply,
    Return,
    ReturnUndef,
    CheckCtorReturn,
    CheckCtor,
    InitCtor,
    CheckBrand,
    AddBrand,
    ReturnAsync,
    Throw,
    ThrowError,
    Eval,
    ApplyEval,
    RegExp,
    GetSuper,
    Import,
    GetVarUndef,
    GetVar,
    PutVar,
    PutVarInit,
    GetRefValue,
    PutRefValue,
    GetField,
    GetField2,
    PutField,
    GetPrivateField,
    PutPrivateField,
    DefinePrivateField,
    GetArrayEl,
    GetArrayEl2,
    GetArrayEl3,
    PutArrayEl,
    GetSuperValue,
    PutSuperValue,
    DefineField,
    SetName,
    SetNameComputed,
    SetProto,
    SetHomeObject,
    DefineArrayEl,
    Append,
    CopyDataProperties,
    DefineMethod,
    DefineMethodComputed,
    DefineClass,
    DefineClassComputed,
    GetLoc,
    PutLoc,
    SetLoc,
    GetArg,
    PutArg,
    SetArg,
    GetVarRef,
    PutVarRef,
    SetVarRef,
    SetLocUninitialized,
    GetLocCheck,
    PutLocCheck,
    SetLocCheck,
    PutLocCheckInit,
    GetLocCheckThis,
    GetVarRefCheck,
    PutVarRefCheck,
    PutVarRefCheckInit,
    CloseLoc,
    IfFalse,
    IfTrue,
    Goto,
    Catch,
    Gosub,
    Ret,
    NipCatch,
    ToObject,
    ToPropKey,
    WithGetVar,
    WithPutVar,
    WithDeleteVar,
    WithMakeRef,
    WithGetRef,
    MakeLocRef,
    MakeArgRef,
    MakeVarRefRef,
    MakeVarRef,
    ForInStart,
    ForOfStart,
    ForAwaitOfStart,
    ForInNext,
    ForOfNext,
    ForAwaitOfNext,
    IteratorCheckObject,
    IteratorGetValueDone,
    IteratorClose,
    IteratorNext,
    IteratorCall,
    InitialYield,
    Yield,
    YieldStar,
    AsyncYieldStar,
    Await,
    Neg,
    Plus,
    Dec,
    Inc,
    PostDec,
    PostInc,
    DecLoc,
    IncLoc,
    AddLoc,
    Not,
    Lnot,
    Typeof,
    Delete,
    DeleteVar,
    Mul,
    Div,
    Mod,
    Add,
    Sub,
    Pow,
    Shl,
    Sar,
    Shr,
    Lt,
    Lte,
    Gt,
    Gte,
    InstanceOf,
    In,
    Eq,
    Neq,
    StrictEq,
    StrictNeq,
    And,
    Xor,
    Or,
    IsUndefinedOrNull,
    PrivateIn,
    PushBigIntI32,
    Nop,
    PushMinus1,
    Push0,
    Push1,
    Push2,
    Push3,
    Push4,
    Push5,
    Push6,
    Push7,
    PushI8,
    PushI16,
    PushConst8,
    FClosure8,
    PushEmptyString,
    GetLoc8,
    PutLoc8,
    SetLoc8,
    GetLoc0,
    GetLoc1,
    GetLoc2,
    GetLoc3,
    PutLoc0,
    PutLoc1,
    PutLoc2,
    PutLoc3,
    SetLoc0,
    SetLoc1,
    SetLoc2,
    SetLoc3,
    GetArg0,
    GetArg1,
    GetArg2,
    GetArg3,
    PutArg0,
    PutArg1,
    PutArg2,
    PutArg3,
    SetArg0,
    SetArg1,
    SetArg2,
    SetArg3,
    GetVarRef0,
    GetVarRef1,
    GetVarRef2,
    GetVarRef3,
    PutVarRef0,
    PutVarRef1,
    PutVarRef2,
    PutVarRef3,
    SetVarRef0,
    SetVarRef1,
    SetVarRef2,
    SetVarRef3,
    GetLength,
    IfFalse8,
    IfTrue8,
    Goto8,
    Goto16,
    Call0,
    Call1,
    Call2,
    Call3,
    IsUndefined,
    IsNull,
    TypeofIsUndefined,
    TypeofIsFunction,
}

impl FinalOpcode {
    /// Encoded byte of the opcode.
    pub open spec fn spec_encoded_byte(self) -> u8 {
        match self {
            FinalOpcode::Invalid => 0,
            FinalOpcode::PushI32 => 1,
            FinalOpcode::PushConst => 2,
            FinalOpcode::FClosure => 3,
            FinalOpcode::PushAtomValue => 4,
            FinalOpcode::PrivateSymbol => 5,
            FinalOpcode::Undefined => 6,
            FinalOpcode::Null => 7,
            FinalOpcode::PushThis => 8,
            FinalOpcode::PushFalse => 9,
            FinalOpcode::PushTrue => 10,
            FinalOpcode::Object => 11,
            FinalOpcode::SpecialObject => 12,
            FinalOpcode::Rest => 13,
            FinalOpcode::Drop => 14,
            FinalOpcode::Nip => 15,
            FinalOpcode::Nip1 => 16,
            FinalOpcode::Dup => 17,
            FinalOpcode::Dup1 => 18,
            FinalOpcode::Dup2 => 19,
            FinalOpcode::Dup3 => 20,
            FinalOpcode::Insert2 => 21,
            FinalOpcode::Insert3 => 22,
            FinalOpcode::Insert4 => 23,
            FinalOpcode::Perm3 => 24,
            FinalOpcode::Perm4 => 25,
            FinalOpcode::Perm5 => 26,
            FinalOpcode::Swap => 27,
            FinalOpcode::Swap2 => 28,
            FinalOpcode::Rot3l => 29,
            FinalOpcode::Rot3r => 30,
            FinalOpcode::Rot4l => 31,
            FinalOpcode::Rot5l => 32,
            FinalOpcode::CallConstructor => 33,
            FinalOpcode::Call => 34,
            FinalOpcode::TailCall => 35,
            FinalOpcode::CallMethod => 36,
            FinalOpcode::TailCallMethod => 37,
            FinalOpcode::ArrayFrom => 38,
            FinalOpcode::Apply => 39,
            FinalOpcode::Return => 40,
            FinalOpcode::ReturnUndef => 41,
            FinalOpcode::CheckCtorReturn => 42,
            FinalOpcode::CheckCtor => 43,
            FinalOpcode::InitCtor => 44,
            FinalOpcode::CheckBrand => 45,
            FinalOpcode::AddBrand => 46,
            FinalOpcode::ReturnAsync => 47,
            FinalOpcode::Throw => 48,
            FinalOpcode::ThrowError => 49,
            FinalOpcode::Eval => 50,
            FinalOpcode::ApplyEval => 51,
            FinalOpcode::RegExp => 52,
            FinalOpcode::GetSuper => 53,
            FinalOpcode::Import => 54,
            FinalOpcode::GetVarUndef => 55,
            FinalOpcode::GetVar => 56,
            FinalOpcode::PutVar => 57,
            FinalOpcode::PutVarInit => 58,
            FinalOpcode::GetRefValue => 59,
            FinalOpcode::PutRefValue => 60,
            FinalOpcode::GetField => 61,
            FinalOpcode::GetField2 => 62,
            FinalOpcode::PutField => 63,
            FinalOpcode::GetPrivateField => 64,
            FinalOpcode::PutPrivateField => 65,
            FinalOpcode::DefinePrivateField => 66,
            FinalOpcode::GetArrayEl => 67,
            FinalOpcode::GetArrayEl2 => 68,
            FinalOpcode::GetArrayEl3 => 69,
            FinalOpcode::PutArrayEl => 70,
            FinalOpcode::GetSuperValue => 71,
            FinalOpcode::PutSuperValue => 72,
            FinalOpcode::DefineField => 73,
            FinalOpcode::SetName => 74,
            FinalOpcode::SetNameComputed => 75,
            FinalOpcode::SetProto => 76,
            FinalOpcode::SetHomeObject => 77,
            FinalOpcode::DefineArrayEl => 78,
            FinalOpcode::Append => 79,
            FinalOpcode::CopyDataProperties => 80,
            FinalOpcode::DefineMethod => 81,
            FinalOpcode::DefineMethodComputed => 82,
            FinalOpcode::DefineClass => 83,
            FinalOpcode::DefineClassComputed => 84,
            FinalOpcode::GetLoc => 85,
            FinalOpcode::PutLoc => 86,
            FinalOpcode::SetLoc => 87,
            FinalOpcode::GetArg => 88,
            FinalOpcode::PutArg => 89,
            FinalOpcode::SetArg => 90,
            FinalOpcode::GetVarRef => 91,
            FinalOpcode::PutVarRef => 92,
            FinalOpcode::SetVarRef => 93,
            FinalOpcode::SetLocUninitialized => 94,
            FinalOpcode::GetLocCheck => 95,
            FinalOpcode::PutLocCheck => 96,
            FinalOpcode::SetLocCheck => 97,
            FinalOpcode::PutLocCheckInit => 98,
            FinalOpcode::GetLocCheckThis => 99,
            FinalOpcode::GetVarRefCheck => 100,
            FinalOpcode::PutVarRefCheck => 101,
            FinalOpcode::PutVarRefCheckInit => 102,
            FinalOpcode::CloseLoc => 103,
            FinalOpcode::IfFalse => 104,
            FinalOpcode::IfTrue => 105,
            FinalOpcode::Goto => 106,
            FinalOpcode::Catch => 107,
            FinalOpcode::Gosub => 108,
            FinalOpcode::Ret => 109,
            FinalOpcode::NipCatch => 110,
            FinalOpcode::ToObject => 111,
            FinalOpcode::ToPropKey => 112,
            FinalOpcode::WithGetVar => 113,
            FinalOpcode::WithPutVar => 114,
            FinalOpcode::WithDeleteVar => 115,
            FinalOpcode::WithMakeRef => 116,
            FinalOpcode::WithGetRef => 117,
            FinalOpcode::MakeLocRef => 118,
            FinalOpcode::MakeArgRef => 119,
            FinalOpcode::MakeVarRefRef => 120,
            FinalOpcode::MakeVarRef => 121,
            FinalOpcode::ForInStart => 122,
            FinalOpcode::ForOfStart => 123,
            FinalOpcode::ForAwaitOfStart => 124,
            FinalOpcode::ForInNext => 125,
            FinalOpcode::ForOfNext => 126,
            FinalOpcode::ForAwaitOfNext => 127,
            FinalOpcode::IteratorCheckObject => 128,
            FinalOpcode::IteratorGetValueDone => 129,
            FinalOpcode::IteratorClose => 130,
            FinalOpcode::IteratorNext => 131,
            FinalOpcode::IteratorCall => 132,
            FinalOpcode::InitialYield => 133,
            FinalOpcode::Yield => 134,
            FinalOpcode::YieldStar => 135,
            FinalOpcode::AsyncYieldStar => 136,
            FinalOpcode::Await => 137,
            FinalOpcode::Neg => 138,
            FinalOpcode::Plus => 139,
            FinalOpcode::Dec => 140,
            FinalOpcode::Inc => 141,
            FinalOpcode::PostDec => 142,
            FinalOpcode::PostInc => 143,
            FinalOpcode::DecLoc => 144,
            FinalOpcode::IncLoc => 145,
            FinalOpcode::AddLoc => 146,
            FinalOpcode::Not => 147,
            FinalOpcode::Lnot => 148,
            FinalOpcode::Typeof => 149,
            FinalOpcode::Delete => 150,
            FinalOpcode::DeleteVar => 151,
            FinalOpcode::Mul => 152,
            FinalOpcode::Div => 153,
            FinalOpcode::Mod => 154,
            FinalOpcode::Add => 155,
            FinalOpcode::Sub => 156,
            FinalOpcode::Pow => 157,
            FinalOpcode::Shl => 158,
            FinalOpcode::Sar => 159,
            FinalOpcode::Shr => 160,
            FinalOpcode::Lt => 161,
            FinalOpcode::Lte => 162,
            FinalOpcode::Gt => 163,
            FinalOpcode::Gte => 164,
            FinalOpcode::InstanceOf => 165,
            FinalOpcode::In => 166,
            FinalOpcode::Eq => 167,
            FinalOpcode::Neq => 168,
            FinalOpcode::StrictEq => 169,
            FinalOpcode::StrictNeq => 170,
            FinalOpcode::And => 171,
            FinalOpcode::Xor => 172,
            FinalOpcode::Or => 173,
            FinalOpcode::IsUndefinedOrNull => 174,
            FinalOpcode::PrivateIn => 175,
            FinalOpcode::PushBigIntI32 => 176,
            FinalOpcode::Nop => 177,
            FinalOpcode::PushMinus1 => 178,
            FinalOpcode::Push0 => 179,
            FinalOpcode::Push1 => 180,
            FinalOpcode::Push2 => 181,
            FinalOpcode::Push3 => 182,
            FinalOpcode::Push4 => 183,
            FinalOpcode::Push5 => 184,
            FinalOpcode::Push6 => 185,
            FinalOpcode::Push7 => 186,
            FinalOpcode::PushI8 => 187,
            FinalOpcode::PushI16 => 188,
            FinalOpcode::PushConst8 => 189,
            FinalOpcode::FClosure8 => 190,
            FinalOpcode::PushEmptyString => 191,
            FinalOpcode::GetLoc8 => 192,
            FinalOpcode::PutLoc8 => 193,
            FinalOpcode::SetLoc8 => 194,
            FinalOpcode::GetLoc0 => 195,
            FinalOpcode::GetLoc1 => 196,
            FinalOpcode::GetLoc2 => 197,
            FinalOpcode::GetLoc3 => 198,
            FinalOpcode::PutLoc0 => 199,
            FinalOpcode::PutLoc1 => 200,
            FinalOpcode::PutLoc2 => 201,
            FinalOpcode::PutLoc3 => 202,
            FinalOpcode::SetLoc0 => 203,
            FinalOpcode::SetLoc1 => 204,
            FinalOpcode::SetLoc2 => 205,
            FinalOpcode::SetLoc3 => 206,
            FinalOpcode::GetArg0 => 207,
            FinalOpcode::GetArg1 => 208,
            FinalOpcode::GetArg2 => 209,
            FinalOpcode::GetArg3 => 210,
            FinalOpcode::PutArg0 => 211,
            FinalOpcode::PutArg1 => 212,
            FinalOpcode::PutArg2 => 213,
            FinalOpcode::PutArg3 => 214,
            FinalOpcode::SetArg0 => 215,
            FinalOpcode::SetArg1 => 216,
            FinalOpcode::SetArg2 => 217,
            FinalOpcode::SetArg3 => 218,
            FinalOpcode::GetVarRef0 => 219,
            FinalOpcode::GetVarRef1 => 220,
            FinalOpcode::GetVarRef2 => 221,
            FinalOpcode::GetVarRef3 => 222,
            FinalOpcode::PutVarRef0 => 223,
            FinalOpcode::PutVarRef1 => 224,
            FinalOpcode::PutVarRef2 => 225,
            FinalOpcode::PutVarRef3 => 226,
            FinalOpcode::SetVarRef0 => 227,
            FinalOpcode::SetVarRef1 => 228,
            FinalOpcode::SetVarRef2 => 229,
            FinalOpcode::SetVarRef3 => 230,
            FinalOpcode::GetLength => 231,
            FinalOpcode::IfFalse8 => 232,
            FinalOpcode::IfTrue8 => 233,
            FinalOpcode::Goto8 => 234,
            FinalOpcode::Goto16 => 235,
            FinalOpcode::Call0 => 236,
            FinalOpcode::Call1 => 237,
            FinalOpcode::Call2 => 238,
            FinalOpcode::Call3 => 239,
            FinalOpcode::IsUndefined => 240,
            FinalOpcode::IsNull => 241,
            FinalOpcode::TypeofIsUndefined => 242,
            FinalOpcode::TypeofIsFunction => 243,
        }
    }

    /// Returns the encoded byte of the opcode.
    #[verifier::when_used_as_spec(spec_encoded_byte)]
    pub fn encoded_byte(self) -> (byte: u8)
        ensures
            byte == self.spec_encoded_byte(),
            byte < FINAL_OPCODE_COUNT,
    {
        match self {
            FinalOpcode::Invalid => 0,
            FinalOpcode::PushI32 => 1,
            FinalOpcode::PushConst => 2,
            FinalOpcode::FClosure => 3,
            FinalOpcode::PushAtomValue => 4,
            FinalOpcode::PrivateSymbol => 5,
            FinalOpcode::Undefined => 6,
            FinalOpcode::Null => 7,
            FinalOpcode::PushThis => 8,
            FinalOpcode::PushFalse => 9,
            FinalOpcode::PushTrue => 10,
            FinalOpcode::Object => 11,
            FinalOpcode::SpecialObject => 12,
            FinalOpcode::Rest => 13,
            FinalOpcode::Drop => 14,
            FinalOpcode::Nip => 15,
            FinalOpcode::Nip1 => 16,
            FinalOpcode::Dup => 17,
            FinalOpcode::Dup1 => 18,
            FinalOpcode::Dup2 => 19,
            FinalOpcode::Dup3 => 20,
            FinalOpcode::Insert2 => 21,
            FinalOpcode::Insert3 => 22,
            FinalOpcode::Insert4 => 23,
            FinalOpcode::Perm3 => 24,
            FinalOpcode::Perm4 => 25,
            FinalOpcode::Perm5 => 26,
            FinalOpcode::Swap => 27,
            FinalOpcode::Swap2 => 28,
            FinalOpcode::Rot3l => 29,
            FinalOpcode::Rot3r => 30,
            FinalOpcode::Rot4l => 31,
            FinalOpcode::Rot5l => 32,
            FinalOpcode::CallConstructor => 33,
            FinalOpcode::Call => 34,
            FinalOpcode::TailCall => 35,
            FinalOpcode::CallMethod => 36,
            FinalOpcode::TailCallMethod => 37,
            FinalOpcode::ArrayFrom => 38,
            FinalOpcode::Apply => 39,
            FinalOpcode::Return => 40,
            FinalOpcode::ReturnUndef => 41,
            FinalOpcode::CheckCtorReturn => 42,
            FinalOpcode::CheckCtor => 43,
            FinalOpcode::InitCtor => 44,
            FinalOpcode::CheckBrand => 45,
            FinalOpcode::AddBrand => 46,
            FinalOpcode::ReturnAsync => 47,
            FinalOpcode::Throw => 48,
            FinalOpcode::ThrowError => 49,
            FinalOpcode::Eval => 50,
            FinalOpcode::ApplyEval => 51,
            FinalOpcode::RegExp => 52,
            FinalOpcode::GetSuper => 53,
            FinalOpcode::Import => 54,
            FinalOpcode::GetVarUndef => 55,
            FinalOpcode::GetVar => 56,
            FinalOpcode::PutVar => 57,
            FinalOpcode::PutVarInit => 58,
            FinalOpcode::GetRefValue => 59,
            FinalOpcode::PutRefValue => 60,
            FinalOpcode::GetField => 61,
            FinalOpcode::GetField2 => 62,
            FinalOpcode::PutField => 63,
            FinalOpcode::GetPrivateField => 64,
            FinalOpcode::PutPrivateField => 65,
            FinalOpcode::DefinePrivateField => 66,
            FinalOpcode::GetArrayEl => 67,
            FinalOpcode::GetArrayEl2 => 68,
            FinalOpcode::GetArrayEl3 => 69,
            FinalOpcode::PutArrayEl => 70,
            FinalOpcode::GetSuperValue => 71,
            FinalOpcode::PutSuperValue => 72,
            FinalOpcode::DefineField => 73,
            FinalOpcode::SetName => 74,
            FinalOpcode::SetNameComputed => 75,
            FinalOpcode::SetProto => 76,
            FinalOpcode::SetHomeObject => 77,
            FinalOpcode::DefineArrayEl => 78,
            FinalOpcode::Append => 79,
            FinalOpcode::CopyDataProperties => 80,
            FinalOpcode::DefineMethod => 81,
            FinalOpcode::DefineMethodComputed => 82,
            FinalOpcode::DefineClass => 83,
            FinalOpcode::DefineClassComputed => 84,
            FinalOpcode::GetLoc => 85,
            FinalOpcode::PutLoc => 86,
            FinalOpcode::SetLoc => 87,
            FinalOpcode::GetArg => 88,
            FinalOpcode::PutArg => 89,
            FinalOpcode::SetArg => 90,
            FinalOpcode::GetVarRef => 91,
            FinalOpcode::PutVarRef => 92,
            FinalOpcode::SetVarRef => 93,
            FinalOpcode::SetLocUninitialized => 94,
            FinalOpcode::GetLocCheck => 95,
            FinalOpcode::PutLocCheck => 96,
            FinalOpcode::SetLocCheck => 97,
            FinalOpcode::PutLocCheckInit => 98,
            FinalOpcode::GetLocCheckThis => 99,
            FinalOpcode::GetVarRefCheck => 100,
            FinalOpcode::PutVarRefCheck => 101,
            FinalOpcode::PutVarRefCheckInit => 102,
            FinalOpcode::CloseLoc => 103,
            FinalOpcode::IfFalse => 104,
            FinalOpcode::IfTrue => 105,
            FinalOpcode::Goto => 106,
            FinalOpcode::Catch => 107,
            FinalOpcode::Gosub => 108,
            FinalOpcode::Ret => 109,
            FinalOpcode::NipCatch => 110,
            FinalOpcode::ToObject => 111,
            FinalOpcode::ToPropKey => 112,
            FinalOpcode::WithGetVar => 113,
            FinalOpcode::WithPutVar => 114,
            FinalOpcode::WithDeleteVar => 115,
            FinalOpcode::WithMakeRef => 116,
            FinalOpcode::WithGetRef => 117,
            FinalOpcode::MakeLocRef => 118,
            FinalOpcode::MakeArgRef => 119,
            FinalOpcode::MakeVarRefRef => 120,
            FinalOpcode::MakeVarRef => 121,
            FinalOpcode::ForInStart => 122,
            FinalOpcode::ForOfStart => 123,
            FinalOpcode::ForAwaitOfStart => 124,
            FinalOpcode::ForInNext => 125,
            FinalOpcode::ForOfNext => 126,
            FinalOpcode::ForAwaitOfNext => 127,
            FinalOpcode::IteratorCheckObject => 128,
            FinalOpcode::IteratorGetValueDone => 129,
            FinalOpcode::IteratorClose => 130,
            FinalOpcode::IteratorNext => 131,
            FinalOpcode::IteratorCall => 132,
            FinalOpcode::InitialYield => 133,
            FinalOpcode::Yield => 134,
            FinalOpcode::YieldStar => 135,
            FinalOpcode::AsyncYieldStar => 136,
            FinalOpcode::Await => 137,
            FinalOpcode::Neg => 138,
            FinalOpcode::Plus => 139,
            FinalOpcode::Dec => 140,
            FinalOpcode::Inc => 141,
            FinalOpcode::PostDec => 142,
            FinalOpcode::PostInc => 143,
            FinalOpcode::DecLoc => 144,
            FinalOpcode::IncLoc => 145,
            FinalOpcode::AddLoc => 146,
            FinalOpcode::Not => 147,
            FinalOpcode::Lnot => 148,
            FinalOpcode::Typeof => 149,
            FinalOpcode::Delete => 150,
            FinalOpcode::DeleteVar => 151,
            FinalOpcode::Mul => 152,
            FinalOpcode::Div => 153,
            FinalOpcode::Mod => 154,
            FinalOpcode::Add => 155,
            FinalOpcode::Sub => 156,
            FinalOpcode::Pow => 157,
            FinalOpcode::Shl => 158,
            FinalOpcode::Sar => 159,
            FinalOpcode::Shr => 160,
            FinalOpcode::Lt => 161,
            FinalOpcode::Lte => 162,
            FinalOpcode::Gt => 163,
            FinalOpcode::Gte => 164,
            FinalOpcode::InstanceOf => 165,
            FinalOpcode::In => 166,
            FinalOpcode::Eq => 167,
            FinalOpcode::Neq => 168,
            FinalOpcode::StrictEq => 169,
            FinalOpcode::StrictNeq => 170,
            FinalOpcode::And => 171,
            FinalOpcode::Xor => 172,
            FinalOpcode::Or => 173,
            FinalOpcode::IsUndefinedOrNull => 174,
            FinalOpcode::PrivateIn => 175,
            FinalOpcode::PushBigIntI32 => 176,
            FinalOpcode::Nop => 177,
            FinalOpcode::PushMinus1 => 178,
            FinalOpcode::Push0 => 179,
            FinalOpcode::Push1 => 180,
            FinalOpcode::Push2 => 181,
            FinalOpcode::Push3 => 182,
            FinalOpcode::Push4 => 183,
            FinalOpcode::Push5 => 184,
            FinalOpcode::Push6 => 185,
            FinalOpcode::Push7 => 186,
            FinalOpcode::PushI8 => 187,
            FinalOpcode::PushI16 => 188,
            FinalOpcode::PushConst8 => 189,
            FinalOpcode::FClosure8 => 190,
            FinalOpcode::PushEmptyString => 191,
            FinalOpcode::GetLoc8 => 192,
            FinalOpcode::PutLoc8 => 193,
            FinalOpcode::SetLoc8 => 194,
            FinalOpcode::GetLoc0 => 195,
            FinalOpcode::GetLoc1 => 196,
            FinalOpcode::GetLoc2 => 197,
            FinalOpcode::GetLoc3 => 198,
            FinalOpcode::PutLoc0 => 199,
            FinalOpcode::PutLoc1 => 200,
            FinalOpcode::PutLoc2 => 201,
            FinalOpcode::PutLoc3 => 202,
            FinalOpcode::SetLoc0 => 203,
            FinalOpcode::SetLoc1 => 204,
            FinalOpcode::SetLoc2 => 205,
            FinalOpcode::SetLoc3 => 206,
            FinalOpcode::GetArg0 => 207,
            FinalOpcode::GetArg1 => 208,
            FinalOpcode::GetArg2 => 209,
            FinalOpcode::GetArg3 => 210,
            FinalOpcode::PutArg0 => 211,
            FinalOpcode::PutArg1 => 212,
            FinalOpcode::PutArg2 => 213,
            FinalOpcode::PutArg3 => 214,
            FinalOpcode::SetArg0 => 215,
            FinalOpcode::SetArg1 => 216,
            FinalOpcode::SetArg2 => 217,
            FinalOpcode::SetArg3 => 218,
            FinalOpcode::GetVarRef0 => 219,
            FinalOpcode::GetVarRef1 => 220,
            FinalOpcode::GetVarRef2 => 221,
            FinalOpcode::GetVarRef3 => 222,
            FinalOpcode::PutVarRef0 => 223,
            FinalOpcode::PutVarRef1 => 224,
            FinalOpcode::PutVarRef2 => 225,
            FinalOpcode::PutVarRef3 => 226,
            FinalOpcode::SetVarRef0 => 227,
            FinalOpcode::SetVarRef1 => 228,
            FinalOpcode::SetVarRef2 => 229,
            FinalOpcode::SetVarRef3 => 230,
            FinalOpcode::GetLength => 231,
            FinalOpcode::IfFalse8 => 232,
            FinalOpcode::IfTrue8 => 233,
            FinalOpcode::Goto8 => 234,
            FinalOpcode::Goto16 => 235,
            FinalOpcode::Call0 => 236,
            FinalOpcode::Call1 => 237,
            FinalOpcode::Call2 => 238,
            FinalOpcode::Call3 => 239,
            FinalOpcode::IsUndefined => 240,
            FinalOpcode::IsNull => 241,
            FinalOpcode::TypeofIsUndefined => 242,
            FinalOpcode::TypeofIsFunction => 243,
        }
    }

    /// The opcode, reserved byte zero included, whose encoded byte is `byte`.
    pub open spec fn spec_with_byte(byte: u8) -> Option<FinalOpcode> {
        match byte {
            0 => Some(FinalOpcode::Invalid),
            1 => Some(FinalOpcode::PushI32),
            2 => Some(FinalOpcode::PushConst),
            3 => Some(FinalOpcode::FClosure),
            4 => Some(FinalOpcode::PushAtomValue),
            5 => Some(FinalOpcode::PrivateSymbol),
            6 => Some(FinalOpcode::Undefined),
            7 => Some(FinalOpcode::Null),
            8 => Some(FinalOpcode::PushThis),
            9 => Some(FinalOpcode::PushFalse),
            10 => Some(FinalOpcode::PushTrue),
            11 => Some(FinalOpcode::Object),
            12 => Some(FinalOpcode::SpecialObject),
            13 => Some(FinalOpcode::Rest),
            14 => Some(FinalOpcode::Drop),
            15 => Some(FinalOpcode::Nip),
            16 => Some(FinalOpcode::Nip1),
            17 => Some(FinalOpcode::Dup),
            18 => Some(FinalOpcode::Dup1),
            19 => Some(FinalOpcode::Dup2),
            20 => Some(FinalOpcode::Dup3),
            21 => Some(FinalOpcode::Insert2),
            22 => Some(FinalOpcode::Insert3),
            23 => Some(FinalOpcode::Insert4),
            24 => Some(FinalOpcode::Perm3),
            25 => Some(FinalOpcode::Perm4),
            26 => Some(FinalOpcode::Perm5),
            27 => Some(FinalOpcode::Swap),
            28 => Some(FinalOpcode::Swap2),
            29 => Some(FinalOpcode::Rot3l),
            30 => Some(FinalOpcode::Rot3r),
            31 => Some(FinalOpcode::Rot4l),
            32 => Some(FinalOpcode::Rot5l),
            33 => Some(FinalOpcode::CallConstructor),
            34 => Some(FinalOpcode::Call),
            35 => Some(FinalOpcode::TailCall),
            36 => Some(FinalOpcode::CallMethod),
            37 => Some(FinalOpcode::TailCallMethod),
            38 => Some(FinalOpcode::ArrayFrom),
            39 => Some(FinalOpcode::Apply),
            40 => Some(FinalOpcode::Return),
            41 => Some(FinalOpcode::ReturnUndef),
            42 => Some(FinalOpcode::CheckCtorReturn),
            43 => Some(FinalOpcode::CheckCtor),
            44 => Some(FinalOpcode::InitCtor),
            45 => Some(FinalOpcode::CheckBrand),
            46 => Some(FinalOpcode::AddBrand),
            47 => Some(FinalOpcode::ReturnAsync),
            48 => Some(FinalOpcode::Throw),
            49 => Some(FinalOpcode::ThrowError),
            50 => Some(FinalOpcode::Eval),
            51 => Some(FinalOpcode::ApplyEval),
            52 => Some(FinalOpcode::RegExp),
            53 => Some(FinalOpcode::GetSuper),
            54 => Some(FinalOpcode::Import),
            55 => Some(FinalOpcode::GetVarUndef),
            56 => Some(FinalOpcode::GetVar),
            57 => Some(FinalOpcode::PutVar),
            58 => Some(FinalOpcode::PutVarInit),
            59 => Some(FinalOpcode::GetRefValue),
            60 => Some(FinalOpcode::PutRefValue),
            61 => Some(FinalOpcode::GetField),
            62 => Some(FinalOpcode::GetField2),
            63 => Some(FinalOpcode::PutField),
            64 => Some(FinalOpcode::GetPrivateField),
            65 => Some(FinalOpcode::PutPrivateField),
            66 => Some(FinalOpcode::DefinePrivateField),
            67 => Some(FinalOpcode::GetArrayEl),
            68 => Some(FinalOpcode::GetArrayEl2),
            69 => Some(FinalOpcode::GetArrayEl3),
            70 => Some(FinalOpcode::PutArrayEl),
            71 => Some(FinalOpcode::GetSuperValue),
            72 => Some(FinalOpcode::PutSuperValue),
            73 => Some(FinalOpcode::DefineField),
            74 => Some(FinalOpcode::SetName),
            75 => Some(FinalOpcode::SetNameComputed),
            76 => Some(FinalOpcode::SetProto),
            77 => Some(FinalOpcode::SetHomeObject),
            78 => Some(FinalOpcode::DefineArrayEl),
            79 => Some(FinalOpcode::Append),
            80 => Some(FinalOpcode::CopyDataProperties),
            81 => Some(FinalOpcode::DefineMethod),
            82 => Some(FinalOpcode::DefineMethodComputed),
            83 => Some(FinalOpcode::DefineClass),
            84 => Some(FinalOpcode::DefineClassComputed),
            85 => Some(FinalOpcode::GetLoc),
            86 => Some(FinalOpcode::PutLoc),
            87 => Some(FinalOpcode::SetLoc),
            88 => Some(FinalOpcode::GetArg),
            89 => Some(FinalOpcode::PutArg),
            90 => Some(FinalOpcode::SetArg),
            91 => Some(FinalOpcode::GetVarRef),
            92 => Some(FinalOpcode::PutVarRef),
            93 => Some(FinalOpcode::SetVarRef),
            94 => Some(FinalOpcode::SetLocUninitialized),
            95 => Some(FinalOpcode::GetLocCheck),
            96 => Some(FinalOpcode::PutLocCheck),
            97 => Some(FinalOpcode::SetLocCheck),
            98 => Some(FinalOpcode::PutLocCheckInit),
            99 => Some(FinalOpcode::GetLocCheckThis),
            100 => Some(FinalOpcode::GetVarRefCheck),
            101 => Some(FinalOpcode::PutVarRefCheck),
            102 => Some(FinalOpcode::PutVarRefCheckInit),
            103 => Some(FinalOpcode::CloseLoc),
            104 => Some(FinalOpcode::IfFalse),
            105 => Some(FinalOpcode::IfTrue),
            106 => Some(FinalOpcode::Goto),
            107 => Some(FinalOpcode::Catch),
            108 => Some(FinalOpcode::Gosub),
            109 => Some(FinalOpcode::Ret),
            110 => Some(FinalOpcode::NipCatch),
            111 => Some(FinalOpcode::ToObject),
            112 => Some(FinalOpcode::ToPropKey),
            113 => Some(FinalOpcode::WithGetVar),
            114 => Some(FinalOpcode::WithPutVar),
            115 => Some(FinalOpcode::WithDeleteVar),
            116 => Some(FinalOpcode::WithMakeRef),
            117 => Some(FinalOpcode::WithGetRef),
            118 => Some(FinalOpcode::MakeLocRef),
            119 => Some(FinalOpcode::MakeArgRef),
            120 => Some(FinalOpcode::MakeVarRefRef),
            121 => Some(FinalOpcode::MakeVarRef),
            122 => Some(FinalOpcode::ForInStart),
            123 => Some(FinalOpcode::ForOfStart),
            124 => Some(FinalOpcode::ForAwaitOfStart),
            125 => Some(FinalOpcode::ForInNext),
            126 => Some(FinalOpcode::ForOfNext),
            127 => Some(FinalOpcode::ForAwaitOfNext),
            128 => Some(FinalOpcode::IteratorCheckObject),
            129 => Some(FinalOpcode::IteratorGetValueDone),
            130 => Some(FinalOpcode::IteratorClose),
            131 => Some(FinalOpcode::IteratorNext),
            132 => Some(FinalOpcode::IteratorCall),
            133 => Some(FinalOpcode::InitialYield),
            134 => Some(FinalOpcode::Yield),
            135 => Some(FinalOpcode::YieldStar),
            136 => Some(FinalOpcode::AsyncYieldStar),
            137 => Some(FinalOpcode::Await),
            138 => Some(FinalOpcode::Neg),
            139 => Some(FinalOpcode::Plus),
            140 => Some(FinalOpcode::Dec),
            141 => Some(FinalOpcode::Inc),
            142 => Some(FinalOpcode::PostDec),
            143 => Some(FinalOpcode::PostInc),
            144 => Some(FinalOpcode::DecLoc),
            145 => Some(FinalOpcode::IncLoc),
            146 => Some(FinalOpcode::AddLoc),
            147 => Some(FinalOpcode::Not),
            148 => Some(FinalOpcode::Lnot),
            149 => Some(FinalOpcode::Typeof),
            150 => Some(FinalOpcode::Delete),
            151 => Some(FinalOpcode::DeleteVar),
            152 => Some(FinalOpcode::Mul),
            153 => Some(FinalOpcode::Div),
            154 => Some(FinalOpcode::Mod),
            155 => Some(FinalOpcode::Add),
            156 => Some(FinalOpcode::Sub),
            157 => Some(FinalOpcode::Pow),
            158 => Some(FinalOpcode::Shl),
            159 => Some(FinalOpcode::Sar),
            160 => Some(FinalOpcode::Shr),
            161 => Some(FinalOpcode::Lt),
            162 => Some(FinalOpcode::Lte),
            163 => Some(FinalOpcode::Gt),
            164 => Some(FinalOpcode::Gte),
            165 => Some(FinalOpcode::InstanceOf),
            166 => Some(FinalOpcode::In),
            167 => Some(FinalOpcode::Eq),
            168 => Some(FinalOpcode::Neq),
            169 => Some(FinalOpcode::StrictEq),
            170 => Some(FinalOpcode::StrictNeq),
            171 => Some(FinalOpcode::And),
            172 => Some(FinalOpcode::Xor),
            173 => Some(FinalOpcode::Or),
            174 => Some(FinalOpcode::IsUndefinedOrNull),
            175 => Some(FinalOpcode::PrivateIn),
            176 => Some(FinalOpcode::PushBigIntI32),
            177 => Some(FinalOpcode::Nop),
            178 => Some(FinalOpcode::PushMinus1),
            179 => Some(FinalOpcode::Push0),
            180 => Some(FinalOpcode::Push1),
            181 => Some(FinalOpcode::Push2),
            182 => Some(FinalOpcode::Push3),
            183 => Some(FinalOpcode::Push4),
            184 => Some(FinalOpcode::Push5),
            185 => Some(FinalOpcode::Push6),
            186 => Some(FinalOpcode::Push7),
            187 => Some(FinalOpcode::PushI8),
            188 => Some(FinalOpcode::PushI16),
            189 => Some(FinalOpcode::PushConst8),
            190 => Some(FinalOpcode::FClosure8),
            191 => Some(FinalOpcode::PushEmptyString),
            192 => Some(FinalOpcode::GetLoc8),
            193 => Some(FinalOpcode::PutLoc8),
            194 => Some(FinalOpcode::SetLoc8),
            195 => Some(FinalOpcode::GetLoc0),
            196 => Some(FinalOpcode::GetLoc1),
            197 => Some(FinalOpcode::GetLoc2),
            198 => Some(FinalOpcode::GetLoc3),
            199 => Some(FinalOpcode::PutLoc0),
            200 => Some(FinalOpcode::PutLoc1),
            201 => Some(FinalOpcode::PutLoc2),
            202 => Some(FinalOpcode::PutLoc3),
            203 => Some(FinalOpcode::SetLoc0),
            204 => Some(FinalOpcode::SetLoc1),
            205 => Some(FinalOpcode::SetLoc2),
            206 => Some(FinalOpcode::SetLoc3),
            207 => Some(FinalOpcode::GetArg0),
            208 => Some(FinalOpcode::GetArg1),
            209 => Some(FinalOpcode::GetArg2),
            210 => Some(FinalOpcode::GetArg3),
            211 => Some(FinalOpcode::PutArg0),
            212 => Some(FinalOpcode::PutArg1),
            213 => Some(FinalOpcode::PutArg2),
            214 => Some(FinalOpcode::PutArg3),
            215 => Some(FinalOpcode::SetArg0),
            216 => Some(FinalOpcode::SetArg1),
            217 => Some(FinalOpcode::SetArg2),
            218 => Some(FinalOpcode::SetArg3),
            219 => Some(FinalOpcode::GetVarRef0),
            220 => Some(FinalOpcode::GetVarRef1),
            221 => Some(FinalOpcode::GetVarRef2),
            222 => Some(FinalOpcode::GetVarRef3),
            223 => Some(FinalOpcode::PutVarRef0),
            224 => Some(FinalOpcode::PutVarRef1),
            225 => Some(FinalOpcode::PutVarRef2),
            226 => Some(FinalOpcode::PutVarRef3),
            227 => Some(FinalOpcode::SetVarRef0),
            228 => Some(FinalOpcode::SetVarRef1),
            229 => Some(FinalOpcode::SetVarRef2),
            230 => Some(FinalOpcode::SetVarRef3),
            231 => Some(FinalOpcode::GetLength),
            232 => Some(FinalOpcode::IfFalse8),
            233 => Some(FinalOpcode::IfTrue8),
            234 => Some(FinalOpcode::Goto8),
            235 => Some(FinalOpcode::Goto16),
            236 => Some(FinalOpcode::Call0),
            237 => Some(FinalOpcode::Call1),
            238 => Some(FinalOpcode::Call2),
            239 => Some(FinalOpcode::Call3),
            240 => Some(FinalOpcode::IsUndefined),
            241 => Some(FinalOpcode::IsNull),
            242 => Some(FinalOpcode::TypeofIsUndefined),
            243 => Some(FinalOpcode::TypeofIsFunction),
            _ => None,
        }
    }

    /// Returns the opcode, reserved byte zero included, whose encoded byte is
    /// `byte`.
    #[verifier::when_used_as_spec(spec_with_byte)]
    pub fn with_byte(byte: u8) -> (opcode: Option<FinalOpcode>)
        ensures
            opcode == Self::spec_with_byte(byte),
    {
        match byte {
            0 => Some(FinalOpcode::Invalid),
            1 => Some(FinalOpcode::PushI32),
            2 => Some(FinalOpcode::PushConst),
            3 => Some(FinalOpcode::FClosure),
            4 => Some(FinalOpcode::PushAtomValue),
            5 => Some(FinalOpcode::PrivateSymbol),
            6 => Some(FinalOpcode::Undefined),
            7 => Some(FinalOpcode::Null),
            8 => Some(FinalOpcode::PushThis),
            9 => Some(FinalOpcode::PushFalse),
            10 => Some(FinalOpcode::PushTrue),
            11 => Some(FinalOpcode::Object),
            12 => Some(FinalOpcode::SpecialObject),
            13 => Some(FinalOpcode::Rest),
            14 => Some(FinalOpcode::Drop),
            15 => Some(FinalOpcode::Nip),
            16 => Some(FinalOpcode::Nip1),
            17 => Some(FinalOpcode::Dup),
            18 => Some(FinalOpcode::Dup1),
            19 => Some(FinalOpcode::Dup2),
            20 => Some(FinalOpcode::Dup3),
            21 => Some(FinalOpcode::Insert2),
            22 => Some(FinalOpcode::Insert3),
            23 => Some(FinalOpcode::Insert4),
            24 => Some(FinalOpcode::Perm3),
            25 => Some(FinalOpcode::Perm4),
            26 => Some(FinalOpcode::Perm5),
            27 => Some(FinalOpcode::Swap),
            28 => Some(FinalOpcode::Swap2),
            29 => Some(FinalOpcode::Rot3l),
            30 => Some(FinalOpcode::Rot3r),
            31 => Some(FinalOpcode::Rot4l),
            32 => Some(FinalOpcode::Rot5l),
            33 => Some(FinalOpcode::CallConstructor),
            34 => Some(FinalOpcode::Call),
            35 => Some(FinalOpcode::TailCall),
            36 => Some(FinalOpcode::CallMethod),
            37 => Some(FinalOpcode::TailCallMethod),
            38 => Some(FinalOpcode::ArrayFrom),
            39 => Some(FinalOpcode::Apply),
            40 => Some(FinalOpcode::Return),
            41 => Some(FinalOpcode::ReturnUndef),
            42 => Some(FinalOpcode::CheckCtorReturn),
            43 => Some(FinalOpcode::CheckCtor),
            44 => Some(FinalOpcode::InitCtor),
            45 => Some(FinalOpcode::CheckBrand),
            46 => Some(FinalOpcode::AddBrand),
            47 => Some(FinalOpcode::ReturnAsync),
            48 => Some(FinalOpcode::Throw),
            49 => Some(FinalOpcode::ThrowError),
            50 => Some(FinalOpcode::Eval),
            51 => Some(FinalOpcode::ApplyEval),
            52 => Some(FinalOpcode::RegExp),
            53 => Some(FinalOpcode::GetSuper),
            54 => Some(FinalOpcode::Import),
            55 => Some(FinalOpcode::GetVarUndef),
            56 => Some(FinalOpcode::GetVar),
            57 => Some(FinalOpcode::PutVar),
            58 => Some(FinalOpcode::PutVarInit),
            59 => Some(FinalOpcode::GetRefValue),
            60 => Some(FinalOpcode::PutRefValue),
            61 => Some(FinalOpcode::GetField),
            62 => Some(FinalOpcode::GetField2),
            63 => Some(FinalOpcode::PutField),
            64 => Some(FinalOpcode::GetPrivateField),
            65 => Some(FinalOpcode::PutPrivateField),
            66 => Some(FinalOpcode::DefinePrivateField),
            67 => Some(FinalOpcode::GetArrayEl),
            68 => Some(FinalOpcode::GetArrayEl2),
            69 => Some(FinalOpcode::GetArrayEl3),
            70 => Some(FinalOpcode::PutArrayEl),
            71 => Some(FinalOpcode::GetSuperValue),
            72 => Some(FinalOpcode::PutSuperValue),
            73 => Some(FinalOpcode::DefineField),
            74 => Some(FinalOpcode::SetName),
            75 => Some(FinalOpcode::SetNameComputed),
            76 => Some(FinalOpcode::SetProto),
            77 => Some(FinalOpcode::SetHomeObject),
            78 => Some(FinalOpcode::DefineArrayEl),
            79 => Some(FinalOpcode::Append),
            80 => Some(FinalOpcode::CopyDataProperties),
            81 => Some(FinalOpcode::DefineMethod),
            82 => Some(FinalOpcode::DefineMethodComputed),
            83 => Some(FinalOpcode::DefineClass),
            84 => Some(FinalOpcode::DefineClassComputed),
            85 => Some(FinalOpcode::GetLoc),
            86 => Some(FinalOpcode::PutLoc),
            87 => Some(FinalOpcode::SetLoc),
            88 => Some(FinalOpcode::GetArg),
            89 => Some(FinalOpcode::PutArg),
            90 => Some(FinalOpcode::SetArg),
            91 => Some(FinalOpcode::GetVarRef),
            92 => Some(FinalOpcode::PutVarRef),
            93 => Some(FinalOpcode::SetVarRef),
            94 => Some(FinalOpcode::SetLocUninitialized),
            95 => Some(FinalOpcode::GetLocCheck),
            96 => Some(FinalOpcode::PutLocCheck),
            97 => Some(FinalOpcode::SetLocCheck),
            98 => Some(FinalOpcode::PutLocCheckInit),
            99 => Some(FinalOpcode::GetLocCheckThis),
            100 => Some(FinalOpcode::GetVarRefCheck),
            101 => Some(FinalOpcode::PutVarRefCheck),
            102 => Some(FinalOpcode::PutVarRefCheckInit),
            103 => Some(FinalOpcode::CloseLoc),
            104 => Some(FinalOpcode::IfFalse),
            105 => Some(FinalOpcode::IfTrue),
            106 => Some(FinalOpcode::Goto),
            107 => Some(FinalOpcode::Catch),
            108 => Some(FinalOpcode::Gosub),
            109 => Some(FinalOpcode::Ret),
            110 => Some(FinalOpcode::NipCatch),
            111 => Some(FinalOpcode::ToObject),
            112 => Some(FinalOpcode::ToPropKey),
            113 => Some(FinalOpcode::WithGetVar),
            114 => Some(FinalOpcode::WithPutVar),
            115 => Some(FinalOpcode::WithDeleteVar),
            116 => Some(FinalOpcode::WithMakeRef),
            117 => Some(FinalOpcode::WithGetRef),
            118 => Some(FinalOpcode::MakeLocRef),
            119 => Some(FinalOpcode::MakeArgRef),
            120 => Some(FinalOpcode::MakeVarRefRef),
            121 => Some(FinalOpcode::MakeVarRef),
            122 => Some(FinalOpcode::ForInStart),
            123 => Some(FinalOpcode::ForOfStart),
            124 => Some(FinalOpcode::ForAwaitOfStart),
            125 => Some(FinalOpcode::ForInNext),
            126 => Some(FinalOpcode::ForOfNext),
            127 => Some(FinalOpcode::ForAwaitOfNext),
            128 => Some(FinalOpcode::IteratorCheckObject),
            129 => Some(FinalOpcode::IteratorGetValueDone),
            130 => Some(FinalOpcode::IteratorClose),
            131 => Some(FinalOpcode::IteratorNext),
            132 => Some(FinalOpcode::IteratorCall),
            133 => Some(FinalOpcode::InitialYield),
            134 => Some(FinalOpcode::Yield),
            135 => Some(FinalOpcode::YieldStar),
            136 => Some(FinalOpcode::AsyncYieldStar),
            137 => Some(FinalOpcode::Await),
            138 => Some(FinalOpcode::Neg),
            139 => Some(FinalOpcode::Plus),
            140 => Some(FinalOpcode::Dec),
            141 => Some(FinalOpcode::Inc),
            142 => Some(FinalOpcode::PostDec),
            143 => Some(FinalOpcode::PostInc),
            144 => Some(FinalOpcode::DecLoc),
            145 => Some(FinalOpcode::IncLoc),
            146 => Some(FinalOpcode::AddLoc),
            147 => Some(FinalOpcode::Not),
            148 => Some(FinalOpcode::Lnot),
            149 => Some(FinalOpcode::Typeof),
            150 => Some(FinalOpcode::Delete),
            151 => Some(FinalOpcode::DeleteVar),
            152 => Some(FinalOpcode::Mul),
            153 => Some(FinalOpcode::Div),
            154 => Some(FinalOpcode::Mod),
            155 => Some(FinalOpcode::Add),
            156 => Some(FinalOpcode::Sub),
            157 => Some(FinalOpcode::Pow),
            158 => Some(FinalOpcode::Shl),
            159 => Some(FinalOpcode::Sar),
            160 => Some(FinalOpcode::Shr),
            161 => Some(FinalOpcode::Lt),
            162 => Some(FinalOpcode::Lte),
            163 => Some(FinalOpcode::Gt),
            164 => Some(FinalOpcode::Gte),
            165 => Some(FinalOpcode::InstanceOf),
            166 => Some(FinalOpcode::In),
            167 => Some(FinalOpcode::Eq),
            168 => Some(FinalOpcode::Neq),
            169 => Some(FinalOpcode::StrictEq),
            170 => Some(FinalOpcode::StrictNeq),
            171 => Some(FinalOpcode::And),
            172 => Some(FinalOpcode::Xor),
            173 => Some(FinalOpcode::Or),
            174 => Some(FinalOpcode::IsUndefinedOrNull),
            175 => Some(FinalOpcode::PrivateIn),
            176 => Some(FinalOpcode::PushBigIntI32),
            177 => Some(FinalOpcode::Nop),
            178 => Some(FinalOpcode::PushMinus1),
            179 => Some(FinalOpcode::Push0),
            180 => Some(FinalOpcode::Push1),
            181 => Some(FinalOpcode::Push2),
            182 => Some(FinalOpcode::Push3),
            183 => Some(FinalOpcode::Push4),
            184 => Some(FinalOpcode::Push5),
            185 => Some(FinalOpcode::Push6),
            186 => Some(FinalOpcode::Push7),
            187 => Some(FinalOpcode::PushI8),
            188 => Some(FinalOpcode::PushI16),
            189 => Some(FinalOpcode::PushConst8),
            190 => Some(FinalOpcode::FClosure8),
            191 => Some(FinalOpcode::PushEmptyString),
            192 => Some(FinalOpcode::GetLoc8),
            193 => Some(FinalOpcode::PutLoc8),
            194 => Some(FinalOpcode::SetLoc8),
            195 => Some(FinalOpcode::GetLoc0),
            196 => Some(FinalOpcode::GetLoc1),
            197 => Some(FinalOpcode::GetLoc2),
            198 => Some(FinalOpcode::GetLoc3),
            199 => Some(FinalOpcode::PutLoc0),
            200 => Some(FinalOpcode::PutLoc1),
            201 => Some(FinalOpcode::PutLoc2),
            202 => Some(FinalOpcode::PutLoc3),
            203 => Some(FinalOpcode::SetLoc0),
            204 => Some(FinalOpcode::SetLoc1),
            205 => Some(FinalOpcode::SetLoc2),
            206 => Some(FinalOpcode::SetLoc3),
            207 => Some(FinalOpcode::GetArg0),
            208 => Some(FinalOpcode::GetArg1),
            209 => Some(FinalOpcode::GetArg2),
            210 => Some(FinalOpcode::GetArg3),
            211 => Some(FinalOpcode::PutArg0),
            212 => Some(FinalOpcode::PutArg1),
            213 => Some(FinalOpcode::PutArg2),
            214 => Some(FinalOpcode::PutArg3),
            215 => Some(FinalOpcode::SetArg0),
            216 => Some(FinalOpcode::SetArg1),
            217 => Some(FinalOpcode::SetArg2),
            218 => Some(FinalOpcode::SetArg3),
            219 => Some(FinalOpcode::GetVarRef0),
            220 => Some(FinalOpcode::GetVarRef1),
            221 => Some(FinalOpcode::GetVarRef2),
            222 => Some(FinalOpcode::GetVarRef3),
            223 => Some(FinalOpcode::PutVarRef0),
            224 => Some(FinalOpcode::PutVarRef1),
            225 => Some(FinalOpcode::PutVarRef2),
            226 => Some(FinalOpcode::PutVarRef3),
            227 => Some(FinalOpcode::SetVarRef0),
            228 => Some(FinalOpcode::SetVarRef1),
            229 => Some(FinalOpcode::SetVarRef2),
            230 => Some(FinalOpcode::SetVarRef3),
            231 => Some(FinalOpcode::GetLength),
            232 => Some(FinalOpcode::IfFalse8),
            233 => Some(FinalOpcode::IfTrue8),
            234 => Some(FinalOpcode::Goto8),
            235 => Some(FinalOpcode::Goto16),
            236 => Some(FinalOpcode::Call0),
            237 => Some(FinalOpcode::Call1),
            238 => Some(FinalOpcode::Call2),
            239 => Some(FinalOpcode::Call3),
            240 => Some(FinalOpcode::IsUndefined),
            241 => Some(FinalOpcode::IsNull),
            242 => Some(FinalOpcode::TypeofIsUndefined),
            243 => Some(FinalOpcode::TypeofIsFunction),
            _ => None,
        }
    }

    /// Decoding of one opcode byte: zero is reserved, bytes at or above
    /// [`FINAL_OPCODE_COUNT`] are unassigned.
    pub open spec fn spec_decode(byte: u8) -> Result<FinalOpcode, FinalOpcodeDecodeError> {
        if byte == 0 {
            Err(FinalOpcodeDecodeError::ReservedInvalid)
        } else {
            match Self::spec_with_byte(byte) {
                Some(opcode) => Ok(opcode),
                None => Err(FinalOpcodeDecodeError::Unassigned { byte }),
            }
        }
    }

    /// Decodes one opcode byte.
    pub fn decode(byte: u8) -> (opcode: Result<FinalOpcode, FinalOpcodeDecodeError>)
        ensures
            opcode == Self::spec_decode(byte),
    {
        if byte == 0 {
            Err(FinalOpcodeDecodeError::ReservedInvalid)
        } else {
            match Self::with_byte(byte) {
                Some(opcode) => Ok(opcode),
                None => Err(FinalOpcodeDecodeError::Unassigned { byte }),
            }
        }
    }

    /// Declared encoding and stack behaviour of the opcode.
    pub open spec fn spec_metadata(self) -> OpcodeMetadata {
        match self {
            FinalOpcode::Invalid | FinalOpcode::ReturnUndef
            | FinalOpcode::CheckCtor | FinalOpcode::InitialYield
            | FinalOpcode::Nop => OpcodeMetadata { operand_format: OperandFormat::Empty, pops: 0, pushes: 0 },
            FinalOpcode::PushI32 | FinalOpcode::PushBigIntI32 => OpcodeMetadata { operand_format: OperandFormat::I32, pops: 0, pushes: 1 },
            FinalOpcode::PushConst | FinalOpcode::FClosure => OpcodeMetadata { operand_format: OperandFormat::Const, pops: 0, pushes: 1 },
            FinalOpcode::PushAtomValue | FinalOpcode::PrivateSymbol
            | FinalOpcode::DeleteVar => OpcodeMetadata { operand_format: OperandFormat::Atom, pops: 0, pushes: 1 },
            FinalOpcode::Undefined | FinalOpcode::Null | FinalOpcode::PushThis
            | FinalOpcode::PushFalse | FinalOpcode::PushTrue
            | FinalOpcode::Object | FinalOpcode::InitCtor
            | FinalOpcode::PushEmptyString => OpcodeMetadata { operand_format: OperandFormat::Empty, pops: 0, pushes: 1 },
            FinalOpcode::SpecialObject => OpcodeMetadata { operand_format: OperandFormat::U8, pops: 0, pushes: 1 },
            FinalOpcode::Rest => OpcodeMetadata { operand_format: OperandFormat::U16, pops: 0, pushes: 1 },
            FinalOpcode::Drop | FinalOpcode::Return | FinalOpcode::ReturnAsync
            | FinalOpcode::Throw | FinalOpcode::Ret => OpcodeMetadata { operand_format: OperandFormat::Empty, pops: 1, pushes: 0 },
            FinalOpcode::Nip | FinalOpcode::RegExp | FinalOpcode::Import
            | FinalOpcode::GetPrivateField | FinalOpcode::GetArrayEl
            | FinalOpcode::SetProto | FinalOpcode::NipCatch
            | FinalOpcode::Delete | FinalOpcode::Mul | FinalOpcode::Div
            | FinalOpcode::Mod | FinalOpcode::Add | FinalOpcode::Sub
            | FinalOpcode::Pow | FinalOpcode::Shl | FinalOpcode::Sar
            | FinalOpcode::Shr | FinalOpcode::Lt | FinalOpcode::Lte
            | FinalOpcode::Gt | FinalOpcode::Gte | FinalOpcode::InstanceOf
            | FinalOpcode::In | FinalOpcode::Eq | FinalOpcode::Neq
            | FinalOpcode::StrictEq | FinalOpcode::StrictNeq | FinalOpcode::And
            | FinalOpcode::Xor | FinalOpcode::Or | FinalOpcode::PrivateIn => OpcodeMetadata { operand_format: OperandFormat::Empty, pops: 2, pushes: 1 },
            FinalOpcode::Nip1 | FinalOpcode::DefineArrayEl | FinalOpcode::Append => OpcodeMetadata { operand_format: OperandFormat::Empty, pops: 3, pushes: 2 },
            FinalOpcode::Dup | FinalOpcode::CheckCtorReturn | FinalOpcode::Yield
            | FinalOpcode::YieldStar | FinalOpcode::AsyncYieldStar
            | FinalOpcode::PostDec | FinalOpcode::PostInc => OpcodeMetadata { operand_format: OperandFormat::Empty, pops: 1, pushes: 2 },
            FinalOpcode::Dup1 | FinalOpcode::Insert2 | FinalOpcode::GetRefValue
            | FinalOpcode::GetArrayEl3 | FinalOpcode::IteratorGetValueDone => OpcodeMetadata { operand_format: OperandFormat::Empty, pops: 2, pushes: 3 },
            FinalOpcode::Dup2 => OpcodeMetadata { operand_format: OperandFormat::Empty, pops: 2, pushes: 4 },
            FinalOpcode::Dup3 => OpcodeMetadata { operand_format: OperandFormat::Empty, pops: 3, pushes: 6 },
            FinalOpcode::Insert3 | FinalOpcode::ForAwaitOfNext => OpcodeMetadata { operand_format: OperandFormat::Empty, pops: 3, pushes: 4 },
            FinalOpcode::Insert4 => OpcodeMetadata { operand_format: OperandFormat::Empty, pops: 4, pushes: 5 },
            FinalOpcode::Perm3 | FinalOpcode::Rot3l | FinalOpcode::Rot3r => OpcodeMetadata { operand_format: OperandFormat::Empty, pops: 3, pushes: 3 },
            FinalOpcode::Perm4 | FinalOpcode::Swap2 | FinalOpcode::Rot4l
            | FinalOpcode::IteratorNext => OpcodeMetadata { operand_format: OperandFormat::Empty, pops: 4, pushes: 4 },
            FinalOpcode::Perm5 | FinalOpcode::Rot5l => OpcodeMetadata { operand_format: OperandFormat::Empty, pops: 5, pushes: 5 },
            FinalOpcode::Swap | FinalOpcode::CheckBrand
            | FinalOpcode::GetArrayEl2 | FinalOpcode::SetNameComputed
            | FinalOpcode::SetHomeObject => OpcodeMetadata { operand_format: OperandFormat::Empty, pops: 2, pushes: 2 },
            FinalOpcode::CallConstructor | FinalOpcode::CallMethod => OpcodeMetadata { operand_format: OperandFormat::NPop, pops: 2, pushes: 1 },
            FinalOpcode::Call => OpcodeMetadata { operand_format: OperandFormat::NPop, pops: 1, pushes: 1 },
            FinalOpcode::TailCall => OpcodeMetadata { operand_format: OperandFormat::NPop, pops: 1, pushes: 0 },
            FinalOpcode::TailCallMethod => OpcodeMetadata { operand_format: OperandFormat::NPop, pops: 2, pushes: 0 },
            FinalOpcode::ArrayFrom => OpcodeMetadata { operand_format: OperandFormat::NPop, pops: 0, pushes: 1 },
            FinalOpcode::Apply => OpcodeMetadata { operand_format: OperandFormat::U16, pops: 3, pushes: 1 },
            FinalOpcode::AddBrand => OpcodeMetadata { operand_format: OperandFormat::Empty, pops: 2, pushes: 0 },
            FinalOpcode::ThrowError => OpcodeMetadata { operand_format: OperandFormat::AtomU8, pops: 0, pushes: 0 },
            FinalOpcode::Eval => OpcodeMetadata { operand_format: OperandFormat::NPopU16, pops: 1, pushes: 1 },
            FinalOpcode::ApplyEval => OpcodeMetadata { operand_format: OperandFormat::U16, pops: 2, pushes: 1 },
            FinalOpcode::GetSuper | FinalOpcode::ToObject
            | FinalOpcode::ToPropKey | FinalOpcode::ForInStart
            | FinalOpcode::IteratorCheckObject | FinalOpcode::Await
            | FinalOpcode::Neg | FinalOpcode::Plus | FinalOpcode::Dec
            | FinalOpcode::Inc | FinalOpcode::Not | FinalOpcode::Lnot
            | FinalOpcode::Typeof | FinalOpcode::IsUndefinedOrNull
            | FinalOpcode::GetLength | FinalOpcode::IsUndefined
            | FinalOpcode::IsNull | FinalOpcode::TypeofIsUndefined
            | FinalOpcode::TypeofIsFunction => OpcodeMetadata { operand_format: OperandFormat::Empty, pops: 1, pushes: 1 },
            FinalOpcode::GetVarUndef | FinalOpcode::GetVar
            | FinalOpcode::GetVarRef | FinalOpcode::GetVarRefCheck => OpcodeMetadata { operand_format: OperandFormat::VarRef, pops: 0, pushes: 1 },
            FinalOpcode::PutVar | FinalOpcode::PutVarInit
            | FinalOpcode::PutVarRef | FinalOpcode::PutVarRefCheck
            | FinalOpcode::PutVarRefCheckInit => OpcodeMetadata { operand_format: OperandFormat::VarRef, pops: 1, pushes: 0 },
            FinalOpcode::PutRefValue | FinalOpcode::PutPrivateField
            | FinalOpcode::PutArrayEl | FinalOpcode::IteratorClose => OpcodeMetadata { operand_format: OperandFormat::Empty, pops: 3, pushes: 0 },
            FinalOpcode::GetField | FinalOpcode::SetName => OpcodeMetadata { operand_format: OperandFormat::Atom, pops: 1, pushes: 1 },
            FinalOpcode::GetField2 => OpcodeMetadata { operand_format: OperandFormat::Atom, pops: 1, pushes: 2 },
            FinalOpcode::PutField => OpcodeMetadata { operand_format: OperandFormat::Atom, pops: 2, pushes: 0 },
            FinalOpcode::DefinePrivateField | FinalOpcode::DefineMethodComputed => OpcodeMetadata { operand_format: OperandFormat::U8, pops: 3, pushes: 1 },
            FinalOpcode::GetSuperValue => OpcodeMetadata { operand_format: OperandFormat::Empty, pops: 3, pushes: 1 },
            FinalOpcode::PutSuperValue => OpcodeMetadata { operand_format: OperandFormat::Empty, pops: 4, pushes: 0 },
            FinalOpcode::DefineField => OpcodeMetadata { operand_format: OperandFormat::Atom, pops: 2, pushes: 1 },
            FinalOpcode::CopyDataProperties => OpcodeMetadata { operand_format: OperandFormat::U8, pops: 3, pushes: 3 },
            FinalOpcode::DefineMethod => OpcodeMetadata { operand_format: OperandFormat::AtomU8, pops: 2, pushes: 1 },
            FinalOpcode::DefineClass => OpcodeMetadata { operand_format: OperandFormat::AtomU8, pops: 2, pushes: 2 },
            FinalOpcode::DefineClassComputed => OpcodeMetadata { operand_format: OperandFormat::AtomU8, pops: 3, pushes: 3 },
            FinalOpcode::GetLoc | FinalOpcode::GetLocCheck
            | FinalOpcode::GetLocCheckThis => OpcodeMetadata { operand_format: OperandFormat::Loc, pops: 0, pushes: 1 },
            FinalOpcode::PutLoc | FinalOpcode::PutLocCheck
            | FinalOpcode::PutLocCheckInit => OpcodeMetadata { operand_format: OperandFormat::Loc, pops: 1, pushes: 0 },
            FinalOpcode::SetLoc | FinalOpcode::SetLocCheck => OpcodeMetadata { operand_format: OperandFormat::Loc, pops: 1, pushes: 1 },
            FinalOpcode::GetArg => OpcodeMetadata { operand_format: OperandFormat::Arg, pops: 0, pushes: 1 },
            FinalOpcode::PutArg => OpcodeMetadata { operand_format: OperandFormat::Arg, pops: 1, pushes: 0 },
            FinalOpcode::SetArg => OpcodeMetadata { operand_format: OperandFormat::Arg, pops: 1, pushes: 1 },
            FinalOpcode::SetVarRef => OpcodeMetadata { operand_format: OperandFormat::VarRef, pops: 1, pushes: 1 },
            FinalOpcode::SetLocUninitialized | FinalOpcode::CloseLoc => OpcodeMetadata { operand_format: OperandFormat::Loc, pops: 0, pushes: 0 },
            FinalOpcode::IfFalse | FinalOpcode::IfTrue => OpcodeMetadata { operand_format: OperandFormat::Label, pops: 1, pushes: 0 },
            FinalOpcode::Goto | FinalOpcode::Gosub => OpcodeMetadata { operand_format: OperandFormat::Label, pops: 0, pushes: 0 },
            FinalOpcode::Catch => OpcodeMetadata { operand_format: OperandFormat::Label, pops: 0, pushes: 1 },
            FinalOpcode::WithGetVar | FinalOpcode::WithDeleteVar
            | FinalOpcode::WithMakeRef | FinalOpcode::WithGetRef => OpcodeMetadata { operand_format: OperandFormat::AtomLabelU8, pops: 1, pushes: 0 },
            FinalOpcode::WithPutVar => OpcodeMetadata { operand_format: OperandFormat::AtomLabelU8, pops: 2, pushes: 1 },
            FinalOpcode::MakeLocRef | FinalOpcode::MakeArgRef
            | FinalOpcode::MakeVarRefRef => OpcodeMetadata { operand_format: OperandFormat::AtomU16, pops: 0, pushes: 2 },
            FinalOpcode::MakeVarRef => OpcodeMetadata { operand_format: OperandFormat::Atom, pops: 0, pushes: 2 },
            FinalOpcode::ForOfStart | FinalOpcode::ForAwaitOfStart
            | FinalOpcode::ForInNext => OpcodeMetadata { operand_format: OperandFormat::Empty, pops: 1, pushes: 3 },
            FinalOpcode::ForOfNext => OpcodeMetadata { operand_format: OperandFormat::U8, pops: 3, pushes: 5 },
            FinalOpcode::IteratorCall => OpcodeMetadata { operand_format: OperandFormat::U8, pops: 4, pushes: 5 },
            FinalOpcode::DecLoc | FinalOpcode::IncLoc => OpcodeMetadata { operand_format: OperandFormat::Loc8, pops: 0, pushes: 0 },
            FinalOpcode::AddLoc | FinalOpcode::PutLoc8 => OpcodeMetadata { operand_format: OperandFormat::Loc8, pops: 1, pushes: 0 },
            FinalOpcode::PushMinus1 | FinalOpcode::Push0 | FinalOpcode::Push1
            | FinalOpcode::Push2 | FinalOpcode::Push3 | FinalOpcode::Push4
            | FinalOpcode::Push5 | FinalOpcode::Push6 | FinalOpcode::Push7 => OpcodeMetadata { operand_format: OperandFormat::NoneInt, pops: 0, pushes: 1 },
            FinalOpcode::PushI8 => OpcodeMetadata { operand_format: OperandFormat::I8, pops: 0, pushes: 1 },
            FinalOpcode::PushI16 => OpcodeMetadata { operand_format: OperandFormat::I16, pops: 0, pushes: 1 },
            FinalOpcode::PushConst8 | FinalOpcode::FClosure8 => OpcodeMetadata { operand_format: OperandFormat::Const8, pops: 0, pushes: 1 },
            FinalOpcode::GetLoc8 => OpcodeMetadata { operand_format: OperandFormat::Loc8, pops: 0, pushes: 1 },
            FinalOpcode::SetLoc8 => OpcodeMetadata { operand_format: OperandFormat::Loc8, pops: 1, pushes: 1 },
            FinalOpcode::GetLoc0 | FinalOpcode::GetLoc1 | FinalOpcode::GetLoc2
            | FinalOpcode::GetLoc3 => OpcodeMetadata { operand_format: OperandFormat::NoneLoc, pops: 0, pushes: 1 },
            FinalOpcode::PutLoc0 | FinalOpcode::PutLoc1 | FinalOpcode::PutLoc2
            | FinalOpcode::PutLoc3 => OpcodeMetadata { operand_format: OperandFormat::NoneLoc, pops: 1, pushes: 0 },
            FinalOpcode::SetLoc0 | FinalOpcode::SetLoc1 | FinalOpcode::SetLoc2
            | FinalOpcode::SetLoc3 => OpcodeMetadata { operand_format: OperandFormat::NoneLoc, pops: 1, pushes: 1 },
            FinalOpcode::GetArg0 | FinalOpcode::GetArg1 | FinalOpcode::GetArg2
            | FinalOpcode::GetArg3 => OpcodeMetadata { operand_format: OperandFormat::NoneArg, pops: 0, pushes: 1 },
            FinalOpcode::PutArg0 | FinalOpcode::PutArg1 | FinalOpcode::PutArg2
            | FinalOpcode::PutArg3 => OpcodeMetadata { operand_format: OperandFormat::NoneArg, pops: 1, pushes: 0 },
            FinalOpcode::SetArg0 | FinalOpcode::SetArg1 | FinalOpcode::SetArg2
            | FinalOpcode::SetArg3 => OpcodeMetadata { operand_format: OperandFormat::NoneArg, pops: 1, pushes: 1 },
            FinalOpcode::GetVarRef0 | FinalOpcode::GetVarRef1
            | FinalOpcode::GetVarRef2 | FinalOpcode::GetVarRef3 => OpcodeMetadata { operand_format: OperandFormat::NoneVarRef, pops: 0, pushes: 1 },
            FinalOpcode::PutVarRef0 | FinalOpcode::PutVarRef1
            | FinalOpcode::PutVarRef2 | FinalOpcode::PutVarRef3 => OpcodeMetadata { operand_format: OperandFormat::NoneVarRef, pops: 1, pushes: 0 },
            FinalOpcode::SetVarRef0 | FinalOpcode::SetVarRef1
            | FinalOpcode::SetVarRef2 | FinalOpcode::SetVarRef3 => OpcodeMetadata { operand_format: OperandFormat::NoneVarRef, pops: 1, pushes: 1 },
            FinalOpcode::IfFalse8 | FinalOpcode::IfTrue8 => OpcodeMetadata { operand_format: OperandFormat::Label8, pops: 1, pushes: 0 },
            FinalOpcode::Goto8 => OpcodeMetadata { operand_format: OperandFormat::Label8, pops: 0, pushes: 0 },
            FinalOpcode::Goto16 => OpcodeMetadata { operand_format: OperandFormat::Label16, pops: 0, pushes: 0 },
            FinalOpcode::Call0 | FinalOpcode::Call1 | FinalOpcode::Call2
            | FinalOpcode::Call3 => OpcodeMetadata { operand_format: OperandFormat::NPopX, pops: 1, pushes: 1 },
        }
    }

    /// Returns the declared encoding and stack behaviour of the opcode.
    #[verifier::when_used_as_spec(spec_metadata)]
    pub fn metadata(self) -> (metadata: OpcodeMetadata)
        ensures
            metadata == self.spec_metadata(),
    {
        match self {
            FinalOpcode::Invalid | FinalOpcode::ReturnUndef
            | FinalOpcode::CheckCtor | FinalOpcode::InitialYield
            | FinalOpcode::Nop => OpcodeMetadata { operand_format: OperandFormat::Empty, pops: 0, pushes: 0 },
            FinalOpcode::PushI32 | FinalOpcode::PushBigIntI32 => OpcodeMetadata { operand_format: OperandFormat::I32, pops: 0, pushes: 1 },
            FinalOpcode::PushConst | FinalOpcode::FClosure => OpcodeMetadata { operand_format: OperandFormat::Const, pops: 0, pushes: 1 },
            FinalOpcode::PushAtomValue | FinalOpcode::PrivateSymbol
            | FinalOpcode::DeleteVar => OpcodeMetadata { operand_format: OperandFormat::Atom, pops: 0, pushes: 1 },
            FinalOpcode::Undefined | FinalOpcode::Null | FinalOpcode::PushThis
            | FinalOpcode::PushFalse | FinalOpcode::PushTrue
            | FinalOpcode::Object | FinalOpcode::InitCtor
            | FinalOpcode::PushEmptyString => OpcodeMetadata { operand_format: OperandFormat::Empty, pops: 0, pushes: 1 },
            FinalOpcode::SpecialObject => OpcodeMetadata { operand_format: OperandFormat::U8, pops: 0, pushes: 1 },
            FinalOpcode::Rest => OpcodeMetadata { operand_format: OperandFormat::U16, pops: 0, pushes: 1 },
            FinalOpcode::Drop | FinalOpcode::Return | FinalOpcode::ReturnAsync
            | FinalOpcode::Throw | FinalOpcode::Ret => OpcodeMetadata { operand_format: OperandFormat::Empty, pops: 1, pushes: 0 },
            FinalOpcode::Nip | FinalOpcode::RegExp | FinalOpcode::Import
            | FinalOpcode::GetPrivateField | FinalOpcode::GetArrayEl
            | FinalOpcode::SetProto | FinalOpcode::NipCatch
            | FinalOpcode::Delete | FinalOpcode::Mul | FinalOpcode::Div
            | FinalOpcode::Mod | FinalOpcode::Add | FinalOpcode::Sub
            | FinalOpcode::Pow | FinalOpcode::Shl | FinalOpcode::Sar
            | FinalOpcode::Shr | FinalOpcode::Lt | FinalOpcode::Lte
            | FinalOpcode::Gt | FinalOpcode::Gte | FinalOpcode::InstanceOf
            | FinalOpcode::In | FinalOpcode::Eq | FinalOpcode::Neq
            | FinalOpcode::StrictEq | FinalOpcode::StrictNeq | FinalOpcode::And
            | FinalOpcode::Xor | FinalOpcode::Or | FinalOpcode::PrivateIn => OpcodeMetadata { operand_format: OperandFormat::Empty, pops: 2, pushes: 1 },
            FinalOpcode::Nip1 | FinalOpcode::DefineArrayEl | FinalOpcode::Append => OpcodeMetadata { operand_format: OperandFormat::Empty, pops: 3, pushes: 2 },
            FinalOpcode::Dup | FinalOpcode::CheckCtorReturn | FinalOpcode::Yield
            | FinalOpcode::YieldStar | FinalOpcode::AsyncYieldStar
            | FinalOpcode::PostDec | FinalOpcode::PostInc => OpcodeMetadata { operand_format: OperandFormat::Empty, pops: 1, pushes: 2 },
            FinalOpcode::Dup1 | FinalOpcode::Insert2 | FinalOpcode::GetRefValue
            | FinalOpcode::GetArrayEl3 | FinalOpcode::IteratorGetValueDone => OpcodeMetadata { operand_format: OperandFormat::Empty, pops: 2, pushes: 3 },
            FinalOpcode::Dup2 => OpcodeMetadata { operand_format: OperandFormat::Empty, pops: 2, pushes: 4 },
            FinalOpcode::Dup3 => OpcodeMetadata { operand_format: OperandFormat::Empty, pops: 3, pushes: 6 },
            FinalOpcode::Insert3 | FinalOpcode::ForAwaitOfNext => OpcodeMetadata { operand_format: OperandFormat::Empty, pops: 3, pushes: 4 },
            FinalOpcode::Insert4 => OpcodeMetadata { operand_format: OperandFormat::Empty, pops: 4, pushes: 5 },
            FinalOpcode::Perm3 | FinalOpcode::Rot3l | FinalOpcode::Rot3r => OpcodeMetadata { operand_format: OperandFormat::Empty, pops: 3, pushes: 3 },
            FinalOpcode::Perm4 | FinalOpcode::Swap2 | FinalOpcode::Rot4l
            | FinalOpcode::IteratorNext => OpcodeMetadata { operand_format: OperandFormat::Empty, pops: 4, pushes: 4 },
            FinalOpcode::Perm5 | FinalOpcode::Rot5l => OpcodeMetadata { operand_format: OperandFormat::Empty, pops: 5, pushes: 5 },
            FinalOpcode::Swap | FinalOpcode::CheckBrand
            | FinalOpcode::GetArrayEl2 | FinalOpcode::SetNameComputed
            | FinalOpcode::SetHomeObject => OpcodeMetadata { operand_format: OperandFormat::Empty, pops: 2, pushes: 2 },
            FinalOpcode::CallConstructor | FinalOpcode::CallMethod => OpcodeMetadata { operand_format: OperandFormat::NPop, pops: 2, pushes: 1 },
            FinalOpcode::Call => OpcodeMetadata { operand_format: OperandFormat::NPop, pops: 1, pushes: 1 },
            FinalOpcode::TailCall => OpcodeMetadata { operand_format: OperandFormat::NPop, pops: 1, pushes: 0 },
            FinalOpcode::TailCallMethod => OpcodeMetadata { operand_format: OperandFormat::NPop, pops: 2, pushes: 0 },
            FinalOpcode::ArrayFrom => OpcodeMetadata { operand_format: OperandFormat::NPop, pops: 0, pushes: 1 },
            FinalOpcode::Apply => OpcodeMetadata { operand_format: OperandFormat::U16, pops: 3, pushes: 1 },
            FinalOpcode::AddBrand => OpcodeMetadata { operand_format: OperandFormat::Empty, pops: 2, pushes: 0 },
            FinalOpcode::ThrowError => OpcodeMetadata { operand_format: OperandFormat::AtomU8, pops: 0, pushes: 0 },
            FinalOpcode::Eval => OpcodeMetadata { operand_format: OperandFormat::NPopU16, pops: 1, pushes: 1 },
            FinalOpcode::ApplyEval => OpcodeMetadata { operand_format: OperandFormat::U16, pops: 2, pushes: 1 },
            FinalOpcode::GetSuper | FinalOpcode::ToObject
            | FinalOpcode::ToPropKey | FinalOpcode::ForInStart
            | FinalOpcode::IteratorCheckObject | FinalOpcode::Await
            | FinalOpcode::Neg | FinalOpcode::Plus | FinalOpcode::Dec
            | FinalOpcode::Inc | FinalOpcode::Not | FinalOpcode::Lnot
            | FinalOpcode::Typeof | FinalOpcode::IsUndefinedOrNull
            | FinalOpcode::GetLength | FinalOpcode::IsUndefined
            | FinalOpcode::IsNull | FinalOpcode::TypeofIsUndefined
            | FinalOpcode::TypeofIsFunction => OpcodeMetadata { operand_format: OperandFormat::Empty, pops: 1, pushes: 1 },
            FinalOpcode::GetVarUndef | FinalOpcode::GetVar
            | FinalOpcode::GetVarRef | FinalOpcode::GetVarRefCheck => OpcodeMetadata { operand_format: OperandFormat::VarRef, pops: 0, pushes: 1 },
            FinalOpcode::PutVar | FinalOpcode::PutVarInit
            | FinalOpcode::PutVarRef | FinalOpcode::PutVarRefCheck
            | FinalOpcode::PutVarRefCheckInit => OpcodeMetadata { operand_format: OperandFormat::VarRef, pops: 1, pushes: 0 },
            FinalOpcode::PutRefValue | FinalOpcode::PutPrivateField
            | FinalOpcode::PutArrayEl | FinalOpcode::IteratorClose => OpcodeMetadata { operand_format: OperandFormat::Empty, pops: 3, pushes: 0 },
            FinalOpcode::GetField | FinalOpcode::SetName => OpcodeMetadata { operand_format: OperandFormat::Atom, pops: 1, pushes: 1 },
            FinalOpcode::GetField2 => OpcodeMetadata { operand_format: OperandFormat::Atom, pops: 1, pushes: 2 },
            FinalOpcode::PutField => OpcodeMetadata { operand_format: OperandFormat::Atom, pops: 2, pushes: 0 },
            FinalOpcode::DefinePrivateField | FinalOpcode::DefineMethodComputed => OpcodeMetadata { operand_format: OperandFormat::U8, pops: 3, pushes: 1 },
            FinalOpcode::GetSuperValue => OpcodeMetadata { operand_format: OperandFormat::Empty, pops: 3, pushes: 1 },
            FinalOpcode::PutSuperValue => OpcodeMetadata { operand_format: OperandFormat::Empty, pops: 4, pushes: 0 },
            FinalOpcode::DefineField => OpcodeMetadata { operand_format: OperandFormat::Atom, pops: 2, pushes: 1 },
            FinalOpcode::CopyDataProperties => OpcodeMetadata { operand_format: OperandFormat::U8, pops: 3, pushes: 3 },
            FinalOpcode::DefineMethod => OpcodeMetadata { operand_format: OperandFormat::AtomU8, pops: 2, pushes: 1 },
            FinalOpcode::DefineClass => OpcodeMetadata { operand_format: OperandFormat::AtomU8, pops: 2, pushes: 2 },
            FinalOpcode::DefineClassComputed => OpcodeMetadata { operand_format: OperandFormat::AtomU8, pops: 3, pushes: 3 },
            FinalOpcode::GetLoc | FinalOpcode::GetLocCheck
            | FinalOpcode::GetLocCheckThis => OpcodeMetadata { operand_format: OperandFormat::Loc, pops: 0, pushes: 1 },
            FinalOpcode::PutLoc | FinalOpcode::PutLocCheck
            | FinalOpcode::PutLocCheckInit => OpcodeMetadata { operand_format: OperandFormat::Loc, pops: 1, pushes: 0 },
            FinalOpcode::SetLoc | FinalOpcode::SetLocCheck => OpcodeMetadata { operand_format: OperandFormat::Loc, pops: 1, pushes: 1 },
            FinalOpcode::GetArg => OpcodeMetadata { operand_format: OperandFormat::Arg, pops: 0, pushes: 1 },
            FinalOpcode::PutArg => OpcodeMetadata { operand_format: OperandFormat::Arg, pops: 1, pushes: 0 },
            FinalOpcode::SetArg => OpcodeMetadata { operand_format: OperandFormat::Arg, pops: 1, pushes: 1 },
            FinalOpcode::SetVarRef => OpcodeMetadata { operand_format: OperandFormat::VarRef, pops: 1, pushes: 1 },
            FinalOpcode::SetLocUninitialized | FinalOpcode::CloseLoc => OpcodeMetadata { operand_format: OperandFormat::Loc, pops: 0, pushes: 0 },
            FinalOpcode::IfFalse | FinalOpcode::IfTrue => OpcodeMetadata { operand_format: OperandFormat::Label, pops: 1, pushes: 0 },
            FinalOpcode::Goto | FinalOpcode::Gosub => OpcodeMetadata { operand_format: OperandFormat::Label, pops: 0, pushes: 0 },
            FinalOpcode::Catch => OpcodeMetadata { operand_format: OperandFormat::Label, pops: 0, pushes: 1 },
            FinalOpcode::WithGetVar | FinalOpcode::WithDeleteVar
            | FinalOpcode::WithMakeRef | FinalOpcode::WithGetRef => OpcodeMetadata { operand_format: OperandFormat::AtomLabelU8, pops: 1, pushes: 0 },
            FinalOpcode::WithPutVar => OpcodeMetadata { operand_format: OperandFormat::AtomLabelU8, pops: 2, pushes: 1 },
            FinalOpcode::MakeLocRef | FinalOpcode::MakeArgRef
            | FinalOpcode::MakeVarRefRef => OpcodeMetadata { operand_format: OperandFormat::AtomU16, pops: 0, pushes: 2 },
            FinalOpcode::MakeVarRef => OpcodeMetadata { operand_format: OperandFormat::Atom, pops: 0, pushes: 2 },
            FinalOpcode::ForOfStart | FinalOpcode::ForAwaitOfStart
            | FinalOpcode::ForInNext => OpcodeMetadata { operand_format: OperandFormat::Empty, pops: 1, pushes: 3 },
            FinalOpcode::ForOfNext => OpcodeMetadata { operand_format: OperandFormat::U8, pops: 3, pushes: 5 },
            FinalOpcode::IteratorCall => OpcodeMetadata { operand_format: OperandFormat::U8, pops: 4, pushes: 5 },
            FinalOpcode::DecLoc | FinalOpcode::IncLoc => OpcodeMetadata { operand_format: OperandFormat::Loc8, pops: 0, pushes: 0 },
            FinalOpcode::AddLoc | FinalOpcode::PutLoc8 => OpcodeMetadata { operand_format: OperandFormat::Loc8, pops: 1, pushes: 0 },
            FinalOpcode::PushMinus1 | FinalOpcode::Push0 | FinalOpcode::Push1
            | FinalOpcode::Push2 | FinalOpcode::Push3 | FinalOpcode::Push4
            | FinalOpcode::Push5 | FinalOpcode::Push6 | FinalOpcode::Push7 => OpcodeMetadata { operand_format: OperandFormat::NoneInt, pops: 0, pushes: 1 },
            FinalOpcode::PushI8 => OpcodeMetadata { operand_format: OperandFormat::I8, pops: 0, pushes: 1 },
            FinalOpcode::PushI16 => OpcodeMetadata { operand_format: OperandFormat::I16, pops: 0, pushes: 1 },
            FinalOpcode::PushConst8 | FinalOpcode::FClosure8 => OpcodeMetadata { operand_format: OperandFormat::Const8, pops: 0, pushes: 1 },
            FinalOpcode::GetLoc8 => OpcodeMetadata { operand_format: OperandFormat::Loc8, pops: 0, pushes: 1 },
            FinalOpcode::SetLoc8 => OpcodeMetadata { operand_format: OperandFormat::Loc8, pops: 1, pushes: 1 },
            FinalOpcode::GetLoc0 | FinalOpcode::GetLoc1 | FinalOpcode::GetLoc2
            | FinalOpcode::GetLoc3 => OpcodeMetadata { operand_format: OperandFormat::NoneLoc, pops: 0, pushes: 1 },
            FinalOpcode::PutLoc0 | FinalOpcode::PutLoc1 | FinalOpcode::PutLoc2
            | FinalOpcode::PutLoc3 => OpcodeMetadata { operand_format: OperandFormat::NoneLoc, pops: 1, pushes: 0 },
            FinalOpcode::SetLoc0 | FinalOpcode::SetLoc1 | FinalOpcode::SetLoc2
            | FinalOpcode::SetLoc3 => OpcodeMetadata { operand_format: OperandFormat::NoneLoc, pops: 1, pushes: 1 },
            FinalOpcode::GetArg0 | FinalOpcode::GetArg1 | FinalOpcode::GetArg2
            | FinalOpcode::GetArg3 => OpcodeMetadata { operand_format: OperandFormat::NoneArg, pops: 0, pushes: 1 },
            FinalOpcode::PutArg0 | FinalOpcode::PutArg1 | FinalOpcode::PutArg2
            | FinalOpcode::PutArg3 => OpcodeMetadata { operand_format: OperandFormat::NoneArg, pops: 1, pushes: 0 },
            FinalOpcode::SetArg0 | FinalOpcode::SetArg1 | FinalOpcode::SetArg2
            | FinalOpcode::SetArg3 => OpcodeMetadata { operand_format: OperandFormat::NoneArg, pops: 1, pushes: 1 },
            FinalOpcode::GetVarRef0 | FinalOpcode::GetVarRef1
            | FinalOpcode::GetVarRef2 | FinalOpcode::GetVarRef3 => OpcodeMetadata { operand_format: OperandFormat::NoneVarRef, pops: 0, pushes: 1 },
            FinalOpcode::PutVarRef0 | FinalOpcode::PutVarRef1
            | FinalOpcode::PutVarRef2 | FinalOpcode::PutVarRef3 => OpcodeMetadata { operand_format: OperandFormat::NoneVarRef, pops: 1, pushes: 0 },
            FinalOpcode::SetVarRef0 | FinalOpcode::SetVarRef1
            | FinalOpcode::SetVarRef2 | FinalOpcode::SetVarRef3 => OpcodeMetadata { operand_format: OperandFormat::NoneVarRef, pops: 1, pushes: 1 },
            FinalOpcode::IfFalse8 | FinalOpcode::IfTrue8 => OpcodeMetadata { operand_format: OperandFormat::Label8, pops: 1, pushes: 0 },
            FinalOpcode::Goto8 => OpcodeMetadata { operand_format: OperandFormat::Label8, pops: 0, pushes: 0 },
            FinalOpcode::Goto16 => OpcodeMetadata { operand_format: OperandFormat::Label16, pops: 0, pushes: 0 },
            FinalOpcode::Call0 | FinalOpcode::Call1 | FinalOpcode::Call2
            | FinalOpcode::Call3 => OpcodeMetadata { operand_format: OperandFormat::NPopX, pops: 1, pushes: 1 },
        }
    }

    /// Mnemonic of the opcode.
    pub open spec fn spec_mnemonic(self) -> Seq<char> {
        match self {
            FinalOpcode::Invalid => "invalid"@,
            FinalOpcode::PushI32 => "push_i32"@,
            FinalOpcode::PushConst => "push_const"@,
            FinalOpcode::FClosure => "fclosure"@,
            FinalOpcode::PushAtomValue => "push_atom_value"@,
            FinalOpcode::PrivateSymbol => "private_symbol"@,
            FinalOpcode::Undefined => "undefined"@,
            FinalOpcode::Null => "null"@,
            FinalOpcode::PushThis => "push_this"@,
            FinalOpcode::PushFalse => "push_false"@,
            FinalOpcode::PushTrue => "push_true"@,
            FinalOpcode::Object => "object"@,
            FinalOpcode::SpecialObject => "special_object"@,
            FinalOpcode::Rest => "rest"@,
            FinalOpcode::Drop => "drop"@,
            FinalOpcode::Nip => "nip"@,
            FinalOpcode::Nip1 => "nip1"@,
            FinalOpcode::Dup => "dup"@,
            FinalOpcode::Dup1 => "dup1"@,
            FinalOpcode::Dup2 => "dup2"@,
            FinalOpcode::Dup3 => "dup3"@,
            FinalOpcode::Insert2 => "insert2"@,
            FinalOpcode::Insert3 => "insert3"@,
            FinalOpcode::Insert4 => "insert4"@,
            FinalOpcode::Perm3 => "perm3"@,
            FinalOpcode::Perm4 => "perm4"@,
            FinalOpcode::Perm5 => "perm5"@,
            FinalOpcode::Swap => "swap"@,
            FinalOpcode::Swap2 => "swap2"@,
            FinalOpcode::Rot3l => "rot3l"@,
            FinalOpcode::Rot3r => "rot3r"@,
            FinalOpcode::Rot4l => "rot4l"@,
            FinalOpcode::Rot5l => "rot5l"@,
            FinalOpcode::CallConstructor => "call_constructor"@,
            FinalOpcode::Call => "call"@,
            FinalOpcode::TailCall => "tail_call"@,
            FinalOpcode::CallMethod => "call_method"@,
            FinalOpcode::TailCallMethod => "tail_call_method"@,
            FinalOpcode::ArrayFrom => "array_from"@,
            FinalOpcode::Apply => "apply"@,
            FinalOpcode::Return => "return"@,
            FinalOpcode::ReturnUndef => "return_undef"@,
            FinalOpcode::CheckCtorReturn => "check_ctor_return"@,
            FinalOpcode::CheckCtor => "check_ctor"@,
            FinalOpcode::InitCtor => "init_ctor"@,
            FinalOpcode::CheckBrand => "check_brand"@,
            FinalOpcode::AddBrand => "add_brand"@,
            FinalOpcode::ReturnAsync => "return_async"@,
            FinalOpcode::Throw => "throw"@,
            FinalOpcode::ThrowError => "throw_error"@,
            FinalOpcode::Eval => "eval"@,
            FinalOpcode::ApplyEval => "apply_eval"@,
            FinalOpcode::RegExp => "regexp"@,
            FinalOpcode::GetSuper => "get_super"@,
            FinalOpcode::Import => "import"@,
            FinalOpcode::GetVarUndef => "get_var_undef"@,
            FinalOpcode::GetVar => "get_var"@,
            FinalOpcode::PutVar => "put_var"@,
            FinalOpcode::PutVarInit => "put_var_init"@,
            FinalOpcode::GetRefValue => "get_ref_value"@,
            FinalOpcode::PutRefValue => "put_ref_value"@,
            FinalOpcode::GetField => "get_field"@,
            FinalOpcode::GetField2 => "get_field2"@,
            FinalOpcode::PutField => "put_field"@,
            FinalOpcode::GetPrivateField => "get_private_field"@,
            FinalOpcode::PutPrivateField => "put_private_field"@,
            FinalOpcode::DefinePrivateField => "define_private_field"@,
            FinalOpcode::GetArrayEl => "get_array_el"@,
            FinalOpcode::GetArrayEl2 => "get_array_el2"@,
            FinalOpcode::GetArrayEl3 => "get_array_el3"@,
            FinalOpcode::PutArrayEl => "put_array_el"@,
            FinalOpcode::GetSuperValue => "get_super_value"@,
            FinalOpcode::PutSuperValue => "put_super_value"@,
            FinalOpcode::DefineField => "define_field"@,
            FinalOpcode::SetName => "set_name"@,
            FinalOpcode::SetNameComputed => "set_name_computed"@,
            FinalOpcode::SetProto => "set_proto"@,
            FinalOpcode::SetHomeObject => "set_home_object"@,
            FinalOpcode::DefineArrayEl => "define_array_el"@,
            FinalOpcode::Append => "append"@,
            FinalOpcode::CopyDataProperties => "copy_data_properties"@,
            FinalOpcode::DefineMethod => "define_method"@,
            FinalOpcode::DefineMethodComputed => "define_method_computed"@,
            FinalOpcode::DefineClass => "define_class"@,
            FinalOpcode::DefineClassComputed => "define_class_computed"@,
            FinalOpcode::GetLoc => "get_loc"@,
            FinalOpcode::PutLoc => "put_loc"@,
            FinalOpcode::SetLoc => "set_loc"@,
            FinalOpcode::GetArg => "get_arg"@,
            FinalOpcode::PutArg => "put_arg"@,
            FinalOpcode::SetArg => "set_arg"@,
            FinalOpcode::GetVarRef => "get_var_ref"@,
            FinalOpcode::PutVarRef => "put_var_ref"@,
            FinalOpcode::SetVarRef => "set_var_ref"@,
            FinalOpcode::SetLocUninitialized => "set_loc_uninitialized"@,
            FinalOpcode::GetLocCheck => "get_loc_check"@,
            FinalOpcode::PutLocCheck => "put_loc_check"@,
            FinalOpcode::SetLocCheck => "set_loc_check"@,
            FinalOpcode::PutLocCheckInit => "put_loc_check_init"@,
            FinalOpcode::GetLocCheckThis => "get_loc_checkthis"@,
            FinalOpcode::GetVarRefCheck => "get_var_ref_check"@,
            FinalOpcode::PutVarRefCheck => "put_var_ref_check"@,
            FinalOpcode::PutVarRefCheckInit => "put_var_ref_check_init"@,
            FinalOpcode::CloseLoc => "close_loc"@,
            FinalOpcode::IfFalse => "if_false"@,
            FinalOpcode::IfTrue => "if_true"@,
            FinalOpcode::Goto => "goto"@,
            FinalOpcode::Catch => "catch"@,
            FinalOpcode::Gosub => "gosub"@,
            FinalOpcode::Ret => "ret"@,
            FinalOpcode::NipCatch => "nip_catch"@,
            FinalOpcode::ToObject => "to_object"@,
            FinalOpcode::ToPropKey => "to_propkey"@,
            FinalOpcode::WithGetVar => "with_get_var"@,
            FinalOpcode::WithPutVar => "with_put_var"@,
            FinalOpcode::WithDeleteVar => "with_delete_var"@,
            FinalOpcode::WithMakeRef => "with_make_ref"@,
            FinalOpcode::WithGetRef => "with_get_ref"@,
            FinalOpcode::MakeLocRef => "make_loc_ref"@,
            FinalOpcode::MakeArgRef => "make_arg_ref"@,
            FinalOpcode::MakeVarRefRef => "make_var_ref_ref"@,
            FinalOpcode::MakeVarRef => "make_var_ref"@,
            FinalOpcode::ForInStart => "for_in_start"@,
            FinalOpcode::ForOfStart => "for_of_start"@,
            FinalOpcode::ForAwaitOfStart => "for_await_of_start"@,
            FinalOpcode::ForInNext => "for_in_next"@,
            FinalOpcode::ForOfNext => "for_of_next"@,
            FinalOpcode::ForAwaitOfNext => "for_await_of_next"@,
            FinalOpcode::IteratorCheckObject => "iterator_check_object"@,
            FinalOpcode::IteratorGetValueDone => "iterator_get_value_done"@,
            FinalOpcode::IteratorClose => "iterator_close"@,
            FinalOpcode::IteratorNext => "iterator_next"@,
            FinalOpcode::IteratorCall => "iterator_call"@,
            FinalOpcode::InitialYield => "initial_yield"@,
            FinalOpcode::Yield => "yield"@,
            FinalOpcode::YieldStar => "yield_star"@,
            FinalOpcode::AsyncYieldStar => "async_yield_star"@,
            FinalOpcode::Await => "await"@,
            FinalOpcode::Neg => "neg"@,
            FinalOpcode::Plus => "plus"@,
            FinalOpcode::Dec => "dec"@,
            FinalOpcode::Inc => "inc"@,
            FinalOpcode::PostDec => "post_dec"@,
            FinalOpcode::PostInc => "post_inc"@,
            FinalOpcode::DecLoc => "dec_loc"@,
            FinalOpcode::IncLoc => "inc_loc"@,
            FinalOpcode::AddLoc => "add_loc"@,
            FinalOpcode::Not => "not"@,
            FinalOpcode::Lnot => "lnot"@,
            FinalOpcode::Typeof => "typeof"@,
            FinalOpcode::Delete => "delete"@,
            FinalOpcode::DeleteVar => "delete_var"@,
            FinalOpcode::Mul => "mul"@,
            FinalOpcode::Div => "div"@,
            FinalOpcode::Mod => "mod"@,
            FinalOpcode::Add => "add"@,
            FinalOpcode::Sub => "sub"@,
            FinalOpcode::Pow => "pow"@,
            FinalOpcode::Shl => "shl"@,
            FinalOpcode::Sar => "sar"@,
            FinalOpcode::Shr => "shr"@,
            FinalOpcode::Lt => "lt"@,
            FinalOpcode::Lte => "lte"@,
            FinalOpcode::Gt => "gt"@,
            FinalOpcode::Gte => "gte"@,
            FinalOpcode::InstanceOf => "instanceof"@,
            FinalOpcode::In => "in"@,
            FinalOpcode::Eq => "eq"@,
            FinalOpcode::Neq => "neq"@,
            FinalOpcode::StrictEq => "strict_eq"@,
            FinalOpcode::StrictNeq => "strict_neq"@,
            FinalOpcode::And => "and"@,
            FinalOpcode::Xor => "xor"@,
            FinalOpcode::Or => "or"@,
            FinalOpcode::IsUndefinedOrNull => "is_undefined_or_null"@,
            FinalOpcode::PrivateIn => "private_in"@,
            FinalOpcode::PushBigIntI32 => "push_bigint_i32"@,
            FinalOpcode::Nop => "nop"@,
            FinalOpcode::PushMinus1 => "push_minus1"@,
            FinalOpcode::Push0 => "push_0"@,
            FinalOpcode::Push1 => "push_1"@,
            FinalOpcode::Push2 => "push_2"@,
            FinalOpcode::Push3 => "push_3"@,
            FinalOpcode::Push4 => "push_4"@,
            FinalOpcode::Push5 => "push_5"@,
            FinalOpcode::Push6 => "push_6"@,
            FinalOpcode::Push7 => "push_7"@,
            FinalOpcode::PushI8 => "push_i8"@,
            FinalOpcode::PushI16 => "push_i16"@,
            FinalOpcode::PushConst8 => "push_const8"@,
            FinalOpcode::FClosure8 => "fclosure8"@,
            FinalOpcode::PushEmptyString => "push_empty_string"@,
            FinalOpcode::GetLoc8 => "get_loc8"@,
            FinalOpcode::PutLoc8 => "put_loc8"@,
            FinalOpcode::SetLoc8 => "set_loc8"@,
            FinalOpcode::GetLoc0 => "get_loc0"@,
            FinalOpcode::GetLoc1 => "get_loc1"@,
            FinalOpcode::GetLoc2 => "get_loc2"@,
            FinalOpcode::GetLoc3 => "get_loc3"@,
            FinalOpcode::PutLoc0 => "put_loc0"@,
            FinalOpcode::PutLoc1 => "put_loc1"@,
            FinalOpcode::PutLoc2 => "put_loc2"@,
            FinalOpcode::PutLoc3 => "put_loc3"@,
            FinalOpcode::SetLoc0 => "set_loc0"@,
            FinalOpcode::SetLoc1 => "set_loc1"@,
            FinalOpcode::SetLoc2 => "set_loc2"@,
            FinalOpcode::SetLoc3 => "set_loc3"@,
            FinalOpcode::GetArg0 => "get_arg0"@,
            FinalOpcode::GetArg1 => "get_arg1"@,
            FinalOpcode::GetArg2 => "get_arg2"@,
            FinalOpcode::GetArg3 => "get_arg3"@,
            FinalOpcode::PutArg0 => "put_arg0"@,
            FinalOpcode::PutArg1 => "put_arg1"@,
            FinalOpcode::PutArg2 => "put_arg2"@,
            FinalOpcode::PutArg3 => "put_arg3"@,
            FinalOpcode::SetArg0 => "set_arg0"@,
            FinalOpcode::SetArg1 => "set_arg1"@,
            FinalOpcode::SetArg2 => "set_arg2"@,
            FinalOpcode::SetArg3 => "set_arg3"@,
            FinalOpcode::GetVarRef0 => "get_var_ref0"@,
            FinalOpcode::GetVarRef1 => "get_var_ref1"@,
            FinalOpcode::GetVarRef2 => "get_var_ref2"@,
            FinalOpcode::GetVarRef3 => "get_var_ref3"@,
            FinalOpcode::PutVarRef0 => "put_var_ref0"@,
            FinalOpcode::PutVarRef1 => "put_var_ref1"@,
            FinalOpcode::PutVarRef2 => "put_var_ref2"@,
            FinalOpcode::PutVarRef3 => "put_var_ref3"@,
            FinalOpcode::SetVarRef0 => "set_var_ref0"@,
            FinalOpcode::SetVarRef1 => "set_var_ref1"@,
            FinalOpcode::SetVarRef2 => "set_var_ref2"@,
            FinalOpcode::SetVarRef3 => "set_var_ref3"@,
            FinalOpcode::GetLength => "get_length"@,
            FinalOpcode::IfFalse8 => "if_false8"@,
            FinalOpcode::IfTrue8 => "if_true8"@,
            FinalOpcode::Goto8 => "goto8"@,
            FinalOpcode::Goto16 => "goto16"@,
            FinalOpcode::Call0 => "call0"@,
            FinalOpcode::Call1 => "call1"@,
            FinalOpcode::Call2 => "call2"@,
            FinalOpcode::Call3 => "call3"@,
            FinalOpcode::IsUndefined => "is_undefined"@,
            FinalOpcode::IsNull => "is_null"@,
            FinalOpcode::TypeofIsUndefined => "typeof_is_undefined"@,
            FinalOpcode::TypeofIsFunction => "typeof_is_function"@,
        }
    }

    /// Returns the mnemonic of the opcode.
    pub fn mnemonic(self) -> (name: &'static str)
        ensures
            name@ == self.spec_mnemonic(),
    {
        match self {
            FinalOpcode::Invalid => "invalid",
            FinalOpcode::PushI32 => "push_i32",
            FinalOpcode::PushConst => "push_const",
            FinalOpcode::FClosure => "fclosure",
            FinalOpcode::PushAtomValue => "push_atom_value",
            FinalOpcode::PrivateSymbol => "private_symbol",
            FinalOpcode::Undefined => "undefined",
            FinalOpcode::Null => "null",
            FinalOpcode::PushThis => "push_this",
            FinalOpcode::PushFalse => "push_false",
            FinalOpcode::PushTrue => "push_true",
            FinalOpcode::Object => "object",
            FinalOpcode::SpecialObject => "special_object",
            FinalOpcode::Rest => "rest",
            FinalOpcode::Drop => "drop",
            FinalOpcode::Nip => "nip",
            FinalOpcode::Nip1 => "nip1",
            FinalOpcode::Dup => "dup",
            FinalOpcode::Dup1 => "dup1",
            FinalOpcode::Dup2 => "dup2",
            FinalOpcode::Dup3 => "dup3",
            FinalOpcode::Insert2 => "insert2",
            FinalOpcode::Insert3 => "insert3",
            FinalOpcode::Insert4 => "insert4",
            FinalOpcode::Perm3 => "perm3",
            FinalOpcode::Perm4 => "perm4",
            FinalOpcode::Perm5 => "perm5",
            FinalOpcode::Swap => "swap",
            FinalOpcode::Swap2 => "swap2",
            FinalOpcode::Rot3l => "rot3l",
            FinalOpcode::Rot3r => "rot3r",
            FinalOpcode::Rot4l => "rot4l",
            FinalOpcode::Rot5l => "rot5l",
            FinalOpcode::CallConstructor => "call_constructor",
            FinalOpcode::Call => "call",
            FinalOpcode::TailCall => "tail_call",
            FinalOpcode::CallMethod => "call_method",
            FinalOpcode::TailCallMethod => "tail_call_method",
            FinalOpcode::ArrayFrom => "array_from",
            FinalOpcode::Apply => "apply",
            FinalOpcode::Return => "return",
            FinalOpcode::ReturnUndef => "return_undef",
            FinalOpcode::CheckCtorReturn => "check_ctor_return",
            FinalOpcode::CheckCtor => "check_ctor",
            FinalOpcode::InitCtor => "init_ctor",
            FinalOpcode::CheckBrand => "check_brand",
            FinalOpcode::AddBrand => "add_brand",
            FinalOpcode::ReturnAsync => "return_async",
            FinalOpcode::Throw => "throw",
            FinalOpcode::ThrowError => "throw_error",
            FinalOpcode::Eval => "eval",
            FinalOpcode::ApplyEval => "apply_eval",
            FinalOpcode::RegExp => "regexp",
            FinalOpcode::GetSuper => "get_super",
            FinalOpcode::Import => "import",
            FinalOpcode::GetVarUndef => "get_var_undef",
            FinalOpcode::GetVar => "get_var",
            FinalOpcode::PutVar => "put_var",
            FinalOpcode::PutVarInit => "put_var_init",
            FinalOpcode::GetRefValue => "get_ref_value",
            FinalOpcode::PutRefValue => "put_ref_value",
            FinalOpcode::GetField => "get_field",
            FinalOpcode::GetField2 => "get_field2",
            FinalOpcode::PutField => "put_field",
            FinalOpcode::GetPrivateField => "get_private_field",
            FinalOpcode::PutPrivateField => "put_private_field",
            FinalOpcode::DefinePrivateField => "define_private_field",
            FinalOpcode::GetArrayEl => "get_array_el",
            FinalOpcode::GetArrayEl2 => "get_array_el2",
            FinalOpcode::GetArrayEl3 => "get_array_el3",
            FinalOpcode::PutArrayEl => "put_array_el",
            FinalOpcode::GetSuperValue => "get_super_value",
            FinalOpcode::PutSuperValue => "put_super_value",
            FinalOpcode::DefineField => "define_field",
            FinalOpcode::SetName => "set_name",
            FinalOpcode::SetNameComputed => "set_name_computed",
            FinalOpcode::SetProto => "set_proto",
            FinalOpcode::SetHomeObject => "set_home_object",
            FinalOpcode::DefineArrayEl => "define_array_el",
            FinalOpcode::Append => "append",
            FinalOpcode::CopyDataProperties => "copy_data_properties",
            FinalOpcode::DefineMethod => "define_method",
            FinalOpcode::DefineMethodComputed => "define_method_computed",
            FinalOpcode::DefineClass => "define_class",
            FinalOpcode::DefineClassComputed => "define_class_computed",
            FinalOpcode::GetLoc => "get_loc",
            FinalOpcode::PutLoc => "put_loc",
            FinalOpcode::SetLoc => "set_loc",
            FinalOpcode::GetArg => "get_arg",
            FinalOpcode::PutArg => "put_arg",
            FinalOpcode::SetArg => "set_arg",
            FinalOpcode::GetVarRef => "get_var_ref",
            FinalOpcode::PutVarRef => "put_var_ref",
            FinalOpcode::SetVarRef => "set_var_ref",
            FinalOpcode::SetLocUninitialized => "set_loc_uninitialized",
            FinalOpcode::GetLocCheck => "get_loc_check",
            FinalOpcode::PutLocCheck => "put_loc_check",
            FinalOpcode::SetLocCheck => "set_loc_check",
            FinalOpcode::PutLocCheckInit => "put_loc_check_init",
            FinalOpcode::GetLocCheckThis => "get_loc_checkthis",
            FinalOpcode::GetVarRefCheck => "get_var_ref_check",
            FinalOpcode::PutVarRefCheck => "put_var_ref_check",
            FinalOpcode::PutVarRefCheckInit => "put_var_ref_check_init",
            FinalOpcode::CloseLoc => "close_loc",
            FinalOpcode::IfFalse => "if_false",
            FinalOpcode::IfTrue => "if_true",
            FinalOpcode::Goto => "goto",
            FinalOpcode::Catch => "catch",
            FinalOpcode::Gosub => "gosub",
            FinalOpcode::Ret => "ret",
            FinalOpcode::NipCatch => "nip_catch",
            FinalOpcode::ToObject => "to_object",
            FinalOpcode::ToPropKey => "to_propkey",
            FinalOpcode::WithGetVar => "with_get_var",
            FinalOpcode::WithPutVar => "with_put_var",
            FinalOpcode::WithDeleteVar => "with_delete_var",
            FinalOpcode::WithMakeRef => "with_make_ref",
            FinalOpcode::WithGetRef => "with_get_ref",
            FinalOpcode::MakeLocRef => "make_loc_ref",
            FinalOpcode::MakeArgRef => "make_arg_ref",
            FinalOpcode::MakeVarRefRef => "make_var_ref_ref",
            FinalOpcode::MakeVarRef => "make_var_ref",
            FinalOpcode::ForInStart => "for_in_start",
            FinalOpcode::ForOfStart => "for_of_start",
            FinalOpcode::ForAwaitOfStart => "for_await_of_start",
            FinalOpcode::ForInNext => "for_in_next",
            FinalOpcode::ForOfNext => "for_of_next",
            FinalOpcode::ForAwaitOfNext => "for_await_of_next",
            FinalOpcode::IteratorCheckObject => "iterator_check_object",
            FinalOpcode::IteratorGetValueDone => "iterator_get_value_done",
            FinalOpcode::IteratorClose => "iterator_close",
            FinalOpcode::IteratorNext => "iterator_next",
            FinalOpcode::IteratorCall => "iterator_call",
            FinalOpcode::InitialYield => "initial_yield",
            FinalOpcode::Yield => "yield",
            FinalOpcode::YieldStar => "yield_star",
            FinalOpcode::AsyncYieldStar => "async_yield_star",
            FinalOpcode::Await => "await",
            FinalOpcode::Neg => "neg",
            FinalOpcode::Plus => "plus",
            FinalOpcode::Dec => "dec",
            FinalOpcode::Inc => "inc",
            FinalOpcode::PostDec => "post_dec",
            FinalOpcode::PostInc => "post_inc",
            FinalOpcode::DecLoc => "dec_loc",
            FinalOpcode::IncLoc => "inc_loc",
            FinalOpcode::AddLoc => "add_loc",
            FinalOpcode::Not => "not",
            FinalOpcode::Lnot => "lnot",
            FinalOpcode::Typeof => "typeof",
            FinalOpcode::Delete => "delete",
            FinalOpcode::DeleteVar => "delete_var",
            FinalOpcode::Mul => "mul",
            FinalOpcode::Div => "div",
            FinalOpcode::Mod => "mod",
            FinalOpcode::Add => "add",
            FinalOpcode::Sub => "sub",
            FinalOpcode::Pow => "pow",
            FinalOpcode::Shl => "shl",
            FinalOpcode::Sar => "sar",
            FinalOpcode::Shr => "shr",
            FinalOpcode::Lt => "lt",
            FinalOpcode::Lte => "lte",
            FinalOpcode::Gt => "gt",
            FinalOpcode::Gte => "gte",
            FinalOpcode::InstanceOf => "instanceof",
            FinalOpcode::In => "in",
            FinalOpcode::Eq => "eq",
            FinalOpcode::Neq => "neq",
            FinalOpcode::StrictEq => "strict_eq",
            FinalOpcode::StrictNeq => "strict_neq",
            FinalOpcode::And => "and",
            FinalOpcode::Xor => "xor",
            FinalOpcode::Or => "or",
            FinalOpcode::IsUndefinedOrNull => "is_undefined_or_null",
            FinalOpcode::PrivateIn => "private_in",
            FinalOpcode::PushBigIntI32 => "push_bigint_i32",
            FinalOpcode::Nop => "nop",
            FinalOpcode::PushMinus1 => "push_minus1",
            FinalOpcode::Push0 => "push_0",
            FinalOpcode::Push1 => "push_1",
            FinalOpcode::Push2 => "push_2",
            FinalOpcode::Push3 => "push_3",
            FinalOpcode::Push4 => "push_4",
            FinalOpcode::Push5 => "push_5",
            FinalOpcode::Push6 => "push_6",
            FinalOpcode::Push7 => "push_7",
            FinalOpcode::PushI8 => "push_i8",
            FinalOpcode::PushI16 => "push_i16",
            FinalOpcode::PushConst8 => "push_const8",
            FinalOpcode::FClosure8 => "fclosure8",
            FinalOpcode::PushEmptyString => "push_empty_string",
            FinalOpcode::GetLoc8 => "get_loc8",
            FinalOpcode::PutLoc8 => "put_loc8",
            FinalOpcode::SetLoc8 => "set_loc8",
            FinalOpcode::GetLoc0 => "get_loc0",
            FinalOpcode::GetLoc1 => "get_loc1",
            FinalOpcode::GetLoc2 => "get_loc2",
            FinalOpcode::GetLoc3 => "get_loc3",
            FinalOpcode::PutLoc0 => "put_loc0",
            FinalOpcode::PutLoc1 => "put_loc1",
            FinalOpcode::PutLoc2 => "put_loc2",
            FinalOpcode::PutLoc3 => "put_loc3",
            FinalOpcode::SetLoc0 => "set_loc0",
            FinalOpcode::SetLoc1 => "set_loc1",
            FinalOpcode::SetLoc2 => "set_loc2",
            FinalOpcode::SetLoc3 => "set_loc3",
            FinalOpcode::GetArg0 => "get_arg0",
            FinalOpcode::GetArg1 => "get_arg1",
            FinalOpcode::GetArg2 => "get_arg2",
            FinalOpcode::GetArg3 => "get_arg3",
            FinalOpcode::PutArg0 => "put_arg0",
            FinalOpcode::PutArg1 => "put_arg1",
            FinalOpcode::PutArg2 => "put_arg2",
            FinalOpcode::PutArg3 => "put_arg3",
            FinalOpcode::SetArg0 => "set_arg0",
            FinalOpcode::SetArg1 => "set_arg1",
            FinalOpcode::SetArg2 => "set_arg2",
            FinalOpcode::SetArg3 => "set_arg3",
            FinalOpcode::GetVarRef0 => "get_var_ref0",
            FinalOpcode::GetVarRef1 => "get_var_ref1",
            FinalOpcode::GetVarRef2 => "get_var_ref2",
            FinalOpcode::GetVarRef3 => "get_var_ref3",
            FinalOpcode::PutVarRef0 => "put_var_ref0",
            FinalOpcode::PutVarRef1 => "put_var_ref1",
            FinalOpcode::PutVarRef2 => "put_var_ref2",
            FinalOpcode::PutVarRef3 => "put_var_ref3",
            FinalOpcode::SetVarRef0 => "set_var_ref0",
            FinalOpcode::SetVarRef1 => "set_var_ref1",
            FinalOpcode::SetVarRef2 => "set_var_ref2",
            FinalOpcode::SetVarRef3 => "set_var_ref3",
            FinalOpcode::GetLength => "get_length",
            FinalOpcode::IfFalse8 => "if_false8",
            FinalOpcode::IfTrue8 => "if_true8",
            FinalOpcode::Goto8 => "goto8",
            FinalOpcode::Goto16 => "goto16",
            FinalOpcode::Call0 => "call0",
            FinalOpcode::Call1 => "call1",
            FinalOpcode::Call2 => "call2",
            FinalOpcode::Call3 => "call3",
            FinalOpcode::IsUndefined => "is_undefined",
            FinalOpcode::IsNull => "is_null",
            FinalOpcode::TypeofIsUndefined => "typeof_is_undefined",
            FinalOpcode::TypeofIsFunction => "typeof_is_function",
        }
    }
}

/// Returns every opcode, ordered by encoded byte.
pub fn all_final_opcodes() -> (opcodes: Vec<FinalOpcode>)
    ensures
        opcodes@.len() == FINAL_OPCODE_COUNT,
        forall|i: int|
            0 <= i < opcodes@.len() ==> (#[trigger] opcodes@[i]).spec_encoded_byte() == i,
        forall|opcode: FinalOpcode| #[trigger] opcodes@.contains(opcode),
{
    let mut opcodes: Vec<FinalOpcode> = Vec::new();
    let mut byte: u8 = 0;
    while byte < FINAL_OPCODE_COUNT
        invariant
            byte <= FINAL_OPCODE_COUNT,
            opcodes@.len() == byte,
            forall|i: int|
                0 <= i < opcodes@.len() ==> FinalOpcode::spec_with_byte(i as u8) == Some(
                    #[trigger] opcodes@[i],
                ),
        decreases FINAL_OPCODE_COUNT - byte,
    {
        proof {
            lemma_assigned_bytes(byte);
        }
        if let Some(opcode) = FinalOpcode::with_byte(byte) {
            opcodes.push(opcode);
        }
        byte = byte + 1;
    }
    proof {
        assert forall|i: int| 0 <= i < opcodes@.len() implies (
        #[trigger] opcodes@[i]).spec_encoded_byte() == i by {
            lemma_byte_identifies_opcode(i as u8);
        }
        assert forall|opcode: FinalOpcode| #[trigger] opcodes@.contains(opcode) by {
            lemma_opcode_byte_round_trip(opcode);
            let i = opcode.spec_encoded_byte() as int;
            assert(opcodes@[i] == opcode);
        }
    }
    opcodes
}

/// Exactly the bytes below [`FINAL_OPCODE_COUNT`] name an opcode.
pub proof fn lemma_assigned_bytes(byte: u8)
    ensures
        FinalOpcode::spec_with_byte(byte).is_some() <==> byte < FINAL_OPCODE_COUNT,
{
}

/// A byte that names an opcode is that opcode's encoded byte.
pub proof fn lemma_byte_identifies_opcode(byte: u8)
    ensures
        match FinalOpcode::spec_with_byte(byte) {
            Some(opcode) => opcode.spec_encoded_byte() == byte,
            None => true,
        },
{
}

/// The encoded byte of an opcode names that opcode, so encoded bytes are
/// distinct; decoding gives the opcode back unless it is the reserved one.
pub proof fn lemma_opcode_byte_round_trip(opcode: FinalOpcode)
    ensures
        FinalOpcode::spec_with_byte(opcode.spec_encoded_byte()) == Some(opcode),
        opcode.spec_encoded_byte() < FINAL_OPCODE_COUNT,
        opcode != FinalOpcode::Invalid ==> FinalOpcode::spec_decode(opcode.spec_encoded_byte())
            == Ok::<FinalOpcode, FinalOpcodeDecodeError>(opcode),
{
}

} // verus!
