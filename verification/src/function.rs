//! Execution metadata of one function: packed flags, mode and kind.
use vstd::prelude::*;

verus! {

/// Bits that a stored function-flags field may hold.
pub const SERIALIZED_FUNCTION_FLAGS_MASK: u16 = 0x1fff;

/// Bits that a stored mode field may hold.
pub const JS_MODE_MASK: u8 = 0x01;

/// A stored bit field of a function header.
#[derive(Clone, Copy, Debug, PartialEq, Eq, Hash, Structural)]
pub enum FunctionBitField {
    /// Packed function flags.
    SerializedFlags,
    /// Packed mode bits.
    JsMode,
}

/// A packed function flag named by an error.
#[derive(Clone, Copy, Debug, PartialEq, Eq, Hash, Structural)]
pub enum FunctionHeaderFlag {
    /// The function owns a `prototype` property.
    HasPrototype,
    /// The function is the constructor of a derived class.
    DerivedClassConstructor,
}

/// Kind of a function.
#[derive(Clone, Copy, Debug, PartialEq, Eq, Hash, Structural)]
pub enum FunctionKind {
    /// Neither generator nor async.
    Normal,
    /// Synchronous generator.
    Generator,
    /// Async function.
    Async,
    /// Async generator.
    AsyncGenerator,
}

impl FunctionKind {
    /// Kind stored in bits four and five of the packed flags.
    pub open spec fn spec_from_serialized_flags(flags: u16) -> FunctionKind {
        if flags & 0x30 == 0x00 {
            FunctionKind::Normal
        } else if flags & 0x30 == 0x10 {
            FunctionKind::Generator
        } else if flags & 0x30 == 0x20 {
            FunctionKind::Async
        } else {
            FunctionKind::AsyncGenerator
        }
    }

    /// Reads the kind from the packed flags.
    pub fn from_serialized_flags(flags: u16) -> (kind: FunctionKind)
        ensures
            kind == Self::spec_from_serialized_flags(flags),
    {
        let bits: u16 = flags & 0x30;
        if bits == 0x00 {
            FunctionKind::Normal
        } else if bits == 0x10 {
            FunctionKind::Generator
        } else if bits == 0x20 {
            FunctionKind::Async
        } else {
            FunctionKind::AsyncGenerator
        }
    }
}

/// A family of function kinds that an opcode or a flag requires.
#[derive(Clone, Copy, Debug, PartialEq, Eq, Hash, Structural)]
pub enum FunctionKindRequirement {
    /// Only a normal function.
    Normal,
    /// Any generator.
    Generator,
    /// Only a synchronous generator.
    SynchronousGenerator,
    /// Only an async generator.
    AsyncGenerator,
    /// Any async function or async generator.
    Async,
    /// Anything but a normal function.
    NonNormal,
}

impl FunctionKindRequirement {
    /// Whether `kind` belongs to the required family.
    pub open spec fn spec_accepts(self, kind: FunctionKind) -> bool {
        match self {
            FunctionKindRequirement::Normal => kind == FunctionKind::Normal,
            FunctionKindRequirement::Generator => kind == FunctionKind::Generator || kind
                == FunctionKind::AsyncGenerator,
            FunctionKindRequirement::SynchronousGenerator => kind == FunctionKind::Generator,
            FunctionKindRequirement::AsyncGenerator => kind == FunctionKind::AsyncGenerator,
            FunctionKindRequirement::Async => kind == FunctionKind::Async || kind
                == FunctionKind::AsyncGenerator,
            FunctionKindRequirement::NonNormal => kind != FunctionKind::Normal,
        }
    }

    /// Returns whether `kind` belongs to the required family.
    #[verifier::when_used_as_spec(spec_accepts)]
    pub fn accepts(self, kind: FunctionKind) -> (accepted: bool)
        ensures
            accepted == self.spec_accepts(kind),
    {
        match self {
            FunctionKindRequirement::Normal => matches!(kind, FunctionKind::Normal),
            FunctionKindRequirement::Generator => matches!(
                kind,
                FunctionKind::Generator | FunctionKind::AsyncGenerator
            ),
            FunctionKindRequirement::SynchronousGenerator => matches!(
                kind,
                FunctionKind::Generator
            ),
            FunctionKindRequirement::AsyncGenerator => matches!(kind, FunctionKind::AsyncGenerator),
            FunctionKindRequirement::Async => matches!(
                kind,
                FunctionKind::Async | FunctionKind::AsyncGenerator
            ),
            FunctionKindRequirement::NonNormal => !matches!(kind, FunctionKind::Normal),
        }
    }
}

/// Packed function flags.
#[derive(Clone, Copy, Debug, PartialEq, Eq, Hash, Structural)]
pub struct FunctionHeaderFlags(pub u16);

impl FunctionHeaderFlags {
    /// Wraps flag bits that hold nothing outside the stored mask.
    pub fn from_validated_bits(bits: u16) -> (flags: Self)
        ensures
            flags == FunctionHeaderFlags(bits),
    {
        FunctionHeaderFlags(bits)
    }

    /// Returns the packed bits.
    pub fn bits(self) -> (bits: u16)
        ensures
            bits == self.0,
    {
        self.0
    }

    /// Whether the function owns a `prototype` property.
    pub open spec fn spec_has_prototype(self) -> bool {
        self.0 & 0x0001 != 0
    }

    /// Returns whether the function owns a `prototype` property.
    #[verifier::when_used_as_spec(spec_has_prototype)]
    pub fn has_prototype(self) -> (set: bool)
        ensures
            set == self.spec_has_prototype(),
    {
        self.0 & 0x0001 != 0
    }

    /// Whether every parameter is a plain identifier.
    pub open spec fn spec_has_simple_parameter_list(self) -> bool {
        self.0 & 0x0002 != 0
    }

    /// Returns whether every parameter is a plain identifier.
    #[verifier::when_used_as_spec(spec_has_simple_parameter_list)]
    pub fn has_simple_parameter_list(self) -> (set: bool)
        ensures
            set == self.spec_has_simple_parameter_list(),
    {
        self.0 & 0x0002 != 0
    }

    /// Whether the function is the constructor of a derived class.
    pub open spec fn spec_is_derived_class_constructor(self) -> bool {
        self.0 & 0x0004 != 0
    }

    /// Returns whether the function is the constructor of a derived class.
    #[verifier::when_used_as_spec(spec_is_derived_class_constructor)]
    pub fn is_derived_class_constructor(self) -> (set: bool)
        ensures
            set == self.spec_is_derived_class_constructor(),
    {
        self.0 & 0x0004 != 0
    }

    /// Whether `new.target` may be read.
    pub open spec fn spec_new_target_allowed(self) -> bool {
        self.0 & 0x0040 != 0
    }

    /// Returns whether `new.target` may be read.
    #[verifier::when_used_as_spec(spec_new_target_allowed)]
    pub fn new_target_allowed(self) -> (set: bool)
        ensures
            set == self.spec_new_target_allowed(),
    {
        self.0 & 0x0040 != 0
    }

    /// Whether `super(..)` may be called.
    pub open spec fn spec_super_call_allowed(self) -> bool {
        self.0 & 0x0080 != 0
    }

    /// Returns whether `super(..)` may be called.
    #[verifier::when_used_as_spec(spec_super_call_allowed)]
    pub fn super_call_allowed(self) -> (set: bool)
        ensures
            set == self.spec_super_call_allowed(),
    {
        self.0 & 0x0080 != 0
    }

    /// Whether `super` properties may be used.
    pub open spec fn spec_super_allowed(self) -> bool {
        self.0 & 0x0100 != 0
    }

    /// Returns whether `super` properties may be used.
    #[verifier::when_used_as_spec(spec_super_allowed)]
    pub fn super_allowed(self) -> (set: bool)
        ensures
            set == self.spec_super_allowed(),
    {
        self.0 & 0x0100 != 0
    }

    /// Whether a direct eval runs where a class has instance elements.
    pub open spec fn spec_direct_eval_has_instance_elements(self) -> bool {
        self.0 & 0x1000 != 0
    }

    /// Returns whether a direct eval runs where a class has instance elements.
    #[verifier::when_used_as_spec(spec_direct_eval_has_instance_elements)]
    pub fn direct_eval_has_instance_elements(self) -> (set: bool)
        ensures
            set == self.spec_direct_eval_has_instance_elements(),
    {
        self.0 & 0x1000 != 0
    }
}

/// Packed mode bits.
#[derive(Clone, Copy, Debug, PartialEq, Eq, Hash, Structural)]
pub struct FunctionMode(pub u8);

impl FunctionMode {
    /// Wraps mode bits that hold nothing outside the stored mask.
    pub fn from_validated_bits(bits: u8) -> (mode: Self)
        ensures
            mode == FunctionMode(bits),
    {
        FunctionMode(bits)
    }

    /// Returns the packed bits.
    pub fn bits(self) -> (bits: u8)
        ensures
            bits == self.0,
    {
        self.0
    }

    /// Whether the function is strict-mode code.
    pub open spec fn spec_is_strict(self) -> bool {
        self.0 & 0x01 != 0
    }

    /// Returns whether the function is strict-mode code.
    #[verifier::when_used_as_spec(spec_is_strict)]
    pub fn is_strict(self) -> (strict: bool)
        ensures
            strict == self.spec_is_strict(),
    {
        self.0 & 0x01 != 0
    }
}

/// Function execution metadata that has not been verified.
#[derive(Clone, Copy, Debug, PartialEq, Eq, Hash, Structural)]
pub struct UnverifiedFunctionHeader {
    /// Stored function flags.
    pub serialized_flags: u16,
    /// Stored mode bits.
    pub js_mode: u8,
    /// Number of source-defined arguments.
    pub defined_argument_count: u32,
    /// Number of function-owned variable-reference cells.
    pub variable_reference_count: u32,
}

impl UnverifiedFunctionHeader {
    /// Creates an unverified header.
    pub fn new(
        serialized_flags: u16,
        js_mode: u8,
        defined_argument_count: u32,
        variable_reference_count: u32,
    ) -> (header: Self)
        ensures
            header == (UnverifiedFunctionHeader {
                serialized_flags,
                js_mode,
                defined_argument_count,
                variable_reference_count,
            }),
    {
        UnverifiedFunctionHeader {
            serialized_flags,
            js_mode,
            defined_argument_count,
            variable_reference_count,
        }
    }
}

/// Validated function execution metadata.
#[derive(Clone, Copy, Debug, PartialEq, Eq, Hash, Structural)]
pub struct VerifiedFunctionHeader {
    /// Packed function flags.
    pub flags: FunctionHeaderFlags,
    /// Packed mode bits.
    pub mode: FunctionMode,
    /// Function kind held by the flags.
    pub kind: FunctionKind,
    /// Number of source-defined arguments.
    pub defined_argument_count: u32,
    /// Number of function-owned variable-reference cells.
    pub variable_reference_count: u32,
}

impl VerifiedFunctionHeader {
    /// Returns the packed function flags.
    pub fn flags(&self) -> (flags: FunctionHeaderFlags)
        ensures
            flags == self.flags,
    {
        self.flags
    }

    /// Returns the packed mode bits.
    pub fn mode(&self) -> (mode: FunctionMode)
        ensures
            mode == self.mode,
    {
        self.mode
    }

    /// Returns the function kind.
    pub fn kind(&self) -> (kind: FunctionKind)
        ensures
            kind == self.kind,
    {
        self.kind
    }

    /// Returns the number of source-defined arguments.
    pub fn defined_argument_count(&self) -> (count: u32)
        ensures
            count == self.defined_argument_count,
    {
        self.defined_argument_count
    }

    /// Returns the number of function-owned variable-reference cells.
    pub fn variable_reference_count(&self) -> (count: u32)
        ensures
            count == self.variable_reference_count,
    {
        self.variable_reference_count
    }
}

} // verus!
