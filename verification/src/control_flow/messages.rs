//! Messages of control-flow verification failures.
use crate::control_flow::error::{VerificationError, VerificationErrorKind};
use crate::control_flow::model::CompilerCapturedBinding;
use crate::function::{
    FunctionBitField, FunctionHeaderFlag, FunctionKind, FunctionKindRequirement,
};
use crate::instruction::{DecodeError, StackEffectError};
use crate::text::{
    append_decimal, append_hexadecimal, append_signed, decimal, hexadecimal, signed_decimal,
};
use vstd::prelude::*;
use vstd::string::StringExecFns;

verus! {

impl FunctionBitField {
    /// Words that name the field in messages.
    pub open spec fn spec_label(self) -> Seq<char> {
        match self {
            FunctionBitField::SerializedFlags => "function-flags"@,
            FunctionBitField::JsMode => "function-mode"@,
        }
    }

    /// Returns the words that name the field in messages.
    pub fn label(self) -> (label: &'static str)
        ensures
            label@ == self.spec_label(),
    {
        match self {
            FunctionBitField::SerializedFlags => "function-flags",
            FunctionBitField::JsMode => "function-mode",
        }
    }
}

impl FunctionHeaderFlag {
    /// Words that name the flag in messages.
    pub open spec fn spec_label(self) -> Seq<char> {
        match self {
            FunctionHeaderFlag::HasPrototype => "has-prototype"@,
            FunctionHeaderFlag::DerivedClassConstructor => "derived-class-constructor"@,
        }
    }

    /// Returns the words that name the flag in messages.
    pub fn label(self) -> (label: &'static str)
        ensures
            label@ == self.spec_label(),
    {
        match self {
            FunctionHeaderFlag::HasPrototype => "has-prototype",
            FunctionHeaderFlag::DerivedClassConstructor => "derived-class-constructor",
        }
    }
}

impl FunctionKind {
    /// Words that name the kind in messages.
    pub open spec fn spec_label(self) -> Seq<char> {
        match self {
            FunctionKind::Normal => "normal"@,
            FunctionKind::Generator => "generator"@,
            FunctionKind::Async => "async"@,
            FunctionKind::AsyncGenerator => "async-generator"@,
        }
    }

    /// Returns the words that name the kind in messages.
    pub fn label(self) -> (label: &'static str)
        ensures
            label@ == self.spec_label(),
    {
        match self {
            FunctionKind::Normal => "normal",
            FunctionKind::Generator => "generator",
            FunctionKind::Async => "async",
            FunctionKind::AsyncGenerator => "async-generator",
        }
    }
}

impl FunctionKindRequirement {
    /// Words that name the family in messages.
    pub open spec fn spec_label(self) -> Seq<char> {
        match self {
            FunctionKindRequirement::Normal => "a normal function"@,
            FunctionKindRequirement::Generator => "a generator"@,
            FunctionKindRequirement::SynchronousGenerator => "a synchronous generator"@,
            FunctionKindRequirement::AsyncGenerator => "an async generator"@,
            FunctionKindRequirement::Async => "an async function"@,
            FunctionKindRequirement::NonNormal => "a generator or async function"@,
        }
    }

    /// Returns the words that name the family in messages.
    pub fn label(self) -> (label: &'static str)
        ensures
            label@ == self.spec_label(),
    {
        match self {
            FunctionKindRequirement::Normal => "a normal function",
            FunctionKindRequirement::Generator => "a generator",
            FunctionKindRequirement::SynchronousGenerator => "a synchronous generator",
            FunctionKindRequirement::AsyncGenerator => "an async generator",
            FunctionKindRequirement::Async => "an async function",
            FunctionKindRequirement::NonNormal => "a generator or async function",
        }
    }
}

impl CompilerCapturedBinding {
    /// The message: the frame slot that the binding occupies.
    pub open spec fn spec_message(&self) -> Seq<char> {
        match *self {
            CompilerCapturedBinding::Argument(index) => "argument "@
                + decimal(index as nat),
            CompilerCapturedBinding::FunctionLocal(index) => "function local "@
                + decimal(index as nat),
            CompilerCapturedBinding::ScopedLocal(index) => "scoped local "@
                + decimal(index as nat),
        }
    }

    /// Returns the message.
    pub fn message(&self) -> (text: String)
        ensures
            text@ == self.spec_message(),
    {
        let mut text = String::new();
        match *self {
            CompilerCapturedBinding::Argument(index) => {
                text.append("argument ");
                append_decimal(&mut text, index as u64);
            },
            CompilerCapturedBinding::FunctionLocal(index) => {
                text.append("function local ");
                append_decimal(&mut text, index as u64);
            },
            CompilerCapturedBinding::ScopedLocal(index) => {
                text.append("scoped local ");
                append_decimal(&mut text, index as u64);
            },
        }
        assert(text@ =~= self.spec_message());
        text
    }
}

impl StackEffectError {
    /// The message: what the instruction lacks.
    pub open spec fn spec_message(&self) -> Seq<char> {
        match *self {
            StackEffectError::MissingArgumentCount { opcode } => opcode.spec_mnemonic()
                + " lacks its argument count"@,
        }
    }

    /// Returns the message.
    pub fn message(&self) -> (text: String)
        ensures
            text@ == self.spec_message(),
    {
        let mut text = String::new();
        match *self {
            StackEffectError::MissingArgumentCount { opcode } => {
                text.append(opcode.mnemonic());
                text.append(" lacks its argument count");
            },
        }
        assert(text@ =~= self.spec_message());
        text
    }
}

impl DecodeError {
    /// The message: where and why decoding stopped.
    pub open spec fn spec_message(&self) -> Seq<char> {
        match *self {
            DecodeError::PcNotRepresentable { pc } => "PC "@
                + decimal(pc.0 as nat)
                + " does not fit the host's address width"@,
            DecodeError::PcOutOfBounds { pc, bytecode_len } => "PC "@
                + decimal(pc.0 as nat)
                + " is outside bytecode length "@
                + decimal(bytecode_len as nat),
            DecodeError::MissingOpcode { pc, bytecode_len } => "opcode missing at PC "@
                + decimal(pc.0 as nat)
                + " for bytecode length "@
                + decimal(bytecode_len as nat),
            DecodeError::InvalidOpcode { pc, opcode_byte, .. } => "invalid opcode byte "@
                + decimal(opcode_byte as nat)
                + " at PC "@
                + decimal(pc.0 as nat),
            DecodeError::NextPcOverflow { pc, encoded_len } => "PC "@
                + decimal(pc.0 as nat)
                + " plus encoded length "@
                + decimal(encoded_len as nat)
                + " overflows"@,
            DecodeError::TruncatedOperands { pc, opcode, required, available } => "operands of "@
                + opcode.spec_mnemonic()
                + " at PC "@
                + decimal(pc.0 as nat)
                + " require "@
                + decimal(required as nat)
                + " bytes, "@
                + decimal(available as nat)
                + " available"@,
            DecodeError::OperandDecoding { pc, opcode } => "malformed operands of "@
                + opcode.spec_mnemonic()
                + " at PC "@
                + decimal(pc.0 as nat),
        }
    }

    /// Returns the message.
    pub fn message(&self) -> (text: String)
        ensures
            text@ == self.spec_message(),
    {
        let mut text = String::new();
        match *self {
            DecodeError::PcNotRepresentable { pc } => {
                text.append("PC ");
                append_decimal(&mut text, pc.0 as u64);
                text.append(" does not fit the host's address width");
            },
            DecodeError::PcOutOfBounds { pc, bytecode_len } => {
                text.append("PC ");
                append_decimal(&mut text, pc.0 as u64);
                text.append(" is outside bytecode length ");
                append_decimal(&mut text, bytecode_len as u64);
            },
            DecodeError::MissingOpcode { pc, bytecode_len } => {
                text.append("opcode missing at PC ");
                append_decimal(&mut text, pc.0 as u64);
                text.append(" for bytecode length ");
                append_decimal(&mut text, bytecode_len as u64);
            },
            DecodeError::InvalidOpcode { pc, opcode_byte, .. } => {
                text.append("invalid opcode byte ");
                append_decimal(&mut text, opcode_byte as u64);
                text.append(" at PC ");
                append_decimal(&mut text, pc.0 as u64);
            },
            DecodeError::NextPcOverflow { pc, encoded_len } => {
                text.append("PC ");
                append_decimal(&mut text, pc.0 as u64);
                text.append(" plus encoded length ");
                append_decimal(&mut text, encoded_len as u64);
                text.append(" overflows");
            },
            DecodeError::TruncatedOperands { pc, opcode, required, available } => {
                text.append("operands of ");
                text.append(opcode.mnemonic());
                text.append(" at PC ");
                append_decimal(&mut text, pc.0 as u64);
                text.append(" require ");
                append_decimal(&mut text, required as u64);
                text.append(" bytes, ");
                append_decimal(&mut text, available as u64);
                text.append(" available");
            },
            DecodeError::OperandDecoding { pc, opcode } => {
                text.append("malformed operands of ");
                text.append(opcode.mnemonic());
                text.append(" at PC ");
                append_decimal(&mut text, pc.0 as u64);
            },
        }
        assert(text@ =~= self.spec_message());
        text
    }
}

impl VerificationErrorKind {
    /// The message: the violated rule with the values that violate it.
    pub open spec fn spec_message(&self) -> Seq<char> {
        match *self {
            VerificationErrorKind::EmptyBytecode => "the bytecode stream is empty"@,
            VerificationErrorKind::LimitExceeded { resource, limit, observed } => resource.spec_label()
                + " limit "@
                + decimal(limit as nat)
                + " exceeded by observed value "@
                + decimal(observed as nat),
            VerificationErrorKind::AllocationFailed { resource, requested } => "cannot reserve "@
                + decimal(requested as nat)
                + " additional "@
                + resource.spec_label(),
            VerificationErrorKind::MetadataCountOutOfRange { domain, value, maximum } => domain.spec_label()
                + " count "@
                + decimal(value as nat)
                + " exceeds structural maximum "@
                + decimal(maximum as nat),
            VerificationErrorKind::DisallowedFunctionBits { field, value, allowed_mask, disallowed_bits } => field.spec_label()
                + " value "@
                + hexadecimal(value)
                + " contains disallowed bits "@
                + hexadecimal(disallowed_bits)
                + "; allowed mask is "@
                + hexadecimal(allowed_mask),
            VerificationErrorKind::DefinedArgumentCountOutOfRange { defined, argument_count } => "defined argument count "@
                + decimal(defined as nat)
                + " exceeds function argument count "@
                + decimal(argument_count as nat),
            VerificationErrorKind::VariableReferenceCountOutOfRange { variable_references, argument_count, local_count } => "variable-reference count "@
                + decimal(variable_references as nat)
                + " exceeds "@
                + decimal(argument_count as nat)
                + " arguments plus "@
                + decimal(local_count as nat)
                + " locals"@,
            VerificationErrorKind::CompilerCaptureCountMismatch { variable_references, captures } => "compiler capture count "@
                + decimal(captures as nat)
                + " does not equal declared variable-reference count "@
                + decimal(variable_references as nat),
            VerificationErrorKind::MissingCompilerCaptureLayout { variable_references } => "compiler function declares "@
                + decimal(variable_references as nat)
                + " variable-reference cells without a capture layout"@,
            VerificationErrorKind::CompilerConstantCountMismatch { declared, entries } => "compiler constant-layout count "@
                + decimal(entries as nat)
                + " does not equal declared constant-pool length "@
                + decimal(declared as nat),
            VerificationErrorKind::MissingCompilerConstantLayout { constants } => "compiler function declares "@
                + decimal(constants as nat)
                + " constants without a constant-pool type layout"@,
            VerificationErrorKind::CompilerConstantKindMismatch { index, expected, actual } => "compiler constant "@
                + decimal(index as nat)
                + " has kind "@
                + actual.spec_label()
                + ", but the opcode requires "@
                + expected.spec_label(),
            VerificationErrorKind::CompilerCaptureIndexOutOfBounds { binding, len } => "compiler capture "@
                + binding.spec_message()
                + " is outside its frame domain length "@
                + decimal(len as nat),
            VerificationErrorKind::DuplicateCompilerCapture { binding } => "compiler capture "@
                + binding.spec_message()
                + " names a duplicate frame binding"@,
            VerificationErrorKind::CompilerMappedArgumentIndexOutOfBounds { index, len } => "mapped arguments position "@
                + decimal(index as nat)
                + " is outside argument domain length "@
                + decimal(len as nat),
            VerificationErrorKind::CompilerMappedArgumentsNotAscending { previous, index } => "mapped arguments positions are not strictly ascending at "@
                + decimal(previous as nat)
                + ", "@
                + decimal(index as nat),
            VerificationErrorKind::CloseLocRequiresScopedCapture { local } => "close_loc local "@
                + decimal(local as nat)
                + " is not an explicitly scoped compiler capture"@,
            VerificationErrorKind::FunctionFlagNotAllowedForKind { flag, kind, requirement } => "function flag "@
                + flag.spec_label()
                + " requires "@
                + requirement.spec_label()
                + ", but the decoded function kind is "@
                + kind.spec_label(),
            VerificationErrorKind::ConflictingFunctionFlags { first, second } => "function flags "@
                + first.spec_label()
                + " and "@
                + second.spec_label()
                + " conflict"@,
            VerificationErrorKind::InvalidStackLimit { value, maximum } => "configured stack-depth limit "@
                + decimal(value as nat)
                + " exceeds structural maximum "@
                + decimal(maximum as nat),
            VerificationErrorKind::Decode(source) => "cannot predecode bytecode: "@
                + source.spec_message(),
            VerificationErrorKind::IndexOutOfBounds { domain, index, len } => domain.spec_label()
                + " index "@
                + decimal(index as nat)
                + " is outside domain length "@
                + decimal(len as nat),
            VerificationErrorKind::InvalidSecondaryOperand { field, value } => "invalid "@
                + field.spec_label()
                + " value "@
                + decimal(value as nat),
            VerificationErrorKind::ControlFlowTargetOverflow { edge, base, displacement } => edge.spec_label()
                + " target base "@
                + signed_decimal(base as int)
                + " plus displacement "@
                + signed_decimal(displacement as int)
                + " overflows i64"@,
            VerificationErrorKind::InvalidControlFlowTarget { edge, target, bytecode_len, reason } => "invalid "@
                + edge.spec_label()
                + " target "@
                + signed_decimal(target as int)
                + " for bytecode length "@
                + decimal(bytecode_len as nat)
                + ": "@
                + reason.spec_label(),
            VerificationErrorKind::MissingControlFlowOperand { expected } => "control-flow opcode is missing operand format "@
                + expected.spec_upstream_name(),
            VerificationErrorKind::UnsupportedOpcodeSemantics { feature } => "opcode requires unsupported verifier feature "@
                + feature.spec_label(),
            VerificationErrorKind::OpcodeNotAllowedForFunctionKind { kind, requirement } => "opcode requires "@
                + requirement.spec_label()
                + ", but the enclosing function kind is "@
                + kind.spec_label(),
            VerificationErrorKind::StackEffect(source) => "cannot resolve instruction stack effect: "@
                + source.spec_message(),
            VerificationErrorKind::StackUnderflow { required, available } => "stack underflow: instruction requires "@
                + decimal(required as nat)
                + " values, "@
                + decimal(available as nat)
                + " available"@,
            VerificationErrorKind::StackLimitExceeded { depth, limit } => "computed stack depth "@
                + decimal(depth as nat)
                + " exceeds configured limit "@
                + decimal(limit as nat),
            VerificationErrorKind::InconsistentStackAtJoin { target, established_depth, incoming_depth, incoming_from } => "inconsistent stack depth at PC "@
                + decimal(target.0 as nat)
                + ": established "@
                + decimal(established_depth as nat)
                + ", incoming "@
                + decimal(incoming_depth as nat)
                + " from PC "@
                + decimal(incoming_from.0 as nat),
            VerificationErrorKind::NonEmptyCompilerExitStack { remaining } => "compiler-generated terminal leaves "@
                + decimal(remaining as nat)
                + " ordinary stack values"@,
            VerificationErrorKind::SerializedStackSizeMismatch { serialized, computed } => "serialized stack size "@
                + decimal(serialized as nat)
                + " does not equal computed size "@
                + decimal(computed as nat),
        }
    }

    /// Returns the message.
    pub fn message(&self) -> (text: String)
        ensures
            text@ == self.spec_message(),
    {
        let mut text = String::new();
        match *self {
            VerificationErrorKind::EmptyBytecode => {
                text.append("the bytecode stream is empty");
            },
            VerificationErrorKind::LimitExceeded { resource, limit, observed } => {
                text.append(resource.label());
                text.append(" limit ");
                append_decimal(&mut text, limit);
                text.append(" exceeded by observed value ");
                append_decimal(&mut text, observed);
            },
            VerificationErrorKind::AllocationFailed { resource, requested } => {
                text.append("cannot reserve ");
                append_decimal(&mut text, requested);
                text.append(" additional ");
                text.append(resource.label());
            },
            VerificationErrorKind::MetadataCountOutOfRange { domain, value, maximum } => {
                text.append(domain.label());
                text.append(" count ");
                append_decimal(&mut text, value as u64);
                text.append(" exceeds structural maximum ");
                append_decimal(&mut text, maximum as u64);
            },
            VerificationErrorKind::DisallowedFunctionBits { field, value, allowed_mask, disallowed_bits } => {
                text.append(field.label());
                text.append(" value ");
                append_hexadecimal(&mut text, value);
                text.append(" contains disallowed bits ");
                append_hexadecimal(&mut text, disallowed_bits);
                text.append("; allowed mask is ");
                append_hexadecimal(&mut text, allowed_mask);
            },
            VerificationErrorKind::DefinedArgumentCountOutOfRange { defined, argument_count } => {
                text.append("defined argument count ");
                append_decimal(&mut text, defined as u64);
                text.append(" exceeds function argument count ");
                append_decimal(&mut text, argument_count as u64);
            },
            VerificationErrorKind::VariableReferenceCountOutOfRange { variable_references, argument_count, local_count } => {
                text.append("variable-reference count ");
                append_decimal(&mut text, variable_references as u64);
                text.append(" exceeds ");
                append_decimal(&mut text, argument_count as u64);
                text.append(" arguments plus ");
                append_decimal(&mut text, local_count as u64);
                text.append(" locals");
            },
            VerificationErrorKind::CompilerCaptureCountMismatch { variable_references, captures } => {
                text.append("compiler capture count ");
                append_decimal(&mut text, captures);
                text.append(" does not equal declared variable-reference count ");
                append_decimal(&mut text, variable_references as u64);
            },
            VerificationErrorKind::MissingCompilerCaptureLayout { variable_references } => {
                text.append("compiler function declares ");
                append_decimal(&mut text, variable_references as u64);
                text.append(" variable-reference cells without a capture layout");
            },
            VerificationErrorKind::CompilerConstantCountMismatch { declared, entries } => {
                text.append("compiler constant-layout count ");
                append_decimal(&mut text, entries);
                text.append(" does not equal declared constant-pool length ");
                append_decimal(&mut text, declared as u64);
            },
            VerificationErrorKind::MissingCompilerConstantLayout { constants } => {
                text.append("compiler function declares ");
                append_decimal(&mut text, constants as u64);
                text.append(" constants without a constant-pool type layout");
            },
            VerificationErrorKind::CompilerConstantKindMismatch { index, expected, actual } => {
                text.append("compiler constant ");
                append_decimal(&mut text, index as u64);
                text.append(" has kind ");
                text.append(actual.label());
                text.append(", but the opcode requires ");
                text.append(expected.label());
            },
            VerificationErrorKind::CompilerCaptureIndexOutOfBounds { binding, len } => {
                text.append("compiler capture ");
                text.append(&binding.message());
                text.append(" is outside its frame domain length ");
                append_decimal(&mut text, len as u64);
            },
            VerificationErrorKind::DuplicateCompilerCapture { binding } => {
                text.append("compiler capture ");
                text.append(&binding.message());
                text.append(" names a duplicate frame binding");
            },
            VerificationErrorKind::CompilerMappedArgumentIndexOutOfBounds { index, len } => {
                text.append("mapped arguments position ");
                append_decimal(&mut text, index as u64);
                text.append(" is outside argument domain length ");
                append_decimal(&mut text, len as u64);
            },
            VerificationErrorKind::CompilerMappedArgumentsNotAscending { previous, index } => {
                text.append("mapped arguments positions are not strictly ascending at ");
                append_decimal(&mut text, previous as u64);
                text.append(", ");
                append_decimal(&mut text, index as u64);
            },
            VerificationErrorKind::CloseLocRequiresScopedCapture { local } => {
                text.append("close_loc local ");
                append_decimal(&mut text, local as u64);
                text.append(" is not an explicitly scoped compiler capture");
            },
            VerificationErrorKind::FunctionFlagNotAllowedForKind { flag, kind, requirement } => {
                text.append("function flag ");
                text.append(flag.label());
                text.append(" requires ");
                text.append(requirement.label());
                text.append(", but the decoded function kind is ");
                text.append(kind.label());
            },
            VerificationErrorKind::ConflictingFunctionFlags { first, second } => {
                text.append("function flags ");
                text.append(first.label());
                text.append(" and ");
                text.append(second.label());
                text.append(" conflict");
            },
            VerificationErrorKind::InvalidStackLimit { value, maximum } => {
                text.append("configured stack-depth limit ");
                append_decimal(&mut text, value as u64);
                text.append(" exceeds structural maximum ");
                append_decimal(&mut text, maximum as u64);
            },
            VerificationErrorKind::Decode(source) => {
                text.append("cannot predecode bytecode: ");
                text.append(&source.message());
            },
            VerificationErrorKind::IndexOutOfBounds { domain, index, len } => {
                text.append(domain.label());
                text.append(" index ");
                append_decimal(&mut text, index as u64);
                text.append(" is outside domain length ");
                append_decimal(&mut text, len as u64);
            },
            VerificationErrorKind::InvalidSecondaryOperand { field, value } => {
                text.append("invalid ");
                text.append(field.label());
                text.append(" value ");
                append_decimal(&mut text, value as u64);
            },
            VerificationErrorKind::ControlFlowTargetOverflow { edge, base, displacement } => {
                text.append(edge.label());
                text.append(" target base ");
                append_signed(&mut text, base);
                text.append(" plus displacement ");
                append_signed(&mut text, displacement);
                text.append(" overflows i64");
            },
            VerificationErrorKind::InvalidControlFlowTarget { edge, target, bytecode_len, reason } => {
                text.append("invalid ");
                text.append(edge.label());
                text.append(" target ");
                append_signed(&mut text, target);
                text.append(" for bytecode length ");
                append_decimal(&mut text, bytecode_len as u64);
                text.append(": ");
                text.append(reason.label());
            },
            VerificationErrorKind::MissingControlFlowOperand { expected } => {
                text.append("control-flow opcode is missing operand format ");
                text.append(expected.upstream_name());
            },
            VerificationErrorKind::UnsupportedOpcodeSemantics { feature } => {
                text.append("opcode requires unsupported verifier feature ");
                text.append(feature.label());
            },
            VerificationErrorKind::OpcodeNotAllowedForFunctionKind { kind, requirement } => {
                text.append("opcode requires ");
                text.append(requirement.label());
                text.append(", but the enclosing function kind is ");
                text.append(kind.label());
            },
            VerificationErrorKind::StackEffect(source) => {
                text.append("cannot resolve instruction stack effect: ");
                text.append(&source.message());
            },
            VerificationErrorKind::StackUnderflow { required, available } => {
                text.append("stack underflow: instruction requires ");
                append_decimal(&mut text, required as u64);
                text.append(" values, ");
                append_decimal(&mut text, available as u64);
                text.append(" available");
            },
            VerificationErrorKind::StackLimitExceeded { depth, limit } => {
                text.append("computed stack depth ");
                append_decimal(&mut text, depth);
                text.append(" exceeds configured limit ");
                append_decimal(&mut text, limit as u64);
            },
            VerificationErrorKind::InconsistentStackAtJoin { target, established_depth, incoming_depth, incoming_from } => {
                text.append("inconsistent stack depth at PC ");
                append_decimal(&mut text, target.0 as u64);
                text.append(": established ");
                append_decimal(&mut text, established_depth as u64);
                text.append(", incoming ");
                append_decimal(&mut text, incoming_depth as u64);
                text.append(" from PC ");
                append_decimal(&mut text, incoming_from.0 as u64);
            },
            VerificationErrorKind::NonEmptyCompilerExitStack { remaining } => {
                text.append("compiler-generated terminal leaves ");
                append_decimal(&mut text, remaining as u64);
                text.append(" ordinary stack values");
            },
            VerificationErrorKind::SerializedStackSizeMismatch { serialized, computed } => {
                text.append("serialized stack size ");
                append_decimal(&mut text, serialized as u64);
                text.append(" does not equal computed size ");
                append_decimal(&mut text, computed as u64);
            },
        }
        assert(text@ =~= self.spec_message());
        text
    }
}

impl VerificationError {
    /// The message: the function, the instruction as far as it is known, and the
    /// violated rule.
    pub open spec fn spec_message(&self) -> Seq<char> {
        let pc = match self.pc {
            Some(pc) => " at PC "@ + decimal(pc.0 as nat),
            None => Seq::empty(),
        };
        let opcode = match self.opcode {
            Some(opcode) => " ("@ + opcode.spec_mnemonic() + ")"@,
            None => Seq::empty(),
        };
        "bytecode verification failed in function <root>"@ + pc + opcode + ": "@
            + self.kind.spec_message()
    }

    /// Returns the message.
    pub fn message(&self) -> (text: String)
        ensures
            text@ == self.spec_message(),
    {
        let mut text = String::new();
        text.append("bytecode verification failed in function <root>");
        if let Some(pc) = self.pc {
            text.append(" at PC ");
            append_decimal(&mut text, pc.0 as u64);
        }
        if let Some(opcode) = self.opcode {
            text.append(" (");
            text.append(opcode.mnemonic());
            text.append(")");
        }
        text.append(": ");
        text.append(&self.kind.message());
        assert(text@ =~= self.spec_message());
        text
    }
}

} // verus!
