//! What compiled functions are executed as, and the headers that fit.
use crate::bytecode::error::{
    BytecodeVerificationError, BytecodeVerificationErrorKind, function_error,
};
use crate::bytecode::model::{
    CompilerBindingKind, CompilerExecutableKind, UnverifiedFunctionMetadata,
};
use crate::control_flow::model::VerifiedControlFlow;
use crate::function::{FunctionKind, FunctionMode, VerifiedFunctionHeader};
use crate::function_graph::FunctionTemplateId;
use vstd::prelude::*;

verus! {

/// Whether a function has a name or a binding for it of its own.
pub open spec fn has_local_function_name(metadata: UnverifiedFunctionMetadata) -> bool {
    metadata.function_name.is_some() || exists|i: int|
        0 <= i < metadata.variables@.len() && (#[trigger] metadata.variables@[i]).policy.kind
            == CompilerBindingKind::FunctionName
}

/// Whether a function has a name, or a binding for one of its own or captured.
pub open spec fn has_function_name(metadata: UnverifiedFunctionMetadata) -> bool {
    has_local_function_name(metadata) || exists|i: int|
        0 <= i < metadata.closures@.len() && (#[trigger] metadata.closures@[i]).spec_policy().kind
            == CompilerBindingKind::FunctionName
}

fn metadata_has_local_function_name(metadata: &UnverifiedFunctionMetadata) -> (named: bool)
    ensures
        named == has_local_function_name(*metadata),
{
    if metadata.function_name.is_some() {
        return true;
    }
    let mut i: usize = 0;
    while i < metadata.variables.len()
        invariant
            i <= metadata.variables@.len(),
            metadata.function_name.is_none(),
            forall|j: int|
                0 <= j < i ==> (#[trigger] metadata.variables@[j]).policy.kind
                    != CompilerBindingKind::FunctionName,
        decreases metadata.variables@.len() - i,
    {
        if matches!(metadata.variables[i].policy.kind, CompilerBindingKind::FunctionName) {
            assert(metadata.variables@[i as int].policy.kind == CompilerBindingKind::FunctionName);
            return true;
        }
        i = i + 1;
    }
    false
}

fn metadata_has_function_name(metadata: &UnverifiedFunctionMetadata) -> (named: bool)
    ensures
        named == has_function_name(*metadata),
{
    if metadata_has_local_function_name(metadata) {
        return true;
    }
    let mut i: usize = 0;
    while i < metadata.closures.len()
        invariant
            i <= metadata.closures@.len(),
            !has_local_function_name(*metadata),
            forall|j: int|
                0 <= j < i ==> (#[trigger] metadata.closures@[j]).spec_policy().kind
                    != CompilerBindingKind::FunctionName,
        decreases metadata.closures@.len() - i,
    {
        if matches!(metadata.closures[i].policy().kind, CompilerBindingKind::FunctionName) {
            assert(metadata.closures@[i as int].spec_policy().kind
                == CompilerBindingKind::FunctionName);
            return true;
        }
        i = i + 1;
    }
    false
}

/// The check that a function may be executed as it says: scripts and modules
/// are roots, and neither they nor arrows and methods have a function name.
pub open spec fn executable_kind_check(
    id: FunctionTemplateId,
    root: FunctionTemplateId,
    metadata: UnverifiedFunctionMetadata,
) -> Result<(), BytecodeVerificationError> {
    let named = has_function_name(metadata);
    let locally_named = has_local_function_name(metadata);
    match metadata.executable_kind {
        CompilerExecutableKind::GlobalScript => if id != root {
            Err(function_error(id, BytecodeVerificationErrorKind::GlobalScriptNotRoot))
        } else if named {
            Err(function_error(id, BytecodeVerificationErrorKind::GlobalScriptHasFunctionName))
        } else {
            Ok(())
        },
        CompilerExecutableKind::IndirectEvalScript => if id != root {
            Err(function_error(id, BytecodeVerificationErrorKind::IndirectEvalScriptNotRoot))
        } else if named {
            Err(function_error(id, BytecodeVerificationErrorKind::IndirectEvalScriptHasFunctionName))
        } else {
            Ok(())
        },
        CompilerExecutableKind::DynamicFunctionScript => if id != root {
            Err(function_error(id, BytecodeVerificationErrorKind::DynamicFunctionScriptNotRoot))
        } else if named {
            Err(function_error(id, BytecodeVerificationErrorKind::DynamicFunctionScriptHasFunctionName))
        } else {
            Ok(())
        },
        CompilerExecutableKind::Module => if id != root {
            Err(function_error(id, BytecodeVerificationErrorKind::ModuleNotRoot))
        } else if named {
            Err(function_error(id, BytecodeVerificationErrorKind::ModuleHasFunctionName))
        } else {
            Ok(())
        },
        CompilerExecutableKind::DirectEvalScript => if id != root {
            Err(function_error(id, BytecodeVerificationErrorKind::DirectEvalScriptNotRoot))
        } else if locally_named {
            Err(function_error(id, BytecodeVerificationErrorKind::DirectEvalScriptHasFunctionName))
        } else {
            Ok(())
        },
        CompilerExecutableKind::OrdinaryFunction
        | CompilerExecutableKind::GeneratorFunction
        | CompilerExecutableKind::AsyncFunction
        | CompilerExecutableKind::AsyncGeneratorFunction => Ok(()),
        CompilerExecutableKind::OrdinaryArrow | CompilerExecutableKind::AsyncArrow => if locally_named {
            Err(function_error(id, BytecodeVerificationErrorKind::OrdinaryArrowHasFunctionName))
        } else {
            Ok(())
        },
        CompilerExecutableKind::OrdinaryMethod
        | CompilerExecutableKind::ClassInstanceInitializer
        | CompilerExecutableKind::GeneratorMethod
        | CompilerExecutableKind::AsyncMethod
        | CompilerExecutableKind::AsyncGeneratorMethod
        | CompilerExecutableKind::ClassConstructor => if locally_named {
            Err(function_error(id, BytecodeVerificationErrorKind::OrdinaryMethodHasFunctionName))
        } else {
            Ok(())
        },
    }
}

pub(crate) fn verify_executable_kind(
    id: FunctionTemplateId,
    root: FunctionTemplateId,
    metadata: &UnverifiedFunctionMetadata,
) -> (checked: Result<(), BytecodeVerificationError>)
    ensures
        checked == executable_kind_check(id, root, *metadata),
{
    let named: bool = metadata_has_function_name(metadata);
    let locally_named: bool = metadata_has_local_function_name(metadata);
    match metadata.executable_kind {
        CompilerExecutableKind::GlobalScript => if id != root {
            Err(BytecodeVerificationError::function(id, BytecodeVerificationErrorKind::GlobalScriptNotRoot))
        } else if named {
            Err(BytecodeVerificationError::function(id, BytecodeVerificationErrorKind::GlobalScriptHasFunctionName))
        } else {
            Ok(())
        },
        CompilerExecutableKind::IndirectEvalScript => if id != root {
            Err(BytecodeVerificationError::function(id, BytecodeVerificationErrorKind::IndirectEvalScriptNotRoot))
        } else if named {
            Err(BytecodeVerificationError::function(id, BytecodeVerificationErrorKind::IndirectEvalScriptHasFunctionName))
        } else {
            Ok(())
        },
        CompilerExecutableKind::DynamicFunctionScript => if id != root {
            Err(BytecodeVerificationError::function(id, BytecodeVerificationErrorKind::DynamicFunctionScriptNotRoot))
        } else if named {
            Err(BytecodeVerificationError::function(id, BytecodeVerificationErrorKind::DynamicFunctionScriptHasFunctionName))
        } else {
            Ok(())
        },
        CompilerExecutableKind::Module => if id != root {
            Err(BytecodeVerificationError::function(id, BytecodeVerificationErrorKind::ModuleNotRoot))
        } else if named {
            Err(BytecodeVerificationError::function(id, BytecodeVerificationErrorKind::ModuleHasFunctionName))
        } else {
            Ok(())
        },
        CompilerExecutableKind::DirectEvalScript => if id != root {
            Err(BytecodeVerificationError::function(id, BytecodeVerificationErrorKind::DirectEvalScriptNotRoot))
        } else if locally_named {
            Err(BytecodeVerificationError::function(id, BytecodeVerificationErrorKind::DirectEvalScriptHasFunctionName))
        } else {
            Ok(())
        },
        CompilerExecutableKind::OrdinaryFunction
        | CompilerExecutableKind::GeneratorFunction
        | CompilerExecutableKind::AsyncFunction
        | CompilerExecutableKind::AsyncGeneratorFunction => Ok(()),
        CompilerExecutableKind::OrdinaryArrow | CompilerExecutableKind::AsyncArrow => if locally_named {
            Err(BytecodeVerificationError::function(id, BytecodeVerificationErrorKind::OrdinaryArrowHasFunctionName))
        } else {
            Ok(())
        },
        CompilerExecutableKind::OrdinaryMethod
        | CompilerExecutableKind::ClassInstanceInitializer
        | CompilerExecutableKind::GeneratorMethod
        | CompilerExecutableKind::AsyncMethod
        | CompilerExecutableKind::AsyncGeneratorMethod
        | CompilerExecutableKind::ClassConstructor => if locally_named {
            Err(BytecodeVerificationError::function(id, BytecodeVerificationErrorKind::OrdinaryMethodHasFunctionName))
        } else {
            Ok(())
        },
    }
}

/// Function kind of the header of each executable kind.
pub open spec fn spec_header_kind(kind: CompilerExecutableKind) -> FunctionKind {
    match kind {
        CompilerExecutableKind::GeneratorFunction | CompilerExecutableKind::GeneratorMethod => FunctionKind::Generator,
        CompilerExecutableKind::AsyncArrow
        | CompilerExecutableKind::AsyncFunction
        | CompilerExecutableKind::AsyncMethod => FunctionKind::Async,
        CompilerExecutableKind::AsyncGeneratorFunction
        | CompilerExecutableKind::AsyncGeneratorMethod => FunctionKind::AsyncGenerator,
        _ => FunctionKind::Normal,
    }
}

fn header_kind(kind: CompilerExecutableKind) -> (expected: FunctionKind)
    ensures
        expected == spec_header_kind(kind),
{
    match kind {
        CompilerExecutableKind::GeneratorFunction | CompilerExecutableKind::GeneratorMethod => FunctionKind::Generator,
        CompilerExecutableKind::AsyncArrow
        | CompilerExecutableKind::AsyncFunction
        | CompilerExecutableKind::AsyncMethod => FunctionKind::Async,
        CompilerExecutableKind::AsyncGeneratorFunction
        | CompilerExecutableKind::AsyncGeneratorMethod => FunctionKind::AsyncGenerator,
        _ => FunctionKind::Normal,
    }
}

/// Whether the packed flags fit the executable kind.
pub open spec fn spec_flags_fit(kind: CompilerExecutableKind, bits: u16) -> bool {
    match kind {
        CompilerExecutableKind::GlobalScript
        | CompilerExecutableKind::IndirectEvalScript
        | CompilerExecutableKind::DynamicFunctionScript
        | CompilerExecutableKind::Module => bits == 0x0400,
        CompilerExecutableKind::DirectEvalScript => bits & !0x15c0u16 == 0 && bits & 0x0400 != 0 && (
        bits & 0x1000 == 0 || bits & 0x0080 != 0),
        CompilerExecutableKind::OrdinaryFunction => bits == 0x0641 || bits == 0x0643,
        CompilerExecutableKind::OrdinaryArrow => bits == 0x0440 || bits == 0x0442,
        CompilerExecutableKind::AsyncArrow => bits == 0x0460 || bits == 0x0462,
        CompilerExecutableKind::OrdinaryMethod => bits == 0x0740 || bits == 0x0742,
        CompilerExecutableKind::ClassInstanceInitializer => bits == 0x0742,
        CompilerExecutableKind::ClassConstructor => bits == 0x0748 || bits == 0x074a || bits == 0x07cc || bits == 0x07ce,
        CompilerExecutableKind::GeneratorFunction => bits == 0x0650 || bits == 0x0652,
        CompilerExecutableKind::GeneratorMethod => bits == 0x0750 || bits == 0x0752,
        CompilerExecutableKind::AsyncFunction => bits == 0x0660 || bits == 0x0662,
        CompilerExecutableKind::AsyncMethod => bits == 0x0760 || bits == 0x0762,
        CompilerExecutableKind::AsyncGeneratorFunction => bits == 0x0670 || bits == 0x0672,
        CompilerExecutableKind::AsyncGeneratorMethod => bits == 0x0770 || bits == 0x0772,
    }
}

fn flags_fit(kind: CompilerExecutableKind, bits: u16) -> (fit: bool)
    ensures
        fit == spec_flags_fit(kind, bits),
{
    match kind {
        CompilerExecutableKind::GlobalScript
        | CompilerExecutableKind::IndirectEvalScript
        | CompilerExecutableKind::DynamicFunctionScript
        | CompilerExecutableKind::Module => bits == 0x0400,
        CompilerExecutableKind::DirectEvalScript => bits & !0x15c0u16 == 0 && bits & 0x0400 != 0 && (
        bits & 0x1000 == 0 || bits & 0x0080 != 0),
        CompilerExecutableKind::OrdinaryFunction => bits == 0x0641 || bits == 0x0643,
        CompilerExecutableKind::OrdinaryArrow => bits == 0x0440 || bits == 0x0442,
        CompilerExecutableKind::AsyncArrow => bits == 0x0460 || bits == 0x0462,
        CompilerExecutableKind::OrdinaryMethod => bits == 0x0740 || bits == 0x0742,
        CompilerExecutableKind::ClassInstanceInitializer => bits == 0x0742,
        CompilerExecutableKind::ClassConstructor => bits == 0x0748 || bits == 0x074a || bits == 0x07cc || bits == 0x07ce,
        CompilerExecutableKind::GeneratorFunction => bits == 0x0650 || bits == 0x0652,
        CompilerExecutableKind::GeneratorMethod => bits == 0x0750 || bits == 0x0752,
        CompilerExecutableKind::AsyncFunction => bits == 0x0660 || bits == 0x0662,
        CompilerExecutableKind::AsyncMethod => bits == 0x0760 || bits == 0x0762,
        CompilerExecutableKind::AsyncGeneratorFunction => bits == 0x0670 || bits == 0x0672,
        CompilerExecutableKind::AsyncGeneratorMethod => bits == 0x0770 || bits == 0x0772,
    }
}

/// Whether the mode fits the executable kind: dynamic functions are sloppy,
/// modules and class code strict.
pub open spec fn spec_mode_fits(kind: CompilerExecutableKind, mode: FunctionMode) -> bool {
    match kind {
        CompilerExecutableKind::DynamicFunctionScript => mode.0 == 0,
        CompilerExecutableKind::Module
        | CompilerExecutableKind::ClassInstanceInitializer
        | CompilerExecutableKind::ClassConstructor => mode.spec_is_strict(),
        _ => mode.0 & !1u8 == 0,
    }
}

fn mode_fits(kind: CompilerExecutableKind, mode: FunctionMode) -> (fits: bool)
    ensures
        fits == spec_mode_fits(kind, mode),
{
    match kind {
        CompilerExecutableKind::DynamicFunctionScript => mode.0 == 0,
        CompilerExecutableKind::Module
        | CompilerExecutableKind::ClassInstanceInitializer
        | CompilerExecutableKind::ClassConstructor => mode.is_strict(),
        _ => mode.0 & !1u8 == 0,
    }
}

/// The check of the argument counts: scripts, modules and instance initializers
/// have none, and a simple parameter list defines every argument.
pub open spec fn argument_count_check(
    id: FunctionTemplateId,
    kind: CompilerExecutableKind,
    defined: u32,
    arguments: u32,
    simple: bool,
) -> Result<(), BytecodeVerificationError> {
    match kind {
        CompilerExecutableKind::GlobalScript => if defined != 0 || arguments != 0 {
            Err(function_error(id, BytecodeVerificationErrorKind::GlobalScriptHasArguments { defined, arguments }))
        } else {
            Ok(())
        },
        CompilerExecutableKind::IndirectEvalScript => if defined != 0 || arguments != 0 {
            Err(function_error(id, BytecodeVerificationErrorKind::IndirectEvalScriptHasArguments { defined, arguments }))
        } else {
            Ok(())
        },
        CompilerExecutableKind::DynamicFunctionScript => if defined != 0 || arguments != 0 {
            Err(function_error(id, BytecodeVerificationErrorKind::DynamicFunctionScriptHasArguments { defined, arguments }))
        } else {
            Ok(())
        },
        CompilerExecutableKind::Module => if defined != 0 || arguments != 0 {
            Err(function_error(id, BytecodeVerificationErrorKind::ModuleHasArguments { defined, arguments }))
        } else {
            Ok(())
        },
        CompilerExecutableKind::DirectEvalScript => if defined != 0 || arguments != 0 {
            Err(function_error(id, BytecodeVerificationErrorKind::DirectEvalScriptHasArguments { defined, arguments }))
        } else {
            Ok(())
        },
        CompilerExecutableKind::ClassInstanceInitializer => Ok(()),
        _ => if defined > arguments || (simple && defined != arguments) {
            Err(function_error(id, BytecodeVerificationErrorKind::DefinedArgumentCountMismatch { defined, arguments }))
        } else {
            Ok(())
        },
    }
}

fn check_argument_count(
    id: FunctionTemplateId,
    kind: CompilerExecutableKind,
    defined: u32,
    arguments: u32,
    simple: bool,
) -> (checked: Result<(), BytecodeVerificationError>)
    ensures
        checked == argument_count_check(id, kind, defined, arguments, simple),
{
    match kind {
        CompilerExecutableKind::GlobalScript => if defined != 0 || arguments != 0 {
            Err(
                BytecodeVerificationError::function(
                    id,
                    BytecodeVerificationErrorKind::GlobalScriptHasArguments { defined, arguments },
                ),
            )
        } else {
            Ok(())
        },
        CompilerExecutableKind::IndirectEvalScript => if defined != 0 || arguments != 0 {
            Err(
                BytecodeVerificationError::function(
                    id,
                    BytecodeVerificationErrorKind::IndirectEvalScriptHasArguments { defined, arguments },
                ),
            )
        } else {
            Ok(())
        },
        CompilerExecutableKind::DynamicFunctionScript => if defined != 0 || arguments != 0 {
            Err(
                BytecodeVerificationError::function(
                    id,
                    BytecodeVerificationErrorKind::DynamicFunctionScriptHasArguments { defined, arguments },
                ),
            )
        } else {
            Ok(())
        },
        CompilerExecutableKind::Module => if defined != 0 || arguments != 0 {
            Err(
                BytecodeVerificationError::function(
                    id,
                    BytecodeVerificationErrorKind::ModuleHasArguments { defined, arguments },
                ),
            )
        } else {
            Ok(())
        },
        CompilerExecutableKind::DirectEvalScript => if defined != 0 || arguments != 0 {
            Err(
                BytecodeVerificationError::function(
                    id,
                    BytecodeVerificationErrorKind::DirectEvalScriptHasArguments { defined, arguments },
                ),
            )
        } else {
            Ok(())
        },
        CompilerExecutableKind::ClassInstanceInitializer => Ok(()),
        _ => if defined > arguments || (simple && defined != arguments) {
            Err(
                BytecodeVerificationError::function(
                    id,
                    BytecodeVerificationErrorKind::DefinedArgumentCountMismatch { defined, arguments },
                ),
            )
        } else {
            Ok(())
        },
    }
}

/// The check that a validated header fits the executable kind.
pub open spec fn executable_header_check(
    id: FunctionTemplateId,
    kind: CompilerExecutableKind,
    header: VerifiedFunctionHeader,
    arguments: u32,
) -> Result<(), BytecodeVerificationError> {
    let defined = header.defined_argument_count;
    if header.kind != spec_header_kind(kind) || !spec_flags_fit(kind, header.flags.0)
        || !spec_mode_fits(kind, header.mode) || (kind
        == CompilerExecutableKind::ClassInstanceInitializer && (defined != 0 || arguments != 0)) {
        Err(function_error(id, BytecodeVerificationErrorKind::UnsupportedFunctionHeader))
    } else {
        argument_count_check(
            id,
            kind,
            defined,
            arguments,
            header.flags.spec_has_simple_parameter_list(),
        )
    }
}

pub(crate) fn verify_header(
    id: FunctionTemplateId,
    executable_kind: CompilerExecutableKind,
    flow: &VerifiedControlFlow,
) -> (checked: Result<(), BytecodeVerificationError>)
    ensures
        checked == executable_header_check(
            id,
            executable_kind,
            flow.function_header,
            flow.domains.argument_count,
        ),
{
    let header = flow.function_header;
    let arguments: u32 = flow.domains.argument_count;
    let defined: u32 = header.defined_argument_count;
    if header.kind != header_kind(executable_kind) || !flags_fit(executable_kind, header.flags.bits())
        || !mode_fits(executable_kind, header.mode) || (matches!(
        executable_kind,
        CompilerExecutableKind::ClassInstanceInitializer
    ) && (defined != 0 || arguments != 0)) {
        return Err(
            BytecodeVerificationError::function(
                id,
                BytecodeVerificationErrorKind::UnsupportedFunctionHeader,
            ),
        );
    }
    check_argument_count(
        id,
        executable_kind,
        defined,
        arguments,
        header.flags.has_simple_parameter_list(),
    )
}

} // verus!
