//! Validation of a function header.
use crate::control_flow::error::{VerificationError, VerificationErrorKind, root_error};
use crate::control_flow::model::FunctionIndexDomains;
use crate::function::{
    FunctionBitField, FunctionHeaderFlag, FunctionHeaderFlags, FunctionKind,
    FunctionKindRequirement, FunctionMode, JS_MODE_MASK, SERIALIZED_FUNCTION_FLAGS_MASK,
    UnverifiedFunctionHeader, VerifiedFunctionHeader,
};
use vstd::prelude::*;

verus! {

/// Rule that a header violates, if it violates one: unknown flag or mode bits,
/// more defined arguments than arguments, more variable-reference cells than
/// bindings, a derived constructor with a `prototype`, or either of the two on
/// a function that is not normal.
pub open spec fn header_violation(
    header: UnverifiedFunctionHeader,
    domains: FunctionIndexDomains,
) -> Option<VerificationErrorKind> {
    let flags = FunctionHeaderFlags(header.serialized_flags);
    let kind = FunctionKind::spec_from_serialized_flags(header.serialized_flags);
    if header.serialized_flags & !SERIALIZED_FUNCTION_FLAGS_MASK != 0 {
        Some(
            VerificationErrorKind::DisallowedFunctionBits {
                field: FunctionBitField::SerializedFlags,
                value: header.serialized_flags,
                allowed_mask: SERIALIZED_FUNCTION_FLAGS_MASK,
                disallowed_bits: header.serialized_flags & !SERIALIZED_FUNCTION_FLAGS_MASK,
            },
        )
    } else if header.js_mode & !JS_MODE_MASK != 0 {
        Some(
            VerificationErrorKind::DisallowedFunctionBits {
                field: FunctionBitField::JsMode,
                value: header.js_mode as u16,
                allowed_mask: JS_MODE_MASK as u16,
                disallowed_bits: (header.js_mode & !JS_MODE_MASK) as u16,
            },
        )
    } else if header.defined_argument_count > domains.argument_count {
        Some(
            VerificationErrorKind::DefinedArgumentCountOutOfRange {
                defined: header.defined_argument_count,
                argument_count: domains.argument_count,
            },
        )
    } else if header.variable_reference_count > domains.argument_count + domains.local_count {
        Some(
            VerificationErrorKind::VariableReferenceCountOutOfRange {
                variable_references: header.variable_reference_count,
                argument_count: domains.argument_count,
                local_count: domains.local_count,
            },
        )
    } else if flags.spec_has_prototype() && flags.spec_is_derived_class_constructor() {
        Some(
            VerificationErrorKind::ConflictingFunctionFlags {
                first: FunctionHeaderFlag::HasPrototype,
                second: FunctionHeaderFlag::DerivedClassConstructor,
            },
        )
    } else if kind != FunctionKind::Normal && (flags.spec_has_prototype()
        || flags.spec_is_derived_class_constructor()) {
        Some(
            VerificationErrorKind::FunctionFlagNotAllowedForKind {
                flag: if flags.spec_has_prototype() {
                    FunctionHeaderFlag::HasPrototype
                } else {
                    FunctionHeaderFlag::DerivedClassConstructor
                },
                kind,
                requirement: FunctionKindRequirement::Normal,
            },
        )
    } else {
        None
    }
}

/// The header that a violation-free header is verified to.
pub open spec fn verified_header(header: UnverifiedFunctionHeader) -> VerifiedFunctionHeader {
    VerifiedFunctionHeader {
        flags: FunctionHeaderFlags(header.serialized_flags),
        mode: FunctionMode(header.js_mode),
        kind: FunctionKind::spec_from_serialized_flags(header.serialized_flags),
        defined_argument_count: header.defined_argument_count,
        variable_reference_count: header.variable_reference_count,
    }
}

/// Validation of a header.
pub open spec fn header_validation(
    header: UnverifiedFunctionHeader,
    domains: FunctionIndexDomains,
) -> Result<VerifiedFunctionHeader, VerificationError> {
    match header_violation(header, domains) {
        Some(kind) => Err(root_error(kind)),
        None => Ok(verified_header(header)),
    }
}

/// Validates a function header against the index domains.
pub(crate) fn validate_function_header(
    header: UnverifiedFunctionHeader,
    domains: FunctionIndexDomains,
) -> (validated: Result<VerifiedFunctionHeader, VerificationError>)
    ensures
        validated == header_validation(header, domains),
{
    let serialized_flags: u16 = header.serialized_flags;
    let unknown_flags: u16 = serialized_flags & !SERIALIZED_FUNCTION_FLAGS_MASK;
    if unknown_flags != 0 {
        return Err(
            VerificationError::root(
                VerificationErrorKind::DisallowedFunctionBits {
                    field: FunctionBitField::SerializedFlags,
                    value: serialized_flags,
                    allowed_mask: SERIALIZED_FUNCTION_FLAGS_MASK,
                    disallowed_bits: unknown_flags,
                },
            ),
        );
    }
    let js_mode: u8 = header.js_mode;
    let unknown_mode: u8 = js_mode & !JS_MODE_MASK;
    if unknown_mode != 0 {
        return Err(
            VerificationError::root(
                VerificationErrorKind::DisallowedFunctionBits {
                    field: FunctionBitField::JsMode,
                    value: js_mode as u16,
                    allowed_mask: JS_MODE_MASK as u16,
                    disallowed_bits: unknown_mode as u16,
                },
            ),
        );
    }
    if header.defined_argument_count > domains.argument_count {
        return Err(
            VerificationError::root(
                VerificationErrorKind::DefinedArgumentCountOutOfRange {
                    defined: header.defined_argument_count,
                    argument_count: domains.argument_count,
                },
            ),
        );
    }
    let available: u64 = domains.argument_count as u64 + domains.local_count as u64;
    if header.variable_reference_count as u64 > available {
        return Err(
            VerificationError::root(
                VerificationErrorKind::VariableReferenceCountOutOfRange {
                    variable_references: header.variable_reference_count,
                    argument_count: domains.argument_count,
                    local_count: domains.local_count,
                },
            ),
        );
    }
    let flags = FunctionHeaderFlags::from_validated_bits(serialized_flags);
    let kind = FunctionKind::from_serialized_flags(serialized_flags);
    if flags.has_prototype() && flags.is_derived_class_constructor() {
        return Err(
            VerificationError::root(
                VerificationErrorKind::ConflictingFunctionFlags {
                    first: FunctionHeaderFlag::HasPrototype,
                    second: FunctionHeaderFlag::DerivedClassConstructor,
                },
            ),
        );
    }
    if !matches!(kind, FunctionKind::Normal) {
        let invalid_flag = if flags.has_prototype() {
            Some(FunctionHeaderFlag::HasPrototype)
        } else if flags.is_derived_class_constructor() {
            Some(FunctionHeaderFlag::DerivedClassConstructor)
        } else {
            None
        };
        if let Some(flag) = invalid_flag {
            return Err(
                VerificationError::root(
                    VerificationErrorKind::FunctionFlagNotAllowedForKind {
                        flag,
                        kind,
                        requirement: FunctionKindRequirement::Normal,
                    },
                ),
            );
        }
    }
    Ok(
        VerifiedFunctionHeader {
            flags,
            mode: FunctionMode::from_validated_bits(js_mode),
            kind,
            defined_argument_count: header.defined_argument_count,
            variable_reference_count: header.variable_reference_count,
        },
    )
}

} // verus!
