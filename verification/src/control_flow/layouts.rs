//! Validation of compiler-owned capture and constant layouts.
use crate::checks::{first_failure, lemma_first_failure_at, lemma_no_failure};
use crate::control_flow::error::{VerificationError, VerificationErrorKind, root_error};
use crate::control_flow::limits::{VerificationResource, allocation_failure};
use crate::control_flow::model::{
    CompilerCaptureLayout, CompilerCapturedBinding, CompilerCapturedBindingIdentity,
    CompilerConstantLayout, FunctionIndexDomains,
};
use crate::function::VerifiedFunctionHeader;
use crate::reserve::reserve_map;
use std::collections::HashMap;
use vstd::prelude::*;

verus! {

broadcast use vstd::std_specs::hash::group_hash_axioms;

/// The check that a constant layout covers the declared pool.
pub open spec fn constant_layout_check(
    layout: CompilerConstantLayout,
    domains: FunctionIndexDomains,
) -> Result<(), VerificationError> {
    if layout.kinds@.len() != domains.constant_pool_len {
        Err(
            root_error(
                VerificationErrorKind::CompilerConstantCountMismatch {
                    declared: domains.constant_pool_len,
                    entries: layout.kinds@.len() as u64,
                },
            ),
        )
    } else {
        Ok(())
    }
}

pub(crate) fn validate_compiler_constant_layout(
    layout: CompilerConstantLayout,
    domains: FunctionIndexDomains,
) -> (validated: Result<CompilerConstantLayout, VerificationError>)
    ensures
        match validated {
            Ok(validated) => validated == layout && constant_layout_check(layout, domains).is_ok(),
            Err(error) => constant_layout_check(layout, domains) == Err::<(), VerificationError>(
                error,
            ),
        },
{
    let entries: u64 = layout.kinds.len() as u64;
    if entries != domains.constant_pool_len as u64 {
        return Err(
            VerificationError::root(
                VerificationErrorKind::CompilerConstantCountMismatch {
                    declared: domains.constant_pool_len,
                    entries,
                },
            ),
        );
    }
    Ok(layout)
}

/// A capture layout whose bindings occupy distinct slots of the frame.
pub(crate) struct ValidatedCompilerCaptureLayout {
    /// The layout itself.
    pub(crate) layout: CompilerCaptureLayout,
    pub(crate) bindings_by_identity: HashMap<u64, CompilerCapturedBinding>,
}

/// Map key of a frame slot: locals stand above all arguments.
pub open spec fn spec_identity_key(identity: CompilerCapturedBindingIdentity) -> u64 {
    match identity {
        CompilerCapturedBindingIdentity::Argument(index) => index as u64,
        CompilerCapturedBindingIdentity::Local(index) => (0x1_0000_0000 + index) as u64,
    }
}

fn identity_key(identity: CompilerCapturedBindingIdentity) -> (key: u64)
    ensures
        key == spec_identity_key(identity),
{
    match identity {
        CompilerCapturedBindingIdentity::Argument(index) => index as u64,
        CompilerCapturedBindingIdentity::Local(index) => 0x1_0000_0000 + index as u64,
    }
}

/// The map holds exactly the first `count` bindings, keyed by frame slot.
pub open spec fn keyed_by_identity(
    entries: Map<u64, CompilerCapturedBinding>,
    bindings: Seq<CompilerCapturedBinding>,
    count: int,
) -> bool {
    &&& forall|i: int|
        0 <= i < count ==> entries.contains_key(
            spec_identity_key((#[trigger] bindings[i]).spec_identity()),
        ) && entries[spec_identity_key(bindings[i].spec_identity())] == bindings[i]
    &&& forall|key: u64| #[trigger]
        entries.contains_key(key) ==> exists|i: int|
            0 <= i < count && spec_identity_key((#[trigger] bindings[i]).spec_identity()) == key
}

impl ValidatedCompilerCaptureLayout {
    /// The lookup table holds exactly the layout's bindings.
    pub(crate) open(crate) spec fn well_formed(&self) -> bool {
        keyed_by_identity(
            self.bindings_by_identity@,
            self.layout.bindings@,
            self.layout.bindings@.len() as int,
        )
    }

    /// Returns whether `local` is captured as a block-scoped local.
    pub(crate) fn is_scoped_local(&self, local: u32) -> (scoped: bool)
        requires
            self.well_formed(),
        ensures
            scoped == self.layout.bindings@.contains(CompilerCapturedBinding::ScopedLocal(local)),
    {
        let key: u64 = identity_key(CompilerCapturedBindingIdentity::Local(local));
        let ghost bindings = self.layout.bindings@;
        let ghost entries = self.bindings_by_identity@;
        proof {
            if bindings.contains(CompilerCapturedBinding::ScopedLocal(local)) {
                let i = bindings.index_of(CompilerCapturedBinding::ScopedLocal(local));
                assert(spec_identity_key(bindings[i].spec_identity()) == key);
            }
        }
        match self.bindings_by_identity.get(&key) {
            Some(CompilerCapturedBinding::ScopedLocal(_)) => {
                proof {
                    let i = choose|i: int|
                        0 <= i < bindings.len() && spec_identity_key(
                            (#[trigger] bindings[i]).spec_identity(),
                        ) == key;
                    assert(bindings[i] == CompilerCapturedBinding::ScopedLocal(local));
                }
                true
            },
            _ => false,
        }
    }
}

/// Length of the frame domain that a binding indexes.
pub open spec fn binding_domain_len(
    binding: CompilerCapturedBinding,
    domains: FunctionIndexDomains,
) -> u32 {
    match binding {
        CompilerCapturedBinding::Argument(_) => domains.argument_count,
        _ => domains.local_count,
    }
}

/// Index of a binding in its frame domain.
pub open spec fn binding_index(binding: CompilerCapturedBinding) -> u32 {
    match binding {
        CompilerCapturedBinding::Argument(index) => index,
        CompilerCapturedBinding::FunctionLocal(index) => index,
        CompilerCapturedBinding::ScopedLocal(index) => index,
    }
}

/// The check that a binding lies in its frame domain.
pub open spec fn binding_bounds_check(
    binding: CompilerCapturedBinding,
    domains: FunctionIndexDomains,
) -> Result<(), VerificationError> {
    if binding_index(binding) >= binding_domain_len(binding, domains) {
        Err(
            root_error(
                VerificationErrorKind::CompilerCaptureIndexOutOfBounds {
                    binding,
                    len: binding_domain_len(binding, domains),
                },
            ),
        )
    } else {
        Ok(())
    }
}

/// The check of mapped argument `i`: inside the argument domain and above its
/// predecessor.
pub open spec fn mapped_argument_check(
    indices: Seq<u32>,
    domains: FunctionIndexDomains,
    i: int,
) -> Result<(), VerificationError> {
    if indices[i] >= domains.argument_count {
        Err(
            root_error(
                VerificationErrorKind::CompilerMappedArgumentIndexOutOfBounds {
                    index: indices[i],
                    len: domains.argument_count,
                },
            ),
        )
    } else if i > 0 && indices[i] <= indices[i - 1] {
        Err(
            root_error(
                VerificationErrorKind::CompilerMappedArgumentsNotAscending {
                    previous: indices[i - 1],
                    index: indices[i],
                },
            ),
        )
    } else {
        Ok(())
    }
}

/// Whether an earlier binding occupies the slot of binding `i`.
pub open spec fn repeats_slot(bindings: Seq<CompilerCapturedBinding>, i: int) -> bool {
    exists|j: int|
        0 <= j < i && (#[trigger] bindings[j]).spec_identity() == bindings[i].spec_identity()
}

/// The check that no earlier binding occupies the slot of binding `i`.
pub open spec fn distinct_slot_check(bindings: Seq<CompilerCapturedBinding>, i: int) -> Result<
    (),
    VerificationError,
> {
    if repeats_slot(bindings, i) {
        Err(
            root_error(VerificationErrorKind::DuplicateCompilerCapture { binding: bindings[i] }),
        )
    } else {
        Ok(())
    }
}

/// Checks that bindings lie in their frame domains.
pub open spec fn binding_bounds_checks(
    bindings: Seq<CompilerCapturedBinding>,
    domains: FunctionIndexDomains,
) -> Seq<Result<(), VerificationError>> {
    Seq::new(bindings.len(), |i: int| binding_bounds_check(bindings[i], domains))
}

/// Checks of the mapped arguments.
pub open spec fn mapped_argument_checks(
    indices: Seq<u32>,
    domains: FunctionIndexDomains,
) -> Seq<Result<(), VerificationError>> {
    Seq::new(indices.len(), |i: int| mapped_argument_check(indices, domains, i))
}

/// Checks that bindings occupy distinct slots.
pub open spec fn distinct_slot_checks(bindings: Seq<CompilerCapturedBinding>) -> Seq<
    Result<(), VerificationError>,
> {
    Seq::new(bindings.len(), |i: int| distinct_slot_check(bindings, i))
}

/// The check of the binding count against the declared cells.
pub open spec fn capture_count_check(
    bindings: Seq<CompilerCapturedBinding>,
    function_header: VerifiedFunctionHeader,
) -> Result<(), VerificationError> {
    if bindings.len() != function_header.variable_reference_count {
        Err(
            root_error(
                VerificationErrorKind::CompilerCaptureCountMismatch {
                    variable_references: function_header.variable_reference_count,
                    captures: bindings.len() as u64,
                },
            ),
        )
    } else {
        Ok(())
    }
}

/// The check of a capture layout: one binding per declared cell, each in its
/// frame domain, mapped arguments ascending inside the argument domain, and
/// no slot bound twice; the first violation in this order decides.
pub open spec fn capture_layout_check(
    layout: CompilerCaptureLayout,
    domains: FunctionIndexDomains,
    function_header: VerifiedFunctionHeader,
) -> Result<(), VerificationError> {
    let bounds = first_failure(binding_bounds_checks(layout.bindings@, domains));
    let mapped = match layout.mapped_arguments {
        Some(indices) => first_failure(mapped_argument_checks(indices@, domains)),
        None => Ok(()),
    };
    if capture_count_check(layout.bindings@, function_header).is_err() {
        capture_count_check(layout.bindings@, function_header)
    } else if bounds.is_err() {
        bounds
    } else if mapped.is_err() {
        mapped
    } else {
        first_failure(distinct_slot_checks(layout.bindings@))
    }
}

/// Whether `error` reports that the table of captured slots could not be
/// reserved: the last step of the check, behind the count, the bounds and the
/// mapped arguments.
pub open spec fn capture_table_failure(
    layout: CompilerCaptureLayout,
    domains: FunctionIndexDomains,
    function_header: VerifiedFunctionHeader,
    error: VerificationError,
) -> bool {
    &&& capture_count_check(layout.bindings@, function_header).is_ok()
    &&& first_failure(binding_bounds_checks(layout.bindings@, domains)).is_ok()
    &&& match layout.mapped_arguments {
        Some(indices) => first_failure(mapped_argument_checks(indices@, domains)).is_ok(),
        None => true,
    }
    &&& error == allocation_failure(
        VerificationResource::CompilerCaptures,
        layout.bindings@.len() as u64,
    )
}

fn validate_binding_bounds(
    bindings: &[CompilerCapturedBinding],
    domains: FunctionIndexDomains,
) -> (checked: Result<(), VerificationError>)
    ensures
        checked == first_failure(binding_bounds_checks(bindings@, domains)),
{
    let ghost checks = binding_bounds_checks(bindings@, domains);
    let mut i: usize = 0;
    while i < bindings.len()
        invariant
            i <= bindings@.len(),
            checks == binding_bounds_checks(bindings@, domains),
            forall|j: int| 0 <= j < i ==> (#[trigger] checks[j]).is_ok(),
        decreases bindings@.len() - i,
    {
        let binding = bindings[i];
        let (index, len) = match binding {
            CompilerCapturedBinding::Argument(index) => (index, domains.argument_count),
            CompilerCapturedBinding::FunctionLocal(index) => (index, domains.local_count),
            CompilerCapturedBinding::ScopedLocal(index) => (index, domains.local_count),
        };
        if index >= len {
            proof {
                lemma_first_failure_at(checks, i as int);
            }
            return Err(
                VerificationError::root(
                    VerificationErrorKind::CompilerCaptureIndexOutOfBounds { binding, len },
                ),
            );
        }
        i = i + 1;
    }
    proof {
        lemma_no_failure(checks);
    }
    Ok(())
}

fn validate_mapped_arguments(indices: &[u32], domains: FunctionIndexDomains) -> (checked: Result<
    (),
    VerificationError,
>)
    ensures
        checked == first_failure(mapped_argument_checks(indices@, domains)),
{
    let ghost checks = mapped_argument_checks(indices@, domains);
    let mut i: usize = 0;
    while i < indices.len()
        invariant
            i <= indices@.len(),
            checks == mapped_argument_checks(indices@, domains),
            forall|j: int| 0 <= j < i ==> (#[trigger] checks[j]).is_ok(),
        decreases indices@.len() - i,
    {
        let index: u32 = indices[i];
        if index >= domains.argument_count {
            proof {
                lemma_first_failure_at(checks, i as int);
            }
            return Err(
                VerificationError::root(
                    VerificationErrorKind::CompilerMappedArgumentIndexOutOfBounds {
                        index,
                        len: domains.argument_count,
                    },
                ),
            );
        }
        if i > 0 && index <= indices[i - 1] {
            proof {
                lemma_first_failure_at(checks, i as int);
            }
            return Err(
                VerificationError::root(
                    VerificationErrorKind::CompilerMappedArgumentsNotAscending {
                        previous: indices[i - 1],
                        index,
                    },
                ),
            );
        }
        i = i + 1;
    }
    proof {
        lemma_no_failure(checks);
    }
    Ok(())
}

pub(crate) fn validate_compiler_capture_layout(
    layout: CompilerCaptureLayout,
    domains: FunctionIndexDomains,
    function_header: &VerifiedFunctionHeader,
) -> (validated: Result<ValidatedCompilerCaptureLayout, VerificationError>)
    ensures
        match validated {
            Ok(validated) => validated.layout == layout && validated.well_formed()
                && capture_layout_check(layout, domains, *function_header).is_ok(),
            Err(error) => capture_layout_check(layout, domains, *function_header) == Err::<
                (),
                VerificationError,
            >(error) || capture_table_failure(layout, domains, *function_header, error),
        },
{
    let capture_count: u64 = layout.bindings.len() as u64;
    if capture_count != function_header.variable_reference_count as u64 {
        return Err(
            VerificationError::root(
                VerificationErrorKind::CompilerCaptureCountMismatch {
                    variable_references: function_header.variable_reference_count,
                    captures: capture_count,
                },
            ),
        );
    }
    validate_binding_bounds(&layout.bindings, domains)?;
    if let Some(indices) = &layout.mapped_arguments {
        validate_mapped_arguments(indices, domains)?;
    }
    let ghost bindings = layout.bindings@;
    let ghost checks = distinct_slot_checks(bindings);
    let mut bindings_by_identity: HashMap<u64, CompilerCapturedBinding> = HashMap::new();
    if reserve_map(&mut bindings_by_identity, layout.bindings.len()).is_err() {
        return Err(
            VerificationError::root(
                VerificationErrorKind::AllocationFailed {
                    resource: VerificationResource::CompilerCaptures,
                    requested: capture_count,
                },
            ),
        );
    }
    let mut i: usize = 0;
    while i < layout.bindings.len()
        invariant
            i <= bindings.len(),
            bindings == layout.bindings@,
            checks == distinct_slot_checks(bindings),
            forall|j: int| 0 <= j < i ==> (#[trigger] checks[j]).is_ok(),
            keyed_by_identity(bindings_by_identity@, bindings, i as int),
            capture_layout_check(layout, domains, *function_header) == first_failure(checks),
        decreases bindings.len() - i,
    {
        let binding = layout.bindings[i];
        let key: u64 = identity_key(binding.identity());
        let ghost before = bindings_by_identity@;
        if bindings_by_identity.insert(key, binding).is_some() {
            proof {
                let j = choose|j: int|
                    0 <= j < i && spec_identity_key((#[trigger] bindings[j]).spec_identity())
                        == key;
                assert(bindings[j].spec_identity() == bindings[i as int].spec_identity());
                assert(repeats_slot(bindings, i as int));
                lemma_first_failure_at(checks, i as int);
            }
            return Err(
                VerificationError::root(
                    VerificationErrorKind::DuplicateCompilerCapture { binding },
                ),
            );
        }
        proof {
            assert(!repeats_slot(bindings, i as int));
            assert(checks[i as int].is_ok());
            let after = bindings_by_identity@;
            assert forall|k: u64| #[trigger] after.contains_key(k) implies exists|j: int|
                0 <= j < i + 1 && spec_identity_key((#[trigger] bindings[j]).spec_identity())
                    == k by {
                if k == key {
                    assert(spec_identity_key(bindings[i as int].spec_identity()) == k);
                } else {
                    assert(before.contains_key(k));
                    let j = choose|j: int|
                        0 <= j < i && spec_identity_key((#[trigger] bindings[j]).spec_identity())
                            == k;
                    assert(spec_identity_key(bindings[j].spec_identity()) == k);
                }
            }
            assert(keyed_by_identity(after, bindings, i + 1));
        }
        i = i + 1;
    }
    proof {
        lemma_no_failure(checks);
    }
    Ok(ValidatedCompilerCaptureLayout { layout, bindings_by_identity })
}

} // verus!
