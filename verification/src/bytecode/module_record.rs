//! Module instantiation metadata against the closure variables of its root.
use crate::bytecode::atoms::{atom_check, verify_atom_bounds};
use crate::bytecode::error::{
    BytecodeVerificationError, BytecodeVerificationErrorKind, MetadataAtomField, graph_error,
};
use crate::bytecode::model::{
    BytecodeGraphResource, ClosureVariableDefinition, CompilerBindingKind, CompilerBindingPolicy,
    CompilerClosureBinding, CompilerExecutableKind, CompilerWritePolicy, FunctionRecord,
    ModuleBindingDescriptor, ModuleBindingOrigin, ModuleDeclarationRecord, ModuleRequestDescriptor,
    UnverifiedModuleBindingDescriptor, UnverifiedModuleDeclarationRecord,
    VerifiedFunctionMetadata, records_of,
};
use crate::checks::{
    first_failure, lemma_first_failure_at, lemma_no_failure, lemma_success_means_all,
};
use crate::function_graph::{
    CompilerAtom, CompilerClosureSource, FunctionTemplateId, VerifiedCompilerFunctionGraph,
};
use std::sync::Arc;
use vstd::prelude::*;

verus! {

/// What module bindings are checked against.
pub struct ModuleContext {
    /// Root of the graph.
    pub root: FunctionTemplateId,
    /// Atom pool of the root.
    pub atoms: Seq<CompilerAtom>,
    /// Closure variables of the root.
    pub closures: Seq<ClosureVariableDefinition>,
    /// Number of module requests.
    pub requests: int,
}

/// Whether a binding of an origin may have the policy: a local binding is a
/// declaration, and an imported one is constant.
pub open spec fn spec_module_origin_policy_supported(
    origin: ModuleBindingOrigin,
    policy: CompilerBindingPolicy,
) -> bool {
    match origin {
        ModuleBindingOrigin::Local => policy.kind == CompilerBindingKind::Var || policy.kind
            == CompilerBindingKind::Let || policy.kind == CompilerBindingKind::Const || policy.kind
            == CompilerBindingKind::Function,
        ModuleBindingOrigin::Import | ModuleBindingOrigin::Namespace => policy.kind
            == CompilerBindingKind::Const && policy.writes == CompilerWritePolicy::Immutable
            && policy.temporal_dead_zone,
    }
}

#[verifier::when_used_as_spec(spec_module_origin_policy_supported)]
fn module_origin_policy_supported(
    origin: ModuleBindingOrigin,
    policy: CompilerBindingPolicy,
) -> (supported: bool)
    ensures
        supported == spec_module_origin_policy_supported(origin, policy),
{
    match origin {
        ModuleBindingOrigin::Local => matches!(
            policy.kind,
            CompilerBindingKind::Var
            | CompilerBindingKind::Let
            | CompilerBindingKind::Const
            | CompilerBindingKind::Function
        ),
        ModuleBindingOrigin::Import | ModuleBindingOrigin::Namespace => matches!(
            policy.kind,
            CompilerBindingKind::Const
        ) && matches!(policy.writes, CompilerWritePolicy::Immutable) && policy.temporal_dead_zone,
    }
}

/// A module binding's policy or import does not fit its origin.
pub open spec fn binding_policy_error(at: int) -> BytecodeVerificationError {
    graph_error(
        BytecodeVerificationErrorKind::ModuleBindingPolicyMismatch { binding: at as u32 },
    )
}

/// The check of a binding's policy and initializer.
pub open spec fn binding_policy_check(
    binding: UnverifiedModuleBindingDescriptor,
    at: int,
) -> Result<(), BytecodeVerificationError> {
    if !spec_module_origin_policy_supported(binding.origin, binding.policy) {
        Err(binding_policy_error(at))
    } else if binding.origin != ModuleBindingOrigin::Local && binding.initializer.is_some() {
        Err(
            graph_error(
                BytecodeVerificationErrorKind::ModuleBindingInitializerMismatch {
                    binding: at as u32,
                    constant: binding.initializer,
                },
            ),
        )
    } else {
        Ok(())
    }
}

/// The check of a binding's import: there on imported bindings only, and of one
/// of the requests.
pub open spec fn binding_import_check(
    context: ModuleContext,
    binding: UnverifiedModuleBindingDescriptor,
    at: int,
) -> Result<(), BytecodeVerificationError> {
    match (binding.origin, binding.import) {
        (ModuleBindingOrigin::Local, Some(_)) => Err(binding_policy_error(at)),
        (ModuleBindingOrigin::Local, None) => Ok(()),
        (_, None) => Err(binding_policy_error(at)),
        (_, Some(import)) => if import.request >= context.requests {
            Err(
                graph_error(
                    BytecodeVerificationErrorKind::ModuleImportRequestOutOfBounds {
                        binding: at as u32,
                        request: import.request,
                        requests: context.requests as u32,
                    },
                ),
            )
        } else {
            match import.spec_named_atom() {
                Some(atom) => atom_check(
                    context.root,
                    atom,
                    MetadataAtomField::ModuleImportName(at as u32),
                    context.atoms,
                ),
                None => Ok(()),
            }
        },
    }
}

/// Whether a closure variable is the module cell of a binding.
pub open spec fn is_module_cell(
    closure: ClosureVariableDefinition,
    binding: UnverifiedModuleBindingDescriptor,
    at: int,
) -> bool {
    closure.source == (CompilerClosureSource::Module { index: at as u32 }) && closure.binding
        == CompilerClosureBinding::Captured(binding.policy)
}

/// The check of one module binding.
pub open spec fn binding_check(
    context: ModuleContext,
    bindings: Seq<UnverifiedModuleBindingDescriptor>,
    at: int,
) -> Result<(), BytecodeVerificationError> {
    let binding = bindings[at];
    let name = atom_check(
        context.root,
        binding.name,
        MetadataAtomField::ModuleBindingName(at as u32),
        context.atoms,
    );
    if at > u32::MAX {
        Err(
            graph_error(
                BytecodeVerificationErrorKind::LimitExceeded {
                    resource: BytecodeGraphResource::VerifiedMetadata,
                    limit: 0xffff_ffff,
                    observed: at as u64,
                },
            ),
        )
    } else if name.is_err() {
        name
    } else if binding.slot >= context.closures.len() {
        Err(
            graph_error(
                BytecodeVerificationErrorKind::ModuleBindingSlotOutOfBounds {
                    binding: at as u32,
                    slot: binding.slot,
                    closures: context.closures.len() as u32,
                },
            ),
        )
    } else if exists|j: int| 0 <= j < at && (#[trigger] bindings[j]).slot == binding.slot {
        Err(
            graph_error(
                BytecodeVerificationErrorKind::ModuleBindingSlotOrder {
                    binding: at as u32,
                    slot: binding.slot,
                },
            ),
        )
    } else if !is_module_cell(context.closures[binding.slot as int], binding, at) {
        Err(
            graph_error(
                BytecodeVerificationErrorKind::ModuleBindingSlotMismatch {
                    binding: at as u32,
                    slot: binding.slot,
                },
            ),
        )
    } else if binding_policy_check(binding, at).is_err() {
        binding_policy_check(binding, at)
    } else {
        binding_import_check(context, binding, at)
    }
}

/// The checks of all module bindings.
pub open spec fn binding_checks(
    context: ModuleContext,
    bindings: Seq<UnverifiedModuleBindingDescriptor>,
) -> Seq<Result<(), BytecodeVerificationError>> {
    Seq::new(bindings.len(), |i: int| binding_check(context, bindings, i))
}

/// The checks of all module requests.
pub open spec fn request_checks(
    root: FunctionTemplateId,
    atoms: Seq<CompilerAtom>,
    requests: Seq<ModuleRequestDescriptor>,
) -> Seq<Result<(), BytecodeVerificationError>> {
    Seq::new(
        requests.len(),
        |i: int|
            atom_check(
                root,
                requests[i].specifier,
                MetadataAtomField::ModuleRequestSpecifier(i as u32),
                atoms,
            ),
    )
}

/// The descriptor of a checked binding.
pub open(crate) spec fn checked_binding(
    binding: UnverifiedModuleBindingDescriptor,
) -> ModuleBindingDescriptor {
    ModuleBindingDescriptor {
        name: binding.name,
        slot: binding.slot,
        policy: binding.policy,
        origin: binding.origin,
        initializer: binding.initializer,
        import: binding.import,
    }
}

/// Requested capacity for `count` entries failed.
pub open spec fn count_failure(
    resource: BytecodeGraphResource,
    count: int,
) -> BytecodeVerificationError {
    graph_error(
        BytecodeVerificationErrorKind::AllocationFailed { resource, requested: count as u64 },
    )
}

/// The check of a declaration record against the root that it belongs to.
pub open spec fn record_check(
    context: ModuleContext,
    record: UnverifiedModuleDeclarationRecord,
) -> Result<(), BytecodeVerificationError> {
    let requests = first_failure(
        request_checks(context.root, context.atoms, record.requests@),
    );
    if context.closures.len() > u32::MAX {
        Err(
            count_failure(
                BytecodeGraphResource::ClosureDefinitions,
                context.closures.len() as int,
            ),
        )
    } else if record.requests@.len() > u32::MAX {
        Err(
            count_failure(
                BytecodeGraphResource::VerifiedMetadata,
                record.requests@.len() as int,
            ),
        )
    } else if requests.is_err() {
        requests
    } else {
        first_failure(binding_checks(context, record.bindings@))
    }
}

/// The check of a graph's declaration record: a module has one, and nothing
/// else does.
pub open(crate) spec fn module_record_check(
    graph: VerifiedCompilerFunctionGraph,
    metadata: Seq<FunctionRecord>,
    authority: CompilerExecutableKind,
    module: Option<Arc<UnverifiedModuleDeclarationRecord>>,
) -> Result<(), BytecodeVerificationError> {
    let root = graph.root_id.0 as int;
    match module {
        None => if authority == CompilerExecutableKind::Module {
            Err(graph_error(BytecodeVerificationErrorKind::ModuleDeclarationRecordMissing))
        } else {
            Ok(())
        },
        Some(record) => if authority != CompilerExecutableKind::Module {
            Err(graph_error(BytecodeVerificationErrorKind::ModuleDeclarationRecordUnexpected))
        } else if root >= graph.functions@.len() {
            Err(count_failure(BytecodeGraphResource::VerifiedMetadata, 1))
        } else if root >= metadata.len() {
            Err(
                graph_error(
                    BytecodeVerificationErrorKind::FunctionMetadataCountMismatch {
                        functions: metadata.len() as u64,
                        metadata: metadata.len() as u64,
                    },
                ),
            )
        } else {
            record_check(
                ModuleContext {
                    root: graph.root_id,
                    atoms: graph.functions@[root].atoms@,
                    closures: metadata[root].closures,
                    requests: record.requests@.len() as int,
                },
                *record,
            )
        },
    }
}

/// Whether a verified record holds what an unverified one declares.
pub open(crate) spec fn records_module(
    verified: Option<ModuleDeclarationRecord>,
    module: Option<Arc<UnverifiedModuleDeclarationRecord>>,
) -> bool {
    match (verified, module) {
        (Some(verified), Some(module)) => verified.requests@ == module.requests@
            && verified.bindings@ == module.bindings@.map_values(
            |binding: UnverifiedModuleBindingDescriptor| checked_binding(binding),
        ),
        (None, None) => true,
        _ => false,
    }
}

/// The bindings of an accepted record occupy different closure variables of the
/// root, each of which is the module cell at the binding's own position.
pub proof fn lemma_module_bindings_have_cells_of_their_own(
    context: ModuleContext,
    record: UnverifiedModuleDeclarationRecord,
    left: int,
    right: int,
)
    requires
        record_check(context, record).is_ok(),
        0 <= left < right < record.bindings@.len(),
    ensures
        record.bindings@[left].slot < context.closures.len(),
        record.bindings@[right].slot < context.closures.len(),
        record.bindings@[left].slot != record.bindings@[right].slot,
        is_module_cell(
            context.closures[record.bindings@[left].slot as int],
            record.bindings@[left],
            left,
        ),
        is_module_cell(
            context.closures[record.bindings@[right].slot as int],
            record.bindings@[right],
            right,
        ),
{
    let checks = binding_checks(context, record.bindings@);
    lemma_success_means_all(checks);
    assert(checks[left].is_ok());
    assert(checks[right].is_ok());
}

fn verify_module_requests(
    root: FunctionTemplateId,
    atoms: &[CompilerAtom],
    requests: &[ModuleRequestDescriptor],
) -> (checked: Result<(), BytecodeVerificationError>)
    requires
        requests@.len() <= u32::MAX,
    ensures
        checked == first_failure(request_checks(root, atoms@, requests@)),
{
    let ghost checks = request_checks(root, atoms@, requests@);
    let mut at: usize = 0;
    while at < requests.len()
        invariant
            at <= requests@.len() <= u32::MAX,
            checks == request_checks(root, atoms@, requests@),
            forall|i: int| 0 <= i < at ==> (#[trigger] checks[i]).is_ok(),
        decreases requests@.len() - at,
    {
        let checked = verify_atom_bounds(
            root,
            requests[at].specifier,
            MetadataAtomField::ModuleRequestSpecifier(at as u32),
            atoms,
        );
        assert(checks[at as int] == checked);
        if checked.is_err() {
            proof {
                lemma_first_failure_at(checks, at as int);
            }
            return checked;
        }
        at = at + 1;
    }
    proof {
        lemma_no_failure(checks);
    }
    Ok(())
}

fn verify_module_binding_policy(
    binding: UnverifiedModuleBindingDescriptor,
    index: u32,
) -> (checked: Result<(), BytecodeVerificationError>)
    ensures
        checked == binding_policy_check(binding, index as int),
{
    if !module_origin_policy_supported(binding.origin, binding.policy) {
        return Err(
            BytecodeVerificationError::graph(
                BytecodeVerificationErrorKind::ModuleBindingPolicyMismatch { binding: index },
            ),
        );
    }
    if !matches!(binding.origin, ModuleBindingOrigin::Local) && binding.initializer.is_some() {
        return Err(
            BytecodeVerificationError::graph(
                BytecodeVerificationErrorKind::ModuleBindingInitializerMismatch {
                    binding: index,
                    constant: binding.initializer,
                },
            ),
        );
    }
    Ok(())
}

fn verify_module_binding_import(
    root: FunctionTemplateId,
    atoms: &[CompilerAtom],
    binding: UnverifiedModuleBindingDescriptor,
    index: u32,
    request_count: u32,
    Ghost(context): Ghost<ModuleContext>,
) -> (checked: Result<(), BytecodeVerificationError>)
    requires
        context.root == root,
        context.atoms == atoms@,
        context.requests == request_count,
    ensures
        checked == binding_import_check(context, binding, index as int),
{
    if matches!(binding.origin, ModuleBindingOrigin::Local) {
        return if binding.import.is_some() {
            Err(
                BytecodeVerificationError::graph(
                    BytecodeVerificationErrorKind::ModuleBindingPolicyMismatch { binding: index },
                ),
            )
        } else {
            Ok(())
        };
    }
    match binding.import {
        None => Err(
            BytecodeVerificationError::graph(
                BytecodeVerificationErrorKind::ModuleBindingPolicyMismatch { binding: index },
            ),
        ),
        Some(import) => {
            if import.request >= request_count {
                return Err(
                    BytecodeVerificationError::graph(
                        BytecodeVerificationErrorKind::ModuleImportRequestOutOfBounds {
                            binding: index,
                            request: import.request,
                            requests: request_count,
                        },
                    ),
                );
            }
            match import.named_atom() {
                Some(atom) => verify_atom_bounds(
                    root,
                    atom,
                    MetadataAtomField::ModuleImportName(index),
                    atoms,
                ),
                None => Ok(()),
            }
        },
    }
}

fn verify_module_binding(
    root: FunctionTemplateId,
    atoms: &[CompilerAtom],
    closures: &[ClosureVariableDefinition],
    request_count: u32,
    bindings: &[UnverifiedModuleBindingDescriptor],
    at: usize,
    seen_slots: &mut Vec<bool>,
    Ghost(context): Ghost<ModuleContext>,
) -> (checked: Result<(), BytecodeVerificationError>)
    requires
        context.root == root,
        context.atoms == atoms@,
        context.closures == closures@,
        context.requests == request_count,
        closures@.len() <= u32::MAX,
        at < bindings@.len(),
        old(seen_slots)@.len() == closures@.len(),
        forall|s: int|
            0 <= s < closures@.len() ==> #[trigger] old(seen_slots)@[s] == (exists|j: int|
                0 <= j < at && (#[trigger] bindings@[j]).slot == s),
    ensures
        checked == binding_check(context, bindings@, at as int),
        checked.is_ok() ==> final(seen_slots)@.len() == closures@.len() && (forall|s: int|
            0 <= s < closures@.len() ==> #[trigger] final(seen_slots)@[s] == (exists|j: int|
                0 <= j < at + 1 && (#[trigger] bindings@[j]).slot == s)),
{
    if at > 0xffff_ffff {
        return Err(
            BytecodeVerificationError::graph(
                BytecodeVerificationErrorKind::LimitExceeded {
                    resource: BytecodeGraphResource::VerifiedMetadata,
                    limit: 0xffff_ffff,
                    observed: at as u64,
                },
            ),
        );
    }
    let index: u32 = at as u32;
    let binding = bindings[at];
    verify_atom_bounds(root, binding.name, MetadataAtomField::ModuleBindingName(index), atoms)?;
    let slot: usize = binding.slot as usize;
    if slot >= closures.len() {
        return Err(
            BytecodeVerificationError::graph(
                BytecodeVerificationErrorKind::ModuleBindingSlotOutOfBounds {
                    binding: index,
                    slot: binding.slot,
                    closures: closures.len() as u32,
                },
            ),
        );
    }
    if seen_slots[slot] {
        return Err(
            BytecodeVerificationError::graph(
                BytecodeVerificationErrorKind::ModuleBindingSlotOrder {
                    binding: index,
                    slot: binding.slot,
                },
            ),
        );
    }
    let ghost before = seen_slots@;
    seen_slots.set(slot, true);
    proof {
        assert forall|s: int| 0 <= s < closures@.len() implies #[trigger] seen_slots@[s] == (
        exists|j: int| 0 <= j < at + 1 && (#[trigger] bindings@[j]).slot == s) by {
            assert(before[s] == (exists|j: int|
                0 <= j < at && (#[trigger] bindings@[j]).slot == s));
            if s == slot {
                assert(bindings@[at as int].slot == s);
            } else if before[s] {
                let j = choose|j: int| 0 <= j < at && (#[trigger] bindings@[j]).slot == s;
                assert(bindings@[j].slot == s);
            }
        }
    }
    let closure = closures[slot];
    let source_matches: bool = match closure.source {
        CompilerClosureSource::Module { index: cell } => cell == index,
        _ => false,
    };
    let binding_matches: bool = match closure.binding {
        CompilerClosureBinding::Captured(policy) => policy == binding.policy,
        CompilerClosureBinding::RealmGlobal(_) => false,
    };
    if !source_matches || !binding_matches {
        return Err(
            BytecodeVerificationError::graph(
                BytecodeVerificationErrorKind::ModuleBindingSlotMismatch {
                    binding: index,
                    slot: binding.slot,
                },
            ),
        );
    }
    verify_module_binding_policy(binding, index)?;
    verify_module_binding_import(root, atoms, binding, index, request_count, Ghost(context))
}

fn verify_module_bindings(
    root: FunctionTemplateId,
    atoms: &[CompilerAtom],
    closures: &[ClosureVariableDefinition],
    request_count: u32,
    bindings: &[UnverifiedModuleBindingDescriptor],
    Ghost(context): Ghost<ModuleContext>,
) -> (verified: Result<Vec<ModuleBindingDescriptor>, BytecodeVerificationError>)
    requires
        context.root == root,
        context.atoms == atoms@,
        context.closures == closures@,
        context.requests == request_count,
        closures@.len() <= u32::MAX,
    ensures
        match verified {
            Ok(verified) => first_failure(binding_checks(context, bindings@)).is_ok()
                && verified@ == bindings@.map_values(
                |binding: UnverifiedModuleBindingDescriptor| checked_binding(binding),
            ),
            Err(error) => first_failure(binding_checks(context, bindings@)) == Err::<
                (),
                BytecodeVerificationError,
            >(error),
        },
{
    let mut seen_slots: Vec<bool> = Vec::new();
    while seen_slots.len() < closures.len()
        invariant
            seen_slots@.len() <= closures@.len(),
            forall|s: int| 0 <= s < seen_slots@.len() ==> !(#[trigger] seen_slots@[s]),
        decreases closures@.len() - seen_slots@.len(),
    {
        seen_slots.push(false);
    }
    let ghost checks = binding_checks(context, bindings@);
    let mut verified: Vec<ModuleBindingDescriptor> = Vec::new();
    let mut at: usize = 0;
    while at < bindings.len()
        invariant
            at <= bindings@.len(),
            context.root == root,
            context.atoms == atoms@,
            context.closures == closures@,
            context.requests == request_count,
            closures@.len() <= u32::MAX,
            checks == binding_checks(context, bindings@),
            forall|i: int| 0 <= i < at ==> (#[trigger] checks[i]).is_ok(),
            seen_slots@.len() == closures@.len(),
            forall|s: int|
                0 <= s < closures@.len() ==> #[trigger] seen_slots@[s] == (exists|j: int|
                    0 <= j < at && (#[trigger] bindings@[j]).slot == s),
            verified@.len() == at,
            forall|i: int|
                0 <= i < at ==> #[trigger] verified@[i] == checked_binding(bindings@[i]),
        decreases bindings@.len() - at,
    {
        let checked = verify_module_binding(
            root,
            atoms,
            closures,
            request_count,
            bindings,
            at,
            &mut seen_slots,
            Ghost(context),
        );
        assert(checks[at as int] == checked);
        if let Err(error) = checked {
            proof {
                lemma_first_failure_at(checks, at as int);
            }
            return Err(error);
        }
        let binding = bindings[at];
        verified.push(
            ModuleBindingDescriptor {
                name: binding.name,
                slot: binding.slot,
                policy: binding.policy,
                origin: binding.origin,
                initializer: binding.initializer,
                import: binding.import,
            },
        );
        at = at + 1;
    }
    proof {
        lemma_no_failure(checks);
        assert(verified@ =~= bindings@.map_values(
            |binding: UnverifiedModuleBindingDescriptor| checked_binding(binding),
        ));
    }
    Ok(verified)
}

/// Checks the declaration record of a graph: a module has one, its requests and
/// bindings name atoms of the root, and each binding is a closure variable of
/// the root of its own, with the policy and import that its origin asks for.
pub fn verify_module_declaration_record(
    graph: &VerifiedCompilerFunctionGraph,
    verified: &[VerifiedFunctionMetadata],
    authority_kind: CompilerExecutableKind,
    module: Option<Arc<UnverifiedModuleDeclarationRecord>>,
) -> (record: Result<Option<ModuleDeclarationRecord>, BytecodeVerificationError>)
    ensures
        match record {
            Ok(record) => module_record_check(*graph, records_of(verified@), authority_kind, module).is_ok()
                && records_module(record, module),
            Err(error) => module_record_check(*graph, records_of(verified@), authority_kind, module) == Err::<
                (),
                BytecodeVerificationError,
            >(error),
        },
{
    let record = match module {
        Some(record) => record,
        None => {
            return if matches!(authority_kind, CompilerExecutableKind::Module) {
                Err(
                    BytecodeVerificationError::graph(
                        BytecodeVerificationErrorKind::ModuleDeclarationRecordMissing,
                    ),
                )
            } else {
                Ok(None)
            };
        },
    };
    if !matches!(authority_kind, CompilerExecutableKind::Module) {
        return Err(
            BytecodeVerificationError::graph(
                BytecodeVerificationErrorKind::ModuleDeclarationRecordUnexpected,
            ),
        );
    }
    let root_id = graph.root_id();
    let root_index: usize = root_id.0 as usize;
    let root_function = match graph.function(root_id) {
        Some(function) => function,
        None => {
            return Err(
                BytecodeVerificationError::graph(
                    BytecodeVerificationErrorKind::AllocationFailed {
                        resource: BytecodeGraphResource::VerifiedMetadata,
                        requested: 1,
                    },
                ),
            );
        },
    };
    if root_index >= verified.len() {
        return Err(
            BytecodeVerificationError::graph(
                BytecodeVerificationErrorKind::FunctionMetadataCountMismatch {
                    functions: verified.len() as u64,
                    metadata: verified.len() as u64,
                },
            ),
        );
    }
    let closures = verified[root_index].closures();
    if closures.len() > 0xffff_ffff {
        return Err(
            BytecodeVerificationError::graph(
                BytecodeVerificationErrorKind::AllocationFailed {
                    resource: BytecodeGraphResource::ClosureDefinitions,
                    requested: closures.len() as u64,
                },
            ),
        );
    }
    if record.requests.len() > 0xffff_ffff {
        return Err(
            BytecodeVerificationError::graph(
                BytecodeVerificationErrorKind::AllocationFailed {
                    resource: BytecodeGraphResource::VerifiedMetadata,
                    requested: record.requests.len() as u64,
                },
            ),
        );
    }
    let request_count: u32 = record.requests.len() as u32;
    let atoms = root_function.atoms();
    let ghost context = ModuleContext {
        root: root_id,
        atoms: atoms@,
        closures: closures@,
        requests: request_count as int,
    };
    verify_module_requests(root_id, atoms, &record.requests)?;
    let bindings = verify_module_bindings(
        root_id,
        atoms,
        closures,
        request_count,
        &record.bindings,
        Ghost(context),
    )?;
    Ok(
        Some(
            ModuleDeclarationRecord {
                bindings: Arc::new(bindings),
                requests: Arc::clone(&record.requests),
            },
        ),
    )
}

} // verus!
