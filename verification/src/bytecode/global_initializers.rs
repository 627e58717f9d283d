//! Placement of function initializers of realm globals.
use crate::bytecode::error::{
    BytecodeVerificationError, BytecodeVerificationErrorKind, function_error,
};
use crate::bytecode::function_initializers::{entry_edges, flows_to_next};
use crate::bytecode::initializer_pairs::{
    InitializerBody, body_incoming, closure_constant, count_incoming_edges, flows_on, position_of,
    saturated_count, spec_closure_constant,
};
use crate::bytecode::internal_stack::InternalStackCertificate;
use crate::bytecode::internal_verifier::CertificateModel;
use crate::bytecode::model::{
    BytecodeGraphResource, ClosureVariableDefinition, CompilerClosureBinding,
};
use crate::bytecode::operand_use::{saturated_u32, usize_to_u32};
use crate::bytecode::stack_error::{global_initializer_failure, try_filled_vec};
use crate::control_flow::model::VerifiedInstruction;
use crate::function_graph::{FunctionTemplateId, VerifiedCompilerFunction};
use crate::instruction::Operands;
use crate::opcode::FinalOpcode;
use vstd::prelude::*;

verus! {

/// Whether a closure variable is a realm global with a function initializer.
pub open spec fn initializes_global(closure: ClosureVariableDefinition) -> bool {
    closure.function_initializer.is_some() && match closure.binding {
        CompilerClosureBinding::RealmGlobal(_) => true,
        CompilerClosureBinding::Captured(_) => false,
    }
}

fn is_global_initializer(closure: ClosureVariableDefinition) -> (initializes: bool)
    ensures
        initializes == initializes_global(closure),
{
    closure.function_initializer.is_some() && matches!(
        closure.binding,
        CompilerClosureBinding::RealmGlobal(_)
    )
}

/// First closure variable from `from` on that has a function initializer.
pub open spec fn first_initialized(
    closures: Seq<ClosureVariableDefinition>,
    from: int,
) -> Option<int>
    decreases closures.len() - from,
{
    if from >= closures.len() {
        None
    } else if closures[from].function_initializer.is_some() {
        Some(from)
    } else {
        first_initialized(closures, from + 1)
    }
}

/// A realm global is initialized outside the root.
pub open spec fn misplaced_global_error(
    id: FunctionTemplateId,
    closures: Seq<ClosureVariableDefinition>,
) -> BytecodeVerificationError {
    let closure = match first_initialized(closures, 0) {
        Some(closure) => saturated_u32(closure),
        None => 0,
    };
    function_error(
        id,
        BytecodeVerificationErrorKind::RealmGlobalFunctionInitializerMetadataMismatch {
            closure,
            constant: if closure < closures.len() {
                closures[closure as int].function_initializer
            } else {
                None
            },
        },
    )
}

/// Closure variable that the pair at `at` initializes: a closure of the
/// variable's constant, directly and only followed by the put of the variable.
pub open(crate) spec fn global_pair(
    body: InitializerBody,
    closures: Seq<ClosureVariableDefinition>,
    at: int,
) -> Option<int> {
    if !(0 <= at && at + 1 < body.instructions.len()) {
        None
    } else {
        let closure = body.instructions[at].decoded.instruction;
        let put = body.instructions[at + 1].decoded.instruction;
        match (
            spec_closure_constant(closure.opcode, closure.operands),
            put.opcode,
            put.operands,
        ) {
            (Some(constant), FinalOpcode::PutVar, Operands::VarRef(slot)) => if slot
                < closures.len() && closures[slot as int].function_initializer == Some(constant)
                && flows_on(body, at) && body_incoming(body, at + 1) == 1 {
                Some(slot as int)
            } else {
                None
            },
            _ => None,
        }
    }
}

/// Pairs among the first `count` instructions that initialize a closure variable.
pub open(crate) spec fn global_pairs_before(
    body: InitializerBody,
    closures: Seq<ClosureVariableDefinition>,
    closure: int,
    count: int,
) -> nat
    decreases count,
{
    if count <= 0 {
        0
    } else {
        global_pairs_before(body, closures, closure, count - 1) + if global_pair(
            body,
            closures,
            count - 1,
        ) == Some(closure) {
            1nat
        } else {
            0nat
        }
    }
}

/// First pair from `from` on that initializes a closure variable.
pub open(crate) spec fn first_global_pair(
    body: InitializerBody,
    closures: Seq<ClosureVariableDefinition>,
    closure: int,
    from: int,
) -> Option<int>
    decreases body.instructions.len() - from,
{
    if from >= body.instructions.len() {
        None
    } else if global_pair(body, closures, from) == Some(closure) {
        Some(from)
    } else {
        first_global_pair(body, closures, closure, from + 1)
    }
}

/// The prefix behind the initializer of one closure variable.
pub open(crate) spec fn global_prefix_behind(
    body: InitializerBody,
    closures: Seq<ClosureVariableDefinition>,
    closure: int,
    prefix: int,
) -> Result<int, BytecodeVerificationError> {
    let matches = global_pairs_before(body, closures, closure, body.instructions.len() as int);
    if !initializes_global(closures[closure]) {
        Ok(prefix)
    } else {
        match first_global_pair(body, closures, closure, 0) {
            Some(site) if matches == 1 => if site != prefix || body_incoming(body, site)
                != entry_edges(prefix) {
                Err(
                    function_error(
                        body.id,
                        BytecodeVerificationErrorKind::RealmGlobalFunctionInitializerPlacementMismatch {
                            closure: saturated_u32(closure),
                            pc: body.instructions[site].decoded.pc,
                        },
                    ),
                )
            } else {
                Ok(prefix + 2)
            },
            _ => Err(
                function_error(
                    body.id,
                    BytecodeVerificationErrorKind::RealmGlobalFunctionInitializerOpcodeMismatch {
                        closure: saturated_u32(closure),
                        constant: closures[closure].function_initializer.unwrap(),
                        matches: saturated_count(matches),
                    },
                ),
            ),
        }
    }
}

/// The prefix behind the initializers of the closure variables from `closure` on.
pub open(crate) spec fn global_prefix_behind_all(
    body: InitializerBody,
    closures: Seq<ClosureVariableDefinition>,
    closure: int,
    prefix: int,
) -> Result<int, BytecodeVerificationError>
    decreases closures.len() - closure,
{
    if closure >= closures.len() {
        Ok(prefix)
    } else {
        match global_prefix_behind(body, closures, closure, prefix) {
            Ok(next) => global_prefix_behind_all(body, closures, closure + 1, next),
            Err(error) => Err(error),
        }
    }
}

/// Realm globals from `from` on that have a function initializer.
pub open spec fn initialized_globals(closures: Seq<ClosureVariableDefinition>, from: int) -> nat
    decreases closures.len() - from,
{
    if from >= closures.len() {
        0
    } else {
        initialized_globals(closures, from + 1) + if initializes_global(closures[from]) {
            1nat
        } else {
            0nat
        }
    }
}

/// Accepted initializers of realm globals fill the prefix that they take, two
/// instructions each.
pub proof fn lemma_initializers_fill_the_prefix(
    body: InitializerBody,
    closures: Seq<ClosureVariableDefinition>,
    closure: int,
    prefix: int,
)
    requires
        global_prefix_behind_all(body, closures, closure, prefix).is_ok(),
    ensures
        global_prefix_behind_all(body, closures, closure, prefix)->Ok_0 == prefix + 2
            * initialized_globals(closures, closure),
    decreases closures.len() - closure,
{
    if closure < closures.len() {
        let next = global_prefix_behind(body, closures, closure, prefix)->Ok_0;
        lemma_initializers_fill_the_prefix(body, closures, closure + 1, next);
    }
}

/// Instructions of the entry prefix that initialize realm globals.
pub open(crate) spec fn global_prefix_verdict(
    body: InitializerBody,
    root: FunctionTemplateId,
    closures: Seq<ClosureVariableDefinition>,
) -> Result<int, BytecodeVerificationError> {
    if forall|c: int| 0 <= c < closures.len() ==> !initializes_global(#[trigger] closures[c]) {
        Ok(0)
    } else if body.id != root {
        Err(misplaced_global_error(body.id, closures))
    } else {
        global_prefix_behind_all(body, closures, 0, 0)
    }
}

/// The body that realm-global initializers are looked for in.
pub open(crate) spec fn global_body(
    id: FunctionTemplateId,
    function: VerifiedCompilerFunction,
    certificate: CertificateModel,
) -> InitializerBody {
    InitializerBody {
        id,
        instructions: function.control_flow.instructions@,
        variables: seq![],
        argument_count: function.control_flow.domains.argument_count,
        certificate,
    }
}

fn has_global_initializer(closures: &[ClosureVariableDefinition]) -> (found: bool)
    ensures
        found == !(forall|c: int|
            0 <= c < closures@.len() ==> !initializes_global(#[trigger] closures@[c])),
{
    let mut at: usize = 0;
    while at < closures.len()
        invariant
            at <= closures@.len(),
            forall|c: int| 0 <= c < at ==> !initializes_global(#[trigger] closures@[c]),
        decreases closures@.len() - at,
    {
        if is_global_initializer(closures[at]) {
            assert(initializes_global(closures@[at as int]));
            return true;
        }
        at = at + 1;
    }
    false
}

fn report_misplaced_global(
    id: FunctionTemplateId,
    closures: &[ClosureVariableDefinition],
) -> (error: BytecodeVerificationError)
    ensures
        error == misplaced_global_error(id, closures@),
{
    let mut at: usize = 0;
    while at < closures.len() && closures[at].function_initializer.is_none()
        invariant
            at <= closures@.len(),
            first_initialized(closures@, 0) == first_initialized(closures@, at as int),
        decreases closures@.len() - at,
    {
        at = at + 1;
    }
    let closure: u32 = if at < closures.len() {
        usize_to_u32(at)
    } else {
        0
    };
    let constant: Option<u32> = if (closure as usize) < closures.len() {
        closures[closure as usize].function_initializer
    } else {
        None
    };
    BytecodeVerificationError::function(
        id,
        BytecodeVerificationErrorKind::RealmGlobalFunctionInitializerMetadataMismatch {
            closure,
            constant,
        },
    )
}

fn find_global_pair(
    instructions: &[VerifiedInstruction],
    closures: &[ClosureVariableDefinition],
    internal_stack: &InternalStackCertificate,
    counts: &Vec<u32>,
    at: usize,
    Ghost(body): Ghost<InitializerBody>,
) -> (closure: Option<usize>)
    requires
        at < instructions@.len(),
        body.instructions == instructions@,
        body.certificate == internal_stack.model(),
        counts@.len() == instructions@.len(),
        forall|t: int|
            0 <= t < counts@.len() ==> #[trigger] counts@[t] == saturated_count(
                body_incoming(body, t),
            ),
    ensures
        position_of(closure) == global_pair(body, closures@, at as int),
        match closure {
            Some(closure) => closure < closures@.len(),
            None => true,
        },
{
    if at >= instructions.len() - 1 {
        return None;
    }
    let closure = instructions[at].decoded.instruction;
    let constant: u32 = match closure_constant(closure.opcode, closure.operands) {
        Some(constant) => constant,
        None => {
            return None;
        },
    };
    let put = instructions[at + 1].decoded.instruction;
    let slot: usize = match (put.opcode, put.operands) {
        (FinalOpcode::PutVar, Operands::VarRef(slot)) => slot as usize,
        _ => {
            return None;
        },
    };
    if slot >= closures.len() {
        return None;
    }
    let matching: bool = match closures[slot].function_initializer {
        Some(initializer) => initializer == constant,
        None => false,
    };
    assert(counts@[at + 1] == saturated_count(body_incoming(body, at + 1)));
    if matching && flows_to_next(instructions, internal_stack, at, Ghost(body)) && counts[at + 1]
        == 1 {
        Some(slot)
    } else {
        None
    }
}

/// Pairs that initialize each closure variable, and where the first ones stand.
struct GlobalPairTable {
    matches: Vec<u32>,
    sites: Vec<Option<usize>>,
}

impl GlobalPairTable {
    spec fn holds(
        &self,
        body: InitializerBody,
        closures: Seq<ClosureVariableDefinition>,
    ) -> bool {
        let count = body.instructions.len() as int;
        &&& self.matches@.len() == closures.len()
        &&& self.sites@.len() == closures.len()
        &&& forall|c: int|
            0 <= c < closures.len() ==> #[trigger] self.matches@[c] == saturated_count(
                global_pairs_before(body, closures, c, count),
            )
        &&& forall|c: int|
            0 <= c < closures.len() ==> position_of(#[trigger] self.sites@[c])
                == first_global_pair(body, closures, c, 0)
        &&& forall|c: int|
            0 <= c < closures.len() ==> match #[trigger] self.sites@[c] {
                Some(site) => site + 1 < body.instructions.len(),
                None => true,
            }
    }
}

/// A pair that stands below `end` is counted there.
proof fn lemma_global_pair_counted(
    body: InitializerBody,
    closures: Seq<ClosureVariableDefinition>,
    closure: int,
    site: int,
    end: int,
)
    requires
        0 <= site < end,
        global_pair(body, closures, site) == Some(closure),
    ensures
        global_pairs_before(body, closures, closure, end) > 0,
    decreases end - site,
{
    if site + 1 < end {
        lemma_global_pair_counted(body, closures, closure, site, end - 1);
    }
}

fn find_global_pairs(
    id: FunctionTemplateId,
    instructions: &[VerifiedInstruction],
    closures: &[ClosureVariableDefinition],
    internal_stack: &InternalStackCertificate,
    counts: &Vec<u32>,
    Ghost(body): Ghost<InitializerBody>,
) -> (table: Result<GlobalPairTable, BytecodeVerificationError>)
    requires
        body.instructions == instructions@,
        body.certificate == internal_stack.model(),
        counts@.len() == instructions@.len(),
        forall|t: int|
            0 <= t < counts@.len() ==> #[trigger] counts@[t] == saturated_count(
                body_incoming(body, t),
            ),
    ensures
        match table {
            Ok(table) => table.holds(body, closures@),
            Err(error) => global_initializer_failure(
                id,
                closures@.len(),
                instructions@.len(),
                error,
            ),
        },
{
    let mut sites = try_filled_vec(
        id,
        closures.len(),
        None::<usize>,
        BytecodeGraphResource::ClosureDefinitions,
    )?;
    let mut matches = try_filled_vec(
        id,
        closures.len(),
        0u32,
        BytecodeGraphResource::ClosureDefinitions,
    )?;
    let mut at: usize = 0;
    while at < instructions.len()
        invariant
            at <= instructions@.len(),
            body.instructions == instructions@,
            body.certificate == internal_stack.model(),
            counts@.len() == instructions@.len(),
            forall|t: int|
                0 <= t < counts@.len() ==> #[trigger] counts@[t] == saturated_count(
                    body_incoming(body, t),
                ),
            matches@.len() == closures@.len(),
            sites@.len() == closures@.len(),
            forall|c: int|
                0 <= c < closures@.len() ==> #[trigger] matches@[c] == saturated_count(
                    global_pairs_before(body, closures@, c, at as int),
                ),
            forall|c: int|
                0 <= c < closures@.len() ==> match #[trigger] sites@[c] {
                    Some(site) => site < at && global_pair(body, closures@, site as int) == Some(c)
                        && first_global_pair(body, closures@, c, 0) == Some(site as int),
                    None => global_pairs_before(body, closures@, c, at as int) == 0
                        && first_global_pair(body, closures@, c, 0) == first_global_pair(
                        body,
                        closures@,
                        c,
                        at as int,
                    ),
                },
        decreases instructions@.len() - at,
    {
        let found = find_global_pair(
            instructions,
            closures,
            internal_stack,
            counts,
            at,
            Ghost(body),
        );
        let ghost before_sites = sites@;
        if let Some(closure) = found {
            let count: u32 = matches[closure];
            matches.set(closure, count.saturating_add(1));
            if count == 0 {
                sites.set(closure, Some(at));
            }
        }
        proof {
            assert forall|c: int| 0 <= c < closures@.len() implies match #[trigger] sites@[c] {
                Some(site) => site < at + 1 && global_pair(body, closures@, site as int) == Some(c)
                    && first_global_pair(body, closures@, c, 0) == Some(site as int),
                None => global_pairs_before(body, closures@, c, at + 1) == 0 && first_global_pair(
                    body,
                    closures@,
                    c,
                    0,
                ) == first_global_pair(body, closures@, c, at + 1),
            } by {
                assert(match before_sites[c] {
                    Some(site) => site < at && global_pair(body, closures@, site as int) == Some(c)
                        && first_global_pair(body, closures@, c, 0) == Some(site as int),
                    None => global_pairs_before(body, closures@, c, at as int) == 0
                        && first_global_pair(body, closures@, c, 0) == first_global_pair(
                        body,
                        closures@,
                        c,
                        at as int,
                    ),
                });
                if let Some(site) = before_sites[c] {
                    lemma_global_pair_counted(body, closures@, c, site as int, at as int);
                }
            }
        }
        at = at + 1;
    }
    Ok(GlobalPairTable { matches, sites })
}

fn verify_global_order(
    id: FunctionTemplateId,
    instructions: &[VerifiedInstruction],
    closures: &[ClosureVariableDefinition],
    counts: &Vec<u32>,
    table: &GlobalPairTable,
    Ghost(body): Ghost<InitializerBody>,
) -> (end: Result<usize, BytecodeVerificationError>)
    requires
        body.id == id,
        body.instructions == instructions@,
        table.holds(body, closures@),
        counts@.len() == instructions@.len(),
        forall|t: int|
            0 <= t < counts@.len() ==> #[trigger] counts@[t] == saturated_count(
                body_incoming(body, t),
            ),
    ensures
        match (end, global_prefix_behind_all(body, closures@, 0, 0)) {
            (Ok(end), Ok(expected)) => end == expected,
            (Err(error), Err(expected)) => error == expected,
            _ => false,
        },
{
    let instruction_count: usize = instructions.len();
    let mut prefix: usize = 0;
    let mut closure: usize = 0;
    while closure < closures.len()
        invariant
            closure <= closures@.len(),
            body.id == id,
            body.instructions == instructions@,
            instruction_count == instructions@.len(),
            table.holds(body, closures@),
            counts@.len() == instructions@.len(),
            forall|t: int|
                0 <= t < counts@.len() ==> #[trigger] counts@[t] == saturated_count(
                    body_incoming(body, t),
                ),
            global_prefix_behind_all(body, closures@, 0, 0) == global_prefix_behind_all(
                body,
                closures@,
                closure as int,
                prefix as int,
            ),
        decreases closures@.len() - closure,
    {
        if is_global_initializer(closures[closure]) {
            let constant: u32 = match closures[closure].function_initializer {
                Some(constant) => constant,
                None => 0,
            };
            assert(table.matches@[closure as int] == saturated_count(
                global_pairs_before(
                    body,
                    closures@,
                    closure as int,
                    body.instructions.len() as int,
                ),
            ));
            assert(position_of(table.sites@[closure as int]) == first_global_pair(
                body,
                closures@,
                closure as int,
                0,
            ));
            match (table.matches[closure], table.sites[closure]) {
                (1, Some(site)) => {
                    assert(counts@[site as int] == saturated_count(
                        body_incoming(body, site as int),
                    ));
                    let expected: u32 = if prefix == 0 {
                        0
                    } else {
                        1
                    };
                    if site != prefix || counts[site] != expected {
                        return Err(
                            BytecodeVerificationError::function(
                                id,
                                BytecodeVerificationErrorKind::RealmGlobalFunctionInitializerPlacementMismatch {
                                    closure: usize_to_u32(closure),
                                    pc: instructions[site].decoded.pc,
                                },
                            ),
                        );
                    }
                    prefix = prefix + 2;
                },
                (matches, _) => {
                    return Err(
                        BytecodeVerificationError::function(
                            id,
                            BytecodeVerificationErrorKind::RealmGlobalFunctionInitializerOpcodeMismatch {
                                closure: usize_to_u32(closure),
                                constant,
                                matches,
                            },
                        ),
                    );
                },
            }
        }
        closure = closure + 1;
    }
    Ok(prefix)
}

/// Checks that every realm-global function declaration of the root is
/// initialized by exactly one closure/put pair, and that these pairs open the
/// body in the order of the declarations. Returns how many instructions they
/// take.
pub fn verify_realm_global_function_initializers(
    id: FunctionTemplateId,
    root: FunctionTemplateId,
    function: &VerifiedCompilerFunction,
    closures: &[ClosureVariableDefinition],
    internal_stack: &InternalStackCertificate,
) -> (prefix: Result<usize, BytecodeVerificationError>)
    ensures
        ({
            let body = global_body(id, *function, internal_stack.model());
            match prefix {
                Ok(prefix) => global_prefix_verdict(body, root, closures@) == Ok::<
                    int,
                    BytecodeVerificationError,
                >(prefix as int),
                Err(error) => global_prefix_verdict(body, root, closures@) == Err::<
                    int,
                    BytecodeVerificationError,
                >(error) || (global_initializer_failure(
                    id,
                    closures@.len(),
                    body.instructions.len(),
                    error,
                ) && id == root && exists|c: int|
                    0 <= c < closures@.len() && initializes_global(#[trigger] closures@[c])),
            }
        }),
{
    if !has_global_initializer(closures) {
        return Ok(0);
    }
    if id.0 != root.0 {
        return Err(report_misplaced_global(id, closures));
    }
    let instructions = function.control_flow().instructions();
    let ghost body = global_body(id, *function, internal_stack.model());
    let counts = count_incoming_edges(id, instructions, internal_stack)?;
    let table = find_global_pairs(
        id,
        instructions,
        closures,
        internal_stack,
        &counts,
        Ghost(body),
    )?;
    verify_global_order(id, instructions, closures, &counts, &table, Ghost(body))
}

} // verus!
