//! Closure/put instruction pairs that initialize function declarations.
use crate::bytecode::error::BytecodeVerificationError;
use crate::bytecode::internal_stack::{
    EffectiveEdge, InternalStackCertificate, effective_edges, entry_at,
};
use crate::bytecode::internal_verifier::CertificateModel;
use crate::bytecode::model::{BytecodeGraphResource, VariableDefinition};
use crate::bytecode::opcode_profile::{
    initializer_put_definition, spec_initializer_put_definition,
};
use crate::bytecode::operand_use::{saturated_u32, usize_to_u32};
use crate::bytecode::stack_error::{initializer_failure, reservation_failure, try_filled_vec};
use crate::control_flow::model::VerifiedInstruction;
use crate::function_graph::FunctionTemplateId;
use crate::instruction::Operands;
use crate::opcode::FinalOpcode;
use vstd::prelude::*;

verus! {

/// Effective edges out of one instruction.
pub open(crate) spec fn edges_out(
    certificate: CertificateModel,
    instructions: Seq<VerifiedInstruction>,
    at: int,
) -> Seq<EffectiveEdge> {
    effective_edges(
        instructions,
        at,
        certificate.continuations,
        entry_at(certificate.certificates.rets, at),
    )
}

/// Whether an effective edge leads from one instruction to another.
pub open(crate) spec fn continues_at(
    certificate: CertificateModel,
    instructions: Seq<VerifiedInstruction>,
    at: int,
    target: u32,
) -> bool {
    exists|i: int|
        0 <= i < edges_out(certificate, instructions, at).len() && (#[trigger] edges_out(
            certificate,
            instructions,
            at,
        )[i]).target.spec_get() == target
}

/// Edges among the first `count` that reach `target`.
pub open spec fn edges_reaching(edges: Seq<EffectiveEdge>, target: int, count: int) -> nat
    decreases count,
{
    if count <= 0 {
        0
    } else {
        edges_reaching(edges, target, count - 1) + if edges[count - 1].target.spec_get()
            == target {
            1nat
        } else {
            0nat
        }
    }
}

/// Effective edges into `target` from the first `count` instructions.
pub open(crate) spec fn incoming_edges(
    certificate: CertificateModel,
    instructions: Seq<VerifiedInstruction>,
    target: int,
    count: int,
) -> nat
    decreases count,
{
    if count <= 0 {
        0
    } else {
        let edges = edges_out(certificate, instructions, count - 1);
        incoming_edges(certificate, instructions, target, count - 1) + edges_reaching(
            edges,
            target,
            edges.len() as int,
        )
    }
}

/// A count of edges as 32 bits, saturating.
pub open spec fn saturated_count(count: nat) -> u32 {
    saturated_u32(count as int)
}

/// Returns the number of effective edges into each instruction.
pub(crate) fn count_incoming_edges(
    id: FunctionTemplateId,
    instructions: &[VerifiedInstruction],
    internal_stack: &InternalStackCertificate,
) -> (counts: Result<Vec<u32>, BytecodeVerificationError>)
    ensures
        match counts {
            Ok(counts) => counts@.len() == instructions@.len() && forall|t: int|
                0 <= t < counts@.len() ==> #[trigger] counts@[t] == saturated_count(
                    incoming_edges(
                        internal_stack.model(),
                        instructions@,
                        t,
                        instructions@.len() as int,
                    ),
                ),
            Err(error) => error == reservation_failure(
                id,
                BytecodeGraphResource::SourceMappings,
                instructions@.len() as u64,
            ),
        },
{
    let mut counts = try_filled_vec(
        id,
        instructions.len(),
        0u32,
        BytecodeGraphResource::SourceMappings,
    )?;
    let ghost model = internal_stack.model();
    let mut at: usize = 0;
    while at < instructions.len()
        invariant
            at <= instructions@.len(),
            model == internal_stack.model(),
            counts@.len() == instructions@.len(),
            forall|t: int|
                0 <= t < counts@.len() ==> #[trigger] counts@[t] == saturated_count(
                    incoming_edges(model, instructions@, t, at as int),
                ),
        decreases instructions@.len() - at,
    {
        let edges = internal_stack.effective_successors(instructions, at);
        assert(edges@ == edges_out(model, instructions@, at as int));
        let ghost before = counts@;
        let mut k: usize = 0;
        while k < edges.len()
            invariant
                k <= edges@.len(),
                counts@.len() == instructions@.len(),
                before.len() == counts@.len(),
                forall|t: int|
                    0 <= t < before.len() ==> #[trigger] before[t] == saturated_count(
                        incoming_edges(model, instructions@, t, at as int),
                    ),
                forall|t: int|
                    0 <= t < counts@.len() ==> #[trigger] counts@[t] == saturated_count(
                        incoming_edges(model, instructions@, t, at as int) + edges_reaching(
                            edges@,
                            t,
                            k as int,
                        ),
                    ),
            decreases edges@.len() - k,
        {
            let target: usize = edges[k].target.get() as usize;
            if target < counts.len() {
                let count: u32 = counts[target];
                counts.set(target, count.saturating_add(1));
            }
            k = k + 1;
        }
        at = at + 1;
    }
    Ok(counts)
}

/// Constant that a closure instruction instantiates.
pub open spec fn spec_closure_constant(opcode: FinalOpcode, operands: Operands) -> Option<u32> {
    match (opcode, operands) {
        (FinalOpcode::FClosure, Operands::Const(index)) => Some(index),
        (FinalOpcode::FClosure8, Operands::Const8(index)) => Some(index as u32),
        _ => None,
    }
}

#[verifier::when_used_as_spec(spec_closure_constant)]
pub(crate) fn closure_constant(opcode: FinalOpcode, operands: Operands) -> (constant: Option<u32>)
    ensures
        constant == spec_closure_constant(opcode, operands),
{
    match (opcode, operands) {
        (FinalOpcode::FClosure, Operands::Const(index)) => Some(index),
        (FinalOpcode::FClosure8, Operands::Const8(index)) => Some(index as u32),
        _ => None,
    }
}

/// What function initializers are looked for in.
pub struct InitializerBody {
    /// Function being checked.
    pub id: FunctionTemplateId,
    /// Its instructions.
    pub instructions: Seq<VerifiedInstruction>,
    /// Its arguments, then locals.
    pub variables: Seq<VariableDefinition>,
    /// Its argument count.
    pub argument_count: u32,
    /// Its typed-stack certificate.
    pub certificate: CertificateModel,
}

/// Effective edges into an instruction.
pub open(crate) spec fn body_incoming(body: InitializerBody, target: int) -> nat {
    incoming_edges(
        body.certificate,
        body.instructions,
        target,
        body.instructions.len() as int,
    )
}

/// Whether an effective edge leads from an instruction to the next one.
pub open(crate) spec fn flows_on(body: InitializerBody, at: int) -> bool {
    continues_at(body.certificate, body.instructions, at, saturated_u32(at + 1))
}

/// Definition that the pair at `at` initializes: a closure of the definition's
/// constant, directly and only followed by the put of the definition.
pub open(crate) spec fn pair_definition(body: InitializerBody, at: int) -> Option<int> {
    if !(0 <= at && at + 1 < body.instructions.len()) {
        None
    } else {
        let closure = body.instructions[at].decoded.instruction;
        let put = body.instructions[at + 1].decoded.instruction;
        match (
            spec_closure_constant(closure.opcode, closure.operands),
            spec_initializer_put_definition(put.opcode, put.operands, body.argument_count),
        ) {
            (Some(constant), Some(definition)) => if definition < body.variables.len()
                && body.variables[definition].function_initializer == Some(constant) && flows_on(
                body,
                at,
            ) && body_incoming(body, at + 1) == 1 {
                Some(definition)
            } else {
                None
            },
            _ => None,
        }
    }
}

/// Pairs among the first `count` instructions that initialize a definition.
pub open(crate) spec fn pairs_before(body: InitializerBody, definition: int, count: int) -> nat
    decreases count,
{
    if count <= 0 {
        0
    } else {
        pairs_before(body, definition, count - 1) + if pair_definition(body, count - 1) == Some(
            definition,
        ) {
            1nat
        } else {
            0nat
        }
    }
}

/// Definition whose first pair starts at `at`.
pub open(crate) spec fn claimed(body: InitializerBody, at: int) -> Option<int> {
    match pair_definition(body, at) {
        Some(definition) => if pairs_before(body, definition, at) == 0 {
            Some(definition)
        } else {
            None
        },
        None => None,
    }
}

/// First instruction from `from` on whose pair is the first of a definition.
pub open(crate) spec fn claim_site(body: InitializerBody, definition: int, from: int) -> Option<int>
    decreases body.instructions.len() - from,
{
    if from >= body.instructions.len() {
        None
    } else if claimed(body, from) == Some(definition) {
        Some(from)
    } else {
        claim_site(body, definition, from + 1)
    }
}

/// Pairs that initialize each definition, and where the first ones stand.
pub(crate) struct PairTable {
    pub(crate) matches: Vec<u32>,
    pub(crate) sites: Vec<Option<usize>>,
    pub(crate) closure_definitions: Vec<Option<usize>>,
}

/// A position as an integer.
pub open spec fn position_of(position: Option<usize>) -> Option<int> {
    match position {
        Some(position) => Some(position as int),
        None => None,
    }
}

impl PairTable {
    /// The table holds exactly the pairs of a body.
    pub(crate) open(crate) spec fn holds(&self, body: InitializerBody) -> bool {
        let count = body.instructions.len() as int;
        &&& self.matches@.len() == body.variables.len()
        &&& self.sites@.len() == body.variables.len()
        &&& self.closure_definitions@.len() == body.instructions.len()
        &&& forall|d: int|
            0 <= d < body.variables.len() ==> #[trigger] self.matches@[d] == saturated_count(
                pairs_before(body, d, count),
            )
        &&& forall|d: int|
            0 <= d < body.variables.len() ==> position_of(#[trigger] self.sites@[d]) == claim_site(
                body,
                d,
                0,
            )
        &&& forall|i: int|
            0 <= i < body.instructions.len() ==> position_of(
                #[trigger] self.closure_definitions@[i],
            ) == claimed(body, i)
    }
}

/// First claim below `end`, and none where no pair precedes `end`.
proof fn lemma_claims(body: InitializerBody, definition: int, from: int, end: int)
    requires
        0 <= from <= end <= body.instructions.len(),
        forall|i: int| from <= i < end ==> claimed(body, i) != Some(definition),
    ensures
        claim_site(body, definition, from) == claim_site(body, definition, end),
    decreases end - from,
{
    if from < end {
        lemma_claims(body, definition, from + 1, end);
    }
}

fn find_pair(
    instructions: &[VerifiedInstruction],
    variables: &[VariableDefinition],
    argument_count: u32,
    internal_stack: &InternalStackCertificate,
    counts: &Vec<u32>,
    at: usize,
    Ghost(body): Ghost<InitializerBody>,
) -> (definition: Option<usize>)
    requires
        at < instructions@.len(),
        body.instructions == instructions@,
        body.variables == variables@,
        body.argument_count == argument_count,
        body.certificate == internal_stack.model(),
        counts@.len() == instructions@.len(),
        forall|t: int|
            0 <= t < counts@.len() ==> #[trigger] counts@[t] == saturated_count(
                body_incoming(body, t),
            ),
    ensures
        position_of(definition) == pair_definition(body, at as int),
        match definition {
            Some(definition) => definition < variables@.len(),
            None => true,
        },
{
    if at >= instructions.len() - 1 {
        return None;
    }
    let closure = instructions[at].decoded.instruction;
    let constant: u32 = match closure_constant(closure.opcode, closure.operands) {
        Some(constant) => constant,
        None => {
            return None;
        },
    };
    let put = instructions[at + 1].decoded.instruction;
    let definition: u64 = match initializer_put_definition(
        put.opcode,
        put.operands,
        argument_count,
    ) {
        Some(definition) => definition,
        None => {
            return None;
        },
    };
    if definition >= variables.len() as u64 {
        return None;
    }
    let matching: bool = match variables[definition as usize].function_initializer {
        Some(initializer) => initializer == constant,
        None => false,
    };
    if !matching {
        return None;
    }
    proof {
        assert(counts@[at + 1] == saturated_count(body_incoming(body, at + 1)));
    }
    let flows: bool = internal_stack.has_effective_successor(
        instructions,
        at,
        usize_to_u32(at + 1),
    );
    proof {
        let edges = edges_out(body.certificate, body.instructions, at as int);
        assert(edges == internal_stack.spec_effective_successors(instructions@, at as int));
        if flows {
            let i = choose|i: int|
                0 <= i < edges.len() && (#[trigger] internal_stack.spec_effective_successors(
                    instructions@,
                    at as int,
                )[i]).target.spec_get() == saturated_u32(at + 1);
            assert(edges[i].target.spec_get() == saturated_u32(at + 1));
        }
        if flows_on(body, at as int) {
            let i = choose|i: int|
                0 <= i < edges.len() && (#[trigger] edges_out(
                    body.certificate,
                    body.instructions,
                    at as int,
                )[i]).target.spec_get() == saturated_u32(at + 1);
            assert(internal_stack.spec_effective_successors(
                instructions@,
                at as int,
            )[i].target.spec_get() == saturated_u32(at + 1));
        }
        assert(flows == flows_on(body, at as int));
    }
    if !flows || counts[at + 1] != 1 {
        return None;
    }
    Some(definition as usize)
}

/// Finds the pairs that initialize definitions.
pub(crate) fn find_pairs(
    id: FunctionTemplateId,
    instructions: &[VerifiedInstruction],
    variables: &[VariableDefinition],
    argument_count: u32,
    internal_stack: &InternalStackCertificate,
    counts: &Vec<u32>,
    Ghost(body): Ghost<InitializerBody>,
) -> (table: Result<PairTable, BytecodeVerificationError>)
    requires
        body.instructions == instructions@,
        body.variables == variables@,
        body.argument_count == argument_count,
        body.certificate == internal_stack.model(),
        counts@.len() == instructions@.len(),
        forall|t: int|
            0 <= t < counts@.len() ==> #[trigger] counts@[t] == saturated_count(
                body_incoming(body, t),
            ),
    ensures
        match table {
            Ok(table) => table.holds(body),
            Err(error) => initializer_failure(
                id,
                variables@.len(),
                instructions@.len(),
                error,
            ),
        },
{
    let mut sites = try_filled_vec(
        id,
        variables.len(),
        None::<usize>,
        BytecodeGraphResource::VariableDefinitions,
    )?;
    let mut matches = try_filled_vec(
        id,
        variables.len(),
        0u32,
        BytecodeGraphResource::VariableDefinitions,
    )?;
    let mut closure_definitions = try_filled_vec(
        id,
        instructions.len(),
        None::<usize>,
        BytecodeGraphResource::SourceMappings,
    )?;
    let mut at: usize = 0;
    while at < instructions.len()
        invariant
            at <= instructions@.len(),
            body.instructions == instructions@,
            body.variables == variables@,
            body.argument_count == argument_count,
            body.certificate == internal_stack.model(),
            counts@.len() == instructions@.len(),
            forall|t: int|
                0 <= t < counts@.len() ==> #[trigger] counts@[t] == saturated_count(
                    body_incoming(body, t),
                ),
            matches@.len() == variables@.len(),
            sites@.len() == variables@.len(),
            closure_definitions@.len() == instructions@.len(),
            forall|d: int|
                0 <= d < variables@.len() ==> #[trigger] matches@[d] == saturated_count(
                    pairs_before(body, d, at as int),
                ),
            forall|d: int|
                0 <= d < variables@.len() ==> match #[trigger] sites@[d] {
                    Some(site) => site < at && claimed(body, site as int) == Some(d)
                        && claim_site(body, d, 0) == Some(site as int),
                    None => pairs_before(body, d, at as int) == 0 && claim_site(body, d, 0)
                        == claim_site(body, d, at as int),
                },
            forall|i: int|
                0 <= i < at ==> position_of(#[trigger] closure_definitions@[i]) == claimed(body, i),
            forall|i: int|
                at <= i < instructions@.len() ==> (#[trigger] closure_definitions@[i]).is_none(),
        decreases instructions@.len() - at,
    {
        let found = find_pair(
            instructions,
            variables,
            argument_count,
            internal_stack,
            counts,
            at,
            Ghost(body),
        );
        let ghost before_sites = sites@;
        if let Some(definition) = found {
            let count: u32 = matches[definition];
            matches.set(definition, count.saturating_add(1));
            if count == 0 {
                sites.set(definition, Some(at));
                closure_definitions.set(at, Some(definition));
            }
        }
        proof {
            assert forall|d: int| 0 <= d < variables@.len() implies match #[trigger] sites@[d] {
                Some(site) => site < at + 1 && claimed(body, site as int) == Some(d) && claim_site(
                    body,
                    d,
                    0,
                ) == Some(site as int),
                None => pairs_before(body, d, at + 1) == 0 && claim_site(body, d, 0) == claim_site(
                    body,
                    d,
                    at + 1,
                ),
            } by {
                assert(match before_sites[d] {
                    Some(site) => site < at && claimed(body, site as int) == Some(d)
                        && claim_site(body, d, 0) == Some(site as int),
                    None => pairs_before(body, d, at as int) == 0 && claim_site(body, d, 0)
                        == claim_site(body, d, at as int),
                });
                if let Some(site) = before_sites[d] {
                    lemma_pair_counted(body, d, site as int, at as int);
                }
            }
        }
        at = at + 1;
    }
    Ok(PairTable { matches, sites, closure_definitions })
}

/// A pair that stands below `end` is counted there.
proof fn lemma_pair_counted(body: InitializerBody, definition: int, site: int, end: int)
    requires
        0 <= site < end,
        pair_definition(body, site) == Some(definition),
    ensures
        pairs_before(body, definition, end) > 0,
    decreases end - site,
{
    if site + 1 < end {
        lemma_pair_counted(body, definition, site, end - 1);
    }
}

} // verus!
