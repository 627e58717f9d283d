//! The typed operand-stack analysis of one function body.
use crate::bytecode::error::{
    BytecodeVerificationError, BytecodeVerificationErrorKind, function_error, graph_error,
};
use crate::bytecode::internal_propagation::{
    EdgeFacts, EdgeState, InternalStackTarget, holds_state, propagate_internal_operand_stack,
    propagated_stack, propagation_memory_failure, stack_exit_check, stacks_of,
    verify_internal_stack_exit,
};
use crate::bytecode::internal_stack::{
    CertifiedCatchLocalPut, CertifiedIterationLocalPut, CertifiedNipCatchTransform,
    EffectiveEdge, InternalStackCertificate, InternalStackValue as Slot, effective_edges,
    effective_successors, lists_of,
};
use crate::bytecode::internal_step::{
    Certificates, apply_edge, certified_transfer, edge_growth_failure, edge_stack,
    holds_certificates, transfer_internal_operand_stack, undo_edge,
};
use crate::bytecode::internal_transfer::{
    StackOutcome, StackStep, from_top, in_byte_order, slot_from_top,
};
use crate::bytecode::model::{
    BytecodeGraphResource, BytecodeGraphUsage, BytecodeGraphVerificationLimits,
    MAX_GOSUB_SITES_PER_FUNCTION,
};
use crate::bytecode::operand_use::{saturated_u32, usize_to_u32};
use crate::bytecode::protected_regions::{
    Protected, ProtectedTargets, collect_targets, count_gosub_sites, find_markers, gosub_sites,
    has_markers, no_targets, targets_from, targets_memory_failure,
};
use crate::bytecode::stack_error::{
    allocation_error, charge, charge_policy_transfers, charged, charged_transfers, growth_failure,
    internal_stack_error, reservation_failure, stack_error, tables_failure, try_copy_slice,
    try_filled_vec,
};
use crate::control_flow::model::{InstructionIndex, VerifiedControlFlow, VerifiedInstruction};
use crate::control_flow::targets::decoded_of;
use crate::copies::copied;
use crate::function_graph::FunctionTemplateId;
use crate::instruction::{BytecodePc, DecodedInstruction};
use crate::opcode::FinalOpcode;
use crate::reserve::{reserve_queue_exact, reserve_vec_exact};
use std::collections::VecDeque;
use vstd::prelude::*;

verus! {

/// What the analysis of a body depends on.
pub struct StackBody {
    /// Function being analyzed.
    pub id: FunctionTemplateId,
    /// Its instructions.
    pub instructions: Seq<VerifiedInstruction>,
    /// Its handlers and finally subroutines.
    pub targets: ProtectedTargets,
    /// Graph-wide limits.
    pub limits: BytecodeGraphVerificationLimits,
    /// Transfers charged before this body.
    pub base: u64,
}

/// State between evaluations.
pub struct StackAnalysis {
    /// What edges have established.
    pub edges: EdgeState,
    /// What transfers have certified.
    pub certificates: Certificates,
    /// Transfers charged for this body.
    pub evaluations: u64,
    /// Instruction from which unvisited code is looked for.
    pub next_seed: int,
}

/// Transfers that handling a stack of `len` slots costs.
pub open spec fn stack_cost(len: nat) -> u64 {
    if len + 1 > u64::MAX {
        u64::MAX
    } else {
        (len + 1) as u64
    }
}

/// Whether a finally subroutine has somewhere to continue.
pub open spec fn has_continuation(continuations: Seq<Seq<InstructionIndex>>) -> bool {
    exists|i: int| 0 <= i < continuations.len() && (#[trigger] continuations[i]).len() > 0
}

fn any_continuation(continuations: &Vec<Vec<InstructionIndex>>) -> (found: bool)
    ensures
        found == has_continuation(lists_of(continuations@)),
{
    let ghost lists = lists_of(continuations@);
    let mut i: usize = 0;
    while i < continuations.len()
        invariant
            i <= continuations@.len(),
            lists == lists_of(continuations@),
            forall|j: int| 0 <= j < i ==> (#[trigger] lists[j]).len() == 0,
        decreases continuations@.len() - i,
    {
        assert(lists[i as int] == continuations@[i as int]@);
        if continuations[i].len() > 0 {
            return true;
        }
        i = i + 1;
    }
    false
}

/// Propagation over the edges from `at` on.
pub open(crate) spec fn over_edges(
    body: StackBody,
    decoded: DecodedInstruction,
    component: u32,
    outcome: StackOutcome,
    edges: Seq<EffectiveEdge>,
    at: int,
    analysis: StackAnalysis,
) -> Result<StackAnalysis, BytecodeVerificationError>
    decreases edges.len() - at,
{
    if at >= edges.len() {
        Ok(analysis)
    } else {
        let edge = edges[at];
        let position = edge.target.0 as int;
        if position >= body.instructions.len() {
            Err(
                function_error(
                    body.id,
                    BytecodeVerificationErrorKind::ForInIteratorJoinMismatch {
                        target: BytecodePc(edge.target.0),
                        incoming_from: decoded.pc,
                    },
                ),
            )
        } else {
            match edge_stack(
                body.id,
                decoded,
                outcome.step.transfer.iteration_branch_value,
                edge,
                outcome.state,
            ) {
                Err(error) => Err(error),
                Ok(output) => match charged_transfers(
                    body.id,
                    analysis.evaluations,
                    stack_cost(output.len()),
                    body.base,
                    body.limits.max_policy_transfers,
                ) {
                    Err(error) => Err(error),
                    Ok(evaluations) => match propagated_stack(
                        body.id,
                        edge_facts(body, decoded, component, edge),
                        output,
                        analysis.edges,
                        body.limits.max_frame_state_entries,
                    ) {
                        Err(error) => Err(error),
                        Ok(next) => over_edges(
                            body,
                            decoded,
                            component,
                            outcome,
                            edges,
                            at + 1,
                            StackAnalysis { edges: next, evaluations, ..analysis },
                        ),
                    },
                },
            }
        }
    }
}

/// Everything about one edge of a body.
pub open(crate) spec fn edge_facts(
    body: StackBody,
    decoded: DecodedInstruction,
    component: u32,
    edge: EffectiveEdge,
) -> EdgeFacts {
    let position = edge.target.0 as int;
    let reached = body.instructions[position].decoded;
    EdgeFacts {
        source_pc: decoded.pc,
        successor: edge.target,
        target_pc: reached.pc,
        component,
        target: InternalStackTarget {
            catch_handler: body.targets.handlers[position],
            finally_entry: body.targets.subroutines[position],
            iterator_close: reached.instruction.opcode == FinalOpcode::IteratorClose,
        },
        enters_finally: edge.enters_finally,
    }
}

/// Evaluation of the oldest queued instruction.
pub open(crate) spec fn evaluated_stack(body: StackBody, analysis: StackAnalysis) -> Result<
    StackAnalysis,
    BytecodeVerificationError,
> {
    let index = analysis.edges.work[0] as int;
    let verified = body.instructions[index];
    let decoded = verified.decoded;
    let taken = EdgeState {
        work: analysis.edges.work.skip(1),
        queued: analysis.edges.queued.update(index, false),
        ..analysis.edges
    };
    match (taken.components[index], taken.entries[index]) {
        (Some(component), Some(entry)) => match charged_transfers(
            body.id,
            analysis.evaluations,
            stack_cost(entry.len()),
            body.base,
            body.limits.max_policy_transfers,
        ) {
            Err(error) => Err(error),
            Ok(evaluations) => match certified_transfer(
                body.id,
                index,
                decoded,
                component == 0,
                verified.successors.spec_branch_target(),
                body.instructions,
                entry,
                analysis.certificates,
            ) {
                Err(error) => Err(error),
                Ok((outcome, certificates)) => {
                    let transferred = StackAnalysis {
                        edges: taken,
                        certificates,
                        evaluations,
                        ..analysis
                    };
                    if !outcome.step.transfer.normal_completion {
                        Ok(transferred)
                    } else {
                        let edges = effective_edges(
                            body.instructions,
                            index,
                            body.targets.continuations,
                            outcome.step.transfer.ret_finalizer,
                        );
                        if edges.len() == 0 {
                            match stack_exit_check(
                                body.id,
                                decoded,
                                outcome.state,
                                has_continuation(body.targets.continuations),
                            ) {
                                Err(error) => Err(error),
                                Ok(_) => Ok(transferred),
                            }
                        } else {
                            over_edges(body, decoded, component, outcome, edges, 0, transferred)
                        }
                    }
                },
            },
        },
        _ => Err(stack_error(body.id, decoded, Seq::empty())),
    }
}

/// First instruction from `seed` on that is unvisited and unprotected.
pub open spec fn seed_from(
    entries: Seq<Option<Seq<Slot>>>,
    targets: ProtectedTargets,
    seed: int,
) -> int
    decreases entries.len() - seed,
{
    if seed < entries.len() && (entries[seed].is_some() || targets.handlers[seed]
        || targets.subroutines[seed]) {
        seed_from(entries, targets, seed + 1)
    } else {
        seed
    }
}

/// First protected instruction from `at` on that was never entered.
pub open spec fn unentered_from(
    entries: Seq<Option<Seq<Slot>>>,
    targets: ProtectedTargets,
    at: int,
) -> Option<int>
    decreases entries.len() - at,
{
    if at >= entries.len() {
        None
    } else if entries[at].is_none() && (targets.handlers[at] || targets.subroutines[at]) {
        Some(at)
    } else {
        unentered_from(entries, targets, at + 1)
    }
}

/// A protected instruction was never entered.
pub open(crate) spec fn unentered_error(body: StackBody, at: int) -> BytecodeVerificationError {
    let pc = body.instructions[at].decoded.pc;
    function_error(
        body.id,
        if body.targets.subroutines[at] {
            BytecodeVerificationErrorKind::FinallyReturnJoinMismatch {
                target: pc,
                incoming_from: pc,
            }
        } else {
            BytecodeVerificationErrorKind::CatchMarkerJoinMismatch { target: pc, incoming_from: pc }
        },
    )
}

/// The analysis with unvisited instruction `seed` queued with an empty stack.
pub open spec fn seeded(analysis: StackAnalysis, seed: int) -> StackAnalysis {
    StackAnalysis {
        edges: EdgeState {
            entries: analysis.edges.entries.update(seed, Some(Seq::empty())),
            components: analysis.edges.components.update(seed, Some(saturated_u32(seed))),
            queued: analysis.edges.queued.update(seed, true),
            work: analysis.edges.work.push(seed as usize),
            ..analysis.edges
        },
        next_seed: seed,
        ..analysis
    }
}

/// One round: queued code is evaluated; where nothing is queued, the next
/// unvisited code is seeded first; where nothing is left, every protected
/// instruction must have been entered, and the analysis is over.
pub open(crate) spec fn stack_round(body: StackBody, analysis: StackAnalysis) -> Result<
    Option<StackAnalysis>,
    BytecodeVerificationError,
> {
    if analysis.edges.work.len() > 0 {
        match evaluated_stack(body, analysis) {
            Ok(next) => Ok(Some(next)),
            Err(error) => Err(error),
        }
    } else {
        let seed = seed_from(analysis.edges.entries, body.targets, analysis.next_seed);
        if seed >= analysis.edges.entries.len() {
            match unentered_from(analysis.edges.entries, body.targets, 0) {
                Some(at) => Err(unentered_error(body, at)),
                None => Ok(None),
            }
        } else {
            match evaluated_stack(body, seeded(analysis, seed)) {
                Ok(next) => Ok(Some(next)),
                Err(error) => Err(error),
            }
        }
    }
}

/// The analysis run to its end. Every round charges at least one transfer.
pub open(crate) spec fn stack_analysis_from(body: StackBody, analysis: StackAnalysis) -> Result<
    StackAnalysis,
    BytecodeVerificationError,
>
    decreases u64::MAX - analysis.evaluations,
{
    match stack_round(body, analysis) {
        Err(error) => Err(error),
        Ok(None) => Ok(analysis),
        Ok(Some(next)) => if next.evaluations > analysis.evaluations {
            stack_analysis_from(body, next)
        } else {
            Ok(analysis)
        },
    }
}

/// Whether `error` reports that an edge from `at` on could not reserve memory:
/// for the slots that it adds, or for the stack that it carries.
pub open(crate) spec fn edges_memory_failure(
    body: StackBody,
    decoded: DecodedInstruction,
    component: u32,
    outcome: StackOutcome,
    edges: Seq<EffectiveEdge>,
    at: int,
    analysis: StackAnalysis,
    error: BytecodeVerificationError,
) -> bool
    decreases edges.len() - at,
{
    if at >= edges.len() || edges[at].target.0 >= body.instructions.len() {
        false
    } else {
        let edge = edges[at];
        let facts = edge_facts(body, decoded, component, edge);
        let state_limit = body.limits.max_frame_state_entries;
        ||| edge_growth_failure(body.id, decoded, edge, error)
        ||| match edge_stack(
            body.id,
            decoded,
            outcome.step.transfer.iteration_branch_value,
            edge,
            outcome.state,
        ) {
            Err(_) => false,
            Ok(output) => match charged_transfers(
                body.id,
                analysis.evaluations,
                stack_cost(output.len()),
                body.base,
                body.limits.max_policy_transfers,
            ) {
                Err(_) => false,
                Ok(evaluations) => {
                    ||| propagation_memory_failure(
                        body.id,
                        facts,
                        output,
                        analysis.edges,
                        state_limit,
                        error,
                    )
                    ||| match propagated_stack(
                        body.id,
                        facts,
                        output,
                        analysis.edges,
                        state_limit,
                    ) {
                        Err(_) => false,
                        Ok(next) => edges_memory_failure(
                            body,
                            decoded,
                            component,
                            outcome,
                            edges,
                            at + 1,
                            StackAnalysis { edges: next, evaluations, ..analysis },
                            error,
                        ),
                    }
                },
            },
        }
    }
}

/// Whether `error` reports that the evaluation of the oldest queued instruction
/// could not reserve memory: for a copy of its entry stack, for the slots by
/// which its transfer grows that stack, or for one of its edges.
pub open(crate) spec fn evaluation_memory_failure(
    body: StackBody,
    analysis: StackAnalysis,
    error: BytecodeVerificationError,
) -> bool {
    let index = analysis.edges.work[0] as int;
    let verified = body.instructions[index];
    let taken = EdgeState {
        work: analysis.edges.work.skip(1),
        queued: analysis.edges.queued.update(index, false),
        ..analysis.edges
    };
    match (taken.components[index], taken.entries[index]) {
        (Some(component), Some(entry)) => match charged_transfers(
            body.id,
            analysis.evaluations,
            stack_cost(entry.len()),
            body.base,
            body.limits.max_policy_transfers,
        ) {
            Err(_) => false,
            Ok(evaluations) => {
                ||| error == reservation_failure(
                    body.id,
                    BytecodeGraphResource::FrameStateEntries,
                    entry.len() as u64,
                )
                ||| match certified_transfer(
                    body.id,
                    index,
                    verified.decoded,
                    component == 0,
                    verified.successors.spec_branch_target(),
                    body.instructions,
                    entry,
                    analysis.certificates,
                ) {
                    Err(_) => false,
                    Ok((outcome, certificates)) => {
                        ||| growth_failure(body.id, entry.len(), outcome.state.len(), error)
                        ||| outcome.step.transfer.normal_completion && edges_memory_failure(
                            body,
                            verified.decoded,
                            component,
                            outcome,
                            effective_edges(
                                body.instructions,
                                index,
                                body.targets.continuations,
                                outcome.step.transfer.ret_finalizer,
                            ),
                            0,
                            StackAnalysis { edges: taken, certificates, evaluations, ..analysis },
                            error,
                        )
                    },
                }
            },
        },
        _ => false,
    }
}

/// Whether `error` reports that an evaluation of the run from `analysis` on could
/// not reserve memory.
pub open(crate) spec fn run_memory_failure(
    body: StackBody,
    analysis: StackAnalysis,
    error: BytecodeVerificationError,
) -> bool
    decreases u64::MAX - analysis.evaluations,
{
    let seed = seed_from(analysis.edges.entries, body.targets, analysis.next_seed);
    ||| if analysis.edges.work.len() > 0 {
        evaluation_memory_failure(body, analysis, error)
    } else {
        seed < analysis.edges.entries.len() && evaluation_memory_failure(
            body,
            seeded(analysis, seed),
            error,
        )
    }
    ||| match stack_round(body, analysis) {
        Ok(Some(next)) => next.evaluations > analysis.evaluations && run_memory_failure(
            body,
            next,
            error,
        ),
        _ => false,
    }
}

/// Whether `error` reports that the typed operand-stack analysis of a body could
/// not reserve memory. A body without markers, or with too many `gosub` sites,
/// reserves none. Else it reserves tables and a queue with an entry for each
/// instruction, the continuations of finally subroutines, and the stacks of the
/// run.
pub open(crate) spec fn stack_memory_failure(
    id: FunctionTemplateId,
    instructions: Seq<VerifiedInstruction>,
    limits: BytecodeGraphVerificationLimits,
    usage: BytecodeGraphUsage,
    error: BytecodeVerificationError,
) -> bool {
    let first = no_targets(instructions.len(), usage);
    let state_limit = limits.max_frame_state_entries;
    &&& has_markers(instructions)
    &&& gosub_sites(instructions, instructions.len() as int) <= MAX_GOSUB_SITES_PER_FUNCTION
    &&& {
        ||| tables_failure(id, instructions.len(), error)
        ||| targets_memory_failure(id, instructions, 0, first, state_limit, error)
        ||| match targets_from(id, instructions, 0, first, state_limit) {
            Err(_) => false,
            Ok(targets) => run_memory_failure(
                StackBody { id, instructions, targets, limits, base: usage.policy_transfers },
                initial_analysis(instructions.len(), targets.usage),
                error,
            ),
        }
    }
}

/// The state before the first round.
pub open spec fn initial_analysis(count: nat, usage: BytecodeGraphUsage) -> StackAnalysis {
    StackAnalysis {
        edges: EdgeState {
            entries: Seq::new(count, |i: int| None),
            components: Seq::new(count, |i: int| None),
            queued: Seq::new(count, |i: int| false),
            work: Seq::empty(),
            usage,
        },
        certificates: Certificates {
            iteration: Seq::new(count, |i: int| None),
            catching: Seq::new(count, |i: int| None),
            nips: Seq::new(count, |i: int| None),
            rets: Seq::new(count, |i: int| None),
        },
        evaluations: 0,
        next_seed: 0,
    }
}

/// What a certificate says.
pub struct CertificateModel {
    /// What transfers certified.
    pub certificates: Certificates,
    /// Where finally subroutines continue.
    pub continuations: Seq<Seq<InstructionIndex>>,
}

impl InternalStackCertificate {
    /// What the certificate says.
    pub open(crate) spec fn model(&self) -> CertificateModel {
        CertificateModel {
            certificates: Certificates {
                iteration: self.iteration_local_puts@,
                catching: self.catch_local_puts@,
                nips: self.nip_catch_transforms@,
                rets: self.ret_finalizers@,
            },
            continuations: lists_of(self.finally_continuations@),
        }
    }
}

fn copied_lists(lists: &Vec<Vec<InstructionIndex>>) -> (copy: Vec<Vec<InstructionIndex>>)
    ensures
        lists_of(copy@) == lists_of(lists@),
{
    let mut copy: Vec<Vec<InstructionIndex>> = Vec::with_capacity(lists.len());
    let mut at: usize = 0;
    while at < lists.len()
        invariant
            at <= lists@.len(),
            copy@.len() == at,
            forall|i: int| 0 <= i < at ==> (#[trigger] copy@[i])@ == lists@[i]@,
        decreases lists@.len() - at,
    {
        copy.push(copied(&lists[at]));
        at = at + 1;
    }
    assert(lists_of(copy@) =~= lists_of(lists@));
    copy
}

impl Clone for InternalStackCertificate {
    fn clone(&self) -> (copy: Self)
        ensures
            copy.model() == self.model(),
    {
        InternalStackCertificate {
            iteration_local_puts: copied(&self.iteration_local_puts),
            catch_local_puts: copied(&self.catch_local_puts),
            nip_catch_transforms: copied(&self.nip_catch_transforms),
            finally_continuations: copied_lists(&self.finally_continuations),
            ret_finalizers: copied(&self.ret_finalizers),
        }
    }
}

/// A certificate that says nothing.
pub open spec fn empty_certificate() -> CertificateModel {
    CertificateModel {
        certificates: Certificates {
            iteration: Seq::empty(),
            catching: Seq::empty(),
            nips: Seq::empty(),
            rets: Seq::empty(),
        },
        continuations: Seq::empty(),
    }
}

/// The typed operand-stack analysis of a body: the certificate, and the usage
/// with what the analysis cost.
pub open(crate) spec fn stack_certificate(
    id: FunctionTemplateId,
    instructions: Seq<VerifiedInstruction>,
    limits: BytecodeGraphVerificationLimits,
    usage: BytecodeGraphUsage,
) -> Result<(CertificateModel, BytecodeGraphUsage), BytecodeVerificationError> {
    let sites = gosub_sites(instructions, instructions.len() as int);
    if sites > MAX_GOSUB_SITES_PER_FUNCTION {
        Err(
            function_error(
                id,
                BytecodeVerificationErrorKind::GosubSiteCountOutOfRange {
                    sites: sites as u64,
                    maximum: MAX_GOSUB_SITES_PER_FUNCTION,
                },
            ),
        )
    } else if !has_markers(instructions) {
        Ok((empty_certificate(), usage))
    } else {
        match targets_from(
            id,
            instructions,
            0,
            no_targets(instructions.len(), usage),
            limits.max_frame_state_entries,
        ) {
            Err(error) => Err(error),
            Ok(targets) => {
                let body = StackBody {
                    id,
                    instructions,
                    targets,
                    limits,
                    base: usage.policy_transfers,
                };
                match stack_analysis_from(
                    body,
                    initial_analysis(instructions.len(), targets.usage),
                ) {
                    Err(error) => Err(error),
                    Ok(end) => match charged(
                        end.edges.usage.policy_transfers,
                        end.evaluations,
                        limits.max_policy_transfers,
                        BytecodeGraphResource::PolicyTransfers,
                    ) {
                        Err(kind) => Err(graph_error(kind)),
                        Ok(transfers) => Ok(
                            (
                                CertificateModel {
                                    certificates: end.certificates,
                                    continuations: targets.continuations,
                                },
                                BytecodeGraphUsage {
                                    policy_transfers: transfers,
                                    ..end.edges.usage
                                },
                            ),
                        ),
                    },
                }
            },
        }
    }
}

proof fn lemma_over_edges_charges(
    body: StackBody,
    decoded: DecodedInstruction,
    component: u32,
    outcome: StackOutcome,
    edges: Seq<EffectiveEdge>,
    at: int,
    analysis: StackAnalysis,
)
    ensures
        match over_edges(body, decoded, component, outcome, edges, at, analysis) {
            Ok(next) => next.evaluations >= analysis.evaluations,
            Err(_) => true,
        },
    decreases edges.len() - at,
{
    if at < edges.len() && edges[at].target.0 < body.instructions.len() {
        let edge = edges[at];
        if let Ok(output) = edge_stack(
            body.id,
            decoded,
            outcome.step.transfer.iteration_branch_value,
            edge,
            outcome.state,
        ) {
            if let Ok(evaluations) = charged_transfers(
                body.id,
                analysis.evaluations,
                stack_cost(output.len()),
                body.base,
                body.limits.max_policy_transfers,
            ) {
                if let Ok(next) = propagated_stack(
                    body.id,
                    edge_facts(body, decoded, component, edge),
                    output,
                    analysis.edges,
                    body.limits.max_frame_state_entries,
                ) {
                    lemma_over_edges_charges(
                        body,
                        decoded,
                        component,
                        outcome,
                        edges,
                        at + 1,
                        StackAnalysis { edges: next, evaluations, ..analysis },
                    );
                }
            }
        }
    }
}

pub(crate) proof fn lemma_evaluation_charges(body: StackBody, analysis: StackAnalysis)
    ensures
        match evaluated_stack(body, analysis) {
            Ok(next) => next.evaluations > analysis.evaluations,
            Err(_) => true,
        },
{
    let index = analysis.edges.work[0] as int;
    let verified = body.instructions[index];
    let decoded = verified.decoded;
    let taken = EdgeState {
        work: analysis.edges.work.skip(1),
        queued: analysis.edges.queued.update(index, false),
        ..analysis.edges
    };
    if let (Some(component), Some(entry)) = (taken.components[index], taken.entries[index]) {
        if let Ok(evaluations) = charged_transfers(
            body.id,
            analysis.evaluations,
            stack_cost(entry.len()),
            body.base,
            body.limits.max_policy_transfers,
        ) {
            assert(evaluations > analysis.evaluations);
            if let Ok((outcome, certificates)) = certified_transfer(
                body.id,
                index,
                decoded,
                component == 0,
                verified.successors.spec_branch_target(),
                body.instructions,
                entry,
                analysis.certificates,
            ) {
                let transferred = StackAnalysis {
                    edges: taken,
                    certificates,
                    evaluations,
                    ..analysis
                };
                let edges = effective_edges(
                    body.instructions,
                    index,
                    body.targets.continuations,
                    outcome.step.transfer.ret_finalizer,
                );
                lemma_over_edges_charges(
                    body,
                    decoded,
                    component,
                    outcome,
                    edges,
                    0,
                    transferred,
                );
            }
        }
    }
}

struct Analyzer {
    entries: Vec<Option<Vec<Slot>>>,
    components: Vec<Option<u32>>,
    queued: Vec<bool>,
    work: VecDeque<usize>,
    iteration: Vec<Option<CertifiedIterationLocalPut>>,
    catching: Vec<Option<CertifiedCatchLocalPut>>,
    nips: Vec<Option<CertifiedNipCatchTransform>>,
    rets: Vec<Option<InstructionIndex>>,
    evaluations: u64,
}

impl Analyzer {
    /// The vectors hold exactly the analysis of `count` instructions, and only
    /// instructions are queued.
    spec fn holds(&self, analysis: StackAnalysis, usage: BytecodeGraphUsage, count: nat) -> bool {
        &&& holds_state(
            analysis.edges,
            self.entries@,
            self.components@,
            self.queued@,
            self.work@,
            usage,
        )
        &&& holds_certificates(
            analysis.certificates,
            self.iteration@,
            self.catching@,
            self.nips@,
            self.rets@,
        )
        &&& self.evaluations == analysis.evaluations
        &&& self.entries@.len() == count
        &&& self.components@.len() == count
        &&& self.queued@.len() == count
        &&& forall|k: int| 0 <= k < self.work@.len() ==> #[trigger] self.work@[k] < count
    }
}

proof fn lemma_propagation_queues_instructions(
    id: FunctionTemplateId,
    edge: EdgeFacts,
    output: Seq<Slot>,
    state: EdgeState,
    state_limit: u64,
    count: nat,
)
    requires
        edge.successor.0 < count,
        forall|k: int| 0 <= k < state.work.len() ==> #[trigger] state.work[k] < count,
    ensures
        match propagated_stack(id, edge, output, state, state_limit) {
            Ok(next) => (forall|k: int|
                0 <= k < next.work.len() ==> #[trigger] next.work[k] < count)
                && next.usage.policy_transfers == state.usage.policy_transfers,
            Err(_) => true,
        },
{
}

fn propagate_edges(
    id: FunctionTemplateId,
    instructions: &[VerifiedInstruction],
    protected: &Protected,
    limits: BytecodeGraphVerificationLimits,
    base: u64,
    decoded: DecodedInstruction,
    component: u32,
    step: StackStep,
    state: &mut Vec<Slot>,
    edges: &Vec<EffectiveEdge>,
    analyzer: &mut Analyzer,
    usage: &mut BytecodeGraphUsage,
    Ghost(body): Ghost<StackBody>,
    Ghost(analysis): Ghost<StackAnalysis>,
) -> (propagated: Result<Ghost<StackAnalysis>, BytecodeVerificationError>)
    requires
        body.id == id,
        body.instructions == instructions@,
        protected.holds(body.targets, instructions@.len(), body.targets.usage),
        body.limits == limits,
        body.base == base,
        old(analyzer).holds(analysis, *old(usage), instructions@.len()),
    ensures
        ({
            let expected = over_edges(
                body,
                decoded,
                component,
                StackOutcome { state: old(state)@, step },
                edges@,
                0,
                analysis,
            );
            match propagated {
                Ok(next) => expected == Ok::<StackAnalysis, BytecodeVerificationError>(next@)
                    && final(analyzer).holds(next@, *final(usage), instructions@.len())
                    && final(usage).policy_transfers == old(usage).policy_transfers,
                Err(error) => expected == Err::<StackAnalysis, BytecodeVerificationError>(error)
                    || edges_memory_failure(
                    body,
                    decoded,
                    component,
                    StackOutcome { state: old(state)@, step },
                    edges@,
                    0,
                    analysis,
                    error,
                ),
            }
        }),
{
    let ghost outcome = StackOutcome { state: state@, step };
    let ghost left = state@;
    let count: usize = state.len();
    let top = slot_from_top(state, 0);
    let ghost mut current = analysis;
    let ghost transfers = usage.policy_transfers;
    let mut at: usize = 0;
    while at < edges.len()
        invariant
            at <= edges@.len(),
            body.id == id,
            body.instructions == instructions@,
            protected.holds(body.targets, instructions@.len(), body.targets.usage),
            body.limits == limits,
            body.base == base,
            state@ == left,
            left == old(state)@,
            count == left.len(),
            top == from_top(left, 0),
            outcome == (StackOutcome { state: left, step }),
            forall|error: BytecodeVerificationError| #[trigger]
                edges_memory_failure(
                    body,
                    decoded,
                    component,
                    outcome,
                    edges@,
                    at as int,
                    current,
                    error,
                ) ==> edges_memory_failure(
                    body,
                    decoded,
                    component,
                    outcome,
                    edges@,
                    0,
                    analysis,
                    error,
                ),
            analyzer.holds(current, *usage, instructions@.len()),
            usage.policy_transfers == transfers,
            over_edges(body, decoded, component, outcome, edges@, 0, analysis) == over_edges(
                body,
                decoded,
                component,
                outcome,
                edges@,
                at as int,
                current,
            ),
        decreases edges@.len() - at,
    {
        let edge = edges[at];
        let position: usize = edge.target.0 as usize;
        if position >= instructions.len() {
            return Err(
                BytecodeVerificationError::function(
                    id,
                    BytecodeVerificationErrorKind::ForInIteratorJoinMismatch {
                        target: BytecodePc(edge.target.0),
                        incoming_from: decoded.pc,
                    },
                ),
            );
        }
        if let Err(error) = apply_edge(
            id,
            decoded,
            step.transfer.iteration_branch_value,
            edge,
            state,
        ) {
            assert(edge_growth_failure(id, decoded, edge, error) ==> edges_memory_failure(
                body,
                decoded,
                component,
                outcome,
                edges@,
                at as int,
                current,
                error,
            ));
            return Err(error);
        }
        let ghost output = state@;
        let cost: u64 = (state.len() as u64).saturating_add(1);
        charge_policy_transfers(
            id,
            &mut analyzer.evaluations,
            cost,
            base,
            limits.max_policy_transfers,
        )?;
        let reached = instructions[position].decoded;
        let facts = EdgeFacts {
            source_pc: decoded.pc,
            successor: edge.target,
            target_pc: reached.pc,
            component,
            target: InternalStackTarget {
                catch_handler: protected.handlers[position],
                finally_entry: protected.subroutines[position],
                iterator_close: matches!(reached.instruction.opcode, FinalOpcode::IteratorClose),
            },
            enters_finally: edge.enters_finally,
        };
        let ghost before = current.edges;
        proof {
            assert(facts == edge_facts(body, decoded, component, edge));
            lemma_propagation_queues_instructions(
                id,
                facts,
                output,
                before,
                limits.max_frame_state_entries,
                instructions@.len(),
            );
        }
        let propagated = propagate_internal_operand_stack(
            id,
            facts,
            state,
            &mut analyzer.entries,
            &mut analyzer.components,
            &mut analyzer.queued,
            &mut analyzer.work,
            limits.max_frame_state_entries,
            usage,
            Ghost(before),
        );
        let next = match propagated {
            Ok(next) => next,
            Err(error) => {
                assert(propagation_memory_failure(
                    id,
                    facts,
                    output,
                    before,
                    limits.max_frame_state_entries,
                    error,
                ) ==> edges_memory_failure(
                    body,
                    decoded,
                    component,
                    outcome,
                    edges@,
                    at as int,
                    current,
                    error,
                ));
                return Err(error);
            },
        };
        undo_edge(
            step.transfer.iteration_branch_value,
            count,
            top,
            state,
            Ghost(id),
            Ghost(decoded),
            Ghost(edge),
            Ghost(left),
        );
        proof {
            let after = StackAnalysis {
                edges: next@,
                evaluations: analyzer.evaluations,
                ..current
            };
            assert forall|error: BytecodeVerificationError| #[trigger]
                edges_memory_failure(
                    body,
                    decoded,
                    component,
                    outcome,
                    edges@,
                    at + 1,
                    after,
                    error,
                ) implies edges_memory_failure(
                body,
                decoded,
                component,
                outcome,
                edges@,
                0,
                analysis,
                error,
            ) by {
                assert(edges_memory_failure(
                    body,
                    decoded,
                    component,
                    outcome,
                    edges@,
                    at as int,
                    current,
                    error,
                ));
            }
            current = after;
        }
        at = at + 1;
    }
    Ok(Ghost(current))
}

fn evaluate_next(
    id: FunctionTemplateId,
    instructions: &[VerifiedInstruction],
    protected: &Protected,
    limits: BytecodeGraphVerificationLimits,
    base: u64,
    analyzer: &mut Analyzer,
    usage: &mut BytecodeGraphUsage,
    Ghost(body): Ghost<StackBody>,
    Ghost(analysis): Ghost<StackAnalysis>,
) -> (evaluated: Result<Ghost<StackAnalysis>, BytecodeVerificationError>)
    requires
        in_byte_order(instructions@),
        body.id == id,
        body.instructions == instructions@,
        protected.holds(body.targets, instructions@.len(), body.targets.usage),
        body.limits == limits,
        body.base == base,
        old(analyzer).holds(analysis, *old(usage), instructions@.len()),
        old(analyzer).work@.len() > 0,
    ensures
        match evaluated {
            Ok(next) => evaluated_stack(body, analysis) == Ok::<
                StackAnalysis,
                BytecodeVerificationError,
            >(next@) && final(analyzer).holds(next@, *final(usage), instructions@.len())
                && final(usage).policy_transfers == old(usage).policy_transfers,
            Err(error) => evaluated_stack(body, analysis) == Err::<
                StackAnalysis,
                BytecodeVerificationError,
            >(error) || evaluation_memory_failure(body, analysis, error),
        },
{
    let index: usize = match analyzer.work.pop_front() {
        Some(index) => index,
        None => 0,
    };
    analyzer.queued.set(index, false);
    let ghost taken = EdgeState {
        work: analysis.edges.work.skip(1),
        queued: analysis.edges.queued.update(index as int, false),
        ..analysis.edges
    };
    proof {
        assert(index == analysis.edges.work[0]);
        assert(analyzer.work@ =~= analysis.edges.work.skip(1));
        assert(taken.entries[index as int] == stacks_of(analyzer.entries@)[index as int]);
        assert forall|k: int| 0 <= k < analyzer.work@.len() implies #[trigger] analyzer.work@[k]
            < instructions@.len() by {
            assert(analyzer.work@[k] == analysis.edges.work[k + 1]);
        }
    }
    let verified = instructions[index];
    let decoded = verified.decoded;
    let component: u32 = match analyzer.components[index] {
        Some(component) => component,
        None => {
            return Err(internal_stack_error(id, decoded, &[]));
        },
    };
    let (mut state, cost) = match &analyzer.entries[index] {
        Some(entry) => {
            let cost: u64 = (entry.len() as u64).saturating_add(1);
            charge_policy_transfers(
                id,
                &mut analyzer.evaluations,
                cost,
                base,
                limits.max_policy_transfers,
            )?;
            (try_copy_slice(id, entry, BytecodeGraphResource::FrameStateEntries)?, cost)
        },
        None => {
            return Err(internal_stack_error(id, decoded, &[]));
        },
    };
    let (step, certificates) = transfer_internal_operand_stack(
        id,
        index,
        decoded,
        component == 0,
        verified.successors.branch_target(),
        instructions,
        &mut state,
        &mut analyzer.iteration,
        &mut analyzer.catching,
        &mut analyzer.nips,
        &mut analyzer.rets,
        Ghost(analysis.certificates),
    )?;
    let ghost transferred = StackAnalysis {
        edges: taken,
        certificates: certificates@,
        evaluations: analyzer.evaluations,
        ..analysis
    };
    if !step.transfer.normal_completion {
        return Ok(Ghost(transferred));
    }
    let edges = effective_successors(
        instructions,
        index,
        &protected.continuations,
        step.transfer.ret_finalizer,
    );
    if edges.len() == 0 {
        let has_finally: bool = any_continuation(&protected.continuations);
        verify_internal_stack_exit(id, decoded, &state, has_finally)?;
        return Ok(Ghost(transferred));
    }
    propagate_edges(
        id,
        instructions,
        protected,
        limits,
        base,
        decoded,
        component,
        step,
        &mut state,
        &edges,
        analyzer,
        usage,
        Ghost(body),
        Ghost(transferred),
    )
}

fn find_seed(analyzer: &Analyzer, protected: &Protected, start: usize, Ghost(body): Ghost<
    StackBody,
>, Ghost(analysis): Ghost<StackAnalysis>, Ghost(usage): Ghost<BytecodeGraphUsage>) -> (seed: usize)
    requires
        analyzer.holds(analysis, usage, body.instructions.len()),
        protected.holds(body.targets, body.instructions.len(), body.targets.usage),
        start <= body.instructions.len(),
    ensures
        seed == seed_from(analysis.edges.entries, body.targets, start as int),
        seed <= body.instructions.len(),
{
    let mut seed: usize = start;
    let ghost entries = analysis.edges.entries;
    while seed < analyzer.entries.len() && (analyzer.entries[seed].is_some()
        || protected.handlers[seed] || protected.subroutines[seed])
        invariant
            seed <= body.instructions.len(),
            analyzer.holds(analysis, usage, body.instructions.len()),
            protected.holds(body.targets, body.instructions.len(), body.targets.usage),
            entries == analysis.edges.entries,
            seed_from(entries, body.targets, start as int) == seed_from(
                entries,
                body.targets,
                seed as int,
            ),
        decreases body.instructions.len() - seed,
    {
        assert(entries[seed as int] == stacks_of(analyzer.entries@)[seed as int]);
        seed = seed + 1;
    }
    proof {
        if seed < entries.len() {
            assert(entries[seed as int] == stacks_of(analyzer.entries@)[seed as int]);
        }
    }
    seed
}

fn find_unentered(analyzer: &Analyzer, protected: &Protected, Ghost(body): Ghost<
    StackBody,
>, Ghost(analysis): Ghost<StackAnalysis>, Ghost(usage): Ghost<BytecodeGraphUsage>) -> (found:
    Option<usize>)
    requires
        analyzer.holds(analysis, usage, body.instructions.len()),
        protected.holds(body.targets, body.instructions.len(), body.targets.usage),
    ensures
        match found {
            Some(at) => unentered_from(analysis.edges.entries, body.targets, 0) == Some(at as int)
                && at < body.instructions.len(),
            None => unentered_from(analysis.edges.entries, body.targets, 0).is_none(),
        },
{
    let mut at: usize = 0;
    let ghost entries = analysis.edges.entries;
    while at < analyzer.entries.len()
        invariant
            at <= body.instructions.len(),
            analyzer.holds(analysis, usage, body.instructions.len()),
            protected.holds(body.targets, body.instructions.len(), body.targets.usage),
            entries == analysis.edges.entries,
            unentered_from(entries, body.targets, 0) == unentered_from(
                entries,
                body.targets,
                at as int,
            ),
        decreases body.instructions.len() - at,
    {
        assert(entries[at as int] == stacks_of(analyzer.entries@)[at as int]);
        if analyzer.entries[at].is_none() && (protected.handlers[at]
            || protected.subroutines[at]) {
            return Some(at);
        }
        at = at + 1;
    }
    None
}

fn new_analyzer(id: FunctionTemplateId, count: usize) -> (analyzer: Result<
    Analyzer,
    BytecodeVerificationError,
>)
    ensures
        match analyzer {
            Ok(analyzer) => forall|usage: BytecodeGraphUsage| #[trigger]
                analyzer.holds(initial_analysis(count as nat, usage), usage, count as nat),
            Err(error) => tables_failure(id, count as nat, error),
        },
{
    let mut entries: Vec<Option<Vec<Slot>>> = Vec::new();
    if reserve_vec_exact(&mut entries, count).is_err() {
        return Err(allocation_error(id, BytecodeGraphResource::FrameStateEntries, count));
    }
    let mut filled: usize = 0;
    while filled < count
        invariant
            filled <= count,
            entries@.len() == filled,
            forall|i: int| 0 <= i < filled ==> (#[trigger] entries@[i]).is_none(),
        decreases count - filled,
    {
        entries.push(None);
        filled = filled + 1;
    }
    let queued = try_filled_vec(id, count, false, BytecodeGraphResource::PolicyTransfers)?;
    let components = try_filled_vec(
        id,
        count,
        None::<u32>,
        BytecodeGraphResource::FrameStateEntries,
    )?;
    let iteration = try_filled_vec(
        id,
        count,
        None::<CertifiedIterationLocalPut>,
        BytecodeGraphResource::FrameStateEntries,
    )?;
    let catching = try_filled_vec(
        id,
        count,
        None::<CertifiedCatchLocalPut>,
        BytecodeGraphResource::FrameStateEntries,
    )?;
    let nips = try_filled_vec(
        id,
        count,
        None::<CertifiedNipCatchTransform>,
        BytecodeGraphResource::FrameStateEntries,
    )?;
    let rets = try_filled_vec(
        id,
        count,
        None::<InstructionIndex>,
        BytecodeGraphResource::FrameStateEntries,
    )?;
    let work: VecDeque<usize> = VecDeque::new();
    let analyzer = Analyzer {
        entries,
        components,
        queued,
        work,
        iteration,
        catching,
        nips,
        rets,
        evaluations: 0,
    };
    proof {
        assert forall|usage: BytecodeGraphUsage| #[trigger]
            analyzer.holds(initial_analysis(count as nat, usage), usage, count as nat) by {
            let first = initial_analysis(count as nat, usage);
            assert(stacks_of(analyzer.entries@) =~= first.edges.entries);
            assert(analyzer.work@ =~= first.edges.work);
            assert(analyzer.components@ =~= first.edges.components);
            assert(analyzer.queued@ =~= first.edges.queued);
            assert(analyzer.iteration@ =~= first.certificates.iteration);
            assert(analyzer.catching@ =~= first.certificates.catching);
            assert(analyzer.nips@ =~= first.certificates.nips);
            assert(analyzer.rets@ =~= first.certificates.rets);
        }
    }
    Ok(analyzer)
}

fn run_analysis(
    id: FunctionTemplateId,
    instructions: &[VerifiedInstruction],
    protected: &Protected,
    limits: BytecodeGraphVerificationLimits,
    base: u64,
    tables: Analyzer,
    usage: &mut BytecodeGraphUsage,
    Ghost(body): Ghost<StackBody>,
) -> (analyzed: Result<(Analyzer, Ghost<StackAnalysis>), BytecodeVerificationError>)
    requires
        in_byte_order(instructions@),
        body.id == id,
        body.instructions == instructions@,
        protected.holds(body.targets, instructions@.len(), *old(usage)),
        body.limits == limits,
        body.base == base,
        tables.holds(
            initial_analysis(instructions@.len(), *old(usage)),
            *old(usage),
            instructions@.len(),
        ),
    ensures
        ({
            let expected = stack_analysis_from(
                body,
                initial_analysis(instructions@.len(), *old(usage)),
            );
            match analyzed {
                Ok((analyzer, end)) => expected == Ok::<StackAnalysis, BytecodeVerificationError>(
                    end@,
                ) && analyzer.holds(end@, *final(usage), instructions@.len())
                    && final(usage).policy_transfers == old(usage).policy_transfers,
                Err(error) => expected == Err::<StackAnalysis, BytecodeVerificationError>(error)
                    || error == reservation_failure(
                    id,
                    BytecodeGraphResource::PolicyTransfers,
                    instructions@.len() as u64,
                ) || run_memory_failure(
                    body,
                    initial_analysis(instructions@.len(), *old(usage)),
                    error,
                ),
            }
        }),
{
    let count: usize = instructions.len();
    let mut analyzer = tables;
    if reserve_queue_exact(&mut analyzer.work, count).is_err() {
        return Err(allocation_error(id, BytecodeGraphResource::PolicyTransfers, count));
    }
    let ghost first = initial_analysis(count as nat, *usage);
    let ghost mut analysis = first;
    let ghost transfers = usage.policy_transfers;
    let mut next_seed: usize = 0;
    let mut finished: bool = false;
    while !finished
        invariant
            in_byte_order(instructions@),
            count == instructions@.len(),
            body.id == id,
            body.instructions == instructions@,
            protected.holds(body.targets, instructions@.len(), body.targets.usage),
            body.limits == limits,
            body.base == base,
            analyzer.holds(analysis, *usage, count as nat),
            analysis.next_seed == next_seed,
            next_seed <= count,
            usage.policy_transfers == transfers,
            first == initial_analysis(count as nat, *old(usage)),
            forall|error: BytecodeVerificationError| #[trigger]
                run_memory_failure(body, analysis, error) ==> run_memory_failure(
                    body,
                    first,
                    error,
                ),
            !finished ==> stack_analysis_from(body, first) == stack_analysis_from(body, analysis),
            finished ==> stack_analysis_from(body, first) == Ok::<
                StackAnalysis,
                BytecodeVerificationError,
            >(analysis),
        decreases
                u64::MAX - analyzer.evaluations + if finished {
                    0int
                } else {
                    1int
                },
    {
        let ghost before = analysis;
        if analyzer.work.len() == 0 {
            let seed: usize = find_seed(
                &analyzer,
                protected,
                next_seed,
                Ghost(body),
                Ghost(analysis),
                Ghost(*usage),
            );
            if seed >= count {
                match find_unentered(
                    &analyzer,
                    protected,
                    Ghost(body),
                    Ghost(analysis),
                    Ghost(*usage),
                ) {
                    Some(at) => {
                        let pc = instructions[at].decoded.pc;
                        let kind = if protected.subroutines[at] {
                            BytecodeVerificationErrorKind::FinallyReturnJoinMismatch {
                                target: pc,
                                incoming_from: pc,
                            }
                        } else {
                            BytecodeVerificationErrorKind::CatchMarkerJoinMismatch {
                                target: pc,
                                incoming_from: pc,
                            }
                        };
                        return Err(BytecodeVerificationError::function(id, kind));
                    },
                    None => {
                        finished = true;
                    },
                }
            } else {
                analyzer.entries.set(seed, Some(Vec::new()));
                analyzer.components.set(seed, Some(usize_to_u32(seed)));
                analyzer.queued.set(seed, true);
                analyzer.work.push_back(seed);
                next_seed = seed;
                proof {
                    analysis = seeded(before, seed as int);
                    assert(stacks_of(analyzer.entries@) =~= analysis.edges.entries) by {
                        assert(stacks_of(analyzer.entries@)[seed as int] == Some(
                            Seq::<Slot>::empty(),
                        )) by {
                            assert(analyzer.entries@[seed as int].unwrap()@ =~= Seq::<
                                Slot,
                            >::empty());
                        }
                    }
                }
            }
        }
        if !finished {
            proof {
                lemma_evaluation_charges(body, analysis);
            }
            let evaluated = evaluate_next(
                id,
                instructions,
                protected,
                limits,
                base,
                &mut analyzer,
                usage,
                Ghost(body),
                Ghost(analysis),
            );
            let next = match evaluated {
                Ok(next) => next,
                Err(error) => {
                    assert(evaluation_memory_failure(body, analysis, error)
                        ==> run_memory_failure(body, before, error));
                    return Err(error);
                },
            };
            proof {
                assert forall|error: BytecodeVerificationError| #[trigger]
                    run_memory_failure(body, next@, error) implies run_memory_failure(
                    body,
                    first,
                    error,
                ) by {
                    assert(run_memory_failure(body, before, error));
                }
                assert(stack_round(body, before) == Ok::<
                    Option<StackAnalysis>,
                    BytecodeVerificationError,
                >(Some(next@)));
                lemma_evaluation_keeps_seed(body, analysis);
                analysis = next@;
            }
        }
    }
    Ok((analyzer, Ghost(analysis)))
}

proof fn lemma_over_edges_keeps_seed(
    body: StackBody,
    decoded: DecodedInstruction,
    component: u32,
    outcome: StackOutcome,
    edges: Seq<EffectiveEdge>,
    at: int,
    analysis: StackAnalysis,
)
    ensures
        match over_edges(body, decoded, component, outcome, edges, at, analysis) {
            Ok(next) => next.next_seed == analysis.next_seed,
            Err(_) => true,
        },
    decreases edges.len() - at,
{
    if at < edges.len() && edges[at].target.0 < body.instructions.len() {
        let edge = edges[at];
        if let Ok(output) = edge_stack(
            body.id,
            decoded,
            outcome.step.transfer.iteration_branch_value,
            edge,
            outcome.state,
        ) {
            if let Ok(evaluations) = charged_transfers(
                body.id,
                analysis.evaluations,
                stack_cost(output.len()),
                body.base,
                body.limits.max_policy_transfers,
            ) {
                if let Ok(next) = propagated_stack(
                    body.id,
                    edge_facts(body, decoded, component, edge),
                    output,
                    analysis.edges,
                    body.limits.max_frame_state_entries,
                ) {
                    lemma_over_edges_keeps_seed(
                        body,
                        decoded,
                        component,
                        outcome,
                        edges,
                        at + 1,
                        StackAnalysis { edges: next, evaluations, ..analysis },
                    );
                }
            }
        }
    }
}

proof fn lemma_evaluation_keeps_seed(body: StackBody, analysis: StackAnalysis)
    ensures
        match evaluated_stack(body, analysis) {
            Ok(next) => next.next_seed == analysis.next_seed,
            Err(_) => true,
        },
{
    let index = analysis.edges.work[0] as int;
    let verified = body.instructions[index];
    let decoded = verified.decoded;
    let taken = EdgeState {
        work: analysis.edges.work.skip(1),
        queued: analysis.edges.queued.update(index, false),
        ..analysis.edges
    };
    if let (Some(component), Some(entry)) = (taken.components[index], taken.entries[index]) {
        if let Ok(evaluations) = charged_transfers(
            body.id,
            analysis.evaluations,
            stack_cost(entry.len()),
            body.base,
            body.limits.max_policy_transfers,
        ) {
            if let Ok((outcome, certificates)) = certified_transfer(
                body.id,
                index,
                decoded,
                component == 0,
                verified.successors.spec_branch_target(),
                body.instructions,
                entry,
                analysis.certificates,
            ) {
                lemma_over_edges_keeps_seed(
                    body,
                    decoded,
                    component,
                    outcome,
                    effective_edges(
                        body.instructions,
                        index,
                        body.targets.continuations,
                        outcome.step.transfer.ret_finalizer,
                    ),
                    0,
                    StackAnalysis { edges: taken, certificates, evaluations, ..analysis },
                );
            }
        }
    }
}

/// Analyzes the typed operand stack of one function body.
pub(crate) fn verify_internal_operand_stack(
    id: FunctionTemplateId,
    flow: &VerifiedControlFlow,
    limits: BytecodeGraphVerificationLimits,
    usage: &mut BytecodeGraphUsage,
) -> (certificate: Result<InternalStackCertificate, BytecodeVerificationError>)
    ensures
        ({
            let expected = stack_certificate(id, flow.instructions@, limits, *old(usage));
            match certificate {
                Ok(certificate) => expected == Ok::<
                    (CertificateModel, BytecodeGraphUsage),
                    BytecodeVerificationError,
                >((certificate.model(), *final(usage))),
                Err(error) => expected == Err::<
                    (CertificateModel, BytecodeGraphUsage),
                    BytecodeVerificationError,
                >(error) || stack_memory_failure(
                    id,
                    flow.instructions@,
                    limits,
                    *old(usage),
                    error,
                ),
            }
        }),
{
    proof {
        use_type_invariant(flow);
        let decoded = decoded_of(flow.instructions@);
        assert forall|i: int, j: int| 0 <= i < j < flow.instructions@.len() implies (
        #[trigger] flow.instructions@[i]).decoded.pc.0 < (
        #[trigger] flow.instructions@[j]).decoded.pc.0 by {
            assert(decoded[i].pc.0 < decoded[j].pc.0);
        }
    }
    let instructions = flow.instructions();
    let sites: u64 = count_gosub_sites(instructions);
    if sites > MAX_GOSUB_SITES_PER_FUNCTION as u64 {
        return Err(
            BytecodeVerificationError::function(
                id,
                BytecodeVerificationErrorKind::GosubSiteCountOutOfRange {
                    sites,
                    maximum: MAX_GOSUB_SITES_PER_FUNCTION,
                },
            ),
        );
    }
    if !find_markers(instructions) {
        let certificate = InternalStackCertificate::empty();
        proof {
            let model = certificate.model();
            let empty = empty_certificate();
            assert(model.certificates.iteration =~= empty.certificates.iteration);
            assert(model.certificates.catching =~= empty.certificates.catching);
            assert(model.certificates.nips =~= empty.certificates.nips);
            assert(model.certificates.rets =~= empty.certificates.rets);
            assert(model.continuations =~= empty.continuations);
        }
        return Ok(certificate);
    }
    let base: u64 = usage.policy_transfers;
    let tables = new_analyzer(id, instructions.len())?;
    let (protected, targets) = collect_targets(
        id,
        instructions,
        limits.max_frame_state_entries,
        usage,
    )?;
    let ghost body = StackBody {
        id,
        instructions: instructions@,
        targets: targets@,
        limits,
        base,
    };
    let (analyzer, end) = run_analysis(
        id,
        instructions,
        &protected,
        limits,
        base,
        tables,
        usage,
        Ghost(body),
    )?;
    charge(
        &mut usage.policy_transfers,
        analyzer.evaluations,
        limits.max_policy_transfers,
        BytecodeGraphResource::PolicyTransfers,
    )?;
    Ok(
        InternalStackCertificate {
            iteration_local_puts: analyzer.iteration,
            catch_local_puts: analyzer.catching,
            nip_catch_transforms: analyzer.nips,
            finally_continuations: protected.continuations,
            ret_finalizers: analyzer.rets,
        },
    )
}

} // verus!
