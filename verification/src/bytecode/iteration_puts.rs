//! Locals that iteration heads declare.
use crate::bytecode::error::{
    BindingPolicyViolationReason, BindingSlot, BytecodeVerificationError, graph_error,
    policy_error, spec_policy_error,
};
use crate::bytecode::internal_stack::{
    CertifiedIterationLocalPut, InternalStackCertificate, entry_at,
};
use crate::bytecode::internal_step::Certificates;
use crate::bytecode::internal_verifier::CertificateModel;
use crate::bytecode::model::{
    BytecodeGraphResource, BytecodeGraphUsage, BytecodeGraphVerificationLimits,
    CompilerWritePolicy, VariableDefinition,
};
use crate::bytecode::operand_use::{
    is_unchecked_local_put, local_operand, saturated_u32, spec_is_unchecked_local_put,
    spec_local_operand, usize_to_u32,
};
use crate::bytecode::stack_error::{
    charge, charge_frame_state_entries, charge_policy_transfers, charged, charged_frame_state,
    charged_transfers, for_in_error, for_in_stack_error, reservation_failure, try_filled_vec,
};
use crate::checks::{
    first_failure, lemma_first_failure_at, lemma_no_failure, lemma_success_means_all,
};
use crate::control_flow::model::{VerifiedControlFlow, VerifiedInstruction};
use crate::function_graph::FunctionTemplateId;
use crate::instruction::BytecodePc;
use vstd::prelude::*;

verus! {

/// What iteration heads are looked for in.
pub struct IterationBody {
    /// Function being checked.
    pub id: FunctionTemplateId,
    /// Its instructions.
    pub instructions: Seq<VerifiedInstruction>,
    /// Its locals.
    pub locals: Seq<VariableDefinition>,
    /// Puts that the typed-stack analysis found to come from iteration heads.
    pub puts: Seq<Option<CertifiedIterationLocalPut>>,
    /// Transfers charged before.
    pub base: u64,
    /// Maximum of transfers.
    pub limit: u64,
}

/// Whether an instruction puts a local without a dead-zone check.
pub open(crate) spec fn puts_unchecked(body: IterationBody, at: int) -> bool {
    spec_is_unchecked_local_put(body.instructions[at].decoded.instruction.opcode)
}

/// Local that an instruction names.
pub open(crate) spec fn named_local(body: IterationBody, at: int) -> Option<u32> {
    let instruction = body.instructions[at].decoded.instruction;
    spec_local_operand(instruction.opcode, instruction.operands)
}

/// Unchecked puts among the first `count` instructions.
pub open(crate) spec fn unchecked_puts_before(body: IterationBody, count: int) -> nat
    decreases count,
{
    if count <= 0 {
        0
    } else {
        unchecked_puts_before(body, count - 1) + if puts_unchecked(body, count - 1) {
            1nat
        } else {
            0nat
        }
    }
}

/// The check of one unchecked put: it names a local, the one that it is
/// certified for.
pub open(crate) spec fn put_check(body: IterationBody, at: int) -> Result<
    (),
    BytecodeVerificationError,
> {
    let charged = charged_transfers(
        body.id,
        unchecked_puts_before(body, at) as u64,
        1,
        body.base,
        body.limit,
    );
    let mismatch = Err(for_in_error(body.id, body.instructions[at].decoded));
    if !puts_unchecked(body, at) {
        Ok(())
    } else if charged.is_err() {
        Err(charged->Err_0)
    } else {
        match (named_local(body, at), entry_at(body.puts, at)) {
            (None, _) => mismatch,
            (Some(local), certified) => if local >= body.locals.len() {
                mismatch
            } else {
                match certified {
                    Some(certified) => if certified.local != local {
                        mismatch
                    } else {
                        Ok(())
                    },
                    None => Ok(()),
                }
            },
        }
    }
}

/// The checks of all unchecked puts.
pub open(crate) spec fn put_checks(body: IterationBody) -> Seq<
    Result<(), BytecodeVerificationError>,
> {
    Seq::new(body.instructions.len(), |i: int| put_check(body, i))
}

/// Whether an unchecked put of a local comes from an iteration head.
pub open(crate) spec fn certified_put(body: IterationBody, local: int, at: int) -> bool {
    puts_unchecked(body, at) && (match named_local(body, at) {
        Some(named) => named == local,
        None => false,
    }) && entry_at(body.puts, at).is_some()
}

/// Whether an unchecked put of a local comes from elsewhere.
pub open(crate) spec fn uncertified_put(body: IterationBody, local: int, at: int) -> bool {
    puts_unchecked(body, at) && (match named_local(body, at) {
        Some(named) => named == local,
        None => false,
    }) && entry_at(body.puts, at).is_none()
}

/// Whether one of the first `count` instructions is a certified put of a local.
pub open(crate) spec fn certified_within(body: IterationBody, local: int, count: int) -> bool {
    exists|i: int| 0 <= i < count && #[trigger] certified_put(body, local, i)
}

/// Whether one of the first `count` instructions is an uncertified put of a
/// local.
pub open(crate) spec fn uncertified_within(body: IterationBody, local: int, count: int) -> bool {
    exists|i: int| 0 <= i < count && #[trigger] uncertified_put(body, local, i)
}

/// Iteration that a certified put belongs to.
pub open(crate) spec fn site_of(body: IterationBody, at: int) -> BytecodePc {
    entry_at(body.puts, at).unwrap().cursor_site
}

/// Whether two certified puts of a local among the first `count` instructions
/// belong to different iterations.
pub open(crate) spec fn sites_differ_within(
    body: IterationBody,
    local: int,
    count: int,
) -> bool {
    exists|i: int, j: int|
        0 <= i < count && 0 <= j < count && #[trigger] certified_put(body, local, i)
            && #[trigger] certified_put(body, local, j) && site_of(body, i) != site_of(body, j)
}

/// Offset of the first certified put of a local from `from` on.
pub open(crate) spec fn first_certified_pc(
    body: IterationBody,
    local: int,
    from: int,
) -> Option<BytecodePc>
    decreases body.instructions.len() - from,
{
    if from >= body.instructions.len() {
        None
    } else if certified_put(body, local, from) {
        Some(body.instructions[from].decoded.pc)
    } else {
        first_certified_pc(body, local, from + 1)
    }
}

/// Whether iteration heads put a local.
pub open(crate) spec fn put_by_heads(body: IterationBody, local: int) -> bool {
    certified_within(body, local, body.instructions.len() as int)
}

/// Whether only iteration heads put a local.
pub open(crate) spec fn put_by_heads_only(body: IterationBody, local: int) -> bool {
    !uncertified_within(body, local, body.instructions.len() as int)
}

/// Whether an iteration head may declare a local: it cannot be written
/// otherwise, or is a captured lexical binding that nothing else puts.
pub open(crate) spec fn may_be_declared(body: IterationBody, local: int) -> bool {
    let definition = body.locals[local];
    put_by_heads(body, local) && (definition.policy.writes != CompilerWritePolicy::Mutable || (
    definition.policy.temporal_dead_zone && definition.has_scope
        && definition.variable_reference.is_some() && put_by_heads_only(body, local)))
}

/// Locals among the first `count` that iteration heads put.
pub open(crate) spec fn head_locals_before(body: IterationBody, count: int) -> nat
    decreases count,
{
    if count <= 0 {
        0
    } else {
        head_locals_before(body, count - 1) + if put_by_heads(body, count - 1) {
            1nat
        } else {
            0nat
        }
    }
}

/// The check that the iteration heads that declare a lexical local belong to one
/// iteration.
pub open(crate) spec fn head_local_check(body: IterationBody, local: int) -> Result<
    (),
    BytecodeVerificationError,
> {
    let evaluations = unchecked_puts_before(body, body.instructions.len() as int)
        + head_locals_before(body, local);
    let charged = charged_transfers(body.id, evaluations as u64, 1, body.base, body.limit);
    if !put_by_heads(body, local) {
        Ok(())
    } else if charged.is_err() {
        Err(charged->Err_0)
    } else if may_be_declared(body, local) && body.locals[local].policy.temporal_dead_zone
        && sites_differ_within(body, local, body.instructions.len() as int) {
        Err(
            spec_policy_error(
                body.id,
                BindingSlot::Local(saturated_u32(local)),
                first_certified_pc(body, local, 0),
                BindingPolicyViolationReason::InvalidLexicalInitialization,
            ),
        )
    } else {
        Ok(())
    }
}

/// The checks of all locals.
pub open(crate) spec fn head_local_checks(body: IterationBody) -> Seq<
    Result<(), BytecodeVerificationError>,
> {
    Seq::new(body.locals.len(), |i: int| head_local_check(body, i))
}

/// Whether the iteration heads that put a local declare it.
pub open(crate) spec fn declared_by_heads(body: IterationBody, local: int) -> bool {
    local < body.locals.len() && may_be_declared(body, local)
        && body.locals[local].policy.temporal_dead_zone && put_by_heads_only(body, local)
}

/// Certified puts among the first `count`.
pub open(crate) spec fn certified_before(body: IterationBody, count: int) -> nat
    decreases count,
{
    if count <= 0 {
        0
    } else {
        certified_before(body, count - 1) + if body.puts[count - 1].is_some() {
            1nat
        } else {
            0nat
        }
    }
}

/// Transfers behind the checks of puts and locals.
pub open(crate) spec fn checked_transfers(body: IterationBody) -> nat {
    unchecked_puts_before(body, body.instructions.len() as int) + head_locals_before(
        body,
        body.locals.len() as int,
    )
}

/// The charges for the certified puts.
pub open(crate) spec fn certified_charges(body: IterationBody) -> Seq<
    Result<(), BytecodeVerificationError>,
> {
    Seq::new(
        body.puts.len(),
        |i: int|
            {
                let evaluations = checked_transfers(body) + certified_before(body, i);
                let charged = charged_transfers(
                    body.id,
                    evaluations as u64,
                    1,
                    body.base,
                    body.limit,
                );
                if body.puts[i].is_some() && charged.is_err() {
                    Err(charged->Err_0)
                } else {
                    Ok(())
                }
            },
    )
}

/// The certified puts that declare their local.
pub open(crate) spec fn declaring_puts(body: IterationBody) -> Seq<
    Option<CertifiedIterationLocalPut>,
> {
    Seq::new(
        body.puts.len(),
        |i: int|
            match body.puts[i] {
                Some(certified) => if declared_by_heads(body, certified.local as int) {
                    Some(certified)
                } else {
                    None
                },
                None => None,
            },
    )
}

/// The check of a body that has certified puts.
pub open(crate) spec fn iteration_check(body: IterationBody) -> Result<
    (),
    BytecodeVerificationError,
> {
    if first_failure(put_checks(body)).is_err() {
        first_failure(put_checks(body))
    } else if first_failure(head_local_checks(body)).is_err() {
        first_failure(head_local_checks(body))
    } else {
        first_failure(certified_charges(body))
    }
}

/// The certificate that keeps only the puts that declare their local, and what
/// it was charged.
pub open(crate) spec fn declaring_certificate(
    id: FunctionTemplateId,
    instructions: Seq<VerifiedInstruction>,
    locals: Seq<VariableDefinition>,
    certificate: CertificateModel,
    limits: BytecodeGraphVerificationLimits,
    usage: BytecodeGraphUsage,
) -> Result<(CertificateModel, BytecodeGraphUsage), BytecodeVerificationError> {
    let puts = certificate.certificates.iteration;
    let body = IterationBody {
        id,
        instructions,
        locals,
        puts,
        base: usage.policy_transfers,
        limit: limits.max_policy_transfers,
    };
    let transfers = checked_transfers(body) + certified_before(body, puts.len() as int);
    if forall|i: int| 0 <= i < puts.len() ==> (#[trigger] puts[i]).is_none() {
        Ok((certificate, usage))
    } else {
        match charged_frame_state(id, usage, locals.len(), limits.max_frame_state_entries) {
            Err(error) => Err(error),
            Ok(framed) => match iteration_check(body) {
                Err(error) => Err(error),
                Ok(_) => match charged(
                    usage.policy_transfers,
                    transfers as u64,
                    limits.max_policy_transfers,
                    BytecodeGraphResource::PolicyTransfers,
                ) {
                    Err(kind) => Err(graph_error(kind)),
                    Ok(policy_transfers) => {
                        let certificates = Certificates {
                            iteration: declaring_puts(body),
                            ..certificate.certificates
                        };
                        Ok(
                            (
                                CertificateModel {
                                    certificates,
                                    ..certificate
                                },
                                BytecodeGraphUsage { policy_transfers, ..framed },
                            ),
                        )
                    },
                },
            },
        }
    }
}

/// A put that stays certified declares a lexical local: nothing but heads of one
/// iteration puts that local.
pub proof fn lemma_declared_locals_have_one_iteration(body: IterationBody, at: int)
    requires
        iteration_check(body).is_ok(),
        0 <= at < body.puts.len(),
        declaring_puts(body)[at].is_some(),
    ensures
        body.puts[at] == declaring_puts(body)[at],
        ({
            let local = body.puts[at].unwrap().local as int;
            &&& local < body.locals.len()
            &&& body.locals[local].policy.temporal_dead_zone
            &&& put_by_heads_only(body, local)
            &&& !sites_differ_within(body, local, body.instructions.len() as int)
        }),
{
    lemma_success_means_all(head_local_checks(body));
    let local = body.puts[at].unwrap().local as int;
    assert(head_local_checks(body)[local].is_ok());
}

/// What is known of one local.
#[derive(Clone, Copy)]
struct IterationLocalPutSummary {
    certified: bool,
    has_uncertified_put: bool,
    multiple_cursor_sites: bool,
    cursor_site: Option<BytecodePc>,
    first_certified_pc: Option<BytecodePc>,
    declarative_authority: bool,
}

spec fn summarizes(
    body: IterationBody,
    local: int,
    count: int,
    summary: IterationLocalPutSummary,
) -> bool {
    &&& summary.certified == certified_within(body, local, count)
    &&& summary.has_uncertified_put == uncertified_within(body, local, count)
    &&& summary.multiple_cursor_sites == sites_differ_within(body, local, count)
    &&& summary.certified == summary.cursor_site.is_some()
    &&& summary.certified == summary.first_certified_pc.is_some()
    &&& match summary.cursor_site {
        Some(site) => exists|i: int|
            0 <= i < count && #[trigger] certified_put(body, local, i) && site_of(body, i) == site,
        None => true,
    }
    &&& first_certified_pc(body, local, 0) == if summary.certified {
        summary.first_certified_pc
    } else {
        first_certified_pc(body, local, count)
    }
}

/// An instruction that is no unchecked put of a local changes nothing.
proof fn lemma_summary_steps_over(
    body: IterationBody,
    local: int,
    at: int,
    summary: IterationLocalPutSummary,
)
    requires
        0 <= at < body.instructions.len(),
        summarizes(body, local, at, summary),
        !certified_put(body, local, at),
        !uncertified_put(body, local, at),
    ensures
        summarizes(body, local, at + 1, summary),
{
    lemma_within_steps(body, local, at);
    if let Some(site) = summary.cursor_site {
        let i = choose|i: int|
            0 <= i < at && #[trigger] certified_put(body, local, i) && site_of(body, i) == site;
        assert(0 <= i < at + 1 && certified_put(body, local, i) && site_of(body, i) == site);
    }
}

/// How the facts about a local grow by one instruction.
proof fn lemma_within_steps(body: IterationBody, local: int, at: int)
    requires
        0 <= at < body.instructions.len(),
    ensures
        certified_within(body, local, at + 1) == (certified_within(body, local, at)
            || certified_put(body, local, at)),
        uncertified_within(body, local, at + 1) == (uncertified_within(body, local, at)
            || uncertified_put(body, local, at)),
        !certified_put(body, local, at) ==> sites_differ_within(body, local, at + 1)
            == sites_differ_within(body, local, at),
        sites_differ_within(body, local, at) ==> sites_differ_within(body, local, at + 1),
{
    if certified_within(body, local, at) {
        let i = choose|i: int| 0 <= i < at && #[trigger] certified_put(body, local, i);
        assert(0 <= i < at + 1 && certified_put(body, local, i));
    }
    if certified_within(body, local, at + 1) {
        let i = choose|i: int| 0 <= i < at + 1 && #[trigger] certified_put(body, local, i);
        if i < at {
            assert(certified_within(body, local, at));
        }
    }
    if uncertified_within(body, local, at) {
        let i = choose|i: int| 0 <= i < at && #[trigger] uncertified_put(body, local, i);
        assert(0 <= i < at + 1 && uncertified_put(body, local, i));
    }
    if uncertified_within(body, local, at + 1) {
        let i = choose|i: int| 0 <= i < at + 1 && #[trigger] uncertified_put(body, local, i);
        if i < at {
            assert(uncertified_within(body, local, at));
        }
    }
    if sites_differ_within(body, local, at) {
        let (i, j) = choose|i: int, j: int|
            0 <= i < at && 0 <= j < at && #[trigger] certified_put(body, local, i)
                && #[trigger] certified_put(body, local, j) && site_of(body, i) != site_of(
                body,
                j,
            );
        assert(certified_put(body, local, i) && certified_put(body, local, j));
    }
    if sites_differ_within(body, local, at + 1) && !certified_put(body, local, at) {
        let (i, j) = choose|i: int, j: int|
            0 <= i < at + 1 && 0 <= j < at + 1 && #[trigger] certified_put(body, local, i)
                && #[trigger] certified_put(body, local, j) && site_of(body, i) != site_of(
                body,
                j,
            );
        assert(i < at && j < at);
    }
}

/// A certified put extends the summary of its local.
proof fn lemma_summary_grows(
    body: IterationBody,
    local: int,
    at: int,
    summary: IterationLocalPutSummary,
    grown: IterationLocalPutSummary,
)
    requires
        0 <= at < body.instructions.len(),
        summarizes(body, local, at, summary),
        certified_put(body, local, at),
        grown.certified,
        grown.has_uncertified_put == summary.has_uncertified_put,
        grown.first_certified_pc == if summary.certified {
            summary.first_certified_pc
        } else {
            Some(body.instructions[at].decoded.pc)
        },
        grown.cursor_site == if summary.certified {
            summary.cursor_site
        } else {
            Some(site_of(body, at))
        },
        grown.multiple_cursor_sites == (summary.multiple_cursor_sites || (summary.certified
            && summary.cursor_site != Some(site_of(body, at)))),
    ensures
        summarizes(body, local, at + 1, grown),
{
    lemma_within_steps(body, local, at);
    assert(!uncertified_put(body, local, at));
    if summary.certified {
        let site = summary.cursor_site.unwrap();
        let i = choose|i: int|
            0 <= i < at && #[trigger] certified_put(body, local, i) && site_of(body, i) == site;
        assert(0 <= i < at + 1 && certified_put(body, local, i) && site_of(body, i) == site);
        if site != site_of(body, at) {
            assert(certified_put(body, local, i) && certified_put(body, local, at) && site_of(
                body,
                i,
            ) != site_of(body, at));
        }
        if sites_differ_within(body, local, at + 1) && !summary.multiple_cursor_sites {
            let (j, k) = choose|j: int, k: int|
                0 <= j < at + 1 && 0 <= k < at + 1 && #[trigger] certified_put(body, local, j)
                    && #[trigger] certified_put(body, local, k) && site_of(body, j) != site_of(
                    body,
                    k,
                );
            if site == site_of(body, at) {
                assert(j == at ==> certified_put(body, local, i) && certified_put(body, local, k));
                assert(k == at ==> certified_put(body, local, i) && certified_put(body, local, j));
            }
        }
    } else {
        assert(0 <= at < at + 1 && certified_put(body, local, at));
        if sites_differ_within(body, local, at + 1) {
            let (j, k) = choose|j: int, k: int|
                0 <= j < at + 1 && 0 <= k < at + 1 && #[trigger] certified_put(body, local, j)
                    && #[trigger] certified_put(body, local, k) && site_of(body, j) != site_of(
                    body,
                    k,
                );
            if j < at {
                assert(certified_within(body, local, at));
            }
            if k < at {
                assert(certified_within(body, local, at));
            }
        }
    }
}

/// An uncertified put marks the summary of its local.
proof fn lemma_summary_is_marked(
    body: IterationBody,
    local: int,
    at: int,
    summary: IterationLocalPutSummary,
)
    requires
        0 <= at < body.instructions.len(),
        summarizes(body, local, at, summary),
        uncertified_put(body, local, at),
    ensures
        summarizes(
            body,
            local,
            at + 1,
            IterationLocalPutSummary { has_uncertified_put: true, ..summary },
        ),
{
    lemma_within_steps(body, local, at);
    if let Some(site) = summary.cursor_site {
        let i = choose|i: int|
            0 <= i < at && #[trigger] certified_put(body, local, i) && site_of(body, i) == site;
        assert(0 <= i < at + 1 && certified_put(body, local, i) && site_of(body, i) == site);
    }
}

spec fn summarized(
    body: IterationBody,
    count: int,
    summaries: Seq<IterationLocalPutSummary>,
) -> bool {
    &&& summaries.len() == body.locals.len()
    &&& forall|l: int|
        0 <= l < summaries.len() ==> summarizes(body, l, count, #[trigger] summaries[l])
}

fn grown_summary(
    summary: IterationLocalPutSummary,
    pc: BytecodePc,
    site: BytecodePc,
) -> (grown: IterationLocalPutSummary)
    requires
        summary.certified == summary.cursor_site.is_some(),
        summary.certified == summary.first_certified_pc.is_some(),
    ensures
        grown.certified,
        grown.has_uncertified_put == summary.has_uncertified_put,
        grown.first_certified_pc == if summary.certified {
            summary.first_certified_pc
        } else {
            Some(pc)
        },
        grown.cursor_site == if summary.certified {
            summary.cursor_site
        } else {
            Some(site)
        },
        grown.multiple_cursor_sites == (summary.multiple_cursor_sites || (summary.certified
            && summary.cursor_site != Some(site))),
{
    let other_site: bool = match summary.cursor_site {
        Some(first) => first.0 != site.0,
        None => false,
    };
    IterationLocalPutSummary {
        certified: true,
        has_uncertified_put: summary.has_uncertified_put,
        multiple_cursor_sites: summary.multiple_cursor_sites || other_site,
        cursor_site: if summary.cursor_site.is_some() {
            summary.cursor_site
        } else {
            Some(site)
        },
        first_certified_pc: if summary.first_certified_pc.is_some() {
            summary.first_certified_pc
        } else {
            Some(pc)
        },
        declarative_authority: false,
    }
}

fn summarize_puts(
    id: FunctionTemplateId,
    instructions: &[VerifiedInstruction],
    puts: &Vec<Option<CertifiedIterationLocalPut>>,
    summaries: &mut Vec<IterationLocalPutSummary>,
    evaluations: &mut u64,
    base: u64,
    limit: u64,
    Ghost(body): Ghost<IterationBody>,
) -> (checked: Result<(), BytecodeVerificationError>)
    requires
        body.id == id,
        body.instructions == instructions@,
        body.puts == puts@,
        body.base == base,
        body.limit == limit,
        *old(evaluations) == 0,
        summarized(body, 0, old(summaries)@),
    ensures
        checked == first_failure(put_checks(body)),
        checked.is_ok() ==> summarized(
            body,
            body.instructions.len() as int,
            final(summaries)@,
        ) && *final(evaluations) == unchecked_puts_before(body, body.instructions.len() as int),
{
    let ghost checks = put_checks(body);
    let mut at: usize = 0;
    while at < instructions.len()
        invariant
            at <= instructions@.len(),
            body.id == id,
            body.instructions == instructions@,
            body.puts == puts@,
            body.base == base,
            body.limit == limit,
            checks == put_checks(body),
            forall|i: int| 0 <= i < at ==> (#[trigger] checks[i]).is_ok(),
            summarized(body, at as int, summaries@),
            *evaluations == unchecked_puts_before(body, at as int),
        decreases instructions@.len() - at,
    {
        let decoded = instructions[at].decoded;
        let opcode = decoded.instruction.opcode;
        assert(checks[at as int] == put_check(body, at as int));
        proof {
            if checks[at as int].is_err() {
                lemma_first_failure_at(checks, at as int);
            }
        }
        let ghost before = summaries@;
        if !is_unchecked_local_put(opcode) {
            proof {
                assert forall|l: int| 0 <= l < summaries@.len() implies summarizes(
                    body,
                    l,
                    at + 1,
                    #[trigger] summaries@[l],
                ) by {
                    lemma_summary_steps_over(body, l, at as int, summaries@[l]);
                }
            }
        } else {
            charge_policy_transfers(id, evaluations, 1, base, limit)?;
            let local: u32 = match local_operand(opcode, decoded.instruction.operands) {
                Some(local) => local,
                None => {
                    return Err(for_in_stack_error(id, decoded));
                },
            };
            let position: usize = local as usize;
            if position >= summaries.len() {
                return Err(for_in_stack_error(id, decoded));
            }
            let certified: Option<CertifiedIterationLocalPut> = if at < puts.len() {
                puts[at]
            } else {
                None
            };
            assert(certified == entry_at(body.puts, at as int));
            let summary = summaries[position];
            assert(summarizes(body, position as int, at as int, summary));
            match certified {
                None => {
                    let marked = IterationLocalPutSummary {
                        has_uncertified_put: true,
                        ..summary
                    };
                    proof {
                        lemma_summary_is_marked(body, position as int, at as int, summary);
                    }
                    summaries.set(position, marked);
                },
                Some(certified) => {
                    if certified.local != local {
                        return Err(for_in_stack_error(id, decoded));
                    }
                    let grown = grown_summary(summary, decoded.pc, certified.cursor_site);
                    proof {
                        lemma_summary_grows(body, position as int, at as int, summary, grown);
                    }
                    summaries.set(position, grown);
                },
            }
            proof {
                assert forall|l: int| 0 <= l < summaries@.len() implies summarizes(
                    body,
                    l,
                    at + 1,
                    #[trigger] summaries@[l],
                ) by {
                    if l != position {
                        assert(summaries@[l] == before[l]);
                        lemma_summary_steps_over(body, l, at as int, before[l]);
                    }
                }
            }
        }
        at = at + 1;
    }
    proof {
        lemma_no_failure(checks);
    }
    Ok(())
}

/// Facts about a local survive the setting of its authority.
proof fn lemma_authority_is_apart(
    body: IterationBody,
    local: int,
    count: int,
    summary: IterationLocalPutSummary,
    authority: bool,
)
    requires
        summarizes(body, local, count, summary),
    ensures
        summarizes(
            body,
            local,
            count,
            IterationLocalPutSummary { declarative_authority: authority, ..summary },
        ),
{
}

fn decide_authority(
    id: FunctionTemplateId,
    locals: &[VariableDefinition],
    offset: usize,
    summaries: &mut Vec<IterationLocalPutSummary>,
    evaluations: &mut u64,
    base: u64,
    limit: u64,
    Ghost(body): Ghost<IterationBody>,
) -> (checked: Result<(), BytecodeVerificationError>)
    requires
        body.id == id,
        offset <= locals@.len(),
        body.locals == locals@.skip(offset as int),
        body.base == base,
        body.limit == limit,
        summarized(body, body.instructions.len() as int, old(summaries)@),
        *old(evaluations) == unchecked_puts_before(body, body.instructions.len() as int),
    ensures
        checked == first_failure(head_local_checks(body)),
        checked.is_ok() ==> *final(evaluations) == checked_transfers(body)
            && final(summaries)@.len() == body.locals.len() && (forall|l: int|
            0 <= l < body.locals.len() ==> (#[trigger] final(summaries)@[l]).declarative_authority
                == declared_by_heads(body, l)),
{
    let ghost checks = head_local_checks(body);
    let ghost count = body.instructions.len() as int;
    let total: usize = locals.len();
    let mut local: usize = 0;
    while local < summaries.len()
        invariant
            local <= body.locals.len(),
            total == locals@.len(),
            body.id == id,
            offset <= locals@.len(),
            body.locals == locals@.skip(offset as int),
            body.base == base,
            body.limit == limit,
            count == body.instructions.len(),
            checks == head_local_checks(body),
            forall|i: int| 0 <= i < local ==> (#[trigger] checks[i]).is_ok(),
            summarized(body, count, summaries@),
            *evaluations == unchecked_puts_before(body, count) + head_locals_before(
                body,
                local as int,
            ),
            forall|l: int|
                0 <= l < local ==> (#[trigger] summaries@[l]).declarative_authority
                    == declared_by_heads(body, l),
        decreases body.locals.len() - local,
    {
        let summary = summaries[local];
        assert(summarizes(body, local as int, count, summary));
        assert(checks[local as int] == head_local_check(body, local as int));
        proof {
            if checks[local as int].is_err() {
                lemma_first_failure_at(checks, local as int);
            }
        }
        let mut authority: bool = false;
        if summary.certified {
            charge_policy_transfers(id, evaluations, 1, base, limit)?;
            let definition = locals[offset + local];
            assert(definition == body.locals[local as int]);
            let mutable: bool = matches!(definition.policy.writes, CompilerWritePolicy::Mutable);
            let captured_declaration: bool = definition.policy.temporal_dead_zone
                && definition.has_scope && definition.variable_reference.is_some()
                && !summary.has_uncertified_put;
            if !mutable || captured_declaration {
                if definition.policy.temporal_dead_zone && summary.multiple_cursor_sites {
                    return Err(
                        policy_error(
                            id,
                            BindingSlot::Local(usize_to_u32(local)),
                            summary.first_certified_pc,
                            BindingPolicyViolationReason::InvalidLexicalInitialization,
                        ),
                    );
                }
                authority = definition.policy.temporal_dead_zone && !summary.has_uncertified_put;
            }
        }
        let decided = IterationLocalPutSummary { declarative_authority: authority, ..summary };
        proof {
            lemma_authority_is_apart(body, local as int, count, summary, authority);
        }
        summaries.set(local, decided);
        local = local + 1;
    }
    proof {
        lemma_no_failure(checks);
    }
    Ok(())
}

fn keep_declaring_puts(
    id: FunctionTemplateId,
    puts: &mut Vec<Option<CertifiedIterationLocalPut>>,
    summaries: &Vec<IterationLocalPutSummary>,
    evaluations: &mut u64,
    base: u64,
    limit: u64,
    Ghost(body): Ghost<IterationBody>,
) -> (checked: Result<(), BytecodeVerificationError>)
    requires
        body.id == id,
        body.puts == old(puts)@,
        body.base == base,
        body.limit == limit,
        *old(evaluations) == checked_transfers(body),
        summaries@.len() == body.locals.len(),
        forall|l: int|
            0 <= l < body.locals.len() ==> (#[trigger] summaries@[l]).declarative_authority
                == declared_by_heads(body, l),
    ensures
        checked == first_failure(certified_charges(body)),
        checked.is_ok() ==> final(puts)@ == declaring_puts(body) && *final(evaluations)
            == checked_transfers(body) + certified_before(body, body.puts.len() as int),
{
    let ghost checks = certified_charges(body);
    let mut at: usize = 0;
    while at < puts.len()
        invariant
            at <= body.puts.len(),
            puts@.len() == body.puts.len(),
            body.id == id,
            body.base == base,
            body.limit == limit,
            checks == certified_charges(body),
            forall|i: int| 0 <= i < at ==> (#[trigger] checks[i]).is_ok(),
            *evaluations == checked_transfers(body) + certified_before(body, at as int),
            summaries@.len() == body.locals.len(),
            forall|l: int|
                0 <= l < body.locals.len() ==> (#[trigger] summaries@[l]).declarative_authority
                    == declared_by_heads(body, l),
            forall|i: int| 0 <= i < at ==> #[trigger] puts@[i] == declaring_puts(body)[i],
            forall|i: int| at <= i < puts@.len() ==> #[trigger] puts@[i] == body.puts[i],
        decreases body.puts.len() - at,
    {
        proof {
            if checks[at as int].is_err() {
                lemma_first_failure_at(checks, at as int);
            }
        }
        assert(puts@[at as int] == body.puts[at as int]);
        if let Some(certified) = puts[at] {
            charge_policy_transfers(id, evaluations, 1, base, limit)?;
            let local: usize = certified.local as usize;
            if local >= summaries.len() || !summaries[local].declarative_authority {
                puts.set(at, None);
            }
        }
        at = at + 1;
    }
    proof {
        lemma_no_failure(checks);
        assert(puts@ =~= declaring_puts(body));
    }
    Ok(())
}

fn has_certified_put(puts: &Vec<Option<CertifiedIterationLocalPut>>) -> (found: bool)
    ensures
        found == !(forall|i: int| 0 <= i < puts@.len() ==> (#[trigger] puts@[i]).is_none()),
{
    let mut at: usize = 0;
    while at < puts.len()
        invariant
            at <= puts@.len(),
            forall|i: int| 0 <= i < at ==> (#[trigger] puts@[i]).is_none(),
        decreases puts@.len() - at,
    {
        if puts[at].is_some() {
            assert(puts@[at as int].is_some());
            return true;
        }
        at = at + 1;
    }
    false
}

/// Whether `error` reports that the summaries of `locals` locals could not be
/// reserved. They are needed where a put is certified, once they are charged.
pub open spec fn puts_memory_failure(
    id: FunctionTemplateId,
    locals: nat,
    certificate: CertificateModel,
    limits: BytecodeGraphVerificationLimits,
    usage: BytecodeGraphUsage,
    error: BytecodeVerificationError,
) -> bool {
    let puts = certificate.certificates.iteration;
    &&& exists|i: int| 0 <= i < puts.len() && (#[trigger] puts[i]).is_some()
    &&& charged_frame_state(id, usage, locals, limits.max_frame_state_entries).is_ok()
    &&& error == reservation_failure(
        id,
        BytecodeGraphResource::FrameStateEntries,
        locals as u64,
    )
}

/// Keeps, of the puts that come from iteration heads, those that declare their
/// local. Mutable locals are written by checked puts otherwise; a captured
/// per-iteration declaration is one that only iteration heads put.
pub fn classify_iteration_declarative_local_puts(
    id: FunctionTemplateId,
    flow: &VerifiedControlFlow,
    variables: &[VariableDefinition],
    certificate: &mut InternalStackCertificate,
    limits: BytecodeGraphVerificationLimits,
    usage: &mut BytecodeGraphUsage,
) -> (checked: Result<(), BytecodeVerificationError>)
    requires
        flow.spec_domains().argument_count <= variables@.len(),
    ensures
        ({
            let expected = declaring_certificate(
                id,
                flow.spec_instructions(),
                variables@.skip(flow.spec_domains().argument_count as int),
                old(certificate).model(),
                limits,
                *old(usage),
            );
            match checked {
                Ok(_) => expected == Ok::<
                    (CertificateModel, BytecodeGraphUsage),
                    BytecodeVerificationError,
                >((final(certificate).model(), *final(usage))),
                Err(error) => expected == Err::<
                    (CertificateModel, BytecodeGraphUsage),
                    BytecodeVerificationError,
                >(error) || puts_memory_failure(
                    id,
                    (variables@.len() - flow.spec_domains().argument_count) as nat,
                    old(certificate).model(),
                    limits,
                    *old(usage),
                    error,
                ),
            }
        }),
{
    if !has_certified_put(&certificate.iteration_local_puts) {
        return Ok(());
    }
    let instructions = flow.instructions();
    let argument_count: usize = flow.domains().argument_count() as usize;
    let local_count: usize = variables.len() - argument_count;
    let base: u64 = usage.policy_transfers;
    let limit: u64 = limits.max_policy_transfers;
    let ghost body = IterationBody {
        id,
        instructions: instructions@,
        locals: variables@.skip(argument_count as int),
        puts: certificate.iteration_local_puts@,
        base,
        limit,
    };
    charge_frame_state_entries(id, usage, local_count, limits.max_frame_state_entries)?;
    let mut summaries = try_filled_vec(
        id,
        local_count,
        IterationLocalPutSummary {
            certified: false,
            has_uncertified_put: false,
            multiple_cursor_sites: false,
            cursor_site: None,
            first_certified_pc: None,
            declarative_authority: false,
        },
        BytecodeGraphResource::FrameStateEntries,
    )?;
    let mut evaluations: u64 = 0;
    assert(summarized(body, 0, summaries@));
    summarize_puts(
        id,
        instructions,
        &certificate.iteration_local_puts,
        &mut summaries,
        &mut evaluations,
        base,
        limit,
        Ghost(body),
    )?;
    decide_authority(
        id,
        variables,
        argument_count,
        &mut summaries,
        &mut evaluations,
        base,
        limit,
        Ghost(body),
    )?;
    keep_declaring_puts(
        id,
        &mut certificate.iteration_local_puts,
        &summaries,
        &mut evaluations,
        base,
        limit,
        Ghost(body),
    )?;
    charge(
        &mut usage.policy_transfers,
        evaluations,
        limits.max_policy_transfers,
        BytecodeGraphResource::PolicyTransfers,
    )
}

} // verus!
