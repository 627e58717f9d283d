//! What decides that a function is accepted beside its single instructions.
use crate::bytecode::admission_laws::{generates, makes_arguments, none_before};
use crate::bytecode::function_metadata::entry_prefix_start;
use crate::bytecode::internal_stack::{EffectiveEdge, InternalStackValue as Slot};
use crate::bytecode::internal_step::{Certificates, recorded};
use crate::bytecode::internal_transfer::{Certification, StackOutcome};
use crate::bytecode::internal_verifier::{StackBody, edge_facts, stack_certificate};
use crate::bytecode::model::{
    BytecodeGraphUsage, BytecodeGraphVerificationLimits, VariableDefinition,
};
use crate::bytecode::nesting_laws::{puts_argument, puts_local};
use crate::bytecode::object_verifier::edge_origins;
use crate::bytecode::opcode_profile::{
    OpcodeAuthority, arguments_definition_from, creates_arguments_object, last_arguments_object,
    occurrences, opcode_admitted, refused_from, spec_initializer_put_definition,
    supported_opcodes_check,
};
use crate::bytecode::protected_regions::{gosub_sites, has_markers, spec_uses_markers};
use crate::bytecode::provenance::ObjectDefinitionProvenance as Origin;
use crate::control_flow::model::VerifiedInstruction;
use crate::function_graph::{FunctionTemplateId, VerifiedCompilerFunction};
use crate::instruction::{DecodedInstruction, Operands};
use crate::opcode::FinalOpcode;
use vstd::prelude::*;

verus! {

/// Whether instruction `at` puts the definition at `definition`: an argument by
/// its number, or a local by its number behind the arguments.
pub open spec fn puts_definition(
    instructions: Seq<VerifiedInstruction>,
    arguments: u32,
    at: int,
    definition: int,
) -> bool {
    let found = instructions[at].spec_decoded().instruction;
    let local = definition - arguments;
    &&& 0 <= at < instructions.len()
    &&& match found.operands {
        Operands::Arg(index) => puts_argument(found.opcode) && index == definition,
        Operands::NoneArg => (found.opcode == FinalOpcode::PutArg0 && definition == 0) || (
        found.opcode == FinalOpcode::PutArg1 && definition == 1) || (found.opcode
            == FinalOpcode::PutArg2 && definition == 2) || (found.opcode == FinalOpcode::PutArg3
            && definition == 3),
        Operands::Loc(index) => puts_local(found.opcode) && index == local,
        Operands::Loc8(index) => puts_local(found.opcode) && index == local,
        Operands::NoneLoc => (found.opcode == FinalOpcode::PutLoc0 && local == 0) || (found.opcode
            == FinalOpcode::PutLoc1 && local == 1) || (found.opcode == FinalOpcode::PutLoc2
            && local == 2) || (found.opcode == FinalOpcode::PutLoc3 && local == 3),
        _ => false,
    }
}

proof fn lemma_last_made(instructions: Seq<VerifiedInstruction>, site: int, count: int)
    requires
        makes_arguments(instructions, site),
        0 <= site < count <= instructions.len(),
        forall|i: int| site < i < count ==> !#[trigger] makes_arguments(instructions, i),
    ensures
        last_arguments_object(instructions, count) == Some(site),
    decreases count,
{
    assert(makes_arguments(instructions, count - 1) == creates_arguments_object(
        instructions[count - 1].decoded,
    ));
    if site < count - 1 {
        assert(!makes_arguments(instructions, count - 1));
        lemma_last_made(instructions, site, count - 1);
    }
}

proof fn lemma_first_bound(variables: Seq<VariableDefinition>, definition: int, from: int)
    requires
        0 <= from <= definition < variables.len(),
        variables.len() <= u32::MAX,
        variables[definition].arguments_object,
        forall|i: int| 0 <= i < definition ==> !(#[trigger] variables[i]).arguments_object,
    ensures
        arguments_definition_from(variables, from) == Some(definition as u32),
    decreases definition - from,
{
    if from < definition {
        assert(!variables[from].arguments_object);
        lemma_first_bound(variables, definition, from + 1);
    }
}

proof fn lemma_none_bound(variables: Seq<VariableDefinition>, from: int)
    requires
        0 <= from,
        forall|i: int| 0 <= i < variables.len() ==> !(#[trigger] variables[i]).arguments_object,
    ensures
        arguments_definition_from(variables, from).is_none(),
    decreases variables.len() - from,
{
    if from < variables.len() {
        assert(!variables[from].arguments_object);
        lemma_none_bound(variables, from + 1);
    }
}

proof fn lemma_nothing_refused(
    authority: OpcodeAuthority,
    instructions: Seq<VerifiedInstruction>,
    sequences: Seq<bool>,
    from: int,
)
    requires
        0 <= from,
        forall|i: int|
            0 <= i < instructions.len() ==> #[trigger] opcode_admitted(
                authority,
                instructions,
                sequences,
                i,
            ),
    ensures
        refused_from(authority, instructions, sequences, from).is_none(),
    decreases instructions.len() - from,
{
    if from < instructions.len() {
        assert(opcode_admitted(authority, instructions, sequences, from));
        lemma_nothing_refused(authority, instructions, sequences, from + 1);
    }
}

proof fn lemma_occurs(instructions: Seq<VerifiedInstruction>, opcode: FinalOpcode, count: int)
    requires
        count <= instructions.len(),
    ensures
        occurrences(instructions, opcode, count) == 0 <==> forall|i: int|
            0 <= i < count ==> (
            #[trigger] instructions[i]).spec_decoded().instruction.opcode != opcode,
    decreases count,
{
    if count > 0 {
        lemma_occurs(instructions, opcode, count - 1);
    }
}

/// Where the last arguments object is made at `site` and the first definition
/// marked for it is `definition`, a function of admitted instructions is accepted
/// exactly if the instruction behind puts that definition and a generator yields
/// first. Where no definition is marked, the instruction behind puts none.
pub proof fn lemma_arguments_objects_are_put_where_marked(
    id: FunctionTemplateId,
    authority: OpcodeAuthority,
    instructions: Seq<VerifiedInstruction>,
    variables: Seq<VariableDefinition>,
    sequences: Seq<bool>,
    site: int,
    definition: int,
)
    requires
        0 <= site < instructions.len(),
        makes_arguments(instructions, site),
        forall|i: int|
            site < i < instructions.len() ==> !#[trigger] makes_arguments(instructions, i),
        forall|i: int|
            0 <= i < instructions.len() ==> #[trigger] opcode_admitted(
                authority,
                instructions,
                sequences,
                i,
            ),
        variables.len() < u32::MAX,
        generates(authority.kind) ==> !none_before(
            instructions,
            instructions.len() as int,
            FinalOpcode::InitialYield,
        ),
    ensures
        ({
            let accepted = supported_opcodes_check(
                id,
                authority,
                instructions,
                variables,
                sequences,
            ).is_ok();
            &&& 0 <= definition < variables.len() && variables[definition].arguments_object && (
            forall|i: int| 0 <= i < definition ==> !(#[trigger] variables[i]).arguments_object) ==> (
            accepted <==> puts_definition(
                instructions,
                authority.argument_count,
                site + 1,
                definition,
            ))
            &&& (forall|i: int|
                0 <= i < variables.len() ==> !(#[trigger] variables[i]).arguments_object)
                && puts_definition(
                instructions,
                authority.argument_count,
                site + 1,
                definition,
            ) ==> !accepted
        }),
{
    let count = instructions.len() as int;
    lemma_last_made(instructions, site, count);
    lemma_nothing_refused(authority, instructions, sequences, 0);
    lemma_occurs(instructions, FinalOpcode::InitialYield, count);
    if forall|i: int| 0 <= i < variables.len() ==> !(#[trigger] variables[i]).arguments_object {
        lemma_none_bound(variables, 0);
    }
    if 0 <= definition < variables.len() && variables[definition].arguments_object && (forall|i: int|
        0 <= i < definition ==> !(#[trigger] variables[i]).arguments_object) {
        lemma_first_bound(variables, definition, 0);
    }
    if site + 1 < count {
        let put = instructions[site + 1].decoded.instruction;
        let found = spec_initializer_put_definition(
            put.opcode,
            put.operands,
            authority.argument_count,
        );
        assert(puts_definition(instructions, authority.argument_count, site + 1, definition) == (
        found == Some(definition)));
    }
}

/// Whether an opcode puts a marker on the stack, needs one there, moves markers
/// out of the way or branches with a binding.
pub open spec fn works_with_markers(opcode: FinalOpcode) -> bool {
    let iterates = opcode == FinalOpcode::ForInStart || opcode == FinalOpcode::ForInNext || opcode
        == FinalOpcode::ForOfStart || opcode == FinalOpcode::ForOfNext || opcode
        == FinalOpcode::ForAwaitOfStart || opcode == FinalOpcode::ForAwaitOfNext || opcode
        == FinalOpcode::IteratorGetValueDone || opcode == FinalOpcode::IteratorClose;
    let protects = opcode == FinalOpcode::Catch || opcode == FinalOpcode::NipCatch || opcode
        == FinalOpcode::Gosub || opcode == FinalOpcode::Ret;
    let moves = opcode == FinalOpcode::Nip || opcode == FinalOpcode::Rot3r;
    let binds = opcode == FinalOpcode::WithGetVar || opcode == FinalOpcode::WithDeleteVar || opcode
        == FinalOpcode::WithMakeRef || opcode == FinalOpcode::WithGetRef;
    iterates || protects || moves || binds
}

/// Stacks are followed exactly in bodies that work with markers. Another body is
/// certified at no cost, with nothing in its certificate.
pub proof fn lemma_stacks_are_followed_where_markers_are(
    id: FunctionTemplateId,
    instructions: Seq<VerifiedInstruction>,
    limits: BytecodeGraphVerificationLimits,
    usage: BytecodeGraphUsage,
)
    ensures
        has_markers(instructions) <==> exists|i: int|
            0 <= i < instructions.len() && works_with_markers(
                (#[trigger] instructions[i]).spec_decoded().instruction.opcode,
            ),
        (forall|i: int|
            0 <= i < instructions.len() ==> !works_with_markers(
                (#[trigger] instructions[i]).spec_decoded().instruction.opcode,
            )) ==> ({
            let found = stack_certificate(id, instructions, limits, usage);
            &&& found.is_ok()
            &&& found->Ok_0.1 == usage
            &&& found->Ok_0.0.continuations.len() == 0
            &&& found->Ok_0.0.certificates.iteration.len() == 0
            &&& found->Ok_0.0.certificates.catching.len() == 0
            &&& found->Ok_0.0.certificates.nips.len() == 0
            &&& found->Ok_0.0.certificates.rets.len() == 0
        }),
{
    assert forall|opcode: FinalOpcode| #[trigger] works_with_markers(opcode) == spec_uses_markers(
        opcode,
    ) by {}
    if has_markers(instructions) {
        let i = choose|i: int|
            0 <= i < instructions.len() && spec_uses_markers(
                (#[trigger] instructions[i]).decoded.instruction.opcode,
            );
        assert(works_with_markers(instructions[i].spec_decoded().instruction.opcode));
    }
    if exists|i: int|
        0 <= i < instructions.len() && works_with_markers(
            (#[trigger] instructions[i]).spec_decoded().instruction.opcode,
        ) {
        let i = choose|i: int|
            0 <= i < instructions.len() && works_with_markers(
                (#[trigger] instructions[i]).spec_decoded().instruction.opcode,
            );
        assert(spec_uses_markers(instructions[i].decoded.instruction.opcode));
    } else {
        lemma_no_calls(instructions, instructions.len() as int);
    }
}

proof fn lemma_no_calls(instructions: Seq<VerifiedInstruction>, count: int)
    requires
        count <= instructions.len(),
        forall|i: int|
            0 <= i < instructions.len() ==> !works_with_markers(
                (#[trigger] instructions[i]).spec_decoded().instruction.opcode,
            ),
    ensures
        gosub_sites(instructions, count) == 0,
    decreases count,
{
    if count > 0 {
        lemma_no_calls(instructions, count - 1);
        assert(!works_with_markers(instructions[count - 1].spec_decoded().instruction.opcode));
    }
}

/// An edge knows of the place it leads to whether a handler or a subroutine starts
/// there and whether an iterator is closed there. Into a subroutine it carries one
/// value more, of unknown origin.
pub proof fn lemma_edges_know_where_they_lead(
    body: StackBody,
    decoded: DecodedInstruction,
    component: u32,
    edge: EffectiveEdge,
    origins: Seq<Origin>,
)
    ensures
        ({
            let facts = edge_facts(body, decoded, component, edge);
            let place = edge.target.spec_get() as int;
            &&& facts.source_pc == decoded.pc
            &&& facts.successor == edge.target
            &&& facts.component == component
            &&& facts.target_pc == body.instructions[place].spec_decoded().pc
            &&& facts.target.catch_handler == body.targets.handlers[place]
            &&& facts.target.finally_entry == body.targets.subroutines[place]
            &&& facts.target.iterator_close <==> body.instructions[place].spec_decoded().instruction.opcode
                == FinalOpcode::IteratorClose
            &&& facts.enters_finally == edge.enters_finally
        }),
        edge.enters_finally ==> edge_origins(edge, origins) == origins + seq![Origin::Unknown],
        !edge.enters_finally ==> edge_origins(edge, origins) == origins,
{
    assert(origins + seq![Origin::Unknown] =~= origins.push(Origin::Unknown));
}

/// Initializers may follow what the compiler put at the entry and what initializes
/// globals, whichever ends later.
pub proof fn lemma_initializers_follow_the_entry(
    function: VerifiedCompilerFunction,
    realm_globals: int,
)
    ensures
        entry_prefix_start(function, realm_globals) >= realm_globals,
        entry_prefix_start(function, realm_globals) >= function.function_initializer_prefix_start,
        entry_prefix_start(function, realm_globals) == realm_globals || entry_prefix_start(
            function,
            realm_globals,
        ) == function.function_initializer_prefix_start,
{
}

/// Whether two lists of certificates are the same but for one place.
pub open spec fn same_elsewhere<T>(
    before: Seq<Option<T>>,
    after: Seq<Option<T>>,
    index: int,
) -> bool {
    &&& after.len() == before.len()
    &&& forall|i: int| 0 <= i < before.len() && i != index ==> #[trigger] after[i] == before[i]
}

/// A transfer records what it certifies at its own place, and changes no other
/// place and no other list. It is refused exactly if it has no place, or if it
/// rearranged otherwise, or returned from another subroutine, before.
pub proof fn lemma_transfers_record_what_they_certify(
    id: FunctionTemplateId,
    decoded: DecodedInstruction,
    index: int,
    stack: Seq<Slot>,
    outcome: StackOutcome,
    before: Certificates,
)
    requires
        0 <= index,
    ensures
        ({
            let after = recorded(id, decoded, index, stack, outcome, before);
            let now = after->Ok_0;
            match outcome.step.certification {
                Certification::Nothing => after.is_ok() && now == before,
                Certification::IterationPut(put) => {
                    &&& after.is_ok() <==> index < before.iteration.len()
                    &&& after.is_ok() ==> now.iteration[index] == Some(put) && same_elsewhere(
                        before.iteration,
                        now.iteration,
                        index,
                    ) && now.catching == before.catching && now.nips == before.nips && now.rets
                        == before.rets
                },
                Certification::CatchPut(put) => {
                    &&& after.is_ok() <==> index < before.catching.len()
                    &&& after.is_ok() ==> now.catching[index] == Some(put) && same_elsewhere(
                        before.catching,
                        now.catching,
                        index,
                    ) && now.iteration == before.iteration && now.nips == before.nips && now.rets
                        == before.rets
                },
                Certification::NipCatch(transform) => {
                    &&& after.is_ok() <==> index < before.nips.len() && match before.nips[index] {
                        Some(earlier) => earlier == transform,
                        None => true,
                    }
                    &&& after.is_ok() ==> now.nips[index] == Some(transform) && same_elsewhere(
                        before.nips,
                        now.nips,
                        index,
                    ) && now.iteration == before.iteration && now.catching == before.catching
                        && now.rets == before.rets
                },
                Certification::Ret(target) => {
                    &&& after.is_ok() <==> index < before.rets.len() && match before.rets[index] {
                        Some(earlier) => earlier == target,
                        None => true,
                    }
                    &&& after.is_ok() ==> now.rets[index] == Some(target) && same_elsewhere(
                        before.rets,
                        now.rets,
                        index,
                    ) && now.iteration == before.iteration && now.catching == before.catching
                        && now.nips == before.nips
                },
            }
        }),
{
}

} // verus!
