//! Where scope chains lead, and how often variables of modules and realms are
//! initialized.
use crate::bytecode::closures::{
    initializes_lexical, lexical_initializations, lexical_initializer_check,
    module_initializer_check, module_pair, module_pairs_before,
};
use crate::bytecode::global_initializers::{
    first_global_pair, global_pair, global_pairs_before, global_prefix_behind,
    global_prefix_verdict,
};
use crate::bytecode::initializer_pairs::{InitializerBody, body_incoming, flows_on};
use crate::bytecode::model::{
    ClosureVariableDefinition, CompilerBindingKind, CompilerClosureBinding, ScopeLink,
    VariableDefinition,
};
use crate::bytecode::scope_links::{scope_walk, scope_walks_from};
use crate::control_flow::model::VerifiedInstruction;
use crate::function_graph::{CompilerClosureSource, FunctionTemplateId};
use crate::instruction::Operands;
use crate::opcode::FinalOpcode;
use vstd::prelude::*;

verus! {

/// Whether numbers fall along every link between locals, and no local ends in the
/// scope of the arguments.
pub open spec fn falls_along_links(locals: Seq<VariableDefinition>, ranks: Seq<nat>) -> bool {
    forall|i: int|
        0 <= i < locals.len() ==> match (#[trigger] locals[i]).scope_next {
            ScopeLink::End => true,
            ScopeLink::ArgumentScopeEnd => false,
            ScopeLink::Local(next) => next < locals.len() && ranks[next as int] < ranks[i],
        }
}

proof fn lemma_walk_falls(
    id: FunctionTemplateId,
    locals: Seq<VariableDefinition>,
    ranks: Seq<nat>,
    current: int,
    walked: Seq<int>,
)
    requires
        falls_along_links(locals, ranks),
        0 <= current < locals.len(),
        forall|k: int| 0 <= k < walked.len() ==> ranks[#[trigger] walked[k]] > ranks[current],
    ensures
        scope_walk(id, locals, current, walked).is_ok(),
    decreases ranks[current],
{
    if walked.contains(current) {
        let k = choose|k: int| 0 <= k < walked.len() && walked[k] == current;
        assert(ranks[walked[k]] > ranks[current]);
    }
    if walked.len() <= locals.len() {
        if let ScopeLink::Local(next) = locals[current].scope_next {
            let further = walked.push(current);
            assert forall|k: int| 0 <= k < further.len() implies ranks[#[trigger] further[k]]
                > ranks[next as int] by {
                if k < walked.len() {
                    assert(further[k] == walked[k]);
                }
            }
            lemma_walk_falls(id, locals, ranks, next as int, further);
        }
    }
}

proof fn lemma_walks_fall(
    id: FunctionTemplateId,
    locals: Seq<VariableDefinition>,
    ranks: Seq<nat>,
    start: int,
)
    requires
        falls_along_links(locals, ranks),
        0 <= start,
    ensures
        scope_walks_from(id, locals, start).is_ok(),
    decreases locals.len() - start,
{
    if start < locals.len() {
        lemma_walk_falls(id, locals, ranks, start, Seq::empty());
        lemma_walks_fall(id, locals, ranks, start + 1);
    }
}

/// Whether locals link to one another in a ring.
pub open spec fn ring(locals: Seq<VariableDefinition>, path: Seq<int>) -> bool {
    &&& 0 < path.len() <= locals.len()
    &&& forall|k: int| 0 <= k < path.len() ==> 0 <= #[trigger] path[k] < locals.len()
    &&& forall|k: int, l: int|
        0 <= k && l == k + 1 && l < path.len() ==> match locals[#[trigger] path[k]].scope_next {
            ScopeLink::Local(next) => next == #[trigger] path[l],
            _ => false,
        }
    &&& match locals[path.last()].scope_next {
        ScopeLink::Local(next) => next == path[0],
        _ => false,
    }
}

proof fn lemma_walk_rings(
    id: FunctionTemplateId,
    locals: Seq<VariableDefinition>,
    path: Seq<int>,
    at: int,
)
    requires
        ring(locals, path),
        0 <= at < path.len(),
    ensures
        scope_walk(id, locals, path[at], path.take(at)).is_err(),
    decreases path.len() - at,
{
    let walked = path.take(at);
    if !walked.contains(path[at]) {
        assert(walked.push(path[at]) =~= path.take(at + 1));
        if at + 1 < path.len() {
            let next = path[at + 1];
            lemma_walk_rings(id, locals, path, at + 1);
            assert(scope_walk(id, locals, next, walked.push(path[at])).is_err());
        } else {
            assert(path.take(at + 1)[0] == path[0]);
            assert(path.take(at + 1).contains(path[0]));
            assert(path.last() == path[at]);
            assert(scope_walk(id, locals, path[0], walked.push(path[at])).is_err());
        }
    }
}

proof fn lemma_walks_reach(
    id: FunctionTemplateId,
    locals: Seq<VariableDefinition>,
    start: int,
    at: int,
)
    requires
        0 <= start <= at < locals.len(),
        scope_walk(id, locals, at, Seq::empty()).is_err(),
    ensures
        scope_walks_from(id, locals, start).is_err(),
    decreases at - start,
{
    if start < at {
        lemma_walks_reach(id, locals, start + 1, at);
    }
}

/// Scope links are accepted where they can be numbered so that the numbers fall
/// along them, and refused where they run in a ring or a local ends in the scope
/// of the arguments.
pub proof fn lemma_scope_links_lead_out(
    id: FunctionTemplateId,
    locals: Seq<VariableDefinition>,
    ranks: Seq<nat>,
    path: Seq<int>,
    at: int,
)
    ensures
        falls_along_links(locals, ranks) ==> scope_walks_from(id, locals, 0).is_ok(),
        ring(locals, path) ==> scope_walks_from(id, locals, 0).is_err(),
        0 <= at < locals.len() && locals[at].scope_next == ScopeLink::ArgumentScopeEnd
            ==> scope_walks_from(id, locals, 0).is_err(),
{
    if falls_along_links(locals, ranks) {
        lemma_walks_fall(id, locals, ranks, 0);
    }
    if ring(locals, path) {
        lemma_walk_rings(id, locals, path, 0);
        assert(path.take(0) =~= Seq::<int>::empty());
        lemma_walks_reach(id, locals, 0, path[0]);
    }
    if 0 <= at < locals.len() && locals[at].scope_next == ScopeLink::ArgumentScopeEnd {
        assert(!Seq::<int>::empty().contains(at));
        lemma_walks_reach(id, locals, 0, at);
    }
}

/// Whether a closure of `constant` stands at `at`, directly followed by the put
/// of closure variable `slot` by `opcode`.
pub open spec fn closes_and_puts(
    instructions: Seq<VerifiedInstruction>,
    constant: u32,
    opcode: FinalOpcode,
    slot: u32,
    at: int,
) -> bool {
    &&& 0 <= at
    &&& at + 1 < instructions.len()
    &&& closes(instructions[at], constant)
    &&& instructions[at + 1].spec_decoded().instruction.opcode == opcode
    &&& match instructions[at + 1].spec_decoded().instruction.operands {
        Operands::VarRef(found) => found == slot,
        _ => false,
    }
}

/// Whether an instruction makes a closure of `constant`.
pub open spec fn closes(instruction: VerifiedInstruction, constant: u32) -> bool {
    let found = instruction.spec_decoded().instruction;
    match found.operands {
        Operands::Const(index) => found.opcode == FinalOpcode::FClosure && index == constant,
        Operands::Const8(index) => found.opcode == FinalOpcode::FClosure8 && index == constant,
        _ => false,
    }
}

/// Whether the only pair that puts `slot` among the first `count` instructions
/// stands at `at`.
pub open spec fn puts_only_at(
    instructions: Seq<VerifiedInstruction>,
    constant: u32,
    slot: u32,
    count: int,
    at: int,
) -> bool {
    let opcode = FinalOpcode::PutVarRef;
    &&& at < count
    &&& closes_and_puts(instructions, constant, opcode, slot, at)
    &&& forall|other: int|
        other < count && #[trigger] closes_and_puts(instructions, constant, opcode, slot, other)
            ==> other == at
}

proof fn lemma_module_count(
    instructions: Seq<VerifiedInstruction>,
    constant: u32,
    slot: u32,
    count: int,
)
    ensures
        module_pairs_before(instructions, constant, slot, count) == 0 <==> forall|at: int|
            at < count ==> !#[trigger] closes_and_puts(
                instructions,
                constant,
                FinalOpcode::PutVarRef,
                slot,
                at,
            ),
        module_pairs_before(instructions, constant, slot, count) == 1 <==> exists|at: int|
            #[trigger] puts_only_at(instructions, constant, slot, count, at),
    decreases count,
{
    let opcode = FinalOpcode::PutVarRef;
    let pairs = module_pairs_before(instructions, constant, slot, count);
    if count > 0 {
        lemma_module_count(instructions, constant, slot, count - 1);
        let last = count - 1;
        let found = closes_and_puts(instructions, constant, opcode, slot, last);
        assert(found == module_pair(instructions, constant, slot, last));
        if pairs == 1 {
            if found {
                assert(puts_only_at(instructions, constant, slot, count, last));
            } else {
                let at = choose|at: int| #[trigger]
                    puts_only_at(instructions, constant, slot, last, at);
                assert(puts_only_at(instructions, constant, slot, count, at));
            }
        }
        if exists|at: int| #[trigger] puts_only_at(instructions, constant, slot, count, at) {
            let at = choose|at: int| #[trigger]
                puts_only_at(instructions, constant, slot, count, at);
            if at < last {
                assert(puts_only_at(instructions, constant, slot, last, at));
            }
        }
    } else if exists|at: int| #[trigger] puts_only_at(instructions, constant, slot, count, at) {
        let at = choose|at: int| #[trigger] puts_only_at(instructions, constant, slot, count, at);
        assert(closes_and_puts(instructions, constant, opcode, slot, at));
    }
}

/// A function of a module is initialized exactly if one closure of it, and only
/// one, is directly followed by the put of its variable.
pub proof fn lemma_module_functions_are_put_once(
    id: FunctionTemplateId,
    instructions: Seq<VerifiedInstruction>,
    closure: ClosureVariableDefinition,
    slot: u32,
)
    ensures
        match closure.function_initializer {
            Some(constant) => module_initializer_check(id, instructions, closure, slot).is_ok()
                <==> exists|at: int| #[trigger]
                puts_only_at(instructions, constant, slot, instructions.len() as int, at),
            None => module_initializer_check(id, instructions, closure, slot).is_ok(),
        },
{
    if let Some(constant) = closure.function_initializer {
        lemma_module_count(instructions, constant, slot, instructions.len() as int);
    }
}

/// Whether instruction `at` initializes the lexical variable `slot`.
pub open spec fn initializes(
    instructions: Seq<VerifiedInstruction>,
    slot: u32,
    at: int,
) -> bool {
    &&& 0 <= at < instructions.len()
    &&& instructions[at].spec_decoded().instruction.opcode == FinalOpcode::PutVarInit
    &&& match instructions[at].spec_decoded().instruction.operands {
        Operands::VarRef(found) => found == slot,
        _ => false,
    }
}

/// Whether the only one of the first `count` instructions that initializes `slot`
/// is that at `at`.
pub open spec fn initializes_only_at(
    instructions: Seq<VerifiedInstruction>,
    slot: u32,
    count: int,
    at: int,
) -> bool {
    &&& at < count
    &&& initializes(instructions, slot, at)
    &&& forall|other: int|
        other < count && #[trigger] initializes(instructions, slot, other) ==> other == at
}

proof fn lemma_lexical_count(instructions: Seq<VerifiedInstruction>, slot: u32, count: int)
    requires
        count <= instructions.len(),
    ensures
        lexical_initializations(instructions, slot, count) == 0 <==> forall|at: int|
            at < count ==> !#[trigger] initializes(instructions, slot, at),
        lexical_initializations(instructions, slot, count) == 1 <==> exists|at: int| #[trigger]
            initializes_only_at(instructions, slot, count, at),
    decreases count,
{
    let number = lexical_initializations(instructions, slot, count);
    if count > 0 {
        lemma_lexical_count(instructions, slot, count - 1);
        let last = count - 1;
        let found = initializes(instructions, slot, last);
        assert(found == initializes_lexical(instructions[last].decoded.instruction, slot));
        if number == 1 {
            if found {
                assert(initializes_only_at(instructions, slot, count, last));
            } else {
                let at = choose|at: int| #[trigger]
                    initializes_only_at(instructions, slot, last, at);
                assert(initializes_only_at(instructions, slot, count, at));
            }
        }
        if exists|at: int| #[trigger] initializes_only_at(instructions, slot, count, at) {
            let at = choose|at: int| #[trigger] initializes_only_at(instructions, slot, count, at);
            if at < last {
                assert(initializes_only_at(instructions, slot, last, at));
            }
        }
    } else if exists|at: int| #[trigger] initializes_only_at(instructions, slot, count, at) {
        let at = choose|at: int| #[trigger] initializes_only_at(instructions, slot, count, at);
        assert(initializes(instructions, slot, at));
    }
}

/// A lexical global of the realm is initialized exactly once where it enters the
/// graph, and not at all where a parent handed it on. Nothing is asked of other
/// closure variables.
pub proof fn lemma_lexical_globals_are_initialized_once(
    id: FunctionTemplateId,
    instructions: Seq<VerifiedInstruction>,
    closure: ClosureVariableDefinition,
    source: CompilerClosureSource,
    slot: u32,
)
    ensures
        ({
            let accepted = lexical_initializer_check(
                id,
                instructions,
                closure,
                source,
                slot,
            ).is_ok();
            let lexical = match closure.binding {
                CompilerClosureBinding::RealmGlobal(policy) => policy.kind
                    == CompilerBindingKind::Let || policy.kind == CompilerBindingKind::Const,
                CompilerClosureBinding::Captured(_) => false,
            };
            if !lexical {
                accepted
            } else {
                match source {
                    CompilerClosureSource::ConstructorRealmGlobal(_) => accepted <==> exists|
                        at: int,
                    | #[trigger]
                        initializes_only_at(instructions, slot, instructions.len() as int, at),
                    _ => accepted <==> forall|at: int|
                        !#[trigger] initializes(instructions, slot, at),
                }
            }
        }),
{
    lemma_lexical_count(instructions, slot, instructions.len() as int);
}

/// Whether the pair at `at` initializes global `slot`: a closure of its constant
/// is directly followed by the put of the global, and control gets from the one to
/// the other and from nowhere else.
pub open(crate) spec fn initializes_at(
    body: InitializerBody,
    closures: Seq<ClosureVariableDefinition>,
    slot: int,
    at: int,
) -> bool {
    match closures[slot].function_initializer {
        Some(constant) => closes_and_puts(
            body.instructions,
            constant,
            FinalOpcode::PutVar,
            slot as u32,
            at,
        ) && flows_on(body, at) && body_incoming(body, at + 1) == 1,
        None => false,
    }
}

proof fn lemma_global_pair(
    body: InitializerBody,
    closures: Seq<ClosureVariableDefinition>,
    slot: int,
    at: int,
)
    requires
        0 <= slot < closures.len() <= u32::MAX,
    ensures
        initializes_at(body, closures, slot, at) <==> global_pair(body, closures, at) == Some(slot),
{
}

proof fn lemma_global_none(
    body: InitializerBody,
    closures: Seq<ClosureVariableDefinition>,
    slot: int,
    count: int,
)
    requires
        forall|at: int|
            at < count ==> #[trigger] global_pair(body, closures, at) != Some(slot),
    ensures
        global_pairs_before(body, closures, slot, count) == 0,
    decreases count,
{
    if count > 0 {
        lemma_global_none(body, closures, slot, count - 1);
        assert(global_pair(body, closures, count - 1) != Some(slot));
    }
}

proof fn lemma_global_one(
    body: InitializerBody,
    closures: Seq<ClosureVariableDefinition>,
    slot: int,
    site: int,
    count: int,
)
    requires
        0 <= site,
        forall|at: int|
            at < count ==> (#[trigger] global_pair(body, closures, at) == Some(slot) <==> at
                == site),
    ensures
        global_pairs_before(body, closures, slot, count) == if site < count {
            1nat
        } else {
            0nat
        },
    decreases count,
{
    if count > 0 {
        lemma_global_one(body, closures, slot, site, count - 1);
        assert(global_pair(body, closures, count - 1) == Some(slot) <==> count - 1 == site);
    }
}

proof fn lemma_global_first(
    body: InitializerBody,
    closures: Seq<ClosureVariableDefinition>,
    slot: int,
    site: int,
    from: int,
)
    requires
        0 <= from <= site < body.instructions.len(),
        forall|at: int|
            (#[trigger] global_pair(body, closures, at) == Some(slot) <==> at == site),
    ensures
        first_global_pair(body, closures, slot, from) == Some(site),
    decreases site - from,
{
    assert(global_pair(body, closures, from) == Some(slot) <==> from == site);
    if from < site {
        lemma_global_first(body, closures, slot, site, from + 1);
    }
}

/// A global function is accepted with one pair at the end of the entry prefix,
/// which then ends behind the pair: nothing leads to the first pair of all, and
/// one way to each later one. It is refused with its one pair elsewhere, and
/// without a pair. What is no global function is nothing to the prefix, and
/// global functions are refused outside the root.
pub proof fn lemma_global_functions_extend_the_prefix(
    body: InitializerBody,
    root: FunctionTemplateId,
    closures: Seq<ClosureVariableDefinition>,
    slot: int,
    site: int,
    prefix: int,
)
    requires
        0 <= slot < closures.len() <= u32::MAX,
        0 <= prefix,
    ensures
        ({
            let behind = global_prefix_behind(body, closures, slot, prefix);
            let global = closures[slot].function_initializer.is_some() && match closures[slot].binding {
                CompilerClosureBinding::RealmGlobal(_) => true,
                CompilerClosureBinding::Captured(_) => false,
            };
            let entering: nat = if prefix == 0 {
                0
            } else {
                1
            };
            let only = initializes_at(body, closures, slot, site) && forall|other: int|
                #[trigger] initializes_at(body, closures, slot, other) ==> other == site;
            &&& !global ==> behind.is_ok() && behind->Ok_0 == prefix
            &&& global && (forall|other: int| !#[trigger] initializes_at(body, closures, slot, other))
                ==> behind.is_err()
            &&& global && only ==> if site == prefix && body_incoming(body, site) == entering {
                behind.is_ok() && behind->Ok_0 == prefix + 2
            } else {
                behind.is_err()
            }
            &&& global && body.id != root ==> global_prefix_verdict(body, root, closures).is_err()
        }),
{
    let count = body.instructions.len() as int;
    assert forall|at: int| (#[trigger] global_pair(body, closures, at) == Some(slot))
        == initializes_at(body, closures, slot, at) by {
        lemma_global_pair(body, closures, slot, at);
    }
    if forall|other: int| !#[trigger] initializes_at(body, closures, slot, other) {
        assert forall|at: int| at < count implies #[trigger] global_pair(body, closures, at)
            != Some(slot) by {
            assert(!initializes_at(body, closures, slot, at));
        }
        lemma_global_none(body, closures, slot, count);
    }
    if initializes_at(body, closures, slot, site) && forall|other: int|
        #[trigger] initializes_at(body, closures, slot, other) ==> other == site {
        assert forall|at: int|
            (#[trigger] global_pair(body, closures, at) == Some(slot) <==> at == site) by {
            assert(initializes_at(body, closures, slot, at) ==> at == site);
        }
        lemma_global_one(body, closures, slot, site, count);
        lemma_global_first(body, closures, slot, site, 0);
    }
}

} // verus!
