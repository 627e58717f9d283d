//! Which instructions, headers, names and sources a function of a kind may have.
use crate::bytecode::executable::{executable_header_check, executable_kind_check};
use crate::bytecode::model::{
    CompilerBindingKind, CompilerExecutableKind, UnverifiedFunctionMetadata, VariableDefinition,
};
use crate::bytecode::opcode_profile::{
    OpcodeAuthority, arguments_definition_from, arguments_objects, creates_arguments_object,
    has_structural_edge, last_arguments_object, occurrences, opcode_admitted, predecessors,
    refused_from, supported_opcodes_check,
};
use crate::bytecode::source::{
    mapping_checks, source_check, starts_instruction, strict_order_checks, strict_pcs,
    strict_start_checks,
};
use crate::checks::{
    first_failure, lemma_failure_is_of_a_check, lemma_no_failure, lemma_success_means_all,
};
use crate::control_flow::model::{VerifiedInstruction, VerifiedSuccessorKind};
use crate::function::{FunctionKind, VerifiedFunctionHeader};
use crate::function_graph::FunctionTemplateId;
use crate::instruction::{BytecodePc, Operands};
use crate::opcode::FinalOpcode;
use vstd::prelude::*;
use vstd::string::StringSliceAdditionalSpecFns;
use vstd::utf8::is_char_boundary;

verus! {

/// Whether functions of the kind are generators.
pub open spec fn generates(kind: CompilerExecutableKind) -> bool {
    kind == CompilerExecutableKind::GeneratorFunction || kind
        == CompilerExecutableKind::GeneratorMethod || kind
        == CompilerExecutableKind::AsyncGeneratorFunction || kind
        == CompilerExecutableKind::AsyncGeneratorMethod
}

/// Whether functions of the kind are asynchronous.
pub open spec fn awaits(kind: CompilerExecutableKind) -> bool {
    kind == CompilerExecutableKind::AsyncArrow || kind == CompilerExecutableKind::AsyncFunction
        || kind == CompilerExecutableKind::AsyncMethod || kind
        == CompilerExecutableKind::AsyncGeneratorFunction || kind
        == CompilerExecutableKind::AsyncGeneratorMethod
}

/// Whether functions of the kind are arrows.
pub open spec fn points(kind: CompilerExecutableKind) -> bool {
    kind == CompilerExecutableKind::OrdinaryArrow || kind == CompilerExecutableKind::AsyncArrow
}

/// Whether functions of the kind run at the top of a source text and are no
/// direct eval.
pub open spec fn tops(kind: CompilerExecutableKind) -> bool {
    kind == CompilerExecutableKind::GlobalScript || kind
        == CompilerExecutableKind::IndirectEvalScript || kind
        == CompilerExecutableKind::DynamicFunctionScript || kind == CompilerExecutableKind::Module
}

/// Whether functions of the kind have a home object or find one around them.
pub open spec fn at_home(kind: CompilerExecutableKind) -> bool {
    points(kind) || kind == CompilerExecutableKind::OrdinaryMethod || kind
        == CompilerExecutableKind::ClassInstanceInitializer || kind
        == CompilerExecutableKind::GeneratorMethod || kind == CompilerExecutableKind::AsyncMethod
        || kind == CompilerExecutableKind::AsyncGeneratorMethod || kind
        == CompilerExecutableKind::ClassConstructor
}

/// Whether the instruction at `at` has the opcode.
pub open spec fn has_at(
    instructions: Seq<VerifiedInstruction>,
    at: int,
    opcode: FinalOpcode,
) -> bool {
    instructions[at].spec_decoded().instruction.opcode == opcode
}

/// Whether none of the first `count` instructions has the opcode.
pub open spec fn none_before(
    instructions: Seq<VerifiedInstruction>,
    count: int,
    opcode: FinalOpcode,
) -> bool {
    forall|i: int| 0 <= i < count ==> !#[trigger] has_at(instructions, i, opcode)
}

/// Whether the instruction at `at` makes the arguments object.
pub open spec fn makes_arguments(instructions: Seq<VerifiedInstruction>, at: int) -> bool {
    has_at(instructions, at, FinalOpcode::SpecialObject) && (
    instructions[at].spec_decoded().instruction.operands == Operands::U8(0)
        || instructions[at].spec_decoded().instruction.operands == Operands::U8(1))
}

proof fn lemma_occurrences(
    instructions: Seq<VerifiedInstruction>,
    opcode: FinalOpcode,
    count: int,
)
    requires
        0 <= count <= instructions.len(),
    ensures
        occurrences(instructions, opcode, count) == 0
            <==> none_before(instructions, count, opcode),
    decreases count,
{
    if count > 0 {
        lemma_occurrences(instructions, opcode, count - 1);
        assert(has_at(instructions, count - 1, opcode) == (instructions[count
            - 1].decoded.instruction.opcode == opcode));
        if occurrences(instructions, opcode, count) == 0 {
            assert(none_before(instructions, count, opcode));
        }
    }
}

proof fn lemma_arguments_objects(instructions: Seq<VerifiedInstruction>, count: int)
    requires
        0 <= count <= instructions.len(),
    ensures
        arguments_objects(instructions, count) == 0
            <==> forall|i: int| 0 <= i < count ==> !#[trigger] makes_arguments(instructions, i),
    decreases count,
{
    if count > 0 {
        lemma_arguments_objects(instructions, count - 1);
        assert(makes_arguments(instructions, count - 1)
            == creates_arguments_object(
            instructions[count - 1].decoded,
        ));
    }
}

/// Suspending, awaiting and returning fit the kind of the function. A generator
/// starts with its first yield, which comes once. It yields, and delegates, and
/// alone steps delegates. Awaiting is for asynchronous functions, whose
/// generators yield nothing but what they have just awaited. Both return as such
/// functions do, and all others plainly. A call in tail position is for strict
/// functions, arrows, methods and constructors.
pub proof fn lemma_suspensions_fit_their_function(
    authority: OpcodeAuthority,
    instructions: Seq<VerifiedInstruction>,
    sequences: Seq<bool>,
    index: int,
)
    requires
        0 <= index < instructions.len(),
    ensures
        ({
            let admitted = opcode_admitted(authority, instructions, sequences, index);
            let kind = authority.kind;
            match instructions[index].spec_decoded().instruction.opcode {
                FinalOpcode::InitialYield => admitted <==> generates(kind) && none_before(
                    instructions,
                    index,
                    FinalOpcode::InitialYield,
                ),
                FinalOpcode::Yield => {
                    &&& admitted ==> generates(kind)
                    &&& generates(kind) && !awaits(kind) ==> admitted
                    &&& admitted && awaits(kind) ==> index > 0 && has_at(
                        instructions,
                        index - 1,
                        FinalOpcode::Await,
                    )
                },
                FinalOpcode::YieldStar => admitted <==> generates(kind) && !awaits(kind),
                FinalOpcode::AsyncYieldStar => admitted <==> generates(kind) && awaits(kind),
                FinalOpcode::Await
                | FinalOpcode::ForAwaitOfStart
                | FinalOpcode::ForAwaitOfNext
                | FinalOpcode::IteratorGetValueDone => admitted <==> awaits(kind),
                FinalOpcode::IteratorNext
                | FinalOpcode::IteratorCall
                | FinalOpcode::IteratorCheckObject => admitted <==> generates(kind),
                FinalOpcode::ReturnAsync => admitted <==> generates(kind) || awaits(kind),
                FinalOpcode::Return | FinalOpcode::ReturnUndef => admitted <==> !generates(kind)
                    && !awaits(kind),
                FinalOpcode::TailCall | FinalOpcode::TailCallMethod => admitted
                    <==> authority.header.mode.spec_is_strict() && (kind
                    == CompilerExecutableKind::OrdinaryFunction || kind
                    == CompilerExecutableKind::OrdinaryArrow || kind
                    == CompilerExecutableKind::OrdinaryMethod || kind
                    == CompilerExecutableKind::ClassConstructor),
                _ => true,
            }
        }),
{
    lemma_occurrences(instructions, FinalOpcode::InitialYield, index);
    if index > 0 {
        assert(has_at(instructions, index - 1, FinalOpcode::Await) == (instructions[index
            - 1].decoded.instruction.opcode == FinalOpcode::Await));
    }
}

/// An asynchronous generator may yield right behind an `await` that goes on to
/// it, where nothing else leads there.
pub proof fn lemma_awaited_values_are_yielded(
    authority: OpcodeAuthority,
    instructions: Seq<VerifiedInstruction>,
    sequences: Seq<bool>,
    index: int,
)
    requires
        0 < index < instructions.len(),
        index <= u32::MAX,
        has_at(instructions, index, FinalOpcode::Yield),
        generates(authority.kind),
        awaits(authority.kind),
        has_at(instructions, index - 1, FinalOpcode::Await),
        instructions[index - 1].spec_successors().spec_kind()
            == VerifiedSuccessorKind::Fallthrough,
        leads(instructions, index - 1, index),
    ensures
        opcode_admitted(authority, instructions, sequences, index) <==> forall|i: int|
            0 <= i < instructions.len() && #[trigger] leads(instructions, i, index) ==> i == index
                - 1,
{
    lemma_predecessors(instructions, index, index - 1, instructions.len() as int);
    assert(instructions[index - 1].successors.spec_fallthrough().is_some());
}

/// Whether control may pass from the instruction at `from` to that at `to`.
pub open spec fn leads(instructions: Seq<VerifiedInstruction>, from: int, to: int) -> bool {
    let successors = instructions[from].spec_successors();
    ||| match successors.spec_fallthrough() {
        Some(next) => next.spec_get() == to,
        None => false,
    }
    ||| match successors.spec_branch_target() {
        Some(next) => next.spec_get() == to,
        None => false,
    }
    ||| match successors.spec_jump_target() {
        Some(next) => next.spec_get() == to,
        None => false,
    }
}

proof fn lemma_predecessors(
    instructions: Seq<VerifiedInstruction>,
    to: int,
    one: int,
    count: int,
)
    requires
        0 <= to <= u32::MAX,
        0 <= one,
        0 <= count <= instructions.len(),
        one < instructions.len(),
        leads(instructions, one, to),
    ensures
        ({
            let found = predecessors(
                instructions,
                to as u32,
                count,
            );
            &&& count > one ==> found >= 1
            &&& count <= one ==> (found == 0 <==> forall|i: int|
                0 <= i < count ==> !#[trigger] leads(instructions, i, to))
            &&& count > one ==> (found == 1 <==> forall|i: int|
                0 <= i < count && #[trigger] leads(instructions, i, to) ==> i == one)
        }),
    decreases count,
{
    if count > 0 {
        lemma_predecessors(instructions, to, one, count - 1);
        assert(leads(instructions, count - 1, to)
            == has_structural_edge(
            instructions[count - 1],
            to as u32,
        ));
    }
}

/// Special objects. Scripts and modules have none of their own. The arguments
/// object comes once, not in arrows and not behind rest arguments: mapped in
/// sloppy code with a simple parameter list that the compiler maps, unmapped in
/// strict code or behind other lists that it does not. `new.target` needs its
/// flag. The active constructor is for arrows, derived constructors and direct
/// evals that may call super. The home object is for what has one and for direct
/// evals that may use super. Instance elements come behind a checked sequence, in
/// arrows and in direct evals that have them. There are no others.
pub proof fn lemma_special_objects_fit_their_function(
    authority: OpcodeAuthority,
    instructions: Seq<VerifiedInstruction>,
    sequences: Seq<bool>,
    index: int,
    selector: u8,
)
    requires
        0 <= index < instructions.len(),
        has_at(instructions, index, FinalOpcode::SpecialObject),
        instructions[index].spec_decoded().instruction.operands == Operands::U8(selector),
    ensures
        ({
            let kind = authority.kind;
            let bits = authority.header.flags.0;
            let strict = authority.header.mode.spec_is_strict();
            let simple = bits & 2 != 0;
            let evaluates = kind == CompilerExecutableKind::DirectEvalScript;
            let alone = none_before(instructions, index, FinalOpcode::Rest) && forall|i: int|
                0 <= i < index ==> !#[trigger] makes_arguments(instructions, i);
            opcode_admitted(authority, instructions, sequences, index) <==> !tops(kind) && {
                ||| selector == 0 && !points(kind) && alone && (strict || !simple)
                    && !authority.mapped_arguments
                ||| selector == 1 && !points(kind) && alone && !strict && simple
                    && authority.mapped_arguments
                ||| selector == 3 && bits & 0x40 != 0
                ||| selector == 4 && (points(kind) || (evaluates && bits & 0x80 != 0) || (kind
                    == CompilerExecutableKind::ClassConstructor && bits & 4 != 0))
                ||| selector == 5 && (at_home(kind) || (evaluates && bits & 0x100 != 0))
                ||| selector == 6 && (points(kind) || (evaluates && bits & 0x1000 != 0)) && 0
                    <= index - 1 < sequences.len() && sequences[index - 1]
            }
        }),
{
    lemma_occurrences(instructions, FinalOpcode::Rest, index);
    lemma_occurrences(instructions, FinalOpcode::Rest, index + 1);
    lemma_arguments_objects(instructions, index);
    assert(!has_at(instructions, index, FinalOpcode::Rest));
    if none_before(instructions, index, FinalOpcode::Rest) {
        assert(none_before(instructions, index + 1, FinalOpcode::Rest));
    }
    if none_before(instructions, index + 1, FinalOpcode::Rest) {
        assert(none_before(instructions, index, FinalOpcode::Rest));
    }
    let bits = authority.header.flags.0;
    assert(bits & 0x0002 == bits & 2 && bits & 0x0040 == bits & 0x40 && bits & 0x0080 == bits & 0x80
        && bits & 0x0100 == bits & 0x100 && bits & 0x0004 == bits & 4) by (bit_vector);
}

/// Super properties are read and written where there is a home object, where a
/// static field's receiver stands for it, and in direct evals that may use super
/// or call it. The check of a constructor's return is for what may call super.
/// Rest arguments start behind all arguments of a list that is not simple, once.
/// Method flags and thrown errors have known values.
pub proof fn lemma_other_opcodes_fit_their_function(
    authority: OpcodeAuthority,
    instructions: Seq<VerifiedInstruction>,
    sequences: Seq<bool>,
    index: int,
)
    requires
        0 <= index < instructions.len(),
    ensures
        ({
            let admitted = opcode_admitted(authority, instructions, sequences, index);
            let kind = authority.kind;
            let bits = authority.header.flags.0;
            let evaluates = kind == CompilerExecutableKind::DirectEvalScript;
            let properties = at_home(kind) || authority.static_field_super || (evaluates && (bits
                & 0x100 != 0 || bits & 0x80 != 0));
            let calls = points(kind) || (evaluates && bits & 0x80 != 0) || (kind
                == CompilerExecutableKind::ClassConstructor && bits & 4 != 0);
            let operands = instructions[index].spec_decoded().instruction.operands;
            match instructions[index].spec_decoded().instruction.opcode {
                FinalOpcode::GetSuper
                | FinalOpcode::GetSuperValue
                | FinalOpcode::PutSuperValue => admitted <==> properties,
                FinalOpcode::CheckCtorReturn => admitted <==> calls && (evaluates && bits & 0x1000
                    != 0 ==> index < sequences.len() && sequences[index]),
                FinalOpcode::Rest => match operands {
                    Operands::U16(first) => admitted <==> first == authority.argument_count && bits
                        & 2 == 0 && none_before(instructions, index, FinalOpcode::Rest) && !tops(
                        kind,
                    ) && !evaluates && kind != CompilerExecutableKind::ClassInstanceInitializer,
                    _ => admitted,
                },
                FinalOpcode::DefineMethod => match operands {
                    Operands::AtomU8 { value, .. } => admitted <==> value <= 6 && value != 3,
                    _ => admitted,
                },
                FinalOpcode::DefineMethodComputed => match operands {
                    Operands::U8(value) => admitted <==> value <= 6 && value != 3,
                    _ => admitted,
                },
                FinalOpcode::ThrowError => match operands {
                    Operands::AtomU8 { value, .. } => admitted <==> (value == 3 && properties) || (
                    value == 4 && generates(kind)),
                    _ => !admitted,
                },
                FinalOpcode::Invalid
                | FinalOpcode::Nip1
                | FinalOpcode::Swap2
                | FinalOpcode::Rot5l
                | FinalOpcode::CheckBrand
                | FinalOpcode::AddBrand
                | FinalOpcode::GetRefValue
                | FinalOpcode::DefineClassComputed
                | FinalOpcode::GetLocCheckThis
                | FinalOpcode::PutVarRefCheckInit
                | FinalOpcode::WithPutVar
                | FinalOpcode::MakeLocRef
                | FinalOpcode::MakeArgRef
                | FinalOpcode::MakeVarRefRef
                | FinalOpcode::MakeVarRef
                | FinalOpcode::DecLoc
                | FinalOpcode::IncLoc
                | FinalOpcode::AddLoc
                | FinalOpcode::GetLength
                | FinalOpcode::IsUndefined
                | FinalOpcode::TypeofIsUndefined
                | FinalOpcode::TypeofIsFunction => !admitted,
                FinalOpcode::InitialYield
                | FinalOpcode::Yield
                | FinalOpcode::YieldStar
                | FinalOpcode::AsyncYieldStar
                | FinalOpcode::Await
                | FinalOpcode::ForAwaitOfStart
                | FinalOpcode::ForAwaitOfNext
                | FinalOpcode::IteratorGetValueDone
                | FinalOpcode::IteratorNext
                | FinalOpcode::IteratorCall
                | FinalOpcode::IteratorCheckObject
                | FinalOpcode::ReturnAsync
                | FinalOpcode::Return
                | FinalOpcode::ReturnUndef
                | FinalOpcode::TailCall
                | FinalOpcode::TailCallMethod
                | FinalOpcode::SpecialObject => true,
                _ => admitted,
            }
        }),
{
    lemma_occurrences(instructions, FinalOpcode::Rest, index);
    let bits = authority.header.flags.0;
    assert(bits & 0x0002 == bits & 2 && bits & 0x0080 == bits & 0x80 && bits & 0x0100 == bits
        & 0x100 && bits & 0x0004 == bits & 4) by (bit_vector);
}

/// All instructions of an accepted function are admitted; a generator has its
/// first yield, and mapped arguments are used where the compiler maps them.
/// Conversely a function without an arguments object, binding or mapping, whose
/// instructions are all admitted, is accepted if it is no generator or has its
/// first yield.
pub proof fn lemma_accepted_functions_use_admitted_opcodes(
    id: FunctionTemplateId,
    authority: OpcodeAuthority,
    instructions: Seq<VerifiedInstruction>,
    variables: Seq<VariableDefinition>,
    sequences: Seq<bool>,
)
    ensures
        ({
            let accepted = supported_opcodes_check(
                id,
                authority,
                instructions,
                variables,
                sequences,
            ).is_ok();
            let admitted = forall|i: int|
                0 <= i < instructions.len() ==> #[trigger] opcode_admitted(
                    authority,
                    instructions,
                    sequences,
                    i,
                );
            let makes = exists|i: int|
                0 <= i < instructions.len() && #[trigger] makes_arguments(instructions, i);
            let binds = exists|i: int|
                0 <= i < variables.len() && (#[trigger] variables[i]).arguments_object;
            let starts = !none_before(
                instructions,
                instructions.len() as int,
                FinalOpcode::InitialYield,
            );
            &&& accepted ==> admitted
            &&& accepted && generates(authority.kind) ==> starts
            &&& accepted && authority.mapped_arguments ==> makes
            &&& accepted && binds ==> makes
            &&& admitted && !makes && !binds && !authority.mapped_arguments && (generates(
                authority.kind,
            ) ==> starts) ==> accepted
        }),
{
    let count = instructions.len() as int;
    lemma_refused(authority, instructions, sequences, 0);
    lemma_occurrences(instructions, FinalOpcode::InitialYield, count);
    lemma_last_arguments(instructions, count);
    lemma_arguments_definition(variables, 0);
}

proof fn lemma_refused(
    authority: OpcodeAuthority,
    instructions: Seq<VerifiedInstruction>,
    sequences: Seq<bool>,
    at: int,
)
    requires
        0 <= at <= instructions.len(),
    ensures
        refused_from(
            authority,
            instructions,
            sequences,
            at,
        ).is_none() <==> forall|i: int|
            at <= i < instructions.len() ==> #[trigger] opcode_admitted(
                authority,
                instructions,
                sequences,
                i,
            ),
    decreases instructions.len() - at,
{
    if at < instructions.len() {
        lemma_refused(authority, instructions, sequences, at + 1);
    }
}

proof fn lemma_last_arguments(instructions: Seq<VerifiedInstruction>, count: int)
    requires
        0 <= count <= instructions.len(),
    ensures
        last_arguments_object(instructions, count).is_none()
            <==> forall|i: int| 0 <= i < count ==> !#[trigger] makes_arguments(instructions, i),
    decreases count,
{
    if count > 0 {
        lemma_last_arguments(instructions, count - 1);
        assert(makes_arguments(instructions, count - 1)
            == creates_arguments_object(
            instructions[count - 1].decoded,
        ));
    }
}

proof fn lemma_arguments_definition(variables: Seq<VariableDefinition>, at: int)
    requires
        0 <= at <= variables.len(),
    ensures
        arguments_definition_from(variables, at).is_none()
            <==> forall|i: int|
            at <= i < variables.len() ==> !(#[trigger] variables[i]).arguments_object,
    decreases variables.len() - at,
{
    if at < variables.len() {
        lemma_arguments_definition(variables, at + 1);
    }
}

/// Scripts, modules and direct evals are roots. They, arrows, methods and
/// constructors have neither a function name nor a variable that holds one, and
/// what runs at the top of a text closes over none either. Ordinary functions of
/// all sorts may have any.
pub proof fn lemma_kinds_have_their_place_and_name(
    id: FunctionTemplateId,
    root: FunctionTemplateId,
    metadata: UnverifiedFunctionMetadata,
)
    ensures
        ({
            let kind = metadata.executable_kind;
            let named = metadata.function_name.is_some() || exists|i: int|
                0 <= i < metadata.variables@.len() && (
                #[trigger] metadata.variables@[i]).policy.kind
                    == CompilerBindingKind::FunctionName;
            let closes = exists|i: int|
                0 <= i < metadata.closures@.len() && (
                #[trigger] metadata.closures@[i]).spec_policy().kind
                    == CompilerBindingKind::FunctionName;
            let free = kind == CompilerExecutableKind::OrdinaryFunction || kind
                == CompilerExecutableKind::GeneratorFunction || kind
                == CompilerExecutableKind::AsyncFunction || kind
                == CompilerExecutableKind::AsyncGeneratorFunction;
            executable_kind_check(id, root, metadata).is_ok() <==> {
                &&& tops(kind) || kind == CompilerExecutableKind::DirectEvalScript ==> id == root
                &&& !free ==> !named
                &&& tops(kind) ==> !closes
            }
        }),
{
}

/// The header of each kind of function. Its flags say what the kind is: bit one
/// that the parameter list is simple, which is at will where there are
/// parameters, and for the others which kind and capabilities it has.
pub proof fn lemma_headers_fit_their_kind(
    id: FunctionTemplateId,
    kind: CompilerExecutableKind,
    header: VerifiedFunctionHeader,
    arguments: u32,
)
    requires
        header.kind == FunctionKind::spec_from_serialized_flags(header.flags.0),
        header.mode.0 <= 1,
    ensures
        ({
            let bits = header.flags.0;
            let simple = bits & 2 != 0;
            let rest = bits & !2u16;
            let defined = header.defined_argument_count;
            let strict = header.mode.0 == 1;
            executable_header_check(id, kind, header, arguments).is_ok() <==> {
                &&& match kind {
                    CompilerExecutableKind::GlobalScript
                    | CompilerExecutableKind::IndirectEvalScript
                    | CompilerExecutableKind::DynamicFunctionScript
                    | CompilerExecutableKind::Module => bits == 0x400,
                    CompilerExecutableKind::DirectEvalScript => bits & 0xea3f == 0 && bits & 0x400
                        != 0 && (bits & 0x1000 != 0 ==> bits & 0x80 != 0),
                    CompilerExecutableKind::OrdinaryFunction => rest == 0x641,
                    CompilerExecutableKind::OrdinaryArrow => rest == 0x440,
                    CompilerExecutableKind::AsyncArrow => rest == 0x460,
                    CompilerExecutableKind::OrdinaryMethod => rest == 0x740,
                    CompilerExecutableKind::ClassInstanceInitializer => rest == 0x740 && simple,
                    CompilerExecutableKind::ClassConstructor => rest == 0x748 || rest == 0x7cc,
                    CompilerExecutableKind::GeneratorFunction => rest == 0x650,
                    CompilerExecutableKind::GeneratorMethod => rest == 0x750,
                    CompilerExecutableKind::AsyncFunction => rest == 0x660,
                    CompilerExecutableKind::AsyncMethod => rest == 0x760,
                    CompilerExecutableKind::AsyncGeneratorFunction => rest == 0x670,
                    CompilerExecutableKind::AsyncGeneratorMethod => rest == 0x770,
                }
                &&& kind == CompilerExecutableKind::DynamicFunctionScript ==> !strict
                &&& kind == CompilerExecutableKind::Module || kind
                    == CompilerExecutableKind::ClassInstanceInitializer || kind
                    == CompilerExecutableKind::ClassConstructor ==> strict
                &&& if tops(kind) || kind == CompilerExecutableKind::DirectEvalScript || kind
                    == CompilerExecutableKind::ClassInstanceInitializer {
                    defined == 0 && arguments == 0
                } else {
                    defined <= arguments && (simple ==> defined == arguments)
                }
            }
        }),
{
    let bits = header.flags.0;
    let mode = header.mode.0;
    assert(mode <= 1 ==> mode & !1u8 == 0) by (bit_vector);
    assert(mode <= 1 ==> ((mode & 1 != 0) <==> mode == 1)) by (bit_vector);
    assert((bits & !0x15c0u16 == 0) <==> bits & 0xea3f == 0) by (bit_vector);
    assert(bits & 0xea3f == 0 ==> bits & 0x30 == 0) by (bit_vector);
    assert(0x400u16 & 0x30 == 0 && 0x641u16 & 0x30 == 0 && 0x643u16 & 0x30 == 0 && 0x440u16 & 0x30
        == 0 && 0x442u16 & 0x30 == 0 && 0x740u16 & 0x30 == 0 && 0x742u16 & 0x30 == 0 && 0x748u16
        & 0x30 == 0 && 0x74au16 & 0x30 == 0 && 0x7ccu16 & 0x30 == 0 && 0x7ceu16 & 0x30 == 0)
        by (bit_vector);
    assert(0x650u16 & 0x30 == 0x10 && 0x652u16 & 0x30 == 0x10 && 0x750u16 & 0x30 == 0x10 && 0x752u16
        & 0x30 == 0x10 && 0x460u16 & 0x30 == 0x20 && 0x462u16 & 0x30 == 0x20 && 0x660u16 & 0x30
        == 0x20 && 0x662u16 & 0x30 == 0x20 && 0x760u16 & 0x30 == 0x20 && 0x762u16 & 0x30 == 0x20
        && 0x670u16 & 0x30 == 0x30 && 0x672u16 & 0x30 == 0x30 && 0x770u16 & 0x30 == 0x30 && 0x772u16
        & 0x30 == 0x30) by (bit_vector);
    assert((bits == 0x641 || bits == 0x643) <==> bits & !2u16 == 0x641) by (bit_vector);
    assert((bits == 0x440 || bits == 0x442) <==> bits & !2u16 == 0x440) by (bit_vector);
    assert((bits == 0x460 || bits == 0x462) <==> bits & !2u16 == 0x460) by (bit_vector);
    assert((bits == 0x740 || bits == 0x742) <==> bits & !2u16 == 0x740) by (bit_vector);
    assert((bits == 0x742) <==> bits & !2u16 == 0x740 && bits & 2 != 0) by (bit_vector);
    assert((bits == 0x748 || bits == 0x74a || bits == 0x7cc || bits == 0x7ce) <==> (bits & !2u16
        == 0x748 || bits & !2u16 == 0x7cc)) by (bit_vector);
    assert((bits == 0x650 || bits == 0x652) <==> bits & !2u16 == 0x650) by (bit_vector);
    assert((bits == 0x750 || bits == 0x752) <==> bits & !2u16 == 0x750) by (bit_vector);
    assert((bits == 0x660 || bits == 0x662) <==> bits & !2u16 == 0x660) by (bit_vector);
    assert((bits == 0x760 || bits == 0x762) <==> bits & !2u16 == 0x760) by (bit_vector);
    assert((bits == 0x670 || bits == 0x672) <==> bits & !2u16 == 0x670) by (bit_vector);
    assert((bits == 0x770 || bits == 0x772) <==> bits & !2u16 == 0x770) by (bit_vector);
}

/// Whether two offsets cut whole characters out of a text.
pub open spec fn cuts(bytes: Seq<u8>, start: int, end: int) -> bool {
    start <= end <= bytes.len() && is_char_boundary(bytes, start) && is_char_boundary(bytes, end)
}

/// The offsets that a source lists as strict-mode code.
pub open spec fn strict_offsets(metadata: UnverifiedFunctionMetadata) -> Seq<BytecodePc> {
    match metadata.source.strict_mode_pcs {
        Some(pcs) => pcs@,
        None => Seq::empty(),
    }
}

/// A source is accepted exactly if it has a name, the function's span cuts whole
/// characters, a name span is there where the function has a name and lies in the
/// function, every instruction in order is mapped to a span in the function, and
/// strict-mode offsets are increasing starts of instructions.
pub proof fn lemma_sources_map_every_instruction(
    id: FunctionTemplateId,
    instructions: Seq<VerifiedInstruction>,
    metadata: UnverifiedFunctionMetadata,
)
    ensures
        ({
            let source = metadata.source;
            let bytes = source.text.spec_bytes();
            let outer = source.function_span;
            let pcs = strict_offsets(metadata);
            source_check(id, instructions, metadata).is_ok() <==> {
                &&& source.display_name@.len() > 0
                &&& cuts(bytes, outer.start as int, outer.end as int)
                &&& metadata.function_name.is_some() == source.name_span.is_some()
                &&& match source.name_span {
                    Some(span) => cuts(bytes, span.start as int, span.end as int) && outer.start
                        <= span.start && span.end <= outer.end,
                    None => true,
                }
                &&& source.mappings@.len() == instructions.len()
                &&& forall|i: int|
                    0 <= i < instructions.len() ==> {
                        let mapping = #[trigger] source.mappings@[i];
                        &&& mapping.pc == instructions[i].spec_decoded().pc
                        &&& cuts(bytes, mapping.span.start as int, mapping.span.end as int)
                        &&& outer.start <= mapping.span.start
                        &&& mapping.span.end <= outer.end
                    }
                &&& pcs.len() <= instructions.len()
                &&& forall|i: int, j: int|
                    0 <= i && j == i + 1 && j < pcs.len() ==> (#[trigger] pcs[i]).0 < (
                    #[trigger] pcs[j]).0
                &&& forall|i: int|
                    0 <= i < pcs.len() ==> exists|k: int|
                        0 <= k < instructions.len() && (
                        #[trigger] instructions[k]).spec_decoded().pc == #[trigger] pcs[i]
            }
        }),
{
    let source = metadata.source;
    let pcs = strict_pcs(metadata);
    assert(pcs == strict_offsets(metadata));
    let order = strict_order_checks(id, pcs);
    let starts = strict_start_checks(id, instructions, pcs);
    let mappings = mapping_checks(id, instructions, metadata);
    if first_failure(order).is_ok() {
        lemma_success_means_all(order);
        assert forall|i: int, j: int| 0 <= i && j == i + 1 && j < pcs.len() implies (
        #[trigger] pcs[i]).0 < (#[trigger] pcs[j]).0 by {
            assert(order[i].is_ok());
        }
    } else if forall|i: int, j: int|
        0 <= i && j == i + 1 && j < pcs.len() ==> (#[trigger] pcs[i]).0 < (#[trigger] pcs[j]).0 {
        assert forall|i: int| 0 <= i < order.len() implies (#[trigger] order[i]).is_ok() by {
            assert(pcs[i].0 < pcs[i + 1].0);
        }
        lemma_no_failure(order);
    }
    assert forall|i: int| 0 <= i < pcs.len() implies (#[trigger] starts[i]).is_ok() == (exists|
        k: int,
    |
        0 <= k < instructions.len() && (#[trigger] instructions[k]).spec_decoded().pc == pcs[i]) by {
        if starts_instruction(instructions, pcs[i]) {
            let k = choose|k: int|
                0 <= k < instructions.len() && (#[trigger] instructions[k]).decoded.pc == pcs[i];
            assert(instructions[k].spec_decoded().pc == pcs[i]);
        }
        if exists|k: int|
            0 <= k < instructions.len() && (#[trigger] instructions[k]).spec_decoded().pc
                == pcs[i] {
            let k = choose|k: int|
                0 <= k < instructions.len() && (#[trigger] instructions[k]).spec_decoded().pc
                    == pcs[i];
            assert(instructions[k].decoded.pc == pcs[i]);
        }
    }
    if first_failure(starts).is_ok() {
        lemma_success_means_all(starts);
        assert forall|i: int| 0 <= i < pcs.len() implies exists|k: int|
            0 <= k < instructions.len() && (#[trigger] instructions[k]).spec_decoded().pc
                == #[trigger] pcs[i] by {
            assert(starts[i].is_ok());
        }
    } else if forall|i: int|
        0 <= i < pcs.len() ==> exists|k: int|
            0 <= k < instructions.len() && (#[trigger] instructions[k]).spec_decoded().pc
                == #[trigger] pcs[i] {
        assert forall|i: int| 0 <= i < starts.len() implies (#[trigger] starts[i]).is_ok() by {
            assert(pcs[i] == pcs[i]);
        }
        lemma_no_failure(starts);
    }
    if source.mappings@.len() == instructions.len() {
        if first_failure(mappings).is_ok() {
            lemma_success_means_all(mappings);
            assert forall|i: int| 0 <= i < instructions.len() implies ({
                let mapping = #[trigger] source.mappings@[i];
                &&& mapping.pc == instructions[i].spec_decoded().pc
                &&& cuts(
                    source.text.spec_bytes(),
                    mapping.span.start as int,
                    mapping.span.end as int,
                )
                &&& source.function_span.start <= mapping.span.start
                &&& mapping.span.end <= source.function_span.end
            }) by {
                assert(mappings[i].is_ok());
            }
        } else {
            let bad = first_failure(mappings);
            lemma_failure_is_of_a_check(mappings);
            let i = choose|i: int|
                0 <= i < mappings.len() && #[trigger] mappings[i] == first_failure(
                    mappings,
                );
            let mapping = source.mappings@[i];
            assert(mappings[i].is_err());
        }
    }
}

} // verus!
