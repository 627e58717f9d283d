//! What definitions of properties, methods, classes and array elements need of
//! the stack, and what they leave.
use crate::bytecode::error::BytecodeVerificationError;
use crate::bytecode::model::CompilerExecutableKind;
use crate::bytecode::object_provenance::{DefinitionBody, definition_check, definition_transfer};
use crate::bytecode::object_verifier::{joined, joined_stacks};
use crate::bytecode::provenance::{
    ObjectDefinitionProvenance as Origin, decimal_from, length_units, spec_any_append,
    spec_any_length_marker, spec_any_linear, spec_any_needs_increment, spec_is_append_length_marker,
    spec_is_linear_append_provenance, spec_is_needs_increment, spec_static_array_index,
};
use crate::function_graph::{CompilerAtom, FunctionTemplateId};
use crate::instruction::{AtomPoolIndex, DecodedInstruction, Operands};
use crate::opcode::FinalOpcode;
use vstd::prelude::*;

verus! {

/// Whether a slot belongs to an array literal under construction.
pub open spec fn of_array(slot: Origin) -> bool {
    slot is FreshArray || slot is ArrayCursorCandidate || slot is AppendDestination
        || slot is CheckedAppendCursor || slot is AppendCursorAfterElision
        || slot is AppendCursorNeedsIncrement || slot is AppendLengthTarget
        || slot is AppendLengthCursor
}

/// Whether no array literal is under construction on the stack.
pub open spec fn without_arrays(stack: Seq<Origin>) -> bool {
    forall|i: int| 0 <= i < stack.len() ==> !of_array(#[trigger] stack[i])
}

/// What is left of a slot that was copied: nothing of a converted key or of an
/// array under construction.
pub open spec fn copied(slot: Origin) -> Origin {
    if of_array(slot) || slot is ConvertedPropertyKey {
        Origin::Unknown
    } else {
        slot
    }
}

/// Whether an instruction turns the stack `before` into `after`.
pub open spec fn turns(
    body: DefinitionBody,
    index: int,
    decoded: DecodedInstruction,
    before: Seq<Origin>,
    after: Seq<Origin>,
) -> bool {
    definition_transfer(body, index, decoded, before) == Ok::<
        Option<Seq<Origin>>,
        BytecodeVerificationError,
    >(Some(after))
}

/// Where no array is under construction, `define_array_el` on an object, a key
/// and a value is accepted exactly if the key was converted for that same object
/// literal, or the object is a class under construction and its key converted or
/// retained, or the object is `this` of a constructor and its key retained.
pub proof fn lemma_elements_need_their_own_key(
    id: FunctionTemplateId,
    atoms: Seq<CompilerAtom>,
    decoded: DecodedInstruction,
    below: Seq<Origin>,
    object: Origin,
    key: Origin,
    value: Origin,
)
    requires
        decoded.instruction.opcode == FinalOpcode::DefineArrayEl,
        without_arrays(below + seq![object, key, value]),
    ensures
        definition_check(id, atoms, decoded, below + seq![object, key, value]).is_ok() <==> {
            ||| exists|site: u32|
                object == Origin::FreshObject(site) && #[trigger] is_key_for(key, site)
            ||| object is ClassConstructor && key is ConvertedPropertyKey
            ||| object is ClassConstructor && key is ClassFieldKey
            ||| object is ClassFieldReceiver && key is ClassFieldKey
        },
{
    let state = below + seq![object, key, value];
    lemma_no_arrays(state);
    assert(state[state.len() - 3] == object);
    assert(state[state.len() - 2] == key);
    assert(state[state.len() - 1] == value);
    assert(!of_array(state[state.len() - 3]));
    assert(!of_array(state[state.len() - 2]));
    if let Origin::ConvertedPropertyKey(site) = key {
        assert(is_key_for(key, site));
    }
}

/// Whether a key was converted for the object literal of `site`.
pub open spec fn is_key_for(key: Origin, site: u32) -> bool {
    key == Origin::ConvertedPropertyKey(site)
}

proof fn lemma_no_arrays(state: Seq<Origin>)
    requires
        without_arrays(state),
    ensures
        forall|from: int| 0 <= from ==> !#[trigger] spec_any_append(
            state,
            from,
        ),
        forall|from: int| 0 <= from ==> !#[trigger] spec_any_linear(
            state,
            from,
        ),
        forall|from: int|
            0 <= from ==> !#[trigger] spec_any_length_marker(
                state,
                from,
            ),
        forall|from: int|
            0 <= from ==> !#[trigger] spec_any_needs_increment(
                state,
                from,
            ),
{
}

/// A computed property of an object literal: the literal, its key, the
/// conversion of the key and the value always make an accepted definition, and
/// the literal is then below its key as before.
pub proof fn lemma_computed_properties_are_accepted(
    body: DefinitionBody,
    index: int,
    object: DecodedInstruction,
    convert: DecodedInstruction,
    define: DecodedInstruction,
    below: Seq<Origin>,
    key: Origin,
    value: Origin,
)
    requires
        0 <= index <= u32::MAX,
        object.instruction.opcode == FinalOpcode::Object,
        convert.instruction.opcode == FinalOpcode::ToPropKey,
        define.instruction.opcode == FinalOpcode::DefineArrayEl,
        without_arrays(below),
        !of_array(value),
        below.len() + 3 <= usize::MAX,
    ensures
        ({
            let literal = below.push(Origin::FreshObject(index as u32));
            let keyed = literal.push(Origin::ConvertedPropertyKey(index as u32));
            &&& turns(body, index, object, below, literal)
            &&& turns(body, index, convert, literal.push(key), keyed)
            &&& definition_check(body.id, body.atoms, define, keyed.push(value)).is_ok()
            &&& turns(body, index, define, keyed.push(value), keyed)
        }),
{
    let literal = below.push(Origin::FreshObject(index as u32));
    let keyed = literal.push(Origin::ConvertedPropertyKey(index as u32));
    let made = definition_transfer(body, index, object, below);
    assert(made->Ok_0.unwrap() =~= literal);
    let before = literal.push(key);
    assert(before[before.len() - 2] == Origin::FreshObject(index as u32));
    let converted = definition_transfer(body, index, convert, before);
    assert(converted->Ok_0.unwrap() =~= keyed);
    let full = keyed.push(value);
    let top = seq![
        Origin::FreshObject(index as u32),
        Origin::ConvertedPropertyKey(index as u32),
        value,
    ];
    assert(full =~= below + top);
    assert forall|i: int| 0 <= i < full.len() implies !of_array(#[trigger] full[i]) by {
        if i < below.len() {
            assert(full[i] == below[i]);
        }
    }
    lemma_elements_need_their_own_key(
        body.id,
        body.atoms,
        define,
        below,
        Origin::FreshObject(index as u32),
        Origin::ConvertedPropertyKey(index as u32),
        value,
    );
    assert(is_key_for(Origin::ConvertedPropertyKey(index as u32), index as u32));
    let defined = definition_transfer(body, index, define, full);
    assert(full[full.len() - 3] == Origin::FreshObject(index as u32));
    assert(defined->Ok_0.unwrap() =~= keyed);
}

/// What the other definitions need, where no array is under construction. An
/// enumerable method belongs to an object literal and any other to a class or its
/// prototype. A private field belongs to a class or to `this` of a constructor. A
/// class without heritage stands on the literal `undefined`, one with heritage on
/// three values. A packed copy goes into an object literal, with target, source
/// and excluded list all on the stack. Appending and setting a length need an
/// array. Nothing else is asked of any instruction.
pub proof fn lemma_definitions_need_their_target(
    id: FunctionTemplateId,
    atoms: Seq<CompilerAtom>,
    decoded: DecodedInstruction,
    state: Seq<Origin>,
)
    requires
        without_arrays(state),
        state.len() >= 3,
        decoded.instruction.opcode != FinalOpcode::DefineArrayEl,
    ensures
        ({
            let accepted = definition_check(id, atoms, decoded, state).is_ok();
            let top = |depth: int| state[state.len() - depth];
            let holds_method = |target: Origin, flags: int|
                (target is FreshObject && 4 <= flags <= 6) || ((target is ClassConstructor
                    || target is ClassPrototype) && 0 <= flags <= 2);
            match decoded.instruction.opcode {
                FinalOpcode::DefineMethod => match decoded.instruction.operands {
                    Operands::AtomU8 { value, .. } => accepted <==> holds_method(
                        top(2),
                        value as int,
                    ),
                    _ => !accepted,
                },
                FinalOpcode::DefineMethodComputed => match decoded.instruction.operands {
                    Operands::U8(value) => accepted <==> holds_method(top(3), value as int),
                    _ => !accepted,
                },
                FinalOpcode::DefinePrivateField => accepted <==> top(3) is ClassConstructor || top(
                    3,
                ) is ClassFieldReceiver,
                FinalOpcode::DefineClass => match decoded.instruction.operands {
                    Operands::AtomU8 { value, .. } => accepted <==> value == 1 || value == 3 || ((
                    value == 0 || value == 2) && top(2) == Origin::LiteralUndefined),
                    _ => !accepted,
                },
                FinalOpcode::CopyDataProperties => match decoded.instruction.operands {
                    Operands::U8(mask) => accepted <==> (mask as int / 4) % 8 < state.len() && (
                    mask as int / 32) < state.len() && (mask as int % 4) < state.len() && top(
                        mask as int % 4 + 1,
                    ) is FreshObject,
                    _ => !accepted,
                },
                FinalOpcode::Append | FinalOpcode::Dup1 => !accepted,
                _ => accepted,
            }
        }),
{
    lemma_no_arrays(state);
    assert(!of_array(state[state.len() - 1]));
    assert(!of_array(state[state.len() - 2]));
    assert(!of_array(state[state.len() - 3]));
    if let Operands::U8(mask) = decoded.instruction.operands {
        assert(mask & 0b11u8 == mask % 4) by (bit_vector);
        assert((mask >> 2) & 0b111u8 == (mask / 4) % 8) by (bit_vector);
        assert((mask >> 5) & 0b111u8 == mask / 32) by (bit_vector);
    }
    if let Operands::AtomU8 { value, .. } = decoded.instruction.operands {
        assert(value <= 3 ==> ((value & 1 == 0) <==> value == 0 || value == 2)) by (bit_vector);
    }
}

/// What instructions make of the values that definitions need: the literal
/// `undefined`, an object literal marked with its place, `this` of a class
/// constructor, a class with its prototype behind its definition, and an array
/// literal that holds as many elements as it was made of.
pub proof fn lemma_values_are_marked_with_their_place(
    body: DefinitionBody,
    index: int,
    decoded: DecodedInstruction,
    below: Seq<Origin>,
    first: Origin,
    second: Origin,
    third: Origin,
)
    requires
        0 <= index <= u32::MAX,
        below.len() + 4 <= usize::MAX,
    ensures
        ({
            let site = index as u32;
            let opcode = decoded.instruction.opcode;
            let class = seq![Origin::ClassConstructor(site), Origin::ClassPrototype(site)];
            &&& opcode == FinalOpcode::Undefined ==> turns(
                body,
                index,
                decoded,
                below,
                below.push(Origin::LiteralUndefined),
            )
            &&& opcode == FinalOpcode::Object ==> turns(
                body,
                index,
                decoded,
                below,
                below.push(Origin::FreshObject(site)),
            )
            &&& opcode == FinalOpcode::PushThis ==> turns(
                body,
                index,
                decoded,
                below,
                below.push(
                    if body.executable_kind == CompilerExecutableKind::ClassConstructor {
                        Origin::ClassFieldReceiver(site)
                    } else {
                        Origin::Unknown
                    },
                ),
            )
            &&& opcode == FinalOpcode::DefineClass ==> match decoded.instruction.operands {
                Operands::AtomU8 { value, .. } => {
                    &&& value == 0 || value == 2 ==> turns(
                        body,
                        index,
                        decoded,
                        below + seq![second, third],
                        below + class,
                    )
                    &&& value == 1 || value == 3 ==> turns(
                        body,
                        index,
                        decoded,
                        below + seq![first, second, third],
                        below + class,
                    )
                },
                _ => true,
            }
            &&& opcode == FinalOpcode::ToPropKey ==> turns(
                body,
                index,
                decoded,
                below + seq![first, second],
                below + seq![
                    first,
                    match first {
                        Origin::FreshObject(object) => Origin::ConvertedPropertyKey(object),
                        Origin::ClassConstructor(object) => Origin::ConvertedPropertyKey(object),
                        _ => Origin::Unknown,
                    },
                ],
            )
        }),
{
    let site = index as u32;
    let opcode = decoded.instruction.opcode;
    let class = seq![Origin::ClassConstructor(site), Origin::ClassPrototype(site)];
    if opcode == FinalOpcode::PushThis {
        let outcome = definition_transfer(body, index, decoded, below);
        assert(outcome->Ok_0.unwrap() =~= below.push(
            if body.executable_kind == CompilerExecutableKind::ClassConstructor {
                Origin::ClassFieldReceiver(site)
            } else {
                Origin::Unknown
            },
        ));
    }
    if opcode == FinalOpcode::DefineClass {
        if let Operands::AtomU8 { value, .. } = decoded.instruction.operands {
            assert(value == 0 || value == 2 ==> value & 1 == 0) by (bit_vector);
            assert(value == 1 || value == 3 ==> value & 1 == 1) by (bit_vector);
            if value == 0 || value == 2 {
                let outcome = definition_transfer(
                    body,
                    index,
                    decoded,
                    below + seq![second, third],
                );
                assert(outcome->Ok_0.unwrap() =~= below + class);
            }
            if value == 1 || value == 3 {
                let outcome = definition_transfer(
                    body,
                    index,
                    decoded,
                    below + seq![first, second, third],
                );
                assert(outcome->Ok_0.unwrap() =~= below + class);
            }
        }
    }
    if opcode == FinalOpcode::ToPropKey {
        let state = below + seq![first, second];
        assert(state[state.len() - 2] == first);
        let outcome = definition_transfer(body, index, decoded, state);
        assert(outcome->Ok_0.unwrap() =~= below + seq![
            first,
            match first {
                Origin::FreshObject(object) => Origin::ConvertedPropertyKey(object),
                Origin::ClassConstructor(object) => Origin::ConvertedPropertyKey(object),
                _ => Origin::Unknown,
            },
        ]);
    }
}

/// What remains known of slots that are moved: `swap` and `perm3` keep them,
/// every copy loses converted keys and arrays, and so does what a read leaves
/// below itself of arrays.
#[verifier::rlimit(80)]
pub proof fn lemma_moved_slots_keep_what_they_may(
    body: DefinitionBody,
    index: int,
    decoded: DecodedInstruction,
    below: Seq<Origin>,
    first: Origin,
    second: Origin,
    third: Origin,
)
    requires
        0 <= index <= u32::MAX,
        below.len() + 6 <= usize::MAX,
    ensures
        ({
            let retained = |slot: Origin|
                if of_array(slot) {
                    Origin::Unknown
                } else {
                    slot
                };
            let two = below + seq![second, third];
            let three = below + seq![first, second, third];
            match decoded.instruction.opcode {
                FinalOpcode::Dup => turns(
                    body,
                    index,
                    decoded,
                    below.push(third),
                    below + seq![
                        if of_array(third) {
                            Origin::Unknown
                        } else {
                            third
                        },
                        copied(third),
                    ],
                ),
                FinalOpcode::Dup2 => turns(
                    body,
                    index,
                    decoded,
                    two,
                    two + seq![copied(second), copied(third)],
                ),
                FinalOpcode::Insert2 => turns(
                    body,
                    index,
                    decoded,
                    two,
                    below + seq![copied(third), copied(second), copied(third)],
                ),
                FinalOpcode::Insert3 => turns(
                    body,
                    index,
                    decoded,
                    three,
                    below + seq![copied(third), copied(first), copied(second), copied(third)],
                ),
                FinalOpcode::Swap => turns(body, index, decoded, two, below + seq![third, second]),
                FinalOpcode::Perm3 => turns(
                    body,
                    index,
                    decoded,
                    three,
                    below + seq![second, first, third],
                ),
                FinalOpcode::GetField2 => turns(
                    body,
                    index,
                    decoded,
                    below.push(third),
                    below + seq![retained(third), Origin::Unknown],
                ),
                FinalOpcode::GetArrayEl2 => turns(
                    body,
                    index,
                    decoded,
                    two,
                    below + seq![retained(second), Origin::Unknown],
                ),
                FinalOpcode::DefineMethod => turns(
                    body,
                    index,
                    decoded,
                    two,
                    below.push(retained(second)),
                ),
                FinalOpcode::SetProto => turns(
                    body,
                    index,
                    decoded,
                    two,
                    below.push(retained(second)),
                ),
                FinalOpcode::DefineMethodComputed => turns(
                    body,
                    index,
                    decoded,
                    three,
                    below.push(retained(first)),
                ),
                FinalOpcode::DefinePrivateField => turns(
                    body,
                    index,
                    decoded,
                    three,
                    below.push(retained(first)),
                ),
                FinalOpcode::DefineField => !(second is FreshArray) ==> turns(
                    body,
                    index,
                    decoded,
                    two,
                    below.push(retained(second)),
                ),
                FinalOpcode::SetNameComputed => turns(body, index, decoded, two, two),
                FinalOpcode::SetHomeObject => turns(body, index, decoded, two, two),
                FinalOpcode::CopyDataProperties => turns(body, index, decoded, three, three),
                _ => true,
            }
        }),
{
    let two = below + seq![second, third];
    let three = below + seq![first, second, third];
    let one = below.push(third);
    assert(two[two.len() - 1] == third && two[two.len() - 2] == second);
    assert(three[three.len() - 1] == third && three[three.len() - 2] == second && three[three.len()
        - 3] == first);
    let opcode = decoded.instruction.opcode;
    if opcode == FinalOpcode::Dup || opcode == FinalOpcode::GetField2 {
        let outcome = definition_transfer(body, index, decoded, one);
        if opcode == FinalOpcode::Dup {
            assert(outcome->Ok_0.unwrap() =~= below + seq![
                if of_array(third) {
                    Origin::Unknown
                } else {
                    third
                },
                copied(third),
            ]);
        } else {
            assert(outcome->Ok_0.unwrap() =~= below + seq![
                if of_array(third) {
                    Origin::Unknown
                } else {
                    third
                },
                Origin::Unknown,
            ]);
        }
    }
    let kept = |slot: Origin|
        if of_array(slot) {
            Origin::Unknown
        } else {
            slot
        };
    if opcode == FinalOpcode::Dup2 {
        let outcome = definition_transfer(body, index, decoded, two);
        assert(outcome->Ok_0.unwrap() =~= two + seq![copied(second), copied(third)]);
    }
    if opcode == FinalOpcode::Insert2 {
        let outcome = definition_transfer(body, index, decoded, two);
        assert(outcome->Ok_0.unwrap() =~= below + seq![
            copied(third),
            copied(second),
            copied(third),
        ]);
    }
    if opcode == FinalOpcode::Insert3 {
        let outcome = definition_transfer(body, index, decoded, three);
        assert(outcome->Ok_0.unwrap() =~= below + seq![
            copied(third),
            copied(first),
            copied(second),
            copied(third),
        ]);
    }
    if opcode == FinalOpcode::Swap {
        let outcome = definition_transfer(body, index, decoded, two);
        assert(outcome->Ok_0.unwrap() =~= below + seq![third, second]);
    }
    if opcode == FinalOpcode::Perm3 {
        let outcome = definition_transfer(body, index, decoded, three);
        assert(outcome->Ok_0.unwrap() =~= below + seq![second, first, third]);
    }
    if opcode == FinalOpcode::GetArrayEl2 {
        let outcome = definition_transfer(body, index, decoded, two);
        assert(outcome->Ok_0.unwrap() =~= below + seq![kept(second), Origin::Unknown]);
    }
    if opcode == FinalOpcode::DefineMethod || opcode == FinalOpcode::SetProto || (opcode
        == FinalOpcode::DefineField && !(second is FreshArray)) {
        let outcome = definition_transfer(body, index, decoded, two);
        assert(outcome->Ok_0.unwrap() =~= below.push(kept(second)));
    }
    if opcode == FinalOpcode::DefineMethodComputed || opcode == FinalOpcode::DefinePrivateField {
        let outcome = definition_transfer(body, index, decoded, three);
        assert(outcome->Ok_0.unwrap() =~= below.push(kept(first)));
    }
}

/// What is known of a slot where two paths meet: what both know. Of an array that
/// values are appended to they must know the same, but that its first round knows
/// it as fresh.
pub proof fn lemma_paths_know_what_both_know(left: Origin, right: Origin)
    ensures
        ({
            let appended = |slot: Origin|
                of_array(slot) && !(slot is FreshArray) && !(slot is ArrayCursorCandidate);
            let met = joined(left, right);
            &&& left == right ==> met == Some(left)
            &&& met == joined(right, left)
            &&& left != right && !appended(left) && !appended(right) ==> met == Some(
                Origin::Unknown,
            )
            &&& left != right && appended(right) ==> match (left, right) {
                (Origin::FreshArray { site, .. }, Origin::AppendDestination(array)) => met
                    == if site == array {
                    Some(right)
                } else {
                    None
                },
                (Origin::ArrayCursorCandidate { site, .. }, Origin::CheckedAppendCursor(array)) => {
                    met == if site == array {
                        Some(right)
                    } else {
                        None
                    }
                },
                _ => appended(left) ==> met.is_none(),
            }
            &&& left != right && appended(right) && !of_array(left) ==> met.is_none()
        }),
{
}

/// Stacks of one depth meet slot by slot, and stacks of different depths know
/// nothing of any slot; where an array that values are appended to is on either,
/// these cannot meet.
pub proof fn lemma_stacks_meet_slot_by_slot(
    left: Seq<Origin>,
    right: Seq<Origin>,
    at: int,
)
    requires
        0 <= at < left.len(),
        joined_stacks(left, right).is_some(),
    ensures
        joined_stacks(left, right).unwrap().len() == left.len(),
        left.len() == right.len() ==> joined(left[at], right[at]) == Some(
            joined_stacks(left, right).unwrap()[at],
        ),
        left.len() != right.len() ==> joined_stacks(left, right).unwrap()[at] == Origin::Unknown
            && (!of_array(left[at]) || left[at] is FreshArray || left[at] is ArrayCursorCandidate),
{
    if left.len() == right.len() {
        assert(joined(left[at], right[at]).is_some());
    } else if of_array(left[at]) && !(left[at] is FreshArray) && !(left[at]
        is ArrayCursorCandidate) {
        assert(spec_is_linear_append_provenance(left[at]));
    }
}

/// Whether an instruction is accepted on `before` and turns it into `after`.
pub open spec fn accepts(
    body: DefinitionBody,
    index: int,
    decoded: DecodedInstruction,
    before: Seq<Origin>,
    after: Seq<Origin>,
) -> bool {
    definition_check(body.id, body.atoms, decoded, before).is_ok() && turns(
        body,
        index,
        decoded,
        before,
        after,
    )
}

/// Whether an instruction is refused on a stack.
pub open spec fn refuses(
    body: DefinitionBody,
    decoded: DecodedInstruction,
    before: Seq<Origin>,
) -> bool {
    definition_check(body.id, body.atoms, decoded, before).is_err()
}

/// The array literal of `site` with the cursor `cursor`.
pub open spec fn appending(site: u32, cursor: Origin) -> Seq<Origin> {
    seq![Origin::AppendDestination(site), cursor]
}

proof fn lemma_only_top_arrays(below: Seq<Origin>, top: Seq<Origin>)
    requires
        without_arrays(below),
    ensures
        ({
            let state = below + top;
            &&& spec_any_linear(state, 0)
                <==> spec_any_linear(top, 0)
            &&& spec_any_length_marker(state, 0)
                <==> spec_any_length_marker(top, 0)
            &&& spec_any_needs_increment(state, 0)
                <==> spec_any_needs_increment(top, 0)
        }),
{
    let state = below + top;
    assert forall|i: int| 0 <= i < top.len() implies #[trigger] state[below.len() + i] == top[i] by {}
    if spec_any_linear(top, 0) {
        let i = choose|i: int|
            0 <= i < top.len() && spec_is_linear_append_provenance(
                #[trigger] top[i],
            );
        assert(state[below.len() + i] == top[i]);
    }
    if spec_any_length_marker(top, 0) {
        let i = choose|i: int|
            0 <= i < top.len() && spec_is_append_length_marker(
                #[trigger] top[i],
            );
        assert(state[below.len() + i] == top[i]);
    }
    if spec_any_needs_increment(top, 0) {
        let i = choose|i: int|
            0 <= i < top.len() && spec_is_needs_increment(
                #[trigger] top[i],
            );
        assert(state[below.len() + i] == top[i]);
    }
    if spec_any_linear(state, 0) {
        let i = choose|i: int|
            0 <= i < state.len() && spec_is_linear_append_provenance(
                #[trigger] state[i],
            );
        if i < below.len() {
            assert(!of_array(below[i]));
        }
        assert(state[i] == top[i - below.len()]);
    }
    if spec_any_length_marker(state, 0) {
        let i = choose|i: int|
            0 <= i < state.len() && spec_is_append_length_marker(
                #[trigger] state[i],
            );
        if i < below.len() {
            assert(!of_array(below[i]));
        }
        assert(state[i] == top[i - below.len()]);
    }
    if spec_any_needs_increment(state, 0) {
        let i = choose|i: int|
            0 <= i < state.len() && spec_is_needs_increment(
                #[trigger] state[i],
            );
        if i < below.len() {
            assert(!of_array(below[i]));
        }
        assert(state[i] == top[i - below.len()]);
    }
}

/// Appending to an array literal. The first time, an integer that is no smaller
/// than the elements so far stands between array and value; a larger one leaves
/// elements out. Later the array stands below its own cursor. Then array and
/// cursor are left, the cursor remembering elements left out until a further one
/// is written. Everything else is refused.
pub proof fn lemma_values_are_appended_behind_the_elements(
    body: DefinitionBody,
    index: int,
    decoded: DecodedInstruction,
    below: Seq<Origin>,
    site: u32,
    other: u32,
    elements: u32,
    cursor: u32,
    value: Origin,
)
    requires
        decoded.instruction.opcode == FinalOpcode::Append,
        without_arrays(below),
        !of_array(value),
        below.len() + 4 <= usize::MAX,
    ensures
        ({
            let fresh = below + seq![
                Origin::FreshArray { site, minimum_cursor: elements },
                Origin::ArrayCursorCandidate { site: other, value: cursor },
                value,
            ];
            let settled = Origin::CheckedAppendCursor(other);
            let elided = Origin::AppendCursorAfterElision(other);
            &&& if site == other && cursor >= elements {
                accepts(
                    body,
                    index,
                    decoded,
                    fresh,
                    below + appending(
                        site,
                        if cursor == elements {
                            settled
                        } else {
                            elided
                        },
                    ),
                )
            } else {
                refuses(body, decoded, fresh)
            }
            &&& if site == other {
                accepts(
                    body,
                    index,
                    decoded,
                    below + appending(site, settled).push(value),
                    below + appending(site, settled),
                ) && accepts(
                    body,
                    index,
                    decoded,
                    below + appending(site, elided).push(value),
                    below + appending(site, elided),
                )
            } else {
                refuses(body, decoded, below + appending(site, settled).push(value)) && refuses(
                    body,
                    decoded,
                    below + appending(site, elided).push(value),
                )
            }
        }),
{
    let first = seq![
        Origin::FreshArray { site, minimum_cursor: elements },
        Origin::ArrayCursorCandidate { site: other, value: cursor },
        value,
    ];
    let settled = Origin::CheckedAppendCursor(other);
    let elided = Origin::AppendCursorAfterElision(other);
    lemma_only_top_arrays(below, first);
    let fresh = below + first;
    assert(fresh[fresh.len() - 1] == value && fresh[fresh.len() - 2] == first[1] && fresh[
    fresh.len() - 3] == first[0]);
    if site == other && cursor >= elements {
        let outcome = definition_transfer(body, index, decoded, fresh);
        assert(outcome->Ok_0.unwrap() =~= below + appending(
            site,
            if cursor == elements {
                settled
            } else {
                elided
            },
        ));
    }
    let second = appending(site, settled).push(value);
    lemma_only_top_arrays(below, second);
    let state = below + second;
    assert(state[state.len() - 1] == value && state[state.len() - 2] == settled && state[
    state.len() - 3] == Origin::AppendDestination(site));
    if site == other {
        let outcome = definition_transfer(body, index, decoded, state);
        assert(outcome->Ok_0.unwrap() =~= below + appending(site, settled));
    }
    let third = appending(site, elided).push(value);
    lemma_only_top_arrays(below, third);
    let state = below + third;
    assert(state[state.len() - 1] == value && state[state.len() - 2] == elided && state[
    state.len() - 3] == Origin::AppendDestination(site));
    if site == other {
        let outcome = definition_transfer(body, index, decoded, state);
        assert(outcome->Ok_0.unwrap() =~= below + appending(site, elided));
    }
}

/// Writing an element of an array literal leaves a cursor that owes an
/// increment. Nothing but the increment is accepted then, and it settles the
/// cursor. An increment of a settled cursor leaves an element out.
#[verifier::rlimit(40)]
pub proof fn lemma_elements_owe_an_increment(
    body: DefinitionBody,
    index: int,
    write: DecodedInstruction,
    inc: DecodedInstruction,
    decoded: DecodedInstruction,
    below: Seq<Origin>,
    site: u32,
    value: Origin,
)
    requires
        write.instruction.opcode == FinalOpcode::DefineArrayEl,
        inc.instruction.opcode == FinalOpcode::Inc,
        decoded.instruction.opcode != FinalOpcode::Inc,
        without_arrays(below),
        !of_array(value),
        below.len() + 4 <= usize::MAX,
    ensures
        ({
            let settled = below + appending(site, Origin::CheckedAppendCursor(site));
            let elided = below + appending(site, Origin::AppendCursorAfterElision(site));
            let owing = below + appending(site, Origin::AppendCursorNeedsIncrement(site));
            &&& accepts(body, index, write, settled.push(value), owing)
            &&& accepts(body, index, write, elided.push(value), owing)
            &&& accepts(body, index, inc, owing, settled)
            &&& accepts(body, index, inc, settled, elided)
            &&& accepts(body, index, inc, elided, elided)
            &&& refuses(body, decoded, owing)
        }),
{
    let top = |cursor: Origin| appending(site, cursor);
    let s = Origin::CheckedAppendCursor(site);
    let e = Origin::AppendCursorAfterElision(site);
    let o = Origin::AppendCursorNeedsIncrement(site);
    let settled = below + appending(site, s);
    let elided = below + appending(site, e);
    let owing = below + appending(site, o);
    lemma_only_top_arrays(below, appending(site, s));
    lemma_only_top_arrays(below, appending(site, e));
    lemma_only_top_arrays(below, appending(site, o));
    lemma_only_top_arrays(below, appending(site, s).push(value));
    lemma_only_top_arrays(below, appending(site, e).push(value));
    assert(settled.push(value) =~= below + appending(site, s).push(value));
    assert(elided.push(value) =~= below + appending(site, e).push(value));
    assert(spec_is_needs_increment(appending(site, o)[1]));
    assert(settled[settled.len() - 1] == s && settled[settled.len() - 2]
        == Origin::AppendDestination(site));
    assert(elided[elided.len() - 1] == e && elided[elided.len() - 2] == Origin::AppendDestination(
        site,
    ));
    assert(owing[owing.len() - 1] == o && owing[owing.len() - 2] == Origin::AppendDestination(
        site,
    ));
    let first = settled.push(value);
    assert(first[first.len() - 1] == value && first[first.len() - 2] == s && first[first.len() - 3]
        == Origin::AppendDestination(site));
    let second = elided.push(value);
    assert(second[second.len() - 1] == value && second[second.len() - 2] == e && second[
    second.len() - 3] == Origin::AppendDestination(site));
    assert(definition_transfer(body, index, write, first)->Ok_0.unwrap() =~= owing);
    assert(definition_transfer(body, index, write, second)->Ok_0.unwrap() =~= owing);
    assert(definition_transfer(body, index, inc, owing)->Ok_0.unwrap() =~= settled);
    assert(definition_transfer(body, index, inc, settled)->Ok_0.unwrap() =~= elided);
    assert(definition_transfer(body, index, inc, elided)->Ok_0.unwrap() =~= elided);
}

/// An array literal is finished in one of two ways. A settled cursor is dropped.
/// After elements left out at the end, the cursor is copied below array and
/// cursor, and then only setting the array's `length` is accepted. Both leave a
/// plain value.
#[verifier::rlimit(40)]
pub proof fn lemma_arrays_are_finished(
    body: DefinitionBody,
    index: int,
    drops: DecodedInstruction,
    copies: DecodedInstruction,
    sets: DecodedInstruction,
    decoded: DecodedInstruction,
    below: Seq<Origin>,
    site: u32,
    name: u32,
)
    requires
        drops.instruction.opcode == FinalOpcode::Drop,
        copies.instruction.opcode == FinalOpcode::Dup1,
        sets.instruction.opcode == FinalOpcode::PutField,
        sets.instruction.operands == Operands::Atom(AtomPoolIndex(name)),
        decoded.instruction.opcode != FinalOpcode::PutField,
        without_arrays(below),
        below.len() + 4 <= usize::MAX,
        name < body.atoms.len(),
    ensures
        ({
            let settled = below + appending(site, Origin::CheckedAppendCursor(site));
            let elided = below + appending(site, Origin::AppendCursorAfterElision(site));
            let copied = below + seq![
                Origin::AppendDestination(site),
                Origin::AppendLengthTarget(site),
                Origin::AppendLengthCursor(site),
            ];
            let units = body.atoms[name as int].string.units@;
            let length = units.len() == 6 && units[0] == 108 && units[1] == 101 && units[2] == 110
                && units[3] == 103 && units[4] == 116 && units[5] == 104;
            &&& accepts(body, index, drops, settled, below.push(Origin::Unknown))
            &&& refuses(body, drops, elided)
            &&& accepts(body, index, copies, elided, copied)
            &&& refuses(body, copies, settled)
            &&& refuses(body, decoded, copied)
            &&& if length {
                accepts(body, index, sets, copied, below.push(Origin::Unknown))
            } else {
                refuses(body, sets, copied)
            }
        }),
{
    let s = Origin::CheckedAppendCursor(site);
    let e = Origin::AppendCursorAfterElision(site);
    let settled = below + appending(site, s);
    let elided = below + appending(site, e);
    let top = seq![
        Origin::AppendDestination(site),
        Origin::AppendLengthTarget(site),
        Origin::AppendLengthCursor(site),
    ];
    let copied = below + top;
    lemma_only_top_arrays(below, appending(site, s));
    lemma_only_top_arrays(below, appending(site, e));
    lemma_only_top_arrays(below, top);
    assert(spec_is_append_length_marker(top[1]));
    assert(settled[settled.len() - 1] == s && settled[settled.len() - 2]
        == Origin::AppendDestination(site));
    assert(elided[elided.len() - 1] == e && elided[elided.len() - 2] == Origin::AppendDestination(
        site,
    ));
    assert(spec_is_linear_append_provenance(elided[elided.len() - 1]));
    assert(spec_is_linear_append_provenance(
        settled[settled.len() - 1],
    ));
    assert(copied[copied.len() - 1] == top[2] && copied[copied.len() - 2] == top[1] && copied[
    copied.len() - 3] == top[0]);
    assert(definition_transfer(body, index, drops, settled)->Ok_0.unwrap() =~= below.push(
        Origin::Unknown,
    ));
    assert(definition_transfer(body, index, copies, elided)->Ok_0.unwrap() =~= copied);
    let units = body.atoms[name as int].string.units@;
    let length = units.len() == 6 && units[0] == 108 && units[1] == 101 && units[2] == 110
        && units[3] == 103 && units[4] == 116 && units[5] == 104;
    if length {
        assert(units =~= length_units());
        assert(definition_transfer(body, index, sets, copied)->Ok_0.unwrap() =~= below.push(
            Origin::Unknown,
        ));
    }
}

/// An array literal starts with the elements that it is made of. A pushed integer
/// that is no smaller is a cursor for it, and a smaller one is nothing special.
/// `define_field` with an index no smaller writes that element, and one with a
/// smaller index or another name is refused.
pub proof fn lemma_array_literals_count_their_elements(
    body: DefinitionBody,
    index: int,
    make: DecodedInstruction,
    push: DecodedInstruction,
    field: DecodedInstruction,
    below: Seq<Origin>,
    arguments: Seq<Origin>,
    site: u32,
    elements: u32,
    pushed: i32,
    value: Origin,
    element: Option<u32>,
)
    requires
        0 <= index <= u32::MAX,
        make.instruction.opcode == FinalOpcode::ArrayFrom,
        arguments.len() <= 0xffff,
        make.instruction.operands == (Operands::NPop { argument_count: arguments.len() as u16 }),
        push.instruction.opcode == FinalOpcode::PushI32,
        push.instruction.operands == Operands::I32(pushed),
        field.instruction.opcode == FinalOpcode::DefineField,
        element == spec_static_array_index(
            body.atoms,
            field.instruction.operands,
        ),
        without_arrays(below),
        !of_array(value),
        below.len() + arguments.len() + 4 <= usize::MAX,
    ensures
        ({
            let array = Origin::FreshArray { site, minimum_cursor: elements };
            let written = below + seq![array, value];
            &&& turns(
                body,
                index,
                make,
                below + arguments,
                below.push(
                    Origin::FreshArray {
                        site: index as u32,
                        minimum_cursor: arguments.len() as u32,
                    },
                ),
            )
            &&& turns(
                body,
                index,
                push,
                below.push(array),
                below + seq![
                    array,
                    if pushed >= 0 && pushed >= elements {
                        Origin::ArrayCursorCandidate { site, value: pushed as u32 }
                    } else {
                        Origin::Unknown
                    },
                ],
            )
            &&& match element {
                Some(at) => if at >= elements {
                    accepts(
                        body,
                        index,
                        field,
                        written,
                        below.push(Origin::FreshArray { site, minimum_cursor: (at + 1) as u32 }),
                    )
                } else {
                    refuses(body, field, written)
                },
                None => refuses(body, field, written),
            }
        }),
{
    let array = Origin::FreshArray { site, minimum_cursor: elements };
    let made = definition_transfer(body, index, make, below + arguments);
    assert((below + arguments).take(below.len() as int) =~= below);
    assert(made->Ok_0.unwrap() =~= below.push(
        Origin::FreshArray { site: index as u32, minimum_cursor: arguments.len() as u32 },
    ));
    let one = below.push(array);
    assert(one.last() == array);
    let stepped = definition_transfer(body, index, push, one);
    assert(stepped->Ok_0.unwrap() =~= below + seq![
        array,
        if pushed >= 0 && pushed >= elements {
            Origin::ArrayCursorCandidate { site, value: pushed as u32 }
        } else {
            Origin::Unknown
        },
    ]);
    let top = seq![array, value];
    lemma_only_top_arrays(below, top);
    let written = below + top;
    assert(written[written.len() - 2] == array && written[written.len() - 1] == value);
    assert(!spec_any_linear(top, 0));
    if let Some(at) = element {
        if at >= elements {
            let outcome = definition_transfer(body, index, field, written);
            assert(outcome->Ok_0.unwrap() =~= below.push(
                Origin::FreshArray { site, minimum_cursor: (at + 1) as u32 },
            ));
        }
    }
}

/// The index that a static property names is the number that its digits spell,
/// below the largest of 31 bits; only atoms reserved for integers name one.
pub proof fn lemma_static_indices_are_spelled(
    atoms: Seq<CompilerAtom>,
    atom: u32,
    digits: Seq<u16>,
    number: nat,
)
    requires
        atom < atoms.len(),
        atoms[atom as int].string.units@ == digits,
        spells(digits, number),
    ensures
        spec_static_array_index(
            atoms,
            Operands::Atom(AtomPoolIndex(atom)),
        ) == if atoms[atom as int].static_property_only && atoms[atom as int].string.tagged_integer
            && number < 0x7fff_ffff {
            Some(number as u32)
        } else {
            None
        },
{
    lemma_spelled(digits, 0, 0);
    assert(digits.take(0).len() == 0);
}

/// Whether decimal digits spell a number.
pub open spec fn spells(digits: Seq<u16>, number: nat) -> bool {
    &&& forall|i: int| 0 <= i < digits.len() ==> 48 <= #[trigger] digits[i] <= 57
    &&& number == spelled(digits)
}

/// Number that decimal digits spell.
pub open spec fn spelled(digits: Seq<u16>) -> nat
    decreases digits.len(),
{
    if digits.len() == 0 {
        0
    } else {
        (spelled(digits.drop_last()) * 10 + digits.last() - 48) as nat
    }
}

proof fn lemma_spelled(digits: Seq<u16>, at: int, value: u32)
    requires
        0 <= at <= digits.len(),
        forall|i: int| 0 <= i < digits.len() ==> 48 <= #[trigger] digits[i] <= 57,
        value == spelled(digits.take(at)),
    ensures
        decimal_from(digits, at, value) == if spelled(digits)
            <= u32::MAX {
            Some(spelled(digits) as u32)
        } else {
            None
        },
    decreases digits.len() - at,
{
    if at < digits.len() {
        assert(digits.take(at + 1).drop_last() =~= digits.take(at));
        assert(digits.take(at + 1).last() == digits[at]);
        let next = spelled(digits.take(at + 1));
        lemma_spelled_grows(digits, at + 1);
        if next <= u32::MAX {
            lemma_spelled(digits, at + 1, next as u32);
        }
    } else {
        assert(digits.take(at) =~= digits);
    }
}

proof fn lemma_spelled_grows(digits: Seq<u16>, at: int)
    requires
        0 <= at <= digits.len(),
        forall|i: int| 0 <= i < digits.len() ==> 48 <= #[trigger] digits[i] <= 57,
    ensures
        spelled(digits.take(at)) <= spelled(digits),
    decreases digits.len() - at,
{
    if at < digits.len() {
        lemma_spelled_grows(digits, at + 1);
        assert(digits.take(at + 1).drop_last() =~= digits.take(at));
        assert(digits.take(at + 1).last() == digits[at]);
    } else {
        assert(digits.take(at) =~= digits);
    }
}

} // verus!
