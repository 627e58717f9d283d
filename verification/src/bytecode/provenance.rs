//! Fresh-object, class-definition and linear array-append provenance.
use crate::bytecode::error::{
    BytecodeVerificationError, BytecodeVerificationErrorKind, function_error,
};
use crate::function_graph::{CompilerAtom, FunctionTemplateId};
use crate::instruction::{DecodedInstruction, Operands};
use crate::opcode::FinalOpcode;
use vstd::prelude::*;

verus! {

/// What is known of a stack slot while objects, classes and arrays are built.
/// A site is the position of the instruction that created the value.
#[allow(inconsistent_fields)]
#[derive(Clone, Copy, Debug, PartialEq, Eq, Hash, Structural)]
pub enum ObjectDefinitionProvenance {
    /// Nothing.
    Unknown,
    /// The literal `undefined`.
    LiteralUndefined,
    /// An object literal under construction.
    FreshObject(u32),
    /// The constructor of a class under construction.
    ClassConstructor(u32),
    /// The prototype of a class under construction.
    ClassPrototype(u32),
    /// `this` in a class constructor.
    ClassFieldReceiver(u32),
    /// An array literal whose next index is at least `minimum_cursor`.
    FreshArray { site: u32, minimum_cursor: u32 },
    /// An integer that may become the cursor of a fresh array.
    ArrayCursorCandidate { site: u32, value: u32 },
    /// An array that values are appended to.
    AppendDestination(u32),
    /// The cursor of such an array.
    CheckedAppendCursor(u32),
    /// The cursor after an elision that no element followed yet.
    AppendCursorAfterElision(u32),
    /// The cursor before the increment that an element owes.
    AppendCursorNeedsIncrement(u32),
    /// The array whose length is about to be set.
    AppendLengthTarget(u32),
    /// The cursor that becomes the length.
    AppendLengthCursor(u32),
    /// A property key converted for the object below it.
    ConvertedPropertyKey(u32),
    /// A property key retained in a class-field-key cell.
    ClassFieldKey(u32),
}

/// Whether a slot belongs to an array under construction.
pub open spec fn spec_is_append_provenance(value: ObjectDefinitionProvenance) -> bool {
    match value {
        ObjectDefinitionProvenance::FreshArray { .. }
        | ObjectDefinitionProvenance::ArrayCursorCandidate { .. }
        | ObjectDefinitionProvenance::AppendDestination(_)
        | ObjectDefinitionProvenance::CheckedAppendCursor(_)
        | ObjectDefinitionProvenance::AppendCursorAfterElision(_)
        | ObjectDefinitionProvenance::AppendCursorNeedsIncrement(_)
        | ObjectDefinitionProvenance::AppendLengthTarget(_)
        | ObjectDefinitionProvenance::AppendLengthCursor(_) => true,
        _ => false,
    }
}

#[verifier::when_used_as_spec(spec_is_append_provenance)]
pub(crate) fn is_append_provenance(value: ObjectDefinitionProvenance) -> (member: bool)
    ensures
        member == spec_is_append_provenance(value),
{
    match value {
        ObjectDefinitionProvenance::FreshArray { .. }
        | ObjectDefinitionProvenance::ArrayCursorCandidate { .. }
        | ObjectDefinitionProvenance::AppendDestination(_)
        | ObjectDefinitionProvenance::CheckedAppendCursor(_)
        | ObjectDefinitionProvenance::AppendCursorAfterElision(_)
        | ObjectDefinitionProvenance::AppendCursorNeedsIncrement(_)
        | ObjectDefinitionProvenance::AppendLengthTarget(_)
        | ObjectDefinitionProvenance::AppendLengthCursor(_) => true,
        _ => false,
    }
}

/// Whether a slot belongs to a length about to be set.
pub open spec fn spec_is_append_length_marker(value: ObjectDefinitionProvenance) -> bool {
    match value {
        ObjectDefinitionProvenance::AppendLengthTarget(_)
        | ObjectDefinitionProvenance::AppendLengthCursor(_) => true,
        _ => false,
    }
}

#[verifier::when_used_as_spec(spec_is_append_length_marker)]
pub(crate) fn is_append_length_marker(value: ObjectDefinitionProvenance) -> (member: bool)
    ensures
        member == spec_is_append_length_marker(value),
{
    match value {
        ObjectDefinitionProvenance::AppendLengthTarget(_)
        | ObjectDefinitionProvenance::AppendLengthCursor(_) => true,
        _ => false,
    }
}

/// Whether a slot belongs to an array that values are appended to.
pub open spec fn spec_is_linear_append_provenance(value: ObjectDefinitionProvenance) -> bool {
    match value {
        ObjectDefinitionProvenance::AppendDestination(_)
        | ObjectDefinitionProvenance::CheckedAppendCursor(_)
        | ObjectDefinitionProvenance::AppendCursorAfterElision(_)
        | ObjectDefinitionProvenance::AppendCursorNeedsIncrement(_)
        | ObjectDefinitionProvenance::AppendLengthTarget(_)
        | ObjectDefinitionProvenance::AppendLengthCursor(_) => true,
        _ => false,
    }
}

#[verifier::when_used_as_spec(spec_is_linear_append_provenance)]
pub(crate) fn is_linear_append_provenance(value: ObjectDefinitionProvenance) -> (member: bool)
    ensures
        member == spec_is_linear_append_provenance(value),
{
    match value {
        ObjectDefinitionProvenance::AppendDestination(_)
        | ObjectDefinitionProvenance::CheckedAppendCursor(_)
        | ObjectDefinitionProvenance::AppendCursorAfterElision(_)
        | ObjectDefinitionProvenance::AppendCursorNeedsIncrement(_)
        | ObjectDefinitionProvenance::AppendLengthTarget(_)
        | ObjectDefinitionProvenance::AppendLengthCursor(_) => true,
        _ => false,
    }
}

/// Whether a slot is a cursor that owes an increment.
pub open spec fn spec_is_needs_increment(value: ObjectDefinitionProvenance) -> bool {
    match value {
        ObjectDefinitionProvenance::AppendCursorNeedsIncrement(_) => true,
        _ => false,
    }
}

#[verifier::when_used_as_spec(spec_is_needs_increment)]
pub(crate) fn is_needs_increment(value: ObjectDefinitionProvenance) -> (member: bool)
    ensures
        member == spec_is_needs_increment(value),
{
    match value {
        ObjectDefinitionProvenance::AppendCursorNeedsIncrement(_) => true,
        _ => false,
    }
}

/// What remains known of a slot that is copied or moved.
///
/// A converted key anchors the moment of its conversion, and an array under
/// construction is linear: neither survives a move.
pub open spec fn spec_shuffled_object_definition_provenance(value: ObjectDefinitionProvenance) -> ObjectDefinitionProvenance {
    match value {
        ObjectDefinitionProvenance::ConvertedPropertyKey(_) => ObjectDefinitionProvenance::Unknown,
        _ => if spec_is_append_provenance(value) {
            ObjectDefinitionProvenance::Unknown
        } else {
            value
        },
    }
}

#[verifier::when_used_as_spec(spec_shuffled_object_definition_provenance)]
pub(crate) fn shuffled_object_definition_provenance(value: ObjectDefinitionProvenance) -> (result: ObjectDefinitionProvenance)
    ensures
        result == spec_shuffled_object_definition_provenance(value),
{
    match value {
        ObjectDefinitionProvenance::ConvertedPropertyKey(_) => ObjectDefinitionProvenance::Unknown,
        _ => if is_append_provenance(value) {
            ObjectDefinitionProvenance::Unknown
        } else {
            value
        },
    }
}

/// What remains known of a slot below a definition.
pub open spec fn spec_retained_object_definition_provenance(value: ObjectDefinitionProvenance) -> ObjectDefinitionProvenance {
    if spec_is_append_provenance(value) {
        ObjectDefinitionProvenance::Unknown
    } else {
        value
    }
}

#[verifier::when_used_as_spec(spec_retained_object_definition_provenance)]
pub(crate) fn retained_object_definition_provenance(value: ObjectDefinitionProvenance) -> (result: ObjectDefinitionProvenance)
    ensures
        result == spec_retained_object_definition_provenance(value),
{
    if is_append_provenance(value) {
        ObjectDefinitionProvenance::Unknown
    } else {
        value
    }
}

/// An array and its cursor that a value may be appended with.
#[derive(Clone, Copy, Debug, PartialEq, Eq, Hash, Structural)]
pub struct CertifiedAppendPair {
    /// Site of the array.
    pub site: u32,
    /// Whether an elision precedes the value.
    pub pending_elision: bool,
}

/// The slot `depth` below the top.
pub open spec fn slot_below_top(state: Seq<ObjectDefinitionProvenance>, depth: int) -> Option<
    ObjectDefinitionProvenance,
> {
    if 0 <= depth < state.len() {
        Some(state[state.len() - 1 - depth])
    } else {
        None
    }
}

pub(crate) fn below_top(state: &[ObjectDefinitionProvenance], depth: usize) -> (slot: Option<
    ObjectDefinitionProvenance,
>)
    ensures
        slot == slot_below_top(state@, depth as int),
{
    if depth < state.len() {
        Some(state[state.len() - 1 - depth])
    } else {
        None
    }
}

/// The array and cursor below the top value, if the value may be appended.
pub open spec fn spec_append_pair_for_append(state: Seq<ObjectDefinitionProvenance>) -> Option<CertifiedAppendPair> {
    match (slot_below_top(state, 2), slot_below_top(state, 1)) {
        (
            Some(ObjectDefinitionProvenance::FreshArray { site, minimum_cursor }),
            Some(ObjectDefinitionProvenance::ArrayCursorCandidate { site: cursor_site, value }),
        ) => if site == cursor_site && value >= minimum_cursor {
            Some(CertifiedAppendPair { site, pending_elision: value > minimum_cursor })
        } else {
            None
        },
        (
            Some(ObjectDefinitionProvenance::AppendDestination(destination)),
            Some(ObjectDefinitionProvenance::CheckedAppendCursor(cursor)),
        ) => if destination == cursor {
            Some(CertifiedAppendPair { site: destination, pending_elision: false })
        } else {
            None
        },
        (
            Some(ObjectDefinitionProvenance::AppendDestination(destination)),
            Some(ObjectDefinitionProvenance::AppendCursorAfterElision(cursor)),
        ) => if destination == cursor {
            Some(CertifiedAppendPair { site: destination, pending_elision: true })
        } else {
            None
        },
        _ => None,
    }
}

pub(crate) fn append_pair_for_append(state: &[ObjectDefinitionProvenance]) -> (pair: Option<CertifiedAppendPair>)
    ensures
        pair == spec_append_pair_for_append(state@),
{
    match (below_top(state, 2), below_top(state, 1)) {
        (
            Some(ObjectDefinitionProvenance::FreshArray { site, minimum_cursor }),
            Some(ObjectDefinitionProvenance::ArrayCursorCandidate { site: cursor_site, value }),
        ) => if site == cursor_site && value >= minimum_cursor {
            Some(CertifiedAppendPair { site, pending_elision: value > minimum_cursor })
        } else {
            None
        },
        (
            Some(ObjectDefinitionProvenance::AppendDestination(destination)),
            Some(ObjectDefinitionProvenance::CheckedAppendCursor(cursor)),
        ) => if destination == cursor {
            Some(CertifiedAppendPair { site: destination, pending_elision: false })
        } else {
            None
        },
        (
            Some(ObjectDefinitionProvenance::AppendDestination(destination)),
            Some(ObjectDefinitionProvenance::AppendCursorAfterElision(cursor)),
        ) => if destination == cursor {
            Some(CertifiedAppendPair { site: destination, pending_elision: true })
        } else {
            None
        },
        _ => None,
    }
}

/// Site of the array and cursor below the top value, if the value may be written
/// as an element. The first element of a rest-collection loop finds the fresh
/// array and its first cursor.
pub open spec fn spec_append_pair_for_element(state: Seq<ObjectDefinitionProvenance>) -> Option<u32> {
    match (slot_below_top(state, 2), slot_below_top(state, 1)) {
        (
            Some(ObjectDefinitionProvenance::AppendDestination(destination)),
            Some(ObjectDefinitionProvenance::CheckedAppendCursor(cursor)),
        ) => if destination == cursor {
            Some(destination)
        } else {
            None
        },
        (
            Some(ObjectDefinitionProvenance::AppendDestination(destination)),
            Some(ObjectDefinitionProvenance::AppendCursorAfterElision(cursor)),
        ) => if destination == cursor {
            Some(destination)
        } else {
            None
        },
        (
            Some(ObjectDefinitionProvenance::FreshArray { site, minimum_cursor }),
            Some(ObjectDefinitionProvenance::ArrayCursorCandidate { site: cursor_site, value }),
        ) => if site == cursor_site && value >= minimum_cursor {
            Some(site)
        } else {
            None
        },
        _ => None,
    }
}

pub(crate) fn append_pair_for_element(state: &[ObjectDefinitionProvenance]) -> (pair: Option<u32>)
    ensures
        pair == spec_append_pair_for_element(state@),
{
    match (below_top(state, 2), below_top(state, 1)) {
        (
            Some(ObjectDefinitionProvenance::AppendDestination(destination)),
            Some(ObjectDefinitionProvenance::CheckedAppendCursor(cursor)),
        ) => if destination == cursor {
            Some(destination)
        } else {
            None
        },
        (
            Some(ObjectDefinitionProvenance::AppendDestination(destination)),
            Some(ObjectDefinitionProvenance::AppendCursorAfterElision(cursor)),
        ) => if destination == cursor {
            Some(destination)
        } else {
            None
        },
        (
            Some(ObjectDefinitionProvenance::FreshArray { site, minimum_cursor }),
            Some(ObjectDefinitionProvenance::ArrayCursorCandidate { site: cursor_site, value }),
        ) => if site == cursor_site && value >= minimum_cursor {
            Some(site)
        } else {
            None
        },
        _ => None,
    }
}

/// Site of the array and cursor at the top, if the cursor owes an increment.
pub open spec fn spec_append_pair_needing_increment_at_top(state: Seq<ObjectDefinitionProvenance>) -> Option<u32> {
    match (slot_below_top(state, 1), slot_below_top(state, 0)) {
        (
            Some(ObjectDefinitionProvenance::AppendDestination(destination)),
            Some(ObjectDefinitionProvenance::AppendCursorNeedsIncrement(cursor)),
        ) => if destination == cursor {
            Some(destination)
        } else {
            None
        },
        _ => None,
    }
}

pub(crate) fn append_pair_needing_increment_at_top(state: &[ObjectDefinitionProvenance]) -> (pair: Option<u32>)
    ensures
        pair == spec_append_pair_needing_increment_at_top(state@),
{
    match (below_top(state, 1), below_top(state, 0)) {
        (
            Some(ObjectDefinitionProvenance::AppendDestination(destination)),
            Some(ObjectDefinitionProvenance::AppendCursorNeedsIncrement(cursor)),
        ) => if destination == cursor {
            Some(destination)
        } else {
            None
        },
        _ => None,
    }
}

/// Site of the array and cursor at the top, whatever state the cursor is in.
pub open spec fn spec_append_cursor_pair_at_top(state: Seq<ObjectDefinitionProvenance>) -> Option<u32> {
    match (slot_below_top(state, 1), slot_below_top(state, 0)) {
        (
            Some(ObjectDefinitionProvenance::AppendDestination(destination)),
            Some(ObjectDefinitionProvenance::CheckedAppendCursor(cursor)),
        ) => if destination == cursor {
            Some(destination)
        } else {
            None
        },
        (
            Some(ObjectDefinitionProvenance::AppendDestination(destination)),
            Some(ObjectDefinitionProvenance::AppendCursorAfterElision(cursor)),
        ) => if destination == cursor {
            Some(destination)
        } else {
            None
        },
        (
            Some(ObjectDefinitionProvenance::AppendDestination(destination)),
            Some(ObjectDefinitionProvenance::AppendCursorNeedsIncrement(cursor)),
        ) => if destination == cursor {
            Some(destination)
        } else {
            None
        },
        _ => None,
    }
}

pub(crate) fn append_cursor_pair_at_top(state: &[ObjectDefinitionProvenance]) -> (pair: Option<u32>)
    ensures
        pair == spec_append_cursor_pair_at_top(state@),
{
    match (below_top(state, 1), below_top(state, 0)) {
        (
            Some(ObjectDefinitionProvenance::AppendDestination(destination)),
            Some(ObjectDefinitionProvenance::CheckedAppendCursor(cursor)),
        ) => if destination == cursor {
            Some(destination)
        } else {
            None
        },
        (
            Some(ObjectDefinitionProvenance::AppendDestination(destination)),
            Some(ObjectDefinitionProvenance::AppendCursorAfterElision(cursor)),
        ) => if destination == cursor {
            Some(destination)
        } else {
            None
        },
        (
            Some(ObjectDefinitionProvenance::AppendDestination(destination)),
            Some(ObjectDefinitionProvenance::AppendCursorNeedsIncrement(cursor)),
        ) => if destination == cursor {
            Some(destination)
        } else {
            None
        },
        _ => None,
    }
}

/// Site of the array and its settled cursor at the top.
pub open spec fn spec_checked_append_pair_at_top(state: Seq<ObjectDefinitionProvenance>) -> Option<u32> {
    match (slot_below_top(state, 1), slot_below_top(state, 0)) {
        (
            Some(ObjectDefinitionProvenance::AppendDestination(destination)),
            Some(ObjectDefinitionProvenance::CheckedAppendCursor(cursor)),
        ) => if destination == cursor {
            Some(destination)
        } else {
            None
        },
        _ => None,
    }
}

pub(crate) fn checked_append_pair_at_top(state: &[ObjectDefinitionProvenance]) -> (pair: Option<u32>)
    ensures
        pair == spec_checked_append_pair_at_top(state@),
{
    match (below_top(state, 1), below_top(state, 0)) {
        (
            Some(ObjectDefinitionProvenance::AppendDestination(destination)),
            Some(ObjectDefinitionProvenance::CheckedAppendCursor(cursor)),
        ) => if destination == cursor {
            Some(destination)
        } else {
            None
        },
        _ => None,
    }
}

/// Site of the array and its cursor after an elision at the top.
pub open spec fn spec_trailing_elision_pair_at_top(state: Seq<ObjectDefinitionProvenance>) -> Option<u32> {
    match (slot_below_top(state, 1), slot_below_top(state, 0)) {
        (
            Some(ObjectDefinitionProvenance::AppendDestination(destination)),
            Some(ObjectDefinitionProvenance::AppendCursorAfterElision(cursor)),
        ) => if destination == cursor {
            Some(destination)
        } else {
            None
        },
        _ => None,
    }
}

pub(crate) fn trailing_elision_pair_at_top(state: &[ObjectDefinitionProvenance]) -> (pair: Option<u32>)
    ensures
        pair == spec_trailing_elision_pair_at_top(state@),
{
    match (below_top(state, 1), below_top(state, 0)) {
        (
            Some(ObjectDefinitionProvenance::AppendDestination(destination)),
            Some(ObjectDefinitionProvenance::AppendCursorAfterElision(cursor)),
        ) => if destination == cursor {
            Some(destination)
        } else {
            None
        },
        _ => None,
    }
}

/// Whether a slot from `from` on belongs to an array under construction.
pub open spec fn spec_any_append(state: Seq<ObjectDefinitionProvenance>, from: int) -> bool {
    exists|i: int| from <= i < state.len() && spec_is_append_provenance(#[trigger] state[i])
}

pub(crate) fn any_append(state: &[ObjectDefinitionProvenance], from: usize) -> (found: bool)
    ensures
        found == spec_any_append(state@, from as int),
{
    let mut i: usize = from;
    while i < state.len()
        invariant
            from <= i,
            forall|j: int| from <= j < i && j < state@.len() ==> !spec_is_append_provenance(
                #[trigger] state@[j],
            ),
        decreases state@.len() - i,
    {
        if is_append_provenance(state[i]) {
            assert(spec_is_append_provenance(state@[i as int]));
            return true;
        }
        i = i + 1;
    }
    false
}

/// Whether a slot from `from` on belongs to a length about to be set.
pub open spec fn spec_any_length_marker(state: Seq<ObjectDefinitionProvenance>, from: int) -> bool {
    exists|i: int| from <= i < state.len() && spec_is_append_length_marker(#[trigger] state[i])
}

pub(crate) fn any_length_marker(state: &[ObjectDefinitionProvenance], from: usize) -> (found: bool)
    ensures
        found == spec_any_length_marker(state@, from as int),
{
    let mut i: usize = from;
    while i < state.len()
        invariant
            from <= i,
            forall|j: int| from <= j < i && j < state@.len() ==> !spec_is_append_length_marker(
                #[trigger] state@[j],
            ),
        decreases state@.len() - i,
    {
        if is_append_length_marker(state[i]) {
            assert(spec_is_append_length_marker(state@[i as int]));
            return true;
        }
        i = i + 1;
    }
    false
}

/// Whether a slot from `from` on belongs to an array that values are appended
/// to.
pub open spec fn spec_any_linear(state: Seq<ObjectDefinitionProvenance>, from: int) -> bool {
    exists|i: int| from <= i < state.len() && spec_is_linear_append_provenance(#[trigger] state[i])
}

pub(crate) fn any_linear(state: &[ObjectDefinitionProvenance], from: usize) -> (found: bool)
    ensures
        found == spec_any_linear(state@, from as int),
{
    let mut i: usize = from;
    while i < state.len()
        invariant
            from <= i,
            forall|j: int| from <= j < i && j < state@.len() ==> !spec_is_linear_append_provenance(
                #[trigger] state@[j],
            ),
        decreases state@.len() - i,
    {
        if is_linear_append_provenance(state[i]) {
            assert(spec_is_linear_append_provenance(state@[i as int]));
            return true;
        }
        i = i + 1;
    }
    false
}

/// Whether a slot from `from` on is a cursor that owes an increment.
pub open spec fn spec_any_needs_increment(state: Seq<ObjectDefinitionProvenance>, from: int) -> bool {
    exists|i: int| from <= i < state.len() && spec_is_needs_increment(#[trigger] state[i])
}

pub(crate) fn any_needs_increment(state: &[ObjectDefinitionProvenance], from: usize) -> (found: bool)
    ensures
        found == spec_any_needs_increment(state@, from as int),
{
    let mut i: usize = from;
    while i < state.len()
        invariant
            from <= i,
            forall|j: int| from <= j < i && j < state@.len() ==> !spec_is_needs_increment(
                #[trigger] state@[j],
            ),
        decreases state@.len() - i,
    {
        if is_needs_increment(state[i]) {
            assert(spec_is_needs_increment(state@[i as int]));
            return true;
        }
        i = i + 1;
    }
    false
}

/// The atom that operands name, if the pool has it.
pub open spec fn named_atom(atoms: Seq<CompilerAtom>, operands: Operands) -> Option<CompilerAtom> {
    match operands.spec_atom_pool_index() {
        Some(index) => if index.0 < atoms.len() {
            Some(atoms[index.0 as int])
        } else {
            None
        },
        None => None,
    }
}

fn find_atom<'a>(atoms: &'a [CompilerAtom], operands: Operands) -> (atom: Option<&'a CompilerAtom>)
    ensures
        match atom {
            Some(atom) => named_atom(atoms@, operands) == Some(*atom),
            None => named_atom(atoms@, operands).is_none(),
        },
{
    match operands.atom_pool_index() {
        Some(index) => {
            let position: usize = index.0 as usize;
            if position < atoms.len() {
                Some(&atoms[position])
            } else {
                None
            }
        },
        None => None,
    }
}

/// Code units of the property name `length`.
pub open spec fn length_units() -> Seq<u16> {
    seq![0x6c, 0x65, 0x6e, 0x67, 0x74, 0x68]
}

/// Returns whether two sequences of code units are equal.
pub(crate) fn same_units(left: &[u16], right: &[u16]) -> (same: bool)
    ensures
        same == (left@ == right@),
{
    if left.len() != right.len() {
        return false;
    }
    let mut i: usize = 0;
    while i < left.len()
        invariant
            i <= left@.len(),
            left@.len() == right@.len(),
            forall|j: int| 0 <= j < i ==> left@[j] == right@[j],
        decreases left@.len() - i,
    {
        if left[i] != right[i] {
            return false;
        }
        i = i + 1;
    }
    assert(left@ =~= right@);
    true
}

/// Whether a `put_field` sets the length of the array at the top from its
/// cursor.
pub open spec fn spec_is_append_length_finalizer(
    atoms: Seq<CompilerAtom>,
    operands: Operands,
    state: Seq<ObjectDefinitionProvenance>,
) -> bool {
    match (slot_below_top(state, 2), slot_below_top(state, 1), slot_below_top(state, 0)) {
        (
            Some(ObjectDefinitionProvenance::AppendDestination(destination)),
            Some(ObjectDefinitionProvenance::AppendLengthTarget(target)),
            Some(ObjectDefinitionProvenance::AppendLengthCursor(cursor)),
        ) => destination == target && target == cursor && match named_atom(atoms, operands) {
            Some(atom) => atom.string.units@ == length_units(),
            None => false,
        },
        _ => false,
    }
}

pub(crate) fn is_append_length_finalizer(
    atoms: &[CompilerAtom],
    operands: Operands,
    state: &[ObjectDefinitionProvenance],
) -> (finalizes: bool)
    ensures
        finalizes == spec_is_append_length_finalizer(atoms@, operands, state@),
{
    match (below_top(state, 2), below_top(state, 1), below_top(state, 0)) {
        (
            Some(ObjectDefinitionProvenance::AppendDestination(destination)),
            Some(ObjectDefinitionProvenance::AppendLengthTarget(target)),
            Some(ObjectDefinitionProvenance::AppendLengthCursor(cursor)),
        ) => {
            if destination != target || target != cursor {
                return false;
            }
            match find_atom(atoms, operands) {
                Some(atom) => {
                    let expected: Vec<u16> = vec![0x6c, 0x65, 0x6e, 0x67, 0x74, 0x68];
                    assert(expected@ =~= length_units());
                    same_units(atom.string.code_units(), &expected)
                },
                None => false,
            }
        },
        _ => false,
    }
}

/// Decimal value of the code units from `at` on, behind `value`; none where a
/// unit is below the digits or the value overflows.
pub open spec fn decimal_from(units: Seq<u16>, at: int, value: u32) -> Option<u32>
    decreases units.len() - at,
{
    if at >= units.len() {
        Some(value)
    } else if units[at] < 0x30 || value * 10 + (units[at] - 0x30) > u32::MAX {
        None
    } else {
        decimal_from(units, at + 1, (value * 10 + (units[at] - 0x30)) as u32)
    }
}

/// Array index that a static property operand names.
pub open spec fn spec_static_array_index(atoms: Seq<CompilerAtom>, operands: Operands) -> Option<
    u32,
> {
    match named_atom(atoms, operands) {
        None => None,
        Some(atom) => if !atom.static_property_only || !atom.string.tagged_integer {
            None
        } else {
            match decimal_from(atom.string.units@, 0, 0) {
                Some(value) => if value < i32::MAX {
                    Some(value)
                } else {
                    None
                },
                None => None,
            }
        },
    }
}

fn parse_decimal(units: &[u16]) -> (parsed: Option<u32>)
    ensures
        parsed == decimal_from(units@, 0, 0),
{
    let mut value: u32 = 0;
    let mut at: usize = 0;
    while at < units.len()
        invariant
            at <= units@.len(),
            decimal_from(units@, 0, 0) == decimal_from(units@, at as int, value),
        decreases units@.len() - at,
    {
        let unit: u16 = units[at];
        if unit < 0x30 {
            return None;
        }
        let next: u64 = value as u64 * 10 + (unit - 0x30) as u64;
        if next > u32::MAX as u64 {
            return None;
        }
        value = next as u32;
        at = at + 1;
    }
    Some(value)
}

pub(crate) fn static_array_index(atoms: &[CompilerAtom], operands: Operands) -> (index: Option<u32>)
    ensures
        index == spec_static_array_index(atoms@, operands),
{
    match find_atom(atoms, operands) {
        None => None,
        Some(atom) => {
            if !atom.static_property_only || !atom.string.is_tagged_integer_atom() {
                return None;
            }
            match parse_decimal(atom.string.code_units()) {
                Some(value) => if value < i32::MAX as u32 {
                    Some(value)
                } else {
                    None
                },
                None => None,
            }
        },
    }
}

/// Integer that an instruction pushes.
pub open spec fn spec_integer_opcode_value(opcode: FinalOpcode, operands: Operands) -> Option<i32> {
    match (opcode, operands) {
        (FinalOpcode::PushMinus1, Operands::NoneInt) => Some(-1i32 as i32),
        (FinalOpcode::Push0, Operands::NoneInt) => Some(0),
        (FinalOpcode::Push1, Operands::NoneInt) => Some(1),
        (FinalOpcode::Push2, Operands::NoneInt) => Some(2),
        (FinalOpcode::Push3, Operands::NoneInt) => Some(3),
        (FinalOpcode::Push4, Operands::NoneInt) => Some(4),
        (FinalOpcode::Push5, Operands::NoneInt) => Some(5),
        (FinalOpcode::Push6, Operands::NoneInt) => Some(6),
        (FinalOpcode::Push7, Operands::NoneInt) => Some(7),
        (FinalOpcode::PushI8, Operands::I8(value)) => Some(value as i32),
        (FinalOpcode::PushI16, Operands::I16(value)) => Some(value as i32),
        (FinalOpcode::PushI32, Operands::I32(value)) => Some(value),
        _ => None,
    }
}

#[verifier::when_used_as_spec(spec_integer_opcode_value)]
pub(crate) fn integer_opcode_value(opcode: FinalOpcode, operands: Operands) -> (value: Option<i32>)
    ensures
        value == spec_integer_opcode_value(opcode, operands),
{
    match (opcode, operands) {
        (FinalOpcode::PushMinus1, Operands::NoneInt) => Some(-1),
        (FinalOpcode::Push0, Operands::NoneInt) => Some(0),
        (FinalOpcode::Push1, Operands::NoneInt) => Some(1),
        (FinalOpcode::Push2, Operands::NoneInt) => Some(2),
        (FinalOpcode::Push3, Operands::NoneInt) => Some(3),
        (FinalOpcode::Push4, Operands::NoneInt) => Some(4),
        (FinalOpcode::Push5, Operands::NoneInt) => Some(5),
        (FinalOpcode::Push6, Operands::NoneInt) => Some(6),
        (FinalOpcode::Push7, Operands::NoneInt) => Some(7),
        (FinalOpcode::PushI8, Operands::I8(value)) => Some(value as i32),
        (FinalOpcode::PushI16, Operands::I16(value)) => Some(value as i32),
        (FinalOpcode::PushI32, Operands::I32(value)) => Some(value),
        _ => None,
    }
}

/// Slot of the target of a packed property copy, if the packed depths of
/// target, source and exclusion list all lie on the stack.
pub open spec fn spec_copy_data_properties_target_index(len: nat, operands: Operands) -> Option<
    int,
> {
    match operands {
        Operands::U8(mask) => {
            let target = (mask & 0b11u8) as int;
            let source = ((mask >> 2) & 0b111u8) as int;
            let excluded = ((mask >> 5) & 0b111u8) as int;
            if target < len && source < len && excluded < len {
                Some(len - 1 - target)
            } else {
                None
            }
        },
        _ => None,
    }
}

pub(crate) fn copy_data_properties_target_index(len: usize, operands: Operands) -> (index: Option<
    usize,
>)
    ensures
        match index {
            Some(index) => spec_copy_data_properties_target_index(len as nat, operands) == Some(
                index as int,
            ) && index < len,
            None => spec_copy_data_properties_target_index(len as nat, operands).is_none(),
        },
{
    match operands {
        Operands::U8(mask) => {
            let target: usize = (mask & 0b11u8) as usize;
            let source: usize = ((mask >> 2) & 0b111u8) as usize;
            let excluded: usize = ((mask >> 5) & 0b111u8) as usize;
            if target < len && source < len && excluded < len {
                Some(len - 1 - target)
            } else {
                None
            }
        },
        _ => None,
    }
}

/// Whether a definition with these flags may have this target: enumerable
/// methods belong to object literals, the others to classes.
pub open spec fn spec_method_target_matches_enumerability(
    target: Option<ObjectDefinitionProvenance>,
    flags: u8,
) -> bool {
    match target {
        Some(ObjectDefinitionProvenance::FreshObject(_)) => 4 <= flags <= 6,
        Some(ObjectDefinitionProvenance::ClassConstructor(_)) => flags <= 2,
        Some(ObjectDefinitionProvenance::ClassPrototype(_)) => flags <= 2,
        _ => false,
    }
}

#[verifier::when_used_as_spec(spec_method_target_matches_enumerability)]
pub(crate) fn method_target_matches_enumerability(
    target: Option<ObjectDefinitionProvenance>,
    flags: u8,
) -> (matching: bool)
    ensures
        matching == spec_method_target_matches_enumerability(target, flags),
{
    match target {
        Some(ObjectDefinitionProvenance::FreshObject(_)) => 4 <= flags && flags <= 6,
        Some(ObjectDefinitionProvenance::ClassConstructor(_)) => flags <= 2,
        Some(ObjectDefinitionProvenance::ClassPrototype(_)) => flags <= 2,
        _ => false,
    }
}

/// A definition has no certified target.
pub open spec fn target_error(
    id: FunctionTemplateId,
    decoded: DecodedInstruction,
) -> BytecodeVerificationError {
    function_error(id, BytecodeVerificationErrorKind::DefineMethodTargetMismatch { pc: decoded.pc })
}

pub(crate) fn method_target_error(id: FunctionTemplateId, decoded: DecodedInstruction) -> (error:
    BytecodeVerificationError)
    ensures
        error == target_error(id, decoded),
{
    BytecodeVerificationError::function(
        id,
        BytecodeVerificationErrorKind::DefineMethodTargetMismatch { pc: decoded.pc },
    )
}

/// An element definition has no certified target and key.
pub open spec fn element_key_error(
    id: FunctionTemplateId,
    decoded: DecodedInstruction,
) -> BytecodeVerificationError {
    function_error(id, BytecodeVerificationErrorKind::DefineArrayElementKeyMismatch { pc: decoded.pc })
}

pub(crate) fn define_array_element_key_error(id: FunctionTemplateId, decoded: DecodedInstruction) -> (error:
    BytecodeVerificationError)
    ensures
        error == element_key_error(id, decoded),
{
    BytecodeVerificationError::function(
        id,
        BytecodeVerificationErrorKind::DefineArrayElementKeyMismatch { pc: decoded.pc },
    )
}

/// An instruction misuses an array under construction.
pub open spec fn append_error(
    id: FunctionTemplateId,
    decoded: DecodedInstruction,
) -> BytecodeVerificationError {
    function_error(id, BytecodeVerificationErrorKind::AppendOperandStackMismatch { pc: decoded.pc, opcode: decoded.instruction.opcode })
}

pub(crate) fn append_stack_error(id: FunctionTemplateId, decoded: DecodedInstruction) -> (error:
    BytecodeVerificationError)
    ensures
        error == append_error(id, decoded),
{
    BytecodeVerificationError::function(
        id,
        BytecodeVerificationErrorKind::AppendOperandStackMismatch { pc: decoded.pc, opcode: decoded.instruction.opcode },
    )
}

/// A class definition has the wrong operands.
pub open spec fn class_error(
    id: FunctionTemplateId,
    decoded: DecodedInstruction,
) -> BytecodeVerificationError {
    function_error(id, BytecodeVerificationErrorKind::DefineClassTemplateMismatch { pc: decoded.pc })
}

pub(crate) fn define_class_error(id: FunctionTemplateId, decoded: DecodedInstruction) -> (error:
    BytecodeVerificationError)
    ensures
        error == class_error(id, decoded),
{
    BytecodeVerificationError::function(
        id,
        BytecodeVerificationErrorKind::DefineClassTemplateMismatch { pc: decoded.pc },
    )
}

} // verus!
