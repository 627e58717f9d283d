//! Atoms that metadata names.
use crate::bytecode::error::{
    BytecodeVerificationError, BytecodeVerificationErrorKind, MetadataAtomField, function_error,
};
use crate::bytecode::operand_use::{saturated_u32, usize_to_u32};
use crate::function_graph::{CompilerAtom, CompilerString, FunctionTemplateId};
use crate::instruction::AtomPoolIndex;
use vstd::prelude::*;

verus! {

/// The check that a metadata atom lies in the pool and is not reserved for
/// static properties.
pub open spec fn atom_check(
    id: FunctionTemplateId,
    atom: AtomPoolIndex,
    field: MetadataAtomField,
    atoms: Seq<CompilerAtom>,
) -> Result<(), BytecodeVerificationError> {
    let len = saturated_u32(atoms.len() as int);
    if atom.0 >= len {
        Err(
            function_error(
                id,
                BytecodeVerificationErrorKind::MetadataAtomOutOfBounds {
                    field,
                    index: atom.0,
                    len,
                },
            ),
        )
    } else if atoms[atom.0 as int].static_property_only {
        Err(
            function_error(
                id,
                BytecodeVerificationErrorKind::StaticPropertyOnlyMetadataAtom {
                    field,
                    index: atom.0,
                },
            ),
        )
    } else {
        Ok(())
    }
}

pub(crate) fn verify_atom_bounds(
    id: FunctionTemplateId,
    atom: AtomPoolIndex,
    field: MetadataAtomField,
    atoms: &[CompilerAtom],
) -> (checked: Result<(), BytecodeVerificationError>)
    ensures
        checked == atom_check(id, atom, field, atoms@),
{
    let len: u32 = usize_to_u32(atoms.len());
    if atom.0 >= len {
        return Err(
            BytecodeVerificationError::function(
                id,
                BytecodeVerificationErrorKind::MetadataAtomOutOfBounds {
                    field,
                    index: atom.0,
                    len,
                },
            ),
        );
    }
    if atoms[atom.0 as usize].is_static_property_only() {
        return Err(
            BytecodeVerificationError::function(
                id,
                BytecodeVerificationErrorKind::StaticPropertyOnlyMetadataAtom {
                    field,
                    index: atom.0,
                },
            ),
        );
    }
    Ok(())
}

/// The check of an atom that may be absent.
pub open spec fn optional_atom_check(
    id: FunctionTemplateId,
    atom: Option<AtomPoolIndex>,
    field: MetadataAtomField,
    atoms: Seq<CompilerAtom>,
) -> Result<(), BytecodeVerificationError> {
    match atom {
        Some(atom) => atom_check(id, atom, field, atoms),
        None => Ok(()),
    }
}

pub(crate) fn verify_optional_atom(
    id: FunctionTemplateId,
    atom: Option<AtomPoolIndex>,
    field: MetadataAtomField,
    atoms: &[CompilerAtom],
) -> (checked: Result<(), BytecodeVerificationError>)
    ensures
        checked == optional_atom_check(id, atom, field, atoms@),
{
    match atom {
        Some(atom) => verify_atom_bounds(id, atom, field, atoms),
        None => Ok(()),
    }
}

/// The check of an atom that must be present.
pub open spec fn required_atom_check(
    id: FunctionTemplateId,
    atom: Option<AtomPoolIndex>,
    field: MetadataAtomField,
    atoms: Seq<CompilerAtom>,
) -> Result<(), BytecodeVerificationError> {
    match atom {
        Some(atom) => atom_check(id, atom, field, atoms),
        None => Err(
            function_error(id, BytecodeVerificationErrorKind::MissingMetadataAtom { field }),
        ),
    }
}

pub(crate) fn verify_required_atom(
    id: FunctionTemplateId,
    atom: Option<AtomPoolIndex>,
    field: MetadataAtomField,
    atoms: &[CompilerAtom],
) -> (checked: Result<(), BytecodeVerificationError>)
    ensures
        checked == required_atom_check(id, atom, field, atoms@),
{
    match atom {
        Some(atom) => verify_atom_bounds(id, atom, field, atoms),
        None => Err(
            BytecodeVerificationError::function(
                id,
                BytecodeVerificationErrorKind::MissingMetadataAtom { field },
            ),
        ),
    }
}

/// Code units of a named atom, if the pool has it.
pub open spec fn atom_units(atom: Option<AtomPoolIndex>, atoms: Seq<CompilerAtom>) -> Option<
    Seq<u16>,
> {
    match atom {
        Some(atom) => if atom.0 < atoms.len() {
            Some(atoms[atom.0 as int].string.units@)
        } else {
            None
        },
        None => None,
    }
}

/// Returns the text of a named atom, if the pool has it.
pub(crate) fn atom_contents<'a>(atom: Option<AtomPoolIndex>, atoms: &'a [CompilerAtom]) -> (
contents: Option<&'a CompilerString>)
    ensures
        match contents {
            Some(contents) => atom_units(atom, atoms@) == Some(contents.units@),
            None => atom_units(atom, atoms@).is_none(),
        },
{
    match atom {
        Some(atom) => {
            let index: usize = atom.0 as usize;
            if index < atoms.len() {
                Some(atoms[index].string())
            } else {
                None
            }
        },
        None => None,
    }
}

/// Code units of `arguments`.
pub open spec fn arguments_units() -> Seq<u16> {
    seq![0x61, 0x72, 0x67, 0x75, 0x6d, 0x65, 0x6e, 0x74, 0x73]
}

/// Code units of `default`.
pub open spec fn default_units() -> Seq<u16> {
    seq![0x64, 0x65, 0x66, 0x61, 0x75, 0x6c, 0x74]
}

/// Code units of `*default*`.
pub open spec fn starred_default_units() -> Seq<u16> {
    seq![0x2a, 0x64, 0x65, 0x66, 0x61, 0x75, 0x6c, 0x74, 0x2a]
}

/// Returns the code units of `arguments`.
pub(crate) fn arguments_name() -> (units: Vec<u16>)
    ensures
        units@ == arguments_units(),
{
    let units: Vec<u16> = vec![0x61, 0x72, 0x67, 0x75, 0x6d, 0x65, 0x6e, 0x74, 0x73];
    assert(units@ =~= arguments_units());
    units
}

/// Returns the code units of `default`.
pub(crate) fn default_name() -> (units: Vec<u16>)
    ensures
        units@ == default_units(),
{
    let units: Vec<u16> = vec![0x64, 0x65, 0x66, 0x61, 0x75, 0x6c, 0x74];
    assert(units@ =~= default_units());
    units
}

/// Returns the code units of `*default*`.
pub(crate) fn starred_default_name() -> (units: Vec<u16>)
    ensures
        units@ == starred_default_units(),
{
    let units: Vec<u16> = vec![0x2a, 0x64, 0x65, 0x66, 0x61, 0x75, 0x6c, 0x74, 0x2a];
    assert(units@ =~= starred_default_units());
    units
}

} // verus!
