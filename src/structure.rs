use vstd::prelude::*;
use crate::error::{dimension_message, DFTD4Error};
use crate::text::{decimal, decimal_text};

verus! {

/// The largest atom count that the native integer type holds.
pub const MAX_NATIVE_ATOMS: usize = 2147483647;

/// Message of a local failure on an atom count that the native integer type
/// cannot hold.
pub open spec fn atom_count_message(natoms: nat) -> Seq<char> {
    "Invalid number of atoms, expected at most "@ + decimal(MAX_NATIVE_ATOMS as nat) + ", got "@
        + decimal(natoms)
}

/// The message of the first lattice check that fails, if any: a lattice,
/// where one is given, holds a 3x3 matrix.
pub open spec fn lattice_error(lattice_len: Option<usize>) -> Option<Seq<char>> {
    match lattice_len {
        Some(l) if l != 9 => Some(dimension_message("lattice"@, 9, l as nat)),
        _ => None,
    }
}

/// The message of the first local check that a new structure fails, in the
/// order: atomic numbers, positions, lattice, atom count; `None` when all hold.
pub open spec fn new_structure_error(
    natoms: usize,
    numbers_len: nat,
    positions_len: usize,
    lattice_len: Option<usize>,
) -> Option<Seq<char>> {
    if numbers_len != natoms {
        Some(dimension_message("numbers"@, natoms as nat, numbers_len))
    } else if positions_len != 3 * natoms {
        Some(dimension_message("positions"@, (3 * natoms) as nat, positions_len as nat))
    } else if lattice_error(lattice_len) is Some {
        lattice_error(lattice_len)
    } else if natoms > MAX_NATIVE_ATOMS {
        Some(atom_count_message(natoms as nat))
    } else {
        None
    }
}

/// The message of the first local check that an update of a structure of
/// `natoms` atoms fails, in the order: positions, lattice; `None` when both hold.
pub open spec fn update_structure_error(
    natoms: nat,
    positions_len: usize,
    lattice_len: Option<usize>,
) -> Option<Seq<char>> {
    if positions_len != 3 * natoms {
        Some(dimension_message("positions"@, 3 * natoms, positions_len as nat))
    } else {
        lattice_error(lattice_len)
    }
}

/// An atomic number in the native integer width.
pub open spec fn native_number(x: usize) -> i32 {
    x as i32
}

/// The validated, marshalled input of the native structure constructor. The
/// positions, charge, lattice and periodicity go across as the caller holds
/// them.
pub struct StructureInput {
    natoms: usize,
    numbers: Vec<i32>,
}

impl StructureInput {
    #[verifier::type_invariant]
    spec fn fits(&self) -> bool {
        &&& self.natoms <= MAX_NATIVE_ATOMS
        &&& 3 * self.natoms <= usize::MAX
        &&& self.numbers@.len() == self.natoms
    }

    /// Number of atoms.
    pub closed spec fn atom_count(&self) -> nat {
        self.natoms as nat
    }

    /// Atomic numbers in the native integer width.
    pub closed spec fn numbers(&self) -> Seq<i32> {
        self.numbers@
    }

    /// The atom count in the native integer width.
    pub fn native_natoms(&self) -> (r: i32)
        ensures
            r as int == self.atom_count(),
    {
        proof {
            use_type_invariant(self);
        }
        self.natoms as i32
    }

    /// The atomic numbers in the native integer width.
    pub fn native_numbers(&self) -> (r: &[i32])
        ensures
            r@ == self.numbers(),
            r@.len() == self.atom_count(),
    {
        proof {
            use_type_invariant(self);
        }
        self.numbers.as_slice()
    }
}

/// A native structure handle together with its atom count, which never
/// changes after construction.
pub struct DFTD4Structure {
    ptr: usize,
    natoms: usize,
}

impl DFTD4Structure {
    #[verifier::type_invariant]
    spec fn fits(&self) -> bool {
        &&& self.natoms <= MAX_NATIVE_ATOMS
        &&& 3 * self.natoms <= usize::MAX
    }

    /// Number of atoms.
    pub closed spec fn atom_count(&self) -> nat {
        self.natoms as nat
    }

    /// Address of the native structure.
    pub closed spec fn handle(&self) -> usize {
        self.ptr
    }

    /// Checks the array lengths of a new structure and marshals its atom
    /// count and atomic numbers. Every failure here is local: no native
    /// resource exists yet.
    pub fn prepare_new(
        natoms: usize,
        numbers: &[usize],
        positions_len: usize,
        lattice_len: Option<usize>,
    ) -> (r: Result<StructureInput, DFTD4Error>)
        ensures
            numbers@.len() != natoms ==> r matches Err(DFTD4Error::Rust(_)),
            match new_structure_error(natoms, numbers@.len(), positions_len, lattice_len) {
                Some(m) => r matches Err(DFTD4Error::Rust(e)) && e@ == m,
                None => r matches Ok(input) && input.atom_count() == natoms
                    && input.numbers() == numbers@.map_values(|x: usize| native_number(x)),
            },
    {
        if numbers.len() != natoms {
            return Err(DFTD4Error::dimension_mismatch("numbers", natoms as u128, numbers.len()));
        }
        if 3 * (natoms as u128) != positions_len as u128 {
            return Err(DFTD4Error::dimension_mismatch("positions", 3 * (natoms as u128), positions_len));
        }
        if let Some(e) = check_lattice(lattice_len) {
            return Err(e);
        }
        if natoms > MAX_NATIVE_ATOMS {
            let mut s = String::from_str("Invalid number of atoms, expected at most ");
            let bound = decimal_text(MAX_NATIVE_ATOMS as u128);
            s.append(bound.as_str());
            s.append(", got ");
            let got = decimal_text(natoms as u128);
            s.append(got.as_str());
            return Err(DFTD4Error::Rust(s));
        }
        let mut converted: Vec<i32> = Vec::with_capacity(natoms);
        let mut i: usize = 0;
        while i < natoms
            invariant
                i <= natoms,
                natoms == numbers@.len(),
                converted@.len() == i,
                forall|j: int| 0 <= j < i ==> converted@[j] == native_number(numbers@[j]),
            decreases natoms - i,
        {
            let x: i32 = #[verifier::truncate] (numbers[i] as i32);
            converted.push(x);
            i = i + 1;
        }
        assert(converted@ =~= numbers@.map_values(|x: usize| native_number(x)));
        Ok(StructureInput { natoms, numbers: converted })
    }

    /// The structure that the native constructor made from `input`, at
    /// address `ptr`.
    pub fn from_native(ptr: usize, input: &StructureInput) -> (r: DFTD4Structure)
        ensures
            r.handle() == ptr,
            r.atom_count() == input.atom_count(),
    {
        proof {
            use_type_invariant(input);
        }
        DFTD4Structure { ptr, natoms: input.natoms }
    }

    /// Get number of atoms
    pub fn get_natoms(&self) -> (r: usize)
        ensures
            r == self.atom_count(),
            r <= MAX_NATIVE_ATOMS,
            3 * r <= usize::MAX,
    {
        proof {
            use_type_invariant(self);
        }
        self.natoms
    }

    /// Address of the native structure, to be passed into native calls.
    pub fn native_handle(&self) -> (r: usize)
        ensures
            r == self.handle(),
    {
        self.ptr
    }

    /// Checks the array lengths of a coordinate (and lattice) update against
    /// the fixed atom count. On failure the native structure is not to be
    /// touched: the error is local.
    pub fn check_update(&self, positions_len: usize, lattice_len: Option<usize>) -> (r: Result<
        (),
        DFTD4Error,
    >)
        ensures
            positions_len != 3 * self.atom_count() ==> r matches Err(DFTD4Error::Rust(_)),
            match update_structure_error(self.atom_count(), positions_len, lattice_len) {
                Some(m) => r matches Err(DFTD4Error::Rust(e)) && e@ == m,
                None => r is Ok,
            },
    {
        if 3 * (self.natoms as u128) != positions_len as u128 {
            return Err(
                DFTD4Error::dimension_mismatch("positions", 3 * (self.natoms as u128), positions_len),
            );
        }
        match check_lattice(lattice_len) {
            Some(e) => Err(e),
            None => Ok(()),
        }
    }
}

/// The local failure of a lattice of the wrong length, if any.
fn check_lattice(lattice_len: Option<usize>) -> (r: Option<DFTD4Error>)
    ensures
        match lattice_error(lattice_len) {
            Some(m) => r matches Some(DFTD4Error::Rust(e)) && e@ == m,
            None => r is None,
        },
{
    match lattice_len {
        Some(l) => {
            if l != 9 {
                Some(DFTD4Error::dimension_mismatch("lattice", 9, l))
            } else {
                None
            }
        },
        None => None,
    }
}

} // verus!
