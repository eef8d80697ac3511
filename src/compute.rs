use vstd::prelude::*;
use crate::error::DFTD4Error;
use crate::structure::DFTD4Structure;
use crate::text::{decimal, decimal_text};

verus! {

/// Number of entries of a stress (virial) tensor, a 3x3 matrix.
pub const STRESS_LEN: usize = 9;

/// Buffer lengths of a property evaluation.
pub struct PropertyLayout {
    /// Coordination numbers, one per atom.
    pub cn: usize,
    /// Partial charges, one per atom.
    pub charges: usize,
    /// C6 coefficients, a row-major atom-pair matrix.
    pub c6: usize,
    /// Polarizabilities, one per atom.
    pub alpha: usize,
}

/// Buffer lengths of a dispersion evaluation; `None` for an output that was
/// not asked for, which goes to the native call as a null pointer.
pub struct DispersionLayout {
    /// Energy gradient, three entries per atom.
    pub gradient: Option<usize>,
    /// Stress tensor.
    pub sigma: Option<usize>,
}

/// Message of a local failure on an atom-pair matrix too large to address.
pub open spec fn pair_matrix_message(natoms: nat) -> Seq<char> {
    "Invalid number of atoms, the atom-pair matrix of "@ + decimal(natoms)
        + " atoms does not fit in memory"@
}

/// Entries of the atom-pair matrix of `structure`, or the local failure when
/// that number does not fit in `usize`.
fn pair_matrix_len(structure: &DFTD4Structure) -> (r: Result<usize, DFTD4Error>)
    ensures
        structure.atom_count() * structure.atom_count() <= usize::MAX ==> r == Ok::<usize, DFTD4Error>(
            (structure.atom_count() * structure.atom_count()) as usize,
        ),
        structure.atom_count() * structure.atom_count() > usize::MAX ==> (r matches Err(
            DFTD4Error::Rust(m),
        ) && m@ == pair_matrix_message(structure.atom_count())),
{
    let n = structure.get_natoms();
    match n.checked_mul(n) {
        Some(pairs) => Ok(pairs),
        None => {
            let mut s = String::from_str("Invalid number of atoms, the atom-pair matrix of ");
            let t = decimal_text(n as u128);
            s.append(t.as_str());
            s.append(" atoms does not fit in memory");
            Err(DFTD4Error::Rust(s))
        },
    }
}

/// Buffer lengths of the property evaluation for `structure`.
pub fn get_properties_layout(structure: &DFTD4Structure) -> (r: Result<PropertyLayout, DFTD4Error>)
    ensures
        structure.atom_count() * structure.atom_count() <= usize::MAX ==> (r matches Ok(l) && l.cn
            == structure.atom_count() && l.charges == structure.atom_count() && l.c6
            == structure.atom_count() * structure.atom_count() && l.alpha
            == structure.atom_count()),
        structure.atom_count() * structure.atom_count() > usize::MAX ==> (r matches Err(
            DFTD4Error::Rust(m),
        ) && m@ == pair_matrix_message(structure.atom_count())),
{
    let n = structure.get_natoms();
    let c6 = pair_matrix_len(structure)?;
    Ok(PropertyLayout { cn: n, charges: n, c6, alpha: n })
}

/// Buffer lengths of the dispersion evaluation for `structure`: a gradient
/// only when `eval_grad`, a stress tensor only when `eval_sigma`.
pub fn get_dispersion_layout(structure: &DFTD4Structure, eval_grad: bool, eval_sigma: bool) -> (r:
    DispersionLayout)
    ensures
        r.gradient == (if eval_grad {
            Some((3 * structure.atom_count()) as usize)
        } else {
            None
        }),
        r.sigma == (if eval_sigma {
            Some(STRESS_LEN)
        } else {
            None
        }),
        !eval_grad && !eval_sigma ==> r.gradient is None && r.sigma is None,
{
    let n = structure.get_natoms();
    let gradient = if eval_grad {
        Some(3 * n)
    } else {
        None
    };
    let sigma = if eval_sigma {
        Some(STRESS_LEN)
    } else {
        None
    };
    DispersionLayout { gradient, sigma }
}

/// Length of each of the two pairwise-energy buffers for `structure`, the
/// two-body and the three-body one: a row-major atom-pair matrix.
pub fn get_pairwise_dispersion_layout(structure: &DFTD4Structure) -> (r: Result<usize, DFTD4Error>)
    ensures
        structure.atom_count() * structure.atom_count() <= usize::MAX ==> r == Ok::<usize, DFTD4Error>(
            (structure.atom_count() * structure.atom_count()) as usize,
        ),
        structure.atom_count() * structure.atom_count() > usize::MAX ==> (r matches Err(
            DFTD4Error::Rust(m),
        ) && m@ == pair_matrix_message(structure.atom_count())),
{
    pair_matrix_len(structure)
}

} // verus!
