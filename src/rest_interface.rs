use vstd::prelude::*;
use vstd::utf8::{decode_utf8, valid_utf8};
use crate::error::DFTD4Error;
use crate::text::utf8_text;

verus! {

/// Message of a local failure on a method name that is not UTF-8.
pub open spec fn method_encoding_message() -> Seq<char> {
    "Invalid method name, it is not UTF-8"@
}

/// An atomic number as the native entry point receives it, widened.
pub open spec fn widened_number(x: i32) -> usize {
    x as usize
}

/// What the Fortran-style entry point computes, decoded from its raw
/// arguments. Its spin multiplicity is not read.
pub struct RestArguments {
    /// Number of atoms.
    pub natoms: usize,
    /// Atomic numbers.
    pub numbers: Vec<usize>,
    /// Name of the damping parameters to load.
    pub method: String,
    /// Whether the many-body term is included.
    pub many_body: bool,
    /// Whether the gradient is computed.
    pub eval_grad: bool,
    /// Whether the stress tensor is computed.
    pub eval_sigma: bool,
}

/// Decodes the raw arguments of the entry point: `num` holds the atomic
/// numbers, `method` the bytes of the method name, with no closing zero.
/// The entry point always asks for the many-body term, the gradient and the
/// stress tensor.
pub fn decode_rest_arguments(num: &[i32], method: &[u8]) -> (r: Result<RestArguments, DFTD4Error>)
    ensures
        r is Ok <==> valid_utf8(method@),
        r matches Ok(a) ==> {
            &&& a.natoms == num@.len()
            &&& a.numbers@ == num@.map_values(|x: i32| widened_number(x))
            &&& a.method@ == decode_utf8(method@)
            &&& a.many_body && a.eval_grad && a.eval_sigma
        },
        r matches Err(e) ==> (e matches DFTD4Error::Rust(m) && m@ == method_encoding_message()),
{
    let name = match utf8_text(method) {
        Some(s) => s,
        None => {
            return Err(DFTD4Error::Rust(String::from_str("Invalid method name, it is not UTF-8")));
        },
    };
    let mut numbers: Vec<usize> = Vec::new();
    let mut i: usize = 0;
    while i < num.len()
        invariant
            i <= num@.len(),
            numbers@.len() == i,
            forall|j: int| 0 <= j < i ==> numbers@[j] == widened_number(num@[j]),
        decreases num@.len() - i,
    {
        let x: usize = #[verifier::truncate] (num[i] as usize);
        numbers.push(x);
        i = i + 1;
    }
    assert(numbers@ =~= num@.map_values(|x: i32| widened_number(x)));
    Ok(
        RestArguments {
            natoms: num.len(),
            numbers,
            method: name,
            many_body: true,
            eval_grad: true,
            eval_sigma: true,
        },
    )
}

} // verus!
