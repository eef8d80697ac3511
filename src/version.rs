use vstd::prelude::*;
use crate::text::{decimal, decimal_text};

verus! {

/// The version as dotted text, `major.minor.patch`, where a native version
/// integer packs major, minor and patch number as `major * 10000 + minor * 100
/// + patch`.
pub open spec fn version_text(packed: nat) -> Seq<char> {
    decimal(packed / 10000) + "."@ + decimal(packed / 100 % 100) + "."@ + decimal(packed % 100)
}

/// Major, minor and patch number of a packed native version.
pub fn decode_api_version(packed: usize) -> (r: [usize; 3])
    ensures
        r[0] == packed / 10000,
        r[1] == packed / 100 % 100,
        r[2] == packed % 100,
{
    [packed / 10000, packed / 100 % 100, packed % 100]
}

/// A packed native version as dotted text.
pub fn format_api_version(packed: usize) -> (r: String)
    ensures
        r@ == version_text(packed as nat),
{
    let parts = decode_api_version(packed);
    let mut s = decimal_text(parts[0] as u128);
    s.append(".");
    let minor = decimal_text(parts[1] as u128);
    s.append(minor.as_str());
    s.append(".");
    let patch = decimal_text(parts[2] as u128);
    s.append(patch.as_str());
    s
}

} // verus!
