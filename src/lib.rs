//! Typed, fail-fast boundary over the DFT-D4 dispersion library's handle API.
//!
//! The library decides everything that happens on this side of the native
//! boundary: which array lengths are accepted, how values are marshalled into
//! the native integer width, how big each result buffer is, how the native
//! error object is read back, and how the Fortran-style entry point decodes
//! its arguments. The native calls themselves are made by the caller, with the
//! values this crate hands out.

pub mod compute;
pub mod error;
pub mod model;
pub mod rest_interface;
pub mod structure;
pub mod text;
pub mod version;

pub use compute::{
    get_dispersion_layout, get_pairwise_dispersion_layout, get_properties_layout, DispersionLayout,
    PropertyLayout, STRESS_LEN,
};
pub use error::{DFTD4Error, MESSAGE_BUFFER_LEN};
pub use model::{DFTD4Model, DFTD4Param};
pub use rest_interface::{decode_rest_arguments, RestArguments};
pub use structure::{DFTD4Structure, StructureInput, MAX_NATIVE_ATOMS};
pub use version::{decode_api_version, format_api_version};
