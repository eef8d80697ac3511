use vstd::prelude::*;
use crate::text::{decimal, decimal_text, lossy_text, lossy_utf8, until_nul, c_string_bytes};

verus! {

/// Size of the buffer that the native library writes an error message into.
pub const MESSAGE_BUFFER_LEN: usize = 512;

/// The one failure channel of the library.
#[derive(Debug)]
pub enum DFTD4Error {
    /// A native error object, held by its address.
    C(usize),
    /// A failure found on this side of the boundary, before any native call.
    Rust(String),
}

/// Message of a local failure on an array of the wrong length.
pub open spec fn dimension_message(what: Seq<char>, expected: nat, got: nat) -> Seq<char> {
    "Invalid dimension for "@ + what + ", expected "@ + decimal(expected) + ", got "@ + decimal(got)
}

impl DFTD4Error {
    /// The address handed to a native call: that of the native error object,
    /// or zero (a null pointer) for a local failure.
    pub open spec fn native_address(&self) -> usize {
        match self {
            DFTD4Error::C(p) => *p,
            DFTD4Error::Rust(_) => 0,
        }
    }

    /// Whether an error is recorded, given the status that the native error
    /// object reports. A local failure is always an error.
    pub open spec fn is_set(&self, native_status: i32) -> bool {
        match self {
            DFTD4Error::C(_) => native_status != 0,
            DFTD4Error::Rust(_) => true,
        }
    }

    /// The diagnostic text, given the buffer that the native library filled.
    pub open spec fn message(&self, buffer: Seq<u8>) -> Seq<char> {
        match self {
            DFTD4Error::C(_) => lossy_utf8(until_nul(buffer)),
            DFTD4Error::Rust(m) => m@,
        }
    }

    /// Address of the native error object, to be passed into a native call.
    pub fn get_c_ptr(&mut self) -> (r: usize)
        ensures
            *final(self) == *old(self),
            r == old(self).native_address(),
    {
        match self {
            DFTD4Error::C(p) => *p,
            DFTD4Error::Rust(_) => 0,
        }
    }

    /// Whether an error is recorded; `native_status` is what the native
    /// library's check of this error object returned.
    pub fn check(&self, native_status: i32) -> (r: bool)
        ensures
            r == self.is_set(native_status),
    {
        match self {
            DFTD4Error::C(_) => native_status != 0,
            DFTD4Error::Rust(_) => true,
        }
    }

    /// The diagnostic message; `buffer` is what the native library wrote when
    /// asked for the message of this error object.
    pub fn get_message(&self, buffer: &[u8]) -> (r: String)
        ensures
            r@ == self.message(buffer@),
    {
        match self {
            DFTD4Error::C(_) => {
                let bytes = c_string_bytes(buffer);
                lossy_text(bytes.as_slice())
            },
            DFTD4Error::Rust(m) => m.clone(),
        }
    }

    /// Debug rendering: the message behind a fixed prefix, or a note that no
    /// error is recorded.
    pub fn debug_text(&self, native_status: i32, buffer: &[u8]) -> (r: String)
        ensures
            self.is_set(native_status) ==> r@ == "DFTD4Error: "@ + self.message(buffer@),
            !self.is_set(native_status) ==> r@ == "DFTD4Error: No error"@,
    {
        if self.check(native_status) {
            let mut s = String::from_str("DFTD4Error: ");
            let m = self.get_message(buffer);
            s.append(m.as_str());
            s
        } else {
            String::from_str("DFTD4Error: No error")
        }
    }

    /// Display rendering: the message behind a fixed prefix, or nothing when
    /// no error is recorded.
    pub fn display_text(&self, native_status: i32, buffer: &[u8]) -> (r: String)
        ensures
            self.is_set(native_status) ==> r@ == "DFTD4Error: "@ + self.message(buffer@),
            !self.is_set(native_status) ==> r@ == Seq::<char>::empty(),
    {
        if self.check(native_status) {
            let mut s = String::from_str("DFTD4Error: ");
            let m = self.get_message(buffer);
            s.append(m.as_str());
            s
        } else {
            String::new()
        }
    }

    /// A local failure on an array of the wrong length.
    pub(crate) fn dimension_mismatch(what: &str, expected: u128, got: usize) -> (r: DFTD4Error)
        ensures
            r matches DFTD4Error::Rust(m) && m@ == dimension_message(what@, expected as nat, got as nat),
    {
        let mut s = String::from_str("Invalid dimension for ");
        s.append(what);
        s.append(", expected ");
        let e = decimal_text(expected);
        s.append(e.as_str());
        s.append(", got ");
        let g = decimal_text(got as u128);
        s.append(g.as_str());
        DFTD4Error::Rust(s)
    }
}

} // verus!
