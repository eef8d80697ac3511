use vstd::prelude::*;
use vstd::utf8::encode_utf8;
use crate::error::DFTD4Error;

verus! {

/// Message of a local failure on a method name that holds a zero byte.
pub open spec fn method_name_message() -> Seq<char> {
    "Invalid method name, it holds a null byte"@
}

/// A native D4 dispersion model handle. The native library takes from the
/// structure what it needs when the model is made.
pub struct DFTD4Model {
    ptr: usize,
}

impl DFTD4Model {
    /// Address of the native model.
    pub closed spec fn handle(&self) -> usize {
        self.ptr
    }

    /// The model that a native constructor made, at address `ptr`.
    pub fn from_native(ptr: usize) -> (r: DFTD4Model)
        ensures
            r.handle() == ptr,
    {
        DFTD4Model { ptr }
    }

    /// Address of the native model, to be passed into native calls.
    pub fn native_handle(&self) -> (r: usize)
        ensures
            r == self.handle(),
    {
        self.ptr
    }
}

/// A native damping-parameter handle.
pub struct DFTD4Param {
    ptr: usize,
}

impl DFTD4Param {
    /// Address of the native parameters.
    pub closed spec fn handle(&self) -> usize {
        self.ptr
    }

    /// The parameters that a native constructor made, at address `ptr`.
    pub fn from_native(ptr: usize) -> (r: DFTD4Param)
        ensures
            r.handle() == ptr,
    {
        DFTD4Param { ptr }
    }

    /// Address of the native parameters, to be passed into native calls.
    pub fn native_handle(&self) -> (r: usize)
        ensures
            r == self.handle(),
    {
        self.ptr
    }

    /// The zero-terminated buffer that carries a method name across the
    /// boundary: its UTF-8 bytes and a closing zero. A name that holds a zero
    /// byte itself is refused locally.
    pub fn method_name_buffer(method: &str) -> (r: Result<Vec<u8>, DFTD4Error>)
        ensures
            r is Err <==> encode_utf8(method@).contains(0u8),
            r matches Ok(b) ==> b@ == encode_utf8(method@).push(0u8),
            r matches Err(e) ==> e matches DFTD4Error::Rust(m) && m@ == method_name_message(),
    {
        let bytes = method.as_bytes();
        let mut out: Vec<u8> = Vec::new();
        let mut i: usize = 0;
        while i < bytes.len()
            invariant
                i <= bytes@.len(),
                bytes@ == encode_utf8(method@),
                out@ == bytes@.take(i as int),
                forall|j: int| 0 <= j < i ==> bytes@[j] != 0u8,
            decreases bytes@.len() - i,
        {
            if bytes[i] == 0 {
                assert(bytes@[i as int] == 0u8);
                return Err(DFTD4Error::Rust(String::from_str("Invalid method name, it holds a null byte")));
            }
            out.push(bytes[i]);
            i = i + 1;
            assert(out@ =~= bytes@.take(i as int));
        }
        assert(!bytes@.contains(0u8));
        assert(bytes@.take(i as int) =~= bytes@);
        out.push(0);
        Ok(out)
    }
}

} // verus!
