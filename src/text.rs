use vstd::prelude::*;
use vstd::utf8::{decode_utf8, valid_utf8};

verus! {

/// The character of a decimal digit.
pub open spec fn digit_char(d: nat) -> char {
    (d + 48) as char
}

/// The decimal digits of `n`, most significant first, without leading zeros.
pub open spec fn decimal(n: nat) -> Seq<char>
    decreases n,
{
    if n < 10 {
        seq![digit_char(n)]
    } else {
        decimal(n / 10).push(digit_char(n % 10))
    }
}

/// The bytes of a C string held in `b`: everything before the first zero
/// byte, or all of `b` when it holds no zero byte.
pub open spec fn until_nul(b: Seq<u8>) -> Seq<u8>
    decreases b.len(),
{
    if b.len() == 0 || b[0] == 0 {
        Seq::empty()
    } else {
        seq![b[0]] + until_nul(b.drop_first())
    }
}

/// What lossy UTF-8 decoding makes of a byte string.
pub uninterp spec fn lossy_utf8(b: Seq<u8>) -> Seq<char>;

/// Relies on `ToString` for `u128`, that is its `Display` impl: the decimal
/// digits, with no sign, padding or separators.
#[verifier::external_body]
pub(crate) fn decimal_text(n: u128) -> (r: String)
    ensures
        r@ == decimal(n as nat),
{
    n.to_string()
}

/// Relies on `String::from_utf8_lossy`: the decoded text, each invalid
/// sequence replaced; it depends on the bytes alone.
#[verifier::external_body]
pub(crate) fn lossy_text(b: &[u8]) -> (r: String)
    ensures
        r@ == lossy_utf8(b@),
{
    String::from_utf8_lossy(b).into_owned()
}

/// Relies on `std::str::from_utf8`: it accepts exactly the valid UTF-8 byte
/// strings, and decodes them.
#[verifier::external_body]
pub(crate) fn utf8_text(b: &[u8]) -> (r: Option<String>)
    ensures
        r is Some <==> valid_utf8(b@),
        r matches Some(s) ==> s@ == decode_utf8(b@),
{
    match std::str::from_utf8(b) {
        Ok(s) => Some(s.to_string()),
        Err(_) => None,
    }
}

proof fn lemma_until_nul_prefix(b: Seq<u8>, k: int)
    requires
        0 <= k <= b.len(),
        forall|i: int| 0 <= i < k ==> b[i] != 0,
        k == b.len() || b[k] == 0,
    ensures
        until_nul(b) == b.take(k),
    decreases k,
{
    if k == 0 {
        assert(b.take(0) =~= Seq::<u8>::empty());
    } else {
        let t = b.drop_first();
        assert forall|i: int| 0 <= i < k - 1 implies t[i] != 0 by {
            assert(t[i] == b[i + 1]);
        }
        if k - 1 < t.len() {
            assert(t[k - 1] == b[k]);
        }
        lemma_until_nul_prefix(t, k - 1);
        assert(b.take(k) =~= seq![b[0]] + t.take(k - 1));
    }
}

/// The C string held in `buffer`: its bytes up to the first zero byte.
pub fn c_string_bytes(buffer: &[u8]) -> (r: Vec<u8>)
    ensures
        r@ == until_nul(buffer@),
{
    let mut r: Vec<u8> = Vec::new();
    let mut i: usize = 0;
    while i < buffer.len() && buffer[i] != 0
        invariant
            0 <= i <= buffer@.len(),
            r@ == buffer@.take(i as int),
            forall|j: int| 0 <= j < i ==> buffer@[j] != 0,
        decreases buffer@.len() - i,
    {
        r.push(buffer[i]);
        i = i + 1;
        assert(r@ =~= buffer@.take(i as int));
    }
    proof {
        lemma_until_nul_prefix(buffer@, i as int);
    }
    r
}

} // verus!
