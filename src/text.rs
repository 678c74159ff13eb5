//! Bounded, nul-terminated text in fixed-size buffers filled by the driver.
use vstd::prelude::*;
use vstd::utf8::*;

use crate::error::D3xxError;

verus! {

/// `n` is the position of the first nul byte of `b`.
pub open spec fn is_first_nul(b: Seq<u8>, n: int) -> bool {
    &&& 0 <= n < b.len()
    &&& b[n] == 0
    &&& forall|i: int| 0 <= i < n ==> b[i] != 0
}

/// Whether `b` holds a nul byte at all.
pub open spec fn has_nul(b: Seq<u8>) -> bool {
    exists|n: int| 0 <= n < b.len() && b[n] == 0
}

/// The bytes of `b` before its first nul byte, if it has one.
pub open spec fn c_text(b: Seq<u8>) -> Option<Seq<u8>> {
    if has_nul(b) {
        let n = choose|n: int| is_first_nul(b, n);
        Some(b.subrange(0, n))
    } else {
        None
    }
}

/// Whether `b` holds nul-terminated text that is valid UTF-8.
pub open spec fn is_valid_c_text(b: Seq<u8>) -> bool {
    c_text(b) matches Some(t) && valid_utf8(t)
}

/// The first nul byte of a buffer is where the text ends.
proof fn lemma_first_nul(b: Seq<u8>, n: int)
    requires
        is_first_nul(b, n),
    ensures
        has_nul(b),
        c_text(b) == Some(b.subrange(0, n)),
{
    let m = choose|m: int| is_first_nul(b, m);
    assert(is_first_nul(b, m));
    if m < n {
        assert(b[m] != 0);
    }
    if n < m {
        assert(b[n] != 0);
    }
}

/// Relies on `String::from_utf8`: it succeeds exactly on valid UTF-8, and the
/// string it returns holds the given bytes.
#[verifier::external_body]
fn string_from_utf8(bytes: Vec<u8>) -> (r: Option<String>)
    ensures
        r is Some <==> valid_utf8(bytes@),
        r matches Some(s) ==> encode_utf8(s@) == bytes@,
{
    String::from_utf8(bytes).ok()
}

/// Decodes the text in a fixed-size buffer: the bytes before the first nul,
/// as UTF-8. A buffer without a nul byte, or whose text is not UTF-8, is a
/// decode failure (`OtherError`); nothing is read past the buffer's end.
pub fn decode_c_text(buf: &[u8]) -> (r: Result<String, D3xxError>)
    ensures
        r is Ok <==> is_valid_c_text(buf@),
        r matches Ok(s) ==> c_text(buf@) == Some(encode_utf8(s@)),
        r matches Err(e) ==> e == D3xxError::OtherError,
{
    let mut n: usize = 0;
    while n < buf.len() && buf[n] != 0
        invariant
            n <= buf@.len(),
            forall|i: int| 0 <= i < n ==> buf@[i] != 0,
        decreases buf@.len() - n,
    {
        n = n + 1;
    }
    if n == buf.len() {
        assert(!has_nul(buf@)) by {
            if has_nul(buf@) {
                let k = choose|k: int| 0 <= k < buf@.len() && buf@[k] == 0;
                assert(buf@[k] != 0);
            }
        }
        return Err(D3xxError::OtherError);
    }
    proof {
        lemma_first_nul(buf@, n as int);
    }
    let mut text: Vec<u8> = Vec::new();
    let mut i: usize = 0;
    while i < n
        invariant
            n < buf@.len(),
            i <= n,
            text@ == buf@.subrange(0, i as int),
        decreases n - i,
    {
        text.push(buf[i]);
        i = i + 1;
        assert(text@ =~= buf@.subrange(0, i as int));
    }
    match string_from_utf8(text) {
        Some(s) => Ok(s),
        None => Err(D3xxError::OtherError),
    }
}

} // verus!
