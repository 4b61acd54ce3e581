//! Text fields: zero-terminated names inside fixed-length fields.

use crate::buffer::bytes_seq;
use bytes::Bytes;
use std::ops::Deref;
use std::string::FromUtf8Error;
use vstd::prelude::*;
use vstd::slice::{slice_subrange, slice_to_vec};
use vstd::utf8::{decode_utf8, valid_utf8};

verus! {

/// `std::string::FromUtf8Error`, carried along as it comes.
#[verifier::external_type_specification]
#[verifier::external_body]
pub struct ExFromUtf8Error(std::string::FromUtf8Error);

/// `String::from_utf8`: succeeds exactly on well-formed UTF-8, and the string
/// then holds the characters that the bytes encode.
pub assume_specification[ String::from_utf8 ](v: Vec<u8>) -> (r: Result<String, FromUtf8Error>)
    ensures
        r is Ok <==> valid_utf8(v@),
        r matches Ok(s) ==> s@ == decode_utf8(v@),
;

/// Index of the first zero byte of `s`, or its length where it holds none.
pub open spec fn nul_position(s: Seq<u8>) -> int
    decreases s.len(),
{
    if s.len() == 0 || s[0] == 0 {
        0
    } else {
        1 + nul_position(s.drop_first())
    }
}

/// The text bytes of a field: what stands before its first zero byte.
pub open spec fn c_str(s: Seq<u8>) -> Seq<u8> {
    s.take(nul_position(s))
}

/// `nul_position` is within the field, no byte before it is zero, and it is
/// either the end of the field or the place of a zero byte.
pub proof fn lemma_nul_position(s: Seq<u8>)
    ensures
        0 <= nul_position(s) <= s.len(),
        forall|i: int| 0 <= i < nul_position(s) ==> s[i] != 0,
        nul_position(s) == s.len() || s[nul_position(s)] == 0,
    decreases s.len(),
{
    if s.len() == 0 || s[0] == 0 {
    } else {
        let t = s.drop_first();
        lemma_nul_position(t);
        assert forall|i: int| 0 <= i < nul_position(s) implies s[i] != 0 by {
            if i > 0 {
                assert(s[i] == t[i - 1]);
            }
        }
    }
}

/// The only index with the properties of `lemma_nul_position` is
/// `nul_position` itself.
pub proof fn lemma_nul_position_unique(s: Seq<u8>, n: int)
    requires
        0 <= n <= s.len(),
        forall|i: int| 0 <= i < n ==> s[i] != 0,
        n == s.len() || s[n] == 0,
    ensures
        nul_position(s) == n,
    decreases s.len(),
{
    if s.len() == 0 || s[0] == 0 {
    } else {
        let t = s.drop_first();
        assert forall|i: int| 0 <= i < n - 1 implies t[i] != 0 by {
            assert(t[i] == s[i + 1]);
        }
        lemma_nul_position_unique(t, n - 1);
    }
}

/// Reads `data` as a zero-terminated text field: the bytes before the first
/// zero byte, as UTF-8. A field that starts with a zero byte holds the empty
/// text. The buffer is left as it was.
pub fn parse_str(data: &mut Bytes) -> (r: Result<Option<String>, FromUtf8Error>)
    ensures
        bytes_seq(*final(data)) == bytes_seq(*old(data)),
        r is Ok <==> valid_utf8(c_str(bytes_seq(*old(data)))),
        r matches Ok(text) ==> text matches Some(s) && s@ == decode_utf8(
            c_str(bytes_seq(*old(data))),
        ),
{
    let view: &Bytes = data;
    let bytes: &[u8] = view.deref();
    let mut n: usize = 0;
    while n < bytes.len() && bytes[n] != 0
        invariant
            n <= bytes@.len(),
            forall|i: int| 0 <= i < n ==> bytes@[i] != 0,
        decreases bytes@.len() - n,
    {
        n += 1;
    }
    proof {
        lemma_nul_position_unique(bytes@, n as int);
    }
    let text = slice_to_vec(slice_subrange(bytes, 0, n));
    match String::from_utf8(text) {
        Ok(s) => Ok(Some(s)),
        Err(e) => Err(e),
    }
}

} // verus!
