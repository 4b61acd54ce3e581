//! The byte buffers of the `bytes` crate, as the rest of the library sees them.
//!
//! A `Bytes` is read as the sequence of bytes it holds; the cursor methods of
//! `Buf` take bytes off its front, and a `BytesMut` grows at its end. Nothing
//! in this file is proved: each contract restates what `bytes` documents.

use bytes::{Buf, BufMut, Bytes, BytesMut};
use std::ops::Deref;
use vstd::prelude::*;

verus! {

/// `bytes::Bytes`, an immutable run of bytes that is read from its front;
/// nothing is known of a value but what `bytes_seq` names.
#[verifier::external_type_specification]
#[verifier::external_body]
pub struct ExBytes(bytes::Bytes);

/// `bytes::BytesMut`, a run of bytes that grows at its end; nothing is
/// known of a value but what `bytes_mut_seq` names.
#[verifier::external_type_specification]
#[verifier::external_body]
pub struct ExBytesMut(bytes::BytesMut);

/// The bytes that a `Bytes` holds, from its current position to its end.
pub uninterp spec fn bytes_seq(b: Bytes) -> Seq<u8>;

/// The bytes written so far into a `BytesMut`.
pub uninterp spec fn bytes_mut_seq(b: BytesMut) -> Seq<u8>;

/// The 16-bit unsigned integer whose big-endian representation is `hi lo`.
pub open spec fn be_u16(hi: u8, lo: u8) -> u16 {
    (hi as int * 256 + lo as int) as u16
}

/// The 16-bit two's complement integer whose big-endian representation is `hi lo`.
pub open spec fn be_i16(hi: u8, lo: u8) -> i16 {
    if hi >= 128 {
        (hi as int * 256 + lo as int - 65536) as i16
    } else {
        (hi as int * 256 + lo as int) as i16
    }
}

/// The 32-bit unsigned integer whose big-endian representation is `b0 b1 b2 b3`.
pub open spec fn be_u32(b0: u8, b1: u8, b2: u8, b3: u8) -> u32 {
    (b0 as int * 16777216 + b1 as int * 65536 + b2 as int * 256 + b3 as int) as u32
}

/// The two bytes of `n`, most significant first.
pub open spec fn u16_be_bytes(n: u16) -> Seq<u8> {
    seq![(n / 256) as u8, (n % 256) as u8]
}

/// The four bytes of `n`, most significant first.
pub open spec fn u32_be_bytes(n: u32) -> Seq<u8> {
    seq![
        (n / 16777216) as u8,
        (n / 65536 % 256) as u8,
        (n / 256 % 256) as u8,
        (n % 256) as u8,
    ]
}

/// `Bytes::len`: the number of bytes held.
pub assume_specification[ Bytes::len ](b: &Bytes) -> (n: usize)
    ensures
        n == bytes_seq(*b).len(),
;

/// `Bytes::is_empty`: whether no byte is held.
pub assume_specification[ Bytes::is_empty ](b: &Bytes) -> (e: bool)
    ensures
        e == (bytes_seq(*b).len() == 0),
;

/// `Bytes::split_to`: hands out the first `at` bytes and keeps the rest.
/// It panics when `at` exceeds the length, so that is required.
pub assume_specification[ Bytes::split_to ](b: &mut Bytes, at: usize) -> (head: Bytes)
    requires
        at <= bytes_seq(*old(b)).len(),
    ensures
        bytes_seq(head) == bytes_seq(*old(b)).take(at as int),
        bytes_seq(*final(b)) == bytes_seq(*old(b)).skip(at as int),
;

/// `Bytes::clone`: a second handle on the same bytes.
pub assume_specification[ <Bytes as Clone>::clone ](b: &Bytes) -> (c: Bytes)
    ensures
        bytes_seq(c) == bytes_seq(*b),
;

/// `Bytes::deref`: the held bytes as a slice.
pub assume_specification<'a>[ <Bytes as Deref>::deref ](b: &'a Bytes) -> (s: &'a [u8])
    ensures
        s@ == bytes_seq(*b),
;

/// `Bytes::from(Vec<u8>)`: a buffer holding the bytes of the vector.
pub assume_specification[ <Bytes as From<Vec<u8>>>::from ](v: Vec<u8>) -> (b: Bytes)
    ensures
        bytes_seq(b) == v@,
;

/// `BytesMut::new`: an empty buffer.
pub assume_specification[ BytesMut::new ]() -> (b: BytesMut)
    ensures
        bytes_mut_seq(b) == Seq::<u8>::empty(),
;

/// `BytesMut::extend_from_slice`: appends the slice. Growing the buffer
/// panics when the new length cannot be allocated, hence the bound.
pub assume_specification[ BytesMut::extend_from_slice ](b: &mut BytesMut, extend: &[u8])
    requires
        bytes_mut_seq(*old(b)).len() + extend@.len() <= isize::MAX,
    ensures
        bytes_mut_seq(*final(b)) == bytes_mut_seq(*old(b)) + extend@,
;

/// `BytesMut::freeze`: the written bytes as an immutable `Bytes`.
pub assume_specification[ BytesMut::freeze ](b: BytesMut) -> (f: Bytes)
    ensures
        bytes_seq(f) == bytes_mut_seq(b),
;

/// `Buf::get_u8` on a `Bytes`: takes one byte off the front. It panics on an
/// empty buffer, so one byte is required.
#[verifier::external_body]
pub(crate) fn get_u8(buf: &mut Bytes) -> (v: u8)
    requires
        bytes_seq(*old(buf)).len() >= 1,
    ensures
        v == bytes_seq(*old(buf))[0],
        bytes_seq(*final(buf)) == bytes_seq(*old(buf)).skip(1),
{
    buf.get_u8()
}

/// `Buf::get_u16` on a `Bytes`: takes two bytes off the front and reads them
/// as a big-endian unsigned integer. It panics on fewer than two bytes.
#[verifier::external_body]
pub(crate) fn get_u16(buf: &mut Bytes) -> (v: u16)
    requires
        bytes_seq(*old(buf)).len() >= 2,
    ensures
        v == be_u16(bytes_seq(*old(buf))[0], bytes_seq(*old(buf))[1]),
        bytes_seq(*final(buf)) == bytes_seq(*old(buf)).skip(2),
{
    buf.get_u16()
}

/// `Buf::get_i16` on a `Bytes`: takes two bytes off the front and reads them
/// as a big-endian two's complement integer. It panics on fewer than two bytes.
#[verifier::external_body]
pub(crate) fn get_i16(buf: &mut Bytes) -> (v: i16)
    requires
        bytes_seq(*old(buf)).len() >= 2,
    ensures
        v == be_i16(bytes_seq(*old(buf))[0], bytes_seq(*old(buf))[1]),
        bytes_seq(*final(buf)) == bytes_seq(*old(buf)).skip(2),
{
    buf.get_i16()
}

/// `Buf::get_u32` on a `Bytes`: takes four bytes off the front and reads them
/// as a big-endian unsigned integer. It panics on fewer than four bytes.
#[verifier::external_body]
pub(crate) fn get_u32(buf: &mut Bytes) -> (v: u32)
    requires
        bytes_seq(*old(buf)).len() >= 4,
    ensures
        v == be_u32(
            bytes_seq(*old(buf))[0],
            bytes_seq(*old(buf))[1],
            bytes_seq(*old(buf))[2],
            bytes_seq(*old(buf))[3],
        ),
        bytes_seq(*final(buf)) == bytes_seq(*old(buf)).skip(4),
{
    buf.get_u32()
}

/// `BufMut::put_u16` on a `BytesMut`: appends the two bytes of `n`, most
/// significant first. Growing the buffer panics when the new length cannot be
/// allocated, hence the bound.
#[verifier::external_body]
pub(crate) fn put_u16(buf: &mut BytesMut, n: u16)
    requires
        bytes_mut_seq(*old(buf)).len() + 2 <= isize::MAX,
    ensures
        bytes_mut_seq(*final(buf)) == bytes_mut_seq(*old(buf)) + u16_be_bytes(n),
{
    buf.put_u16(n)
}

/// `BufMut::put_u32` on a `BytesMut`: appends the four bytes of `n`, most
/// significant first. Growing the buffer panics when the new length cannot be
/// allocated, hence the bound.
#[verifier::external_body]
pub(crate) fn put_u32(buf: &mut BytesMut, n: u32)
    requires
        bytes_mut_seq(*old(buf)).len() + 4 <= isize::MAX,
    ensures
        bytes_mut_seq(*final(buf)) == bytes_mut_seq(*old(buf)) + u32_be_bytes(n),
{
    buf.put_u32(n)
}

/// Takes every byte off the buffer and drops it.
pub(crate) fn drain(buf: &mut Bytes)
    ensures
        bytes_seq(*final(buf)).len() == 0,
{
    let n = buf.len();
    let _ = buf.split_to(n);
}

} // verus!
