//! The byte buffers that messages travel in.
//!
//! A message buffer is a `bytes::BytesMut`. Verus cannot look inside one, so
//! this module names what a buffer holds and states, for each buffer
//! operation the library relies on, how that operation changes the contents.
//! None of these statements is proved: they restate the documentation and
//! source of the `bytes` crate.

use bytes::BytesMut;
use vstd::prelude::*;

verus! {

#[verifier::external_type_specification]
#[verifier::external_body]
pub struct ExBytesMut(bytes::BytesMut);

/// The bytes a buffer currently holds, first to last.
pub uninterp spec fn contents(b: BytesMut) -> Seq<u8>;

/// What `s` becomes when it is resized to exactly `n` elements, new
/// elements being `fill`.
pub open spec fn resized(s: Seq<u8>, n: nat, fill: u8) -> Seq<u8> {
    if n <= s.len() {
        s.take(n as int)
    } else {
        s + Seq::new((n - s.len()) as nat, |i: int| fill)
    }
}

/// `BytesMut::len`: the number of bytes held.
#[verifier::external_body]
pub(crate) fn length(b: &BytesMut) -> (n: usize)
    ensures
        n == contents(*b).len(),
{
    b.len()
}

/// `BytesMut::resize`: truncates to `new_len`, or extends to `new_len` with
/// copies of `fill`; the bytes kept are unchanged.
#[verifier::external_body]
pub(crate) fn resize_to(b: &mut BytesMut, new_len: usize, fill: u8)
    ensures
        contents(*final(b)) == resized(contents(*old(b)), new_len as nat, fill),
{
    b.resize(new_len, fill)
}

/// `Buf::advance` on a `BytesMut`: drops the first `n` bytes. The call
/// panics when `n` exceeds the length, which the precondition rules out.
#[verifier::external_body]
pub(crate) fn advance(b: &mut BytesMut, n: usize)
    requires
        n <= contents(*old(b)).len(),
    ensures
        contents(*final(b)) == contents(*old(b)).skip(n as int),
{
    bytes::Buf::advance(b, n)
}

/// `BytesMut::split_to`: removes the first `n` bytes and returns them as a
/// buffer of their own. The call panics when `n` exceeds the length, which
/// the precondition rules out.
#[verifier::external_body]
pub(crate) fn split_to(b: &mut BytesMut, n: usize) -> (front: BytesMut)
    requires
        n <= contents(*old(b)).len(),
    ensures
        contents(front) == contents(*old(b)).take(n as int),
        contents(*final(b)) == contents(*old(b)).skip(n as int),
{
    b.split_to(n)
}

/// `BytesMut::clear`: removes every byte.
#[verifier::external_body]
pub(crate) fn clear(b: &mut BytesMut)
    ensures
        contents(*final(b)) == Seq::<u8>::empty(),
{
    b.clear()
}

/// `BytesMut::extend_from_slice`: appends `extra`. The call panics when the
/// new length overflows `usize`, which the precondition rules out.
#[verifier::external_body]
pub(crate) fn extend_from_slice(b: &mut BytesMut, extra: &[u8])
    requires
        contents(*old(b)).len() + extra@.len() <= usize::MAX,
    ensures
        contents(*final(b)) == contents(*old(b)) + extra@,
{
    b.extend_from_slice(extra)
}

} // verus!
