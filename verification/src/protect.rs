//! The two ways of laying a protected message out in buffers.
//!
//! The *segmented* strategy keeps a message as four buffers in a fixed order
//! (header, data, padding, trailer) and lets the mechanism transform the
//! data in place. The *single-blob* strategy keeps one buffer and replaces
//! its contents with what the mechanism returns. The mechanism itself is
//! not called from here: these functions do the buffer work before and
//! after its calls, and their contracts say exactly which bytes end up
//! where.

use crate::buffer::{advance, clear, contents, extend_from_slice, length, resize_to, resized, split_to};
use bytes::BytesMut;
use vstd::prelude::*;

verus! {

/// How a context lays protected messages out.
#[derive(Clone, Copy, Debug, PartialEq, Eq, Structural)]
pub enum Strategy {
    /// Four segments, transformed in place.
    Segmented,
    /// One buffer, replaced wholesale.
    SingleBlob,
}

impl Strategy {
    /// The strategy for a mechanism that does (`true`) or does not (`false`)
    /// support length probing and in-place transforms over segments.
    pub fn select(in_place_supported: bool) -> (s: Strategy)
        ensures
            s == (if in_place_supported { Strategy::Segmented } else { Strategy::SingleBlob }),
    {
        if in_place_supported {
            Strategy::Segmented
        } else {
            Strategy::SingleBlob
        }
    }
}

/// The lengths a mechanism asks for around a given data segment.
#[derive(Clone, Copy, Debug, PartialEq, Eq, Structural)]
pub struct SegmentLengths {
    pub header: usize,
    pub padding: usize,
    pub trailer: usize,
}

/// The wire image of a segmented message: its segments in their fixed order.
pub open spec fn wire_image(header: Seq<u8>, data: Seq<u8>, padding: Seq<u8>, trailer: Seq<u8>) -> Seq<u8> {
    header + data + padding + trailer
}

/// The data segment of a message whose header takes `hdr_len` bytes and
/// whose data takes the `data_len` bytes after it.
pub open spec fn data_segment(msg: Seq<u8>, hdr_len: int, data_len: int) -> Seq<u8> {
    msg.subrange(hdr_len, hdr_len + data_len)
}

/// What is left of a buffer once a message of `len` bytes at its front has
/// been consumed.
pub open spec fn unconsumed(msg: Seq<u8>, len: int) -> Seq<u8> {
    msg.skip(len)
}

/// Whether a message of `len` bytes, with a header of `hdr_len` bytes and
/// data of `data_len` bytes, lies within `msg`.
pub open spec fn well_framed(msg: Seq<u8>, len: int, hdr_len: int, data_len: int) -> bool {
    hdr_len + data_len <= len <= msg.len()
}

/// Segmented wrap, before the transform: gives `header`, `padding` and
/// `trailer` exactly the lengths the mechanism asked for. Bytes that a
/// buffer already held stay at its front; bytes added are zero.
pub fn size_segments(
    lens: SegmentLengths,
    header: &mut BytesMut,
    padding: &mut BytesMut,
    trailer: &mut BytesMut,
)
    ensures
        contents(*final(header)) == resized(contents(*old(header)), lens.header as nat, 0),
        contents(*final(padding)) == resized(contents(*old(padding)), lens.padding as nat, 0),
        contents(*final(trailer)) == resized(contents(*old(trailer)), lens.trailer as nat, 0),
        contents(*final(header)).len() == lens.header,
        contents(*final(padding)).len() == lens.padding,
        contents(*final(trailer)).len() == lens.trailer,
{
    resize_to(header, lens.header, 0);
    resize_to(padding, lens.padding, 0);
    resize_to(trailer, lens.trailer, 0);
}

/// The total length of a segmented message on the wire, or `None` when that
/// length does not fit in `usize`.
pub fn wire_length(
    header: &BytesMut,
    data: &BytesMut,
    padding: &BytesMut,
    trailer: &BytesMut,
) -> (total: Option<usize>)
    ensures
        total == (if wire_image(
            contents(*header),
            contents(*data),
            contents(*padding),
            contents(*trailer),
        ).len() <= usize::MAX {
            Some(
                wire_image(
                    contents(*header),
                    contents(*data),
                    contents(*padding),
                    contents(*trailer),
                ).len() as usize,
            )
        } else {
            None
        }),
{
    let front = match length(header).checked_add(length(data)) {
        Some(n) => n,
        None => return None,
    };
    let middle = match front.checked_add(length(padding)) {
        Some(n) => n,
        None => return None,
    };
    middle.checked_add(length(trailer))
}

/// Segmented unwrap, after the transform: the message occupies the first
/// `len` bytes of `msg`, its header the first `hdr_len` of those and its
/// data the next `data_len`. Returns the data segment and leaves in `msg`
/// only what followed the message.
pub fn extract_data(msg: &mut BytesMut, len: usize, hdr_len: usize, data_len: usize) -> (data: BytesMut)
    requires
        well_framed(contents(*old(msg)), len as int, hdr_len as int, data_len as int),
    ensures
        contents(data) == data_segment(contents(*old(msg)), hdr_len as int, data_len as int),
        contents(*final(msg)) == unconsumed(contents(*old(msg)), len as int),
{
    let ghost before = contents(*msg);
    advance(msg, hdr_len);
    let data = split_to(msg, data_len);
    advance(msg, len - hdr_len - data_len);
    proof {
        assert(contents(data) =~= data_segment(before, hdr_len as int, data_len as int));
        assert(contents(*msg) =~= unconsumed(before, len as int));
    }
    data
}

/// As [`extract_data`], for lengths that have not been checked: returns
/// `None` and leaves `msg` as it was when the lengths do not fit the buffer.
pub fn try_extract_data(
    msg: &mut BytesMut,
    len: usize,
    hdr_len: usize,
    data_len: usize,
) -> (data: Option<BytesMut>)
    ensures
        well_framed(contents(*old(msg)), len as int, hdr_len as int, data_len as int) ==> data is Some
            && contents(data->0) == data_segment(contents(*old(msg)), hdr_len as int, data_len as int)
            && contents(*final(msg)) == unconsumed(contents(*old(msg)), len as int),
        !well_framed(contents(*old(msg)), len as int, hdr_len as int, data_len as int) ==> data is None
            && *final(msg) == *old(msg),
{
    let fits = match hdr_len.checked_add(data_len) {
        Some(inner) => inner <= len && len <= length(msg),
        None => false,
    };
    if fits {
        Some(extract_data(msg, len, hdr_len, data_len))
    } else {
        None
    }
}

/// Single-blob unwrap, before the transform: removes the protected message,
/// the first `len` bytes of `msg`, and returns it.
pub fn take_message(msg: &mut BytesMut, len: usize) -> (token: BytesMut)
    requires
        len <= contents(*old(msg)).len(),
    ensures
        contents(token) == contents(*old(msg)).take(len as int),
        contents(*final(msg)) == unconsumed(contents(*old(msg)), len as int),
{
    split_to(msg, len)
}

/// As [`take_message`], for a length that has not been checked: returns
/// `None` and leaves `msg` as it was when it holds fewer than `len` bytes.
pub fn try_take_message(msg: &mut BytesMut, len: usize) -> (token: Option<BytesMut>)
    ensures
        len <= contents(*old(msg)).len() ==> token is Some
            && contents(token->0) == contents(*old(msg)).take(len as int)
            && contents(*final(msg)) == unconsumed(contents(*old(msg)), len as int),
        len > contents(*old(msg)).len() ==> token is None && *final(msg) == *old(msg),
{
    if len <= length(msg) {
        Some(take_message(msg, len))
    } else {
        None
    }
}

/// Single-blob wrap and unwrap, after the transform: replaces what `data`
/// holds with `output`, the bytes the mechanism returned.
pub fn replace_contents(data: &mut BytesMut, output: &[u8])
    ensures
        contents(*final(data)) == output@,
{
    clear(data);
    proof {
        assert(output@.len() == output.len());
    }
    extend_from_slice(data, output);
    proof {
        assert(contents(*data) =~= output@);
    }
}

/// Segment accounting: when the four segments of a wrapped message are laid
/// end to end in a buffer, followed by anything, then taking the sum of
/// their lengths as the message length recovers exactly the data segment
/// and leaves exactly what followed.
pub proof fn lemma_segment_accounting(
    header: Seq<u8>,
    data: Seq<u8>,
    padding: Seq<u8>,
    trailer: Seq<u8>,
    rest: Seq<u8>,
)
    ensures
        data_segment(
            wire_image(header, data, padding, trailer) + rest,
            header.len() as int,
            data.len() as int,
        ) == data,
        unconsumed(
            wire_image(header, data, padding, trailer) + rest,
            (header.len() + data.len() + padding.len() + trailer.len()) as int,
        ) == rest,
        wire_image(header, data, padding, trailer).len() == header.len() + data.len()
            + padding.len() + trailer.len(),
{
    let wire = wire_image(header, data, padding, trailer) + rest;
    assert(data_segment(wire, header.len() as int, data.len() as int) =~= data);
    assert(unconsumed(wire, (header.len() + data.len() + padding.len() + trailer.len()) as int) =~= rest);
}

/// Sizing keeps the accounting exact: after segments are resized to the
/// lengths the mechanism asked for, the wire length is the sum of those
/// lengths and the data length, whatever the buffers held before.
pub proof fn lemma_sized_wire_length(
    lens: SegmentLengths,
    header: Seq<u8>,
    data: Seq<u8>,
    padding: Seq<u8>,
    trailer: Seq<u8>,
)
    ensures
        wire_image(
            resized(header, lens.header as nat, 0),
            data,
            resized(padding, lens.padding as nat, 0),
            resized(trailer, lens.trailer as nat, 0),
        ).len() == lens.header + data.len() + lens.padding + lens.trailer,
{
}

/// Round trip through the buffers, for both strategies. The mechanism is
/// not part of this library, so it appears here as what it is assumed to
/// be: `seal` and `open` are its in-place transform of a data segment and
/// the inverse, `pack` and `unpack` its whole-message transform and the
/// inverse. Given that each inverse undoes its transform on `message`,
/// wrapping `message`, laying the result at the front of a buffer and
/// unwrapping by the wire length recovers `message` under either strategy,
/// and either leaves exactly what followed the message.
pub proof fn lemma_round_trip(
    message: Seq<u8>,
    header: Seq<u8>,
    padding: Seq<u8>,
    trailer: Seq<u8>,
    rest: Seq<u8>,
    seal: spec_fn(Seq<u8>) -> Seq<u8>,
    open: spec_fn(Seq<u8>) -> Seq<u8>,
    pack: spec_fn(Seq<u8>) -> Seq<u8>,
    unpack: spec_fn(Seq<u8>) -> Seq<u8>,
)
    requires
        seal(message).len() == message.len(),
        open(seal(message)) == message,
        unpack(pack(message)) == message,
    ensures
        open(
            data_segment(
                wire_image(header, seal(message), padding, trailer) + rest,
                header.len() as int,
                message.len() as int,
            ),
        ) == message,
        unconsumed(
            wire_image(header, seal(message), padding, trailer) + rest,
            wire_image(header, seal(message), padding, trailer).len() as int,
        ) == rest,
        unpack((pack(message) + rest).take(pack(message).len() as int)) == message,
        unconsumed(pack(message) + rest, pack(message).len() as int) == rest,
{
    lemma_segment_accounting(header, seal(message), padding, trailer, rest);
    assert((pack(message) + rest).take(pack(message).len() as int) =~= pack(message));
    assert(unconsumed(pack(message) + rest, pack(message).len() as int) =~= rest);
}

/// The two strategies consume a buffer alike: for a message of `len` bytes
/// at the front of `msg`, both leave the same bytes behind, and the
/// single-blob strategy hands the mechanism exactly the bytes among which
/// the segmented strategy finds its data.
pub proof fn lemma_strategies_consume_alike(msg: Seq<u8>, len: int, hdr_len: int, data_len: int)
    requires
        0 <= hdr_len,
        0 <= data_len,
        hdr_len + data_len <= len <= msg.len(),
    ensures
        unconsumed(msg, len) == msg.skip(len),
        msg.take(len) + unconsumed(msg, len) == msg,
        data_segment(msg, hdr_len, data_len) == data_segment(msg.take(len), hdr_len, data_len),
{
    assert(msg.take(len) + unconsumed(msg, len) =~= msg);
    assert(data_segment(msg, hdr_len, data_len) =~= data_segment(msg.take(len), hdr_len, data_len));
}

} // verus!
