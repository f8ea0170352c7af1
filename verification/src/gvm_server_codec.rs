//! The framing of the client/server protocol.
//!
//! A frame is a header byte, then for every frame but `GetNodeCount` the
//! light id or count, then for statuses and commands their wire bytes.  The
//! decoder reads from the front of a receive buffer and removes what it read;
//! on a frame that is not complete yet it leaves the buffer as it is.
use vstd::prelude::*;
use bytes::{Buf, BufMut, BytesMut};
use crate::errors::GvmServerError;
use crate::gvm_server_event::GvmServerEvent;
use crate::node_status::{GvmNodeStatus, zero_status};
use crate::wire::{
    lemma_command_of_bytes, lemma_command_roundtrip, lemma_status_of_bytes, lemma_status_roundtrip,
    bincode_to_io_error, command_bytes, command_from_bytes, command_from_wire, command_to_wire,
    status_bytes, status_from_bytes, status_from_wire, status_to_wire,
};

verus! {

/// Header of `GetNodeCount`.
pub const GET_NODE_COUNT: u8 = 0x01;

/// Header of `NodeCount`.
pub const NODE_COUNT: u8 = 0x02;

/// Header of `GetNodeStatus`.
pub const GET_NODE_STATUS: u8 = 0x03;

/// Header of `NodeStatus`.
pub const NODE_STATUS: u8 = 0x04;

/// Header of `NodeCommand`.
pub const NODE_COMMAND: u8 = 0x05;

/// `bytes::BytesMut`, the buffer frames are read from and written to.
#[verifier::external_type_specification]
#[verifier::external_body]
pub struct ExBytesMut(BytesMut);

/// The bytes a buffer holds.
pub uninterp spec fn bytes_contents(buf: BytesMut) -> Seq<u8>;

/// `BytesMut::len`: the number of bytes the buffer holds.
#[verifier::external_body]
fn bytes_len(buf: &BytesMut) -> (res: usize)
    ensures
        res == bytes_contents(*buf).len(),
{
    buf.len()
}

/// Indexing a `BytesMut`: the byte at position `i`.
#[verifier::external_body]
fn bytes_at(buf: &BytesMut, i: usize) -> (res: u8)
    requires
        i < bytes_contents(*buf).len(),
    ensures
        res == bytes_contents(*buf)[i as int],
{
    buf[i]
}

/// Slicing a `BytesMut` from `from` to its end.
#[verifier::external_body]
fn bytes_tail(buf: &BytesMut, from: usize) -> (res: &[u8])
    requires
        from <= bytes_contents(*buf).len(),
    ensures
        res@ == bytes_contents(*buf).subrange(from as int, bytes_contents(*buf).len() as int),
{
    &buf[from..]
}

/// `Buf::advance` on a `BytesMut`: drops the first `n` bytes.
#[verifier::external_body]
fn bytes_advance(buf: &mut BytesMut, n: usize)
    requires
        n <= bytes_contents(*old(buf)).len(),
    ensures
        bytes_contents(*final(buf)) == bytes_contents(*old(buf)).subrange(
            n as int,
            bytes_contents(*old(buf)).len() as int,
        ),
{
    buf.advance(n)
}

/// `BufMut::put_u8` on a `BytesMut`: appends one byte.
#[verifier::external_body]
fn bytes_put_u8(buf: &mut BytesMut, v: u8)
    ensures
        bytes_contents(*final(buf)) == bytes_contents(*old(buf)).push(v),
{
    buf.put_u8(v)
}

/// `BufMut::put_slice` on a `BytesMut`: appends the bytes of `s`.
#[verifier::external_body]
fn bytes_put_slice(buf: &mut BytesMut, s: &[u8])
    ensures
        bytes_contents(*final(buf)) == bytes_contents(*old(buf)) + s@,
{
    buf.put_slice(s)
}

/// The bytes of a frame.
pub open spec fn event_bytes(e: GvmServerEvent) -> Seq<u8> {
    match e {
        GvmServerEvent::GetNodeCount => seq![GET_NODE_COUNT],
        GvmServerEvent::NodeCount(count) => seq![NODE_COUNT, count],
        GvmServerEvent::GetNodeStatus(uid) => seq![GET_NODE_STATUS, uid],
        GvmServerEvent::NodeStatus(uid, status) => seq![NODE_STATUS, uid] + status_bytes(status),
        GvmServerEvent::NodeCommand(uid, command) => seq![NODE_COMMAND, uid] + command_bytes(command),
    }
}

/// Whether `b` is one of the five frame headers.
pub open spec fn is_frame_header(b: u8) -> bool {
    b == GET_NODE_COUNT || b == NODE_COUNT || b == GET_NODE_STATUS || b == NODE_STATUS || b
        == NODE_COMMAND
}

/// The number of bytes a status takes on the wire.
pub open spec fn status_size() -> int {
    status_bytes(zero_status()).len() as int
}

/// What the decoder makes of the bytes `s` at the front of a buffer: an
/// error, `None` while the frame is incomplete, or the frame and the number of
/// bytes it takes.  A status frame is waited for until the buffer holds more
/// bytes than a status takes, a command frame until it holds more than three.
pub open spec fn decoded_frame(s: Seq<u8>) -> Result<Option<(GvmServerEvent, int)>, ()> {
    if s.len() == 0 {
        Ok(None)
    } else if s[0] == GET_NODE_COUNT {
        Ok(Some((GvmServerEvent::GetNodeCount, 1)))
    } else if s[0] == NODE_COUNT {
        if s.len() <= 1 {
            Ok(None)
        } else {
            Ok(Some((GvmServerEvent::NodeCount(s[1]), 2)))
        }
    } else if s[0] == GET_NODE_STATUS {
        if s.len() <= 1 {
            Ok(None)
        } else {
            Ok(Some((GvmServerEvent::GetNodeStatus(s[1]), 2)))
        }
    } else if s[0] == NODE_STATUS {
        if s.len() <= status_size() {
            Ok(None)
        } else {
            match status_from_bytes(s.subrange(2, s.len() as int)) {
                Some(status) => Ok(Some((GvmServerEvent::NodeStatus(s[1], status), 2 + status_size()))),
                None => Err(()),
            }
        }
    } else {
        if s.len() <= 3 {
            Ok(None)
        } else {
            match command_from_bytes(s.subrange(2, s.len() as int)) {
                Some((command, n)) => Ok(Some((GvmServerEvent::NodeCommand(s[1], command), 2 + n))),
                None => Err(()),
            }
        }
    }
}

/// Whether `src` can be handed to `GvmServerCodec::decode`: it is empty, or
/// its first byte is one of the five frame headers.
pub fn starts_with_frame_header(src: &BytesMut) -> (res: bool)
    ensures
        res == (bytes_contents(*src).len() > 0 ==> is_frame_header(bytes_contents(*src)[0])),
{
    if bytes_len(src) == 0 {
        true
    } else {
        let head = bytes_at(src, 0);
        head == GET_NODE_COUNT || head == NODE_COUNT || head == GET_NODE_STATUS || head == NODE_STATUS
            || head == NODE_COMMAND
    }
}

/// Encoder and decoder of the client/server frames.
pub struct GvmServerCodec {}

impl GvmServerCodec {
    pub fn new() -> (res: GvmServerCodec) {
        GvmServerCodec {  }
    }

    /// Appends the bytes of `item` to `dst`.
    pub fn encode(&mut self, item: GvmServerEvent, dst: &mut BytesMut) -> (res: Result<(), GvmServerError>)
        ensures
            res is Ok,
            bytes_contents(*final(dst)) == bytes_contents(*old(dst)) + event_bytes(item),
    {
        match item {
            GvmServerEvent::GetNodeCount => {
                bytes_put_u8(dst, GET_NODE_COUNT);
            },
            GvmServerEvent::NodeCount(count) => {
                bytes_put_u8(dst, NODE_COUNT);
                bytes_put_u8(dst, count);
            },
            GvmServerEvent::GetNodeStatus(uid) => {
                bytes_put_u8(dst, GET_NODE_STATUS);
                bytes_put_u8(dst, uid);
            },
            GvmServerEvent::NodeStatus(uid, node_status) => {
                bytes_put_u8(dst, NODE_STATUS);
                bytes_put_u8(dst, uid);
                let serialized = match status_to_wire(&node_status) {
                    Ok(b) => b,
                    Err(e) => return Err(GvmServerError::IO(bincode_to_io_error(e))),
                };
                bytes_put_slice(dst, serialized.as_slice());
            },
            GvmServerEvent::NodeCommand(uid, node_command) => {
                bytes_put_u8(dst, NODE_COMMAND);
                bytes_put_u8(dst, uid);
                let serialized = match command_to_wire(&node_command) {
                    Ok(b) => b,
                    Err(e) => return Err(GvmServerError::IO(bincode_to_io_error(e))),
                };
                bytes_put_slice(dst, serialized.as_slice());
            },
        }
        assert(bytes_contents(*dst) =~= bytes_contents(*old(dst)) + event_bytes(item));
        Ok(())
    }

    /// Reads one frame from the front of `src` and removes its bytes; gives
    /// `None`, and leaves `src` as it is, while the frame is incomplete.
    pub fn decode(&mut self, src: &mut BytesMut) -> (res: Result<Option<GvmServerEvent>, GvmServerError>)
        requires
            bytes_contents(*old(src)).len() > 0 ==> is_frame_header(bytes_contents(*old(src))[0]),
        ensures
            match decoded_frame(bytes_contents(*old(src))) {
                Ok(Some((e, n))) => res matches Ok(Some(d)) && d == e && bytes_contents(*final(src))
                    == bytes_contents(*old(src)).subrange(n, bytes_contents(*old(src)).len() as int),
                Ok(None) => res matches Ok(None) && bytes_contents(*final(src)) == bytes_contents(
                    *old(src),
                ),
                Err(()) => res matches Err(GvmServerError::ParsingError) && bytes_contents(*final(src))
                    == bytes_contents(*old(src)),
            },
    {
        let ghost s = bytes_contents(*src);
        let mut i: usize = 0;
        let len = bytes_len(src);
        if len == 0 {
            return Ok(None);
        }
        let head = bytes_at(src, i);
        if head == GET_NODE_COUNT {
            bytes_advance(src, i + 1);
            Ok(Some(GvmServerEvent::GetNodeCount))
        } else if head == NODE_COUNT {
            if len <= 1 {
                return Ok(None);
            }
            i += 1;
            let count = bytes_at(src, i);
            bytes_advance(src, i + 1);
            Ok(Some(GvmServerEvent::NodeCount(count)))
        } else if head == GET_NODE_STATUS {
            if len <= 1 {
                return Ok(None);
            }
            i += 1;
            let uid = bytes_at(src, i);
            bytes_advance(src, i + 1);
            Ok(Some(GvmServerEvent::GetNodeStatus(uid)))
        } else if head == NODE_STATUS {
            let empty = GvmNodeStatus::new();
            let max_length = match status_to_wire(&empty) {
                Ok(b) => b.len(),
                Err(e) => return Err(GvmServerError::IO(bincode_to_io_error(e))),
            };
            if len <= max_length {
                return Ok(None);
            }
            i += 1;
            let uid = bytes_at(src, i);
            i += 1;
            match status_from_wire(bytes_tail(src, i)) {
                Some((node_status, n)) => {
                    bytes_advance(src, i + n);
                    Ok(Some(GvmServerEvent::NodeStatus(uid, node_status)))
                },
                None => Err(GvmServerError::ParsingError),
            }
        } else {
            if len <= 3 {
                return Ok(None);
            }
            i += 1;
            let uid = bytes_at(src, i);
            i += 1;
            match command_from_wire(bytes_tail(src, i)) {
                Some((node_command, n)) => {
                    bytes_advance(src, i + n);
                    Ok(Some(GvmServerEvent::NodeCommand(uid, node_command)))
                },
                None => Err(GvmServerError::ParsingError),
            }
        }
    }
}

/// Decoding the bytes of a frame, whatever follows them in the buffer, gives
/// back that frame and takes exactly its bytes.
pub proof fn lemma_decode_encoded(e: GvmServerEvent, rest: Seq<u8>)
    ensures
        decoded_frame(event_bytes(e) + rest) == Ok::<Option<(GvmServerEvent, int)>, ()>(
            Some((e, event_bytes(e).len() as int)),
        ),
{
    let s = event_bytes(e) + rest;
    lemma_status_roundtrip(zero_status(), Seq::empty());
    match e {
        GvmServerEvent::NodeStatus(uid, status) => {
            lemma_status_roundtrip(status, rest);
            assert(s.subrange(2, s.len() as int) =~= status_bytes(status) + rest);
        },
        GvmServerEvent::NodeCommand(uid, command) => {
            lemma_command_roundtrip(command, rest);
            assert(s.subrange(2, s.len() as int) =~= command_bytes(command) + rest);
            assert(command_bytes(command).len() >= 5);
        },
        _ => {},
    }
}

/// Whatever the buffer holds, a frame that the decoder reads is made of
/// exactly the bytes it takes from the front of the buffer: the decoder
/// never reports a frame out of incomplete or foreign bytes.
pub proof fn lemma_decoded_bytes_encode_frame(s: Seq<u8>)
    requires
        s.len() > 0 ==> is_frame_header(s[0]),
    ensures
        decoded_frame(s) matches Ok(Some((e, n))) ==> n <= s.len() && s.subrange(0, n) == event_bytes(e),
{
    lemma_status_roundtrip(zero_status(), Seq::empty());
    if s.len() > 1 {
        let tail = s.subrange(2, s.len() as int);
        if s[0] == GET_NODE_COUNT {
            assert(s.subrange(0, 1) =~= seq![GET_NODE_COUNT]);
        } else if s[0] == NODE_COUNT || s[0] == GET_NODE_STATUS {
            assert(s.subrange(0, 2) =~= seq![s[0], s[1]]);
        } else if s[0] == NODE_STATUS {
            if s.len() > status_size() && status_from_bytes(tail) is Some {
                lemma_status_of_bytes(tail);
                assert(s.subrange(0, 10) =~= seq![s[0], s[1]] + tail.subrange(0, 8));
            }
        } else {
            if s.len() > 3 && command_from_bytes(tail) is Some {
                lemma_command_of_bytes(tail);
                let n = command_from_bytes(tail).unwrap().1;
                assert(s.subrange(0, 2 + n) =~= seq![s[0], s[1]] + tail.subrange(0, n));
            }
        }
    } else if s.len() == 1 && s[0] == GET_NODE_COUNT {
        assert(s.subrange(0, 1) =~= seq![GET_NODE_COUNT]);
    }
}

} // verus!
