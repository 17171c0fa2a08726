//! Frames: an opcode and a length, little-endian, then that many bytes of JSON.

use vstd::prelude::*;
use crate::discord_ipc::message::IpcError;
use crate::json::{
    is_plain, json_of, json_read, json_written, read_json, write_json, Json, MAX_NESTING,
};
use crate::wire::{as_unsigned, le32, push_bytes, push_le32, read_signed_le32, signed_le32};

verus! {

pub const OPCODE_HANDSHAKE: i32 = 0;

pub const OPCODE_FRAME: i32 = 1;

pub const OPCODE_CLOSE: i32 = 2;

pub const OPCODE_PING: i32 = 3;

pub const OPCODE_PONG: i32 = 4;

/// How many bytes come before a frame's body.
pub const HEADER_LEN: usize = 8;

/// A frame, byte for byte.
pub open spec fn frame_bytes(opcode: i32, body: Seq<u8>) -> Seq<u8> {
    le32(opcode as int) + le32(body.len() as int) + body
}

/// The frame that carries a JSON value; `None` if the value has no text.
pub open spec fn json_frame(opcode: i32, value: Json) -> Option<Seq<u8>> {
    match json_written(value) {
        Some(body) => Some(frame_bytes(opcode, body)),
        None => None,
    }
}

/// What a frame's first bytes say of the rest.
#[derive(Debug, Clone, Copy, PartialEq, Eq, Structural)]
pub struct FrameHeader {
    pub opcode: i32,
    /// How many bytes of body follow.
    pub len: usize,
}

/// The opcode field of a frame.
pub open spec fn opcode_field(header: Seq<u8>) -> int {
    signed_le32(header.take(4))
}

/// The length field of a frame.
pub open spec fn length_field(header: Seq<u8>) -> int {
    signed_le32(header.subrange(4, 8))
}

proof fn lemma_le32_low_bits(n: int)
    requires
        0 <= n,
    ensures
        le32(n % 0x1_0000_0000) == le32(n),
{
    let q = n / 0x1_0000_0000;
    let r = n % 0x1_0000_0000;
    assert(n == q * 0x1_0000_0000 + r);
    assert(n % 0x100 == r % 0x100);
    assert(n / 0x100 == q * 0x100_0000 + r / 0x100);
    assert((q * 0x100_0000 + r / 0x100) % 0x100 == (r / 0x100) % 0x100);
    assert(n / 0x1_0000 == q * 0x1_0000 + r / 0x1_0000);
    assert((q * 0x1_0000 + r / 0x1_0000) % 0x100 == (r / 0x1_0000) % 0x100);
    assert(n / 0x100_0000 == q * 0x100 + r / 0x100_0000);
    assert((q * 0x100 + r / 0x100_0000) % 0x100 == (r / 0x100_0000) % 0x100);
}

/// Puts a body into a frame.
pub fn encode_frame(opcode: i32, body: &[u8]) -> (r: Vec<u8>)
    ensures
        r@ == frame_bytes(opcode, body@),
{
    let mut frame: Vec<u8> = Vec::new();
    push_le32(&mut frame, as_unsigned(opcode));
    let len: u32 = (body.len() as u64 % 0x1_0000_0000) as u32;
    proof {
        lemma_le32_low_bits(body@.len() as int);
    }
    push_le32(&mut frame, len);
    push_bytes(&mut frame, body);
    assert(frame@ =~= frame_bytes(opcode, body@));
    frame
}

/// Whether reading `frame` gives back an opcode and a value: its header tells
/// the opcode and how many bytes follow, and those read as the value.
pub open spec fn gives_back(frame: Seq<u8>, opcode: i32, value: Json) -> bool {
    &&& frame.len() >= HEADER_LEN
    &&& opcode_field(frame.take(HEADER_LEN as int)) == opcode
    &&& length_field(frame.take(HEADER_LEN as int)) == frame.len() - HEADER_LEN
    &&& json_read(frame.skip(HEADER_LEN as int)) == Some(value)
}

/// Encodes a JSON value and puts it into a frame. Reading the frame gives back
/// opcode and value, if the value is a plain one and its text is short enough
/// for the length field.
pub fn write_frame(opcode: i32, value: &serde_json::Value) -> (r: Result<Vec<u8>, IpcError>)
    ensures
        r is Ok,
        is_plain(json_of(*value), MAX_NESTING as nat) && r->Ok_0@.len() <= HEADER_LEN + i32::MAX
            ==> gives_back(r->Ok_0@, opcode, json_of(*value)),
        match r {
            Ok(frame) => json_frame(opcode, json_of(*value)) == Some(frame@),
            Err(e) => json_frame(opcode, json_of(*value)) is None && e is Encode,
        },
{
    match write_json(value) {
        Some(body) => {
            let frame = encode_frame(opcode, body.as_slice());
            proof {
                if body@.len() <= i32::MAX {
                    law_frame_round_trip(opcode, body@);
                }
            }
            Ok(frame)
        },
        None => Err(IpcError::Encode),
    }
}

/// Reads a frame's header.
pub fn read_header(header: &[u8]) -> (r: Result<FrameHeader, IpcError>)
    requires
        header@.len() == HEADER_LEN,
    ensures
        match r {
            Ok(h) => h.opcode == opcode_field(header@) && h.len == length_field(header@),
            Err(e) => length_field(header@) < 0 && e == IpcError::NegativeLength(
                length_field(header@) as i32,
            ),
        },
{
    let opcode: i32 = read_signed_le32(vstd::slice::slice_subrange(header, 0, 4));
    let len: i32 = read_signed_le32(vstd::slice::slice_subrange(header, 4, 8));
    assert(header@.subrange(0, 4) =~= header@.take(4));
    if len < 0 {
        return Err(IpcError::NegativeLength(len));
    }
    Ok(FrameHeader { opcode, len: len as usize })
}

/// Decodes a frame's body.
pub fn read_body(body: &[u8]) -> (r: Result<serde_json::Value, IpcError>)
    ensures
        match r {
            Ok(value) => json_read(body@) == Some(json_of(value)),
            Err(e) => json_read(body@) is None && e is Decode,
        },
{
    match read_json(body) {
        Some(value) => Ok(value),
        None => Err(IpcError::Decode),
    }
}

/// Reading a frame gives back what was written into it: the header tells the
/// opcode and the body's length, and the body follows unchanged.
pub proof fn law_frame_round_trip(opcode: i32, body: Seq<u8>)
    requires
        body.len() <= i32::MAX,
    ensures
        ({
            let frame = frame_bytes(opcode, body);
            &&& frame.len() == HEADER_LEN + body.len()
            &&& opcode_field(frame.take(HEADER_LEN as int)) == opcode
            &&& length_field(frame.take(HEADER_LEN as int)) == body.len()
            &&& frame.skip(HEADER_LEN as int) == body
        }),
{
    let frame = frame_bytes(opcode, body);
    let header = frame.take(HEADER_LEN as int);
    assert(header.take(4) =~= le32(opcode as int));
    assert(header.subrange(4, 8) =~= le32(body.len() as int));
    assert(frame.skip(HEADER_LEN as int) =~= body);
    crate::wire::law_le32_round_trip(opcode);
    crate::wire::law_le32_round_trip(body.len() as i32);
}

/// Two different frames never look alike: the bytes determine opcode and body.
pub proof fn law_frames_are_distinct(
    opcode1: i32,
    body1: Seq<u8>,
    opcode2: i32,
    body2: Seq<u8>,
)
    requires
        body1.len() <= i32::MAX,
        body2.len() <= i32::MAX,
        frame_bytes(opcode1, body1) == frame_bytes(opcode2, body2),
    ensures
        opcode1 == opcode2,
        body1 == body2,
{
    law_frame_round_trip(opcode1, body1);
    law_frame_round_trip(opcode2, body2);
}

} // verus!
