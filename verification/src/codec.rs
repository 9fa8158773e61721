//! Wire encodings: the 8-byte multi-touch record and the packed notification
//! payload words. Both layouts are an ABI surface read by untrusted
//! processes, so they are pinned down exactly.

use vstd::prelude::*;

use crate::events::{status_code, touch_status_to_number, TouchEvent};

verus! {

/// The value of an optional byte field on the wire: absent encodes as 0.
pub open spec fn byte_or_zero(v: Option<u8>) -> u8 {
    match v {
        Option::Some(b) => b,
        Option::None => 0,
    }
}

/// The 8-byte record of one touch event:
/// id, status code, x high byte, x low byte, y high byte, y low byte,
/// size (0 if absent), pressure (0 if absent).
pub open spec fn record_bytes(e: TouchEvent) -> Seq<u8> {
    seq![
        e.id,
        status_code(e.status) as u8,
        (e.x as int / 256) as u8,
        (e.x as int % 256) as u8,
        (e.y as int / 256) as u8,
        (e.y as int % 256) as u8,
        byte_or_zero(e.size),
        byte_or_zero(e.pressure),
    ]
}

/// The packed position word of a single-touch notification: `x << 16 | y`.
pub open spec fn packed_xy(x: u16, y: u16) -> int {
    x * 0x10000 + y
}

/// The packed size/pressure word of a single-touch notification:
/// `pressure << 16 | size`, absent fields encoded as 0.
pub open spec fn packed_size_pressure(size: Option<u8>, pressure: Option<u8>) -> int {
    byte_or_zero(pressure) * 0x10000 + byte_or_zero(size)
}

/// Pack a display-space position into one notification word.
pub fn pack_xy(x: u16, y: u16) -> (r: usize)
    ensures
        r == packed_xy(x, y),
{
    (x as usize) * 0x10000 + (y as usize)
}

/// Pack the optional size and pressure fields into one notification word.
pub fn pack_size_pressure(size: Option<u8>, pressure: Option<u8>) -> (r: usize)
    ensures
        r == packed_size_pressure(size, pressure),
{
    let s: usize = match size {
        Option::Some(v) => v as usize,
        Option::None => 0,
    };
    let p: usize = match pressure {
        Option::Some(v) => v as usize,
        Option::None => 0,
    };
    p * 0x10000 + s
}

/// Encode one touch event as its 8-byte record.
pub fn encode_record(e: &TouchEvent) -> (r: Vec<u8>)
    ensures
        r@ == record_bytes(*e),
{
    let mut r: Vec<u8> = Vec::new();
    r.push(e.id);
    r.push(touch_status_to_number(&e.status) as u8);
    r.push((e.x / 256) as u8);
    r.push((e.x % 256) as u8);
    r.push((e.y / 256) as u8);
    r.push((e.y % 256) as u8);
    r.push(match e.size {
        Option::Some(v) => v,
        Option::None => 0,
    });
    r.push(match e.pressure {
        Option::Some(v) => v,
        Option::None => 0,
    });
    proof {
        assert(r@ =~= record_bytes(*e));
    }
    r
}

/// Write the 8-byte record of `e` at record slot `index` of `buf`,
/// leaving every byte outside the slot unchanged.
pub fn write_record(buf: &mut Vec<u8>, index: usize, e: &TouchEvent)
    requires
        8 * (index + 1) <= old(buf)@.len(),
    ensures
        final(buf)@.len() == old(buf)@.len(),
        forall|j: int|
            0 <= j < old(buf)@.len() ==> final(buf)@[j] == (if 8 * index <= j < 8 * index + 8 {
                record_bytes(*e)[j - 8 * index]
            } else {
                old(buf)@[j]
            }),
{
    let n = buf.len();
    proof {
        assert(8 * (index + 1) <= n);
    }
    let offset = index * 8;
    buf[offset] = e.id;
    buf[offset + 1] = touch_status_to_number(&e.status) as u8;
    buf[offset + 2] = (e.x / 256) as u8;
    buf[offset + 3] = (e.x % 256) as u8;
    buf[offset + 4] = (e.y / 256) as u8;
    buf[offset + 5] = (e.y % 256) as u8;
    buf[offset + 6] = match e.size {
        Option::Some(v) => v,
        Option::None => 0,
    };
    buf[offset + 7] = match e.pressure {
        Option::Some(v) => v,
        Option::None => 0,
    };
}

/// The plain fields read back out of one 8-byte record.
#[derive(Clone, Copy, Debug, PartialEq, Eq, Structural)]
pub struct DecodedTouch {
    pub id: u8,
    pub status: u8,
    pub x: u16,
    pub y: u16,
    pub size: u8,
    pub pressure: u8,
}

/// Decode the 8-byte record at record slot `index` of `buf`.
pub fn decode_record(buf: &Vec<u8>, index: usize) -> (r: DecodedTouch)
    requires
        8 * (index + 1) <= buf@.len(),
    ensures
        r.id == buf@[8 * index],
        r.status == buf@[8 * index + 1],
        r.x == buf@[8 * index + 2] * 256 + buf@[8 * index + 3],
        r.y == buf@[8 * index + 4] * 256 + buf@[8 * index + 5],
        r.size == buf@[8 * index + 6],
        r.pressure == buf@[8 * index + 7],
{
    let n = buf.len();
    proof {
        assert(8 * (index + 1) <= n);
    }
    let offset = index * 8;
    DecodedTouch {
        id: buf[offset],
        status: buf[offset + 1],
        x: (buf[offset + 2] as u16) * 256 + (buf[offset + 3] as u16),
        y: (buf[offset + 4] as u16) * 256 + (buf[offset + 5] as u16),
        size: buf[offset + 6],
        pressure: buf[offset + 7],
    }
}

/// Round trip: decoding the record of an event recovers its id, status code,
/// coordinates, and size/pressure (absent fields as 0).
pub proof fn lemma_record_round_trip(e: TouchEvent)
    ensures
        record_bytes(e).len() == 8,
        record_bytes(e)[0] == e.id,
        record_bytes(e)[1] == status_code(e.status),
        record_bytes(e)[2] * 256 + record_bytes(e)[3] == e.x,
        record_bytes(e)[4] * 256 + record_bytes(e)[5] == e.y,
        record_bytes(e)[6] == byte_or_zero(e.size),
        record_bytes(e)[7] == byte_or_zero(e.pressure),
{
    assert(e.x as int / 256 * 256 + e.x as int % 256 == e.x);
    assert(e.y as int / 256 * 256 + e.y as int % 256 == e.y);
}

} // verus!
