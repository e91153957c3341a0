//! Wire format of an event: a header made of the event type and the total
//! length, followed by the parameters, each behind its own length.
//!
//! All integers are little-endian. The header is six bytes: the type in two
//! and the length of the whole event in four. A parameter is its length in
//! two bytes followed by that many bytes; an empty parameter is the length
//! zero alone.

use vstd::prelude::*;

verus! {

/// Size in bytes of an event header.
pub const HEADER_SIZE: usize = 6;

/// Size in bytes of the length that precedes each parameter.
pub const PARAM_LEN_SIZE: usize = 2;

/// Largest number of bytes that one parameter can hold.
pub const MAX_PARAM_SIZE: usize = 0xffff;

/// The kind of event that a probe emits.
#[derive(Clone, Copy, Debug, PartialEq, Eq, Structural)]
pub enum EventType {
    /// A file was renamed.
    Renameat,
}

impl EventType {
    /// Code of the event type on the wire. Zero is kept for a scratch region
    /// that holds no event yet.
    pub open spec fn code(self) -> u16 {
        match self {
            EventType::Renameat => 1,
        }
    }

    /// Returns the code of the event type on the wire.
    pub fn to_u16(self) -> (code: u16)
        ensures
            code == self.code(),
    {
        match self {
            EventType::Renameat => 1,
        }
    }
}

/// The two bytes of `x`, lowest first.
pub open spec fn le16(x: u16) -> Seq<u8> {
    seq![(x % 0x100) as u8, (x / 0x100) as u8]
}

/// The four bytes of `x`, lowest first.
pub open spec fn le32(x: u32) -> Seq<u8> {
    seq![
        (x % 0x100) as u8,
        (x / 0x100 % 0x100) as u8,
        (x / 0x1_0000 % 0x100) as u8,
        (x / 0x100_0000) as u8,
    ]
}

/// The eight bytes of `x`, lowest first.
pub open spec fn le64(x: u64) -> Seq<u8> {
    seq![
        (x % 0x100) as u8,
        (x / 0x100 % 0x100) as u8,
        (x / 0x1_0000 % 0x100) as u8,
        (x / 0x100_0000 % 0x100) as u8,
        (x / 0x1_0000_0000 % 0x100) as u8,
        (x / 0x100_0000_0000 % 0x100) as u8,
        (x / 0x1_0000_0000_0000 % 0x100) as u8,
        (x / 0x100_0000_0000_0000) as u8,
    ]
}

/// The unsigned number with the same 64 bits as `x` in two's complement.
pub open spec fn twos_complement(x: i64) -> u64 {
    if x >= 0 {
        x as u64
    } else {
        (x + 0x1_0000_0000_0000_0000) as u64
    }
}

/// Payload of a signed 64-bit parameter.
pub open spec fn i64_payload(x: i64) -> Seq<u8> {
    le64(twos_complement(x))
}

/// Payload of an unsigned 32-bit parameter.
pub open spec fn u32_payload(x: u32) -> Seq<u8> {
    le32(x)
}

/// The header of an event of type `event_type` whose length field holds `len`.
pub open spec fn header_bytes(event_type: u16, len: u32) -> Seq<u8> {
    le16(event_type) + le32(len)
}

/// One parameter on the wire: the length of the payload, then the payload.
pub open spec fn param_bytes(payload: Seq<u8>) -> Seq<u8> {
    le16(payload.len() as u16) + payload
}

/// The parameters of an event on the wire, one after the other.
pub open spec fn params_bytes(params: Seq<Seq<u8>>) -> Seq<u8>
    decreases params.len(),
{
    if params.len() == 0 {
        Seq::empty()
    } else {
        params_bytes(params.drop_last()) + param_bytes(params.last())
    }
}

/// A record in progress: a header whose length is still zero, then the
/// parameters written so far.
pub open spec fn open_record(event_type: u16, params: Seq<Seq<u8>>) -> Seq<u8> {
    header_bytes(event_type, 0) + params_bytes(params)
}

/// A finished event: the header with the length of the whole event, then the
/// parameters.
pub open spec fn event_bytes(event_type: u16, params: Seq<Seq<u8>>) -> Seq<u8> {
    header_bytes(event_type, (HEADER_SIZE + params_bytes(params).len()) as u32) + params_bytes(
        params,
    )
}

/// Appends the two bytes of `x` to `out`.
pub fn put_le16(out: &mut Vec<u8>, x: u16)
    ensures
        final(out)@ == old(out)@ + le16(x),
{
    out.push((x % 0x100) as u8);
    out.push((x / 0x100) as u8);
}

/// Appends the four bytes of `x` to `out`.
pub fn put_le32(out: &mut Vec<u8>, x: u32)
    ensures
        final(out)@ == old(out)@ + le32(x),
{
    out.push((x % 0x100) as u8);
    out.push((x / 0x100 % 0x100) as u8);
    out.push((x / 0x1_0000 % 0x100) as u8);
    out.push((x / 0x100_0000) as u8);
}

/// Appends the eight bytes of `x` to `out`.
pub fn put_le64(out: &mut Vec<u8>, x: u64)
    ensures
        final(out)@ == old(out)@ + le64(x),
{
    out.push((x % 0x100) as u8);
    out.push((x / 0x100 % 0x100) as u8);
    out.push((x / 0x1_0000 % 0x100) as u8);
    out.push((x / 0x100_0000 % 0x100) as u8);
    out.push((x / 0x1_0000_0000 % 0x100) as u8);
    out.push((x / 0x100_0000_0000 % 0x100) as u8);
    out.push((x / 0x1_0000_0000_0000 % 0x100) as u8);
    out.push((x / 0x100_0000_0000_0000) as u8);
}

/// Appends the eight bytes of `x` in two's complement to `out`.
pub fn put_i64(out: &mut Vec<u8>, x: i64)
    ensures
        final(out)@ == old(out)@ + i64_payload(x),
{
    assert(x as u64 == twos_complement(x)) by (bit_vector);
    put_le64(out, x as u64);
}

/// The number whose eight bytes, lowest first, are `bytes`.
pub open spec fn from_le64(bytes: Seq<u8>) -> int {
    bytes[0] + 0x100 * bytes[1] + 0x1_0000 * bytes[2] + 0x100_0000 * bytes[3] + 0x1_0000_0000
        * bytes[4] + 0x100_0000_0000 * bytes[5] + 0x1_0000_0000_0000 * bytes[6]
        + 0x100_0000_0000_0000 * bytes[7]
}

/// An unsigned number can be read back from its eight bytes.
pub proof fn lemma_from_le64(x: u64)
    ensures
        from_le64(le64(x)) == x,
{
    assert(x == (x % 0x100) + 0x100 * (x / 0x100 % 0x100) + 0x1_0000 * (x / 0x1_0000 % 0x100)
        + 0x100_0000 * (x / 0x100_0000 % 0x100) + 0x1_0000_0000 * (x / 0x1_0000_0000 % 0x100)
        + 0x100_0000_0000 * (x / 0x100_0000_0000 % 0x100) + 0x1_0000_0000_0000 * (x
        / 0x1_0000_0000_0000 % 0x100) + 0x100_0000_0000_0000 * (x / 0x100_0000_0000_0000))
        by (bit_vector);
}

/// A signed number can be read back from its payload: two numbers with the
/// same payload are the same number.
pub proof fn lemma_i64_payload_is_injective(a: i64, b: i64)
    requires
        i64_payload(a) == i64_payload(b),
    ensures
        a == b,
{
    lemma_from_le64(twos_complement(a));
    lemma_from_le64(twos_complement(b));
}

/// Adding a parameter to a list adds its bytes behind those of the list.
pub proof fn lemma_params_bytes_push(params: Seq<Seq<u8>>, payload: Seq<u8>)
    ensures
        params_bytes(params.push(payload)) == params_bytes(params) + param_bytes(payload),
{
    assert(params.push(payload).drop_last() =~= params);
}

/// Every parameter takes at least the two bytes of its length.
pub proof fn lemma_params_bytes_len(params: Seq<Seq<u8>>)
    ensures
        params_bytes(params).len() >= PARAM_LEN_SIZE * params.len(),
    decreases params.len(),
{
    if params.len() > 0 {
        lemma_params_bytes_len(params.drop_last());
    }
}

} // verus!
