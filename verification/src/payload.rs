//! The counter payload carried by every instruction: eight bytes holding an
//! unsigned 64-bit counter, least significant byte first.

use vstd::prelude::*;

verus! {

/// Number of bytes in a counter payload.
pub const COUNTER_LEN: usize = 8;

/// The number that eight bytes spell when read least significant byte first.
/// Only the first eight positions of `bytes` are read.
pub open spec fn le_u64(bytes: Seq<u8>) -> nat
    recommends
        bytes.len() >= 8,
{
    (bytes[0] as nat) + (bytes[1] as nat) * 0x100 + (bytes[2] as nat) * 0x1_0000 + (bytes[3] as nat)
        * 0x100_0000 + (bytes[4] as nat) * 0x1_0000_0000 + (bytes[5] as nat) * 0x100_0000_0000 + (
    bytes[6] as nat) * 0x1_0000_0000_0000 + (bytes[7] as nat) * 0x100_0000_0000_0000
}

/// The eight bytes that spell `value`, least significant byte first.
pub open spec fn le_bytes(value: u64) -> Seq<u8> {
    seq![
        (value % 0x100) as u8,
        (value / 0x100 % 0x100) as u8,
        (value / 0x1_0000 % 0x100) as u8,
        (value / 0x100_0000 % 0x100) as u8,
        (value / 0x1_0000_0000 % 0x100) as u8,
        (value / 0x100_0000_0000 % 0x100) as u8,
        (value / 0x1_0000_0000_0000 % 0x100) as u8,
        (value / 0x100_0000_0000_0000 % 0x100) as u8,
    ]
}

/// The counter an instruction payload stands for: the little-endian reading
/// of its first eight bytes, or zero when it has fewer than eight.
pub open spec fn counter_of(payload: Seq<u8>) -> nat {
    if payload.len() >= 8 {
        le_u64(payload)
    } else {
        0
    }
}

/// Reads the counter out of an instruction payload of any length.
pub fn decode_counter(payload: &[u8]) -> (counter: u64)
    ensures
        counter == counter_of(payload@),
        payload@.len() < 8 ==> counter == 0,
        payload@.len() >= 8 ==> counter == le_u64(payload@.subrange(0, 8)),
{
    if payload.len() < COUNTER_LEN {
        return 0;
    }
    let b0: u64 = payload[0] as u64;
    let b1: u64 = payload[1] as u64;
    let b2: u64 = payload[2] as u64;
    let b3: u64 = payload[3] as u64;
    let b4: u64 = payload[4] as u64;
    let b5: u64 = payload[5] as u64;
    let b6: u64 = payload[6] as u64;
    let b7: u64 = payload[7] as u64;
    b0 + b1 * 0x100 + b2 * 0x1_0000 + b3 * 0x100_0000 + b4 * 0x1_0000_0000 + b5 * 0x100_0000_0000
        + b6 * 0x1_0000_0000_0000 + b7 * 0x100_0000_0000_0000
}

/// Writes `counter` as an eight-byte payload.
pub fn encode_counter(counter: u64) -> (payload: Vec<u8>)
    ensures
        payload@ == le_bytes(counter),
        payload@.len() == 8,
        counter_of(payload@) == counter,
{
    let mut payload: Vec<u8> = Vec::with_capacity(COUNTER_LEN);
    payload.push((counter % 0x100) as u8);
    payload.push((counter / 0x100 % 0x100) as u8);
    payload.push((counter / 0x1_0000 % 0x100) as u8);
    payload.push((counter / 0x100_0000 % 0x100) as u8);
    payload.push((counter / 0x1_0000_0000 % 0x100) as u8);
    payload.push((counter / 0x100_0000_0000 % 0x100) as u8);
    payload.push((counter / 0x1_0000_0000_0000 % 0x100) as u8);
    payload.push((counter / 0x100_0000_0000_0000 % 0x100) as u8);
    proof {
        assert(payload@ =~= le_bytes(counter));
        lemma_le_round_trip(counter);
    }
    payload
}

/// Reading back what `le_bytes` wrote gives the number that was written.
pub proof fn lemma_le_round_trip(value: u64)
    ensures
        le_bytes(value).len() == 8,
        le_u64(le_bytes(value)) == value,
        counter_of(le_bytes(value)) == value,
{
    assert(value == (value % 0x100) + (value / 0x100 % 0x100) * 0x100 + (value / 0x1_0000 % 0x100)
        * 0x1_0000 + (value / 0x100_0000 % 0x100) * 0x100_0000 + (value / 0x1_0000_0000 % 0x100)
        * 0x1_0000_0000 + (value / 0x100_0000_0000 % 0x100) * 0x100_0000_0000 + (value
        / 0x1_0000_0000_0000 % 0x100) * 0x1_0000_0000_0000 + (value / 0x100_0000_0000_0000 % 0x100)
        * 0x100_0000_0000_0000) by (bit_vector);
}

/// Bytes after the eighth never change the counter.
pub proof fn lemma_trailing_bytes_ignored(payload: Seq<u8>, trailing: Seq<u8>)
    requires
        payload.len() >= 8,
    ensures
        counter_of(payload + trailing) == counter_of(payload),
        counter_of(payload) == le_u64(payload.subrange(0, 8)),
{
}

/// A payload shorter than eight bytes stands for zero.
pub proof fn lemma_short_payload_is_zero(payload: Seq<u8>)
    requires
        payload.len() < 8,
    ensures
        counter_of(payload) == 0,
{
}

} // verus!
