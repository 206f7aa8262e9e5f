//! The outbound packet: azimuth then elevation, each as a big-endian
//! 32-bit signed integer. No header, length or checksum.

use vstd::prelude::*;
use crate::pwm::PwmPair;

verus! {

/// Length in bytes of every outbound packet.
pub const PACKET_LEN: usize = 8;

/// The four bytes of `v` as a 32-bit two's-complement integer,
/// most significant byte first.
pub open spec fn i32_be_bytes(v: int) -> Seq<u8> {
    let u = v % 0x1_0000_0000;
    seq![
        (u / 0x100_0000) as u8,
        (u / 0x1_0000 % 0x100) as u8,
        (u / 0x100 % 0x100) as u8,
        (u % 0x100) as u8,
    ]
}

/// The bytes sent for a pair: each reading widened to `i32`, azimuth first.
pub open spec fn packet_bytes(p: PwmPair) -> Seq<u8> {
    i32_be_bytes(p.azimuth as i32 as int) + i32_be_bytes(p.elevation as i32 as int)
}

/// Appends the big-endian bytes of `v` widened to a 32-bit signed integer.
fn push_i32_be(out: &mut Vec<u8>, v: u16)
    ensures
        final(out)@ == old(out)@ + i32_be_bytes(v as int),
{
    let w: u32 = v as u32;
    out.push((w / 0x100_0000) as u8);
    out.push((w / 0x1_0000 % 0x100) as u8);
    out.push((w / 0x100 % 0x100) as u8);
    out.push((w % 0x100) as u8);
    assert(out@ =~= old(out)@ + i32_be_bytes(v as int));
}

/// Encodes a pair into its 8-byte packet. The encoding is a function of the
/// pair alone, so equal pairs always give identical bytes.
pub fn encode_packet(pair: &PwmPair) -> (r: Vec<u8>)
    ensures
        r@ == packet_bytes(*pair),
        r@.len() == PACKET_LEN,
{
    let mut out: Vec<u8> = Vec::with_capacity(PACKET_LEN);
    push_i32_be(&mut out, pair.azimuth);
    push_i32_be(&mut out, pair.elevation);
    assert(out@ =~= packet_bytes(*pair));
    out
}

} // verus!
