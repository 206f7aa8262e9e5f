//! What the bridge guarantees, stated over the specifications of the
//! pipeline and proved.

use vstd::prelude::*;
use crate::config::ForwarderConfig;
use crate::message::{DecodeError, InboundMessage, RcChannels};
use crate::packet::{i32_be_bytes, packet_bytes};
use crate::pipeline::{extracted, output_of};
use crate::pwm::{valid_pwm, PwmPair};

verus! {

/// The packets sent, in order, for a stream of receive outcomes.
pub open spec fn sent_over(
    cfg: ForwarderConfig,
    events: Seq<Result<InboundMessage, DecodeError>>,
) -> Seq<Seq<u8>>
    decreases events.len(),
{
    if events.len() == 0 {
        Seq::empty()
    } else {
        let rest = sent_over(cfg, events.drop_last());
        match output_of(cfg, events.last()) {
            Some(bytes) => rest.push(bytes),
            None => rest,
        }
    }
}

/// A channel report whose two configured readings `az` and `el` both lie in
/// the valid range is forwarded as the big-endian `i32` bytes of `az`
/// followed by those of `el`.
pub proof fn valid_pair_is_forwarded(cfg: ForwarderConfig, rc: RcChannels, az: u16, el: u16)
    requires
        rc.reading(cfg.azimuth_channel as int) == Some(az),
        rc.reading(cfg.elevation_channel as int) == Some(el),
        valid_pwm(az as int),
        valid_pwm(el as int),
    ensures
        output_of(cfg, Ok(InboundMessage::RcChannels(rc)))
            == Some(i32_be_bytes(az as int) + i32_be_bytes(el as int)),
{
}

/// A channel report is forwarded if and only if it carries both configured
/// channels and both readings are valid; a pair with any reading outside
/// the range (the no-signal and unset sentinels included) sends nothing.
pub proof fn forwarded_iff_both_valid(cfg: ForwarderConfig, rc: RcChannels)
    ensures
        output_of(cfg, Ok(InboundMessage::RcChannels(rc))) is Some <==> {
            &&& extracted(cfg, rc) is Some
            &&& valid_pwm(extracted(cfg, rc)->0.azimuth as int)
            &&& valid_pwm(extracted(cfg, rc)->0.elevation as int)
        },
{
}

/// The four bytes of a 16-bit reading widened to `i32`.
proof fn u16_be_bytes(v: u16)
    ensures
        i32_be_bytes(v as int) == seq![0u8, 0u8, (v / 256) as u8, (v % 256) as u8],
{
    assert(v as int % 0x1_0000_0000 == v as int);
    assert(i32_be_bytes(v as int) =~= seq![0u8, 0u8, (v / 256) as u8, (v % 256) as u8]);
}

/// A 16-bit value is its high byte times 256 plus its low byte.
proof fn split_u16(v: u16)
    ensures
        v as int == 256 * ((v / 256) as u8 as int) + (v % 256) as u8 as int,
{
    assert(v as int == 256 * (v as int / 256) + v as int % 256) by (nonlinear_arith);
}

/// Encoding is a function of the pair alone, and no two pairs share a
/// packet: two encodings are byte-identical exactly when the pairs are equal.
pub proof fn packet_determined_by_pair(p: PwmPair, q: PwmPair)
    ensures
        packet_bytes(p) == packet_bytes(q) <==> p == q,
{
    u16_be_bytes(p.azimuth);
    u16_be_bytes(p.elevation);
    u16_be_bytes(q.azimuth);
    u16_be_bytes(q.elevation);
    if packet_bytes(p) == packet_bytes(q) {
        assert(packet_bytes(p)[2] == packet_bytes(q)[2]);
        assert(packet_bytes(p)[3] == packet_bytes(q)[3]);
        assert(packet_bytes(p)[6] == packet_bytes(q)[6]);
        assert(packet_bytes(p)[7] == packet_bytes(q)[7]);
        split_u16(p.azimuth);
        split_u16(p.elevation);
        split_u16(q.azimuth);
        split_u16(q.elevation);
    }
}

/// Messages of any kind other than a channel report never produce a packet.
pub proof fn other_messages_send_nothing(cfg: ForwarderConfig, msg: InboundMessage)
    requires
        !(msg is RcChannels),
    ensures
        output_of(cfg, Ok(msg)) is None,
{
}

/// The packets of a stream split at any point are those of each part.
proof fn sent_over_append(
    cfg: ForwarderConfig,
    a: Seq<Result<InboundMessage, DecodeError>>,
    b: Seq<Result<InboundMessage, DecodeError>>,
)
    ensures
        sent_over(cfg, a + b) == sent_over(cfg, a) + sent_over(cfg, b),
    decreases b.len(),
{
    if b.len() == 0 {
        assert(a + b =~= a);
        assert(sent_over(cfg, a) + sent_over(cfg, b) =~= sent_over(cfg, a));
    } else {
        assert((a + b).drop_last() =~= a + b.drop_last());
        sent_over_append(cfg, a, b.drop_last());
        match output_of(cfg, b.last()) {
            Some(bytes) => {
                assert(sent_over(cfg, a) + sent_over(cfg, b.drop_last()).push(bytes)
                    =~= (sent_over(cfg, a) + sent_over(cfg, b.drop_last())).push(bytes));
            },
            None => {},
        }
    }
}

/// A datagram that fails to decode sends nothing and leaves what the
/// datagrams around it send unchanged.
pub proof fn decode_failure_is_isolated(
    cfg: ForwarderConfig,
    before: Seq<Result<InboundMessage, DecodeError>>,
    e: DecodeError,
    after: Seq<Result<InboundMessage, DecodeError>>,
)
    ensures
        sent_over(cfg, before.push(Err(e)) + after) == sent_over(cfg, before) + sent_over(cfg, after),
{
    sent_over_append(cfg, before.push(Err(e)), after);
    assert(before.push(Err(e)).drop_last() =~= before);
}

} // verus!
