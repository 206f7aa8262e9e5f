//! One step of the bridge: from what was received to what is sent.
//!
//! The step is a pure function of the configuration and the received
//! message; the caller receives, performs the returned action, and goes on
//! with the next datagram whatever happened.

use vstd::prelude::*;
use crate::config::ForwarderConfig;
use crate::message::{DecodeError, InboundMessage, RcChannels};
use crate::packet::{encode_packet, packet_bytes};
use crate::pwm::PwmPair;

verus! {

/// Why a received datagram produced no packet.
#[derive(Clone, Copy, Debug, PartialEq, Eq, Structural)]
pub enum SkipReason {
    /// The datagram could not be decoded.
    DecodeFailed(DecodeError),
    /// The message is not a channel report.
    NotChannelReport,
    /// The channel report does not carry one of the configured channels.
    ChannelMissing,
    /// At least one of the two readings is out of range.
    InvalidPair(PwmPair),
}

/// What to do with one received datagram.
#[derive(Debug, PartialEq, Eq)]
pub enum Action {
    /// Send these bytes, as one datagram, to the configured destination.
    Send(Vec<u8>),
    /// Send nothing.
    Skip(SkipReason),
}

/// The azimuth and elevation readings of a report, if it carries both
/// configured channels.
pub open spec fn extracted(cfg: ForwarderConfig, rc: RcChannels) -> Option<PwmPair> {
    match (rc.reading(cfg.azimuth_channel as int), rc.reading(cfg.elevation_channel as int)) {
        (Some(a), Some(e)) => Some(PwmPair { azimuth: a, elevation: e }),
        _ => None,
    }
}

/// The decision for a decoded message: the pair to forward, or why nothing
/// is forwarded.
pub open spec fn decide(cfg: ForwarderConfig, msg: InboundMessage) -> Result<PwmPair, SkipReason> {
    match msg {
        InboundMessage::RcChannels(rc) => match extracted(cfg, rc) {
            Some(p) => if p.is_valid() {
                Ok(p)
            } else {
                Err(SkipReason::InvalidPair(p))
            },
            None => Err(SkipReason::ChannelMissing),
        },
        InboundMessage::Other { .. } => Err(SkipReason::NotChannelReport),
    }
}

/// The decision for whatever the receive step handed over.
pub open spec fn decide_received(
    cfg: ForwarderConfig,
    received: Result<InboundMessage, DecodeError>,
) -> Result<PwmPair, SkipReason> {
    match received {
        Ok(msg) => decide(cfg, msg),
        Err(e) => Err(SkipReason::DecodeFailed(e)),
    }
}

/// An action carries out a decision: a packet of exactly the chosen pair,
/// or a skip for exactly the given reason.
pub open spec fn carries_out(a: Action, d: Result<PwmPair, SkipReason>) -> bool {
    match (a, d) {
        (Action::Send(bytes), Ok(p)) => bytes@ == packet_bytes(p),
        (Action::Skip(s), Err(reason)) => s == reason,
        _ => false,
    }
}

/// The bytes sent for one received datagram, if any.
pub open spec fn output_of(
    cfg: ForwarderConfig,
    received: Result<InboundMessage, DecodeError>,
) -> Option<Seq<u8>> {
    match decide_received(cfg, received) {
        Ok(p) => Some(packet_bytes(p)),
        Err(_) => None,
    }
}

/// Reads the configured azimuth and elevation channels of a report.
pub fn extract_pair(cfg: &ForwarderConfig, rc: &RcChannels) -> (r: Option<PwmPair>)
    ensures
        r == extracted(*cfg, *rc),
{
    match (rc.channel(cfg.azimuth_channel), rc.channel(cfg.elevation_channel)) {
        (Some(a), Some(e)) => Some(PwmPair::new(a, e)),
        _ => None,
    }
}

/// Handles one decoded message: only a channel report whose two readings
/// are both valid yields a packet.
pub fn process_message(cfg: &ForwarderConfig, msg: &InboundMessage) -> (r: Action)
    ensures
        carries_out(r, decide(*cfg, *msg)),
{
    match msg {
        InboundMessage::RcChannels(rc) => match extract_pair(cfg, rc) {
            Some(pair) => {
                if pair.both_valid() {
                    Action::Send(encode_packet(&pair))
                } else {
                    Action::Skip(SkipReason::InvalidPair(pair))
                }
            },
            None => Action::Skip(SkipReason::ChannelMissing),
        },
        InboundMessage::Other { .. } => Action::Skip(SkipReason::NotChannelReport),
    }
}

/// Handles the outcome of one receive: a decode failure is skipped like any
/// other message that yields no packet.
pub fn process_received(
    cfg: &ForwarderConfig,
    received: &Result<InboundMessage, DecodeError>,
) -> (r: Action)
    ensures
        carries_out(r, decide_received(*cfg, *received)),
{
    match received {
        Ok(msg) => process_message(cfg, msg),
        Err(e) => Action::Skip(SkipReason::DecodeFailed(*e)),
    }
}

} // verus!
