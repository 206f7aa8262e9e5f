//! Inbound telemetry messages, as far as the bridge reads them.

use vstd::prelude::*;

verus! {

/// Highest channel number that a channel report carries.
pub const MAX_CHANNELS: usize = 18;

/// A channel report: the raw pulse width of each radio-control channel,
/// channel 1 first.
#[derive(Debug, PartialEq, Eq)]
pub struct RcChannels {
    pub raw: Vec<u16>,
}

impl RcChannels {
    pub fn new(raw: Vec<u16>) -> (r: RcChannels)
        ensures
            r.raw@ == raw@,
    {
        RcChannels { raw }
    }

    /// The reading of channel `channel` (numbered from 1), if the report
    /// carries that channel.
    pub open spec fn reading(&self, channel: int) -> Option<u16> {
        if 1 <= channel <= self.raw@.len() {
            Some(self.raw@[channel - 1])
        } else {
            None
        }
    }

    /// Returns the reading of channel `channel` (numbered from 1), or `None`
    /// when the report has no such channel.
    pub fn channel(&self, channel: usize) -> (r: Option<u16>)
        ensures
            r == self.reading(channel as int),
    {
        if channel >= 1 && channel <= self.raw.len() {
            Some(self.raw[channel - 1])
        } else {
            None
        }
    }
}

/// A decoded telemetry message: a channel report, or any other kind,
/// known only by its message id.
#[derive(Debug, PartialEq, Eq)]
pub enum InboundMessage {
    RcChannels(RcChannels),
    Other { message_id: u32 },
}

/// Why an inbound datagram could not be decoded.
#[derive(Clone, Copy, Debug, PartialEq, Eq, Structural)]
pub enum DecodeError {
    /// Reading from the link failed.
    Io,
    /// The frame was malformed, failed its checksum, or is of an unknown
    /// message or protocol version.
    Parse,
}

} // verus!
