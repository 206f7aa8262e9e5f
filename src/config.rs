//! Deployment settings, built once at startup and passed to the pipeline.

use vstd::prelude::*;
use crate::message::MAX_CHANNELS;

verus! {

/// Which channels carry the two axes, and where datagrams come from and go to.
#[derive(Debug, PartialEq, Eq)]
pub struct ForwarderConfig {
    /// Channel number (from 1) that carries the azimuth reading.
    pub azimuth_channel: usize,
    /// Channel number (from 1) that carries the elevation reading.
    pub elevation_channel: usize,
    /// UDP port on which telemetry is received, from any address.
    pub listen_port: u16,
    /// Host to which packets are sent.
    pub dest_host: String,
    /// UDP port to which packets are sent.
    pub dest_port: u16,
}

impl ForwarderConfig {
    /// Both axes read distinct channels that a channel report can carry.
    pub open spec fn wf(&self) -> bool {
        &&& 1 <= self.azimuth_channel <= MAX_CHANNELS
        &&& 1 <= self.elevation_channel <= MAX_CHANNELS
        &&& self.azimuth_channel != self.elevation_channel
    }

    /// The deployed wiring: azimuth on channel 9, elevation on channel 10;
    /// telemetry on port 14551, packets to 192.168.1.14:5050.
    pub fn standard() -> (r: ForwarderConfig)
        ensures
            r.wf(),
            r.azimuth_channel == 9,
            r.elevation_channel == 10,
            r.listen_port == 14551,
            r.dest_port == 5050,
            r.dest_host@ == "192.168.1.14"@,
    {
        ForwarderConfig {
            azimuth_channel: 9,
            elevation_channel: 10,
            listen_port: 14551,
            dest_host: String::from_str("192.168.1.14"),
            dest_port: 5050,
        }
    }
}

} // verus!
