//! Decision core of a telemetry bridge that forwards two radio-control
//! channel readings (azimuth and elevation) to an antenna tracker as a
//! fixed 8-byte packet.

pub mod config;
pub mod laws;
pub mod message;
pub mod packet;
pub mod pipeline;
pub mod pwm;
