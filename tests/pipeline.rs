use pwm_forwarder::config::ForwarderConfig;
use pwm_forwarder::message::{DecodeError, InboundMessage, RcChannels};
use pwm_forwarder::packet::{encode_packet, PACKET_LEN};
use pwm_forwarder::pipeline::{extract_pair, process_message, process_received, Action, SkipReason};
use pwm_forwarder::pwm::{is_valid_pwm, pwm_status, PwmPair, PwmStatus};

/// A channel report with channel 9 = `az`, channel 10 = `el`, the rest idle.
fn report(az: u16, el: u16) -> InboundMessage {
    let mut raw = vec![1500u16; 18];
    raw[8] = az;
    raw[9] = el;
    InboundMessage::RcChannels(RcChannels::new(raw))
}

fn sent(action: &Action) -> Option<Vec<u8>> {
    match action {
        Action::Send(bytes) => Some(bytes.clone()),
        Action::Skip(_) => None,
    }
}

#[test]
fn valid_range_bounds() {
    assert!(is_valid_pwm(1000));
    assert!(is_valid_pwm(2000));
    assert!(is_valid_pwm(1500));
    assert!(!is_valid_pwm(999));
    assert!(!is_valid_pwm(2001));
    assert!(!is_valid_pwm(0));
    assert!(!is_valid_pwm(65535));
}

#[test]
fn status_names_sentinels() {
    assert_eq!(pwm_status(1200), PwmStatus::Valid);
    assert_eq!(pwm_status(0), PwmStatus::NoSignal);
    assert_eq!(pwm_status(65535), PwmStatus::Unset);
    assert_eq!(pwm_status(999), PwmStatus::OutOfRange);
    assert_eq!(pwm_status(2001), PwmStatus::OutOfRange);
}

#[test]
fn pair_needs_both_valid() {
    assert!(PwmPair::new(1000, 2000).both_valid());
    assert!(!PwmPair::new(999, 2000).both_valid());
    assert!(!PwmPair::new(1500, 0).both_valid());
}

#[test]
fn encode_1500_1800_bytes() {
    let bytes = encode_packet(&PwmPair::new(1500, 1800));
    assert_eq!(bytes, vec![0x00, 0x00, 0x05, 0xDC, 0x00, 0x00, 0x07, 0x08]);
    assert_eq!(bytes.len(), PACKET_LEN);
}

#[test]
fn encode_bounds_bytes() {
    assert_eq!(encode_packet(&PwmPair::new(1000, 2000)), vec![0, 0, 0x03, 0xE8, 0, 0, 0x07, 0xD0]);
}

#[test]
fn encode_matches_i32_big_endian() {
    for (az, el) in [(1000u16, 1000u16), (1234, 1999), (2000, 1001)] {
        let mut expected = Vec::new();
        expected.extend_from_slice(&(az as i32).to_be_bytes());
        expected.extend_from_slice(&(el as i32).to_be_bytes());
        assert_eq!(encode_packet(&PwmPair::new(az, el)), expected);
    }
}

#[test]
fn encode_twice_identical() {
    let pair = PwmPair::new(1337, 1842);
    assert_eq!(encode_packet(&pair), encode_packet(&pair));
}

#[test]
fn report_1500_1800_forwarded() {
    let cfg = ForwarderConfig::standard();
    let action = process_message(&cfg, &report(1500, 1800));
    assert_eq!(sent(&action), Some(vec![0x00, 0x00, 0x05, 0xDC, 0x00, 0x00, 0x07, 0x08]));
}

#[test]
fn no_signal_azimuth_skipped() {
    let cfg = ForwarderConfig::standard();
    let action = process_message(&cfg, &report(0, 1500));
    assert_eq!(action, Action::Skip(SkipReason::InvalidPair(PwmPair::new(0, 1500))));
    // the next message is still handled
    let next = process_message(&cfg, &report(1500, 1800));
    assert_eq!(sent(&next), Some(vec![0, 0, 0x05, 0xDC, 0, 0, 0x07, 0x08]));
}

#[test]
fn boundary_pairs() {
    let cfg = ForwarderConfig::standard();
    assert_eq!(sent(&process_message(&cfg, &report(1000, 2000))), Some(vec![0, 0, 0x03, 0xE8, 0, 0, 0x07, 0xD0]));
    assert_eq!(sent(&process_message(&cfg, &report(999, 2000))), None);
    assert_eq!(sent(&process_message(&cfg, &report(2001, 1500))), None);
}

#[test]
fn unset_channel_skipped() {
    let cfg = ForwarderConfig::standard();
    assert_eq!(sent(&process_message(&cfg, &report(1500, 65535))), None);
    assert_eq!(sent(&process_message(&cfg, &report(65535, 65535))), None);
    assert_eq!(sent(&process_message(&cfg, &report(0, 0))), None);
}

#[test]
fn other_message_skipped() {
    let cfg = ForwarderConfig::standard();
    for id in [0u32, 30, 65, 1000] {
        let action = process_message(&cfg, &InboundMessage::Other { message_id: id });
        assert_eq!(action, Action::Skip(SkipReason::NotChannelReport));
    }
}

#[test]
fn short_report_skipped() {
    let cfg = ForwarderConfig::standard();
    let msg = InboundMessage::RcChannels(RcChannels::new(vec![1500u16; 9]));
    assert_eq!(process_message(&cfg, &msg), Action::Skip(SkipReason::ChannelMissing));
    let empty = InboundMessage::RcChannels(RcChannels::new(Vec::new()));
    assert_eq!(process_message(&cfg, &empty), Action::Skip(SkipReason::ChannelMissing));
}

#[test]
fn extract_reads_configured_channels() {
    let cfg = ForwarderConfig::standard();
    let mut raw: Vec<u16> = (1..=18).map(|c| 1000 + c).collect();
    raw[8] = 1111;
    raw[9] = 1222;
    let rc = RcChannels::new(raw);
    assert_eq!(extract_pair(&cfg, &rc), Some(PwmPair::new(1111, 1222)));
    assert_eq!(rc.channel(1), Some(1001));
    assert_eq!(rc.channel(0), None);
    assert_eq!(rc.channel(19), None);
}

#[test]
fn alternate_channels() {
    let cfg = ForwarderConfig {
        azimuth_channel: 1,
        elevation_channel: 2,
        listen_port: 1,
        dest_host: String::from("127.0.0.1"),
        dest_port: 2,
    };
    let rc = InboundMessage::RcChannels(RcChannels::new(vec![1100, 1900, 0]));
    assert_eq!(sent(&process_message(&cfg, &rc)), Some(vec![0, 0, 0x04, 0x4C, 0, 0, 0x07, 0x6C]));
}

#[test]
fn decode_failure_does_not_block_next() {
    let cfg = ForwarderConfig::standard();
    let stream = vec![Err(DecodeError::Parse), Ok(report(1500, 1800)), Err(DecodeError::Io), Ok(report(1200, 1300))];
    let out: Vec<Vec<u8>> = stream.iter().filter_map(|r| sent(&process_received(&cfg, r))).collect();
    assert_eq!(out, vec![vec![0, 0, 0x05, 0xDC, 0, 0, 0x07, 0x08], vec![0, 0, 0x04, 0xB0, 0, 0, 0x05, 0x14]]);
    assert_eq!(process_received(&cfg, &Err(DecodeError::Parse)), Action::Skip(SkipReason::DecodeFailed(DecodeError::Parse)));
}

#[test]
fn standard_config_values() {
    let cfg = ForwarderConfig::standard();
    assert_eq!(cfg.azimuth_channel, 9);
    assert_eq!(cfg.elevation_channel, 10);
    assert_eq!(cfg.listen_port, 14551);
    assert_eq!(cfg.dest_host, "192.168.1.14");
    assert_eq!(cfg.dest_port, 5050);
}
