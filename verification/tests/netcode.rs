use packetio::config::NetcodeConfig;
use packetio::config::PacketConfig;
use packetio::error::IoError;
use packetio::netcode::Connection;
use packetio::netcode::ConnectionPhase;
use packetio::netcode::SendTimer;

#[test]
fn first_packet_connects() {
    let mut c = Connection::new(NetcodeConfig::default(), 0);
    assert_eq!(c.phase, ConnectionPhase::Connecting);
    c.on_packet_received(5).unwrap();
    assert_eq!(c.phase, ConnectionPhase::Connected);
    assert_eq!(c.last_recv_ms, 5);
}

#[test]
fn disconnect_after_exactly_three_missed_intervals() {
    let cfg = NetcodeConfig { num_disconnect_packets: 3, keepalive_send_interval_ms: 100 };
    let mut c = Connection::new(cfg, 0);
    c.on_packet_received(0).unwrap();

    // Not before: 3 * 100 ms of silence have not elapsed yet.
    let out = c.tick(299);
    assert!(!out.liveness_lost);
    assert_eq!(c.phase, ConnectionPhase::Connected);

    // Exactly at the threshold, and not after.
    let out = c.tick(300);
    assert!(out.liveness_lost);
    assert!(!out.send_keepalive);
    assert_eq!(c.phase, ConnectionPhase::Disconnected);

    // The signal fires exactly once.
    let out = c.tick(301);
    assert!(!out.liveness_lost);
    let out = c.tick(10_000);
    assert!(!out.liveness_lost);

    // A disconnected peer rejects all traffic.
    assert_eq!(c.on_packet_sent(400), Err(IoError::NotConnected));
    assert_eq!(c.on_packet_received(400), Err(IoError::NotConnected));
}

#[test]
fn received_packets_reset_the_silence_window() {
    let cfg = NetcodeConfig { num_disconnect_packets: 3, keepalive_send_interval_ms: 100 };
    let mut c = Connection::new(cfg, 0);
    c.on_packet_received(0).unwrap();
    assert!(!c.tick(250).liveness_lost);
    c.on_packet_received(250).unwrap();
    // The window restarts at 250: nothing is lost before 550.
    assert!(!c.tick(549).liveness_lost);
    assert!(c.tick(550).liveness_lost);
}

#[test]
fn keepalive_cadence_when_idle() {
    let cfg = NetcodeConfig { num_disconnect_packets: 10, keepalive_send_interval_ms: 100 };
    let mut c = Connection::new(cfg, 0);
    c.on_packet_received(0).unwrap();
    assert!(!c.tick(99).send_keepalive);
    let out = c.tick(100);
    assert!(out.send_keepalive);
    assert_eq!(c.last_send_ms, 100);
    assert!(!c.tick(150).send_keepalive);
    assert!(c.tick(200).send_keepalive);
}

#[test]
fn application_traffic_postpones_keepalives() {
    let cfg = NetcodeConfig { num_disconnect_packets: 10, keepalive_send_interval_ms: 100 };
    let mut c = Connection::new(cfg, 0);
    c.on_packet_received(0).unwrap();
    c.on_packet_sent(80).unwrap();
    assert!(!c.tick(100).send_keepalive);
    assert!(c.tick(180).send_keepalive);
}

#[test]
fn connecting_peer_sends_no_keepalive() {
    let c0 = Connection::new(NetcodeConfig::default(), 0);
    let mut c = c0;
    let out = c.tick(1_000_000);
    assert!(!out.send_keepalive);
    assert!(!out.liveness_lost);
    assert_eq!(c.phase, ConnectionPhase::Connecting);
}

#[test]
fn netcode_defaults() {
    let cfg = NetcodeConfig::default();
    assert_eq!(cfg.num_disconnect_packets, 10);
    // One keepalive every ten seconds: a rate of 0.1 packets per second.
    assert_eq!(cfg.keepalive_send_interval_ms, 10_000);
}

#[test]
fn flush_spacing_is_never_closer_than_the_interval() {
    let cfg = PacketConfig::default().with_packet_send_interval(100);
    assert_eq!(cfg.packet_send_interval_ms, 100);
    let mut t = SendTimer::new(&cfg);
    assert!(t.try_flush(0));
    assert!(!t.try_flush(50));
    assert!(!t.try_flush(99));
    assert!(t.try_flush(100));
    assert!(!t.try_flush(150));
    assert!(t.try_flush(230));
}

#[test]
fn packet_config_default_interval() {
    assert_eq!(PacketConfig::default().packet_send_interval_ms, 100);
}
