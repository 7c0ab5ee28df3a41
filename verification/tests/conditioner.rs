use packetio::addr::Addr;
use packetio::conditioner::Conditioner;
use packetio::conditioner::LinkConditionerConfig;
use packetio::conditioner::PPM;
use packetio::io::Io;
use packetio::io::IoConfig;
use packetio::io::TransportConfig;
use packetio::packet::Datagram;

fn packet(tag: u8) -> Datagram {
    Datagram { bytes: vec![tag], from: Addr::localhost(9) }
}

#[test]
fn no_impairment_delivers_exactly_once() {
    let cfg = LinkConditionerConfig::new(0, 0, 0, 0, 7);
    let mut c = Conditioner::new(cfg);
    c.push(packet(1), 0);
    let got = c.pop_due(0).expect("a kept packet with zero latency is due at once");
    assert_eq!(got.bytes, vec![1]);
    assert!(c.pop_due(0).is_none());
    assert!(c.pop_due(1_000).is_none());
}

#[test]
fn latency_holds_packet_until_release() {
    let cfg = LinkConditionerConfig::new(50, 0, 0, 0, 7);
    let mut c = Conditioner::new(cfg);
    c.push(packet(1), 0);
    assert!(c.pop_due(0).is_none());
    assert!(c.pop_due(49).is_none());
    let got = c.pop_due(50).expect("due once the base latency has elapsed");
    assert_eq!(got.bytes, vec![1]);
    assert!(c.pop_due(50).is_none());
}

#[test]
fn full_loss_never_delivers() {
    let cfg = LinkConditionerConfig::new(0, 0, PPM, 0, 99);
    let mut c = Conditioner::new(cfg);
    for i in 0..100u8 {
        c.push(packet(i), i as u64);
    }
    for t in 0..2_000u64 {
        assert!(c.pop_due(t).is_none());
    }
}

#[test]
fn certain_duplication_redelivers() {
    let cfg = LinkConditionerConfig::new(0, 0, 0, PPM, 3);
    let mut c = Conditioner::new(cfg);
    c.push(packet(8), 0);
    let first = c.pop_due(0).expect("the first release");
    assert_eq!(first.bytes, vec![8]);
    let second = c.pop_due(0).expect("the duplicated copy");
    assert_eq!(second.bytes, vec![8]);
}

#[test]
fn jitter_delivers_both_within_window() {
    let cfg = LinkConditionerConfig::new(10, 10, 0, 0, 42);
    let mut c = Conditioner::new(cfg);
    c.push(packet(1), 0);
    c.push(packet(2), 0);
    // Releases fall in 0..=20; both must be out by then, possibly
    // reordered by their release times.
    let mut seen = Vec::new();
    for t in 0..=20u64 {
        while let Some(d) = c.pop_due(t) {
            seen.push(d.bytes[0]);
        }
    }
    seen.sort();
    assert_eq!(seen, vec![1, 2]);
}

#[test]
fn half_loss_with_fixed_seed_is_statistical_and_reproducible() {
    let mut counts = Vec::new();
    for _round in 0..2 {
        let cfg = LinkConditionerConfig::new(0, 0, PPM / 2, 0, 12_345);
        let mut c = Conditioner::new(cfg);
        let mut received = 0u32;
        for i in 0..1_000u32 {
            c.push(packet((i % 251) as u8), 0);
            while c.pop_due(0).is_some() {
                received += 1;
            }
        }
        assert!(received > 400 && received < 600, "received {received}");
        counts.push(received);
    }
    assert_eq!(counts[0], counts[1], "a fixed seed reproduces the schedule");
}

#[test]
fn config_is_clamped_into_range() {
    let cfg = LinkConditionerConfig::new(u64::MAX, u64::MAX, u64::MAX, u64::MAX, 0);
    assert_eq!(cfg.incoming_loss_ppm, PPM);
    assert_eq!(cfg.incoming_duplicate_ppm, PPM);
    assert_eq!(cfg.incoming_latency_ms, 1_000_000);
    assert_eq!(cfg.incoming_jitter_ms, 1_000_000);
}

#[test]
fn conditioned_io_full_loss() {
    let cond = LinkConditionerConfig::new(0, 0, PPM, 0, 5);
    let config = IoConfig::from_transport(TransportConfig::LocalChannel).with_conditioner(cond);
    let mut io = Io::from_config(&config).unwrap();
    let dest = io.local_addr();
    for _ in 0..20 {
        io.send(b"x", dest).unwrap();
    }
    for t in 0..100u64 {
        assert!(io.recv(t).unwrap().is_none());
    }
}

#[test]
fn conditioned_io_drains_backlog() {
    let cond = LinkConditionerConfig::new(0, 0, 0, 0, 11);
    let config = IoConfig::from_transport(TransportConfig::LocalChannel).with_conditioner(cond);
    let mut io = Io::from_config(&config).unwrap();
    let dest = io.local_addr();
    io.send(b"a", dest).unwrap();
    io.send(b"b", dest).unwrap();
    io.send(b"c", dest).unwrap();
    // One poll admits the whole backlog into the delay queue and
    // releases one due packet; the rest follow on later polls.
    let mut seen = Vec::new();
    for t in 0..5u64 {
        if let Some(d) = io.recv(t).unwrap() {
            seen.push(d.bytes[0]);
        }
    }
    seen.sort();
    assert_eq!(seen, vec![b'a', b'b', b'c']);
}

#[test]
fn conditioned_io_passthrough() {
    let cond = LinkConditionerConfig::new(0, 0, 0, 0, 5);
    let config = IoConfig::from_transport(TransportConfig::LocalChannel).with_conditioner(cond);
    let mut io = Io::from_config(&config).unwrap();
    let dest = io.local_addr();
    io.send(b"pay", dest).unwrap();
    let got = io.recv(0).unwrap().expect("admitted and due at once");
    assert_eq!(got.bytes, b"pay".to_vec());
    assert!(io.recv(1).unwrap().is_none());
}

#[test]
fn io_core_passthrough_and_counters() {
    let mut core = packetio::io::IoCore::new(None);
    core.on_sent(4);
    core.on_sent(2);
    let s = core.stats();
    assert_eq!(s.packets_sent, 2);
    assert_eq!(s.bytes_sent, 6);
    let got = core.on_polled(Some(packet(9)), 0).expect("passes through unconditioned");
    assert_eq!(got.bytes, vec![9]);
    assert!(core.on_polled(None, 1).is_none());
    let s = core.stats();
    assert_eq!(s.packets_received, 1);
    assert_eq!(s.bytes_received, 1);
}

#[test]
fn io_core_full_loss_delivers_nothing() {
    let cfg = LinkConditionerConfig::new(0, 0, PPM, 0, 21);
    let mut core = packetio::io::IoCore::new(Some(Conditioner::new(cfg)));
    for i in 0..50u8 {
        assert!(core.on_polled(Some(packet(i)), i as u64).is_none());
    }
    for t in 50..500u64 {
        assert!(core.on_polled(None, t).is_none());
    }
    assert_eq!(core.stats().packets_received, 0);
}

#[test]
fn io_core_latency_holds_then_releases() {
    let cfg = LinkConditionerConfig::new(30, 0, 0, 0, 21);
    let mut core = packetio::io::IoCore::new(Some(Conditioner::new(cfg)));
    assert!(core.on_polled(Some(packet(5)), 0).is_none());
    assert!(core.on_polled(None, 29).is_none());
    let got = core.on_polled(None, 30).expect("due once the base latency has elapsed");
    assert_eq!(got.bytes, vec![5]);
    assert_eq!(core.stats().packets_received, 1);
}
