use packetio::addr::Addr;
use packetio::addr::LOCALHOST_IP;
use packetio::error::IoError;
use packetio::io::Io;
use packetio::io::IoConfig;
use packetio::io::TransportConfig;
use packetio::local::LocalChannel;

#[test]
fn loopback_send_recv_exact_fifo() {
    let mut c = LocalChannel::new();
    let a = c.local_addr();
    c.send(b"first", a).unwrap();
    c.send(b"second", a).unwrap();
    c.send(b"third", a).unwrap();

    let d1 = c.recv().unwrap().unwrap();
    assert_eq!(d1.bytes, b"first".to_vec());
    assert_eq!(d1.from, a);
    let d2 = c.recv().unwrap().unwrap();
    assert_eq!(d2.bytes, b"second".to_vec());
    assert_eq!(d2.from, a);
    let d3 = c.recv().unwrap().unwrap();
    assert_eq!(d3.bytes, b"third".to_vec());
    assert_eq!(d3.from, a);
    assert!(c.recv().unwrap().is_none());
}

#[test]
fn local_channel_synthetic_addr() {
    let c = LocalChannel::new();
    assert_eq!(c.local_addr(), Addr { ip: LOCALHOST_IP, port: 0 });
}

#[test]
fn io_pair_hello() {
    // Two endpoints over one channel pair: A sends to B's address,
    // the tick's wire step carries the pair, and B's next poll yields
    // exactly the payload, tagged with A's local address.
    let (mut a, mut b) = Io::local_pair();
    assert_ne!(a.local_addr(), b.local_addr());
    a.send(b"hello", b.local_addr()).unwrap();
    Io::exchange(&mut a, &mut b);
    let got = b.recv(0).unwrap().unwrap();
    assert_eq!(got.bytes, b"hello".to_vec());
    assert_eq!(got.from, a.local_addr());
    assert!(b.recv(1).unwrap().is_none());
    assert!(a.recv(1).unwrap().is_none());
}

#[test]
fn io_pair_both_directions_fifo() {
    let (mut a, mut b) = Io::local_pair();
    a.send(b"one", b.local_addr()).unwrap();
    a.send(b"two", b.local_addr()).unwrap();
    b.send(b"ack", a.local_addr()).unwrap();
    Io::exchange(&mut a, &mut b);
    assert_eq!(b.recv(0).unwrap().unwrap().bytes, b"one".to_vec());
    assert_eq!(b.recv(0).unwrap().unwrap().bytes, b"two".to_vec());
    assert!(b.recv(0).unwrap().is_none());
    let got = a.recv(0).unwrap().unwrap();
    assert_eq!(got.bytes, b"ack".to_vec());
    assert_eq!(got.from, b.local_addr());
}

#[test]
fn io_local_channel_hello() {
    // A lone in-process endpoint is linked to itself: its sends
    // arrive on its own pending queue at once, tagged with its own
    // address.
    let config = IoConfig::from_transport(TransportConfig::LocalChannel);
    let mut io = Io::from_config(&config).unwrap();
    let dest = io.local_addr();
    io.send(b"hello", dest).unwrap();
    let got = io.recv(0).unwrap().unwrap();
    assert_eq!(got.bytes, b"hello".to_vec());
    assert_eq!(got.from, io.local_addr());
    assert!(io.recv(1).unwrap().is_none());
}

#[test]
fn io_udp_config_unsupported_here() {
    let config = IoConfig::from_transport(TransportConfig::UdpSocket(Addr::localhost(0)));
    match Io::from_config(&config) {
        Err(IoError::Unsupported) => {}
        _ => panic!("a socket transport cannot be constructed by the library"),
    }
}

#[test]
fn io_counters_advance() {
    let config = IoConfig::from_transport(TransportConfig::LocalChannel);
    let mut io = Io::from_config(&config).unwrap();
    let dest = io.local_addr();
    assert_eq!(io.stats().packets_sent, 0);
    io.send(b"abcd", dest).unwrap();
    io.send(b"ef", dest).unwrap();
    let s = io.stats();
    assert_eq!(s.packets_sent, 2);
    assert_eq!(s.bytes_sent, 6);
    assert_eq!(s.packets_received, 0);
    let _ = io.recv(0).unwrap().unwrap();
    let s = io.stats();
    assert_eq!(s.packets_received, 1);
    assert_eq!(s.bytes_received, 4);
}

#[test]
fn error_descriptions_are_distinct() {
    assert_ne!(IoError::Bind.describe(), IoError::NotConnected.describe());
    assert_ne!(IoError::Os.describe(), IoError::Unsupported.describe());
}
