use packetio::addr::Addr;
use packetio::addr::LOCALHOST_IP;
use packetio::conditioner::LinkConditionerConfig;
use packetio::config::ClientConfig;
use packetio::config::ServerConfig;
use packetio::io::IoConfig;
use packetio::io::TransportConfig;
use packetio::plugin::PluginConfig;
use packetio::plugin::ServerPlugin;
use packetio::rng::Rng;

#[test]
fn io_config_default_is_ephemeral_udp() {
    let cfg = IoConfig::default();
    match cfg.transport {
        TransportConfig::UdpSocket(a) => assert_eq!(a, Addr { ip: LOCALHOST_IP, port: 0 }),
        TransportConfig::LocalChannel => panic!("the default transport is a socket"),
    }
    assert!(cfg.conditioner.is_none());
}

#[test]
fn io_config_builders() {
    let cond = LinkConditionerConfig::new(20, 5, 1_000, 0, 1);
    let cfg = IoConfig::from_transport(TransportConfig::LocalChannel).with_conditioner(cond);
    assert!(matches!(cfg.transport, TransportConfig::LocalChannel));
    assert_eq!(cfg.conditioner, Some(cond));
}

#[test]
fn client_and_server_defaults_agree() {
    let c = ClientConfig::default();
    let s = ServerConfig::default();
    assert_eq!(c.netcode, s.netcode);
    assert_eq!(c.packet, s.packet);
    assert!(c.io.conditioner.is_none());
    assert!(s.io.conditioner.is_none());
}

#[test]
fn plugin_config_round_trip() {
    let sc = ServerConfig::default();
    let plugin_config = PluginConfig::new(sc.clone(), 7u32);
    let (got_sc, got_protocol) = plugin_config.parts();
    assert_eq!(got_sc.netcode, sc.netcode);
    assert_eq!(got_protocol, 7u32);
}

#[test]
fn server_plugin_yields_its_config_exactly_once() {
    let plugin_config = PluginConfig::new(ServerConfig::default(), "protocol");
    let mut plugin = ServerPlugin::new(plugin_config);
    let first = plugin.take_config();
    assert!(first.is_some());
    assert_eq!(first.unwrap().parts().1, "protocol");
    assert!(plugin.take_config().is_none());
}

#[test]
fn addr_localhost_helpers() {
    let a = Addr::localhost(4_000);
    assert_eq!(a.ip, 0x7F00_0001);
    assert_eq!(a.port, 4_000);
    assert_eq!(Addr::local_channel(), Addr::localhost(0));
}

#[test]
fn rng_is_deterministic_and_zero_seed_is_replaced() {
    let mut a = Rng::seeded(77);
    let mut b = Rng::seeded(77);
    for _ in 0..10 {
        assert_eq!(a.next_u64(), b.next_u64());
    }
    let mut z = Rng::seeded(0);
    assert_ne!(z.next_u64(), 0);
    let mut bounded = Rng::seeded(5);
    for _ in 0..100 {
        assert!(bounded.next_below(10) < 10);
    }
}
