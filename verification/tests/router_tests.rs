use vnet::format::{Ipv4Addr, MacAddr};
use vnet::router::Router;

#[test]
fn builder_collects_ports_and_build_starts_empty() {
    let b = Router::new()
        .eth(0, MacAddr::new(0, 0, 0, 0, 0, 1), Ipv4Addr::new(192, 168, 0, 1), Ipv4Addr::new(255, 255, 255, 0))
        .eth(1, MacAddr::new(0, 0, 0, 0, 0, 2), Ipv4Addr::new(10, 0, 0, 1), Ipv4Addr::new(255, 0, 0, 0));
    assert_eq!(b.ports.len(), 2);
    assert_eq!(b.ports.get(&1).map(|p| p.ip), Some(Ipv4Addr::new(10, 0, 0, 1)));
    let r = b.build();
    assert!(r.ports.is_empty());
    assert!(r.arp_table.is_empty());
}

#[test]
fn port_for_picks_port_of_destination_network() {
    let mut r = Router::new().build();
    let b = Router::new()
        .eth(0, MacAddr::new(0, 0, 0, 0, 0, 1), Ipv4Addr::new(192, 168, 0, 1), Ipv4Addr::new(255, 255, 255, 0))
        .eth(1, MacAddr::new(0, 0, 0, 0, 0, 2), Ipv4Addr::new(10, 0, 0, 1), Ipv4Addr::new(255, 0, 0, 0));
    r.ports = b.ports;
    assert_eq!(r.port_for(Ipv4Addr::new(10, 20, 30, 40)), Some(1));
    assert_eq!(r.port_for(Ipv4Addr::new(192, 168, 0, 77)), Some(0));
    assert_eq!(r.port_for(Ipv4Addr::new(172, 16, 0, 1)), None);
}

#[test]
fn cached_mac_is_returned() {
    let mut r = Router::new().build();
    let ip = Ipv4Addr::new(10, 0, 0, 9);
    let mac = MacAddr::new(2, 0, 0, 0, 0, 9);
    r.arp_table.insert(ip.to_bits(), mac);
    assert_eq!(r.get_mac_from_ip(ip), mac);
}
