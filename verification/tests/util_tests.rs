use vnet::format::MacAddr;
use vnet::util::{mac_from_random, mac_rnd};

#[test]
fn random_mac_is_local_unicast() {
    for _ in 0..64 {
        let m = mac_rnd();
        assert_eq!(m.octets[0] & 0x03, 0x02);
        assert!(!m.is_broadcast());
        assert_ne!(m, MacAddr::nil());
    }
}

#[test]
fn mac_from_random_sets_low_bits_of_first_octet() {
    assert_eq!(mac_from_random([0; 6]).octets, [0x02, 0, 0, 0, 0, 0]);
    assert_eq!(mac_from_random([0xff; 6]).octets, [0xfe, 0xff, 0xff, 0xff, 0xff, 0xff]);
    assert_eq!(mac_from_random([0x31, 1, 2, 3, 4, 5]).octets, [0x32, 1, 2, 3, 4, 5]);
}
