//! A router: its ports, each with an address and a subnet mask, its table of
//! learnt hardware addresses, and the choice of the port a packet leaves by.
use std::collections::HashMap;
use vstd::prelude::*;

use crate::format::{Ipv4Addr, MacAddr};

verus! {

broadcast use vstd::std_specs::hash::group_hash_axioms;

/// One port of a router: its address, subnet mask and hardware address.
#[derive(Debug, Clone, Copy)]
pub struct PortConfig {
    pub ip: Ipv4Addr,
    pub subnet: Ipv4Addr,
    pub mac: MacAddr,
}

/// Whether `dst` lies in the network of `port`: both agree under the port's mask.
pub open spec fn in_port_network(port: PortConfig, dst: Ipv4Addr) -> bool {
    port.ip.bits & port.subnet.bits == dst.bits & port.subnet.bits
}

/// A router: ports by number, and hardware addresses learnt, by `Ipv4Addr::to_bits`.
pub struct Router {
    pub ports: HashMap<u32, PortConfig>,
    pub arp_table: HashMap<u32, MacAddr>,
}

/// Collects a router's ports before the router is built.
pub struct RouterBuilder {
    pub ports: HashMap<u32, PortConfig>,
}

impl Router {
    /// Starts describing a router: no port yet.
    pub fn new() -> (b: RouterBuilder)
        ensures
            b.ports@ == Map::<u32, PortConfig>::empty(),
    {
        RouterBuilder { ports: HashMap::new() }
    }

    /// The hardware address learnt for `ip`; the router must have learnt one.
    pub fn get_mac_from_ip(&mut self, ip: Ipv4Addr) -> (mac: MacAddr)
        requires
            old(self).arp_table@.contains_key(ip.bits),
        ensures
            mac == old(self).arp_table@[ip.bits],
            final(self).ports@ == old(self).ports@,
            final(self).arp_table@ == old(self).arp_table@,
    {
        let key = ip.to_bits();
        match self.arp_table.get(&key) {
            Some(cached_mac) => *cached_mac,
            None => {
                assert(false);
                MacAddr::nil()
            },
        }
    }

    /// A port whose network holds `dst`, if any does. Which one is left open
    /// when several do: the table is walked in the hash map's order.
    pub fn port_for(&self, dst: Ipv4Addr) -> (found: Option<u32>)
        ensures
            match found {
                Some(com) => self.ports@.contains_key(com) && in_port_network(self.ports@[com], dst),
                None => forall|com: u32|
                    #[trigger] self.ports@.contains_key(com) ==> !in_port_network(self.ports@[com], dst),
            },
    {
        for (com, port) in it: self.ports.iter()
            invariant
                it.seq() == vstd::std_specs::iter::IteratorSpec::remaining(&vstd::std_specs::hash::spec_hash_map_iter(&self.ports)),
                forall|j: int|
                    0 <= j < it.index() ==> !in_port_network(*#[trigger] it.seq()[j].1, dst),
        {
            if port.ip.bits & port.subnet.bits == dst.bits & port.subnet.bits {
                return Some(*com);
            }
        }
        proof {
            let v = vstd::std_specs::iter::IteratorSpec::remaining(&vstd::std_specs::hash::spec_hash_map_iter(&self.ports));
            assert forall|com: u32| #[trigger] self.ports@.contains_key(com) implies !in_port_network(
                self.ports@[com],
                dst,
            ) by {
                assert(v.contains((&com, &self.ports@[com])));
                let j = choose|j: int| 0 <= j < v.len() && v[j] == (&com, &self.ports@[com]);
                assert(!in_port_network(*v[j].1, dst));
            }
        }
        None
    }
}

impl RouterBuilder {
    /// Adds port `com` with the given hardware address, address and subnet mask;
    /// a port with that number is replaced.
    pub fn eth(self, com: u32, mac: MacAddr, ip: Ipv4Addr, subnet: Ipv4Addr) -> (b: RouterBuilder)
        ensures
            b.ports@ == self.ports@.insert(com, PortConfig { ip, subnet, mac }),
    {
        let mut ports = self.ports;
        ports.insert(com, PortConfig { ip, subnet, mac });
        RouterBuilder { ports }
    }

    /// Builds the router. The ports described are not carried over: the router
    /// starts with no port and nothing learnt.
    pub fn build(self) -> (r: Router)
        ensures
            r.ports@ == Map::<u32, PortConfig>::empty(),
            r.arp_table@ == Map::<u32, MacAddr>::empty(),
    {
        Router { ports: HashMap::new(), arp_table: HashMap::new() }
    }
}

/// Which addresses a port's network holds: under a port's mask the port's
/// address and the destination agree on all 32 bits the mask selects. Hence
/// with the all-ones mask only the port's own address is in it, with the
/// all-zero mask every address is, the port's own address always is, and
/// membership does not depend on which of the two addresses is the port's.
pub proof fn port_network_membership(port: PortConfig, dst: Ipv4Addr)
    ensures
        in_port_network(port, dst) <==> (port.ip.bits & port.subnet.bits == dst.bits & port.subnet.bits),
        port.subnet.bits == 0xffff_ffffu32 ==> (in_port_network(port, dst) <==> port.ip == dst),
        port.subnet.bits == 0u32 ==> in_port_network(port, dst),
        port.ip == dst ==> in_port_network(port, dst),
        in_port_network(port, dst) == in_port_network(PortConfig { ip: dst, ..port }, port.ip),
{
    let a = port.ip.bits;
    let b = dst.bits;
    let m = port.subnet.bits;
    assert(m == 0xffff_ffffu32 ==> ((a & m == b & m) <==> a == b)) by (bit_vector);
    assert(m == 0u32 ==> a & m == b & m) by (bit_vector);
}

} // verus!
