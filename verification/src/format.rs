//! Frame and packet formats of the simulated network: hardware and network
//! addresses, Ethernet frames, IPv4 packets and ARP packets.
use vstd::prelude::*;

verus! {

broadcast use vstd::array::group_array_axioms;

/// The octets of the all-ones hardware address.
pub open spec fn broadcast_octets_spec() -> Seq<u8> {
    seq![0xffu8, 0xffu8, 0xffu8, 0xffu8, 0xffu8, 0xffu8]
}

/// `macaddr::MacAddr6::broadcast`, handed out as its six octets.
/// Claims what the crate's source shows: the address is `[0xFF; 6]`.
#[verifier::external_body]
fn macaddr_broadcast_octets() -> (octets: [u8; 6])
    ensures
        octets@ == broadcast_octets_spec(),
{
    macaddr::MacAddr6::broadcast().into_array()
}

/// `macaddr::MacAddr6::is_broadcast` on the address with the given octets.
/// Claims what the crate's source shows: it holds exactly when every octet is `0xFF`.
#[verifier::external_body]
fn macaddr_is_broadcast(octets: [u8; 6]) -> (b: bool)
    ensures
        b == (octets@ == broadcast_octets_spec()),
{
    macaddr::MacAddr6::from(octets).is_broadcast()
}

/// A six-byte Ethernet hardware address, octets in transmission order.
#[derive(Debug, Clone, Copy, Eq)]
pub struct MacAddr {
    pub octets: [u8; 6],
}

impl PartialEq for MacAddr {
    fn eq(&self, other: &Self) -> (r: bool) {
        let a = self.octets;
        let b = other.octets;
        let r = a[0] == b[0] && a[1] == b[1] && a[2] == b[2] && a[3] == b[3] && a[4] == b[4] && a[5]
            == b[5];
        proof {
            if r {
                assert(a =~= b);
            }
        }
        r
    }
}

impl vstd::std_specs::cmp::PartialEqSpecImpl for MacAddr {
    open spec fn obeys_eq_spec() -> bool {
        true
    }

    open spec fn eq_spec(&self, other: &Self) -> bool {
        self.octets == other.octets
    }
}

impl MacAddr {
    /// The address with the six given octets.
    pub fn new(a: u8, b: u8, c: u8, d: u8, e: u8, f: u8) -> (m: MacAddr)
        ensures
            m.octets@ == seq![a, b, c, d, e, f],
    {
        MacAddr { octets: [a, b, c, d, e, f] }
    }

    /// The address made of the given octets.
    pub fn from_octets(octets: [u8; 6]) -> (m: MacAddr)
        ensures
            m.octets == octets,
    {
        MacAddr { octets }
    }

    /// The all-zero address.
    pub fn nil() -> (m: MacAddr)
        ensures
            m.octets@ == seq![0u8, 0u8, 0u8, 0u8, 0u8, 0u8],
    {
        MacAddr::new(0x00, 0x00, 0x00, 0x00, 0x00, 0x00)
    }

    /// The broadcast address, all octets `0xFF`.
    pub fn broadcast() -> (m: MacAddr)
        ensures
            m.is_broadcast_spec(),
    {
        MacAddr { octets: macaddr_broadcast_octets() }
    }

    pub open spec fn is_broadcast_spec(&self) -> bool {
        self.octets@ == broadcast_octets_spec()
    }

    /// Whether this is the broadcast address.
    pub fn is_broadcast(&self) -> (b: bool)
        ensures
            b == self.is_broadcast_spec(),
    {
        macaddr_is_broadcast(self.octets)
    }
}

/// An IPv4 address, held as its 32 bits in network order (first octet highest).
#[derive(Debug, Clone, Copy, PartialEq, Eq, Structural)]
pub struct Ipv4Addr {
    pub bits: u32,
}

impl Ipv4Addr {
    /// The address `a.b.c.d`.
    pub fn new(a: u8, b: u8, c: u8, d: u8) -> (ip: Ipv4Addr)
        ensures
            ip.bits == a * 0x100_0000 + b * 0x1_0000 + c * 0x100 + d,
    {
        Ipv4Addr {
            bits: (a as u32) * 0x100_0000 + (b as u32) * 0x1_0000 + (c as u32) * 0x100 + (d as u32),
        }
    }

    /// The address whose 32 bits are `bits`.
    pub fn from_bits(bits: u32) -> (ip: Ipv4Addr)
        ensures
            ip.bits == bits,
    {
        Ipv4Addr { bits }
    }

    /// The 32 bits of this address; the key under which tables hold it.
    pub fn to_bits(&self) -> (bits: u32)
        ensures
            bits == self.bits,
    {
        self.bits
    }
}

/// What an IPv4 packet carries.
#[derive(Debug, Clone, PartialEq, Eq)]
pub enum IPv4PacketType {
    Debug(String),
}

/// An IPv4 packet.
#[derive(Debug, Clone, PartialEq, Eq)]
pub struct IPv4Packet {
    pub src: Ipv4Addr,
    pub dst: Ipv4Addr,
    pub payload: IPv4PacketType,
}

impl IPv4Packet {
    pub fn new(src: Ipv4Addr, dst: Ipv4Addr, payload: IPv4PacketType) -> (p: IPv4Packet)
        ensures
            p == (IPv4Packet { src, dst, payload }),
    {
        IPv4Packet { src, dst, payload }
    }
}

/// Whether an ARP packet asks for an address or answers for one.
#[derive(Debug, Clone, Copy, PartialEq, Eq, Structural)]
pub enum ArpOperation {
    Request,
    Reply,
}

/// An ARP packet: `src_ip` is at `src_mac`; `dst_ip`/`dst_mac` name the other side.
#[derive(Debug, Clone, Copy, PartialEq, Eq)]
pub struct ArpPacket {
    pub dst_mac: MacAddr,
    pub src_mac: MacAddr,
    pub src_ip: Ipv4Addr,
    pub dst_ip: Ipv4Addr,
    pub op: ArpOperation,
}

/// The reply a host at `self_ip`/`self_mac` sends to `from_ip`/`from_mac`.
pub open spec fn arp_reply_spec(
    from_ip: Ipv4Addr,
    from_mac: MacAddr,
    self_ip: Ipv4Addr,
    self_mac: MacAddr,
) -> ArpPacket {
    ArpPacket {
        op: ArpOperation::Reply,
        dst_mac: from_mac,
        dst_ip: from_ip,
        src_mac: self_mac,
        src_ip: self_ip,
    }
}

/// The request a host at `self_ip`/`self_mac` broadcasts to learn where `target_ip` is.
pub open spec fn arp_request_spec(target_ip: Ipv4Addr, self_ip: Ipv4Addr, self_mac: MacAddr) -> ArpPacket {
    ArpPacket {
        op: ArpOperation::Request,
        dst_mac: MacAddr { octets: [0u8, 0u8, 0u8, 0u8, 0u8, 0u8] },
        dst_ip: target_ip,
        src_mac: self_mac,
        src_ip: self_ip,
    }
}

impl ArpPacket {
    pub fn mk_reply(from_ip: Ipv4Addr, from_mac: MacAddr, self_ip: Ipv4Addr, self_mac: MacAddr) -> (p:
        ArpPacket)
        ensures
            p == arp_reply_spec(from_ip, from_mac, self_ip, self_mac),
    {
        ArpPacket {
            op: ArpOperation::Reply,
            dst_mac: from_mac,
            dst_ip: from_ip,
            src_mac: self_mac,
            src_ip: self_ip,
        }
    }

    pub fn mk_request(target_ip: Ipv4Addr, self_ip: Ipv4Addr, self_mac: MacAddr) -> (p: ArpPacket)
        ensures
            p == arp_request_spec(target_ip, self_ip, self_mac),
    {
        let nil = MacAddr::nil();
        assert(nil.octets =~= [0u8, 0u8, 0u8, 0u8, 0u8, 0u8]);
        ArpPacket {
            op: ArpOperation::Request,
            dst_mac: nil,
            dst_ip: target_ip,
            src_mac: self_mac,
            src_ip: self_ip,
        }
    }
}

/// What an Ethernet frame carries.
#[derive(Debug, Clone, PartialEq, Eq)]
pub enum EthernetFrameType {
    Dummy,
    IPv4(IPv4Packet),
    Arp(ArpPacket),
}

/// An Ethernet frame from `src` to `dst`.
#[derive(Debug, Clone, PartialEq, Eq)]
pub struct EthernetFrame {
    pub dst: MacAddr,
    pub src: MacAddr,
    pub payload: EthernetFrameType,
}

impl EthernetFrame {
    pub fn new(src: MacAddr, dst: MacAddr, payload: EthernetFrameType) -> (f: EthernetFrame)
        ensures
            f == (EthernetFrame { src, dst, payload }),
    {
        EthernetFrame { src, dst, payload }
    }
}

/// The broadcast address is the one whose six octets are all `0xFF`.
pub proof fn broadcast_is_all_ones(m: MacAddr)
    ensures
        m.is_broadcast_spec() <==> (forall|i: int| 0 <= i < 6 ==> #[trigger] m.octets[i] == 0xffu8),
{
    if forall|i: int| 0 <= i < 6 ==> #[trigger] m.octets[i] == 0xffu8 {
        assert(m.octets@ =~= broadcast_octets_spec());
    }
    if m.is_broadcast_spec() {
        assert forall|i: int| 0 <= i < 6 implies #[trigger] m.octets[i] == 0xffu8 by {
            assert(m.octets@[i] == broadcast_octets_spec()[i]);
        }
    }
}

/// An ARP reply goes back to the asker named by its first two arguments and
/// names the answering host as its source; an ARP request names the address it
/// asks for as its target, the asking host as its source, and leaves the
/// target's hardware address all zero.
pub proof fn arp_packets_name_both_ends(
    other_ip: Ipv4Addr,
    other_mac: MacAddr,
    self_ip: Ipv4Addr,
    self_mac: MacAddr,
)
    ensures
        arp_reply_spec(other_ip, other_mac, self_ip, self_mac).op == ArpOperation::Reply,
        arp_reply_spec(other_ip, other_mac, self_ip, self_mac).dst_ip == other_ip,
        arp_reply_spec(other_ip, other_mac, self_ip, self_mac).dst_mac == other_mac,
        arp_reply_spec(other_ip, other_mac, self_ip, self_mac).src_ip == self_ip,
        arp_reply_spec(other_ip, other_mac, self_ip, self_mac).src_mac == self_mac,
        arp_request_spec(other_ip, self_ip, self_mac).op == ArpOperation::Request,
        arp_request_spec(other_ip, self_ip, self_mac).dst_ip == other_ip,
        arp_request_spec(other_ip, self_ip, self_mac).src_ip == self_ip,
        arp_request_spec(other_ip, self_ip, self_mac).src_mac == self_mac,
        forall|i: int| 0 <= i < 6 ==> #[trigger] arp_request_spec(other_ip, self_ip, self_mac).dst_mac.octets[i] == 0u8,
{
}

} // verus!
