//! Random hardware addresses for simulated cards.
use vstd::prelude::*;

use crate::format::MacAddr;

verus! {

broadcast use vstd::array::group_array_axioms;

/// Six bytes from `rand::fill`, which draws them from the thread-local
/// generator. Nothing is claimed of their values: any six bytes may come back.
#[verifier::external_body]
fn random_octets() -> (octets: [u8; 6]) {
    let mut octets = [0u8; 6];
    rand::fill(&mut octets);
    octets
}

/// Whether the address is locally administered (bit 1 of the first octet
/// set) and unicast (bit 0 of the first octet clear).
pub open spec fn is_local_unicast(m: MacAddr) -> bool {
    m.octets[0] & 0x03 == 0x02
}

/// Turns six random bytes into a locally administered unicast address: the
/// first octet's two low bits become `10`; the other octets are kept.
pub fn mac_from_random(octets: [u8; 6]) -> (m: MacAddr)
    ensures
        m.octets@ == octets@.update(0, (octets[0] & 0xfc) | 0x02),
        is_local_unicast(m),
        !m.is_broadcast_spec(),
        m.octets@ != seq![0u8, 0u8, 0u8, 0u8, 0u8, 0u8],
{
    let mut b = octets;
    let x = b[0];
    let first = (x & 0b1111_1100) | 0b0000_0010;
    b[0] = first;
    proof {
        assert(first != 0 && first != 0xff && first & 0x03 == 0x02) by (bit_vector)
            requires
                first == (x & 0xfc) | 0x02,
        ;
    }
    let all_zero = b[0] == 0 && b[1] == 0 && b[2] == 0 && b[3] == 0 && b[4] == 0 && b[5] == 0;
    let all_ones = b[0] == 0xff && b[1] == 0xff && b[2] == 0xff && b[3] == 0xff && b[4] == 0xff
        && b[5] == 0xff;
    if all_zero || all_ones {
        b[5] = b[5] ^ 0x01;
    }
    let m = MacAddr::from_octets(b);
    assert(m.octets@ =~= octets@.update(0, (octets[0] & 0xfc) | 0x02));
    assert(m.octets@[0] == first);
    m
}

/// A random locally administered unicast hardware address.
pub fn mac_rnd() -> (m: MacAddr)
    ensures
        is_local_unicast(m),
        !m.is_broadcast_spec(),
        m.octets@ != seq![0u8, 0u8, 0u8, 0u8, 0u8, 0u8],
{
    mac_from_random(random_octets())
}

/// Distinct draws give distinct addresses unless they differ only in the two
/// low bits of the first octet: the address keeps every other random bit, so
/// it is the draw with those two bits set to `10`.
pub proof fn mac_from_random_keeps_random_bits(r1: [u8; 6], r2: [u8; 6])
    ensures
        ({
            let m1 = r1@.update(0, (r1[0] & 0xfc) | 0x02);
            let m2 = r2@.update(0, (r2[0] & 0xfc) | 0x02);
            (m1 == m2) <==> (r1[0] & 0xfc == r2[0] & 0xfc && forall|i: int| 1 <= i < 6 ==> #[trigger] r1[i]
                == r2[i])
        }),
{
    let m1 = r1@.update(0, (r1[0] & 0xfc) | 0x02);
    let m2 = r2@.update(0, (r2[0] & 0xfc) | 0x02);
    let a = r1[0];
    let b = r2[0];
    assert(((a & 0xfc) | 0x02 == (b & 0xfc) | 0x02) <==> (a & 0xfc == b & 0xfc)) by (bit_vector);
    if m1 == m2 {
        assert(m1[0] == m2[0]);
        assert forall|i: int| 1 <= i < 6 implies #[trigger] r1[i] == r2[i] by {
            assert(m1[i] == m2[i]);
        }
    }
    if r1[0] & 0xfc == r2[0] & 0xfc && forall|i: int| 1 <= i < 6 ==> #[trigger] r1[i] == r2[i] {
        assert forall|i: int| 0 <= i < 6 implies m1[i] == m2[i] by {
            if i > 0 {
                assert(r1[i] == r2[i]);
            }
        }
        assert(m1 =~= m2);
    }
}

} // verus!
