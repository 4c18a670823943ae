//! IPv6 addresses as the protocol carries them.

use vstd::prelude::*;

verus! {

/// An IPv6 address: sixteen octets in network byte order.
#[derive(Clone, Copy, Debug, PartialEq, Eq)]
pub struct Ipv6Address {
    /// The octets, most significant first.
    pub octets: [u8; 16],
}

impl View for Ipv6Address {
    type V = Seq<u8>;

    /// The sixteen octets, most significant first.
    open spec fn view(&self) -> Seq<u8> {
        self.octets@
    }
}

impl Ipv6Address {
    /// The address made of `octets`, most significant first.
    pub fn new(octets: [u8; 16]) -> (addr: Ipv6Address)
        ensures
            addr.octets == octets,
            addr@ == octets@,
    {
        Ipv6Address { octets }
    }

    /// The sixteen octets of the address, most significant first.
    pub fn octets(&self) -> (octets: [u8; 16])
        ensures
            octets == self.octets,
            octets@ == self@,
    {
        self.octets
    }
}

/// Every address has exactly sixteen octets, and two addresses with the same
/// octets are the same address.
pub proof fn lemma_address_octets(a: Ipv6Address, b: Ipv6Address)
    ensures
        a@.len() == 16,
        a@ == b@ ==> a == b,
{
    if a@ == b@ {
        assert(forall|i: int| 0 <= i < 16 ==> a.octets[i] == b.octets[i]) by {
            assert(forall|i: int| 0 <= i < 16 ==> a.octets[i] == a@[i]);
            assert(forall|i: int| 0 <= i < 16 ==> b.octets[i] == b@[i]);
        }
        assert(a.octets =~= b.octets);
    }
}

} // verus!
