//! Ethernet (MAC) addresses.
use vstd::prelude::*;
use crate::fmt::{hex_padded, push_hex_padded};

verus! {

/// A six-octet Ethernet address.
#[derive(Debug, Hash, PartialOrd, Ord, Clone, Copy, Default)]
pub struct EthernetAddress(pub [u8; 6]);

impl EthernetAddress {
    /// The broadcast address, every octet `0xff`.
    pub fn broadcast() -> (r: EthernetAddress)
        ensures
            r.0@ == seq![0xffu8, 0xff, 0xff, 0xff, 0xff, 0xff],
    {
        let r = EthernetAddress([0xff, 0xff, 0xff, 0xff, 0xff, 0xff]);
        assert(r.0@ =~= seq![0xffu8, 0xff, 0xff, 0xff, 0xff, 0xff]);
        r
    }

    /// The octets as two upper-case hexadecimal digits each, separated by
    /// colons.
    pub fn to_string(&self) -> (r: String)
        ensures
            r@ == hex_padded(self.0[0] as nat, 2) + seq![':'] + hex_padded(self.0[1] as nat, 2)
                + seq![':'] + hex_padded(self.0[2] as nat, 2) + seq![':'] + hex_padded(
                self.0[3] as nat,
                2,
            ) + seq![':'] + hex_padded(self.0[4] as nat, 2) + seq![':'] + hex_padded(
                self.0[5] as nat,
                2,
            ),
    {
        proof {
            reveal_strlit(":");
        }
        let bytes = self.0;
        let mut s = String::new();
        push_hex_padded(&mut s, bytes[0] as u64, 2);
        s.append(":");
        push_hex_padded(&mut s, bytes[1] as u64, 2);
        s.append(":");
        push_hex_padded(&mut s, bytes[2] as u64, 2);
        s.append(":");
        push_hex_padded(&mut s, bytes[3] as u64, 2);
        s.append(":");
        push_hex_padded(&mut s, bytes[4] as u64, 2);
        s.append(":");
        push_hex_padded(&mut s, bytes[5] as u64, 2);
        s
    }
}

impl PartialEq for EthernetAddress {
    fn eq(&self, other: &Self) -> (r: bool) {
        let a = self.0;
        let b = other.0;
        let r = a[0] == b[0] && a[1] == b[1] && a[2] == b[2] && a[3] == b[3] && a[4] == b[4] && a[5]
            == b[5];
        assert(r == (a@ =~= b@));
        r
    }
}

impl vstd::std_specs::cmp::PartialEqSpecImpl for EthernetAddress {
    open spec fn obeys_eq_spec() -> bool {
        true
    }

    open spec fn eq_spec(&self, other: &Self) -> bool {
        self.0@ == other.0@
    }
}

impl Eq for EthernetAddress {
}

impl vstd::std_specs::convert::FromSpecImpl<[u8; 6]> for EthernetAddress {
    open spec fn obeys_from_spec() -> bool {
        true
    }

    open spec fn from_spec(octets: [u8; 6]) -> EthernetAddress {
        EthernetAddress(octets)
    }
}

impl From<[u8; 6]> for EthernetAddress {
    fn from(octets: [u8; 6]) -> (r: Self) {
        EthernetAddress(octets)
    }
}

impl vstd::std_specs::convert::FromSpecImpl<EthernetAddress> for [u8; 6] {
    open spec fn obeys_from_spec() -> bool {
        true
    }

    open spec fn from_spec(a: EthernetAddress) -> [u8; 6] {
        a.0
    }
}

impl From<EthernetAddress> for [u8; 6] {
    fn from(a: EthernetAddress) -> (r: [u8; 6]) {
        a.0
    }
}

} // verus!
