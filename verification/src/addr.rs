use vstd::prelude::*;

verus! {

/// One IPv6 address, held as its 128-bit value with the first segment of
/// the usual colon notation in the most significant 16 bits (the order in
/// which the textual form reads).
#[derive(Clone, Copy, PartialEq, Eq, Structural, Debug)]
pub struct Ipv6Address {
    pub bits: u128,
}

impl Ipv6Address {
    /// The unspecified address `::`.
    pub open spec fn is_unspecified(self) -> bool {
        self.bits == 0
    }

    /// The loopback address `::1`.
    pub open spec fn is_loopback(self) -> bool {
        self.bits == 1
    }

    /// A link-local address, `fe80::/10`.
    pub open spec fn is_link_local(self) -> bool {
        0xfe80_0000_0000_0000_0000_0000_0000_0000 <= self.bits
            < 0xfec0_0000_0000_0000_0000_0000_0000_0000
    }

    /// A unique-local (private) address, `fc00::/7`.
    pub open spec fn is_unique_local(self) -> bool {
        0xfc00_0000_0000_0000_0000_0000_0000_0000 <= self.bits
            < 0xfe00_0000_0000_0000_0000_0000_0000_0000
    }

    /// A multicast address, `ff00::/8`.
    pub open spec fn is_multicast(self) -> bool {
        self.bits >= 0xff00_0000_0000_0000_0000_0000_0000_0000
    }

    /// A globally routable address: neither unspecified, loopback,
    /// link-local, unique-local nor multicast.
    pub open spec fn is_global(self) -> bool {
        &&& !self.is_unspecified()
        &&& !self.is_loopback()
        &&& !self.is_link_local()
        &&& !self.is_unique_local()
        &&& !self.is_multicast()
    }

    /// Decides whether the address is globally routable.
    pub fn classify_global(&self) -> (r: bool)
        ensures
            r == self.is_global(),
    {
        let b = self.bits;
        !(b == 0 || b == 1
            || (0xfe80_0000_0000_0000_0000_0000_0000_0000 <= b
                && b < 0xfec0_0000_0000_0000_0000_0000_0000_0000)
            || (0xfc00_0000_0000_0000_0000_0000_0000_0000 <= b
                && b < 0xfe00_0000_0000_0000_0000_0000_0000_0000)
            || b >= 0xff00_0000_0000_0000_0000_0000_0000_0000)
    }
}

} // verus!
