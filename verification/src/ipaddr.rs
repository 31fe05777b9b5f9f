//! IP address values held as plain bytes: a four-byte IPv4 address and a
//! sixteen-byte IPv6 address, as they appear on the wire.

use vstd::prelude::*;

verus! {

/// An IPv4 address: four bytes in network order.
#[derive(Debug, Copy, Clone, Eq, Hash)]
pub struct Ipv4Addr(pub [u8; 4]);

impl View for Ipv4Addr {
    type V = Seq<u8>;

    open spec fn view(&self) -> Seq<u8> {
        self.0@
    }
}

impl PartialEq for Ipv4Addr {
    fn eq(&self, other: &Ipv4Addr) -> (r: bool) {
        let r = self.0[0] == other.0[0] && self.0[1] == other.0[1] && self.0[2] == other.0[2]
            && self.0[3] == other.0[3];
        proof {
            if r {
                assert(self.0@ =~= other.0@);
            }
        }
        r
    }
}

impl vstd::std_specs::cmp::PartialEqSpecImpl for Ipv4Addr {
    open spec fn obeys_eq_spec() -> bool {
        true
    }

    open spec fn eq_spec(&self, other: &Ipv4Addr) -> bool {
        self.0@ == other.0@
    }
}

impl Ipv4Addr {
    /// Builds an address from its four octets, first octet first.
    pub fn new(a: u8, b: u8, c: u8, d: u8) -> (r: Ipv4Addr)
        ensures
            r@ == seq![a, b, c, d],
    {
        let addr = Ipv4Addr([a, b, c, d]);
        proof {
            assert(addr@ =~= seq![a, b, c, d]);
        }
        addr
    }

    /// Builds an address from a slice of bytes, which must be 4 bytes long.
    pub fn from_slice(slice: &[u8]) -> (r: Ipv4Addr)
        requires
            slice@.len() == 4,
        ensures
            r@ == slice@,
    {
        let addr = Ipv4Addr([slice[0], slice[1], slice[2], slice[3]]);
        proof {
            assert(addr@ =~= slice@);
        }
        addr
    }

    /// The four octets of the address.
    pub fn octets(&self) -> (r: [u8; 4])
        ensures
            r@ == self@,
    {
        self.0
    }

    /// The address bytes as a slice.
    pub fn as_slice(&self) -> (r: &[u8])
        ensures
            r@ == self@,
    {
        self.0.as_slice()
    }
}

/// An IPv6 address: sixteen bytes in network order.
#[derive(Debug, Copy, Clone, Eq, Hash)]
pub struct Ipv6Addr(pub [u8; 16]);

impl View for Ipv6Addr {
    type V = Seq<u8>;

    open spec fn view(&self) -> Seq<u8> {
        self.0@
    }
}

impl PartialEq for Ipv6Addr {
    fn eq(&self, other: &Ipv6Addr) -> (r: bool) {
        let r = self.0[0] == other.0[0] && self.0[1] == other.0[1] && self.0[2] == other.0[2]
            && self.0[3] == other.0[3] && self.0[4] == other.0[4] && self.0[5] == other.0[5]
            && self.0[6] == other.0[6] && self.0[7] == other.0[7] && self.0[8] == other.0[8]
            && self.0[9] == other.0[9] && self.0[10] == other.0[10] && self.0[11] == other.0[11]
            && self.0[12] == other.0[12] && self.0[13] == other.0[13] && self.0[14] == other.0[14]
            && self.0[15] == other.0[15];
        proof {
            if r {
                assert(self.0@ =~= other.0@);
            }
        }
        r
    }
}

impl vstd::std_specs::cmp::PartialEqSpecImpl for Ipv6Addr {
    open spec fn obeys_eq_spec() -> bool {
        true
    }

    open spec fn eq_spec(&self, other: &Ipv6Addr) -> bool {
        self.0@ == other.0@
    }
}

impl Ipv6Addr {
    /// Builds an address from its eight 16-bit segments, each written to two
    /// bytes big-endian, first segment first.
    pub fn new(a: u16, b: u16, c: u16, d: u16, e: u16, f: u16, g: u16, h: u16) -> (r: Ipv6Addr)
        ensures
            r@ == seq![
                (a / 256) as u8,
                (a % 256) as u8,
                (b / 256) as u8,
                (b % 256) as u8,
                (c / 256) as u8,
                (c % 256) as u8,
                (d / 256) as u8,
                (d % 256) as u8,
                (e / 256) as u8,
                (e % 256) as u8,
                (f / 256) as u8,
                (f % 256) as u8,
                (g / 256) as u8,
                (g % 256) as u8,
                (h / 256) as u8,
                (h % 256) as u8,
            ],
    {
        let addr = Ipv6Addr(
            [
                (a / 256) as u8,
                (a % 256) as u8,
                (b / 256) as u8,
                (b % 256) as u8,
                (c / 256) as u8,
                (c % 256) as u8,
                (d / 256) as u8,
                (d % 256) as u8,
                (e / 256) as u8,
                (e % 256) as u8,
                (f / 256) as u8,
                (f % 256) as u8,
                (g / 256) as u8,
                (g % 256) as u8,
                (h / 256) as u8,
                (h % 256) as u8,
            ],
        );
        proof {
            assert(addr@ =~= seq![
                (a / 256) as u8,
                (a % 256) as u8,
                (b / 256) as u8,
                (b % 256) as u8,
                (c / 256) as u8,
                (c % 256) as u8,
                (d / 256) as u8,
                (d % 256) as u8,
                (e / 256) as u8,
                (e % 256) as u8,
                (f / 256) as u8,
                (f % 256) as u8,
                (g / 256) as u8,
                (g % 256) as u8,
                (h / 256) as u8,
                (h % 256) as u8,
            ]);
        }
        addr
    }

    /// Builds an address from a slice of bytes, which must be 16 bytes long.
    pub fn from_slice(slice: &[u8]) -> (r: Ipv6Addr)
        requires
            slice@.len() == 16,
        ensures
            r@ == slice@,
    {
        let addr = Ipv6Addr(
            [
                slice[0],
                slice[1],
                slice[2],
                slice[3],
                slice[4],
                slice[5],
                slice[6],
                slice[7],
                slice[8],
                slice[9],
                slice[10],
                slice[11],
                slice[12],
                slice[13],
                slice[14],
                slice[15],
            ],
        );
        proof {
            assert(addr@ =~= slice@);
        }
        addr
    }

    /// The sixteen octets of the address.
    pub fn octets(&self) -> (r: [u8; 16])
        ensures
            r@ == self@,
    {
        self.0
    }

    /// The address bytes as a slice.
    pub fn as_slice(&self) -> (r: &[u8])
        ensures
            r@ == self@,
    {
        self.0.as_slice()
    }
}

} // verus!
