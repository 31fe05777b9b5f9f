//! IPv6 header primitives: immutable and mutable views over a 40-byte
//! header. The version field occupies the top nibble of byte 0 and is set
//! through a masked read-modify-write that preserves the traffic class bits
//! sharing that byte.
//!
//! Layout: version+traffic-class+flow-label (4 bytes) | payload-length
//! (2, BE) | next-header (1) | hop-limit (1) | source (16) |
//! destination (16).

use vstd::prelude::*;
use crate::codec::{be16, be16_hi, be16_lo, read_u16_be, read_u8, splice, write_slice, write_u16_be, write_u8};
use crate::ip::Protocol;
use crate::ipaddr::Ipv6Addr;
use vstd::slice::slice_subrange;

verus! {

/// An immutable view over an IPv6 packet. Constructible only over a buffer of
/// at least 40 bytes, so every field accessor is in bounds.
#[derive(Debug, Copy, Clone)]
pub struct Ipv6Packet<'a>(&'a [u8]);

impl<'a> View for Ipv6Packet<'a> {
    type V = Seq<u8>;

    closed spec fn view(&self) -> Seq<u8> {
        self.0@
    }
}

impl<'a> Ipv6Packet<'a> {
    #[verifier::type_invariant]
    closed spec fn inv(self) -> bool {
        self.0@.len() >= 40
    }

    /// Creates a new immutable packet based on the given backing slice.
    /// Returns `None` iff the buffer is shorter than the minimum length of
    /// this packet.
    pub fn new(data: &'a [u8]) -> (r: Option<Ipv6Packet<'a>>)
        ensures
            data@.len() >= 40 ==> (r matches Some(p) && p@ == data@),
            data@.len() < 40 ==> r is None,
    {
        if data.len() >= 40 {
            Some(Ipv6Packet(data))
        } else {
            None
        }
    }

    /// Creates a new immutable packet based on the given backing slice
    /// without branching on its length. The caller must have validated the
    /// length upstream: the buffer is required to be at least the minimum
    /// length of this packet.
    pub fn new_unchecked(data: &'a [u8]) -> (r: Ipv6Packet<'a>)
        requires
            data@.len() >= 40,
        ensures
            r@ == data@,
    {
        Ipv6Packet(data)
    }

    /// Returns the minimum number of bytes in this type of packet: the header
    /// size of this protocol.
    pub fn min_len() -> (r: usize)
        ensures
            r == 40,
    {
        40
    }

    /// Returns the number of bytes in this packet: the length of the byte
    /// slice backing the packet instance.
    pub fn len(&self) -> (r: usize)
        ensures
            r == self@.len(),
    {
        self.0.len()
    }

    /// Returns a reference to the slice backing this packet.
    pub fn data(&self) -> (r: &[u8])
        ensures
            r@ == self@,
    {
        self.0
    }

    /// Returns a slice to the part of the backing data that represents the
    /// header: everything up until `min_len()`.
    pub fn header(&self) -> (r: &[u8])
        ensures
            r@ == self@.subrange(0, 40),
    {
        proof {
            use_type_invariant(self);
        }
        slice_subrange(self.0, 0, 40)
    }

    /// Returns a slice to the payload part of the backing data: everything
    /// after the header, possibly empty.
    pub fn payload(&self) -> (r: &[u8])
        ensures
            r@ == self@.subrange(40, self@.len() as int),
    {
        proof {
            use_type_invariant(self);
        }
        slice_subrange(self.0, 40, self.0.len())
    }

    /// The version field: the high nibble of byte 0.
    pub fn version(&self) -> (r: u8)
        ensures
            r == self@[0] >> 4,
    {
        proof {
            use_type_invariant(self);
        }
        read_u8(self.0, 0) >> 4
    }

    /// The payload length field: bytes 4 and 5, big-endian.
    pub fn payload_length(&self) -> (r: u16)
        ensures
            r == be16(self@[4], self@[5]),
    {
        proof {
            use_type_invariant(self);
        }
        read_u16_be(self.0, 4)
    }

    /// The next header field: byte 6.
    pub fn next_header(&self) -> (r: Protocol)
        ensures
            r.0 == self@[6],
    {
        proof {
            use_type_invariant(self);
        }
        Protocol(read_u8(self.0, 6))
    }

    /// The hop limit field: byte 7.
    pub fn hop_limit(&self) -> (r: u8)
        ensures
            r == self@[7],
    {
        proof {
            use_type_invariant(self);
        }
        read_u8(self.0, 7)
    }

    /// The source address: bytes 8 to 23.
    pub fn source(&self) -> (r: Ipv6Addr)
        ensures
            r@ == self@.subrange(8, 24),
    {
        proof {
            use_type_invariant(self);
        }
        Ipv6Addr::from_slice(slice_subrange(self.0, 8, 24))
    }

    /// The destination address: bytes 24 to 39.
    pub fn destination(&self) -> (r: Ipv6Addr)
        ensures
            r@ == self@.subrange(24, 40),
    {
        proof {
            use_type_invariant(self);
        }
        Ipv6Addr::from_slice(slice_subrange(self.0, 24, 40))
    }
}

/// A mutable view over an IPv6 packet: owns the backing buffer while fields
/// are being set and hands it back through `into_inner`. Well-formed only
/// over a buffer of at least 40 bytes, so every field setter is in bounds.
pub struct MutIpv6Packet {
    data: Vec<u8>,
}

impl View for MutIpv6Packet {
    type V = Seq<u8>;

    closed spec fn view(&self) -> Seq<u8> {
        self.data@
    }
}

impl MutIpv6Packet {
    /// The backing buffer is long enough to hold the header.
    pub open spec fn wf(&self) -> bool {
        self@.len() >= 40
    }

    /// Creates a new mutable packet based on the given backing buffer.
    /// Returns `None` iff the buffer is shorter than the minimum length of
    /// this packet.
    pub fn new(data: Vec<u8>) -> (r: Option<MutIpv6Packet>)
        ensures
            data@.len() >= 40 ==> (r matches Some(p) && p@ == data@),
            data@.len() < 40 ==> r is None,
    {
        if data.len() >= 40 {
            Some(MutIpv6Packet { data })
        } else {
            None
        }
    }

    /// Creates a new mutable packet based on the given backing buffer without
    /// branching on its length. The caller must have validated the length
    /// upstream: the buffer is required to be at least the minimum length of
    /// this packet.
    pub fn new_unchecked(data: Vec<u8>) -> (r: MutIpv6Packet)
        requires
            data@.len() >= 40,
        ensures
            r@ == data@,
    {
        MutIpv6Packet { data }
    }

    /// Returns an immutable version of the same packet, backed by the same
    /// bytes. Used to access the getters.
    pub fn as_immutable(&self) -> (r: Ipv6Packet<'_>)
        requires
            self.wf(),
        ensures
            r@ == self@,
    {
        Ipv6Packet(self.data.as_slice())
    }

    /// Returns the minimum number of bytes in this type of packet: the header
    /// size of this protocol.
    pub fn min_len() -> (r: usize)
        ensures
            r == 40,
    {
        40
    }

    /// Returns the number of bytes in this packet: the length of the byte
    /// slice backing the packet instance.
    pub fn len(&self) -> (r: usize)
        ensures
            r == self@.len(),
    {
        self.data.len()
    }

    /// Returns a reference to the slice backing this packet.
    pub fn data(&self) -> (r: &[u8])
        ensures
            r@ == self@,
    {
        self.data.as_slice()
    }

    /// Returns a slice to the part of the backing data that represents the
    /// header: everything up until `min_len()`.
    pub fn header(&self) -> (r: &[u8])
        requires
            self.wf(),
        ensures
            r@ == self@.subrange(0, 40),
    {
        slice_subrange(self.data.as_slice(), 0, 40)
    }

    /// Returns a slice to the payload part of the backing data: everything
    /// after the header, possibly empty.
    pub fn payload(&self) -> (r: &[u8])
        requires
            self.wf(),
        ensures
            r@ == self@.subrange(40, self@.len() as int),
    {
        let len = self.data.len();
        slice_subrange(self.data.as_slice(), 40, len)
    }

    /// Hands the backing buffer back to the caller.
    pub fn into_inner(self) -> (r: Vec<u8>)
        ensures
            r@ == self@,
    {
        self.data
    }

    /// Writes the version field into the high nibble of byte 0, preserving
    /// the traffic class bits sharing that byte. No other byte changes.
    pub fn set_version(&mut self, version: u8)
        requires
            old(self).wf(),
        ensures
            final(self)@ == old(self)@.update(0, (version << 4) | (old(self)@[0] & 0x0f)),
            final(self).wf(),
    {
        let b = read_u8(self.data.as_slice(), 0);
        write_u8(&mut self.data, 0, (version << 4) | (b & 0x0f));
    }

    /// Writes the payload length field: bytes 4 and 5, big-endian. No other
    /// byte changes.
    pub fn set_payload_length(&mut self, payload_length: u16)
        requires
            old(self).wf(),
        ensures
            final(self)@ == old(self)@.update(4, be16_hi(payload_length)).update(
                5,
                be16_lo(payload_length),
            ),
            final(self).wf(),
    {
        write_u16_be(&mut self.data, 4, payload_length);
    }

    /// Writes the next header field: byte 6. No other byte changes.
    pub fn set_next_header(&mut self, protocol: Protocol)
        requires
            old(self).wf(),
        ensures
            final(self)@ == old(self)@.update(6, protocol.0),
            final(self).wf(),
    {
        write_u8(&mut self.data, 6, protocol.value());
    }

    /// Writes the hop limit field: byte 7. No other byte changes.
    pub fn set_hop_limit(&mut self, hop_limit: u8)
        requires
            old(self).wf(),
        ensures
            final(self)@ == old(self)@.update(7, hop_limit),
            final(self).wf(),
    {
        write_u8(&mut self.data, 7, hop_limit);
    }

    /// Writes the source address: bytes 8 to 23. No other byte changes.
    pub fn set_source(&mut self, source: Ipv6Addr)
        requires
            old(self).wf(),
        ensures
            final(self)@ == splice(old(self)@, 8, source@),
            final(self).wf(),
    {
        write_slice(&mut self.data, 8, source.as_slice());
    }

    /// Writes the destination address: bytes 24 to 39. No other byte changes.
    pub fn set_destination(&mut self, destination: Ipv6Addr)
        requires
            old(self).wf(),
        ensures
            final(self)@ == splice(old(self)@, 24, destination@),
            final(self).wf(),
    {
        write_slice(&mut self.data, 24, destination.as_slice());
    }
}

} // verus!
