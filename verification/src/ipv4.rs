//! IPv4 header primitives: immutable and mutable views over a 20-byte
//! minimum header, including the sub-byte fields that share a byte
//! (version/header-length, DSCP/ECN, flags/fragment-offset). Setting one
//! half of a shared byte preserves the bits of the other half through a
//! masked read-modify-write.
//!
//! Layout: version+IHL (1 byte) | DSCP+ECN (1) | total-length (2, BE) |
//! identification (2, BE) | flags+fragment-offset (2, BE) | TTL (1) |
//! protocol (1) | header-checksum (2, BE) | source (4) | destination (4).

use vstd::prelude::*;
use crate::codec::{be16, be16_hi, be16_lo, read_u16_be, read_u8, splice, write_slice, write_u16_be, write_u8};
use crate::ipaddr::Ipv4Addr;
use vstd::slice::slice_subrange;

verus! {

/// A bitmask with a one in the "Reserved" position of the three bit flags
/// field.
pub const RESERVED: u8 = 0b100;

/// A bitmask with a one in the "Don't fragment" position of the three bit
/// flags field.
pub const DF: u8 = 0b010;

/// A bitmask with a one in the "More fragments" position of the three bit
/// flags field.
pub const MF: u8 = 0b001;

/// Represents the eight bit protocol header field of an IPv4 packet. Values
/// are compared by value; unknown values are valid and round-trip unchanged.
#[derive(Debug, Copy, Clone, Eq, PartialEq, Hash, Structural)]
pub struct Protocol(pub u8);

impl Protocol {
    /// The protocol number assigned to ICMP.
    pub fn icmp() -> (r: Protocol)
        ensures
            r == Protocol(1u8),
    {
        Protocol(1)
    }

    /// The protocol number assigned to TCP.
    pub fn tcp() -> (r: Protocol)
        ensures
            r == Protocol(6u8),
    {
        Protocol(6)
    }

    /// The protocol number assigned to UDP.
    pub fn udp() -> (r: Protocol)
        ensures
            r == Protocol(17u8),
    {
        Protocol(17)
    }

    /// Returns the numeric representation of this protocol.
    pub fn value(&self) -> (r: u8)
        ensures
            r == self.0,
    {
        self.0
    }
}

/// Masked DSCP/ECN update: writing one of the two fields sharing byte 1 reads
/// back exactly the value written and leaves the bits of the other unchanged,
/// whichever field is written.
pub proof fn lemma_dscp_ecn_update(b: u8, dscp: u8, ecn: u8)
    by (bit_vector)
    requires
        dscp < 64,
        ecn < 4,
    ensures
        ((dscp << 2) | (b & 0x03)) >> 2 == dscp,
        ((dscp << 2) | (b & 0x03)) & 0x03 == b & 0x03,
        ((b & 0xfc) | (ecn & 0x03)) & 0x03 == ecn,
        ((b & 0xfc) | (ecn & 0x03)) >> 2 == b >> 2,
{
}

/// Masked flags update: writing the three flag bits of byte 6 reads back
/// exactly the value written and leaves the high bits of the fragment offset,
/// which share that byte, unchanged.
pub proof fn lemma_flags_update(b: u8, f: u8)
    by (bit_vector)
    requires
        f < 8,
    ensures
        ((f << 5) | (b & 0x1f)) >> 5 == f,
        ((f << 5) | (b & 0x1f)) & 0x1f == b & 0x1f,
{
}

/// Masked fragment offset update: writing the low 13 bits of the big-endian
/// integer in bytes 6 and 7 reads back exactly the value written and leaves
/// the three flag bits unchanged.
pub proof fn lemma_fragment_offset_update(b6: u8, b7: u8, off: u16)
    by (bit_vector)
    requires
        off < 0x2000,
    ensures
        be16(
            be16_hi((be16(b6, b7) & 0xe000) | (off & 0x1fff)),
            be16_lo((be16(b6, b7) & 0xe000) | (off & 0x1fff)),
        ) & 0x1fff == off,
        be16_hi((be16(b6, b7) & 0xe000) | (off & 0x1fff)) >> 5 == b6 >> 5,
{
}

/// An immutable view over an IPv4 packet. Constructible only over a buffer of
/// at least 20 bytes, so every field accessor is in bounds.
#[derive(Debug, Copy, Clone)]
pub struct Ipv4Packet<'a>(&'a [u8]);

impl<'a> View for Ipv4Packet<'a> {
    type V = Seq<u8>;

    closed spec fn view(&self) -> Seq<u8> {
        self.0@
    }
}

impl<'a> Ipv4Packet<'a> {
    #[verifier::type_invariant]
    closed spec fn inv(self) -> bool {
        self.0@.len() >= 20
    }

    /// Creates a new immutable packet based on the given backing slice.
    /// Returns `None` iff the buffer is shorter than the minimum length of
    /// this packet.
    pub fn new(data: &'a [u8]) -> (r: Option<Ipv4Packet<'a>>)
        ensures
            data@.len() >= 20 ==> (r matches Some(p) && p@ == data@),
            data@.len() < 20 ==> r is None,
    {
        if data.len() >= 20 {
            Some(Ipv4Packet(data))
        } else {
            None
        }
    }

    /// Creates a new immutable packet based on the given backing slice
    /// without branching on its length. The caller must have validated the
    /// length upstream: the buffer is required to be at least the minimum
    /// length of this packet.
    pub fn new_unchecked(data: &'a [u8]) -> (r: Ipv4Packet<'a>)
        requires
            data@.len() >= 20,
        ensures
            r@ == data@,
    {
        Ipv4Packet(data)
    }

    /// Returns the minimum number of bytes in this type of packet: the header
    /// size of this protocol.
    pub fn min_len() -> (r: usize)
        ensures
            r == 20,
    {
        20
    }

    /// Returns the number of bytes in this packet: the length of the byte
    /// slice backing the packet instance.
    pub fn len(&self) -> (r: usize)
        ensures
            r == self@.len(),
    {
        self.0.len()
    }

    /// Returns a reference to the slice backing this packet.
    pub fn data(&self) -> (r: &[u8])
        ensures
            r@ == self@,
    {
        self.0
    }

    /// Returns a slice to the part of the backing data that represents the
    /// header: everything up until `min_len()`.
    pub fn header(&self) -> (r: &[u8])
        ensures
            r@ == self@.subrange(0, 20),
    {
        proof {
            use_type_invariant(self);
        }
        slice_subrange(self.0, 0, 20)
    }

    /// Returns a slice to the payload part of the backing data: everything
    /// after the header, possibly empty.
    pub fn payload(&self) -> (r: &[u8])
        ensures
            r@ == self@.subrange(20, self@.len() as int),
    {
        proof {
            use_type_invariant(self);
        }
        slice_subrange(self.0, 20, self.0.len())
    }

    /// The version field: the high nibble of byte 0.
    pub fn version(&self) -> (r: u8)
        ensures
            r == self@[0] >> 4,
    {
        proof {
            use_type_invariant(self);
        }
        read_u8(self.0, 0) >> 4
    }

    /// The header length field: the low nibble of byte 0.
    pub fn header_length(&self) -> (r: u8)
        ensures
            r == self@[0] & 0x0f,
    {
        proof {
            use_type_invariant(self);
        }
        read_u8(self.0, 0) & 0x0f
    }

    /// The DSCP field: the high six bits of byte 1.
    pub fn dscp(&self) -> (r: u8)
        ensures
            r == self@[1] >> 2,
    {
        proof {
            use_type_invariant(self);
        }
        read_u8(self.0, 1) >> 2
    }

    /// The ECN field: the low two bits of byte 1.
    pub fn ecn(&self) -> (r: u8)
        ensures
            r == self@[1] & 0x03,
    {
        proof {
            use_type_invariant(self);
        }
        read_u8(self.0, 1) & 0x03
    }

    /// The total length field: bytes 2 and 3, big-endian.
    pub fn total_length(&self) -> (r: u16)
        ensures
            r == be16(self@[2], self@[3]),
    {
        proof {
            use_type_invariant(self);
        }
        read_u16_be(self.0, 2)
    }

    /// The identification field: bytes 4 and 5, big-endian.
    pub fn identification(&self) -> (r: u16)
        ensures
            r == be16(self@[4], self@[5]),
    {
        proof {
            use_type_invariant(self);
        }
        read_u16_be(self.0, 4)
    }

    /// The flags field: the high three bits of byte 6.
    pub fn flags(&self) -> (r: u8)
        ensures
            r == self@[6] >> 5,
    {
        proof {
            use_type_invariant(self);
        }
        read_u8(self.0, 6) >> 5
    }

    /// Whether the "Don't fragment" flag is set.
    pub fn dont_fragment(&self) -> (r: bool)
        ensures
            r == (((self@[6] >> 5) & DF) != 0),
    {
        (self.flags() & DF) != 0
    }

    /// Whether the "More fragments" flag is set.
    pub fn more_fragments(&self) -> (r: bool)
        ensures
            r == (((self@[6] >> 5) & MF) != 0),
    {
        (self.flags() & MF) != 0
    }

    /// The fragment offset field: the low 13 bits of the big-endian integer
    /// in bytes 6 and 7.
    pub fn fragment_offset(&self) -> (r: u16)
        ensures
            r == be16(self@[6], self@[7]) & 0x1fff,
    {
        proof {
            use_type_invariant(self);
        }
        read_u16_be(self.0, 6) & 0x1fff
    }

    /// The time-to-live field: byte 8.
    pub fn ttl(&self) -> (r: u8)
        ensures
            r == self@[8],
    {
        proof {
            use_type_invariant(self);
        }
        read_u8(self.0, 8)
    }

    /// The protocol field: byte 9.
    pub fn protocol(&self) -> (r: Protocol)
        ensures
            r.0 == self@[9],
    {
        proof {
            use_type_invariant(self);
        }
        Protocol(read_u8(self.0, 9))
    }

    /// The header checksum field: bytes 10 and 11, big-endian.
    pub fn header_checksum(&self) -> (r: u16)
        ensures
            r == be16(self@[10], self@[11]),
    {
        proof {
            use_type_invariant(self);
        }
        read_u16_be(self.0, 10)
    }

    /// The source address: bytes 12 to 15.
    pub fn source(&self) -> (r: Ipv4Addr)
        ensures
            r@ == self@.subrange(12, 16),
    {
        proof {
            use_type_invariant(self);
        }
        Ipv4Addr::from_slice(slice_subrange(self.0, 12, 16))
    }

    /// The destination address: bytes 16 to 19.
    pub fn destination(&self) -> (r: Ipv4Addr)
        ensures
            r@ == self@.subrange(16, 20),
    {
        proof {
            use_type_invariant(self);
        }
        Ipv4Addr::from_slice(slice_subrange(self.0, 16, 20))
    }
}

/// A mutable view over an IPv4 packet: owns the backing buffer while fields
/// are being set and hands it back through `into_inner`. Well-formed only
/// over a buffer of at least 20 bytes, so every field setter is in bounds.
pub struct MutIpv4Packet {
    data: Vec<u8>,
}

impl View for MutIpv4Packet {
    type V = Seq<u8>;

    closed spec fn view(&self) -> Seq<u8> {
        self.data@
    }
}

impl MutIpv4Packet {
    /// The backing buffer is long enough to hold the header.
    pub open spec fn wf(&self) -> bool {
        self@.len() >= 20
    }

    /// Creates a new mutable packet based on the given backing buffer.
    /// Returns `None` iff the buffer is shorter than the minimum length of
    /// this packet.
    pub fn new(data: Vec<u8>) -> (r: Option<MutIpv4Packet>)
        ensures
            data@.len() >= 20 ==> (r matches Some(p) && p@ == data@),
            data@.len() < 20 ==> r is None,
    {
        if data.len() >= 20 {
            Some(MutIpv4Packet { data })
        } else {
            None
        }
    }

    /// Creates a new mutable packet based on the given backing buffer without
    /// branching on its length. The caller must have validated the length
    /// upstream: the buffer is required to be at least the minimum length of
    /// this packet.
    pub fn new_unchecked(data: Vec<u8>) -> (r: MutIpv4Packet)
        requires
            data@.len() >= 20,
        ensures
            r@ == data@,
    {
        MutIpv4Packet { data }
    }

    /// Returns an immutable version of the same packet, backed by the same
    /// bytes. Used to access the getters.
    pub fn as_immutable(&self) -> (r: Ipv4Packet<'_>)
        requires
            self.wf(),
        ensures
            r@ == self@,
    {
        Ipv4Packet(self.data.as_slice())
    }

    /// Returns the minimum number of bytes in this type of packet: the header
    /// size of this protocol.
    pub fn min_len() -> (r: usize)
        ensures
            r == 20,
    {
        20
    }

    /// Returns the number of bytes in this packet: the length of the byte
    /// slice backing the packet instance.
    pub fn len(&self) -> (r: usize)
        ensures
            r == self@.len(),
    {
        self.data.len()
    }

    /// Returns a reference to the slice backing this packet.
    pub fn data(&self) -> (r: &[u8])
        ensures
            r@ == self@,
    {
        self.data.as_slice()
    }

    /// Returns a slice to the part of the backing data that represents the
    /// header: everything up until `min_len()`.
    pub fn header(&self) -> (r: &[u8])
        requires
            self.wf(),
        ensures
            r@ == self@.subrange(0, 20),
    {
        slice_subrange(self.data.as_slice(), 0, 20)
    }

    /// Returns a slice to the payload part of the backing data: everything
    /// after the header, possibly empty.
    pub fn payload(&self) -> (r: &[u8])
        requires
            self.wf(),
        ensures
            r@ == self@.subrange(20, self@.len() as int),
    {
        let len = self.data.len();
        slice_subrange(self.data.as_slice(), 20, len)
    }

    /// Hands the backing buffer back to the caller.
    pub fn into_inner(self) -> (r: Vec<u8>)
        ensures
            r@ == self@,
    {
        self.data
    }

    /// Writes the version field into the high nibble of byte 0, preserving
    /// the header length nibble. No other byte changes.
    pub fn set_version(&mut self, version: u8)
        requires
            old(self).wf(),
        ensures
            final(self)@ == old(self)@.update(0, (version << 4) | (old(self)@[0] & 0x0f)),
            final(self).wf(),
    {
        let b = read_u8(self.data.as_slice(), 0);
        write_u8(&mut self.data, 0, (version << 4) | (b & 0x0f));
    }

    /// Writes the header length field into the low nibble of byte 0,
    /// preserving the version nibble. No other byte changes.
    pub fn set_header_length(&mut self, header_length: u8)
        requires
            old(self).wf(),
        ensures
            final(self)@ == old(self)@.update(0, (old(self)@[0] & 0xf0) | (header_length & 0x0f)),
            final(self).wf(),
    {
        let b = read_u8(self.data.as_slice(), 0);
        write_u8(&mut self.data, 0, (b & 0xf0) | (header_length & 0x0f));
    }

    /// Writes the DSCP field into the high six bits of byte 1, preserving the
    /// ECN bits. No other byte changes.
    pub fn set_dscp(&mut self, dscp: u8)
        requires
            old(self).wf(),
        ensures
            final(self)@ == old(self)@.update(1, (dscp << 2) | (old(self)@[1] & 0x03)),
            final(self).wf(),
    {
        let b = read_u8(self.data.as_slice(), 1);
        write_u8(&mut self.data, 1, (dscp << 2) | (b & 0x03));
    }

    /// Writes the ECN field into the low two bits of byte 1, preserving the
    /// DSCP bits. No other byte changes.
    pub fn set_ecn(&mut self, ecn: u8)
        requires
            old(self).wf(),
        ensures
            final(self)@ == old(self)@.update(1, (old(self)@[1] & 0xfc) | (ecn & 0x03)),
            final(self).wf(),
    {
        let b = read_u8(self.data.as_slice(), 1);
        write_u8(&mut self.data, 1, (b & 0xfc) | (ecn & 0x03));
    }

    /// Writes the total length field: bytes 2 and 3, big-endian. No other
    /// byte changes.
    pub fn set_total_length(&mut self, total_length: u16)
        requires
            old(self).wf(),
        ensures
            final(self)@ == old(self)@.update(2, be16_hi(total_length)).update(
                3,
                be16_lo(total_length),
            ),
            final(self).wf(),
    {
        write_u16_be(&mut self.data, 2, total_length);
    }

    /// Writes the identification field: bytes 4 and 5, big-endian. No other
    /// byte changes.
    pub fn set_identification(&mut self, identification: u16)
        requires
            old(self).wf(),
        ensures
            final(self)@ == old(self)@.update(4, be16_hi(identification)).update(
                5,
                be16_lo(identification),
            ),
            final(self).wf(),
    {
        write_u16_be(&mut self.data, 4, identification);
    }

    /// Writes the flags field into the high three bits of byte 6, preserving
    /// the high bits of the fragment offset. No other byte changes.
    pub fn set_flags(&mut self, flags: u8)
        requires
            old(self).wf(),
        ensures
            final(self)@ == old(self)@.update(6, (flags << 5) | (old(self)@[6] & 0x1f)),
            final(self).wf(),
    {
        let b = read_u8(self.data.as_slice(), 6);
        write_u8(&mut self.data, 6, (flags << 5) | (b & 0x1f));
    }

    /// Writes the fragment offset field into the low 13 bits of the
    /// big-endian integer in bytes 6 and 7, preserving the flags bits. No
    /// other byte changes.
    pub fn set_fragment_offset(&mut self, fragment_offset: u16)
        requires
            old(self).wf(),
        ensures
            final(self)@ == old(self)@.update(
                6,
                be16_hi((be16(old(self)@[6], old(self)@[7]) & 0xe000) | (fragment_offset & 0x1fff)),
            ).update(
                7,
                be16_lo((be16(old(self)@[6], old(self)@[7]) & 0xe000) | (fragment_offset & 0x1fff)),
            ),
            final(self).wf(),
    {
        let b = read_u16_be(self.data.as_slice(), 6);
        write_u16_be(&mut self.data, 6, (b & 0xe000) | (fragment_offset & 0x1fff));
    }

    /// Writes the time-to-live field: byte 8. No other byte changes.
    pub fn set_ttl(&mut self, ttl: u8)
        requires
            old(self).wf(),
        ensures
            final(self)@ == old(self)@.update(8, ttl),
            final(self).wf(),
    {
        write_u8(&mut self.data, 8, ttl);
    }

    /// Writes the protocol field: byte 9. No other byte changes.
    pub fn set_protocol(&mut self, protocol: Protocol)
        requires
            old(self).wf(),
        ensures
            final(self)@ == old(self)@.update(9, protocol.0),
            final(self).wf(),
    {
        write_u8(&mut self.data, 9, protocol.value());
    }

    /// Writes the header checksum field: bytes 10 and 11, big-endian. No
    /// other byte changes.
    pub fn set_header_checksum(&mut self, checksum: u16)
        requires
            old(self).wf(),
        ensures
            final(self)@ == old(self)@.update(10, be16_hi(checksum)).update(11, be16_lo(checksum)),
            final(self).wf(),
    {
        write_u16_be(&mut self.data, 10, checksum);
    }

    /// Writes the source address: bytes 12 to 15. No other byte changes.
    pub fn set_source(&mut self, source: Ipv4Addr)
        requires
            old(self).wf(),
        ensures
            final(self)@ == splice(old(self)@, 12, source@),
            final(self).wf(),
    {
        write_slice(&mut self.data, 12, source.as_slice());
    }

    /// Writes the destination address: bytes 16 to 19. No other byte changes.
    pub fn set_destination(&mut self, destination: Ipv4Addr)
        requires
            old(self).wf(),
        ensures
            final(self)@ == splice(old(self)@, 16, destination@),
            final(self).wf(),
    {
        write_slice(&mut self.data, 16, destination.as_slice());
    }
}

} // verus!
