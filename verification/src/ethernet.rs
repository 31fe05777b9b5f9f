//! Link layer primitives: immutable and mutable views over an Ethernet frame
//! and the 16-bit EtherType field.
//!
//! An Ethernet frame starts with a 14-byte header: destination address (6
//! bytes), source address (6 bytes) and EtherType (2 bytes, big-endian). The
//! payload is everything after the header.

use vstd::prelude::*;
use crate::codec::{be16, be16_hi, be16_lo, read_u16_be, splice, write_slice, write_u16_be};
use crate::macaddr::MacAddr;
use vstd::slice::slice_subrange;

verus! {

/// A representation of the 16 bit EtherType header field of an Ethernet
/// packet. Values are opaque integers compared by value; unknown values are
/// valid and round-trip unchanged.
#[derive(Debug, Copy, Clone, Eq, PartialEq, Hash, Structural)]
pub struct EtherType(pub u16);

impl EtherType {
    /// The EtherType assigned to IPv4.
    pub fn ipv4() -> (r: EtherType)
        ensures
            r == EtherType(0x0800u16),
    {
        EtherType(0x0800)
    }

    /// The EtherType assigned to ARP.
    pub fn arp() -> (r: EtherType)
        ensures
            r == EtherType(0x0806u16),
    {
        EtherType(0x0806)
    }

    /// The EtherType assigned to IPv6.
    pub fn ipv6() -> (r: EtherType)
        ensures
            r == EtherType(0x86DDu16),
    {
        EtherType(0x86DD)
    }

    /// Returns the numeric representation of this EtherType.
    pub fn value(&self) -> (r: u16)
        ensures
            r == self.0,
    {
        self.0
    }
}

/// Frame-level round trip for the destination field: after writing a
/// destination address, the bytes the destination getter reads are exactly
/// those written, while the source bytes, the EtherType bytes and the payload
/// keep their old values.
pub proof fn lemma_destination_round_trip(s: Seq<u8>, d: Seq<u8>)
    requires
        s.len() >= 14,
        d.len() == 6,
    ensures
        splice(s, 0, d).len() == s.len(),
        splice(s, 0, d).subrange(0, 6) == d,
        splice(s, 0, d).subrange(6, 12) == s.subrange(6, 12),
        splice(s, 0, d)[12] == s[12],
        splice(s, 0, d)[13] == s[13],
        splice(s, 0, d).subrange(14, s.len() as int) == s.subrange(14, s.len() as int),
{
    assert(splice(s, 0, d).subrange(0, 6) =~= d);
    assert(splice(s, 0, d).subrange(6, 12) =~= s.subrange(6, 12));
    assert(splice(s, 0, d).subrange(14, s.len() as int) =~= s.subrange(14, s.len() as int));
}

/// An immutable view over an Ethernet frame. Constructible only over a buffer
/// of at least 14 bytes, so every field accessor is in bounds.
#[derive(Debug, Copy, Clone)]
pub struct EthernetPacket<'a>(&'a [u8]);

impl<'a> View for EthernetPacket<'a> {
    type V = Seq<u8>;

    closed spec fn view(&self) -> Seq<u8> {
        self.0@
    }
}

impl<'a> EthernetPacket<'a> {
    #[verifier::type_invariant]
    closed spec fn inv(self) -> bool {
        self.0@.len() >= 14
    }

    /// Creates a new immutable packet based on the given backing slice.
    /// Returns `None` iff the buffer is shorter than the minimum length of
    /// this packet.
    pub fn new(data: &'a [u8]) -> (r: Option<EthernetPacket<'a>>)
        ensures
            data@.len() >= 14 ==> (r matches Some(p) && p@ == data@),
            data@.len() < 14 ==> r is None,
    {
        if data.len() >= 14 {
            Some(EthernetPacket(data))
        } else {
            None
        }
    }

    /// Creates a new immutable packet based on the given backing slice
    /// without branching on its length. The caller must have validated the
    /// length upstream: the buffer is required to be at least the minimum
    /// length of this packet.
    pub fn new_unchecked(data: &'a [u8]) -> (r: EthernetPacket<'a>)
        requires
            data@.len() >= 14,
        ensures
            r@ == data@,
    {
        EthernetPacket(data)
    }

    /// Returns the minimum number of bytes in this type of packet: the header
    /// size of this protocol.
    pub fn min_len() -> (r: usize)
        ensures
            r == 14,
    {
        14
    }

    /// Returns the number of bytes in this packet: the length of the byte
    /// slice backing the packet instance.
    pub fn len(&self) -> (r: usize)
        ensures
            r == self@.len(),
    {
        self.0.len()
    }

    /// Returns a reference to the slice backing this packet.
    pub fn data(&self) -> (r: &[u8])
        ensures
            r@ == self@,
    {
        self.0
    }

    /// Returns a slice to the part of the backing data that represents the
    /// header: everything up until `min_len()`.
    pub fn header(&self) -> (r: &[u8])
        ensures
            r@ == self@.subrange(0, 14),
    {
        proof {
            use_type_invariant(self);
        }
        slice_subrange(self.0, 0, 14)
    }

    /// Returns a slice to the payload part of the backing data: everything
    /// after the header, possibly empty.
    pub fn payload(&self) -> (r: &[u8])
        ensures
            r@ == self@.subrange(14, self@.len() as int),
    {
        proof {
            use_type_invariant(self);
        }
        slice_subrange(self.0, 14, self.0.len())
    }

    /// The destination MAC address: bytes 0 to 5.
    pub fn destination(&self) -> (r: MacAddr)
        ensures
            r@ == self@.subrange(0, 6),
    {
        proof {
            use_type_invariant(self);
        }
        MacAddr::from_slice(slice_subrange(self.0, 0, 6))
    }

    /// The source MAC address: bytes 6 to 11.
    pub fn source(&self) -> (r: MacAddr)
        ensures
            r@ == self@.subrange(6, 12),
    {
        proof {
            use_type_invariant(self);
        }
        MacAddr::from_slice(slice_subrange(self.0, 6, 12))
    }

    /// The EtherType field: bytes 12 and 13, big-endian.
    pub fn ether_type(&self) -> (r: EtherType)
        ensures
            r.0 == be16(self@[12], self@[13]),
    {
        proof {
            use_type_invariant(self);
        }
        EtherType(read_u16_be(self.0, 12))
    }
}

/// A mutable view over an Ethernet frame: owns the backing buffer while
/// fields are being set and hands it back through `into_inner`. Well-formed
/// only over a buffer of at least 14 bytes, so every field setter is in
/// bounds.
pub struct MutEthernetPacket {
    data: Vec<u8>,
}

impl View for MutEthernetPacket {
    type V = Seq<u8>;

    closed spec fn view(&self) -> Seq<u8> {
        self.data@
    }
}

impl MutEthernetPacket {
    /// The backing buffer is long enough to hold the header.
    pub open spec fn wf(&self) -> bool {
        self@.len() >= 14
    }

    /// Creates a new mutable packet based on the given backing buffer.
    /// Returns `None` iff the buffer is shorter than the minimum length of
    /// this packet.
    pub fn new(data: Vec<u8>) -> (r: Option<MutEthernetPacket>)
        ensures
            data@.len() >= 14 ==> (r matches Some(p) && p@ == data@),
            data@.len() < 14 ==> r is None,
    {
        if data.len() >= 14 {
            Some(MutEthernetPacket { data })
        } else {
            None
        }
    }

    /// Creates a new mutable packet based on the given backing buffer without
    /// branching on its length. The caller must have validated the length
    /// upstream: the buffer is required to be at least the minimum length of
    /// this packet.
    pub fn new_unchecked(data: Vec<u8>) -> (r: MutEthernetPacket)
        requires
            data@.len() >= 14,
        ensures
            r@ == data@,
    {
        MutEthernetPacket { data }
    }

    /// Returns an immutable version of the same packet, backed by the same
    /// bytes. Used to access the getters.
    pub fn as_immutable(&self) -> (r: EthernetPacket<'_>)
        requires
            self.wf(),
        ensures
            r@ == self@,
    {
        EthernetPacket(self.data.as_slice())
    }

    /// Returns the minimum number of bytes in this type of packet: the header
    /// size of this protocol.
    pub fn min_len() -> (r: usize)
        ensures
            r == 14,
    {
        14
    }

    /// Returns the number of bytes in this packet: the length of the byte
    /// slice backing the packet instance.
    pub fn len(&self) -> (r: usize)
        ensures
            r == self@.len(),
    {
        self.data.len()
    }

    /// Returns a reference to the slice backing this packet.
    pub fn data(&self) -> (r: &[u8])
        ensures
            r@ == self@,
    {
        self.data.as_slice()
    }

    /// Returns a slice to the part of the backing data that represents the
    /// header: everything up until `min_len()`.
    pub fn header(&self) -> (r: &[u8])
        requires
            self.wf(),
        ensures
            r@ == self@.subrange(0, 14),
    {
        slice_subrange(self.data.as_slice(), 0, 14)
    }

    /// Returns a slice to the payload part of the backing data: everything
    /// after the header, possibly empty.
    pub fn payload(&self) -> (r: &[u8])
        requires
            self.wf(),
        ensures
            r@ == self@.subrange(14, self@.len() as int),
    {
        let len = self.data.len();
        slice_subrange(self.data.as_slice(), 14, len)
    }

    /// Hands the backing buffer back to the caller.
    pub fn into_inner(self) -> (r: Vec<u8>)
        ensures
            r@ == self@,
    {
        self.data
    }

    /// Writes the destination MAC address: bytes 0 to 5. No other byte
    /// changes.
    pub fn set_destination(&mut self, destination: MacAddr)
        requires
            old(self).wf(),
        ensures
            final(self)@ == splice(old(self)@, 0, destination@),
            final(self).wf(),
    {
        write_slice(&mut self.data, 0, destination.as_ref());
    }

    /// Writes the source MAC address: bytes 6 to 11. No other byte changes.
    pub fn set_source(&mut self, source: MacAddr)
        requires
            old(self).wf(),
        ensures
            final(self)@ == splice(old(self)@, 6, source@),
            final(self).wf(),
    {
        write_slice(&mut self.data, 6, source.as_ref());
    }

    /// Writes the EtherType field: bytes 12 and 13, big-endian. No other byte
    /// changes.
    pub fn set_ether_type(&mut self, ether_type: EtherType)
        requires
            old(self).wf(),
        ensures
            final(self)@ == old(self)@.update(12, be16_hi(ether_type.0)).update(
                13,
                be16_lo(ether_type.0),
            ),
            final(self).wf(),
    {
        write_u16_be(&mut self.data, 12, ether_type.value());
    }

    /// Writes one byte of the payload: byte `index` counted from the end of
    /// the header. No other byte changes.
    pub fn set_payload_byte(&mut self, index: usize, value: u8)
        requires
            old(self).wf(),
            14 + index < old(self)@.len(),
        ensures
            final(self)@ == old(self)@.update(14 + index, value),
            final(self).wf(),
    {
        proof {
            vstd::std_specs::vec::axiom_spec_len(&self.data);
        }
        self.data[14 + index] = value;
    }
}

} // verus!
