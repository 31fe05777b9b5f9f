//! Address-resolution header primitives: immutable and mutable views over a
//! 28-byte header together with the hardware-type and operation fields.
//!
//! Layout: hardware-type (2 bytes, big-endian) | protocol-type (2, BE) |
//! hardware-len (1) | protocol-len (1) | operation (2, BE) |
//! sender-hw-addr (6) | sender-proto-addr (4) | target-hw-addr (6) |
//! target-proto-addr (4).

use vstd::prelude::*;
use crate::codec::{be16, be16_hi, be16_lo, read_u16_be, read_u8, splice, write_slice, write_u16_be, write_u8};
use crate::ethernet::EtherType;
use crate::ipaddr::Ipv4Addr;
use crate::macaddr::MacAddr;
use vstd::slice::slice_subrange;

verus! {

/// The 16 bit hardware type field of an address-resolution header. Values are
/// compared by value; unknown values are valid and round-trip unchanged.
#[derive(Debug, Copy, Clone, Eq, PartialEq, Hash, Structural)]
pub struct HardwareType(pub u16);

impl HardwareType {
    /// The hardware type assigned to Ethernet.
    pub fn ethernet() -> (r: HardwareType)
        ensures
            r == HardwareType(1u16),
    {
        HardwareType(1)
    }

    /// Returns the numeric representation of this hardware type.
    pub fn value(&self) -> (r: u16)
        ensures
            r == self.0,
    {
        self.0
    }
}

/// The 16 bit operation field of an address-resolution header. Values are
/// small integer codes compared by value; unrecognized codes are valid and
/// round-trip unchanged.
#[derive(Debug, Copy, Clone, Eq, PartialEq, Hash, Structural)]
pub struct Operation(pub u16);

impl Operation {
    /// The operation code of a request.
    pub fn request() -> (r: Operation)
        ensures
            r == Operation(1u16),
    {
        Operation(1)
    }

    /// The operation code of a reply.
    pub fn reply() -> (r: Operation)
        ensures
            r == Operation(2u16),
    {
        Operation(2)
    }

    /// Returns the numeric representation of this operation.
    pub fn value(&self) -> (r: u16)
        ensures
            r == self.0,
    {
        self.0
    }
}

/// An immutable view over an address-resolution packet. Constructible only
/// over a buffer of at least 28 bytes, so every field accessor is in bounds.
#[derive(Debug, Copy, Clone)]
pub struct ArpPacket<'a>(&'a [u8]);

impl<'a> View for ArpPacket<'a> {
    type V = Seq<u8>;

    closed spec fn view(&self) -> Seq<u8> {
        self.0@
    }
}

impl<'a> ArpPacket<'a> {
    #[verifier::type_invariant]
    closed spec fn inv(self) -> bool {
        self.0@.len() >= 28
    }

    /// Creates a new immutable packet based on the given backing slice.
    /// Returns `None` iff the buffer is shorter than the minimum length of
    /// this packet.
    pub fn new(data: &'a [u8]) -> (r: Option<ArpPacket<'a>>)
        ensures
            data@.len() >= 28 ==> (r matches Some(p) && p@ == data@),
            data@.len() < 28 ==> r is None,
    {
        if data.len() >= 28 {
            Some(ArpPacket(data))
        } else {
            None
        }
    }

    /// Creates a new immutable packet based on the given backing slice
    /// without branching on its length. The caller must have validated the
    /// length upstream: the buffer is required to be at least the minimum
    /// length of this packet.
    pub fn new_unchecked(data: &'a [u8]) -> (r: ArpPacket<'a>)
        requires
            data@.len() >= 28,
        ensures
            r@ == data@,
    {
        ArpPacket(data)
    }

    /// Returns the minimum number of bytes in this type of packet: the header
    /// size of this protocol.
    pub fn min_len() -> (r: usize)
        ensures
            r == 28,
    {
        28
    }

    /// Returns the number of bytes in this packet: the length of the byte
    /// slice backing the packet instance.
    pub fn len(&self) -> (r: usize)
        ensures
            r == self@.len(),
    {
        self.0.len()
    }

    /// Returns a reference to the slice backing this packet.
    pub fn data(&self) -> (r: &[u8])
        ensures
            r@ == self@,
    {
        self.0
    }

    /// Returns a slice to the part of the backing data that represents the
    /// header: everything up until `min_len()`.
    pub fn header(&self) -> (r: &[u8])
        ensures
            r@ == self@.subrange(0, 28),
    {
        proof {
            use_type_invariant(self);
        }
        slice_subrange(self.0, 0, 28)
    }

    /// Returns a slice to the payload part of the backing data: everything
    /// after the header, possibly empty.
    pub fn payload(&self) -> (r: &[u8])
        ensures
            r@ == self@.subrange(28, self@.len() as int),
    {
        proof {
            use_type_invariant(self);
        }
        slice_subrange(self.0, 28, self.0.len())
    }

    /// The hardware type field: bytes 0 and 1, big-endian.
    pub fn hardware_type(&self) -> (r: HardwareType)
        ensures
            r.0 == be16(self@[0], self@[1]),
    {
        proof {
            use_type_invariant(self);
        }
        HardwareType(read_u16_be(self.0, 0))
    }

    /// The protocol type field: bytes 2 and 3, big-endian.
    pub fn protocol_type(&self) -> (r: EtherType)
        ensures
            r.0 == be16(self@[2], self@[3]),
    {
        proof {
            use_type_invariant(self);
        }
        EtherType(read_u16_be(self.0, 2))
    }

    /// The hardware address length field: byte 4.
    pub fn hardware_length(&self) -> (r: u8)
        ensures
            r == self@[4],
    {
        proof {
            use_type_invariant(self);
        }
        read_u8(self.0, 4)
    }

    /// The protocol address length field: byte 5.
    pub fn protocol_length(&self) -> (r: u8)
        ensures
            r == self@[5],
    {
        proof {
            use_type_invariant(self);
        }
        read_u8(self.0, 5)
    }

    /// The operation field: bytes 6 and 7, big-endian.
    pub fn operation(&self) -> (r: Operation)
        ensures
            r.0 == be16(self@[6], self@[7]),
    {
        proof {
            use_type_invariant(self);
        }
        Operation(read_u16_be(self.0, 6))
    }

    /// The sender hardware address: bytes 8 to 13.
    pub fn sender_mac_addr(&self) -> (r: MacAddr)
        ensures
            r@ == self@.subrange(8, 14),
    {
        proof {
            use_type_invariant(self);
        }
        MacAddr::from_slice(slice_subrange(self.0, 8, 14))
    }

    /// The sender protocol address: bytes 14 to 17.
    pub fn sender_ip_addr(&self) -> (r: Ipv4Addr)
        ensures
            r@ == self@.subrange(14, 18),
    {
        proof {
            use_type_invariant(self);
        }
        Ipv4Addr::from_slice(slice_subrange(self.0, 14, 18))
    }

    /// The target hardware address: bytes 18 to 23.
    pub fn target_mac_addr(&self) -> (r: MacAddr)
        ensures
            r@ == self@.subrange(18, 24),
    {
        proof {
            use_type_invariant(self);
        }
        MacAddr::from_slice(slice_subrange(self.0, 18, 24))
    }

    /// The target protocol address: bytes 24 to 27.
    pub fn target_ip_addr(&self) -> (r: Ipv4Addr)
        ensures
            r@ == self@.subrange(24, 28),
    {
        proof {
            use_type_invariant(self);
        }
        Ipv4Addr::from_slice(slice_subrange(self.0, 24, 28))
    }
}

/// A mutable view over an address-resolution packet: owns the backing buffer
/// while fields are being set and hands it back through `into_inner`.
/// Well-formed only over a buffer of at least 28 bytes, so every field setter
/// is in bounds.
pub struct MutArpPacket {
    data: Vec<u8>,
}

impl View for MutArpPacket {
    type V = Seq<u8>;

    closed spec fn view(&self) -> Seq<u8> {
        self.data@
    }
}

impl MutArpPacket {
    /// The backing buffer is long enough to hold the header.
    pub open spec fn wf(&self) -> bool {
        self@.len() >= 28
    }

    /// Creates a new mutable packet based on the given backing buffer.
    /// Returns `None` iff the buffer is shorter than the minimum length of
    /// this packet.
    pub fn new(data: Vec<u8>) -> (r: Option<MutArpPacket>)
        ensures
            data@.len() >= 28 ==> (r matches Some(p) && p@ == data@),
            data@.len() < 28 ==> r is None,
    {
        if data.len() >= 28 {
            Some(MutArpPacket { data })
        } else {
            None
        }
    }

    /// Creates a new mutable packet based on the given backing buffer without
    /// branching on its length. The caller must have validated the length
    /// upstream: the buffer is required to be at least the minimum length of
    /// this packet.
    pub fn new_unchecked(data: Vec<u8>) -> (r: MutArpPacket)
        requires
            data@.len() >= 28,
        ensures
            r@ == data@,
    {
        MutArpPacket { data }
    }

    /// Returns an immutable version of the same packet, backed by the same
    /// bytes. Used to access the getters.
    pub fn as_immutable(&self) -> (r: ArpPacket<'_>)
        requires
            self.wf(),
        ensures
            r@ == self@,
    {
        ArpPacket(self.data.as_slice())
    }

    /// Returns the minimum number of bytes in this type of packet: the header
    /// size of this protocol.
    pub fn min_len() -> (r: usize)
        ensures
            r == 28,
    {
        28
    }

    /// Returns the number of bytes in this packet: the length of the byte
    /// slice backing the packet instance.
    pub fn len(&self) -> (r: usize)
        ensures
            r == self@.len(),
    {
        self.data.len()
    }

    /// Returns a reference to the slice backing this packet.
    pub fn data(&self) -> (r: &[u8])
        ensures
            r@ == self@,
    {
        self.data.as_slice()
    }

    /// Returns a slice to the part of the backing data that represents the
    /// header: everything up until `min_len()`.
    pub fn header(&self) -> (r: &[u8])
        requires
            self.wf(),
        ensures
            r@ == self@.subrange(0, 28),
    {
        slice_subrange(self.data.as_slice(), 0, 28)
    }

    /// Returns a slice to the payload part of the backing data: everything
    /// after the header, possibly empty.
    pub fn payload(&self) -> (r: &[u8])
        requires
            self.wf(),
        ensures
            r@ == self@.subrange(28, self@.len() as int),
    {
        let len = self.data.len();
        slice_subrange(self.data.as_slice(), 28, len)
    }

    /// Hands the backing buffer back to the caller.
    pub fn into_inner(self) -> (r: Vec<u8>)
        ensures
            r@ == self@,
    {
        self.data
    }

    /// Sets the hardware_type, hardware_length, protocol_type and
    /// protocol_length fields to correct values for an IPv4 over Ethernet
    /// packet: hardware type 1, protocol type 0x0800, hardware length 6,
    /// protocol length 4. No byte outside the first six changes.
    pub fn set_ipv4_over_ethernet_values(&mut self)
        requires
            old(self).wf(),
        ensures
            final(self)@ == splice(old(self)@, 0, seq![0u8, 1u8, 8u8, 0u8, 6u8, 4u8]),
            final(self).wf(),
    {
        self.set_hardware_type(HardwareType::ethernet());
        self.set_protocol_type(EtherType::ipv4());
        self.set_hardware_length(6);
        self.set_protocol_length(4);
        proof {
            assert(self@ =~= splice(old(self)@, 0, seq![0u8, 1u8, 8u8, 0u8, 6u8, 4u8]));
        }
    }

    /// Writes the hardware type field: bytes 0 and 1, big-endian. No other
    /// byte changes.
    pub fn set_hardware_type(&mut self, hardware_type: HardwareType)
        requires
            old(self).wf(),
        ensures
            final(self)@ == old(self)@.update(0, be16_hi(hardware_type.0)).update(
                1,
                be16_lo(hardware_type.0),
            ),
            final(self).wf(),
    {
        write_u16_be(&mut self.data, 0, hardware_type.value());
    }

    /// Writes the protocol type field: bytes 2 and 3, big-endian. No other
    /// byte changes.
    pub fn set_protocol_type(&mut self, protocol_type: EtherType)
        requires
            old(self).wf(),
        ensures
            final(self)@ == old(self)@.update(2, be16_hi(protocol_type.0)).update(
                3,
                be16_lo(protocol_type.0),
            ),
            final(self).wf(),
    {
        write_u16_be(&mut self.data, 2, protocol_type.value());
    }

    /// Writes the hardware address length field: byte 4. No other byte
    /// changes.
    pub fn set_hardware_length(&mut self, hardware_length: u8)
        requires
            old(self).wf(),
        ensures
            final(self)@ == old(self)@.update(4, hardware_length),
            final(self).wf(),
    {
        write_u8(&mut self.data, 4, hardware_length);
    }

    /// Writes the protocol address length field: byte 5. No other byte
    /// changes.
    pub fn set_protocol_length(&mut self, protocol_length: u8)
        requires
            old(self).wf(),
        ensures
            final(self)@ == old(self)@.update(5, protocol_length),
            final(self).wf(),
    {
        write_u8(&mut self.data, 5, protocol_length);
    }

    /// Writes the operation field: bytes 6 and 7, big-endian. No other byte
    /// changes.
    pub fn set_operation(&mut self, operation: Operation)
        requires
            old(self).wf(),
        ensures
            final(self)@ == old(self)@.update(6, be16_hi(operation.0)).update(
                7,
                be16_lo(operation.0),
            ),
            final(self).wf(),
    {
        write_u16_be(&mut self.data, 6, operation.value());
    }

    /// Writes the sender hardware address: bytes 8 to 13. No other byte
    /// changes.
    pub fn set_sender_mac_addr(&mut self, sender_mac: MacAddr)
        requires
            old(self).wf(),
        ensures
            final(self)@ == splice(old(self)@, 8, sender_mac@),
            final(self).wf(),
    {
        write_slice(&mut self.data, 8, sender_mac.as_ref());
    }

    /// Writes the sender protocol address: bytes 14 to 17. No other byte
    /// changes.
    pub fn set_sender_ip_addr(&mut self, sender_ip: Ipv4Addr)
        requires
            old(self).wf(),
        ensures
            final(self)@ == splice(old(self)@, 14, sender_ip@),
            final(self).wf(),
    {
        write_slice(&mut self.data, 14, sender_ip.as_slice());
    }

    /// Writes the target hardware address: bytes 18 to 23. No other byte
    /// changes.
    pub fn set_target_mac_addr(&mut self, target_mac: MacAddr)
        requires
            old(self).wf(),
        ensures
            final(self)@ == splice(old(self)@, 18, target_mac@),
            final(self).wf(),
    {
        write_slice(&mut self.data, 18, target_mac.as_ref());
    }

    /// Writes the target protocol address: bytes 24 to 27. No other byte
    /// changes.
    pub fn set_target_ip_addr(&mut self, target_ip: Ipv4Addr)
        requires
            old(self).wf(),
        ensures
            final(self)@ == splice(old(self)@, 24, target_ip@),
            final(self).wf(),
    {
        write_slice(&mut self.data, 24, target_ip.as_slice());
    }
}

} // verus!
