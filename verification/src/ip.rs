//! The eight bit protocol field shared by IPv4 (`protocol`) and IPv6
//! (`next_header`): an opaque integer naming the protocol of the payload.

use vstd::prelude::*;

verus! {

/// Represents the eight bit header field in IPv4/IPv6 that defines what
/// protocol the payload has. Values are compared by value; unknown values are
/// valid and round-trip unchanged.
#[derive(Debug, Copy, Clone, Eq, PartialEq, Hash, Structural)]
pub struct Protocol(pub u8);

impl Protocol {
    /// The protocol number assigned to ICMP.
    pub fn icmp() -> (r: Protocol)
        ensures
            r == Protocol(1u8),
    {
        Protocol(1)
    }

    /// The protocol number assigned to TCP.
    pub fn tcp() -> (r: Protocol)
        ensures
            r == Protocol(6u8),
    {
        Protocol(6)
    }

    /// The protocol number assigned to UDP.
    pub fn udp() -> (r: Protocol)
        ensures
            r == Protocol(17u8),
    {
        Protocol(17)
    }

    /// The reserved protocol number.
    pub fn reserved() -> (r: Protocol)
        ensures
            r == Protocol(255u8),
    {
        Protocol(255)
    }

    /// Returns the numeric representation of this protocol.
    pub fn value(&self) -> (r: u8)
        ensures
            r == self.0,
    {
        self.0
    }

    /// Whether the protocol number lies in the unassigned range.
    pub fn is_unassigned(&self) -> (r: bool)
        ensures
            r == (143 <= self.0 <= 252),
    {
        self.0 >= 143 && self.0 <= 252
    }

    /// Whether the protocol number lies in the range reserved for
    /// experimentation and testing.
    pub fn is_experimental(&self) -> (r: bool)
        ensures
            r == (253 <= self.0 <= 254),
    {
        self.0 >= 253 && self.0 <= 254
    }
}

} // verus!
