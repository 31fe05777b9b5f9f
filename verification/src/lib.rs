//! Zero-copy views over byte buffers holding fixed-layout network protocol
//! headers, together with a link-layer frame dispatcher.
//!
//! Every packet type comes as a pair of structs: an immutable view for reading
//! header fields and a mutable view for setting them. Field accessors only
//! index, mask and shift bytes of the backing buffer; their exact byte-level
//! behaviour is stated in their contracts and verified.

pub mod arp;
pub mod codec;
pub mod ethernet;
pub mod ip;
pub mod ipaddr;
pub mod ipv4;
pub mod ipv6;
pub mod macaddr;
pub mod rx;
