//! Ethernet frame dispatcher: validates the destination address of an
//! inbound frame and routes its payload to the listener configured for the
//! frame's EtherType.
//!
//! The routing table is fixed at construction: one listener per EtherType,
//! duplicates rejected. Dispatching never mutates the table's keys; only the
//! matched listener runs, on the payload following the 14-byte header.

use vstd::prelude::*;
use crate::codec::be16;
use crate::ethernet::{EtherType, EthernetPacket};
use crate::macaddr::{broadcast_mac_seq, MacAddr};

verus! {

/// A handler for the payload of an admitted and routed Ethernet frame.
/// Implementors report success or an error of their own type `E`; the
/// dispatcher hands that error back unchanged.
pub trait EthernetPayloadListener<E> {
    /// Handles the payload of one frame.
    fn recv(&mut self, data: &[u8]) -> Result<(), E>;
}

/// Everything that can go wrong while dispatching one frame: one variant per
/// framing failure plus one wrapping a routed listener's own error together
/// with the EtherType of its route.
#[derive(Debug)]
pub enum EthernetRxError<E> {
    /// The frame is shorter than the 14-byte Ethernet header.
    TooShortPacket,
    /// The destination address matches neither this receiver nor broadcast;
    /// carries the destination that was read.
    InvalidDestination(MacAddr),
    /// No route is configured for the frame's EtherType; carries that
    /// EtherType.
    IgnoredEtherType(EtherType),
    /// The routed listener failed; carries the EtherType of the route and the
    /// listener's error, unchanged.
    ListenerError(EtherType, E),
}

/// The destination address bytes of an Ethernet frame.
pub open spec fn spec_destination(frame: Seq<u8>) -> Seq<u8> {
    frame.subrange(0, 6)
}

/// The EtherType of an Ethernet frame.
pub open spec fn spec_ether_type(frame: Seq<u8>) -> u16 {
    be16(frame[12], frame[13])
}

/// Whether a frame is admitted by a receiver with address `mac`: its
/// destination is `mac` or broadcast.
pub open spec fn spec_admitted(frame: Seq<u8>, mac: Seq<u8>) -> bool {
    spec_destination(frame) == mac || spec_destination(frame) == broadcast_mac_seq()
}

/// The position of the first route whose key is `et`, if any.
pub open spec fn spec_route_index(keys: Seq<u16>, et: u16) -> Option<int>
    decreases keys.len(),
{
    if keys.len() == 0 {
        None
    } else if keys[0] == et {
        Some(0int)
    } else {
        match spec_route_index(keys.drop_first(), et) {
            Some(i) => Some(i + 1),
            None => None,
        }
    }
}

/// No two routes share a key.
pub open spec fn distinct_keys(keys: Seq<u16>) -> bool {
    forall|a: int, b: int|
        #![trigger keys[a], keys[b]]
        0 <= a < b < keys.len() ==> keys[a] != keys[b]
}

proof fn lemma_route_index_some(keys: Seq<u16>, et: u16, i: int)
    requires
        0 <= i < keys.len(),
        keys[i] == et,
        forall|k: int| 0 <= k < i ==> keys[k] != et,
    ensures
        spec_route_index(keys, et) == Some(i),
    decreases i,
{
    if i > 0 {
        lemma_route_index_some(keys.drop_first(), et, i - 1);
    }
}

proof fn lemma_route_index_none(keys: Seq<u16>, et: u16)
    requires
        forall|k: int| 0 <= k < keys.len() ==> keys[k] != et,
    ensures
        spec_route_index(keys, et) is None,
    decreases keys.len(),
{
    if keys.len() > 0 {
        lemma_route_index_none(keys.drop_first(), et);
    }
}

/// The position returned by `spec_route_index` holds the key it was asked
/// for, and no earlier position does.
pub proof fn lemma_route_index_found(keys: Seq<u16>, et: u16)
    requires
        spec_route_index(keys, et) is Some,
    ensures
        0 <= spec_route_index(keys, et).unwrap() < keys.len(),
        keys[spec_route_index(keys, et).unwrap()] == et,
        forall|k: int| 0 <= k < spec_route_index(keys, et).unwrap() ==> keys[k] != et,
    decreases keys.len(),
{
    if keys.len() > 0 && keys[0] != et {
        lemma_route_index_found(keys.drop_first(), et);
        let i = spec_route_index(keys.drop_first(), et).unwrap();
        assert forall|k: int| 0 <= k < i + 1 implies keys[k] != et by {
            if k > 0 {
                assert(keys.drop_first()[k - 1] == keys[k]);
            }
        }
    }
}

/// An Ethernet frame dispatcher: one receiver address and a fixed routing
/// table from EtherType to listener, bound at construction.
pub struct EthernetRx<L> {
    mac: MacAddr,
    routes: Vec<(EtherType, L)>,
}

impl<L> EthernetRx<L> {
    /// The receiver's own address.
    pub closed spec fn spec_mac(&self) -> Seq<u8> {
        self.mac@
    }

    /// The configured routes, in declaration order.
    pub closed spec fn spec_routes(&self) -> Seq<(EtherType, L)> {
        self.routes@
    }

    /// The EtherType keys of the configured routes, in declaration order.
    pub open spec fn route_keys(&self) -> Seq<u16> {
        self.spec_routes().map_values(|t: (EtherType, L)| t.0.0)
    }

    /// Builds a dispatcher for the receiver address `mac` over the given
    /// routing table. Fails iff two routes share an EtherType.
    pub fn new(mac: MacAddr, routes: Vec<(EtherType, L)>) -> (r: Option<EthernetRx<L>>)
        ensures
            r matches Some(rx) ==> {
                &&& rx.spec_mac() == mac@
                &&& rx.spec_routes() == routes@
                &&& distinct_keys(rx.route_keys())
            },
            r is Some <==> distinct_keys(routes@.map_values(|t: (EtherType, L)| t.0.0)),
    {
        let ghost keys = routes@.map_values(|t: (EtherType, L)| t.0.0);
        let n = routes.len();
        let mut i: usize = 0;
        while i < n
            invariant
                n == routes@.len(),
                keys == routes@.map_values(|t: (EtherType, L)| t.0.0),
                0 <= i <= n,
                forall|a: int, b: int|
                    #![trigger keys[a], keys[b]]
                    0 <= a < i && a < b < n ==> keys[a] != keys[b],
            decreases n - i,
        {
            let mut j: usize = i + 1;
            while j < n
                invariant
                    n == routes@.len(),
                    keys == routes@.map_values(|t: (EtherType, L)| t.0.0),
                    0 <= i < j <= n,
                    forall|b: int| i < b < j ==> keys[i as int] != #[trigger] keys[b],
                decreases n - j,
            {
                if routes[i].0.value() == routes[j].0.value() {
                    proof {
                        assert(keys[i as int] == keys[j as int]);
                    }
                    return None;
                }
                j += 1;
            }
            i += 1;
        }
        Some(EthernetRx { mac, routes })
    }

    /// Dispatches one frame.
    ///
    /// Fails with `TooShortPacket` iff the buffer is shorter than 14 bytes.
    /// An admitted frame is one whose destination is the receiver's address
    /// or broadcast; any other frame fails with `InvalidDestination` carrying
    /// the destination read from the frame. An admitted frame whose EtherType
    /// has no route fails with `IgnoredEtherType` carrying that EtherType.
    /// Otherwise the first matching route's listener receives the payload
    /// (everything after the 14-byte header) and its result is handed back:
    /// `Ok` as `Ok`, an error wrapped in `ListenerError` beside the route's
    /// EtherType. The receiver address, the route keys and every listener but
    /// the matched one are left unchanged; a frame that reaches no listener
    /// leaves the whole routing table unchanged.
    #[verifier::loop_isolation(false)]
    pub fn recv<E>(&mut self, data: &[u8]) -> (r: Result<(), EthernetRxError<E>>) where
        L: EthernetPayloadListener<E>,

        ensures
            final(self).spec_mac() == old(self).spec_mac(),
            final(self).route_keys() == old(self).route_keys(),
            (r matches Err(EthernetRxError::TooShortPacket)) <==> data@.len() < 14,
            r matches Err(EthernetRxError::InvalidDestination(m)) ==> {
                &&& data@.len() >= 14
                &&& !spec_admitted(data@, old(self).spec_mac())
                &&& m@ == spec_destination(data@)
            },
            (data@.len() >= 14 && !spec_admitted(data@, old(self).spec_mac())) ==> (r matches Err(
                EthernetRxError::InvalidDestination(m),
            ) && m@ == spec_destination(data@)),
            r matches Err(EthernetRxError::IgnoredEtherType(t)) ==> {
                &&& data@.len() >= 14
                &&& spec_admitted(data@, old(self).spec_mac())
                &&& spec_route_index(old(self).route_keys(), spec_ether_type(data@)) is None
                &&& t.0 == spec_ether_type(data@)
            },
            (data@.len() >= 14 && spec_admitted(data@, old(self).spec_mac()) && spec_route_index(
                old(self).route_keys(),
                spec_ether_type(data@),
            ) is None) ==> (r matches Err(EthernetRxError::IgnoredEtherType(t)) && t.0
                == spec_ether_type(data@)),
            (data@.len() >= 14 && spec_admitted(data@, old(self).spec_mac()) && spec_route_index(
                old(self).route_keys(),
                spec_ether_type(data@),
            ) is Some) ==> (r is Ok || (r matches Err(EthernetRxError::ListenerError(t, _)) && t.0
                == spec_ether_type(data@))),
            (r is Ok || r matches Err(EthernetRxError::ListenerError(_, _))) ==> {
                &&& data@.len() >= 14
                &&& spec_admitted(data@, old(self).spec_mac())
                &&& spec_route_index(old(self).route_keys(), spec_ether_type(data@)) is Some
            },
            !(r is Ok || r matches Err(EthernetRxError::ListenerError(_, _)))
                ==> final(self).spec_routes() == old(self).spec_routes(),
            forall|j: int|
                0 <= j < old(self).spec_routes().len() && Some(j) != spec_route_index(
                    old(self).route_keys(),
                    spec_ether_type(data@),
                ) ==> final(self).spec_routes()[j] == old(self).spec_routes()[j],
    {
        let packet = match EthernetPacket::new(data) {
            Some(p) => p,
            None => {
                return Err(EthernetRxError::TooShortPacket);
            },
        };
        let destination = packet.destination();
        if !(destination == self.mac || destination == MacAddr::broadcast()) {
            return Err(EthernetRxError::InvalidDestination(destination));
        }
        let ether_type = packet.ether_type();
        let et_value = ether_type.value();
        let ghost keys = self.route_keys();
        let n = self.routes.len();
        let mut i: usize = 0;
        while i < n
            invariant
                *self == *old(self),
                n == self.routes@.len(),
                keys == self.route_keys(),
                0 <= i <= n,
                forall|k: int| 0 <= k < i ==> keys[k] != et_value,
            decreases n - i,
        {
            if self.routes[i].0.value() == et_value {
                proof {
                    lemma_route_index_some(keys, et_value, i as int);
                }
                let pair = self.routes.remove(i);
                let key = pair.0;
                let mut listener = pair.1;
                let result = listener.recv(packet.payload());
                self.routes.insert(i, (key, listener));
                proof {
                    let r_old = old(self).spec_routes();
                    let r_new = self.spec_routes();
                    assert(r_new == r_old.remove(i as int).insert(i as int, (key, listener)));
                    assert(r_new.len() == r_old.len());
                    assert forall|j: int| 0 <= j < r_old.len() && j != i as int implies r_new[j]
                        == r_old[j] by {
                        r_old.remove_ensures(i as int);
                        r_old.remove(i as int).insert_ensures(i as int, (key, listener));
                    }
                    assert(r_new[i as int] == (key, listener));
                    assert(self.route_keys() =~= old(self).route_keys());
                }
                return match result {
                    Ok(()) => Ok(()),
                    Err(e) => Err(EthernetRxError::ListenerError(key, e)),
                };
            }
            i += 1;
        }
        proof {
            lemma_route_index_none(keys, et_value);
        }
        Err(EthernetRxError::IgnoredEtherType(ether_type))
    }
}

} // verus!
