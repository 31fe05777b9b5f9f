use rips_packets::ethernet::EtherType;
use rips_packets::ethernet::MutEthernetPacket;
use rips_packets::macaddr::MacAddr;
use rips_packets::rx::EthernetPayloadListener;
use rips_packets::rx::EthernetRx;
use rips_packets::rx::EthernetRxError;
use std::io;
use std::sync::mpsc;

fn my_mac() -> MacAddr {
    MacAddr([0xff, 0x01, 0x02, 0x03, 0x04, 0x05])
}

fn zero_mac() -> MacAddr {
    MacAddr([0x0, 0x0, 0x0, 0x0, 0x0, 0x0])
}

/// A listener that always fails with an inspectable error.
struct ErrorListener;

impl EthernetPayloadListener<io::Error> for ErrorListener {
    fn recv(&mut self, _data: &[u8]) -> Result<(), io::Error> {
        Err(io::ErrorKind::AddrNotAvailable.into())
    }
}

/// A listener that reports each invocation through a channel.
struct TestListener(mpsc::Sender<()>);

impl EthernetPayloadListener<io::Error> for TestListener {
    fn recv(&mut self, _data: &[u8]) -> Result<(), io::Error> {
        self.0.send(()).unwrap();
        Ok(())
    }
}

/// A listener that hands each payload it receives through a channel.
struct PayloadListener(mpsc::Sender<Vec<u8>>);

impl EthernetPayloadListener<io::Error> for PayloadListener {
    fn recv(&mut self, data: &[u8]) -> Result<(), io::Error> {
        self.0.send(data.to_vec()).unwrap();
        Ok(())
    }
}

#[test]
fn too_short_packet() {
    let mut rx: EthernetRx<ErrorListener> = EthernetRx::new(my_mac(), Vec::new()).unwrap();
    assert!(matches!(
        rx.recv(&[0; 13]),
        Err(EthernetRxError::TooShortPacket)
    ));
}

#[test]
fn empty_ethernet_rx() {
    let mut rx: EthernetRx<ErrorListener> = EthernetRx::new(my_mac(), Vec::new()).unwrap();
    assert!(matches!(
        rx.recv(&[0; 14]),
        Err(EthernetRxError::InvalidDestination(actual_mac)) if actual_mac == zero_mac()
    ));
}

#[test]
fn ignored_ether_type() {
    let mut rx = EthernetRx::new(my_mac(), vec![(EtherType::arp(), ErrorListener)]).unwrap();
    let mut packet = MutEthernetPacket::new(vec![0u8; 14]).unwrap();
    packet.set_destination(my_mac());
    let data = packet.into_inner();

    assert!(matches!(
        rx.recv(&data),
        Err(EthernetRxError::IgnoredEtherType(EtherType(0)))
    ));
}

#[test]
fn next_level_error() {
    let mut rx = EthernetRx::new(my_mac(), vec![(EtherType::arp(), ErrorListener)]).unwrap();
    let mut packet = MutEthernetPacket::new(vec![0u8; 14]).unwrap();
    packet.set_destination(my_mac());
    packet.set_ether_type(EtherType::arp());
    let data = packet.into_inner();

    assert!(matches!(
        rx.recv(&data).unwrap_err(),
        EthernetRxError::ListenerError(et, ref e)
            if et == EtherType::arp() && e.kind() == io::ErrorKind::AddrNotAvailable
    ));
}

#[test]
fn happy_path() {
    let (ipv4_tx, ipv4_rx) = mpsc::channel();
    let (arp_tx, arp_rx) = mpsc::channel();

    let mut rx = EthernetRx::new(
        my_mac(),
        vec![
            (EtherType::ipv4(), TestListener(ipv4_tx)),
            (EtherType::arp(), TestListener(arp_tx)),
        ],
    )
    .unwrap();
    let mut packet = MutEthernetPacket::new(vec![0u8; 14]).unwrap();
    packet.set_destination(my_mac());
    packet.set_ether_type(EtherType::ipv4());
    let data = packet.into_inner();

    // No listener was called yet
    assert!(ipv4_rx.try_recv().is_err());
    assert!(arp_rx.try_recv().is_err());

    // Make sure the IPv4 listener is called
    assert!(rx.recv(&data).is_ok());
    assert!(ipv4_rx.try_recv().is_ok());
    assert!(arp_rx.try_recv().is_err());

    let mut packet = MutEthernetPacket::new(data).unwrap();
    packet.set_ether_type(EtherType::arp());
    let data = packet.into_inner();

    // Make sure the ARP listener is called
    assert!(rx.recv(&data).is_ok());
    assert!(ipv4_rx.try_recv().is_err());
    assert!(arp_rx.try_recv().is_ok());
}

#[test]
fn broadcast_admits_regardless_of_address() {
    let mut rx: EthernetRx<ErrorListener> = EthernetRx::new(my_mac(), Vec::new()).unwrap();
    let mut packet = MutEthernetPacket::new(vec![0u8; 14]).unwrap();
    packet.set_destination(MacAddr::broadcast());
    packet.set_ether_type(EtherType(0x1234));
    let data = packet.into_inner();

    assert!(matches!(
        rx.recv(&data),
        Err(EthernetRxError::IgnoredEtherType(EtherType(0x1234)))
    ));
}

#[test]
fn listener_receives_the_payload() {
    let (tx, payload_rx) = mpsc::channel();
    let mut rx = EthernetRx::new(my_mac(), vec![(EtherType::ipv4(), PayloadListener(tx))]).unwrap();
    let mut packet = MutEthernetPacket::new(vec![0u8; 17]).unwrap();
    packet.set_destination(my_mac());
    packet.set_ether_type(EtherType::ipv4());
    packet.set_payload_byte(0, 0xde);
    packet.set_payload_byte(1, 0xad);
    packet.set_payload_byte(2, 0x99);
    let data = packet.into_inner();

    assert!(rx.recv(&data).is_ok());
    assert_eq!(vec![0xde, 0xad, 0x99], payload_rx.recv().unwrap());
}

#[test]
fn duplicate_routes_rejected() {
    let routes = vec![
        (EtherType::arp(), ErrorListener),
        (EtherType::arp(), ErrorListener),
    ];
    assert!(EthernetRx::new(my_mac(), routes).is_none());
}

#[test]
fn too_short_packet_regardless_of_content() {
    let mut rx: EthernetRx<ErrorListener> = EthernetRx::new(my_mac(), Vec::new()).unwrap();
    assert!(matches!(
        rx.recv(&[0xff; 13]),
        Err(EthernetRxError::TooShortPacket)
    ));
    assert!(matches!(
        rx.recv(&[]),
        Err(EthernetRxError::TooShortPacket)
    ));
}
