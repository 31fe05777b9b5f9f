use rips_packets::arp::ArpPacket;
use rips_packets::arp::HardwareType;
use rips_packets::arp::MutArpPacket;
use rips_packets::arp::Operation;
use rips_packets::ethernet::EtherType;
use rips_packets::ethernet::EthernetPacket;
use rips_packets::ethernet::MutEthernetPacket;
use rips_packets::ip::Protocol;
use rips_packets::ipaddr::Ipv4Addr;
use rips_packets::ipaddr::Ipv6Addr;
use rips_packets::ipv4::Ipv4Packet;
use rips_packets::ipv4::MutIpv4Packet;
use rips_packets::ipv6::Ipv6Packet;
use rips_packets::ipv6::MutIpv6Packet;
use rips_packets::macaddr::MacAddr;

/// Checks that the bytes outside `offset .. offset + expected.len()` are all
/// zero and the bytes inside are exactly `expected`.
fn assert_only_bytes_set(backing: &[u8], offset: usize, expected: &[u8]) {
    let end = offset + expected.len();
    assert!(backing[..offset].iter().all(|&v| v == 0x00));
    assert_eq!(expected, &backing[offset..end]);
    assert!(backing[end..].iter().all(|&v| v == 0x00));
}

#[test]
fn set_payload() {
    let backing_data = vec![0; 15];
    let mut testee = MutEthernetPacket::new(backing_data).unwrap();
    testee.set_payload_byte(0, 99);
    let backing_data = testee.into_inner();
    assert_eq!(99, backing_data[14]);
}

#[test]
fn ethernet_construction_boundary() {
    assert!(EthernetPacket::new(&[0u8; 13]).is_none());
    assert!(EthernetPacket::new(&[0u8; 14]).is_some());
    assert!(MutEthernetPacket::new(vec![0; 13]).is_none());
    assert!(MutEthernetPacket::new(vec![0; 14]).is_some());
}

#[test]
fn ethernet_setget_destination() {
    let mut testee = MutEthernetPacket::new(vec![0; 1024]).unwrap();
    testee.set_destination(MacAddr([0xff; 6]));
    assert_eq!([0xff; 6], testee.as_immutable().destination().as_ref());
    let backing = testee.into_inner();
    assert_only_bytes_set(&backing, 0, &[0xff; 6]);
}

#[test]
fn ethernet_setget_source() {
    let mut testee = MutEthernetPacket::new(vec![0; 1024]).unwrap();
    testee.set_source(MacAddr([0xff; 6]));
    assert_eq!([0xff; 6], testee.as_immutable().source().as_ref());
    let backing = testee.into_inner();
    assert_only_bytes_set(&backing, 6, &[0xff; 6]);
}

#[test]
fn ethernet_setget_ether_type() {
    let mut testee = MutEthernetPacket::new(vec![0; 1024]).unwrap();
    testee.set_ether_type(EtherType(0xffff));
    assert_eq!(EtherType(0xffff), testee.as_immutable().ether_type());
    let backing = testee.into_inner();
    assert_only_bytes_set(&backing, 12, &[0xff; 2]);
}

#[test]
fn ethernet_header_and_payload_split() {
    let mut data = vec![0u8; 16];
    data[13] = 0xaa;
    data[14] = 0xbb;
    data[15] = 0xcc;
    let packet = EthernetPacket::new(&data).unwrap();
    assert_eq!(16, packet.len());
    assert_eq!(14, packet.header().len());
    assert_eq!(0xaa, packet.header()[13]);
    assert_eq!(&[0xbb, 0xcc], packet.payload());
    assert_eq!(&data[..], packet.data());
}

#[test]
fn setters_incremental() {
    let mut testee = MutArpPacket::new(vec![0; 28]).unwrap();
    testee.set_hardware_type(HardwareType(1 << 8 | 2));
    testee.set_protocol_type(EtherType(3 << 8 | 4));
    testee.set_hardware_length(5);
    testee.set_protocol_length(6);
    testee.set_operation(Operation(7 << 8 | 8));
    testee.set_sender_mac_addr(MacAddr([9, 10, 11, 12, 13, 14]));
    testee.set_sender_ip_addr(Ipv4Addr::new(15, 16, 17, 18));
    testee.set_target_mac_addr(MacAddr([19, 20, 21, 22, 23, 24]));
    testee.set_target_ip_addr(Ipv4Addr::new(25, 26, 27, 28));
    let backing_data = testee.into_inner();
    for (i, (expected, actual)) in (1u8..29).zip(backing_data.iter()).enumerate() {
        assert_eq!(expected, *actual, "Invalid byte at index {}", i);
    }
}

#[test]
fn default_setter() {
    let mut testee = MutArpPacket::new(vec![0; 28]).unwrap();
    testee.set_ipv4_over_ethernet_values();

    assert_eq!(
        HardwareType::ethernet(),
        testee.as_immutable().hardware_type()
    );
    assert_eq!(EtherType::ipv4(), testee.as_immutable().protocol_type());
    assert_eq!(6, testee.as_immutable().hardware_length());
    assert_eq!(4, testee.as_immutable().protocol_length());
}

#[test]
fn arp_construction_boundary() {
    assert!(ArpPacket::new(&[0u8; 27]).is_none());
    assert!(ArpPacket::new(&[0u8; 28]).is_some());
    assert!(MutArpPacket::new(vec![0; 27]).is_none());
    assert!(MutArpPacket::new(vec![0; 28]).is_some());
}

#[test]
fn arp_setget_all_fields() {
    let mut testee = MutArpPacket::new(vec![0; 28]).unwrap();
    testee.set_operation(Operation(0xffff));
    assert_eq!(Operation(0xffff), testee.as_immutable().operation());
    testee.set_sender_mac_addr(MacAddr([0xff; 6]));
    assert_eq!(
        [0xff; 6],
        testee.as_immutable().sender_mac_addr().as_ref()
    );
    testee.set_sender_ip_addr(Ipv4Addr::new(0xff, 0xff, 0xff, 0xff));
    assert_eq!(
        Ipv4Addr::new(0xff, 0xff, 0xff, 0xff),
        testee.as_immutable().sender_ip_addr()
    );
    testee.set_target_mac_addr(MacAddr([0xff; 6]));
    assert_eq!(
        [0xff; 6],
        testee.as_immutable().target_mac_addr().as_ref()
    );
    testee.set_target_ip_addr(Ipv4Addr::new(0xff, 0xff, 0xff, 0xff));
    assert_eq!(
        Ipv4Addr::new(0xff, 0xff, 0xff, 0xff),
        testee.as_immutable().target_ip_addr()
    );
    let backing = testee.into_inner();
    assert!(backing[6..8].iter().all(|&v| v == 0xff));
    assert!(backing[8..14].iter().all(|&v| v == 0xff));
    assert!(backing[14..18].iter().all(|&v| v == 0xff));
    assert!(backing[18..24].iter().all(|&v| v == 0xff));
    assert!(backing[24..28].iter().all(|&v| v == 0xff));
    assert!(backing[0..6].iter().all(|&v| v == 0x00));
}

#[test]
fn getters_alternating_bits() {
    let backing_data = [0b1010_1010; 20];
    let testee = Ipv4Packet::new(&backing_data).unwrap();
    assert_eq!(0b1010, testee.version());
    assert_eq!(0b1010, testee.header_length());
    assert_eq!(0b101010, testee.dscp());
    assert_eq!(0b10, testee.ecn());
    assert_eq!(0b1010_1010_1010_1010, testee.total_length());
    assert_eq!(0b1010_1010_1010_1010, testee.identification());
    assert_eq!(0b101, testee.flags());
    assert!(!testee.dont_fragment());
    assert!(testee.more_fragments());
    assert_eq!(0b0_1010_1010_1010, testee.fragment_offset());
}

#[test]
fn ipv4_construction_boundary() {
    assert!(Ipv4Packet::new(&[0u8; 19]).is_none());
    assert!(Ipv4Packet::new(&[0u8; 20]).is_some());
    assert!(MutIpv4Packet::new(vec![0; 19]).is_none());
    assert!(MutIpv4Packet::new(vec![0; 20]).is_some());
}

#[test]
fn ipv4_version_preserves_header_length() {
    let mut testee = MutIpv4Packet::new(vec![0b1010_1010; 20]).unwrap();
    testee.set_version(0x4);
    assert_eq!(0x4, testee.as_immutable().version());
    assert_eq!(0b1010, testee.as_immutable().header_length());
    testee.set_header_length(0x5);
    assert_eq!(0x4, testee.as_immutable().version());
    assert_eq!(0x5, testee.as_immutable().header_length());
}

#[test]
fn ipv4_dscp_ecn_share_a_byte() {
    let mut testee = MutIpv4Packet::new(vec![0b1010_1010; 20]).unwrap();
    testee.set_dscp(0x3f);
    assert_eq!(0x3f, testee.as_immutable().dscp());
    assert_eq!(0b10, testee.as_immutable().ecn());
    testee.set_ecn(0x1);
    assert_eq!(0x3f, testee.as_immutable().dscp());
    assert_eq!(0x1, testee.as_immutable().ecn());
}

#[test]
fn ipv4_flags_and_fragment_offset_share_bytes() {
    let mut testee = MutIpv4Packet::new(vec![0; 20]).unwrap();
    testee.set_flags(0b111);
    testee.set_fragment_offset(0x1faf);
    assert_eq!(0b111, testee.as_immutable().flags());
    assert_eq!(0x1faf, testee.as_immutable().fragment_offset());
    assert!(testee.as_immutable().dont_fragment());
    assert!(testee.as_immutable().more_fragments());
    let backing = testee.into_inner();
    assert_eq!(0xff, backing[6]);
    assert_eq!(0xaf, backing[7]);
}

#[test]
fn ipv4_setget_scalar_fields() {
    let mut testee = MutIpv4Packet::new(vec![0; 1024]).unwrap();
    testee.set_total_length(0xffbf);
    assert_eq!(0xffbf, testee.as_immutable().total_length());
    testee.set_identification(0xffaf);
    assert_eq!(0xffaf, testee.as_immutable().identification());
    testee.set_ttl(0xff);
    assert_eq!(0xff, testee.as_immutable().ttl());
    testee.set_protocol(rips_packets::ipv4::Protocol(0xfe));
    assert_eq!(
        rips_packets::ipv4::Protocol(0xfe),
        testee.as_immutable().protocol()
    );
    testee.set_header_checksum(0xfeff);
    assert_eq!(0xfeff, testee.as_immutable().header_checksum());
    let backing = testee.into_inner();
    assert_eq!(&[0xff, 0xbf], &backing[2..4]);
    assert_eq!(&[0xff, 0xaf], &backing[4..6]);
    assert_eq!(0xff, backing[8]);
    assert_eq!(0xfe, backing[9]);
    assert_eq!(&[0xfe, 0xff], &backing[10..12]);
}

#[test]
fn ipv4_setget_addresses() {
    let mut testee = MutIpv4Packet::new(vec![0; 20]).unwrap();
    testee.set_source(Ipv4Addr::new(192, 168, 15, 1));
    testee.set_destination(Ipv4Addr::new(168, 254, 99, 88));
    assert_eq!(
        Ipv4Addr::new(192, 168, 15, 1),
        testee.as_immutable().source()
    );
    assert_eq!(
        Ipv4Addr::new(168, 254, 99, 88),
        testee.as_immutable().destination()
    );
    let backing = testee.into_inner();
    assert_eq!(&[192, 168, 15, 1], &backing[12..16]);
    assert_eq!(&[168, 254, 99, 88], &backing[16..20]);
}

#[test]
fn ipv6_construction_boundary() {
    assert!(Ipv6Packet::new(&[0u8; 39]).is_none());
    assert!(Ipv6Packet::new(&[0u8; 40]).is_some());
    assert!(MutIpv6Packet::new(vec![0; 39]).is_none());
    assert!(MutIpv6Packet::new(vec![0; 40]).is_some());
}

#[test]
fn ipv6_setget_fields() {
    let mut testee = MutIpv6Packet::new(vec![0b1010_1010; 40]).unwrap();
    testee.set_version(0xf);
    assert_eq!(0xf, testee.as_immutable().version());
    testee.set_payload_length(0xabcd);
    assert_eq!(0xabcd, testee.as_immutable().payload_length());
    testee.set_next_header(Protocol(123));
    assert_eq!(Protocol(123), testee.as_immutable().next_header());
    testee.set_hop_limit(0x65);
    assert_eq!(0x65, testee.as_immutable().hop_limit());
    let backing = testee.into_inner();
    // the traffic class bits sharing byte 0 with the version keep their value
    assert_eq!(0b1111_1010, backing[0]);
    assert_eq!(&[0xab, 0xcd], &backing[4..6]);
    assert_eq!(123, backing[6]);
    assert_eq!(0x65, backing[7]);
}

#[test]
fn ipv6_setget_addresses() {
    let mut testee = MutIpv6Packet::new(vec![0; 40]).unwrap();
    let source = Ipv6Addr::new(0x2001, 1, 2, 3, 4, 5, 6, 0xabcd);
    let destination = Ipv6Addr::new(0x2001, 1, 2, 3, 4, 5, 6, 0x1234);
    testee.set_source(source);
    testee.set_destination(destination);
    assert_eq!(source, testee.as_immutable().source());
    assert_eq!(destination, testee.as_immutable().destination());
    let backing = testee.into_inner();
    assert_eq!(
        &[0x20, 0x01, 0, 1, 0, 2, 0, 3, 0, 4, 0, 5, 0, 6, 0xab, 0xcd],
        &backing[8..24]
    );
    assert_eq!(
        &[0x20, 0x01, 0, 1, 0, 2, 0, 3, 0, 4, 0, 5, 0, 6, 0x12, 0x34],
        &backing[24..40]
    );
}

#[test]
fn new_unchecked_matches_new() {
    let data = [7u8; 20];
    let checked = Ipv4Packet::new(&data).unwrap();
    let unchecked = Ipv4Packet::new_unchecked(&data);
    assert_eq!(checked.data(), unchecked.data());
    assert_eq!(checked.version(), unchecked.version());
}
