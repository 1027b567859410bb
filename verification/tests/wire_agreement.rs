use libarp::arp::{ArpMessage, EtherType, Operation};
use libarp::interfaces::{Ipv4Addr, MacAddr};
use pnet::packet::arp::{ArpHardwareTypes, ArpOperation, ArpPacket, MutableArpPacket};
use pnet::packet::ethernet::{EtherTypes, EthernetPacket, MutableEthernetPacket};
use pnet::packet::{MutablePacket, Packet};

const LOCAL: MacAddr = MacAddr(0xdc, 0xa6, 0x32, 0x27, 0x5b, 0xd8);
const REMOTE: MacAddr = MacAddr(0xaa, 0xbb, 0xcc, 0xdd, 0xee, 0xff);

fn link(mac: MacAddr) -> pnet::util::MacAddr {
    pnet::util::MacAddr(mac.0, mac.1, mac.2, mac.3, mac.4, mac.5)
}

fn samples() -> Vec<ArpMessage> {
    let a = Ipv4Addr::new(10, 0, 0, 1);
    let b = Ipv4Addr::new(192, 168, 255, 254);
    vec![
        ArpMessage::new_arp_request(LOCAL, a, b),
        ArpMessage::new_arp_response(REMOTE, b, LOCAL, a),
        ArpMessage::new_rarp_request(LOCAL, REMOTE),
        ArpMessage::new_rarp_response(REMOTE, b, LOCAL, a),
        ArpMessage::new(EtherType::Rarp, LOCAL, b, MacAddr::zero(), a, Operation::ArpResponse),
    ]
}

/// The frame of `message`, built field by field with the packet types of `pnet`.
fn built_with_pnet(message: &ArpMessage, destination: MacAddr, source: MacAddr) -> Vec<u8> {
    let mut eth_buf = vec![0u8; 42];
    let mut eth_packet = MutableEthernetPacket::new(&mut eth_buf).unwrap();
    eth_packet.set_destination(link(destination));
    eth_packet.set_source(link(source));
    eth_packet.set_ethertype(match message.ethertype {
        EtherType::Arp => EtherTypes::Arp,
        EtherType::Rarp => EtherTypes::Rarp,
    });

    let mut arp_buf = vec![0u8; 28];
    let mut arp_packet = MutableArpPacket::new(&mut arp_buf).unwrap();
    arp_packet.set_hardware_type(ArpHardwareTypes::Ethernet);
    arp_packet.set_protocol_type(EtherTypes::Ipv4);
    arp_packet.set_hw_addr_len(0x06);
    arp_packet.set_proto_addr_len(0x04);
    arp_packet.set_operation(ArpOperation::new(message.operation.to_u16()));
    arp_packet.set_sender_hw_addr(link(message.source_hardware_address));
    arp_packet.set_sender_proto_addr(message.source_protocol_address.octets().into());
    arp_packet.set_target_hw_addr(link(message.target_hardware_address));
    arp_packet.set_target_proto_addr(message.target_protocol_address.octets().into());

    eth_packet.set_payload(arp_packet.packet_mut());
    eth_packet.packet().to_vec()
}

#[test]
fn encode_writes_what_pnet_writes() {
    for message in samples() {
        let destination = if message.target_hardware_address.is_zero() {
            MacAddr::broadcast()
        } else {
            message.target_hardware_address
        };
        assert_eq!(
            message.encode(LOCAL),
            built_with_pnet(&message, destination, LOCAL)
        );
    }
}

#[test]
fn pnet_reads_what_encode_writes() {
    for message in samples() {
        let frame = message.encode(REMOTE);
        let eth_packet = EthernetPacket::new(&frame).unwrap();
        assert_eq!(eth_packet.get_source(), link(REMOTE));
        assert_eq!(eth_packet.get_ethertype().0, message.ethertype.to_u16());
        assert_eq!(MutableEthernetPacket::minimum_packet_size(), 14);

        let arp_packet = ArpPacket::new(&frame[14..]).unwrap();
        assert_eq!(arp_packet.get_hardware_type(), ArpHardwareTypes::Ethernet);
        assert_eq!(arp_packet.get_protocol_type(), EtherTypes::Ipv4);
        assert_eq!(arp_packet.get_hw_addr_len(), 6);
        assert_eq!(arp_packet.get_proto_addr_len(), 4);
        assert_eq!(arp_packet.get_operation().0, message.operation.to_u16());
        assert_eq!(
            arp_packet.get_sender_hw_addr(),
            link(message.source_hardware_address)
        );
        assert_eq!(
            arp_packet.get_sender_proto_addr().octets(),
            message.source_protocol_address.octets()
        );
        assert_eq!(
            arp_packet.get_target_hw_addr(),
            link(message.target_hardware_address)
        );
        assert_eq!(
            arp_packet.get_target_proto_addr().octets(),
            message.target_protocol_address.octets()
        );
    }
}

#[test]
fn decode_reads_what_pnet_writes() {
    for message in samples() {
        let frame = built_with_pnet(&message, MacAddr::broadcast(), REMOTE);
        assert_eq!(ArpMessage::decode(&frame), Ok(message));
    }
}

#[test]
fn decode_fails_where_pnet_finds_no_payload() {
    let frame = samples()[0].encode(LOCAL);
    for len in 14..frame.len() {
        assert!(ArpPacket::new(&frame[14..len]).is_none());
        assert!(ArpMessage::decode(&frame[..len]).is_err());
    }
    assert!(ArpPacket::new(&frame[14..]).is_some());
    assert!(ArpMessage::decode(&frame).is_ok());
}
