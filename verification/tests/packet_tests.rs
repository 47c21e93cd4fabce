use kernel_chirho::bytes::{be16_chirho, be32_chirho, copy_range_chirho, push_u16_be_chirho, push_u32_be_chirho, set_u16_be_chirho};
use kernel_chirho::checksum::ipv4_checksum_chirho;
use kernel_chirho::net_types::{
    AddressFamilyChirho, Ipv4AddrChirho, NetErrorChirho, PortChirho, SockAddrInChirho, SocketTypeChirho,
};
use kernel_chirho::packets::{
    ArpPacketChirho, EthernetFrameChirho, IcmpPacketChirho, Ipv4HeaderChirho, TcpSegmentChirho, UdpDatagramChirho,
};

#[test]
fn test_big_endian_helpers() {
    assert_eq!(be16_chirho(0x12, 0x34), 0x1234);
    assert_eq!(be32_chirho(0xC0, 0xA8, 0x01, 0x02), 0xC0A8_0102);
    let mut buf: Vec<u8> = Vec::new();
    push_u16_be_chirho(&mut buf, 0xABCD);
    push_u32_be_chirho(&mut buf, 0x0102_0304);
    assert_eq!(buf, vec![0xAB, 0xCD, 1, 2, 3, 4]);
    set_u16_be_chirho(&mut buf, 2, 0xFFEE);
    assert_eq!(buf, vec![0xAB, 0xCD, 0xFF, 0xEE, 3, 4]);
    assert_eq!(copy_range_chirho(&buf, 1, 4), vec![0xCD, 0xFF, 0xEE]);
}

#[test]
fn test_ipv4_addr_octets_roundtrip() {
    let a = Ipv4AddrChirho::from_octets_chirho(10, 0, 2, 15);
    assert_eq!(a.0, 0x0A00_020F);
    assert_eq!(a.octets_chirho(), [10, 0, 2, 15]);
    assert_eq!(Ipv4AddrChirho::loopback_chirho().octets_chirho(), [127, 0, 0, 1]);
    assert_eq!(Ipv4AddrChirho::broadcast_chirho().0, 0xFFFF_FFFF);
    assert_eq!(Ipv4AddrChirho::unspecified_chirho().0, 0);
    assert_eq!(PortChirho::ephemeral_start_chirho().0, 32768);
}

#[test]
fn test_errno_values() {
    assert_eq!(NetErrorChirho::BadFdChirho.to_errno_chirho(), -9);
    assert_eq!(NetErrorChirho::ConnRefusedChirho.to_errno_chirho(), -111);
    assert_eq!(NetErrorChirho::NoBufsChirho.to_errno_chirho(), -105);
    assert_eq!(AddressFamilyChirho::from_raw_chirho(2), Some(AddressFamilyChirho::AfInetChirho));
    assert_eq!(AddressFamilyChirho::from_raw_chirho(3), None);
    assert_eq!(AddressFamilyChirho::AfInetChirho.as_raw_chirho(), 2);
    assert_eq!(SocketTypeChirho::from_raw_chirho(1), Some(SocketTypeChirho::SockStreamChirho));
    assert_eq!(SocketTypeChirho::from_raw_chirho(99), Some(SocketTypeChirho::SockRawChirho));
    assert_eq!(SocketTypeChirho::from_raw_chirho(0o4001), Some(SocketTypeChirho::SockStreamChirho));
    assert_eq!(SocketTypeChirho::from_raw_chirho(4), None);
}

#[test]
fn test_sockaddr_roundtrip() {
    let a = SockAddrInChirho { port_chirho: 8080, addr_chirho: 0x7F00_0001 };
    let bytes = a.to_user_bytes_chirho(2);
    assert_eq!(&bytes[..8], &[2, 0, 0x1F, 0x90, 127, 0, 0, 1]);
    assert_eq!(SockAddrInChirho::from_user_bytes_chirho(&bytes), Some(a));
    assert_eq!(SockAddrInChirho::from_user_bytes_chirho(&bytes[..7]), None);
}

#[test]
fn test_checksum_known_header() {
    // A classic example header whose checksum field is 0xB861.
    let hdr: [u8; 20] = [
        0x45, 0x00, 0x00, 0x73, 0x00, 0x00, 0x40, 0x00, 0x40, 0x11, 0x00, 0x00, 0xC0, 0xA8, 0x00, 0x01, 0xC0, 0xA8,
        0x00, 0xC7,
    ];
    assert_eq!(ipv4_checksum_chirho(&hdr), 0xB861);
    let mut with_sum = hdr;
    with_sum[10] = 0xB8;
    with_sum[11] = 0x61;
    assert_eq!(ipv4_checksum_chirho(&with_sum), 0);
    assert_eq!(ipv4_checksum_chirho(&[]), 0xFFFF);
    assert_eq!(ipv4_checksum_chirho(&[0x01]), 0xFEFF);
}

#[test]
fn test_ethernet_roundtrip() {
    let f = EthernetFrameChirho {
        dst_mac_chirho: [0xFF; 6],
        src_mac_chirho: [0x52, 0x54, 0, 0x12, 0x34, 0x56],
        ethertype_chirho: 0x0806,
        payload_chirho: vec![1, 2, 3],
    };
    let b = f.build_chirho();
    assert_eq!(b.len(), 17);
    assert_eq!(&b[12..14], &[0x08, 0x06]);
    let p = EthernetFrameChirho::parse_chirho(&b).unwrap();
    assert_eq!(p.dst_mac_chirho, f.dst_mac_chirho);
    assert_eq!(p.src_mac_chirho, f.src_mac_chirho);
    assert_eq!(p.ethertype_chirho, 0x0806);
    assert_eq!(p.payload_chirho, vec![1, 2, 3]);
    assert!(EthernetFrameChirho::parse_chirho(&b[..13]).is_none());
}

#[test]
fn test_ipv4_header_roundtrip_and_checksum() {
    let h = Ipv4HeaderChirho {
        version_chirho: 4,
        ihl_chirho: 5,
        tos_chirho: 0,
        total_length_chirho: 0x73,
        id_chirho: 0,
        flags_chirho: 2,
        fragment_offset_chirho: 0,
        ttl_chirho: 64,
        protocol_chirho: 17,
        checksum_chirho: 0,
        src_ip_chirho: 0xC0A8_0001,
        dst_ip_chirho: 0xC0A8_00C7,
    };
    let b = h.build_chirho();
    assert_eq!(b.len(), 20);
    assert_eq!(&b[10..12], &[0xB8, 0x61]);
    assert_eq!(ipv4_checksum_chirho(&b), 0);
    let p = Ipv4HeaderChirho::parse_chirho(&b).unwrap();
    assert_eq!(p.src_ip_chirho, 0xC0A8_0001);
    assert_eq!(p.dst_ip_chirho, 0xC0A8_00C7);
    assert_eq!(p.protocol_chirho, 17);
    assert_eq!(p.ttl_chirho, 64);
    assert_eq!(p.checksum_chirho, 0xB861);
    assert!(Ipv4HeaderChirho::parse_chirho(&b[..19]).is_none());
}

#[test]
fn test_arp_roundtrip() {
    let a = ArpPacketChirho {
        htype_chirho: 1,
        ptype_chirho: 0x0800,
        hlen_chirho: 6,
        plen_chirho: 4,
        operation_chirho: 1,
        sender_ha_chirho: [1, 2, 3, 4, 5, 6],
        sender_pa_chirho: 0x0A00_020F,
        target_ha_chirho: [0; 6],
        target_pa_chirho: 0x0A00_0202,
    };
    let b = a.build_chirho();
    assert_eq!(b.len(), 28);
    let p = ArpPacketChirho::parse_chirho(&b).unwrap();
    assert_eq!(p.operation_chirho, 1);
    assert_eq!(p.sender_ha_chirho, [1, 2, 3, 4, 5, 6]);
    assert_eq!(p.sender_pa_chirho, 0x0A00_020F);
    assert_eq!(p.target_pa_chirho, 0x0A00_0202);
    assert!(ArpPacketChirho::parse_chirho(&b[..27]).is_none());
}

#[test]
fn test_icmp_build_checksums_to_zero() {
    let i = IcmpPacketChirho {
        type_chirho: 8,
        code_chirho: 0,
        checksum_chirho: 0,
        id_chirho: 0x1234,
        sequence_chirho: 1,
        data_chirho: vec![0x61, 0x62, 0x63],
    };
    let b = i.build_chirho();
    assert_eq!(b.len(), 11);
    assert_eq!(ipv4_checksum_chirho(&b), 0);
    let p = IcmpPacketChirho::parse_chirho(&b).unwrap();
    assert_eq!(p.type_chirho, 8);
    assert_eq!(p.id_chirho, 0x1234);
    assert_eq!(p.sequence_chirho, 1);
    assert_eq!(p.data_chirho, vec![0x61, 0x62, 0x63]);
}

#[test]
fn test_tcp_segment_roundtrip() {
    let s = TcpSegmentChirho {
        src_port_chirho: 2222,
        dst_port_chirho: 40000,
        seq_num_chirho: 1000,
        ack_num_chirho: 2000,
        data_offset_chirho: 5,
        flags_chirho: 0x18,
        window_chirho: 65535,
        checksum_chirho: 0,
        urgent_ptr_chirho: 0,
        payload_chirho: b"hi".to_vec(),
    };
    let b = s.build_chirho();
    assert_eq!(b.len(), 22);
    let p = TcpSegmentChirho::parse_chirho(&b).unwrap();
    assert_eq!(p.src_port_chirho, 2222);
    assert_eq!(p.dst_port_chirho, 40000);
    assert_eq!(p.seq_num_chirho, 1000);
    assert_eq!(p.ack_num_chirho, 2000);
    assert_eq!(p.flags_chirho, 0x18);
    assert_eq!(p.payload_chirho, b"hi".to_vec());
    assert!(TcpSegmentChirho::parse_chirho(&b[..19]).is_none());
}

#[test]
fn test_udp_roundtrip() {
    let u = UdpDatagramChirho {
        src_port_chirho: 68,
        dst_port_chirho: 67,
        length_chirho: 12,
        checksum_chirho: 0,
        payload_chirho: vec![9, 8, 7, 6],
    };
    let b = u.build_chirho();
    assert_eq!(b.len(), 12);
    let p = UdpDatagramChirho::parse_chirho(&b).unwrap();
    assert_eq!(p.src_port_chirho, 68);
    assert_eq!(p.dst_port_chirho, 67);
    assert_eq!(p.payload_chirho, vec![9, 8, 7, 6]);
    assert!(UdpDatagramChirho::parse_chirho(&b[..7]).is_none());
}

#[test]
fn test_checksum_largest_input_verifies() {
    let all_ones = vec![0xFFu8; 131074];
    assert_eq!(ipv4_checksum_chirho(&all_ones), 0);
    let mut data = vec![0x12u8; 131070];
    data.push(0);
    data.push(0);
    let c = ipv4_checksum_chirho(&data);
    let n = data.len();
    data[n - 2] = (c >> 8) as u8;
    data[n - 1] = (c & 0xFF) as u8;
    assert_eq!(ipv4_checksum_chirho(&data), 0);
}

#[test]
fn test_rebuild_of_parsed_frames() {
    let raw: Vec<u8> = (0u8..40).collect();
    let f = EthernetFrameChirho::parse_chirho(&raw).unwrap();
    assert_eq!(f.build_chirho(), raw);
    let mut arp_raw: Vec<u8> = (100u8..128).collect();
    arp_raw.extend_from_slice(&[9, 9, 9]);
    let a = ArpPacketChirho::parse_chirho(&arp_raw).unwrap();
    assert_eq!(a.build_chirho(), arp_raw[..28].to_vec());
}

#[test]
fn test_udp_checksum_verifies_with_pseudo_header() {
    let u = UdpDatagramChirho { src_port_chirho: 5353, dst_port_chirho: 53, length_chirho: 0, checksum_chirho: 0, payload_chirho: vec![1, 2, 3, 4, 5] };
    let src: u32 = 0x0A00_020F;
    let dst: u32 = 0x0A00_0203;
    let b = u.build_with_checksum_chirho(src, dst);
    let mut pseudo: Vec<u8> = Vec::new();
    pseudo.extend_from_slice(&src.to_be_bytes());
    pseudo.extend_from_slice(&dst.to_be_bytes());
    pseudo.push(0);
    pseudo.push(17);
    pseudo.extend_from_slice(&(b.len() as u16).to_be_bytes());
    pseudo.extend_from_slice(&b);
    assert_eq!(ipv4_checksum_chirho(&pseudo), 0);
    assert_ne!(u16::from_be_bytes([b[6], b[7]]), 0);
}
