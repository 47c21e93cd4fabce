use kernel_chirho::dhcp::{
    build_dhcp_packet_chirho, dhcp_discover_chirho, dhcp_xid_chirho, parse_dhcp_options_chirho, DhcpActionChirho,
    DhcpEventChirho, DhcpOfferChirho, DhcpPhaseChirho,
};
use kernel_chirho::dns::{build_dns_query_chirho, dns_encode_name_chirho, parse_dns_response_chirho, DnsHeaderChirho};
use kernel_chirho::ipv4::{
    send_tcp_response_chirho, tcp_send_ack_chirho, tcp_send_syn_chirho,
    build_udp_packet_chirho, handle_icmp_echo_chirho, ip4_chirho, is_loopback_addr_chirho, send_icmp_echo_request_chirho,
    EchoCountersChirho,
};
use kernel_chirho::net_types::SockAddrInChirho;
use kernel_chirho::netconf::{
    arp_insert_chirho, arp_lookup_chirho, arp_request_chirho, arp_resolve_chirho, get_interface_ip_chirho, handle_arp_chirho,
    init_loopback_ip_chirho, ping_loopback_chirho, set_interface_ip_chirho, ArpCacheEntryChirho, ArpResolveChirho,
    IfaceConfigChirho, LoopbackDeviceChirho,
};
use kernel_chirho::packets::{ArpPacketChirho, EthernetFrameChirho, IcmpPacketChirho, Ipv4HeaderChirho, TcpSegmentChirho};
use kernel_chirho::netops::{virtio_mmio_base_from_bar_chirho, virtio_ring_slot_chirho, virtio_rx_frame_chirho};
use kernel_chirho::procnet::{format_ip_chirho, preview_payload_ascii_chirho};
use kernel_chirho::socket::{sys_bind_chirho, sys_socket_chirho, SocketTableChirho};
use kernel_chirho::stack::process_ipv4_packet_chirho;

#[test]
fn test_arp_cache_insert_replaces_and_lookup() {
    let mut cache: Vec<ArpCacheEntryChirho> = Vec::new();
    assert_eq!(arp_lookup_chirho(&cache, 0x0A00_0202), None);
    arp_insert_chirho(&mut cache, 0x0A00_0202, [1, 2, 3, 4, 5, 6]);
    arp_insert_chirho(&mut cache, 0x0A00_0203, [9; 6]);
    arp_insert_chirho(&mut cache, 0x0A00_0202, [7; 6]);
    assert_eq!(arp_lookup_chirho(&cache, 0x0A00_0202), Some([7; 6]));
    assert_eq!(arp_lookup_chirho(&cache, 0x0A00_0203), Some([9; 6]));
    match arp_resolve_chirho(&cache, 0xFFFF_FFFF) {
        ArpResolveChirho::KnownChirho(m) => assert_eq!(m, [0xFF; 6]),
        ArpResolveChirho::RequestChirho => panic!("broadcast needs no request"),
    }
    assert!(matches!(arp_resolve_chirho(&cache, 0x0A00_0009), ArpResolveChirho::RequestChirho));
}

#[test]
fn test_arp_request_frame_and_reply() {
    let our_mac = [0x52, 0x54, 0, 0x12, 0x34, 0x56];
    let frame = arp_request_chirho(our_mac, 0x0A00_020F, 0x0A00_0202);
    let eth = EthernetFrameChirho::parse_chirho(&frame).unwrap();
    assert_eq!(eth.dst_mac_chirho, [0xFF; 6]);
    assert_eq!(eth.ethertype_chirho, 0x0806);
    let req = ArpPacketChirho::parse_chirho(&eth.payload_chirho).unwrap();
    assert_eq!(req.operation_chirho, 1);
    assert_eq!(req.target_pa_chirho, 0x0A00_0202);

    // The peer asks for our address: the sender is cached and we reply.
    let ask = ArpPacketChirho {
        htype_chirho: 1,
        ptype_chirho: 0x0800,
        hlen_chirho: 6,
        plen_chirho: 4,
        operation_chirho: 1,
        sender_ha_chirho: [0xAA; 6],
        sender_pa_chirho: 0x0A00_0202,
        target_ha_chirho: [0; 6],
        target_pa_chirho: 0x0A00_020F,
    };
    let mut cache: Vec<ArpCacheEntryChirho> = Vec::new();
    let reply = handle_arp_chirho(&mut cache, &ask, 0x0A00_020F, our_mac).unwrap();
    assert_eq!(arp_lookup_chirho(&cache, 0x0A00_0202), Some([0xAA; 6]));
    let eth = EthernetFrameChirho::parse_chirho(&reply).unwrap();
    assert_eq!(eth.dst_mac_chirho, [0xAA; 6]);
    let rep = ArpPacketChirho::parse_chirho(&eth.payload_chirho).unwrap();
    assert_eq!(rep.operation_chirho, 2);
    assert_eq!(rep.sender_ha_chirho, our_mac);
    assert_eq!(rep.sender_pa_chirho, 0x0A00_020F);
    assert_eq!(rep.target_pa_chirho, 0x0A00_0202);
    // Not for us: cached but no reply.
    let mut other = ask;
    other.target_pa_chirho = 0x0A00_0099;
    assert!(handle_arp_chirho(&mut cache, &other, 0x0A00_020F, our_mac).is_none());
}

#[test]
fn test_interface_ips() {
    let mut ips: Vec<u32> = Vec::new();
    assert_eq!(get_interface_ip_chirho(&ips, 1), 0);
    set_interface_ip_chirho(&mut ips, 1, 0x0A00_020F);
    assert_eq!(get_interface_ip_chirho(&ips, 1), 0x0A00_020F);
    assert_eq!(get_interface_ip_chirho(&ips, 0), 0);
    let mut cfg: Vec<IfaceConfigChirho> = Vec::new();
    init_loopback_ip_chirho(&mut cfg);
    assert_eq!(cfg[0].name_chirho, "lo");
    assert_eq!(cfg[0].ipv4_addr_chirho, 0x7F00_0001);
    assert_eq!(cfg[0].mtu_val_chirho, 65536);
    assert_eq!(ip4_chirho(127, 0, 0, 1), 0x7F00_0001);
    assert!(is_loopback_addr_chirho(0x7F12_3456));
    assert!(!is_loopback_addr_chirho(0x0A00_0001));
}

#[test]
fn test_dns_name_and_query() {
    assert_eq!(dns_encode_name_chirho("www.example.com"), b"\x03www\x07example\x03com\x00".to_vec());
    assert_eq!(dns_encode_name_chirho("a..b."), b"\x01a\x01b\x00".to_vec());
    assert_eq!(dns_encode_name_chirho(""), vec![0]);
    let mut counter: u64 = 0x1_0005;
    let q = build_dns_query_chirho(&mut counter, "x.io");
    assert_eq!(counter, 0x1_0006);
    let h = DnsHeaderChirho::parse_chirho(&q).unwrap();
    assert_eq!(h.id_chirho, 5);
    assert_eq!(h.flags_chirho, 0x0100);
    assert_eq!(h.qdcount_chirho, 1);
    assert_eq!(&q[12..], b"\x01x\x02io\x00\x00\x01\x00\x01");
}

#[test]
fn test_dns_response_a_records() {
    let mut r: Vec<u8> = vec![0x12, 0x34, 0x81, 0x80, 0, 1, 0, 2, 0, 0, 0, 0];
    r.extend_from_slice(b"\x01x\x02io\x00\x00\x01\x00\x01");
    // A CNAME answer (skipped) with a compressed name, then an A record.
    r.extend_from_slice(&[0xC0, 0x0C, 0, 5, 0, 1, 0, 0, 0, 60, 0, 2, 0xC0, 0x0C]);
    r.extend_from_slice(&[0xC0, 0x0C, 0, 1, 0, 1, 0, 0, 1, 0, 0, 4, 93, 184, 216, 34]);
    let answers = parse_dns_response_chirho(&r);
    assert_eq!(answers.len(), 1);
    assert_eq!(answers[0].addr_chirho, 0x5DB8_D822);
    assert_eq!(answers[0].ttl_chirho, 256);
    assert!(parse_dns_response_chirho(&r[..10]).is_empty());
}

#[test]
fn test_dhcp_discover_and_request_bytes() {
    let mac = [0x52, 0x54, 0, 0x12, 0x34, 0x56];
    let d = build_dhcp_packet_chirho(mac, 0x1234_5678, 1, 0, 0);
    assert_eq!(d.len(), 249);
    assert_eq!(&d[..8], &[1, 1, 6, 0, 0x12, 0x34, 0x56, 0x78]);
    assert_eq!(&d[28..34], &mac);
    assert_eq!(&d[236..243], &[99, 130, 83, 99, 53, 1, 1]);
    assert_eq!(*d.last().unwrap(), 255);
    let r = build_dhcp_packet_chirho(mac, 1, 3, 0x0A00_020F, 0x0A00_0202);
    assert_eq!(r.len(), 261);
    assert_eq!(&r[243..255], &[50, 4, 10, 0, 2, 15, 54, 4, 10, 0, 2, 2]);
    assert_eq!(dhcp_xid_chirho(mac), 0x0012_3456);
}

fn dhcp_reply(msg_type: u8) -> Vec<u8> {
    let mut p = vec![0u8; 240];
    p[0] = 2;
    p[16..20].copy_from_slice(&[10, 0, 2, 15]);
    p[236..240].copy_from_slice(&[99, 130, 83, 99]);
    p.extend_from_slice(&[53, 1, msg_type, 0, 1, 4, 255, 255, 255, 0, 3, 4, 10, 0, 2, 2, 6, 4, 10, 0, 2, 3, 54, 4, 10, 0, 2, 2, 255]);
    p
}

#[test]
fn test_dhcp_options_parse() {
    let f = parse_dhcp_options_chirho(&dhcp_reply(2));
    assert_eq!(f, (2, 0x0A00_020F, 0xFFFF_FF00, 0x0A00_0202, 0x0A00_0203, 0x0A00_0202));
    let mut bad = dhcp_reply(2);
    bad[236] = 0;
    assert_eq!(parse_dhcp_options_chirho(&bad), (0, 0x0A00_020F, 0, 0, 0, 0));
}

#[test]
fn test_dhcp_exchange_state_machine() {
    let (p, a) = dhcp_discover_chirho(DhcpPhaseChirho::IdleChirho, DhcpEventChirho::StartChirho);
    assert_eq!(p, DhcpPhaseChirho::AwaitOfferChirho);
    assert_eq!(a, DhcpActionChirho::SendDiscoverChirho);
    let offer = parse_dhcp_options_chirho(&dhcp_reply(2));
    let (p, a) = dhcp_discover_chirho(p, DhcpEventChirho::ReplyChirho(offer));
    let o = DhcpOfferChirho {
        ip_chirho: 0x0A00_020F,
        subnet_chirho: 0xFFFF_FF00,
        gateway_chirho: 0x0A00_0202,
        dns_chirho: 0x0A00_0203,
        server_chirho: 0x0A00_0202,
    };
    assert_eq!(a, DhcpActionChirho::SendRequestChirho(o));
    let (p2, a2) = dhcp_discover_chirho(p, DhcpEventChirho::ReplyChirho(parse_dhcp_options_chirho(&dhcp_reply(2))));
    assert_eq!(p2, p);
    assert_eq!(a2, DhcpActionChirho::WaitChirho);
    let (p3, a3) = dhcp_discover_chirho(p, DhcpEventChirho::ReplyChirho(parse_dhcp_options_chirho(&dhcp_reply(5))));
    assert_eq!(p3, DhcpPhaseChirho::FinishedChirho);
    assert_eq!(a3, DhcpActionChirho::ConfigureChirho(o));
    let (_, give_up) = dhcp_discover_chirho(DhcpPhaseChirho::AwaitOfferChirho, DhcpEventChirho::TimeoutChirho);
    assert_eq!(give_up, DhcpActionChirho::GiveUpChirho);
}

#[test]
fn test_icmp_echo_reply() {
    let mut counters = EchoCountersChirho::new_chirho();
    let req = send_icmp_echo_request_chirho(&mut counters, 0x0A00_020F, 0x0808_0808, b"abc").unwrap();
    let ip = Ipv4HeaderChirho::parse_chirho(&req).unwrap();
    assert_eq!(ip.protocol_chirho, 1);
    assert_eq!(ip.dst_ip_chirho, 0x0808_0808);
    let icmp = IcmpPacketChirho::parse_chirho(&req[20..]).unwrap();
    assert_eq!(icmp.type_chirho, 8);
    let reply = handle_icmp_echo_chirho(&ip, &icmp).unwrap();
    let rip = Ipv4HeaderChirho::parse_chirho(&reply).unwrap();
    assert_eq!(rip.src_ip_chirho, 0x0808_0808);
    assert_eq!(rip.dst_ip_chirho, 0x0A00_020F);
    let ricmp = IcmpPacketChirho::parse_chirho(&reply[20..]).unwrap();
    assert_eq!(ricmp.type_chirho, 0);
    assert_eq!(ricmp.id_chirho, icmp.id_chirho);
    assert_eq!(ricmp.sequence_chirho, icmp.sequence_chirho);
    assert_eq!(ricmp.data_chirho, b"abc".to_vec());
    let mut not_echo = icmp.clone();
    not_echo.type_chirho = 0;
    assert!(handle_icmp_echo_chirho(&ip, &not_echo).is_none());
}

#[test]
fn test_ping_over_loopback_gets_reply() {
    let mut lo = LoopbackDeviceChirho::new_chirho();
    let mut t = SocketTableChirho::new_chirho();
    let mut counters = EchoCountersChirho::new_chirho();
    let (reply, tcp) = ping_loopback_chirho(&mut lo, &mut t, &mut counters);
    assert!(tcp.is_none());
    let reply = reply.unwrap();
    let icmp = IcmpPacketChirho::parse_chirho(&reply[20..]).unwrap();
    assert_eq!(icmp.type_chirho, 0);
    assert_eq!(icmp.data_chirho, b"lineluya-ping-chirho".to_vec());
}

#[test]
fn test_udp_datagram_reaches_bound_socket() {
    let mut t = SocketTableChirho::new_chirho();
    let s = sys_socket_chirho(&mut t, 2, 2, 0).unwrap();
    assert_eq!(sys_bind_chirho(&mut t, s, Some(SockAddrInChirho { port_chirho: 5353, addr_chirho: 0 })), 0);
    let packet = build_udp_packet_chirho(0x0A00_0202, 0x0A00_020F, 53, 5353, b"hey");
    let (r0, r1) = process_ipv4_packet_chirho(&mut t, &packet);
    assert!(r0.is_none() && r1.is_none());
    let sock = t.slots_chirho[s].as_ref().unwrap();
    assert_eq!(sock.recv_buf_chirho.iter().copied().collect::<Vec<u8>>(), vec![0, 3, b'h', b'e', b'y']);
    assert_eq!(sock.remote_addr_chirho, Some(SockAddrInChirho { port_chirho: 53, addr_chirho: 0x0A00_0202 }));
    // A datagram for a port nobody holds changes nothing.
    let other = build_udp_packet_chirho(0x0A00_0202, 0x0A00_020F, 53, 9999, b"x");
    process_ipv4_packet_chirho(&mut t, &other);
    assert_eq!(t.slots_chirho[s].as_ref().unwrap().recv_buf_chirho.len(), 5);
}

#[test]
fn test_tcp_packet_builders() {
    let syn = tcp_send_syn_chirho(0x0A00_020F, 0x5DB8_D822, 40000, 443, 77);
    let ip = Ipv4HeaderChirho::parse_chirho(&syn).unwrap();
    assert_eq!(ip.protocol_chirho, 6);
    assert_eq!(ip.total_length_chirho, 40);
    let s = TcpSegmentChirho::parse_chirho(&syn[20..]).unwrap();
    assert_eq!((s.src_port_chirho, s.dst_port_chirho, s.seq_num_chirho, s.flags_chirho), (40000, 443, 77, 0x02));
    let ack = tcp_send_ack_chirho(1, 2, 3, 4, 5, 6);
    let a = TcpSegmentChirho::parse_chirho(&ack[20..]).unwrap();
    assert_eq!((a.seq_num_chirho, a.ack_num_chirho, a.flags_chirho), (5, 6, 0x10));
    assert_eq!(send_tcp_response_chirho(&a, 1, 2).len(), 40);
}

#[test]
fn test_ip_text_and_preview() {
    assert_eq!(format_ip_chirho(0x0A00_020F), b"10.0.2.15".to_vec());
    assert_eq!(format_ip_chirho(0xFFFF_FFFF), b"255.255.255.255".to_vec());
    assert_eq!(preview_payload_ascii_chirho(b"ab\x00\x7f~"), b"ab..~".to_vec());
    assert_eq!(preview_payload_ascii_chirho(&[b'x'; 100]).len(), 48);
}

#[test]
fn test_virtio_helpers() {
    let bufs = vec![vec![0u8; 10].into_iter().chain(vec![1, 2, 3]).collect::<Vec<u8>>()];
    assert_eq!(virtio_rx_frame_chirho(&bufs, 0, 13), Some(vec![1, 2, 3]));
    assert_eq!(virtio_rx_frame_chirho(&bufs, 0, 10), None);
    assert_eq!(virtio_rx_frame_chirho(&bufs, 1, 13), None);
    assert_eq!(virtio_ring_slot_chirho(70, 64), 6);
    assert_eq!(virtio_mmio_base_from_bar_chirho(0xFEB0_000C), Some(0xFEB0_0000));
    assert_eq!(virtio_mmio_base_from_bar_chirho(0xC001), None);
    assert_eq!(virtio_mmio_base_from_bar_chirho(0x8), None);
}
