use kernel_chirho::net_types::{SockAddrInChirho, SocketStateChirho, TcpStateChirho};
use kernel_chirho::netops::{relay_to_tcp_2222_chirho, tcp_send_real_chirho};
use kernel_chirho::packets::{Ipv4HeaderChirho, TcpSegmentChirho};
use kernel_chirho::stack::process_ipv4_packet_chirho;
use kernel_chirho::socket::{
    alloc_ephemeral_port_chirho, has_established_tcp_chirho, recv_after_poll_chirho, socket_has_data_chirho, sys_accept_chirho,
    sys_bind_chirho, sys_connect_chirho, sys_getpeername_chirho, sys_getsockname_chirho, sys_listen_chirho, sys_recvfrom_chirho,
    sys_sendto_chirho, sys_shutdown_chirho, sys_socket_chirho, sys_socketpair_chirho, ConnectStepChirho, RecvStepChirho,
    SocketTableChirho,
};

fn addr(port: u16, ip: u32) -> Option<SockAddrInChirho> {
    Some(SockAddrInChirho { port_chirho: port, addr_chirho: ip })
}

#[test]
fn test_socket_errors() {
    let mut t = SocketTableChirho::new_chirho();
    assert_eq!(sys_socket_chirho(&mut t, 3, 1, 0), Err(-97));
    assert_eq!(sys_socket_chirho(&mut t, 2, 9, 0), Err(-22));
    assert_eq!(sys_socket_chirho(&mut t, 2, 1, 0), Ok(0));
    assert_eq!(sys_socket_chirho(&mut t, 2, 2, 0), Ok(1));
    assert_eq!(sys_bind_chirho(&mut t, 7, addr(80, 0)), -9);
    assert_eq!(sys_listen_chirho(&mut t, 7, 5), -9);
    assert_eq!(sys_connect_chirho_done(&mut t, 0, None), Some(-22));
    assert_eq!(sys_getpeername_chirho(&t, 0), Err(-107));
    assert_eq!(sys_socketpair_chirho(1, 1, 0), -38);
}

fn sys_connect_chirho_done(t: &mut SocketTableChirho, idx: usize, dest: Option<SockAddrInChirho>) -> Option<i64> {
    match sys_connect_chirho(t, idx, dest) {
        ConnectStepChirho::DoneChirho(c) => Some(c),
        ConnectStepChirho::RemoteChirho { .. } => None,
    }
}

#[test]
fn test_table_fills_up() {
    let mut t = SocketTableChirho::new_chirho();
    for i in 0..256usize {
        assert_eq!(sys_socket_chirho(&mut t, 2, 1, 0), Ok(i));
    }
    assert_eq!(sys_socket_chirho(&mut t, 2, 1, 0), Err(-24));
}

#[test]
fn test_bind_rejects_port_in_use() {
    let mut t = SocketTableChirho::new_chirho();
    let a = sys_socket_chirho(&mut t, 2, 1, 0).unwrap();
    let b = sys_socket_chirho(&mut t, 2, 1, 0).unwrap();
    assert_eq!(sys_bind_chirho(&mut t, a, addr(8080, 0)), 0);
    assert_eq!(sys_bind_chirho(&mut t, b, addr(8080, 0)), -98);
    let name = sys_getsockname_chirho(&t, a).unwrap();
    assert_eq!(&name[..4], &[2, 0, 0x1F, 0x90]);
}

#[test]
fn test_ephemeral_ports_advance() {
    let mut t = SocketTableChirho::new_chirho();
    let p1 = alloc_ephemeral_port_chirho(&mut t);
    let p2 = alloc_ephemeral_port_chirho(&mut t);
    assert_eq!(p1, 49152);
    assert_eq!(p2, 49153);
}

#[test]
fn test_loopback_connect_accept_send_receive() {
    let mut t = SocketTableChirho::new_chirho();
    let server = sys_socket_chirho(&mut t, 2, 1, 0).unwrap();
    assert_eq!(sys_bind_chirho(&mut t, server, addr(8080, 0x7F00_0001)), 0);
    assert_eq!(sys_listen_chirho(&mut t, server, 4), 0);
    let client = sys_socket_chirho(&mut t, 2, 1, 0).unwrap();
    assert_eq!(sys_connect_chirho_done(&mut t, client, addr(8080, 0x7F00_0001)), Some(0));
    assert!(has_established_tcp_chirho(&t, 8080));
    let conn = sys_accept_chirho(&mut t, server).unwrap() as usize;
    assert_eq!(t.slots_chirho[conn].as_ref().unwrap().tcb_chirho.state_chirho, TcpStateChirho::EstablishedChirho);
    assert_eq!(t.slots_chirho[client].as_ref().unwrap().state_chirho, SocketStateChirho::ConnectedChirho);
    let peer = sys_getpeername_chirho(&t, client).unwrap();
    assert_eq!(&peer[..8], &[2, 0, 0x1F, 0x90, 127, 0, 0, 1]);

    // Nothing buffered yet: the caller is told to poll, then gets EAGAIN.
    match sys_recvfrom_chirho(&mut t, conn, 64, true) {
        RecvStepChirho::PollChirho => {},
        RecvStepChirho::DoneChirho(n, _) => panic!("unexpected result {}", n),
    }
    assert_eq!(recv_after_poll_chirho(&mut t, conn, 64, true).0, -11);

    let (n, packet) = sys_sendto_chirho(&mut t, client, b"hello", 5, 0x0A00_020F, 0);
    assert_eq!(n, 5);
    let packet = packet.unwrap();
    let ip = Ipv4HeaderChirho::parse_chirho(&packet).unwrap();
    assert_eq!(ip.protocol_chirho, 6);
    assert_eq!(ip.src_ip_chirho, 0x7F00_0001);
    assert_eq!(ip.dst_ip_chirho, 0x7F00_0001);
    let s = TcpSegmentChirho::parse_chirho(&packet[20..]).unwrap();
    assert_eq!(s.dst_port_chirho, 8080);
    assert_eq!(s.payload_chirho, b"hello".to_vec());
}

#[test]
fn test_recv_on_unconnected_stream_is_enotconn() {
    let mut t = SocketTableChirho::new_chirho();
    let s = sys_socket_chirho(&mut t, 2, 1, 0).unwrap();
    match sys_recvfrom_chirho(&mut t, s, 16, true) {
        RecvStepChirho::DoneChirho(n, bytes) => {
            assert_eq!(n, -107);
            assert!(bytes.is_empty());
        },
        RecvStepChirho::PollChirho => panic!("expected ENOTCONN"),
    }
    assert!(!socket_has_data_chirho(&t, s));
    assert_eq!(sys_sendto_chirho(&mut t, s, b"x", 1, 0, 0).0, -107);
    assert_eq!(sys_shutdown_chirho(&mut t, 99, 2), 0);
}

#[test]
fn test_connect_to_remote_returns_syn_parameters() {
    let mut t = SocketTableChirho::new_chirho();
    let s = sys_socket_chirho(&mut t, 2, 1, 0).unwrap();
    match sys_connect_chirho(&mut t, s, addr(443, 0x5DB8_D822)) {
        ConnectStepChirho::RemoteChirho { local_port_chirho, remote_ip_chirho, remote_port_chirho, iss_chirho } => {
            assert_eq!(local_port_chirho, 49152);
            assert_eq!(remote_ip_chirho, 0x5DB8_D822);
            assert_eq!(remote_port_chirho, 443);
            assert_eq!(iss_chirho, 0);
        },
        ConnectStepChirho::DoneChirho(c) => panic!("unexpected done {}", c),
    }
    assert_eq!(t.slots_chirho[s].as_ref().unwrap().tcb_chirho.state_chirho, TcpStateChirho::SynSentChirho);
}

fn established_relay_table() -> (SocketTableChirho, usize) {
    let mut t = SocketTableChirho::new_chirho();
    let other = sys_socket_chirho(&mut t, 2, 1, 0).unwrap();
    assert_eq!(sys_bind_chirho(&mut t, other, addr(22, 0)), 0);
    let s = sys_socket_chirho(&mut t, 2, 1, 0).unwrap();
    let slot = t.slots_chirho[s].as_mut().unwrap();
    slot.local_addr_chirho = addr(2222, 0);
    slot.remote_addr_chirho = addr(50000, 0x0A00_0202);
    slot.tcb_chirho.state_chirho = TcpStateChirho::EstablishedChirho;
    slot.tcb_chirho.snd_nxt_chirho = 1000;
    slot.tcb_chirho.rcv_nxt_chirho = 77;
    (t, s)
}

#[test]
fn test_relay_splits_into_mss_segments() {
    let (mut t, s) = established_relay_table();
    let data: Vec<u8> = (0..3000u32).map(|i| (i % 251) as u8).collect();
    let packets = relay_to_tcp_2222_chirho(&mut t, 0x0A00_020F, &data);
    assert_eq!(packets.len(), 3);
    let mut expect_seq = 1000u32;
    let mut offset = 0usize;
    for p in &packets {
        let ip = Ipv4HeaderChirho::parse_chirho(p).unwrap();
        assert_eq!(ip.src_ip_chirho, 0x0A00_020F);
        assert_eq!(ip.dst_ip_chirho, 0x0A00_0202);
        let seg = TcpSegmentChirho::parse_chirho(&p[20..]).unwrap();
        assert_eq!(seg.src_port_chirho, 2222);
        assert_eq!(seg.dst_port_chirho, 50000);
        assert_eq!(seg.seq_num_chirho, expect_seq);
        assert_eq!(seg.ack_num_chirho, 77);
        let n = seg.payload_chirho.len();
        assert!(n <= 1460);
        assert_eq!(&seg.payload_chirho[..], &data[offset..offset + n]);
        offset += n;
        expect_seq += n as u32;
    }
    assert_eq!(offset, 3000);
    assert_eq!(t.slots_chirho[s].as_ref().unwrap().tcb_chirho.snd_nxt_chirho, 4000);
}

#[test]
fn test_relay_without_connection_or_data_does_nothing() {
    let (mut t, s) = established_relay_table();
    assert!(relay_to_tcp_2222_chirho(&mut t, 1, &[]).is_empty());
    t.slots_chirho[s].as_mut().unwrap().tcb_chirho.state_chirho = TcpStateChirho::FinWait1Chirho;
    assert!(relay_to_tcp_2222_chirho(&mut t, 1, b"abc").is_empty());
    assert_eq!(t.slots_chirho[s].as_ref().unwrap().tcb_chirho.snd_nxt_chirho, 1000);
}

#[test]
fn test_tcp_send_real_errors_and_packet() {
    let (mut t, s) = established_relay_table();
    assert_eq!(tcp_send_real_chirho(&mut t, 200, b"x"), Err(-9));
    assert_eq!(tcp_send_real_chirho(&mut t, 0, b"x"), Err(-107));
    let p = tcp_send_real_chirho(&mut t, s, b"ping").unwrap();
    let seg = TcpSegmentChirho::parse_chirho(&p[20..]).unwrap();
    assert_eq!(seg.payload_chirho, b"ping".to_vec());
    assert_eq!(seg.seq_num_chirho, 1000);
    assert_eq!(t.slots_chirho[s].as_ref().unwrap().tcb_chirho.snd_nxt_chirho, 1004);
}

#[test]
fn test_local_datagram_send_then_recv() {
    let mut t = SocketTableChirho::new_chirho();
    let a = sys_socket_chirho(&mut t, 2, 2, 0).unwrap();
    let b = sys_socket_chirho(&mut t, 2, 2, 0).unwrap();
    assert_eq!(sys_bind_chirho(&mut t, a, addr(5000, 0x7F00_0001)), 0);
    assert_eq!(sys_bind_chirho(&mut t, b, addr(6000, 0x7F00_0001)), 0);
    // bind leaves the socket bound; connect needs it unconnected or bound.
    assert_eq!(sys_connect_chirho_done(&mut t, a, addr(6000, 0x7F00_0001)), Some(0));
    assert_eq!(sys_connect_chirho_done(&mut t, b, addr(5000, 0x7F00_0001)), Some(0));
    let (n, packet) = sys_sendto_chirho(&mut t, a, b"datagram", 8, 0, 0);
    assert_eq!(n, 8);
    assert!(packet.is_none());
    match sys_recvfrom_chirho(&mut t, b, 64, true) {
        RecvStepChirho::DoneChirho(got, bytes) => {
            assert_eq!(got, 8);
            assert_eq!(bytes, b"datagram".to_vec());
        },
        RecvStepChirho::PollChirho => panic!("the data was delivered locally"),
    }
}

#[test]
fn test_loopback_tcp_data_reaches_accepted_socket() {
    let mut t = SocketTableChirho::new_chirho();
    let server = sys_socket_chirho(&mut t, 2, 1, 0).unwrap();
    assert_eq!(sys_bind_chirho(&mut t, server, addr(9090, 0x7F00_0001)), 0);
    assert_eq!(sys_listen_chirho(&mut t, server, 4), 0);
    let client = sys_socket_chirho(&mut t, 2, 1, 0).unwrap();
    assert_eq!(sys_connect_chirho_done(&mut t, client, addr(9090, 0x7F00_0001)), Some(0));
    let conn = sys_accept_chirho(&mut t, server).unwrap() as usize;
    let (_, packet) = sys_sendto_chirho(&mut t, client, b"over tcp", 8, 0, 0);
    let (_, ack) = process_ipv4_packet_chirho(&mut t, &packet.unwrap());
    assert!(ack.is_some());
    match sys_recvfrom_chirho(&mut t, conn, 64, true) {
        RecvStepChirho::DoneChirho(n, bytes) => {
            assert_eq!(n, 8);
            assert_eq!(bytes, b"over tcp".to_vec());
        },
        RecvStepChirho::PollChirho => panic!("the segment was delivered"),
    }
}
