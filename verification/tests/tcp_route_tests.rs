use kernel_chirho::net_types::TcpStateChirho;
use kernel_chirho::packets::TcpSegmentChirho;
use kernel_chirho::route::{init_routing_table_chirho, route_packet_chirho, RouteEntryChirho, RoutingTableChirho};
use kernel_chirho::tcp::{TcpControlBlockChirho, TcpRetransmitChirho};

fn seg(flags: u8, seq: u32, ack: u32, src_port: u16, dst_port: u16) -> TcpSegmentChirho {
    TcpSegmentChirho {
        src_port_chirho: src_port,
        dst_port_chirho: dst_port,
        seq_num_chirho: seq,
        ack_num_chirho: ack,
        data_offset_chirho: 5,
        flags_chirho: flags,
        window_chirho: 65535,
        checksum_chirho: 0,
        urgent_ptr_chirho: 0,
        payload_chirho: Vec::new(),
    }
}

#[test]
fn test_three_way_handshake_establishes_both_ends() {
    let mut client = TcpControlBlockChirho::new_chirho();
    let mut server = TcpControlBlockChirho::new_chirho();
    let mut client_counter: u64 = 1000;
    let mut server_counter: u64 = 5000;
    server.passive_open_chirho().unwrap();
    assert_eq!(server.state_chirho, TcpStateChirho::ListenChirho);

    let syn = client.active_open_chirho(40000, 80, &mut client_counter).unwrap();
    assert_eq!(syn.flags_chirho, 0x02);
    assert_eq!(syn.seq_num_chirho, 1000);
    assert_eq!(client_counter, 65000);
    assert_eq!(client.state_chirho, TcpStateChirho::SynSentChirho);

    let synack = server.process_segment_chirho(&syn, 80, &mut server_counter).unwrap();
    assert_eq!(synack.flags_chirho, 0x12);
    assert_eq!(synack.seq_num_chirho, 5000);
    assert_eq!(synack.ack_num_chirho, 1001);
    assert_eq!(server.state_chirho, TcpStateChirho::SynReceivedChirho);

    let ack = client.process_segment_chirho(&synack, 40000, &mut client_counter).unwrap();
    assert_eq!(ack.flags_chirho, 0x10);
    assert_eq!(ack.seq_num_chirho, 1001);
    assert_eq!(ack.ack_num_chirho, 5001);
    assert_eq!(client.state_chirho, TcpStateChirho::EstablishedChirho);

    assert!(server.process_segment_chirho(&ack, 80, &mut server_counter).is_none());
    assert_eq!(server.state_chirho, TcpStateChirho::EstablishedChirho);
    assert_eq!(client.snd_nxt_chirho, server.rcv_nxt_chirho);
    assert_eq!(server.snd_nxt_chirho, client.rcv_nxt_chirho);
}

#[test]
fn test_active_open_twice_is_refused() {
    let mut t = TcpControlBlockChirho::new_chirho();
    let mut counter: u64 = 7;
    t.active_open_chirho(1, 2, &mut counter).unwrap();
    let before = t;
    assert_eq!(t.active_open_chirho(1, 2, &mut counter).unwrap_err(), -106);
    assert_eq!(t, before);
    assert_eq!(t.passive_open_chirho(), Err(-106));
}

#[test]
fn test_rst_closes_a_connection() {
    let mut t = TcpControlBlockChirho::new_chirho();
    t.state_chirho = TcpStateChirho::EstablishedChirho;
    let mut counter: u64 = 0;
    let rst = seg(0x04, 0, 0, 80, 40000);
    assert!(t.process_segment_chirho(&rst, 40000, &mut counter).is_none());
    assert_eq!(t.state_chirho, TcpStateChirho::ClosedChirho);
}

#[test]
fn test_close_sends_fin_and_moves_state() {
    let mut t = TcpControlBlockChirho::new_chirho();
    t.state_chirho = TcpStateChirho::EstablishedChirho;
    t.snd_nxt_chirho = 100;
    t.rcv_nxt_chirho = 200;
    let fin = t.close_chirho(5, 6).unwrap();
    assert_eq!(fin.flags_chirho, 0x11);
    assert_eq!(fin.seq_num_chirho, 100);
    assert_eq!(fin.ack_num_chirho, 200);
    assert_eq!(t.state_chirho, TcpStateChirho::FinWait1Chirho);
    assert_eq!(t.snd_nxt_chirho, 101);

    let mut cw = TcpControlBlockChirho::new_chirho();
    cw.state_chirho = TcpStateChirho::CloseWaitChirho;
    assert!(cw.close_chirho(5, 6).is_some());
    assert_eq!(cw.state_chirho, TcpStateChirho::LastAckChirho);

    let mut closed = TcpControlBlockChirho::new_chirho();
    assert!(closed.close_chirho(5, 6).is_none());
    assert_eq!(closed, TcpControlBlockChirho::new_chirho());
}

#[test]
fn test_data_segment_advances_snd_nxt_with_wrap() {
    let mut t = TcpControlBlockChirho::new_chirho();
    t.state_chirho = TcpStateChirho::EstablishedChirho;
    t.snd_nxt_chirho = 0xFFFF_FFFE;
    let s = t.make_data_segment_chirho(2222, 5000, b"abcd").unwrap();
    assert_eq!(s.seq_num_chirho, 0xFFFF_FFFE);
    assert_eq!(s.flags_chirho, 0x18);
    assert_eq!(s.payload_chirho, b"abcd".to_vec());
    assert_eq!(t.snd_nxt_chirho, 2);
    let mut closed = TcpControlBlockChirho::new_chirho();
    assert!(closed.make_data_segment_chirho(1, 2, b"x").is_none());
}

#[test]
fn test_rtt_estimate_and_rto() {
    let mut r = TcpRetransmitChirho::new_chirho();
    assert_eq!(r.rto_ticks_chirho, 100);
    assert_eq!(r.cwnd_chirho, 14600);
    r.update_rtt_chirho(100);
    assert_eq!(r.srtt_chirho, 100);
    assert_eq!(r.rttvar_chirho, 50);
    assert_eq!(r.rto_ticks_chirho, 300);
    r.update_rtt_chirho(20);
    // rttvar = (3*50 + 80) / 4 = 57, srtt = (700 + 20) / 8 = 90
    assert_eq!(r.rttvar_chirho, 57);
    assert_eq!(r.srtt_chirho, 90);
    assert_eq!(r.rto_ticks_chirho, 90 + 228);
    let mut tiny = TcpRetransmitChirho::new_chirho();
    tiny.update_rtt_chirho(1);
    assert_eq!(tiny.rto_ticks_chirho, 20);
}

#[test]
fn test_timer_fires_and_backs_off() {
    let mut r = TcpRetransmitChirho::new_chirho();
    assert!(!r.tick_chirho());
    r.rto_ticks_chirho = 2;
    r.arm_timer_chirho();
    assert_eq!(r.timer_remaining_chirho, 2);
    assert!(!r.tick_chirho());
    assert!(r.tick_chirho());
    assert_eq!(r.retransmit_count_chirho, 1);
    assert_eq!(r.rto_ticks_chirho, 4);
    assert_eq!(r.cwnd_chirho, 1460);
    assert_eq!(r.ssthresh_chirho, 7300);
    r.disarm_timer_chirho();
    assert!(!r.timer_active_chirho);
    assert_eq!(r.retransmit_count_chirho, 0);
}

#[test]
fn test_congestion_window_growth() {
    let mut r = TcpRetransmitChirho::new_chirho();
    r.on_ack_chirho(500);
    assert_eq!(r.cwnd_chirho, 15100);
    r.on_ack_chirho(5000);
    assert_eq!(r.cwnd_chirho, 16560);
    r.ssthresh_chirho = 1000;
    r.on_ack_chirho(5000);
    assert_eq!(r.cwnd_chirho, 16560 + 1460 * 1460 / 16560);
    assert_eq!(r.effective_window_chirho(1000), 1000);
    assert_eq!(r.effective_window_chirho(65535), r.cwnd_chirho);
}

fn route(dest: u32, mask: u32, gw: u32, iface: usize, metric: u32) -> RouteEntryChirho {
    RouteEntryChirho { dest_chirho: dest, mask_chirho: mask, gateway_chirho: gw, iface_idx_chirho: iface, metric_chirho: metric }
}

#[test]
fn test_init_routing_table_routes() {
    let t = init_routing_table_chirho();
    assert_eq!(t.len_chirho(), 2);
    assert_eq!(route_packet_chirho(&t, 0x7F00_0001), Ok((0, 0)));
    assert_eq!(route_packet_chirho(&t, 0x0808_0808), Ok((0x0A00_0202, 1)));
}

#[test]
fn test_longest_prefix_wins_then_metric() {
    let mut t = RoutingTableChirho::new_chirho();
    assert!(t.is_empty_chirho());
    assert_eq!(route_packet_chirho(&t, 0x0A00_0001), Err(-101));
    t.add_route_chirho(route(0, 0, 0x0A00_0202, 1, 100));
    t.add_route_chirho(route(0x0A00_0000, 0xFFFF_FF00, 0, 1, 10));
    t.add_route_chirho(route(0x0A00_0000, 0xFFFF_FF00, 0x0A00_0001, 2, 5));
    assert_eq!(t.lookup_chirho(0x0A00_0042), Some((0x0A00_0001, 2)));
    assert_eq!(t.lookup_chirho(0xC0A8_0001), Some((0x0A00_0202, 1)));
    assert_eq!(route(0, 0xFFFF_FF00, 0, 0, 0).prefix_len_chirho(), 24);
    assert!(route(0x0A00_0000, 0xFF00_0000, 0, 0, 0).matches_chirho(0x0A01_0203));
    t.remove_route_chirho(0x0A00_0000, 0xFFFF_FF00);
    assert_eq!(t.len_chirho(), 1);
    assert_eq!(t.lookup_chirho(0x0A00_0042), Some((0x0A00_0202, 1)));
}
