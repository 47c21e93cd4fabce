use kernel_chirho::epoll::{
    epoll_create_impl_chirho, epoll_ctl_impl_chirho, epoll_wait_impl_chirho, EpollTableChirho, EPOLLIN_CHIRHO, EPOLLOUT_CHIRHO,
    EPOLL_CTL_ADD_CHIRHO, EPOLL_CTL_DEL_CHIRHO, EPOLL_CTL_MOD_CHIRHO,
};
use kernel_chirho::ioctl::{handle_net_ioctl_chirho, IoctlCommandChirho, NetIoctlReplyChirho, SIOCGIFADDR_CHIRHO,
    SIOCGIFFLAGS_CHIRHO, SIOCSIFADDR_CHIRHO, SIOCSIFFLAGS_CHIRHO};
use kernel_chirho::msg::{
    gather_iovec_chirho, iovec_count_chirho, scatter_iovec_chirho, sys_recvmsg_chirho, sys_sendmsg_chirho, total_iovec_len_chirho,
    IoVecChirho,
};
use kernel_chirho::net_types::{SockAddrInChirho, TcpStateChirho};
use kernel_chirho::netconf::IfaceConfigChirho;
use kernel_chirho::netfilter::{
    init_default_netns_chirho, nf_hook_chirho, nf_register_hook_chirho, NfHookEntryChirho, NfHookPointChirho, NfHookTableChirho,
    NfStepChirho, NfVerdictChirho,
};
use kernel_chirho::procnet::{gen_proc_net_tcp_chirho, gen_proc_net_udp_chirho};
use kernel_chirho::socket::{sys_bind_chirho, sys_socket_chirho, RecvStepChirho, SocketTableChirho};
use kernel_chirho::sockopt::{
    getsockopt_impl_chirho, is_socket_fd_chirho, setsockopt_impl_chirho, socket_idx_from_fd_pub_chirho, sys_getsockopt_chirho,
    sys_setsockopt_chirho, FdInodeChirho, SocketOptionsTableChirho, IPPROTO_TCP_CHIRHO, SOL_SOCKET_CHIRHO, SO_KEEPALIVE_CHIRHO,
    SO_RCVBUF_CHIRHO, SO_TYPE_CHIRHO, TCP_NODELAY_OPT_CHIRHO,
};
use kernel_chirho::unix_sock::{
    unix_socket_bind_chirho, unix_socket_connect_chirho, unix_socket_create_chirho, unix_socket_recv_chirho,
    unix_socket_send_chirho, UnixSocketTableChirho,
};

#[test]
fn test_epoll_lifecycle() {
    let mut ep = EpollTableChirho::new_chirho();
    let mut t = SocketTableChirho::new_chirho();
    let s = sys_socket_chirho(&mut t, 2, 2, 0).unwrap();
    assert_eq!(sys_bind_chirho(&mut t, s, Some(SockAddrInChirho { port_chirho: 7000, addr_chirho: 0 })), 0);
    let epfd = epoll_create_impl_chirho(&mut ep);
    assert_eq!(epfd, 1000);
    assert_eq!(epoll_create_impl_chirho(&mut ep), 1001);
    let epfd = epfd as i32;
    assert_eq!(epoll_ctl_impl_chirho(&mut ep, 5, EPOLL_CTL_ADD_CHIRHO, s as i32, EPOLLIN_CHIRHO, 1), -9);
    assert_eq!(epoll_ctl_impl_chirho(&mut ep, epfd, EPOLL_CTL_MOD_CHIRHO, s as i32, EPOLLIN_CHIRHO, 1), -2);
    assert_eq!(epoll_ctl_impl_chirho(&mut ep, epfd, EPOLL_CTL_ADD_CHIRHO, s as i32, EPOLLIN_CHIRHO | EPOLLOUT_CHIRHO, 42), 0);
    assert_eq!(epoll_ctl_impl_chirho(&mut ep, epfd, 9, s as i32, 0, 0), -22);
    // A bound socket is writable; nothing is buffered yet.
    let ev = epoll_wait_impl_chirho(&ep, &t, epfd, true, 8).unwrap();
    assert_eq!(ev.len(), 1);
    assert_eq!(ev[0].events_chirho, EPOLLOUT_CHIRHO);
    assert_eq!(ev[0].data_chirho, 42);
    assert!(epoll_wait_impl_chirho(&ep, &t, epfd, false, 8).unwrap().is_empty());
    assert_eq!(epoll_wait_impl_chirho(&ep, &t, 2000, true, 8).unwrap_err(), -9);
    assert_eq!(epoll_ctl_impl_chirho(&mut ep, epfd, EPOLL_CTL_DEL_CHIRHO, s as i32, 0, 0), 0);
    assert!(epoll_wait_impl_chirho(&ep, &t, epfd, true, 8).unwrap().is_empty());
}

#[test]
fn test_unix_socket_message_roundtrip() {
    let mut t = UnixSocketTableChirho::new_chirho();
    let server = unix_socket_create_chirho(&mut t, 1).unwrap();
    let client = unix_socket_create_chirho(&mut t, 1).unwrap();
    assert_eq!(unix_socket_bind_chirho(&mut t, server, "/run/sock"), 0);
    assert_eq!(unix_socket_bind_chirho(&mut t, client, "/run/sock"), -98);
    assert_eq!(unix_socket_connect_chirho(&mut t, client, "/run/sock"), -111);
    t.slots_chirho[server].as_mut().unwrap().listening_chirho = true;
    assert_eq!(unix_socket_connect_chirho(&mut t, client, "/run/sock"), 0);
    assert_eq!(t.slots_chirho[client].as_ref().unwrap().peer_idx_chirho, Some(server));
    assert_eq!(unix_socket_send_chirho(&mut t, client, b"one"), 3);
    assert_eq!(unix_socket_send_chirho(&mut t, client, b"two!"), 4);
    assert_eq!(unix_socket_recv_chirho(&mut t, server), Some(b"one".to_vec()));
    assert_eq!(unix_socket_recv_chirho(&mut t, server), Some(b"two!".to_vec()));
    assert_eq!(unix_socket_recv_chirho(&mut t, server), None);
    assert_eq!(unix_socket_send_chirho(&mut t, server, b"x"), -107);
    assert_eq!(unix_socket_send_chirho(&mut t, 63, b"x"), -9);
}

#[test]
fn test_sockopt_set_then_get() {
    let mut opts = SocketOptionsTableChirho::new_chirho();
    let mut t = SocketTableChirho::new_chirho();
    let s = sys_socket_chirho(&mut t, 2, 1, 0).unwrap();
    assert_eq!(getsockopt_impl_chirho(&opts, &t, s, SOL_SOCKET_CHIRHO, SO_RCVBUF_CHIRHO, true), Ok(87380));
    assert_eq!(setsockopt_impl_chirho(&mut opts, s, SOL_SOCKET_CHIRHO, SO_RCVBUF_CHIRHO, 4096), 0);
    assert_eq!(getsockopt_impl_chirho(&opts, &t, s, SOL_SOCKET_CHIRHO, SO_RCVBUF_CHIRHO, true), Ok(4096));
    assert_eq!(setsockopt_impl_chirho(&mut opts, s, IPPROTO_TCP_CHIRHO, TCP_NODELAY_OPT_CHIRHO, 7), 0);
    assert_eq!(getsockopt_impl_chirho(&opts, &t, s, IPPROTO_TCP_CHIRHO, TCP_NODELAY_OPT_CHIRHO, true), Ok(1));
    assert_eq!(getsockopt_impl_chirho(&opts, &t, s, SOL_SOCKET_CHIRHO, SO_KEEPALIVE_CHIRHO, true), Ok(0));
    assert_eq!(getsockopt_impl_chirho(&opts, &t, s, SOL_SOCKET_CHIRHO, SO_TYPE_CHIRHO, true), Ok(1));
    assert_eq!(getsockopt_impl_chirho(&opts, &t, s, SOL_SOCKET_CHIRHO, SO_TYPE_CHIRHO, false), Err(-14));
    assert_eq!(setsockopt_impl_chirho(&mut opts, 500, SOL_SOCKET_CHIRHO, SO_RCVBUF_CHIRHO, 1), -22);
    assert_eq!(getsockopt_impl_chirho(&opts, &t, 500, SOL_SOCKET_CHIRHO, SO_RCVBUF_CHIRHO, true), Err(-22));
}

#[test]
fn test_sockopt_through_descriptors() {
    let mut opts = SocketOptionsTableChirho::new_chirho();
    let t = SocketTableChirho::new_chirho();
    let sock_file = Some(FdInodeChirho { mode_chirho: 0o140777, ino_chirho: 3 });
    let reg_file = Some(FdInodeChirho { mode_chirho: 0o100644, ino_chirho: 3 });
    assert_eq!(socket_idx_from_fd_pub_chirho(sock_file), Ok(3));
    assert_eq!(socket_idx_from_fd_pub_chirho(reg_file), Err(-88));
    assert_eq!(socket_idx_from_fd_pub_chirho(None), Err(-9));
    assert!(is_socket_fd_chirho(sock_file));
    assert!(!is_socket_fd_chirho(reg_file));
    assert_eq!(sys_setsockopt_chirho(&mut opts, reg_file, SOL_SOCKET_CHIRHO, SO_KEEPALIVE_CHIRHO, 1), -88);
    assert_eq!(sys_setsockopt_chirho(&mut opts, sock_file, SOL_SOCKET_CHIRHO, SO_KEEPALIVE_CHIRHO, 1), 0);
    assert_eq!(sys_getsockopt_chirho(&opts, &t, sock_file, SOL_SOCKET_CHIRHO, SO_KEEPALIVE_CHIRHO, true), Ok(1));
    assert_eq!(sys_getsockopt_chirho(&opts, &t, None, SOL_SOCKET_CHIRHO, SO_KEEPALIVE_CHIRHO, true), Err(-9));
}

#[test]
fn test_iovec_plans() {
    assert_eq!(iovec_count_chirho(0, 0), Ok(0));
    assert_eq!(iovec_count_chirho(0x1000, 65), Err(-22));
    assert_eq!(iovec_count_chirho(0, 2), Err(-14));
    assert_eq!(iovec_count_chirho(0x1000, 2), Ok(2));
    let iovs = [
        IoVecChirho { iov_base_chirho: 0x1000, iov_len_chirho: 10 },
        IoVecChirho { iov_base_chirho: 0, iov_len_chirho: 50 },
        IoVecChirho { iov_base_chirho: 0x2000, iov_len_chirho: 0 },
        IoVecChirho { iov_base_chirho: 0x3000, iov_len_chirho: 20 },
    ];
    assert_eq!(total_iovec_len_chirho(&iovs), 80);
    let g = gather_iovec_chirho(&iovs);
    assert_eq!(g.len(), 2);
    assert_eq!((g[0].base_chirho, g[0].offset_chirho, g[0].len_chirho), (0x1000, 0, 10));
    assert_eq!((g[1].base_chirho, g[1].offset_chirho, g[1].len_chirho), (0x3000, 10, 20));
    let s = scatter_iovec_chirho(&iovs, 15);
    assert_eq!(s.len(), 2);
    assert_eq!((s[1].base_chirho, s[1].offset_chirho, s[1].len_chirho), (0x3000, 10, 5));
    assert_eq!(scatter_iovec_chirho(&iovs, 4).len(), 1);
    let big = [IoVecChirho { iov_base_chirho: 0x1000, iov_len_chirho: 100_000 }];
    assert_eq!(gather_iovec_chirho(&big)[0].len_chirho, 65536);
}

#[test]
fn test_sendmsg_recvmsg_errors() {
    let mut t = SocketTableChirho::new_chirho();
    let s = sys_socket_chirho(&mut t, 2, 1, 0).unwrap();
    assert_eq!(sys_sendmsg_chirho(&mut t, s, -1, Ok(vec![1]), 0, 0).0, -22);
    assert_eq!(sys_sendmsg_chirho(&mut t, s, 1, Err(-14), 0, 0).0, -14);
    assert_eq!(sys_sendmsg_chirho(&mut t, s, 1, Ok(vec![1, 2]), 0, 0).0, -107);
    assert_eq!(sys_sendmsg_chirho(&mut t, 9, 1, Ok(vec![1, 2]), 0, 0).0, 2);
    match sys_recvmsg_chirho(&mut t, s, 1, Ok(0)) {
        RecvStepChirho::DoneChirho(n, v) => {
            assert_eq!(n, 0);
            assert!(v.is_empty());
        },
        RecvStepChirho::PollChirho => panic!("no capacity: nothing to wait for"),
    }
    match sys_recvmsg_chirho(&mut t, s, -3, Ok(10)) {
        RecvStepChirho::DoneChirho(n, _) => assert_eq!(n, -22),
        RecvStepChirho::PollChirho => panic!("negative count"),
    }
    match sys_recvmsg_chirho(&mut t, s, 1, Ok(10)) {
        RecvStepChirho::DoneChirho(n, _) => assert_eq!(n, -107),
        RecvStepChirho::PollChirho => panic!("not connected"),
    }
}

fn eth0() -> IfaceConfigChirho {
    IfaceConfigChirho {
        name_chirho: "eth0".to_string(),
        ipv4_addr_chirho: 0x0A00_020F,
        netmask_chirho: 0xFFFF_FF00,
        flags_chirho: 0x43,
        mtu_val_chirho: 1500,
    }
}

#[test]
fn test_interface_ioctls() {
    assert_eq!(IoctlCommandChirho::from_raw_chirho(0x5401), Some(IoctlCommandChirho::TcgetsChirho));
    assert_eq!(IoctlCommandChirho::from_raw_chirho(0x8927), Some(IoctlCommandChirho::SiocgifhwaddrChirho));
    assert_eq!(IoctlCommandChirho::from_raw_chirho(0x1234), None);
    let mut cfg = vec![eth0()];
    let eth = "eth0".to_string();
    let wlan = "wlan0".to_string();
    assert_eq!(handle_net_ioctl_chirho(&mut cfg, SIOCGIFADDR_CHIRHO, false, &eth, 0), NetIoctlReplyChirho::DoneChirho(-22));
    assert_eq!(handle_net_ioctl_chirho(&mut cfg, SIOCGIFADDR_CHIRHO, true, &eth, 0), NetIoctlReplyChirho::AddrChirho(0x0A00_020F));
    assert_eq!(handle_net_ioctl_chirho(&mut cfg, SIOCGIFADDR_CHIRHO, true, &wlan, 0), NetIoctlReplyChirho::DoneChirho(-2));
    assert_eq!(handle_net_ioctl_chirho(&mut cfg, SIOCSIFADDR_CHIRHO, true, &eth, 0x0A00_0005), NetIoctlReplyChirho::DoneChirho(0));
    assert_eq!(handle_net_ioctl_chirho(&mut cfg, SIOCGIFADDR_CHIRHO, true, &eth, 0), NetIoctlReplyChirho::AddrChirho(0x0A00_0005));
    assert_eq!(handle_net_ioctl_chirho(&mut cfg, SIOCSIFADDR_CHIRHO, true, &wlan, 0xC0A8_0001), NetIoctlReplyChirho::DoneChirho(0));
    assert_eq!(cfg.len(), 2);
    assert_eq!(cfg[1].name_chirho, "wlan0");
    assert_eq!(cfg[1].netmask_chirho, 0xFFFF_FF00);
    assert_eq!(handle_net_ioctl_chirho(&mut cfg, SIOCSIFFLAGS_CHIRHO, true, &eth, 0x1), NetIoctlReplyChirho::DoneChirho(0));
    assert_eq!(handle_net_ioctl_chirho(&mut cfg, SIOCGIFFLAGS_CHIRHO, true, &eth, 0), NetIoctlReplyChirho::FlagsChirho(1));
    assert_eq!(handle_net_ioctl_chirho(&mut cfg, 0x9999, true, &eth, 0), NetIoctlReplyChirho::DoneChirho(0));
}

fn hook(hp: NfHookPointChirho, prio: i32, handler: usize) -> NfHookEntryChirho {
    NfHookEntryChirho { hook_chirho: hp, priority_chirho: prio, handler_chirho: handler }
}

#[test]
fn test_netfilter_hooks_run_in_priority_order() {
    let ns = init_default_netns_chirho();
    assert_eq!(ns.id_chirho, 0);
    assert_eq!(ns.devices_chirho, vec!["lo".to_string()]);
    assert_eq!(NfVerdictChirho::AcceptChirho.value_chirho(), 1);
    assert_eq!(NfHookPointChirho::PostRoutingChirho.value_chirho(), 4);
    let mut t = NfHookTableChirho::new_chirho();
    nf_register_hook_chirho(&mut t, hook(NfHookPointChirho::LocalInChirho, 10, 100));
    nf_register_hook_chirho(&mut t, hook(NfHookPointChirho::LocalOutChirho, 0, 200));
    nf_register_hook_chirho(&mut t, hook(NfHookPointChirho::LocalInChirho, -5, 300));
    nf_register_hook_chirho(&mut t, hook(NfHookPointChirho::LocalInChirho, 10, 400));
    let order: Vec<usize> = t.entries_chirho.iter().map(|e| e.handler_chirho).collect();
    assert_eq!(order, vec![300, 100, 200, 400]);

    let hp = NfHookPointChirho::LocalInChirho;
    let mut calls = Vec::new();
    let mut step = nf_hook_chirho(&t, hp, None);
    while let NfStepChirho::CallChirho(i) = step {
        calls.push(t.entries_chirho[i].handler_chirho);
        step = nf_hook_chirho(&t, hp, Some((i, NfVerdictChirho::AcceptChirho)));
    }
    assert_eq!(calls, vec![300, 100, 400]);
    assert_eq!(step, NfStepChirho::DoneChirho(NfVerdictChirho::AcceptChirho));
    assert_eq!(nf_hook_chirho(&t, hp, Some((0, NfVerdictChirho::DropChirho))), NfStepChirho::DoneChirho(NfVerdictChirho::DropChirho));
    assert_eq!(nf_hook_chirho(&t, NfHookPointChirho::ForwardChirho, None), NfStepChirho::DoneChirho(NfVerdictChirho::AcceptChirho));
}

#[test]
fn test_proc_net_rows() {
    let mut t = SocketTableChirho::new_chirho();
    let tcp = sys_socket_chirho(&mut t, 2, 1, 0).unwrap();
    let udp = sys_socket_chirho(&mut t, 2, 2, 0).unwrap();
    assert_eq!(sys_bind_chirho(&mut t, tcp, Some(SockAddrInChirho { port_chirho: 22, addr_chirho: 0x7F00_0001 })), 0);
    assert_eq!(sys_bind_chirho(&mut t, udp, Some(SockAddrInChirho { port_chirho: 53, addr_chirho: 0 })), 0);
    t.slots_chirho[tcp].as_mut().unwrap().tcb_chirho.state_chirho = TcpStateChirho::ListenChirho;
    let rows = gen_proc_net_tcp_chirho(&t);
    assert_eq!(rows.len(), 1);
    assert_eq!(rows[0].sl_chirho, 0);
    assert_eq!(rows[0].local_ip_le_chirho, 0x0100_007F);
    assert_eq!(rows[0].local_port_chirho, 22);
    assert_eq!(rows[0].st_chirho, 0x0A);
    assert_eq!(rows[0].inode_chirho, tcp);
    let urows = gen_proc_net_udp_chirho(&t);
    assert_eq!(urows.len(), 1);
    assert_eq!(urows[0].local_port_chirho, 53);
    assert_eq!(urows[0].inode_chirho, udp);
}
