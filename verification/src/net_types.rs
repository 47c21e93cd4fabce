//! Network type definitions and constants: address and port newtypes,
//! typed network errors, the TCP state set, socket families and types, and
//! the parsed `sockaddr_in`.

use vstd::prelude::*;
use crate::bytes::{u16_be_spec, u32_be_spec, be16_spec, be32_spec, be16_chirho, be32_chirho, lemma_be16_roundtrip, lemma_be32_roundtrip};

verus! {

/// IPv4 address in network byte order (the most significant byte is the
/// first octet on the wire).
#[derive(Clone, Copy, Debug, PartialEq, Eq, Structural, Hash)]
pub struct Ipv4AddrChirho(pub u32);

impl Ipv4AddrChirho {
    /// 0.0.0.0 — the unspecified address.
    pub fn unspecified_chirho() -> (r: Ipv4AddrChirho)
        ensures r.0 == 0,
    {
        Ipv4AddrChirho(0)
    }

    /// 127.0.0.1 — loopback.
    pub fn loopback_chirho() -> (r: Ipv4AddrChirho)
        ensures r.0 == 0x7F000001,
    {
        Ipv4AddrChirho(0x7F000001)
    }

    /// 255.255.255.255 — broadcast.
    pub fn broadcast_chirho() -> (r: Ipv4AddrChirho)
        ensures r.0 == 0xFFFFFFFF,
    {
        Ipv4AddrChirho(0xFFFFFFFF)
    }

    /// The four octets, most significant first.
    pub fn octets_chirho(&self) -> (r: [u8; 4])
        ensures
            r@ == u32_be_spec(self.0),
    {
        let x = self.0;
        let r = [(x / 0x1000000) as u8, ((x / 0x10000) % 256) as u8, ((x / 256) % 256) as u8, (x % 256) as u8];
        assert(r@ == u32_be_spec(self.0));
        r
    }

    /// Build an address from its four octets, `a` being the most significant.
    pub fn from_octets_chirho(a_chirho: u8, b_chirho: u8, c_chirho: u8, d_chirho: u8) -> (r: Ipv4AddrChirho)
        ensures
            r.0 == be32_spec(a_chirho, b_chirho, c_chirho, d_chirho),
    {
        Ipv4AddrChirho(be32_chirho(a_chirho, b_chirho, c_chirho, d_chirho))
    }
}

/// TCP/UDP port in host byte order.
#[derive(Clone, Copy, Debug, PartialEq, Eq, Structural, Hash)]
pub struct PortChirho(pub u16);

impl PortChirho {
    /// Start of the ephemeral port range.
    pub fn ephemeral_start_chirho() -> (r: PortChirho)
        ensures r.0 == 32768,
    {
        PortChirho(32768)
    }
}

/// Ethertype for IPv4.
pub const ETHERTYPE_IPV4_CHIRHO: u16 = 0x0800;
/// Ethertype for ARP.
pub const ETHERTYPE_ARP_CHIRHO: u16 = 0x0806;
/// Ethertype for IPv6.
pub const ETHERTYPE_IPV6_CHIRHO: u16 = 0x86DD;

/// IP protocol number for ICMP.
pub const IP_PROTO_ICMP_CHIRHO: u8 = 1;
/// IP protocol number for TCP.
pub const IP_PROTO_TCP_CHIRHO: u8 = 6;
/// IP protocol number for UDP.
pub const IP_PROTO_UDP_CHIRHO: u8 = 17;

/// ARP hardware type: Ethernet.
pub const ARP_HTYPE_ETHERNET_CHIRHO: u16 = 1;
/// ARP operation: request.
pub const ARP_OP_REQUEST_CHIRHO: u16 = 1;
/// ARP operation: reply.
pub const ARP_OP_REPLY_CHIRHO: u16 = 2;

/// ICMP type: echo reply.
pub const ICMP_ECHO_REPLY_CHIRHO: u8 = 0;
/// ICMP type: echo request.
pub const ICMP_ECHO_REQUEST_CHIRHO: u8 = 8;

/// Maximum transmission unit of standard Ethernet.
pub const ETHERNET_MTU_CHIRHO: usize = 1500;
/// Maximum transmission unit of the loopback interface.
pub const LOOPBACK_MTU_CHIRHO: usize = 65536;
/// 8.8.8.8, the default DNS server.
pub const DEFAULT_DNS_CHIRHO: u32 = 0x08080808;
/// Poll iterations for long waits (DHCP, TCP connect).
pub const NETWORK_POLL_MAX_CHIRHO: u32 = 5_000_000;
/// Poll iterations for short waits (ARP, receive).
pub const NETWORK_POLL_SHORT_CHIRHO: u32 = 500_000;
/// Largest number of bytes taken from user space by one send.
pub const SOCKET_SEND_MAX_CHIRHO: usize = 65536;

/// TCP FIN flag.
pub const TCP_FIN_CHIRHO: u8 = 0x01;
/// TCP SYN flag.
pub const TCP_SYN_CHIRHO: u8 = 0x02;
/// TCP RST flag.
pub const TCP_RST_CHIRHO: u8 = 0x04;
/// TCP PSH flag.
pub const TCP_PSH_CHIRHO: u8 = 0x08;
/// TCP ACK flag.
pub const TCP_ACK_CHIRHO: u8 = 0x10;
/// TCP URG flag.
pub const TCP_URG_CHIRHO: u8 = 0x20;
/// Default TCP window.
pub const TCP_DEFAULT_WINDOW_CHIRHO: u16 = 65535;
/// Default TCP maximum segment size.
pub const TCP_DEFAULT_MSS_CHIRHO: u16 = 1460;

/// Linux errno values used by the network code (positive).
pub const EAGAIN_CHIRHO: i64 = 11;
pub const EBADF_CHIRHO: i64 = 9;
pub const EFAULT_CHIRHO: i64 = 14;
pub const EINVAL_CHIRHO: i64 = 22;
pub const EMFILE_CHIRHO: i64 = 24;
pub const ENOSYS_CHIRHO: i64 = 38;
pub const ENOTSOCK_CHIRHO: i64 = 88;
pub const EOPNOTSUPP_CHIRHO: i64 = 95;
pub const EAFNOSUPPORT_CHIRHO: i64 = 97;
pub const EADDRINUSE_CHIRHO: i64 = 98;
pub const ENETUNREACH_CHIRHO: i64 = 101;
pub const EISCONN_CHIRHO: i64 = 106;
pub const ENOTCONN_CHIRHO: i64 = 107;
pub const ETIMEDOUT_CHIRHO: i64 = 110;
pub const ECONNREFUSED_CHIRHO: i64 = 111;

/// Typed errors of the network subsystem.
#[derive(Debug, Clone, Copy, PartialEq, Eq, Structural)]
pub enum NetErrorChirho {
    BadFdChirho,
    AddrInUseChirho,
    ConnRefusedChirho,
    NetUnreachChirho,
    TimedOutChirho,
    OpNotSuppChirho,
    NotConnectedChirho,
    InvalidArgChirho,
    NoBufsChirho,
}

/// The negative Linux errno of each network error.
pub open spec fn net_error_errno_spec(e: NetErrorChirho) -> int {
    match e {
        NetErrorChirho::BadFdChirho => -9,
        NetErrorChirho::AddrInUseChirho => -98,
        NetErrorChirho::ConnRefusedChirho => -111,
        NetErrorChirho::NetUnreachChirho => -101,
        NetErrorChirho::TimedOutChirho => -110,
        NetErrorChirho::OpNotSuppChirho => -95,
        NetErrorChirho::NotConnectedChirho => -107,
        NetErrorChirho::InvalidArgChirho => -22,
        NetErrorChirho::NoBufsChirho => -105,
    }
}

impl NetErrorChirho {
    /// The Linux errno returned at the syscall boundary.
    pub fn to_errno_chirho(self) -> (r: i64)
        ensures
            r as int == net_error_errno_spec(self),
    {
        match self {
            NetErrorChirho::BadFdChirho => -9,
            NetErrorChirho::AddrInUseChirho => -98,
            NetErrorChirho::ConnRefusedChirho => -111,
            NetErrorChirho::NetUnreachChirho => -101,
            NetErrorChirho::TimedOutChirho => -110,
            NetErrorChirho::OpNotSuppChirho => -95,
            NetErrorChirho::NotConnectedChirho => -107,
            NetErrorChirho::InvalidArgChirho => -22,
            NetErrorChirho::NoBufsChirho => -105,
        }
    }
}

/// TCP connection states (RFC 793).
#[derive(Debug, Clone, Copy, PartialEq, Eq, Structural)]
pub enum TcpStateChirho {
    ClosedChirho,
    ListenChirho,
    SynSentChirho,
    SynReceivedChirho,
    EstablishedChirho,
    FinWait1Chirho,
    FinWait2Chirho,
    CloseWaitChirho,
    LastAckChirho,
    TimeWaitChirho,
    ClosingChirho,
}

/// Address family: Unix domain sockets.
pub const AF_UNIX_CHIRHO: u64 = 1;
/// Address family: IPv4.
pub const AF_INET_CHIRHO: u64 = 2;
/// Address family: IPv6.
pub const AF_INET6_CHIRHO: u64 = 10;
/// Address family: Netlink.
pub const AF_NETLINK_CHIRHO: u64 = 16;

/// Supported address families.
#[derive(Debug, Clone, Copy, PartialEq, Eq, Structural)]
pub enum AddressFamilyChirho {
    AfUnixChirho,
    AfInetChirho,
    AfInet6Chirho,
    AfNetlinkChirho,
}

/// The family named by a raw `domain` value, if any.
pub open spec fn address_family_spec(raw: u64) -> Option<AddressFamilyChirho> {
    if raw == AF_UNIX_CHIRHO {
        Some(AddressFamilyChirho::AfUnixChirho)
    } else if raw == AF_INET_CHIRHO {
        Some(AddressFamilyChirho::AfInetChirho)
    } else if raw == AF_INET6_CHIRHO {
        Some(AddressFamilyChirho::AfInet6Chirho)
    } else if raw == AF_NETLINK_CHIRHO {
        Some(AddressFamilyChirho::AfNetlinkChirho)
    } else {
        None
    }
}

impl AddressFamilyChirho {
    /// Convert a raw `domain` value.
    pub fn from_raw_chirho(raw_chirho: u64) -> (r: Option<AddressFamilyChirho>)
        ensures
            r == address_family_spec(raw_chirho),
    {
        if raw_chirho == AF_UNIX_CHIRHO {
            Some(AddressFamilyChirho::AfUnixChirho)
        } else if raw_chirho == AF_INET_CHIRHO {
            Some(AddressFamilyChirho::AfInetChirho)
        } else if raw_chirho == AF_INET6_CHIRHO {
            Some(AddressFamilyChirho::AfInet6Chirho)
        } else if raw_chirho == AF_NETLINK_CHIRHO {
            Some(AddressFamilyChirho::AfNetlinkChirho)
        } else {
            None
        }
    }

    /// The raw value of the family.
    pub fn as_raw_chirho(self) -> (r: u64)
        ensures
            address_family_spec(r) == Some(self),
    {
        match self {
            AddressFamilyChirho::AfUnixChirho => AF_UNIX_CHIRHO,
            AddressFamilyChirho::AfInetChirho => AF_INET_CHIRHO,
            AddressFamilyChirho::AfInet6Chirho => AF_INET6_CHIRHO,
            AddressFamilyChirho::AfNetlinkChirho => AF_NETLINK_CHIRHO,
        }
    }
}

/// Socket types.
#[derive(Debug, Clone, Copy, PartialEq, Eq, Structural)]
pub enum SocketTypeChirho {
    SockStreamChirho,
    SockDgramChirho,
    SockRawChirho,
}

/// The socket type named by the low four bits of a raw `type` value
/// (`SOCK_NONBLOCK` and `SOCK_CLOEXEC` lie above them).
pub open spec fn socket_type_spec(raw: u64) -> Option<SocketTypeChirho> {
    let base = raw % 16;
    if base == 1 {
        Some(SocketTypeChirho::SockStreamChirho)
    } else if base == 2 {
        Some(SocketTypeChirho::SockDgramChirho)
    } else if base == 3 {
        Some(SocketTypeChirho::SockRawChirho)
    } else {
        None
    }
}

impl SocketTypeChirho {
    /// Convert a raw `type` value, ignoring the flag bits.
    pub fn from_raw_chirho(raw_chirho: u64) -> (r: Option<SocketTypeChirho>)
        ensures
            r == socket_type_spec(raw_chirho),
    {
        let base_chirho = raw_chirho & 0xF;
        assert(raw_chirho & 0xF == raw_chirho % 16) by (bit_vector);
        if base_chirho == 1 {
            Some(SocketTypeChirho::SockStreamChirho)
        } else if base_chirho == 2 {
            Some(SocketTypeChirho::SockDgramChirho)
        } else if base_chirho == 3 {
            Some(SocketTypeChirho::SockRawChirho)
        } else {
            None
        }
    }
}

/// High-level socket states.
#[derive(Debug, Clone, Copy, PartialEq, Eq, Structural)]
pub enum SocketStateChirho {
    UnconnectedChirho,
    BoundChirho,
    ListeningChirho,
    ConnectedChirho,
    ClosedChirho,
}

/// Parsed IPv4 socket address (`struct sockaddr_in`).
#[derive(Debug, Clone, Copy, PartialEq, Eq, Structural)]
pub struct SockAddrInChirho {
    /// Port in host byte order.
    pub port_chirho: u16,
    /// Address in network byte order.
    pub addr_chirho: u32,
}

/// The 16 bytes of a `sockaddr_in`: family (little-endian), port and address
/// (big-endian), eight zero bytes.
pub open spec fn sockaddr_bytes_spec(a: SockAddrInChirho, family: u16) -> Seq<u8> {
    seq![(family % 256) as u8, (family / 256) as u8] + u16_be_spec(a.port_chirho) + u32_be_spec(a.addr_chirho)
        + seq![0u8, 0u8, 0u8, 0u8, 0u8, 0u8, 0u8, 0u8]
}

/// The address read from the bytes of a `sockaddr_in`, when it has eight or
/// more bytes.
pub open spec fn sockaddr_parse_spec(d: Seq<u8>) -> Option<SockAddrInChirho> {
    if d.len() < 8 {
        None
    } else {
        Some(SockAddrInChirho { port_chirho: be16_spec(d[2], d[3]), addr_chirho: be32_spec(d[4], d[5], d[6], d[7]) })
    }
}

impl SockAddrInChirho {
    /// Parse the user-space `sockaddr_in` layout.
    pub fn from_user_bytes_chirho(data_chirho: &[u8]) -> (r: Option<SockAddrInChirho>)
        ensures
            r == sockaddr_parse_spec(data_chirho@),
    {
        if data_chirho.len() < 8 {
            return None;
        }
        let port_chirho = be16_chirho(data_chirho[2], data_chirho[3]);
        let addr_chirho = be32_chirho(data_chirho[4], data_chirho[5], data_chirho[6], data_chirho[7]);
        Some(SockAddrInChirho { port_chirho, addr_chirho })
    }

    /// Write the user-space `sockaddr_in` layout.
    pub fn to_user_bytes_chirho(&self, family_chirho: u16) -> (r: [u8; 16])
        ensures
            r@ == sockaddr_bytes_spec(*self, family_chirho),
    {
        let p = self.port_chirho;
        let x = self.addr_chirho;
        let r = [
            (family_chirho % 256) as u8, (family_chirho / 256) as u8,
            (p / 256) as u8, (p % 256) as u8,
            (x / 0x1000000) as u8, ((x / 0x10000) % 256) as u8, ((x / 256) % 256) as u8, (x % 256) as u8,
            0, 0, 0, 0, 0, 0, 0, 0,
        ];
        assert(r@ == sockaddr_bytes_spec(*self, family_chirho));
        r
    }
}

/// Parsing the bytes that `to_user_bytes_chirho` writes gives back the
/// address, whatever the family.
pub proof fn lemma_sockaddr_roundtrip(a: SockAddrInChirho, family: u16)
    ensures
        sockaddr_parse_spec(sockaddr_bytes_spec(a, family)) == Some(a),
{
    let b = sockaddr_bytes_spec(a, family);
    assert(b[2] == u16_be_spec(a.port_chirho)[0]);
    assert(b[3] == u16_be_spec(a.port_chirho)[1]);
    assert(b[4] == u32_be_spec(a.addr_chirho)[0]);
    assert(b[7] == u32_be_spec(a.addr_chirho)[3]);
    lemma_be16_roundtrip(a.port_chirho);
    lemma_be32_roundtrip(a.addr_chirho);
}

} // verus!
