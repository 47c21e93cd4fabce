//! Interface configuration: the ARP cache, interface addresses, interface
//! records, the loopback device, outgoing-packet routing decisions and the
//! configuration a DHCP offer installs.

use vstd::prelude::*;
use std::collections::VecDeque;
use crate::packets::{arp_bytes_spec, ethernet_bytes_spec, ArpPacketChirho, EthernetFrameChirho};
use crate::route::{lookup_result, no_route, RouteEntryChirho, RoutingTableChirho, without_routes};
use crate::ipv4::{is_loopback_spec, is_loopback_addr_chirho, send_icmp_echo_request_chirho, EchoCountersChirho, LOOPBACK_IP_CHIRHO};
use crate::dhcp::{DhcpOfferChirho, DhcpResultChirho};
use crate::socket::{table_wf, SocketTableChirho};
use crate::stack::process_ipv4_packet_chirho;
use crate::bytes::be32_spec;
use crate::net_types::{
    Ipv4AddrChirho, ARP_HTYPE_ETHERNET_CHIRHO, ARP_OP_REPLY_CHIRHO, ARP_OP_REQUEST_CHIRHO, EINVAL_CHIRHO,
    ENETUNREACH_CHIRHO, ETHERNET_MTU_CHIRHO, ETHERTYPE_ARP_CHIRHO, ETHERTYPE_IPV4_CHIRHO, LOOPBACK_MTU_CHIRHO,
};

verus! {

// ---------------------------------------------------------------------------
// ARP cache
// ---------------------------------------------------------------------------

/// One ARP cache entry.
#[derive(Debug, Clone, Copy)]
pub struct ArpCacheEntryChirho {
    pub ip_chirho: u32,
    pub mac_chirho: [u8; 6],
}

/// The index of the first entry for `ip`.
pub open spec fn arp_find(s: Seq<ArpCacheEntryChirho>, ip: u32) -> Option<int>
    decreases s.len(),
{
    if s.len() == 0 {
        None
    } else {
        match arp_find(s.drop_last(), ip) {
            Some(i) => Some(i),
            None => if s.last().ip_chirho == ip { Some(s.len() - 1) } else { None },
        }
    }
}

/// The MAC address the cache holds for `ip`: that of its first entry.
pub open spec fn arp_lookup_spec(s: Seq<ArpCacheEntryChirho>, ip: u32) -> Option<[u8; 6]> {
    match arp_find(s, ip) {
        Some(i) => Some(s[i].mac_chirho),
        None => None,
    }
}

/// The cache after recording `ip` at `mac`: the first entry for `ip` is
/// updated, or a new entry is appended.
pub open spec fn arp_insert_spec(s: Seq<ArpCacheEntryChirho>, ip: u32, mac: [u8; 6]) -> Seq<ArpCacheEntryChirho> {
    match arp_find(s, ip) {
        Some(i) => s.update(i, ArpCacheEntryChirho { ip_chirho: ip, mac_chirho: mac }),
        None => s.push(ArpCacheEntryChirho { ip_chirho: ip, mac_chirho: mac }),
    }
}

proof fn lemma_arp_find_facts(s: Seq<ArpCacheEntryChirho>, ip: u32)
    ensures
        arp_find(s, ip) matches Some(i) ==> 0 <= i < s.len() && s[i].ip_chirho == ip
            && forall|k: int| 0 <= k < i ==> (#[trigger] s[k]).ip_chirho != ip,
        arp_find(s, ip) is None ==> forall|k: int| 0 <= k < s.len() ==> (#[trigger] s[k]).ip_chirho != ip,
    decreases s.len(),
{
    if s.len() > 0 {
        lemma_arp_find_facts(s.drop_last(), ip);
        assert forall|k: int| 0 <= k < s.len() - 1 implies s[k] == s.drop_last()[k] by {}
    }
}

proof fn lemma_arp_find_unique(s: Seq<ArpCacheEntryChirho>, ip: u32, i: int)
    requires
        0 <= i < s.len(),
        s[i].ip_chirho == ip,
        forall|k: int| 0 <= k < i ==> (#[trigger] s[k]).ip_chirho != ip,
    ensures
        arp_find(s, ip) == Some(i),
    decreases s.len(),
{
    if i < s.len() - 1 {
        assert forall|k: int| 0 <= k <= i implies s.drop_last()[k] == s[k] by {}
        lemma_arp_find_unique(s.drop_last(), ip, i);
    } else {
        lemma_arp_find_none(s.drop_last(), ip);
    }
}

proof fn lemma_arp_find_none(s: Seq<ArpCacheEntryChirho>, ip: u32)
    requires
        forall|k: int| 0 <= k < s.len() ==> (#[trigger] s[k]).ip_chirho != ip,
    ensures
        arp_find(s, ip) is None,
    decreases s.len(),
{
    if s.len() > 0 {
        assert forall|k: int| 0 <= k < s.len() - 1 implies (#[trigger] s.drop_last()[k]).ip_chirho != ip by {
            assert(s.drop_last()[k] == s[k]);
        }
        lemma_arp_find_none(s.drop_last(), ip);
    }
}

/// Look up the MAC address cached for `ip`.
pub fn arp_lookup_chirho(cache_chirho: &Vec<ArpCacheEntryChirho>, ip_chirho: u32) -> (r: Option<[u8; 6]>)
    ensures
        r == arp_lookup_spec(cache_chirho@, ip_chirho),
{
    let mut i: usize = 0;
    while i < cache_chirho.len()
        invariant
            i <= cache_chirho@.len(),
            forall|k: int| 0 <= k < i ==> (#[trigger] cache_chirho@[k]).ip_chirho != ip_chirho,
        decreases cache_chirho@.len() - i,
    {
        if cache_chirho[i].ip_chirho == ip_chirho {
            proof { lemma_arp_find_unique(cache_chirho@, ip_chirho, i as int); }
            return Some(cache_chirho[i].mac_chirho);
        }
        i = i + 1;
    }
    proof { lemma_arp_find_none(cache_chirho@, ip_chirho); }
    None
}

/// Record `ip` at `mac`: update its entry or append one.
pub fn arp_insert_chirho(cache_chirho: &mut Vec<ArpCacheEntryChirho>, ip_chirho: u32, mac_chirho: [u8; 6])
    ensures
        final(cache_chirho)@ == arp_insert_spec(old(cache_chirho)@, ip_chirho, mac_chirho),
{
    let mut i: usize = 0;
    while i < cache_chirho.len()
        invariant
            i <= cache_chirho@.len(),
            cache_chirho@ == old(cache_chirho)@,
            forall|k: int| 0 <= k < i ==> (#[trigger] cache_chirho@[k]).ip_chirho != ip_chirho,
        decreases cache_chirho@.len() - i,
    {
        if cache_chirho[i].ip_chirho == ip_chirho {
            proof { lemma_arp_find_unique(cache_chirho@, ip_chirho, i as int); }
            cache_chirho.set(i, ArpCacheEntryChirho { ip_chirho, mac_chirho });
            return;
        }
        i = i + 1;
    }
    proof { lemma_arp_find_none(cache_chirho@, ip_chirho); }
    cache_chirho.push(ArpCacheEntryChirho { ip_chirho, mac_chirho });
}

/// After recording `ip` at `mac`, looking up `ip` gives `mac`, and every
/// other address gives what it gave before.
pub proof fn lemma_arp_insert_lookup(s: Seq<ArpCacheEntryChirho>, ip: u32, mac: [u8; 6], other: u32)
    ensures
        arp_lookup_spec(arp_insert_spec(s, ip, mac), ip) == Some(mac),
        other != ip ==> arp_lookup_spec(arp_insert_spec(s, ip, mac), other) == arp_lookup_spec(s, other),
{
    lemma_arp_find_facts(s, ip);
    lemma_arp_find_facts(s, other);
    let n = arp_insert_spec(s, ip, mac);
    match arp_find(s, ip) {
        Some(i) => {
            assert forall|k: int| 0 <= k < i implies (#[trigger] n[k]).ip_chirho != ip by { assert(n[k] == s[k]); }
            lemma_arp_find_unique(n, ip, i);
        },
        None => {
            assert forall|k: int| 0 <= k < s.len() implies (#[trigger] n[k]).ip_chirho != ip by { assert(n[k] == s[k]); }
            lemma_arp_find_unique(n, ip, s.len() as int);
        },
    }
    if other != ip {
        match arp_find(s, other) {
            Some(j) => {
                assert(n[j] == s[j]);
                assert forall|k: int| 0 <= k < j implies (#[trigger] n[k]).ip_chirho != other by {
                    if k < s.len() { assert(n[k].ip_chirho == s[k].ip_chirho || n[k].ip_chirho == ip); }
                }
                lemma_arp_find_unique(n, other, j);
            },
            None => {
                assert forall|k: int| 0 <= k < n.len() implies (#[trigger] n[k]).ip_chirho != other by {
                    if k < s.len() { assert(n[k].ip_chirho == s[k].ip_chirho || n[k].ip_chirho == ip); }
                }
                lemma_arp_find_none(n, other);
            },
        }
    }
}

/// The ARP request frame asking who has `target`, from `mac` at `ip`.
pub open spec fn arp_request_frame_spec(mac: [u8; 6], ip: u32, target: u32) -> Seq<u8> {
    ethernet_bytes_spec(seq![0xFFu8, 0xFFu8, 0xFFu8, 0xFFu8, 0xFFu8, 0xFFu8], mac@, ETHERTYPE_ARP_CHIRHO,
        arp_bytes_spec(ArpPacketChirho {
            htype_chirho: ARP_HTYPE_ETHERNET_CHIRHO,
            ptype_chirho: ETHERTYPE_IPV4_CHIRHO,
            hlen_chirho: 6,
            plen_chirho: 4,
            operation_chirho: ARP_OP_REQUEST_CHIRHO,
            sender_ha_chirho: mac,
            sender_pa_chirho: ip,
            target_ha_chirho: [0u8, 0u8, 0u8, 0u8, 0u8, 0u8],
            target_pa_chirho: target,
        }))
}

/// Build the broadcast ARP request for `target` from an interface with MAC
/// `our_mac` and address `our_ip`.
pub fn arp_request_chirho(our_mac_chirho: [u8; 6], our_ip_chirho: u32, target_ip_chirho: u32) -> (r: Vec<u8>)
    ensures
        r@ == arp_request_frame_spec(our_mac_chirho, our_ip_chirho, target_ip_chirho),
{
    let arp_chirho = ArpPacketChirho {
        htype_chirho: ARP_HTYPE_ETHERNET_CHIRHO,
        ptype_chirho: ETHERTYPE_IPV4_CHIRHO,
        hlen_chirho: 6,
        plen_chirho: 4,
        operation_chirho: ARP_OP_REQUEST_CHIRHO,
        sender_ha_chirho: our_mac_chirho,
        sender_pa_chirho: our_ip_chirho,
        target_ha_chirho: [0, 0, 0, 0, 0, 0],
        target_pa_chirho: target_ip_chirho,
    };
    let bcast_chirho: [u8; 6] = [0xFF, 0xFF, 0xFF, 0xFF, 0xFF, 0xFF];
    assert(bcast_chirho@ =~= seq![0xFFu8, 0xFFu8, 0xFFu8, 0xFFu8, 0xFFu8, 0xFFu8]);
    let frame_chirho = EthernetFrameChirho {
        dst_mac_chirho: bcast_chirho,
        src_mac_chirho: our_mac_chirho,
        ethertype_chirho: ETHERTYPE_ARP_CHIRHO,
        payload_chirho: arp_chirho.build_chirho(),
    };
    frame_chirho.build_chirho()
}

/// What resolving an address needs.
#[derive(Debug, Clone, Copy)]
pub enum ArpResolveChirho {
    /// The MAC address is known.
    KnownChirho([u8; 6]),
    /// Send a request and wait for the reply to enter the cache.
    RequestChirho,
}

/// Resolve `target`: from the cache, the broadcast address for
/// 255.255.255.255, else a request is needed.
pub fn arp_resolve_chirho(cache_chirho: &Vec<ArpCacheEntryChirho>, target_ip_chirho: u32) -> (r: ArpResolveChirho)
    ensures
        arp_lookup_spec(cache_chirho@, target_ip_chirho) matches Some(m) ==> r matches ArpResolveChirho::KnownChirho(x) && x == m,
        arp_lookup_spec(cache_chirho@, target_ip_chirho) is None && target_ip_chirho == 0xFFFFFFFF
            ==> (r matches ArpResolveChirho::KnownChirho(x) && x@ == seq![0xFFu8, 0xFFu8, 0xFFu8, 0xFFu8, 0xFFu8, 0xFFu8]),
        arp_lookup_spec(cache_chirho@, target_ip_chirho) is None && target_ip_chirho != 0xFFFFFFFF ==> r is RequestChirho,
{
    match arp_lookup_chirho(cache_chirho, target_ip_chirho) {
        Some(m) => ArpResolveChirho::KnownChirho(m),
        None => {
            if target_ip_chirho == 0xFFFFFFFF {
                let b: [u8; 6] = [0xFF, 0xFF, 0xFF, 0xFF, 0xFF, 0xFF];
                assert(b@ =~= seq![0xFFu8, 0xFFu8, 0xFFu8, 0xFFu8, 0xFFu8, 0xFFu8]);
                ArpResolveChirho::KnownChirho(b)
            } else {
                ArpResolveChirho::RequestChirho
            }
        },
    }
}

// ---------------------------------------------------------------------------
// Interface addresses
// ---------------------------------------------------------------------------

/// The address of interface `idx`: 0 when none was set.
pub open spec fn iface_ip_spec(ips: Seq<u32>, idx: int) -> u32 {
    if 0 <= idx < ips.len() { ips[idx] } else { 0 }
}

/// The address assigned to interface `idx`, 0 when none.
pub fn get_interface_ip_chirho(ips_chirho: &Vec<u32>, iface_idx_chirho: usize) -> (r: u32)
    ensures
        r == iface_ip_spec(ips_chirho@, iface_idx_chirho as int),
{
    if iface_idx_chirho < ips_chirho.len() { ips_chirho[iface_idx_chirho] } else { 0 }
}

/// Assign an address to interface `idx`, extending the list with zeros.
pub fn set_interface_ip_chirho(ips_chirho: &mut Vec<u32>, iface_idx_chirho: usize, ip_chirho: u32)
    requires
        iface_idx_chirho < usize::MAX,
    ensures
        final(ips_chirho)@.len() == (if iface_idx_chirho < old(ips_chirho)@.len() { old(ips_chirho)@.len() as int } else { iface_idx_chirho + 1 }),
        forall|k: int| 0 <= k < final(ips_chirho)@.len() ==> #[trigger] final(ips_chirho)@[k] == (if k == iface_idx_chirho {
            ip_chirho
        } else {
            iface_ip_spec(old(ips_chirho)@, k)
        }),
{
    while ips_chirho.len() <= iface_idx_chirho
        invariant
            iface_idx_chirho < usize::MAX,
            old(ips_chirho)@.len() <= ips_chirho@.len(),
            ips_chirho@.len() <= (if iface_idx_chirho < old(ips_chirho)@.len() { old(ips_chirho)@.len() as int } else { iface_idx_chirho + 1 }),
            forall|k: int| 0 <= k < ips_chirho@.len() ==> #[trigger] ips_chirho@[k] == iface_ip_spec(old(ips_chirho)@, k),
        decreases iface_idx_chirho + 1 - ips_chirho@.len(),
    {
        ips_chirho.push(0);
    }
    ips_chirho.set(iface_idx_chirho, ip_chirho);
}

/// After assigning an address to an interface, reading it gives that
/// address, and every other interface keeps its address.
pub proof fn lemma_interface_ip_roundtrip(old_ips: Seq<u32>, new_ips: Seq<u32>, idx: int, ip: u32, other: int)
    requires
        forall|k: int| 0 <= k < new_ips.len() ==> #[trigger] new_ips[k] == (if k == idx { ip } else { iface_ip_spec(old_ips, k) }),
        new_ips.len() == (if idx < old_ips.len() { old_ips.len() as int } else { idx + 1 }),
        0 <= idx,
    ensures
        iface_ip_spec(new_ips, idx) == ip,
        other != idx ==> iface_ip_spec(new_ips, other) == iface_ip_spec(old_ips, other),
{
    if other != idx && 0 <= other < new_ips.len() {
        assert(new_ips[other] == iface_ip_spec(old_ips, other));
    }
}

// ---------------------------------------------------------------------------
// Interface records
// ---------------------------------------------------------------------------

/// Interface is up.
pub const IFF_UP_CHIRHO: u32 = 0x1;
/// Interface is the loopback.
pub const IFF_LOOPBACK_CHIRHO: u32 = 0x8;
/// Interface is running.
pub const IFF_RUNNING_CHIRHO: u32 = 0x40;
/// The loopback address.
pub const LOOPBACK_IPV4_CHIRHO: u32 = 0x7F000001;
/// The loopback netmask.
pub const LOOPBACK_NETMASK_CHIRHO: u32 = 0xFF000000;

/// The configuration record of an interface.
#[derive(Debug, Clone)]
pub struct IfaceConfigChirho {
    pub name_chirho: String,
    pub ipv4_addr_chirho: u32,
    pub netmask_chirho: u32,
    pub flags_chirho: u32,
    pub mtu_val_chirho: u32,
}

/// Record the loopback interface: "lo", 127.0.0.1/8, up, loopback,
/// running, MTU 65536.
pub fn init_loopback_ip_chirho(cfg_chirho: &mut Vec<IfaceConfigChirho>)
    ensures
        final(cfg_chirho)@.len() == old(cfg_chirho)@.len() + 1,
        final(cfg_chirho)@.subrange(0, old(cfg_chirho)@.len() as int) == old(cfg_chirho)@,
        ({
            let c = final(cfg_chirho)@.last();
            &&& c.name_chirho@ == "lo"@
            &&& c.ipv4_addr_chirho == LOOPBACK_IPV4_CHIRHO
            &&& c.netmask_chirho == LOOPBACK_NETMASK_CHIRHO
            &&& c.flags_chirho == IFF_UP_CHIRHO | IFF_LOOPBACK_CHIRHO | IFF_RUNNING_CHIRHO
            &&& c.mtu_val_chirho == LOOPBACK_MTU_CHIRHO
        }),
{
    cfg_chirho.push(IfaceConfigChirho {
        name_chirho: "lo".to_owned(),
        ipv4_addr_chirho: LOOPBACK_IPV4_CHIRHO,
        netmask_chirho: LOOPBACK_NETMASK_CHIRHO,
        flags_chirho: IFF_UP_CHIRHO | IFF_LOOPBACK_CHIRHO | IFF_RUNNING_CHIRHO,
        mtu_val_chirho: 65536,
    });
    assert(cfg_chirho@.subrange(0, old(cfg_chirho)@.len() as int) =~= old(cfg_chirho)@);
}

// ---------------------------------------------------------------------------
// Configuration state and DHCP
// ---------------------------------------------------------------------------

/// The network configuration: routes, ARP cache, interface addresses and
/// records, DNS server and gateway.
pub struct NetConfigChirho {
    pub routes_chirho: RoutingTableChirho,
    pub arp_cache_chirho: Vec<ArpCacheEntryChirho>,
    pub iface_ips_chirho: Vec<u32>,
    pub iface_cfg_chirho: Vec<IfaceConfigChirho>,
    pub dns_server_chirho: u32,
    pub gateway_chirho: u32,
}

/// The routes after a DHCP offer on interface `iface`: the default route is
/// removed; a subnet route (when the mask is not 0) and a default route
/// through the router (when there is one, metric 100) are added.
pub open spec fn dhcp_routes(s: Seq<RouteEntryChirho>, iface: usize, o: DhcpOfferChirho) -> Seq<RouteEntryChirho> {
    let a = without_routes(s, 0, 0);
    let b = if o.subnet_chirho != 0 {
        a.push(RouteEntryChirho { dest_chirho: o.ip_chirho & o.subnet_chirho, mask_chirho: o.subnet_chirho, gateway_chirho: 0,
            iface_idx_chirho: iface, metric_chirho: 0 })
    } else {
        a
    };
    if o.gateway_chirho != 0 {
        b.push(RouteEntryChirho { dest_chirho: 0, mask_chirho: 0, gateway_chirho: o.gateway_chirho, iface_idx_chirho: iface, metric_chirho: 100 })
    } else {
        b
    }
}

/// Install what a DHCP offer gives on interface `iface`: its address, the
/// routes (`dhcp_routes`), the DNS server (when given), the gateway, and an
/// "eth0" record (up, running, Ethernet MTU); the result of the exchange.
pub fn dhcp_configure_chirho(cfg_chirho: &mut NetConfigChirho, iface_chirho: usize, offer_chirho: DhcpOfferChirho) -> (r: DhcpResultChirho)
    requires
        iface_chirho < usize::MAX,
    ensures
        final(cfg_chirho).routes_chirho@ == dhcp_routes(old(cfg_chirho).routes_chirho@, iface_chirho, offer_chirho),
        iface_ip_spec(final(cfg_chirho).iface_ips_chirho@, iface_chirho as int) == offer_chirho.ip_chirho,
        forall|k: int| k != iface_chirho ==> #[trigger] iface_ip_spec(final(cfg_chirho).iface_ips_chirho@, k)
            == iface_ip_spec(old(cfg_chirho).iface_ips_chirho@, k),
        final(cfg_chirho).dns_server_chirho == (if offer_chirho.dns_chirho != 0 { offer_chirho.dns_chirho } else { old(cfg_chirho).dns_server_chirho }),
        final(cfg_chirho).gateway_chirho == offer_chirho.gateway_chirho,
        final(cfg_chirho).arp_cache_chirho@ == old(cfg_chirho).arp_cache_chirho@,
        final(cfg_chirho).iface_cfg_chirho@.len() == old(cfg_chirho).iface_cfg_chirho@.len() + 1,
        final(cfg_chirho).iface_cfg_chirho@.subrange(0, old(cfg_chirho).iface_cfg_chirho@.len() as int) == old(cfg_chirho).iface_cfg_chirho@,
        ({
            let c = final(cfg_chirho).iface_cfg_chirho@.last();
            &&& c.name_chirho@ == "eth0"@
            &&& c.ipv4_addr_chirho == offer_chirho.ip_chirho
            &&& c.netmask_chirho == offer_chirho.subnet_chirho
            &&& c.flags_chirho == IFF_UP_CHIRHO | IFF_RUNNING_CHIRHO
            &&& c.mtu_val_chirho == ETHERNET_MTU_CHIRHO
        }),
        r == (DhcpResultChirho {
            ip_chirho: Ipv4AddrChirho(offer_chirho.ip_chirho),
            subnet_chirho: Ipv4AddrChirho(offer_chirho.subnet_chirho),
            gateway_chirho: Ipv4AddrChirho(offer_chirho.gateway_chirho),
            dns_chirho: Ipv4AddrChirho(offer_chirho.dns_chirho),
        }),
{
    let ghost ips0 = cfg_chirho.iface_ips_chirho@;
    set_interface_ip_chirho(&mut cfg_chirho.iface_ips_chirho, iface_chirho, offer_chirho.ip_chirho);
    proof {
        assert forall|k: int| k != iface_chirho implies #[trigger] iface_ip_spec(cfg_chirho.iface_ips_chirho@, k)
            == iface_ip_spec(ips0, k) by {
            if 0 <= k < cfg_chirho.iface_ips_chirho@.len() {
                assert(cfg_chirho.iface_ips_chirho@[k] == iface_ip_spec(ips0, k));
            }
        }
        assert(cfg_chirho.iface_ips_chirho@[iface_chirho as int] == offer_chirho.ip_chirho);
    }
    cfg_chirho.routes_chirho.remove_route_chirho(0, 0);
    if offer_chirho.subnet_chirho != 0 {
        cfg_chirho.routes_chirho.add_route_chirho(RouteEntryChirho {
            dest_chirho: offer_chirho.ip_chirho & offer_chirho.subnet_chirho,
            mask_chirho: offer_chirho.subnet_chirho,
            gateway_chirho: 0,
            iface_idx_chirho: iface_chirho,
            metric_chirho: 0,
        });
    }
    if offer_chirho.gateway_chirho != 0 {
        cfg_chirho.routes_chirho.add_route_chirho(RouteEntryChirho {
            dest_chirho: 0,
            mask_chirho: 0,
            gateway_chirho: offer_chirho.gateway_chirho,
            iface_idx_chirho: iface_chirho,
            metric_chirho: 100,
        });
    }
    if offer_chirho.dns_chirho != 0 {
        cfg_chirho.dns_server_chirho = offer_chirho.dns_chirho;
    }
    cfg_chirho.gateway_chirho = offer_chirho.gateway_chirho;
    let ghost cfg0 = cfg_chirho.iface_cfg_chirho@;
    cfg_chirho.iface_cfg_chirho.push(IfaceConfigChirho {
        name_chirho: "eth0".to_owned(),
        ipv4_addr_chirho: offer_chirho.ip_chirho,
        netmask_chirho: offer_chirho.subnet_chirho,
        flags_chirho: IFF_UP_CHIRHO | IFF_RUNNING_CHIRHO,
        mtu_val_chirho: 1500,
    });
    assert(cfg_chirho.iface_cfg_chirho@.subrange(0, cfg0.len() as int) =~= cfg0);
    DhcpResultChirho {
        ip_chirho: Ipv4AddrChirho(offer_chirho.ip_chirho),
        subnet_chirho: Ipv4AddrChirho(offer_chirho.subnet_chirho),
        gateway_chirho: Ipv4AddrChirho(offer_chirho.gateway_chirho),
        dns_chirho: Ipv4AddrChirho(offer_chirho.dns_chirho),
    }
}

// ---------------------------------------------------------------------------
// Sending IPv4 packets
// ---------------------------------------------------------------------------

/// How an outgoing IPv4 packet leaves.
#[derive(Debug, Clone, Copy)]
pub enum SendPlanChirho {
    /// To a loopback address: through the loopback device.
    LoopbackChirho,
    /// On interface `iface`, by the route's `gateway` (0 on link), to the
    /// next hop: its MAC from the cache, or `None` when it must be
    /// resolved first.
    ViaChirho { iface_chirho: usize, gateway_chirho: u32, next_hop_chirho: u32, mac_chirho: Option<[u8; 6]> },
}

/// The destination address of an IPv4 packet.
pub open spec fn packet_dst(p: Seq<u8>) -> u32 {
    be32_spec(p[16], p[17], p[18], p[19])
}

/// `p` sends a packet for `dst` on the interface of the best route, to its
/// gateway (or to `dst` when on link), with the cached MAC of that hop.
pub open spec fn via_plan(routes: Seq<RouteEntryChirho>, cache: Seq<ArpCacheEntryChirho>, dst: u32, p: SendPlanChirho) -> bool {
    match p {
        SendPlanChirho::ViaChirho { iface_chirho, gateway_chirho, next_hop_chirho, mac_chirho } =>
            lookup_result(routes, dst, Some((gateway_chirho, iface_chirho)))
            && next_hop_chirho == (if gateway_chirho == 0 { dst } else { gateway_chirho })
            && mac_chirho == arp_lookup_spec(cache, next_hop_chirho),
        SendPlanChirho::LoopbackChirho => false,
    }
}

/// Decide how an IPv4 packet leaves: `-EINVAL` when shorter than a header;
/// loopback destinations stay local; otherwise the route gives the
/// interface and the next hop (the gateway, or the destination when on
/// link), `-ENETUNREACH` without a route.
pub fn send_ip_packet_chirho(cfg_chirho: &NetConfigChirho, ip_packet_chirho: &[u8]) -> (r: Result<SendPlanChirho, i64>)
    ensures
        ip_packet_chirho@.len() < 20 ==> (r matches Err(e) && e == -EINVAL_CHIRHO),
        ip_packet_chirho@.len() >= 20 ==> {
            let dst = packet_dst(ip_packet_chirho@);
            if is_loopback_spec(dst) {
                r matches Ok(SendPlanChirho::LoopbackChirho)
            } else if no_route(cfg_chirho.routes_chirho@, dst) {
                r matches Err(e) && e == -ENETUNREACH_CHIRHO
            } else {
                r matches Ok(p) && via_plan(cfg_chirho.routes_chirho@, cfg_chirho.arp_cache_chirho@, dst, p)
            }
        },
{
    if ip_packet_chirho.len() < 20 {
        return Err(-EINVAL_CHIRHO);
    }
    let p = ip_packet_chirho;
    let dst_chirho = crate::bytes::be32_chirho(p[16], p[17], p[18], p[19]);
    if is_loopback_addr_chirho(dst_chirho) {
        return Ok(SendPlanChirho::LoopbackChirho);
    }
    assert(dst_chirho == packet_dst(ip_packet_chirho@));
    match crate::route::route_packet_chirho(&cfg_chirho.routes_chirho, dst_chirho) {
        Err(e) => Err(e),
        Ok((g_chirho, iface_chirho)) => {
            let next_hop_chirho = if g_chirho == 0 { dst_chirho } else { g_chirho };
            assert(lookup_result(cfg_chirho.routes_chirho@, dst_chirho, Some((g_chirho, iface_chirho))));
            let mac_chirho = arp_lookup_chirho(&cfg_chirho.arp_cache_chirho, next_hop_chirho);
            let plan_chirho = SendPlanChirho::ViaChirho {
                iface_chirho,
                gateway_chirho: g_chirho,
                next_hop_chirho,
                mac_chirho,
            };
            Ok(plan_chirho)
        },
    }
}

/// The Ethernet frame carrying an IPv4 packet to `dst_mac`.
pub fn ipv4_frame_chirho(dst_mac_chirho: [u8; 6], src_mac_chirho: [u8; 6], ip_packet_chirho: &[u8]) -> (r: Vec<u8>)
    ensures
        r@ == ethernet_bytes_spec(dst_mac_chirho@, src_mac_chirho@, ETHERTYPE_IPV4_CHIRHO, ip_packet_chirho@),
{
    let mut payload_chirho: Vec<u8> = Vec::new();
    crate::bytes::push_all_chirho(&mut payload_chirho, ip_packet_chirho);
    let frame_chirho = EthernetFrameChirho {
        dst_mac_chirho,
        src_mac_chirho,
        ethertype_chirho: ETHERTYPE_IPV4_CHIRHO,
        payload_chirho,
    };
    frame_chirho.build_chirho()
}
/// The reply to the ARP packet `arp` received on an interface with address
/// `our_ip` and MAC `our_mac`: a request for that (non-zero) address is
/// answered with a reply frame, nothing else is.
pub open spec fn arp_reply_outcome(arp: ArpPacketChirho, our_ip: u32, our_mac: [u8; 6], r: Option<Vec<u8>>) -> bool {
    &&& (arp.operation_chirho == ARP_OP_REQUEST_CHIRHO && arp.target_pa_chirho == our_ip && our_ip != 0)
        ==> (r matches Some(f) && f@ == ethernet_bytes_spec(arp.sender_ha_chirho@, our_mac@, ETHERTYPE_ARP_CHIRHO,
                arp_bytes_spec(ArpPacketChirho {
                    htype_chirho: ARP_HTYPE_ETHERNET_CHIRHO,
                    ptype_chirho: ETHERTYPE_IPV4_CHIRHO,
                    hlen_chirho: 6,
                    plen_chirho: 4,
                    operation_chirho: ARP_OP_REPLY_CHIRHO,
                    sender_ha_chirho: our_mac,
                    sender_pa_chirho: our_ip,
                    target_ha_chirho: arp.sender_ha_chirho,
                    target_pa_chirho: arp.sender_pa_chirho,
                })))
    &&& !(arp.operation_chirho == ARP_OP_REQUEST_CHIRHO && arp.target_pa_chirho == our_ip && our_ip != 0)
        ==> r is None
}


/// Handle a received ARP packet on interface `iface` (address
/// `our_ip`, MAC `our_mac`): the sender enters the cache; a request for our
/// (non-zero) address is answered with a reply frame.
pub fn handle_arp_chirho(cache_chirho: &mut Vec<ArpCacheEntryChirho>, arp_chirho: &ArpPacketChirho, our_ip_chirho: u32,
    our_mac_chirho: [u8; 6]) -> (r: Option<Vec<u8>>)
    ensures
        final(cache_chirho)@ == arp_insert_spec(old(cache_chirho)@, arp_chirho.sender_pa_chirho, arp_chirho.sender_ha_chirho),
        arp_reply_outcome(*arp_chirho, our_ip_chirho, our_mac_chirho, r),
{
    arp_insert_chirho(cache_chirho, arp_chirho.sender_pa_chirho, arp_chirho.sender_ha_chirho);
    if arp_chirho.operation_chirho == ARP_OP_REQUEST_CHIRHO && arp_chirho.target_pa_chirho == our_ip_chirho && our_ip_chirho != 0 {
        let reply_chirho = ArpPacketChirho {
            htype_chirho: ARP_HTYPE_ETHERNET_CHIRHO,
            ptype_chirho: ETHERTYPE_IPV4_CHIRHO,
            hlen_chirho: 6,
            plen_chirho: 4,
            operation_chirho: ARP_OP_REPLY_CHIRHO,
            sender_ha_chirho: our_mac_chirho,
            sender_pa_chirho: our_ip_chirho,
            target_ha_chirho: arp_chirho.sender_ha_chirho,
            target_pa_chirho: arp_chirho.sender_pa_chirho,
        };
        let frame_chirho = EthernetFrameChirho {
            dst_mac_chirho: arp_chirho.sender_ha_chirho,
            src_mac_chirho: our_mac_chirho,
            ethertype_chirho: ETHERTYPE_ARP_CHIRHO,
            payload_chirho: reply_chirho.build_chirho(),
        };
        Some(frame_chirho.build_chirho())
    } else {
        None
    }
}

// ---------------------------------------------------------------------------
// Devices and the loopback device
// ---------------------------------------------------------------------------

/// A network device.
pub trait NetDeviceChirho {
    /// Send a packet.
    fn send_packet_chirho(&mut self, data_chirho: &[u8]);

    /// The next received packet, if any.
    fn recv_packet_chirho(&mut self) -> Option<Vec<u8>>;

    /// The device's MAC address.
    fn mac_address_chirho(&self) -> [u8; 6];

    /// The device's MTU.
    fn mtu_chirho(&self) -> usize;
}

/// The loopback device: what is sent is received back, in order.
pub struct LoopbackDeviceChirho {
    queue_chirho: VecDeque<Vec<u8>>,
}

impl LoopbackDeviceChirho {
    /// The packets waiting to be received, oldest first.
    pub closed spec fn queued(&self) -> Seq<Seq<u8>> {
        self.queue_chirho@.map_values(|v: Vec<u8>| v@)
    }

    /// A device with nothing queued.
    pub fn new_chirho() -> (r: LoopbackDeviceChirho)
        ensures
            r.queued() == Seq::<Seq<u8>>::empty(),
    {
        let r = LoopbackDeviceChirho { queue_chirho: VecDeque::new() };
        assert(r.queued() =~= Seq::<Seq<u8>>::empty());
        r
    }

    /// Queue a copy of `data`.
    pub fn send_chirho(&mut self, data_chirho: &[u8])
        ensures
            final(self).queued() == old(self).queued().push(data_chirho@),
    {
        let mut copy_chirho: Vec<u8> = Vec::new();
        crate::bytes::push_all_chirho(&mut copy_chirho, data_chirho);
        self.queue_chirho.push_back(copy_chirho);
        assert(self.queued() =~= old(self).queued().push(data_chirho@));
    }

    /// Take the oldest queued packet.
    pub fn recv_chirho(&mut self) -> (r: Option<Vec<u8>>)
        ensures
            old(self).queued().len() == 0 ==> r is None && final(self).queued() == old(self).queued(),
            old(self).queued().len() > 0 ==> (r matches Some(p) && p@ == old(self).queued()[0]
                && final(self).queued() == old(self).queued().subrange(1, old(self).queued().len() as int)),
    {
        let r = self.queue_chirho.pop_front();
        assert(self.queued() =~= (if old(self).queued().len() == 0 { old(self).queued() }
            else { old(self).queued().subrange(1, old(self).queued().len() as int) }));
        r
    }
}

impl NetDeviceChirho for LoopbackDeviceChirho {
    /// The packet joins the end of the queue.
    fn send_packet_chirho(&mut self, data_chirho: &[u8])
        ensures
            final(self).queued() == old(self).queued().push(data_chirho@),
    {
        self.send_chirho(data_chirho);
    }

    /// The oldest queued packet leaves the queue; `None` when it is empty.
    fn recv_packet_chirho(&mut self) -> (r: Option<Vec<u8>>)
        ensures
            old(self).queued().len() == 0 ==> r is None && final(self).queued() == old(self).queued(),
            old(self).queued().len() > 0 ==> (r matches Some(p) && p@ == old(self).queued()[0]
                && final(self).queued() == old(self).queued().subrange(1, old(self).queued().len() as int)),
    {
        self.recv_chirho()
    }

    /// The loopback device has the all-zero MAC address.
    fn mac_address_chirho(&self) -> (r: [u8; 6])
        ensures
            r@ == seq![0u8, 0u8, 0u8, 0u8, 0u8, 0u8],
    {
        let r: [u8; 6] = [0, 0, 0, 0, 0, 0];
        assert(r@ =~= seq![0u8, 0u8, 0u8, 0u8, 0u8, 0u8]);
        r
    }

    /// The loopback MTU: 65536 bytes.
    fn mtu_chirho(&self) -> (r: usize)
        ensures
            r == 65536,
    {
        65536
    }
}

/// A packet sent on the loopback device comes back, oldest first.
pub proof fn lemma_loopback_fifo(q: Seq<Seq<u8>>, p: Seq<u8>)
    ensures
        q.push(p)[0] == (if q.len() == 0 { p } else { q[0] }),
        q.push(p).subrange(1, q.len() + 1int) == (if q.len() == 0 { Seq::<Seq<u8>>::empty() } else { q.subrange(1, q.len() as int).push(p) }),
{
    assert(q.push(p).subrange(1, q.len() + 1int) =~= (if q.len() == 0 { Seq::<Seq<u8>>::empty() } else { q.subrange(1, q.len() as int).push(p) }));
}

/// Every queued packet is short enough to process.
pub open spec fn loopback_ok(lo: &LoopbackDeviceChirho) -> bool {
    forall|i: int| 0 <= i < lo.queued().len() ==> (#[trigger] lo.queued()[i]).len() <= 131074
}

/// Send a packet through the loopback device and process what comes back
/// as an IPv4 packet when it starts with version 4: the reply to return
/// and the packet to transmit (see `process_ipv4_packet_chirho`).
pub fn loopback_send_and_receive_chirho(lo_chirho: &mut LoopbackDeviceChirho, t: &mut SocketTableChirho, data_chirho: &[u8])
    -> (r: (Option<Vec<u8>>, Option<Vec<u8>>))
    requires
        loopback_ok(old(lo_chirho)),
        data_chirho@.len() <= 131074,
        table_wf(*old(t)),
    ensures
        loopback_ok(final(lo_chirho)),
        table_wf(*final(t)),
        final(lo_chirho).queued() == old(lo_chirho).queued().push(data_chirho@).subrange(1, old(lo_chirho).queued().len() + 1int),
{
    lo_chirho.send_chirho(data_chirho);
    let received_chirho = lo_chirho.recv_chirho();
    proof {
        assert forall|i: int| 0 <= i < lo_chirho.queued().len() implies (#[trigger] lo_chirho.queued()[i]).len() <= 131074 by {
            assert(lo_chirho.queued()[i] == old(lo_chirho).queued().push(data_chirho@)[i + 1]);
        }
    }
    match received_chirho {
        Some(pkt_chirho) => {
            proof {
                assert(pkt_chirho@ == old(lo_chirho).queued().push(data_chirho@)[0]);
            }
            if pkt_chirho.len() > 0 && pkt_chirho[0] / 16 == 4 {
                process_ipv4_packet_chirho(t, pkt_chirho.as_slice())
            } else {
                (None, None)
            }
        },
        None => (None, None),
    }
}

/// Ping 127.0.0.1 through the loopback device: the echo request built with
/// the counters, sent and processed locally.
pub fn ping_loopback_chirho(lo_chirho: &mut LoopbackDeviceChirho, t: &mut SocketTableChirho, counters_chirho: &mut EchoCountersChirho)
    -> (r: (Option<Vec<u8>>, Option<Vec<u8>>))
    requires
        loopback_ok(old(lo_chirho)),
        table_wf(*old(t)),
    ensures
        loopback_ok(final(lo_chirho)),
        table_wf(*final(t)),
        final(counters_chirho).seq_chirho == crate::ipv4::next_seq(old(counters_chirho).seq_chirho),
        final(counters_chirho).id_chirho == old(counters_chirho).id_chirho,
{
    let payload_chirho: Vec<u8> = vec![108, 105, 110, 101, 108, 117, 121, 97, 45, 112, 105, 110, 103, 45, 99, 104, 105, 114, 104, 111];
    match send_icmp_echo_request_chirho(counters_chirho, LOOPBACK_IP_CHIRHO, LOOPBACK_IP_CHIRHO, payload_chirho.as_slice()) {
        Some(packet_chirho) => {
            if packet_chirho.len() <= 131074 {
                loopback_send_and_receive_chirho(lo_chirho, t, packet_chirho.as_slice())
            } else {
                (None, None)
            }
        },
        None => (None, None),
    }
}

} // verus!
