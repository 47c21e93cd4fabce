//! The IPv4 routing table with longest-prefix match.

use vstd::prelude::*;
use crate::ipv4::ip4_chirho;
use crate::net_types::ENETUNREACH_CHIRHO;

verus! {

/// The number of one bits among the `n` lowest bits of `x`.
pub open spec fn ones_below(x: u32, n: nat) -> nat
    decreases n,
{
    if n == 0 {
        0
    } else {
        ones_below(x, (n - 1) as nat) + (if (x >> ((n - 1) as u32)) & 1 == 1 { 1nat } else { 0nat })
    }
}

proof fn lemma_ones_below_bound(x: u32, n: nat)
    ensures
        ones_below(x, n) <= n,
    decreases n,
{
    if n > 0 {
        lemma_ones_below_bound(x, (n - 1) as nat);
    }
}

/// A single entry of the routing table.
#[derive(Debug, Clone, Copy)]
pub struct RouteEntryChirho {
    /// Destination network address (host byte order).
    pub dest_chirho: u32,
    /// Subnet mask (0xFFFFFF00 for a /24).
    pub mask_chirho: u32,
    /// Gateway address (0 = directly connected).
    pub gateway_chirho: u32,
    /// Output interface index.
    pub iface_idx_chirho: usize,
    /// Metric (lower is preferred).
    pub metric_chirho: u32,
}

/// The prefix length of a route: the number of one bits of its mask.
pub open spec fn prefix_len_spec(e: RouteEntryChirho) -> nat {
    ones_below(e.mask_chirho, 32)
}

/// `addr` lies in the network of route `e`.
pub open spec fn route_matches_spec(e: RouteEntryChirho, addr: u32) -> bool {
    (addr & e.mask_chirho) == (e.dest_chirho & e.mask_chirho)
}

impl RouteEntryChirho {
    /// The prefix length of the mask (0 to 32).
    pub fn prefix_len_chirho(&self) -> (r: u32)
        ensures
            r == prefix_len_spec(*self),
            r <= 32,
    {
        let mut count_chirho: u32 = 0;
        let mut i_chirho: u32 = 0;
        while i_chirho < 32
            invariant
                i_chirho <= 32,
                count_chirho == ones_below(self.mask_chirho, i_chirho as nat),
            decreases 32 - i_chirho,
        {
            proof { lemma_ones_below_bound(self.mask_chirho, i_chirho as nat); }
            if (self.mask_chirho >> i_chirho) & 1 == 1 {
                count_chirho = count_chirho + 1;
            }
            i_chirho = i_chirho + 1;
        }
        proof { lemma_ones_below_bound(self.mask_chirho, 32); }
        count_chirho
    }

    /// Whether `addr` matches this route.
    pub fn matches_chirho(&self, addr_chirho: u32) -> (r: bool)
        ensures
            r == route_matches_spec(*self, addr_chirho),
    {
        (addr_chirho & self.mask_chirho) == (self.dest_chirho & self.mask_chirho)
    }
}

/// Route `a`, at position `ia`, is preferred to route `b`, at position `ib`,
/// or is the same: a longer prefix first, then a lower metric, then the
/// earlier entry.
pub open spec fn preferred(a: RouteEntryChirho, ia: int, b: RouteEntryChirho, ib: int) -> bool {
    ||| prefix_len_spec(a) > prefix_len_spec(b)
    ||| prefix_len_spec(a) == prefix_len_spec(b) && a.metric_chirho < b.metric_chirho
    ||| prefix_len_spec(a) == prefix_len_spec(b) && a.metric_chirho == b.metric_chirho && ia <= ib
}

/// Entry `i` of `routes` matches `dst` and is preferred to every other
/// matching entry.
pub open spec fn is_best_route(routes: Seq<RouteEntryChirho>, dst: u32, i: int) -> bool {
    &&& 0 <= i < routes.len()
    &&& route_matches_spec(routes[i], dst)
    &&& forall|j: int| 0 <= j < routes.len() && route_matches_spec(#[trigger] routes[j], dst)
        ==> preferred(routes[i], i, routes[j], j)
}

/// No entry of `routes` matches `dst`.
pub open spec fn no_route(routes: Seq<RouteEntryChirho>, dst: u32) -> bool {
    forall|j: int| 0 <= j < routes.len() ==> !route_matches_spec(#[trigger] routes[j], dst)
}

/// What a lookup of `dst` answers: the gateway and interface of the best
/// route, or nothing when no route matches.
pub open spec fn lookup_result(routes: Seq<RouteEntryChirho>, dst: u32, r: Option<(u32, usize)>) -> bool {
    match r {
        None => no_route(routes, dst),
        Some((g, f)) => exists|i: int| #[trigger] is_best_route(routes, dst, i)
            && g == routes[i].gateway_chirho && f == routes[i].iface_idx_chirho,
    }
}

/// The entries that remain after removing every route for `dest`/`mask`,
/// in their order.
pub open spec fn without_routes(s: Seq<RouteEntryChirho>, dest: u32, mask: u32) -> Seq<RouteEntryChirho>
    decreases s.len(),
{
    if s.len() == 0 {
        s
    } else {
        let rest = without_routes(s.drop_last(), dest, mask);
        if s.last().dest_chirho == dest && s.last().mask_chirho == mask { rest } else { rest.push(s.last()) }
    }
}

/// The routing table: entries in insertion order.
pub struct RoutingTableChirho {
    entries_chirho: Vec<RouteEntryChirho>,
}

impl View for RoutingTableChirho {
    type V = Seq<RouteEntryChirho>;

    closed spec fn view(&self) -> Seq<RouteEntryChirho> {
        self.entries_chirho@
    }
}

impl RoutingTableChirho {
    /// An empty table.
    pub fn new_chirho() -> (r: RoutingTableChirho)
        ensures
            r@ == Seq::<RouteEntryChirho>::empty(),
    {
        RoutingTableChirho { entries_chirho: Vec::new() }
    }

    /// Append a route.
    pub fn add_route_chirho(&mut self, entry_chirho: RouteEntryChirho)
        ensures
            final(self)@ == old(self)@.push(entry_chirho),
    {
        self.entries_chirho.push(entry_chirho);
    }

    /// Remove every route for the given destination and mask; the others
    /// keep their order.
    pub fn remove_route_chirho(&mut self, dest_chirho: u32, mask_chirho: u32)
        ensures
            final(self)@ == without_routes(old(self)@, dest_chirho, mask_chirho),
    {
        let ghost s = self.entries_chirho@;
        let mut kept_chirho: Vec<RouteEntryChirho> = Vec::new();
        let mut i_chirho: usize = 0;
        while i_chirho < self.entries_chirho.len()
            invariant
                self.entries_chirho@ == s,
                i_chirho <= s.len(),
                kept_chirho@ == without_routes(s.subrange(0, i_chirho as int), dest_chirho, mask_chirho),
            decreases s.len() - i_chirho,
        {
            let e_chirho = self.entries_chirho[i_chirho];
            assert(s.subrange(0, i_chirho + 1).drop_last() =~= s.subrange(0, i_chirho as int));
            if !(e_chirho.dest_chirho == dest_chirho && e_chirho.mask_chirho == mask_chirho) {
                kept_chirho.push(e_chirho);
            }
            i_chirho = i_chirho + 1;
        }
        assert(s.subrange(0, s.len() as int) =~= s);
        self.entries_chirho = kept_chirho;
    }

    /// Longest-prefix match: the gateway and interface of the best matching
    /// route (longest prefix, then lowest metric, then earliest), or `None`.
    pub fn lookup_chirho(&self, dst_chirho: u32) -> (r: Option<(u32, usize)>)
        ensures
            lookup_result(self@, dst_chirho, r),
    {
        let ghost s = self.entries_chirho@;
        let mut best_chirho: Option<usize> = None;
        let mut best_len_chirho: u32 = 0;
        let mut i_chirho: usize = 0;
        while i_chirho < self.entries_chirho.len()
            invariant
                s == self.entries_chirho@,
                i_chirho <= s.len(),
                best_chirho is None ==> forall|j: int| 0 <= j < i_chirho ==> !route_matches_spec(#[trigger] s[j], dst_chirho),
                best_chirho matches Some(b) ==> {
                    &&& b < i_chirho
                    &&& best_len_chirho == prefix_len_spec(s[b as int])
                    &&& route_matches_spec(s[b as int], dst_chirho)
                    &&& forall|j: int| 0 <= j < i_chirho && route_matches_spec(#[trigger] s[j], dst_chirho)
                        ==> preferred(s[b as int], b as int, s[j], j)
                },
            decreases s.len() - i_chirho,
        {
            let e_chirho = self.entries_chirho[i_chirho];
            if e_chirho.matches_chirho(dst_chirho) {
                let p_chirho = e_chirho.prefix_len_chirho();
                let replace_chirho = match best_chirho {
                    None => true,
                    Some(b) => p_chirho > best_len_chirho
                        || (p_chirho == best_len_chirho && e_chirho.metric_chirho < self.entries_chirho[b].metric_chirho),
                };
                if replace_chirho {
                    best_chirho = Some(i_chirho);
                    best_len_chirho = p_chirho;
                }
            }
            i_chirho = i_chirho + 1;
        }
        match best_chirho {
            None => None,
            Some(b) => {
                assert(is_best_route(s, dst_chirho, b as int));
                Some((self.entries_chirho[b].gateway_chirho, self.entries_chirho[b].iface_idx_chirho))
            },
        }
    }

    /// The number of routes.
    pub fn len_chirho(&self) -> (r: usize)
        ensures
            r == self@.len(),
    {
        self.entries_chirho.len()
    }

    /// Whether the table has no route.
    pub fn is_empty_chirho(&self) -> (r: bool)
        ensures
            r == (self@.len() == 0),
    {
        self.entries_chirho.len() == 0
    }

    /// The routes, in insertion order.
    pub fn iter_chirho(&self) -> (r: &[RouteEntryChirho])
        ensures
            r@ == self@,
    {
        self.entries_chirho.as_slice()
    }
}

/// The loopback route 127.0.0.0/8 on interface 0.
pub open spec fn loopback_route_spec() -> RouteEntryChirho {
    RouteEntryChirho { dest_chirho: 0x7F000000, mask_chirho: 0xFF000000, gateway_chirho: 0, iface_idx_chirho: 0, metric_chirho: 0 }
}

/// The default route 0.0.0.0/0 through 10.0.2.2 on interface 1, metric 100.
pub open spec fn default_route_spec() -> RouteEntryChirho {
    RouteEntryChirho { dest_chirho: 0, mask_chirho: 0, gateway_chirho: 0x0A000202, iface_idx_chirho: 1, metric_chirho: 100 }
}

/// The table the stack starts with: the loopback route, then the default
/// route.
pub fn init_routing_table_chirho() -> (r: RoutingTableChirho)
    ensures
        r@ == seq![loopback_route_spec(), default_route_spec()],
{
    let mut rt_chirho = RoutingTableChirho::new_chirho();
    rt_chirho.add_route_chirho(RouteEntryChirho {
        dest_chirho: ip4_chirho(127, 0, 0, 0),
        mask_chirho: ip4_chirho(255, 0, 0, 0),
        gateway_chirho: 0,
        iface_idx_chirho: 0,
        metric_chirho: 0,
    });
    rt_chirho.add_route_chirho(RouteEntryChirho {
        dest_chirho: 0,
        mask_chirho: 0,
        gateway_chirho: ip4_chirho(10, 0, 2, 2),
        iface_idx_chirho: 1,
        metric_chirho: 100,
    });
    assert(rt_chirho@ =~= seq![loopback_route_spec(), default_route_spec()]);
    rt_chirho
}

/// Route a packet: the gateway and interface of the best route, or
/// `-ENETUNREACH` when none matches.
pub fn route_packet_chirho(table_chirho: &RoutingTableChirho, dst_ip_chirho: u32) -> (r: Result<(u32, usize), i64>)
    ensures
        r is Err <==> no_route(table_chirho@, dst_ip_chirho),
        r matches Err(e) ==> e == -ENETUNREACH_CHIRHO,
        r matches Ok(v) ==> lookup_result(table_chirho@, dst_ip_chirho, Some(v)),
{
    match table_chirho.lookup_chirho(dst_ip_chirho) {
        Some(v) => Ok(v),
        None => Err(-ENETUNREACH_CHIRHO),
    }
}

/// At most one entry is the best route for a destination, so a lookup's
/// answer is determined by the table.
pub proof fn lemma_best_route_unique(routes: Seq<RouteEntryChirho>, dst: u32, i: int, k: int)
    requires
        is_best_route(routes, dst, i),
        is_best_route(routes, dst, k),
    ensures
        i == k,
{
    assert(preferred(routes[i], i, routes[k], k));
    assert(preferred(routes[k], k, routes[i], i));
}

/// After removing the routes for `dest`/`mask`, none is left, and every
/// other route is still there.
pub proof fn lemma_removed_routes_gone(s: Seq<RouteEntryChirho>, dest: u32, mask: u32)
    ensures
        forall|k: int| 0 <= k < without_routes(s, dest, mask).len() ==>
            !(#[trigger] without_routes(s, dest, mask)[k].dest_chirho == dest && without_routes(s, dest, mask)[k].mask_chirho == mask),
        forall|j: int| 0 <= j < s.len() && !(s[j].dest_chirho == dest && s[j].mask_chirho == mask)
            ==> without_routes(s, dest, mask).contains(#[trigger] s[j]),
    decreases s.len(),
{
    if s.len() > 0 {
        let t = s.drop_last();
        lemma_removed_routes_gone(t, dest, mask);
        let rest = without_routes(t, dest, mask);
        assert forall|j: int| 0 <= j < s.len() && !(s[j].dest_chirho == dest && s[j].mask_chirho == mask)
            implies without_routes(s, dest, mask).contains(#[trigger] s[j]) by {
            if j < s.len() - 1 {
                assert(t[j] == s[j]);
                let w = choose|w: int| 0 <= w < rest.len() && rest[w] == t[j];
                if !(s.last().dest_chirho == dest && s.last().mask_chirho == mask) {
                    assert(rest.push(s.last())[w] == s[j]);
                }
            } else {
                assert(rest.push(s.last())[rest.len() as int] == s[j]);
            }
        }
    }
}

} // verus!
