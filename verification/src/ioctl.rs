//! The ioctl commands the kernel knows, and the interface-configuration
//! ioctls on the interface records.

use vstd::prelude::*;
use crate::net_types::{EINVAL_CHIRHO, ETHERNET_MTU_CHIRHO};
use crate::netconf::{IfaceConfigChirho, IFF_RUNNING_CHIRHO, IFF_UP_CHIRHO};
use crate::epoll::ENOENT_NET_CHIRHO;

verus! {

/// A typed ioctl command.
#[derive(Debug, Clone, Copy, PartialEq, Eq, Structural)]
pub enum IoctlCommandChirho {
    /// TCGETS: get terminal attributes.
    TcgetsChirho,
    /// TIOCGWINSZ: get the window size.
    TiocgwinszChirho,
    /// TIOCSWINSZ: set the window size.
    TiocswinszChirho,
    /// FIONREAD: bytes available to read.
    FionreadChirho,
    /// SIOCGIFADDR: get an interface's address.
    SiocgifaddrChirho,
    /// SIOCSIFADDR: set an interface's address.
    SiocsifaddrChirho,
    /// SIOCGIFFLAGS: get an interface's flags.
    SiocgifflagsChirho,
    /// SIOCGIFHWADDR: get an interface's hardware address.
    SiocgifhwaddrChirho,
    /// TIOCGPTN: get the PTY number.
    TiocgptnChirho,
    /// TIOCSPTLCK: lock or unlock a PTY.
    TiocsptlckChirho,
}

/// The command a raw ioctl number stands for.
pub open spec fn ioctl_command_spec(cmd: u32) -> Option<IoctlCommandChirho> {
    if cmd == 0x5401 {
        Some(IoctlCommandChirho::TcgetsChirho)
    } else if cmd == 0x5413 {
        Some(IoctlCommandChirho::TiocgwinszChirho)
    } else if cmd == 0x5414 {
        Some(IoctlCommandChirho::TiocswinszChirho)
    } else if cmd == 0x541B {
        Some(IoctlCommandChirho::FionreadChirho)
    } else if cmd == 0x8912 {
        Some(IoctlCommandChirho::SiocgifaddrChirho)
    } else if cmd == 0x8916 {
        Some(IoctlCommandChirho::SiocsifaddrChirho)
    } else if cmd == 0x8913 {
        Some(IoctlCommandChirho::SiocgifflagsChirho)
    } else if cmd == 0x8927 {
        Some(IoctlCommandChirho::SiocgifhwaddrChirho)
    } else if cmd == 0x80045430 {
        Some(IoctlCommandChirho::TiocgptnChirho)
    } else if cmd == 0x40045431 {
        Some(IoctlCommandChirho::TiocsptlckChirho)
    } else {
        None
    }
}

impl IoctlCommandChirho {
    /// The command a raw ioctl number stands for; `None` for one the
    /// kernel does not know.
    pub fn from_raw_chirho(cmd_chirho: u32) -> (r: Option<Self>)
        ensures
            r == ioctl_command_spec(cmd_chirho),
    {
        match cmd_chirho {
            0x5401 => Some(Self::TcgetsChirho),
            0x5413 => Some(Self::TiocgwinszChirho),
            0x5414 => Some(Self::TiocswinszChirho),
            0x541B => Some(Self::FionreadChirho),
            0x8912 => Some(Self::SiocgifaddrChirho),
            0x8916 => Some(Self::SiocsifaddrChirho),
            0x8913 => Some(Self::SiocgifflagsChirho),
            0x8927 => Some(Self::SiocgifhwaddrChirho),
            0x80045430 => Some(Self::TiocgptnChirho),
            0x40045431 => Some(Self::TiocsptlckChirho),
            _ => None,
        }
    }
}

pub const SIOCSIFADDR_CHIRHO: u64 = 0x8916;
pub const SIOCGIFADDR_CHIRHO: u64 = 0x8915;
pub const SIOCSIFFLAGS_CHIRHO: u64 = 0x8914;
pub const SIOCGIFFLAGS_CHIRHO: u64 = 0x8913;
/// Netmask of an interface that `SIOCSIFADDR` creates.
pub const NEW_IFACE_NETMASK_CHIRHO: u32 = 0xFFFFFF00;

/// What an interface ioctl leaves to its caller to write back.
#[derive(Debug, Clone, Copy, PartialEq, Eq, Structural)]
pub enum NetIoctlReplyChirho {
    /// The call is over with this result.
    DoneChirho(i64),
    /// Write this IPv4 address (as an AF_INET sockaddr) into the request,
    /// then return 0.
    AddrChirho(u32),
    /// Write these flags into the request, then return 0.
    FlagsChirho(u16),
}

/// The ioctl is over with result `e`.
pub open spec fn ioctl_done(r: NetIoctlReplyChirho, e: int) -> bool {
    r matches NetIoctlReplyChirho::DoneChirho(x) && x == e
}

/// The first interface record named `name`.
pub open spec fn iface_index(cfg: Seq<IfaceConfigChirho>, name: Seq<char>, k: int) -> bool {
    &&& 0 <= k < cfg.len()
    &&& cfg[k].name_chirho@ == name
    &&& forall|j: int| 0 <= j < k ==> (#[trigger] cfg[j]).name_chirho@ != name
}

/// No interface record is named `name`.
pub open spec fn no_iface(cfg: Seq<IfaceConfigChirho>, name: Seq<char>) -> bool {
    forall|j: int| 0 <= j < cfg.len() ==> (#[trigger] cfg[j]).name_chirho@ != name
}

/// `b` is `a` with the address `addr`, nothing else changed.
pub open spec fn with_addr(a: IfaceConfigChirho, b: IfaceConfigChirho, addr: u32) -> bool {
    &&& b.name_chirho@ == a.name_chirho@
    &&& b.ipv4_addr_chirho == addr
    &&& b.netmask_chirho == a.netmask_chirho
    &&& b.flags_chirho == a.flags_chirho
    &&& b.mtu_val_chirho == a.mtu_val_chirho
}

/// `b` is `a` with the flags `flags`, nothing else changed.
pub open spec fn with_flags(a: IfaceConfigChirho, b: IfaceConfigChirho, flags: u32) -> bool {
    &&& b.name_chirho@ == a.name_chirho@
    &&& b.ipv4_addr_chirho == a.ipv4_addr_chirho
    &&& b.netmask_chirho == a.netmask_chirho
    &&& b.flags_chirho == flags
    &&& b.mtu_val_chirho == a.mtu_val_chirho
}

/// `new` is `old` with only record `k` changed.
pub open spec fn only_record(old: Seq<IfaceConfigChirho>, new: Seq<IfaceConfigChirho>, k: int) -> bool {
    &&& new.len() == old.len()
    &&& forall|j: int| 0 <= j < old.len() && j != k ==> new[j] == old[j]
}

/// The record that `SIOCSIFADDR` creates for an unknown interface.
pub open spec fn new_iface_record(c: IfaceConfigChirho, name: Seq<char>, addr: u32) -> bool {
    &&& c.name_chirho@ == name
    &&& c.ipv4_addr_chirho == addr
    &&& c.netmask_chirho == NEW_IFACE_NETMASK_CHIRHO
    &&& c.flags_chirho == IFF_UP_CHIRHO | IFF_RUNNING_CHIRHO
    &&& c.mtu_val_chirho == ETHERNET_MTU_CHIRHO
}

/// What `SIOCSIFADDR` of `addr` for `name` makes of the records: the
/// first record of that name takes the address, or a new record is added.
pub open spec fn set_addr_outcome(o: Seq<IfaceConfigChirho>, n: Seq<IfaceConfigChirho>, name: Seq<char>, addr: u32) -> bool {
    &&& no_iface(o, name) ==> n.len() == o.len() + 1 && n.drop_last() == o && new_iface_record(n.last(), name, addr)
    &&& forall|k: int| iface_index(o, name, k) ==> only_record(o, n, k) && with_addr(o[k], n[k], addr)
}

/// After `SIOCSIFADDR` of `addr` for `name`, the record `SIOCGIFADDR` for
/// `name` reads is there and holds `addr`.
pub proof fn lemma_set_addr_then_get(o: Seq<IfaceConfigChirho>, n: Seq<IfaceConfigChirho>, name: Seq<char>, addr: u32)
    requires
        set_addr_outcome(o, n, name, addr),
    ensures
        exists|k: int| iface_index(n, name, k) && n[k].ipv4_addr_chirho == addr,
{
    if no_iface(o, name) {
        let k = o.len() as int;
        assert forall|j: int| 0 <= j < k implies (#[trigger] n[j]).name_chirho@ != name by {
            assert(n[j] == n.drop_last()[j]);
        }
        assert(iface_index(n, name, k));
    } else {
        let j0 = choose|j: int| 0 <= j < o.len() && (#[trigger] o[j]).name_chirho@ == name;
        let k = first_named(o, name, j0);
        assert(iface_index(n, name, k)) by {
            assert forall|j: int| 0 <= j < k implies (#[trigger] n[j]).name_chirho@ != name by {
                assert(n[j] == o[j]);
            }
        }
    }
}

/// Some record named `name` at or before `j0` comes first.
proof fn first_named(o: Seq<IfaceConfigChirho>, name: Seq<char>, j0: int) -> (k: int)
    requires
        0 <= j0 < o.len(),
        o[j0].name_chirho@ == name,
    ensures
        iface_index(o, name, k),
    decreases j0,
{
    if exists|j: int| 0 <= j < j0 && (#[trigger] o[j]).name_chirho@ == name {
        let j1 = choose|j: int| 0 <= j < j0 && (#[trigger] o[j]).name_chirho@ == name;
        first_named(o, name, j1)
    } else {
        j0
    }
}

/// The position of the first record named `name`.
fn find_iface_chirho(cfg_chirho: &Vec<IfaceConfigChirho>, name_chirho: &String) -> (r: Option<usize>)
    ensures
        r matches Some(k) ==> iface_index(cfg_chirho@, name_chirho@, k as int),
        r is None ==> no_iface(cfg_chirho@, name_chirho@),
{
    let mut i_chirho: usize = 0;
    while i_chirho < cfg_chirho.len()
        invariant
            i_chirho <= cfg_chirho@.len(),
            forall|j: int| 0 <= j < i_chirho ==> (#[trigger] cfg_chirho@[j]).name_chirho@ != name_chirho@,
        decreases cfg_chirho@.len() - i_chirho,
    {
        if cfg_chirho[i_chirho].name_chirho == *name_chirho {
            return Some(i_chirho);
        }
        i_chirho = i_chirho + 1;
    }
    None
}

/// Move record `k` out, leaving a blank record in its place.
fn take_record_chirho(cfg_chirho: &mut Vec<IfaceConfigChirho>, k_chirho: usize) -> (r: IfaceConfigChirho)
    requires
        k_chirho < old(cfg_chirho)@.len(),
    ensures
        r == old(cfg_chirho)@[k_chirho as int],
        final(cfg_chirho)@.len() == old(cfg_chirho)@.len(),
        forall|j: int| 0 <= j < old(cfg_chirho)@.len() && j != k_chirho ==> final(cfg_chirho)@[j] == old(cfg_chirho)@[j],
{
    let mut tmp_chirho = IfaceConfigChirho {
        name_chirho: String::new(),
        ipv4_addr_chirho: 0,
        netmask_chirho: 0,
        flags_chirho: 0,
        mtu_val_chirho: 0,
    };
    std::mem::swap(&mut tmp_chirho, &mut cfg_chirho[k_chirho]);
    tmp_chirho
}

/// An interface ioctl on the records, for the interface named `name` (the
/// NUL-terminated name at the start of the request) and, for the set
/// commands, the value `arg` read from the request (the address for
/// `SIOCSIFADDR`, the flags for `SIOCSIFFLAGS`): `-EINVAL` for a null
/// request; `SIOCGIFADDR` / `SIOCGIFFLAGS` report the first record of that
/// name, `-ENOENT` without one; `SIOCSIFADDR` sets its address, or adds a
/// record when there is none; `SIOCSIFFLAGS` sets its flags (`-ENOENT`
/// without one); any other command does nothing and returns 0.
pub fn handle_net_ioctl_chirho(cfg_chirho: &mut Vec<IfaceConfigChirho>, cmd_chirho: u64, ifr_nonnull_chirho: bool,
    name_chirho: &String, arg_chirho: u32) -> (r: NetIoctlReplyChirho)
    ensures
        ({
            let o = old(cfg_chirho)@;
            let n = final(cfg_chirho)@;
            let name = name_chirho@;
            if !ifr_nonnull_chirho {
                ioctl_done(r, -EINVAL_CHIRHO) && n == o
            } else if cmd_chirho == SIOCGIFADDR_CHIRHO {
                &&& n == o
                &&& no_iface(o, name) ==> ioctl_done(r, -ENOENT_NET_CHIRHO)
                &&& forall|k: int| iface_index(o, name, k) ==> r == NetIoctlReplyChirho::AddrChirho(o[k].ipv4_addr_chirho)
            } else if cmd_chirho == SIOCGIFFLAGS_CHIRHO {
                &&& n == o
                &&& no_iface(o, name) ==> ioctl_done(r, -ENOENT_NET_CHIRHO)
                &&& forall|k: int| iface_index(o, name, k) ==> r == NetIoctlReplyChirho::FlagsChirho(o[k].flags_chirho as u16)
            } else if cmd_chirho == SIOCSIFADDR_CHIRHO {
                &&& r == NetIoctlReplyChirho::DoneChirho(0)
                &&& set_addr_outcome(o, n, name, arg_chirho)
            } else if cmd_chirho == SIOCSIFFLAGS_CHIRHO {
                &&& no_iface(o, name) ==> ioctl_done(r, -ENOENT_NET_CHIRHO) && n == o
                &&& forall|k: int| iface_index(o, name, k) ==> r == NetIoctlReplyChirho::DoneChirho(0)
                    && only_record(o, n, k) && with_flags(o[k], n[k], arg_chirho as u16 as u32)
            } else {
                r == NetIoctlReplyChirho::DoneChirho(0) && n == o
            }
        }),
{
    if !ifr_nonnull_chirho {
        return NetIoctlReplyChirho::DoneChirho(-EINVAL_CHIRHO);
    }
    let found_chirho = find_iface_chirho(cfg_chirho, name_chirho);
    proof {
        if let Some(k) = found_chirho {
            assert forall|k2: int| iface_index(cfg_chirho@, name_chirho@, k2) implies k2 == k by {
                if k2 < k {
                    assert(cfg_chirho@[k2].name_chirho@ != name_chirho@);
                } else if k2 > k {
                    assert(cfg_chirho@[k as int].name_chirho@ != name_chirho@);
                }
            }
        }
    }
    if cmd_chirho == SIOCGIFADDR_CHIRHO {
        match found_chirho {
            None => NetIoctlReplyChirho::DoneChirho(-ENOENT_NET_CHIRHO),
            Some(k_chirho) => NetIoctlReplyChirho::AddrChirho(cfg_chirho[k_chirho].ipv4_addr_chirho),
        }
    } else if cmd_chirho == SIOCGIFFLAGS_CHIRHO {
        match found_chirho {
            None => NetIoctlReplyChirho::DoneChirho(-ENOENT_NET_CHIRHO),
            Some(k_chirho) => NetIoctlReplyChirho::FlagsChirho(cfg_chirho[k_chirho].flags_chirho as u16),
        }
    } else if cmd_chirho == SIOCSIFADDR_CHIRHO {
        match found_chirho {
            None => {
                let ghost o = cfg_chirho@;
                cfg_chirho.push(IfaceConfigChirho {
                    name_chirho: name_chirho.clone(),
                    ipv4_addr_chirho: arg_chirho,
                    netmask_chirho: NEW_IFACE_NETMASK_CHIRHO,
                    flags_chirho: IFF_UP_CHIRHO | IFF_RUNNING_CHIRHO,
                    mtu_val_chirho: ETHERNET_MTU_CHIRHO as u32,
                });
                assert(cfg_chirho@.drop_last() =~= o);
            },
            Some(k_chirho) => {
                let mut c_chirho = take_record_chirho(cfg_chirho, k_chirho);
                c_chirho.ipv4_addr_chirho = arg_chirho;
                cfg_chirho.set(k_chirho, c_chirho);
            },
        }
        NetIoctlReplyChirho::DoneChirho(0)
    } else if cmd_chirho == SIOCSIFFLAGS_CHIRHO {
        match found_chirho {
            None => NetIoctlReplyChirho::DoneChirho(-ENOENT_NET_CHIRHO),
            Some(k_chirho) => {
                let mut c_chirho = take_record_chirho(cfg_chirho, k_chirho);
                c_chirho.flags_chirho = arg_chirho as u16 as u32;
                cfg_chirho.set(k_chirho, c_chirho);
                NetIoctlReplyChirho::DoneChirho(0)
            },
        }
    } else {
        NetIoctlReplyChirho::DoneChirho(0)
    }
}

} // verus!
