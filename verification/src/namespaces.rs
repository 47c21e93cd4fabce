//! The namespace registry: PID, mount, network, user and UTS namespaces
//! by id, with `unshare(2)` making new ones and `setns(2)` checking that
//! one exists.

use vstd::prelude::*;
use std::collections::BTreeMap;

verus! {

pub const CLONE_NEWIPC_CHIRHO: u64 = 0x0800_0000;
pub const CLONE_NEWNET_CHIRHO: u64 = 0x4000_0000;
pub const CLONE_NEWNS_CHIRHO: u64 = 0x0002_0000;
pub const CLONE_NEWPID_CHIRHO: u64 = 0x2000_0000;
pub const CLONE_NEWUSER_CHIRHO: u64 = 0x1000_0000;
pub const CLONE_NEWUTS_CHIRHO: u64 = 0x0400_0000;
pub const CLONE_NEWCGROUP_CHIRHO: u64 = 0x0200_0000;
pub const EINVAL_NS_CHIRHO: i64 = 22;

/// Kinds of namespace.
#[derive(Debug, Clone, Copy, PartialEq, Eq, Structural)]
pub enum NsTypeChirho {
    PidChirho,
    MountChirho,
    NetChirho,
    UserChirho,
    UtsChirho,
    IpcChirho,
    CgroupChirho,
}

/// A PID namespace.
pub struct PidNsChirho {
    pub id_chirho: u64,
    /// The parent namespace (0: the initial one).
    pub parent_id_chirho: u64,
    /// The next PID handed out inside.
    pub next_pid_chirho: u64,
    /// Local PID to global PID.
    pub pid_map_chirho: BTreeMap<u64, u64>,
}

/// A mount namespace: mount point to filesystem type.
pub struct MountNsChirho {
    pub id_chirho: u64,
    pub mounts_chirho: BTreeMap<String, String>,
}

/// A network namespace.
pub struct NetNsChirho {
    pub id_chirho: u64,
    pub interfaces_chirho: Vec<String>,
    pub has_loopback_chirho: bool,
}

/// A user namespace: UID and GID mappings (inside, outside, count).
pub struct UserNsChirho {
    pub id_chirho: u64,
    pub uid_map_chirho: Vec<(u32, u32, u32)>,
    pub gid_map_chirho: Vec<(u32, u32, u32)>,
}

/// A UTS namespace.
pub struct UtsNsChirho {
    pub id_chirho: u64,
    pub hostname_chirho: String,
    pub domainname_chirho: String,
}

/// The namespaces a process is in, by id; 0 is the initial one of each
/// kind.
#[derive(Debug, Clone, Copy, PartialEq, Eq, Structural)]
pub struct NsSetChirho {
    pub pid_ns_id_chirho: u64,
    pub mnt_ns_id_chirho: u64,
    pub net_ns_id_chirho: u64,
    pub user_ns_id_chirho: u64,
    pub uts_ns_id_chirho: u64,
    pub ipc_ns_id_chirho: u64,
    pub cgroup_ns_id_chirho: u64,
}

impl Default for NsSetChirho {
    /// The initial namespaces: every id 0.
    fn default() -> (r: Self)
        ensures
            r.pid_ns_id_chirho == 0 && r.mnt_ns_id_chirho == 0 && r.net_ns_id_chirho == 0 && r.user_ns_id_chirho == 0
                && r.uts_ns_id_chirho == 0 && r.ipc_ns_id_chirho == 0 && r.cgroup_ns_id_chirho == 0,
    {
        NsSetChirho {
            pid_ns_id_chirho: 0,
            mnt_ns_id_chirho: 0,
            net_ns_id_chirho: 0,
            user_ns_id_chirho: 0,
            uts_ns_id_chirho: 0,
            ipc_ns_id_chirho: 0,
            cgroup_ns_id_chirho: 0,
        }
    }
}

/// Every namespace by kind and id, and the next id to hand out.
pub struct NsRegistryChirho {
    pub pid_namespaces_chirho: BTreeMap<u64, PidNsChirho>,
    pub mount_namespaces_chirho: BTreeMap<u64, MountNsChirho>,
    pub net_namespaces_chirho: BTreeMap<u64, NetNsChirho>,
    pub user_namespaces_chirho: BTreeMap<u64, UserNsChirho>,
    pub uts_namespaces_chirho: BTreeMap<u64, UtsNsChirho>,
    pub next_ns_id_chirho: u64,
}

/// A PID namespace as made: no parent but the initial one, PIDs from 1,
/// nothing mapped.
pub open spec fn fresh_pid_ns(p: PidNsChirho, id: u64) -> bool {
    p.id_chirho == id && p.parent_id_chirho == 0 && p.next_pid_chirho == 1 && p.pid_map_chirho@ == Map::<u64, u64>::empty()
}

/// A network namespace as made: no interfaces, its own loopback.
pub open spec fn fresh_net_ns(n: NetNsChirho, id: u64) -> bool {
    n.id_chirho == id && n.interfaces_chirho@.len() == 0 && n.has_loopback_chirho
}

/// A UTS namespace as made: host "lineluya", domain "(none)".
pub open spec fn fresh_uts_ns(u: UtsNsChirho, id: u64) -> bool {
    u.id_chirho == id && u.hostname_chirho@ == "lineluya"@ && u.domainname_chirho@ == "(none)"@
}

/// Whether the flag is set, as 0 or 1.
pub open spec fn bit(flags: u64, f: u64) -> int {
    if flags & f != 0 { 1 } else { 0 }
}

impl NsRegistryChirho {
    /// An empty registry whose ids start at 1.
    pub fn new_chirho() -> (r: Self)
        ensures
            r.pid_namespaces_chirho@ == Map::<u64, PidNsChirho>::empty(),
            r.mount_namespaces_chirho@ == Map::<u64, MountNsChirho>::empty(),
            r.net_namespaces_chirho@ == Map::<u64, NetNsChirho>::empty(),
            r.user_namespaces_chirho@ == Map::<u64, UserNsChirho>::empty(),
            r.uts_namespaces_chirho@ == Map::<u64, UtsNsChirho>::empty(),
            r.next_ns_id_chirho == 1,
    {
        NsRegistryChirho {
            pid_namespaces_chirho: BTreeMap::new(),
            mount_namespaces_chirho: BTreeMap::new(),
            net_namespaces_chirho: BTreeMap::new(),
            user_namespaces_chirho: BTreeMap::new(),
            uts_namespaces_chirho: BTreeMap::new(),
            next_ns_id_chirho: 1,
        }
    }
}

fn fresh_pid_ns_chirho(id_chirho: u64) -> (r: PidNsChirho)
    ensures
        fresh_pid_ns(r, id_chirho),
{
    PidNsChirho { id_chirho, parent_id_chirho: 0, next_pid_chirho: 1, pid_map_chirho: BTreeMap::new() }
}

fn fresh_net_ns_chirho(id_chirho: u64) -> (r: NetNsChirho)
    ensures
        fresh_net_ns(r, id_chirho),
{
    NetNsChirho { id_chirho, interfaces_chirho: Vec::new(), has_loopback_chirho: true }
}

fn fresh_uts_ns_chirho(id_chirho: u64) -> (r: UtsNsChirho)
    ensures
        fresh_uts_ns(r, id_chirho),
{
    let h_chirho = "lineluya".to_owned();
    let d_chirho = "(none)".to_owned();
    UtsNsChirho { id_chirho, hostname_chirho: h_chirho, domainname_chirho: d_chirho }
}

/// Put `v` under `k`.
fn put_chirho<V>(m_chirho: &mut BTreeMap<u64, V>, k_chirho: u64, v_chirho: V)
    ensures
        final(m_chirho)@ == old(m_chirho)@.insert(k_chirho, v_chirho),
{
    proof {
        broadcast use vstd::laws_cmp::group_laws_cmp;
    }
    m_chirho.insert(k_chirho, v_chirho);
}

/// Whether there is a value under `k`.
fn has_key_chirho<V>(m_chirho: &BTreeMap<u64, V>, k_chirho: u64) -> (r: bool)
    ensures
        r == m_chirho@.contains_key(k_chirho),
{
    proof {
        broadcast use vstd::laws_cmp::group_laws_cmp;
        broadcast use vstd::std_specs::btree::group_btree_axioms;
    }
    m_chirho.contains_key(&k_chirho)
}

/// `new` is `old` with `v` put under `k`, whatever `v` is.
pub open spec fn put_under<V>(old: Map<u64, V>, new: Map<u64, V>, k: u64) -> bool {
    new == old.insert(k, new[k])
}

/// Make the initial namespace of each kind, id 0: PID namespace from PID
/// 1; the mount namespace with "/" on tmpfs; a network namespace with its
/// loopback; the user namespace mapping 65536 ids onto themselves; the UTS
/// namespace "lineluya".
pub fn init_namespaces_chirho(reg_chirho: &mut NsRegistryChirho)
    ensures
        put_under(old(reg_chirho).pid_namespaces_chirho@, final(reg_chirho).pid_namespaces_chirho@, 0),
        fresh_pid_ns(final(reg_chirho).pid_namespaces_chirho@[0], 0),
        put_under(old(reg_chirho).mount_namespaces_chirho@, final(reg_chirho).mount_namespaces_chirho@, 0),
        final(reg_chirho).mount_namespaces_chirho@[0].id_chirho == 0,
        put_under(old(reg_chirho).net_namespaces_chirho@, final(reg_chirho).net_namespaces_chirho@, 0),
        fresh_net_ns(final(reg_chirho).net_namespaces_chirho@[0], 0),
        put_under(old(reg_chirho).user_namespaces_chirho@, final(reg_chirho).user_namespaces_chirho@, 0),
        final(reg_chirho).user_namespaces_chirho@[0].id_chirho == 0,
        final(reg_chirho).user_namespaces_chirho@[0].uid_map_chirho@ == seq![(0u32, 0u32, 65536u32)],
        final(reg_chirho).user_namespaces_chirho@[0].gid_map_chirho@ == seq![(0u32, 0u32, 65536u32)],
        put_under(old(reg_chirho).uts_namespaces_chirho@, final(reg_chirho).uts_namespaces_chirho@, 0),
        fresh_uts_ns(final(reg_chirho).uts_namespaces_chirho@[0], 0),
        final(reg_chirho).next_ns_id_chirho == old(reg_chirho).next_ns_id_chirho,
{
    put_chirho(&mut reg_chirho.pid_namespaces_chirho, 0, fresh_pid_ns_chirho(0));
    let mut mounts_chirho: BTreeMap<String, String> = BTreeMap::new();
    mounts_chirho.insert("/".to_owned(), "tmpfs".to_owned());
    put_chirho(&mut reg_chirho.mount_namespaces_chirho, 0, MountNsChirho { id_chirho: 0, mounts_chirho });
    put_chirho(&mut reg_chirho.net_namespaces_chirho, 0, fresh_net_ns_chirho(0));
    let uid_chirho = vec![(0u32, 0u32, 65536u32)];
    let gid_chirho = vec![(0u32, 0u32, 65536u32)];
    put_chirho(&mut reg_chirho.user_namespaces_chirho, 0, UserNsChirho { id_chirho: 0, uid_map_chirho: uid_chirho, gid_map_chirho: gid_chirho });
    put_chirho(&mut reg_chirho.uts_namespaces_chirho, 0, fresh_uts_ns_chirho(0));
}

/// The mounts a new mount namespace starts with: those of the initial
/// namespace, or none.
pub open spec fn initial_mounts(m: Map<u64, MountNsChirho>) -> Map<String, String> {
    if m.contains_key(0) { m[0].mounts_chirho@ } else { Map::empty() }
}

/// What `unshare` with `flags` makes of the registry `o_reg`: `n_reg`.
pub open spec fn unshare_outcome(o_reg: NsRegistryChirho, n_reg: NsRegistryChirho, flags: u64) -> bool {
    let o = o_reg;
    let n = n_reg;
    let pid_id = o.next_ns_id_chirho;
    let mnt_id = (pid_id + bit(flags, CLONE_NEWPID_CHIRHO)) as u64;
    let net_id = (mnt_id + bit(flags, CLONE_NEWNS_CHIRHO)) as u64;
    let user_id = (net_id + bit(flags, CLONE_NEWNET_CHIRHO)) as u64;
    let uts_id = (user_id + bit(flags, CLONE_NEWUSER_CHIRHO)) as u64;
    &&& n.next_ns_id_chirho == uts_id + bit(flags, CLONE_NEWUTS_CHIRHO)
    &&& if bit(flags, CLONE_NEWPID_CHIRHO) == 1 {
        put_under(o.pid_namespaces_chirho@, n.pid_namespaces_chirho@, pid_id)
            && fresh_pid_ns(n.pid_namespaces_chirho@[pid_id], pid_id)
    } else {
        n.pid_namespaces_chirho@ == o.pid_namespaces_chirho@
    }
    &&& if bit(flags, CLONE_NEWNS_CHIRHO) == 1 {
        &&& put_under(o.mount_namespaces_chirho@, n.mount_namespaces_chirho@, mnt_id)
        &&& n.mount_namespaces_chirho@[mnt_id].id_chirho == mnt_id
        &&& n.mount_namespaces_chirho@[mnt_id].mounts_chirho@ == initial_mounts(o.mount_namespaces_chirho@)
    } else {
        n.mount_namespaces_chirho@ == o.mount_namespaces_chirho@
    }
    &&& if bit(flags, CLONE_NEWNET_CHIRHO) == 1 {
        put_under(o.net_namespaces_chirho@, n.net_namespaces_chirho@, net_id)
            && fresh_net_ns(n.net_namespaces_chirho@[net_id], net_id)
    } else {
        n.net_namespaces_chirho@ == o.net_namespaces_chirho@
    }
    &&& if bit(flags, CLONE_NEWUSER_CHIRHO) == 1 {
        &&& put_under(o.user_namespaces_chirho@, n.user_namespaces_chirho@, user_id)
        &&& n.user_namespaces_chirho@[user_id].id_chirho == user_id
        &&& n.user_namespaces_chirho@[user_id].uid_map_chirho@.len() == 0
        &&& n.user_namespaces_chirho@[user_id].gid_map_chirho@.len() == 0
    } else {
        n.user_namespaces_chirho@ == o.user_namespaces_chirho@
    }
    &&& if bit(flags, CLONE_NEWUTS_CHIRHO) == 1 {
        put_under(o.uts_namespaces_chirho@, n.uts_namespaces_chirho@, uts_id)
            && fresh_uts_ns(n.uts_namespaces_chirho@[uts_id], uts_id)
    } else {
        n.uts_namespaces_chirho@ == o.uts_namespaces_chirho@
    }
}

/// `unshare(2)`: for each CLONE_NEW* flag set, in the order PID, mount,
/// network, user, UTS, a new namespace of that kind takes the next id: a
/// mount namespace starts with the initial one's mounts, a user namespace
/// with no mappings. IPC and cgroup flags make nothing. Returns 0.
pub fn sys_unshare_chirho(reg_chirho: &mut NsRegistryChirho, flags_chirho: u64) -> (r: i64)
    requires
        old(reg_chirho).next_ns_id_chirho + bit(flags_chirho, CLONE_NEWPID_CHIRHO) + bit(flags_chirho, CLONE_NEWNS_CHIRHO)
            + bit(flags_chirho, CLONE_NEWNET_CHIRHO) + bit(flags_chirho, CLONE_NEWUSER_CHIRHO)
            + bit(flags_chirho, CLONE_NEWUTS_CHIRHO) <= u64::MAX,
    ensures
        r == 0,
        unshare_outcome(*old(reg_chirho), *final(reg_chirho), flags_chirho),
{
    if flags_chirho & CLONE_NEWPID_CHIRHO != 0 {
        let id_chirho = reg_chirho.next_ns_id_chirho;
        reg_chirho.next_ns_id_chirho = id_chirho + 1;
        put_chirho(&mut reg_chirho.pid_namespaces_chirho, id_chirho, fresh_pid_ns_chirho(id_chirho));
    }
    if flags_chirho & CLONE_NEWNS_CHIRHO != 0 {
        let id_chirho = reg_chirho.next_ns_id_chirho;
        reg_chirho.next_ns_id_chirho = id_chirho + 1;
        let mounts_chirho = initial_mounts_chirho(&reg_chirho.mount_namespaces_chirho);
        put_chirho(&mut reg_chirho.mount_namespaces_chirho, id_chirho, MountNsChirho { id_chirho, mounts_chirho });
    }
    if flags_chirho & CLONE_NEWNET_CHIRHO != 0 {
        let id_chirho = reg_chirho.next_ns_id_chirho;
        reg_chirho.next_ns_id_chirho = id_chirho + 1;
        put_chirho(&mut reg_chirho.net_namespaces_chirho, id_chirho, fresh_net_ns_chirho(id_chirho));
    }
    if flags_chirho & CLONE_NEWUSER_CHIRHO != 0 {
        let id_chirho = reg_chirho.next_ns_id_chirho;
        reg_chirho.next_ns_id_chirho = id_chirho + 1;
        put_chirho(&mut reg_chirho.user_namespaces_chirho, id_chirho,
            UserNsChirho { id_chirho, uid_map_chirho: Vec::new(), gid_map_chirho: Vec::new() });
    }
    if flags_chirho & CLONE_NEWUTS_CHIRHO != 0 {
        let id_chirho = reg_chirho.next_ns_id_chirho;
        reg_chirho.next_ns_id_chirho = id_chirho + 1;
        put_chirho(&mut reg_chirho.uts_namespaces_chirho, id_chirho, fresh_uts_ns_chirho(id_chirho));
    }
    0
}

/// A copy of the initial mount namespace's mounts, or no mounts.
fn initial_mounts_chirho(m_chirho: &BTreeMap<u64, MountNsChirho>) -> (r: BTreeMap<String, String>)
    ensures
        r@ == initial_mounts(m_chirho@),
{
    proof {
        broadcast use vstd::laws_cmp::group_laws_cmp;
        broadcast use vstd::std_specs::btree::group_btree_axioms;
    }
    match m_chirho.get(&0) {
        Some(ns_chirho) => ns_chirho.mounts_chirho.clone(),
        None => BTreeMap::new(),
    }
}

/// Whether a namespace of the kind `nstype` (a CLONE_NEW* flag) has the
/// id `id`; kinds without a table have none.
pub open spec fn ns_exists(reg: NsRegistryChirho, id: u64, nstype: u64) -> bool {
    if nstype == CLONE_NEWPID_CHIRHO {
        reg.pid_namespaces_chirho@.contains_key(id)
    } else if nstype == CLONE_NEWNS_CHIRHO {
        reg.mount_namespaces_chirho@.contains_key(id)
    } else if nstype == CLONE_NEWNET_CHIRHO {
        reg.net_namespaces_chirho@.contains_key(id)
    } else if nstype == CLONE_NEWUSER_CHIRHO {
        reg.user_namespaces_chirho@.contains_key(id)
    } else if nstype == CLONE_NEWUTS_CHIRHO {
        reg.uts_namespaces_chirho@.contains_key(id)
    } else {
        false
    }
}

/// `setns(2)`, the descriptor standing for the namespace's id: 0 when a
/// namespace of that kind and id exists, else `-EINVAL`.
pub fn sys_setns_chirho(reg_chirho: &NsRegistryChirho, fd_chirho: u64, nstype_chirho: u64) -> (r: i64)
    ensures
        r == (if ns_exists(*reg_chirho, fd_chirho, nstype_chirho) { 0 } else { -EINVAL_NS_CHIRHO }),
{
    let exists_chirho = if nstype_chirho == CLONE_NEWPID_CHIRHO {
        has_key_chirho(&reg_chirho.pid_namespaces_chirho, fd_chirho)
    } else if nstype_chirho == CLONE_NEWNS_CHIRHO {
        has_key_chirho(&reg_chirho.mount_namespaces_chirho, fd_chirho)
    } else if nstype_chirho == CLONE_NEWNET_CHIRHO {
        has_key_chirho(&reg_chirho.net_namespaces_chirho, fd_chirho)
    } else if nstype_chirho == CLONE_NEWUSER_CHIRHO {
        has_key_chirho(&reg_chirho.user_namespaces_chirho, fd_chirho)
    } else if nstype_chirho == CLONE_NEWUTS_CHIRHO {
        has_key_chirho(&reg_chirho.uts_namespaces_chirho, fd_chirho)
    } else {
        false
    };
    if exists_chirho { 0 } else { -EINVAL_NS_CHIRHO }
}

/// The ids `unshare` hands out, in the order PID, mount, network, user,
/// UTS: each kind's id is the next one after the kinds before it that were
/// asked for.
pub open spec fn unshare_id(next: u64, flags: u64, nstype: u64) -> int {
    let b_pid = bit(flags, CLONE_NEWPID_CHIRHO);
    let b_ns = bit(flags, CLONE_NEWNS_CHIRHO);
    let b_net = bit(flags, CLONE_NEWNET_CHIRHO);
    let b_user = bit(flags, CLONE_NEWUSER_CHIRHO);
    if nstype == CLONE_NEWPID_CHIRHO {
        next as int
    } else if nstype == CLONE_NEWNS_CHIRHO {
        next + b_pid
    } else if nstype == CLONE_NEWNET_CHIRHO {
        next + b_pid + b_ns
    } else if nstype == CLONE_NEWUSER_CHIRHO {
        next + b_pid + b_ns + b_net
    } else {
        next + b_pid + b_ns + b_net + b_user
    }
}

/// A namespace that `unshare` makes can be entered: for each of the five
/// kinds asked for, `setns` with the id it got succeeds afterwards.
pub proof fn lemma_unshare_then_setns(o: NsRegistryChirho, n: NsRegistryChirho, flags: u64, nstype: u64)
    requires
        unshare_outcome(o, n, flags),
        o.next_ns_id_chirho + 5 <= u64::MAX,
        nstype == CLONE_NEWPID_CHIRHO || nstype == CLONE_NEWNS_CHIRHO || nstype == CLONE_NEWNET_CHIRHO
            || nstype == CLONE_NEWUSER_CHIRHO || nstype == CLONE_NEWUTS_CHIRHO,
        flags & nstype != 0,
    ensures
        ns_exists(n, unshare_id(o.next_ns_id_chirho, flags, nstype) as u64, nstype),
{
}

} // verus!
