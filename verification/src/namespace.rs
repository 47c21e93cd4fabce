//! Per-process namespace sets: `unshare` gives a process new namespaces
//! of the kinds its flags ask for, numbered from a counter.

use vstd::prelude::*;

verus! {

pub const CLONE_NEWNS_CHIRHO: u64 = 0x00020000;
pub const CLONE_NEWPID_CHIRHO: u64 = 0x20000000;
pub const CLONE_NEWNET_CHIRHO: u64 = 0x40000000;
pub const CLONE_NEWUSER_CHIRHO: u64 = 0x10000000;
pub const CLONE_NEWUTS_CHIRHO: u64 = 0x04000000;
pub const CLONE_NEWIPC_CHIRHO: u64 = 0x08000000;

/// Kinds of namespace.
#[derive(Debug, Clone, Copy, PartialEq, Eq, Structural)]
pub enum NsTypeChirho {
    PidChirho,
    MountChirho,
    NetChirho,
    UserChirho,
    UtsChirho,
    IpcChirho,
}

/// A namespace.
#[derive(Debug, Clone, Copy, PartialEq, Eq, Structural)]
pub struct NamespaceChirho {
    pub id_chirho: u64,
    pub ns_type_chirho: NsTypeChirho,
    pub ref_count_chirho: u32,
}

/// The namespaces of a process, by id.
#[derive(Debug, Clone, Copy, PartialEq, Eq, Structural)]
pub struct NsProxyChirho {
    pub pid_ns_chirho: u64,
    pub mnt_ns_chirho: u64,
    pub net_ns_chirho: u64,
    pub user_ns_chirho: u64,
    pub uts_ns_chirho: u64,
    pub ipc_ns_chirho: u64,
}

impl Default for NsProxyChirho {
    /// The initial namespaces: every id 0.
    fn default() -> (r: Self)
        ensures
            r == (NsProxyChirho { pid_ns_chirho: 0, mnt_ns_chirho: 0, net_ns_chirho: 0, user_ns_chirho: 0, uts_ns_chirho: 0,
                ipc_ns_chirho: 0 }),
    {
        NsProxyChirho { pid_ns_chirho: 0, mnt_ns_chirho: 0, net_ns_chirho: 0, user_ns_chirho: 0, uts_ns_chirho: 0, ipc_ns_chirho: 0 }
    }
}

/// The names a UTS namespace reports.
#[derive(Debug)]
pub struct UtsNamespaceChirho {
    pub nodename_chirho: String,
    pub domainname_chirho: String,
    pub sysname_chirho: String,
    pub release_chirho: String,
    pub version_chirho: String,
    pub machine_chirho: String,
}

impl Default for UtsNamespaceChirho {
    /// The kernel's own names: node "lineluya", domain "(none)", system
    /// "Lineluya", release "0.8.0-chirho", version "#1 SMP", machine
    /// "x86_64".
    fn default() -> (r: Self)
        ensures
            r.nodename_chirho@ == "lineluya"@,
            r.domainname_chirho@ == "(none)"@,
            r.sysname_chirho@ == "Lineluya"@,
            r.release_chirho@ == "0.8.0-chirho"@,
            r.version_chirho@ == "#1 SMP"@,
            r.machine_chirho@ == "x86_64"@,
    {
        UtsNamespaceChirho {
            nodename_chirho: "lineluya".to_owned(),
            domainname_chirho: "(none)".to_owned(),
            sysname_chirho: "Lineluya".to_owned(),
            release_chirho: "0.8.0-chirho".to_owned(),
            version_chirho: "#1 SMP".to_owned(),
            machine_chirho: "x86_64".to_owned(),
        }
    }
}

/// A new namespace id: the counter's value, which then advances.
pub fn create_namespace_chirho(next_id_chirho: &mut u64, ns_type_chirho: NsTypeChirho) -> (r: u64)
    requires
        *old(next_id_chirho) < u64::MAX,
    ensures
        r == *old(next_id_chirho),
        *final(next_id_chirho) == *old(next_id_chirho) + 1,
{
    let id_chirho = *next_id_chirho;
    *next_id_chirho = id_chirho + 1;
    id_chirho
}

/// Whether the flag is set, as 0 or 1.
pub open spec fn flag_bit(flags: u64, f: u64) -> int {
    if flags & f != 0 { 1 } else { 0 }
}

/// The namespace set `unshare` with `flags` makes from `p` with the
/// counter at `c`: the kinds asked for, in the order PID, mount, network,
/// user, UTS, IPC, take the next ids; the others stay as in `p`.
pub open spec fn unshared(p: NsProxyChirho, flags: u64, c: u64) -> NsProxyChirho {
    let pid_id = c as int;
    let mnt_id = pid_id + flag_bit(flags, CLONE_NEWPID_CHIRHO);
    let net_id = mnt_id + flag_bit(flags, CLONE_NEWNS_CHIRHO);
    let user_id = net_id + flag_bit(flags, CLONE_NEWNET_CHIRHO);
    let uts_id = user_id + flag_bit(flags, CLONE_NEWUSER_CHIRHO);
    let ipc_id = uts_id + flag_bit(flags, CLONE_NEWUTS_CHIRHO);
    NsProxyChirho {
        pid_ns_chirho: if flag_bit(flags, CLONE_NEWPID_CHIRHO) == 1 { pid_id as u64 } else { p.pid_ns_chirho },
        mnt_ns_chirho: if flag_bit(flags, CLONE_NEWNS_CHIRHO) == 1 { mnt_id as u64 } else { p.mnt_ns_chirho },
        net_ns_chirho: if flag_bit(flags, CLONE_NEWNET_CHIRHO) == 1 { net_id as u64 } else { p.net_ns_chirho },
        user_ns_chirho: if flag_bit(flags, CLONE_NEWUSER_CHIRHO) == 1 { user_id as u64 } else { p.user_ns_chirho },
        uts_ns_chirho: if flag_bit(flags, CLONE_NEWUTS_CHIRHO) == 1 { uts_id as u64 } else { p.uts_ns_chirho },
        ipc_ns_chirho: if flag_bit(flags, CLONE_NEWIPC_CHIRHO) == 1 { ipc_id as u64 } else { p.ipc_ns_chirho },
    }
}

/// How many namespaces `unshare` with `flags` makes.
pub open spec fn unshare_count(flags: u64) -> int {
    flag_bit(flags, CLONE_NEWPID_CHIRHO) + flag_bit(flags, CLONE_NEWNS_CHIRHO) + flag_bit(flags, CLONE_NEWNET_CHIRHO)
        + flag_bit(flags, CLONE_NEWUSER_CHIRHO) + flag_bit(flags, CLONE_NEWUTS_CHIRHO) + flag_bit(flags, CLONE_NEWIPC_CHIRHO)
}

/// `unshare` for a process in the namespaces `parent`: its new set, as
/// `unshared` says; the counter advances by the number made.
pub fn unshare_namespaces_chirho(next_id_chirho: &mut u64, parent_chirho: &NsProxyChirho, flags_chirho: u64) -> (r: NsProxyChirho)
    requires
        *old(next_id_chirho) + 6 <= u64::MAX,
    ensures
        r == unshared(*parent_chirho, flags_chirho, *old(next_id_chirho)),
        *final(next_id_chirho) == *old(next_id_chirho) + unshare_count(flags_chirho),
{
    let mut proxy_chirho = *parent_chirho;
    if flags_chirho & CLONE_NEWPID_CHIRHO != 0 {
        proxy_chirho.pid_ns_chirho = create_namespace_chirho(next_id_chirho, NsTypeChirho::PidChirho);
    }
    if flags_chirho & CLONE_NEWNS_CHIRHO != 0 {
        proxy_chirho.mnt_ns_chirho = create_namespace_chirho(next_id_chirho, NsTypeChirho::MountChirho);
    }
    if flags_chirho & CLONE_NEWNET_CHIRHO != 0 {
        proxy_chirho.net_ns_chirho = create_namespace_chirho(next_id_chirho, NsTypeChirho::NetChirho);
    }
    if flags_chirho & CLONE_NEWUSER_CHIRHO != 0 {
        proxy_chirho.user_ns_chirho = create_namespace_chirho(next_id_chirho, NsTypeChirho::UserChirho);
    }
    if flags_chirho & CLONE_NEWUTS_CHIRHO != 0 {
        proxy_chirho.uts_ns_chirho = create_namespace_chirho(next_id_chirho, NsTypeChirho::UtsChirho);
    }
    if flags_chirho & CLONE_NEWIPC_CHIRHO != 0 {
        proxy_chirho.ipc_ns_chirho = create_namespace_chirho(next_id_chirho, NsTypeChirho::IpcChirho);
    }
    proxy_chirho
}

/// The namespaces `unshare` makes are new: each id it hands out is at
/// least the counter's old value, so none of them is an id the counter
/// handed out before.
pub proof fn lemma_unshare_fresh_ids(p: NsProxyChirho, flags: u64, c: u64)
    requires
        c + 6 <= u64::MAX,
    ensures
        flag_bit(flags, CLONE_NEWPID_CHIRHO) == 1 ==> unshared(p, flags, c).pid_ns_chirho >= c,
        flag_bit(flags, CLONE_NEWNS_CHIRHO) == 1 ==> unshared(p, flags, c).mnt_ns_chirho >= c,
        flag_bit(flags, CLONE_NEWNET_CHIRHO) == 1 ==> unshared(p, flags, c).net_ns_chirho >= c,
        flag_bit(flags, CLONE_NEWUSER_CHIRHO) == 1 ==> unshared(p, flags, c).user_ns_chirho >= c,
        flag_bit(flags, CLONE_NEWUTS_CHIRHO) == 1 ==> unshared(p, flags, c).uts_ns_chirho >= c,
        flag_bit(flags, CLONE_NEWIPC_CHIRHO) == 1 ==> unshared(p, flags, c).ipc_ns_chirho >= c,
        flags == 0 ==> unshared(p, flags, c) == p,
{
    assert(0u64 & CLONE_NEWPID_CHIRHO == 0) by (bit_vector);
    assert(0u64 & CLONE_NEWNS_CHIRHO == 0) by (bit_vector);
    assert(0u64 & CLONE_NEWNET_CHIRHO == 0) by (bit_vector);
    assert(0u64 & CLONE_NEWUSER_CHIRHO == 0) by (bit_vector);
    assert(0u64 & CLONE_NEWUTS_CHIRHO == 0) by (bit_vector);
    assert(0u64 & CLONE_NEWIPC_CHIRHO == 0) by (bit_vector);
}

} // verus!
