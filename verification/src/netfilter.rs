//! Network namespaces and netfilter hooks: the hook list, kept in priority
//! order per hook point, and the walk that runs the hooks on a packet.
//! A hook's handler is code the caller owns; here an entry names it by an
//! index, and the walk asks the caller to run it.

use vstd::prelude::*;

verus! {

/// A network namespace.
pub struct NetworkNamespaceChirho {
    pub id_chirho: u64,
    pub devices_chirho: Vec<String>,
    pub is_init_chirho: bool,
}

/// The initial namespace: id 0, with the loopback device "lo".
pub fn init_default_netns_chirho() -> (r: NetworkNamespaceChirho)
    ensures
        r.id_chirho == 0,
        r.is_init_chirho,
        r.devices_chirho@.len() == 1,
        r.devices_chirho@[0]@ == "lo"@,
{
    let mut devices_chirho: Vec<String> = Vec::new();
    devices_chirho.push("lo".to_owned());
    NetworkNamespaceChirho { id_chirho: 0, devices_chirho, is_init_chirho: true }
}

/// Where in the packet path a hook runs.
#[derive(Debug, Clone, Copy, PartialEq, Eq, Structural)]
pub enum NfHookPointChirho {
    PreRoutingChirho,
    LocalInChirho,
    ForwardChirho,
    LocalOutChirho,
    PostRoutingChirho,
}

impl NfHookPointChirho {
    /// The hook point's number.
    pub fn value_chirho(&self) -> (r: u32)
        ensures
            r == match *self {
                NfHookPointChirho::PreRoutingChirho => 0u32,
                NfHookPointChirho::LocalInChirho => 1,
                NfHookPointChirho::ForwardChirho => 2,
                NfHookPointChirho::LocalOutChirho => 3,
                NfHookPointChirho::PostRoutingChirho => 4,
            },
    {
        match self {
            NfHookPointChirho::PreRoutingChirho => 0,
            NfHookPointChirho::LocalInChirho => 1,
            NfHookPointChirho::ForwardChirho => 2,
            NfHookPointChirho::LocalOutChirho => 3,
            NfHookPointChirho::PostRoutingChirho => 4,
        }
    }
}

/// What a hook decides about a packet.
#[derive(Debug, Clone, Copy, PartialEq, Eq, Structural)]
pub enum NfVerdictChirho {
    AcceptChirho,
    DropChirho,
    QueueChirho,
    RepeatChirho,
}

impl NfVerdictChirho {
    /// The verdict's number.
    pub fn value_chirho(&self) -> (r: u32)
        ensures
            r == match *self {
                NfVerdictChirho::AcceptChirho => 1u32,
                NfVerdictChirho::DropChirho => 0,
                NfVerdictChirho::QueueChirho => 3,
                NfVerdictChirho::RepeatChirho => 4,
            },
    {
        match self {
            NfVerdictChirho::AcceptChirho => 1,
            NfVerdictChirho::DropChirho => 0,
            NfVerdictChirho::QueueChirho => 3,
            NfVerdictChirho::RepeatChirho => 4,
        }
    }
}

/// A registered hook: its point, its priority (lower runs first) and the
/// index of its handler.
#[derive(Debug, Clone, Copy, PartialEq, Eq, Structural)]
pub struct NfHookEntryChirho {
    pub hook_chirho: NfHookPointChirho,
    pub priority_chirho: i32,
    pub handler_chirho: usize,
}

/// The registered hooks.
pub struct NfHookTableChirho {
    pub entries_chirho: Vec<NfHookEntryChirho>,
}

/// On every hook point the hooks stand in priority order.
pub open spec fn hooks_ordered(s: Seq<NfHookEntryChirho>) -> bool {
    forall|i: int, j: int| 0 <= i < j < s.len() && s[i].hook_chirho == s[j].hook_chirho
        ==> s[i].priority_chirho <= s[j].priority_chirho
}

/// The place a new entry `e` takes: before the first entry of its hook
/// point with a higher priority, else at the end.
pub open spec fn insert_pos(s: Seq<NfHookEntryChirho>, e: NfHookEntryChirho, p: int) -> bool {
    &&& 0 <= p <= s.len()
    &&& forall|j: int| 0 <= j < p ==> !(#[trigger] s[j].hook_chirho == e.hook_chirho && s[j].priority_chirho > e.priority_chirho)
    &&& p < s.len() ==> s[p].hook_chirho == e.hook_chirho && s[p].priority_chirho > e.priority_chirho
}

impl NfHookTableChirho {
    /// No hooks.
    pub fn new_chirho() -> (r: Self)
        ensures
            r.entries_chirho@.len() == 0,
    {
        NfHookTableChirho { entries_chirho: Vec::new() }
    }
}

/// Register a hook: it goes before the first hook of its point with a
/// higher priority (after those of equal priority), else last.
pub fn nf_register_hook_chirho(t_chirho: &mut NfHookTableChirho, e_chirho: NfHookEntryChirho)
    ensures
        exists|p: int| insert_pos(old(t_chirho).entries_chirho@, e_chirho, p)
            && final(t_chirho).entries_chirho@ == old(t_chirho).entries_chirho@.insert(p, e_chirho),
{
    let mut p_chirho: usize = 0;
    let mut found_chirho = false;
    while p_chirho < t_chirho.entries_chirho.len() && !found_chirho
        invariant
            p_chirho <= t_chirho.entries_chirho@.len(),
            t_chirho.entries_chirho@ == old(t_chirho).entries_chirho@,
            forall|j: int| 0 <= j < p_chirho ==> !(#[trigger] t_chirho.entries_chirho@[j].hook_chirho == e_chirho.hook_chirho
                && t_chirho.entries_chirho@[j].priority_chirho > e_chirho.priority_chirho),
            found_chirho ==> p_chirho < t_chirho.entries_chirho@.len()
                && t_chirho.entries_chirho@[p_chirho as int].hook_chirho == e_chirho.hook_chirho
                && t_chirho.entries_chirho@[p_chirho as int].priority_chirho > e_chirho.priority_chirho,
        decreases t_chirho.entries_chirho@.len() - p_chirho, if found_chirho { 0int } else { 1int },
    {
        let x_chirho = t_chirho.entries_chirho[p_chirho];
        if x_chirho.hook_chirho == e_chirho.hook_chirho && x_chirho.priority_chirho > e_chirho.priority_chirho {
            found_chirho = true;
        } else {
            p_chirho = p_chirho + 1;
        }
    }
    assert(insert_pos(old(t_chirho).entries_chirho@, e_chirho, p_chirho as int));
    t_chirho.entries_chirho.insert(p_chirho, e_chirho);
}

/// Registering a hook keeps every hook point in priority order.
pub proof fn lemma_register_keeps_order(s: Seq<NfHookEntryChirho>, e: NfHookEntryChirho, p: int)
    requires
        hooks_ordered(s),
        insert_pos(s, e, p),
    ensures
        hooks_ordered(s.insert(p, e)),
{
    let n = s.insert(p, e);
    assert forall|i: int, j: int| 0 <= i < j < n.len() && n[i].hook_chirho == n[j].hook_chirho
        implies n[i].priority_chirho <= n[j].priority_chirho by {
        if i < p && j == p {
            assert(!(s[i].hook_chirho == e.hook_chirho && s[i].priority_chirho > e.priority_chirho));
        } else if i == p && j > p {
            assert(n[j] == s[j - 1]);
            if p < s.len() {
                assert(s[p].hook_chirho == e.hook_chirho && s[p].priority_chirho > e.priority_chirho);
                if j - 1 > p {
                    assert(s[p].priority_chirho <= s[j - 1].priority_chirho);
                }
            }
        } else if i < p && j > p {
            assert(n[j] == s[j - 1]);
        } else if i > p {
            assert(n[i] == s[i - 1] && n[j] == s[j - 1]);
        }
    }
}

/// The first entry at or after `from` on hook point `hp`.
pub open spec fn next_on_hook(s: Seq<NfHookEntryChirho>, hp: NfHookPointChirho, from: int, k: int) -> bool {
    &&& from <= k < s.len()
    &&& s[k].hook_chirho == hp
    &&& forall|j: int| from <= j < k ==> (#[trigger] s[j]).hook_chirho != hp
}

/// No entry at or after `from` is on hook point `hp`.
pub open spec fn none_on_hook(s: Seq<NfHookEntryChirho>, hp: NfHookPointChirho, from: int) -> bool {
    forall|j: int| from <= j < s.len() ==> (#[trigger] s[j]).hook_chirho != hp
}

/// A step of the walk over the hooks of a point.
#[derive(Debug, Clone, Copy, PartialEq, Eq, Structural)]
pub enum NfStepChirho {
    /// Run the handler of entry `i` on the packet and hand back its
    /// verdict.
    CallChirho(usize),
    /// The walk is over with this verdict.
    DoneChirho(NfVerdictChirho),
}

/// Run the hooks of point `hp` in order, one step at a time: `prev` is
/// `None` to start, or the entry just run and its verdict. A drop ends the
/// walk with a drop; otherwise the next hook of the point runs, and when
/// none is left the packet is accepted.
pub fn nf_hook_chirho(t_chirho: &NfHookTableChirho, hp_chirho: NfHookPointChirho,
    prev_chirho: Option<(usize, NfVerdictChirho)>) -> (r: NfStepChirho)
    ensures
        ({
            let s = t_chirho.entries_chirho@;
            let from: int = match prev_chirho {
                None => 0,
                Some((i, _)) => i + 1,
            };
            if prev_chirho matches Some((_, v)) && v == NfVerdictChirho::DropChirho {
                r == NfStepChirho::DoneChirho(NfVerdictChirho::DropChirho)
            } else if none_on_hook(s, hp_chirho, from) {
                r == NfStepChirho::DoneChirho(NfVerdictChirho::AcceptChirho)
            } else {
                r matches NfStepChirho::CallChirho(k) && next_on_hook(s, hp_chirho, from, k as int)
            }
        }),
{
    let mut i_chirho: usize = match prev_chirho {
        None => 0,
        Some((j_chirho, v_chirho)) => {
            if v_chirho == NfVerdictChirho::DropChirho {
                return NfStepChirho::DoneChirho(NfVerdictChirho::DropChirho);
            }
            if j_chirho >= t_chirho.entries_chirho.len() {
                return NfStepChirho::DoneChirho(NfVerdictChirho::AcceptChirho);
            }
            j_chirho + 1
        },
    };
    let ghost from: int = i_chirho as int;
    while i_chirho < t_chirho.entries_chirho.len()
        invariant
            from <= i_chirho,
            from == (match prev_chirho {
                None => 0int,
                Some((i, _)) => i + 1,
            }),
            !(prev_chirho matches Some((_, v)) && v == NfVerdictChirho::DropChirho),
            forall|j: int| from <= j < i_chirho ==> (#[trigger] t_chirho.entries_chirho@[j]).hook_chirho != hp_chirho,
        decreases t_chirho.entries_chirho@.len() - i_chirho,
    {
        if t_chirho.entries_chirho[i_chirho].hook_chirho == hp_chirho {
            return NfStepChirho::CallChirho(i_chirho);
        }
        i_chirho = i_chirho + 1;
    }
    NfStepChirho::DoneChirho(NfVerdictChirho::AcceptChirho)
}

} // verus!
