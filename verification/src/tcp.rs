//! The TCP connection state machine (RFC 793) and the retransmission and
//! congestion state (RFC 6298, slow start and congestion avoidance).

use vstd::prelude::*;
use crate::packets::TcpSegmentChirho;
use crate::net_types::{
    TcpStateChirho, TCP_ACK_CHIRHO, TCP_DEFAULT_MSS_CHIRHO, TCP_DEFAULT_WINDOW_CHIRHO, TCP_FIN_CHIRHO,
    TCP_PSH_CHIRHO, TCP_RST_CHIRHO, TCP_SYN_CHIRHO, EISCONN_CHIRHO,
};

verus! {

/// `a + b` modulo 2^32, as sequence numbers add.
pub open spec fn wadd(a: u32, b: int) -> u32 {
    ((a as int + b) % 0x1_0000_0000) as u32
}

/// `a - b` modulo 2^32.
pub open spec fn wsub(a: u32, b: u32) -> u32 {
    ((a as int - b as int + 0x1_0000_0000) % 0x1_0000_0000) as u32
}

fn wrap_add_chirho(a: u32, b: u32) -> (r: u32)
    ensures
        r == wadd(a, b as int),
{
    ((a as u64 + b as u64) % 0x1_0000_0000) as u32
}

fn wrap_sub_chirho(a: u32, b: u32) -> (r: u32)
    ensures
        r == wsub(a, b),
{
    ((a as u64 + 0x1_0000_0000 - b as u64) % 0x1_0000_0000) as u32
}

fn len_u32_chirho(n: usize) -> (r: u32)
    ensures
        r as int == n as int % 0x1_0000_0000,
{
    (n as u64 % 0x1_0000_0000) as u32
}

/// The header fields of a reply segment: source port, destination port,
/// sequence number, acknowledgment number, flags, window. Replies carry no
/// payload, a data offset of five words and zero checksum and urgent pointer.
pub type TcpReplySpec = (u16, u16, u32, u32, u8, u16);

/// `s` is the reply segment `r`.
pub open spec fn is_reply(s: TcpSegmentChirho, r: TcpReplySpec) -> bool {
    &&& s.src_port_chirho == r.0
    &&& s.dst_port_chirho == r.1
    &&& s.seq_num_chirho == r.2
    &&& s.ack_num_chirho == r.3
    &&& s.flags_chirho == r.4
    &&& s.window_chirho == r.5
    &&& s.data_offset_chirho == 5
    &&& s.checksum_chirho == 0
    &&& s.urgent_ptr_chirho == 0
    &&& s.payload_chirho@.len() == 0
}

/// Per-connection TCP state: sequence, acknowledgment and window variables.
#[derive(Debug, Clone, Copy, PartialEq, Eq, Structural)]
pub struct TcpControlBlockChirho {
    pub state_chirho: TcpStateChirho,
    /// Oldest unacknowledged sequence number (SND.UNA).
    pub snd_una_chirho: u32,
    /// Next sequence number to send (SND.NXT).
    pub snd_nxt_chirho: u32,
    /// Peer's receive window (SND.WND).
    pub snd_wnd_chirho: u16,
    /// Initial send sequence number.
    pub iss_chirho: u32,
    /// Next sequence number expected from the peer (RCV.NXT).
    pub rcv_nxt_chirho: u32,
    /// Our receive window (RCV.WND).
    pub rcv_wnd_chirho: u16,
    /// Initial receive sequence number.
    pub irs_chirho: u32,
}

/// The bare ACK a control block sends.
pub open spec fn ack_reply(t: TcpControlBlockChirho, local: u16, remote: u16) -> TcpReplySpec {
    (local, remote, t.snd_nxt_chirho, t.rcv_nxt_chirho, TCP_ACK_CHIRHO, t.rcv_wnd_chirho)
}

/// The reset answering an unexpected segment (RFC 793, "Reset Generation").
pub open spec fn rst_reply(flags: u8, seq: u32, ack: u32, src_port: u16, len: int, local: u16) -> TcpReplySpec {
    if flags & TCP_ACK_CHIRHO != 0 {
        (local, src_port, ack, 0, TCP_RST_CHIRHO, 0)
    } else {
        (local, src_port, 0,
            wadd(wadd(wadd(seq, len), if flags & TCP_SYN_CHIRHO != 0 { 1 } else { 0 }),
                if flags & TCP_FIN_CHIRHO != 0 { 1 } else { 0 }),
            TCP_RST_CHIRHO | TCP_ACK_CHIRHO, 0)
    }
}

/// SND.UNA after an acknowledgment: it advances only to an ACK between the
/// current SND.UNA and SND.NXT.
pub open spec fn after_ack(t: TcpControlBlockChirho, ack: u32) -> TcpControlBlockChirho {
    if wsub(ack, t.snd_una_chirho) <= wsub(t.snd_nxt_chirho, t.snd_una_chirho) {
        TcpControlBlockChirho { snd_una_chirho: ack, ..t }
    } else {
        t
    }
}

/// The control block and the reply after a segment with the given flags,
/// sequence number, acknowledgment number, window, source port and payload
/// length arrives on `local`; `iss` is the initial sequence number a
/// listening block picks.
pub open spec fn tcp_step(t: TcpControlBlockChirho, flags: u8, seq: u32, ack: u32, window: u16, src_port: u16, len: int, local: u16, iss: u32)
    -> (TcpControlBlockChirho, Option<TcpReplySpec>)
{
    let syn = flags & TCP_SYN_CHIRHO != 0;
    let has_ack = flags & TCP_ACK_CHIRHO != 0;
    let fin = flags & TCP_FIN_CHIRHO != 0;
    let rst = flags & TCP_RST_CHIRHO != 0;
    if rst {
        if t.state_chirho == TcpStateChirho::ClosedChirho || t.state_chirho == TcpStateChirho::ListenChirho {
            (t, None)
        } else {
            (TcpControlBlockChirho { state_chirho: TcpStateChirho::ClosedChirho, ..t }, None)
        }
    } else {
        match t.state_chirho {
            TcpStateChirho::ClosedChirho => (t, Some(rst_reply(flags, seq, ack, src_port, len, local))),
            TcpStateChirho::ListenChirho => {
                if syn {
                    let t2 = TcpControlBlockChirho {
                        irs_chirho: seq,
                        rcv_nxt_chirho: wadd(seq, 1),
                        iss_chirho: iss,
                        snd_nxt_chirho: wadd(iss, 1),
                        snd_una_chirho: iss,
                        snd_wnd_chirho: window,
                        state_chirho: TcpStateChirho::SynReceivedChirho,
                        ..t
                    };
                    (t2, Some((local, src_port, iss, wadd(seq, 1), TCP_SYN_CHIRHO | TCP_ACK_CHIRHO, t.rcv_wnd_chirho)))
                } else {
                    (t, None)
                }
            },
            TcpStateChirho::SynSentChirho => {
                if syn && has_ack {
                    if ack != t.snd_nxt_chirho {
                        (t, Some(rst_reply(flags, seq, ack, src_port, len, local)))
                    } else {
                        let t2 = TcpControlBlockChirho {
                            irs_chirho: seq,
                            rcv_nxt_chirho: wadd(seq, 1),
                            snd_una_chirho: ack,
                            snd_wnd_chirho: window,
                            state_chirho: TcpStateChirho::EstablishedChirho,
                            ..t
                        };
                        (t2, Some(ack_reply(t2, local, src_port)))
                    }
                } else if syn {
                    let t2 = TcpControlBlockChirho {
                        irs_chirho: seq,
                        rcv_nxt_chirho: wadd(seq, 1),
                        state_chirho: TcpStateChirho::SynReceivedChirho,
                        ..t
                    };
                    (t2, Some((local, src_port, t.iss_chirho, wadd(seq, 1), TCP_SYN_CHIRHO | TCP_ACK_CHIRHO, t.rcv_wnd_chirho)))
                } else {
                    (t, None)
                }
            },
            TcpStateChirho::SynReceivedChirho => {
                if has_ack && ack == t.snd_nxt_chirho {
                    (TcpControlBlockChirho {
                        snd_una_chirho: ack,
                        snd_wnd_chirho: window,
                        state_chirho: TcpStateChirho::EstablishedChirho,
                        ..t
                    }, None)
                } else {
                    (t, None)
                }
            },
            TcpStateChirho::EstablishedChirho => {
                let t1 = if has_ack { TcpControlBlockChirho { snd_wnd_chirho: window, ..after_ack(t, ack) } } else { t };
                if fin {
                    let t2 = TcpControlBlockChirho {
                        rcv_nxt_chirho: wadd(wadd(seq, len), 1),
                        state_chirho: TcpStateChirho::CloseWaitChirho,
                        ..t1
                    };
                    (t2, Some(ack_reply(t2, local, src_port)))
                } else if len != 0 {
                    let t2 = if seq == t1.rcv_nxt_chirho { TcpControlBlockChirho { rcv_nxt_chirho: wadd(seq, len), ..t1 } } else { t1 };
                    (t2, Some(ack_reply(t2, local, src_port)))
                } else {
                    (t1, None)
                }
            },
            TcpStateChirho::FinWait1Chirho => {
                if has_ack && fin {
                    let t2 = TcpControlBlockChirho {
                        rcv_nxt_chirho: wadd(seq, 1),
                        state_chirho: TcpStateChirho::TimeWaitChirho,
                        ..after_ack(t, ack)
                    };
                    (t2, Some(ack_reply(t2, local, src_port)))
                } else if has_ack {
                    (TcpControlBlockChirho { state_chirho: TcpStateChirho::FinWait2Chirho, ..after_ack(t, ack) }, None)
                } else if fin {
                    let t2 = TcpControlBlockChirho {
                        rcv_nxt_chirho: wadd(seq, 1),
                        state_chirho: TcpStateChirho::ClosingChirho,
                        ..t
                    };
                    (t2, Some(ack_reply(t2, local, src_port)))
                } else {
                    (t, None)
                }
            },
            TcpStateChirho::FinWait2Chirho => {
                if fin {
                    let t2 = TcpControlBlockChirho {
                        rcv_nxt_chirho: wadd(seq, 1),
                        state_chirho: TcpStateChirho::TimeWaitChirho,
                        ..t
                    };
                    (t2, Some(ack_reply(t2, local, src_port)))
                } else if len != 0 && has_ack {
                    let t2 = TcpControlBlockChirho { rcv_nxt_chirho: wadd(seq, len), ..t };
                    (t2, Some(ack_reply(t2, local, src_port)))
                } else {
                    (t, None)
                }
            },
            TcpStateChirho::CloseWaitChirho => {
                if has_ack { (after_ack(t, ack), None) } else { (t, None) }
            },
            TcpStateChirho::ClosingChirho => {
                if has_ack {
                    (TcpControlBlockChirho { state_chirho: TcpStateChirho::TimeWaitChirho, ..after_ack(t, ack) }, None)
                } else {
                    (t, None)
                }
            },
            TcpStateChirho::LastAckChirho => {
                if has_ack { (TcpControlBlockChirho { state_chirho: TcpStateChirho::ClosedChirho, ..t }, None) } else { (t, None) }
            },
            TcpStateChirho::TimeWaitChirho => {
                if fin { (t, Some(ack_reply(t, local, src_port))) } else { (t, None) }
            },
        }
    }
}

/// The step of `t` on segment `s`.
pub open spec fn tcp_step_on(t: TcpControlBlockChirho, s: TcpSegmentChirho, local: u16, iss: u32) -> (TcpControlBlockChirho, Option<TcpReplySpec>) {
    tcp_step(t, s.flags_chirho, s.seq_num_chirho, s.ack_num_chirho, s.window_chirho, s.src_port_chirho,
        s.payload_chirho@.len() as int, local, iss)
}

/// The initial sequence number that a counter value yields.
pub open spec fn iss_of(counter: u64) -> u32 {
    (counter % 0x1_0000_0000) as u32
}

/// The counter after one initial sequence number was taken from it.
pub open spec fn iss_counter_next(counter: u64) -> u64 {
    ((counter as int + 64000) % 0x1_0000_0000_0000_0000) as u64
}

fn reply_segment_chirho(r: TcpReplySpec) -> (s: TcpSegmentChirho)
    ensures
        is_reply(s, r),
{
    TcpSegmentChirho {
        src_port_chirho: r.0,
        dst_port_chirho: r.1,
        seq_num_chirho: r.2,
        ack_num_chirho: r.3,
        data_offset_chirho: 5,
        flags_chirho: r.4,
        window_chirho: r.5,
        checksum_chirho: 0,
        urgent_ptr_chirho: 0,
        payload_chirho: Vec::new(),
    }
}

impl TcpControlBlockChirho {
    /// A control block in the CLOSED state with default windows.
    pub fn new_chirho() -> (r: TcpControlBlockChirho)
        ensures
            r == (TcpControlBlockChirho {
                state_chirho: TcpStateChirho::ClosedChirho,
                snd_una_chirho: 0,
                snd_nxt_chirho: 0,
                snd_wnd_chirho: TCP_DEFAULT_WINDOW_CHIRHO,
                iss_chirho: 0,
                rcv_nxt_chirho: 0,
                rcv_wnd_chirho: TCP_DEFAULT_WINDOW_CHIRHO,
                irs_chirho: 0,
            }),
    {
        TcpControlBlockChirho {
            state_chirho: TcpStateChirho::ClosedChirho,
            snd_una_chirho: 0,
            snd_nxt_chirho: 0,
            snd_wnd_chirho: TCP_DEFAULT_WINDOW_CHIRHO,
            iss_chirho: 0,
            rcv_nxt_chirho: 0,
            rcv_wnd_chirho: TCP_DEFAULT_WINDOW_CHIRHO,
            irs_chirho: 0,
        }
    }

    /// Take the next initial sequence number from the counter, which
    /// advances by 64000 each time.
    pub fn generate_iss_chirho(iss_counter_chirho: &mut u64) -> (r: u32)
        ensures
            r == iss_of(*old(iss_counter_chirho)),
            *final(iss_counter_chirho) == iss_counter_next(*old(iss_counter_chirho)),
    {
        let val_chirho = *iss_counter_chirho;
        *iss_counter_chirho = val_chirho.wrapping_add(64000);
        (val_chirho % 0x1_0000_0000) as u32
    }

    /// Active open: CLOSED to SYN_SENT, returning the SYN to send.
    pub fn active_open_chirho(&mut self, src_port_chirho: u16, dst_port_chirho: u16, iss_counter_chirho: &mut u64) -> (r: Result<TcpSegmentChirho, i64>)
        ensures
            old(self).state_chirho != TcpStateChirho::ClosedChirho ==> {
                &&& r matches Err(e) && e == -EISCONN_CHIRHO
                &&& *final(self) == *old(self)
                &&& *final(iss_counter_chirho) == *old(iss_counter_chirho)
            },
            old(self).state_chirho == TcpStateChirho::ClosedChirho ==> {
                let iss = iss_of(*old(iss_counter_chirho));
                &&& *final(iss_counter_chirho) == iss_counter_next(*old(iss_counter_chirho))
                &&& *final(self) == (TcpControlBlockChirho {
                    iss_chirho: iss,
                    snd_nxt_chirho: wadd(iss, 1),
                    snd_una_chirho: iss,
                    state_chirho: TcpStateChirho::SynSentChirho,
                    ..*old(self)
                })
                &&& r matches Ok(s) && is_reply(s, (src_port_chirho, dst_port_chirho, iss, 0, TCP_SYN_CHIRHO, old(self).rcv_wnd_chirho))
            },
    {
        if self.state_chirho != TcpStateChirho::ClosedChirho {
            return Err(-EISCONN_CHIRHO);
        }
        self.iss_chirho = Self::generate_iss_chirho(iss_counter_chirho);
        self.snd_nxt_chirho = wrap_add_chirho(self.iss_chirho, 1);
        self.snd_una_chirho = self.iss_chirho;
        self.state_chirho = TcpStateChirho::SynSentChirho;
        Ok(reply_segment_chirho((src_port_chirho, dst_port_chirho, self.iss_chirho, 0, TCP_SYN_CHIRHO, self.rcv_wnd_chirho)))
    }

    /// Passive open: CLOSED to LISTEN.
    pub fn passive_open_chirho(&mut self) -> (r: Result<(), i64>)
        ensures
            old(self).state_chirho != TcpStateChirho::ClosedChirho ==> (r matches Err(e) && e == -EISCONN_CHIRHO) && *final(self) == *old(self),
            old(self).state_chirho == TcpStateChirho::ClosedChirho ==> r == Ok::<(), i64>(())
                && *final(self) == (TcpControlBlockChirho { state_chirho: TcpStateChirho::ListenChirho, ..*old(self) }),
    {
        if self.state_chirho != TcpStateChirho::ClosedChirho {
            return Err(-EISCONN_CHIRHO);
        }
        self.state_chirho = TcpStateChirho::ListenChirho;
        Ok(())
    }

    /// Advance SND.UNA to `ack_chirho` when it lies within the window.
    fn update_snd_una_chirho(&mut self, ack_chirho: u32)
        ensures
            *final(self) == after_ack(*old(self), ack_chirho),
    {
        let diff_una_chirho = wrap_sub_chirho(ack_chirho, self.snd_una_chirho);
        let diff_nxt_chirho = wrap_sub_chirho(self.snd_nxt_chirho, self.snd_una_chirho);
        if diff_una_chirho <= diff_nxt_chirho {
            self.snd_una_chirho = ack_chirho;
        }
    }

    /// A bare ACK from `local_port_chirho` to `remote_port_chirho`.
    fn make_ack_chirho(&self, local_port_chirho: u16, remote_port_chirho: u16) -> (s: TcpSegmentChirho)
        ensures
            is_reply(s, ack_reply(*self, local_port_chirho, remote_port_chirho)),
    {
        reply_segment_chirho((local_port_chirho, remote_port_chirho, self.snd_nxt_chirho, self.rcv_nxt_chirho, TCP_ACK_CHIRHO, self.rcv_wnd_chirho))
    }

    /// The reset answering the unexpected segment `incoming_chirho`.
    fn make_rst_chirho(&self, incoming_chirho: &TcpSegmentChirho, local_port_chirho: u16) -> (s: TcpSegmentChirho)
        ensures
            is_reply(s, rst_reply(incoming_chirho.flags_chirho, incoming_chirho.seq_num_chirho, incoming_chirho.ack_num_chirho,
                incoming_chirho.src_port_chirho, incoming_chirho.payload_chirho@.len() as int, local_port_chirho)),
    {
        let f = incoming_chirho.flags_chirho;
        if f & TCP_ACK_CHIRHO != 0 {
            reply_segment_chirho((local_port_chirho, incoming_chirho.src_port_chirho, incoming_chirho.ack_num_chirho, 0, TCP_RST_CHIRHO, 0))
        } else {
            let len_chirho = len_u32_chirho(incoming_chirho.payload_chirho.len());
            let a1 = wrap_add_chirho(incoming_chirho.seq_num_chirho, len_chirho);
            let a2 = wrap_add_chirho(a1, if f & TCP_SYN_CHIRHO != 0 { 1 } else { 0 });
            let a3 = wrap_add_chirho(a2, if f & TCP_FIN_CHIRHO != 0 { 1 } else { 0 });
            proof {
                let n = incoming_chirho.payload_chirho@.len() as int;
                assert(wadd(incoming_chirho.seq_num_chirho, len_chirho as int) == wadd(incoming_chirho.seq_num_chirho, n));
            }
            reply_segment_chirho((local_port_chirho, incoming_chirho.src_port_chirho, 0, a3, TCP_RST_CHIRHO | TCP_ACK_CHIRHO, 0))
        }
    }
}


impl TcpControlBlockChirho {
    /// Process an incoming segment: apply the state transition and return
    /// the segment to answer with, if any. A listening block takes its
    /// initial sequence number from `iss_counter_chirho`.
    #[verifier::rlimit(100)]
    #[verifier::spinoff_prover]
    pub fn process_segment_chirho(&mut self, segment_chirho: &TcpSegmentChirho, local_port_chirho: u16, iss_counter_chirho: &mut u64)
        -> (r: Option<TcpSegmentChirho>)
        ensures
            ({
                let (t2, reply) = tcp_step_on(*old(self), *segment_chirho, local_port_chirho, iss_of(*old(iss_counter_chirho)));
                &&& *final(self) == t2
                &&& match (r, reply) {
                    (Some(s), Some(rp)) => is_reply(s, rp),
                    (None, None) => true,
                    _ => false,
                }
            }),
            *final(iss_counter_chirho) == (if old(self).state_chirho == TcpStateChirho::ListenChirho
                && segment_chirho.flags_chirho & TCP_RST_CHIRHO == 0 && segment_chirho.flags_chirho & TCP_SYN_CHIRHO != 0 {
                iss_counter_next(*old(iss_counter_chirho))
            } else {
                *old(iss_counter_chirho)
            }),
    {
        let flags_chirho = segment_chirho.flags_chirho;
        let has_syn_chirho = (flags_chirho & TCP_SYN_CHIRHO) != 0;
        let has_ack_chirho = (flags_chirho & TCP_ACK_CHIRHO) != 0;
        let has_fin_chirho = (flags_chirho & TCP_FIN_CHIRHO) != 0;
        let has_rst_chirho = (flags_chirho & TCP_RST_CHIRHO) != 0;
        let seq_chirho = segment_chirho.seq_num_chirho;
        let src_chirho = segment_chirho.src_port_chirho;
        let plen_chirho = segment_chirho.payload_chirho.len();
        let len32_chirho = len_u32_chirho(plen_chirho);
        proof {
            assert(wadd(seq_chirho, len32_chirho as int) == wadd(seq_chirho, plen_chirho as int));
            assert(forall|b: u32| wadd(wadd(seq_chirho, len32_chirho as int), b as int) == wadd(wadd(seq_chirho, plen_chirho as int), b as int));
        }

        if has_rst_chirho {
            match self.state_chirho {
                TcpStateChirho::ClosedChirho | TcpStateChirho::ListenChirho => {
                    return None;
                },
                _ => {
                    self.state_chirho = TcpStateChirho::ClosedChirho;
                    return None;
                },
            }
        }
        match self.state_chirho {
            TcpStateChirho::ClosedChirho => Some(self.make_rst_chirho(segment_chirho, local_port_chirho)),
            TcpStateChirho::ListenChirho => {
                if has_syn_chirho {
                    self.irs_chirho = seq_chirho;
                    self.rcv_nxt_chirho = wrap_add_chirho(seq_chirho, 1);
                    self.iss_chirho = Self::generate_iss_chirho(iss_counter_chirho);
                    self.snd_nxt_chirho = wrap_add_chirho(self.iss_chirho, 1);
                    self.snd_una_chirho = self.iss_chirho;
                    self.snd_wnd_chirho = segment_chirho.window_chirho;
                    self.state_chirho = TcpStateChirho::SynReceivedChirho;
                    return Some(reply_segment_chirho((local_port_chirho, src_chirho, self.iss_chirho, self.rcv_nxt_chirho,
                        TCP_SYN_CHIRHO | TCP_ACK_CHIRHO, self.rcv_wnd_chirho)));
                }
                None
            },
            TcpStateChirho::SynSentChirho => {
                if has_syn_chirho && has_ack_chirho {
                    if segment_chirho.ack_num_chirho != self.snd_nxt_chirho {
                        return Some(self.make_rst_chirho(segment_chirho, local_port_chirho));
                    }
                    self.irs_chirho = seq_chirho;
                    self.rcv_nxt_chirho = wrap_add_chirho(seq_chirho, 1);
                    self.snd_una_chirho = segment_chirho.ack_num_chirho;
                    self.snd_wnd_chirho = segment_chirho.window_chirho;
                    self.state_chirho = TcpStateChirho::EstablishedChirho;
                    return Some(self.make_ack_chirho(local_port_chirho, src_chirho));
                }
                if has_syn_chirho && !has_ack_chirho {
                    self.irs_chirho = seq_chirho;
                    self.rcv_nxt_chirho = wrap_add_chirho(seq_chirho, 1);
                    self.state_chirho = TcpStateChirho::SynReceivedChirho;
                    return Some(reply_segment_chirho((local_port_chirho, src_chirho, self.iss_chirho, self.rcv_nxt_chirho,
                        TCP_SYN_CHIRHO | TCP_ACK_CHIRHO, self.rcv_wnd_chirho)));
                }
                None
            },
            TcpStateChirho::SynReceivedChirho => {
                if has_ack_chirho {
                    if segment_chirho.ack_num_chirho == self.snd_nxt_chirho {
                        self.snd_una_chirho = segment_chirho.ack_num_chirho;
                        self.snd_wnd_chirho = segment_chirho.window_chirho;
                        self.state_chirho = TcpStateChirho::EstablishedChirho;
                    }
                }
                None
            },
            TcpStateChirho::EstablishedChirho => {
                if has_ack_chirho {
                    self.update_snd_una_chirho(segment_chirho.ack_num_chirho);
                    self.snd_wnd_chirho = segment_chirho.window_chirho;
                }
                if has_fin_chirho {
                    self.rcv_nxt_chirho = wrap_add_chirho(wrap_add_chirho(seq_chirho, len32_chirho), 1);
                    self.state_chirho = TcpStateChirho::CloseWaitChirho;
                    return Some(self.make_ack_chirho(local_port_chirho, src_chirho));
                }
                if plen_chirho != 0 {
                    if seq_chirho == self.rcv_nxt_chirho {
                        self.rcv_nxt_chirho = wrap_add_chirho(seq_chirho, len32_chirho);
                    }
                    return Some(self.make_ack_chirho(local_port_chirho, src_chirho));
                }
                None
            },
            TcpStateChirho::FinWait1Chirho => {
                if has_ack_chirho && has_fin_chirho {
                    self.update_snd_una_chirho(segment_chirho.ack_num_chirho);
                    self.rcv_nxt_chirho = wrap_add_chirho(seq_chirho, 1);
                    self.state_chirho = TcpStateChirho::TimeWaitChirho;
                    return Some(self.make_ack_chirho(local_port_chirho, src_chirho));
                }
                if has_ack_chirho {
                    self.update_snd_una_chirho(segment_chirho.ack_num_chirho);
                    self.state_chirho = TcpStateChirho::FinWait2Chirho;
                }
                if has_fin_chirho {
                    self.rcv_nxt_chirho = wrap_add_chirho(seq_chirho, 1);
                    self.state_chirho = TcpStateChirho::ClosingChirho;
                    return Some(self.make_ack_chirho(local_port_chirho, src_chirho));
                }
                None
            },
            TcpStateChirho::FinWait2Chirho => {
                if has_fin_chirho {
                    self.rcv_nxt_chirho = wrap_add_chirho(seq_chirho, 1);
                    self.state_chirho = TcpStateChirho::TimeWaitChirho;
                    return Some(self.make_ack_chirho(local_port_chirho, src_chirho));
                }
                if plen_chirho != 0 && has_ack_chirho {
                    self.rcv_nxt_chirho = wrap_add_chirho(seq_chirho, len32_chirho);
                    return Some(self.make_ack_chirho(local_port_chirho, src_chirho));
                }
                None
            },
            TcpStateChirho::CloseWaitChirho => {
                if has_ack_chirho {
                    self.update_snd_una_chirho(segment_chirho.ack_num_chirho);
                }
                None
            },
            TcpStateChirho::ClosingChirho => {
                if has_ack_chirho {
                    self.update_snd_una_chirho(segment_chirho.ack_num_chirho);
                    self.state_chirho = TcpStateChirho::TimeWaitChirho;
                }
                None
            },
            TcpStateChirho::LastAckChirho => {
                if has_ack_chirho {
                    self.state_chirho = TcpStateChirho::ClosedChirho;
                }
                None
            },
            TcpStateChirho::TimeWaitChirho => {
                if has_fin_chirho {
                    return Some(self.make_ack_chirho(local_port_chirho, src_chirho));
                }
                None
            },
        }
    }

    /// Active close: ESTABLISHED to FIN_WAIT_1 or CLOSE_WAIT to LAST_ACK,
    /// returning the FIN to send; in any other state nothing changes.
    pub fn close_chirho(&mut self, local_port_chirho: u16, remote_port_chirho: u16) -> (r: Option<TcpSegmentChirho>)
        ensures
            (old(self).state_chirho == TcpStateChirho::EstablishedChirho || old(self).state_chirho == TcpStateChirho::CloseWaitChirho) ==> {
                &&& *final(self) == (TcpControlBlockChirho {
                    state_chirho: if old(self).state_chirho == TcpStateChirho::EstablishedChirho {
                        TcpStateChirho::FinWait1Chirho
                    } else {
                        TcpStateChirho::LastAckChirho
                    },
                    snd_nxt_chirho: wadd(old(self).snd_nxt_chirho, 1),
                    ..*old(self)
                })
                &&& r matches Some(s) && is_reply(s, (local_port_chirho, remote_port_chirho, old(self).snd_nxt_chirho,
                    old(self).rcv_nxt_chirho, TCP_FIN_CHIRHO | TCP_ACK_CHIRHO, old(self).rcv_wnd_chirho))
            },
            !(old(self).state_chirho == TcpStateChirho::EstablishedChirho || old(self).state_chirho == TcpStateChirho::CloseWaitChirho)
                ==> r is None && *final(self) == *old(self),
    {
        match self.state_chirho {
            TcpStateChirho::EstablishedChirho | TcpStateChirho::CloseWaitChirho => {
                self.state_chirho = if self.state_chirho == TcpStateChirho::EstablishedChirho {
                    TcpStateChirho::FinWait1Chirho
                } else {
                    TcpStateChirho::LastAckChirho
                };
                let fin_seg_chirho = reply_segment_chirho((local_port_chirho, remote_port_chirho, self.snd_nxt_chirho,
                    self.rcv_nxt_chirho, TCP_FIN_CHIRHO | TCP_ACK_CHIRHO, self.rcv_wnd_chirho));
                self.snd_nxt_chirho = wrap_add_chirho(self.snd_nxt_chirho, 1);
                Some(fin_seg_chirho)
            },
            _ => None,
        }
    }

    /// A data segment carrying `data_chirho`, when the connection is
    /// ESTABLISHED or CLOSE_WAIT; SND.NXT advances by the data length.
    pub fn make_data_segment_chirho(&mut self, local_port_chirho: u16, remote_port_chirho: u16, data_chirho: &[u8])
        -> (r: Option<TcpSegmentChirho>)
        ensures
            (old(self).state_chirho == TcpStateChirho::EstablishedChirho || old(self).state_chirho == TcpStateChirho::CloseWaitChirho) ==> {
                &&& *final(self) == (TcpControlBlockChirho {
                    snd_nxt_chirho: wadd(old(self).snd_nxt_chirho, data_chirho@.len() as int),
                    ..*old(self)
                })
                &&& r matches Some(s) && s.src_port_chirho == local_port_chirho && s.dst_port_chirho == remote_port_chirho
                    && s.seq_num_chirho == old(self).snd_nxt_chirho && s.ack_num_chirho == old(self).rcv_nxt_chirho
                    && s.data_offset_chirho == 5 && s.flags_chirho == TCP_ACK_CHIRHO | TCP_PSH_CHIRHO
                    && s.window_chirho == old(self).rcv_wnd_chirho && s.checksum_chirho == 0 && s.urgent_ptr_chirho == 0
                    && s.payload_chirho@ == data_chirho@
            },
            !(old(self).state_chirho == TcpStateChirho::EstablishedChirho || old(self).state_chirho == TcpStateChirho::CloseWaitChirho)
                ==> r is None && *final(self) == *old(self),
    {
        if self.state_chirho != TcpStateChirho::EstablishedChirho && self.state_chirho != TcpStateChirho::CloseWaitChirho {
            return None;
        }
        let mut payload_chirho: Vec<u8> = Vec::new();
        crate::bytes::push_all_chirho(&mut payload_chirho, data_chirho);
        assert(payload_chirho@ =~= data_chirho@);
        let segment_chirho = TcpSegmentChirho {
            src_port_chirho: local_port_chirho,
            dst_port_chirho: remote_port_chirho,
            seq_num_chirho: self.snd_nxt_chirho,
            ack_num_chirho: self.rcv_nxt_chirho,
            data_offset_chirho: 5,
            flags_chirho: TCP_ACK_CHIRHO | TCP_PSH_CHIRHO,
            window_chirho: self.rcv_wnd_chirho,
            checksum_chirho: 0,
            urgent_ptr_chirho: 0,
            payload_chirho,
        };
        let n_chirho = len_u32_chirho(data_chirho.len());
        self.snd_nxt_chirho = wrap_add_chirho(self.snd_nxt_chirho, n_chirho);
        proof {
            assert(wadd(old(self).snd_nxt_chirho, n_chirho as int) == wadd(old(self).snd_nxt_chirho, data_chirho@.len() as int));
        }
        Some(segment_chirho)
    }
}


/// Retransmission timer and congestion state of one connection.
#[derive(Debug, Clone)]
pub struct TcpRetransmitChirho {
    /// Retransmission timeout in ticks.
    pub rto_ticks_chirho: u64,
    /// Ticks left before the timer fires.
    pub timer_remaining_chirho: u64,
    /// Retransmissions of the current segment so far.
    pub retransmit_count_chirho: u32,
    /// Retransmissions allowed before the connection is aborted.
    pub max_retransmits_chirho: u32,
    /// Smoothed round-trip time (SRTT).
    pub srtt_chirho: u64,
    /// Round-trip time variation (RTTVAR).
    pub rttvar_chirho: u64,
    /// The last unacknowledged bytes.
    pub unacked_data_chirho: Vec<u8>,
    /// Sequence number of the first unacknowledged byte.
    pub unacked_seq_chirho: u32,
    /// Congestion window in bytes.
    pub cwnd_chirho: u32,
    /// Slow-start threshold in bytes.
    pub ssthresh_chirho: u32,
    /// Whether the timer is armed.
    pub timer_active_chirho: bool,
}

/// The smaller of two numbers.
pub open spec fn min_int(a: int, b: int) -> int {
    if a <= b { a } else { b }
}

/// The larger of two numbers.
pub open spec fn max_int(a: int, b: int) -> int {
    if a >= b { a } else { b }
}

/// SRTT and RTTVAR after a measurement `r` (RFC 6298: the first measurement
/// sets SRTT = R and RTTVAR = R/2, later ones weigh in with 1/8 and 1/4).
pub open spec fn rtt_update_spec(srtt: int, rttvar: int, r: int) -> (int, int) {
    if srtt == 0 {
        (r, r / 2)
    } else {
        let diff = if srtt > r { srtt - r } else { r - srtt };
        ((7 * srtt + r) / 8, (3 * rttvar + diff) / 4)
    }
}

/// RTO = SRTT + max(1, 4 RTTVAR), clamped to [20, 12000] ticks.
pub open spec fn rto_spec(srtt: int, rttvar: int) -> int {
    max_int(20, min_int(srtt + max_int(1, 4 * rttvar), 12000))
}

impl TcpRetransmitChirho {
    /// Default state: RTO of 100 ticks, 15 retransmissions allowed, an
    /// initial window of ten segments, slow-start threshold of one window.
    pub fn new_chirho() -> (r: TcpRetransmitChirho)
        ensures
            r.rto_ticks_chirho == 100,
            r.timer_remaining_chirho == 0,
            r.retransmit_count_chirho == 0,
            r.max_retransmits_chirho == 15,
            r.srtt_chirho == 0,
            r.rttvar_chirho == 50,
            r.unacked_data_chirho@.len() == 0,
            r.unacked_seq_chirho == 0,
            r.cwnd_chirho == TCP_DEFAULT_MSS_CHIRHO as u32 * 10,
            r.ssthresh_chirho == TCP_DEFAULT_WINDOW_CHIRHO as u32,
            !r.timer_active_chirho,
    {
        TcpRetransmitChirho {
            rto_ticks_chirho: 100,
            timer_remaining_chirho: 0,
            retransmit_count_chirho: 0,
            max_retransmits_chirho: 15,
            srtt_chirho: 0,
            rttvar_chirho: 50,
            unacked_data_chirho: Vec::new(),
            unacked_seq_chirho: 0,
            cwnd_chirho: TCP_DEFAULT_MSS_CHIRHO as u32 * 10,
            ssthresh_chirho: TCP_DEFAULT_WINDOW_CHIRHO as u32,
            timer_active_chirho: false,
        }
    }

    /// Fold a round-trip measurement into SRTT and RTTVAR and recompute RTO.
    pub fn update_rtt_chirho(&mut self, rtt_ticks_chirho: u64)
        requires
            old(self).srtt_chirho < 0x2000_0000_0000_0000,
            old(self).rttvar_chirho < 0x2000_0000_0000_0000,
            rtt_ticks_chirho < 0x2000_0000_0000_0000,
        ensures
            ({
                let (s2, v2) = rtt_update_spec(old(self).srtt_chirho as int, old(self).rttvar_chirho as int, rtt_ticks_chirho as int);
                &&& final(self).srtt_chirho == s2
                &&& final(self).rttvar_chirho == v2
                &&& final(self).rto_ticks_chirho == rto_spec(s2, v2)
            }),
            20 <= final(self).rto_ticks_chirho <= 12000,
            final(self).srtt_chirho < 0x2000_0000_0000_0000,
            final(self).rttvar_chirho < 0x2000_0000_0000_0000,
            final(self).timer_remaining_chirho == old(self).timer_remaining_chirho,
            final(self).retransmit_count_chirho == old(self).retransmit_count_chirho,
            final(self).max_retransmits_chirho == old(self).max_retransmits_chirho,
            final(self).unacked_data_chirho@ == old(self).unacked_data_chirho@,
            final(self).unacked_seq_chirho == old(self).unacked_seq_chirho,
            final(self).cwnd_chirho == old(self).cwnd_chirho,
            final(self).ssthresh_chirho == old(self).ssthresh_chirho,
            final(self).timer_active_chirho == old(self).timer_active_chirho,
    {
        if self.srtt_chirho == 0 {
            self.srtt_chirho = rtt_ticks_chirho;
            self.rttvar_chirho = rtt_ticks_chirho / 2;
        } else {
            let diff_chirho = if self.srtt_chirho > rtt_ticks_chirho {
                self.srtt_chirho - rtt_ticks_chirho
            } else {
                rtt_ticks_chirho - self.srtt_chirho
            };
            self.rttvar_chirho = (3 * self.rttvar_chirho + diff_chirho) / 4;
            self.srtt_chirho = (7 * self.srtt_chirho + rtt_ticks_chirho) / 8;
        }
        let var4_chirho = 4 * self.rttvar_chirho;
        let rto_chirho = self.srtt_chirho + if var4_chirho > 1 { var4_chirho } else { 1 };
        let capped_chirho = if rto_chirho < 12000 { rto_chirho } else { 12000 };
        self.rto_ticks_chirho = if capped_chirho > 20 { capped_chirho } else { 20 };
    }

    /// Arm the timer with the current RTO.
    pub fn arm_timer_chirho(&mut self)
        ensures
            final(self).timer_remaining_chirho == old(self).rto_ticks_chirho,
            final(self).timer_active_chirho,
            final(self).rto_ticks_chirho == old(self).rto_ticks_chirho,
            final(self).retransmit_count_chirho == old(self).retransmit_count_chirho,
            final(self).cwnd_chirho == old(self).cwnd_chirho,
            final(self).ssthresh_chirho == old(self).ssthresh_chirho,
            final(self).srtt_chirho == old(self).srtt_chirho,
            final(self).rttvar_chirho == old(self).rttvar_chirho,
            final(self).max_retransmits_chirho == old(self).max_retransmits_chirho,
            final(self).unacked_data_chirho@ == old(self).unacked_data_chirho@,
            final(self).unacked_seq_chirho == old(self).unacked_seq_chirho,
    {
        self.timer_remaining_chirho = self.rto_ticks_chirho;
        self.timer_active_chirho = true;
    }

    /// Disarm the timer and forget the retransmissions.
    pub fn disarm_timer_chirho(&mut self)
        ensures
            !final(self).timer_active_chirho,
            final(self).timer_remaining_chirho == 0,
            final(self).retransmit_count_chirho == 0,
            final(self).rto_ticks_chirho == old(self).rto_ticks_chirho,
            final(self).cwnd_chirho == old(self).cwnd_chirho,
            final(self).ssthresh_chirho == old(self).ssthresh_chirho,
            final(self).srtt_chirho == old(self).srtt_chirho,
            final(self).rttvar_chirho == old(self).rttvar_chirho,
            final(self).max_retransmits_chirho == old(self).max_retransmits_chirho,
            final(self).unacked_data_chirho@ == old(self).unacked_data_chirho@,
            final(self).unacked_seq_chirho == old(self).unacked_seq_chirho,
    {
        self.timer_active_chirho = false;
        self.timer_remaining_chirho = 0;
        self.retransmit_count_chirho = 0;
    }

    /// One timer tick; `true` when the timer fires and a retransmission is
    /// due. Firing doubles the RTO (at most 12000 ticks), halves the
    /// congestion window into the threshold (at least two segments) and
    /// drops the window to one segment.
    pub fn tick_chirho(&mut self) -> (fired: bool)
        requires
            old(self).rto_ticks_chirho <= 0x7FFF_FFFF_FFFF_FFFF,
            old(self).retransmit_count_chirho < 0xFFFF_FFFF,
        ensures
            !old(self).timer_active_chirho ==> !fired && final(self).timer_remaining_chirho == old(self).timer_remaining_chirho,
            fired <==> old(self).timer_active_chirho && old(self).timer_remaining_chirho <= 1,
            fired ==> {
                &&& final(self).retransmit_count_chirho == old(self).retransmit_count_chirho + 1
                &&& final(self).rto_ticks_chirho == min_int(old(self).rto_ticks_chirho * 2, 12000)
                &&& final(self).timer_remaining_chirho == final(self).rto_ticks_chirho
                &&& final(self).ssthresh_chirho == max_int((old(self).cwnd_chirho / 2) as int, TCP_DEFAULT_MSS_CHIRHO as int * 2)
                &&& final(self).cwnd_chirho == TCP_DEFAULT_MSS_CHIRHO as u32
            },
            !fired ==> {
                &&& final(self).retransmit_count_chirho == old(self).retransmit_count_chirho
                &&& final(self).rto_ticks_chirho == old(self).rto_ticks_chirho
                &&& final(self).cwnd_chirho == old(self).cwnd_chirho
                &&& final(self).ssthresh_chirho == old(self).ssthresh_chirho
                &&& (old(self).timer_active_chirho ==> final(self).timer_remaining_chirho == old(self).timer_remaining_chirho - 1)
            },
            final(self).timer_active_chirho == old(self).timer_active_chirho,
            final(self).srtt_chirho == old(self).srtt_chirho,
            final(self).rttvar_chirho == old(self).rttvar_chirho,
            final(self).max_retransmits_chirho == old(self).max_retransmits_chirho,
            final(self).unacked_data_chirho@ == old(self).unacked_data_chirho@,
            final(self).unacked_seq_chirho == old(self).unacked_seq_chirho,
    {
        if !self.timer_active_chirho {
            return false;
        }
        if self.timer_remaining_chirho > 0 {
            self.timer_remaining_chirho = self.timer_remaining_chirho - 1;
        }
        if self.timer_remaining_chirho == 0 {
            self.retransmit_count_chirho = self.retransmit_count_chirho + 1;
            let doubled_chirho = self.rto_ticks_chirho * 2;
            self.rto_ticks_chirho = if doubled_chirho < 12000 { doubled_chirho } else { 12000 };
            self.timer_remaining_chirho = self.rto_ticks_chirho;
            let half_chirho = self.cwnd_chirho / 2;
            let floor_chirho = TCP_DEFAULT_MSS_CHIRHO as u32 * 2;
            self.ssthresh_chirho = if half_chirho > floor_chirho { half_chirho } else { floor_chirho };
            self.cwnd_chirho = TCP_DEFAULT_MSS_CHIRHO as u32;
            return true;
        }
        false
    }

    /// Grow the congestion window on an acknowledgment: by up to one segment
    /// in slow start, by MSS*MSS/cwnd (at least one byte) in congestion
    /// avoidance.
    pub fn on_ack_chirho(&mut self, bytes_acked_chirho: u32)
        requires
            old(self).cwnd_chirho as int + TCP_DEFAULT_MSS_CHIRHO as int * TCP_DEFAULT_MSS_CHIRHO as int <= 0xFFFF_FFFF,
        ensures
            final(self).cwnd_chirho == old(self).cwnd_chirho + (if old(self).cwnd_chirho < old(self).ssthresh_chirho {
                min_int(bytes_acked_chirho as int, TCP_DEFAULT_MSS_CHIRHO as int)
            } else {
                max_int((TCP_DEFAULT_MSS_CHIRHO as int * TCP_DEFAULT_MSS_CHIRHO as int) / max_int(old(self).cwnd_chirho as int, 1), 1)
            }),
            final(self).ssthresh_chirho == old(self).ssthresh_chirho,
            final(self).rto_ticks_chirho == old(self).rto_ticks_chirho,
            final(self).timer_active_chirho == old(self).timer_active_chirho,
            final(self).timer_remaining_chirho == old(self).timer_remaining_chirho,
            final(self).max_retransmits_chirho == old(self).max_retransmits_chirho,
            final(self).unacked_data_chirho@ == old(self).unacked_data_chirho@,
            final(self).unacked_seq_chirho == old(self).unacked_seq_chirho,
    {
        let mss_chirho = TCP_DEFAULT_MSS_CHIRHO as u32;
        if self.cwnd_chirho < self.ssthresh_chirho {
            let inc_chirho = if bytes_acked_chirho < mss_chirho { bytes_acked_chirho } else { mss_chirho };
            self.cwnd_chirho = self.cwnd_chirho + inc_chirho;
        } else {
            let denom_chirho = if self.cwnd_chirho > 1 { self.cwnd_chirho } else { 1 };
            let square_chirho: u32 = mss_chirho * mss_chirho;
            let increment_chirho = square_chirho / denom_chirho;
            assert(increment_chirho <= square_chirho) by (nonlinear_arith)
                requires increment_chirho == square_chirho / denom_chirho, denom_chirho >= 1;
            self.cwnd_chirho = self.cwnd_chirho + if increment_chirho > 1 { increment_chirho } else { 1 };
        }
    }

    /// The usable send window: the smaller of the congestion window and the
    /// peer's window.
    pub fn effective_window_chirho(&self, peer_wnd_chirho: u16) -> (r: u32)
        ensures
            r == min_int(self.cwnd_chirho as int, peer_wnd_chirho as int),
    {
        if self.cwnd_chirho < peer_wnd_chirho as u32 { self.cwnd_chirho } else { peer_wnd_chirho as u32 }
    }
}


/// Data received on an established connection (RFC 793, "SEGMENT
/// ARRIVES"): a segment carrying `len > 0` bytes, neither reset nor FIN,
/// whose sequence number is RCV.NXT moves RCV.NXT to `seq + len` (modulo
/// 2^32) and is answered by an ACK of that number; a segment whose sequence
/// number is not RCV.NXT leaves RCV.NXT as it was and is answered by an ACK
/// of the old RCV.NXT. The state stays ESTABLISHED either way.
pub proof fn lemma_established_data_acknowledged(t: TcpControlBlockChirho, flags: u8, seq: u32, ack: u32, window: u16,
    src_port: u16, len: int, local: u16, iss: u32)
    requires
        t.state_chirho == TcpStateChirho::EstablishedChirho,
        flags & TCP_RST_CHIRHO == 0,
        flags & TCP_FIN_CHIRHO == 0,
        0 < len < 0x1_0000_0000,
    ensures
        ({
            let (t2, reply) = tcp_step(t, flags, seq, ack, window, src_port, len, local, iss);
            let expected: int = if seq == t.rcv_nxt_chirho { (seq + len) % 0x1_0000_0000 } else { t.rcv_nxt_chirho as int };
            &&& t2.state_chirho == TcpStateChirho::EstablishedChirho
            &&& t2.rcv_nxt_chirho == expected
            &&& reply matches Some(r) && r.3 == expected && r.4 == TCP_ACK_CHIRHO && r.0 == local && r.1 == src_port
        }),
{
}

/// A reset moves a synchronized or half-open connection to CLOSED without an
/// answer; a CLOSED or LISTEN block ignores it.
pub proof fn lemma_rst_closes(t: TcpControlBlockChirho, flags: u8, seq: u32, ack: u32, window: u16, src_port: u16, len: int, local: u16, iss: u32)
    requires
        flags & TCP_RST_CHIRHO != 0,
    ensures
        tcp_step(t, flags, seq, ack, window, src_port, len, local, iss).1 is None,
        tcp_step(t, flags, seq, ack, window, src_port, len, local, iss).0 == (if t.state_chirho == TcpStateChirho::ClosedChirho
            || t.state_chirho == TcpStateChirho::ListenChirho {
            t
        } else {
            TcpControlBlockChirho { state_chirho: TcpStateChirho::ClosedChirho, ..t }
        }),
{
}

/// The three-way handshake: a client that opened actively with initial
/// sequence number `ic` and a listening server that picks `is` both reach
/// ESTABLISHED after SYN, SYN-ACK and ACK, each expecting the other's next
/// sequence number.
pub proof fn lemma_three_way_handshake(c: TcpControlBlockChirho, s: TcpControlBlockChirho, cp: u16, sp: u16, ic: u32, is: u32, unused_iss: u32)
    requires
        c.state_chirho == TcpStateChirho::ClosedChirho,
        s.state_chirho == TcpStateChirho::ListenChirho,
    ensures
        ({
            let c1 = TcpControlBlockChirho { iss_chirho: ic, snd_nxt_chirho: wadd(ic, 1), snd_una_chirho: ic,
                state_chirho: TcpStateChirho::SynSentChirho, ..c };
            let (s1, synack) = tcp_step(s, TCP_SYN_CHIRHO, ic, 0, c.rcv_wnd_chirho, cp, 0, sp, is);
            let sa = synack.unwrap();
            let (c2, ack) = tcp_step(c1, sa.4, sa.2, sa.3, sa.5, sa.0, 0, cp, unused_iss);
            let a = ack.unwrap();
            let (s2, none) = tcp_step(s1, a.4, a.2, a.3, a.5, a.0, 0, sp, unused_iss);
            &&& synack is Some && sa == (sp, cp, is, wadd(ic, 1), TCP_SYN_CHIRHO | TCP_ACK_CHIRHO, s.rcv_wnd_chirho)
            &&& ack is Some && a == (cp, sp, wadd(ic, 1), wadd(is, 1), TCP_ACK_CHIRHO, c.rcv_wnd_chirho)
            &&& none is None
            &&& c2.state_chirho == TcpStateChirho::EstablishedChirho
            &&& s2.state_chirho == TcpStateChirho::EstablishedChirho
            &&& c2.snd_nxt_chirho == s2.rcv_nxt_chirho
            &&& s2.snd_nxt_chirho == c2.rcv_nxt_chirho
        }),
{
    assert(TCP_SYN_CHIRHO & TCP_SYN_CHIRHO != 0 && TCP_SYN_CHIRHO & TCP_RST_CHIRHO == 0) by (bit_vector);
    let sa_flags: u8 = TCP_SYN_CHIRHO | TCP_ACK_CHIRHO;
    assert(sa_flags & TCP_SYN_CHIRHO != 0 && sa_flags & TCP_ACK_CHIRHO != 0 && sa_flags & TCP_RST_CHIRHO == 0
        && sa_flags & TCP_FIN_CHIRHO == 0) by (bit_vector)
        requires sa_flags == TCP_SYN_CHIRHO | TCP_ACK_CHIRHO;
    assert(TCP_ACK_CHIRHO & TCP_ACK_CHIRHO != 0 && TCP_ACK_CHIRHO & TCP_RST_CHIRHO == 0 && TCP_ACK_CHIRHO & TCP_SYN_CHIRHO == 0
        && TCP_ACK_CHIRHO & TCP_FIN_CHIRHO == 0) by (bit_vector);
}

} // verus!
