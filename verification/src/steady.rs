//! The steady-state scheduler shared by the passive server and the passive
//! client.
//!
//! Both roles serve messages in a loop around one deadline-armed receive,
//! multiplexing two timers: a periodic keepalive and an optional
//! caller-supplied return deadline.  `wait_plan` decides what the loop does
//! next; `wait_reaction` decides what a received message draws.  Time is a
//! millisecond count on a monotonic clock the caller reads.

use vstd::prelude::*;

use crate::messages::AddrModel;
use crate::messages::Message;
use crate::messages::MsgModel;
use crate::messages::PeerAddr;
use crate::messages::is_loopback_addr;

verus! {

/// Absolute handshake deadline, from the start of construction.
pub const HANDSHAKE_TIMEOUT_MS: u64 = 10_000;

/// Per-receive deadline during a handshake.
pub const HANDSHAKE_RECV_TIMEOUT_MS: u64 = 500;

/// Minimum interval between two sends of the same request.
pub const RETRY_INTERVAL_MS: u64 = 400;

/// How many HelloReq sends a client attempts before retrying the Join.
pub const HELLO_RETRIES: u8 = 3;

/// Steady-state keepalive interval.
pub const KEEPALIVE_INTERVAL_MS: u64 = 10_000;

/// The moment a timer re-armed at `now` next fires, clamped to the clock's
/// range.
pub open spec fn deadline_after(now: u64, interval: u64) -> u64 {
    if now + interval > u64::MAX {
        u64::MAX
    } else {
        (now + interval) as u64
    }
}

/// The earlier of the keepalive timer and the return deadline, if any.
pub open spec fn next_wakeup(next_keepalive_at: u64, return_at: Option<u64>) -> u64 {
    match return_at {
        Some(ra) => if ra > next_keepalive_at {
            next_keepalive_at
        } else {
            ra
        },
        None => next_keepalive_at,
    }
}

/// What the steady-state loop does before its next receive.
#[derive(Clone, Copy, Debug, PartialEq, Eq)]
pub enum WaitPlan {
    /// The keepalive timer has expired: send the role's keepalive, re-arm
    /// the timer, and plan again.
    SendKeepalive,
    /// The caller-supplied deadline has passed: return without data.
    ReturnNoData,
    /// The next wakeup is already due: plan again off a fresh clock reading.
    Retry,
    /// Receive with this deadline, in milliseconds.
    Wait { timeout_ms: u64 },
}

/// Decide, from the clock and the two timers, what the loop does next.
///
/// The expired keepalive is serviced first, then the return deadline; an
/// armed receive never waits past either timer.
pub fn wait_plan(now_ms: u64, next_keepalive_at_ms: u64, return_at_ms: Option<u64>) -> (r:
    WaitPlan)
    ensures
        now_ms > next_keepalive_at_ms <==> r is SendKeepalive,
        now_ms <= next_keepalive_at_ms && (return_at_ms matches Some(ra) && now_ms > ra) <==> r
            is ReturnNoData,
        ({
            let wake = next_wakeup(next_keepalive_at_ms, return_at_ms);
            &&& (r is Retry <==> now_ms <= next_keepalive_at_ms && !(
            return_at_ms matches Some(ra) && now_ms > ra) && wake <= now_ms)
            &&& (r matches WaitPlan::Wait { timeout_ms } ==> wake > now_ms && timeout_ms == wake
                - now_ms)
            &&& (now_ms <= next_keepalive_at_ms && !(return_at_ms matches Some(ra) && now_ms
                > ra) && wake > now_ms ==> r is Wait)
        }),
{
    if now_ms > next_keepalive_at_ms {
        return WaitPlan::SendKeepalive;
    }
    if let Some(ra) = return_at_ms {
        if now_ms > ra {
            return WaitPlan::ReturnNoData;
        }
    }
    let wake: u64 = match return_at_ms {
        Some(ra) => if ra > next_keepalive_at_ms {
            next_keepalive_at_ms
        } else {
            ra
        },
        None => next_keepalive_at_ms,
    };
    if wake <= now_ms {
        WaitPlan::Retry
    } else {
        WaitPlan::Wait { timeout_ms: wake - now_ms }
    }
}

/// What a received message draws in the steady state.
#[derive(Clone, Copy, Debug, PartialEq, Eq)]
pub enum WaitReaction {
    /// Answer a HelloReq: send HelloResp back to the sender.
    ReplyHelloResp { to: PeerAddr },
    /// The holepuncher announced a joining peer: send it one HelloReq.
    SendHelloReq { to: PeerAddr },
    /// A Data message arrived: hand its payload and source to the caller.
    DeliverData,
    /// A permitted LocalInterrupt from loopback: return without data.
    ReturnInterrupted,
    /// Anything else is dropped.
    Ignore,
}

/// Decide what one received message draws in the steady state.
///
/// HelloReq is answered to its sender; PeerInfo is acted on only when the
/// holepuncher sent it; Data is delivered whoever sent it; LocalInterrupt
/// returns only when permitted and from loopback; all else is dropped.
pub fn wait_reaction(
    msg: &Message,
    source: PeerAddr,
    holepuncher: PeerAddr,
    allow_interrupt: bool,
) -> (r: WaitReaction)
    ensures
        msg@ is HelloReq ==> (r matches WaitReaction::ReplyHelloResp { to } && to@ == source@),
        msg@ matches MsgModel::PeerInfo { addr } ==> if source@ == holepuncher@ {
            r matches WaitReaction::SendHelloReq { to } && to@ == addr
        } else {
            r is Ignore
        },
        msg@ is Data <==> r is DeliverData,
        msg@ is LocalInterrupt && allow_interrupt && is_loopback_addr(source@) <==> r
            is ReturnInterrupted,
        msg@ is LocalInterrupt && !(allow_interrupt && is_loopback_addr(source@)) ==> r is Ignore,
        msg@ is Register || msg@ is Join || msg@ is RegisterAck || msg@ is SessionNotFound || msg@
            is HelloResp ==> r is Ignore,
{
    match msg {
        Message::HelloReq => WaitReaction::ReplyHelloResp { to: source },
        Message::PeerInfo(contents) => {
            if source.eq_addr(&holepuncher) {
                WaitReaction::SendHelloReq { to: contents.peer_addr }
            } else {
                WaitReaction::Ignore
            }
        },
        Message::Data(_) => WaitReaction::DeliverData,
        Message::LocalInterrupt => {
            if allow_interrupt && source.is_loopback() {
                WaitReaction::ReturnInterrupted
            } else {
                WaitReaction::Ignore
            }
        },
        _ => WaitReaction::Ignore,
    }
}

/// Law: an armed receive never waits past the return deadline, so the loop
/// observes an elapsed deadline at its next turn.
pub proof fn lemma_wait_bounded(next_keepalive_at_ms: u64, return_at_ms: Option<u64>)
    ensures
        next_wakeup(next_keepalive_at_ms, return_at_ms) <= next_keepalive_at_ms,
        return_at_ms matches Some(ra) ==> next_wakeup(next_keepalive_at_ms, return_at_ms) <= ra,
{
}

} // verus!
