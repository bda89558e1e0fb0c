//! Decision logic of the passive server.
//!
//! Construction performs the Register handshake: send Register, retry no
//! sooner than every `RETRY_INTERVAL_MS`, succeed on a matching RegisterAck
//! from the holepuncher, give up at `HANDSHAKE_TIMEOUT_MS`.  The steady
//! state answers hole-punch traffic and refreshes the registration every
//! `KEEPALIVE_INTERVAL_MS`.  The loops and the socket live outside; every
//! decision is made here.

use vstd::prelude::*;

use crate::bytes::copy_bytes;
use crate::messages::MAX_SESSION_ID_SIZE;
use crate::messages::Message;
use crate::messages::MsgModel;
use crate::messages::PeerAddr;
use crate::messages::RegisterContents;
use crate::messages::wf_msg;
use crate::steady::HANDSHAKE_TIMEOUT_MS;
use crate::steady::KEEPALIVE_INTERVAL_MS;
use crate::steady::RETRY_INTERVAL_MS;
use crate::steady::deadline_after;

verus! {

/// What the registration loop does next.
#[derive(Clone, Copy, Debug, PartialEq, Eq)]
pub enum HandshakePoll {
    /// The absolute deadline has passed: construction fails.
    TimedOut,
    /// The retry timer has expired: send the request again, then re-arm.
    Resend,
    /// Wait for a response, with the per-receive deadline armed.
    Receive,
}

/// The in-flight Register handshake of a passive server.
pub struct RegisterHandshake {
    pub session_id: Vec<u8>,
    pub holepuncher: PeerAddr,
    pub end_at_ms: u64,
    pub next_retry_at_ms: u64,
}

impl RegisterHandshake {
    /// Well-formedness: the session identifier fits the wire.
    pub open spec fn wf(&self) -> bool {
        self.session_id@.len() <= MAX_SESSION_ID_SIZE
    }

    /// Begin the handshake at time `now_ms`: the state and the Register
    /// request to send at once.  Fails exactly when the session identifier
    /// cannot be put on the wire.
    pub fn start(holepuncher: PeerAddr, session_id: Vec<u8>, now_ms: u64) -> (r: Result<
        (Self, Message),
        (),
    >)
        ensures
            session_id@.len() <= MAX_SESSION_ID_SIZE <==> r is Ok,
            r matches Ok((hs, req)) ==> {
                &&& hs.wf()
                &&& hs.session_id@ == session_id@
                &&& hs.holepuncher@ == holepuncher@
                &&& hs.end_at_ms == deadline_after(now_ms, HANDSHAKE_TIMEOUT_MS)
                &&& hs.next_retry_at_ms == deadline_after(now_ms, RETRY_INTERVAL_MS)
                &&& req@ == (MsgModel::Register { id: session_id@ })
                &&& wf_msg(req@)
            },
    {
        if session_id.len() > MAX_SESSION_ID_SIZE {
            return Err(());
        }
        let req_id = copy_bytes(session_id.as_slice());
        let hs = Self {
            session_id,
            holepuncher,
            end_at_ms: now_ms.saturating_add(HANDSHAKE_TIMEOUT_MS),
            next_retry_at_ms: now_ms.saturating_add(RETRY_INTERVAL_MS),
        };
        Ok((hs, Message::Register(RegisterContents { session_id: req_id })))
    }

    /// The Register request this handshake retries.
    pub fn request_message(&self) -> (m: Message)
        ensures
            m@ == (MsgModel::Register { id: self.session_id@ }),
            wf_msg(m@) <==> self.wf(),
    {
        Message::Register(RegisterContents { session_id: copy_bytes(self.session_id.as_slice()) })
    }

    /// Decide, from the clock, what the registration loop does next.
    pub fn poll(&self, now_ms: u64) -> (r: HandshakePoll)
        ensures
            now_ms >= self.end_at_ms <==> r is TimedOut,
            now_ms < self.end_at_ms && now_ms > self.next_retry_at_ms <==> r is Resend,
            now_ms < self.end_at_ms && now_ms <= self.next_retry_at_ms <==> r is Receive,
    {
        if now_ms >= self.end_at_ms {
            HandshakePoll::TimedOut
        } else if now_ms > self.next_retry_at_ms {
            HandshakePoll::Resend
        } else {
            HandshakePoll::Receive
        }
    }

    /// Re-arm the retry timer after a resend at time `now_ms`.
    pub fn retry_sent(&mut self, now_ms: u64)
        ensures
            final(self).next_retry_at_ms == deadline_after(now_ms, RETRY_INTERVAL_MS),
            final(self).session_id == old(self).session_id,
            final(self).holepuncher == old(self).holepuncher,
            final(self).end_at_ms == old(self).end_at_ms,
    {
        self.next_retry_at_ms = now_ms.saturating_add(RETRY_INTERVAL_MS);
    }

    /// Whether a received message completes the handshake: a RegisterAck
    /// carrying exactly our session identifier, from the holepuncher itself.
    /// Everything else is ignored and the loop continues.
    pub fn accepts(&self, msg: &Message, source: PeerAddr) -> (r: bool)
        ensures
            r <==> (msg@ matches MsgModel::RegisterAck { id } && id == self.session_id@
                && source@ == self.holepuncher@),
    {
        if let Message::RegisterAck(contents) = msg {
            if !source.eq_addr(&self.holepuncher) {
                return false;
            }
            crate::bytes::bytes_eq(contents.session_id.as_slice(), self.session_id.as_slice())
        } else {
            false
        }
    }

    /// Conclude the successful handshake at time `now_ms`: the steady-state
    /// core, with the first keepalive due one interval from now.
    pub fn finish(self, now_ms: u64) -> (core: ServerCore)
        ensures
            core.wf() <==> self.wf(),
            core.session_id@ == self.session_id@,
            core.holepuncher@ == self.holepuncher@,
            core.keepalive_interval_ms == KEEPALIVE_INTERVAL_MS,
            core.next_keepalive_at_ms == deadline_after(now_ms, KEEPALIVE_INTERVAL_MS),
    {
        ServerCore {
            session_id: self.session_id,
            holepuncher: self.holepuncher,
            keepalive_interval_ms: KEEPALIVE_INTERVAL_MS,
            next_keepalive_at_ms: now_ms.saturating_add(KEEPALIVE_INTERVAL_MS),
        }
    }
}

/// The steady-state core of a passive server: its session, its holepuncher,
/// and the keepalive timer.
pub struct ServerCore {
    pub session_id: Vec<u8>,
    pub holepuncher: PeerAddr,
    pub keepalive_interval_ms: u64,
    pub next_keepalive_at_ms: u64,
}

impl ServerCore {
    /// Well-formedness: the session identifier fits the wire.
    pub open spec fn wf(&self) -> bool {
        self.session_id@.len() <= MAX_SESSION_ID_SIZE
    }

    /// The server's keepalive: a fresh Register for its session, which both
    /// refreshes the holepuncher's registry entry and keeps the NAT mapping
    /// toward the holepuncher alive.  It is sent to `self.holepuncher`.
    pub fn keepalive_message(&self) -> (m: Message)
        ensures
            m@ == (MsgModel::Register { id: self.session_id@ }),
            wf_msg(m@) <==> self.wf(),
    {
        Message::Register(RegisterContents { session_id: copy_bytes(self.session_id.as_slice()) })
    }

    /// Re-arm the keepalive timer after a keepalive sent at time `now_ms`.
    pub fn keepalive_sent(&mut self, now_ms: u64)
        ensures
            final(self).next_keepalive_at_ms == deadline_after(
                now_ms,
                old(self).keepalive_interval_ms,
            ),
            final(self).session_id == old(self).session_id,
            final(self).holepuncher == old(self).holepuncher,
            final(self).keepalive_interval_ms == old(self).keepalive_interval_ms,
    {
        self.next_keepalive_at_ms = now_ms.saturating_add(self.keepalive_interval_ms);
    }
}

} // verus!
