//! Decision logic of the passive client.
//!
//! Construction performs the Join handshake in two phases.  Joining: send
//! Join to the holepuncher, retry no sooner than every `RETRY_INTERVAL_MS`;
//! a matching SessionNotFound fails construction, a PeerInfo from the
//! holepuncher starts the Hello phase.  Hello: send HelloReq to the peer,
//! up to `HELLO_RETRIES` sends spaced by `RETRY_INTERVAL_MS`; a HelloResp
//! from the peer completes the handshake, exhausting the sends falls back
//! to Joining.  Either phase fails once `HANDSHAKE_TIMEOUT_MS` has elapsed.
//! The steady state is the server's, except that the keepalive is a
//! HelloReq to the peer server, whose NAT pinhole must stay open.

use vstd::prelude::*;

use crate::bytes::bytes_eq;
use crate::bytes::copy_bytes;
use crate::messages::JoinContents;
use crate::messages::MAX_SESSION_ID_SIZE;
use crate::messages::Message;
use crate::messages::MsgModel;
use crate::messages::PeerAddr;
use crate::messages::wf_msg;
use crate::steady::HANDSHAKE_TIMEOUT_MS;
use crate::steady::HELLO_RETRIES;
use crate::steady::KEEPALIVE_INTERVAL_MS;
use crate::steady::RETRY_INTERVAL_MS;
use crate::steady::deadline_after;

verus! {

/// Which phase the client's handshake is in.
pub enum ClientPhase {
    /// Asking the holepuncher for the peer behind the session identifier.
    Joining,
    /// Exchanging Hello with the announced peer; `attempts` counts the
    /// HelloReq sends made so far in this phase.
    Helloing { peer: PeerAddr, next_hello_retry_at_ms: u64, attempts: u8 },
}

/// What the client's handshake loop does next.
#[derive(Clone, Copy, Debug, PartialEq, Eq)]
pub enum ClientPoll {
    /// The absolute deadline has passed: construction fails.
    TimedOut,
    /// The Join retry timer has expired: send Join again, then re-arm.
    ResendJoin,
    /// The Hello retry timer has expired: send HelloReq to the peer, then
    /// count and re-arm.
    ResendHello { to: PeerAddr },
    /// The Hello sends are exhausted: fall back to the Joining phase.
    BackToJoin,
    /// Wait for a response, with the per-receive deadline armed.
    Receive,
}

/// What a received message means for the client's handshake.
#[derive(Clone, Copy, Debug, PartialEq, Eq)]
pub enum ClientEvent {
    /// The holepuncher announced the peer: send it one HelloReq at once,
    /// then enter the Hello phase.
    PeerFound { peer: PeerAddr },
    /// The holepuncher does not know the session: construction fails.
    NotFound,
    /// The peer answered: the handshake is complete.
    Connected,
    /// Anything else is dropped and the loop continues.
    Ignore,
}

/// The in-flight Join + Hello handshake of a passive client.
pub struct JoinHandshake {
    pub session_id: Vec<u8>,
    pub holepuncher: PeerAddr,
    pub end_at_ms: u64,
    pub next_retry_at_ms: u64,
    pub phase: ClientPhase,
}

impl JoinHandshake {
    /// Well-formedness: the session identifier fits the wire.
    pub open spec fn wf(&self) -> bool {
        self.session_id@.len() <= MAX_SESSION_ID_SIZE
    }

    /// Begin the handshake at time `now_ms`: the state and the Join request
    /// to send at once.  Fails exactly when the session identifier cannot
    /// be put on the wire.
    pub fn start(holepuncher: PeerAddr, session_id: Vec<u8>, now_ms: u64) -> (r: Result<
        (Self, Message),
        (),
    >)
        ensures
            session_id@.len() <= MAX_SESSION_ID_SIZE <==> r is Ok,
            r matches Ok((hs, req)) ==> {
                &&& hs.wf()
                &&& hs.session_id@ == session_id@
                &&& hs.holepuncher@ == holepuncher@
                &&& hs.end_at_ms == deadline_after(now_ms, HANDSHAKE_TIMEOUT_MS)
                &&& hs.next_retry_at_ms == deadline_after(now_ms, RETRY_INTERVAL_MS)
                &&& hs.phase is Joining
                &&& req@ == (MsgModel::Join { id: session_id@ })
                &&& wf_msg(req@)
            },
    {
        if session_id.len() > MAX_SESSION_ID_SIZE {
            return Err(());
        }
        let req_id = copy_bytes(session_id.as_slice());
        let hs = Self {
            session_id,
            holepuncher,
            end_at_ms: now_ms.saturating_add(HANDSHAKE_TIMEOUT_MS),
            next_retry_at_ms: now_ms.saturating_add(RETRY_INTERVAL_MS),
            phase: ClientPhase::Joining,
        };
        Ok((hs, Message::Join(JoinContents { session_id: req_id })))
    }

    /// The Join request this handshake retries.
    pub fn request_message(&self) -> (m: Message)
        ensures
            m@ == (MsgModel::Join { id: self.session_id@ }),
            wf_msg(m@) <==> self.wf(),
    {
        Message::Join(JoinContents { session_id: copy_bytes(self.session_id.as_slice()) })
    }

    /// Decide, from the clock, what the handshake loop does next.
    ///
    /// In the Hello phase the exhausted send budget is observed first, as
    /// the fall-back to Joining; the absolute deadline is observed in either
    /// phase.
    pub fn poll(&self, now_ms: u64) -> (r: ClientPoll)
        ensures
            self.phase is Joining ==> {
                &&& (now_ms >= self.end_at_ms <==> r is TimedOut)
                &&& (now_ms < self.end_at_ms && now_ms > self.next_retry_at_ms <==> r
                    is ResendJoin)
                &&& (now_ms < self.end_at_ms && now_ms <= self.next_retry_at_ms <==> r
                    is Receive)
            },
            self.phase matches ClientPhase::Helloing { peer, next_hello_retry_at_ms, attempts }
                ==> {
                &&& (attempts >= HELLO_RETRIES <==> r is BackToJoin)
                &&& (attempts < HELLO_RETRIES && now_ms >= self.end_at_ms <==> r is TimedOut)
                &&& (attempts < HELLO_RETRIES && now_ms < self.end_at_ms && now_ms
                    >= next_hello_retry_at_ms ==> (r matches ClientPoll::ResendHello { to } && to@
                    == peer@))
                &&& (attempts < HELLO_RETRIES && now_ms < self.end_at_ms && now_ms
                    < next_hello_retry_at_ms <==> r is Receive)
            },
    {
        match &self.phase {
            ClientPhase::Joining => {
                if now_ms >= self.end_at_ms {
                    ClientPoll::TimedOut
                } else if now_ms > self.next_retry_at_ms {
                    ClientPoll::ResendJoin
                } else {
                    ClientPoll::Receive
                }
            },
            ClientPhase::Helloing { peer, next_hello_retry_at_ms, attempts } => {
                if *attempts >= HELLO_RETRIES {
                    ClientPoll::BackToJoin
                } else if now_ms >= self.end_at_ms {
                    ClientPoll::TimedOut
                } else if now_ms >= *next_hello_retry_at_ms {
                    ClientPoll::ResendHello { to: *peer }
                } else {
                    ClientPoll::Receive
                }
            },
        }
    }

    /// Re-arm the Join retry timer after a resend at time `now_ms`.
    pub fn retry_sent(&mut self, now_ms: u64)
        ensures
            final(self).next_retry_at_ms == deadline_after(now_ms, RETRY_INTERVAL_MS),
            final(self).session_id == old(self).session_id,
            final(self).holepuncher == old(self).holepuncher,
            final(self).end_at_ms == old(self).end_at_ms,
            final(self).phase == old(self).phase,
    {
        self.next_retry_at_ms = now_ms.saturating_add(RETRY_INTERVAL_MS);
    }

    /// What one received message means, by phase.
    ///
    /// Joining: a PeerInfo from the holepuncher announces the peer; a
    /// SessionNotFound carrying exactly our identifier fails construction;
    /// everything else — including either message from a wrong source or
    /// with a wrong identifier — is dropped.  Hello: a HelloResp from the
    /// announced peer completes the handshake; everything else is dropped.
    pub fn on_message(&self, msg: &Message, source: PeerAddr) -> (r: ClientEvent)
        ensures
            self.phase is Joining ==> {
                &&& (msg@ matches MsgModel::PeerInfo { addr } ==> if source@
                    == self.holepuncher@ {
                    r matches ClientEvent::PeerFound { peer } && peer@ == addr
                } else {
                    r is Ignore
                })
                &&& (r is PeerFound ==> msg@ is PeerInfo && source@ == self.holepuncher@)
                &&& (msg@ matches MsgModel::SessionNotFound { id } && id == self.session_id@
                    <==> r is NotFound)
                &&& r !is Connected
            },
            self.phase matches ClientPhase::Helloing { peer, .. } ==> {
                &&& (msg@ is HelloResp && source@ == peer@ <==> r is Connected)
                &&& r !is PeerFound
                &&& r !is NotFound
            },
    {
        match &self.phase {
            ClientPhase::Joining => {
                match msg {
                    Message::PeerInfo(contents) => {
                        if source.eq_addr(&self.holepuncher) {
                            ClientEvent::PeerFound { peer: contents.peer_addr }
                        } else {
                            ClientEvent::Ignore
                        }
                    },
                    Message::SessionNotFound(contents) => {
                        if bytes_eq(contents.session_id.as_slice(), self.session_id.as_slice()) {
                            ClientEvent::NotFound
                        } else {
                            ClientEvent::Ignore
                        }
                    },
                    _ => ClientEvent::Ignore,
                }
            },
            ClientPhase::Helloing { peer, .. } => {
                match msg {
                    Message::HelloResp => {
                        if source.eq_addr(peer) {
                            ClientEvent::Connected
                        } else {
                            ClientEvent::Ignore
                        }
                    },
                    _ => ClientEvent::Ignore,
                }
            },
        }
    }

    /// Enter the Hello phase after the first HelloReq was sent to the
    /// announced peer at time `now_ms`.
    pub fn enter_hello(&mut self, peer: PeerAddr, now_ms: u64)
        ensures
            final(self).phase matches ClientPhase::Helloing {
                peer: p,
                next_hello_retry_at_ms,
                attempts,
            } && p == peer && next_hello_retry_at_ms == deadline_after(now_ms, RETRY_INTERVAL_MS)
                && attempts == 1,
            final(self).session_id == old(self).session_id,
            final(self).holepuncher == old(self).holepuncher,
            final(self).end_at_ms == old(self).end_at_ms,
            final(self).next_retry_at_ms == old(self).next_retry_at_ms,
    {
        self.phase = ClientPhase::Helloing {
            peer,
            next_hello_retry_at_ms: now_ms.saturating_add(RETRY_INTERVAL_MS),
            attempts: 1,
        };
    }

    /// Count a further HelloReq sent at time `now_ms` and re-arm its timer.
    pub fn hello_resent(&mut self, now_ms: u64)
        requires
            old(self).phase matches ClientPhase::Helloing { attempts, .. } && attempts
                < HELLO_RETRIES,
        ensures
            final(self).phase matches ClientPhase::Helloing {
                peer,
                next_hello_retry_at_ms,
                attempts,
            } && old(self).phase matches ClientPhase::Helloing {
                peer: old_peer,
                attempts: old_attempts,
                ..
            } && peer == old_peer && next_hello_retry_at_ms == deadline_after(
                now_ms,
                RETRY_INTERVAL_MS,
            ) && attempts == old_attempts + 1,
            final(self).session_id == old(self).session_id,
            final(self).holepuncher == old(self).holepuncher,
            final(self).end_at_ms == old(self).end_at_ms,
            final(self).next_retry_at_ms == old(self).next_retry_at_ms,
    {
        if let ClientPhase::Helloing { peer, attempts, .. } = &self.phase {
            self.phase = ClientPhase::Helloing {
                peer: *peer,
                next_hello_retry_at_ms: now_ms.saturating_add(RETRY_INTERVAL_MS),
                attempts: *attempts + 1,
            };
        }
    }

    /// Fall back to the Joining phase: the holepuncher may announce the
    /// peer afresh.
    pub fn back_to_join(&mut self)
        ensures
            final(self).phase is Joining,
            final(self).session_id == old(self).session_id,
            final(self).holepuncher == old(self).holepuncher,
            final(self).end_at_ms == old(self).end_at_ms,
            final(self).next_retry_at_ms == old(self).next_retry_at_ms,
    {
        self.phase = ClientPhase::Joining;
    }

    /// Conclude the successful handshake at time `now_ms`: the steady-state
    /// core, connected to the announced peer, with the first keepalive due
    /// one interval from now.
    pub fn finish(self, now_ms: u64) -> (core: ClientCore)
        requires
            self.phase matches ClientPhase::Helloing { .. },
        ensures
            self.phase matches ClientPhase::Helloing { peer, .. } ==> core.server@ == peer@,
            core.holepuncher@ == self.holepuncher@,
            core.keepalive_interval_ms == KEEPALIVE_INTERVAL_MS,
            core.next_keepalive_at_ms == deadline_after(now_ms, KEEPALIVE_INTERVAL_MS),
    {
        let peer = match self.phase {
            ClientPhase::Helloing { peer, .. } => peer,
            ClientPhase::Joining => self.holepuncher,
        };
        ClientCore {
            holepuncher: self.holepuncher,
            server: peer,
            keepalive_interval_ms: KEEPALIVE_INTERVAL_MS,
            next_keepalive_at_ms: now_ms.saturating_add(KEEPALIVE_INTERVAL_MS),
        }
    }
}

/// The steady-state core of a passive client: its holepuncher, the server
/// it is connected to, and the keepalive timer.
pub struct ClientCore {
    pub holepuncher: PeerAddr,
    pub server: PeerAddr,
    pub keepalive_interval_ms: u64,
    pub next_keepalive_at_ms: u64,
}

impl ClientCore {
    /// The address of the server this client is connected to.
    pub fn get_server(&self) -> (r: PeerAddr)
        ensures
            r == self.server,
    {
        self.server
    }

    /// The client's keepalive: a HelloReq to the peer server, whose NAT
    /// pinhole — not the holepuncher's — must stay open.
    pub fn keepalive_message(&self) -> (m: Message)
        ensures
            m@ == MsgModel::HelloReq,
            wf_msg(m@),
    {
        Message::HelloReq
    }

    /// Re-arm the keepalive timer after a keepalive sent at time `now_ms`.
    pub fn keepalive_sent(&mut self, now_ms: u64)
        ensures
            final(self).next_keepalive_at_ms == deadline_after(
                now_ms,
                old(self).keepalive_interval_ms,
            ),
            final(self).holepuncher == old(self).holepuncher,
            final(self).server == old(self).server,
            final(self).keepalive_interval_ms == old(self).keepalive_interval_ms,
    {
        self.next_keepalive_at_ms = now_ms.saturating_add(self.keepalive_interval_ms);
    }
}

} // verus!
