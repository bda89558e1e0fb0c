//! Decision logic of the holepuncher's serve loop.
//!
//! The loop around a deadline-armed receive lives outside; each received
//! message is handed to `handle_message`, which mutates the session registry
//! and says what to send and whether to return.  The dispatch table is fixed
//! by the spec functions `registry_after`, `replies_for` and `serve_stops`,
//! and the holepuncher's laws are proved of those.

use vstd::prelude::*;

use crate::bytes::copy_bytes;
use crate::messages::AddrModel;
use crate::messages::Message;
use crate::messages::MsgModel;
use crate::messages::PeerAddr;
use crate::messages::PeerInfoContents;
use crate::messages::RegisterAckContents;
use crate::messages::SessionNotFoundContents;
use crate::messages::is_loopback_addr;
use crate::messages::lemma_peer_addr_wf;
use crate::messages::wf_msg;
use crate::session_store::SessionStore;

verus! {

/// The registry after one message is processed: Register binds the sender's
/// address to the identifier it carries; nothing else touches the registry.
pub open spec fn registry_after(
    reg: Map<Seq<u8>, AddrModel>,
    m: MsgModel,
    src: AddrModel,
) -> Map<Seq<u8>, AddrModel> {
    match m {
        MsgModel::Register { id } => reg.insert(id, src),
        _ => reg,
    }
}

/// The replies one message draws, in order:
/// - HelloReq is answered with HelloResp to the sender;
/// - Register is acknowledged with RegisterAck to the sender;
/// - Join for a registered identifier is answered with PeerInfo of the
///   registered peer to the requester and PeerInfo of the requester to the
///   registered peer — the simultaneous exchange that opens both pinholes;
/// - Join for an unregistered identifier is answered with SessionNotFound to
///   the requester alone;
/// - everything else is dropped.
pub open spec fn replies_for(
    reg: Map<Seq<u8>, AddrModel>,
    m: MsgModel,
    src: AddrModel,
) -> Seq<(MsgModel, AddrModel)> {
    match m {
        MsgModel::HelloReq => seq![(MsgModel::HelloResp, src)],
        MsgModel::Register { id } => seq![(MsgModel::RegisterAck { id }, src)],
        MsgModel::Join { id } => if reg.contains_key(id) {
            seq![
                (MsgModel::PeerInfo { addr: reg[id] }, src),
                (MsgModel::PeerInfo { addr: src }, reg[id]),
            ]
        } else {
            seq![(MsgModel::SessionNotFound { id }, src)]
        },
        _ => Seq::empty(),
    }
}

/// Whether one message makes the serve loop return: a LocalInterrupt from a
/// loopback address, when interrupts are permitted.
pub open spec fn serve_stops(m: MsgModel, src: AddrModel, allow_interrupt: bool) -> bool {
    m is LocalInterrupt && allow_interrupt && is_loopback_addr(src)
}

/// The view of a reply list as pairs of message and destination models.
pub open spec fn pairs_view(v: Seq<(Message, PeerAddr)>) -> Seq<(MsgModel, AddrModel)> {
    v.map_values(|p: (Message, PeerAddr)| (p.0@, p.1@))
}

/// What the serve loop does after one received message.
pub enum HolepuncherReaction {
    /// Send these messages, each to its address, then keep serving.
    /// An empty list means the message was dropped.
    Send(Vec<(Message, PeerAddr)>),
    /// Return from serve.
    Stop,
}

/// Process one received message against the registry.
///
/// The registry changes exactly as `registry_after` says, the reaction is
/// `Stop` exactly when `serve_stops` says, and otherwise the replies are
/// exactly `replies_for` — all well formed for the wire whenever the received
/// message was.
pub fn handle_message(
    store: &mut SessionStore,
    msg: &Message,
    source: PeerAddr,
    allow_interrupt: bool,
) -> (r: HolepuncherReaction)
    requires
        old(store).wf(),
    ensures
        final(store).wf(),
        final(store)@ == registry_after(old(store)@, msg@, source@),
        r is Stop <==> serve_stops(msg@, source@, allow_interrupt),
        r matches HolepuncherReaction::Send(v) ==> pairs_view(v@) == replies_for(
            old(store)@,
            msg@,
            source@,
        ),
        r matches HolepuncherReaction::Send(v) ==> (wf_msg(msg@) ==> forall|i: int|
            0 <= i < v@.len() ==> wf_msg(#[trigger] v@[i].0@)),
{
    match msg {
        Message::HelloReq => {
            let mut v: Vec<(Message, PeerAddr)> = Vec::new();
            v.push((Message::HelloResp, source));
            proof {
                assert(pairs_view(v@) =~= replies_for(store@, msg@, source@));
            }
            HolepuncherReaction::Send(v)
        },
        Message::LocalInterrupt => {
            if allow_interrupt && source.is_loopback() {
                HolepuncherReaction::Stop
            } else {
                let v: Vec<(Message, PeerAddr)> = Vec::new();
                proof {
                    assert(pairs_view(v@) =~= replies_for(store@, msg@, source@));
                }
                HolepuncherReaction::Send(v)
            }
        },
        Message::Register(contents) => {
            let id_for_store = copy_bytes(contents.session_id.as_slice());
            store.insert(id_for_store, source);
            let ack_id = copy_bytes(contents.session_id.as_slice());
            let mut v: Vec<(Message, PeerAddr)> = Vec::new();
            v.push((Message::RegisterAck(RegisterAckContents { session_id: ack_id }), source));
            proof {
                assert(pairs_view(v@) =~= replies_for(old(store)@, msg@, source@));
            }
            HolepuncherReaction::Send(v)
        },
        Message::Join(contents) => {
            let mut v: Vec<(Message, PeerAddr)> = Vec::new();
            match store.get(contents.session_id.as_slice()) {
                Some(server) => {
                    v.push((Message::PeerInfo(PeerInfoContents { peer_addr: server }), source));
                    v.push((Message::PeerInfo(PeerInfoContents { peer_addr: source }), server));
                    proof {
                        lemma_peer_addr_wf(server);
                        lemma_peer_addr_wf(source);
                        assert(pairs_view(v@) =~= replies_for(store@, msg@, source@));
                    }
                },
                None => {
                    let id = copy_bytes(contents.session_id.as_slice());
                    v.push((Message::SessionNotFound(SessionNotFoundContents { session_id: id }),
                    source));
                    proof {
                        assert(pairs_view(v@) =~= replies_for(store@, msg@, source@));
                    }
                },
            }
            HolepuncherReaction::Send(v)
        },
        _ => {
            let v: Vec<(Message, PeerAddr)> = Vec::new();
            proof {
                assert(pairs_view(v@) =~= replies_for(store@, msg@, source@));
            }
            HolepuncherReaction::Send(v)
        },
    }
}

/// What the serve loop does before each receive.
#[derive(Clone, Copy, Debug, PartialEq, Eq)]
pub enum ServePlan {
    /// The caller-supplied duration has elapsed: return.
    Finish,
    /// Receive with this deadline, in milliseconds.
    Wait { timeout_ms: u64 },
    /// No duration was supplied: receive without a deadline.
    WaitUnbounded,
}

/// Decide, from the clock, whether serve is over and how long the next
/// receive may wait.
pub fn serve_plan(now_ms: u64, return_at_ms: Option<u64>) -> (r: ServePlan)
    ensures
        match return_at_ms {
            Some(ra) => if now_ms >= ra {
                r is Finish
            } else {
                r matches ServePlan::Wait { timeout_ms } && timeout_ms == ra - now_ms
            },
            None => r is WaitUnbounded,
        },
{
    match return_at_ms {
        Some(ra) => {
            if now_ms >= ra {
                ServePlan::Finish
            } else {
                ServePlan::Wait { timeout_ms: ra - now_ms }
            }
        },
        None => ServePlan::WaitUnbounded,
    }
}

/// Law: once an identifier is registered from address `s`, a Join for it
/// from any requester `c` is answered with PeerInfo(`s`) to `c` and
/// PeerInfo(`c`) to `s`.
pub proof fn lemma_register_then_join(
    reg: Map<Seq<u8>, AddrModel>,
    id: Seq<u8>,
    s: AddrModel,
    c: AddrModel,
)
    ensures
        replies_for(
            registry_after(reg, MsgModel::Register { id }, s),
            MsgModel::Join { id },
            c,
        ) == seq![(MsgModel::PeerInfo { addr: s }, c), (MsgModel::PeerInfo { addr: c }, s)],
{
}

/// Law: a Join for an unregistered identifier is answered with
/// SessionNotFound carrying that identifier, to the requester and to nobody
/// else; the registry is untouched.
pub proof fn lemma_join_unregistered(reg: Map<Seq<u8>, AddrModel>, id: Seq<u8>, c: AddrModel)
    requires
        !reg.contains_key(id),
    ensures
        replies_for(reg, MsgModel::Join { id }, c) == seq![(MsgModel::SessionNotFound { id }, c)],
        forall|i: int| 0 <= i < replies_for(reg, MsgModel::Join { id }, c).len()
            ==> replies_for(reg, MsgModel::Join { id }, c)[i].1 == c,
        registry_after(reg, MsgModel::Join { id }, c) == reg,
{
}

/// Law: a HelloReq from any source is answered with HelloResp to that source.
pub proof fn lemma_hello_req(reg: Map<Seq<u8>, AddrModel>, x: AddrModel)
    ensures
        replies_for(reg, MsgModel::HelloReq, x) == seq![(MsgModel::HelloResp, x)],
{
}

/// Law: a LocalInterrupt from a loopback address stops serve when interrupts
/// are permitted; from any other address, or when they are not, it is
/// dropped without reply and without touching the registry.
pub proof fn lemma_interrupt(
    reg: Map<Seq<u8>, AddrModel>,
    src: AddrModel,
    allow_interrupt: bool,
)
    ensures
        is_loopback_addr(src) && allow_interrupt ==> serve_stops(
            MsgModel::LocalInterrupt,
            src,
            allow_interrupt,
        ),
        !is_loopback_addr(src) ==> !serve_stops(MsgModel::LocalInterrupt, src, allow_interrupt),
        replies_for(reg, MsgModel::LocalInterrupt, src) == Seq::<(MsgModel, AddrModel)>::empty(),
        registry_after(reg, MsgModel::LocalInterrupt, src) == reg,
{
}

} // verus!
