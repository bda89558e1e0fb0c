use holepunch::client::ClientEvent;
use holepunch::client::ClientPoll;
use holepunch::client::JoinHandshake;
use holepunch::holepuncher::HolepuncherReaction;
use holepunch::holepuncher::handle_message;
use holepunch::messages::Message;
use holepunch::messages::PeerAddr;
use holepunch::messages::RegisterAckContents;
use holepunch::messages::RegisterContents;
use holepunch::messages::JoinContents;
use holepunch::messages::SessionNotFoundContents;
use holepunch::server::HandshakePoll;
use holepunch::server::RegisterHandshake;
use holepunch::session_store::SessionStore;
use holepunch::steady::WaitReaction;
use holepunch::steady::wait_reaction;

fn addr(last: u8, port: u16) -> PeerAddr {
    PeerAddr::V4 { octets: [127, 0, 0, last], port }
}

fn replies(r: HolepuncherReaction) -> Vec<(Message, PeerAddr)> {
    match r {
        HolepuncherReaction::Send(v) => v,
        HolepuncherReaction::Stop => panic!("expected replies, got stop"),
    }
}

#[test]
fn server_handshake_request_and_timers() {
    let hp = addr(1, 1000);
    let (hs, req) = RegisterHandshake::start(hp, b"abc".to_vec(), 100).unwrap();
    assert_eq!(req, Message::Register(RegisterContents { session_id: b"abc".to_vec() }));
    assert_eq!(hs.end_at_ms, 10_100);
    assert_eq!(hs.next_retry_at_ms, 500);
    assert_eq!(hs.request_message(), req);
}

#[test]
fn server_handshake_rejects_oversized_id() {
    let hp = addr(1, 1000);
    assert!(RegisterHandshake::start(hp, vec![0u8; 21], 0).is_err());
    assert!(RegisterHandshake::start(hp, vec![0u8; 20], 0).is_ok());
}

#[test]
fn server_handshake_poll_schedule() {
    let hp = addr(1, 1000);
    let (mut hs, _req) = RegisterHandshake::start(hp, b"abc".to_vec(), 0).unwrap();
    // Before the retry timer: receive.
    assert_eq!(hs.poll(100), HandshakePoll::Receive);
    assert_eq!(hs.poll(400), HandshakePoll::Receive);
    // After it: resend, then the timer is re-armed.
    assert_eq!(hs.poll(401), HandshakePoll::Resend);
    hs.retry_sent(450);
    assert_eq!(hs.poll(700), HandshakePoll::Receive);
    assert_eq!(hs.poll(851), HandshakePoll::Resend);
    // At the absolute deadline: construction fails.
    assert_eq!(hs.poll(10_000), HandshakePoll::TimedOut);
}

#[test]
fn server_handshake_accepts_only_matching_ack_from_holepuncher() {
    let hp = addr(1, 1000);
    let stranger = addr(2, 2000);
    let (hs, _req) = RegisterHandshake::start(hp, b"abc".to_vec(), 0).unwrap();
    let good = Message::RegisterAck(RegisterAckContents { session_id: b"abc".to_vec() });
    let wrong_id = Message::RegisterAck(RegisterAckContents { session_id: b"abd".to_vec() });
    assert!(hs.accepts(&good, hp));
    assert!(!hs.accepts(&good, stranger));
    assert!(!hs.accepts(&wrong_id, hp));
    assert!(!hs.accepts(&Message::HelloResp, hp));
}

#[test]
fn server_handshake_finish_arms_keepalive() {
    let hp = addr(1, 1000);
    let (hs, _req) = RegisterHandshake::start(hp, b"abc".to_vec(), 0).unwrap();
    let core = hs.finish(2_000);
    assert_eq!(core.next_keepalive_at_ms, 12_000);
    assert_eq!(core.session_id, b"abc".to_vec());
    assert_eq!(core.holepuncher, hp);
}

#[test]
fn client_handshake_request_and_rejection() {
    let hp = addr(1, 1000);
    let (hs, req) = JoinHandshake::start(hp, b"abc".to_vec(), 0).unwrap();
    assert_eq!(req, Message::Join(JoinContents { session_id: b"abc".to_vec() }));
    assert_eq!(hs.request_message(), req);
    assert!(JoinHandshake::start(hp, vec![0u8; 21], 0).is_err());
}

#[test]
fn client_join_poll_schedule() {
    let hp = addr(1, 1000);
    let (mut hs, _req) = JoinHandshake::start(hp, b"abc".to_vec(), 0).unwrap();
    assert_eq!(hs.poll(100), ClientPoll::Receive);
    assert_eq!(hs.poll(401), ClientPoll::ResendJoin);
    hs.retry_sent(450);
    assert_eq!(hs.poll(700), ClientPoll::Receive);
    // The absolute deadline fails construction: the handshake timed out.
    assert_eq!(hs.poll(10_000), ClientPoll::TimedOut);
    assert_eq!(hs.poll(20_000), ClientPoll::TimedOut);
}

#[test]
fn client_join_events() {
    let hp = addr(1, 1000);
    let stranger = addr(2, 2000);
    let peer = addr(3, 3000);
    let (hs, _req) = JoinHandshake::start(hp, b"abc".to_vec(), 0).unwrap();
    // PeerInfo from the holepuncher announces the peer.
    let pi = Message::PeerInfo(holepunch::messages::PeerInfoContents { peer_addr: peer });
    assert_eq!(hs.on_message(&pi, hp), ClientEvent::PeerFound { peer });
    // From anybody else it is dropped.
    assert_eq!(hs.on_message(&pi, stranger), ClientEvent::Ignore);
    // A matching SessionNotFound fails construction.
    let nf = Message::SessionNotFound(SessionNotFoundContents { session_id: b"abc".to_vec() });
    assert_eq!(hs.on_message(&nf, hp), ClientEvent::NotFound);
    // One with a different identifier is dropped.
    let nf_other = Message::SessionNotFound(SessionNotFoundContents {
        session_id: b"xyz".to_vec(),
    });
    assert_eq!(hs.on_message(&nf_other, hp), ClientEvent::Ignore);
    // Unrelated messages are dropped.
    assert_eq!(hs.on_message(&Message::HelloResp, hp), ClientEvent::Ignore);
}

#[test]
fn client_hello_phase_retries_then_falls_back() {
    let hp = addr(1, 1000);
    let peer = addr(3, 3000);
    let (mut hs, _req) = JoinHandshake::start(hp, b"abc".to_vec(), 0).unwrap();
    hs.enter_hello(peer, 1_000);
    // Before the hello timer: receive.
    assert_eq!(hs.poll(1_100), ClientPoll::Receive);
    // At the timer: resend to the peer.
    assert_eq!(hs.poll(1_400), ClientPoll::ResendHello { to: peer });
    hs.hello_resent(1_400);
    assert_eq!(hs.poll(1_500), ClientPoll::Receive);
    assert_eq!(hs.poll(1_800), ClientPoll::ResendHello { to: peer });
    hs.hello_resent(1_800);
    // Three sends made: the budget is exhausted, fall back to Joining.
    assert_eq!(hs.poll(2_200), ClientPoll::BackToJoin);
    hs.back_to_join();
    assert_eq!(hs.poll(9_999), ClientPoll::ResendJoin);
    assert_eq!(hs.poll(10_000), ClientPoll::TimedOut);
}

#[test]
fn client_hello_phase_times_out_at_deadline() {
    let hp = addr(1, 1000);
    let peer = addr(3, 3000);
    let (mut hs, _req) = JoinHandshake::start(hp, b"abc".to_vec(), 0).unwrap();
    hs.enter_hello(peer, 9_900);
    assert_eq!(hs.poll(10_000), ClientPoll::TimedOut);
}

#[test]
fn client_hello_events() {
    let hp = addr(1, 1000);
    let peer = addr(3, 3000);
    let stranger = addr(4, 4000);
    let (mut hs, _req) = JoinHandshake::start(hp, b"abc".to_vec(), 0).unwrap();
    hs.enter_hello(peer, 1_000);
    // HelloResp from the peer completes the handshake.
    assert_eq!(hs.on_message(&Message::HelloResp, peer), ClientEvent::Connected);
    // From anybody else it is dropped.
    assert_eq!(hs.on_message(&Message::HelloResp, stranger), ClientEvent::Ignore);
    // Other messages are dropped in this phase.
    let nf = Message::SessionNotFound(SessionNotFoundContents { session_id: b"abc".to_vec() });
    assert_eq!(hs.on_message(&nf, hp), ClientEvent::Ignore);
}

#[test]
fn client_finish_connects_to_peer() {
    let hp = addr(1, 1000);
    let peer = addr(3, 3000);
    let (mut hs, _req) = JoinHandshake::start(hp, b"abc".to_vec(), 0).unwrap();
    hs.enter_hello(peer, 1_000);
    let core = hs.finish(1_500);
    assert_eq!(core.get_server(), peer);
    assert_eq!(core.holepuncher, hp);
    assert_eq!(core.next_keepalive_at_ms, 11_500);
    assert_eq!(core.keepalive_message(), Message::HelloReq);
}

#[test]
fn happy_rendezvous_decisions() {
    // The whole rendezvous, at the level of the decisions each party makes;
    // the sockets that carry the datagrams live outside the library.
    let hp = addr(1, 4100);
    let server_addr = addr(1, 4200);
    let client_addr = addr(1, 4300);

    // The server registers session "abc" with the holepuncher.
    let (server_hs, server_req) = RegisterHandshake::start(hp, b"abc".to_vec(), 0).unwrap();
    let mut store = SessionStore::new();
    let acks = replies(handle_message(&mut store, &server_req, server_addr, true));
    assert_eq!(acks[0].1, server_addr);
    // The ack arrives at the server from the holepuncher.
    assert!(server_hs.accepts(&acks[0].0, hp));
    let mut server_core = server_hs.finish(10);

    // The client joins the same session.
    let (mut client_hs, client_req) = JoinHandshake::start(hp, b"abc".to_vec(), 20).unwrap();
    let infos = replies(handle_message(&mut store, &client_req, client_addr, true));
    assert_eq!(infos.len(), 2);

    // The holepuncher's answer to the client announces the server.
    let (to_client, dest_client) = &infos[0];
    assert_eq!(*dest_client, client_addr);
    let event = client_hs.on_message(to_client, hp);
    assert_eq!(event, ClientEvent::PeerFound { peer: server_addr });
    client_hs.enter_hello(server_addr, 30);

    // The holepuncher's answer to the server announces the client; the
    // server sends it one HelloReq.
    let (to_server, dest_server) = &infos[1];
    assert_eq!(*dest_server, server_addr);
    let reaction = wait_reaction(to_server, hp, hp, false);
    assert_eq!(reaction, WaitReaction::SendHelloReq { to: client_addr });

    // The client's HelloReq reaches the server, which answers HelloResp.
    let reaction = wait_reaction(&Message::HelloReq, client_addr, hp, false);
    assert_eq!(reaction, WaitReaction::ReplyHelloResp { to: client_addr });

    // The HelloResp completes the client's handshake.
    assert_eq!(client_hs.on_message(&Message::HelloResp, server_addr), ClientEvent::Connected);
    let client_core = client_hs.finish(40);
    assert_eq!(client_core.get_server(), server_addr);

    // Data from the client is delivered by the server's steady state.
    let data = Message::Data(holepunch::messages::DataContents { data: b"hello".to_vec() });
    assert_eq!(wait_reaction(&data, client_addr, hp, false), WaitReaction::DeliverData);

    // And the server's keepalive refreshes its registration.
    assert_eq!(
        server_core.keepalive_message(),
        Message::Register(RegisterContents { session_id: b"abc".to_vec() })
    );
    server_core.keepalive_sent(50);
}

#[test]
fn session_not_found_before_any_register() {
    // A client that joins before any server registered is told so.
    let hp = addr(1, 4100);
    let client_addr = addr(1, 4300);
    let (hs, client_req) = JoinHandshake::start(hp, b"zzz".to_vec(), 0).unwrap();
    let mut store = SessionStore::new();
    let answers = replies(handle_message(&mut store, &client_req, client_addr, true));
    assert_eq!(answers.len(), 1);
    assert_eq!(answers[0].1, client_addr);
    assert_eq!(hs.on_message(&answers[0].0, hp), ClientEvent::NotFound);
}
