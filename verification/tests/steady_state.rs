use holepunch::messages::DataContents;
use holepunch::messages::Message;
use holepunch::messages::PeerAddr;
use holepunch::messages::PeerInfoContents;
use holepunch::messages::RegisterContents;
use holepunch::server::RegisterHandshake;
use holepunch::steady::KEEPALIVE_INTERVAL_MS;
use holepunch::steady::WaitPlan;
use holepunch::steady::WaitReaction;
use holepunch::steady::wait_plan;
use holepunch::steady::wait_reaction;

fn addr(last: u8, port: u16) -> PeerAddr {
    PeerAddr::V4 { octets: [10, 0, 0, last], port }
}

#[test]
fn wait_plan_services_due_keepalive_first() {
    // Keepalive due and return deadline passed: the keepalive wins.
    assert_eq!(wait_plan(11_000, 10_000, Some(10_500)), WaitPlan::SendKeepalive);
    assert_eq!(wait_plan(11_000, 10_000, None), WaitPlan::SendKeepalive);
}

#[test]
fn wait_plan_returns_after_deadline() {
    assert_eq!(wait_plan(6_000, 10_000, Some(5_000)), WaitPlan::ReturnNoData);
}

#[test]
fn wait_plan_waits_until_the_earlier_timer() {
    // The return deadline is earlier than the keepalive.
    assert_eq!(wait_plan(1_000, 10_000, Some(5_000)), WaitPlan::Wait { timeout_ms: 4_000 });
    // The keepalive is earlier than the return deadline.
    assert_eq!(wait_plan(1_000, 3_000, Some(5_000)), WaitPlan::Wait { timeout_ms: 2_000 });
    // No return deadline: wait for the keepalive.
    assert_eq!(wait_plan(1_000, 10_000, None), WaitPlan::Wait { timeout_ms: 9_000 });
}

#[test]
fn wait_plan_retries_when_wakeup_is_due() {
    // Exactly at the keepalive instant nothing has expired yet and the
    // wakeup is due: plan again off a fresh clock reading.
    assert_eq!(wait_plan(10_000, 10_000, None), WaitPlan::Retry);
    assert_eq!(wait_plan(5_000, 10_000, Some(5_000)), WaitPlan::Retry);
}

#[test]
fn keepalives_recur_across_a_window() {
    // A server whose registration completed at time 0 sends at least two
    // keepalives across a 25 s window.
    let hp = addr(1, 1000);
    let (hs, _req) = RegisterHandshake::start(hp, b"k".to_vec(), 0).unwrap();
    let mut core = hs.finish(0);
    let mut keepalives = 0;
    let mut now: u64 = 0;
    while now <= 25_000 {
        match wait_plan(now, core.next_keepalive_at_ms, None) {
            WaitPlan::SendKeepalive => {
                assert_eq!(
                    core.keepalive_message(),
                    Message::Register(RegisterContents { session_id: b"k".to_vec() })
                );
                core.keepalive_sent(now);
                keepalives += 1;
            },
            WaitPlan::Wait { timeout_ms } => {
                now += timeout_ms;
            },
            WaitPlan::Retry => {
                now += 1;
            },
            WaitPlan::ReturnNoData => unreachable!(),
        }
        // The receive always times out in this simulation.
        now += 1;
    }
    assert_eq!(core.keepalive_interval_ms, KEEPALIVE_INTERVAL_MS);
    assert!(keepalives >= 2);
}

#[test]
fn hello_req_is_answered_to_sender() {
    let hp = addr(1, 1000);
    let x = addr(5, 5000);
    let r = wait_reaction(&Message::HelloReq, x, hp, false);
    assert_eq!(r, WaitReaction::ReplyHelloResp { to: x });
}

#[test]
fn peer_info_from_holepuncher_triggers_hello() {
    let hp = addr(1, 1000);
    let peer = addr(7, 7000);
    let r = wait_reaction(
        &Message::PeerInfo(PeerInfoContents { peer_addr: peer }),
        hp,
        hp,
        false,
    );
    assert_eq!(r, WaitReaction::SendHelloReq { to: peer });
}

#[test]
fn peer_info_from_other_source_is_dropped() {
    let hp = addr(1, 1000);
    let peer = addr(7, 7000);
    let stranger = addr(8, 8000);
    let r = wait_reaction(
        &Message::PeerInfo(PeerInfoContents { peer_addr: peer }),
        stranger,
        hp,
        false,
    );
    assert_eq!(r, WaitReaction::Ignore);
}

#[test]
fn data_is_delivered() {
    let hp = addr(1, 1000);
    let x = addr(5, 5000);
    let r = wait_reaction(&Message::Data(DataContents { data: b"hello".to_vec() }), x, hp, false);
    assert_eq!(r, WaitReaction::DeliverData);
}

#[test]
fn interrupt_returns_only_from_loopback_and_when_allowed() {
    let hp = addr(1, 1000);
    let lo = PeerAddr::V4 { octets: [127, 0, 0, 1], port: 2 };
    let far = addr(5, 5000);
    assert_eq!(wait_reaction(&Message::LocalInterrupt, lo, hp, true), WaitReaction::ReturnInterrupted);
    assert_eq!(wait_reaction(&Message::LocalInterrupt, far, hp, true), WaitReaction::Ignore);
    assert_eq!(wait_reaction(&Message::LocalInterrupt, lo, hp, false), WaitReaction::Ignore);
}

#[test]
fn protocol_requests_are_dropped_in_steady_state() {
    let hp = addr(1, 1000);
    let x = addr(5, 5000);
    for m in [
        Message::Register(RegisterContents { session_id: b"a".to_vec() }),
        Message::HelloResp,
    ] {
        assert_eq!(wait_reaction(&m, x, hp, true), WaitReaction::Ignore);
    }
}
