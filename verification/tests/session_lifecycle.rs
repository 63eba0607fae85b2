use raft_transport::frames::NodeRequest;
use raft_transport::listener::{Listener, RaftCreated};
use raft_transport::session::{
    NodeSession, SessionEffect, HEARTBEAT_INTERVAL, LIVENESS_THRESHOLD,
};

#[test]
fn liveness_constants_match_protocol() {
    assert_eq!(HEARTBEAT_INTERVAL, 1);
    assert_eq!(LIVENESS_THRESHOLD, 10);
}

#[test]
fn fresh_session_is_unidentified_and_live() {
    let listener: Listener<&str, u32> = Listener::new("registry");
    assert_eq!(listener.network, "registry");
    assert!(listener.raft.is_none());
    let session: NodeSession<u32> = listener.handle(3);
    assert_eq!(session.hb, 3);
    assert_eq!(session.id, None);
    assert!(session.raft.is_none());
    assert!(!session.closed);
}

#[test]
fn tick_always_pings_while_live() {
    let mut session: NodeSession<u32> = NodeSession::new(0);
    for now in 1..=LIVENESS_THRESHOLD {
        let tick = session.hb_tick(now);
        assert!(tick.ping);
        assert!(!tick.stop);
        assert!(!session.closed);
    }
}

#[test]
fn silent_session_closes_one_tick_past_threshold() {
    let mut session: NodeSession<u32> = NodeSession::new(0);
    let tick = session.hb_tick(LIVENESS_THRESHOLD);
    assert!(tick.ping);
    assert!(!tick.stop);
    let tick = session.hb_tick(LIVENESS_THRESHOLD + 1);
    assert!(tick.ping);
    assert!(tick.stop);
    assert!(session.closed);
}

#[test]
fn ping_refreshes_heartbeat() {
    let mut session: NodeSession<u32> = NodeSession::new(0);
    let effect = session.handle(NodeRequest::Ping, 9);
    assert_eq!(effect, SessionEffect::Nothing);
    assert_eq!(session.hb, 9);
    let tick = session.hb_tick(LIVENESS_THRESHOLD + 1);
    assert!(!tick.stop);
    assert!(!session.closed);
}

#[test]
fn rpc_traffic_does_not_refresh_heartbeat() {
    let mut session: NodeSession<u32> = NodeSession::new(0);
    let body = "{\"target\":1,\"term\":1,\"candidate_id\":2,\"last_log_index\":0,\"last_log_term\":0}";
    session.handle(
        NodeRequest::Message(7, "VoteRequest".to_owned(), body.to_owned()),
        9,
    );
    assert_eq!(session.hb, 0);
    let tick = session.hb_tick(LIVENESS_THRESHOLD + 1);
    assert!(tick.stop);
    assert!(session.closed);
}

#[test]
fn first_join_identifies_and_notifies_once() {
    let mut session: NodeSession<u32> = NodeSession::new(0);
    let effect = session.handle(NodeRequest::Join(7), 1);
    assert_eq!(effect, SessionEffect::Notify(7));
    assert_eq!(session.id, Some(7));
    let effect = session.handle(NodeRequest::Join(9), 2);
    assert_eq!(effect, SessionEffect::Nothing);
    assert_eq!(session.id, Some(7));
}

#[test]
fn raft_created_attaches_engine_late() {
    let mut session: NodeSession<u32> = NodeSession::new(0);
    assert!(session.raft.is_none());
    session.handle_raft_created(RaftCreated(11));
    assert_eq!(session.raft, Some(11));
    assert!(!session.closed);
    assert_eq!(session.id, None);
}
