use vstd::prelude::*;

use crate::frames::{
    kind_model, parse_kind, NodeRequest, NodeResponse, RequestModel, ResponseModel, RpcKind,
};
use crate::listener::RaftCreated;

verus! {

/// Time units between two heartbeat ticks of a session.
pub const HEARTBEAT_INTERVAL: u64 = 1;

/// A session whose last heartbeat is older than this many time units is
/// presumed dead and torn down on the next tick.
pub const LIVENESS_THRESHOLD: u64 = 10;

/// The observable lifecycle states of a session.
#[derive(Clone, Copy, Debug, PartialEq, Eq, Structural)]
pub enum SessionState {
    /// Accepted, but the peer has not announced an identity yet.
    Unidentified,
    /// A `Join` was received and the peer registry was notified.
    Identified,
    /// Terminal: liveness failed; the connection is being torn down.
    Closed,
}

/// Mathematical model of a session: exactly the state its decisions read.
pub struct SessionModel {
    /// Time of the most recent heartbeat-refreshing traffic.
    pub hb: u64,
    /// The peer's announced identity, absent before its `Join`.
    pub id: Option<u64>,
    /// Whether the consensus engine handle has been attached.
    pub engine: bool,
    /// Whether liveness has failed.
    pub closed: bool,
}

/// The lifecycle state a session model is in.
pub open spec fn session_state(s: SessionModel) -> SessionState {
    if s.closed {
        SessionState::Closed
    } else if s.id is Some {
        SessionState::Identified
    } else {
        SessionState::Unidentified
    }
}

/// What a session asks its surroundings to do after handling one frame.
#[derive(Debug, PartialEq, Eq)]
pub enum SessionEffect {
    /// No outward effect.
    Nothing,
    /// Tell the peer registry that this identity is now reachable here.
    Notify(u64),
    /// Write `NodeResponse::Result(cid, payload)` back to the peer now.
    Respond(u64, String),
    /// Hand the RPC envelope to the consensus engine: correlation id,
    /// resolved kind, serialized body. The engine's outcome must be folded
    /// back through `engine_result`.
    CallEngine(u64, RpcKind, String),
}

/// Model of a `SessionEffect`, with string payloads as sequences.
pub enum EffectModel {
    Nothing,
    Notify(u64),
    Respond(u64, Seq<char>),
    CallEngine(u64, RpcKind, Seq<char>),
}

impl View for SessionEffect {
    type V = EffectModel;

    open spec fn view(&self) -> EffectModel {
        match self {
            SessionEffect::Nothing => EffectModel::Nothing,
            SessionEffect::Notify(id) => EffectModel::Notify(*id),
            SessionEffect::Respond(cid, payload) => EffectModel::Respond(*cid, payload@),
            SessionEffect::CallEngine(cid, kind, body) => EffectModel::CallEngine(
                *cid,
                *kind,
                body@,
            ),
        }
    }
}

/// What one heartbeat tick does: `ping` is the keepalive owed to the peer,
/// `stop` asks the surroundings to tear the session down.
#[derive(Clone, Copy, Debug, PartialEq, Eq, Structural)]
pub struct TickEffect {
    pub ping: bool,
    pub stop: bool,
}

/// Whether a text is a well-formed JSON document. An RPC body that is not
/// even well-formed JSON cannot decode into any supported request shape, so
/// the session degrades it to an empty-payload reply without consulting the
/// engine; decoding into the engine's typed request shapes happens at the
/// engine boundary itself.
pub uninterp spec fn json_doc(text: Seq<char>) -> bool;

/// Relies on serde_json::from_str::<serde_json::Value>: whether a text
/// parses as a JSON document depends on the text alone.
#[verifier::external_body]
fn json_body_parses(body: &String) -> (r: bool)
    ensures
        r == json_doc(body@),
{
    serde_json::from_str::<serde_json::Value>(body).is_ok()
}

/// The dispatch decision for one RPC envelope: an unknown kind, a malformed
/// body, or an absent engine each degrade to an empty-payload reply (never
/// an error frame, never a closed connection); otherwise the envelope goes
/// to the engine under its correlation id.
pub open spec fn message_effect(engine: bool, cid: u64, kind: Seq<char>, body: Seq<char>) -> EffectModel {
    match kind_model(kind) {
        Some(k) => if !json_doc(body) {
            EffectModel::Respond(cid, Seq::<char>::empty())
        } else if !engine {
            EffectModel::Respond(cid, Seq::<char>::empty())
        } else {
            EffectModel::CallEngine(cid, k, body)
        },
        None => EffectModel::Respond(cid, Seq::<char>::empty()),
    }
}

/// The session transition for one incoming frame at time `now`:
/// - `Ping` refreshes the heartbeat clock and has no outward effect;
/// - the first `Join` records the identity and notifies the peer registry,
///   any later `Join` is ignored;
/// - `Message` leaves the session state alone and yields the dispatch
///   decision of `message_effect`.
pub open spec fn handle_model(s: SessionModel, m: RequestModel, now: u64) -> (SessionModel, EffectModel) {
    match m {
        RequestModel::Ping => (
            SessionModel { hb: now, ..s },
            EffectModel::Nothing,
        ),
        RequestModel::Join(id) => if s.id is None {
            (SessionModel { id: Some(id), ..s }, EffectModel::Notify(id))
        } else {
            (s, EffectModel::Nothing)
        },
        RequestModel::Message(cid, kind, body) => (
            s,
            message_effect(s.engine, cid, kind, body),
        ),
    }
}

/// The session transition for one heartbeat tick at time `now`: the session
/// always owes the peer one keepalive `Ping`, and closes exactly when the
/// last heartbeat is staler than the liveness threshold.
pub open spec fn tick_model(s: SessionModel, now: u64) -> (SessionModel, TickEffect) {
    let stale = now - s.hb > LIVENESS_THRESHOLD;
    (
        SessionModel { closed: s.closed || stale, ..s },
        TickEffect { ping: true, stop: stale },
    )
}

/// The response frame owed to the peer once the engine boundary has settled
/// an RPC: the engine's serialized response on success, an empty payload
/// when the body did not decode or the engine call failed.
pub open spec fn result_model(cid: u64, outcome: Option<Seq<char>>) -> ResponseModel {
    match outcome {
        Some(payload) => ResponseModel::Result(cid, payload),
        None => ResponseModel::Result(cid, Seq::<char>::empty()),
    }
}

/// Model of an engine outcome carried as an optional serialized response.
pub open spec fn outcome_model(outcome: Option<String>) -> Option<Seq<char>> {
    match outcome {
        Some(payload) => Some(payload@),
        None => None,
    }
}

/// Per-connection session state: the verified core of the transport layer.
/// One value of this type is owned by exactly one connection's execution
/// context; the surroundings feed it decoded frames, clock ticks and engine
/// outcomes, and perform the effects it returns.
pub struct NodeSession<E> {
    /// Time of the most recent heartbeat-refreshing traffic.
    pub hb: u64,
    /// The peer's announced identity; absent until its `Join` arrives.
    pub id: Option<u64>,
    /// Late-bound handle to the consensus engine; absent until attached.
    pub raft: Option<E>,
    /// Terminal flag: set when liveness fails.
    pub closed: bool,
}

impl<E> View for NodeSession<E> {
    type V = SessionModel;

    open spec fn view(&self) -> SessionModel {
        SessionModel {
            hb: self.hb,
            id: self.id,
            engine: self.raft is Some,
            closed: self.closed,
        }
    }
}

impl<E> NodeSession<E> {
    /// A fresh session for a just-accepted connection at time `now`:
    /// unidentified, engine not yet attached, heartbeat fresh, live.
    pub fn new(now: u64) -> (s: Self)
        ensures
            s@ == (SessionModel { hb: now, id: None, engine: false, closed: false }),
            s.raft is None,
    {
        NodeSession { hb: now, id: None, raft: None, closed: false }
    }

    /// Accepts the notice that the consensus engine now exists and
    /// late-binds its handle; a later notice replaces the handle. Nothing
    /// else about the session changes.
    pub fn handle_raft_created(&mut self, msg: RaftCreated<E>)
        ensures
            final(self).raft == Some(msg.0),
            final(self)@ == (SessionModel { engine: true, ..old(self)@ }),
    {
        self.raft = Some(msg.0);
    }

    /// Handles one decoded frame received at time `now`, returning the
    /// effect the surroundings must perform. The transition is exactly
    /// `handle_model` on the session's model; the engine handle itself is
    /// never touched by incoming frames.
    pub fn handle(&mut self, msg: NodeRequest, now: u64) -> (r: SessionEffect)
        requires
            !old(self).closed,
        ensures
            final(self)@ == handle_model(old(self)@, msg@, now).0,
            r@ == handle_model(old(self)@, msg@, now).1,
            final(self).raft == old(self).raft,
    {
        match msg {
            NodeRequest::Ping => {
                self.hb = now;
                SessionEffect::Nothing
            },
            NodeRequest::Join(id) => {
                if self.id.is_none() {
                    self.id = Some(id);
                    SessionEffect::Notify(id)
                } else {
                    SessionEffect::Nothing
                }
            },
            NodeRequest::Message(cid, kind, body) => self.route_message(cid, kind, body),
        }
    }

    /// The dispatch decision for one RPC envelope; see `message_effect`.
    fn route_message(&self, cid: u64, kind: String, body: String) -> (r: SessionEffect)
        ensures
            r@ == message_effect(self.raft is Some, cid, kind@, body@),
    {
        match parse_kind(&kind) {
            Some(k) => {
                if !json_body_parses(&body) {
                    SessionEffect::Respond(cid, String::new())
                } else if self.raft.is_some() {
                    SessionEffect::CallEngine(cid, k, body)
                } else {
                    SessionEffect::Respond(cid, String::new())
                }
            },
            None => SessionEffect::Respond(cid, String::new()),
        }
    }

    /// One heartbeat tick at time `now`: always emits exactly one keepalive
    /// `Ping` toward the peer, and stops the session exactly when the last
    /// heartbeat is staler than `LIVENESS_THRESHOLD`.
    pub fn hb_tick(&mut self, now: u64) -> (r: TickEffect)
        requires
            !old(self).closed,
        ensures
            final(self)@ == tick_model(old(self)@, now).0,
            r == tick_model(old(self)@, now).1,
            final(self).raft == old(self).raft,
    {
        let stale = now > self.hb && now - self.hb > LIVENESS_THRESHOLD;
        if stale {
            self.closed = true;
        }
        TickEffect { ping: true, stop: stale }
    }
}

/// Folds the engine boundary's outcome for correlation id `cid` into the
/// response frame owed to the peer: the serialized response on success, an
/// empty payload when the body did not decode or the engine call failed.
/// An RPC outcome never closes the connection.
pub fn engine_result(cid: u64, outcome: Option<String>) -> (r: NodeResponse)
    ensures
        r@ == result_model(cid, outcome_model(outcome)),
{
    match outcome {
        Some(payload) => NodeResponse::Result(cid, payload),
        None => NodeResponse::Result(cid, String::new()),
    }
}

/// Law: a live session stops, and reaches `Closed`, on exactly those ticks
/// whose time is more than the liveness threshold past the last heartbeat;
/// any earlier tick leaves its state alone. Since ticks arrive every
/// `HEARTBEAT_INTERVAL`, a session that stops receiving heartbeats closes
/// within one interval of the threshold being crossed.
pub proof fn lemma_stale_session_stops(s: SessionModel, now: u64)
    requires
        !s.closed,
    ensures
        tick_model(s, now).0.closed == (now - s.hb > LIVENESS_THRESHOLD),
        tick_model(s, now).1.stop == (now - s.hb > LIVENESS_THRESHOLD),
        session_state(tick_model(s, now).0) == (if now - s.hb > LIVENESS_THRESHOLD {
            SessionState::Closed
        } else {
            session_state(s)
        }),
        tick_model(s, now).0 == (SessionModel {
            closed: now - s.hb > LIVENESS_THRESHOLD,
            ..s
        }),
{
}

/// Law: every heartbeat tick yields exactly one outbound keepalive `Ping`,
/// whatever the liveness state of the session.
pub proof fn lemma_tick_always_pings(s: SessionModel, now: u64)
    ensures
        tick_model(s, now).1.ping,
{
}

/// Law: an RPC envelope of a supported kind with a well-formed body reaching
/// a session with an attached engine is handed to the engine exactly once,
/// under its own correlation id and with its body intact, and the session's
/// state is untouched; and whatever serialized response the engine returns
/// is echoed to the peer unchanged under that same correlation id.
pub proof fn lemma_supported_message_reaches_engine(
    s: SessionModel,
    cid: u64,
    kind: Seq<char>,
    body: Seq<char>,
    now: u64,
    k: RpcKind,
    payload: Seq<char>,
)
    requires
        s.engine,
        kind_model(kind) == Some(k),
        json_doc(body),
    ensures
        handle_model(s, RequestModel::Message(cid, kind, body), now).0 == s,
        handle_model(s, RequestModel::Message(cid, kind, body), now).1 == EffectModel::CallEngine(
            cid,
            k,
            body,
        ),
        result_model(cid, Some(payload)) == ResponseModel::Result(cid, payload),
{
}

/// Law: an RPC envelope reaching a session without an attached engine is
/// answered with exactly one empty-payload `Result` under its correlation
/// id, whatever its kind and body; the session neither blocks on an engine
/// nor changes state, and in particular never closes over it.
pub proof fn lemma_engine_absent_replies_empty(
    s: SessionModel,
    cid: u64,
    kind: Seq<char>,
    body: Seq<char>,
    now: u64,
)
    requires
        !s.engine,
    ensures
        handle_model(s, RequestModel::Message(cid, kind, body), now).0 == s,
        handle_model(s, RequestModel::Message(cid, kind, body), now).1 == EffectModel::Respond(
            cid,
            Seq::<char>::empty(),
        ),
{
}

/// Law: an RPC envelope whose kind is outside the supported set is answered
/// with exactly one empty-payload `Result` under its correlation id and is
/// never handed to the engine, engine or no engine; the session's state is
/// untouched.
pub proof fn lemma_unknown_kind_replies_empty(
    s: SessionModel,
    cid: u64,
    kind: Seq<char>,
    body: Seq<char>,
    now: u64,
)
    requires
        kind_model(kind) is None,
    ensures
        handle_model(s, RequestModel::Message(cid, kind, body), now).0 == s,
        handle_model(s, RequestModel::Message(cid, kind, body), now).1 == EffectModel::Respond(
            cid,
            Seq::<char>::empty(),
        ),
        !(handle_model(s, RequestModel::Message(cid, kind, body), now).1 matches EffectModel::CallEngine(
            c,
            rk,
            b,
        )),
{
}

/// Law: the first `Join` moves an unidentified session to `Identified` and
/// notifies the peer registry exactly once; a second `Join`, whatever
/// identity it carries, is ignored: no state change and no further
/// notification. (The policy for a repeated `Join` is: first identity wins.)
pub proof fn lemma_join_identifies_once(s: SessionModel, a: u64, b: u64, t1: u64, t2: u64)
    requires
        !s.closed,
        s.id is None,
    ensures
        ({
            let (s1, e1) = handle_model(s, RequestModel::Join(a), t1);
            let (s2, e2) = handle_model(s1, RequestModel::Join(b), t2);
            e1 == EffectModel::Notify(a) && s1.id == Some(a) && session_state(s1)
                == SessionState::Identified && e2 == EffectModel::Nothing && s2 == s1
        }),
{
}

} // verus!
