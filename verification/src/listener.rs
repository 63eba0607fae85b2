use vstd::prelude::*;

use crate::session::{NodeSession, SessionModel};

verus! {

/// The notice that the consensus engine now exists, carrying its handle; it
/// late-binds the engine to a session (the engine may not exist yet when a
/// connection is accepted).
pub struct RaftCreated<E>(pub E);

/// The acceptor's state. Binding the listening socket and accepting
/// connections are the surrounding application's I/O; this type holds what
/// the acceptor hands to each new session: the peer registry handle, and an
/// engine handle that is absent at bind time.
pub struct Listener<R, E> {
    /// Handle to the peer registry collaborator.
    pub network: R,
    /// The consensus engine handle; absent until the engine is created.
    pub raft: Option<E>,
}

impl<R, E> Listener<R, E> {
    /// A freshly bound acceptor: it knows the peer registry and no engine
    /// yet. A failed bind is fatal in the surrounding application and no
    /// `Listener` value exists for it.
    pub fn new(network: R) -> (l: Self)
        ensures
            l.network == network,
            l.raft is None,
    {
        Listener { network, raft: None }
    }

    /// Turns one accepted connection at time `now` into one fresh session:
    /// unidentified, engine not yet attached, heartbeat fresh. The acceptor
    /// keeps no ownership of the session and never blocks on it; an accept
    /// error is the application's to ignore, and acceptance continues.
    pub fn handle(&self, now: u64) -> (s: NodeSession<E>)
        ensures
            s@ == (SessionModel { hb: now, id: None, engine: false, closed: false }),
            s.raft is None,
    {
        NodeSession::new(now)
    }
}

} // verus!
