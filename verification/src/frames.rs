use vstd::prelude::*;

verus! {

/// One decoded request frame of the wire protocol, as received from the
/// remote peer. The codec that turns bytes into frames is a serialization
/// boundary outside this crate; the session logic starts here.
#[derive(Debug, PartialEq, Eq)]
pub enum NodeRequest {
    /// Liveness probe; refreshes the receiver's heartbeat clock.
    Ping,
    /// The peer announces its cluster-unique node identity.
    Join(u64),
    /// An RPC envelope: correlation id, RPC kind, serialized request body.
    Message(u64, String, String),
}

/// One response frame, written back to the remote peer.
#[derive(Debug, PartialEq, Eq)]
pub enum NodeResponse {
    /// Liveness reply, sent on every heartbeat tick.
    Ping,
    /// An RPC result: the original correlation id and the serialized
    /// response body (empty when the RPC was degraded to a no-op).
    Result(u64, String),
}

/// Mathematical model of a request frame: string payloads as `Seq<char>`.
pub enum RequestModel {
    Ping,
    Join(u64),
    Message(u64, Seq<char>, Seq<char>),
}

/// Mathematical model of a response frame.
pub enum ResponseModel {
    Ping,
    Result(u64, Seq<char>),
}

impl View for NodeRequest {
    type V = RequestModel;

    open spec fn view(&self) -> RequestModel {
        match self {
            NodeRequest::Ping => RequestModel::Ping,
            NodeRequest::Join(id) => RequestModel::Join(*id),
            NodeRequest::Message(cid, kind, body) => RequestModel::Message(*cid, kind@, body@),
        }
    }
}

impl View for NodeResponse {
    type V = ResponseModel;

    open spec fn view(&self) -> ResponseModel {
        match self {
            NodeResponse::Ping => ResponseModel::Ping,
            NodeResponse::Result(cid, payload) => ResponseModel::Result(*cid, payload@),
        }
    }
}

/// The RPC kinds a session knows how to forward to the consensus engine.
#[derive(Clone, Copy, Debug, PartialEq, Eq, Structural)]
pub enum RpcKind {
    AppendEntries,
    Vote,
    InstallSnapshot,
}

/// Which supported RPC kind, if any, a `Message` frame's kind string names.
pub open spec fn kind_model(kind: Seq<char>) -> Option<RpcKind> {
    if kind == "AppendEntriesRequest"@ {
        Some(RpcKind::AppendEntries)
    } else if kind == "VoteRequest"@ {
        Some(RpcKind::Vote)
    } else if kind == "InstallSnapshotRequest"@ {
        Some(RpcKind::InstallSnapshot)
    } else {
        None
    }
}

/// Resolves a kind string to a supported RPC kind; any other string is
/// outside the supported set and resolves to `None`.
pub fn parse_kind(kind: &String) -> (r: Option<RpcKind>)
    ensures
        r == kind_model(kind@),
{
    let append: String = "AppendEntriesRequest".to_owned();
    let vote: String = "VoteRequest".to_owned();
    let snapshot: String = "InstallSnapshotRequest".to_owned();
    if *kind == append {
        Some(RpcKind::AppendEntries)
    } else if *kind == vote {
        Some(RpcKind::Vote)
    } else if *kind == snapshot {
        Some(RpcKind::InstallSnapshot)
    } else {
        None
    }
}

} // verus!
